use vstd::prelude::*;
use crate::model::SearchData;

verus! {

/// What the user chose on a page of search results.
#[derive(Clone, Copy, Debug, PartialEq, Eq, Structural)]
pub enum SearchAction {
    /// The series at this position on the page.
    Selected(usize),
    NextPage,
    PrevPage,
    NewSearch,
    Quit,
}

/// The entries that follow the results on every page, in this order.
pub open spec fn control_labels() -> Seq<Seq<char>> {
    seq!["下一页"@, "上一页"@, "重新搜索"@, "退出"@]
}

/// The menu of a result page: each series title, then the four controls.
pub fn menu_options(items: &Vec<SearchData>) -> (r: Vec<String>)
    ensures
        r@.len() == items@.len() + 4,
        forall|i: int| 0 <= i < items@.len() ==> r@[i]@ == items@[i].title@,
        forall|k: int| 0 <= k < 4 ==> r@[items@.len() + k]@ == control_labels()[k],
{
    let mut out: Vec<String> = Vec::new();
    let mut k: usize = 0;
    while k < items.len()
        invariant
            k <= items@.len(),
            out@.len() == k,
            forall|i: int| 0 <= i < k ==> out@[i]@ == items@[i].title@,
        decreases items@.len() - k,
    {
        out.push(items[k].display_text());
        k = k + 1;
    }
    out.push(String::from_str("下一页"));
    out.push(String::from_str("上一页"));
    out.push(String::from_str("重新搜索"));
    out.push(String::from_str("退出"));
    out
}

/// The action for the menu entry at `selection` on a page of `n_items`
/// results; `None` past the last entry.
pub fn action_for(selection: usize, n_items: usize) -> (r: Option<SearchAction>)
    ensures
        selection < n_items ==> r == Some(SearchAction::Selected(selection)),
        selection >= n_items ==> r == (if selection - n_items == 0 {
            Some(SearchAction::NextPage)
        } else if selection - n_items == 1 {
            Some(SearchAction::PrevPage)
        } else if selection - n_items == 2 {
            Some(SearchAction::NewSearch)
        } else if selection - n_items == 3 {
            Some(SearchAction::Quit)
        } else {
            None
        }),
{
    if selection < n_items {
        return Some(SearchAction::Selected(selection));
    }
    let k = selection - n_items;
    if k == 0 {
        Some(SearchAction::NextPage)
    } else if k == 1 {
        Some(SearchAction::PrevPage)
    } else if k == 2 {
        Some(SearchAction::NewSearch)
    } else if k == 3 {
        Some(SearchAction::Quit)
    } else {
        None
    }
}

/// The page after `page`, staying at the largest page number.
pub fn next_page(page: i8) -> (r: i8)
    ensures
        r as int == (if page < i8::MAX { page as int + 1 } else { page as int }),
{
    if page < i8::MAX {
        page + 1
    } else {
        page
    }
}

/// The page before `page`, staying at the first page.
pub fn prev_page(page: i8) -> (r: i8)
    ensures
        r as int == (if page > 1 { page as int - 1 } else { page as int }),
{
    if page > 1 {
        page - 1
    } else {
        page
    }
}

/// The page shown after `action` on `page`.
pub fn page_after(page: i8, action: SearchAction) -> (r: i8)
    ensures
        action == SearchAction::NextPage ==> r as int == (if page < i8::MAX {
            page as int + 1
        } else {
            page as int
        }),
        action == SearchAction::PrevPage ==> r as int == (if page > 1 {
            page as int - 1
        } else {
            page as int
        }),
        action != SearchAction::NextPage && action != SearchAction::PrevPage ==> r == page,
{
    match action {
        SearchAction::NextPage => next_page(page),
        SearchAction::PrevPage => prev_page(page),
        _ => page,
    }
}

/// Relies on `char::is_whitespace`: whether `c` has the Unicode
/// `White_Space` property.
#[verifier::external_body]
fn char_is_whitespace(c: char) -> (r: bool)
    ensures
        r == whitespace(c),
{
    c.is_whitespace()
}

/// Whether a character has the Unicode `White_Space` property.
pub uninterp spec fn whitespace(c: char) -> bool;

/// Whether a keyword holds nothing but white space.
pub fn is_blank(s: &str) -> (r: bool)
    ensures
        r == (forall|i: int| 0 <= i < s@.len() ==> whitespace(#[trigger] s@[i])),
{
    let n = s.unicode_len();
    let mut k: usize = 0;
    while k < n
        invariant
            n == s@.len(),
            k <= n,
            forall|i: int| 0 <= i < k ==> whitespace(#[trigger] s@[i]),
        decreases n - k,
    {
        if !char_is_whitespace(s.get_char(k)) {
            return false;
        }
        k = k + 1;
    }
    true
}

} // verus!
