use vstd::prelude::*;

verus! {

/// The base address of the catalogue service.
pub fn base_api() -> (r: &'static str)
    ensures
        r@ == "https://api.cenguigui.cn"@,
{
    "https://api.cenguigui.cn"
}

/// The decimal digit for `d < 10`.
pub open spec fn digit_char(d: nat) -> char {
    if d == 0 { '0' } else if d == 1 { '1' } else if d == 2 { '2' } else if d == 3 { '3' }
    else if d == 4 { '4' } else if d == 5 { '5' } else if d == 6 { '6' } else if d == 7 { '7' }
    else if d == 8 { '8' } else { '9' }
}

/// The decimal digits of a natural number, most significant first.
pub open spec fn digits(n: nat) -> Seq<char>
    decreases n,
{
    if n < 10 {
        seq![digit_char(n)]
    } else {
        digits(n / 10) + seq![digit_char(n % 10)]
    }
}

/// An integer written in decimal, with a leading `-` when negative.
pub open spec fn decimal(n: int) -> Seq<char> {
    if n < 0 {
        seq!['-'] + digits((-n) as nat)
    } else {
        digits(n as nat)
    }
}

/// Relies on `i8`'s `ToString`: the value written in decimal.
#[verifier::external_body]
fn i8_text(n: i8) -> (r: String)
    ensures
        r@ == decimal(n as int),
{
    n.to_string()
}

/// The request path of a search for `title` on the given page.
pub fn search_path(title: &str, page: i8) -> (r: String)
    ensures
        r@ == "/api/duanju/api.php?name="@ + title@ + "&page="@ + decimal(page as int)
            + "&showRawParams=false"@,
{
    let mut p = String::from_str("/api/duanju/api.php?name=");
    p.append(title);
    p.append("&page=");
    let n = i8_text(page);
    p.append(n.as_str());
    p.append("&showRawParams=false");
    p
}

/// The request path that lists the episodes of a series.
pub fn book_path(book_id: &str) -> (r: String)
    ensures
        r@ == "/api/duanju/api.php?book_id="@ + book_id@ + "&showRawParams=false"@,
{
    String::from_str("/api/duanju/api.php?book_id=").concat(book_id).concat("&showRawParams=false")
}

/// The request path that resolves an episode's media.
pub fn video_path(video_id: &str) -> (r: String)
    ensures
        r@ == "/api/duanju/api.php?video_id="@ + video_id@ + "&type=json&showRawParams=false"@,
{
    String::from_str("/api/duanju/api.php?video_id=").concat(video_id).concat(
        "&type=json&showRawParams=false",
    )
}

/// A request URL: the base address followed by the path.
pub fn build_url(base: &str, path: &str) -> (r: String)
    ensures
        r@ == base@ + path@,
{
    String::from_str(base).concat(path)
}

} // verus!
