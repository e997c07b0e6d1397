use vstd::prelude::*;

verus! {

/// Characters that may not appear in a file name.
pub open spec fn forbidden(c: char) -> bool {
    c == '/' || c == '\\' || c == ':' || c == '*' || c == '?' || c == '"' || c == '<' || c == '>'
        || c == '|'
}

/// A character of a sanitized name: forbidden ones become an underscore.
pub open spec fn sanitized_char(c: char) -> char {
    if forbidden(c) {
        '_'
    } else {
        c
    }
}

/// The sanitized form of a name: each forbidden character replaced by `_`,
/// and an empty name replaced by a single `_`.
pub open spec fn sanitized(s: Seq<char>) -> Seq<char> {
    if s.len() == 0 {
        seq!['_']
    } else {
        s.map_values(|c: char| sanitized_char(c))
    }
}

/// Whether `c` is one of the characters that a file name may not hold.
pub fn is_forbidden(c: char) -> (r: bool)
    ensures
        r == forbidden(c),
{
    c == '/' || c == '\\' || c == ':' || c == '*' || c == '?' || c == '"' || c == '<' || c == '>'
        || c == '|'
}

/// Replaces every character that a file name may not hold with `_`; an empty
/// name becomes `"_"`.
pub fn sanitize_filename(name: &str) -> (r: String)
    ensures
        r@ == sanitized(name@),
{
    let n = name.unicode_len();
    if n == 0 {
        let u = String::from_str("_");
        proof {
            reveal_strlit("_");
        }
        assert(u@ =~= sanitized(name@));
        return u;
    }
    let mut out = String::new();
    let mut i: usize = 0;
    while i < n
        invariant
            n == name@.len(),
            i <= n,
            out@ =~= name@.subrange(0, i as int).map_values(|c: char| sanitized_char(c)),
        decreases n - i,
    {
        let c = name.get_char(i);
        if is_forbidden(c) {
            out.append("_");
            proof {
                reveal_strlit("_");
            }
        } else {
            out.append(name.substring_char(i, i + 1));
        }
        i = i + 1;
        assert(out@ =~= name@.subrange(0, i as int).map_values(|c: char| sanitized_char(c)));
    }
    assert(name@.subrange(0, n as int) =~= name@);
    out
}

/// Sanitizing is idempotent: a sanitized name is left as it is.
pub proof fn lemma_sanitize_idempotent(s: Seq<char>)
    ensures
        sanitized(sanitized(s)) == sanitized(s),
{
    let t = sanitized(s);
    assert(t.len() > 0);
    assert(sanitized(t) =~= t);
}

/// The path of an episode's media file: `<dir>/<sanitized title>.mp4`.
pub fn episode_file_path(dir: &str, title: &str) -> (r: String)
    ensures
        r@ == dir@ + "/"@ + sanitized(title@) + ".mp4"@,
{
    let mut p = String::from_str(dir);
    p.append("/");
    let name = sanitize_filename(title);
    p.append(name.as_str());
    p.append(".mp4");
    p
}

} // verus!
