//! The regular-expression operations the library uses, each behind a trusted
//! wrapper around one function of the `regex` crate. Patterns are compiled with
//! `regex::Regex::new`; a wrapper that needs a compiled pattern requires that
//! the pattern compiles, which `regex_is_valid` lets a caller test.
use vstd::prelude::*;

verus! {

/// `regex::Regex::new(pattern)` succeeds.
pub uninterp spec fn regex_compiles(pattern: Seq<char>) -> bool;

/// `Regex::replace_all(haystack, replacement)` for the compiled `pattern`.
pub uninterp spec fn regex_replace_all(
    pattern: Seq<char>,
    haystack: Seq<char>,
    replacement: Seq<char>,
) -> Seq<char>;

/// `Regex::captures(haystack)` for the compiled `pattern`: `None` without a
/// match, otherwise the text of capture group `group` of the first match
/// (`None` when that group did not take part in it).
pub uninterp spec fn regex_first_capture(
    pattern: Seq<char>,
    haystack: Seq<char>,
    group: nat,
) -> Option<Option<Seq<char>>>;

/// `Regex::find_iter(haystack)` for the compiled `pattern`: the texts of the
/// successive non-overlapping matches.
pub uninterp spec fn regex_match_texts(pattern: Seq<char>, haystack: Seq<char>) -> Seq<Seq<char>>;

/// `Regex::captures_iter(haystack)` for the compiled `pattern`, as pieces: the
/// text before the first match, between successive matches and after the last
/// one; and for each match its whole text and the text of capture group `group`.
pub uninterp spec fn regex_capture_pieces(
    pattern: Seq<char>,
    haystack: Seq<char>,
    group: nat,
) -> (Seq<Seq<char>>, Seq<(Seq<char>, Option<Seq<char>>)>);

/// The views of a list of matches with their capture group.
pub open spec fn capture_views(v: Seq<(String, Option<String>)>) -> Seq<(Seq<char>, Option<Seq<char>>)> {
    v.map_values(
        |m: (String, Option<String>)|
            (
                m.0@,
                match m.1 {
                    Some(g) => Some(g@),
                    None => None,
                },
            ),
    )
}

/// The views of a list of strings.
pub open spec fn string_views(v: Seq<String>) -> Seq<Seq<char>> {
    v.map_values(|s: String| s@)
}

/// Whether `regex::Regex::new(pattern)` succeeds.
#[verifier::external_body]
pub(crate) fn regex_is_valid(pattern: &str) -> (r: bool)
    ensures
        r == regex_compiles(pattern@),
{
    regex::Regex::new(pattern).is_ok()
}

/// `Regex::replace_all` with `replacement` as the replacement template.
#[verifier::external_body]
pub(crate) fn replace_all(pattern: &str, haystack: &str, replacement: &str) -> (r: String)
    requires
        regex_compiles(pattern@),
    ensures
        r@ == regex_replace_all(pattern@, haystack@, replacement@),
{
    regex::Regex::new(pattern).unwrap().replace_all(haystack, replacement).into_owned()
}

/// `Regex::captures`, reduced to capture group `group` of the first match.
#[verifier::external_body]
pub(crate) fn first_capture(pattern: &str, haystack: &str, group: usize) -> (r: Option<Option<String>>)
    requires
        regex_compiles(pattern@),
    ensures
        r matches Some(g) ==> regex_first_capture(pattern@, haystack@, group as nat) == Some(
            match g {
                Some(t) => Some(t@),
                None => None,
            },
        ),
        r is None ==> regex_first_capture(pattern@, haystack@, group as nat) is None,
{
    regex::Regex::new(pattern).unwrap().captures(haystack).map(
        |c| c.get(group).map(|m| m.as_str().to_string()),
    )
}

/// `Regex::find_iter`, as the texts of the matches.
#[verifier::external_body]
pub(crate) fn match_texts(pattern: &str, haystack: &str) -> (r: Vec<String>)
    requires
        regex_compiles(pattern@),
    ensures
        string_views(r@) == regex_match_texts(pattern@, haystack@),
{
    regex::Regex::new(pattern).unwrap().find_iter(haystack).map(|m| m.as_str().to_string()).collect()
}

/// `Regex::captures_iter`, cut into the text around the matches and, for each
/// match, its text and that of capture group `group`.
#[verifier::external_body]
pub(crate) fn capture_pieces(pattern: &str, haystack: &str, group: usize) -> (r: (
    Vec<String>,
    Vec<(String, Option<String>)>,
))
    requires
        regex_compiles(pattern@),
    ensures
        r.0.len() == r.1.len() + 1,
        (string_views(r.0@), capture_views(r.1@)) == regex_capture_pieces(
            pattern@,
            haystack@,
            group as nat,
        ),
{
    let (mut gaps, mut matches, mut last) = (Vec::new(), Vec::new(), 0);
    for caps in regex::Regex::new(pattern).unwrap().captures_iter(haystack) {
        let whole = caps.get(0).unwrap();
        gaps.push(haystack[last..whole.start()].to_string());
        matches.push((whole.as_str().to_string(), caps.get(group).map(|g| g.as_str().to_string())));
        last = whole.end();
    }
    gaps.push(haystack[last..].to_string());
    (gaps, matches)
}

} // verus!
