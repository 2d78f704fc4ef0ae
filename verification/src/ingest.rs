//! Which discovered files are read: those whose guessed media type is text,
//! XML or JSON.
use vstd::prelude::*;
use crate::text::chars_of;

verus! {

/// The media type and subtype that `mime_guess::from_path(path)
/// .first_or_octet_stream()` guesses for a path.
pub uninterp spec fn guessed_mime(path: Seq<char>) -> (Seq<char>, Seq<char>);

/// `mime_guess::from_path(path).first_or_octet_stream()`, as its type and
/// subtype. The contract names the result only.
#[verifier::external_body]
fn guess_mime(path: &str) -> (r: (String, String))
    ensures
        (r.0@, r.1@) == guessed_mime(path@),
{
    let m = mime_guess::from_path(path).first_or_octet_stream();
    (m.type_().as_str().to_string(), m.subtype().as_str().to_string())
}

/// ASCII lower case of a character.
pub open spec fn ascii_lower(c: char) -> char {
    if 'A' <= c <= 'Z' {
        ((c as u8) + 32) as char
    } else {
        c
    }
}

/// Equality ignoring ASCII case (how media type names compare).
pub open spec fn eq_ignore_ascii_case(a: Seq<char>, b: Seq<char>) -> bool {
    a.len() == b.len() && forall|i: int| 0 <= i < a.len() ==> ascii_lower(a[i]) == ascii_lower(b[i])
}

fn ascii_lower_exec(c: char) -> (r: char)
    ensures
        r == ascii_lower(c),
{
    if 'A' <= c && c <= 'Z' {
        ((c as u8) + 32) as char
    } else {
        c
    }
}

/// Whether `a` equals the literal `b` ignoring ASCII case.
fn eq_ignore_ascii_case_exec(a: &str, b: &str) -> (r: bool)
    ensures
        r == eq_ignore_ascii_case(a@, b@),
{
    let x = chars_of(a);
    let y = chars_of(b);
    if x.len() != y.len() {
        return false;
    }
    let mut i: usize = 0;
    while i < x.len()
        invariant
            x@ == a@,
            y@ == b@,
            x.len() == y.len(),
            i <= x.len(),
            forall|j: int| 0 <= j < i ==> ascii_lower(x@[j]) == ascii_lower(y@[j]),
        decreases x.len() - i,
    {
        if ascii_lower_exec(x[i]) != ascii_lower_exec(y[i]) {
            return false;
        }
        i = i + 1;
    }
    true
}

/// A guessed media type is read as text: type `text`, or subtype `xml` or `json`.
pub open spec fn is_textual(mime: (Seq<char>, Seq<char>)) -> bool {
    eq_ignore_ascii_case(mime.0, "text"@) || eq_ignore_ascii_case(mime.1, "xml"@)
        || eq_ignore_ascii_case(mime.1, "json"@)
}

/// Whether the file at `path` is read, by the media type guessed from its name.
pub fn is_text_file(path: &str) -> (r: bool)
    ensures
        r == is_textual(guessed_mime(path@)),
{
    let (ty, sub) = guess_mime(path);
    eq_ignore_ascii_case_exec(ty.as_str(), "text") || eq_ignore_ascii_case_exec(sub.as_str(), "xml")
        || eq_ignore_ascii_case_exec(sub.as_str(), "json")
}

/// Text of every subtype is read, and so are XML and JSON of every type,
/// whatever the case of the names.
pub proof fn law_text_media_types(t: Seq<char>, s: Seq<char>)
    ensures
        t == "text"@ ==> is_textual((t, s)),
        s == "xml"@ ==> is_textual((t, s)),
        s == "json"@ ==> is_textual((t, s)),
        eq_ignore_ascii_case(t, "TEXT"@) ==> is_textual((t, s)),
        eq_ignore_ascii_case(s, "XML"@) ==> is_textual((t, s)),
        eq_ignore_ascii_case(s, "JSON"@) ==> is_textual((t, s)),
{
    reveal_strlit("text");
    reveal_strlit("TEXT");
    reveal_strlit("xml");
    reveal_strlit("XML");
    reveal_strlit("json");
    reveal_strlit("JSON");
    assert(eq_ignore_ascii_case("TEXT"@, "text"@));
    assert(eq_ignore_ascii_case("XML"@, "xml"@));
    assert(eq_ignore_ascii_case("JSON"@, "json"@));
}

} // verus!
