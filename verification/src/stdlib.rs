//! Standard-library operations on paths and text that the library calls and
//! that vstd gives no specification: each stands behind a trusted wrapper.
use vstd::prelude::*;

verus! {

/// The final component of a path, as `std::path::Path::file_name` gives it.
pub uninterp spec fn path_file_name(path: Seq<char>) -> Option<Seq<char>>;

/// The number of components of a path, as `std::path::Path::components` yields them.
pub uninterp spec fn path_component_count(path: Seq<char>) -> nat;

/// The lower-case form of a string, as `str::to_lowercase` gives it.
pub uninterp spec fn lowercase(s: Seq<char>) -> Seq<char>;

/// The view of an optional `String`.
pub open spec fn opt_view(o: Option<String>) -> Option<Seq<char>> {
    match o {
        Some(s) => Some(s@),
        None => None,
    }
}

/// The position of the last occurrence of `c` in `s`, or -1.
pub open spec fn last_index_of(s: Seq<char>, c: char) -> int
    decreases s.len(),
{
    if s.len() == 0 {
        -1
    } else if s.last() == c {
        s.len() - 1
    } else {
        last_index_of(s.drop_last(), c)
    }
}

/// The extension of a file name as `std::path::Path::extension` documents it:
/// none without a file name, none without an embedded `.`, none when the name
/// begins with `.` and has no other `.`, and otherwise what follows the last `.`.
pub open spec fn extension_of(file_name: Option<Seq<char>>) -> Option<Seq<char>> {
    match file_name {
        None => None,
        Some(n) => {
            let k = last_index_of(n, '.');
            if k <= 0 {
                None
            } else {
                Some(n.skip(k + 1))
            }
        },
    }
}

/// `std::path::Path::file_name` of `path`, converted to a `String` (lossless,
/// since the path came from a `&str`). The contract names the result only.
#[verifier::external_body]
pub(crate) fn file_name(path: &str) -> (r: Option<String>)
    ensures
        opt_view(r) == path_file_name(path@),
{
    std::path::Path::new(path).file_name().map(|n| n.to_string_lossy().into_owned())
}

/// `std::path::Path::extension` of `path`, as text. The contract states what the
/// documentation of `Path::extension` says, in terms of the file name.
#[verifier::external_body]
pub(crate) fn extension(path: &str) -> (r: Option<String>)
    ensures
        opt_view(r) == extension_of(path_file_name(path@)),
{
    std::path::Path::new(path).extension().and_then(|e| e.to_str()).map(|e| e.to_string())
}

/// The number of items `std::path::Path::components` yields for `path`.
/// The contract names the result only.
#[verifier::external_body]
pub(crate) fn component_count(path: &str) -> (r: usize)
    ensures
        r as nat == path_component_count(path@),
{
    std::path::Path::new(path).components().count()
}

/// `str::to_lowercase`. The contract names the result only: Unicode case
/// mapping is not restated here.
#[verifier::external_body]
pub(crate) fn to_lowercase(s: &str) -> (r: String)
    ensures
        r@ == lowercase(s@),
{
    s.to_lowercase()
}

} // verus!
