//! File-system paths held as text, and the two questions the editor asks of
//! them: which directory holds the file, and what the file is called.

use vstd::prelude::*;

verus! {

/// What `std::path::Path::parent` gives for a path: the path without its final
/// component, or `None` where it ends in a root or prefix or is empty.
pub uninterp spec fn parent_of(path: Seq<char>) -> Option<Seq<char>>;

/// What `std::path::Path::file_name` gives for a path: its final component,
/// or `None` where the path ends in `..`, is a root, or is empty.
pub uninterp spec fn file_name_of(path: Seq<char>) -> Option<Seq<char>>;

/// The characters of an optional string.
pub open spec fn opt_chars(s: Option<String>) -> Option<Seq<char>> {
    match s {
        Some(t) => Some(t@),
        None => None,
    }
}

/// Relies on `std::path::Path::parent`, which returns `None` for the empty
/// path; a parent of a UTF-8 path is a prefix of it, so it converts exactly.
#[verifier::external_body]
pub(crate) fn parent_text(path: &str) -> (r: Option<String>)
    ensures
        opt_chars(r) == parent_of(path@),
        path@.len() == 0 ==> r is None,
{
    match std::path::Path::new(path).parent() {
        Some(p) => Some(p.to_string_lossy().into_owned()),
        None => None,
    }
}

/// Relies on `std::path::Path::file_name`, which returns `None` for the empty
/// path; the final component of a UTF-8 path converts exactly.
#[verifier::external_body]
pub(crate) fn file_name_text(path: &str) -> (r: Option<String>)
    ensures
        opt_chars(r) == file_name_of(path@),
        path@.len() == 0 ==> r is None,
{
    match std::path::Path::new(path).file_name() {
        Some(n) => Some(n.to_string_lossy().into_owned()),
        None => None,
    }
}

} // verus!
