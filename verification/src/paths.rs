//! The two path queries the library needs, taken from `std::path`.
//!
//! Paths are held as `String`s throughout the library; these wrappers view a
//! string as a `std::path::Path` for the one query each makes.

use vstd::prelude::*;

verus! {

/// The parent directory of `path`, as `std::path::Path::parent` computes it
/// (`None` where the path has no parent).
pub uninterp spec fn path_parent(path: Seq<char>) -> Option<Seq<char>>;

/// The final component of `path`, as `std::path::Path::file_name` computes it
/// (`None` where the path has none).
pub uninterp spec fn path_file_name(path: Seq<char>) -> Option<Seq<char>>;

/// Calls `std::path::Path::parent` on `path` and converts the answer back to a
/// `String`. The contract claims that the result is the name `path_parent` of
/// the path's characters, and, as the documentation of `parent` says, that the
/// empty path has no parent.
#[verifier::external_body]
pub(crate) fn parent_of(path: &str) -> (parent: Option<String>)
    ensures
        parent.deep_view() == path_parent(path@),
        path@.len() == 0 ==> parent is None,
{
    std::path::Path::new(path).parent().map(|p| p.to_string_lossy().into_owned())
}

/// Calls `std::path::Path::file_name` on `path` and converts the answer back
/// to a `String`. The contract claims only that the result is the name
/// `path_file_name` of the path's characters.
#[verifier::external_body]
pub(crate) fn file_name_of(path: &str) -> (name: Option<String>)
    ensures
        name.deep_view() == path_file_name(path@),
{
    std::path::Path::new(path).file_name().map(|n| n.to_string_lossy().into_owned())
}

} // verus!
