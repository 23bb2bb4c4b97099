//! The two standard-library computations the library relies on without
//! restating them: `Path::parent` and the `Debug` form of a string.
use vstd::prelude::*;

verus! {

/// What `std::path::Path::parent` gives for the path with these characters:
/// the path without its final component, or nothing for a root or an empty path.
pub uninterp spec fn path_parent(path: Seq<char>) -> Option<Seq<char>>;

/// What `format!("{:?}", s)` gives for a string with these characters: the text
/// in double quotes, escaped as the `Debug` impl of `str` escapes it.
pub uninterp spec fn debug_str(s: Seq<char>) -> Seq<char>;

/// Calls `std::path::Path::parent` on `path`. Claims that the result is the one
/// `path_parent` names for `path`, and, as std documents it ("the `Path`
/// without its final component"), that a parent is a proper prefix of the
/// path: the final component it drops is not empty. Which prefix it is (how
/// separators and `.` components are handled) is not stated here.
#[verifier::external_body]
pub(crate) fn parent_of(path: &str) -> (res: Option<String>)
    ensures
        match res {
            Some(p) => path_parent(path@) == Some(p@),
            None => path_parent(path@) is None,
        },
        res matches Some(p) ==> p@.len() < path@.len() && p@ == path@.take(p@.len() as int),
{
    std::path::Path::new(path).parent().map(|p| p.to_string_lossy().into_owned())
}

/// Formats `s` with `{:?}` (the `Debug` impl of `str`). Claims only that the
/// result is the one `debug_str` names for `s`.
#[verifier::external_body]
pub(crate) fn debug_of(s: &str) -> (res: String)
    ensures
        res@ == debug_str(s@),
{
    format!("{:?}", s)
}

} // verus!
