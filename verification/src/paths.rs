//! The path boundary.
//!
//! All the explorer needs to know about a path is whether it has a parent
//! directory and, if so, which. That question is answered by std's purely
//! syntactic path handling; the answer is named here so that contracts can
//! speak about it.

use vstd::prelude::*;

verus! {

/// The parent of a path: `None` for a root or an empty path, otherwise the
/// path without its final component. This is the value std's `Path::parent`
/// computes; it depends on the path string alone.
pub uninterp spec fn parent_path_of(path: Seq<char>) -> Option<Seq<char>>;

/// Relies on std's `Path::parent`: a purely syntactic function of the path
/// string, returning the path without its final component, and `None` for a
/// root or an empty path.
#[verifier::external_body]
pub(crate) fn parent_of(path: &str) -> (r: Option<String>)
    ensures
        r is Some <==> parent_path_of(path@) is Some,
        r is Some ==> r->0@ == parent_path_of(path@)->0,
{
    std::path::Path::new(path)
        .parent()
        .map(|p| p.to_string_lossy().into_owned())
}

} // verus!
