//! Where the real library is expected.

use vstd::prelude::*;

verus! {

/// File name of the real library. It is the same on every platform: the
/// vendor's library is renamed to it when the shim takes its place.
pub const LIBRARY_NAME: &'static str = "Rex Shared Library-original";

/// How the real library is found.
#[derive(Clone, Copy, Debug, PartialEq, Eq, Structural)]
pub enum Strategy {
    /// The library lies in the directory that holds the shim's own binary,
    /// wherever the host process was started from.
    BesideShim,
    /// The library is loaded by its bare name and the platform's search
    /// order finds it.
    SearchPath,
}

/// What `std::path::Path::parent` yields for a path. It depends on the text
/// of the path alone; the syntax of paths is that of the platform the crate
/// is compiled for.
pub uninterp spec fn path_parent(path: Seq<char>) -> Option<Seq<char>>;

/// What `std::path::Path::join` yields for a base path and a path to adjoin
/// to it. It depends on the text of the two paths alone; the syntax of paths
/// is that of the platform the crate is compiled for.
pub uninterp spec fn path_join(base: Seq<char>, tail: Seq<char>) -> Seq<char>;

/// The path at which the real library is expected, given the path of the
/// shim's own binary: [`LIBRARY_NAME`] inside the directory of that binary.
/// There is none when the binary's path has no parent.
pub open spec fn spec_sibling_path(own_path: Seq<char>) -> Option<Seq<char>> {
    match path_parent(own_path) {
        Some(directory) => Some(path_join(directory, LIBRARY_NAME@)),
        None => None,
    }
}

/// Calls `std::path::Path::parent`.
///
/// Nothing is proved of the result. It is taken to be the path without its
/// final component, as the standard library computes it, and to be absent
/// for the empty path, which the standard library documents.
#[verifier::external_body]
fn parent_directory(path: &str) -> (directory: Option<String>)
    ensures
        directory matches Some(d) ==> path_parent(path@) == Some(d@),
        directory is None ==> path_parent(path@) is None,
        path@.len() == 0 ==> directory is None,
{
    std::path::Path::new(path).parent().and_then(std::path::Path::to_str).map(str::to_owned)
}

/// Calls `std::path::Path::join`.
///
/// Nothing is proved of the result. It is taken to be `tail` adjoined to
/// `base`, as the standard library computes it.
#[verifier::external_body]
fn child_path(base: &str, tail: &str) -> (joined: String)
    ensures
        joined@ == path_join(base@, tail@),
{
    std::path::Path::new(base).join(tail).to_string_lossy().into_owned()
}

/// The path at which the real library is expected when it lies beside the
/// shim, given the path of the shim's own binary.
pub fn sibling_path(own_path: &str) -> (sibling: Option<String>)
    ensures
        sibling matches Some(s) ==> spec_sibling_path(own_path@) == Some(s@),
        sibling is None ==> spec_sibling_path(own_path@) is None,
        own_path@.len() == 0 ==> sibling is None,
{
    match parent_directory(own_path) {
        Some(directory) => Some(child_path(directory.as_str(), LIBRARY_NAME)),
        None => None,
    }
}

} // verus!
