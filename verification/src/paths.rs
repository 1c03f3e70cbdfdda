//! Path syntax. What the parent of a path is, and how a name is joined to a
//! directory, is the standard library's business: both are asked of
//! `std::path`, and the rest of the crate speaks of the answers by name.

use vstd::prelude::*;

verus! {

/// What `std::path::Path::parent` returns for the path written `path`, in
/// the path syntax of the platform the crate is built for: the path without
/// its last component, or `None` where it has none to drop.
pub uninterp spec fn parent_of(path: Seq<char>) -> Option<Seq<char>>;

/// What `std::path::Path::join` returns for the directory written `base` and
/// the path written `name`, in the path syntax of the platform the crate is
/// built for: `name` adjoined to `base`.
pub uninterp spec fn joined(base: Seq<char>, name: Seq<char>) -> Seq<char>;

/// Calls `std::path::Path::parent`.
///
/// Trusted, not proved: the call looks at nothing but the text of `path`, so
/// that its result is what [`parent_of`] names; and it does not panic. The
/// parent of a path is a piece of that path, so it is valid UTF-8 whenever
/// the path is, and writing it as a `String` loses nothing.
#[verifier::external_body]
pub(crate) fn parent(path: &str) -> (found: Option<String>)
    ensures
        found.deep_view() == parent_of(path@),
{
    match std::path::Path::new(path).parent() {
        Some(directory) => Some(directory.to_string_lossy().into_owned()),
        None => None,
    }
}

/// Calls `std::path::Path::join`.
///
/// Trusted, not proved: the call looks at nothing but the two texts, so that
/// its result is what [`joined`] names; and it does not panic. The result is
/// put together from the two arguments and separators, so it is valid UTF-8
/// and writing it as a `String` loses nothing.
#[verifier::external_body]
pub(crate) fn join(base: &str, name: &str) -> (path: String)
    ensures
        path@ == joined(base@, name@),
{
    std::path::Path::new(base).join(name).to_string_lossy().into_owned()
}

} // verus!
