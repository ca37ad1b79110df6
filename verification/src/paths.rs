//! File-system paths.
//!
//! The library builds paths and hands them on; it never looks inside one.

use std::path::PathBuf;
use vstd::prelude::*;

verus! {

/// `std::path::PathBuf`, as a type whose values are carried and compared
/// and never opened.
#[verifier::external_type_specification]
#[verifier::external_body]
pub struct ExPathBuf(PathBuf);

/// The path that `std::path::Path::join` makes of a base and a component.
pub uninterp spec fn joined_path(base: PathBuf, component: Seq<char>) -> PathBuf;

/// The component adjoined to the base, by `std::path::Path::join`.
///
/// Trusted: the result is the one path that `join` gives for this base and
/// this component; nothing is claimed of what it looks like.
#[verifier::external_body]
pub(crate) fn join_path(base: &PathBuf, component: &str) -> (path: PathBuf)
    ensures
        path == joined_path(*base, component@),
{
    base.join(component)
}

/// The user's home directory, by `dirs::home_dir`.
///
/// Trusted: it returns. The answer depends on the environment and on the
/// user database, so nothing is claimed of it.
#[verifier::external_body]
pub(crate) fn home_directory() -> (home: Option<PathBuf>) {
    dirs::home_dir()
}

/// The user's configuration directory, by `dirs::config_dir`.
///
/// Trusted: it returns. The answer depends on the environment, so nothing
/// is claimed of it.
#[verifier::external_body]
pub(crate) fn config_directory() -> (dir: Option<PathBuf>) {
    dirs::config_dir()
}

} // verus!
