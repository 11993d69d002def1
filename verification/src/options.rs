//! The options that every subcommand shares.

use vstd::prelude::*;

verus! {

/// Default directory where saved Move resources live.
pub const DEFAULT_STORAGE_DIR: &'static str = "storage";

/// Default directory for build output.
pub const DEFAULT_BUILD_DIR: &'static str = ".";

/// The global options of one invocation. `B` is the record of package build
/// options, which belongs to the package build system.
pub struct Move<B> {
    /// Path to a package which the command should be run with respect to.
    /// `None` when the caller gave none: the subsystems choose their own
    /// default.
    pub package_path: Option<String>,
    /// Print additional diagnostics if available.
    pub verbose: bool,
    /// Package build options.
    pub build_config: B,
}

/// The directory that a nested command works in: the one given, or
/// [`DEFAULT_STORAGE_DIR`] where none was.
pub open spec fn resolved_storage_dir(given: Option<String>) -> Seq<char> {
    match given {
        Some(dir) => dir@,
        None => DEFAULT_STORAGE_DIR@,
    }
}

/// The storage directory for the value of `--storage-dir`: the value
/// itself, or `storage` where the option was left out.
pub fn storage_dir_or_default(given: Option<String>) -> (dir: String)
    ensures
        dir@ == resolved_storage_dir(given),
        given matches Some(d) ==> dir == d,
        given is None ==> dir@ == "storage"@,
{
    match given {
        Some(dir) => dir,
        None => DEFAULT_STORAGE_DIR.to_owned(),
    }
}

} // verus!
