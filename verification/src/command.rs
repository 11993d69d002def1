//! The closed set of subcommands.

use vstd::prelude::*;
use crate::options::{resolved_storage_dir, storage_dir_or_default, Move};
use crate::toolchain::Toolchain;

verus! {

/// Reserved for subcommands that embedding tools may add. It has none: its
/// one variant holds a value of a type without values, so no `Base` exists.
pub enum Base {
    Reserved(core::convert::Infallible),
}

/// One subcommand with what was parsed for it. The eight leaf commands
/// carry the options of their handler; the two nested ones carry the storage
/// directory and the subcommand chosen below them.
#[allow(inconsistent_fields)]
pub enum Command<T: Toolchain> {
    Build(T::Build),
    Coverage(T::Coverage),
    Disassemble(T::Disassemble),
    Errmap(T::Errmap),
    Info(T::Info),
    New(T::New),
    Prove(T::Prove),
    Test(T::Test),
    /// Execute a sandbox command.
    Sandbox {
        /// Directory storing Move resources, events, and module bytecodes
        /// produced by module publishing and script execution.
        storage_dir: String,
        cmd: T::SandboxCommand,
    },
    /// (Experimental) Run static analyses on Move source or bytecode.
    Experimental {
        /// Directory storing Move resources, events, and module bytecodes
        /// produced by module publishing and script execution.
        storage_dir: String,
        cmd: T::ExperimentalCommand,
    },
}

impl<T: Toolchain> Command<T> {
    /// Whether the command is handled by one handler of its own, rather
    /// than by a dispatcher over further subcommands.
    pub open spec fn is_leaf(self) -> bool {
        !(self is Sandbox) && !(self is Experimental)
    }

    /// The storage directory that a nested command carries; a leaf command
    /// carries none.
    pub open spec fn storage_dir(self) -> Option<String> {
        match self {
            Command::Sandbox { storage_dir, .. } => Some(storage_dir),
            Command::Experimental { storage_dir, .. } => Some(storage_dir),
            _ => None,
        }
    }

    /// The `sandbox` command as the command line gave it: `storage_dir` is
    /// the value of `--storage-dir`, `None` where the option was left out.
    pub fn sandbox(storage_dir: Option<String>, cmd: T::SandboxCommand) -> (command: Self)
        ensures
            (command matches Command::Sandbox { storage_dir: dir, cmd: chosen }
                && dir@ == resolved_storage_dir(storage_dir)
                && (storage_dir matches Some(given) ==> dir == given)
                && (storage_dir is None ==> dir@ == "storage"@)
                && chosen == cmd),
    {
        Command::Sandbox { storage_dir: storage_dir_or_default(storage_dir), cmd }
    }

    /// The `experimental` command as the command line gave it:
    /// `storage_dir` is the value of `--storage-dir`, `None` where the
    /// option was left out.
    pub fn experimental(
        storage_dir: Option<String>,
        cmd: T::ExperimentalCommand,
    ) -> (command: Self)
        ensures
            (command matches Command::Experimental { storage_dir: dir, cmd: chosen }
                && dir@ == resolved_storage_dir(storage_dir)
                && (storage_dir matches Some(given) ==> dir == given)
                && (storage_dir is None ==> dir@ == "storage"@)
                && chosen == cmd),
    {
        Command::Experimental { storage_dir: storage_dir_or_default(storage_dir), cmd }
    }
}

/// A whole invocation: the global options and the one subcommand.
pub struct MoveCLI<T: Toolchain> {
    pub move_args: Move<T::BuildConfig>,
    pub cmd: Command<T>,
}

} // verus!
