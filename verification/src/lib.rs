//! Command routing for the Move package command line.
//!
//! One invocation is the global options ([`Move`]) and one subcommand
//! ([`Command`]). [`route`] chooses the one handler call that it stands for
//! ([`Invocation`]); [`run_cli`] has that call made and returns what the
//! handler returned.
//!
//! The handlers, the package build options and the native functions belong
//! to the subsystems behind the command line. The router is generic in them
//! ([`Toolchain`]) and hands their values on without looking inside; the
//! [`laws`] say which handler is handed what.

pub mod command;
pub mod dispatch;
pub mod laws;
pub mod options;
pub mod toolchain;

pub use command::{Base, Command, MoveCLI};
pub use dispatch::{move_cli, route, run_cli, Invocation};
pub use options::{storage_dir_or_default, Move, DEFAULT_BUILD_DIR, DEFAULT_STORAGE_DIR};
pub use toolchain::{NativeFunctionRecord, Toolchain};
