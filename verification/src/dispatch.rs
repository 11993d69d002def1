//! Routing: which handler one invocation reaches, and with what.

use vstd::prelude::*;
use move_core_types::errmap::ErrorMapping;
use move_core_types::gas_schedule::CostTable;
use crate::command::{Command, MoveCLI};
use crate::options::Move;
use crate::toolchain::{NativeFunctionRecord, Toolchain};

verus! {

/// One call of one handler: which entry point, on which options record, with
/// which arguments. A handler is handed nothing that its variant does not
/// hold.
#[allow(inconsistent_fields)]
pub enum Invocation<'a, T: Toolchain> {
    /// `handler.execute(package_path, build_config)`
    Build { handler: T::Build, package_path: Option<String>, build_config: T::BuildConfig },
    /// `handler.execute(package_path, build_config)`
    Coverage { handler: T::Coverage, package_path: Option<String>, build_config: T::BuildConfig },
    /// `handler.execute(package_path, build_config)`
    Disassemble {
        handler: T::Disassemble,
        package_path: Option<String>,
        build_config: T::BuildConfig,
    },
    /// `handler.execute(package_path, build_config)`
    Errmap { handler: T::Errmap, package_path: Option<String>, build_config: T::BuildConfig },
    /// `handler.execute(package_path, build_config)`
    Info { handler: T::Info, package_path: Option<String>, build_config: T::BuildConfig },
    /// `handler.execute_with_defaults(package_path)`
    New { handler: T::New, package_path: Option<String> },
    /// `handler.execute(package_path, build_config)`
    Prove { handler: T::Prove, package_path: Option<String>, build_config: T::BuildConfig },
    /// `handler.execute(package_path, build_config, natives)`
    Test {
        handler: T::Test,
        package_path: Option<String>,
        build_config: T::BuildConfig,
        natives: Vec<NativeFunctionRecord<T::NativeFunction>>,
    },
    /// `handler.handle_command(natives, cost_table, error_descriptions,
    /// &move_args, &storage_dir)`
    Sandbox {
        handler: T::SandboxCommand,
        natives: Vec<NativeFunctionRecord<T::NativeFunction>>,
        cost_table: &'a CostTable,
        error_descriptions: &'a ErrorMapping,
        move_args: Move<T::BuildConfig>,
        storage_dir: String,
    },
    /// `handler.handle_command(&move_args, &storage_dir)`
    Experimental {
        handler: T::ExperimentalCommand,
        move_args: Move<T::BuildConfig>,
        storage_dir: String,
    },
}

impl<'a, T: Toolchain> Invocation<'a, T> {
    /// The package path that the handler is given.
    pub open spec fn package_path(self) -> Option<String> {
        match self {
            Invocation::Build { package_path, .. } => package_path,
            Invocation::Coverage { package_path, .. } => package_path,
            Invocation::Disassemble { package_path, .. } => package_path,
            Invocation::Errmap { package_path, .. } => package_path,
            Invocation::Info { package_path, .. } => package_path,
            Invocation::New { package_path, .. } => package_path,
            Invocation::Prove { package_path, .. } => package_path,
            Invocation::Test { package_path, .. } => package_path,
            Invocation::Sandbox { move_args, .. } => move_args.package_path,
            Invocation::Experimental { move_args, .. } => move_args.package_path,
        }
    }

    /// The build options that the handler is given, `None` where it is
    /// given none.
    pub open spec fn build_config(self) -> Option<T::BuildConfig> {
        match self {
            Invocation::Build { build_config, .. } => Some(build_config),
            Invocation::Coverage { build_config, .. } => Some(build_config),
            Invocation::Disassemble { build_config, .. } => Some(build_config),
            Invocation::Errmap { build_config, .. } => Some(build_config),
            Invocation::Info { build_config, .. } => Some(build_config),
            Invocation::New { .. } => None,
            Invocation::Prove { build_config, .. } => Some(build_config),
            Invocation::Test { build_config, .. } => Some(build_config),
            Invocation::Sandbox { move_args, .. } => Some(move_args.build_config),
            Invocation::Experimental { move_args, .. } => Some(move_args.build_config),
        }
    }

    /// The native function table that the handler is given, `None` where it
    /// is given none.
    pub open spec fn natives(self) -> Option<Vec<NativeFunctionRecord<T::NativeFunction>>> {
        match self {
            Invocation::Test { natives, .. } => Some(natives),
            Invocation::Sandbox { natives, .. } => Some(natives),
            _ => None,
        }
    }

    /// The storage directory that the handler is given, `None` where it is
    /// given none.
    pub open spec fn storage_dir(self) -> Option<String> {
        match self {
            Invocation::Sandbox { storage_dir, .. } => Some(storage_dir),
            Invocation::Experimental { storage_dir, .. } => Some(storage_dir),
            _ => None,
        }
    }
}

/// The invocation that a command stands for. Six leaf commands take the
/// package path and the build options, `new` the package path alone, `test`
/// also the native functions; `sandbox` takes all the runtime data with the
/// global options and its storage directory, `experimental` the global
/// options and its storage directory.
pub open spec fn routed<'a, T: Toolchain>(
    natives: Vec<NativeFunctionRecord<T::NativeFunction>>,
    cost_table: &'a CostTable,
    error_descriptions: &'a ErrorMapping,
    move_args: Move<T::BuildConfig>,
    cmd: Command<T>,
) -> Invocation<'a, T> {
    match cmd {
        Command::Build(c) => Invocation::Build {
            handler: c,
            package_path: move_args.package_path,
            build_config: move_args.build_config,
        },
        Command::Coverage(c) => Invocation::Coverage {
            handler: c,
            package_path: move_args.package_path,
            build_config: move_args.build_config,
        },
        Command::Disassemble(c) => Invocation::Disassemble {
            handler: c,
            package_path: move_args.package_path,
            build_config: move_args.build_config,
        },
        Command::Errmap(c) => Invocation::Errmap {
            handler: c,
            package_path: move_args.package_path,
            build_config: move_args.build_config,
        },
        Command::Info(c) => Invocation::Info {
            handler: c,
            package_path: move_args.package_path,
            build_config: move_args.build_config,
        },
        Command::New(c) => Invocation::New { handler: c, package_path: move_args.package_path },
        Command::Prove(c) => Invocation::Prove {
            handler: c,
            package_path: move_args.package_path,
            build_config: move_args.build_config,
        },
        Command::Test(c) => Invocation::Test {
            handler: c,
            package_path: move_args.package_path,
            build_config: move_args.build_config,
            natives,
        },
        Command::Sandbox { storage_dir, cmd } => Invocation::Sandbox {
            handler: cmd,
            natives,
            cost_table,
            error_descriptions,
            move_args,
            storage_dir,
        },
        Command::Experimental { storage_dir, cmd } => Invocation::Experimental {
            handler: cmd,
            move_args,
            storage_dir,
        },
    }
}

/// Chooses the handler call for `cmd`, without making it.
pub fn route<'a, T: Toolchain>(
    natives: Vec<NativeFunctionRecord<T::NativeFunction>>,
    cost_table: &'a CostTable,
    error_descriptions: &'a ErrorMapping,
    move_args: Move<T::BuildConfig>,
    cmd: Command<T>,
) -> (invocation: Invocation<'a, T>)
    ensures
        invocation == routed(natives, cost_table, error_descriptions, move_args, cmd),
{
    match cmd {
        Command::Build(c) => Invocation::Build {
            handler: c,
            package_path: move_args.package_path,
            build_config: move_args.build_config,
        },
        Command::Coverage(c) => Invocation::Coverage {
            handler: c,
            package_path: move_args.package_path,
            build_config: move_args.build_config,
        },
        Command::Disassemble(c) => Invocation::Disassemble {
            handler: c,
            package_path: move_args.package_path,
            build_config: move_args.build_config,
        },
        Command::Errmap(c) => Invocation::Errmap {
            handler: c,
            package_path: move_args.package_path,
            build_config: move_args.build_config,
        },
        Command::Info(c) => Invocation::Info {
            handler: c,
            package_path: move_args.package_path,
            build_config: move_args.build_config,
        },
        Command::New(c) => Invocation::New { handler: c, package_path: move_args.package_path },
        Command::Prove(c) => Invocation::Prove {
            handler: c,
            package_path: move_args.package_path,
            build_config: move_args.build_config,
        },
        Command::Test(c) => Invocation::Test {
            handler: c,
            package_path: move_args.package_path,
            build_config: move_args.build_config,
            natives,
        },
        Command::Sandbox { storage_dir, cmd } => Invocation::Sandbox {
            handler: cmd,
            natives,
            cost_table,
            error_descriptions,
            move_args,
            storage_dir,
        },
        Command::Experimental { storage_dir, cmd } => Invocation::Experimental {
            handler: cmd,
            move_args,
            storage_dir,
        },
    }
}

/// Runs one command: `perform` is called once, on the invocation that the
/// command stands for, and what it returns is returned as it is.
pub fn run_cli<'a, T: Toolchain, E, F>(
    natives: Vec<NativeFunctionRecord<T::NativeFunction>>,
    cost_table: &'a CostTable,
    error_descriptions: &'a ErrorMapping,
    move_args: Move<T::BuildConfig>,
    cmd: Command<T>,
    perform: F,
) -> (outcome: Result<(), E>) where F: FnOnce(Invocation<'a, T>) -> Result<(), E>
    requires
        perform.requires((routed(natives, cost_table, error_descriptions, move_args, cmd),)),
    ensures
        perform.ensures(
            (routed(natives, cost_table, error_descriptions, move_args, cmd),),
            outcome,
        ),
{
    perform(route(natives, cost_table, error_descriptions, move_args, cmd))
}

/// Runs a parsed command line: the same as [`run_cli`] on its global options
/// and its subcommand.
pub fn move_cli<'a, T: Toolchain, E, F>(
    natives: Vec<NativeFunctionRecord<T::NativeFunction>>,
    cost_table: &'a CostTable,
    error_descriptions: &'a ErrorMapping,
    args: MoveCLI<T>,
    perform: F,
) -> (outcome: Result<(), E>) where F: FnOnce(Invocation<'a, T>) -> Result<(), E>
    requires
        perform.requires(
            (routed(natives, cost_table, error_descriptions, args.move_args, args.cmd),),
        ),
    ensures
        perform.ensures(
            (routed(natives, cost_table, error_descriptions, args.move_args, args.cmd),),
            outcome,
        ),
{
    run_cli(natives, cost_table, error_descriptions, args.move_args, args.cmd, perform)
}

} // verus!
