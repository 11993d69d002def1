//! What holds of routing whatever the inputs are.

use vstd::prelude::*;
use move_core_types::errmap::ErrorMapping;
use move_core_types::gas_schedule::CostTable;
use crate::command::Command;
use crate::dispatch::{routed, Invocation};
use crate::options::{resolved_storage_dir, Move};
use crate::toolchain::{NativeFunctionRecord, Toolchain};

verus! {

/// Routing keeps no state: whenever the inputs are the same, so are the
/// handler chosen and every argument handed to it.
pub proof fn law_same_inputs_same_invocation<'a, T: Toolchain>(
    natives: Vec<NativeFunctionRecord<T::NativeFunction>>,
    cost_table: &'a CostTable,
    error_descriptions: &'a ErrorMapping,
    move_args: Move<T::BuildConfig>,
    cmd: Command<T>,
    natives_again: Vec<NativeFunctionRecord<T::NativeFunction>>,
    cost_table_again: &'a CostTable,
    error_descriptions_again: &'a ErrorMapping,
    move_args_again: Move<T::BuildConfig>,
    cmd_again: Command<T>,
)
    requires
        natives_again == natives,
        cost_table_again == cost_table,
        error_descriptions_again == error_descriptions,
        move_args_again == move_args,
        cmd_again == cmd,
    ensures
        routed(natives_again, cost_table_again, error_descriptions_again, move_args_again, cmd_again)
            == routed(natives, cost_table, error_descriptions, move_args, cmd),
{
}

/// Every command reaches the handler of its own name, and no other.
pub proof fn law_handler_matches_command<'a, T: Toolchain>(
    natives: Vec<NativeFunctionRecord<T::NativeFunction>>,
    cost_table: &'a CostTable,
    error_descriptions: &'a ErrorMapping,
    move_args: Move<T::BuildConfig>,
    cmd: Command<T>,
)
    ensures
        ({
            let invocation = routed(natives, cost_table, error_descriptions, move_args, cmd);
            &&& cmd is Build <==> invocation is Build
            &&& cmd is Coverage <==> invocation is Coverage
            &&& cmd is Disassemble <==> invocation is Disassemble
            &&& cmd is Errmap <==> invocation is Errmap
            &&& cmd is Info <==> invocation is Info
            &&& cmd is New <==> invocation is New
            &&& cmd is Prove <==> invocation is Prove
            &&& cmd is Test <==> invocation is Test
            &&& cmd is Sandbox <==> invocation is Sandbox
            &&& cmd is Experimental <==> invocation is Experimental
        }),
{
}

/// The package path reaches every handler as it was given: one that was
/// left out stays left out, and no default takes its place.
pub proof fn law_package_path_is_handed_on<'a, T: Toolchain>(
    natives: Vec<NativeFunctionRecord<T::NativeFunction>>,
    cost_table: &'a CostTable,
    error_descriptions: &'a ErrorMapping,
    move_args: Move<T::BuildConfig>,
    cmd: Command<T>,
)
    ensures
        routed(natives, cost_table, error_descriptions, move_args, cmd).package_path()
            == move_args.package_path,
{
}

/// Every handler but that of `new` is handed the build options as they
/// were given.
pub proof fn law_build_config_is_handed_on<'a, T: Toolchain>(
    natives: Vec<NativeFunctionRecord<T::NativeFunction>>,
    cost_table: &'a CostTable,
    error_descriptions: &'a ErrorMapping,
    move_args: Move<T::BuildConfig>,
    cmd: Command<T>,
)
    requires
        !(cmd is New),
    ensures
        routed(natives, cost_table, error_descriptions, move_args, cmd).build_config() == Some(
            move_args.build_config,
        ),
{
}

/// `new` is handed the package path and nothing else. In particular the
/// build options never reach it: whatever they are, and whatever the other
/// inputs are, the invocation is the same.
pub proof fn law_new_ignores_build_config<'a, T: Toolchain>(
    natives: Vec<NativeFunctionRecord<T::NativeFunction>>,
    cost_table: &'a CostTable,
    error_descriptions: &'a ErrorMapping,
    move_args: Move<T::BuildConfig>,
    other_natives: Vec<NativeFunctionRecord<T::NativeFunction>>,
    other_cost_table: &'a CostTable,
    other_error_descriptions: &'a ErrorMapping,
    other_move_args: Move<T::BuildConfig>,
    handler: T::New,
)
    requires
        other_move_args.package_path == move_args.package_path,
    ensures
        (routed(natives, cost_table, error_descriptions, move_args, Command::<T>::New(handler))
            matches Invocation::New { handler: receiver, package_path }
            && receiver == handler
            && package_path == move_args.package_path),
        routed(natives, cost_table, error_descriptions, move_args, Command::<T>::New(handler))
            == routed(
            other_natives,
            other_cost_table,
            other_error_descriptions,
            other_move_args,
            Command::<T>::New(handler),
        ),
        routed(
            natives,
            cost_table,
            error_descriptions,
            move_args,
            Command::<T>::New(handler),
        ).build_config() is None,
{
}

/// Among the leaf commands, `test` alone is handed the native functions,
/// and it is handed the very table that came in. For every other leaf
/// command the invocation is the same whatever the table holds.
pub proof fn law_only_test_gets_natives<'a, T: Toolchain>(
    natives: Vec<NativeFunctionRecord<T::NativeFunction>>,
    other_natives: Vec<NativeFunctionRecord<T::NativeFunction>>,
    cost_table: &'a CostTable,
    error_descriptions: &'a ErrorMapping,
    move_args: Move<T::BuildConfig>,
    cmd: Command<T>,
)
    requires
        cmd.is_leaf(),
    ensures
        routed(natives, cost_table, error_descriptions, move_args, cmd).natives() is Some
            <==> cmd is Test,
        cmd is Test ==> routed(natives, cost_table, error_descriptions, move_args, cmd).natives()
            == Some(natives),
        !(cmd is Test) ==> routed(natives, cost_table, error_descriptions, move_args, cmd)
            == routed(other_natives, cost_table, error_descriptions, move_args, cmd),
{
}

/// The cost table and the error descriptions reach `sandbox` alone: for
/// every other command the invocation is the same whatever they hold.
pub proof fn law_only_sandbox_gets_costs_and_descriptions<'a, T: Toolchain>(
    natives: Vec<NativeFunctionRecord<T::NativeFunction>>,
    cost_table: &'a CostTable,
    error_descriptions: &'a ErrorMapping,
    other_cost_table: &'a CostTable,
    other_error_descriptions: &'a ErrorMapping,
    move_args: Move<T::BuildConfig>,
    cmd: Command<T>,
)
    requires
        !(cmd is Sandbox),
    ensures
        routed(natives, cost_table, error_descriptions, move_args, cmd) == routed(
            natives,
            other_cost_table,
            other_error_descriptions,
            move_args,
            cmd,
        ),
{
}

/// A nested command is handed the global options whole and the storage
/// directory that it carries; `sandbox` is handed the runtime data too.
pub proof fn law_nested_commands_get_their_context<'a, T: Toolchain>(
    natives: Vec<NativeFunctionRecord<T::NativeFunction>>,
    cost_table: &'a CostTable,
    error_descriptions: &'a ErrorMapping,
    move_args: Move<T::BuildConfig>,
    cmd: Command<T>,
)
    requires
        !cmd.is_leaf(),
    ensures
        (cmd matches Command::Sandbox { storage_dir, cmd: nested } ==> routed(
            natives,
            cost_table,
            error_descriptions,
            move_args,
            cmd,
        ) matches Invocation::Sandbox {
            handler,
            natives: table,
            cost_table: costs,
            error_descriptions: descriptions,
            move_args: options,
            storage_dir: dir,
        } && handler == nested && table == natives && costs == cost_table && descriptions
            == error_descriptions && options == move_args && dir == storage_dir),
        (cmd matches Command::Experimental { storage_dir, cmd: nested } ==> routed(
            natives,
            cost_table,
            error_descriptions,
            move_args,
            cmd,
        ) matches Invocation::Experimental { handler, move_args: options, storage_dir: dir }
            && handler == nested && options == move_args && dir == storage_dir),
{
}

/// The storage directory reaches the handler as the command carries it,
/// and a leaf handler is handed none.
pub proof fn law_storage_dir_is_handed_on<'a, T: Toolchain>(
    natives: Vec<NativeFunctionRecord<T::NativeFunction>>,
    cost_table: &'a CostTable,
    error_descriptions: &'a ErrorMapping,
    move_args: Move<T::BuildConfig>,
    cmd: Command<T>,
)
    ensures
        routed(natives, cost_table, error_descriptions, move_args, cmd).storage_dir()
            == cmd.storage_dir(),
{
}

/// Where `--storage-dir` was left out, the storage directory is `storage`,
/// and the handler of a nested command that carries it is handed
/// `storage`; where it was given, the directory is the one given.
pub proof fn law_storage_dir_defaults_to_storage<'a, T: Toolchain>(
    natives: Vec<NativeFunctionRecord<T::NativeFunction>>,
    cost_table: &'a CostTable,
    error_descriptions: &'a ErrorMapping,
    move_args: Move<T::BuildConfig>,
    cmd: Command<T>,
    given: Option<String>,
)
    requires
        cmd.storage_dir() matches Some(dir) && dir@ == resolved_storage_dir(given),
    ensures
        given is None ==> resolved_storage_dir(given) == "storage"@,
        given matches Some(dir) ==> resolved_storage_dir(given) == dir@,
        routed(natives, cost_table, error_descriptions, move_args, cmd).storage_dir() matches Some(
            dir,
        ) && dir@ == resolved_storage_dir(given),
{
}

} // verus!
