//! The subsystems that the command line routes to, seen from the router.

use vstd::prelude::*;

verus! {

/// `move_core_types::account_address::AccountAddress`, the address of the
/// module that a native function belongs to. Nothing is claimed of its
/// contents: the router only hands such values on.
#[verifier::external_type_specification]
#[verifier::external_body]
pub struct ExAccountAddress(move_core_types::account_address::AccountAddress);

/// `move_core_types::identifier::Identifier`, a module or function name in a
/// native function record. Nothing is claimed of its contents.
#[verifier::external_type_specification]
#[verifier::external_body]
pub struct ExIdentifier(move_core_types::identifier::Identifier);

/// `move_core_types::gas_schedule::CostTable`, the gas cost of each
/// instruction and native function. Nothing is claimed of its contents.
#[verifier::external_type_specification]
#[verifier::external_body]
pub struct ExCostTable(move_core_types::gas_schedule::CostTable);

/// `move_core_types::errmap::ErrorMapping`, the descriptions of abort codes.
/// Nothing is claimed of its contents.
#[verifier::external_type_specification]
#[verifier::external_body]
pub struct ExErrorMapping(move_core_types::errmap::ErrorMapping);

/// One native function as the embedding application registers it: module
/// address, module name, function name, implementation.
pub type NativeFunctionRecord<F> = (
    move_core_types::account_address::AccountAddress,
    move_core_types::identifier::Identifier,
    move_core_types::identifier::Identifier,
    F,
);

/// The types that the subsystems behind the command line own. The router
/// never looks inside a value of any of them.
pub trait Toolchain {
    /// Package build options, read by the package build system.
    type BuildConfig;

    /// The implementation of a native function, run by the virtual machine.
    type NativeFunction;

    /// Options of `build`.
    type Build;

    /// Options of `coverage`.
    type Coverage;

    /// Options of `disassemble`.
    type Disassemble;

    /// Options of `errmap`.
    type Errmap;

    /// Options of `info`.
    type Info;

    /// Options of `new`.
    type New;

    /// Options of `prove`.
    type Prove;

    /// Options of `test`.
    type Test;

    /// The subcommand chosen under `sandbox`, with its options.
    type SandboxCommand;

    /// The subcommand chosen under `experimental`, with its options.
    type ExperimentalCommand;
}

} // verus!
