use move_cli::{move_cli, route, run_cli, Command, Invocation, Move, MoveCLI, Toolchain};
use move_core_types::errmap::ErrorMapping;
use move_core_types::gas_schedule::{CostTable, GasConstants};

struct Plain;

impl Toolchain for Plain {
    type BuildConfig = u8;
    type NativeFunction = u32;
    type Build = ();
    type Coverage = ();
    type Disassemble = ();
    type Errmap = ();
    type Info = ();
    type New = ();
    type Prove = ();
    type Test = ();
    type SandboxCommand = ();
    type ExperimentalCommand = ();
}

fn costs() -> CostTable {
    CostTable {
        instruction_table: vec![],
        native_table: vec![],
        gas_constants: GasConstants::default(),
    }
}

fn global_options() -> Move<u8> {
    Move { package_path: Some("/tmp/pkg".to_string()), verbose: false, build_config: 3 }
}

fn command(name: &str) -> Command<Plain> {
    match name {
        "build" => Command::Build(()),
        "coverage" => Command::Coverage(()),
        "disassemble" => Command::Disassemble(()),
        "errmap" => Command::Errmap(()),
        "info" => Command::Info(()),
        "new" => Command::New(()),
        "prove" => Command::Prove(()),
        "test" => Command::Test(()),
        "sandbox" => Command::Sandbox { storage_dir: "storage".to_string(), cmd: () },
        "experimental" => Command::Experimental { storage_dir: "storage".to_string(), cmd: () },
        _ => panic!("no such command: {}", name),
    }
}

fn handler_name(invocation: &Invocation<Plain>) -> &'static str {
    match invocation {
        Invocation::Build { .. } => "build",
        Invocation::Coverage { .. } => "coverage",
        Invocation::Disassemble { .. } => "disassemble",
        Invocation::Errmap { .. } => "errmap",
        Invocation::Info { .. } => "info",
        Invocation::New { .. } => "new",
        Invocation::Prove { .. } => "prove",
        Invocation::Test { .. } => "test",
        Invocation::Sandbox { .. } => "sandbox",
        Invocation::Experimental { .. } => "experimental",
    }
}

const NAMES: [&str; 10] = [
    "build",
    "coverage",
    "disassemble",
    "errmap",
    "info",
    "new",
    "prove",
    "test",
    "sandbox",
    "experimental",
];

#[test]
fn each_command_reaches_the_handler_of_its_name() {
    let (costs, errors) = (costs(), ErrorMapping::default());
    for name in NAMES {
        let invocation = route(vec![], &costs, &errors, global_options(), command(name));
        assert_eq!(handler_name(&invocation), name);
    }
}

#[test]
fn each_command_returns_its_handler_error_unchanged() {
    let (costs, errors) = (costs(), ErrorMapping::default());
    for name in NAMES {
        let outcome = run_cli(
            vec![],
            &costs,
            &errors,
            global_options(),
            command(name),
            |invocation: Invocation<Plain>| -> Result<(), String> {
                Err(format!("sentinel from {}", handler_name(&invocation)))
            },
        );
        assert_eq!(outcome, Err(format!("sentinel from {}", name)));
    }
}

#[test]
fn success_is_returned_as_success() {
    let (costs, errors) = (costs(), ErrorMapping::default());
    for name in NAMES {
        let outcome = run_cli(
            vec![],
            &costs,
            &errors,
            global_options(),
            command(name),
            |_invocation: Invocation<Plain>| -> Result<(), String> { Ok(()) },
        );
        assert_eq!(outcome, Ok(()));
    }
}

#[test]
fn handler_is_called_exactly_once() {
    let (costs, errors) = (costs(), ErrorMapping::default());
    for name in NAMES {
        let mut calls: Vec<&'static str> = Vec::new();
        let outcome = run_cli(
            vec![],
            &costs,
            &errors,
            global_options(),
            command(name),
            |invocation: Invocation<Plain>| -> Result<(), String> {
                calls.push(handler_name(&invocation));
                Ok(())
            },
        );
        assert_eq!(outcome, Ok(()));
        assert_eq!(calls, vec![name]);
    }
}

#[test]
fn run_cli_hands_the_handler_what_route_chose() {
    let (costs, errors) = (costs(), ErrorMapping::default());
    let natives = vec![];
    let mut seen: Vec<(Option<String>, u8)> = Vec::new();
    let outcome = run_cli(
        natives,
        &costs,
        &errors,
        global_options(),
        command("prove"),
        |invocation: Invocation<Plain>| -> Result<(), String> {
            if let Invocation::Prove { package_path, build_config, .. } = invocation {
                seen.push((package_path, build_config));
            }
            Ok(())
        },
    );
    assert_eq!(outcome, Ok(()));
    assert_eq!(seen, vec![(Some("/tmp/pkg".to_string()), 3)]);
}

#[test]
fn twice_the_same_inputs_twice_the_same_call() {
    let (costs, errors) = (costs(), ErrorMapping::default());
    let mut calls: Vec<(&'static str, Option<String>, u8)> = Vec::new();
    for _ in 0..2 {
        let outcome = run_cli(
            vec![],
            &costs,
            &errors,
            global_options(),
            command("build"),
            |invocation: Invocation<Plain>| -> Result<(), String> {
                let name = handler_name(&invocation);
                if let Invocation::Build { package_path, build_config, .. } = invocation {
                    calls.push((name, package_path, build_config));
                }
                Ok(())
            },
        );
        assert_eq!(outcome, Ok(()));
    }
    assert_eq!(calls.len(), 2);
    assert_eq!(calls[0], ("build", Some("/tmp/pkg".to_string()), 3));
    assert_eq!(calls[0], calls[1]);
}

#[test]
fn move_cli_runs_the_subcommand_with_the_global_options() {
    let (costs, errors) = (costs(), ErrorMapping::default());
    let args = MoveCLI { move_args: global_options(), cmd: command("test") };
    let natives = vec![];
    let mut seen: Vec<(Option<String>, u8, usize)> = Vec::new();
    let outcome = move_cli(
        natives,
        &costs,
        &errors,
        args,
        |invocation: Invocation<Plain>| -> Result<(), String> {
            match invocation {
                Invocation::Test { package_path, build_config, natives, .. } => {
                    seen.push((package_path, build_config, natives.len()));
                    Err("tests failed".to_string())
                }
                _ => Ok(()),
            }
        },
    );
    assert_eq!(outcome, Err("tests failed".to_string()));
    assert_eq!(seen, vec![(Some("/tmp/pkg".to_string()), 3, 0)]);
}

#[test]
fn anyhow_error_is_returned_with_its_chain() {
    let (costs, errors) = (costs(), ErrorMapping::default());
    let outcome: Result<(), anyhow::Error> = run_cli(
        vec![],
        &costs,
        &errors,
        global_options(),
        command("build"),
        |_invocation: Invocation<Plain>| {
            Err(anyhow::Error::msg("missing manifest").context("build failed"))
        },
    );
    let error = outcome.unwrap_err();
    let chain: Vec<String> = error.chain().map(|cause| cause.to_string()).collect();
    assert_eq!(chain, vec!["build failed".to_string(), "missing manifest".to_string()]);
}
