use cli_dispatch::aliases::AliasTable;
use cli_dispatch::args::ParseError;
use cli_dispatch::config::{ColorMode, ConfigError, Configuration};
use cli_dispatch::dispatch::Resolution;
use cli_dispatch::plan::{plan_invocation, Plan};
use cli_dispatch::registry::CommandRegistry;
use cli_dispatch::search::Directory;

fn strs(xs: &[&str]) -> Vec<String> {
    xs.iter().map(|x| x.to_string()).collect()
}

fn world() -> (CommandRegistry, AliasTable, Vec<Directory>) {
    let reg = CommandRegistry::new(strs(&["build", "test"]));
    let mut al = AliasTable::new();
    al.add("b".to_string(), strs(&["build", "--release"]));
    let dirs = vec![Directory {
        path: "/bin".to_string(),
        entries: strs(&["cargo-clippy"]),
    }];
    (reg, al, dirs)
}

#[test]
fn version_shortcircuits_before_explain_and_list() {
    let (reg, al, dirs) = world();
    let p = plan_invocation(&strs(&["--version", "--explain", "E0001", "--list"]), &reg, &al, &dirs);
    assert_eq!(p, Plan::Version { verbose: false });
    let p = plan_invocation(&strs(&["-v", "--version"]), &reg, &al, &dirs);
    assert_eq!(p, Plan::Version { verbose: true });
}

#[test]
fn explain_shortcircuits_before_list() {
    let (reg, al, dirs) = world();
    let p = plan_invocation(&strs(&["--explain", "E0308", "--list"]), &reg, &al, &dirs);
    assert_eq!(p, Plan::Explain { code: "E0308".to_string() });
}

#[test]
fn list_shortcircuits_before_dispatch() {
    let (reg, al, dirs) = world();
    let p = plan_invocation(&strs(&["--list", "build"]), &reg, &al, &dirs);
    assert_eq!(p, Plan::List { verbose: false });
}

#[test]
fn no_subcommand_means_help_after_configuration() {
    let (reg, al, dirs) = world();
    let p = plan_invocation(&strs(&["-vv", "--quiet"]), &reg, &al, &dirs);
    match p {
        Plan::Help { config } => {
            assert_eq!(config.verbosity, 2);
            assert!(config.quiet);
            assert_eq!(config.color, ColorMode::Auto);
        },
        other => panic!("expected help, got {:?}", other),
    }
}

#[test]
fn configuration_copies_every_global_flag() {
    let (reg, al, dirs) = world();
    let tokens = strs(&["-v", "--color", "never", "--frozen", "--locked", "-Z", "x", "build"]);
    let p = plan_invocation(&tokens, &reg, &al, &dirs);
    match p {
        Plan::Run { config, resolution } => {
            assert_eq!(config.verbosity, 1);
            assert!(!config.quiet);
            assert_eq!(config.color, ColorMode::Never);
            assert!(config.frozen);
            assert!(config.locked);
            assert_eq!(config.unstable, strs(&["x"]));
            assert_eq!(resolution, Resolution::Builtin { index: 0, args: strs(&[]) });
        },
        other => panic!("expected a dispatch, got {:?}", other),
    }
}

#[test]
fn invalid_color_aborts_before_any_dispatch() {
    let (reg, al, dirs) = world();
    let p = plan_invocation(&strs(&["--color", "sometimes", "build"]), &reg, &al, &dirs);
    assert_eq!(
        p,
        Plan::BadConfig { error: ConfigError::InvalidColor("sometimes".to_string()) }
    );
    for good in ["auto", "always", "never"] {
        let p = plan_invocation(&strs(&["--color", good, "build"]), &reg, &al, &dirs);
        assert!(matches!(p, Plan::Run { .. }), "color {} should pass", good);
    }
}

#[test]
fn malformed_flags_are_fatal_usage_errors() {
    let (reg, al, dirs) = world();
    let p = plan_invocation(&strs(&["--such-flag"]), &reg, &al, &dirs);
    assert_eq!(p, Plan::Usage { error: ParseError::UnknownFlag("--such-flag".to_string()) });
}

#[test]
fn unresolvable_invocation_reports_the_name() {
    let (reg, al, dirs) = world();
    let p = plan_invocation(&strs(&["frobnicate"]), &reg, &al, &dirs);
    match p {
        Plan::Run { resolution, .. } => {
            assert_eq!(resolution, Resolution::Unresolved { name: "frobnicate".to_string() });
        },
        other => panic!("expected a dispatch, got {:?}", other),
    }
}

#[test]
fn aliased_plan_runs_the_expanded_builtin() {
    let (reg, al, dirs) = world();
    let p = plan_invocation(&strs(&["b", "--verbose"]), &reg, &al, &dirs);
    match p {
        Plan::Run { config, resolution } => {
            // Global flags of the top-level invocation only: the alias
            // tokens are the subcommand's, not re-folded into the
            // configuration.
            assert_eq!(config.verbosity, 0);
            assert_eq!(
                resolution,
                Resolution::Builtin { index: 0, args: strs(&["--release", "--verbose"]) }
            );
        },
        other => panic!("expected a dispatch, got {:?}", other),
    }
}

#[test]
fn external_plan_carries_path_and_argv() {
    let (reg, al, dirs) = world();
    let p = plan_invocation(&strs(&["clippy", "--fix"]), &reg, &al, &dirs);
    match p {
        Plan::Run { resolution, .. } => {
            assert_eq!(
                resolution,
                Resolution::External {
                    path: "/bin/cargo-clippy".to_string(),
                    argv: strs(&["clippy", "--fix"]),
                }
            );
        },
        other => panic!("expected a dispatch, got {:?}", other),
    }
}

#[test]
fn configuration_init_is_plain_and_repeatable() {
    let p = cli_dispatch::args::parse(&strs(&["--color", "always", "-q"])).unwrap();
    let c1 = Configuration::init(&p).unwrap();
    let c2 = Configuration::init(&p).unwrap();
    assert_eq!(c1, c2);
    assert_eq!(c1.color, ColorMode::Always);
    assert!(c1.quiet);
}
