use cli_dispatch::aliases::AliasTable;
use cli_dispatch::output::{
    config_error_message, cycle_message, installed_commands, list_lines, parse_error_message,
    unresolved_message, version_lines, CommandListing, CommitInfo, VersionInfo,
};
use cli_dispatch::args::ParseError;
use cli_dispatch::config::ConfigError;
use cli_dispatch::registry::CommandRegistry;
use cli_dispatch::search::Directory;
use cli_dispatch::strutil::u64_to_string;

fn strs(xs: &[&str]) -> Vec<String> {
    xs.iter().map(|x| x.to_string()).collect()
}

fn version() -> VersionInfo {
    VersionInfo {
        line: "cargo 1.2.3".to_string(),
        major: 1,
        minor: 2,
        patch: 3,
        commit: None,
    }
}

#[test]
fn version_without_verbosity_is_one_line() {
    let lines = version_lines(&version(), false);
    assert_eq!(lines, strs(&["cargo 1.2.3"]));
}

#[test]
fn verbose_version_adds_release_line() {
    let lines = version_lines(&version(), true);
    assert_eq!(lines, strs(&["cargo 1.2.3", "release: 1.2.3"]));
}

#[test]
fn verbose_version_adds_commit_lines_only_with_metadata() {
    let mut v = version();
    v.commit = Some(CommitInfo {
        hash: "abc123".to_string(),
        date: "2018-03-01".to_string(),
    });
    let lines = version_lines(&v, true);
    assert_eq!(
        lines,
        strs(&[
            "cargo 1.2.3",
            "release: 1.2.3",
            "commit-hash: abc123",
            "commit-date: 2018-03-01",
        ])
    );
    // Without verbosity the metadata stays hidden.
    assert_eq!(version_lines(&v, false), strs(&["cargo 1.2.3"]));
}

#[test]
fn decimal_rendering_is_exact() {
    assert_eq!(u64_to_string(0), "0");
    assert_eq!(u64_to_string(7), "7");
    assert_eq!(u64_to_string(10), "10");
    assert_eq!(u64_to_string(400), "400");
    assert_eq!(u64_to_string(18446744073709551615), "18446744073709551615");
}

#[test]
fn list_of_two_builtins_and_no_externals() {
    let reg = CommandRegistry::new(strs(&["build", "test"]));
    let dirs: Vec<Directory> = Vec::new();
    let cmds = installed_commands(&reg, &dirs);
    let lines = list_lines(&cmds, false);
    assert_eq!(lines, strs(&["Installed Commands:", "    build", "    test"]));
}

#[test]
fn verbose_list_pads_names_and_shows_paths() {
    let cmds = vec![
        CommandListing { name: "build".to_string(), path: None },
        CommandListing { name: "foo".to_string(), path: Some("/d/cargo-foo".to_string()) },
    ];
    let lines = list_lines(&cmds, true);
    assert_eq!(lines[0], "Installed Commands:");
    assert_eq!(lines[1], format!("    {:<20}", "build"));
    assert_eq!(lines[2], format!("    {:<20} {}", "foo", "/d/cargo-foo"));
}

#[test]
fn installed_commands_strip_the_prefix_and_keep_order() {
    let reg = CommandRegistry::new(strs(&["build"]));
    let dirs = vec![
        Directory { path: "/a".to_string(), entries: strs(&["cargo-zed", "README", "cargo-"]) },
        Directory { path: "/b".to_string(), entries: strs(&["cargo-alpha"]) },
    ];
    let cmds = installed_commands(&reg, &dirs);
    assert_eq!(
        cmds,
        vec![
            CommandListing { name: "build".to_string(), path: None },
            CommandListing { name: "zed".to_string(), path: Some("/a/cargo-zed".to_string()) },
            CommandListing { name: "alpha".to_string(), path: Some("/b/cargo-alpha".to_string()) },
        ]
    );
}

#[test]
fn error_messages_name_their_subject() {
    let m = unresolved_message("frobnicate");
    assert_eq!(m, "no such command: frobnicate");
    assert!(m.contains("frobnicate"));
    assert_eq!(cycle_message("b"), "alias cycle detected: b");
    assert_eq!(
        parse_error_message(&ParseError::UnknownFlag("--wat".to_string())),
        "unknown flag: --wat"
    );
    assert_eq!(
        parse_error_message(&ParseError::MissingValue("--color".to_string())),
        "missing value for: --color"
    );
    assert_eq!(
        config_error_message(&ConfigError::InvalidColor("sometimes".to_string())),
        "invalid color setting: sometimes"
    );
}

#[test]
fn alias_table_keeps_definitions_in_order() {
    let mut al = AliasTable::new();
    al.add("x".to_string(), strs(&["build"]));
    al.add("y".to_string(), strs(&["test", "--all"]));
    assert_eq!(al.lookup("x"), Some(strs(&["build"])));
    assert_eq!(al.lookup("y"), Some(strs(&["test", "--all"])));
}
