use cli_dispatch::aliases::AliasTable;
use cli_dispatch::dispatch::{resolve, Resolution};
use cli_dispatch::registry::CommandRegistry;
use cli_dispatch::search::{external_name, find_external, Directory};

fn strs(xs: &[&str]) -> Vec<String> {
    xs.iter().map(|x| x.to_string()).collect()
}

fn registry(names: &[&str]) -> CommandRegistry {
    CommandRegistry::new(strs(names))
}

fn dir(path: &str, entries: &[&str]) -> Directory {
    Directory { path: path.to_string(), entries: strs(entries) }
}

#[test]
fn builtin_wins_over_alias_and_external_of_same_name() {
    let reg = registry(&["build", "test"]);
    let mut al = AliasTable::new();
    al.add("test".to_string(), strs(&["build", "--release"]));
    let dirs = vec![dir("/bin", &["cargo-test"])];
    let r = resolve(&reg, &al, &dirs, &"test".to_string(), &strs(&["--all"]));
    assert_eq!(r, Resolution::Builtin { index: 1, args: strs(&["--all"]) });
}

#[test]
fn alias_expands_with_extra_args_appended() {
    let reg = registry(&["build", "test"]);
    let mut al = AliasTable::new();
    al.add("b".to_string(), strs(&["build", "--release"]));
    let dirs: Vec<Directory> = Vec::new();
    let r = resolve(&reg, &al, &dirs, &"b".to_string(), &strs(&["--verbose"]));
    assert_eq!(r, Resolution::Builtin { index: 0, args: strs(&["--release", "--verbose"]) });
}

#[test]
fn alias_invocation_equals_reparsed_expansion() {
    let reg = registry(&["run"]);
    let mut al = AliasTable::new();
    al.add("r".to_string(), strs(&["run", "--bin", "main"]));
    let dirs: Vec<Directory> = Vec::new();
    let via_alias = resolve(&reg, &al, &dirs, &"r".to_string(), &strs(&["--quiet"]));
    // The expansion followed by the extra arguments, dispatched as a
    // fresh invocation: subcommand "run", then the merged tail.
    let direct = resolve(
        &reg,
        &al,
        &dirs,
        &"run".to_string(),
        &strs(&["--bin", "main", "--quiet"]),
    );
    assert_eq!(via_alias, direct);
}

#[test]
fn alias_chain_reaches_builtin_transitively() {
    let reg = registry(&["build"]);
    let mut al = AliasTable::new();
    al.add("a".to_string(), strs(&["b"]));
    al.add("b".to_string(), strs(&["build"]));
    let dirs: Vec<Directory> = Vec::new();
    let r = resolve(&reg, &al, &dirs, &"a".to_string(), &strs(&["--flag"]));
    assert_eq!(r, Resolution::Builtin { index: 0, args: strs(&["--flag"]) });
}

#[test]
fn alias_cycle_is_detected_and_named() {
    let reg = registry(&["build"]);
    let mut al = AliasTable::new();
    al.add("a".to_string(), strs(&["b"]));
    al.add("b".to_string(), strs(&["a"]));
    let dirs: Vec<Directory> = Vec::new();
    let r = resolve(&reg, &al, &dirs, &"a".to_string(), &strs(&[]));
    assert_eq!(r, Resolution::AliasCycle { name: "a".to_string() });
    let mut selfloop = AliasTable::new();
    selfloop.add("me".to_string(), strs(&["me"]));
    let r = resolve(&reg, &selfloop, &dirs, &"me".to_string(), &strs(&[]));
    assert_eq!(r, Resolution::AliasCycle { name: "me".to_string() });
}

#[test]
fn alias_expanding_to_nothing_prints_help() {
    let reg = registry(&["build"]);
    let mut al = AliasTable::new();
    al.add("noop".to_string(), strs(&[]));
    let dirs: Vec<Directory> = Vec::new();
    let r = resolve(&reg, &al, &dirs, &"noop".to_string(), &strs(&[]));
    assert_eq!(r, Resolution::Help);
}

#[test]
fn alias_expanding_to_bad_flags_fails_parse() {
    let reg = registry(&["build"]);
    let mut al = AliasTable::new();
    al.add("bad".to_string(), strs(&["--definitely-not-a-flag"]));
    let dirs: Vec<Directory> = Vec::new();
    let r = resolve(&reg, &al, &dirs, &"bad".to_string(), &strs(&[]));
    match r {
        Resolution::BadParse { .. } => {},
        other => panic!("expected a parse failure, got {:?}", other),
    }
}

#[test]
fn external_fallback_takes_first_match_of_ordered_search() {
    let reg = registry(&["build"]);
    let al = AliasTable::new();
    let dirs = vec![
        dir("/first", &["cargo-foo"]),
        dir("/second", &["cargo-foo", "cargo-bar"]),
    ];
    let r = resolve(&reg, &al, &dirs, &"foo".to_string(), &strs(&["x"]));
    assert_eq!(
        r,
        Resolution::External {
            path: "/first/cargo-foo".to_string(),
            argv: strs(&["foo", "x"]),
        }
    );
    let r = resolve(&reg, &al, &dirs, &"bar".to_string(), &strs(&[]));
    assert_eq!(
        r,
        Resolution::External { path: "/second/cargo-bar".to_string(), argv: strs(&["bar"]) }
    );
}

#[test]
fn external_name_follows_the_convention() {
    assert_eq!(external_name("frobnicate"), "cargo-frobnicate");
    let dirs = vec![dir("/d", &["cargo-quux"])];
    assert_eq!(
        find_external(&dirs, &external_name("quux")),
        Some("/d/cargo-quux".to_string())
    );
    assert_eq!(find_external(&dirs, &external_name("absent")), None);
}

#[test]
fn unresolvable_command_fails_naming_it() {
    let reg = registry(&["build", "test"]);
    let al = AliasTable::new();
    let dirs = vec![dir("/bin", &["cargo-other"])];
    let r = resolve(&reg, &al, &dirs, &"frobnicate".to_string(), &strs(&[]));
    assert_eq!(r, Resolution::Unresolved { name: "frobnicate".to_string() });
}

#[test]
fn registry_lookup_is_exact_match_only() {
    let reg = registry(&["build", "test"]);
    assert_eq!(reg.find("build"), Some(0));
    assert_eq!(reg.find("test"), Some(1));
    assert_eq!(reg.find("bui"), None);
    assert_eq!(reg.find("builds"), None);
    assert_eq!(reg.find(""), None);
}

#[test]
fn alias_lookup_is_exact_match_only() {
    let mut al = AliasTable::new();
    al.add("b".to_string(), strs(&["build"]));
    assert_eq!(al.lookup("b"), Some(strs(&["build"])));
    assert_eq!(al.lookup("bu"), None);
    assert_eq!(al.lookup(""), None);
}
