use cli_dispatch::args::{parse, ParseError};

fn strs(xs: &[&str]) -> Vec<String> {
    xs.iter().map(|x| x.to_string()).collect()
}

#[test]
fn empty_invocation_parses_to_nothing() {
    let p = parse(&strs(&[])).unwrap();
    assert_eq!(p.verbose, 0);
    assert!(!p.quiet);
    assert_eq!(p.color, None);
    assert!(!p.frozen);
    assert!(!p.locked);
    assert!(p.unstable.is_empty());
    assert!(!p.version);
    assert!(!p.list);
    assert_eq!(p.explain, None);
    assert!(p.sub.is_none());
}

#[test]
fn verbosity_accumulates_across_occurrences() {
    let p = parse(&strs(&["--verbose", "-v", "-vv", "build", "--x"])).unwrap();
    assert_eq!(p.verbose, 4);
    let sub = p.sub.unwrap();
    assert_eq!(sub.name, "build");
    assert_eq!(sub.args, strs(&["--x"]));
}

#[test]
fn short_and_long_flags_are_recognized() {
    let p = parse(&strs(&["-V"])).unwrap();
    assert!(p.version);
    let p = parse(&strs(&["-q", "--frozen", "--locked"])).unwrap();
    assert!(p.quiet && p.frozen && p.locked);
    let p = parse(&strs(&["--list"])).unwrap();
    assert!(p.list);
}

#[test]
fn color_takes_a_value() {
    let p = parse(&strs(&["--color", "always", "test"])).unwrap();
    assert_eq!(p.color, Some("always".to_string()));
    let sub = p.sub.unwrap();
    assert_eq!(sub.name, "test");
    assert!(sub.args.is_empty());
}

#[test]
fn explain_takes_a_value() {
    let p = parse(&strs(&["--explain", "E0308"])).unwrap();
    assert_eq!(p.explain, Some("E0308".to_string()));
}

#[test]
fn unstable_flags_collect_in_order() {
    let p = parse(&strs(&["-Z", "unstable-options", "-Z", "avoid-dev-deps", "build"])).unwrap();
    assert_eq!(p.unstable, strs(&["unstable-options", "avoid-dev-deps"]));
}

#[test]
fn unknown_flag_is_a_parse_error() {
    let e = parse(&strs(&["--nope"])).unwrap_err();
    assert_eq!(e, ParseError::UnknownFlag("--nope".to_string()));
}

#[test]
fn value_flag_at_end_is_missing_value() {
    let e = parse(&strs(&["--color"])).unwrap_err();
    assert_eq!(e, ParseError::MissingValue("--color".to_string()));
    let e = parse(&strs(&["--explain"])).unwrap_err();
    assert_eq!(e, ParseError::MissingValue("--explain".to_string()));
    let e = parse(&strs(&["-Z"])).unwrap_err();
    assert_eq!(e, ParseError::MissingValue("-Z".to_string()));
}

#[test]
fn tokens_after_subcommand_are_opaque() {
    let p = parse(&strs(&["build", "-v", "--color", "always"])).unwrap();
    assert_eq!(p.verbose, 0);
    assert_eq!(p.color, None);
    let sub = p.sub.unwrap();
    assert_eq!(sub.name, "build");
    assert_eq!(sub.args, strs(&["-v", "--color", "always"]));
}

#[test]
fn parsing_twice_yields_identical_results() {
    let tokens = strs(&["-vv", "--color", "auto", "-Z", "x", "run", "--release", "-q"]);
    let first = parse(&tokens);
    let second = parse(&tokens);
    assert_eq!(first, second);
    let bad = strs(&["--bogus-flag"]);
    assert_eq!(parse(&bad), parse(&bad));
}
