//! The global option parser.
//!
//! An invocation is an ordered sequence of string tokens (argv without
//! the program name).  The parser walks the tokens from the left,
//! folding recognized global flags into a `ParsedArgs` accumulator; the
//! first token that is not a recognized flag and does not start with
//! `-` becomes the subcommand name, and every token after it belongs to
//! the subcommand, opaque to this parser.  A token that looks like a
//! flag but is not recognized, or a value-taking flag at the end of the
//! input, is a parse error.
//!
//! The whole grammar is captured by the specification function
//! [`spec_parse`], and the executable [`parse`] is proved to return
//! exactly that.

use vstd::prelude::*;

use crate::strutil::str_eq;

verus! {

/// A subcommand name together with the tokens that follow it.
#[derive(Debug, PartialEq, Eq)]
pub struct Subcommand {
    pub name: String,
    pub args: Vec<String>,
}

/// Mathematical image of a `Subcommand`.
pub ghost struct SubcommandView {
    pub name: Seq<char>,
    pub args: Seq<Seq<char>>,
}

impl View for Subcommand {
    type V = SubcommandView;

    open spec fn view(&self) -> SubcommandView {
        SubcommandView { name: self.name@, args: self.args.deep_view() }
    }
}

/// The structured result of parsing one invocation.
#[derive(Debug, PartialEq, Eq)]
pub struct ParsedArgs {
    /// Accumulated count of verbosity flags (saturating).
    pub verbose: u64,
    pub quiet: bool,
    /// Value of the color flag, if given.
    pub color: Option<String>,
    pub frozen: bool,
    pub locked: bool,
    /// Values of the repeated unstable-feature flag, in order.
    pub unstable: Vec<String>,
    pub version: bool,
    pub list: bool,
    /// Diagnostic code of the explain flag, if given.
    pub explain: Option<String>,
    /// The subcommand and its trailing arguments, if any.
    pub sub: Option<Subcommand>,
}

/// Mathematical image of `ParsedArgs`.
pub ghost struct ParsedView {
    pub verbose: u64,
    pub quiet: bool,
    pub color: Option<Seq<char>>,
    pub frozen: bool,
    pub locked: bool,
    pub unstable: Seq<Seq<char>>,
    pub version: bool,
    pub list: bool,
    pub explain: Option<Seq<char>>,
    pub sub: Option<SubcommandView>,
}

impl View for ParsedArgs {
    type V = ParsedView;

    open spec fn view(&self) -> ParsedView {
        ParsedView {
            verbose: self.verbose,
            quiet: self.quiet,
            color: match self.color {
                Some(c) => Some(c@),
                None => None,
            },
            frozen: self.frozen,
            locked: self.locked,
            unstable: self.unstable.deep_view(),
            version: self.version,
            list: self.list,
            explain: match self.explain {
                Some(c) => Some(c@),
                None => None,
            },
            sub: match self.sub {
                Some(ref s) => Some(s@),
                None => None,
            },
        }
    }
}

/// A malformed invocation: either a flag-shaped token that no global
/// flag matches, or a value-taking flag with no value after it.  The
/// carried string is the offending token.
#[derive(Debug, PartialEq, Eq)]
pub enum ParseError {
    UnknownFlag(String),
    MissingValue(String),
}

/// Mathematical image of `ParseError`.
pub ghost enum ParseErrorView {
    UnknownFlag(Seq<char>),
    MissingValue(Seq<char>),
}

impl View for ParseError {
    type V = ParseErrorView;

    open spec fn view(&self) -> ParseErrorView {
        match self {
            ParseError::UnknownFlag(t) => ParseErrorView::UnknownFlag(t@),
            ParseError::MissingValue(t) => ParseErrorView::MissingValue(t@),
        }
    }
}

/// The accumulator every parse starts from: no flags seen, no
/// subcommand.
pub open spec fn empty_parsed() -> ParsedView {
    ParsedView {
        verbose: 0,
        quiet: false,
        color: None,
        frozen: false,
        locked: false,
        unstable: Seq::empty(),
        version: false,
        list: false,
        explain: None,
        sub: None,
    }
}

/// A token shaped like a flag: non-empty and starting with `-`.
pub open spec fn is_flag_token(t: Seq<char>) -> bool {
    t.len() > 0 && t[0] == '-'
}

/// A run of short verbosity flags: `-v`, `-vv`, `-vvv`, ...  Each `v`
/// counts as one occurrence.
pub open spec fn is_verbosity_run(t: Seq<char>) -> bool {
    t.len() >= 2 && t[0] == '-' && (forall|j: int| 1 <= j < t.len() ==> t[j] == 'v')
}

/// Addition on the verbosity counter, saturating at the counter's
/// maximum.
pub open spec fn sat_add_u64(a: u64, k: nat) -> u64 {
    if a + k <= u64::MAX {
        (a + k) as u64
    } else {
        u64::MAX
    }
}

/// One step per token: the meaning of the whole grammar.  `i` is the
/// position of the next token to examine and `acc` the flags folded so
/// far.
pub open spec fn parse_from(
    tokens: Seq<Seq<char>>,
    i: int,
    acc: ParsedView,
) -> Result<ParsedView, ParseErrorView>
    decreases tokens.len() - i,
{
    if i < 0 || i >= tokens.len() {
        Ok(acc)
    } else {
        let t = tokens[i];
        if t == "--version"@ || t == "-V"@ {
            parse_from(tokens, i + 1, ParsedView { version: true, ..acc })
        } else if t == "--list"@ {
            parse_from(tokens, i + 1, ParsedView { list: true, ..acc })
        } else if t == "--quiet"@ || t == "-q"@ {
            parse_from(tokens, i + 1, ParsedView { quiet: true, ..acc })
        } else if t == "--frozen"@ {
            parse_from(tokens, i + 1, ParsedView { frozen: true, ..acc })
        } else if t == "--locked"@ {
            parse_from(tokens, i + 1, ParsedView { locked: true, ..acc })
        } else if t == "--verbose"@ {
            parse_from(tokens, i + 1, ParsedView { verbose: sat_add_u64(acc.verbose, 1), ..acc })
        } else if is_verbosity_run(t) {
            parse_from(
                tokens,
                i + 1,
                ParsedView { verbose: sat_add_u64(acc.verbose, (t.len() - 1) as nat), ..acc },
            )
        } else if t == "--explain"@ {
            if i + 1 < tokens.len() {
                parse_from(tokens, i + 2, ParsedView { explain: Some(tokens[i + 1]), ..acc })
            } else {
                Err(ParseErrorView::MissingValue(t))
            }
        } else if t == "--color"@ {
            if i + 1 < tokens.len() {
                parse_from(tokens, i + 2, ParsedView { color: Some(tokens[i + 1]), ..acc })
            } else {
                Err(ParseErrorView::MissingValue(t))
            }
        } else if t == "-Z"@ {
            if i + 1 < tokens.len() {
                parse_from(
                    tokens,
                    i + 2,
                    ParsedView { unstable: acc.unstable.push(tokens[i + 1]), ..acc },
                )
            } else {
                Err(ParseErrorView::MissingValue(t))
            }
        } else if is_flag_token(t) {
            Err(ParseErrorView::UnknownFlag(t))
        } else {
            Ok(
                ParsedView {
                    sub: Some(
                        SubcommandView { name: t, args: tokens.subrange(i + 1, tokens.len() as int) },
                    ),
                    ..acc
                },
            )
        }
    }
}

/// What parsing a whole invocation means.
pub open spec fn spec_parse(tokens: Seq<Seq<char>>) -> Result<ParsedView, ParseErrorView> {
    parse_from(tokens, 0, empty_parsed())
}

/// The image of an executable parse result.
pub open spec fn parse_result_view(r: Result<ParsedArgs, ParseError>) -> Result<
    ParsedView,
    ParseErrorView,
> {
    match r {
        Ok(p) => Ok(p@),
        Err(e) => Err(e@),
    }
}

impl ParsedArgs {
    /// The accumulator the parser starts from.
    pub fn new() -> (r: ParsedArgs)
        ensures
            r@ == empty_parsed(),
    {
        let r = ParsedArgs {
            verbose: 0,
            quiet: false,
            color: None,
            frozen: false,
            locked: false,
            unstable: Vec::new(),
            version: false,
            list: false,
            explain: None,
            sub: None,
        };
        proof {
            assert(r@.unstable =~= empty_parsed().unstable);
        }
        r
    }
}

/// Saturating addition on the verbosity counter.
fn sat_add(a: u64, k: u64) -> (r: u64)
    ensures
        r == sat_add_u64(a, k as nat),
{
    if k <= u64::MAX - a {
        a + k
    } else {
        u64::MAX
    }
}

/// Recognize a run of short verbosity flags and count its occurrences.
fn verbosity_run_count(t: &str) -> (r: Option<usize>)
    ensures
        match r {
            Some(k) => is_verbosity_run(t@) && k as int == t@.len() - 1,
            None => !is_verbosity_run(t@),
        },
{
    let n = t.unicode_len();
    if n < 2 {
        return None;
    }
    if t.get_char(0) != '-' {
        return None;
    }
    let mut j: usize = 1;
    while j < n
        invariant
            2 <= n,
            n == t@.len(),
            t@[0] == '-',
            1 <= j <= n,
            forall|m: int| 1 <= m < j ==> t@[m] == 'v',
        decreases n - j,
    {
        if t.get_char(j) != 'v' {
            return None;
        }
        j = j + 1;
    }
    Some(n - 1)
}

/// A token shaped like a flag.
fn is_flag(t: &str) -> (r: bool)
    ensures
        r == is_flag_token(t@),
{
    if t.unicode_len() == 0 {
        return false;
    }
    t.get_char(0) == '-'
}

/// Parse one invocation.  The result is exactly what [`spec_parse`]
/// assigns to the token sequence: parsing is a pure function of its
/// input, so it may be re-run at will (in particular on every alias
/// expansion) and always yields the same answer.
pub fn parse(tokens: &Vec<String>) -> (r: Result<ParsedArgs, ParseError>)
    ensures
        parse_result_view(r) == spec_parse(tokens.deep_view()),
{
    let ghost toks = tokens.deep_view();
    let mut acc = ParsedArgs::new();
    let mut i: usize = 0;
    while i < tokens.len()
        invariant
            toks == tokens.deep_view(),
            toks.len() == tokens.len(),
            i <= tokens.len(),
            parse_from(toks, i as int, acc@) == spec_parse(toks),
        decreases tokens.len() - i,
    {
        let t = &tokens[i];
        proof {
            assert(toks[i as int] == t@);
        }
        if str_eq(t.as_str(), "--version") || str_eq(t.as_str(), "-V") {
            acc.version = true;
            i = i + 1;
        } else if str_eq(t.as_str(), "--list") {
            acc.list = true;
            i = i + 1;
        } else if str_eq(t.as_str(), "--quiet") || str_eq(t.as_str(), "-q") {
            acc.quiet = true;
            i = i + 1;
        } else if str_eq(t.as_str(), "--frozen") {
            acc.frozen = true;
            i = i + 1;
        } else if str_eq(t.as_str(), "--locked") {
            acc.locked = true;
            i = i + 1;
        } else if str_eq(t.as_str(), "--verbose") {
            acc.verbose = sat_add(acc.verbose, 1);
            i = i + 1;
        } else if let Some(k) = verbosity_run_count(t.as_str()) {
            acc.verbose = sat_add(acc.verbose, k as u64);
            i = i + 1;
        } else if str_eq(t.as_str(), "--explain") {
            if i + 1 < tokens.len() {
                acc.explain = Some(tokens[i + 1].clone());
                i = i + 2;
            } else {
                return Err(ParseError::MissingValue(t.clone()));
            }
        } else if str_eq(t.as_str(), "--color") {
            if i + 1 < tokens.len() {
                acc.color = Some(tokens[i + 1].clone());
                i = i + 2;
            } else {
                return Err(ParseError::MissingValue(t.clone()));
            }
        } else if str_eq(t.as_str(), "-Z") {
            if i + 1 < tokens.len() {
                let ghost old_unstable = acc@.unstable;
                acc.unstable.push(tokens[i + 1].clone());
                proof {
                    assert(acc@.unstable =~= old_unstable.push(toks[i + 1]));
                }
                i = i + 2;
            } else {
                return Err(ParseError::MissingValue(t.clone()));
            }
        } else if is_flag(t.as_str()) {
            return Err(ParseError::UnknownFlag(t.clone()));
        } else {
            let name = t.clone();
            let mut rest: Vec<String> = Vec::new();
            let mut j: usize = i + 1;
            while j < tokens.len()
                invariant
                    toks == tokens.deep_view(),
                    toks.len() == tokens.len(),
                    i + 1 <= j <= tokens.len(),
                    rest.len() == j - (i + 1),
                    forall|k: int|
                        0 <= k < rest.len() ==> rest.deep_view()[k] == toks[i + 1 + k],
                decreases tokens.len() - j,
            {
                let ghost prev = rest.deep_view();
                rest.push(tokens[j].clone());
                proof {
                    assert forall|k: int|
                        0 <= k < rest.len() implies rest.deep_view()[k] == toks[i + 1 + k] by {
                        if k < prev.len() {
                            assert(rest.deep_view()[k] == prev[k]);
                        } else {
                            assert(rest@[k] == tokens@[j as int]);
                        }
                    }
                }
                j = j + 1;
            }
            proof {
                assert(rest.deep_view() =~= toks.subrange(
                    i as int + 1,
                    toks.len() as int,
                ));
            }
            acc.sub = Some(Subcommand { name, args: rest });
            return Ok(acc);
        }
    }
    Ok(acc)
}

/// The global option parser is deterministic: any two results of
/// parsing the same token sequence are identical, so re-running the
/// parser on the same invocation yields identical parsed arguments.
pub proof fn lemma_parse_deterministic(
    tokens: Seq<Seq<char>>,
    r1: Result<ParsedView, ParseErrorView>,
    r2: Result<ParsedView, ParseErrorView>,
)
    requires
        r1 == spec_parse(tokens),
        r2 == spec_parse(tokens),
    ensures
        r1 == r2,
{
}

} // verus!
