//! The whole invocation, planned.
//!
//! [`plan_invocation`] strings the verified pieces together exactly as
//! the process entry point must: parse the global options; check the
//! three introspection flags in their fixed priority — version first,
//! then explain, then list, each ignoring the ones after it;
//! initialize the process configuration; with no subcommand, print the
//! top-level help and succeed; otherwise resolve the subcommand
//! through the dispatch loop.  The caller only performs the plan:
//! print, spawn, or report, and exit accordingly.

use vstd::prelude::*;

use crate::aliases::{AliasDefView, AliasTable};
use crate::args::{parse, spec_parse, ParseError, ParseErrorView, ParsedArgs};
use crate::config::{spec_init, ConfigError, ConfigErrorView, Configuration, ConfigurationView};
use crate::dispatch::{resolve, spec_resolve, Resolution, ResolutionView};
use crate::registry::CommandRegistry;
use crate::search::{Directory, DirectoryView};

verus! {

/// What one invocation amounts to.
#[derive(Debug, PartialEq, Eq)]
pub enum Plan {
    /// The global options did not parse: print usage, exit non-zero.
    Usage { error: ParseError },
    /// Print the version banner (verbose with verbosity at least one)
    /// and exit successfully.
    Version { verbose: bool },
    /// Spawn the compiler's explain mode for this code and exit with
    /// its status.
    Explain { code: String },
    /// Print the installed commands (paths shown when verbose) and
    /// exit successfully.
    List { verbose: bool },
    /// Configuration initialization failed before any handler ran.
    BadConfig { error: ConfigError },
    /// No subcommand was named: print the top-level help and exit
    /// successfully.
    Help { config: Configuration },
    /// Dispatch the subcommand as resolved, under this configuration.
    Run { config: Configuration, resolution: Resolution },
}

/// Mathematical image of a `Plan`.
pub ghost enum PlanView {
    Usage { error: ParseErrorView },
    Version { verbose: bool },
    Explain { code: Seq<char> },
    List { verbose: bool },
    BadConfig { error: ConfigErrorView },
    Help { config: ConfigurationView },
    Run { config: ConfigurationView, resolution: ResolutionView },
}

impl View for Plan {
    type V = PlanView;

    open spec fn view(&self) -> PlanView {
        match self {
            Plan::Usage { error } => PlanView::Usage { error: error@ },
            Plan::Version { verbose } => PlanView::Version { verbose: *verbose },
            Plan::Explain { code } => PlanView::Explain { code: code@ },
            Plan::List { verbose } => PlanView::List { verbose: *verbose },
            Plan::BadConfig { error } => PlanView::BadConfig { error: error@ },
            Plan::Help { config } => PlanView::Help { config: config@ },
            Plan::Run { config, resolution } => PlanView::Run {
                config: config@,
                resolution: resolution@,
            },
        }
    }
}

/// The meaning of one invocation against a registry, an alias table
/// and the search locations.
pub open spec fn spec_plan(
    tokens: Seq<Seq<char>>,
    reg: Seq<Seq<char>>,
    al: Seq<AliasDefView>,
    dirs: Seq<DirectoryView>,
) -> PlanView {
    match spec_parse(tokens) {
        Err(e) => PlanView::Usage { error: e },
        Ok(p) => if p.version {
            PlanView::Version { verbose: p.verbose >= 1 }
        } else if p.explain is Some {
            PlanView::Explain { code: p.explain->0 }
        } else if p.list {
            PlanView::List { verbose: p.verbose >= 1 }
        } else {
            match spec_init(p) {
                Err(e) => PlanView::BadConfig { error: e },
                Ok(c) => match p.sub {
                    None => PlanView::Help { config: c },
                    Some(sub) => PlanView::Run {
                        config: c,
                        resolution: spec_resolve(reg, al, dirs, sub.name, sub.args),
                    },
                },
            }
        },
    }
}

/// The introspection short-circuits are mutually exclusive and
/// checked in a fixed priority: a present version flag wins over
/// explain and list even when those are also present, and a present
/// explain code wins over list.  Each ends the invocation before the
/// configuration is built or any dispatch is attempted.
pub proof fn lemma_shortcircuit_priority(
    tokens: Seq<Seq<char>>,
    reg: Seq<Seq<char>>,
    al: Seq<AliasDefView>,
    dirs: Seq<DirectoryView>,
    p: crate::args::ParsedView,
)
    requires
        spec_parse(tokens) == Ok::<crate::args::ParsedView, ParseErrorView>(p),
    ensures
        p.version ==> spec_plan(tokens, reg, al, dirs) == (PlanView::Version {
            verbose: p.verbose >= 1,
        }),
        !p.version && p.explain is Some ==> spec_plan(tokens, reg, al, dirs) == (PlanView::Explain {
            code: p.explain->0,
        }),
        !p.version && p.explain is None && p.list ==> spec_plan(tokens, reg, al, dirs) == (
        PlanView::List { verbose: p.verbose >= 1 }),
{
}

/// Plan one invocation.  The answer is exactly what [`spec_plan`]
/// assigns to the inputs.
pub fn plan_invocation(
    tokens: &Vec<String>,
    reg: &CommandRegistry,
    al: &AliasTable,
    dirs: &Vec<Directory>,
) -> (r: Plan)
    ensures
        r@ == spec_plan(tokens.deep_view(), reg@, al@, dirs.deep_view()),
{
    let p: ParsedArgs = match parse(tokens) {
        Err(e) => {
            return Plan::Usage { error: e };
        },
        Ok(p) => p,
    };
    if p.version {
        return Plan::Version { verbose: p.verbose >= 1 };
    }
    if let Some(ref code) = p.explain {
        return Plan::Explain { code: code.clone() };
    }
    if p.list {
        return Plan::List { verbose: p.verbose >= 1 };
    }
    let config = match Configuration::init(&p) {
        Err(e) => {
            return Plan::BadConfig { error: e };
        },
        Ok(c) => c,
    };
    match p.sub {
        None => Plan::Help { config },
        Some(sub) => {
            let resolution = resolve(reg, al, dirs, &sub.name, &sub.args);
            Plan::Run { config, resolution }
        },
    }
}

} // verus!
