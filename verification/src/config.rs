//! The configuration initializer.
//!
//! The process-wide configuration snapshot is built exactly once per
//! top-level invocation, from the global flags of the first successful
//! parse, before any handler runs; alias expansion re-parses tokens but
//! never re-initializes it.  Initialization validates the color flag
//! and fails on any other value, before any command logic can run.

use vstd::prelude::*;

use crate::args::{ParsedArgs, ParsedView};
use crate::strutil::{clone_strings, str_eq};

verus! {

/// How output should be colored.
#[derive(PartialEq, Eq, Structural, Clone, Copy, Debug)]
pub enum ColorMode {
    Auto,
    Always,
    Never,
}

/// The process-wide configuration snapshot: written once, read-only
/// afterwards.
#[derive(Debug, PartialEq, Eq)]
pub struct Configuration {
    pub verbosity: u64,
    pub quiet: bool,
    pub color: ColorMode,
    pub frozen: bool,
    pub locked: bool,
    pub unstable: Vec<String>,
}

/// Mathematical image of a `Configuration`.
pub ghost struct ConfigurationView {
    pub verbosity: u64,
    pub quiet: bool,
    pub color: ColorMode,
    pub frozen: bool,
    pub locked: bool,
    pub unstable: Seq<Seq<char>>,
}

impl View for Configuration {
    type V = ConfigurationView;

    open spec fn view(&self) -> ConfigurationView {
        ConfigurationView {
            verbosity: self.verbosity,
            quiet: self.quiet,
            color: self.color,
            frozen: self.frozen,
            locked: self.locked,
            unstable: self.unstable.deep_view(),
        }
    }
}

/// Initialization failure: the color flag named an unknown mode.  The
/// carried string is the rejected value.
#[derive(Debug, PartialEq, Eq)]
pub enum ConfigError {
    InvalidColor(String),
}

/// Mathematical image of a `ConfigError`.
pub ghost enum ConfigErrorView {
    InvalidColor(Seq<char>),
}

impl View for ConfigError {
    type V = ConfigErrorView;

    open spec fn view(&self) -> ConfigErrorView {
        match self {
            ConfigError::InvalidColor(c) => ConfigErrorView::InvalidColor(c@),
        }
    }
}

/// The color values the initializer accepts.
pub open spec fn valid_color(c: Seq<char>) -> bool {
    c == "auto"@ || c == "always"@ || c == "never"@
}

/// The mode a (valid or absent) color value selects.
pub open spec fn spec_color_mode(c: Option<Seq<char>>) -> ColorMode {
    match c {
        None => ColorMode::Auto,
        Some(s) => if s == "always"@ {
            ColorMode::Always
        } else if s == "never"@ {
            ColorMode::Never
        } else {
            ColorMode::Auto
        },
    }
}

/// What initialization means: reject an invalid color value, otherwise
/// copy every global flag into the snapshot.
pub open spec fn spec_init(p: ParsedView) -> Result<ConfigurationView, ConfigErrorView> {
    match p.color {
        Some(c) => if valid_color(c) {
            Ok(config_of(p))
        } else {
            Err(ConfigErrorView::InvalidColor(c))
        },
        None => Ok(config_of(p)),
    }
}

/// The snapshot a successful initialization produces.
pub open spec fn config_of(p: ParsedView) -> ConfigurationView {
    ConfigurationView {
        verbosity: p.verbose,
        quiet: p.quiet,
        color: spec_color_mode(p.color),
        frozen: p.frozen,
        locked: p.locked,
        unstable: p.unstable,
    }
}

/// The image of an executable initialization result.
pub open spec fn init_result_view(r: Result<Configuration, ConfigError>) -> Result<
    ConfigurationView,
    ConfigErrorView,
> {
    match r {
        Ok(c) => Ok(c@),
        Err(e) => Err(e@),
    }
}

impl Configuration {
    /// Build the process-wide snapshot from the parsed global flags.
    pub fn init(p: &ParsedArgs) -> (r: Result<Configuration, ConfigError>)
        ensures
            init_result_view(r) == spec_init(p@),
    {
        let color = match p.color {
            Some(ref c) => {
                if str_eq(c.as_str(), "always") {
                    ColorMode::Always
                } else if str_eq(c.as_str(), "never") {
                    ColorMode::Never
                } else if str_eq(c.as_str(), "auto") {
                    ColorMode::Auto
                } else {
                    return Err(ConfigError::InvalidColor(c.clone()));
                }
            },
            None => ColorMode::Auto,
        };
        Ok(
            Configuration {
                verbosity: p.verbose,
                quiet: p.quiet,
                color,
                frozen: p.frozen,
                locked: p.locked,
                unstable: clone_strings(&p.unstable),
            },
        )
    }
}

} // verus!
