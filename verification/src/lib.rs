//! A verified command-line dispatcher.
//!
//! Given the argument vector of an invocation, the library parses the
//! global options, decides between the introspection short-circuits
//! (version, explain, list), initializes the process configuration, and
//! resolves the subcommand through three strategies in fixed priority
//! order: built-in handler, user-defined alias (expanded recursively,
//! with cycle detection), and external executable found on an ordered
//! search path.  Every step is specified and proved; the surrounding
//! process work (printing, spawning children) is left to the caller.

pub mod aliases;
pub mod args;
pub mod config;
pub mod dispatch;
pub mod output;
pub mod plan;
pub mod registry;
pub mod search;
pub mod strutil;
