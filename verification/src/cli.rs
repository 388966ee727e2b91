//! Command-line interface data: the parsed form of the program's arguments.
//!
//! Argument parsing itself is platform glue and happens outside the
//! library; these types carry its result as plain values.

use vstd::prelude::*;

verus! {

/// Parsed command line: an optional subcommand controlling the hint
/// overlay daemon (a missing subcommand means `Daemon`).
#[derive(Debug)]
pub struct Cli {
    /// Optional subcommand (defaults to Daemon if not specified)
    pub command: Option<Commands>,
}

/// The subcommands the program accepts.
#[derive(Clone, Copy, Debug, PartialEq, Eq, Structural)]
pub enum Commands {
    /// Start the daemon (default if no command specified)
    Daemon,
    /// Show the hint overlay (sends command to running daemon)
    Show,
    /// Hide the hint overlay (sends command to running daemon)
    Hide,
    /// Toggle the hint overlay (sends command to running daemon)
    Toggle,
}

} // verus!
