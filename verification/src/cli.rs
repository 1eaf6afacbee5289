//! Command-line parameters.

use vstd::prelude::*;

use crate::source::ChoiceOfInputSource;

verus! {

/// Parameters given on the command line.
pub struct Cli {
    /// Input source to poll.
    pub source: Option<ChoiceOfInputSource>,
    /// An alternative configuration file.
    pub config: Option<String>,
    /// Whether to write the configuration to disk.
    pub save: bool,
    /// Whether to disable timestamps in terminal output.
    pub disable_timestamps: bool,
    /// Whether to print some additional information.
    pub verbose: bool,
    /// Whether to print much more additional information.
    pub debug: bool,
    /// Whether to perform a dry run, echoing what would be done.
    pub dry_run: bool,
    /// Whether to display version information and exit.
    pub version: bool,
}

} // verus!
