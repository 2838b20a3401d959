//! The command-line surface: which operation was selected, with which
//! global flags. Parsing the actual command line is the surrounding
//! program's concern; this is the parsed shape the operations consume.

use vstd::prelude::*;

use crate::commands::{Start, Status, Stop, Summary};
use crate::repo::Repo;

verus! {

/// The parsed command line.
#[derive(Debug)]
pub struct Cli {
    /// Basefolder to use for data.
    pub data_dir: Option<String>,
    /// Basefolder to use for config.
    pub config_dir: Option<String>,
    /// Confirmation flag required by destructive operations.
    pub force: bool,
    /// The selected subcommand, if any.
    pub command: Option<Commands>,
}

/// The available subcommands.
#[derive(Debug)]
pub enum Commands {
    /// Manage the backing repository.
    Repo(Repo),
    /// Start a timer.
    Start(Start),
    /// Stop a currently running timer.
    Stop(Stop),
    /// Show the status of a currently running timer.
    Status(Status),
    /// Print the summary of a given time frame.
    Summary(Summary),
}

impl Default for Cli {
    /// No directories, no force confirmation, no subcommand.
    fn default() -> (r: Cli)
        ensures
            r.data_dir is None,
            r.config_dir is None,
            !r.force,
            r.command is None,
    {
        Cli { data_dir: None, config_dir: None, force: false, command: None }
    }
}

} // verus!
