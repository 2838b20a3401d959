//! The timer subcommands reachable from the command line.
//!
//! The timer domain itself carries no behaviour yet: each of these commands
//! runs successfully and does nothing, serving as the dispatch surface the
//! surrounding program wires up.

use vstd::prelude::*;

use crate::cli::Cli;
use crate::config::Config;
use crate::error::Error;
use crate::progress::ProgressNode;

verus! {

/// Common interface to run subcommands from the CLI.
pub trait Command {
    /// Runs the operation associated with the command.
    fn run(&self, progress: &mut ProgressNode, args: &Cli, config: &Config) -> (r: Result<
        (),
        Error,
    >)
        ensures
            r is Ok,
    ;
}

/// Start a timer.
#[derive(Debug, PartialEq, Eq, Structural)]
pub struct Start {}

/// Show the status of a currently running timer.
#[derive(Debug, PartialEq, Eq, Structural)]
pub struct Status {}

/// Stop a currently running timer.
#[derive(Debug, PartialEq, Eq, Structural)]
pub struct Stop {}

/// Print the summary of a given time frame.
#[derive(Debug, PartialEq, Eq, Structural)]
pub struct Summary {}

impl Command for Start {
    fn run(&self, _progress: &mut ProgressNode, _args: &Cli, _config: &Config) -> (r: Result<
        (),
        Error,
    >) {
        Ok(())
    }
}

impl Command for Status {
    fn run(&self, _progress: &mut ProgressNode, _args: &Cli, _config: &Config) -> (r: Result<
        (),
        Error,
    >) {
        Ok(())
    }
}

impl Command for Stop {
    fn run(&self, _progress: &mut ProgressNode, _args: &Cli, _config: &Config) -> (r: Result<
        (),
        Error,
    >) {
        Ok(())
    }
}

impl Command for Summary {
    fn run(&self, _progress: &mut ProgressNode, _args: &Cli, _config: &Config) -> (r: Result<
        (),
        Error,
    >) {
        Ok(())
    }
}

} // verus!
