//! The repository lifecycle manager.
//!
//! Four operations address the repository root, the fixed location
//! `<data_dir>/repo`: init creates a fresh working tree there, clone
//! populates it from a remote, sync is a declared no-op extension point, and
//! destroy removes it entirely. Filesystem and network work is performed by
//! the caller; each operation here makes the decisions, drives the progress
//! tree, and maps every failure to its [`Error`] kind.

use vstd::prelude::*;
use vstd::pervasive::unreached;
use vstd::string::StringExecFns;

use crate::cli::Cli;
use crate::config::Config;
use crate::engine::{parse_repo_url, url_parses};
use crate::error::Error;
use crate::progress::{label_and_mode, DisplayMode, ProgressNode};
use crate::reaper::{ActionView, DirectoryReaper};

verus! {

/// The repository subcommand.
#[derive(Debug)]
pub struct Repo {
    /// The selected repository operation.
    pub command: RepoCommand,
}

/// The repository operations.
#[derive(Debug)]
pub enum RepoCommand {
    /// Initialise the repository.
    Init {},
    /// Synchronize the repo to the configured remotes.
    Sync {},
    /// Clone a repo from a remote.
    Clone {
        /// URL of the remote.
        url: String,
    },
    /// Delete the repo locally.
    Destroy {},
}

/// The repository root inside the data directory `d`: `<d>/repo`.
pub open spec fn spec_repo_root(d: Seq<char>) -> Seq<char> {
    d + "/repo"@
}

/// Builds the repository root path inside the data directory.
pub fn repo_root(data_dir: &String) -> (r: String)
    ensures
        r@ == spec_repo_root(data_dir@),
{
    data_dir.clone().concat("/repo")
}

/// What the init operation asks the caller to do: create the target
/// directory (with parents) if absent, then have the engine initialise a
/// working tree there — on a blocking-work pool, with the engine told to
/// insist on an empty destination.
#[derive(Debug)]
pub struct InitPlan {
    /// The repository root to initialise.
    pub target: String,
    /// The engine must refuse a non-empty destination.
    pub destination_must_be_empty: bool,
}

/// The outcome of carrying an [`InitPlan`] out, as the caller reports it.
#[derive(Debug)]
pub enum InitEvent {
    /// The working tree was initialised.
    Created,
    /// Creating the target directory failed; the payload is the error text.
    CreateDirFailed(String),
    /// The engine failed to initialise the repository.
    EngineFailed(String),
    /// The blocking-pool hand-off did not complete normally.
    JoinFailed(String),
}

/// Maps the outcome of an [`InitPlan`] to the operation's result.
pub fn init_outcome(ev: InitEvent) -> (r: Result<(), Error>)
    ensures
        ev is Created <==> r is Ok,
        ev matches InitEvent::CreateDirFailed(m) ==> r == Err::<(), Error>(Error::FilesystemIO(m)),
        ev matches InitEvent::EngineFailed(m) ==> r == Err::<(), Error>(
            Error::EngineInitializationFailed(m),
        ),
        ev matches InitEvent::JoinFailed(m) ==> r == Err::<(), Error>(
            Error::BackgroundTaskJoinFailed(m),
        ),
{
    match ev {
        InitEvent::Created => Ok(()),
        InitEvent::CreateDirFailed(m) => Err(Error::FilesystemIO(m)),
        InitEvent::EngineFailed(m) => Err(Error::EngineInitializationFailed(m)),
        InitEvent::JoinFailed(m) => Err(Error::BackgroundTaskJoinFailed(m)),
    }
}

/// Where the clone operation stands: which of its steps comes next.
#[derive(Debug, Clone, Copy, PartialEq, Eq, Structural)]
pub enum CloneStep {
    /// The data directory is to be created.
    CreateDir,
    /// The remote's object data is to be fetched.
    Fetch,
    /// The working tree is to be checked out from the fetched data.
    Checkout,
    /// Everything is done.
    Complete,
    /// A step failed; the operation is over.
    Failed,
}

/// What the clone operation asks the caller to do next.
#[derive(Debug)]
pub enum CloneAction {
    /// Create this directory, with parents, if absent.
    CreateDataDir(String),
    /// Have the engine fetch from [`CloneOperation::url`] into
    /// [`CloneOperation::dest`], insisting on an empty destination, and
    /// watching for cancellation.
    Fetch,
    /// Have the engine check the main working tree out, watching for
    /// cancellation.
    Checkout,
    /// Nothing: the operation is complete or has failed.
    Finished,
}

/// The outcome of the last clone step, as the caller reports it.
#[derive(Debug)]
pub enum CloneEvent {
    /// The data directory exists now.
    DirCreated,
    /// Creating the data directory failed; the payload is the error text.
    DirFailed(String),
    /// The fetch phase completed.
    Fetched,
    /// The engine failed while preparing the fetch.
    FetchSetupFailed(String),
    /// The engine failed during the fetch phase, or it was cancelled.
    FetchFailed(String),
    /// The checkout phase completed.
    CheckedOut,
    /// The engine failed during the checkout phase, or it was cancelled.
    CheckoutFailed(String),
}

/// A clone in progress: four steps — URL parse, directory creation, fetch,
/// checkout — under one progress node, the URL already parsed and the first
/// step ticked off.
#[derive(Debug)]
pub struct CloneOperation {
    /// The clone's progress node: four steps declared, a child each for the
    /// fetch and checkout phases.
    pub progress: ProgressNode,
    /// The parsed remote URL.
    pub url: gix::Url,
    /// The configured data directory.
    pub data_dir: String,
    /// The repository root the clone populates: `<data_dir>/repo`.
    pub dest: String,
    /// Which step comes next.
    pub step: CloneStep,
}

impl CloneOperation {
    /// Everything but the progress counter and the step stands still for
    /// the whole operation.
    pub open spec fn same_job(self, other: CloneOperation) -> bool {
        &&& self.url == other.url
        &&& self.data_dir == other.data_dir
        &&& self.dest == other.dest
    }

    /// The action the caller should perform next.
    pub fn next_action(&self) -> (a: CloneAction)
        ensures
            self.step == CloneStep::CreateDir ==> (a matches CloneAction::CreateDataDir(d) && d
                == self.data_dir),
            self.step == CloneStep::Fetch ==> a is Fetch,
            self.step == CloneStep::Checkout ==> a is Checkout,
            self.step == CloneStep::Complete || self.step == CloneStep::Failed ==> a is Finished,
    {
        match self.step {
            CloneStep::CreateDir => CloneAction::CreateDataDir(self.data_dir.clone()),
            CloneStep::Fetch => CloneAction::Fetch,
            CloneStep::Checkout => CloneAction::Checkout,
            CloneStep::Complete => CloneAction::Finished,
            CloneStep::Failed => CloneAction::Finished,
        }
    }

    /// Accounts for the outcome of the step [`Self::next_action`] asked
    /// for: one progress tick per completed step, and on any failure the
    /// step's own error kind, the operation over, the progress untouched.
    pub fn on_event(&mut self, ev: CloneEvent) -> (r: Result<(), Error>)
        requires
            old(self).step == CloneStep::CreateDir ==> (ev is DirCreated || ev is DirFailed),
            old(self).step == CloneStep::Fetch ==> (ev is Fetched || ev is FetchSetupFailed
                || ev is FetchFailed),
            old(self).step == CloneStep::Checkout ==> (ev is CheckedOut || ev is CheckoutFailed),
            old(self).step != CloneStep::Complete,
            old(self).step != CloneStep::Failed,
            old(self).progress.current < u64::MAX,
        ensures
            old(self).same_job(*final(self)),
            ev is DirCreated ==> ({
                &&& r is Ok
                &&& final(self).step == CloneStep::Fetch
                &&& final(self).progress == (ProgressNode {
                    current: (old(self).progress.current + 1) as u64,
                    ..old(self).progress
                })
            }),
            ev matches CloneEvent::DirFailed(m) ==> ({
                &&& r == Err::<(), Error>(Error::FilesystemIO(m))
                &&& final(self).step == CloneStep::Failed
                &&& final(self).progress == old(self).progress
            }),
            ev is Fetched ==> ({
                &&& r is Ok
                &&& final(self).step == CloneStep::Checkout
                &&& final(self).progress == (ProgressNode {
                    current: (old(self).progress.current + 1) as u64,
                    ..old(self).progress
                })
            }),
            ev matches CloneEvent::FetchSetupFailed(m) ==> ({
                &&& r == Err::<(), Error>(Error::EngineCloneSetupFailed(m))
                &&& final(self).step == CloneStep::Failed
                &&& final(self).progress == old(self).progress
            }),
            ev matches CloneEvent::FetchFailed(m) ==> ({
                &&& r == Err::<(), Error>(Error::EngineFetchFailed(m))
                &&& final(self).step == CloneStep::Failed
                &&& final(self).progress == old(self).progress
            }),
            ev is CheckedOut ==> ({
                &&& r is Ok
                &&& final(self).step == CloneStep::Complete
                &&& final(self).progress == (ProgressNode {
                    current: (old(self).progress.current + 1) as u64,
                    ..old(self).progress
                })
            }),
            ev matches CloneEvent::CheckoutFailed(m) ==> ({
                &&& r == Err::<(), Error>(Error::EngineCheckoutFailed(m))
                &&& final(self).step == CloneStep::Failed
                &&& final(self).progress == old(self).progress
            }),
    {
        match ev {
            CloneEvent::DirCreated => {
                self.progress.inc();
                self.step = CloneStep::Fetch;
                Ok(())
            },
            CloneEvent::DirFailed(m) => {
                self.step = CloneStep::Failed;
                Err(Error::FilesystemIO(m))
            },
            CloneEvent::Fetched => {
                self.progress.inc();
                self.step = CloneStep::Checkout;
                Ok(())
            },
            CloneEvent::FetchSetupFailed(m) => {
                self.step = CloneStep::Failed;
                Err(Error::EngineCloneSetupFailed(m))
            },
            CloneEvent::FetchFailed(m) => {
                self.step = CloneStep::Failed;
                Err(Error::EngineFetchFailed(m))
            },
            CloneEvent::CheckedOut => {
                self.progress.inc();
                self.step = CloneStep::Complete;
                Ok(())
            },
            CloneEvent::CheckoutFailed(m) => {
                self.step = CloneStep::Failed;
                Err(Error::EngineCheckoutFailed(m))
            },
        }
    }
}

/// A destroy in progress: the deletion walk over the repository root,
/// reporting through its own progress node.
#[derive(Debug)]
pub struct DestroyOperation {
    /// The node the walk reports through.
    pub progress: ProgressNode,
    /// The deletion walk over the repository root.
    pub reaper: DirectoryReaper,
}

impl DestroyOperation {
    /// Marks the operation's progress node done once the walk has removed
    /// everything.
    pub fn finish(&mut self)
        requires
            old(self).reaper.finished,
        ensures
            final(self).reaper == old(self).reaper,
            final(self).progress.completion matches Some(m) && m@ == "destroyed"@,
            final(self).progress.label == old(self).progress.label,
            final(self).progress.current == old(self).progress.current,
            final(self).progress.max_value == old(self).progress.max_value,
            final(self).progress.unit == old(self).progress.unit,
            final(self).progress.children == old(self).progress.children,
    {
        self.progress.done(String::from_str("destroyed"));
    }
}

impl Repo {
    /// Plans the init operation: succeeds exactly when a data directory is
    /// configured, and then names the repository root to initialise, with
    /// the engine told to insist on an empty destination.
    pub fn init_plan(&self, config: &Config) -> (r: Result<InitPlan, Error>)
        ensures
            config.data_dir is None ==> r == Err::<InitPlan, Error>(
                Error::NoDataDirectoryConfigured,
            ),
            config.data_dir matches Some(d) ==> r matches Ok(p) && p.target@ == spec_repo_root(d@)
                && p.destination_must_be_empty,
    {
        match &config.data_dir {
            None => Err(Error::NoDataDirectoryConfigured),
            Some(d) => Ok(InitPlan { target: repo_root(d), destination_must_be_empty: true }),
        }
    }

    /// Synchronizes the repository to the configured remotes. A declared
    /// no-op: the extension point exists, the behaviour does not yet.
    pub fn sync(&self) -> (r: Result<(), Error>)
        ensures
            r is Ok,
    {
        Ok(())
    }

    /// Starts the clone operation. Fails with
    /// [`Error::NoDataDirectoryConfigured`] when no data directory is
    /// configured, and with [`Error::UrlParseFailed`] when the URL does not
    /// parse — in both cases before any directory is created or any network
    /// contact attempted. Otherwise the returned operation has its URL
    /// parsed, its four-step progress node ticked once, and the directory
    /// creation as its next step.
    pub fn clone_start(&self, config: &Config) -> (r: Result<CloneOperation, Error>)
        requires
            self.command is Clone,
        ensures
            config.data_dir is None ==> r == Err::<CloneOperation, Error>(
                Error::NoDataDirectoryConfigured,
            ),
            config.data_dir is Some && !url_parses(self.command->Clone_url@) ==> r == Err::<
                CloneOperation,
                Error,
            >(Error::UrlParseFailed(self.command->Clone_url)),
            config.data_dir is Some && url_parses(self.command->Clone_url@) ==> ({
                let d = config.data_dir->0;
                let op = r->Ok_0;
                &&& r is Ok
                &&& op.step == CloneStep::CreateDir
                &&& op.data_dir == d
                &&& op.dest@ == spec_repo_root(d@)
                &&& op.progress.label@ == "clone"@
                &&& op.progress.current == 1
                &&& op.progress.max_value == Some(4u64)
                &&& op.progress.unit is Some
                &&& op.progress.unit->0.label@ == "steps"@
                &&& op.progress.unit->0.mode == DisplayMode::WithThroughput
                &&& op.progress.children@.len() == 2
                &&& op.progress.children@[0].label@ == "fetch"@
                &&& op.progress.children@[1].label@ == "checkout"@
                &&& op.progress.completion is None
            }),
    {
        let mode = DisplayMode::WithThroughput;
        let steps = label_and_mode(String::from_str("steps"), mode);
        let mut clone_progress = ProgressNode::new(String::from_str("clone"));
        clone_progress.init(Some(4), Some(steps));
        let _fetch_child = clone_progress.add_child(String::from_str("fetch"));
        proof {
            assert(clone_progress.children@[0].label@ == "fetch"@);
        }
        let _checkout_child = clone_progress.add_child(String::from_str("checkout"));
        proof {
            assert(clone_progress.children@[0].label@ == "fetch"@);
            assert(clone_progress.children@[1].label@ == "checkout"@);
        }
        let data_dir = match &config.data_dir {
            None => {
                return Err(Error::NoDataDirectoryConfigured);
            },
            Some(d) => d.clone(),
        };
        let url = match &self.command {
            RepoCommand::Clone { url } => url,
            _ => unreached(),
        };
        let gix_url = match parse_repo_url(url.as_str()) {
            Err(_) => {
                return Err(Error::UrlParseFailed(url.clone()));
            },
            Ok(u) => u,
        };
        clone_progress.inc();
        let dest = repo_root(&data_dir);
        Ok(
            CloneOperation {
                progress: clone_progress,
                url: gix_url,
                data_dir,
                dest,
                step: CloneStep::CreateDir,
            },
        )
    }

    /// Starts the destroy operation. Without the force confirmation it is
    /// refused outright — no walk exists, nothing is asked of the caller;
    /// without a data directory it fails just as init and clone do. The
    /// returned walk's first action is to enumerate the repository root,
    /// never to remove anything.
    pub fn destroy_start(&self, args: &Cli, config: &Config) -> (r: Result<DestroyOperation, Error>)
        ensures
            !args.force ==> ({
                &&& r is Err
                &&& r->Err_0 is DestructiveOperationRequiresConfirmation
                &&& r->Err_0->DestructiveOperationRequiresConfirmation_0@ == "repo destroy"@
            }),
            args.force && config.data_dir is None ==> r == Err::<DestroyOperation, Error>(
                Error::NoDataDirectoryConfigured,
            ),
            args.force && config.data_dir is Some ==> ({
                let d = config.data_dir->0;
                let op = r->Ok_0;
                &&& r is Ok
                &&& op.reaper.root@ == spec_repo_root(d@)
                &&& op.reaper.stack@.len() == 0
                &&& !op.reaper.finished
                &&& !op.reaper.failed
                &&& op.reaper.wf()
                &&& op.reaper.spec_next() == ActionView::ReadDir(spec_repo_root(d@))
                &&& op.progress.label@ == "destroying repo"@
                &&& op.progress.current == 0
                &&& op.progress.max_value == Some(0u64)
                &&& op.progress.unit is Some
                &&& op.progress.unit->0.label@ == "files"@
                &&& op.progress.unit->0.mode == DisplayMode::WithThroughputAndPercentage
                &&& op.progress.children@.len() == 0
                &&& op.progress.completion is None
            }),
    {
        let mode = DisplayMode::WithThroughputAndPercentage;
        let files = label_and_mode(String::from_str("files"), mode);
        let mut destroy_progress = ProgressNode::new(String::from_str("destroying repo"));
        destroy_progress.init(Some(0), Some(files));
        if !args.force {
            return Err(
                Error::DestructiveOperationRequiresConfirmation(String::from_str("repo destroy")),
            );
        }
        let data_dir = match &config.data_dir {
            None => {
                return Err(Error::NoDataDirectoryConfigured);
            },
            Some(d) => d.clone(),
        };
        let target = repo_root(&data_dir);
        Ok(DestroyOperation { progress: destroy_progress, reaper: DirectoryReaper::new(target) })
    }
}

} // verus!
