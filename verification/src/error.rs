//! The error taxonomy of the repository lifecycle operations.

use vstd::prelude::*;

verus! {

/// Everything that can go wrong during a repository lifecycle operation.
///
/// Each variant carries the detail a caller may want to show; the stable
/// part of the message is the prefix returned by [`Error::message_prefix`].
#[derive(Debug, Clone)]
pub enum Error {
    /// The configuration provides no data directory.
    NoDataDirectoryConfigured,
    /// A filesystem read, write, create or remove failed; the payload is the
    /// underlying error text.
    FilesystemIO(String),
    /// The version-control engine failed to initialise a new repository.
    EngineInitializationFailed(String),
    /// The version-control engine failed while preparing a clone.
    EngineCloneSetupFailed(String),
    /// The version-control engine failed during the fetch phase of a clone.
    EngineFetchFailed(String),
    /// The version-control engine failed during the checkout phase of a clone.
    EngineCheckoutFailed(String),
    /// The given string does not parse as a repository URL; the payload is
    /// the offending URL.
    UrlParseFailed(String),
    /// A destructive operation was requested without the force confirmation;
    /// the payload names the refused operation.
    DestructiveOperationRequiresConfirmation(String),
    /// A task handed to the blocking-work pool did not complete normally.
    BackgroundTaskJoinFailed(String),
}

impl Error {
    /// Which kind of error this is, with the payload disregarded.
    pub open spec fn spec_kind(&self) -> int {
        match self {
            Error::NoDataDirectoryConfigured => 0,
            Error::FilesystemIO(_) => 1,
            Error::EngineInitializationFailed(_) => 2,
            Error::EngineCloneSetupFailed(_) => 3,
            Error::EngineFetchFailed(_) => 4,
            Error::EngineCheckoutFailed(_) => 5,
            Error::UrlParseFailed(_) => 6,
            Error::DestructiveOperationRequiresConfirmation(_) => 7,
            Error::BackgroundTaskJoinFailed(_) => 8,
        }
    }

    /// The stable message prefix of each error kind, as a sequence of
    /// characters. Every kind has its own prefix, so callers can tell the
    /// kinds apart without string-matching any underlying engine text.
    pub open spec fn spec_prefix(&self) -> Seq<char> {
        match self {
            Error::NoDataDirectoryConfigured => "no data directory configured"@,
            Error::FilesystemIO(_) => "input/output error"@,
            Error::EngineInitializationFailed(_) => "repository initialisation failed"@,
            Error::EngineCloneSetupFailed(_) => "clone setup failed"@,
            Error::EngineFetchFailed(_) => "fetch failed"@,
            Error::EngineCheckoutFailed(_) => "checkout failed"@,
            Error::UrlParseFailed(_) => "URL parsing failed"@,
            Error::DestructiveOperationRequiresConfirmation(_) => "destructive operation, confirmation required"@,
            Error::BackgroundTaskJoinFailed(_) => "background task failed to join"@,
        }
    }

    /// The stable, distinct message prefix of this error's kind.
    pub fn message_prefix(&self) -> (r: &'static str)
        ensures
            r@ == self.spec_prefix(),
    {
        match self {
            Error::NoDataDirectoryConfigured => "no data directory configured",
            Error::FilesystemIO(_) => "input/output error",
            Error::EngineInitializationFailed(_) => "repository initialisation failed",
            Error::EngineCloneSetupFailed(_) => "clone setup failed",
            Error::EngineFetchFailed(_) => "fetch failed",
            Error::EngineCheckoutFailed(_) => "checkout failed",
            Error::UrlParseFailed(_) => "URL parsing failed",
            Error::DestructiveOperationRequiresConfirmation(_) => "destructive operation, confirmation required",
            Error::BackgroundTaskJoinFailed(_) => "background task failed to join",
        }
    }
}

/// Errors of different kinds carry different message prefixes: a caller can
/// tell "missing configuration" from "remote transport failure" from
/// "confirmation required" by the prefix alone.
pub proof fn lemma_message_prefixes_distinct(a: &Error, b: &Error)
    requires
        a.spec_kind() != b.spec_kind(),
    ensures
        a.spec_prefix() != b.spec_prefix(),
{
    reveal_strlit("no data directory configured");
    reveal_strlit("input/output error");
    reveal_strlit("repository initialisation failed");
    reveal_strlit("clone setup failed");
    reveal_strlit("fetch failed");
    reveal_strlit("checkout failed");
    reveal_strlit("URL parsing failed");
    reveal_strlit("destructive operation, confirmation required");
    reveal_strlit("background task failed to join");
    assert("no data directory configured"@.len() == 28);
    assert("input/output error"@.len() == 18);
    assert("repository initialisation failed"@.len() == 32);
    assert("clone setup failed"@.len() == 18);
    assert("fetch failed"@.len() == 12);
    assert("checkout failed"@.len() == 15);
    assert("URL parsing failed"@.len() == 18);
    assert("destructive operation, confirmation required"@.len() == 44);
    assert("background task failed to join"@.len() == 30);
    assert("input/output error"@[0] == 'i');
    assert("clone setup failed"@[0] == 'c');
    assert("URL parsing failed"@[0] == 'U');
}

} // verus!
