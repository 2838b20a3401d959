//! The boundary to the version-control engine.
//!
//! The engine's own work — initialising repositories, fetching, checking
//! out — is filesystem and network work the caller performs; the one engine
//! call the lifecycle logic makes itself is parsing a remote URL, which is a
//! pure function of the string.

use vstd::prelude::*;

verus! {

#[verifier::external_type_specification]
#[verifier::external_body]
pub struct ExUrl(gix::Url);

/// Whether the version-control engine accepts a string as a repository URL.
/// What the engine accepts — standard URLs, SCP-like SSH locations,
/// remote-helper locations and local paths — is its own definition; all
/// that is relied on here is that it depends on the characters alone.
pub uninterp spec fn url_parses(s: Seq<char>) -> bool;

/// Relies on `gix::Url::try_from(&str)` (`gix_url::parse`): parses a remote
/// location, succeeding or failing as a function of the input string alone.
/// A failure comes back as the engine error's text.
#[verifier::external_body]
pub fn parse_repo_url(s: &str) -> (r: Result<gix::Url, String>)
    ensures
        r is Ok <==> url_parses(s@),
{
    gix::Url::try_from(s).map_err(|e| e.to_string())
}

} // verus!
