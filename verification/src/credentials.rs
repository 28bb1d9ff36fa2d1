//! Credential selection for git operations: which kind of credential a
//! repository URL calls for.

use vstd::prelude::*;

use crate::strutil::{contains_sub, spec_contains_sub, spec_starts_with, starts_with};

verus! {

/// The credential a git operation presents, in selection order.
#[derive(Debug, Clone, Copy, PartialEq, Eq, Structural)]
pub enum CredChoice {
    /// An `ssh://` URL: the SSH agent, under the URL's user name (or
    /// `git`).
    SshAgent,
    /// A URL naming github.com, with a token supplied: plain token
    /// credentials.
    TokenUserpass,
    /// Anything else: the host's credential helper, falling back to the
    /// default credential.
    HelperThenDefault,
}

/// Selection order: `ssh://` first, then the token for github.com, then
/// the credential helper.
pub open spec fn spec_choose_credential(url: Seq<char>, has_token: bool) -> CredChoice {
    if spec_starts_with(url, ("ssh://")@) {
        CredChoice::SshAgent
    } else if spec_contains_sub(url, ("github.com")@) && has_token {
        CredChoice::TokenUserpass
    } else {
        CredChoice::HelperThenDefault
    }
}

pub fn choose_credential(url: &str, has_token: bool) -> (r: CredChoice)
    ensures
        r == spec_choose_credential(url@, has_token),
{
    if starts_with(url, "ssh://") {
        CredChoice::SshAgent
    } else if contains_sub(url, "github.com") && has_token {
        CredChoice::TokenUserpass
    } else {
        CredChoice::HelperThenDefault
    }
}

} // verus!
