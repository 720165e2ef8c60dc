//! The part of the configuration that the core reads.

use vstd::prelude::*;

verus! {

/// The settings of a repository.
#[derive(Clone, Debug, PartialEq, Eq)]
pub struct RepoConfig {
    /// The secret that tokens are signed with.
    pub jwt_secret: String,
    /// Whether any access at all requires an account.
    pub require_account: bool,
    /// Whether sign-up requires an invitation.
    pub require_invitation: bool,
}

} // verus!
