//! The capability of an administrator.

use crate::error::Error;
use crate::model::{RemoveResult, User, Uuid};
use crate::protocol::{Call, Step};
use crate::repo::grant::GrantAdmin;
use crate::repo::indices::CreateIndices;
use crate::repo::prune::Prune;
use crate::repo::Repo;
use std::sync::Arc;
use vstd::prelude::*;

verus! {

/// Proof that the holder is a user whose snapshot carries the admin flag.
#[derive(Debug, PartialEq, Eq)]
pub struct Admin {
    user: Arc<User>,
}

impl Admin {
    #[verifier::type_invariant]
    spec fn flagged(self) -> bool {
        self.user.admin
    }

    /// The snapshot of the administrator.
    pub closed spec fn user(&self) -> Arc<User> {
        self.user
    }

    pub(crate) fn new(user: Arc<User>) -> (r: Result<Admin, Error>)
        ensures
            user.admin ==> (r matches Ok(admin) && admin.user() == user),
            !user.admin ==> r == Err::<Admin, Error>(
                Error::Unauthenticated(Some("admin privileges required")),
            ),
    {
        if user.admin {
            Ok(Admin { user })
        } else {
            Err(Error::Unauthenticated(Some("admin privileges required")))
        }
    }

    /// Begins to promote `user` to administrator.
    pub fn grant_admin(&self, repo: &Repo, user: Uuid) -> (r: (GrantAdmin, Step<()>))
        ensures
            r == (
                GrantAdmin::Updating { user },
                Step::<()>::Call(Call::UpdateAdmin { user, admin: true }),
            ),
    {
        repo.grant_admin(user)
    }

    /// Begins a prune.
    pub fn prune(&self, repo: &Repo) -> (r: (Prune, Step<RemoveResult>))
        ensures
            r == (Prune::Rows, Step::<RemoveResult>::Call(Call::PruneRows)),
    {
        repo.prune()
    }

    /// Begins to rebuild the search indices.
    pub fn create_indices(&self, repo: &Repo) -> (r: (CreateIndices, Step<()>))
        ensures
            r == (CreateIndices::Deleting, Step::<()>::Call(Call::DeleteIndices)),
    {
        repo.create_indices()
    }

    /// The snapshot of the administrator. It carries the admin flag.
    pub fn snapshot(&self) -> (user: &Arc<User>)
        ensures
            *user == self.user(),
            user.admin,
    {
        proof {
            use_type_invariant(self);
        }
        &self.user
    }
}

} // verus!
