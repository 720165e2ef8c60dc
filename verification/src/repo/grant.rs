//! Promoting a user to administrator.

use crate::cache::{invalidated, lookup, Snapshots};
use crate::error::Error;
use crate::model::Uuid;
use crate::protocol::{refusal, refuse, Call, Reply, Step};
use crate::repo::Repo;
use vstd::prelude::*;

verus! {

/// Where a promotion stands.
#[derive(Debug, PartialEq, Eq)]
pub enum GrantAdmin {
    /// The admin flag is being set.
    Updating { user: Uuid },
    /// The promotion has ended.
    Finished,
}

/// How a promotion goes on when `reply` arrives in state `before`.
pub open spec fn grant_admin_next(before: GrantAdmin, reply: Reply) -> (GrantAdmin, Step<()>) {
    match (before, reply) {
        (GrantAdmin::Updating { user }, Reply::Updated(true)) => (
            GrantAdmin::Finished,
            Step::Done(Ok(())),
        ),
        (GrantAdmin::Updating { user }, Reply::Updated(false)) => (
            GrantAdmin::Finished,
            Step::Done(Err(Error::NotFound { entity: "user", id: user })),
        ),
        (GrantAdmin::Finished, _) => (GrantAdmin::Finished, Step::Done(Err(Error::OutOfOrder))),
        _ => (GrantAdmin::Finished, Step::Done(Err(refusal(reply)))),
    }
}

/// The cache after `reply` arrived in state `before`: once the flag is
/// set, the snapshot of the user is dropped.
pub open spec fn grant_admin_cache(cache: Snapshots, before: GrantAdmin, reply: Reply)
    -> Snapshots {
    match (before, reply) {
        (GrantAdmin::Updating { user }, Reply::Updated(true)) => invalidated(cache, user),
        _ => cache,
    }
}

impl Repo {
    /// Begins to promote `user` to administrator.
    pub fn grant_admin(&self, user: Uuid) -> (r: (GrantAdmin, Step<()>))
        ensures
            r == (
                GrantAdmin::Updating { user },
                Step::<()>::Call(Call::UpdateAdmin { user, admin: true }),
            ),
    {
        (GrantAdmin::Updating { user }, Step::Call(Call::UpdateAdmin { user, admin: true }))
    }
}

impl GrantAdmin {
    /// Resumes the promotion with the reply to the call it made.
    pub fn resume(self, repo: &mut Repo, reply: Reply) -> (r: (GrantAdmin, Step<()>))
        ensures
            r == grant_admin_next(self, reply),
            final(repo).cached() == grant_admin_cache(old(repo).cached(), self, reply),
            final(repo).same_settings(old(repo)),
    {
        match (self, reply) {
            (GrantAdmin::Updating { user }, Reply::Updated(true)) => {
                repo.forget(user);
                (GrantAdmin::Finished, Step::Done(Ok(())))
            },
            (GrantAdmin::Updating { user }, Reply::Updated(false)) => (
                GrantAdmin::Finished,
                Step::Done(Err(Error::NotFound { entity: "user", id: user })),
            ),
            (GrantAdmin::Finished, _) => (GrantAdmin::Finished, Step::Done(Err(Error::OutOfOrder))),
            (_, other) => (GrantAdmin::Finished, refuse(other)),
        }
    }
}

/// A promotion that ends well leaves no snapshot of the user in the cache:
/// the next reader fetches the row with the flag set. One that does not end
/// well leaves the cache as it was.
pub proof fn lemma_grant_refreshes(cache: Snapshots, user: Uuid, reply: Reply)
    ensures
        ({
            let before = GrantAdmin::Updating { user };
            let after = grant_admin_cache(cache, before, reply);
            if grant_admin_next(before, reply).1 == Step::<()>::Done(Ok(())) {
                lookup(after, user) is None
            } else {
                after == cache
            }
        }),
{
}

} // verus!
