//! Finding the user who issued an invitation.

use crate::auth::{judge, verdict, Decoded, TokenError, TokenKind};
use crate::cache::{lookup, Snapshots};
use crate::error::Error;
use crate::model::{User, Uuid};
use crate::protocol::{Call, Reply, Step};
use crate::repo::{cache_after_read, read_user, Repo};
use std::sync::Arc;
use vstd::prelude::*;

verus! {

/// Where the search for an inviter stands.
#[derive(Debug, PartialEq, Eq)]
pub enum Inviter {
    /// The row of the inviter is being read.
    Reading { id: Uuid },
    /// The search has ended.
    Finished,
}

/// How the search begins, given what the invitation token decoded to. An
/// expired invitation, a token of another kind and an invalid token are
/// each refused in words of their own. A valid invitation names its
/// issuer, who is looked up in the cache first.
pub open spec fn inviter_start(
    cache: Snapshots,
    decoded: Decoded,
    state: Inviter,
    step: Step<Arc<User>>,
) -> bool {
    match verdict(decoded, TokenKind::Invitation) {
        Err(TokenError::Expired) => state == Inviter::Finished && step.refuses_input(
            "invitation expired"@,
        ),
        Err(TokenError::WrongKind) => state == Inviter::Finished && step.refuses_input(
            "not an invitation token"@,
        ),
        Err(TokenError::Invalid) => state == Inviter::Finished && step.refuses_input(
            "invitation invalid"@,
        ),
        Ok(claims) => match lookup(cache, claims.user) {
            Some(user) => state == Inviter::Finished && step == Step::Done(Ok(user)),
            None => state == (Inviter::Reading { id: claims.user }) && step == Step::<
                Arc<User>,
            >::Call(Call::ReadUser { id: claims.user }),
        },
    }
}

/// How the search goes on when `reply` arrives in state `before`.
pub open spec fn inviter_next(
    cache: Snapshots,
    before: Inviter,
    reply: Reply,
    state: Inviter,
    step: Step<Arc<User>>,
) -> bool {
    &&& state == Inviter::Finished
    &&& match before {
        Inviter::Reading { id } => match read_user(cache, id, reply) {
            Ok(Some(user)) => step == Step::Done(Ok(user)),
            Ok(None) => step.refuses_input(
                "invitation invalid: creator of invitation not found"@,
            ),
            Err(error) => step == Step::<Arc<User>>::Done(Err(error)),
        },
        Inviter::Finished => step == Step::<Arc<User>>::Done(Err(Error::OutOfOrder)),
    }
}

/// The cache after `reply` arrived in state `before`.
pub open spec fn inviter_cache(cache: Snapshots, before: Inviter, reply: Reply) -> Snapshots {
    match before {
        Inviter::Reading { id } => cache_after_read(cache, id, reply),
        Inviter::Finished => cache,
    }
}

impl Repo {
    /// Begins the search for the user who issued the invitation `token`.
    /// The token is decoded, which depends on the time, and the search
    /// begins as `inviter_start` says for what it decoded to. So whatever
    /// the token, the search either ends at once or reads one user.
    pub fn get_inviter(&self, token: &str) -> (r: (Inviter, Step<Arc<User>>))
        ensures
            exists|decoded: Decoded| #[trigger] inviter_start(self.cached(), decoded, r.0, r.1),
            r.0 is Reading ==> r.1 is Call,
            r.0 is Finished ==> r.1 is Done,
    {
        let decoded = self.auth().decode_jwt(token);
        self.inviter_of(&decoded)
    }

    /// Begins the search for an inviter, given what the invitation token
    /// decoded to.
    pub fn inviter_of(&self, decoded: &Decoded) -> (r: (Inviter, Step<Arc<User>>))
        ensures
            inviter_start(self.cached(), *decoded, r.0, r.1),
    {
        match judge(decoded, TokenKind::Invitation) {
            Err(TokenError::Expired) => (Inviter::Finished, Step::invalid("invitation expired")),
            Err(TokenError::WrongKind) => (
                Inviter::Finished,
                Step::invalid("not an invitation token"),
            ),
            Err(TokenError::Invalid) => (Inviter::Finished, Step::invalid("invitation invalid")),
            Ok(claims) => match self.find_user(claims.user) {
                Ok(user) => (Inviter::Finished, Step::Done(Ok(user))),
                Err(call) => (Inviter::Reading { id: claims.user }, Step::Call(call)),
            },
        }
    }
}

impl Inviter {
    /// Resumes the search with the reply to the call it made.
    pub fn resume(self, repo: &mut Repo, reply: Reply) -> (r: (Inviter, Step<Arc<User>>))
        ensures
            inviter_next(old(repo).cached(), self, reply, r.0, r.1),
            final(repo).cached() == inviter_cache(old(repo).cached(), self, reply),
            final(repo).same_settings(old(repo)),
    {
        match self {
            Inviter::Reading { id } => match repo.found_user(id, reply) {
                Ok(Some(user)) => (Inviter::Finished, Step::Done(Ok(user))),
                Ok(None) => (
                    Inviter::Finished,
                    Step::invalid("invitation invalid: creator of invitation not found"),
                ),
                Err(error) => (Inviter::Finished, Step::Done(Err(error))),
            },
            Inviter::Finished => (Inviter::Finished, Step::Done(Err(Error::OutOfOrder))),
        }
    }
}

} // verus!
