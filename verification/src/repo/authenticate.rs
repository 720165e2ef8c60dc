//! Sign-in with an email address and a password.
//!
//! An unknown email address and a wrong password are refused with the same
//! error, so that the refusal does not tell which of the two was wrong.

use crate::cache::{lookup, Snapshots};
use crate::error::Error;
use crate::model::{Login, SessionInfo, Uuid};
use crate::protocol::{refusal, refuse, Call, Reply, Step};
use crate::repo::with_user::session_opened;
use crate::repo::{cache_after_read, read_user, Repo};
use vstd::prelude::*;

verus! {

/// Where a sign-in stands.
#[derive(Debug, PartialEq, Eq)]
pub enum Authenticate {
    /// The stored password hash is being read.
    Password { password: String, now: u64 },
    /// The password is being compared to the stored hash.
    Verifying { user: Uuid, now: u64 },
    /// The row of the user is being read.
    Reading { user: Uuid, now: u64 },
    /// The sign-in has ended.
    Finished,
}

/// The one refusal of a sign-in, whichever credential was wrong.
pub open spec fn invalid_credentials() -> Error {
    Error::Unauthenticated(Some("invalid credentials"))
}

/// How a sign-in goes on when `reply` arrives in state `before`.
pub open spec fn authenticate_next(
    secret: Seq<char>,
    cache: Snapshots,
    before: Authenticate,
    reply: Reply,
    state: Authenticate,
    step: Step<SessionInfo>,
) -> bool {
    match before {
        Authenticate::Password { password, now } => match reply {
            Reply::Password(Some(row)) => state == (Authenticate::Verifying {
                user: row.user_id,
                now,
            }) && step == Step::<SessionInfo>::Call(
                Call::VerifyPassword { password, hash: row.password },
            ),
            Reply::Password(None) => state == Authenticate::Finished && step == Step::<
                SessionInfo,
            >::Done(Err(invalid_credentials())),
            _ => state == Authenticate::Finished && step == Step::<SessionInfo>::Done(
                Err(refusal(reply)),
            ),
        },
        Authenticate::Verifying { user, now } => match reply {
            Reply::Verified(true) => match lookup(cache, user) {
                Some(_) => state == Authenticate::Finished && (step matches Step::Done(r)
                    && session_opened(secret, user, now, r)),
                None => state == (Authenticate::Reading { user, now }) && step == Step::<
                    SessionInfo,
                >::Call(Call::ReadUser { id: user }),
            },
            Reply::Verified(false) => state == Authenticate::Finished && step == Step::<
                SessionInfo,
            >::Done(Err(invalid_credentials())),
            _ => state == Authenticate::Finished && step == Step::<SessionInfo>::Done(
                Err(refusal(reply)),
            ),
        },
        Authenticate::Reading { user, now } => state == Authenticate::Finished && match read_user(
            cache,
            user,
            reply,
        ) {
            Ok(Some(_)) => step matches Step::Done(r) && session_opened(secret, user, now, r),
            Ok(None) => step == Step::<SessionInfo>::Done(
                Err(Error::NotFound { entity: "user", id: user }),
            ),
            Err(error) => step == Step::<SessionInfo>::Done(Err(error)),
        },
        Authenticate::Finished => state == Authenticate::Finished && step == Step::<
            SessionInfo,
        >::Done(Err(Error::OutOfOrder)),
    }
}

/// The cache after `reply` arrived in state `before`.
pub open spec fn authenticate_cache(cache: Snapshots, before: Authenticate, reply: Reply)
    -> Snapshots {
    match before {
        Authenticate::Reading { user, now } => cache_after_read(cache, user, reply),
        _ => cache,
    }
}

impl Repo {
    /// Begins a sign-in at the second `now`: asks for the password hash
    /// that is stored for the email address.
    pub fn authenticate(&self, login: &Login, now: u64) -> (r: (Authenticate, Step<SessionInfo>))
        ensures
            r.0 == (Authenticate::Password { password: login.password, now }),
            r.1 == Step::<SessionInfo>::Call(Call::ReadUserPassword { email: login.email }),
    {
        (
            Authenticate::Password { password: login.password.clone(), now },
            Step::Call(Call::ReadUserPassword { email: login.email.clone() }),
        )
    }
}

impl Authenticate {
    /// Resumes the sign-in with the reply to the call it made.
    pub fn resume(self, repo: &mut Repo, reply: Reply) -> (r: (Authenticate, Step<SessionInfo>))
        ensures
            authenticate_next(old(repo).secret(), old(repo).cached(), self, reply, r.0, r.1),
            final(repo).cached() == authenticate_cache(old(repo).cached(), self, reply),
            final(repo).same_settings(old(repo)),
    {
        match self {
            Authenticate::Password { password, now } => match reply {
                Reply::Password(Some(row)) => (
                    Authenticate::Verifying { user: row.user_id, now },
                    Step::Call(Call::VerifyPassword { password, hash: row.password }),
                ),
                Reply::Password(None) => (
                    Authenticate::Finished,
                    Step::Done(Err(Error::Unauthenticated(Some("invalid credentials")))),
                ),
                other => (Authenticate::Finished, refuse(other)),
            },
            Authenticate::Verifying { user, now } => match reply {
                Reply::Verified(true) => match repo.find_user(user) {
                    Ok(snapshot) => {
                        let session = repo.with_user(snapshot).create_session(repo.auth(), now);
                        (Authenticate::Finished, Step::Done(session))
                    },
                    Err(call) => (Authenticate::Reading { user, now }, Step::Call(call)),
                },
                Reply::Verified(false) => (
                    Authenticate::Finished,
                    Step::Done(Err(Error::Unauthenticated(Some("invalid credentials")))),
                ),
                other => (Authenticate::Finished, refuse(other)),
            },
            Authenticate::Reading { user, now } => match repo.found_user(user, reply) {
                Ok(Some(snapshot)) => {
                    let session = repo.with_user(snapshot).create_session(repo.auth(), now);
                    (Authenticate::Finished, Step::Done(session))
                },
                Ok(None) => (
                    Authenticate::Finished,
                    Step::Done(Err(Error::NotFound { entity: "user", id: user })),
                ),
                Err(error) => (Authenticate::Finished, Step::Done(Err(error))),
            },
            Authenticate::Finished => (
                Authenticate::Finished,
                Step::Done(Err(Error::OutOfOrder)),
            ),
        }
    }
}

/// A sign-in that is refused for the password is refused in the same words
/// as one that is refused for the email address.
pub proof fn lemma_refusals_do_not_differ(
    secret: Seq<char>,
    cache: Snapshots,
    password: String,
    user: Uuid,
    now: u64,
    unknown: (Authenticate, Step<SessionInfo>),
    wrong: (Authenticate, Step<SessionInfo>),
)
    requires
        authenticate_next(
            secret,
            cache,
            Authenticate::Password { password, now },
            Reply::Password(None),
            unknown.0,
            unknown.1,
        ),
        authenticate_next(
            secret,
            cache,
            Authenticate::Verifying { user, now },
            Reply::Verified(false),
            wrong.0,
            wrong.1,
        ),
    ensures
        unknown == wrong,
        unknown.1 == Step::<SessionInfo>::Done(Err(invalid_credentials())),
{
}

} // verus!
