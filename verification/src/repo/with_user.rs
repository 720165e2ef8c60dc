//! The capability of a signed-in user.

use crate::auth::{token_text, Auth, TokenKind};
use crate::error::Error;
use crate::model::{SessionInfo, User, Uuid};
use crate::repo::admin::Admin;
use std::sync::Arc;
use vstd::pervasive::unreached;
use vstd::prelude::*;

verus! {

/// How long a session lasts, in seconds.
pub const SESSION_SECONDS: u64 = 2_592_000;

/// How long an invitation lasts, in seconds.
pub const INVITATION_SECONDS: u64 = 604_800;

/// The second at which an invitation issued at the second `now` expires.
pub open spec fn invitation_expiry(now: u64) -> u64 {
    if now + INVITATION_SECONDS > u64::MAX {
        u64::MAX
    } else {
        (now + INVITATION_SECONDS) as u64
    }
}

/// The second at which a session opened at the second `now` expires.
pub open spec fn session_expiry(now: u64) -> u64 {
    if now + SESSION_SECONDS > u64::MAX {
        u64::MAX
    } else {
        (now + SESSION_SECONDS) as u64
    }
}

/// True if `r` is what opening a session for `user` at the second `now`
/// yields under `secret`: the session with its token.
pub open spec fn session_opened(secret: Seq<char>, user: Uuid, now: u64, r: Result<
    SessionInfo,
    Error,
>) -> bool {
    r matches Ok(session) && session.user_id == user && session.token@ == token_text(
        secret,
        TokenKind::Session,
        user,
        session_expiry(now),
    )
}

/// Proof that the holder is the user whose snapshot it carries.
#[derive(Debug, PartialEq, Eq)]
pub struct WithUser {
    user: Arc<User>,
}

impl WithUser {
    /// The snapshot of the user.
    pub closed spec fn user(&self) -> Arc<User> {
        self.user
    }

    pub(crate) fn new(user: Arc<User>) -> (r: WithUser)
        ensures
            r.user() == user,
    {
        WithUser { user }
    }

    /// The identity of the user.
    pub fn id(&self) -> (id: Uuid)
        ensures
            id == self.user().id,
    {
        self.user.id
    }

    /// The snapshot of the user.
    pub fn snapshot(&self) -> (user: &Arc<User>)
        ensures
            *user == self.user(),
    {
        &self.user
    }

    /// The capability of an administrator, if the snapshot of the user
    /// carries the admin flag.
    pub fn admin(&self) -> (r: Result<Admin, Error>)
        ensures
            self.user().admin ==> (r matches Ok(admin) && admin.user() == self.user()),
            !self.user().admin ==> r == Err::<Admin, Error>(
                Error::Unauthenticated(Some("admin privileges required")),
            ),
    {
        Admin::new(self.user.clone())
    }

    /// Issues an invitation in the name of the user at the second `now`:
    /// an invitation token that expires `INVITATION_SECONDS` later.
    pub fn invite(&self, auth: &Auth, now: u64) -> (r: Result<String, Error>)
        ensures
            r matches Ok(token) && token@ == token_text(
                auth.secret(),
                TokenKind::Invitation,
                self.user().id,
                invitation_expiry(now),
            ),
    {
        let expires = now.saturating_add(INVITATION_SECONDS);
        match auth.issue(TokenKind::Invitation, self.user.id, expires) {
            Some(token) => Ok(token),
            None => unreached(),
        }
    }

    /// Opens a session for the user at the second `now`: issues a session
    /// token that expires `SESSION_SECONDS` later.
    pub fn create_session(&self, auth: &Auth, now: u64) -> (r: Result<SessionInfo, Error>)
        ensures
            session_opened(auth.secret(), self.user().id, now, r),
    {
        let expires = now.saturating_add(SESSION_SECONDS);
        match auth.issue(TokenKind::Session, self.user.id, expires) {
            Some(token) => Ok(SessionInfo { user_id: self.user.id, token }),
            None => unreached(),
        }
    }
}

} // verus!
