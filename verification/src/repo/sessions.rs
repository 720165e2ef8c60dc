//! Session tokens.
//!
//! A session is a signed token and nothing is stored for it, with one
//! exception: a session that its user ends is put on a list of revoked
//! sessions, and a token on that list proves nothing any more.

use crate::auth::{judge, verdict, Decoded, TokenError, TokenKind};
use crate::cache::{lookup, Snapshots};
use crate::error::Error;
use crate::model::Uuid;
use crate::protocol::{refusal, refuse, Call, Reply, Step};
use crate::repo::with_user::WithUser;
use crate::repo::{cache_after_read, read_user, Repo};
use vstd::prelude::*;
use vstd::string::*;

verus! {

/// What a session token is worth: the identity of its user, or the reason
/// it is refused. An expired token and a token of another kind are each
/// told apart from an invalid one.
pub open spec fn session_of(decoded: Decoded) -> Result<Uuid, Error> {
    match verdict(decoded, TokenKind::Session) {
        Ok(claims) => Ok(claims.user),
        Err(TokenError::Expired) => Err(Error::Unauthenticated(Some("session expired"))),
        Err(TokenError::WrongKind) => Err(Error::Unauthenticated(Some("not a session token"))),
        Err(TokenError::Invalid) => Err(Error::Unauthenticated(Some("invalid session"))),
    }
}

/// Decides what a decoded session token is worth.
pub fn session_user(decoded: &Decoded) -> (r: Result<Uuid, Error>)
    ensures
        r == session_of(*decoded),
{
    match judge(decoded, TokenKind::Session) {
        Ok(claims) => Ok(claims.user),
        Err(TokenError::Expired) => Err(Error::Unauthenticated(Some("session expired"))),
        Err(TokenError::WrongKind) => Err(Error::Unauthenticated(Some("not a session token"))),
        Err(TokenError::Invalid) => Err(Error::Unauthenticated(Some("invalid session"))),
    }
}

/// The session token of a request, or the refusal of a request that
/// carries none.
pub fn required<'a>(token: Option<&'a str>) -> (r: Result<&'a str, Error>)
    ensures
        r == match token {
            Some(token) => Ok::<&'a str, Error>(token),
            None => Err(Error::Unauthenticated(Some("login required"))),
        },
{
    match token {
        Some(token) => Ok(token),
        None => Err(Error::Unauthenticated(Some("login required"))),
    }
}

/// Where the identification of a session's user stands.
#[derive(Debug, PartialEq, Eq)]
pub enum Identify {
    /// The list of revoked sessions is being looked at.
    Checking { user: Uuid },
    /// The row of the user is being read.
    Reading { user: Uuid },
    /// The identification has ended.
    Finished,
}

/// How the identification begins, given the session token and what it
/// decoded to. Without a valid, unexpired token of the session kind it
/// ends at once, and no capability comes of it. With one, the list of
/// revoked sessions is looked at.
pub open spec fn identify_start(
    token: Seq<char>,
    decoded: Decoded,
    state: Identify,
    step: Step<WithUser>,
) -> bool {
    match session_of(decoded) {
        Err(error) => state == Identify::Finished && step == Step::<WithUser>::Done(Err(error)),
        Ok(user) => {
            &&& state == (Identify::Checking { user })
            &&& step matches Step::Call(Call::ReadSessionRevoked { token: asked })
            &&& asked@ == token
        },
    }
}

/// How the identification goes on when `reply` arrives in state `before`.
/// A session that was revoked proves nothing, and neither does one whose
/// user is gone. The user is looked up in the cache first.
pub open spec fn identify_next(
    cache: Snapshots,
    before: Identify,
    reply: Reply,
    state: Identify,
    step: Step<WithUser>,
) -> bool {
    match before {
        Identify::Checking { user } => match reply {
            Reply::Revoked(false) => match lookup(cache, user) {
                Some(snapshot) => state == Identify::Finished && (step matches Step::Done(
                    Ok(holder),
                ) && holder.user() == snapshot),
                None => state == (Identify::Reading { user }) && step == Step::<WithUser>::Call(
                    Call::ReadUser { id: user },
                ),
            },
            Reply::Revoked(true) => state == Identify::Finished && step == Step::<WithUser>::Done(
                Err(Error::Unauthenticated(Some("session revoked"))),
            ),
            _ => state == Identify::Finished && step == Step::<WithUser>::Done(
                Err(refusal(reply)),
            ),
        },
        Identify::Reading { user } => state == Identify::Finished && match read_user(
            cache,
            user,
            reply,
        ) {
            Ok(Some(snapshot)) => step matches Step::Done(Ok(holder)) && holder.user() == snapshot,
            Ok(None) => step == Step::<WithUser>::Done(
                Err(Error::Unauthenticated(Some("user not found"))),
            ),
            Err(error) => step == Step::<WithUser>::Done(Err(error)),
        },
        Identify::Finished => state == Identify::Finished && step == Step::<WithUser>::Done(
            Err(Error::OutOfOrder),
        ),
    }
}

/// Where the ending of a session stands.
#[derive(Debug, PartialEq, Eq)]
pub enum Terminate {
    /// The session is being put on the list of revoked sessions.
    Revoking,
    /// The ending has ended.
    Finished,
}

/// How the ending of a session goes on when `reply` arrives in state
/// `before`.
pub open spec fn terminate_next(before: Terminate, reply: Reply) -> (Terminate, Step<()>) {
    match (before, reply) {
        (Terminate::Revoking, Reply::Done) => (Terminate::Finished, Step::Done(Ok(()))),
        (Terminate::Finished, _) => (Terminate::Finished, Step::Done(Err(Error::OutOfOrder))),
        _ => (Terminate::Finished, Step::Done(Err(refusal(reply)))),
    }
}

/// The handle through which session tokens are checked.
pub struct Sessions<'a> {
    repo: &'a Repo,
}

impl<'a> Sessions<'a> {
    /// The repository that the handle belongs to.
    pub closed spec fn repo(&self) -> &Repo {
        self.repo
    }

    pub(crate) fn new(repo: &'a Repo) -> (r: Sessions<'a>)
        ensures
            r.repo() == repo,
    {
        Sessions { repo }
    }

    /// The identity of the user that the session token `token` names. The
    /// token is decoded, which depends on the time, and the result is what
    /// `session_of` makes of what it decoded to. So whatever the token, a
    /// refusal is `Unauthenticated`. The list of revoked sessions is not
    /// looked at.
    pub fn user(&self, token: &str) -> (r: Result<Uuid, Error>)
        ensures
            exists|decoded: Decoded| r == #[trigger] session_of(decoded),
            r matches Err(error) ==> error is Unauthenticated,
    {
        let decoded = self.repo.auth().decode_jwt(token);
        session_user(&decoded)
    }

    /// Begins to identify the user of the session token `token`, so as to
    /// obtain the capability of that user. The token is decoded, which
    /// depends on the time, and the identification begins as
    /// `identify_start` says for what it decoded to. So whatever the token,
    /// the identification either makes a call or ends at once, and if it
    /// ends at once the refusal is `Unauthenticated`.
    pub fn with_user(&self, token: &str) -> (r: (Identify, Step<WithUser>))
        ensures
            exists|decoded: Decoded| #[trigger] identify_start(token@, decoded, r.0, r.1),
            r.0 is Checking ==> r.1 is Call,
            r.0 is Finished ==> (r.1 matches Step::Done(Err(error)) && error is Unauthenticated),
            !(r.0 is Reading),
    {
        let decoded = self.repo.auth().decode_jwt(token);
        self.identify(token, &decoded)
    }

    /// Begins to identify the user of a session, given the session token
    /// and what it decoded to.
    pub fn identify(&self, token: &str, decoded: &Decoded) -> (r: (Identify, Step<WithUser>))
        ensures
            identify_start(token@, *decoded, r.0, r.1),
    {
        match session_user(decoded) {
            Err(error) => (Identify::Finished, Step::Done(Err(error))),
            Ok(user) => (
                Identify::Checking { user },
                Step::Call(Call::ReadSessionRevoked { token: String::from_str(token) }),
            ),
        }
    }
}

impl Identify {
    /// Resumes the identification with the reply to the call it made.
    pub fn resume(self, repo: &mut Repo, reply: Reply) -> (r: (Identify, Step<WithUser>))
        ensures
            identify_next(old(repo).cached(), self, reply, r.0, r.1),
            final(repo).cached() == match self {
                Identify::Reading { user } => cache_after_read(old(repo).cached(), user, reply),
                _ => old(repo).cached(),
            },
            final(repo).same_settings(old(repo)),
    {
        match self {
            Identify::Checking { user } => match reply {
                Reply::Revoked(false) => match repo.find_user(user) {
                    Ok(snapshot) => (
                        Identify::Finished,
                        Step::Done(Ok(repo.with_user(snapshot))),
                    ),
                    Err(call) => (Identify::Reading { user }, Step::Call(call)),
                },
                Reply::Revoked(true) => (
                    Identify::Finished,
                    Step::Done(Err(Error::Unauthenticated(Some("session revoked")))),
                ),
                other => (Identify::Finished, refuse(other)),
            },
            Identify::Reading { user } => match repo.found_user(user, reply) {
                Ok(Some(snapshot)) => (
                    Identify::Finished,
                    Step::Done(Ok(repo.with_user(snapshot))),
                ),
                Ok(None) => (
                    Identify::Finished,
                    Step::Done(Err(Error::Unauthenticated(Some("user not found")))),
                ),
                Err(error) => (Identify::Finished, Step::Done(Err(error))),
            },
            Identify::Finished => (Identify::Finished, Step::Done(Err(Error::OutOfOrder))),
        }
    }
}

impl WithUser {
    /// Begins to end the session that the token `token` stands for: the
    /// session is put on the list of revoked sessions.
    pub fn delete_session(&self, token: String) -> (r: (Terminate, Step<()>))
        ensures
            r == (Terminate::Revoking, Step::<()>::Call(Call::RevokeSession { token })),
    {
        (Terminate::Revoking, Step::Call(Call::RevokeSession { token }))
    }
}

impl Terminate {
    /// Resumes the ending with the reply to the call it made.
    pub fn resume(self, reply: Reply) -> (r: (Terminate, Step<()>))
        ensures
            r == terminate_next(self, reply),
    {
        match (self, reply) {
            (Terminate::Revoking, Reply::Done) => (Terminate::Finished, Step::Done(Ok(()))),
            (Terminate::Finished, _) => (Terminate::Finished, Step::Done(Err(Error::OutOfOrder))),
            (_, other) => (Terminate::Finished, refuse(other)),
        }
    }
}

/// Capability gating. A token that is invalid, expired or of another kind
/// yields no capability of a signed-in user: the identification ends at
/// once, and it ends with `Unauthenticated`.
pub proof fn lemma_no_session_no_capability(
    token: Seq<char>,
    decoded: Decoded,
    state: Identify,
    step: Step<WithUser>,
)
    requires
        verdict(decoded, TokenKind::Session) is Err,
        identify_start(token, decoded, state, step),
    ensures
        state == Identify::Finished,
        step matches Step::Done(Err(error)) && error is Unauthenticated,
{
}

/// A session that was ended yields no capability: whatever the cache
/// holds, the identification ends with `Unauthenticated` when the list of
/// revoked sessions holds the token.
pub proof fn lemma_revoked_session_no_capability(
    cache: Snapshots,
    user: Uuid,
    state: Identify,
    step: Step<WithUser>,
)
    requires
        identify_next(cache, Identify::Checking { user }, Reply::Revoked(true), state, step),
    ensures
        state == Identify::Finished,
        step == Step::<WithUser>::Done(Err(Error::Unauthenticated(Some("session revoked")))),
{
}

} // verus!
