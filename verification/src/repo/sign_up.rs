//! Sign-up.
//!
//! The password is hashed before the transaction opens. The user row is
//! created inside the transaction, and a collision on the email address is
//! reported as `AlreadyExists`. Only after the commit is the user put into
//! the cache and the name registered with the search index. A failure of
//! the index does not fail the sign-up. A session is opened last.

use crate::auth::{judge, verdict, Decoded, TokenError, TokenKind};
use crate::cache::{inserted, lookup, snapshot, Snapshots};
use crate::error::{Error, Failure};
use crate::model::{SessionInfo, SignUp, User, Uuid};
use crate::protocol::{refusal, refuse, Call, Reply, Step};
use crate::repo::with_user::session_opened;
use crate::repo::{cache_after_read, read_user, Repo};
use std::sync::Arc;
use vstd::prelude::*;
use vstd::string::*;

verus! {

/// Where a sign-up stands.
#[derive(Debug, PartialEq, Eq)]
pub enum SignUpState {
    /// The row of the user who issued the invitation is being read.
    Inviting { inviter: Uuid, info: SignUp, now: u64 },
    /// The password is being hashed.
    Hashing { name: String, email: String, now: u64 },
    /// The transaction is being opened.
    Opening { name: String, email: String, password: String, now: u64 },
    /// The user row is being created.
    Creating { email: String, now: u64 },
    /// The transaction is being committed.
    Committing { user: User, now: u64 },
    /// The name of the user is being registered with the search index.
    Indexing { user: Arc<User>, now: u64 },
    /// The sign-up has ended.
    Finished,
}

/// The database constraint that keeps email addresses unique.
pub open spec fn email_constraint() -> Seq<char> {
    "user_account_email_key"@
}

/// True if `failure` is the refusal of a second user with the same email
/// address.
pub open spec fn email_taken(failure: Failure) -> bool {
    failure.constraint matches Some(name) && name@ == email_constraint()
}

/// The words that identify an email address in `AlreadyExists`.
pub open spec fn email_identifier(email: Seq<char>) -> Seq<char> {
    "email address '"@ + email + "'"@
}

/// The first state and call of a sign-up that needs no invitation, or whose
/// invitation was accepted.
pub open spec fn sign_up_proceeds(info: SignUp, now: u64, state: SignUpState, step: Step<
    SessionInfo,
>) -> bool {
    &&& state == (SignUpState::Hashing { name: info.username, email: info.email, now })
    &&& step == Step::<SessionInfo>::Call(Call::HashPassword { password: info.password })
}

/// How a sign-up begins. `invitation` is what the invitation token decoded
/// to, or `None` if no token was supplied.
pub open spec fn sign_up_start(
    cache: Snapshots,
    require_invitation: bool,
    invitation: Option<Decoded>,
    info: SignUp,
    now: u64,
    state: SignUpState,
    step: Step<SessionInfo>,
) -> bool {
    if !require_invitation {
        sign_up_proceeds(info, now, state, step)
    } else {
        match invitation {
            None => state == SignUpState::Finished && step.refuses_input("invitation required"@),
            Some(decoded) => match verdict(decoded, TokenKind::Invitation) {
                Err(TokenError::Expired) => state == SignUpState::Finished && step.refuses_input(
                    "invitation expired"@,
                ),
                Err(TokenError::WrongKind) => state == SignUpState::Finished
                    && step.refuses_input("not an invitation token"@),
                Err(TokenError::Invalid) => state == SignUpState::Finished && step.refuses_input(
                    "invitation invalid"@,
                ),
                Ok(claims) => match lookup(cache, claims.user) {
                    Some(_) => sign_up_proceeds(info, now, state, step),
                    None => state == (SignUpState::Inviting { inviter: claims.user, info, now })
                        && step == Step::<SessionInfo>::Call(
                        Call::ReadUser { id: claims.user },
                    ),
                },
            },
        }
    }
}

/// How a sign-up goes on when `reply` arrives in state `before`. The
/// snapshot that the cache hands out for the new user is filed under the
/// identity of that user, so the session that is opened last is a session
/// of the user that was created.
pub open spec fn sign_up_next(
    secret: Seq<char>,
    cache: Snapshots,
    before: SignUpState,
    reply: Reply,
    state: SignUpState,
    step: Step<SessionInfo>,
) -> bool {
    match before {
        SignUpState::Inviting { inviter, info, now } => match read_user(cache, inviter, reply) {
            Ok(Some(_)) => sign_up_proceeds(info, now, state, step),
            Ok(None) => state == SignUpState::Finished && step.refuses_input(
                "invitation invalid: creator of invitation not found"@,
            ),
            Err(error) => state == SignUpState::Finished && step == Step::<SessionInfo>::Done(
                Err(error),
            ),
        },
        SignUpState::Hashing { name, email, now } => match reply {
            Reply::Hash(password) => state == (SignUpState::Opening { name, email, password, now })
                && step == Step::<SessionInfo>::Call(Call::Begin),
            _ => state == SignUpState::Finished && step == Step::<SessionInfo>::Done(
                Err(refusal(reply)),
            ),
        },
        SignUpState::Opening { name, email, password, now } => match reply {
            Reply::Done => state == (SignUpState::Creating { email, now }) && step == Step::<
                SessionInfo,
            >::Call(Call::CreateUser { name, email, password }),
            _ => state == SignUpState::Finished && step == Step::<SessionInfo>::Done(
                Err(refusal(reply)),
            ),
        },
        SignUpState::Creating { email, now } => match reply {
            Reply::Created(user) => state == (SignUpState::Committing { user, now }) && step
                == Step::<SessionInfo>::Call(Call::Commit),
            Reply::Failed(failure) => state == SignUpState::Finished && if email_taken(failure) {
                step matches Step::Done(Err(error)) && error.is_already_exists(
                    "user",
                    email_identifier(email@),
                )
            } else {
                step == Step::<SessionInfo>::Done(Err(Error::Internal(failure.message)))
            },
            _ => state == SignUpState::Finished && step == Step::<SessionInfo>::Done(
                Err(Error::OutOfOrder),
            ),
        },
        SignUpState::Committing { user, now } => match reply {
            Reply::Done => {
                &&& state == (SignUpState::Indexing { user: snapshot(cache, user), now })
                &&& snapshot(cache, user).id == user.id
                &&& step == Step::<SessionInfo>::Call(
                    Call::AddUserAlias { user: user.id, name: snapshot(cache, user).name },
                )
            },
            _ => state == SignUpState::Finished && step == Step::<SessionInfo>::Done(
                Err(refusal(reply)),
            ),
        },
        SignUpState::Indexing { user, now } => state == SignUpState::Finished && match reply {
            Reply::Done | Reply::Failed(_) => step matches Step::Done(r) && session_opened(
                secret,
                user.id,
                now,
                r,
            ),
            _ => step == Step::<SessionInfo>::Done(Err(Error::OutOfOrder)),
        },
        SignUpState::Finished => state == SignUpState::Finished && step == Step::<
            SessionInfo,
        >::Done(Err(Error::OutOfOrder)),
    }
}

/// The cache after `reply` arrived in state `before`. The new user enters
/// the cache when the commit is acknowledged, and not before.
pub open spec fn sign_up_cache(cache: Snapshots, before: SignUpState, reply: Reply) -> Snapshots {
    match before {
        SignUpState::Inviting { inviter, info, now } => cache_after_read(cache, inviter, reply),
        SignUpState::Committing { user, now } => match reply {
            Reply::Done => inserted(cache, user),
            _ => cache,
        },
        _ => cache,
    }
}

/// Commit comes first. The new user enters the cache only when the commit
/// is acknowledged, and only then is the search index told. A failure
/// before that ends the sign-up with the cache holding no snapshot that it
/// did not hold before, except that of the inviter.
pub proof fn lemma_commit_comes_first(
    secret: Seq<char>,
    cache: Snapshots,
    before: SignUpState,
    reply: Reply,
    state: SignUpState,
    step: Step<SessionInfo>,
)
    requires
        sign_up_next(secret, cache, before, reply, state, step),
    ensures
        step matches Step::Call(Call::AddUserAlias { .. }) ==> before is Committing && reply
            is Done,
        sign_up_cache(cache, before, reply) != cache ==> (before is Committing && reply is Done)
            || before is Inviting,
        before is Creating ==> sign_up_cache(cache, before, reply) == cache,
        reply is Failed && !(before is Indexing) ==> state == SignUpState::Finished && step
            is Done && step->Done_0 is Err,
{
}

/// The error for an email address that is already in use.
fn email_exists(email: &String) -> (error: Error)
    ensures
        error.is_already_exists("user", email_identifier(email@)),
{
    let identifier = String::from_str("email address '").concat(email.as_str()).concat("'");
    Error::AlreadyExists { entity: "user", identifier }
}

/// Tells whether `failure` is the refusal of a second user with the same
/// email address.
fn is_email_taken(failure: &Failure) -> (r: bool)
    ensures
        r == email_taken(*failure),
{
    match &failure.constraint {
        Some(name) => *name == String::from_str("user_account_email_key"),
        None => false,
    }
}

fn proceed(info: SignUp, now: u64) -> (r: (SignUpState, Step<SessionInfo>))
    ensures
        sign_up_proceeds(info, now, r.0, r.1),
{
    (
        SignUpState::Hashing { name: info.username, email: info.email, now },
        Step::Call(Call::HashPassword { password: info.password }),
    )
}

impl Repo {
    /// Begins a sign-up at the second `now`. Where the repository requires
    /// an invitation, `invitation` is the token that was supplied. The
    /// token is decoded, which depends on the time, and the sign-up begins
    /// as `sign_up_start` says for what it decoded to.
    pub fn sign_up(&self, info: SignUp, invitation: Option<&str>, now: u64) -> (r: (
        SignUpState,
        Step<SessionInfo>,
    ))
        ensures
            !self.requires_invitation() ==> sign_up_proceeds(info, now, r.0, r.1),
            self.requires_invitation() && invitation is None ==> r.0 == SignUpState::Finished
                && r.1.refuses_input("invitation required"@),
            self.requires_invitation() && invitation is Some ==> exists|decoded: Decoded|
                #[trigger] sign_up_start(self.cached(), true, Some(decoded), info, now, r.0, r.1),
    {
        let decoded = match invitation {
            Some(token) => if self.invitation_required() {
                Some(self.auth().decode_jwt(token))
            } else {
                None
            },
            None => None,
        };
        self.sign_up_with(info, decoded, now)
    }

    /// Begins a sign-up at the second `now`, given what the invitation
    /// token decoded to, or `None` if no token was supplied.
    pub fn sign_up_with(&self, info: SignUp, invitation: Option<Decoded>, now: u64) -> (r: (
        SignUpState,
        Step<SessionInfo>,
    ))
        ensures
            sign_up_start(
                self.cached(),
                self.requires_invitation(),
                invitation,
                info,
                now,
                r.0,
                r.1,
            ),
    {
        if !self.invitation_required() {
            return proceed(info, now);
        }
        match invitation {
            None => (SignUpState::Finished, Step::invalid("invitation required")),
            Some(decoded) => match judge(&decoded, TokenKind::Invitation) {
                Err(TokenError::Expired) => (
                    SignUpState::Finished,
                    Step::invalid("invitation expired"),
                ),
                Err(TokenError::WrongKind) => (
                    SignUpState::Finished,
                    Step::invalid("not an invitation token"),
                ),
                Err(TokenError::Invalid) => (
                    SignUpState::Finished,
                    Step::invalid("invitation invalid"),
                ),
                Ok(claims) => match self.find_user(claims.user) {
                    Ok(_) => proceed(info, now),
                    Err(call) => (
                        SignUpState::Inviting { inviter: claims.user, info, now },
                        Step::Call(call),
                    ),
                },
            },
        }
    }
}

impl SignUpState {
    /// Resumes the sign-up with the reply to the call it made.
    pub fn resume(self, repo: &mut Repo, reply: Reply) -> (r: (SignUpState, Step<SessionInfo>))
        ensures
            sign_up_next(old(repo).secret(), old(repo).cached(), self, reply, r.0, r.1),
            final(repo).cached() == sign_up_cache(old(repo).cached(), self, reply),
            final(repo).same_settings(old(repo)),
    {
        match self {
            SignUpState::Inviting { inviter, info, now } => match repo.found_user(inviter, reply) {
                Ok(Some(_)) => proceed(info, now),
                Ok(None) => (
                    SignUpState::Finished,
                    Step::invalid("invitation invalid: creator of invitation not found"),
                ),
                Err(error) => (SignUpState::Finished, Step::Done(Err(error))),
            },
            SignUpState::Hashing { name, email, now } => match reply {
                Reply::Hash(password) => (
                    SignUpState::Opening { name, email, password, now },
                    Step::Call(Call::Begin),
                ),
                other => (SignUpState::Finished, refuse(other)),
            },
            SignUpState::Opening { name, email, password, now } => match reply {
                Reply::Done => {
                    let kept = email.clone();
                    (
                        SignUpState::Creating { email: kept, now },
                        Step::Call(Call::CreateUser { name, email, password }),
                    )
                },
                other => (SignUpState::Finished, refuse(other)),
            },
            SignUpState::Creating { email, now } => match reply {
                Reply::Created(user) => (
                    SignUpState::Committing { user, now },
                    Step::Call(Call::Commit),
                ),
                Reply::Failed(failure) => {
                    if is_email_taken(&failure) {
                        (SignUpState::Finished, Step::Done(Err(email_exists(&email))))
                    } else {
                        (SignUpState::Finished, Step::Done(Err(Error::Internal(failure.message))))
                    }
                },
                _ => (SignUpState::Finished, Step::Done(Err(Error::OutOfOrder))),
            },
            SignUpState::Committing { user, now } => match reply {
                Reply::Done => {
                    let id = user.id;
                    let user = repo.remember(user);
                    let name = user.name.clone();
                    (
                        SignUpState::Indexing { user, now },
                        Step::Call(Call::AddUserAlias { user: id, name }),
                    )
                },
                other => (SignUpState::Finished, refuse(other)),
            },
            SignUpState::Indexing { user, now } => match reply {
                Reply::Done | Reply::Failed(_) => {
                    let session = repo.with_user(user).create_session(repo.auth(), now);
                    (SignUpState::Finished, Step::Done(session))
                },
                _ => (SignUpState::Finished, Step::Done(Err(Error::OutOfOrder))),
            },
            SignUpState::Finished => (SignUpState::Finished, Step::Done(Err(Error::OutOfOrder))),
        }
    }
}

} // verus!
