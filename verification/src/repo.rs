//! The repository: the one place that decides in which order the stores are
//! touched and who may ask for what.
//!
//! Access goes through a chain of capabilities. `OptionalUser` is what an
//! anonymous or signed-in reader holds, `WithUser` what a signed-in user
//! holds, `Admin` what an administrator holds. Each is obtained from the
//! repository together with a proof, and fails to be constructed where the
//! proof does not hold.

pub mod admin;
pub mod authenticate;
pub mod change;
pub mod grant;
pub mod import;
pub mod indices;
pub mod inviter;
pub mod links;
pub mod objects;
pub mod optional_user;
pub mod post;
pub mod prune;
pub mod sessions;
pub mod sign_up;
pub mod with_user;

use crate::auth::Auth;
use crate::cache::{inserted, invalidated, lookup, snapshot, Cache, Snapshots};
use crate::conf::RepoConfig;
use crate::error::Error;
use crate::model::{User, Uuid};
use crate::protocol::{refusal, Call, Reply};
use crate::repo::admin::Admin;
use crate::repo::optional_user::OptionalUser;
use crate::repo::sessions::Sessions;
use crate::repo::with_user::WithUser;
use std::sync::Arc;
use vstd::prelude::*;

verus! {

/// What the reply to `ReadUser { id }` yields: the snapshot of the row, or
/// `None` if there is no such user. A row of another user answers nothing.
pub open spec fn read_user(cache: Snapshots, id: Uuid, reply: Reply) -> Result<
    Option<Arc<User>>,
    Error,
> {
    match reply {
        Reply::User(Some(user)) => if user.id == id {
            Ok(Some(snapshot(cache, user)))
        } else {
            Err(Error::OutOfOrder)
        },
        Reply::User(None) => Ok(None),
        _ => Err(refusal(reply)),
    }
}

/// The cache after the reply to `ReadUser { id }`: a row that was found is
/// in it, and nothing else has changed.
pub open spec fn cache_after_read(cache: Snapshots, id: Uuid, reply: Reply) -> Snapshots {
    match reply {
        Reply::User(Some(user)) => if user.id == id {
            inserted(cache, user)
        } else {
            cache
        },
        _ => cache,
    }
}

/// The repository.
pub struct Repo {
    auth: Auth,
    cache: Cache,
    require_account: bool,
    require_invitation: bool,
}

impl Repo {
    /// A repository with the given settings and an empty cache.
    pub fn new(config: &RepoConfig) -> (repo: Repo)
        ensures
            repo.secret() == config.jwt_secret@,
            repo.requires_account() == config.require_account,
            repo.requires_invitation() == config.require_invitation,
            repo.cached() == Snapshots::empty(),
    {
        Repo {
            auth: Auth::new(config.jwt_secret.as_str()),
            cache: Cache::new(),
            require_account: config.require_account,
            require_invitation: config.require_invitation,
        }
    }

    /// The secret that tokens are signed with.
    pub closed spec fn secret(&self) -> Seq<char> {
        self.auth.secret()
    }

    /// Whether any access at all requires an account.
    pub closed spec fn requires_account(&self) -> bool {
        self.require_account
    }

    /// Whether sign-up requires an invitation.
    pub closed spec fn requires_invitation(&self) -> bool {
        self.require_invitation
    }

    /// The snapshots that the cache holds.
    pub closed spec fn cached(&self) -> Snapshots {
        self.cache@
    }

    /// True if `other` differs from `self` in the cache at most.
    pub open spec fn same_settings(&self, other: &Repo) -> bool {
        &&& self.secret() == other.secret()
        &&& self.requires_account() == other.requires_account()
        &&& self.requires_invitation() == other.requires_invitation()
    }

    /// The credential service of this repository.
    pub fn auth(&self) -> (auth: &Auth)
        ensures
            auth.secret() == self.secret(),
    {
        &self.auth
    }

    /// Whether sign-up requires an invitation.
    pub fn invitation_required(&self) -> (r: bool)
        ensures
            r == self.requires_invitation(),
    {
        self.require_invitation
    }

    /// The snapshot that the cache holds for `id`, if any.
    pub fn cached_user(&self, id: Uuid) -> (r: Option<Arc<User>>)
        ensures
            r == lookup(self.cached(), id),
            r matches Some(user) ==> user.id == id,
    {
        self.cache.get(id)
    }

    /// Puts a row that was read from the database into the cache and
    /// returns the snapshot that the cache now holds for it.
    pub fn remember(&mut self, user: User) -> (r: Arc<User>)
        ensures
            r == snapshot(old(self).cached(), user),
            r.id == user.id,
            final(self).cached() == inserted(old(self).cached(), user),
            final(self).same_settings(old(self)),
    {
        self.cache.insert(user)
    }

    /// Drops the snapshot of `id` after its row was changed.
    pub fn forget(&mut self, id: Uuid)
        ensures
            final(self).cached() == invalidated(old(self).cached(), id),
            final(self).same_settings(old(self)),
    {
        self.cache.invalidate(id)
    }

    /// Looks for the snapshot of `id` in the cache. On a miss, the call that
    /// reads the row is returned instead.
    pub fn find_user(&self, id: Uuid) -> (r: Result<Arc<User>, Call>)
        ensures
            r == match lookup(self.cached(), id) {
                Some(user) => Ok::<Arc<User>, Call>(user),
                None => Err(Call::ReadUser { id }),
            },
            r matches Ok(user) ==> user.id == id,
    {
        match self.cache.get(id) {
            Some(user) => Ok(user),
            None => Err(Call::ReadUser { id }),
        }
    }

    /// Takes the reply to `ReadUser { id }`. A row that was found is put
    /// into the cache, and the snapshot that the cache holds for it is
    /// returned.
    pub fn found_user(&mut self, id: Uuid, reply: Reply) -> (r: Result<Option<Arc<User>>, Error>)
        ensures
            final(self).same_settings(old(self)),
            r == read_user(old(self).cached(), id, reply),
            final(self).cached() == cache_after_read(old(self).cached(), id, reply),
            r matches Ok(Some(user)) ==> user.id == id,
    {
        match reply {
            Reply::User(Some(user)) => {
                if user.id == id {
                    Ok(Some(self.cache.insert(user)))
                } else {
                    Err(Error::OutOfOrder)
                }
            },
            Reply::User(None) => Ok(None),
            Reply::Failed(failure) => Err(Error::Internal(failure.message)),
            _ => Err(Error::OutOfOrder),
        }
    }

    /// The capability of a reader who may or may not be signed in. Where
    /// the repository requires an account, an anonymous reader is refused.
    pub fn optional_user(&self, user: Option<Arc<User>>) -> (r: Result<OptionalUser, Error>)
        ensures
            self.requires_account() && user is None ==> r == Err::<OptionalUser, Error>(
                Error::Unauthenticated(Some("login required")),
            ),
            !(self.requires_account() && user is None) ==> (r matches Ok(reader) && reader.user()
                == user),
    {
        if self.require_account && user.is_none() {
            Err(Error::Unauthenticated(Some("login required")))
        } else {
            Ok(OptionalUser::new(user))
        }
    }

    /// The capability of the signed-in user whose snapshot is `user`.
    pub fn with_user(&self, user: Arc<User>) -> (r: WithUser)
        ensures
            r.user() == user,
    {
        WithUser::new(user)
    }

    /// The capability of an administrator. A user whose snapshot does not
    /// carry the admin flag is refused.
    pub fn admin(&self, user: Arc<User>) -> (r: Result<Admin, Error>)
        ensures
            user.admin ==> (r matches Ok(admin) && admin.user() == user),
            !user.admin ==> r == Err::<Admin, Error>(
                Error::Unauthenticated(Some("admin privileges required")),
            ),
    {
        Admin::new(user)
    }

    /// The handle through which session tokens are checked.
    pub fn sessions(&self) -> (r: Sessions<'_>)
        ensures
            r.repo() == self,
    {
        Sessions::new(self)
    }
}

} // verus!
