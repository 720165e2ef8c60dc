//! The capability of a reader.

use crate::error::Error;
use crate::model::{User, Uuid};
use crate::protocol::{refusal, Call, Reply};
use std::sync::Arc;
use vstd::prelude::*;

verus! {

/// Proof that the holder may read: either somebody is signed in, or the
/// repository is open to anonymous readers.
#[derive(Debug, PartialEq, Eq)]
pub struct OptionalUser {
    user: Option<Arc<User>>,
}

/// The identity of the user who is signed in, if any.
pub open spec fn reader_of(user: Option<Arc<User>>) -> Option<Uuid> {
    match user {
        Some(user) => Some(user.id),
        None => None,
    }
}

/// What the reply to `ReadPost` for the post `id` yields: the post, as
/// JSON text.
pub open spec fn post_read(id: Uuid, reply: Reply) -> Result<String, Error> {
    match reply {
        Reply::Value(Some(post)) => Ok(post),
        Reply::Value(None) => Err(Error::NotFound { entity: "post", id }),
        _ => Err(refusal(reply)),
    }
}

impl OptionalUser {
    /// The call that reads the post `id` as the holder may see it.
    /// `post_of` takes the reply.
    pub fn post(&self, id: Uuid) -> (call: Call)
        ensures
            call == (Call::ReadPost { id, reader: reader_of(self.user()) }),
    {
        let reader = match &self.user {
            Some(user) => Some(user.id),
            None => None,
        };
        Call::ReadPost { id, reader }
    }

    /// Takes the reply to `ReadPost` for the post `id`.
    pub fn post_of(&self, id: Uuid, reply: Reply) -> (r: Result<String, Error>)
        ensures
            r == post_read(id, reply),
    {
        match reply {
            Reply::Value(Some(post)) => Ok(post),
            Reply::Value(None) => Err(Error::NotFound { entity: "post", id }),
            Reply::Failed(failure) => Err(Error::Internal(failure.message)),
            _ => Err(Error::OutOfOrder),
        }
    }

    /// The snapshot of the user who is signed in, if any.
    pub closed spec fn user(&self) -> Option<Arc<User>> {
        self.user
    }

    pub(crate) fn new(user: Option<Arc<User>>) -> (r: OptionalUser)
        ensures
            r.user() == user,
    {
        OptionalUser { user }
    }

    /// The snapshot of the user who is signed in, if any.
    pub fn signed_in(&self) -> (r: Option<&Arc<User>>)
        ensures
            r == match self.user() {
                Some(user) => Some(&user),
                None => None,
            },
    {
        self.user.as_ref()
    }
}

} // verus!
