//! The plain data that the core reads and hands on.

use vstd::prelude::*;

verus! {

/// The identity of a post, tag, user or object.
pub type Uuid = u128;

/// A user as the cache holds it.
#[derive(Clone, Debug, PartialEq, Eq)]
pub struct User {
    pub id: Uuid,
    pub name: String,
    pub email: String,
    pub admin: bool,
}

/// The credentials of a sign-in.
#[derive(Clone, Debug, PartialEq, Eq)]
pub struct Login {
    pub email: String,
    pub password: String,
}

/// What a new user supplies.
#[derive(Clone, Debug, PartialEq, Eq)]
pub struct SignUp {
    pub username: String,
    pub email: String,
    pub password: String,
}

/// The stored password hash of a user, as the database returns it.
#[derive(Clone, Debug, PartialEq, Eq)]
pub struct Password {
    pub user_id: Uuid,
    pub password: String,
}

/// A session that was opened: the user it belongs to and the signed token
/// that proves it.
#[derive(Clone, Debug, PartialEq, Eq)]
pub struct SessionInfo {
    pub user_id: Uuid,
    pub token: String,
}

/// What a new post consists of, apart from its attachments.
#[derive(Clone, Debug, PartialEq, Eq)]
pub struct PostParts {
    pub title: String,
    pub description: String,
    pub draft: bool,
    pub posts: Vec<Uuid>,
    pub tags: Vec<Uuid>,
}

/// A media object as the object store describes it. `kind` is the first
/// half of its media type and `subtype` the second.
#[derive(Clone, Debug, PartialEq, Eq)]
pub struct Object {
    pub id: Uuid,
    pub kind: String,
    pub subtype: String,
    pub size: u64,
    pub preview_id: Option<Uuid>,
}

/// The media type and size of an object, as sent along with its bytes.
#[derive(Clone, Debug, PartialEq, Eq)]
pub struct ObjectSummary {
    pub media_type: String,
    pub size: u64,
}

/// What the object store reports after removing a batch of objects.
#[derive(Clone, Copy, Debug, PartialEq, Eq, Structural)]
pub struct RemoveResult {
    pub objects_removed: u64,
    pub space_freed: u64,
}

} // verus!
