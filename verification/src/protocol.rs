//! The vocabulary between the core and its collaborators.
//!
//! The core never touches a store. Where an operation needs one, it returns
//! a `Call` that names the work; whoever drives the operation performs the
//! call and resumes the operation with the `Reply`. A call is answered by
//! `Reply::Failed` if the collaborator failed, and otherwise by the one kind
//! of reply that the documentation of the call names.
//!
//! An operation that opens a transaction commits it itself. Where it ends
//! with an error before the commit, the transaction is left open, and
//! whoever drives the operation rolls it back.

use crate::error::{Error, Failure};
use crate::export::Data;
use crate::model::{Object, Password, PostParts, RemoveResult, User, Uuid};
use crate::preview::MediaKind;
use vstd::prelude::*;

verus! {

/// A unit of work for a collaborator.
#[derive(Clone, Debug, PartialEq, Eq)]
pub enum Call {
    /// Database: open a transaction. Answered by `Done`.
    Begin,
    /// Database: commit the open transaction. Answered by `Done`.
    Commit,
    /// Database: the password hash stored for an email address. Answered by
    /// `Password`.
    ReadUserPassword { email: String },
    /// Database: a post as `reader` may see it. Answered by `Value`.
    ReadPost { id: Uuid, reader: Option<Uuid> },
    /// Database: whether the session that the token stands for was
    /// revoked. Answered by `Revoked`.
    ReadSessionRevoked { token: String },
    /// Database: revoke the session that the token stands for. Answered by
    /// `Done`.
    RevokeSession { token: String },
    /// Database: the row of a user. Answered by `User`.
    ReadUser { id: Uuid },
    /// Database: create a user. Answered by `Created`.
    CreateUser { name: String, email: String, password: String },
    /// Database: apply a change in the name of the user `by`. Answered by
    /// `Value`.
    Apply { by: Uuid, change: Change },
    /// Database: set the admin flag of a user. Answered by `Updated`, which
    /// tells whether the user exists.
    UpdateAdmin { user: Uuid, admin: bool },
    /// Database: delete the rows that the retention policy marks
    /// collectible. Answered by `Done`.
    PruneRows,
    /// Database: delete the rows of the objects that no post references and
    /// return their identities. Answered by `Ids`.
    PruneObjects,
    /// Database: the site with the given scheme and host. Answered by
    /// `Site`.
    ReadSite { scheme: String, host: String },
    /// Database: create a site. Answered by `Row`.
    CreateSite { scheme: String, host: String, icon: Option<Uuid> },
    /// Database: create a source on a site. Answered by `Row`.
    CreateSource { site: i64, resource: String },
    /// Database: attach a source to a tag or user. Answered by `Done`.
    CreateEntityLink { entity: Uuid, source: i64 },
    /// Database: record an object. Answered by `Done`.
    CreateObject { object: Object },
    /// Database: create a post with the given attachments, in their order.
    /// Answered by `Id`, the identity of the post.
    CreatePost { parts: PostParts, objects: Vec<Uuid> },
    /// Database: detach objects from a post. Answered by `Done`.
    DeletePostObjects { post: Uuid, objects: Vec<Uuid> },
    /// Database: a piece of maintenance. Answered by `Done`.
    Maintain { work: Maintenance },
    /// Database: insert a whole snapshot. Answered by `Done`.
    Import { data: Data },
    /// Database: read a whole snapshot. Answered by `Data`.
    Export,
    /// Object store: store the given bytes. Answered by `Object`.
    AddObject { bytes: Vec<u8> },
    /// Object store: describe the given objects. Answered by `Objects`.
    GetObjects { ids: Vec<Uuid> },
    /// Object store: remove the given objects. Answered by `Removed`.
    RemoveObjects { ids: Vec<Uuid> },
    /// Search index: register a name of a user. Answered by `Done`.
    AddUserAlias { user: Uuid, name: String },
    /// Search index: delete every index. Answered by `Done`.
    DeleteIndices,
    /// Search index: build every index from the current data. Answered by
    /// `Done`.
    CreateIndices,
    /// Credentials: hash a password. Answered by `Hash`.
    HashPassword { password: String },
    /// Credentials: compare a password to a stored hash. Answered by
    /// `Verified`.
    VerifyPassword { password: String, hash: String },
    /// Preview: derive a preview of an object of the given kind. Answered
    /// by `Preview`.
    GeneratePreview { kind: MediaKind, object: Uuid },
    /// Database: record the preview of an object. Answered by `Done`.
    UpdateObjectPreview { object: Uuid, preview: Uuid },
}

/// A change to the relational state of a post, or of the profile of the
/// user who makes it.
#[derive(Clone, Debug, PartialEq, Eq)]
pub enum Change {
    /// Attach objects to a post, in front of `destination` or at the end.
    AddPostObjects { post: Uuid, objects: Vec<Uuid>, destination: Option<Uuid> },
    AddRelatedPost { post: Uuid, related: Uuid },
    DeleteRelatedPost { post: Uuid, related: Uuid },
    AddPostTag { post: Uuid, tag: Uuid },
    DeletePostTag { post: Uuid, tag: Uuid },
    PublishPost { post: Uuid },
    DeletePost { post: Uuid },
    SetPostTitle { post: Uuid, title: String },
    SetPostDescription { post: Uuid, description: String },
    SetUserName { name: String },
    AddUserAlias { alias: String },
    DeleteUserAlias { alias: String },
    SetUserDescription { description: String },
    SetUserEmail { email: String },
    /// Store a new password hash.
    SetUserPassword { password: String },
    AddUserSource { url: String },
    DeleteUserSource { source: i64 },
    DeleteUserSources { sources: Vec<String> },
    DeleteUser,
}

/// A piece of maintenance on the database.
#[derive(Clone, Debug, PartialEq, Eq)]
pub enum Maintenance {
    /// Check that the schema is of the version this core was written for.
    CheckSchemaVersion,
    /// Write a dump of the database to the file at `path`.
    Dump { path: String },
    /// Create the schema in an empty database.
    Init,
    /// Bring the schema up to the current version.
    Migrate,
    /// Delete all data and create the schema anew.
    Reset,
    /// Replace the database by the dump in the file at `path`.
    Restore { path: String },
    /// Close every connection.
    Close,
}

/// What a collaborator answers.
#[derive(Clone, Debug, PartialEq, Eq)]
pub enum Reply {
    /// The call failed.
    Failed(Failure),
    /// The call succeeded and returns nothing.
    Done,
    Password(Option<Password>),
    User(Option<User>),
    Created(User),
    Updated(bool),
    /// An entity, or what a change left behind, as JSON text; `None` if
    /// the entity is not there.
    Value(Option<String>),
    Id(Uuid),
    Ids(Vec<Uuid>),
    Site(Option<i64>),
    Row(i64),
    Data(Data),
    Object(Object),
    Objects(Vec<Object>),
    Removed(RemoveResult),
    Hash(String),
    Verified(bool),
    Revoked(bool),
    Preview(Option<Uuid>),
}

/// What an operation wants next: a call to be made, or nothing more.
#[derive(Debug, PartialEq, Eq)]
pub enum Step<T> {
    /// Make this call and resume the operation with the reply.
    Call(Call),
    /// The operation has ended with this result.
    Done(Result<T, Error>),
}

impl<T> Step<T> {
    /// True if the operation has ended with `InvalidInput` and exactly the
    /// text `message`.
    pub open spec fn refuses_input(self, message: Seq<char>) -> bool {
        self matches Step::Done(Err(error)) && error.is_invalid_input(message)
    }

    /// Ends an operation with `InvalidInput` and the text `message`.
    pub fn invalid(message: &str) -> (step: Step<T>)
        ensures
            step.refuses_input(message@),
    {
        Step::Done(Err(Error::invalid_input(message)))
    }
}

/// The error that ends an operation which was resumed with `reply` where
/// that kind of reply answers nothing it asked: the collaborator's failure
/// if the reply is one, and otherwise `OutOfOrder`.
pub open spec fn refusal(reply: Reply) -> Error {
    match reply {
        Reply::Failed(failure) => Error::Internal(failure.message),
        _ => Error::OutOfOrder,
    }
}

/// Ends an operation that cannot go on after `reply`.
pub fn refuse<T>(reply: Reply) -> (step: Step<T>)
    ensures
        step == Step::<T>::Done(Err(refusal(reply))),
{
    match reply {
        Reply::Failed(failure) => Step::Done(Err(Error::Internal(failure.message))),
        _ => Step::Done(Err(Error::OutOfOrder)),
    }
}

} // verus!
