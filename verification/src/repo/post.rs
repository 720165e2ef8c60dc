//! Creating posts and detaching their attachments.
//!
//! A post refers to objects and never owns them. An object that is new is
//! written to the object store first, and the transaction that creates the
//! post opens only when the store has acknowledged every one of them. So a
//! post that can be read refers to no object that cannot.

use crate::error::Error;
use crate::model::{PostParts, Uuid};
use crate::protocol::{refusal, refuse, Call, Reply, Step};
use crate::repo::with_user::WithUser;
use vstd::prelude::*;

verus! {

/// Where the creation of a post stands.
#[derive(Debug, PartialEq, Eq)]
pub enum CreatePost {
    /// A new object is being written to the object store. `objects` are
    /// the attachments so far, `rest` the uploads still to come.
    Storing { parts: PostParts, objects: Vec<Uuid>, rest: Vec<Vec<u8>> },
    /// The transaction is being opened.
    Opening { parts: PostParts, objects: Vec<Uuid> },
    /// The post is being created.
    Creating,
    /// The transaction is being committed.
    Committing { post: Uuid },
    /// The creation has ended.
    Finished,
}

/// How the creation turns to the uploads that are still to come: the first
/// is written to the object store, and once none is left the transaction is
/// opened. `objects` are the attachments so far.
pub open spec fn create_post_turn(
    parts: PostParts,
    objects: Seq<Uuid>,
    uploads: Seq<Vec<u8>>,
    state: CreatePost,
    step: Step<Uuid>,
) -> bool {
    if uploads.len() == 0 {
        &&& state matches CreatePost::Opening { parts: kept, objects: attachments }
        &&& kept == parts
        &&& attachments@ == objects
        &&& step == Step::<Uuid>::Call(Call::Begin)
    } else {
        &&& state matches CreatePost::Storing { parts: kept, objects: attachments, rest }
        &&& kept == parts
        &&& attachments@ == objects
        &&& rest@ == uploads.skip(1)
        &&& step == Step::<Uuid>::Call(Call::AddObject { bytes: uploads[0] })
    }
}

/// How the creation goes on when `reply` arrives in state `before`. An
/// object that the store acknowledges joins the attachments at their end.
pub open spec fn create_post_next(
    before: CreatePost,
    reply: Reply,
    state: CreatePost,
    step: Step<Uuid>,
) -> bool {
    match (before, reply) {
        (CreatePost::Storing { parts, objects, rest }, Reply::Object(object)) => create_post_turn(
            parts,
            objects@.push(object.id),
            rest@,
            state,
            step,
        ),
        (CreatePost::Opening { parts, objects }, Reply::Done) => state == CreatePost::Creating
            && step == Step::<Uuid>::Call(Call::CreatePost { parts, objects }),
        (CreatePost::Creating, Reply::Id(post)) => state == (CreatePost::Committing { post })
            && step == Step::<Uuid>::Call(Call::Commit),
        (CreatePost::Committing { post }, Reply::Done) => state == CreatePost::Finished && step
            == Step::<Uuid>::Done(Ok(post)),
        (CreatePost::Finished, _) => state == CreatePost::Finished && step == Step::<Uuid>::Done(
            Err(Error::OutOfOrder),
        ),
        _ => state == CreatePost::Finished && step == Step::<Uuid>::Done(Err(refusal(reply))),
    }
}

/// Where the detaching of attachments stands.
#[derive(Debug, PartialEq, Eq)]
pub enum DeleteObjects {
    /// The transaction is being opened.
    Opening { post: Uuid, objects: Vec<Uuid> },
    /// The attachments are being detached.
    Detaching,
    /// The transaction is being committed.
    Committing,
    /// The detaching has ended.
    Finished,
}

/// How the detaching goes on when `reply` arrives in state `before`. No
/// call goes to the object store: what is detached stays stored until a
/// prune finds that nothing refers to it.
pub open spec fn delete_objects_next(before: DeleteObjects, reply: Reply) -> (
    DeleteObjects,
    Step<()>,
) {
    match (before, reply) {
        (DeleteObjects::Opening { post, objects }, Reply::Done) => (
            DeleteObjects::Detaching,
            Step::Call(Call::DeletePostObjects { post, objects }),
        ),
        (DeleteObjects::Detaching, Reply::Done) => (
            DeleteObjects::Committing,
            Step::Call(Call::Commit),
        ),
        (DeleteObjects::Committing, Reply::Done) => (DeleteObjects::Finished, Step::Done(Ok(()))),
        (DeleteObjects::Finished, _) => (
            DeleteObjects::Finished,
            Step::Done(Err(Error::OutOfOrder)),
        ),
        _ => (DeleteObjects::Finished, Step::Done(Err(refusal(reply)))),
    }
}

/// Turns to the uploads that are still to come.
fn store_next(parts: PostParts, objects: Vec<Uuid>, uploads: Vec<Vec<u8>>) -> (r: (
    CreatePost,
    Step<Uuid>,
))
    ensures
        create_post_turn(parts, objects@, uploads@, r.0, r.1),
{
    let mut rest = uploads;
    if rest.len() == 0 {
        (CreatePost::Opening { parts, objects }, Step::Call(Call::Begin))
    } else {
        let bytes = rest.remove(0);
        assert(rest@ =~= uploads@.skip(1));
        (CreatePost::Storing { parts, objects, rest }, Step::Call(Call::AddObject { bytes }))
    }
}

impl WithUser {
    /// Begins to create a post. `objects` are objects that exist and are
    /// to be attached; `uploads` are the bytes of new objects, which are
    /// attached after them in their order.
    pub fn create_post(&self, parts: PostParts, objects: Vec<Uuid>, uploads: Vec<Vec<u8>>) -> (r: (
        CreatePost,
        Step<Uuid>,
    ))
        ensures
            create_post_turn(parts, objects@, uploads@, r.0, r.1),
    {
        store_next(parts, objects, uploads)
    }

    /// Begins to detach `objects` from the post `post`.
    pub fn delete_objects(&self, post: Uuid, objects: Vec<Uuid>) -> (r: (
        DeleteObjects,
        Step<()>,
    ))
        ensures
            r == (DeleteObjects::Opening { post, objects }, Step::<()>::Call(Call::Begin)),
    {
        (DeleteObjects::Opening { post, objects }, Step::Call(Call::Begin))
    }
}

impl CreatePost {
    /// Resumes the creation with the reply to the call it made.
    pub fn resume(self, reply: Reply) -> (r: (CreatePost, Step<Uuid>))
        ensures
            create_post_next(self, reply, r.0, r.1),
    {
        match (self, reply) {
            (CreatePost::Storing { parts, objects, rest }, Reply::Object(object)) => {
                let mut objects = objects;
                objects.push(object.id);
                store_next(parts, objects, rest)
            },
            (CreatePost::Opening { parts, objects }, Reply::Done) => (
                CreatePost::Creating,
                Step::Call(Call::CreatePost { parts, objects }),
            ),
            (CreatePost::Creating, Reply::Id(post)) => (
                CreatePost::Committing { post },
                Step::Call(Call::Commit),
            ),
            (CreatePost::Committing { post }, Reply::Done) => (
                CreatePost::Finished,
                Step::Done(Ok(post)),
            ),
            (CreatePost::Finished, _) => (CreatePost::Finished, Step::Done(Err(Error::OutOfOrder))),
            (_, other) => (CreatePost::Finished, refuse(other)),
        }
    }
}

impl DeleteObjects {
    /// Resumes the detaching with the reply to the call it made.
    pub fn resume(self, reply: Reply) -> (r: (DeleteObjects, Step<()>))
        ensures
            r == delete_objects_next(self, reply),
    {
        match (self, reply) {
            (DeleteObjects::Opening { post, objects }, Reply::Done) => (
                DeleteObjects::Detaching,
                Step::Call(Call::DeletePostObjects { post, objects }),
            ),
            (DeleteObjects::Detaching, Reply::Done) => (
                DeleteObjects::Committing,
                Step::Call(Call::Commit),
            ),
            (DeleteObjects::Committing, Reply::Done) => (
                DeleteObjects::Finished,
                Step::Done(Ok(())),
            ),
            (DeleteObjects::Finished, _) => (
                DeleteObjects::Finished,
                Step::Done(Err(Error::OutOfOrder)),
            ),
            (_, other) => (DeleteObjects::Finished, refuse(other)),
        }
    }
}

} // verus!
