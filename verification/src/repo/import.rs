//! Import of a whole snapshot into an empty repository.
//!
//! The objects that the posts of the snapshot refer to are resolved at the
//! object store and recorded first. Only then are the rows inserted, and
//! last the sources on the profiles of tags and users are attached. Import
//! is no merge: the target must hold nothing.

use crate::error::Error;
use crate::export::Data;
use crate::model::{Object, Uuid};
use crate::protocol::{refusal, refuse, Call, Reply, Step};
use crate::repo::links::{
    attach_links, collect_links, links_next, links_turn, profile_links, Link, Links,
};
use crate::repo::objects::{ascending, attached, referenced_objects};
use crate::repo::Repo;
use vstd::prelude::*;

verus! {

/// Where an import stands.
#[derive(Debug, PartialEq, Eq)]
pub enum Import {
    /// The objects that the posts refer to are being resolved.
    Describing { data: Data },
    /// An object is being recorded; `rest` holds those still to come.
    Recording { data: Data, rest: Vec<Object> },
    /// The rows are being inserted.
    Inserting { links: Vec<Link> },
    /// The sources on the profiles are being attached.
    Linking { links: Links },
    /// The import has failed before any source was attached.
    Finished,
}

/// The links on the profiles of a snapshot: those of its tags, then those
/// of its users.
pub open spec fn data_links(data: Data) -> Seq<Link> {
    profile_links(data.tags@) + profile_links(data.users@)
}

/// How the import turns to the objects `objects` that are still to be
/// recorded: the first is recorded, and once none is left the rows are
/// inserted.
pub open spec fn import_turn(data: Data, objects: Seq<Object>, state: Import, step: Step<()>)
    -> bool {
    if objects.len() == 0 {
        &&& state matches Import::Inserting { links }
        &&& links@ == data_links(data)
        &&& step == Step::<()>::Call(Call::Import { data })
    } else {
        &&& state matches Import::Recording { data: kept, rest }
        &&& kept == data
        &&& rest@ == objects.skip(1)
        &&& step == Step::<()>::Call(Call::CreateObject { object: objects[0] })
    }
}

/// How an import goes on when `reply` arrives in state `before`.
pub open spec fn import_next(before: Import, reply: Reply, state: Import, step: Step<()>) -> bool {
    match before {
        Import::Describing { data } => match reply {
            Reply::Objects(objects) => import_turn(data, objects@, state, step),
            _ => state == Import::Finished && step == Step::<()>::Done(Err(refusal(reply))),
        },
        Import::Recording { data, rest } => match reply {
            Reply::Done => import_turn(data, rest@, state, step),
            _ => state == Import::Finished && step == Step::<()>::Done(Err(refusal(reply))),
        },
        Import::Inserting { links } => match reply {
            Reply::Done => state matches Import::Linking { links: inner } && links_turn(
                links@,
                inner,
                step,
            ),
            _ => state == Import::Finished && step == Step::<()>::Done(Err(refusal(reply))),
        },
        Import::Linking { links } => state matches Import::Linking { links: inner } && links_next(
            links,
            reply,
            inner,
            step,
        ),
        Import::Finished => state == Import::Finished && step == Step::<()>::Done(
            Err(Error::OutOfOrder),
        ),
    }
}

/// Turns to the objects that are still to be recorded.
fn record(data: Data, objects: Vec<Object>) -> (r: (Import, Step<()>))
    ensures
        import_turn(data, objects@, r.0, r.1),
{
    let mut rest = objects;
    if rest.len() == 0 {
        let mut links: Vec<Link> = Vec::new();
        collect_links(&data.tags, &mut links);
        collect_links(&data.users, &mut links);
        assert(links@ =~= data_links(data));
        (Import::Inserting { links }, Step::Call(Call::Import { data }))
    } else {
        let object = rest.remove(0);
        assert(rest@ =~= objects@.skip(1));
        (Import::Recording { data, rest }, Step::Call(Call::CreateObject { object }))
    }
}

impl Repo {
    /// Begins the import of `data`: asks the object store to describe every
    /// object that a post of `data` refers to, each once and in ascending
    /// order.
    pub fn import(&self, data: Data) -> (r: (Import, Step<()>))
        ensures
            r.0 == (Import::Describing { data }),
            r.1 matches Step::Call(Call::GetObjects { ids }) && ascending(ids@) && forall|id: Uuid|
                ids@.contains(id) <==> attached(data.posts@, id),
    {
        let ids = referenced_objects(&data.posts);
        (Import::Describing { data }, Step::Call(Call::GetObjects { ids }))
    }
}

impl Import {
    /// Resumes the import with the reply to the call it made.
    pub fn resume(self, reply: Reply) -> (r: (Import, Step<()>))
        ensures
            import_next(self, reply, r.0, r.1),
    {
        match self {
            Import::Describing { data } => match reply {
                Reply::Objects(objects) => record(data, objects),
                other => (Import::Finished, refuse(other)),
            },
            Import::Recording { data, rest } => match reply {
                Reply::Done => record(data, rest),
                other => (Import::Finished, refuse(other)),
            },
            Import::Inserting { links } => match reply {
                Reply::Done => {
                    let (links, step) = attach_links(links);
                    (Import::Linking { links }, step)
                },
                other => (Import::Finished, refuse(other)),
            },
            Import::Linking { links } => {
                let (links, step) = links.resume(reply);
                (Import::Linking { links }, step)
            },
            Import::Finished => (Import::Finished, Step::Done(Err(Error::OutOfOrder))),
        }
    }
}

} // verus!
