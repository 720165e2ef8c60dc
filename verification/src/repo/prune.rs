//! Reclaiming what nothing refers to any more.
//!
//! Prune works in two phases. The database goes first: it deletes the rows
//! that its retention policy marks collectible and then, in a transaction,
//! names the objects that no post refers to. Only when that transaction is
//! committed are those objects removed from the object store. If the
//! removal fails, the database is none the worse: the blobs stay behind,
//! unreferenced.

use crate::error::Error;
use crate::model::{RemoveResult, Uuid};
use crate::protocol::{refusal, refuse, Call, Reply, Step};
use crate::repo::Repo;
use vstd::prelude::*;

verus! {

/// Where a prune stands.
#[derive(Debug, PartialEq, Eq)]
pub enum Prune {
    /// Collectible rows are being deleted.
    Rows,
    /// The transaction is being opened.
    Opening,
    /// The unreferenced objects are being named.
    Identifying,
    /// The transaction is being committed. `ids` are the objects that the
    /// database named.
    Committing { ids: Vec<Uuid> },
    /// The objects are being removed from the object store.
    Removing,
    /// The prune has ended.
    Finished,
}

/// How a prune goes on when `reply` arrives in state `before`: the next
/// state and the next step.
pub open spec fn prune_next(before: Prune, reply: Reply) -> (Prune, Step<RemoveResult>) {
    match (before, reply) {
        (Prune::Rows, Reply::Done) => (Prune::Opening, Step::Call(Call::Begin)),
        (Prune::Opening, Reply::Done) => (Prune::Identifying, Step::Call(Call::PruneObjects)),
        (Prune::Identifying, Reply::Ids(ids)) => (
            Prune::Committing { ids },
            Step::Call(Call::Commit),
        ),
        (Prune::Committing { ids }, Reply::Done) => (
            Prune::Removing,
            Step::Call(Call::RemoveObjects { ids }),
        ),
        (Prune::Removing, Reply::Removed(result)) => (Prune::Finished, Step::Done(Ok(result))),
        (Prune::Finished, _) => (Prune::Finished, Step::Done(Err(Error::OutOfOrder))),
        _ => (Prune::Finished, Step::Done(Err(refusal(reply)))),
    }
}

impl Repo {
    /// Begins a prune: asks the database to delete its collectible rows.
    pub fn prune(&self) -> (r: (Prune, Step<RemoveResult>))
        ensures
            r == (Prune::Rows, Step::<RemoveResult>::Call(Call::PruneRows)),
    {
        (Prune::Rows, Step::Call(Call::PruneRows))
    }
}

impl Prune {
    /// Resumes the prune with the reply to the call it made.
    pub fn resume(self, reply: Reply) -> (r: (Prune, Step<RemoveResult>))
        ensures
            r == prune_next(self, reply),
    {
        match (self, reply) {
            (Prune::Rows, Reply::Done) => (Prune::Opening, Step::Call(Call::Begin)),
            (Prune::Opening, Reply::Done) => (Prune::Identifying, Step::Call(Call::PruneObjects)),
            (Prune::Identifying, Reply::Ids(ids)) => (
                Prune::Committing { ids },
                Step::Call(Call::Commit),
            ),
            (Prune::Committing { ids }, Reply::Done) => (
                Prune::Removing,
                Step::Call(Call::RemoveObjects { ids }),
            ),
            (Prune::Removing, Reply::Removed(result)) => (Prune::Finished, Step::Done(Ok(result))),
            (Prune::Finished, _) => (Prune::Finished, Step::Done(Err(Error::OutOfOrder))),
            (_, other) => (Prune::Finished, refuse(other)),
        }
    }
}

} // verus!
