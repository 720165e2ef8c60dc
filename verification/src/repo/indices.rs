//! Operations that consist of a fixed sequence of calls: rebuilding the
//! search indices, exporting a snapshot, and the maintenance of the
//! database.

use crate::error::Error;
use crate::export::Data;
use crate::protocol::{refusal, refuse, Call, Maintenance, Reply, Step};
use crate::repo::Repo;
use vstd::prelude::*;
use vstd::string::*;

verus! {

/// Where the rebuilding of the search indices stands.
#[derive(Clone, Copy, Debug, PartialEq, Eq, Structural)]
pub enum CreateIndices {
    /// The old indices are being deleted.
    Deleting,
    /// The new indices are being built.
    Creating,
    /// The rebuilding has ended.
    Finished,
}

/// How the rebuilding goes on when `reply` arrives in state `before`.
pub open spec fn create_indices_next(before: CreateIndices, reply: Reply) -> (
    CreateIndices,
    Step<()>,
) {
    match (before, reply) {
        (CreateIndices::Deleting, Reply::Done) => (
            CreateIndices::Creating,
            Step::Call(Call::CreateIndices),
        ),
        (CreateIndices::Creating, Reply::Done) => (CreateIndices::Finished, Step::Done(Ok(()))),
        (CreateIndices::Finished, _) => (
            CreateIndices::Finished,
            Step::Done(Err(Error::OutOfOrder)),
        ),
        _ => (CreateIndices::Finished, Step::Done(Err(refusal(reply)))),
    }
}

/// What the reply to `Export` yields.
pub open spec fn exported(reply: Reply) -> Result<Data, Error> {
    match reply {
        Reply::Data(data) => Ok(data),
        _ => Err(refusal(reply)),
    }
}

/// True if `r` is what the reply to a piece of maintenance yields: the
/// text of the failure, if it failed.
pub open spec fn maintained(reply: Reply, r: Result<(), String>) -> bool {
    match reply {
        Reply::Done => r == Ok::<(), String>(()),
        Reply::Failed(failure) => r == Err::<(), String>(failure.message),
        _ => r matches Err(text) && text@ == "reply does not answer the call"@,
    }
}

impl Repo {
    /// The call that checks the version of the schema. `maintenance_of`
    /// takes the reply.
    pub fn prepare(&self) -> (call: Call)
        ensures
            call == (Call::Maintain { work: Maintenance::CheckSchemaVersion }),
    {
        Call::Maintain { work: Maintenance::CheckSchemaVersion }
    }

    /// The call that closes the database. Nothing is to be done with the
    /// reply.
    pub fn shutdown(&self) -> (call: Call)
        ensures
            call == (Call::Maintain { work: Maintenance::Close }),
    {
        Call::Maintain { work: Maintenance::Close }
    }

    /// The call that dumps the database to the file at `path`.
    /// `maintenance_of` takes the reply.
    pub fn dump(&self, path: String) -> (call: Call)
        ensures
            call == (Call::Maintain { work: Maintenance::Dump { path } }),
    {
        Call::Maintain { work: Maintenance::Dump { path } }
    }

    /// The call that creates the schema. `maintenance_of` takes the reply.
    pub fn init(&self) -> (call: Call)
        ensures
            call == (Call::Maintain { work: Maintenance::Init }),
    {
        Call::Maintain { work: Maintenance::Init }
    }

    /// The call that migrates the schema. `maintenance_of` takes the
    /// reply.
    pub fn migrate(&self) -> (call: Call)
        ensures
            call == (Call::Maintain { work: Maintenance::Migrate }),
    {
        Call::Maintain { work: Maintenance::Migrate }
    }

    /// The call that resets the database. `maintenance_of` takes the
    /// reply.
    pub fn reset(&self) -> (call: Call)
        ensures
            call == (Call::Maintain { work: Maintenance::Reset }),
    {
        Call::Maintain { work: Maintenance::Reset }
    }

    /// The call that restores the database from the dump in the file at
    /// `path`. `maintenance_of` takes the reply.
    pub fn restore(&self, path: String) -> (call: Call)
        ensures
            call == (Call::Maintain { work: Maintenance::Restore { path } }),
    {
        Call::Maintain { work: Maintenance::Restore { path } }
    }

    /// Takes the reply to a piece of maintenance.
    pub fn maintenance_of(&self, reply: Reply) -> (r: Result<(), String>)
        ensures
            maintained(reply, r),
    {
        match reply {
            Reply::Done => Ok(()),
            Reply::Failed(failure) => Err(failure.message),
            _ => Err(String::from_str("reply does not answer the call")),
        }
    }

    /// Begins to rebuild the search indices: the old ones are deleted
    /// first.
    pub fn create_indices(&self) -> (r: (CreateIndices, Step<()>))
        ensures
            r == (CreateIndices::Deleting, Step::<()>::Call(Call::DeleteIndices)),
    {
        (CreateIndices::Deleting, Step::Call(Call::DeleteIndices))
    }

    /// The call that reads a snapshot of everything the database holds.
    /// `export_of` takes the reply.
    pub fn export(&self) -> (call: Call)
        ensures
            call == Call::Export,
    {
        Call::Export
    }

    /// Takes the reply to `Export`.
    pub fn export_of(&self, reply: Reply) -> (r: Result<Data, Error>)
        ensures
            r == exported(reply),
    {
        match reply {
            Reply::Data(data) => Ok(data),
            Reply::Failed(failure) => Err(Error::Internal(failure.message)),
            _ => Err(Error::OutOfOrder),
        }
    }
}

impl CreateIndices {
    /// Resumes the rebuilding with the reply to the call it made.
    pub fn resume(self, reply: Reply) -> (r: (CreateIndices, Step<()>))
        ensures
            r == create_indices_next(self, reply),
    {
        match (self, reply) {
            (CreateIndices::Deleting, Reply::Done) => (
                CreateIndices::Creating,
                Step::Call(Call::CreateIndices),
            ),
            (CreateIndices::Creating, Reply::Done) => (CreateIndices::Finished, Step::Done(Ok(()))),
            (CreateIndices::Finished, _) => (
                CreateIndices::Finished,
                Step::Done(Err(Error::OutOfOrder)),
            ),
            (_, other) => (CreateIndices::Finished, refuse(other)),
        }
    }
}

} // verus!
