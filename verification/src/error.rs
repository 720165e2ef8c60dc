//! The error taxonomy. Every failure the core reports is one of these cases,
//! and the cases are distinguishable so that a transport can map each to a
//! response of its own.

use crate::model::Uuid;
use vstd::prelude::*;
use vstd::string::*;

verus! {

/// A failure of a repository operation.
#[derive(Clone, Debug, PartialEq, Eq)]
pub enum Error {
    /// A uniqueness rule was violated. `identifier` is the value that
    /// collided, in words.
    AlreadyExists { entity: &'static str, identifier: String },
    /// Data supplied by the caller breaks a domain rule.
    InvalidInput(String),
    /// The requested entity is absent.
    NotFound { entity: &'static str, id: Uuid },
    /// The caller holds no valid proof of identity, or lacks the privilege
    /// to attempt the operation.
    Unauthenticated(Option<&'static str>),
    /// A store or the index failed. The text is the collaborator's own.
    Internal(String),
    /// An operation was resumed with a reply that does not answer the call
    /// it had made.
    OutOfOrder,
}

/// What a collaborator reports when a call fails. `constraint` names the
/// database constraint that rejected a write, if one did.
#[derive(Clone, Debug, PartialEq, Eq)]
pub struct Failure {
    pub message: String,
    pub constraint: Option<String>,
}

impl Error {
    /// True if `self` is `InvalidInput` with exactly the text `message`.
    pub open spec fn is_invalid_input(self, message: Seq<char>) -> bool {
        self matches Error::InvalidInput(text) && text@ == message
    }

    /// True if `self` is `Internal` with exactly the text `message`.
    pub open spec fn is_internal(self, message: Seq<char>) -> bool {
        self matches Error::Internal(text) && text@ == message
    }

    /// True if `self` is `AlreadyExists` for `entity` with exactly the
    /// identifier `identifier`.
    pub open spec fn is_already_exists(self, entity: &'static str, identifier: Seq<char>) -> bool {
        self matches Error::AlreadyExists { entity: e, identifier: i } && e == entity && i@
            == identifier
    }

    /// An `InvalidInput` with the given text.
    pub fn invalid_input(message: &str) -> (e: Error)
        ensures
            e.is_invalid_input(message@),
    {
        Error::InvalidInput(String::from_str(message))
    }

    /// Wraps a collaborator's failure as it is.
    pub fn from_failure(failure: Failure) -> (e: Error)
        ensures
            e == Error::Internal(failure.message),
    {
        Error::Internal(failure.message)
    }
}

/// Turns an absent row into `NotFound` for the given entity and identity.
pub fn found<T>(row: Option<T>, entity: &'static str, id: Uuid) -> (r: Result<T, Error>)
    ensures
        r == match row {
            Some(value) => Ok::<T, Error>(value),
            None => Err(Error::NotFound { entity, id }),
        },
{
    match row {
        Some(value) => Ok(value),
        None => Err(Error::NotFound { entity, id }),
    }
}

} // verus!
