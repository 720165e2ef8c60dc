//! What the core makes of the answers of the object store.

use crate::error::{Error, Failure};
use crate::model::{ObjectSummary, Uuid};
use vstd::prelude::*;
use vstd::string::*;

verus! {

/// How a request for the bytes of an object failed.
#[derive(Clone, Debug, PartialEq, Eq)]
pub enum StoreFailure {
    /// The object store holds no such object.
    NotFound,
    /// Anything else.
    Other(Failure),
}

/// The error for a request for the bytes of the object `id` that failed:
/// an object that is missing is reported as such, by its identity.
pub open spec fn object_error(id: Uuid, failure: StoreFailure) -> Error {
    match failure {
        StoreFailure::NotFound => Error::NotFound { entity: "object", id },
        StoreFailure::Other(failure) => Error::Internal(failure.message),
    }
}

/// True if `error` is the error for a request that names no one object
/// and failed: the failure as it is, and for a missing object the words
/// that say so.
pub open spec fn is_store_error(failure: StoreFailure, error: Error) -> bool {
    match failure {
        StoreFailure::NotFound => error.is_internal("object not found"@),
        StoreFailure::Other(failure) => error == Error::Internal(failure.message),
    }
}

/// The error for a request for the object `id` that failed.
pub fn object_failure(id: Uuid, failure: StoreFailure) -> (error: Error)
    ensures
        error == object_error(id, failure),
{
    match failure {
        StoreFailure::NotFound => Error::NotFound { entity: "object", id },
        StoreFailure::Other(failure) => Error::Internal(failure.message),
    }
}

/// The error for a request that names no one object and failed.
pub fn store_failure(failure: StoreFailure) -> (error: Error)
    ensures
        is_store_error(failure, error),
{
    match failure {
        StoreFailure::NotFound => Error::Internal(String::from_str("object not found")),
        StoreFailure::Other(failure) => Error::Internal(failure.message),
    }
}

/// What is sent along with the bytes of an object.
pub fn summary(media_type: String, size: u64) -> (r: ObjectSummary)
    ensures
        r == (ObjectSummary { media_type, size }),
{
    ObjectSummary { media_type, size }
}

/// Makes of the answer to a request for the bytes of the object `id`, all
/// at once, what the caller is told: the summary of the object with its
/// bytes, or the error.
pub fn get_object_bytes<B>(
    id: Uuid,
    answer: Result<(String, u64, B), StoreFailure>,
) -> (r: Result<(ObjectSummary, B), Error>)
    ensures
        r == match answer {
            Ok((media_type, size, contents)) => Ok::<(ObjectSummary, B), Error>(
                (ObjectSummary { media_type, size }, contents),
            ),
            Err(failure) => Err(object_error(id, failure)),
        },
{
    match answer {
        Ok((media_type, size, contents)) => Ok((summary(media_type, size), contents)),
        Err(failure) => Err(object_failure(id, failure)),
    }
}

/// Makes of the answer to a request for the bytes of the object `id`, as
/// a stream, what the caller is told: the summary of the object with its
/// contents, or the error.
pub fn get_object_stream<B>(
    id: Uuid,
    answer: Result<(String, u64, B), StoreFailure>,
) -> (r: Result<(ObjectSummary, B), Error>)
    ensures
        r == match answer {
            Ok((media_type, size, contents)) => Ok::<(ObjectSummary, B), Error>(
                (ObjectSummary { media_type, size }, contents),
            ),
            Err(failure) => Err(object_error(id, failure)),
        },
{
    match answer {
        Ok((media_type, size, contents)) => Ok((summary(media_type, size), contents)),
        Err(failure) => Err(object_failure(id, failure)),
    }
}

} // verus!
