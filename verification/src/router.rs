//! What the server answers over HTTP, as far as it is decided here: the
//! table of routes with the capability that each asks for, and the status
//! of the answers that carry no body.

pub mod post;
pub mod user;

use vstd::prelude::*;

verus! {

/// The method of a request.
#[derive(Clone, Copy, Debug, PartialEq, Eq, Structural)]
pub enum Method {
    Get,
    Post,
    Put,
    Delete,
}

/// The capability that a route asks of the caller.
#[derive(Clone, Copy, Debug, PartialEq, Eq, Structural)]
pub enum Access {
    /// Anybody.
    Public,
    /// A reader: signed in, or anonymous where that is allowed.
    Reader,
    /// A signed-in user.
    User,
}

/// The status of an answer without a body.
#[derive(Clone, Copy, Debug, PartialEq, Eq, Structural)]
pub enum Status {
    NoContent,
    NotFound,
}

/// One route: a path, a method, and the capability it asks for.
#[derive(Clone, Copy, Debug, PartialEq, Eq)]
pub struct Route<H> {
    pub path: &'static str,
    pub method: Method,
    pub access: Access,
    pub handler: H,
}

/// The status after a deletion: `NoContent` if something was deleted,
/// `NotFound` if there was nothing to delete.
pub fn deleted(found: bool) -> (status: Status)
    ensures
        status == if found {
            Status::NoContent
        } else {
            Status::NotFound
        },
{
    if found {
        Status::NoContent
    } else {
        Status::NotFound
    }
}

} // verus!
