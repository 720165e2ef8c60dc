//! The routes of users.

use crate::router::{deleted, Access, Method, Route, Status};
use vstd::prelude::*;

verus! {

/// What a route of users does.
#[derive(Clone, Copy, Debug, PartialEq, Eq, Structural)]
pub enum Handler {
    AddSource,
    CreateSession,
    DeleteAlias,
    DeleteSession,
    DeleteSource,
    DeleteSources,
    DeleteUser,
    GetAuthenticatedUser,
    GetUser,
    SetDescription,
    SetEmail,
    SetName,
    SetPassword,
}

/// Which of its names a user sets.
#[derive(Clone, Copy, Debug, PartialEq, Eq, Structural)]
pub enum NameChange {
    /// The main name.
    Main,
    /// One more alias.
    Alias,
}

/// The table of routes, in the order in which they are registered.
pub open spec fn table() -> Seq<Route<Handler>> {
    seq![
        Route {
            path: "/",
            method: Method::Get,
            access: Access::User,
            handler: Handler::GetAuthenticatedUser,
        },
        Route { path: "/", method: Method::Delete, access: Access::User, handler: Handler::DeleteUser },
        Route {
            path: "/description",
            method: Method::Put,
            access: Access::User,
            handler: Handler::SetDescription,
        },
        Route { path: "/email", method: Method::Put, access: Access::User, handler: Handler::SetEmail },
        Route { path: "/name/:name", method: Method::Put, access: Access::User, handler: Handler::SetName },
        Route {
            path: "/name/:name",
            method: Method::Delete,
            access: Access::User,
            handler: Handler::DeleteAlias,
        },
        Route {
            path: "/password",
            method: Method::Put,
            access: Access::User,
            handler: Handler::SetPassword,
        },
        Route {
            path: "/session",
            method: Method::Post,
            access: Access::Public,
            handler: Handler::CreateSession,
        },
        Route {
            path: "/session",
            method: Method::Delete,
            access: Access::User,
            handler: Handler::DeleteSession,
        },
        Route { path: "/source", method: Method::Post, access: Access::User, handler: Handler::AddSource },
        Route {
            path: "/source",
            method: Method::Delete,
            access: Access::User,
            handler: Handler::DeleteSources,
        },
        Route {
            path: "/source/:source",
            method: Method::Delete,
            access: Access::User,
            handler: Handler::DeleteSource,
        },
        Route { path: "/:user", method: Method::Get, access: Access::Public, handler: Handler::GetUser },
    ]
}

fn route(path: &'static str, method: Method, access: Access, handler: Handler) -> (r: Route<
    Handler,
>)
    ensures
        r == (Route { path, method, access, handler }),
{
    Route { path, method, access, handler }
}

/// The routes of users. Signing in and reading the profile of a user are
/// open to anybody; everything else asks for a signed-in user.
pub fn routes() -> (r: Vec<Route<Handler>>)
    ensures
        r@ == table(),
{
    let mut routes: Vec<Route<Handler>> = Vec::new();
    routes.push(route("/", Method::Get, Access::User, Handler::GetAuthenticatedUser));
    routes.push(route("/", Method::Delete, Access::User, Handler::DeleteUser));
    routes.push(route("/description", Method::Put, Access::User, Handler::SetDescription));
    routes.push(route("/email", Method::Put, Access::User, Handler::SetEmail));
    routes.push(route("/name/:name", Method::Put, Access::User, Handler::SetName));
    routes.push(route("/name/:name", Method::Delete, Access::User, Handler::DeleteAlias));
    routes.push(route("/password", Method::Put, Access::User, Handler::SetPassword));
    routes.push(route("/session", Method::Post, Access::Public, Handler::CreateSession));
    routes.push(route("/session", Method::Delete, Access::User, Handler::DeleteSession));
    routes.push(route("/source", Method::Post, Access::User, Handler::AddSource));
    routes.push(route("/source", Method::Delete, Access::User, Handler::DeleteSources));
    routes.push(route("/source/:source", Method::Delete, Access::User, Handler::DeleteSource));
    routes.push(route("/:user", Method::Get, Access::Public, Handler::GetUser));
    assert(routes@ =~= table());
    routes
}

/// The status after removing a source from a profile: `NoContent` if the
/// profile had the source, `NotFound` if it had not.
pub fn delete_source(found: bool) -> (status: Status)
    ensures
        status == if found {
            Status::NoContent
        } else {
            Status::NotFound
        },
{
    deleted(found)
}

/// Which name a request sets: the main name if it says so, and else an
/// alias.
pub fn set_name(main: Option<bool>) -> (change: NameChange)
    ensures
        change == if main == Some(true) {
            NameChange::Main
        } else {
            NameChange::Alias
        },
{
    match main {
        Some(true) => NameChange::Main,
        _ => NameChange::Alias,
    }
}

} // verus!
