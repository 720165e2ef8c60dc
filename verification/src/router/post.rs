//! The routes of posts.

use crate::router::{deleted, Access, Method, Route, Status};
use vstd::prelude::*;

verus! {

/// What a route of posts does.
#[derive(Clone, Copy, Debug, PartialEq, Eq, Structural)]
pub enum Handler {
    AddObjects,
    AppendObjects,
    AddRelatedPost,
    AddTag,
    CreatePost,
    DeleteObjects,
    DeletePost,
    DeleteRelatedPost,
    DeleteTag,
    GetPost,
    PublishPost,
    SetDescription,
    SetTitle,
}

/// The table of routes, in the order in which they are registered.
pub open spec fn table() -> Seq<Route<Handler>> {
    seq![
        Route { path: "/", method: Method::Post, access: Access::User, handler: Handler::CreatePost },
        Route { path: "/:id", method: Method::Get, access: Access::Reader, handler: Handler::GetPost },
        Route { path: "/:id", method: Method::Put, access: Access::User, handler: Handler::PublishPost },
        Route { path: "/:id", method: Method::Delete, access: Access::User, handler: Handler::DeletePost },
        Route {
            path: "/:id/description",
            method: Method::Put,
            access: Access::User,
            handler: Handler::SetDescription,
        },
        Route {
            path: "/:id/objects",
            method: Method::Post,
            access: Access::User,
            handler: Handler::AppendObjects,
        },
        Route {
            path: "/:id/objects",
            method: Method::Delete,
            access: Access::User,
            handler: Handler::DeleteObjects,
        },
        Route {
            path: "/:id/objects/:destination",
            method: Method::Post,
            access: Access::User,
            handler: Handler::AddObjects,
        },
        Route {
            path: "/:id/related/:related",
            method: Method::Put,
            access: Access::User,
            handler: Handler::AddRelatedPost,
        },
        Route {
            path: "/:id/related/:related",
            method: Method::Delete,
            access: Access::User,
            handler: Handler::DeleteRelatedPost,
        },
        Route { path: "/:id/tag/:tag", method: Method::Put, access: Access::User, handler: Handler::AddTag },
        Route {
            path: "/:id/tag/:tag",
            method: Method::Delete,
            access: Access::User,
            handler: Handler::DeleteTag,
        },
        Route { path: "/:id/title", method: Method::Put, access: Access::User, handler: Handler::SetTitle },
    ]
}

fn route(path: &'static str, method: Method, access: Access, handler: Handler) -> (r: Route<
    Handler,
>)
    ensures
        r == (Route { path, method, access, handler }),
{
    Route { path, method, access, handler }
}

/// The routes of posts. Reading a post asks for a reader; everything else
/// changes something and asks for a signed-in user.
pub fn routes() -> (r: Vec<Route<Handler>>)
    ensures
        r@ == table(),
        forall|i: int|
            0 <= i < r@.len() ==> ((#[trigger] r@[i]).access == Access::User <==> r@[i].method
                != Method::Get),
{
    let mut routes: Vec<Route<Handler>> = Vec::new();
    routes.push(route("/", Method::Post, Access::User, Handler::CreatePost));
    routes.push(route("/:id", Method::Get, Access::Reader, Handler::GetPost));
    routes.push(route("/:id", Method::Put, Access::User, Handler::PublishPost));
    routes.push(route("/:id", Method::Delete, Access::User, Handler::DeletePost));
    routes.push(route("/:id/description", Method::Put, Access::User, Handler::SetDescription));
    routes.push(route("/:id/objects", Method::Post, Access::User, Handler::AppendObjects));
    routes.push(route("/:id/objects", Method::Delete, Access::User, Handler::DeleteObjects));
    routes.push(route("/:id/objects/:destination", Method::Post, Access::User, Handler::AddObjects));
    routes.push(route("/:id/related/:related", Method::Put, Access::User, Handler::AddRelatedPost));
    routes.push(
        route("/:id/related/:related", Method::Delete, Access::User, Handler::DeleteRelatedPost),
    );
    routes.push(route("/:id/tag/:tag", Method::Put, Access::User, Handler::AddTag));
    routes.push(route("/:id/tag/:tag", Method::Delete, Access::User, Handler::DeleteTag));
    routes.push(route("/:id/title", Method::Put, Access::User, Handler::SetTitle));
    assert(routes@ =~= table());
    routes
}

/// The status after removing a tag from a post: `NoContent` if the post
/// had the tag, `NotFound` if it had not.
pub fn delete_tag(found: bool) -> (status: Status)
    ensures
        status == if found {
            Status::NoContent
        } else {
            Status::NotFound
        },
{
    deleted(found)
}

} // verus!
