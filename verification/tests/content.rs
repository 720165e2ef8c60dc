use minty_core::content::icon::Icon;
use minty_core::content::object_preview::{ObjectPreview, ObjectSummary, Shown};
use minty_core::error::{found, Error, Failure};
use minty_core::model::ObjectSummary as Summary;
use minty_core::obj::{
    get_object_bytes, get_object_stream, object_failure, store_failure, summary, StoreFailure,
};
use minty_core::router::post::{self, Handler as PostHandler};
use minty_core::router::user::{self, Handler as UserHandler, NameChange};
use minty_core::router::{deleted, Access, Method, Route, Status};

fn object(preview_id: Option<u128>) -> ObjectSummary {
    ObjectSummary { id: 1, preview_id, kind: "image".to_string(), subtype: "png".to_string() }
}

#[test]
fn svg_is_the_file_without_its_last_line_break() {
    assert_eq!(Icon("<svg></svg>\n").svg(), "<svg></svg>");
    assert_eq!(Icon("<svg></svg>\r\n\n  ").svg(), "<svg></svg>");
    assert_eq!(Icon("<svg>\n</svg>").svg(), "<svg>\n</svg>");
    assert_eq!(Icon("  <svg/>").svg(), "  <svg/>");
    assert_eq!(Icon("\n").svg(), "");
}

#[test]
fn a_new_preview_has_square_corners() {
    let preview = ObjectPreview::new(object(Some(2)));
    assert_eq!(
        preview.shown(),
        Shown::Picture {
            src: "/object/00000000-0000-0000-0000-000000000002/data".to_string(),
            rounded_corners: false,
        }
    );
    assert_eq!(ObjectPreview::from(object(Some(2))), preview);
}

#[test]
fn rounded_corners_are_asked_for() {
    let preview = ObjectPreview::new(object(Some(0x0123456789abcdef0011223344556677)));
    assert_eq!(
        preview.rounded_corners().shown(),
        Shown::Picture {
            src: "/object/01234567-89ab-cdef-0011-223344556677/data".to_string(),
            rounded_corners: true,
        }
    );
}

#[test]
fn the_path_is_that_of_the_preview_and_not_of_the_object() {
    let preview = ObjectPreview::new(object(Some(2)));
    assert_eq!(
        preview.preview(),
        Some("/object/00000000-0000-0000-0000-000000000002/data".to_string())
    );
    assert_eq!(ObjectPreview::new(object(None)).preview(), None);
}

#[test]
fn an_object_without_a_preview_shows_its_type_in_upper_case() {
    let preview = ObjectPreview::new(object(None)).rounded_corners();
    assert_eq!(preview.file_type(), "IMAGE");
    assert_eq!(preview.shown(), Shown::Placeholder { file_type: "IMAGE".to_string() });
    let odd = ObjectSummary { kind: "straße".to_string(), ..object(None) };
    assert_eq!(ObjectPreview::new(odd).file_type(), "STRASSE");
}

#[test]
fn a_summary_is_media_type_and_size() {
    assert_eq!(
        summary("image/png".to_string(), 12),
        Summary { media_type: "image/png".to_string(), size: 12 }
    );
}

#[test]
fn a_missing_object_is_reported_by_its_identity() {
    let missing: Result<(String, u64, Vec<u8>), StoreFailure> = Err(StoreFailure::NotFound);
    assert_eq!(get_object_stream(9, missing), Err(Error::NotFound { entity: "object", id: 9 }));
}

#[test]
fn another_failure_of_the_store_is_passed_on() {
    let broken: Result<(String, u64, Vec<u8>), StoreFailure> = Err(StoreFailure::Other(Failure {
        message: "timeout".to_string(),
        constraint: None,
    }));
    assert_eq!(get_object_stream(9, broken), Err(Error::Internal("timeout".to_string())));
}

#[test]
fn the_contents_of_an_object_come_with_its_summary() {
    let answer: Result<(String, u64, Vec<u8>), StoreFailure> =
        Ok(("text/plain".to_string(), 2, vec![104, 105]));
    assert_eq!(
        get_object_stream(9, answer),
        Ok((Summary { media_type: "text/plain".to_string(), size: 2 }, vec![104, 105]))
    );
}

#[test]
fn bytes_all_at_once_are_answered_like_a_stream() {
    let missing: Result<(String, u64, Vec<u8>), StoreFailure> = Err(StoreFailure::NotFound);
    assert_eq!(get_object_bytes(9, missing), Err(Error::NotFound { entity: "object", id: 9 }));
    let answer: Result<(String, u64, Vec<u8>), StoreFailure> =
        Ok(("text/plain".to_string(), 2, vec![104, 105]));
    assert_eq!(
        get_object_bytes(9, answer),
        Ok((Summary { media_type: "text/plain".to_string(), size: 2 }, vec![104, 105]))
    );
}

#[test]
fn failures_of_the_store_become_errors() {
    let other = || StoreFailure::Other(Failure { message: "m".to_string(), constraint: None });
    assert_eq!(object_failure(3, StoreFailure::NotFound), Error::NotFound { entity: "object", id: 3 });
    assert_eq!(object_failure(3, other()), Error::Internal("m".to_string()));
    assert_eq!(store_failure(StoreFailure::NotFound), Error::Internal("object not found".to_string()));
    assert_eq!(store_failure(other()), Error::Internal("m".to_string()));
}

#[test]
fn found_turns_an_absent_row_into_not_found() {
    assert_eq!(found(Some(5), "tag", 1), Ok(5));
    assert_eq!(found(None::<u8>, "tag", 1), Err(Error::NotFound { entity: "tag", id: 1 }));
}

#[test]
fn errors_are_built_from_their_parts() {
    assert_eq!(Error::invalid_input("no"), Error::InvalidInput("no".to_string()));
    let failure = Failure { message: "m".to_string(), constraint: Some("c".to_string()) };
    assert_eq!(Error::from_failure(failure), Error::Internal("m".to_string()));
}

#[test]
fn a_deletion_answers_by_what_it_found() {
    assert_eq!(deleted(true), Status::NoContent);
    assert_eq!(deleted(false), Status::NotFound);
    assert_eq!(post::delete_tag(true), Status::NoContent);
    assert_eq!(post::delete_tag(false), Status::NotFound);
    assert_eq!(user::delete_source(true), Status::NoContent);
    assert_eq!(user::delete_source(false), Status::NotFound);
}

#[test]
fn a_name_is_an_alias_unless_it_is_said_to_be_the_main_one() {
    assert_eq!(user::set_name(Some(true)), NameChange::Main);
    assert_eq!(user::set_name(Some(false)), NameChange::Alias);
    assert_eq!(user::set_name(None), NameChange::Alias);
}

#[test]
fn post_routes_are_as_registered() {
    let routes = post::routes();
    assert_eq!(routes.len(), 13);
    assert_eq!(
        routes[0],
        Route { path: "/", method: Method::Post, access: Access::User, handler: PostHandler::CreatePost }
    );
    assert_eq!(
        routes[1],
        Route { path: "/:id", method: Method::Get, access: Access::Reader, handler: PostHandler::GetPost }
    );
    assert_eq!(
        routes[7],
        Route {
            path: "/:id/objects/:destination",
            method: Method::Post,
            access: Access::User,
            handler: PostHandler::AddObjects,
        }
    );
    assert_eq!(
        routes[12],
        Route {
            path: "/:id/title",
            method: Method::Put,
            access: Access::User,
            handler: PostHandler::SetTitle,
        }
    );
    for route in &routes {
        assert_eq!(route.access == Access::User, route.method != Method::Get);
    }
    let handlers: std::collections::BTreeSet<String> =
        routes.iter().map(|route| format!("{:?}", route.handler)).collect();
    assert_eq!(handlers.len(), 13);
}

#[test]
fn user_routes_are_as_registered() {
    let routes = user::routes();
    assert_eq!(routes.len(), 13);
    assert_eq!(
        routes[0],
        Route {
            path: "/",
            method: Method::Get,
            access: Access::User,
            handler: UserHandler::GetAuthenticatedUser,
        }
    );
    assert_eq!(
        routes[7],
        Route {
            path: "/session",
            method: Method::Post,
            access: Access::Public,
            handler: UserHandler::CreateSession,
        }
    );
    assert_eq!(
        routes[12],
        Route {
            path: "/:user",
            method: Method::Get,
            access: Access::Public,
            handler: UserHandler::GetUser,
        }
    );
    let open: Vec<_> = routes
        .iter()
        .filter(|route| route.access == Access::Public)
        .map(|route| route.handler)
        .collect();
    assert_eq!(
        open,
        vec![UserHandler::CreateSession, UserHandler::GetUser]
    );
}
