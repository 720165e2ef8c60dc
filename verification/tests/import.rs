use minty_core::conf::RepoConfig;
use minty_core::error::{Error, Failure};
use minty_core::export::{Data, EntityProfile, Post, Profile, Source, Tag, User};
use minty_core::model::Object;
use minty_core::protocol::{Call, Reply, Step};
use minty_core::repo::import::Import;
use minty_core::repo::links::{attach_links, collect_links, Link, Links};
use minty_core::repo::objects::referenced_objects;
use minty_core::repo::Repo;

fn repo() -> Repo {
    Repo::new(&RepoConfig {
        jwt_secret: "secret".to_string(),
        require_account: false,
        require_invitation: false,
    })
}

fn post(id: u128, objects: &[u128]) -> Post {
    Post {
        id,
        poster: Some(900),
        title: format!("post {id}"),
        description: String::new(),
        draft: false,
        objects: objects.to_vec(),
        posts: vec![],
        tags: vec![],
    }
}

fn source(url: &str, icon: Option<u128>) -> Source {
    Source { url: url.to_string(), icon }
}

fn profile(name: &str, sources: Vec<Source>) -> EntityProfile {
    EntityProfile {
        name: name.to_string(),
        aliases: vec![],
        description: String::new(),
        sources,
    }
}

fn tag(id: u128, sources: Vec<Source>) -> Tag {
    Tag { id, profile: profile("tag", sources) }
}

fn user(id: u128, sources: Vec<Source>) -> User {
    User {
        id,
        profile: profile("user", sources),
        email: format!("{id}@example.com"),
        password: "hashed".to_string(),
        admin: false,
    }
}

fn object(id: u128) -> Object {
    Object {
        id,
        kind: "image".to_string(),
        subtype: "png".to_string(),
        size: 10,
        preview_id: None,
    }
}

#[test]
fn referenced_objects_are_sorted_and_deduplicated() {
    let posts = vec![post(1, &[30, 10, 20]), post(2, &[]), post(3, &[20, 5, 30, 30])];
    assert_eq!(referenced_objects(&posts), vec![5, 10, 20, 30]);
}

#[test]
fn referenced_objects_of_nothing_are_none() {
    assert_eq!(referenced_objects(&vec![]), Vec::<u128>::new());
    assert_eq!(referenced_objects(&vec![post(1, &[])]), Vec::<u128>::new());
}

#[test]
fn referenced_objects_keep_the_extremes() {
    let posts = vec![post(1, &[u128::MAX, 0, u128::MAX, 0])];
    assert_eq!(referenced_objects(&posts), vec![0, u128::MAX]);
}

#[test]
fn profiles_give_their_identity_and_sources() {
    let t = tag(3, vec![source("https://a.example/x", None)]);
    assert_eq!(t.id(), 3);
    assert_eq!(t.profile().sources, vec![source("https://a.example/x", None)]);
    let u = user(4, vec![]);
    assert_eq!(u.id(), 4);
    assert!(u.profile().sources.is_empty());
}

#[test]
fn links_are_collected_entity_by_entity() {
    let tags = vec![
        tag(1, vec![source("https://a.example/1", None), source("https://b.example/2", Some(7))]),
        tag(2, vec![]),
        tag(3, vec![source("https://c.example/3", None)]),
    ];
    let mut links = vec![Link { entity: 0, source: source("https://z.example/", None) }];
    collect_links(&tags, &mut links);
    assert_eq!(
        links,
        vec![
            Link { entity: 0, source: source("https://z.example/", None) },
            Link { entity: 1, source: source("https://a.example/1", None) },
            Link { entity: 1, source: source("https://b.example/2", Some(7)) },
            Link { entity: 3, source: source("https://c.example/3", None) },
        ]
    );
}

#[test]
fn no_links_end_the_work_at_once() {
    assert_eq!(attach_links(vec![]), (Links::Finished, Step::Done(Ok(()))));
    let (state, step) = repo().import_profile(&vec![tag(1, vec![]), tag(2, vec![])]);
    assert_eq!((state, step), (Links::Finished, Step::Done(Ok(()))));
}

#[test]
fn an_address_is_taken_apart_into_site_and_resource() {
    let link = Link { entity: 9, source: source("https://Example.COM:8443/a/b?q=1#top", Some(4)) };
    let (state, step) = attach_links(vec![link]);
    assert_eq!(
        step,
        Step::Call(Call::ReadSite { scheme: "https".to_string(), host: "example.com".to_string() })
    );
    assert_eq!(
        state,
        Links::Site {
            entity: 9,
            icon: Some(4),
            scheme: "https".to_string(),
            host: "example.com".to_string(),
            resource: "/a/b?q=1#top".to_string(),
            rest: vec![],
        }
    );
}

#[test]
fn a_known_site_is_used_and_an_unknown_one_created() {
    let links = vec![
        Link { entity: 9, source: source("https://example.com/a", Some(4)) },
        Link { entity: 8, source: source("http://other.example/b", None) },
    ];
    let (state, _) = attach_links(links);
    let (state, step) = state.resume(Reply::Site(Some(11)));
    assert_eq!(step, Step::Call(Call::CreateSource { site: 11, resource: "/a".to_string() }));
    let (state, step) = state.resume(Reply::Row(21));
    assert_eq!(step, Step::Call(Call::CreateEntityLink { entity: 9, source: 21 }));
    let (state, step) = state.resume(Reply::Done);
    assert_eq!(
        step,
        Step::Call(Call::ReadSite {
            scheme: "http".to_string(),
            host: "other.example".to_string(),
        })
    );
    let (state, step) = state.resume(Reply::Site(None));
    assert_eq!(
        step,
        Step::Call(Call::CreateSite {
            scheme: "http".to_string(),
            host: "other.example".to_string(),
            icon: None,
        })
    );
    let (state, step) = state.resume(Reply::Row(12));
    assert_eq!(step, Step::Call(Call::CreateSource { site: 12, resource: "/b".to_string() }));
    let (state, step) = state.resume(Reply::Row(22));
    assert_eq!(step, Step::Call(Call::CreateEntityLink { entity: 8, source: 22 }));
    let (state, step) = state.resume(Reply::Done);
    assert_eq!((state, step), (Links::Finished, Step::Done(Ok(()))));
}

#[test]
fn a_source_that_is_no_url_ends_the_work() {
    let (state, step) = attach_links(vec![Link { entity: 1, source: source("not a url", None) }]);
    assert_eq!(state, Links::Finished);
    assert_eq!(step, Step::Done(Err(Error::InvalidInput("source is not a URL".to_string()))));
}

#[test]
fn a_source_without_a_host_ends_the_work() {
    let (state, step) =
        attach_links(vec![Link { entity: 1, source: source("mailto:ada@example.com", None) }]);
    assert_eq!(state, Links::Finished);
    assert_eq!(step, Step::Done(Err(Error::InvalidInput("source has no host".to_string()))));
}

#[test]
fn a_failure_while_linking_is_passed_on() {
    let (state, _) =
        attach_links(vec![Link { entity: 1, source: source("https://example.com/", None) }]);
    let down = Reply::Failed(Failure { message: "down".to_string(), constraint: None });
    let (state, step) = state.resume(down);
    assert_eq!(state, Links::Finished);
    assert_eq!(step, Step::Done(Err(Error::Internal("down".to_string()))));
    assert_eq!(state.resume(Reply::Done).1, Step::Done(Err(Error::OutOfOrder)));
}

fn data() -> Data {
    Data {
        posts: vec![post(1, &[30, 10]), post(2, &[10, 20])],
        tags: vec![tag(100, vec![source("https://tags.example/t", None)])],
        users: vec![user(200, vec![source("https://users.example/u", Some(30))])],
    }
}

#[test]
fn import_resolves_objects_before_rows_and_rows_before_links() {
    let repo = repo();
    let (state, step) = repo.import(data());
    assert_eq!(state, Import::Describing { data: data() });
    assert_eq!(step, Step::Call(Call::GetObjects { ids: vec![10, 20, 30] }));

    let (state, step) = state.resume(Reply::Objects(vec![object(10), object(20), object(30)]));
    assert_eq!(step, Step::Call(Call::CreateObject { object: object(10) }));
    let (state, step) = state.resume(Reply::Done);
    assert_eq!(step, Step::Call(Call::CreateObject { object: object(20) }));
    let (state, step) = state.resume(Reply::Done);
    assert_eq!(step, Step::Call(Call::CreateObject { object: object(30) }));
    let (state, step) = state.resume(Reply::Done);
    assert_eq!(step, Step::Call(Call::Import { data: data() }));

    let (state, step) = state.resume(Reply::Done);
    assert_eq!(
        step,
        Step::Call(Call::ReadSite {
            scheme: "https".to_string(),
            host: "tags.example".to_string(),
        })
    );
    let (state, _) = state.resume(Reply::Site(Some(1)));
    let (state, step) = state.resume(Reply::Row(5));
    assert_eq!(step, Step::Call(Call::CreateEntityLink { entity: 100, source: 5 }));
    let (state, step) = state.resume(Reply::Done);
    assert_eq!(
        step,
        Step::Call(Call::ReadSite {
            scheme: "https".to_string(),
            host: "users.example".to_string(),
        })
    );
    let (state, step) = state.resume(Reply::Site(None));
    assert_eq!(
        step,
        Step::Call(Call::CreateSite {
            scheme: "https".to_string(),
            host: "users.example".to_string(),
            icon: Some(30),
        })
    );
    let (state, _) = state.resume(Reply::Row(2));
    let (state, step) = state.resume(Reply::Row(6));
    assert_eq!(step, Step::Call(Call::CreateEntityLink { entity: 200, source: 6 }));
    let (state, step) = state.resume(Reply::Done);
    assert_eq!(step, Step::Done(Ok(())));
    assert_eq!(state, Import::Linking { links: Links::Finished });
    assert_eq!(state.resume(Reply::Done).1, Step::Done(Err(Error::OutOfOrder)));
}

#[test]
fn import_of_nothing_inserts_nothing_and_ends() {
    let repo = repo();
    let empty = || Data { posts: vec![], tags: vec![], users: vec![] };
    let (state, step) = repo.import(empty());
    assert_eq!(step, Step::Call(Call::GetObjects { ids: vec![] }));
    let (state, step) = state.resume(Reply::Objects(vec![]));
    assert_eq!(step, Step::Call(Call::Import { data: empty() }));
    let (_, step) = state.resume(Reply::Done);
    assert_eq!(step, Step::Done(Ok(())));
}

#[test]
fn import_stops_before_the_rows_if_an_object_is_missing() {
    let repo = repo();
    let (state, _) = repo.import(data());
    let missing = Reply::Failed(Failure { message: "no such object".to_string(), constraint: None });
    let (state, step) = state.resume(missing);
    assert_eq!(state, Import::Finished);
    assert_eq!(step, Step::Done(Err(Error::Internal("no such object".to_string()))));
}

#[test]
fn export_then_import_hands_the_same_graph_on() {
    let repo = repo();
    assert_eq!(repo.export(), Call::Export);
    let exported = repo.export_of(Reply::Data(data())).unwrap();
    assert_eq!(exported, data());

    let target = Repo::new(&RepoConfig {
        jwt_secret: "another".to_string(),
        require_account: true,
        require_invitation: true,
    });
    let (mut state, mut step) = target.import(exported);
    let mut inserted = None;
    let mut fetched = vec![];
    let mut recorded = vec![];
    let mut attached = vec![];
    let mut rows = 0;
    loop {
        let call = match step {
            Step::Done(result) => {
                assert_eq!(result, Ok(()));
                break;
            }
            Step::Call(call) => call,
        };
        let reply = match call {
            Call::GetObjects { ids } => {
                fetched = ids.clone();
                Reply::Objects(ids.into_iter().map(object).collect())
            }
            Call::CreateObject { object } => {
                assert!(inserted.is_none());
                recorded.push(object.id);
                Reply::Done
            }
            Call::Import { data } => {
                inserted = Some(data);
                Reply::Done
            }
            Call::ReadSite { .. } => {
                assert!(inserted.is_some());
                Reply::Site(None)
            }
            Call::CreateSite { .. } | Call::CreateSource { .. } => {
                rows += 1;
                Reply::Row(rows)
            }
            Call::CreateEntityLink { entity, source } => {
                attached.push((entity, source));
                Reply::Done
            }
            other => panic!("unexpected call {other:?}"),
        };
        let next = state.resume(reply);
        state = next.0;
        step = next.1;
    }
    assert_eq!(inserted, Some(data()));
    assert_eq!(fetched, vec![10, 20, 30]);
    assert_eq!(recorded, vec![10, 20, 30]);
    assert_eq!(attached, vec![(100, 2), (200, 4)]);
}

#[test]
fn export_passes_a_failure_on() {
    let repo = repo();
    let down = Reply::Failed(Failure { message: "down".to_string(), constraint: None });
    assert_eq!(repo.export_of(down), Err(Error::Internal("down".to_string())));
    assert_eq!(repo.export_of(Reply::Done), Err(Error::OutOfOrder));
}
