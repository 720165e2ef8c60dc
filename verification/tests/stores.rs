use minty_core::conf::RepoConfig;
use minty_core::error::{Error, Failure};
use minty_core::model::{Object, PostParts, RemoveResult, User};
use minty_core::protocol::{Call, Reply, Step};
use minty_core::repo::post::{CreatePost, DeleteObjects};
use minty_core::repo::prune::Prune;
use minty_core::repo::with_user::WithUser;
use minty_core::repo::Repo;
use std::collections::{BTreeMap, BTreeSet};
use std::sync::Arc;

/// An object store and a database in memory.
struct Stores {
    objects: BTreeMap<u128, Vec<u8>>,
    posts: BTreeMap<u128, Vec<u128>>,
    pending: Option<BTreeMap<u128, Vec<u128>>>,
    next: u128,
    calls: Vec<String>,
    fail_on: Option<&'static str>,
}

impl Stores {
    fn new() -> Stores {
        Stores {
            objects: BTreeMap::new(),
            posts: BTreeMap::new(),
            pending: None,
            next: 1,
            calls: vec![],
            fail_on: None,
        }
    }

    fn current(&mut self) -> &mut BTreeMap<u128, Vec<u128>> {
        self.pending.as_mut().unwrap_or(&mut self.posts)
    }

    fn referenced(&mut self) -> BTreeSet<u128> {
        self.current().values().flatten().copied().collect()
    }

    fn sound(&self) -> bool {
        self.posts.values().flatten().all(|object| self.objects.contains_key(object))
    }

    fn perform(&mut self, call: Call) -> Reply {
        let name = format!("{call:?}");
        let name = name.split([' ', '{']).next().unwrap().to_string();
        self.calls.push(name.clone());
        if self.fail_on == Some(name.as_str()) {
            if name == "Commit" {
                self.pending = None;
            }
            return Reply::Failed(Failure { message: format!("{name} failed"), constraint: None });
        }
        match call {
            Call::Begin => {
                self.pending = Some(self.posts.clone());
                Reply::Done
            }
            Call::Commit => {
                self.posts = self.pending.take().unwrap();
                Reply::Done
            }
            Call::AddObject { bytes } => {
                let id = self.next;
                self.next += 1;
                let size = bytes.len() as u64;
                self.objects.insert(id, bytes);
                Reply::Object(Object {
                    id,
                    kind: "image".to_string(),
                    subtype: "png".to_string(),
                    size,
                    preview_id: None,
                })
            }
            Call::CreatePost { objects, .. } => {
                let id = 1000 + self.next;
                self.next += 1;
                self.current().insert(id, objects);
                Reply::Id(id)
            }
            Call::DeletePostObjects { post, objects } => {
                self.current().get_mut(&post).unwrap().retain(|o| !objects.contains(o));
                Reply::Done
            }
            Call::PruneRows => Reply::Done,
            Call::PruneObjects => {
                let referenced = self.referenced();
                Reply::Ids(
                    self.objects.keys().copied().filter(|o| !referenced.contains(o)).collect(),
                )
            }
            Call::RemoveObjects { ids } => {
                let mut result = RemoveResult { objects_removed: 0, space_freed: 0 };
                for id in ids {
                    if let Some(bytes) = self.objects.remove(&id) {
                        result.objects_removed += 1;
                        result.space_freed += bytes.len() as u64;
                    }
                }
                Reply::Removed(result)
            }
            other => panic!("unexpected call {other:?}"),
        }
    }

    fn create(&mut self, start: (CreatePost, Step<u128>)) -> Result<u128, Error> {
        let (mut state, mut step) = start;
        loop {
            let call = match step {
                Step::Done(result) => {
                    self.pending = None;
                    return result;
                }
                Step::Call(call) => call,
            };
            let committing = call == Call::Commit;
            let reply = self.perform(call);
            if committing {
                assert!(self.sound());
            }
            let next = state.resume(reply);
            state = next.0;
            step = next.1;
        }
    }

    fn detach(&mut self, start: (DeleteObjects, Step<()>)) -> Result<(), Error> {
        let (mut state, mut step) = start;
        loop {
            let call = match step {
                Step::Done(result) => {
                    self.pending = None;
                    return result;
                }
                Step::Call(call) => call,
            };
            let reply = self.perform(call);
            let next = state.resume(reply);
            state = next.0;
            step = next.1;
        }
    }

    fn prune(&mut self, start: (Prune, Step<RemoveResult>)) -> Result<RemoveResult, Error> {
        let (mut state, mut step) = start;
        loop {
            let call = match step {
                Step::Done(result) => {
                    self.pending = None;
                    return result;
                }
                Step::Call(call) => call,
            };
            let reply = self.perform(call);
            assert!(self.sound());
            let next = state.resume(reply);
            state = next.0;
            step = next.1;
        }
    }
}

fn repo() -> Repo {
    Repo::new(&RepoConfig {
        jwt_secret: "secret".to_string(),
        require_account: false,
        require_invitation: false,
    })
}

fn holder(repo: &Repo) -> WithUser {
    repo.with_user(Arc::new(User {
        id: 1,
        name: "ada".to_string(),
        email: "ada@example.com".to_string(),
        admin: false,
    }))
}

fn parts() -> PostParts {
    PostParts {
        title: "title".to_string(),
        description: "description".to_string(),
        draft: false,
        posts: vec![],
        tags: vec![],
    }
}

#[test]
fn a_post_is_created_after_its_objects_are_stored() {
    let repo = repo();
    let mut stores = Stores::new();
    let start = holder(&repo).create_post(parts(), vec![], vec![vec![1, 2, 3], vec![4]]);
    let post = stores.create(start).unwrap();
    assert_eq!(
        stores.calls,
        vec!["AddObject", "AddObject", "Begin", "CreatePost", "Commit"]
    );
    assert_eq!(stores.posts[&post], vec![1, 2]);
    assert!(stores.objects.contains_key(&1) && stores.objects.contains_key(&2));
}

#[test]
fn new_objects_are_attached_after_those_that_exist() {
    let repo = repo();
    let mut stores = Stores::new();
    stores.objects.insert(50, vec![0]);
    stores.next = 60;
    let with_user = holder(&repo);
    let (state, step) = with_user.create_post(parts(), vec![50], vec![vec![9]]);
    assert_eq!(step, Step::Call(Call::AddObject { bytes: vec![9] }));
    let (state, step) = state.resume(stores.perform(Call::AddObject { bytes: vec![9] }));
    assert_eq!(step, Step::Call(Call::Begin));
    let (state, step) = state.resume(Reply::Done);
    assert_eq!(state, CreatePost::Creating);
    assert_eq!(step, Step::Call(Call::CreatePost { parts: parts(), objects: vec![50, 60] }));
    let (state, step) = state.resume(Reply::Id(77));
    assert_eq!(step, Step::Call(Call::Commit));
    let (state, step) = state.resume(Reply::Done);
    assert_eq!((state, step), (CreatePost::Finished, Step::Done(Ok(77))));
}

#[test]
fn a_post_without_uploads_opens_the_transaction_at_once() {
    let repo = repo();
    let (_, step) = holder(&repo).create_post(parts(), vec![5], vec![]);
    assert_eq!(step, Step::Call(Call::Begin));
}

#[test]
fn a_failed_upload_creates_no_post() {
    let repo = repo();
    let mut stores = Stores::new();
    stores.fail_on = Some("AddObject");
    let start = holder(&repo).create_post(parts(), vec![], vec![vec![1]]);
    assert_eq!(stores.create(start), Err(Error::Internal("AddObject failed".to_string())));
    assert_eq!(stores.calls, vec!["AddObject"]);
    assert!(stores.posts.is_empty());
}

#[test]
fn a_failed_commit_leaves_orphans_that_prune_reclaims() {
    let repo = repo();
    let mut stores = Stores::new();
    stores.fail_on = Some("Commit");
    let start = holder(&repo).create_post(parts(), vec![], vec![vec![1], vec![2, 3]]);
    assert_eq!(stores.create(start), Err(Error::Internal("Commit failed".to_string())));
    assert!(stores.posts.is_empty());
    assert_eq!(stores.objects.len(), 2);
    assert!(stores.sound());

    stores.fail_on = None;
    let removed = stores.prune(repo.prune()).unwrap();
    assert_eq!(removed, RemoveResult { objects_removed: 2, space_freed: 3 });
    assert!(stores.objects.is_empty());
}

#[test]
fn prune_calls_the_database_first_and_the_store_last() {
    let repo = repo();
    let mut stores = Stores::new();
    stores.prune(repo.prune()).unwrap();
    assert_eq!(
        stores.calls,
        vec!["PruneRows", "Begin", "PruneObjects", "Commit", "RemoveObjects"]
    );
}

#[test]
fn prune_steps_are_exact() {
    let repo = repo();
    let (state, step) = repo.prune();
    assert_eq!((&state, &step), (&Prune::Rows, &Step::Call(Call::PruneRows)));
    let (state, step) = state.resume(Reply::Done);
    assert_eq!((&state, &step), (&Prune::Opening, &Step::Call(Call::Begin)));
    let (state, step) = state.resume(Reply::Done);
    assert_eq!((&state, &step), (&Prune::Identifying, &Step::Call(Call::PruneObjects)));
    let (state, step) = state.resume(Reply::Ids(vec![3, 1]));
    assert_eq!((&state, &step), (&Prune::Committing { ids: vec![3, 1] }, &Step::Call(Call::Commit)));
    let (state, step) = state.resume(Reply::Done);
    assert_eq!(
        (&state, &step),
        (&Prune::Removing, &Step::Call(Call::RemoveObjects { ids: vec![3, 1] }))
    );
    let result = RemoveResult { objects_removed: 2, space_freed: 99 };
    let (state, step) = state.resume(Reply::Removed(result));
    assert_eq!((state, step), (Prune::Finished, Step::Done(Ok(result))));
}

#[test]
fn prune_removes_nothing_if_the_commit_fails() {
    let repo = repo();
    let mut stores = Stores::new();
    stores.objects.insert(5, vec![1]);
    stores.fail_on = Some("Commit");
    assert_eq!(stores.prune(repo.prune()), Err(Error::Internal("Commit failed".to_string())));
    assert_eq!(stores.calls, vec!["PruneRows", "Begin", "PruneObjects", "Commit"]);
    assert!(stores.objects.contains_key(&5));
}

#[test]
fn a_failed_removal_leaves_the_database_sound() {
    let repo = repo();
    let mut stores = Stores::new();
    stores.objects.insert(5, vec![1]);
    stores.fail_on = Some("RemoveObjects");
    assert_eq!(
        stores.prune(repo.prune()),
        Err(Error::Internal("RemoveObjects failed".to_string()))
    );
    assert!(stores.sound());
    stores.fail_on = None;
    assert_eq!(stores.prune(repo.prune()).unwrap().objects_removed, 1);
    assert!(stores.objects.is_empty());
}

#[test]
fn prune_keeps_what_a_post_refers_to() {
    let repo = repo();
    let mut stores = Stores::new();
    let with_user = holder(&repo);
    let post = stores.create(with_user.create_post(parts(), vec![], vec![vec![1], vec![2]])).unwrap();
    stores.objects.insert(500, vec![7, 7]);
    let removed = stores.prune(repo.prune()).unwrap();
    assert_eq!(removed, RemoveResult { objects_removed: 1, space_freed: 2 });
    assert_eq!(stores.posts[&post], vec![1, 2]);
    assert_eq!(stores.objects.keys().copied().collect::<Vec<_>>(), vec![1, 2]);
}

#[test]
fn a_detached_object_stays_until_nothing_refers_to_it() {
    let repo = repo();
    let mut stores = Stores::new();
    let with_user = holder(&repo);
    let first = stores.create(with_user.create_post(parts(), vec![], vec![vec![1], vec![2]])).unwrap();
    let second = stores.create(with_user.create_post(parts(), vec![2], vec![])).unwrap();
    assert_eq!(stores.posts[&first], vec![1, 2]);
    assert_eq!(stores.posts[&second], vec![2]);

    stores.calls.clear();
    stores.detach(with_user.delete_objects(first, vec![2])).unwrap();
    assert_eq!(stores.calls, vec!["Begin", "DeletePostObjects", "Commit"]);
    assert_eq!(stores.posts[&first], vec![1]);
    assert!(stores.objects.contains_key(&1));
    assert!(stores.objects.contains_key(&2));

    assert_eq!(stores.prune(repo.prune()).unwrap().objects_removed, 0);
    assert!(stores.objects.contains_key(&2));

    stores.detach(with_user.delete_objects(second, vec![2])).unwrap();
    assert!(stores.objects.contains_key(&2));
    assert_eq!(stores.prune(repo.prune()).unwrap().objects_removed, 1);
    assert!(!stores.objects.contains_key(&2));
    assert!(stores.objects.contains_key(&1));
}

#[test]
fn detaching_steps_are_exact() {
    let repo = repo();
    let (state, step) = holder(&repo).delete_objects(9, vec![4, 5]);
    assert_eq!(state, DeleteObjects::Opening { post: 9, objects: vec![4, 5] });
    assert_eq!(step, Step::Call(Call::Begin));
    let (state, step) = state.resume(Reply::Done);
    assert_eq!(state, DeleteObjects::Detaching);
    assert_eq!(step, Step::Call(Call::DeletePostObjects { post: 9, objects: vec![4, 5] }));
    let (state, step) = state.resume(Reply::Done);
    assert_eq!((&state, &step), (&DeleteObjects::Committing, &Step::Call(Call::Commit)));
    let (state, step) = state.resume(Reply::Done);
    assert_eq!((&state, &step), (&DeleteObjects::Finished, &Step::Done(Ok(()))));
    assert_eq!(state.resume(Reply::Done).1, Step::Done(Err(Error::OutOfOrder)));
}
