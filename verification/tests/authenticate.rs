use minty_core::auth::TokenKind;
use minty_core::conf::RepoConfig;
use minty_core::error::{Error, Failure};
use minty_core::model::{Login, Password, SessionInfo, User};
use minty_core::protocol::{Call, Reply, Step};
use minty_core::repo::authenticate::Authenticate;
use minty_core::repo::Repo;

const NOW: u64 = 1_700_000_000;

fn repo() -> Repo {
    Repo::new(&RepoConfig {
        jwt_secret: "secret".to_string(),
        require_account: false,
        require_invitation: false,
    })
}

fn login() -> Login {
    Login { email: "ada@example.com".to_string(), password: "hunter2".to_string() }
}

fn ada() -> User {
    User { id: 42, name: "ada".to_string(), email: "ada@example.com".to_string(), admin: false }
}

fn row() -> Reply {
    Reply::Password(Some(Password { user_id: 42, password: "hashed".to_string() }))
}

fn session(repo: &Repo) -> SessionInfo {
    SessionInfo {
        user_id: 42,
        token: repo.auth().issue(TokenKind::Session, 42, NOW + 2_592_000).unwrap(),
    }
}

#[test]
fn sign_in_begins_with_the_stored_hash() {
    let repo = repo();
    let (state, step) = repo.authenticate(&login(), NOW);
    assert_eq!(state, Authenticate::Password { password: "hunter2".to_string(), now: NOW });
    assert_eq!(step, Step::Call(Call::ReadUserPassword { email: "ada@example.com".to_string() }));
}

#[test]
fn a_wrong_password_and_an_unknown_email_are_refused_alike() {
    let mut repo = repo();
    let (state, _) = repo.authenticate(&login(), NOW);
    let (state, step) = state.resume(&mut repo, row());
    assert_eq!(
        step,
        Step::Call(Call::VerifyPassword {
            password: "hunter2".to_string(),
            hash: "hashed".to_string(),
        })
    );
    let (_, wrong) = state.resume(&mut repo, Reply::Verified(false));
    assert_eq!(wrong, Step::Done(Err(Error::Unauthenticated(Some("invalid credentials")))));

    let (state, _) = repo.authenticate(&login(), NOW);
    let (_, unknown) = state.resume(&mut repo, Reply::Password(None));
    assert_eq!(unknown, Step::Done(Err(Error::Unauthenticated(Some("invalid credentials")))));
    assert_eq!(wrong, unknown);
}

#[test]
fn a_right_password_opens_a_session() {
    let mut repo = repo();
    let (state, _) = repo.authenticate(&login(), NOW);
    let (state, _) = state.resume(&mut repo, row());
    let (state, step) = state.resume(&mut repo, Reply::Verified(true));
    assert_eq!(step, Step::Call(Call::ReadUser { id: 42 }));
    let (state, step) = state.resume(&mut repo, Reply::User(Some(ada())));
    assert_eq!(state, Authenticate::Finished);
    assert_eq!(step, Step::Done(Ok(session(&repo))));
    assert_eq!(*repo.cached_user(42).unwrap(), ada());
}

#[test]
fn a_cached_user_is_not_read_again() {
    let mut repo = repo();
    repo.remember(ada());
    let (state, _) = repo.authenticate(&login(), NOW);
    let (state, _) = state.resume(&mut repo, row());
    let (state, step) = state.resume(&mut repo, Reply::Verified(true));
    assert_eq!(state, Authenticate::Finished);
    assert_eq!(step, Step::Done(Ok(session(&repo))));
}

#[test]
fn a_user_without_a_row_is_not_found() {
    let mut repo = repo();
    let (state, _) = repo.authenticate(&login(), NOW);
    let (state, _) = state.resume(&mut repo, row());
    let (state, _) = state.resume(&mut repo, Reply::Verified(true));
    let (_, step) = state.resume(&mut repo, Reply::User(None));
    assert_eq!(step, Step::Done(Err(Error::NotFound { entity: "user", id: 42 })));
}

#[test]
fn a_failure_is_passed_on_at_every_point() {
    let down = || Reply::Failed(Failure { message: "down".to_string(), constraint: None });
    let error = || Step::Done(Err(Error::Internal("down".to_string())));

    let mut repo = repo();
    let (state, _) = repo.authenticate(&login(), NOW);
    assert_eq!(state.resume(&mut repo, down()).1, error());

    let (state, _) = repo.authenticate(&login(), NOW);
    let (state, _) = state.resume(&mut repo, row());
    assert_eq!(state.resume(&mut repo, down()).1, error());

    let (state, _) = repo.authenticate(&login(), NOW);
    let (state, _) = state.resume(&mut repo, row());
    let (state, _) = state.resume(&mut repo, Reply::Verified(true));
    assert_eq!(state.resume(&mut repo, down()).1, error());
}

#[test]
fn a_reply_out_of_order_ends_the_sign_in() {
    let mut repo = repo();
    let (state, _) = repo.authenticate(&login(), NOW);
    let (state, step) = state.resume(&mut repo, Reply::Verified(true));
    assert_eq!(state, Authenticate::Finished);
    assert_eq!(step, Step::Done(Err(Error::OutOfOrder)));
    assert_eq!(state.resume(&mut repo, row()).1, Step::Done(Err(Error::OutOfOrder)));
}
