use minty_core::auth::{Decoded, RawClaims, TokenKind};
use minty_core::conf::RepoConfig;
use minty_core::error::{Error, Failure};
use minty_core::model::{SessionInfo, SignUp, User};
use minty_core::protocol::{Call, Reply, Step};
use minty_core::repo::sign_up::SignUpState;
use minty_core::repo::Repo;

const FAR: u64 = 4_102_444_800;
const NOW: u64 = 1_700_000_000;
const INVITER: &str = "00000000000000000000000000000007";

fn repo(require_invitation: bool) -> Repo {
    Repo::new(&RepoConfig {
        jwt_secret: "secret".to_string(),
        require_account: false,
        require_invitation,
    })
}

fn info() -> SignUp {
    SignUp {
        username: "ada".to_string(),
        email: "ada@example.com".to_string(),
        password: "hunter2".to_string(),
    }
}

fn ada() -> User {
    User { id: 42, name: "ada".to_string(), email: "ada@example.com".to_string(), admin: false }
}

fn failure(message: &str, constraint: Option<&str>) -> Failure {
    Failure { message: message.to_string(), constraint: constraint.map(String::from) }
}

/// Drives a sign-up from the hashing of the password to the index call.
fn up_to_indexing(repo: &mut Repo, start: (SignUpState, Step<SessionInfo>)) -> SignUpState {
    let (state, step) = start;
    assert_eq!(step, Step::Call(Call::HashPassword { password: "hunter2".to_string() }));
    let (state, step) = state.resume(repo, Reply::Hash("hashed".to_string()));
    assert_eq!(step, Step::Call(Call::Begin));
    let (state, step) = state.resume(repo, Reply::Done);
    assert_eq!(
        step,
        Step::Call(Call::CreateUser {
            name: "ada".to_string(),
            email: "ada@example.com".to_string(),
            password: "hashed".to_string(),
        })
    );
    let (state, step) = state.resume(repo, Reply::Created(ada()));
    assert_eq!(step, Step::Call(Call::Commit));
    assert!(repo.cached_user(42).is_none());
    let (state, step) = state.resume(repo, Reply::Done);
    assert_eq!(step, Step::Call(Call::AddUserAlias { user: 42, name: "ada".to_string() }));
    assert_eq!(*repo.cached_user(42).unwrap(), ada());
    state
}

fn session_of(repo: &Repo) -> SessionInfo {
    SessionInfo {
        user_id: 42,
        token: repo.auth().issue(TokenKind::Session, 42, NOW + 2_592_000).unwrap(),
    }
}

#[test]
fn sign_up_without_a_required_invitation_is_refused() {
    let repo = repo(true);
    let (state, step) = repo.sign_up(info(), None, NOW);
    assert_eq!(state, SignUpState::Finished);
    assert_eq!(step, Step::Done(Err(Error::InvalidInput("invitation required".to_string()))));
}

#[test]
fn sign_up_goes_from_hash_to_session() {
    let mut repo = repo(false);
    let start = repo.sign_up(info(), None, NOW);
    let state = up_to_indexing(&mut repo, start);
    let (state, step) = state.resume(&mut repo, Reply::Done);
    assert_eq!(state, SignUpState::Finished);
    assert_eq!(step, Step::Done(Ok(session_of(&repo))));
}

#[test]
fn an_invitation_is_not_looked_at_where_none_is_required() {
    let repo = repo(false);
    let (_, step) = repo.sign_up(info(), Some("garbage"), NOW);
    assert_eq!(step, Step::Call(Call::HashPassword { password: "hunter2".to_string() }));
}

#[test]
fn a_failure_of_the_index_does_not_fail_the_sign_up() {
    let mut repo = repo(false);
    let start = repo.sign_up(info(), None, NOW);
    let state = up_to_indexing(&mut repo, start);
    let (_, step) = state.resume(&mut repo, Reply::Failed(failure("index is down", None)));
    assert_eq!(step, Step::Done(Ok(session_of(&repo))));
}

#[test]
fn an_email_in_use_is_reported_as_already_existing() {
    let mut repo = repo(false);
    let (state, _) = repo.sign_up(info(), None, NOW);
    let (state, _) = state.resume(&mut repo, Reply::Hash("hashed".to_string()));
    let (state, _) = state.resume(&mut repo, Reply::Done);
    let taken = failure("duplicate key", Some("user_account_email_key"));
    let (state, step) = state.resume(&mut repo, Reply::Failed(taken));
    assert_eq!(state, SignUpState::Finished);
    assert_eq!(
        step,
        Step::Done(Err(Error::AlreadyExists {
            entity: "user",
            identifier: "email address 'ada@example.com'".to_string(),
        }))
    );
    assert!(repo.cached_user(42).is_none());
}

#[test]
fn another_failure_of_the_database_is_passed_on() {
    for constraint in [None, Some("user_account_name_key")] {
        let mut repo = repo(false);
        let (state, _) = repo.sign_up(info(), None, NOW);
        let (state, _) = state.resume(&mut repo, Reply::Hash("hashed".to_string()));
        let (state, _) = state.resume(&mut repo, Reply::Done);
        let (_, step) = state.resume(&mut repo, Reply::Failed(failure("boom", constraint)));
        assert_eq!(step, Step::Done(Err(Error::Internal("boom".to_string()))));
    }
}

#[test]
fn a_failed_commit_leaves_the_cache_alone_and_the_index_untold() {
    let mut repo = repo(false);
    let (state, _) = repo.sign_up(info(), None, NOW);
    let (state, _) = state.resume(&mut repo, Reply::Hash("hashed".to_string()));
    let (state, _) = state.resume(&mut repo, Reply::Done);
    let (state, _) = state.resume(&mut repo, Reply::Created(ada()));
    let (state, step) = state.resume(&mut repo, Reply::Failed(failure("no commit", None)));
    assert_eq!(state, SignUpState::Finished);
    assert_eq!(step, Step::Done(Err(Error::Internal("no commit".to_string()))));
    assert!(repo.cached_user(42).is_none());
}

#[test]
fn a_reply_out_of_order_ends_the_sign_up() {
    let mut repo = repo(false);
    let (state, _) = repo.sign_up(info(), None, NOW);
    let (state, step) = state.resume(&mut repo, Reply::Done);
    assert_eq!(state, SignUpState::Finished);
    assert_eq!(step, Step::Done(Err(Error::OutOfOrder)));
    let (_, step) = state.resume(&mut repo, Reply::Done);
    assert_eq!(step, Step::Done(Err(Error::OutOfOrder)));
}

fn invitation(kind: &str) -> Decoded {
    Decoded::Claims(RawClaims {
        sub: Some(INVITER.to_string()),
        kind: Some(kind.to_string()),
        exp: Some(FAR),
    })
}

fn refused(step: Step<SessionInfo>) -> String {
    match step {
        Step::Done(Err(Error::InvalidInput(message))) => message,
        other => panic!("not refused: {other:?}"),
    }
}

#[test]
fn invitations_are_refused_in_distinct_words() {
    let repo = repo(true);
    let (_, step) = repo.sign_up_with(info(), Some(Decoded::Expired), NOW);
    assert_eq!(refused(step), "invitation expired");
    let (_, step) = repo.sign_up_with(info(), Some(Decoded::Rejected), NOW);
    assert_eq!(refused(step), "invitation invalid");
    let (_, step) = repo.sign_up_with(info(), Some(invitation("session")), NOW);
    assert_eq!(refused(step), "not an invitation token");
    let (_, step) = repo.sign_up_with(info(), None, NOW);
    assert_eq!(refused(step), "invitation required");
}

#[test]
fn a_valid_invitation_has_its_issuer_read() {
    let mut repo = repo(true);
    let (state, step) = repo.sign_up_with(info(), Some(invitation("invitation")), NOW);
    assert_eq!(step, Step::Call(Call::ReadUser { id: 7 }));
    let inviter =
        User { id: 7, name: "grace".to_string(), email: "g@example.com".to_string(), admin: true };
    let start = state.resume(&mut repo, Reply::User(Some(inviter.clone())));
    assert_eq!(*repo.cached_user(7).unwrap(), inviter);
    let state = up_to_indexing(&mut repo, start);
    let (_, step) = state.resume(&mut repo, Reply::Done);
    assert_eq!(step, Step::Done(Ok(session_of(&repo))));
}

#[test]
fn an_invitation_of_a_cached_issuer_needs_no_read() {
    let mut repo = repo(true);
    let inviter =
        User { id: 7, name: "grace".to_string(), email: "g@example.com".to_string(), admin: true };
    repo.remember(inviter);
    let (_, step) = repo.sign_up_with(info(), Some(invitation("invitation")), NOW);
    assert_eq!(step, Step::Call(Call::HashPassword { password: "hunter2".to_string() }));
}

#[test]
fn an_invitation_whose_issuer_is_gone_is_refused() {
    let mut repo = repo(true);
    let (state, _) = repo.sign_up_with(info(), Some(invitation("invitation")), NOW);
    let (_, step) = state.resume(&mut repo, Reply::User(None));
    assert_eq!(refused(step), "invitation invalid: creator of invitation not found");
}

#[test]
fn sign_up_with_real_tokens() {
    let mut repo = repo(true);
    let expired = repo.auth().issue(TokenKind::Invitation, 7, 1_000_000).unwrap();
    let (_, step) = repo.sign_up(info(), Some(&expired), NOW);
    assert_eq!(refused(step), "invitation expired");

    let (_, step) = repo.sign_up(info(), Some("garbage"), NOW);
    assert_eq!(refused(step), "invitation invalid");

    let session = repo.auth().issue(TokenKind::Session, 7, FAR).unwrap();
    let (_, step) = repo.sign_up(info(), Some(&session), NOW);
    assert_eq!(refused(step), "not an invitation token");

    let valid = repo.auth().issue(TokenKind::Invitation, 7, FAR).unwrap();
    let (state, step) = repo.sign_up(info(), Some(&valid), NOW);
    assert_eq!(step, Step::Call(Call::ReadUser { id: 7 }));
    let (_, step) = state.resume(&mut repo, Reply::Failed(failure("db is down", None)));
    assert_eq!(step, Step::Done(Err(Error::Internal("db is down".to_string()))));
}

#[test]
fn get_inviter_finds_the_issuer() {
    let mut repo = repo(true);
    let valid = repo.auth().issue(TokenKind::Invitation, 7, FAR).unwrap();
    let (state, step) = repo.get_inviter(&valid);
    assert_eq!(step, Step::Call(Call::ReadUser { id: 7 }));
    let inviter =
        User { id: 7, name: "grace".to_string(), email: "g@example.com".to_string(), admin: true };
    let (_, step) = state.resume(&mut repo, Reply::User(Some(inviter.clone())));
    let Step::Done(Ok(found)) = step else { panic!("not found") };
    assert_eq!(*found, inviter);

    let (_, step) = repo.get_inviter(&valid);
    let Step::Done(Ok(again)) = step else { panic!("not cached") };
    assert!(std::sync::Arc::ptr_eq(&found, &again));
}

#[test]
fn get_inviter_refuses_in_distinct_words() {
    let mut repo = repo(true);
    let expired = repo.auth().issue(TokenKind::Invitation, 7, 1_000_000).unwrap();
    let (_, step) = repo.get_inviter(&expired);
    assert_eq!(step, Step::Done(Err(Error::InvalidInput("invitation expired".to_string()))));
    let (_, step) = repo.get_inviter("garbage");
    assert_eq!(step, Step::Done(Err(Error::InvalidInput("invitation invalid".to_string()))));
    let session = repo.auth().issue(TokenKind::Session, 7, FAR).unwrap();
    let (_, step) = repo.get_inviter(&session);
    assert_eq!(step, Step::Done(Err(Error::InvalidInput("not an invitation token".to_string()))));
    let (state, _) = repo.inviter_of(&invitation("invitation"));
    let (_, step) = state.resume(&mut repo, Reply::User(None));
    assert_eq!(
        step,
        Step::Done(Err(Error::InvalidInput(
            "invitation invalid: creator of invitation not found".to_string()
        )))
    );
}
