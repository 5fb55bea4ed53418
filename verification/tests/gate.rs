use argon2::password_hash::{PasswordHasher, SaltString};
use argon2::{Algorithm, Argon2, Params, Version};
use lairbnb_rs::authentication::{
    validate_credentials, AuthError, Credentials, Denial, Fault, Identity, StoredCredential, UserId,
};
use lairbnb_rs::create_cookie::create_cookie;
use lairbnb_rs::gate::{
    owns, AuthorizationGate, GateAction, GateError, GateEvent, GateState, Pending, Scheme, Scope,
};
use lairbnb_rs::routes::lair_insertion::ErrorResponse;

const ALICE: UserId = UserId(1);
const BOB: UserId = UserId(2);

fn hash_of(password: &str) -> String {
    let salt = SaltString::from_b64("c29tZXNhbHRzb21lc2FsdA").unwrap();
    let params = Params::new(64, 1, 1, None).unwrap();
    Argon2::new(Algorithm::Argon2id, Version::V0x13, params)
        .hash_password(password.as_bytes(), &salt)
        .unwrap()
        .to_string()
}

fn stored(identity: UserId, password: &str) -> StoredCredential {
    StoredCredential { identity, password_hash: hash_of(password) }
}

/// The identity of an account, by way of a verification that succeeds.
fn verified(account: UserId) -> Identity {
    let candidate = Credentials { username: "someone".to_string(), password: "secret{".to_string() };
    validate_credentials(&candidate, Some(&stored(account, "secret{"))).unwrap()
}

/// A small repository: usernames with what is stored for them, and
/// resources with their owners.
struct Repository {
    users: Vec<(String, StoredCredential)>,
    rooms: Vec<(u32, UserId)>,
}

impl Repository {
    fn new() -> Repository {
        Repository {
            users: vec![
                ("alice".to_string(), stored(ALICE, "correct-horse{")),
                ("bob".to_string(), stored(BOB, "secret{")),
            ],
            rooms: vec![(10, ALICE), (20, BOB)],
        }
    }

    fn lookup(&self, username: &str) -> Option<StoredCredential> {
        self.users.iter().find(|(name, _)| name == username).map(|(_, stored)| stored.clone())
    }

    fn owner(&self, room: u32) -> Option<UserId> {
        self.rooms.iter().find(|(id, _)| *id == room).map(|(_, owner)| *owner)
    }
}

/// Drives a request through the authorization gate as a handler does, and
/// deletes the room where the request is let through.
fn delete_room(
    repository: &mut Repository,
    scheme: Scheme,
    header: Option<&[u8]>,
    room: u32,
) -> Result<Identity, GateError> {
    let mut gate = AuthorizationGate::new(scheme, Scope::Resource);
    let mut event = GateEvent::Request;
    loop {
        let (next, action) = gate.step(event);
        gate = next;
        event = match action {
            GateAction::ReadHeader => GateEvent::Header(header.map(|value| value.to_vec())),
            GateAction::FetchStored(username) => GateEvent::Stored(repository.lookup(&username)),
            GateAction::Verify(candidate, stored) => {
                GateEvent::Verified(validate_credentials(&candidate, stored.as_ref()))
            }
            GateAction::FetchOwner => GateEvent::Owner(repository.owner(room)),
            GateAction::Proceed(identity) => {
                assert!(matches!(gate.current(), GateState::Authorized(_)));
                repository.rooms.retain(|(id, _)| *id != room);
                return Ok(identity);
            }
            GateAction::Reject(error) => {
                assert!(matches!(gate.current(), GateState::Rejected(_)));
                return Err(error);
            }
            GateAction::ReadForm => panic!("a request with a header was asked for a form"),
            GateAction::Ignore => panic!("the request had ended"),
        };
    }
}

#[test]
fn the_owner_deletes_the_resource() {
    let mut repository = Repository::new();
    let header = format!("Bearer {}", create_cookie("alice", "correct-horse{"));
    let identity = delete_room(&mut repository, Scheme::Token, Some(header.as_bytes()), 10);
    assert_eq!(identity.map(|identity| identity.account()), Ok(ALICE));
    assert_eq!(repository.rooms, vec![(20, BOB)]);
}

#[test]
fn another_account_does_not_delete_the_resource() {
    let mut repository = Repository::new();
    let header = format!("Bearer {}", create_cookie("bob", "secret{"));
    let outcome = delete_room(&mut repository, Scheme::Token, Some(header.as_bytes()), 10);
    assert_eq!(outcome.err(), Some(GateError::NotOwner));
    assert_eq!(repository.rooms, vec![(10, ALICE), (20, BOB)]);
}

#[test]
fn a_resource_that_does_not_exist_is_answered_as_one_of_another_account() {
    let mut repository = Repository::new();
    let header = format!("Bearer {}", create_cookie("bob", "secret{"));
    let outcome = delete_room(&mut repository, Scheme::Token, Some(header.as_bytes()), 99);
    assert_eq!(outcome.err(), Some(GateError::NotOwner));
    assert_eq!(repository.rooms, vec![(10, ALICE), (20, BOB)]);
}

#[test]
fn a_wrong_password_does_not_delete_the_resource() {
    let mut repository = Repository::new();
    let denied = GateError::Auth(AuthError::InvalidCredentials(Denial::WrongCredentials));
    let header = format!("Bearer {}", create_cookie("alice", "wrong{"));
    let outcome = delete_room(&mut repository, Scheme::Token, Some(header.as_bytes()), 10);
    assert_eq!(outcome.err(), Some(denied));
    let header = format!("Bearer {}", create_cookie("mallory", "correct-horse{"));
    let outcome = delete_room(&mut repository, Scheme::Token, Some(header.as_bytes()), 10);
    assert_eq!(outcome.err(), Some(denied));
    assert_eq!(repository.rooms, vec![(10, ALICE), (20, BOB)]);
}

#[test]
fn basic_credentials_open_the_way_too() {
    let mut repository = Repository::new();
    // base64 of `bob:secret{`
    let identity = delete_room(&mut repository, Scheme::Basic, Some(b"Basic Ym9iOnNlY3JldHs="), 20);
    assert_eq!(identity.map(|identity| identity.account()), Ok(BOB));
    assert_eq!(repository.rooms, vec![(10, ALICE)]);
}

#[test]
fn a_header_of_the_other_scheme_is_rejected() {
    let mut repository = Repository::new();
    // Read as a token, `bob:secret{` unmasks to text without a colon.
    let outcome = delete_room(&mut repository, Scheme::Token, Some(b"Basic Ym9iOnNlY3JldHs="), 20);
    assert_eq!(
        outcome.err(),
        Some(GateError::Auth(AuthError::InvalidCredentials(Denial::TokenSeparatorMissing)))
    );
    let header = format!("Bearer {}", create_cookie("bob", "secret{"));
    let outcome = delete_room(&mut repository, Scheme::Basic, Some(header.as_bytes()), 20);
    assert_eq!(
        outcome.err(),
        Some(GateError::Auth(AuthError::InvalidCredentials(Denial::SchemeNotBasic)))
    );
    assert_eq!(repository.rooms, vec![(10, ALICE), (20, BOB)]);
}

#[test]
fn requests_missing_authorization_are_turned_down_with_a_challenge() {
    let mut repository = Repository::new();
    let error = delete_room(&mut repository, Scheme::Basic, None, 10).err().unwrap();
    assert_eq!(error, GateError::Auth(AuthError::InvalidCredentials(Denial::HeaderMissing)));
    assert_eq!(
        error.error_response(),
        ErrorResponse { status: 401, www_authenticate: Some("Basic realm=\"publish\"") }
    );
}

#[test]
fn a_request_steps_from_state_to_state() {
    let gate = AuthorizationGate::new(Scheme::Basic, Scope::Account);
    assert!(matches!(gate.current(), GateState::Unauthenticated));

    let (gate, action) = gate.step(GateEvent::Request);
    assert!(matches!(gate.current(), GateState::Extracting));
    assert!(matches!(action, GateAction::ReadHeader));

    let (gate, action) = gate.step(GateEvent::Header(Some(b"Basic Ym9iOnNlY3JldHs=".to_vec())));
    match gate.current() {
        GateState::Verifying(Pending::Repository(credentials)) => {
            assert_eq!(credentials.username, "bob");
            assert_eq!(credentials.password, "secret{");
        }
        _ => panic!("not waiting for the repository"),
    }
    match action {
        GateAction::FetchStored(username) => assert_eq!(username, "bob"),
        _ => panic!("not asking the repository"),
    }

    let (gate, action) = gate.step(GateEvent::Stored(Some(stored(BOB, "secret{"))));
    assert!(matches!(gate.current(), GateState::Verifying(Pending::Verdict)));
    let outcome = match action {
        GateAction::Verify(candidate, stored) => {
            assert_eq!(candidate.username, "bob");
            assert_eq!(candidate.password, "secret{");
            assert_eq!(stored.as_ref().map(|stored| stored.identity), Some(BOB));
            validate_credentials(&candidate, stored.as_ref())
        }
        _ => panic!("not verifying"),
    };

    let (gate, action) = gate.step(GateEvent::Verified(outcome));
    match gate.current() {
        GateState::Authorized(identity) => assert_eq!(identity.account(), BOB),
        _ => panic!("not authorized"),
    }
    match action {
        GateAction::Proceed(identity) => assert_eq!(identity.account(), BOB),
        _ => panic!("not going on"),
    }
}

#[test]
fn an_ended_request_stays_as_it_ended() {
    let gate = AuthorizationGate::new(Scheme::Basic, Scope::Account);
    let (gate, _) = gate.step(GateEvent::Request);
    let (gate, action) = gate.step(GateEvent::Header(None));
    let denied = GateError::Auth(AuthError::InvalidCredentials(Denial::HeaderMissing));
    assert!(matches!(action, GateAction::Reject(error) if error == denied));
    for event in [
        GateEvent::Request,
        GateEvent::Header(Some(b"Basic Ym9iOnNlY3JldHs=".to_vec())),
        GateEvent::Stored(None),
        GateEvent::Verified(Ok(verified(BOB))),
        GateEvent::Owner(Some(BOB)),
    ] {
        let (gate, action) = AuthorizationGate::new(Scheme::Basic, Scope::Account)
            .step(GateEvent::Request)
            .0
            .step(GateEvent::Header(None))
            .0
            .step(event);
        assert!(matches!(gate.current(), GateState::Rejected(error) if *error == denied));
        assert!(matches!(action, GateAction::Ignore));
    }
    assert!(matches!(gate.current(), GateState::Rejected(error) if *error == denied));
}

#[test]
fn an_authorized_request_stays_authorized() {
    let gate = AuthorizationGate::new(Scheme::Basic, Scope::Account);
    let (gate, _) = gate.step(GateEvent::Request);
    let (gate, _) = gate.step(GateEvent::Header(Some(b"Basic Ym9iOnNlY3JldHs=".to_vec())));
    let (gate, _) = gate.step(GateEvent::Stored(Some(stored(BOB, "secret{"))));
    let (gate, _) = gate.step(GateEvent::Verified(Ok(verified(BOB))));
    let (gate, action) = gate.step(GateEvent::Verified(Err(AuthError::InvalidCredentials(
        Denial::WrongCredentials,
    ))));
    assert!(matches!(action, GateAction::Ignore));
    assert!(matches!(gate.current(), GateState::Authorized(identity) if identity.account() == BOB));
}

#[test]
fn an_event_out_of_order_ends_the_request() {
    let out_of_order = GateError::Auth(AuthError::UnexpectedError(Fault::OutOfOrder));
    // An identity before anything was asked.
    let gate = AuthorizationGate::new(Scheme::Token, Scope::Account);
    let (gate, action) = gate.step(GateEvent::Verified(Ok(verified(ALICE))));
    assert!(matches!(gate.current(), GateState::Rejected(error) if *error == out_of_order));
    assert!(matches!(action, GateAction::Reject(error) if error == out_of_order));
    // An owner while the header is read.
    let gate = AuthorizationGate::new(Scheme::Token, Scope::Resource);
    let (gate, _) = gate.step(GateEvent::Request);
    let (gate, action) = gate.step(GateEvent::Owner(Some(ALICE)));
    assert!(matches!(gate.current(), GateState::Rejected(error) if *error == out_of_order));
    assert!(matches!(action, GateAction::Reject(error) if error == out_of_order));
    assert_eq!(
        out_of_order.error_response(),
        ErrorResponse { status: 500, www_authenticate: None }
    );
}

#[test]
fn a_repository_that_does_not_answer_is_a_fault() {
    let fault = GateError::Auth(AuthError::UnexpectedError(Fault::RepositoryUnavailable));
    let gate = AuthorizationGate::new(Scheme::Basic, Scope::Resource);
    let (gate, _) = gate.step(GateEvent::Request);
    let (gate, _) = gate.step(GateEvent::Header(Some(b"Basic Ym9iOnNlY3JldHs=".to_vec())));
    let (gate, action) = gate.step(GateEvent::RepositoryUnavailable);
    assert!(matches!(gate.current(), GateState::Rejected(error) if *error == fault));
    assert!(matches!(action, GateAction::Reject(error) if error == fault));
    assert_eq!(fault.error_response().status, 500);

    // And so where the owner cannot be looked up.
    let gate = AuthorizationGate::new(Scheme::Basic, Scope::Resource);
    let (gate, _) = gate.step(GateEvent::Request);
    let (gate, _) = gate.step(GateEvent::Header(Some(b"Basic Ym9iOnNlY3JldHs=".to_vec())));
    let (gate, _) = gate.step(GateEvent::Stored(Some(stored(BOB, "secret{"))));
    let (gate, action) = gate.step(GateEvent::Verified(Ok(verified(BOB))));
    assert!(matches!(action, GateAction::FetchOwner));
    let (gate, action) = gate.step(GateEvent::RepositoryUnavailable);
    assert!(matches!(gate.current(), GateState::Rejected(error) if *error == fault));
    assert!(matches!(action, GateAction::Reject(error) if error == fault));
}

#[test]
fn a_verification_that_was_not_run_is_a_fault() {
    let fault = GateError::Auth(AuthError::UnexpectedError(Fault::DispatchFailed));
    let gate = AuthorizationGate::new(Scheme::Basic, Scope::Account);
    let (gate, _) = gate.step(GateEvent::Request);
    let (gate, _) = gate.step(GateEvent::Header(Some(b"Basic Ym9iOnNlY3JldHs=".to_vec())));
    let (gate, _) = gate.step(GateEvent::Stored(None));
    let (gate, action) = gate.step(GateEvent::DispatchFailed);
    assert!(matches!(gate.current(), GateState::Rejected(error) if *error == fault));
    assert!(matches!(action, GateAction::Reject(error) if error == fault));
    assert_eq!(fault.error_response().status, 500);
}

#[test]
fn a_failed_verification_is_passed_on() {
    let fault = AuthError::UnexpectedError(Fault::MalformedStoredHash);
    let gate = AuthorizationGate::new(Scheme::Basic, Scope::Account);
    let (gate, _) = gate.step(GateEvent::Request);
    let (gate, _) = gate.step(GateEvent::Header(Some(b"Basic Ym9iOnNlY3JldHs=".to_vec())));
    let (gate, _) = gate.step(GateEvent::Stored(None));
    let (gate, action) = gate.step(GateEvent::Verified(Err(fault)));
    assert!(matches!(gate.current(), GateState::Rejected(GateError::Auth(error)) if *error == fault));
    assert!(matches!(action, GateAction::Reject(GateError::Auth(error)) if error == fault));
}

#[test]
fn ownership_is_the_identity_being_the_owner() {
    let alice = verified(ALICE);
    assert!(owns(&alice, Some(ALICE)));
    assert!(!owns(&alice, Some(BOB)));
    assert!(!owns(&alice, None));
}

#[test]
fn want_of_ownership_is_told_apart_inside_and_answered_alike_outside() {
    let denied = GateError::Auth(AuthError::InvalidCredentials(Denial::WrongCredentials));
    assert_ne!(GateError::NotOwner, denied);
    assert_eq!(GateError::NotOwner.error_response(), denied.error_response());
    assert_eq!(
        GateError::NotOwner.error_response(),
        ErrorResponse { status: 401, www_authenticate: Some("Basic realm=\"publish\"") }
    );
}

#[test]
fn a_login_form_brings_the_credentials_as_they_are() {
    let gate = AuthorizationGate::new(Scheme::Form, Scope::Account);
    let (gate, action) = gate.step(GateEvent::Request);
    assert!(matches!(gate.current(), GateState::Extracting));
    assert!(matches!(action, GateAction::ReadForm));

    let form = Credentials { username: "bob".to_string(), password: "secret{".to_string() };
    let (gate, action) = gate.step(GateEvent::Form(form));
    match gate.current() {
        GateState::Verifying(Pending::Repository(credentials)) => {
            assert_eq!(credentials.username, "bob");
            assert_eq!(credentials.password, "secret{");
        }
        _ => panic!("not waiting for the repository"),
    }
    match action {
        GateAction::FetchStored(username) => assert_eq!(username, "bob"),
        _ => panic!("not asking the repository"),
    }

    let (gate, action) = gate.step(GateEvent::Stored(Some(stored(BOB, "secret{"))));
    let outcome = match action {
        GateAction::Verify(candidate, stored) => validate_credentials(&candidate, stored.as_ref()),
        _ => panic!("not verifying"),
    };
    let (gate, action) = gate.step(GateEvent::Verified(outcome));
    assert!(matches!(gate.current(), GateState::Authorized(identity) if identity.account() == BOB));
    assert!(matches!(action, GateAction::Proceed(identity) if identity.account() == BOB));
}

#[test]
fn a_form_and_a_header_do_not_stand_for_each_other() {
    let out_of_order = GateError::Auth(AuthError::UnexpectedError(Fault::OutOfOrder));
    let form = Credentials { username: "bob".to_string(), password: "secret{".to_string() };
    let gate = AuthorizationGate::new(Scheme::Basic, Scope::Account);
    let (gate, _) = gate.step(GateEvent::Request);
    let (gate, action) = gate.step(GateEvent::Form(form));
    assert!(matches!(gate.current(), GateState::Rejected(error) if *error == out_of_order));
    assert!(matches!(action, GateAction::Reject(error) if error == out_of_order));

    let gate = AuthorizationGate::new(Scheme::Form, Scope::Account);
    let (gate, _) = gate.step(GateEvent::Request);
    let (gate, action) = gate.step(GateEvent::Header(Some(b"Basic Ym9iOnNlY3JldHs=".to_vec())));
    assert!(matches!(gate.current(), GateState::Rejected(error) if *error == out_of_order));
    assert!(matches!(action, GateAction::Reject(error) if error == out_of_order));
}
