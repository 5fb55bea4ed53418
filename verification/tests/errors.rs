use lairbnb_rs::authentication::{AuthError, Denial, Fault};
use lairbnb_rs::get_documents_from_id::InsertError;
use lairbnb_rs::routes::lair_insertion::{ErrorResponse, LairInsertionError, PublishError};
use lairbnb_rs::routes::login::FetchError;
use lairbnb_rs::routes::registrations::{error_chain_fmt, SubscribeError};

#[test]
fn a_refused_form_is_a_bad_request_and_a_failure_is_the_servers() {
    let refused = "x is not a valid lair title.".to_string();
    let failed = "Failed to acquire a Postgres connection from the pool".to_string();
    assert_eq!(SubscribeError::ValidationError(refused.clone()).status_code(), 400);
    assert_eq!(SubscribeError::UnexpectedError(failed.clone()).status_code(), 500);
    assert_eq!(InsertError::ValidationError(refused.clone()).status_code(), 400);
    assert_eq!(InsertError::UnexpectedError(failed.clone()).status_code(), 500);
    assert_eq!(LairInsertionError::ValidationError(refused.clone()).status_code(), 400);
    assert_eq!(LairInsertionError::UnexpectedError(failed.clone()).status_code(), 500);
    assert_eq!(FetchError::ValidationError(refused).status_code(), 400);
    assert_eq!(FetchError::UnexpectedError(failed).status_code(), 500);
}

#[test]
fn an_error_carries_its_message() {
    let refused = "x is not a valid lair title.".to_string();
    assert_eq!(SubscribeError::ValidationError(refused.clone()).message(), refused);
    assert_eq!(InsertError::UnexpectedError(refused.clone()).message(), refused);
    assert_eq!(LairInsertionError::ValidationError(refused.clone()).message(), refused);
    assert_eq!(FetchError::UnexpectedError(refused.clone()).message(), refused);
}

#[test]
fn a_denial_is_unauthorized_and_a_fault_is_the_servers() {
    let denied = PublishError::from_auth(AuthError::InvalidCredentials(Denial::WrongCredentials));
    assert_eq!(
        denied,
        PublishError::AuthError(AuthError::InvalidCredentials(Denial::WrongCredentials))
    );
    assert_eq!(
        denied.error_response(),
        ErrorResponse { status: 401, www_authenticate: Some("Basic realm=\"publish\"") }
    );
    let failed = PublishError::from_auth(AuthError::UnexpectedError(Fault::RepositoryUnavailable));
    assert_eq!(failed, PublishError::UnexpectedError(Fault::RepositoryUnavailable));
    assert_eq!(
        failed.error_response(),
        ErrorResponse { status: 500, www_authenticate: None }
    );
}

#[test]
fn every_denial_is_answered_alike() {
    let first = PublishError::from_auth(AuthError::InvalidCredentials(Denial::HeaderMissing));
    for denial in [
        Denial::HeaderNotUtf8,
        Denial::SchemeNotBasic,
        Denial::MalformedBase64,
        Denial::CredentialsNotUtf8,
        Denial::PasswordMissing,
        Denial::TokenMissing,
        Denial::MalformedToken,
        Denial::TokenNotUtf8,
        Denial::TokenSeparatorMissing,
        Denial::WrongCredentials,
    ] {
        let other = PublishError::from_auth(AuthError::InvalidCredentials(denial));
        assert_eq!(first.error_response(), other.error_response());
    }
}

#[test]
fn an_error_without_causes_is_its_message_and_an_empty_line() {
    assert_eq!(error_chain_fmt("Authentication failed", &[]), "Authentication failed\n\n");
    assert_eq!(error_chain_fmt("", &[]), "\n\n");
}

#[test]
fn causes_follow_the_error_outermost_first() {
    let causes = [
        "Failed to insert new subscriber in the database.".to_string(),
        "error returned from database".to_string(),
    ];
    assert_eq!(
        error_chain_fmt("Failed to register", &causes),
        "Failed to register\n\n\
         Caused by:\n\tFailed to insert new subscriber in the database.\n\
         Caused by:\n\terror returned from database\n"
    );
}

#[test]
fn an_authentication_error_is_written_with_its_reason() {
    let error = AuthError::InvalidCredentials(Denial::MalformedBase64);
    let causes: Vec<String> = error.cause().into_iter().map(|cause| cause.to_string()).collect();
    assert_eq!(
        error_chain_fmt(error.message(), &causes),
        "Invalid credentials.\n\nCaused by:\n\tFailed to base64-decode 'Basic' credentials.\n"
    );
}
