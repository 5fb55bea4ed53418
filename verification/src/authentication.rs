//! Who a request claims to be, and whether the claim holds: credentials,
//! stored credentials, the password verifier and the errors of
//! authentication.

use argon2::password_hash::Error;
use argon2::{Argon2, PasswordHash, PasswordVerifier};
use vstd::prelude::*;
use vstd::utf8::encode_utf8;

verus! {

/// Why credentials were turned down. Every reason is the client's doing.
#[derive(Debug, Clone, Copy, PartialEq, Eq, Structural)]
pub enum Denial {
    /// The request has no `Authorization` header.
    HeaderMissing,
    /// The `Authorization` header is not UTF-8.
    HeaderNotUtf8,
    /// The `Authorization` header does not start with `Basic `.
    SchemeNotBasic,
    /// What follows `Basic ` is not base64.
    MalformedBase64,
    /// The decoded Basic credentials are not UTF-8.
    CredentialsNotUtf8,
    /// The decoded Basic credentials hold no colon, so no password.
    PasswordMissing,
    /// The `Authorization` header has no second field.
    TokenMissing,
    /// The token is not URL-safe base64.
    MalformedToken,
    /// The opened token is not UTF-8.
    TokenNotUtf8,
    /// The opened token holds no colon.
    TokenSeparatorMissing,
    /// No account has the username, or the password is not the account's.
    WrongCredentials,
}

/// What went wrong on the server's side.
#[derive(Debug, Clone, Copy, PartialEq, Eq, Structural)]
pub enum Fault {
    /// The stored password hash cannot be used to verify a password.
    MalformedStoredHash,
    /// The credential repository did not answer.
    RepositoryUnavailable,
    /// The worker pool did not run the verification.
    DispatchFailed,
    /// An event arrived that the state does not wait for.
    OutOfOrder,
}

/// Failure of authentication.
#[derive(Debug, Clone, Copy, PartialEq, Eq, Structural)]
pub enum AuthError {
    /// The client's credentials are missing, malformed or wrong.
    InvalidCredentials(Denial),
    /// The server could not decide.
    UnexpectedError(Fault),
}

impl Denial {
    /// The reason in words.
    pub open spec fn text(self) -> Seq<char> {
        match self {
            Denial::HeaderMissing => "The 'Authorization' header was missing"@,
            Denial::HeaderNotUtf8 => "The 'Authorization' header was not a valid UTF8 string."@,
            Denial::SchemeNotBasic => "The authorization scheme was not 'Basic'."@,
            Denial::MalformedBase64 => "Failed to base64-decode 'Basic' credentials."@,
            Denial::CredentialsNotUtf8 => "The decoded credential string is not valid UTF8."@,
            Denial::PasswordMissing => "A password must be provided in 'Basic' auth."@,
            Denial::TokenMissing => "A token must be provided after the scheme."@,
            Denial::MalformedToken => "Failed to base64-decode the token."@,
            Denial::TokenNotUtf8 => "The opened token is not valid UTF8."@,
            Denial::TokenSeparatorMissing => "A password must be provided in the token."@,
            Denial::WrongCredentials => "Invalid username or password."@,
        }
    }

    /// The reason in words.
    pub fn message(&self) -> (m: &'static str)
        ensures
            m@ == self.text(),
    {
        match self {
            Denial::HeaderMissing => "The 'Authorization' header was missing",
            Denial::HeaderNotUtf8 => "The 'Authorization' header was not a valid UTF8 string.",
            Denial::SchemeNotBasic => "The authorization scheme was not 'Basic'.",
            Denial::MalformedBase64 => "Failed to base64-decode 'Basic' credentials.",
            Denial::CredentialsNotUtf8 => "The decoded credential string is not valid UTF8.",
            Denial::PasswordMissing => "A password must be provided in 'Basic' auth.",
            Denial::TokenMissing => "A token must be provided after the scheme.",
            Denial::MalformedToken => "Failed to base64-decode the token.",
            Denial::TokenNotUtf8 => "The opened token is not valid UTF8.",
            Denial::TokenSeparatorMissing => "A password must be provided in the token.",
            Denial::WrongCredentials => "Invalid username or password.",
        }
    }
}

impl Fault {
    /// The fault in words.
    pub open spec fn text(self) -> Seq<char> {
        match self {
            Fault::MalformedStoredHash => "Failed to parse hash in PHC string format."@,
            Fault::RepositoryUnavailable => "Failed to retrieve stored credentials."@,
            Fault::DispatchFailed => "Failed to spawn blocking task."@,
            Fault::OutOfOrder => "The authorization gate was driven out of order."@,
        }
    }

    /// The fault in words.
    pub fn message(&self) -> (m: &'static str)
        ensures
            m@ == self.text(),
    {
        match self {
            Fault::MalformedStoredHash => "Failed to parse hash in PHC string format.",
            Fault::RepositoryUnavailable => "Failed to retrieve stored credentials.",
            Fault::DispatchFailed => "Failed to spawn blocking task.",
            Fault::OutOfOrder => "The authorization gate was driven out of order.",
        }
    }
}

impl AuthError {
    /// What the error says of itself: one sentence for every denial, so that
    /// the reason stays with the server; the fault's own words for a fault.
    pub open spec fn text(self) -> Seq<char> {
        match self {
            AuthError::InvalidCredentials(_) => "Invalid credentials."@,
            AuthError::UnexpectedError(fault) => fault.text(),
        }
    }

    /// What lies behind the error: the denial's reason; nothing for a fault,
    /// which speaks for itself.
    pub open spec fn cause_text(self) -> Option<Seq<char>> {
        match self {
            AuthError::InvalidCredentials(denial) => Some(denial.text()),
            AuthError::UnexpectedError(_) => None,
        }
    }

    /// What the error says of itself.
    pub fn message(&self) -> (m: &'static str)
        ensures
            m@ == self.text(),
    {
        match self {
            AuthError::InvalidCredentials(_) => "Invalid credentials.",
            AuthError::UnexpectedError(fault) => fault.message(),
        }
    }

    /// What lies behind the error.
    pub fn cause(&self) -> (c: Option<&'static str>)
        ensures
            match c {
                Some(m) => self.cause_text() == Some(m@),
                None => self.cause_text() is None,
            },
    {
        match self {
            AuthError::InvalidCredentials(denial) => Some(denial.message()),
            AuthError::UnexpectedError(_) => None,
        }
    }
}

/// A result with the view of what it holds.
pub open spec fn viewed<T: View>(r: Result<T, AuthError>) -> Result<T::V, AuthError> {
    match r {
        Ok(value) => Ok(value@),
        Err(e) => Err(e),
    }
}

/// A username and the password offered for it. The password is never part
/// of a debug representation: the type has none.
pub struct Credentials {
    pub username: String,
    pub password: String,
}

impl View for Credentials {
    type V = (Seq<char>, Seq<char>);

    open spec fn view(&self) -> (Seq<char>, Seq<char>) {
        (self.username@, self.password@)
    }
}

/// The identifier of an account, as the credential repository keeps it.
#[derive(Debug, Clone, Copy, PartialEq, Eq, Hash, Structural)]
pub struct UserId(pub u128);

/// What the credential repository holds for one username.
#[derive(Debug, Clone)]
pub struct StoredCredential {
    pub identity: UserId,
    /// The password's hash as a PHC string, which carries the algorithm,
    /// its parameters and the salt.
    pub password_hash: String,
}

/// An account whose credentials were verified. Only
/// [`validate_credentials`] makes one.
#[derive(Debug, Clone, Copy, PartialEq, Eq, Structural)]
pub struct Identity {
    account: UserId,
}

impl View for Identity {
    type V = UserId;

    /// The account that was verified.
    closed spec fn view(&self) -> UserId {
        self.account
    }
}

impl Identity {
    /// The account that was verified.
    pub fn account(&self) -> (id: UserId)
        ensures
            id == self@,
    {
        self.account
    }
}

/// A hash of no account's password. A password offered for an unknown
/// username is checked against it, so that the check costs what it costs for
/// a known one.
pub const DUMMY_PASSWORD_HASH: &'static str =
    "$argon2id$v=19$m=15000,t=2,p=1$gZiV/M1gPc22ElAH/Jh1Hw$CWOrkoo7oJBQ/iyh7uJ0LO2aLEfrHwTWllSAxT0zRno";

/// Whether Argon2 finds that the PHC string `phc` is the hash of `password`,
/// under the parameters and salt that `phc` carries; `None` where `phc`
/// cannot be used: it is no PHC string, or names what Argon2 does not
/// support.
pub uninterp spec fn argon2_verdict(password: Seq<u8>, phc: Seq<char>) -> Option<bool>;

/// Parses `phc` with `PasswordHash::new` and calls
/// `PasswordVerifier::verify_password` on `Argon2::default()`. Trusted: the
/// outcome is a function of the password and the PHC string alone. The error
/// `Error::Password` is a mismatch; every other error, of the parser or of
/// the verifier, leaves the hash unusable.
#[verifier::external_body]
fn argon2_check(password: &[u8], phc: &str) -> (verdict: Option<bool>)
    ensures
        verdict == argon2_verdict(password@, phc@),
{
    match PasswordHash::new(phc) {
        Err(_) => None,
        Ok(hash) => match Argon2::default().verify_password(password, &hash) {
            Ok(()) => Some(true),
            Err(Error::Password) => Some(false),
            Err(_) => None,
        },
    }
}

/// The hash that a password is checked against: the account's, or
/// [`DUMMY_PASSWORD_HASH`] where there is no account.
pub open spec fn expected_hash(stored: Option<&StoredCredential>) -> Seq<char> {
    match stored {
        Some(credential) => credential.password_hash@,
        None => DUMMY_PASSWORD_HASH@,
    }
}

/// What a verdict on a password means for the request.
pub open spec fn outcome(verdict: Option<bool>) -> Result<(), AuthError> {
    match verdict {
        Some(true) => Ok(()),
        Some(false) => Err(AuthError::InvalidCredentials(Denial::WrongCredentials)),
        None => Err(AuthError::UnexpectedError(Fault::MalformedStoredHash)),
    }
}

/// What verification returns, given the verdict on the password against
/// [`expected_hash`]: the account's identifier where there is an account
/// and the password is its own. Without an account the verdict counts for
/// nothing.
pub open spec fn verification(verdict: Option<bool>, stored: Option<&StoredCredential>) -> Result<
    UserId,
    AuthError,
> {
    match stored {
        None => Err(AuthError::InvalidCredentials(Denial::WrongCredentials)),
        Some(credential) => match outcome(verdict) {
            Ok(()) => Ok(credential.identity),
            Err(e) => Err(e),
        },
    }
}

/// What verifying a password returns against what the repository holds
/// for the username: `stored`, or `None` for an unknown username.
pub open spec fn verified(password: Seq<char>, stored: Option<&StoredCredential>) -> Result<
    UserId,
    AuthError,
> {
    verification(argon2_verdict(encode_utf8(password), expected_hash(stored)), stored)
}

/// The hash that a password is checked against.
pub fn expected_password_hash<'a>(stored: Option<&'a StoredCredential>) -> (hash: &'a str)
    ensures
        hash@ == expected_hash(stored),
{
    match stored {
        Some(credential) => credential.password_hash.as_str(),
        None => DUMMY_PASSWORD_HASH,
    }
}

/// What a verdict on a password means for the request.
pub fn outcome_of(verdict: Option<bool>) -> (r: Result<(), AuthError>)
    ensures
        r == outcome(verdict),
{
    match verdict {
        Some(true) => Ok(()),
        Some(false) => Err(AuthError::InvalidCredentials(Denial::WrongCredentials)),
        None => Err(AuthError::UnexpectedError(Fault::MalformedStoredHash)),
    }
}

/// Checks a candidate password against a PHC string.
pub fn verify_password_hash(expected_password_hash: &str, password_candidate: &str) -> (r: Result<
    (),
    AuthError,
>)
    ensures
        r == outcome(argon2_verdict(encode_utf8(password_candidate@), expected_password_hash@)),
{
    outcome_of(argon2_check(password_candidate.as_bytes(), expected_password_hash))
}

/// Verifies `credentials` against what the repository holds for their
/// username: `stored`, or `None` for an unknown username. The password is
/// hashed in either case.
pub fn validate_credentials(credentials: &Credentials, stored: Option<&StoredCredential>) -> (r:
    Result<Identity, AuthError>)
    ensures
        viewed(r) == verified(credentials.password@, stored),
{
    let verdict = argon2_check(credentials.password.as_str().as_bytes(), expected_password_hash(stored));
    match decide(verdict, stored) {
        Ok(account) => Ok(Identity { account }),
        Err(e) => Err(e),
    }
}

/// What verification returns, given the verdict on the password.
pub fn decide(verdict: Option<bool>, stored: Option<&StoredCredential>) -> (r: Result<
    UserId,
    AuthError,
>)
    ensures
        r == verification(verdict, stored),
{
    match stored {
        None => Err(AuthError::InvalidCredentials(Denial::WrongCredentials)),
        Some(credential) => match outcome_of(verdict) {
            Ok(()) => Ok(credential.identity),
            Err(e) => Err(e),
        },
    }
}

/// An unknown username is denied, whatever the password.
pub proof fn lemma_unknown_username_is_denied(password: Seq<char>)
    ensures
        verified(password, None) == Err::<UserId, AuthError>(
            AuthError::InvalidCredentials(Denial::WrongCredentials),
        ),
{
}

/// A wrong password for a known username is answered as any password for
/// an unknown one is: the error does not tell whether the account exists.
pub proof fn lemma_denial_hides_existence(
    wrong: Seq<char>,
    any: Seq<char>,
    stored: &StoredCredential,
)
    requires
        verified(wrong, Some(stored)) matches Err(AuthError::InvalidCredentials(_)),
    ensures
        verified(wrong, Some(stored)) == verified(any, None),
{
}

/// Verification yields the same identity every time that it succeeds for
/// an account: the one that the repository holds.
pub proof fn lemma_identity_is_stable(first: Seq<char>, second: Seq<char>, stored: &StoredCredential)
    requires
        verified(first, Some(stored)) is Ok,
        verified(second, Some(stored)) is Ok,
    ensures
        verified(first, Some(stored)) == verified(second, Some(stored)),
        verified(first, Some(stored)) == Ok::<UserId, AuthError>(stored.identity),
{
}

} // verus!
