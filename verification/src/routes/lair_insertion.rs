//! Publishing a listing: HTTP Basic authentication and the errors of the
//! handler.

use crate::authentication::{viewed, AuthError, Credentials, Denial, Fault};
use crate::encoding::{decode_standard, header_view, standard_decoding, text_of};
use crate::scan::{cut, lemma_position, split_text};
use vstd::prelude::*;
use vstd::slice::slice_subrange;
use vstd::utf8::{decode_utf8, valid_utf8};

verus! {

/// The scheme that a Basic `Authorization` header starts with, and the
/// space after it: `Basic ` in ASCII.
pub const BASIC_PREFIX: [u8; 6] = [0x42, 0x61, 0x73, 0x69, 0x63, 0x20];

/// What decoded Basic credentials hold: the text before the first colon is
/// the username, all text after it the password, colons included.
pub open spec fn decoded_credentials(bytes: Seq<u8>) -> Result<(Seq<char>, Seq<char>), AuthError> {
    if !valid_utf8(bytes) {
        Err(AuthError::InvalidCredentials(Denial::CredentialsNotUtf8))
    } else {
        match cut(decode_utf8(bytes), ':') {
            Some(pair) => Ok(pair),
            None => Err(AuthError::InvalidCredentials(Denial::PasswordMissing)),
        }
    }
}

/// What a Basic `Authorization` header holds; `header` is the header's
/// value, `None` where the request has none.
pub open spec fn basic_credentials(header: Option<Seq<u8>>) -> Result<
    (Seq<char>, Seq<char>),
    AuthError,
> {
    match header {
        None => Err(AuthError::InvalidCredentials(Denial::HeaderMissing)),
        Some(value) => if !valid_utf8(value) {
            Err(AuthError::InvalidCredentials(Denial::HeaderNotUtf8))
        } else if !BASIC_PREFIX@.is_prefix_of(value) {
            Err(AuthError::InvalidCredentials(Denial::SchemeNotBasic))
        } else {
            match standard_decoding(value.skip(6)) {
                Some(bytes) => decoded_credentials(bytes),
                None => Err(AuthError::InvalidCredentials(Denial::MalformedBase64)),
            }
        },
    }
}

/// Every failure to read a header is a denial, never a fault of the
/// server; and a header that lacks the prefix, whose base64 does not
/// decode, or whose decoded text has no colon fails to be read.
pub proof fn lemma_malformed_header_is_denied(header: Option<Seq<u8>>)
    ensures
        basic_credentials(header) is Err ==> basic_credentials(header) matches Err(
            AuthError::InvalidCredentials(_),
        ),
        header matches Some(value) && !BASIC_PREFIX@.is_prefix_of(value) ==> basic_credentials(
            header,
        ) is Err,
        header matches Some(value) && standard_decoding(value.skip(6)) is None
            ==> basic_credentials(header) is Err,
        header matches Some(value) && standard_decoding(value.skip(6)) matches Some(bytes)
            && valid_utf8(bytes) && !decode_utf8(bytes).contains(':') ==> basic_credentials(
            header,
        ) is Err,
{
    if let Some(value) = header {
        if let Some(bytes) = standard_decoding(value.skip(6)) {
            if valid_utf8(bytes) {
                lemma_position(decode_utf8(bytes), ':');
            }
        }
    }
}

/// Whether `bytes` start with [`BASIC_PREFIX`].
fn starts_with_basic(bytes: &[u8]) -> (b: bool)
    ensures
        b == BASIC_PREFIX@.is_prefix_of(bytes@),
{
    if bytes.len() < 6 {
        return false;
    }
    let mut i: usize = 0;
    while i < 6
        invariant
            i <= 6,
            bytes.len() >= 6,
            forall|j: int| 0 <= j < i ==> bytes@[j] == BASIC_PREFIX@[j],
        decreases 6 - i,
    {
        if bytes[i] != BASIC_PREFIX[i] {
            assert(bytes@.subrange(0, 6)[i as int] != BASIC_PREFIX@[i as int]);
            return false;
        }
        i = i + 1;
    }
    assert(BASIC_PREFIX@ =~= bytes@.subrange(0, 6));
    true
}

/// Reads decoded Basic credentials: takes them as UTF-8 and cuts the text
/// at its first colon.
pub fn credentials_from(decoded: &[u8]) -> (r: Result<Credentials, AuthError>)
    ensures
        viewed(r) == decoded_credentials(decoded@),
{
    match text_of(decoded) {
        None => Err(AuthError::InvalidCredentials(Denial::CredentialsNotUtf8)),
        Some(text) => match split_text(text, ':') {
            None => Err(AuthError::InvalidCredentials(Denial::PasswordMissing)),
            Some((username, password)) => Ok(Credentials { username, password }),
        },
    }
}

/// Reads the credentials of a Basic `Authorization` header, given as the
/// header's value: `None` where the request has no such header.
pub fn basic_authentication(authorization: Option<&[u8]>) -> (r: Result<Credentials, AuthError>)
    ensures
        viewed(r) == basic_credentials(header_view(authorization)),
        r matches Err(e) ==> e is InvalidCredentials,
{
    let value = match authorization {
        None => { return Err(AuthError::InvalidCredentials(Denial::HeaderMissing)); },
        Some(value) => value,
    };
    if text_of(value).is_none() {
        return Err(AuthError::InvalidCredentials(Denial::HeaderNotUtf8));
    }
    if !starts_with_basic(value) {
        return Err(AuthError::InvalidCredentials(Denial::SchemeNotBasic));
    }
    match decode_standard(slice_subrange(value, 6, value.len())) {
        None => Err(AuthError::InvalidCredentials(Denial::MalformedBase64)),
        Some(decoded) => credentials_from(decoded.as_slice()),
    }
}

/// Why publishing failed.
#[derive(Debug, Clone, Copy, PartialEq, Eq, Structural)]
pub enum PublishError {
    /// The request was not authenticated.
    AuthError(AuthError),
    /// The server failed.
    UnexpectedError(Fault),
}

/// What an error answers the client: the status and, where the client is
/// to authenticate, the challenge.
#[derive(Debug, Clone, Copy, PartialEq, Eq)]
pub struct ErrorResponse {
    pub status: u16,
    /// The value of the `WWW-Authenticate` header, where there is one.
    pub www_authenticate: Option<&'static str>,
}

/// HTTP status 400.
pub const BAD_REQUEST: u16 = 400;

/// HTTP status 401.
pub const UNAUTHORIZED: u16 = 401;

/// HTTP status 500.
pub const INTERNAL_SERVER_ERROR: u16 = 500;

/// The challenge of the publishing realm.
pub const PUBLISH_CHALLENGE: &'static str = "Basic realm=\"publish\"";

impl PublishError {
    /// The publishing error that an authentication error becomes: a denial
    /// stays a failure to authenticate, a fault becomes the server's.
    pub open spec fn of(e: AuthError) -> PublishError {
        match e {
            AuthError::InvalidCredentials(_) => PublishError::AuthError(e),
            AuthError::UnexpectedError(fault) => PublishError::UnexpectedError(fault),
        }
    }

    /// The publishing error that an authentication error becomes.
    pub fn from_auth(e: AuthError) -> (r: PublishError)
        ensures
            r == Self::of(e),
    {
        match e {
            AuthError::InvalidCredentials(_) => PublishError::AuthError(e),
            AuthError::UnexpectedError(fault) => PublishError::UnexpectedError(fault),
        }
    }

    /// The answer to the client: 500 for a fault of the server; 401 with
    /// the challenge of the publishing realm for a failure to authenticate,
    /// whatever its reason.
    pub open spec fn response(self) -> ErrorResponse {
        match self {
            PublishError::UnexpectedError(_) => (ErrorResponse {
                status: INTERNAL_SERVER_ERROR,
                www_authenticate: None,
            }),
            PublishError::AuthError(_) => (ErrorResponse {
                status: UNAUTHORIZED,
                www_authenticate: Some(PUBLISH_CHALLENGE),
            }),
        }
    }

    /// The answer to the client.
    pub fn error_response(&self) -> (r: ErrorResponse)
        ensures
            r == self.response(),
    {
        match self {
            PublishError::UnexpectedError(_) => ErrorResponse {
                status: INTERNAL_SERVER_ERROR,
                www_authenticate: None,
            },
            PublishError::AuthError(_) => ErrorResponse {
                status: UNAUTHORIZED,
                www_authenticate: Some(PUBLISH_CHALLENGE),
            },
        }
    }
}

/// Every denial is answered alike: the answer tells a client neither why
/// it was turned down nor whether the account exists.
pub proof fn lemma_denials_answer_alike(first: Denial, second: Denial)
    ensures
        PublishError::of(AuthError::InvalidCredentials(first)).response() == PublishError::of(
            AuthError::InvalidCredentials(second),
        ).response(),
        PublishError::of(AuthError::InvalidCredentials(first)).response().status == UNAUTHORIZED,
{
}

/// Why the listing of a publishing request was refused.
#[derive(Debug, Clone)]
pub enum LairInsertionError {
    /// The listing was refused, with the validator's message.
    ValidationError(String),
    /// The server failed, with what it reported.
    UnexpectedError(String),
}

impl LairInsertionError {
    /// The HTTP status that answers the error.
    pub open spec fn status(self) -> u16 {
        match self {
            LairInsertionError::ValidationError(_) => BAD_REQUEST,
            LairInsertionError::UnexpectedError(_) => INTERNAL_SERVER_ERROR,
        }
    }

    /// The message that the error carries.
    pub open spec fn text(self) -> Seq<char> {
        match self {
            LairInsertionError::ValidationError(message) => message@,
            LairInsertionError::UnexpectedError(message) => message@,
        }
    }

    /// The HTTP status that answers the error.
    pub fn status_code(&self) -> (code: u16)
        ensures
            code == self.status(),
    {
        match self {
            LairInsertionError::ValidationError(_) => BAD_REQUEST,
            LairInsertionError::UnexpectedError(_) => INTERNAL_SERVER_ERROR,
        }
    }

    /// The message that the error carries.
    pub fn message(&self) -> (m: &str)
        ensures
            m@ == self.text(),
    {
        match self {
            LairInsertionError::ValidationError(message) => message.as_str(),
            LairInsertionError::UnexpectedError(message) => message.as_str(),
        }
    }
}

} // verus!
