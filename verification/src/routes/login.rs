//! Logging in: the errors of the handler.

use crate::routes::lair_insertion::{BAD_REQUEST, INTERNAL_SERVER_ERROR};
use vstd::prelude::*;

verus! {

/// Why a login failed.
#[derive(Debug, Clone)]
pub enum FetchError {
    /// The form was refused, with the validator's message.
    ValidationError(String),
    /// The server failed, with what it reported.
    UnexpectedError(String),
}

impl FetchError {
    /// The HTTP status that answers the error.
    pub open spec fn status(self) -> u16 {
        match self {
            FetchError::ValidationError(_) => BAD_REQUEST,
            FetchError::UnexpectedError(_) => INTERNAL_SERVER_ERROR,
        }
    }

    /// The message that the error carries.
    pub open spec fn text(self) -> Seq<char> {
        match self {
            FetchError::ValidationError(message) => message@,
            FetchError::UnexpectedError(message) => message@,
        }
    }

    /// The HTTP status that answers the error.
    pub fn status_code(&self) -> (code: u16)
        ensures
            code == self.status(),
    {
        match self {
            FetchError::ValidationError(_) => BAD_REQUEST,
            FetchError::UnexpectedError(_) => INTERNAL_SERVER_ERROR,
        }
    }

    /// The message that the error carries.
    pub fn message(&self) -> (m: &str)
        ensures
            m@ == self.text(),
    {
        match self {
            FetchError::ValidationError(message) => message.as_str(),
            FetchError::UnexpectedError(message) => message.as_str(),
        }
    }
}

} // verus!
