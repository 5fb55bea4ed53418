//! Looking at a listing and deleting one: the errors of the handlers.

use crate::routes::lair_insertion::{BAD_REQUEST, INTERNAL_SERVER_ERROR};
use vstd::prelude::*;

verus! {

/// Why looking at a listing, or deleting one, failed.
#[derive(Debug, Clone)]
pub enum InsertError {
    /// The request was refused, with the validator's message.
    ValidationError(String),
    /// The server failed, with what it reported.
    UnexpectedError(String),
}

impl InsertError {
    /// The HTTP status that answers the error.
    pub open spec fn status(self) -> u16 {
        match self {
            InsertError::ValidationError(_) => BAD_REQUEST,
            InsertError::UnexpectedError(_) => INTERNAL_SERVER_ERROR,
        }
    }

    /// The message that the error carries.
    pub open spec fn text(self) -> Seq<char> {
        match self {
            InsertError::ValidationError(message) => message@,
            InsertError::UnexpectedError(message) => message@,
        }
    }

    /// The HTTP status that answers the error.
    pub fn status_code(&self) -> (code: u16)
        ensures
            code == self.status(),
    {
        match self {
            InsertError::ValidationError(_) => BAD_REQUEST,
            InsertError::UnexpectedError(_) => INTERNAL_SERVER_ERROR,
        }
    }

    /// The message that the error carries.
    pub fn message(&self) -> (m: &str)
        ensures
            m@ == self.text(),
    {
        match self {
            InsertError::ValidationError(message) => message.as_str(),
            InsertError::UnexpectedError(message) => message.as_str(),
        }
    }
}

} // verus!
