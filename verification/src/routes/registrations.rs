//! Registering a subscriber: the errors of the handler, and how an error
//! is written out with what caused it.

use crate::routes::lair_insertion::{BAD_REQUEST, INTERNAL_SERVER_ERROR};
use vstd::prelude::*;
use vstd::string::StringExecFns;

verus! {

/// Why a registration failed.
#[derive(Debug, Clone)]
pub enum SubscribeError {
    /// The form was refused, with the validator's message.
    ValidationError(String),
    /// The server failed, with what it reported.
    UnexpectedError(String),
}

impl SubscribeError {
    /// The HTTP status that answers the error.
    pub open spec fn status(self) -> u16 {
        match self {
            SubscribeError::ValidationError(_) => BAD_REQUEST,
            SubscribeError::UnexpectedError(_) => INTERNAL_SERVER_ERROR,
        }
    }

    /// The message that the error carries.
    pub open spec fn text(self) -> Seq<char> {
        match self {
            SubscribeError::ValidationError(message) => message@,
            SubscribeError::UnexpectedError(message) => message@,
        }
    }

    /// The HTTP status that answers the error.
    pub fn status_code(&self) -> (code: u16)
        ensures
            code == self.status(),
    {
        match self {
            SubscribeError::ValidationError(_) => BAD_REQUEST,
            SubscribeError::UnexpectedError(_) => INTERNAL_SERVER_ERROR,
        }
    }

    /// The message that the error carries.
    pub fn message(&self) -> (m: &str)
        ensures
            m@ == self.text(),
    {
        match self {
            SubscribeError::ValidationError(message) => message.as_str(),
            SubscribeError::UnexpectedError(message) => message.as_str(),
        }
    }
}

/// An error written out with its causes, outermost first: the error's
/// message and an empty line, then for every cause a line `Caused by:` and
/// the cause on a line of its own after a tab.
pub open spec fn chain_text(message: Seq<char>, causes: Seq<Seq<char>>) -> Seq<char>
    decreases causes.len(),
{
    if causes.len() == 0 {
        message + "\n\n"@
    } else {
        chain_text(message, causes.drop_last()) + "Caused by:\n\t"@ + causes.last() + "\n"@
    }
}

/// Writes an error out with its causes; `causes` lists them outermost
/// first.
pub fn error_chain_fmt(message: &str, causes: &[String]) -> (out: String)
    ensures
        out@ == chain_text(message@, causes.deep_view()),
{
    let mut out = String::from_str(message);
    out.append("\n\n");
    let mut i: usize = 0;
    while i < causes.len()
        invariant
            i <= causes.len(),
            out@ == chain_text(message@, causes.deep_view().take(i as int)),
        decreases causes.len() - i,
    {
        out.append("Caused by:\n\t");
        out.append(causes[i].as_str());
        out.append("\n");
        proof {
            let upto = causes.deep_view().take(i + 1);
            assert(upto.drop_last() =~= causes.deep_view().take(i as int));
            assert(upto.last() == causes@[i as int]@);
        }
        i = i + 1;
    }
    assert(causes.deep_view().take(i as int) =~= causes.deep_view());
    out
}

} // verus!
