//! The password that a subscriber registers with.

use crate::domain::text::{blank, count_graphemes, grapheme_count, is_blank};
use vstd::prelude::*;
use vstd::string::StringExecFns;

verus! {

/// Shortest password accepted, in grapheme clusters.
pub const MIN_PASSWORD_GRAPHEMES: usize = 6;

/// Longest password accepted, in grapheme clusters.
pub const MAX_PASSWORD_GRAPHEMES: usize = 256;

/// The characters of which a password must hold at least one.
pub open spec fn is_special(c: char) -> bool {
    ||| c == '/'
    ||| c == '('
    ||| c == ')'
    ||| c == '"'
    ||| c == '<'
    ||| c == '>'
    ||| c == '\\'
    ||| c == '{'
    ||| c == '}'
}

/// Whether a text holds a special character.
pub open spec fn has_special(text: Seq<char>) -> bool {
    exists|i: int| 0 <= i < text.len() && is_special(#[trigger] text[i])
}

/// A password that passed validation. It has no debug representation.
pub struct SubscriberPassword(String);

impl SubscriberPassword {
    /// What makes a text a valid password: not blank, between
    /// [`MIN_PASSWORD_GRAPHEMES`] and [`MAX_PASSWORD_GRAPHEMES`] long, with
    /// a special character in it.
    pub open spec fn valid(text: Seq<char>) -> bool {
        &&& !is_blank(text)
        &&& MIN_PASSWORD_GRAPHEMES <= grapheme_count(text) <= MAX_PASSWORD_GRAPHEMES
        &&& has_special(text)
    }

    /// The message that rejects a password. It does not repeat the password.
    pub open spec fn rejection() -> Seq<char> {
        "The password is not a valid subscriber password."@
    }

    /// The validated text.
    pub closed spec fn view(&self) -> Seq<char> {
        self.0@
    }

    /// Accepts `s` as a password, or rejects it.
    pub fn parse(s: String) -> (r: Result<SubscriberPassword, String>)
        ensures
            match r {
                Ok(password) => Self::valid(s@) && password@ == s@,
                Err(message) => !Self::valid(s@) && message@ == Self::rejection(),
            },
    {
        let is_empty_or_whitespace = blank(s.as_str());
        let graphemes = count_graphemes(s.as_str());
        let is_too_long = graphemes > MAX_PASSWORD_GRAPHEMES;
        let is_too_short = graphemes < MIN_PASSWORD_GRAPHEMES;
        let contains_special_characters = contains_special(s.as_str());
        if is_empty_or_whitespace || is_too_long || is_too_short || !contains_special_characters {
            Err(String::from_str("The password is not a valid subscriber password."))
        } else {
            Ok(SubscriberPassword(s))
        }
    }

    /// The validated text.
    pub fn as_ref(&self) -> (text: &str)
        ensures
            text@ == self@,
    {
        self.0.as_str()
    }
}

/// Whether `c` is a special character.
fn special(c: char) -> (b: bool)
    ensures
        b == is_special(c),
{
    c == '/' || c == '(' || c == ')' || c == '"' || c == '<' || c == '>' || c == '\\' || c == '{'
        || c == '}'
}

/// Whether `text` holds a special character.
fn contains_special(text: &str) -> (b: bool)
    ensures
        b == has_special(text@),
{
    for c in it: text.chars()
        invariant
            it.seq() == text@,
            forall|j: int| 0 <= j < it.index() ==> !is_special(#[trigger] text@[j]),
    {
        if special(c) {
            return true;
        }
    }
    false
}

} // verus!
