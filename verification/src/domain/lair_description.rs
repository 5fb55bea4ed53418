//! The description of a listing.

use crate::domain::text::{blank, count_graphemes, grapheme_count, is_blank};
use vstd::prelude::*;
use vstd::string::StringExecFns;

verus! {

/// Longest description accepted, in grapheme clusters.
pub const MAX_DESCRIPTION_GRAPHEMES: usize = 100000;

/// A listing description that passed validation.
#[derive(Debug)]
pub struct LairDescription(String);

impl LairDescription {
    /// What makes a text a valid description: not blank, and no longer than
    /// [`MAX_DESCRIPTION_GRAPHEMES`].
    pub open spec fn valid(text: Seq<char>) -> bool {
        !is_blank(text) && grapheme_count(text) <= MAX_DESCRIPTION_GRAPHEMES
    }

    /// The message that rejects `text`.
    pub open spec fn rejection(text: Seq<char>) -> Seq<char> {
        text + " is not a valid lair description."@
    }

    /// The validated text.
    pub closed spec fn view(&self) -> Seq<char> {
        self.0@
    }

    /// Accepts `s` as a description, or says why not.
    pub fn parse(s: String) -> (r: Result<LairDescription, String>)
        ensures
            match r {
                Ok(description) => Self::valid(s@) && description@ == s@,
                Err(message) => !Self::valid(s@) && message@ == Self::rejection(s@),
            },
    {
        let is_empty_or_whitespace = blank(s.as_str());
        let is_too_long = count_graphemes(s.as_str()) > MAX_DESCRIPTION_GRAPHEMES;
        if is_empty_or_whitespace || is_too_long {
            Err(s.concat(" is not a valid lair description."))
        } else {
            Ok(LairDescription(s))
        }
    }

    /// The validated text.
    pub fn as_ref(&self) -> (text: &str)
        ensures
            text@ == self@,
    {
        self.0.as_str()
    }
}

} // verus!
