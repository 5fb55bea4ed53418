//! The title of a listing.

use crate::domain::text::{blank, count_graphemes, grapheme_count, is_blank};
use vstd::prelude::*;
use vstd::string::StringExecFns;

verus! {

/// Longest title accepted, in grapheme clusters.
pub const MAX_TITLE_GRAPHEMES: usize = 256;

/// A listing title that passed validation.
#[derive(Debug)]
pub struct LairTitle(String);

impl LairTitle {
    /// What makes a text a valid title: not blank, and no longer than
    /// [`MAX_TITLE_GRAPHEMES`].
    pub open spec fn valid(text: Seq<char>) -> bool {
        !is_blank(text) && grapheme_count(text) <= MAX_TITLE_GRAPHEMES
    }

    /// The message that rejects `text`.
    pub open spec fn rejection(text: Seq<char>) -> Seq<char> {
        text + " is not a valid lair title."@
    }

    /// The validated text.
    pub closed spec fn view(&self) -> Seq<char> {
        self.0@
    }

    /// Accepts `s` as a title, or says why not.
    pub fn parse(s: String) -> (r: Result<LairTitle, String>)
        ensures
            match r {
                Ok(title) => Self::valid(s@) && title@ == s@,
                Err(message) => !Self::valid(s@) && message@ == Self::rejection(s@),
            },
    {
        let is_empty_or_whitespace = blank(s.as_str());
        let is_too_long = count_graphemes(s.as_str()) > MAX_TITLE_GRAPHEMES;
        if is_empty_or_whitespace || is_too_long {
            Err(s.concat(" is not a valid lair title."))
        } else {
            Ok(LairTitle(s))
        }
    }

    /// The validated text.
    pub fn as_ref(&self) -> (text: &str)
        ensures
            text@ == self@,
    {
        self.0.as_str()
    }
}

} // verus!
