//! The image of a listing, as text.

use crate::domain::text::{blank, count_graphemes, grapheme_count, is_blank};
use vstd::prelude::*;
use vstd::string::StringExecFns;

verus! {

/// Longest image accepted, in grapheme clusters.
pub const MAX_IMAGE_GRAPHEMES: usize = 100000;

/// A listing image that passed validation.
#[derive(Debug)]
pub struct LairImage(String);

impl LairImage {
    /// What makes a text a valid image: not blank, and no longer than
    /// [`MAX_IMAGE_GRAPHEMES`].
    pub open spec fn valid(text: Seq<char>) -> bool {
        !is_blank(text) && grapheme_count(text) <= MAX_IMAGE_GRAPHEMES
    }

    /// The message that rejects `text`.
    pub open spec fn rejection(text: Seq<char>) -> Seq<char> {
        text + " is not a valid lair image."@
    }

    /// The validated text.
    pub closed spec fn view(&self) -> Seq<char> {
        self.0@
    }

    /// Accepts `s` as an image, or says why not.
    pub fn parse(s: String) -> (r: Result<LairImage, String>)
        ensures
            match r {
                Ok(image) => Self::valid(s@) && image@ == s@,
                Err(message) => !Self::valid(s@) && message@ == Self::rejection(s@),
            },
    {
        let is_empty_or_whitespace = blank(s.as_str());
        let is_too_long = count_graphemes(s.as_str()) > MAX_IMAGE_GRAPHEMES;
        if is_empty_or_whitespace || is_too_long {
            Err(s.concat(" is not a valid lair image."))
        } else {
            Ok(LairImage(s))
        }
    }

    /// The validated text.
    pub fn as_ref(&self) -> (text: &str)
        ensures
            text@ == self@,
    {
        self.0.as_str()
    }
}

} // verus!
