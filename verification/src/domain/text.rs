//! Measures of user-supplied text that the validators share.

use unicode_segmentation::UnicodeSegmentation;
use vstd::prelude::*;

verus! {

/// Number of extended grapheme clusters of a text, as
/// `unicode_segmentation` segments it.
pub uninterp spec fn grapheme_count(text: Seq<char>) -> nat;

/// Whether a character is white space, as `char::is_whitespace` has it:
/// the Unicode property `White_Space`.
pub uninterp spec fn is_white_space(c: char) -> bool;

/// A text is blank when it is empty or all of it is white space: nothing
/// is left of it after trimming.
pub open spec fn is_blank(text: Seq<char>) -> bool {
    forall|i: int| 0 <= i < text.len() ==> is_white_space(#[trigger] text[i])
}

/// Calls `UnicodeSegmentation::graphemes` with the extended definition and
/// counts the clusters. Trusted: the count is a function of the text alone.
#[verifier::external_body]
pub(crate) fn count_graphemes(text: &str) -> (n: usize)
    ensures
        n == grapheme_count(text@),
{
    text.graphemes(true).count()
}

/// Calls `char::is_whitespace`. Trusted: the answer is a function of the
/// character alone.
#[verifier::external_body]
pub(crate) fn white_space(c: char) -> (b: bool)
    ensures
        b == is_white_space(c),
{
    c.is_whitespace()
}

/// Whether a text is empty or holds white space only.
pub(crate) fn blank(text: &str) -> (b: bool)
    ensures
        b == is_blank(text@),
{
    for c in it: text.chars()
        invariant
            it.seq() == text@,
            forall|j: int| 0 <= j < it.index() ==> is_white_space(#[trigger] text@[j]),
    {
        if !white_space(c) {
            return false;
        }
    }
    true
}

} // verus!
