//! Byte encodings that the wire formats rest on: base64 in its standard and
//! URL-safe alphabets, and UTF-8.
//!
//! Base64 is the `base64` crate's; what it returns is named here, not
//! restated. UTF-8 is stated over `vstd::utf8`.

use base64::engine::general_purpose::{STANDARD, URL_SAFE};
use base64::Engine;
use vstd::prelude::*;
use vstd::utf8::{decode_utf8, encode_utf8, valid_utf8};

verus! {

/// What the `base64` crate's `STANDARD` engine decodes `input` to; `None`
/// where it refuses `input`.
pub uninterp spec fn standard_decoding(input: Seq<u8>) -> Option<Seq<u8>>;

/// The text that the `base64` crate's `URL_SAFE` engine encodes `bytes` to.
pub uninterp spec fn url_safe_encoding(bytes: Seq<u8>) -> Seq<char>;

/// What the `base64` crate's `URL_SAFE` engine decodes `input` to; `None`
/// where it refuses `input`.
pub uninterp spec fn url_safe_decoding(input: Seq<u8>) -> Option<Seq<u8>>;

/// The value of a header as bytes; `None` where the request has no such
/// header.
pub open spec fn header_view(header: Option<&[u8]>) -> Option<Seq<u8>> {
    match header {
        Some(value) => Some(value@),
        None => None,
    }
}

/// The characters of padded URL-safe base64: letters, digits, `-`, `_`, `=`.
pub open spec fn is_url_safe_char(c: char) -> bool {
    ||| 'A' <= c <= 'Z'
    ||| 'a' <= c <= 'z'
    ||| '0' <= c <= '9'
    ||| c == '-'
    ||| c == '_'
    ||| c == '='
}

/// Length of padded base64 for `n` bytes: four characters for every three
/// bytes begun.
pub open spec fn encoded_len(n: nat) -> nat {
    4 * ((n + 2) / 3)
}

/// Calls `Engine::decode` on `base64::engine::general_purpose::STANDARD`.
/// Trusted: the outcome is a function of the input bytes alone; an error of
/// the decoder becomes `None`.
#[verifier::external_body]
pub(crate) fn decode_standard(input: &[u8]) -> (decoded: Option<Vec<u8>>)
    ensures
        match decoded {
            Some(bytes) => standard_decoding(input@) == Some(bytes@),
            None => standard_decoding(input@) is None,
        },
{
    STANDARD.decode(input).ok()
}

/// Calls `Engine::encode` on `base64::engine::general_purpose::URL_SAFE`.
/// Trusted: the text is a function of the bytes alone; it has the padded
/// length, is made of the URL-safe alphabet and `=`, and the same engine
/// decodes it to the bytes it came from. The engine panics where the length
/// of the text does not fit in `usize`, which `requires` leaves out.
#[verifier::external_body]
pub(crate) fn encode_url_safe(bytes: &[u8]) -> (text: String)
    requires
        encoded_len(bytes@.len()) <= usize::MAX,
    ensures
        text@ == url_safe_encoding(bytes@),
        text@.len() == encoded_len(bytes@.len()),
        forall|i: int| 0 <= i < text@.len() ==> is_url_safe_char(#[trigger] text@[i]),
        url_safe_decoding(encode_utf8(text@)) == Some(bytes@),
{
    URL_SAFE.encode(bytes)
}

/// Calls `Engine::decode` on `base64::engine::general_purpose::URL_SAFE`.
/// Trusted: the outcome is a function of the input bytes alone; an error of
/// the decoder becomes `None`.
#[verifier::external_body]
pub(crate) fn decode_url_safe(input: &[u8]) -> (decoded: Option<Vec<u8>>)
    ensures
        match decoded {
            Some(bytes) => url_safe_decoding(input@) == Some(bytes@),
            None => url_safe_decoding(input@) is None,
        },
{
    URL_SAFE.decode(input).ok()
}

/// Calls `std::str::from_utf8`. Trusted: it accepts exactly the valid UTF-8
/// byte strings, and the text holds the characters that the bytes encode.
#[verifier::external_body]
pub(crate) fn text_of(bytes: &[u8]) -> (text: Option<&str>)
    ensures
        match text {
            Some(s) => valid_utf8(bytes@) && s@ == decode_utf8(bytes@),
            None => !valid_utf8(bytes@),
        },
{
    std::str::from_utf8(bytes).ok()
}

/// The UTF-8 of two texts joined is the UTF-8 of the first followed by the
/// UTF-8 of the second.
pub proof fn lemma_encode_utf8_joined(a: Seq<char>, b: Seq<char>)
    ensures
        encode_utf8(a + b) == encode_utf8(a) + encode_utf8(b),
    decreases a.len(),
{
    if a.len() == 0 {
        assert(a + b =~= b);
        assert(encode_utf8(a) + encode_utf8(b) =~= encode_utf8(b));
    } else {
        assert((a + b).drop_first() =~= a.drop_first() + b);
        lemma_encode_utf8_joined(a.drop_first(), b);
        assert(encode_utf8(a + b) =~= encode_utf8(a) + encode_utf8(b));
    }
}

} // verus!
