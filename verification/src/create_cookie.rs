//! The bearer token that carries a username and a password between
//! requests.
//!
//! A token is `username:password` in UTF-8, each byte XORed with the
//! passphrase repeated over it, in padded URL-safe base64. It is kept for
//! the clients that hold such tokens. It is no security boundary: the
//! passphrase is short and fixed, and nothing in a token tells that it was
//! altered.

use crate::authentication::{viewed, AuthError, Denial};
use crate::encoding::{
    decode_url_safe, encode_url_safe, encoded_len, header_view, is_url_safe_char,
    lemma_encode_utf8_joined,
    text_of, url_safe_decoding, url_safe_encoding,
};
use crate::scan::{
    cut, find_byte, lemma_cut_joined, lemma_position, lemma_position_unique, position, split_text,
};
use vstd::prelude::*;
use vstd::slice::slice_subrange;
use vstd::string::StringExecFns;
use vstd::utf8::{
    decode_utf8, encode_utf8, encode_utf8_decode_utf8, encode_utf8_valid_utf8, is_ascii_chars,
    is_ascii_chars_encode_utf8, valid_utf8, valid_utf8_concat,
};

verus! {

/// The passphrase, `airbnb` in ASCII.
pub const PASSPHRASE: [u8; 6] = [0x61, 0x69, 0x72, 0x62, 0x6e, 0x62];

/// The byte that separates the fields of an `Authorization` header: a space.
pub const FIELD_SEPARATOR: u8 = 0x20;

/// The username and password that a token carries.
pub struct UserInfo {
    pub name: String,
    pub password: String,
}

impl View for UserInfo {
    type V = (Seq<char>, Seq<char>);

    open spec fn view(&self) -> (Seq<char>, Seq<char>) {
        (self.name@, self.password@)
    }
}

/// `bytes`, each XORed with the byte of the passphrase that falls on it when
/// the passphrase is repeated from the start.
pub open spec fn masked(bytes: Seq<u8>) -> Seq<u8> {
    Seq::new(bytes.len(), |i: int| bytes[i] ^ PASSPHRASE@[i % 6])
}

/// The text that a token hides: the username, a colon, the password.
pub open spec fn framed(username: Seq<char>, password: Seq<char>) -> Seq<char> {
    username + seq![':'] + password
}

/// The bytes that a token encodes.
pub open spec fn sealed(username: Seq<char>, password: Seq<char>) -> Seq<u8> {
    masked(encode_utf8(framed(username, password)))
}

/// What sealed bytes hold: the text before the first colon and the text
/// after it.
pub open spec fn unsealed(bytes: Seq<u8>) -> Result<(Seq<char>, Seq<char>), AuthError> {
    let plain = masked(bytes);
    if !valid_utf8(plain) {
        Err(AuthError::InvalidCredentials(Denial::TokenNotUtf8))
    } else {
        match cut(decode_utf8(plain), ':') {
            Some(pair) => Ok(pair),
            None => Err(AuthError::InvalidCredentials(Denial::TokenSeparatorMissing)),
        }
    }
}

/// What a token, given as its bytes, holds.
pub open spec fn token_credentials(token: Seq<u8>) -> Result<(Seq<char>, Seq<char>), AuthError> {
    match url_safe_decoding(token) {
        Some(bytes) => unsealed(bytes),
        None => Err(AuthError::InvalidCredentials(Denial::MalformedToken)),
    }
}

/// The second of the fields that single spaces separate in `header`: what
/// stands between the first space and the next, or the end.
pub open spec fn second_field(header: Seq<u8>) -> Option<Seq<u8>> {
    match cut(header, FIELD_SEPARATOR) {
        Some((_, rest)) => Some(rest.take(position(rest, FIELD_SEPARATOR))),
        None => None,
    }
}

/// What the token in an `Authorization` header holds; `header` is the
/// header's value, `None` where the request has none.
pub open spec fn header_credentials(header: Option<Seq<u8>>) -> Result<
    (Seq<char>, Seq<char>),
    AuthError,
> {
    match header {
        None => Err(AuthError::InvalidCredentials(Denial::HeaderMissing)),
        Some(value) => if !valid_utf8(value) {
            Err(AuthError::InvalidCredentials(Denial::HeaderNotUtf8))
        } else {
            match second_field(value) {
                Some(token) => token_credentials(token),
                None => Err(AuthError::InvalidCredentials(Denial::TokenMissing)),
            }
        },
    }
}

/// XOR with the same byte twice changes nothing.
proof fn lemma_xor_twice(b: u8, k: u8)
    ensures
        (b ^ k) ^ k == b,
{
    assert((b ^ k) ^ k == b) by (bit_vector);
}

/// Masking is its own inverse.
pub proof fn lemma_masked_twice(bytes: Seq<u8>)
    ensures
        masked(masked(bytes)) == bytes,
{
    assert forall|i: int| 0 <= i < bytes.len() implies masked(masked(bytes))[i] == bytes[i] by {
        lemma_xor_twice(bytes[i], PASSPHRASE@[i % 6]);
    }
    assert(masked(masked(bytes)) =~= bytes);
}

/// Unsealing what was sealed gives the username and the password back,
/// where the username holds no colon. The password may hold any.
pub proof fn lemma_unsealed_sealed(username: Seq<char>, password: Seq<char>)
    requires
        !username.contains(':'),
    ensures
        unsealed(sealed(username, password)) == Ok::<(Seq<char>, Seq<char>), AuthError>(
            (username, password),
        ),
{
    let text = framed(username, password);
    lemma_masked_twice(encode_utf8(text));
    encode_utf8_valid_utf8(text);
    encode_utf8_decode_utf8(text);
    lemma_cut_joined(username, ':', password);
}

/// A header made of a scheme, a space and a token is read as the token
/// alone is, where the scheme is UTF-8 without a space and the token is
/// made of the characters of URL-safe base64.
pub proof fn lemma_header_carries_token(scheme: Seq<u8>, token: Seq<char>)
    requires
        valid_utf8(scheme),
        !scheme.contains(FIELD_SEPARATOR),
        forall|i: int| 0 <= i < token.len() ==> is_url_safe_char(#[trigger] token[i]),
    ensures
        header_credentials(Some(scheme + seq![FIELD_SEPARATOR] + encode_utf8(token)))
            == token_credentials(encode_utf8(token)),
{
    let field = encode_utf8(token);
    let header = scheme + seq![FIELD_SEPARATOR] + field;
    is_ascii_chars_encode_utf8(token);
    assert forall|i: int| 0 <= i < field.len() implies field[i] != FIELD_SEPARATOR by {
        assert(is_url_safe_char(token[i]));
        assert(field[i] == token[i] as u8);
    }
    encode_utf8_valid_utf8(token);
    assert(valid_utf8(seq![FIELD_SEPARATOR])) by {
        assert(is_ascii_chars(seq![' ']));
        is_ascii_chars_encode_utf8(seq![' ']);
        assert(encode_utf8(seq![' ']) =~= seq![FIELD_SEPARATOR]);
        encode_utf8_valid_utf8(seq![' ']);
    }
    valid_utf8_concat(scheme, seq![FIELD_SEPARATOR]);
    valid_utf8_concat(scheme + seq![FIELD_SEPARATOR], field);
    lemma_cut_joined(scheme, FIELD_SEPARATOR, field);
    lemma_position_unique(field, FIELD_SEPARATOR, field.len() as int);
    assert(field.take(field.len() as int) =~= field);
}

/// A colon is one byte of UTF-8.
proof fn lemma_colon_is_one_byte()
    ensures
        encode_utf8(seq![':']).len() == 1,
{
    assert(is_ascii_chars(seq![':']));
    is_ascii_chars_encode_utf8(seq![':']);
}

/// XORs `bytes` with the passphrase repeated over them.
pub fn mask(bytes: &[u8]) -> (out: Vec<u8>)
    ensures
        out@ == masked(bytes@),
{
    let mut out: Vec<u8> = Vec::with_capacity(bytes.len());
    let mut i: usize = 0;
    while i < bytes.len()
        invariant
            i <= bytes.len(),
            out@ == masked(bytes@.take(i as int)),
        decreases bytes.len() - i,
    {
        out.push(bytes[i] ^ PASSPHRASE[i % 6]);
        i = i + 1;
        assert(out@ =~= masked(bytes@.take(i as int)));
    }
    assert(bytes@.take(i as int) =~= bytes@);
    out
}

/// The bytes that the token for `username` and `password` encodes.
pub fn seal(username: &str, password: &str) -> (bytes: Vec<u8>)
    ensures
        bytes@ == sealed(username@, password@),
{
    let text = String::from_str(username).concat(":").concat(password);
    proof {
        reveal_strlit(":");
        assert(":"@ =~= seq![':']);
    }
    mask(text.as_str().as_bytes())
}

/// Reads sealed bytes: unmasks them, takes them as UTF-8 and cuts the text
/// at its first colon.
pub fn unseal(bytes: &[u8]) -> (r: Result<UserInfo, AuthError>)
    ensures
        viewed(r) == unsealed(bytes@),
{
    let plain = mask(bytes);
    match text_of(plain.as_slice()) {
        None => Err(AuthError::InvalidCredentials(Denial::TokenNotUtf8)),
        Some(text) => match split_text(text, ':') {
            None => Err(AuthError::InvalidCredentials(Denial::TokenSeparatorMissing)),
            Some((name, password)) => Ok(UserInfo { name, password }),
        },
    }
}

/// Whether the token for a username and a password of these lengths in
/// bytes has a length that fits in `usize`.
pub open spec fn token_fits(username_len: nat, password_len: nat) -> bool {
    encoded_len(username_len + 1 + password_len) <= usize::MAX
}

/// Whether the token for `username` and `password` has a length that fits
/// in `usize`.
pub fn token_length_fits(username: &str, password: &str) -> (b: bool)
    ensures
        b == token_fits(encode_utf8(username@).len(), encode_utf8(password@).len()),
{
    let framed = match username.as_bytes().len().checked_add(1) {
        Some(n) => n.checked_add(password.as_bytes().len()),
        None => None,
    };
    match framed {
        Some(n) => {
            let groups = if n % 3 == 0 {
                n / 3
            } else {
                n / 3 + 1
            };
            groups.checked_mul(4).is_some()
        },
        None => false,
    }
}

/// Makes the token for `username` and `password`. A token made for a
/// username without a colon is read back as the two.
pub fn create_cookie(username: &str, password: &str) -> (token: String)
    requires
        token_fits(encode_utf8(username@).len(), encode_utf8(password@).len()),
    ensures
        token@ == url_safe_encoding(sealed(username@, password@)),
        forall|i: int| 0 <= i < token@.len() ==> is_url_safe_char(#[trigger] token@[i]),
        !username@.contains(':') ==> token_credentials(encode_utf8(token@)) == Ok::<
            (Seq<char>, Seq<char>),
            AuthError,
        >((username@, password@)),
{
    let bytes = seal(username, password);
    proof {
        lemma_encode_utf8_joined(username@, seq![':']);
        lemma_encode_utf8_joined(username@ + seq![':'], password@);
        lemma_colon_is_one_byte();
        if !username@.contains(':') {
            lemma_unsealed_sealed(username@, password@);
        }
    }
    encode_url_safe(bytes.as_slice())
}

/// Reads a token, given as its bytes.
pub fn decode_cookie(token: &[u8]) -> (r: Result<UserInfo, AuthError>)
    ensures
        viewed(r) == token_credentials(token@),
{
    match decode_url_safe(token) {
        None => Err(AuthError::InvalidCredentials(Denial::MalformedToken)),
        Some(bytes) => unseal(bytes.as_slice()),
    }
}

/// Reads the token of an `Authorization` header, given as the header's
/// value: `None` where the request has no such header.
pub fn extract_cookie(authorization: Option<&[u8]>) -> (r: Result<UserInfo, AuthError>)
    ensures
        viewed(r) == header_credentials(header_view(authorization)),
{
    let value = match authorization {
        None => { return Err(AuthError::InvalidCredentials(Denial::HeaderMissing)); },
        Some(value) => value,
    };
    if text_of(value).is_none() {
        return Err(AuthError::InvalidCredentials(Denial::HeaderNotUtf8));
    }
    let first = find_byte(value, FIELD_SEPARATOR);
    proof {
        lemma_position(value@, FIELD_SEPARATOR);
    }
    if first >= value.len() {
        return Err(AuthError::InvalidCredentials(Denial::TokenMissing));
    }
    let rest = slice_subrange(value, first + 1, value.len());
    let end = find_byte(rest, FIELD_SEPARATOR);
    proof {
        lemma_position(rest@, FIELD_SEPARATOR);
    }
    decode_cookie(slice_subrange(rest, 0, end))
}

} // verus!
