//! Opaque URL codec: a URL's UTF-8 bytes written in base58.
use vstd::prelude::*;
use vstd::utf8::{decode_utf8, encode_scalar, encode_utf8, encode_utf8_decode_utf8, valid_utf8, encode_utf8_valid_utf8};

verus! {

/// The base58 text that bs58 writes for a byte string.
pub uninterp spec fn bs58_text(b: Seq<u8>) -> Seq<char>;

/// The bytes that bs58 reads from a text, or `None` where the text is not base58.
pub uninterp spec fn bs58_bytes(t: Seq<char>) -> Option<Seq<u8>>;

/// A character of the Bitcoin base58 alphabet: digits and ASCII letters
/// without `0`, `O`, `I` and `l`. None of them needs escaping in a URL path.
pub open spec fn is_base58_char(c: char) -> bool {
    (('1' <= c && c <= '9') || ('A' <= c && c <= 'Z') || ('a' <= c && c <= 'z'))
        && c != 'O' && c != 'I' && c != 'l'
}

/// Every character of the text is in the base58 alphabet.
pub open spec fn all_base58(t: Seq<char>) -> bool {
    forall|i: int| 0 <= i < t.len() ==> is_base58_char(#[trigger] t[i])
}

/// The token that stands for a URL.
pub open spec fn token_of(url: Seq<char>) -> Seq<char> {
    bs58_text(encode_utf8(url))
}

/// The text a token decodes to: its base58 bytes read as UTF-8.
pub open spec fn decoded(token: Seq<char>) -> Option<Seq<char>> {
    match bs58_bytes(token) {
        Some(b) => if valid_utf8(b) {
            Some(decode_utf8(b))
        } else {
            None
        },
        None => None,
    }
}

/// Why a token could not be decoded.
#[derive(Debug, Clone, Copy, PartialEq, Eq)]
pub enum DecodeError {
    /// The token holds a character outside the base58 alphabet.
    NotBase58,
    /// The decoded bytes are not UTF-8.
    NotUtf8,
}

/// Relies on `bs58::encode(..).into_string()`: the base58 text of the bytes,
/// all of it in the alphabet, at least one character for each leading zero
/// byte or digit, which `bs58::decode` reads back to the same bytes.
#[verifier::external_body]
fn base58_encode(b: &[u8]) -> (r: String)
    ensures
        r@ == bs58_text(b@),
        bs58_bytes(r@) == Some(b@),
        all_base58(r@),
        b@.len() > 0 ==> r@.len() > 0,
{
    bs58::encode(b).into_string()
}

/// Relies on `bs58::decode(..).into_vec()`: the bytes of a base58 text, or an
/// error exactly where a character is outside the alphabet.
#[verifier::external_body]
fn base58_decode(t: &str) -> (r: Option<Vec<u8>>)
    ensures
        r is None <==> !all_base58(t@),
        r matches Some(v) ==> bs58_bytes(t@) == Some(v@),
        r is None ==> bs58_bytes(t@) is None,
{
    bs58::decode(t).into_vec().ok()
}

/// Relies on `String::from_utf8`: succeeds exactly on valid UTF-8 and then
/// holds the characters the bytes encode.
#[verifier::external_body]
fn utf8_string(b: Vec<u8>) -> (r: Option<String>)
    ensures
        r is Some <==> valid_utf8(b@),
        r matches Some(s) ==> s@ == decode_utf8(b@),
{
    String::from_utf8(b).ok()
}

/// Encodes a URL (any text) as a path-safe token, non-empty for a non-empty
/// text; decoding the token gives the text back.
pub fn encode(url: &str) -> (r: String)
    ensures
        r@ == token_of(url@),
        decoded(r@) == Some(url@),
        all_base58(r@),
        url@.len() > 0 ==> r@.len() > 0,
{
    let bytes = url.as_bytes();
    let r = base58_encode(bytes);
    proof {
        encode_utf8_valid_utf8(url@);
        encode_utf8_decode_utf8(url@);
        if url@.len() > 0 {
            assert(encode_utf8(url@) == encode_scalar(url@[0] as u32) + encode_utf8(url@.drop_first()));
        }
    }
    r
}

/// Decodes a token back to the text it stands for.
pub fn decode(token: &str) -> (r: Result<String, DecodeError>)
    ensures
        r is Ok <==> decoded(token@) is Some,
        r matches Ok(s) ==> decoded(token@) == Some(s@),
        r == Err::<String, DecodeError>(DecodeError::NotBase58) <==> !all_base58(token@),
        r == Err::<String, DecodeError>(DecodeError::NotBase58) <==> bs58_bytes(token@) is None,
        r == Err::<String, DecodeError>(DecodeError::NotUtf8) <==> (bs58_bytes(token@) matches Some(
            b,
        ) && !valid_utf8(b)),
{
    match base58_decode(token) {
        None => Err(DecodeError::NotBase58),
        Some(bytes) => match utf8_string(bytes) {
            Some(s) => Ok(s),
            None => Err(DecodeError::NotUtf8),
        },
    }
}

} // verus!
