//! Base64 in its two forms used here: the standard alphabet with padding,
//! and the URL-safe alphabet without padding (base64's general-purpose
//! engines).

use vstd::prelude::*;
use base64::Engine;
use vstd::utf8::{decode_utf8, valid_utf8};

verus! {

/// The URL-safe, unpadded encoding of some bytes (base64's
/// `URL_SAFE_NO_PAD.encode`).
pub uninterp spec fn base64_url(bytes: Seq<u8>) -> Seq<char>;

/// The standard, padded encoding of some bytes (base64's `STANDARD.encode`).
pub uninterp spec fn base64_std(bytes: Seq<u8>) -> Seq<char>;

/// What base64's `STANDARD.decode` makes of a text: the bytes, or `None`
/// when it refuses the text.
pub uninterp spec fn base64_std_decode(s: Seq<char>) -> Option<Seq<u8>>;

/// The text of the error with which base64's `STANDARD.decode` refuses a
/// text (its `Display`).
pub uninterp spec fn base64_error_text(s: Seq<char>) -> Seq<char>;

/// Length of the unpadded encoding of `n` bytes: four characters for each
/// three bytes, and two or three for a last group of one or two bytes.
pub open spec fn unpadded_len(n: nat) -> nat {
    let tail: nat = if n % 3 == 0 {
        0
    } else if n % 3 == 1 {
        2
    } else {
        3
    };
    (n / 3) * 4 + tail
}

/// Length of the padded encoding of `n` bytes: four characters for each
/// group of up to three bytes.
pub open spec fn padded_len(n: nat) -> nat {
    ((n + 2) / 3) * 4nat
}

/// A character of the URL-safe alphabet.
pub open spec fn url_safe_char(c: char) -> bool {
    ('A' <= c <= 'Z') || ('a' <= c <= 'z') || ('0' <= c <= '9') || c == '-' || c == '_'
}

/// Encodes bytes with the URL-safe alphabet and no padding (base64's
/// `URL_SAFE_NO_PAD.encode`). The result is named; its length (four
/// characters per three bytes, two or three for the rest) and its alphabet
/// are stated, as the crate's `encoded_len` and alphabet define them. The
/// crate panics when that length overflows `usize`.
#[verifier::external_body]
pub(crate) fn encode_url(bytes: &[u8]) -> (r: String)
    requires
        unpadded_len(bytes@.len()) <= usize::MAX,
    ensures
        r@ == base64_url(bytes@),
        r@.len() == unpadded_len(bytes@.len()),
        forall|i: int| 0 <= i < r@.len() ==> url_safe_char(#[trigger] r@[i]),
{
    base64::engine::general_purpose::URL_SAFE_NO_PAD.encode(bytes)
}

/// Encodes bytes with the standard alphabet and padding (base64's
/// `STANDARD.encode`). The result is named and its length (four characters
/// per group of up to three bytes) stated. The crate panics when that
/// length overflows `usize`.
#[verifier::external_body]
pub(crate) fn encode_std(bytes: &[u8]) -> (r: String)
    requires
        padded_len(bytes@.len()) <= usize::MAX,
    ensures
        r@ == base64_std(bytes@),
        r@.len() == padded_len(bytes@.len()),
{
    base64::engine::general_purpose::STANDARD.encode(bytes)
}

/// Decodes a text with the standard alphabet and padding (base64's
/// `STANDARD.decode`), the error taken to its text. Besides naming the
/// outcome, it states that what `STANDARD.encode` made decodes to the bytes
/// it was made of.
#[verifier::external_body]
pub(crate) fn decode_std(s: &str) -> (r: Result<Vec<u8>, String>)
    ensures
        r matches Ok(b) ==> base64_std_decode(s@) == Some(b@),
        r matches Err(t) ==> base64_std_decode(s@) is None && t@ == base64_error_text(s@),
        r is Err ==> forall|b: Seq<u8>| s@ != #[trigger] base64_std(b),
        r matches Ok(v) ==> forall|b: Seq<u8>| s@ == #[trigger] base64_std(b) ==> v@ == b,
{
    match base64::engine::general_purpose::STANDARD.decode(s) {
        Ok(v) => Ok(v),
        Err(e) => Err(e.to_string()),
    }
}

/// The text of std's `FromUtf8Error` for bytes that are no UTF-8.
pub uninterp spec fn utf8_error_text(bytes: Seq<u8>) -> Seq<char>;

/// std's `String::from_utf8`, the error taken to its text: the text whose
/// UTF-8 encoding the bytes are, when they are valid UTF-8.
#[verifier::external_body]
pub(crate) fn string_from_utf8(bytes: Vec<u8>) -> (r: Result<String, String>)
    ensures
        r is Ok <==> valid_utf8(bytes@),
        r matches Ok(s) ==> s@ == decode_utf8(bytes@),
        r matches Err(t) ==> t@ == utf8_error_text(bytes@),
{
    match String::from_utf8(bytes) {
        Ok(s) => Ok(s),
        Err(e) => Err(e.to_string()),
    }
}

} // verus!
