//! Hashing and encodings of bytes, from the sha2, hex and base64 crates.
use base64::Engine;
use sha2::Digest;
use vstd::prelude::*;

verus! {

/// The SHA-256 digest of `data`.
pub uninterp spec fn sha256(data: Seq<u8>) -> Seq<u8>;

/// The SHA-256 digest of `data`.
///
/// Trusted: calls `sha2::Sha256::new`, `update` and `finalize`. SHA-256 is a
/// function of its input alone, named `sha256` here; the sha2 crate
/// documents its output as 32 bytes.
#[verifier::external_body]
pub fn sha256_digest(data: &[u8]) -> (r: Vec<u8>)
    ensures
        r@ == sha256(data@),
        r@.len() == 32,
{
    let mut hasher = sha2::Sha256::new();
    hasher.update(data);
    hasher.finalize().to_vec()
}

/// The lower-case hexadecimal digit of `n`, for `n < 16`.
pub open spec fn hex_digit(n: int) -> char {
    if n < 10 {
        (48 + n) as char
    } else {
        (87 + n) as char
    }
}

/// `data` written in lower-case hexadecimal, two digits a byte.
pub open spec fn hex_lower(data: Seq<u8>) -> Seq<char>
    decreases data.len(),
{
    if data.len() == 0 {
        Seq::empty()
    } else {
        seq![hex_digit((data[0] / 16) as int), hex_digit((data[0] % 16) as int)] + hex_lower(data.drop_first())
    }
}

/// `data` written in lower-case hexadecimal.
///
/// Trusted: calls `hex::encode`, which writes each byte as two digits of
/// `0123456789abcdef`, high nibble first (its `HEX_CHARS_LOWER` table).
#[verifier::external_body]
pub fn hex_encode(data: &[u8]) -> (r: String)
    ensures
        r@ == hex_lower(data@),
{
    hex::encode(data)
}

/// The standard base64 encoding (with padding) of `data`.
pub uninterp spec fn base64_standard(data: Seq<u8>) -> Seq<char>;

/// The bytes that a text decodes to in standard base64, if it is valid.
pub uninterp spec fn base64_standard_decoded(text: Seq<char>) -> Option<Seq<u8>>;

/// The URL-safe base64 encoding, without padding, of `data`.
pub uninterp spec fn base64_url_no_pad(data: Seq<u8>) -> Seq<char>;

/// `data` in standard base64.
///
/// Trusted: calls `base64::engine::general_purpose::STANDARD.encode`, a
/// function of its input alone, named `base64_standard` here. The base64
/// crate documents that decoding what it encodes gives the bytes back.
#[verifier::external_body]
pub fn base64_standard_encode(data: &[u8]) -> (r: String)
    ensures
        r@ == base64_standard(data@),
        base64_standard_decoded(r@) == Some(data@),
{
    base64::engine::general_purpose::STANDARD.encode(data)
}

/// The bytes that `text` holds in standard base64.
///
/// Trusted: calls `base64::engine::general_purpose::STANDARD.decode` on the
/// bytes of `text`, and maps its error to its message. Decoding is a function
/// of the text alone, named `base64_standard_decoded`. The message of an
/// error is left unsaid.
#[verifier::external_body]
pub fn base64_standard_decode(text: &str) -> (r: Result<Vec<u8>, String>)
    ensures
        match base64_standard_decoded(text@) {
            Some(b) => r matches Ok(v) && v@ == b,
            None => r is Err,
        },
{
    base64::engine::general_purpose::STANDARD.decode(text).map_err(|e| e.to_string())
}

/// `data` in URL-safe base64 without padding.
///
/// Trusted: calls `base64::engine::general_purpose::URL_SAFE_NO_PAD.encode`,
/// a function of its input alone, named `base64_url_no_pad` here. Without
/// padding, the crate writes four characters for each full group of three
/// bytes and two or three for a last group of one or two.
#[verifier::external_body]
pub fn base64_url_no_pad_encode(data: &[u8]) -> (r: String)
    ensures
        r@ == base64_url_no_pad(data@),
        r@.len() == (4 * data@.len() + 2) / 3,
{
    base64::engine::general_purpose::URL_SAFE_NO_PAD.encode(data)
}

} // verus!
