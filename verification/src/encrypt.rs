//! Encryption of persisted text with a password: simple_crypt's
//! AES-GCM-SIV with an Argon2 key, carried as standard base64.
use crate::digest::{base64_standard, base64_standard_decode, base64_standard_decoded, base64_standard_encode};
use vstd::prelude::*;
use vstd::utf8::{decode_utf8, encode_utf8, valid_utf8};
use vstd::string::*;

verus! {

broadcast use vstd::string::group_string_axioms;

/// What `simple_crypt::decrypt` gives for `data` and `password`, when it
/// succeeds.
pub uninterp spec fn simple_decrypt(data: Seq<u8>, password: Seq<u8>) -> Option<Seq<u8>>;

/// `data` encrypted with `password`.
///
/// Trusted: calls `simple_crypt::encrypt` and maps its error to its message.
/// The cipher text holds a random salt and nonce, so it is not a function of
/// the arguments; what is stated is what simple_crypt documents: decrypting
/// it with the same password gives `data` back. When and with what message
/// it fails is left unsaid.
#[verifier::external_body]
fn simple_encrypt(data: &[u8], password: &[u8]) -> (r: Result<Vec<u8>, String>)
    ensures
        r matches Ok(c) ==> simple_decrypt(c@, password@) == Some(data@),
{
    simple_crypt::encrypt(data, password).map_err(|e| e.to_string())
}

/// `data` decrypted with `password`.
///
/// Trusted: calls `simple_crypt::decrypt` and maps its error to its message.
/// Decryption is a function of its arguments, named `simple_decrypt`. The
/// message of an error is left unsaid.
#[verifier::external_body]
fn simple_decrypt_bytes(data: &[u8], password: &[u8]) -> (r: Result<Vec<u8>, String>)
    ensures
        match simple_decrypt(data@, password@) {
            Some(p) => r matches Ok(v) && v@ == p,
            None => r is Err,
        },
{
    simple_crypt::decrypt(data, password).map_err(|e| e.to_string())
}

/// The string that the bytes `data` hold in UTF-8.
///
/// Trusted: calls `String::from_utf8`, which std documents as failing
/// exactly when the bytes are not valid UTF-8; the message of the error is
/// left unsaid.
#[verifier::external_body]
fn string_from_utf8(data: Vec<u8>) -> (r: Result<String, String>)
    ensures
        r is Ok <==> valid_utf8(data@),
        r matches Ok(s) ==> s@ == decode_utf8(data@),
{
    String::from_utf8(data).map_err(|e| e.to_string())
}

/// The text that an encrypted text stands for under `key`, if any.
pub open spec fn spec_decrypt_data(encrypted: Seq<char>, key: Seq<char>) -> Option<Seq<char>> {
    match base64_standard_decoded(encrypted) {
        None => None,
        Some(c) => match simple_decrypt(c, encode_utf8(key)) {
            None => None,
            Some(p) => if valid_utf8(p) {
                Some(decode_utf8(p))
            } else {
                None
            },
        },
    }
}

/// The string that UTF-8 bytes hold.
pub fn bytes_to_string(data: &[u8]) -> (r: Result<String, String>)
    ensures
        valid_utf8(data@) ==> (r matches Ok(s) && s@ == decode_utf8(data@)),
        !valid_utf8(data@) ==> r is Err,
{
    string_from_utf8(vstd::slice::slice_to_vec(data))
}

/// Bytes in standard base64.
pub fn encrypt_bytes_to_b64(data: &[u8]) -> (r: String)
    ensures
        r@ == base64_standard(data@),
        base64_standard_decoded(r@) == Some(data@),
{
    base64_standard_encode(data)
}

/// The bytes that a standard base64 text holds.
pub fn decrypt_b64_to_bytes(data: String) -> (r: Result<Vec<u8>, String>)
    ensures
        match base64_standard_decoded(data@) {
            Some(b) => r matches Ok(v) && v@ == b,
            None => r is Err,
        },
{
    base64_standard_decode(data.as_str())
}

/// `data` encrypted with `key`, in base64. Decrypting the result with the
/// same key gives `data` back.
pub fn encrypt_data(data: String, key: &str) -> (r: Result<String, String>)
    ensures
        r matches Ok(c) ==> spec_decrypt_data(c@, key@) == Some(data@),
{
    let bytes = data.as_str().as_bytes();
    let password = key.as_bytes();
    match simple_encrypt(bytes, password) {
        Err(e) => Err(e),
        Ok(c) => {
            let text = encrypt_bytes_to_b64(c.as_slice());
            proof {
                assert(bytes@ == encode_utf8(data@));
                assert(password@ == encode_utf8(key@));
                assert(simple_decrypt(c@, encode_utf8(key@)) == Some(encode_utf8(data@)));
                vstd::utf8::encode_utf8_valid_utf8(data@);
                vstd::utf8::encode_utf8_decode_utf8(data@);
            }
            Ok(text)
        },
    }
}

/// The text that `encrypted_data` stands for under `key`.
pub fn decrypt_data(encrypted_data: String, key: &str) -> (r: Result<String, String>)
    ensures
        match spec_decrypt_data(encrypted_data@, key@) {
            Some(t) => r matches Ok(s) && s@ == t,
            None => r is Err,
        },
{
    let password = key.as_bytes();
    let bytes = match decrypt_b64_to_bytes(encrypted_data) {
        Err(e) => return Err(e),
        Ok(b) => b,
    };
    match simple_decrypt_bytes(bytes.as_slice(), password) {
        Err(e) => Err(e),
        Ok(p) => bytes_to_string(p.as_slice()),
    }
}

} // verus!
