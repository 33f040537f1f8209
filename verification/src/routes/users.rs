//! The JSON web token handed to a user once authenticated.
use vstd::prelude::*;
use crate::fresh::now_timestamp;
use crate::middleware::hs256_signature_valid;

verus! {

/// The claims of a user's JSON web token: the user id and the expiry.
#[derive(Debug, Clone)]
pub struct AppClaims {
    pub sub: String,
    pub exp: usize,
}

/// The JSON web token, signed with HS256 and `secret`, of the claims `sub`
/// and `exp`.
pub uninterp spec fn jwt_hs256(sub: Seq<char>, exp: u64, secret: Seq<char>) -> Seq<char>;

/// Signs the claims `sub` and `exp` with HS256 and `secret`.
///
/// Trusted: calls `jsonwebtoken::encode` with the default header (HS256), a
/// JSON object of the two claims, and a key made by
/// `EncodingKey::from_secret`. The token is a function of its arguments,
/// named `jwt_hs256`. The source of `encode` fails only for a key of another
/// family than the header's algorithm, for claims or a header that fail to
/// serialize, or for a signature that fails: here the key and the algorithm
/// are both HMAC, the header and a JSON object of a string and a number
/// always serialize, and an HMAC signature cannot fail, so it succeeds. The
/// token is the encoded HS256 header, the encoded claims and the HS256
/// signature of the two under `secret`, which is what `jsonwebtoken::decode`
/// checks again: its signature is valid under `secret`.
#[verifier::external_body]
fn jwt_encode(sub: &str, exp: u64, secret: &str) -> (r: Result<String, String>)
    ensures
        r is Ok,
        r matches Ok(t) ==> t@ == jwt_hs256(sub@, exp, secret@),
        r matches Ok(t) ==> hs256_signature_valid(t@, secret@),
{
    let mut claims = serde_json::Map::new();
    claims.insert("sub".to_string(), serde_json::Value::String(sub.to_string()));
    claims.insert("exp".to_string(), serde_json::Value::from(exp));
    let key = jsonwebtoken::EncodingKey::from_secret(secret.as_bytes());
    jsonwebtoken::encode(&jsonwebtoken::Header::default(), &serde_json::Value::Object(claims), &key)
        .map_err(|e| e.to_string())
}

/// How long a user's token lasts: 24 hours.
pub open spec fn token_lifetime() -> int {
    86400
}

/// The token of the user `user_id`, issued at time `now` and valid 24 hours.
/// The expiry is written as an unsigned number of seconds, so one before the
/// epoch wraps around, as an `as` cast does.
pub fn generate_token_at(user_id: &str, now: i64, secret: &str) -> (r: Result<String, String>)
    requires
        now <= i64::MAX - 86400,
    ensures
        r matches Ok(t) && t@ == jwt_hs256(user_id@, (now + token_lifetime()) as u64, secret@),
        r matches Ok(t) ==> hs256_signature_valid(t@, secret@),
{
    let exp = (now + 86400) as u64;
    jwt_encode(user_id, exp, secret)
}

/// The refusal when the clock is outside the range a token can express.
pub open spec fn clock_out_of_range_message() -> Seq<char> {
    "Horloge hors de la plage des jetons"@
}

/// What issuing a token for `user_id` at time `now` answers: the token, valid
/// 24 hours, or a refusal when `now` is too late for its expiry to be
/// expressed.
pub open spec fn token_issued_at(user_id: Seq<char>, now: i64, secret: Seq<char>, r: Result<String, String>) -> bool {
    if now <= i64::MAX - 86400 {
        r matches Ok(t) && t@ == jwt_hs256(user_id, (now + token_lifetime()) as u64, secret)
    } else {
        r matches Err(e) && e@ == clock_out_of_range_message()
    }
}

/// The token of the user `user_id`, issued now and valid 24 hours.
pub fn generate_token(user_id: &str, secret: &str) -> (r: Result<String, String>)
    ensures
        r matches Ok(t) ==> exists|now: i64| now <= i64::MAX - 86400
            && t@ == #[trigger] jwt_hs256(user_id@, (now + token_lifetime()) as u64, secret@),
        exists|now: i64| #[trigger] token_issued_at(user_id@, now, secret@, r),
        r matches Ok(t) ==> hs256_signature_valid(t@, secret@),
{
    let now = now_timestamp();
    if now > i64::MAX - 86400 {
        let r = Err("Horloge hors de la plage des jetons".to_string());
        assert(token_issued_at(user_id@, now, secret@, r));
        return r;
    }
    let r = generate_token_at(user_id, now, secret);
    assert(token_issued_at(user_id@, now, secret@, r));
    r
}

} // verus!
