//! Values that the logic takes from the world: fresh identifiers and the
//! current time.
use vstd::prelude::*;

verus! {

/// A lower-case hexadecimal digit.
pub open spec fn is_hex_lower(c: char) -> bool {
    ('0' <= c <= '9') || ('a' <= c <= 'f')
}

/// `s` has the form of a hyphenated UUID as the uuid crate writes it: 36
/// characters, each a lower-case hexadecimal digit or a hyphen.
pub open spec fn uuid_form(s: Seq<char>) -> bool {
    s.len() == 36 && forall|i: int| 0 <= i < 36 ==> (is_hex_lower(#[trigger] s[i]) || s[i] == '-')
}

/// `s` has the form of a BSON object id in hexadecimal: 24 lower-case
/// hexadecimal digits.
pub open spec fn object_id_form(s: Seq<char>) -> bool {
    s.len() == 24 && forall|i: int| 0 <= i < 24 ==> is_hex_lower(#[trigger] s[i])
}

/// No identifier of the form of a UUID starts with the `tmp:` of the
/// temporary ids of a batch.
pub proof fn lemma_uuid_is_not_temporary(s: Seq<char>)
    requires
        uuid_form(s),
    ensures
        !(s.len() >= 4 && s[3] == ':'),
{
    if s.len() >= 4 {
        assert(is_hex_lower(s[3]) || s[3] == '-');
    }
}

/// A fresh random identifier in the hyphenated form of a UUID.
///
/// Trusted: calls `uuid::Uuid::new_v4` and formats it with `to_string`.
/// The uuid crate documents the hyphenated form as 32 lower-case hexadecimal
/// digits in groups of 8, 4, 4, 4 and 12 separated by hyphens. The value
/// itself is random: nothing is said of it beyond that form.
#[verifier::external_body]
pub fn new_uuid() -> (r: String)
    ensures
        uuid_form(r@),
{
    uuid::Uuid::new_v4().to_string()
}

/// A fresh BSON object id, written in hexadecimal.
///
/// Trusted: calls `mongodb::bson::oid::ObjectId::new` and `to_hex`, which
/// encodes the twelve bytes of the id with `hex::encode`, so in 24 lower-case
/// hexadecimal digits. The id depends on the time, the process and a counter:
/// nothing is said of its value beyond that form.
#[verifier::external_body]
pub fn new_object_id_hex() -> (r: String)
    ensures
        object_id_form(r@),
{
    mongodb::bson::oid::ObjectId::new().to_hex()
}

/// The current time, in seconds since the Unix epoch.
///
/// Trusted: calls `chrono::Utc::now` and `timestamp`. It depends on the clock:
/// nothing is said of its value.
#[verifier::external_body]
pub fn now_timestamp() -> (r: i64) {
    chrono::Utc::now().timestamp()
}

/// The current time, written in RFC 3339.
///
/// Trusted: calls `chrono::Utc::now` and `to_rfc3339`. It depends on the
/// clock: nothing is said of its value.
#[verifier::external_body]
pub fn now_rfc3339() -> (r: String) {
    chrono::Utc::now().to_rfc3339()
}

} // verus!
