//! The first token scheme: a temporary token accepted within a minute either
//! side of its timestamp, then a random token valid a day, kept in memory.
use crate::fresh::{new_uuid, now_timestamp, uuid_form};
use crate::security_utils::{a_day_after, hash_token, spec_hash_token};
use crate::str_map::StrMap;
use vstd::prelude::*;

verus! {

broadcast use vstd::string::group_string_axioms;

/// A temporary token is accepted when its timestamp is at most 60 seconds
/// away from `now`, on either side, and its hash is the expected one.
pub open spec fn spec_verify_temp_token(
    role: Seq<char>,
    timestamp: i64,
    hash_received: Seq<char>,
    now: i64,
    secret: Seq<char>,
) -> bool {
    let d = now - timestamp;
    !(d > 60 || d < -60) && spec_hash_token(role, secret, timestamp) == hash_received
}

/// Checks a temporary token at time `now`, against the hash secret `secret`.
pub fn verify_temp_token_at(role: &str, timestamp: i64, hash_received: &str, now: i64, secret: &str) -> (r: bool)
    ensures
        r == spec_verify_temp_token(role@, timestamp, hash_received@, now, secret@),
{
    let d: i128 = (now as i128) - (timestamp as i128);
    if d > 60 || d < -60 {
        return false;
    }
    let expected = hash_token(role, secret, timestamp);
    crate::text::str_eq(expected.as_str(), hash_received)
}

/// Checks a temporary token now, against the hash secret `secret`.
pub fn verify_temp_token(role: &str, timestamp: i64, hash_received: &str, secret: &str) -> (r: bool)
    ensures
        r ==> exists|now: i64| spec_verify_temp_token(role@, timestamp, hash_received@, now, secret@),
        r ==> spec_hash_token(role@, secret@, timestamp) == hash_received@,
        exists|now: i64| r == #[trigger] spec_verify_temp_token(role@, timestamp, hash_received@, now, secret@),
{
    let now = now_timestamp();
    let r = verify_temp_token_at(role, timestamp, hash_received, now, secret);
    assert(r == spec_verify_temp_token(role@, timestamp, hash_received@, now, secret@));
    r
}

/// `token` is stored and has not expired at time `now`.
pub open spec fn token_valid_at(store: Map<Seq<char>, i64>, token: Seq<char>, now: i64) -> bool {
    store.contains_key(token) && now < store[token]
}

/// The tokens handed out, each with the time it expires.
pub struct TokenStore {
    tokens: StrMap<i64>,
}

impl View for TokenStore {
    type V = Map<Seq<char>, i64>;

    closed spec fn view(&self) -> Map<Seq<char>, i64> {
        self.tokens@
    }
}

impl TokenStore {
    /// An empty store.
    pub fn new() -> (r: Self)
        ensures
            r@ == Map::<Seq<char>, i64>::empty(),
    {
        TokenStore { tokens: StrMap::new() }
    }

    /// Stores `token`, valid 24 hours from `now`.
    pub fn store_token(&mut self, token: String, now: i64)
        requires
            now <= i64::MAX - 86400,
        ensures
            final(self)@ == old(self)@.insert(token@, (now + 86400) as i64),
    {
        self.tokens.insert(token, now + 86400);
    }

    /// Creates and stores a random token, valid 24 hours. At the very end of
    /// the range of the clock the expiry saturates.
    pub fn generate_and_store(&mut self) -> (r: String)
        ensures
            uuid_form(r@),
            exists|now: i64| now <= i64::MAX - 86400 && final(self)@ == old(self)@.insert(r@, #[trigger] a_day_after(now) as i64),
    {
        let token = new_uuid();
        let now = now_timestamp();
        let now = if now > i64::MAX - 86400 { i64::MAX - 86400 } else { now };
        self.store_token(token.clone(), now);
        assert(self@ == old(self)@.insert(token@, a_day_after(now) as i64));
        token
    }

    /// Whether `token` is stored and has not expired at time `now`.
    pub fn verify_stored_token_at(&self, token: &str, now: i64) -> (r: bool)
        ensures
            r == (self@.contains_key(token@) && now < self@[token@]),
    {
        match self.tokens.get(token) {
            Some(expiration) => now < *expiration,
            None => false,
        }
    }

    /// Whether `token` is stored and has not expired now.
    pub fn verify_stored_token(&self, token: &str) -> (r: bool)
        ensures
            r ==> self@.contains_key(token@),
            exists|now: i64| r == #[trigger] token_valid_at(self@, token@, now),
    {
        let now = now_timestamp();
        let r = self.verify_stored_token_at(token, now);
        assert(r == token_valid_at(self@, token@, now));
        r
    }

    /// Forgets `token` (logout).
    pub fn revoke(&mut self, token: &str)
        ensures
            final(self)@ == old(self)@.remove(token@),
    {
        self.tokens.remove(token);
    }
}

/// A token stored at time `t` is accepted until 24 hours later, and no longer
/// once revoked.
pub proof fn law_token_lifetime(store: Map<Seq<char>, i64>, token: Seq<char>, t: i64, now: i64)
    requires
        t <= i64::MAX - 86400,
    ensures
        ({
            let s = store.insert(token, (t + 86400) as i64);
            (s.contains_key(token) && now < s[token]) <==> now < t + 86400
        }),
        !store.remove(token).contains_key(token),
{
}

} // verus!
