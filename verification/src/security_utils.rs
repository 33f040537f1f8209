//! Two-step authentication of the dashboard: a short-lived token proves
//! knowledge of a shared secret, then a long-lived authorization (a token
//! and a cookie) is stored in memory and checked on each request.
use crate::digest::{hex_encode, hex_lower, sha256, sha256_digest};
use crate::fresh::{new_uuid, now_timestamp, uuid_form};
use crate::str_map::StrMap;
use crate::text::{concat, concat3, i64_to_string, signed_decimal};
use vstd::prelude::*;
use vstd::utf8::encode_utf8;
use vstd::string::*;

verus! {

broadcast use vstd::string::group_string_axioms;

/// The hash that proves knowledge of `secret` for `role` at `timestamp`:
/// SHA-256 of `role|secret|timestamp`, in lower-case hexadecimal.
pub open spec fn spec_hash_token(role: Seq<char>, secret: Seq<char>, timestamp: i64) -> Seq<char> {
    hex_lower(sha256(encode_utf8(role + "|"@ + secret + "|"@ + signed_decimal(timestamp as int))))
}

/// The hash that proves knowledge of `secret` for `role` at `timestamp`.
pub fn hash_token(role: &str, secret: &str, timestamp: i64) -> (r: String)
    ensures
        r@ == spec_hash_token(role@, secret@, timestamp),
{
    let a = concat3(role, "|", secret);
    let t = i64_to_string(timestamp);
    let data = concat3(a.as_str(), "|", t.as_str());
    let digest = sha256_digest(data.as_str().as_bytes());
    hex_encode(digest.as_slice())
}

/// A temporary token is accepted when its timestamp is not in the future,
/// is at most 60 seconds old, and its hash is the expected one.
pub open spec fn spec_verify_temp_token(
    role: Seq<char>,
    timestamp: i64,
    hash_received: Seq<char>,
    now: i64,
    secret: Seq<char>,
) -> bool {
    !(timestamp > now || now - timestamp > 60) && spec_hash_token(role, secret, timestamp)
        == hash_received
}

/// Checks a temporary token at time `now`, against the hash secret `secret`.
pub fn verify_temp_token_at(role: &str, timestamp: i64, hash_received: &str, now: i64, secret: &str) -> (r: bool)
    ensures
        r == spec_verify_temp_token(role@, timestamp, hash_received@, now, secret@),
{
    if timestamp > now || (now as i128) - (timestamp as i128) > 60 {
        return false;
    }
    let expected = hash_token(role, secret, timestamp);
    crate::text::str_eq(expected.as_str(), hash_received)
}

/// Checks a temporary token now, against the hash secret `secret`.
pub fn verify_temp_token(role: &str, timestamp: i64, hash_received: &str, secret: &str) -> (r: bool)
    ensures
        r ==> exists|now: i64| spec_verify_temp_token(role@, timestamp, hash_received@, now, secret@),
        r ==> spec_hash_token(role@, secret@, timestamp) == hash_received@,
        exists|now: i64| r == #[trigger] spec_verify_temp_token(role@, timestamp, hash_received@, now, secret@),
{
    let now = now_timestamp();
    let r = verify_temp_token_at(role, timestamp, hash_received, now, secret);
    assert(r == spec_verify_temp_token(role@, timestamp, hash_received@, now, secret@));
    r
}

/// The token that the server keeps for a token it hands out: SHA-256 of
/// `token|secret`, in lower-case hexadecimal.
pub open spec fn spec_derivate_token(token: Seq<char>, secret: Seq<char>) -> Seq<char> {
    hex_lower(sha256(encode_utf8(token + "|"@ + secret)))
}

/// The token that the server keeps for a token it hands out.
pub fn derivate_token(token: &str, secret: &str) -> (r: String)
    ensures
        r@ == spec_derivate_token(token@, secret@),
{
    let data = concat3(token, "|", secret);
    let digest = sha256_digest(data.as_str().as_bytes());
    hex_encode(digest.as_slice())
}

/// A long-lived authorization: the token handed to the client, the token
/// derived from it, by which the store finds it, the cookie, and when they
/// expire.
#[derive(Debug, Clone)]
pub struct SecurityStoreAutorization {
    pub expiration: i64,
    pub token: String,
    pub derivated_token: String,
    pub cookie: String,
}

impl SecurityStoreAutorization {
    /// A copy of this authorization.
    pub fn duplicate(&self) -> (r: Self)
        ensures
            r == *self,
    {
        SecurityStoreAutorization {
            expiration: self.expiration,
            token: self.token.clone(),
            derivated_token: self.derivated_token.clone(),
            cookie: self.cookie.clone(),
        }
    }
}

/// The content of a security store: the authorizations by id, and the ids
/// by derived token and by cookie.
pub struct SecurityStoreView {
    pub autorizations: Map<Seq<char>, SecurityStoreAutorization>,
    pub tokens: Map<Seq<char>, Seq<char>>,
    pub cookies: Map<Seq<char>, Seq<char>>,
}

/// The authorization that an index leads to for `key`, if any.
pub open spec fn spec_lookup(
    index: Map<Seq<char>, Seq<char>>,
    autorizations: Map<Seq<char>, SecurityStoreAutorization>,
    key: Seq<char>,
) -> Option<SecurityStoreAutorization> {
    if index.contains_key(key) && autorizations.contains_key(index[key]) {
        Some(autorizations[index[key]])
    } else {
        None
    }
}

/// The authorization of a derived token, if any.
pub open spec fn spec_by_token(s: SecurityStoreView, derivated_token: Seq<char>) -> Option<SecurityStoreAutorization> {
    spec_lookup(s.tokens, s.autorizations, derivated_token)
}

/// The authorization of a cookie, if any.
pub open spec fn spec_by_cookie(s: SecurityStoreView, cookie: Seq<char>) -> Option<SecurityStoreAutorization> {
    spec_lookup(s.cookies, s.autorizations, cookie)
}

/// The store with `a` put under `id` and indexed by its derived token and
/// its cookie, over whatever these held.
pub open spec fn spec_insert(s: SecurityStoreView, id: Seq<char>, a: SecurityStoreAutorization) -> SecurityStoreView {
    SecurityStoreView {
        autorizations: s.autorizations.insert(id, a),
        tokens: s.tokens.insert(a.derivated_token@, id),
        cookies: s.cookies.insert(a.cookie@, id),
    }
}

/// The store once what would clash with adding `a` under `id` is revoked:
/// the authorization of its derived token, that of its cookie, and the one
/// already under `id`.
pub open spec fn spec_evict(s: SecurityStoreView, id: Seq<char>, a: SecurityStoreAutorization) -> SecurityStoreView {
    let s1 = spec_revoke_token(s, a.derivated_token@);
    let s2 = spec_revoke_cookie(s1, a.cookie@);
    if s2.autorizations.contains_key(id) {
        spec_revoke_token(s2, s2.autorizations[id].derivated_token@)
    } else {
        s2
    }
}

/// The store once `a` is added under `id`: what would clash with it is
/// revoked first, so that the indexes keep agreeing with the
/// authorizations.
pub open spec fn spec_add(s: SecurityStoreView, id: Seq<char>, a: SecurityStoreAutorization) -> SecurityStoreView {
    spec_insert(spec_evict(s, id, a), id, a)
}

/// The store once the authorization of a derived token is revoked: it is
/// removed with its two index entries.
pub open spec fn spec_revoke_token(s: SecurityStoreView, derivated_token: Seq<char>) -> SecurityStoreView {
    if s.tokens.contains_key(derivated_token) {
        let id = s.tokens[derivated_token];
        SecurityStoreView {
            autorizations: s.autorizations.remove(id),
            tokens: s.tokens.remove(derivated_token),
            cookies: if s.autorizations.contains_key(id) {
                s.cookies.remove(s.autorizations[id].cookie@)
            } else {
                s.cookies
            },
        }
    } else {
        s
    }
}

/// The store once the authorization of a cookie is revoked: it is removed
/// with its two index entries.
pub open spec fn spec_revoke_cookie(s: SecurityStoreView, cookie: Seq<char>) -> SecurityStoreView {
    if s.cookies.contains_key(cookie) {
        let id = s.cookies[cookie];
        SecurityStoreView {
            autorizations: s.autorizations.remove(id),
            tokens: if s.autorizations.contains_key(id) {
                s.tokens.remove(s.autorizations[id].derivated_token@)
            } else {
                s.tokens
            },
            cookies: s.cookies.remove(cookie),
        }
    } else {
        s
    }
}

/// The ids of the authorizations that expired before `now`.
pub open spec fn expired_ids(s: SecurityStoreView, now: i64) -> Set<Seq<char>> {
    s.autorizations.dom().filter(|id: Seq<char>| s.autorizations[id].expiration < now)
}

/// The store once the authorizations that expired before `now` are removed,
/// with their index entries.
pub open spec fn spec_clear_expired(s: SecurityStoreView, now: i64) -> SecurityStoreView {
    let gone = expired_ids(s, now);
    SecurityStoreView {
        autorizations: s.autorizations.remove_keys(gone),
        tokens: s.tokens.remove_keys(gone.map(|id: Seq<char>| s.autorizations[id].derivated_token@)),
        cookies: s.cookies.remove_keys(gone.map(|id: Seq<char>| s.autorizations[id].cookie@)),
    }
}

/// The strings among the first `n` of `v`.
pub open spec fn names_upto(v: Seq<String>, n: int) -> Set<Seq<char>> {
    Set::new(|k: Seq<char>| exists|m: int| 0 <= m < n && #[trigger] v[m]@ == k)
}

proof fn lemma_names_upto_step(v: Seq<String>, n: int)
    requires
        0 <= n < v.len(),
    ensures
        names_upto(v, n + 1) == names_upto(v, n).insert(v[n]@),
{
    assert forall|k: Seq<char>| names_upto(v, n + 1).contains(k) implies names_upto(v, n).insert(v[n]@).contains(k) by {
        let m = choose|m: int| 0 <= m < n + 1 && #[trigger] v[m]@ == k;
        if m < n {
            assert(names_upto(v, n).contains(k));
        }
    }
    assert forall|k: Seq<char>| names_upto(v, n).insert(v[n]@).contains(k) implies names_upto(v, n + 1).contains(k) by {
        if k != v[n]@ {
            let m = choose|m: int| 0 <= m < n && #[trigger] v[m]@ == k;
            assert(v[m]@ == k);
        }
    }
    assert(names_upto(v, n + 1) =~= names_upto(v, n).insert(v[n]@));
}

proof fn lemma_names_upto_prefix(v: Seq<String>, w: Seq<String>, n: int)
    requires
        0 <= n <= w.len(),
        n <= v.len(),
        v.subrange(0, n) == w.subrange(0, n),
    ensures
        names_upto(v, n) == names_upto(w, n),
{
    assert forall|k: Seq<char>| names_upto(v, n).contains(k) implies names_upto(w, n).contains(k) by {
        let m = choose|m: int| 0 <= m < n && #[trigger] v[m]@ == k;
        assert(v.subrange(0, n)[m] == v[m]);
        assert(w.subrange(0, n)[m] == w[m]);
        assert(w[m]@ == k);
    }
    assert forall|k: Seq<char>| names_upto(w, n).contains(k) implies names_upto(v, n).contains(k) by {
        let m = choose|m: int| 0 <= m < n && #[trigger] w[m]@ == k;
        assert(v.subrange(0, n)[m] == v[m]);
        assert(w.subrange(0, n)[m] == w[m]);
        assert(v[m]@ == k);
    }
    assert(names_upto(v, n) =~= names_upto(w, n));
}

/// What checking the derived token `dt` at time `now` gives and leaves: it
/// is valid while its authorization has not expired, and an expired one is
/// revoked.
pub open spec fn token_check_at(s: SecurityStoreView, dt: Seq<char>, now: i64, r: bool, after: SecurityStoreView) -> bool {
    &&& r == (spec_by_token(s, dt) matches Some(a) && now < a.expiration)
    &&& after == if spec_by_token(s, dt) matches Some(a) && now >= a.expiration {
        spec_revoke_token(s, dt)
    } else {
        s
    }
}

/// What checking the cookie `c` at time `now` gives and leaves: it is valid
/// while its authorization has not expired, and an expired one is revoked.
pub open spec fn cookie_check_at(s: SecurityStoreView, c: Seq<char>, now: i64, r: bool, after: SecurityStoreView) -> bool {
    &&& r == (spec_by_cookie(s, c) matches Some(a) && now < a.expiration)
    &&& after == if spec_by_cookie(s, c) matches Some(a) && now >= a.expiration {
        spec_revoke_cookie(s, c)
    } else {
        s
    }
}

/// The time 24 hours after `now`, in seconds.
pub open spec fn a_day_after(now: i64) -> int {
    now + 86400
}

/// The two indexes and the authorizations agree: each derived token and
/// each cookie indexed leads to an authorization that carries it, and each
/// authorization is indexed by its derived token and by its cookie.
pub open spec fn store_wf(s: SecurityStoreView) -> bool {
    &&& forall|k: Seq<char>| #[trigger] s.tokens.contains_key(k) ==> {
        &&& s.autorizations.contains_key(s.tokens[k])
        &&& s.autorizations[s.tokens[k]].derivated_token@ == k
    }
    &&& forall|k: Seq<char>| #[trigger] s.cookies.contains_key(k) ==> {
        &&& s.autorizations.contains_key(s.cookies[k])
        &&& s.autorizations[s.cookies[k]].cookie@ == k
    }
    &&& forall|id: Seq<char>| #[trigger] s.autorizations.contains_key(id) ==> {
        &&& s.tokens.contains_key(s.autorizations[id].derivated_token@)
        &&& s.tokens[s.autorizations[id].derivated_token@] == id
        &&& s.cookies.contains_key(s.autorizations[id].cookie@)
        &&& s.cookies[s.autorizations[id].cookie@] == id
    }
}

/// The long-lived authorizations handed out, kept in memory.
pub struct SecurityStore {
    autorization: StrMap<SecurityStoreAutorization>,
    derivated_token_to_id: StrMap<String>,
    cookie_to_id: StrMap<String>,
}

/// The ids of an index, seen as character sequences.
pub open spec fn index_view(m: Map<Seq<char>, String>) -> Map<Seq<char>, Seq<char>> {
    m.map_values(|v: String| v@)
}

/// The content of a store made of these three maps.
pub open spec fn parts_view(
    autorization: StrMap<SecurityStoreAutorization>,
    derivated_token_to_id: StrMap<String>,
    cookie_to_id: StrMap<String>,
) -> SecurityStoreView {
    SecurityStoreView {
        autorizations: autorization@,
        tokens: index_view(derivated_token_to_id@),
        cookies: index_view(cookie_to_id@),
    }
}

impl View for SecurityStore {
    type V = SecurityStoreView;

    closed spec fn view(&self) -> SecurityStoreView {
        parts_view(self.autorization, self.derivated_token_to_id, self.cookie_to_id)
    }
}

impl SecurityStore {
    /// The indexes of a store always agree with its authorizations.
    #[verifier::type_invariant]
    closed spec fn well_formed(self) -> bool {
        store_wf(self@)
    }

    /// Empties the store and hands out its three maps.
    fn take_parts(&mut self) -> (r: (StrMap<SecurityStoreAutorization>, StrMap<String>, StrMap<String>))
        ensures
            parts_view(r.0, r.1, r.2) == old(self)@,
            store_wf(old(self)@),
    {
        proof {
            use_type_invariant(&*self);
        }
        let mut taken = SecurityStore::new();
        std::mem::swap(self, &mut taken);
        let SecurityStore { autorization, derivated_token_to_id, cookie_to_id } = taken;
        (autorization, derivated_token_to_id, cookie_to_id)
    }

    /// An empty store.
    pub fn new() -> (r: Self)
        ensures
            r@.autorizations == Map::<Seq<char>, SecurityStoreAutorization>::empty(),
            r@.tokens == Map::<Seq<char>, Seq<char>>::empty(),
            r@.cookies == Map::<Seq<char>, Seq<char>>::empty(),
            store_wf(r@),
    {
        let r = SecurityStore {
            autorization: StrMap::new(),
            derivated_token_to_id: StrMap::new(),
            cookie_to_id: StrMap::new(),
        };
        assert(index_view(r.derivated_token_to_id@) =~= Map::<Seq<char>, Seq<char>>::empty());
        assert(index_view(r.cookie_to_id@) =~= Map::<Seq<char>, Seq<char>>::empty());
        r
    }

    /// Stores `a` under `id`, indexed by its derived token and its cookie,
    /// once what would clash with it is revoked.
    fn add_autorisation_with_id(&mut self, id: String, a: SecurityStoreAutorization)
        ensures
            final(self)@ == spec_add(old(self)@, id@, a),
    {
        proof {
            use_type_invariant(&*self);
            lemma_evict_clears(old(self)@, id@, a);
        }
        self.revoke_token(a.derivated_token.as_str());
        self.revoke_cookie(a.cookie.as_str());
        let stale = match self.autorization.get(id.as_str()) {
            Some(b) => Some(b.derivated_token.clone()),
            None => None,
        };
        if let Some(dt) = stale {
            self.revoke_token(dt.as_str());
        }
        let ghost cleared = self@;
        assert(cleared == spec_evict(old(self)@, id@, a));
        let (mut auths, mut tokens, mut cookies) = self.take_parts();
        let dt = a.derivated_token.clone();
        let cookie = a.cookie.clone();
        auths.insert(id.clone(), a);
        tokens.insert(dt, id.clone());
        cookies.insert(cookie, id);
        proof {
            assert(parts_view(auths, tokens, cookies).tokens =~= spec_add(old(self)@, id@, a).tokens);
            assert(parts_view(auths, tokens, cookies).cookies =~= spec_add(old(self)@, id@, a).cookies);
            assert(parts_view(auths, tokens, cookies) == spec_add(old(self)@, id@, a));
            law_add_keeps_store_wf(cleared, id@, a);
        }
        *self = SecurityStore { autorization: auths, derivated_token_to_id: tokens, cookie_to_id: cookies };
    }

    /// Stores `a` under a fresh random id.
    fn add_autorisation(&mut self, a: SecurityStoreAutorization)
        ensures
            exists|id: Seq<char>| uuid_form(id) && final(self)@ == spec_add(old(self)@, id, a),
    {
        let id = new_uuid();
        self.add_autorisation_with_id(id, a);
    }

    /// Stores a new authorization for `token` and `cookie`, valid 24 hours
    /// from `now`, with the derived token computed with `derivation_secret`.
    /// An authorization that held the same derived token, cookie or id is
    /// revoked first.
    pub fn store_new_autorisation(
        &mut self,
        token: String,
        cookie: String,
        now: i64,
        derivation_secret: &str,
    ) -> (r: SecurityStoreAutorization)
        requires
            now <= i64::MAX - 86400,
        ensures
            r.token == token,
            r.cookie == cookie,
            r.derivated_token@ == spec_derivate_token(token@, derivation_secret@),
            r.expiration == now + 86400,
            exists|id: Seq<char>| uuid_form(id) && final(self)@ == spec_add(old(self)@, id, r),
            store_wf(old(self)@),
            store_wf(final(self)@),
    {
        proof {
            use_type_invariant(&*self);
        }
        let derivated_token = derivate_token(token.as_str(), derivation_secret);
        let autorisation = SecurityStoreAutorization {
            token,
            derivated_token,
            expiration: now + 86400,
            cookie,
        };
        self.add_autorisation(autorisation.duplicate());
        proof {
            use_type_invariant(&*self);
        }
        autorisation
    }

    /// Creates and stores a new authorization, valid 24 hours: a random
    /// token for the client, its derived token, and a random cookie. At the
    /// very end of the range of the clock the expiry saturates.
    pub fn generate_and_store(&mut self, derivation_secret: &str) -> (r: SecurityStoreAutorization)
        ensures
            uuid_form(r.token@),
            uuid_form(r.cookie@),
            r.derivated_token@ == spec_derivate_token(r.token@, derivation_secret@),
            exists|now: i64| now <= i64::MAX - 86400 && r.expiration == #[trigger] a_day_after(now),
            exists|id: Seq<char>| uuid_form(id) && final(self)@ == spec_add(old(self)@, id, r),
            store_wf(old(self)@),
            store_wf(final(self)@),
    {
        let token = new_uuid();
        let cookie = new_uuid();
        let now = now_timestamp();
        let now = if now > i64::MAX - 86400 { i64::MAX - 86400 } else { now };
        let r = self.store_new_autorisation(token, cookie, now, derivation_secret);
        assert(r.expiration == a_day_after(now));
        r
    }

    /// The authorization of a derived token, if any.
    pub fn get_autorisaton_by_derivated_token(&self, derivated_token: &str) -> (r: Option<SecurityStoreAutorization>)
        ensures
            r == spec_by_token(self@, derivated_token@),
    {
        match self.derivated_token_to_id.get(derivated_token) {
            Some(id) => match self.autorization.get(id.as_str()) {
                Some(a) => Some(a.duplicate()),
                None => None,
            },
            None => None,
        }
    }

    /// The authorization of a cookie, if any.
    pub fn get_autorisaton_by_cookie(&self, cookie: &str) -> (r: Option<SecurityStoreAutorization>)
        ensures
            r == spec_by_cookie(self@, cookie@),
    {
        match self.cookie_to_id.get(cookie) {
            Some(id) => match self.autorization.get(id.as_str()) {
                Some(a) => Some(a.duplicate()),
                None => None,
            },
            None => None,
        }
    }

    /// Revokes the authorization of a derived token (logout).
    pub fn revoke_token(&mut self, derivated_token: &str)
        ensures
            final(self)@ == spec_revoke_token(old(self)@, derivated_token@),
            store_wf(final(self)@),
    {
        let ghost s0 = self@;
        let (mut auths, mut tokens, mut cookies) = self.take_parts();
        let id_opt = match tokens.get(derivated_token) {
            Some(id) => Some(id.clone()),
            None => None,
        };
        if let Some(id) = id_opt {
            let cookie_opt = match auths.get(id.as_str()) {
                Some(a) => Some(a.cookie.clone()),
                None => None,
            };
            auths.remove(id.as_str());
            tokens.remove(derivated_token);
            if let Some(cookie) = cookie_opt {
                cookies.remove(cookie.as_str());
            }
            assert(parts_view(auths, tokens, cookies).tokens =~= spec_revoke_token(s0, derivated_token@).tokens);
            assert(parts_view(auths, tokens, cookies).cookies =~= spec_revoke_token(s0, derivated_token@).cookies);
        }
        proof {
            assert(parts_view(auths, tokens, cookies) == spec_revoke_token(s0, derivated_token@));
            law_revoke_token_keeps_store_wf(s0, derivated_token@);
        }
        *self = SecurityStore { autorization: auths, derivated_token_to_id: tokens, cookie_to_id: cookies };
    }

    /// Revokes the authorization of a cookie (logout).
    pub fn revoke_cookie(&mut self, cookie: &str)
        ensures
            final(self)@ == spec_revoke_cookie(old(self)@, cookie@),
            store_wf(final(self)@),
    {
        let ghost s0 = self@;
        let (mut auths, mut tokens, mut cookies) = self.take_parts();
        let id_opt = match cookies.get(cookie) {
            Some(id) => Some(id.clone()),
            None => None,
        };
        if let Some(id) = id_opt {
            let token_opt = match auths.get(id.as_str()) {
                Some(a) => Some(a.derivated_token.clone()),
                None => None,
            };
            auths.remove(id.as_str());
            cookies.remove(cookie);
            if let Some(dt) = token_opt {
                tokens.remove(dt.as_str());
            }
            assert(parts_view(auths, tokens, cookies).tokens =~= spec_revoke_cookie(s0, cookie@).tokens);
            assert(parts_view(auths, tokens, cookies).cookies =~= spec_revoke_cookie(s0, cookie@).cookies);
        }
        proof {
            assert(parts_view(auths, tokens, cookies) == spec_revoke_cookie(s0, cookie@));
            law_revoke_cookie_keeps_store_wf(s0, cookie@);
        }
        *self = SecurityStore { autorization: auths, derivated_token_to_id: tokens, cookie_to_id: cookies };
    }

    /// Checks a derived token at time `now`: it is valid while its
    /// authorization has not expired; an expired one is revoked.
    pub fn verify_stored_token_at(&mut self, derivated_token: &str, now: i64) -> (r: bool)
        ensures
            r == (spec_by_token(old(self)@, derivated_token@) matches Some(a) && now < a.expiration),
            (spec_by_token(old(self)@, derivated_token@) matches Some(a) && now >= a.expiration)
                ==> final(self)@ == spec_revoke_token(old(self)@, derivated_token@),
            !(spec_by_token(old(self)@, derivated_token@) matches Some(a) && now >= a.expiration)
                ==> final(self)@ == old(self)@,
    {
        if let Some(autorisation) = self.get_autorisaton_by_derivated_token(derivated_token) {
            if now < autorisation.expiration {
                return true;
            }
            self.revoke_token(derivated_token);
        }
        false
    }

    /// Checks a derived token now.
    pub fn verify_stored_token(&mut self, derivated_token: &str) -> (r: bool)
        ensures
            r ==> spec_by_token(old(self)@, derivated_token@) is Some,
            r ==> final(self)@ == old(self)@,
            !r ==> (final(self)@ == old(self)@ || final(self)@ == spec_revoke_token(old(self)@, derivated_token@)),
            exists|now: i64| #[trigger] token_check_at(old(self)@, derivated_token@, now, r, final(self)@),
    {
        let now = now_timestamp();
        let r = self.verify_stored_token_at(derivated_token, now);
        assert(token_check_at(old(self)@, derivated_token@, now, r, self@));
        r
    }

    /// Checks a cookie at time `now`: it is valid while its authorization has
    /// not expired; an expired one is revoked.
    pub fn verify_stored_cookie_at(&mut self, cookie: &str, now: i64) -> (r: bool)
        ensures
            r == (spec_by_cookie(old(self)@, cookie@) matches Some(a) && now < a.expiration),
            (spec_by_cookie(old(self)@, cookie@) matches Some(a) && now >= a.expiration)
                ==> final(self)@ == spec_revoke_cookie(old(self)@, cookie@),
            !(spec_by_cookie(old(self)@, cookie@) matches Some(a) && now >= a.expiration)
                ==> final(self)@ == old(self)@,
    {
        if let Some(autorisation) = self.get_autorisaton_by_cookie(cookie) {
            if now < autorisation.expiration {
                return true;
            }
            self.revoke_cookie(cookie);
        }
        false
    }

    /// Checks a cookie now.
    pub fn verify_stored_cookie(&mut self, cookie: &str) -> (r: bool)
        ensures
            r ==> spec_by_cookie(old(self)@, cookie@) is Some,
            r ==> final(self)@ == old(self)@,
            !r ==> (final(self)@ == old(self)@ || final(self)@ == spec_revoke_cookie(old(self)@, cookie@)),
            exists|now: i64| #[trigger] cookie_check_at(old(self)@, cookie@, now, r, final(self)@),
    {
        let now = now_timestamp();
        let r = self.verify_stored_cookie_at(cookie, now);
        assert(cookie_check_at(old(self)@, cookie@, now, r, self@));
        r
    }

    /// Removes the authorizations that expired before `now`, with their
    /// index entries.
    pub fn clear_expired_at(&mut self, now: i64)
        ensures
            final(self)@ == spec_clear_expired(old(self)@, now),
            store_wf(final(self)@),
    {
        let ghost s0 = self@;
        let ghost gone = expired_ids(s0, now);
        let (mut auths, mut tokens, mut cookies) = self.take_parts();
        let ids = auths.keys();
        let mut expired: Vec<String> = Vec::new();
        let mut i: usize = 0;
        while i < ids.len()
            invariant
                parts_view(auths, tokens, cookies) == s0,
                gone == expired_ids(s0, now),
                i <= ids@.len(),
                forall|k: Seq<char>| s0.autorizations.contains_key(k) <==> names_upto(ids@, ids@.len() as int).contains(k),
                forall|m: int| 0 <= m < ids@.len() ==> s0.autorizations.contains_key(#[trigger] ids@[m]@),
                names_upto(expired@, expired@.len() as int) == names_upto(ids@, i as int).filter(|k: Seq<char>| gone.contains(k)),
            decreases ids@.len() - i,
        {
            let is_expired = match auths.get(ids[i].as_str()) {
                Some(a) => a.expiration < now,
                None => false,
            };
            let ghost before = expired@;
            if is_expired {
                expired.push(ids[i].clone());
            }
            proof {
                lemma_names_upto_step(ids@, i as int);
                if is_expired {
                    lemma_names_upto_step(expired@, before.len() as int);
                    assert(expired@.subrange(0, before.len() as int) =~= before);
                    assert(before.subrange(0, before.len() as int) =~= before);
                    lemma_names_upto_prefix(expired@, before, before.len() as int);
                    assert(names_upto(expired@, expired@.len() as int) =~= names_upto(ids@, i + 1).filter(|k: Seq<char>| gone.contains(k)));
                } else {
                    assert(!gone.contains(ids@[i as int]@));
                    assert(names_upto(expired@, expired@.len() as int) =~= names_upto(ids@, i + 1).filter(|k: Seq<char>| gone.contains(k)));
                }
            }
            i = i + 1;
        }
        proof {
            assert(names_upto(expired@, expired@.len() as int) =~= gone);
        }
        let mut j: usize = 0;
        while j < expired.len()
            invariant
                j <= expired@.len(),
                gone == expired_ids(s0, now),
                names_upto(expired@, expired@.len() as int) == gone,
                parts_view(auths, tokens, cookies).autorizations == s0.autorizations.remove_keys(names_upto(expired@, j as int)),
                parts_view(auths, tokens, cookies).tokens == s0.tokens.remove_keys(names_upto(expired@, j as int).map(|id: Seq<char>| s0.autorizations[id].derivated_token@)),
                parts_view(auths, tokens, cookies).cookies == s0.cookies.remove_keys(names_upto(expired@, j as int).map(|id: Seq<char>| s0.autorizations[id].cookie@)),
            decreases expired@.len() - j,
        {
            let ghost id = expired@[j as int]@;
            proof {
                lemma_names_upto_step(expired@, j as int);
                lemma_names_upto_step(expired@, expired@.len() as int - 1);
                assert(names_upto(expired@, expired@.len() as int).contains(id)) by {
                    assert(expired@[j as int]@ == id);
                }
            }
            let found = match auths.get(expired[j].as_str()) {
                Some(a) => Some(a.duplicate()),
                None => None,
            };
            let ghost prev = parts_view(auths, tokens, cookies);
            if let Some(auth) = found {
                auths.remove(expired[j].as_str());
                tokens.remove(auth.derivated_token.as_str());
                cookies.remove(auth.cookie.as_str());
                assert(parts_view(auths, tokens, cookies).tokens =~= prev.tokens.remove(auth.derivated_token@));
                assert(parts_view(auths, tokens, cookies).cookies =~= prev.cookies.remove(auth.cookie@));
            }
            proof {
                let e0 = names_upto(expired@, j as int);
                let e1 = names_upto(expired@, j + 1);
                assert(e1 == e0.insert(id));
                if found is Some {
                    assert(!e0.contains(id));
                    assert(found->Some_0 == s0.autorizations[id]);
                    assert(parts_view(auths, tokens, cookies).autorizations =~= s0.autorizations.remove_keys(e1));
                    e0.lemma_set_map_insert_commute(id, |i: Seq<char>| s0.autorizations[i].derivated_token@);
                    e0.lemma_set_map_insert_commute(id, |i: Seq<char>| s0.autorizations[i].cookie@);
                    assert(e1.map(|i: Seq<char>| s0.autorizations[i].derivated_token@) =~= e0.map(|i: Seq<char>| s0.autorizations[i].derivated_token@).insert(s0.autorizations[id].derivated_token@));
                    assert(e1.map(|i: Seq<char>| s0.autorizations[i].cookie@) =~= e0.map(|i: Seq<char>| s0.autorizations[i].cookie@).insert(s0.autorizations[id].cookie@));
                    assert(parts_view(auths, tokens, cookies).tokens =~= s0.tokens.remove_keys(e1.map(|i: Seq<char>| s0.autorizations[i].derivated_token@)));
                    assert(parts_view(auths, tokens, cookies).cookies =~= s0.cookies.remove_keys(e1.map(|i: Seq<char>| s0.autorizations[i].cookie@)));
                } else {
                    assert(e0.contains(id));
                    assert(e1 =~= e0);
                }
            }
            j = j + 1;
        }
        proof {
            let target = spec_clear_expired(s0, now);
            assert(parts_view(auths, tokens, cookies).autorizations =~= target.autorizations);
            assert(parts_view(auths, tokens, cookies).tokens =~= target.tokens);
            assert(parts_view(auths, tokens, cookies).cookies =~= target.cookies);
            law_clear_expired_keeps_store_wf(s0, now);
        }
        *self = SecurityStore { autorization: auths, derivated_token_to_id: tokens, cookie_to_id: cookies };
    }

    /// Removes the authorizations that have expired by now.
    pub fn clear_expired(&mut self)
        ensures
            exists|now: i64| final(self)@ == spec_clear_expired(old(self)@, now),
    {
        let now = now_timestamp();
        self.clear_expired_at(now);
    }
}


/// An authorization just stored is found by its derived token and by its
/// cookie, whatever the store held before.
pub proof fn law_stored_autorisation_is_found(s: SecurityStoreView, id: Seq<char>, a: SecurityStoreAutorization)
    ensures
        spec_by_token(spec_add(s, id, a), a.derivated_token@) == Some(a),
        spec_by_cookie(spec_add(s, id, a), a.cookie@) == Some(a),
{
}

/// Once a derived token is revoked, neither it nor the cookie of its
/// authorization leads to an authorization.
pub proof fn law_revoked_token_is_gone(s: SecurityStoreView, derivated_token: Seq<char>)
    ensures
        spec_by_token(spec_revoke_token(s, derivated_token), derivated_token) is None,
        spec_by_token(s, derivated_token) matches Some(a) ==> spec_by_cookie(
            spec_revoke_token(s, derivated_token),
            a.cookie@,
        ) is None,
{
}

/// Once a cookie is revoked, neither it nor the derived token of its
/// authorization leads to an authorization.
pub proof fn law_revoked_cookie_is_gone(s: SecurityStoreView, cookie: Seq<char>)
    ensures
        spec_by_cookie(spec_revoke_cookie(s, cookie), cookie) is None,
        spec_by_cookie(s, cookie) matches Some(a) ==> spec_by_token(
            spec_revoke_cookie(s, cookie),
            a.derivated_token@,
        ) is None,
{
}

/// Once the expired authorizations are cleared, no token and no cookie
/// leads to one that expired before that time.
pub proof fn law_cleared_store_holds_no_expired(s: SecurityStoreView, now: i64, key: Seq<char>)
    ensures
        spec_by_token(spec_clear_expired(s, now), key) matches Some(a) ==> a.expiration >= now,
        spec_by_cookie(spec_clear_expired(s, now), key) matches Some(a) ==> a.expiration >= now,
{
}


/// Clearing the expired authorizations keeps every live one reachable by its
/// derived token, unless an expired one had the same derived token.
pub proof fn law_cleared_store_keeps_live_tokens(s: SecurityStoreView, now: i64, key: Seq<char>)
    requires
        spec_by_token(s, key) matches Some(a) && a.expiration >= now,
        forall|id: Seq<char>| #[trigger] s.autorizations.contains_key(id) && s.autorizations[id].expiration < now
            ==> s.autorizations[id].derivated_token@ != key,
    ensures
        spec_by_token(spec_clear_expired(s, now), key) == spec_by_token(s, key),
{
    let gone = expired_ids(s, now);
    let dropped = gone.map(|id: Seq<char>| s.autorizations[id].derivated_token@);
    if dropped.contains(key) {
        let id = choose|id: Seq<char>| gone.contains(id) && s.autorizations[id].derivated_token@ == key;
        assert(s.autorizations.contains_key(id));
    }
    assert(!gone.contains(s.tokens[key]));
}

/// Clearing the expired authorizations keeps every live one reachable by its
/// cookie, unless an expired one had the same cookie.
pub proof fn law_cleared_store_keeps_live_cookies(s: SecurityStoreView, now: i64, key: Seq<char>)
    requires
        spec_by_cookie(s, key) matches Some(a) && a.expiration >= now,
        forall|id: Seq<char>| #[trigger] s.autorizations.contains_key(id) && s.autorizations[id].expiration < now
            ==> s.autorizations[id].cookie@ != key,
    ensures
        spec_by_cookie(spec_clear_expired(s, now), key) == spec_by_cookie(s, key),
{
    let gone = expired_ids(s, now);
    let dropped = gone.map(|id: Seq<char>| s.autorizations[id].cookie@);
    if dropped.contains(key) {
        let id = choose|id: Seq<char>| gone.contains(id) && s.autorizations[id].cookie@ == key;
        assert(s.autorizations.contains_key(id));
    }
    assert(!gone.contains(s.cookies[key]));
}


/// Revoking what would clash with adding `a` under `id` keeps a
/// well-formed store well formed, and leaves neither `id`, nor the derived
/// token of `a`, nor its cookie.
pub proof fn lemma_evict_clears(s: SecurityStoreView, id: Seq<char>, a: SecurityStoreAutorization)
    requires
        store_wf(s),
    ensures
        store_wf(spec_evict(s, id, a)),
        !spec_evict(s, id, a).autorizations.contains_key(id),
        !spec_evict(s, id, a).tokens.contains_key(a.derivated_token@),
        !spec_evict(s, id, a).cookies.contains_key(a.cookie@),
{
    let s1 = spec_revoke_token(s, a.derivated_token@);
    law_revoke_token_keeps_store_wf(s, a.derivated_token@);
    let s2 = spec_revoke_cookie(s1, a.cookie@);
    law_revoke_cookie_keeps_store_wf(s1, a.cookie@);
    assert(!s1.tokens.contains_key(a.derivated_token@));
    assert(!s2.tokens.contains_key(a.derivated_token@));
    assert(!s2.cookies.contains_key(a.cookie@));
    if s2.autorizations.contains_key(id) {
        let d = s2.autorizations[id].derivated_token@;
        law_revoke_token_keeps_store_wf(s2, d);
        assert(s2.tokens[d] == id);
    }
}

/// Adding an authorization under an id, a derived token and a cookie that
/// the store does not hold yet revokes nothing: it keeps the store well
/// formed, and leaves every earlier authorization where it was, found as
/// before.
pub proof fn law_add_keeps_store_wf(s: SecurityStoreView, id: Seq<char>, a: SecurityStoreAutorization)
    requires
        store_wf(s),
        !s.autorizations.contains_key(id),
        !s.tokens.contains_key(a.derivated_token@),
        !s.cookies.contains_key(a.cookie@),
    ensures
        spec_add(s, id, a) == spec_insert(s, id, a),
        store_wf(spec_add(s, id, a)),
        forall|other: Seq<char>| #[trigger] s.autorizations.contains_key(other) ==> {
            &&& spec_add(s, id, a).autorizations.contains_key(other)
            &&& spec_add(s, id, a).autorizations[other] == s.autorizations[other]
        },
        forall|k: Seq<char>| k != a.derivated_token@ ==> #[trigger] spec_by_token(spec_add(s, id, a), k) == spec_by_token(s, k),
        forall|k: Seq<char>| k != a.cookie@ ==> #[trigger] spec_by_cookie(spec_add(s, id, a), k) == spec_by_cookie(s, k),
{
    let t = spec_add(s, id, a);
    assert forall|k: Seq<char>| #[trigger] t.tokens.contains_key(k) implies t.autorizations.contains_key(t.tokens[k])
        && t.autorizations[t.tokens[k]].derivated_token@ == k by {
        if k != a.derivated_token@ {
            assert(s.tokens.contains_key(k));
        }
    }
    assert forall|k: Seq<char>| #[trigger] t.cookies.contains_key(k) implies t.autorizations.contains_key(t.cookies[k])
        && t.autorizations[t.cookies[k]].cookie@ == k by {
        if k != a.cookie@ {
            assert(s.cookies.contains_key(k));
        }
    }
    assert forall|x: Seq<char>| #[trigger] t.autorizations.contains_key(x) implies {
        &&& t.tokens.contains_key(t.autorizations[x].derivated_token@)
        &&& t.tokens[t.autorizations[x].derivated_token@] == x
        &&& t.cookies.contains_key(t.autorizations[x].cookie@)
        &&& t.cookies[t.autorizations[x].cookie@] == x
    } by {
        if x != id {
            assert(s.autorizations.contains_key(x));
        }
    }
    assert forall|k: Seq<char>| k != a.derivated_token@ implies #[trigger] spec_by_token(t, k) == spec_by_token(s, k) by {
        if s.tokens.contains_key(k) {
            assert(s.tokens[k] != id);
        }
    }
    assert forall|k: Seq<char>| k != a.cookie@ implies #[trigger] spec_by_cookie(t, k) == spec_by_cookie(s, k) by {
        if s.cookies.contains_key(k) {
            assert(s.cookies[k] != id);
        }
    }
}

/// Revoking a cookie keeps a well-formed store well formed: the cookie and
/// the derived token of its authorization lead nowhere any more, and every
/// other cookie and derived token leads where it led before.
pub proof fn law_revoke_cookie_keeps_store_wf(s: SecurityStoreView, cookie: Seq<char>)
    requires
        store_wf(s),
    ensures
        store_wf(spec_revoke_cookie(s, cookie)),
        forall|c: Seq<char>| #[trigger] spec_by_cookie(spec_revoke_cookie(s, cookie), c)
            == if c == cookie { None } else { spec_by_cookie(s, c) },
        forall|dt: Seq<char>| #[trigger] spec_by_token(spec_revoke_cookie(s, cookie), dt)
            == if spec_by_cookie(s, cookie) matches Some(x) && x.derivated_token@ == dt { None } else { spec_by_token(s, dt) },
{
    let t = spec_revoke_cookie(s, cookie);
    if s.cookies.contains_key(cookie) {
        let id = s.cookies[cookie];
        let x = s.autorizations[id];
        assert forall|k: Seq<char>| #[trigger] t.tokens.contains_key(k) implies t.autorizations.contains_key(t.tokens[k])
            && t.autorizations[t.tokens[k]].derivated_token@ == k by {
            assert(s.tokens.contains_key(k));
        }
        assert forall|k: Seq<char>| #[trigger] t.cookies.contains_key(k) implies t.autorizations.contains_key(t.cookies[k])
            && t.autorizations[t.cookies[k]].cookie@ == k by {
            assert(s.cookies.contains_key(k));
        }
        assert forall|y: Seq<char>| #[trigger] t.autorizations.contains_key(y) implies {
            &&& t.tokens.contains_key(t.autorizations[y].derivated_token@)
            &&& t.tokens[t.autorizations[y].derivated_token@] == y
            &&& t.cookies.contains_key(t.autorizations[y].cookie@)
            &&& t.cookies[t.autorizations[y].cookie@] == y
        } by {
            assert(s.autorizations.contains_key(y));
        }
        assert forall|c: Seq<char>| #[trigger] spec_by_cookie(t, c)
            == if c == cookie { None } else { spec_by_cookie(s, c) } by {
            if s.cookies.contains_key(c) && c != cookie {
                assert(s.cookies[c] != id);
            }
        }
        assert forall|dt: Seq<char>| #[trigger] spec_by_token(t, dt)
            == if spec_by_cookie(s, cookie) matches Some(x) && x.derivated_token@ == dt { None } else { spec_by_token(s, dt) } by {
            if s.tokens.contains_key(dt) && dt != x.derivated_token@ {
                assert(s.tokens[dt] != id);
            }
        }
    }
}

/// Revoking a derived token keeps a well-formed store well formed: the
/// token and the cookie of its authorization lead nowhere any more, and
/// every other derived token and cookie leads where it led before.
pub proof fn law_revoke_token_keeps_store_wf(s: SecurityStoreView, derivated_token: Seq<char>)
    requires
        store_wf(s),
    ensures
        store_wf(spec_revoke_token(s, derivated_token)),
        forall|dt: Seq<char>| #[trigger] spec_by_token(spec_revoke_token(s, derivated_token), dt)
            == if dt == derivated_token { None } else { spec_by_token(s, dt) },
        forall|c: Seq<char>| #[trigger] spec_by_cookie(spec_revoke_token(s, derivated_token), c)
            == if spec_by_token(s, derivated_token) matches Some(x) && x.cookie@ == c { None } else { spec_by_cookie(s, c) },
{
    let t = spec_revoke_token(s, derivated_token);
    if s.tokens.contains_key(derivated_token) {
        let id = s.tokens[derivated_token];
        let x = s.autorizations[id];
        assert forall|k: Seq<char>| #[trigger] t.tokens.contains_key(k) implies t.autorizations.contains_key(t.tokens[k])
            && t.autorizations[t.tokens[k]].derivated_token@ == k by {
            assert(s.tokens.contains_key(k));
        }
        assert forall|k: Seq<char>| #[trigger] t.cookies.contains_key(k) implies t.autorizations.contains_key(t.cookies[k])
            && t.autorizations[t.cookies[k]].cookie@ == k by {
            assert(s.cookies.contains_key(k));
        }
        assert forall|y: Seq<char>| #[trigger] t.autorizations.contains_key(y) implies {
            &&& t.tokens.contains_key(t.autorizations[y].derivated_token@)
            &&& t.tokens[t.autorizations[y].derivated_token@] == y
            &&& t.cookies.contains_key(t.autorizations[y].cookie@)
            &&& t.cookies[t.autorizations[y].cookie@] == y
        } by {
            assert(s.autorizations.contains_key(y));
        }
        assert forall|dt: Seq<char>| #[trigger] spec_by_token(t, dt)
            == if dt == derivated_token { None } else { spec_by_token(s, dt) } by {
            if s.tokens.contains_key(dt) && dt != derivated_token {
                assert(s.tokens[dt] != id);
            }
        }
        assert forall|c: Seq<char>| #[trigger] spec_by_cookie(t, c)
            == if spec_by_token(s, derivated_token) matches Some(x) && x.cookie@ == c { None } else { spec_by_cookie(s, c) } by {
            if s.cookies.contains_key(c) && c != x.cookie@ {
                assert(s.cookies[c] != id);
            }
        }
    }
}


/// Clearing the expired authorizations keeps a well-formed store well
/// formed: a derived token or a cookie of an authorization that expired
/// before `now` leads nowhere any more, and every other one leads where it
/// led before.
pub proof fn law_clear_expired_keeps_store_wf(s: SecurityStoreView, now: i64)
    requires
        store_wf(s),
    ensures
        store_wf(spec_clear_expired(s, now)),
        forall|k: Seq<char>| #[trigger] spec_by_token(spec_clear_expired(s, now), k)
            == if spec_by_token(s, k) matches Some(a) && a.expiration < now { None } else { spec_by_token(s, k) },
        forall|k: Seq<char>| #[trigger] spec_by_cookie(spec_clear_expired(s, now), k)
            == if spec_by_cookie(s, k) matches Some(a) && a.expiration < now { None } else { spec_by_cookie(s, k) },
{
    let t = spec_clear_expired(s, now);
    let gone = expired_ids(s, now);
    let gone_tokens = gone.map(|id: Seq<char>| s.autorizations[id].derivated_token@);
    let gone_cookies = gone.map(|id: Seq<char>| s.autorizations[id].cookie@);
    assert forall|k: Seq<char>| s.tokens.contains_key(k) implies (#[trigger] gone_tokens.contains(k) <==> gone.contains(s.tokens[k])) by {
        if gone_tokens.contains(k) {
            let id = choose|id: Seq<char>| gone.contains(id) && s.autorizations[id].derivated_token@ == k;
            assert(s.autorizations.contains_key(id));
        }
        if gone.contains(s.tokens[k]) {
            assert(gone_tokens.contains(s.autorizations[s.tokens[k]].derivated_token@));
        }
    }
    assert forall|k: Seq<char>| s.cookies.contains_key(k) implies (#[trigger] gone_cookies.contains(k) <==> gone.contains(s.cookies[k])) by {
        if gone_cookies.contains(k) {
            let id = choose|id: Seq<char>| gone.contains(id) && s.autorizations[id].cookie@ == k;
            assert(s.autorizations.contains_key(id));
        }
        if gone.contains(s.cookies[k]) {
            assert(gone_cookies.contains(s.autorizations[s.cookies[k]].cookie@));
        }
    }
    assert forall|k: Seq<char>| #[trigger] t.tokens.contains_key(k) implies t.autorizations.contains_key(t.tokens[k])
        && t.autorizations[t.tokens[k]].derivated_token@ == k by {
        assert(s.tokens.contains_key(k));
        assert(!gone_tokens.contains(k));
    }
    assert forall|k: Seq<char>| #[trigger] t.cookies.contains_key(k) implies t.autorizations.contains_key(t.cookies[k])
        && t.autorizations[t.cookies[k]].cookie@ == k by {
        assert(s.cookies.contains_key(k));
        assert(!gone_cookies.contains(k));
    }
    assert forall|y: Seq<char>| #[trigger] t.autorizations.contains_key(y) implies {
        &&& t.tokens.contains_key(t.autorizations[y].derivated_token@)
        &&& t.tokens[t.autorizations[y].derivated_token@] == y
        &&& t.cookies.contains_key(t.autorizations[y].cookie@)
        &&& t.cookies[t.autorizations[y].cookie@] == y
    } by {
        assert(s.autorizations.contains_key(y));
        assert(!gone.contains(y));
        let a = s.autorizations[y];
        assert(s.tokens.contains_key(a.derivated_token@));
        assert(!gone_tokens.contains(a.derivated_token@));
        assert(s.cookies.contains_key(a.cookie@));
        assert(!gone_cookies.contains(a.cookie@));
    }
    assert forall|k: Seq<char>| #[trigger] spec_by_token(t, k)
        == if spec_by_token(s, k) matches Some(a) && a.expiration < now { None } else { spec_by_token(s, k) } by {
        if s.tokens.contains_key(k) {
            assert(gone_tokens.contains(k) <==> gone.contains(s.tokens[k]));
        }
    }
    assert forall|k: Seq<char>| #[trigger] spec_by_cookie(t, k)
        == if spec_by_cookie(s, k) matches Some(a) && a.expiration < now { None } else { spec_by_cookie(s, k) } by {
        if s.cookies.contains_key(k) {
            assert(gone_cookies.contains(k) <==> gone.contains(s.cookies[k]));
        }
    }
}


/// Adding an authorization to a well-formed store keeps it well formed, and
/// the new authorization is found by its derived token and by its cookie.
pub proof fn law_add_keeps_store_wf_always(s: SecurityStoreView, id: Seq<char>, a: SecurityStoreAutorization)
    requires
        store_wf(s),
    ensures
        store_wf(spec_add(s, id, a)),
        spec_by_token(spec_add(s, id, a), a.derivated_token@) == Some(a),
        spec_by_cookie(spec_add(s, id, a), a.cookie@) == Some(a),
{
    lemma_evict_clears(s, id, a);
    law_add_keeps_store_wf(spec_evict(s, id, a), id, a);
}

} // verus!
