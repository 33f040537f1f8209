//! The access checks in front of the routes: the long-lived token of the
//! `X-Token` header, the session cookie, and the JSON web token of the
//! `Authorization` header. Each check decides whether a request goes on, and
//! otherwise which error is answered.
use vstd::prelude::*;
use crate::model::db_model::ErrorResult;
use crate::security_utils::{
    SecurityStore, SecurityStoreAutorization, SecurityStoreView, derivate_token, spec_add, spec_by_cookie, spec_by_token,
    spec_derivate_token, spec_revoke_cookie, spec_revoke_token,
};
use crate::fresh::now_timestamp;
use jsonwebtoken::errors::ErrorKind;
use crate::text::{chars_of, has_prefix, spec_is_white_space, trim_end_index, trim_start_index, seq_starts_with, spec_trim, string_from_chars, strip_prefix, sub_chars, trim};

verus! {

/// An error answered to a client, from its code and its message.
pub fn error_result(code: &str, message: &str) -> (r: ErrorResult)
    ensures
        r.error@ == code@,
        r.message@ == message@,
{
    ErrorResult { error: code.to_string(), message: message.to_string() }
}

/// The refusal of a request: an `UNAUTHORIZED` error with `message`.
pub open spec fn is_unauthorized(r: Result<(), ErrorResult>, message: Seq<char>) -> bool {
    r matches Err(e) && e.error@ == "UNAUTHORIZED"@ && e.message@ == message
}

/// The outcome of a check: `Ok`, or the message of its refusal.
pub open spec fn outcome_is(r: Result<(), ErrorResult>, expected: Result<(), Seq<char>>) -> bool {
    match expected {
        Ok(_) => r is Ok,
        Err(m) => is_unauthorized(r, m),
    }
}

// ---------------------------------------------------------------------------
// The long-lived token of the X-Token header
// ---------------------------------------------------------------------------

/// What checking the derived token `dt` at time `now` does to the store and
/// answers. The token must be stored and unexpired (an expired one is
/// revoked), and so must the cookie of its authorization; when the cookie is
/// not, it is revoked if it had expired, and the token is revoked.
pub open spec fn spec_token_access(s: SecurityStoreView, dt: Seq<char>, now: i64) -> (SecurityStoreView, Result<(), Seq<char>>) {
    match spec_by_token(s, dt) {
        None => (s, Err("Invalid or expired token"@)),
        Some(a) => if now >= a.expiration {
            (spec_revoke_token(s, dt), Err("Invalid or expired token"@))
        } else {
            match spec_by_cookie(s, a.cookie@) {
                Some(b) => if now < b.expiration {
                    (s, Ok(()))
                } else {
                    (spec_revoke_token(spec_revoke_cookie(s, a.cookie@), dt), Err("Associated cookie invalid or expired"@))
                },
                None => (spec_revoke_token(s, dt), Err("Associated cookie invalid or expired"@)),
            }
        },
    }
}

/// What checking the `X-Token` header `token` at time `now` does to the store
/// and answers: a missing header is refused; otherwise the token is derived
/// with the secret and checked.
pub open spec fn spec_token_header_access(
    s: SecurityStoreView,
    token: Option<Seq<char>>,
    now: i64,
    secret: Seq<char>,
) -> (SecurityStoreView, Result<(), Seq<char>>) {
    match token {
        None => (s, Err("Missing X-Token header"@)),
        Some(t) => spec_token_access(s, spec_derivate_token(t, secret), now),
    }
}

/// The view of an optional string slice.
pub open spec fn opt_str_view(o: Option<&str>) -> Option<Seq<char>> {
    match o {
        Some(s) => Some(s@),
        None => None,
    }
}

/// Checks the `X-Token` header of a request at time `now`; `secret` derives
/// the stored token from the one the client holds.
pub fn check_token_access_at(store: &mut SecurityStore, token: Option<&str>, now: i64, secret: &str) -> (r: Result<(), ErrorResult>)
    ensures
        final(store)@ == spec_token_header_access(old(store)@, opt_str_view(token), now, secret@).0,
        outcome_is(r, spec_token_header_access(old(store)@, opt_str_view(token), now, secret@).1),
{
    match token {
        None => Err(error_result("UNAUTHORIZED", "Missing X-Token header")),
        Some(t) => {
            let dt = derivate_token(t, secret);
            let found = store.get_autorisaton_by_derivated_token(dt.as_str());
            if store.verify_stored_token_at(dt.as_str(), now) {
                let a = found.unwrap();
                if store.verify_stored_cookie_at(a.cookie.as_str(), now) {
                    Ok(())
                } else {
                    store.revoke_token(dt.as_str());
                    Err(error_result("UNAUTHORIZED", "Associated cookie invalid or expired"))
                }
            } else {
                Err(error_result("UNAUTHORIZED", "Invalid or expired token"))
            }
        },
    }
}

/// Checks the `X-Token` header of a request now.
pub fn check_token_access(store: &mut SecurityStore, token: Option<&str>, secret: &str) -> (r: Result<(), ErrorResult>)
    ensures
        exists|now: i64|
            final(store)@ == spec_token_header_access(old(store)@, opt_str_view(token), now, secret@).0
            && outcome_is(r, #[trigger] spec_token_header_access(old(store)@, opt_str_view(token), now, secret@).1),
{
    let now = now_timestamp();
    check_token_access_at(store, token, now, secret)
}

/// An authorization just stored is accepted on its token until it expires,
/// and the store is left as it is.
pub proof fn law_stored_token_accepted_until_expiry(
    s: SecurityStoreView,
    id: Seq<char>,
    a: SecurityStoreAutorization,
    secret: Seq<char>,
    now: i64,
)
    requires
        a.derivated_token@ == spec_derivate_token(a.token@, secret),
    ensures
        now < a.expiration ==> spec_token_header_access(spec_add(s, id, a), Some(a.token@), now, secret)
            == (spec_add(s, id, a), Ok::<(), Seq<char>>(())),
        now >= a.expiration ==> spec_token_header_access(spec_add(s, id, a), Some(a.token@), now, secret).1
            == Err::<(), Seq<char>>("Invalid or expired token"@),
{
    let t = spec_add(s, id, a);
    assert(spec_by_token(t, a.derivated_token@) == Some(a));
    assert(spec_by_cookie(t, a.cookie@) == Some(a));
}

// ---------------------------------------------------------------------------
// The session cookie
// ---------------------------------------------------------------------------

/// The name and separator that open the session cookie in a `Cookie` header.
pub open spec fn cookie_prefix() -> Seq<char> {
    "unique_id="@
}

/// The index of the first `;` of `s` at or after `from`, or the length of `s`.
pub open spec fn next_separator(s: Seq<char>, from: int) -> int
    decreases s.len() - from,
{
    if from >= s.len() || s[from] == ';' {
        from
    } else {
        next_separator(s, from + 1)
    }
}

/// The separator found is at or after `from`, and none comes before it.
pub proof fn lemma_next_separator(s: Seq<char>, from: int)
    requires
        0 <= from <= s.len(),
    ensures
        from <= next_separator(s, from) <= s.len(),
        next_separator(s, from) < s.len() ==> s[next_separator(s, from)] == ';',
        forall|k: int| from <= k < next_separator(s, from) ==> s[k] != ';',
    decreases s.len() - from,
{
    if from < s.len() && s[from] != ';' {
        lemma_next_separator(s, from + 1);
    }
}

/// The value of the session cookie among the `;`-separated parts of `s` from
/// `from` on: the first part that, trimmed, starts with `unique_id=`, with
/// that prefix taken off.
pub open spec fn spec_find_unique_id_from(s: Seq<char>, from: int) -> Option<Seq<char>>
    decreases s.len() - from,
{
    if from < 0 || from > s.len() {
        None
    } else {
        let j = next_separator(s, from);
        let part = spec_trim(s.subrange(from, j));
        if has_prefix(part, cookie_prefix()) {
            Some(part.subrange(cookie_prefix().len() as int, part.len() as int))
        } else if j >= s.len() || j < from {
            None
        } else {
            spec_find_unique_id_from(s, j + 1)
        }
    }
}

/// The value of the session cookie in a `Cookie` header, if any.
pub open spec fn spec_find_unique_id(header: Seq<char>) -> Option<Seq<char>> {
    spec_find_unique_id_from(header, 0)
}

/// Finds the value of the session cookie in a `Cookie` header: the first
/// `;`-separated part that, trimmed, starts with `unique_id=`.
pub fn find_unique_id(header: &str) -> (r: Option<String>)
    ensures
        match spec_find_unique_id(header@) {
            Some(v) => r matches Some(x) && x@ == v,
            None => r is None,
        },
{
    let s = chars_of(header);
    let prefix = chars_of("unique_id=");
    let mut start: usize = 0;
    loop
        invariant
            s@ == header@,
            prefix@ == cookie_prefix(),
            start <= s@.len(),
            spec_find_unique_id_from(s@, start as int) == spec_find_unique_id(header@),
        decreases s@.len() - start,
    {
        proof {
            lemma_next_separator(s@, start as int);
        }
        let mut j: usize = start;
        while j < s.len() && s[j] != ';'
            invariant
                start <= j <= s@.len(),
                next_separator(s@, start as int) == next_separator(s@, j as int),
            decreases s@.len() - j,
        {
            j = j + 1;
        }
        let part = sub_chars(&s, start, j);
        let t = trim(&part);
        if seq_starts_with(&t, &prefix) {
            let v = sub_chars(&t, prefix.len(), t.len());
            return Some(string_from_chars(&v));
        }
        if j >= s.len() {
            return None;
        }
        start = j + 1;
    }
}

/// Past `from`, a sequence without `;` has its separator at its end.
pub proof fn lemma_no_separator(s: Seq<char>, from: int)
    requires
        0 <= from <= s.len(),
        forall|k: int| from <= k < s.len() ==> s[k] != ';',
    ensures
        next_separator(s, from) == s.len(),
    decreases s.len() - from,
{
    if from < s.len() {
        lemma_no_separator(s, from + 1);
    }
}

/// The session cookie that the server sets is found back in the `Cookie`
/// header that returns it, `unique_id=<cookie>`, when the cookie holds no
/// `;` and does not end in white space.
pub proof fn law_cookie_found_back(c: Seq<char>)
    requires
        forall|k: int| 0 <= k < c.len() ==> c[k] != ';',
        c.len() > 0 ==> !spec_is_white_space(c.last()),
    ensures
        spec_find_unique_id(cookie_prefix() + c) == Some(c),
{
    reveal_strlit("unique_id=");
    let h = cookie_prefix() + c;
    assert(cookie_prefix().len() == 10);
    assert forall|k: int| 0 <= k < h.len() implies h[k] != ';' by {
        if k >= 10 {
            assert(h[k] == c[k - 10]);
        }
    }
    lemma_no_separator(h, 0);
    assert(h.subrange(0, h.len() as int) =~= h);
    assert(trim_start_index(h, 0) == 0);
    assert(c.len() > 0 ==> h.last() == c.last());
    assert(c.len() == 0 ==> h.last() == '=');
    assert(trim_end_index(h, h.len() as int) == h.len());
    assert(spec_trim(h) =~= h);
    assert(h.subrange(0, 10) =~= cookie_prefix());
    assert(h.subrange(10, h.len() as int) =~= c);
}

/// What checking the session cookie `c` at time `now` does to the store and
/// answers. The cookie must be stored and unexpired (an expired one is
/// revoked), and so must the derived token of its authorization; when the
/// token is not, it is revoked if it had expired, and the cookie is revoked.
pub open spec fn spec_cookie_access(s: SecurityStoreView, c: Seq<char>, now: i64) -> (SecurityStoreView, Result<(), Seq<char>>) {
    match spec_by_cookie(s, c) {
        None => (s, Err("Invalid or expired cookie"@)),
        Some(a) => if now >= a.expiration {
            (spec_revoke_cookie(s, c), Err("Invalid or expired cookie"@))
        } else {
            match spec_by_token(s, a.derivated_token@) {
                Some(b) => if now < b.expiration {
                    (s, Ok(()))
                } else {
                    (spec_revoke_cookie(spec_revoke_token(s, a.derivated_token@), c), Err("Associated token invalid or expired"@))
                },
                None => (spec_revoke_cookie(s, c), Err("Associated token invalid or expired"@)),
            }
        },
    }
}

/// An authorization just stored is accepted on its cookie until it expires,
/// and the store is left as it is.
pub proof fn law_stored_cookie_accepted_until_expiry(
    s: SecurityStoreView,
    id: Seq<char>,
    a: SecurityStoreAutorization,
    now: i64,
)
    ensures
        now < a.expiration ==> spec_cookie_access(spec_add(s, id, a), a.cookie@, now)
            == (spec_add(s, id, a), Ok::<(), Seq<char>>(())),
        now >= a.expiration ==> spec_cookie_access(spec_add(s, id, a), a.cookie@, now).1
            == Err::<(), Seq<char>>("Invalid or expired cookie"@),
{
    let t = spec_add(s, id, a);
    assert(spec_by_token(t, a.derivated_token@) == Some(a));
    assert(spec_by_cookie(t, a.cookie@) == Some(a));
}

/// What checking the `Cookie` header `header` at time `now` does to the store
/// and answers: without a session cookie the request is refused.
pub open spec fn spec_cookie_header_access(s: SecurityStoreView, header: Option<Seq<char>>, now: i64) -> (SecurityStoreView, Result<(), Seq<char>>) {
    let found = match header {
        Some(h) => spec_find_unique_id(h),
        None => None,
    };
    match found {
        None => (s, Err("Missing unique_id cookie"@)),
        Some(c) => spec_cookie_access(s, c, now),
    }
}

/// Checks the session cookie of a request's `Cookie` header at time `now`.
pub fn check_cookie_access_at(store: &mut SecurityStore, header: Option<&str>, now: i64) -> (r: Result<(), ErrorResult>)
    ensures
        final(store)@ == spec_cookie_header_access(old(store)@, opt_str_view(header), now).0,
        outcome_is(r, spec_cookie_header_access(old(store)@, opt_str_view(header), now).1),
{
    let unique_id = match header {
        Some(h) => find_unique_id(h),
        None => None,
    };
    match unique_id {
        None => Err(error_result("UNAUTHORIZED", "Missing unique_id cookie")),
        Some(c) => {
            let found = store.get_autorisaton_by_cookie(c.as_str());
            if store.verify_stored_cookie_at(c.as_str(), now) {
                let a = found.unwrap();
                if store.verify_stored_token_at(a.derivated_token.as_str(), now) {
                    Ok(())
                } else {
                    store.revoke_cookie(c.as_str());
                    Err(error_result("UNAUTHORIZED", "Associated token invalid or expired"))
                }
            } else {
                Err(error_result("UNAUTHORIZED", "Invalid or expired cookie"))
            }
        },
    }
}

/// Checks the session cookie of a request's `Cookie` header now.
pub fn check_cookie_access(store: &mut SecurityStore, header: Option<&str>) -> (r: Result<(), ErrorResult>)
    ensures
        exists|now: i64|
            final(store)@ == spec_cookie_header_access(old(store)@, opt_str_view(header), now).0
            && outcome_is(r, #[trigger] spec_cookie_header_access(old(store)@, opt_str_view(header), now).1),
{
    let now = now_timestamp();
    check_cookie_access_at(store, header, now)
}

// ---------------------------------------------------------------------------
// The JSON web token of the Authorization header
// ---------------------------------------------------------------------------

/// Why a JSON web token was refused.
#[derive(Debug, Clone, Copy, PartialEq, Eq, Structural)]
pub enum JwtErrorKind {
    ExpiredSignature,
    InvalidToken,
    InvalidSignature,
    InvalidIssuer,
    InvalidAudience,
    Other,
}

/// The code and the message answered for a refused JSON web token.
pub open spec fn spec_jwt_error(kind: JwtErrorKind) -> (Seq<char>, Seq<char>) {
    match kind {
        JwtErrorKind::ExpiredSignature => ("JWT_EXPIRED"@, "Le token JWT a expiré. Veuillez vous reconnecter."@),
        JwtErrorKind::InvalidToken => ("JWT_INVALID"@, "Le token JWT est invalide ou malformé."@),
        JwtErrorKind::InvalidSignature => ("JWT_INVALID_SIGNATURE"@, "La signature du token JWT est invalide."@),
        JwtErrorKind::InvalidIssuer => ("JWT_INVALID_ISSUER"@, "L'émetteur du token JWT n'est pas reconnu."@),
        JwtErrorKind::InvalidAudience => ("JWT_INVALID_AUDIENCE"@, "L'audience du token JWT n'est pas valide."@),
        JwtErrorKind::Other => ("JWT_ERROR"@, "Erreur lors de la validation du token JWT."@),
    }
}

/// The error answered for a refused JSON web token.
pub fn jwt_error_result(kind: JwtErrorKind) -> (r: ErrorResult)
    ensures
        (r.error@, r.message@) == spec_jwt_error(kind),
{
    match kind {
        JwtErrorKind::ExpiredSignature => error_result("JWT_EXPIRED", "Le token JWT a expiré. Veuillez vous reconnecter."),
        JwtErrorKind::InvalidToken => error_result("JWT_INVALID", "Le token JWT est invalide ou malformé."),
        JwtErrorKind::InvalidSignature => error_result("JWT_INVALID_SIGNATURE", "La signature du token JWT est invalide."),
        JwtErrorKind::InvalidIssuer => error_result("JWT_INVALID_ISSUER", "L'émetteur du token JWT n'est pas reconnu."),
        JwtErrorKind::InvalidAudience => error_result("JWT_INVALID_AUDIENCE", "L'audience du token JWT n'est pas valide."),
        JwtErrorKind::Other => error_result("JWT_ERROR", "Erreur lors de la validation du token JWT."),
    }
}

/// The error answered when the `Authorization` header is missing.
pub open spec fn jwt_missing() -> (Seq<char>, Seq<char>) {
    ("JWT_MISSING"@, "Le header Authorization avec le token JWT est manquant."@)
}

/// The error answered when the `Authorization` header does not start with
/// `Bearer `.
pub open spec fn jwt_malformed_header() -> (Seq<char>, Seq<char>) {
    ("JWT_MALFORMED_HEADER"@, "Le header Authorization doit commencer par 'Bearer '."@)
}

/// The token of an `Authorization` header, which must be present and start
/// with `Bearer `.
pub fn bearer_token(header: Option<&str>) -> (r: Result<String, ErrorResult>)
    ensures
        match opt_str_view(header) {
            None => r matches Err(e) && (e.error@, e.message@) == jwt_missing(),
            Some(h) => if has_prefix(h, "Bearer "@) {
                r matches Ok(t) && t@ == h.subrange(7, h.len() as int)
            } else {
                r matches Err(e) && (e.error@, e.message@) == jwt_malformed_header()
            },
        },
{
    proof {
        reveal_strlit("Bearer ");
    }
    match header {
        None => Err(error_result("JWT_MISSING", "Le header Authorization avec le token JWT est manquant.")),
        Some(h) => match strip_prefix(h, "Bearer ") {
            Some(t) => Ok(t),
            None => Err(error_result("JWT_MALFORMED_HEADER", "Le header Authorization doit commencer par 'Bearer '.")),
        },
    }
}

/// Whether `token` is made of a header, a payload and a signature, its
/// header reads as one of the HS256 algorithm, and its signature is the
/// HS256 signature of its header and payload under `secret`.
pub uninterp spec fn hs256_signature_valid(token: Seq<char>, secret: Seq<char>) -> bool;

/// Decodes and validates the JSON web token `token`, signed with HS256 and
/// `secret`, its expiry checked against the clock.
///
/// Trusted: calls `jsonwebtoken::decode` with the default validation (the
/// HS256 algorithm only) and a key made by `DecodingKey::from_secret`, and
/// tells the refusals apart by their `ErrorKind`. Its source checks the
/// signature (`verify_signature`) before the claims and the expiry: so an
/// accepted token has a valid HS256 signature under `secret`, and
/// `InvalidSignature` comes only from a token whose header was read as HS256
/// and whose signature is not that of its content. Which refusal, and
/// whether one, otherwise rests on the clock and is left unsaid.
#[verifier::external_body]
fn jwt_decode(token: &str, secret: &str) -> (r: Result<(), JwtErrorKind>)
    ensures
        r is Ok ==> hs256_signature_valid(token@, secret@),
        (r matches Err(k) && k == JwtErrorKind::InvalidSignature) ==> !hs256_signature_valid(token@, secret@),
{
    let key = jsonwebtoken::DecodingKey::from_secret(secret.as_bytes());
    match jsonwebtoken::decode::<serde_json::Value>(token, &key, &jsonwebtoken::Validation::default()) {
        Ok(_) => Ok(()),
        Err(e) => Err(match e.kind() {
            ErrorKind::ExpiredSignature => JwtErrorKind::ExpiredSignature,
            ErrorKind::InvalidToken => JwtErrorKind::InvalidToken,
            ErrorKind::InvalidSignature => JwtErrorKind::InvalidSignature,
            ErrorKind::InvalidIssuer => JwtErrorKind::InvalidIssuer,
            ErrorKind::InvalidAudience => JwtErrorKind::InvalidAudience,
            _ => JwtErrorKind::Other,
        }),
    }
}

/// What is answered once a JSON web token was decoded with the outcome
/// `decoded`.
pub fn jwt_outcome(decoded: Result<(), JwtErrorKind>) -> (r: Result<(), ErrorResult>)
    ensures
        match decoded {
            Ok(_) => r is Ok,
            Err(k) => r matches Err(e) && (e.error@, e.message@) == spec_jwt_error(k),
        },
{
    match decoded {
        Ok(_) => Ok(()),
        Err(k) => Err(jwt_error_result(k)),
    }
}

/// Checks the `Authorization` header of a request: a JSON web token signed
/// with `secret`, behind `Bearer `.
pub fn check_jwt(header: Option<&str>, secret: &str) -> (r: Result<(), ErrorResult>)
    ensures
        match opt_str_view(header) {
            None => r matches Err(e) && (e.error@, e.message@) == jwt_missing(),
            Some(h) => if has_prefix(h, "Bearer "@) {
                r is Ok || exists|k: JwtErrorKind| r matches Err(e) && (e.error@, e.message@) == #[trigger] spec_jwt_error(k)
            } else {
                r matches Err(e) && (e.error@, e.message@) == jwt_malformed_header()
            },
        },
        r is Ok ==> (opt_str_view(header) matches Some(h) && has_prefix(h, "Bearer "@)
            && hs256_signature_valid(h.subrange(7, h.len() as int), secret@)),
        (opt_str_view(header) matches Some(h) && has_prefix(h, "Bearer "@)
            && !hs256_signature_valid(h.subrange(7, h.len() as int), secret@)) ==> r is Err,
{
    match bearer_token(header) {
        Err(e) => Err(e),
        Ok(token) => {
            let decoded = jwt_decode(token.as_str(), secret);
            jwt_outcome(decoded)
        },
    }
}

} // verus!
