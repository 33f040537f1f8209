//! The exchange of a temporary token for a long-lived authorization and its
//! session cookie.
use vstd::prelude::*;
use crate::model::db_model::{ErrorResult, TokenAuth, TokenAuthResponse};
use crate::security_utils::{
    SecurityStore, SecurityStoreAutorization, a_day_after, spec_add, spec_derivate_token, spec_verify_temp_token,
    verify_temp_token_at,
};
use crate::fresh::{now_timestamp, uuid_form};
use crate::middleware::error_result;
use crate::text::{chars_of, concat, concat3};

verus! {

/// The `Set-Cookie` value of the session cookie `cookie`: secure and bound to
/// `domain` when one is configured.
pub open spec fn spec_gen_cookie(cookie: Seq<char>, domain: Seq<char>) -> Seq<char> {
    if domain.len() != 0 {
        "unique_id="@ + cookie + "; Path=/; HttpOnly; SameSite=Lax; Secure; Domain="@ + domain
    } else {
        "unique_id="@ + cookie + "; Path=/; HttpOnly; SameSite=Lax;"@
    }
}

/// The `Set-Cookie` value of the session cookie of `autorisation`.
pub fn gen_cookie(autorisation: &SecurityStoreAutorization, domain: &str) -> (r: String)
    ensures
        r@ == spec_gen_cookie(autorisation.cookie@, domain@),
{
    let d = chars_of(domain);
    if d.len() != 0 {
        let a = concat3("unique_id=", autorisation.cookie.as_str(), "; Path=/; HttpOnly; SameSite=Lax; Secure; Domain=");
        concat(a.as_str(), domain)
    } else {
        concat3("unique_id=", autorisation.cookie.as_str(), "; Path=/; HttpOnly; SameSite=Lax;")
    }
}

/// The message of a refused temporary token.
pub open spec fn refused_message() -> Seq<char> {
    "you shoundn't be here"@
}

/// Exchanges a temporary token, checked at time `now` against `hash_secret`,
/// for a new long-lived authorization: the token for the client and the
/// `Set-Cookie` value of its session cookie. A refused token leaves the store
/// as it was.
pub fn verify_hash_at(
    store: &mut SecurityStore,
    payload: &TokenAuth,
    now: i64,
    hash_secret: &str,
    derivation_secret: &str,
    domain: &str,
) -> (r: Result<(TokenAuthResponse, String), ErrorResult>)
    ensures
        r is Ok <==> spec_verify_temp_token(payload.role@, payload.timestamp, payload.hash@, now, hash_secret@),
        r matches Ok((resp, cookie)) ==> exists|id: Seq<char>, a: SecurityStoreAutorization|
            final(store)@ == #[trigger] spec_add(old(store)@, id, a)
            && resp.token == a.token
            && cookie@ == spec_gen_cookie(a.cookie@, domain@)
            && a.derivated_token@ == spec_derivate_token(a.token@, derivation_secret@)
            && uuid_form(id) && uuid_form(a.token@) && uuid_form(a.cookie@)
            && (exists|n: i64| n <= i64::MAX - 86400 && a.expiration == #[trigger] a_day_after(n)),
        r matches Err(e) ==> final(store)@ == old(store)@ && e.error@ == "UNAUTHORIZED"@
            && e.message@ == refused_message(),
{
    if verify_temp_token_at(payload.role.as_str(), payload.timestamp, payload.hash.as_str(), now, hash_secret) {
        let autorisation = store.generate_and_store(derivation_secret);
        let cookie = gen_cookie(&autorisation, domain);
        Ok((TokenAuthResponse { token: autorisation.token }, cookie))
    } else {
        Err(error_result("UNAUTHORIZED", "you shoundn't be here"))
    }
}

/// Exchanges a temporary token, checked now, for a new long-lived
/// authorization.
pub fn verify_hash(
    store: &mut SecurityStore,
    payload: &TokenAuth,
    hash_secret: &str,
    derivation_secret: &str,
    domain: &str,
) -> (r: Result<(TokenAuthResponse, String), ErrorResult>)
    ensures
        r is Ok ==> exists|now: i64| spec_verify_temp_token(payload.role@, payload.timestamp, payload.hash@, now, hash_secret@),
        r matches Ok((resp, cookie)) ==> exists|id: Seq<char>, a: SecurityStoreAutorization|
            final(store)@ == #[trigger] spec_add(old(store)@, id, a)
            && resp.token == a.token
            && cookie@ == spec_gen_cookie(a.cookie@, domain@)
            && a.derivated_token@ == spec_derivate_token(a.token@, derivation_secret@)
            && uuid_form(id) && uuid_form(a.token@) && uuid_form(a.cookie@)
            && (exists|n: i64| n <= i64::MAX - 86400 && a.expiration == #[trigger] a_day_after(n)),
        r matches Err(e) ==> final(store)@ == old(store)@ && e.error@ == "UNAUTHORIZED"@
            && e.message@ == refused_message(),
{
    let now = now_timestamp();
    verify_hash_at(store, payload, now, hash_secret, derivation_secret, domain)
}

} // verus!
