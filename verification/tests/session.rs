use falidex::middleware::{
    bearer_token, check_cookie_access_at, check_jwt, check_token_access_at, find_unique_id,
    jwt_error_result, jwt_outcome, JwtErrorKind,
};
use falidex::model::db_model::TokenAuth;
use falidex::routes::token::{gen_cookie, verify_hash_at};
use falidex::security_utils::{derivate_token, hash_token, verify_temp_token_at, SecurityStore};

const SECRET: &str = "dsec";

fn store_with(token: &str, cookie: &str, now: i64) -> SecurityStore {
    let mut store = SecurityStore::new();
    store.store_new_autorisation(token.to_string(), cookie.to_string(), now, SECRET);
    store
}

#[test]
fn hash_token_is_sha256_of_role_secret_timestamp() {
    assert_eq!(
        hash_token("admin", "secret", 1000),
        "c8cd504537f269b7cc8056e9932c0719ff0be8e29c1b188b03b5f9e2e84859b3"
    );
}

#[test]
fn derivate_token_is_sha256_of_token_and_secret() {
    assert_eq!(
        derivate_token("tok", "dsec"),
        "f6cee7a04fa65d725572605990f1fb8086c37c674f0603464008720fe9f944a9"
    );
}

#[test]
fn temp_token_is_accepted_within_a_minute_and_not_from_the_future() {
    let h = hash_token("admin", "secret", 1000);
    assert!(verify_temp_token_at("admin", 1000, &h, 1000, "secret"));
    assert!(verify_temp_token_at("admin", 1000, &h, 1060, "secret"));
    assert!(!verify_temp_token_at("admin", 1000, &h, 1061, "secret"));
    assert!(!verify_temp_token_at("admin", 1000, &h, 999, "secret"));
    assert!(!verify_temp_token_at("admin", 1000, "bad", 1000, "secret"));
    assert!(!verify_temp_token_at("other", 1000, &h, 1000, "secret"));
}

#[test]
fn stored_token_is_accepted_until_it_expires() {
    let mut store = store_with("tok", "cookie-1", 1000);
    assert!(check_token_access_at(&mut store, Some("tok"), 1000, SECRET).is_ok());
    assert!(check_token_access_at(&mut store, Some("tok"), 1000 + 86399, SECRET).is_ok());
    let e = check_token_access_at(&mut store, Some("tok"), 1000 + 86400, SECRET).unwrap_err();
    assert_eq!(e.error, "UNAUTHORIZED");
    assert_eq!(e.message, "Invalid or expired token");
    // The expired authorization was revoked: it stays refused.
    let e = check_token_access_at(&mut store, Some("tok"), 1000, SECRET).unwrap_err();
    assert_eq!(e.message, "Invalid or expired token");
}

#[test]
fn token_check_refuses_a_missing_header_and_an_unknown_token() {
    let mut store = store_with("tok", "cookie-1", 1000);
    let e = check_token_access_at(&mut store, None, 1000, SECRET).unwrap_err();
    assert_eq!(e.error, "UNAUTHORIZED");
    assert_eq!(e.message, "Missing X-Token header");
    let e = check_token_access_at(&mut store, Some("other"), 1000, SECRET).unwrap_err();
    assert_eq!(e.message, "Invalid or expired token");
    // The derived token itself is not what the client presents.
    let dt = derivate_token("tok", SECRET);
    assert!(check_token_access_at(&mut store, Some(&dt), 1000, SECRET).is_err());
    assert!(check_token_access_at(&mut store, Some("tok"), 1000, SECRET).is_ok());
}

#[test]
fn token_check_refuses_when_the_cookie_is_gone() {
    let mut store = store_with("tok", "cookie-1", 1000);
    store.revoke_cookie("cookie-1");
    let e = check_token_access_at(&mut store, Some("tok"), 1000, SECRET).unwrap_err();
    assert_eq!(e.message, "Invalid or expired token");
}

#[test]
fn cookie_header_is_searched_part_by_part() {
    assert_eq!(find_unique_id("unique_id=abc").as_deref(), Some("abc"));
    assert_eq!(find_unique_id("a=1; unique_id=abc; b=2").as_deref(), Some("abc"));
    assert_eq!(find_unique_id("  unique_id=abc  ").as_deref(), Some("abc"));
    assert_eq!(find_unique_id("a=1;unique_id=;b").as_deref(), Some(""));
    assert_eq!(find_unique_id("a=1; b=2"), None);
    assert_eq!(find_unique_id(""), None);
    assert_eq!(find_unique_id("xunique_id=abc"), None);
    assert_eq!(find_unique_id("unique_id=first; unique_id=second").as_deref(), Some("first"));
}

#[test]
fn stored_cookie_is_accepted_until_it_expires() {
    let mut store = store_with("tok", "cookie-1", 1000);
    assert!(check_cookie_access_at(&mut store, Some("x=1; unique_id=cookie-1"), 2000).is_ok());
    let e = check_cookie_access_at(&mut store, Some("unique_id=cookie-1"), 1000 + 86400).unwrap_err();
    assert_eq!(e.error, "UNAUTHORIZED");
    assert_eq!(e.message, "Invalid or expired cookie");
}

#[test]
fn cookie_check_refuses_a_missing_cookie() {
    let mut store = store_with("tok", "cookie-1", 1000);
    let e = check_cookie_access_at(&mut store, None, 1000).unwrap_err();
    assert_eq!(e.message, "Missing unique_id cookie");
    let e = check_cookie_access_at(&mut store, Some("a=1"), 1000).unwrap_err();
    assert_eq!(e.message, "Missing unique_id cookie");
    let e = check_cookie_access_at(&mut store, Some("unique_id=nope"), 1000).unwrap_err();
    assert_eq!(e.message, "Invalid or expired cookie");
}

#[test]
fn set_cookie_value_depends_on_the_domain() {
    let mut store = SecurityStore::new();
    let a = store.store_new_autorisation("tok".to_string(), "c-1".to_string(), 0, SECRET);
    assert_eq!(
        gen_cookie(&a, "example.org"),
        "unique_id=c-1; Path=/; HttpOnly; SameSite=Lax; Secure; Domain=example.org"
    );
    assert_eq!(gen_cookie(&a, ""), "unique_id=c-1; Path=/; HttpOnly; SameSite=Lax;");
}

#[test]
fn a_handed_out_cookie_is_found_back_and_accepted() {
    let mut store = SecurityStore::new();
    let a = store.store_new_autorisation("tok".to_string(), "c-1".to_string(), 100, SECRET);
    let set_cookie = gen_cookie(&a, "");
    let sent_back = set_cookie.split(';').next().unwrap().to_string();
    assert_eq!(find_unique_id(&sent_back).as_deref(), Some("c-1"));
    assert!(check_cookie_access_at(&mut store, Some(&sent_back), 200).is_ok());
    assert!(check_token_access_at(&mut store, Some("tok"), 200, SECRET).is_ok());
}

#[test]
fn verify_hash_hands_out_an_authorization_for_a_good_temporary_token() {
    let mut store = SecurityStore::new();
    let payload = TokenAuth {
        role: "admin".to_string(),
        timestamp: 1000,
        hash: hash_token("admin", "secret", 1000),
    };
    let (resp, cookie) = verify_hash_at(&mut store, &payload, 1010, "secret", SECRET, "").unwrap();
    assert_eq!(resp.token.len(), 36);
    assert!(cookie.starts_with("unique_id="));
    assert!(cookie.ends_with("; Path=/; HttpOnly; SameSite=Lax;"));
    let dt = derivate_token(&resp.token, SECRET);
    assert!(store.get_autorisaton_by_derivated_token(&dt).is_some());
}

#[test]
fn verify_hash_refuses_a_bad_temporary_token() {
    let mut store = SecurityStore::new();
    let payload = TokenAuth { role: "admin".to_string(), timestamp: 1000, hash: "nope".to_string() };
    let e = verify_hash_at(&mut store, &payload, 1010, "secret", SECRET, "").unwrap_err();
    assert_eq!(e.error, "UNAUTHORIZED");
    assert_eq!(e.message, "you shoundn't be here");
}

#[test]
fn bearer_token_needs_the_bearer_prefix() {
    assert_eq!(bearer_token(Some("Bearer abc")).unwrap(), "abc");
    let e = bearer_token(None).unwrap_err();
    assert_eq!(e.error, "JWT_MISSING");
    assert_eq!(e.message, "Le header Authorization avec le token JWT est manquant.");
    let e = bearer_token(Some("Basic abc")).unwrap_err();
    assert_eq!(e.error, "JWT_MALFORMED_HEADER");
    assert_eq!(e.message, "Le header Authorization doit commencer par 'Bearer '.");
}

#[test]
fn jwt_refusals_have_their_own_code_and_message() {
    let e = jwt_error_result(JwtErrorKind::ExpiredSignature);
    assert_eq!(e.error, "JWT_EXPIRED");
    assert_eq!(e.message, "Le token JWT a expiré. Veuillez vous reconnecter.");
    assert_eq!(jwt_error_result(JwtErrorKind::InvalidToken).error, "JWT_INVALID");
    assert_eq!(jwt_error_result(JwtErrorKind::InvalidSignature).error, "JWT_INVALID_SIGNATURE");
    assert_eq!(jwt_error_result(JwtErrorKind::InvalidIssuer).error, "JWT_INVALID_ISSUER");
    assert_eq!(jwt_error_result(JwtErrorKind::InvalidAudience).error, "JWT_INVALID_AUDIENCE");
    assert_eq!(jwt_error_result(JwtErrorKind::Other).error, "JWT_ERROR");
    assert!(jwt_outcome(Ok(())).is_ok());
    assert_eq!(jwt_outcome(Err(JwtErrorKind::InvalidToken)).unwrap_err().error, "JWT_INVALID");
}

fn signed_jwt(secret: &str, exp: u64) -> String {
    let mut claims = serde_json::Map::new();
    claims.insert("sub".to_string(), serde_json::Value::String("user-1".to_string()));
    claims.insert("exp".to_string(), serde_json::Value::from(exp));
    jsonwebtoken::encode(
        &jsonwebtoken::Header::default(),
        &serde_json::Value::Object(claims),
        &jsonwebtoken::EncodingKey::from_secret(secret.as_bytes()),
    )
    .unwrap()
}

#[test]
fn check_jwt_accepts_a_valid_token_and_refuses_others() {
    let far = 4_000_000_000u64;
    let good = signed_jwt("jwt-secret", far);
    assert!(check_jwt(Some(&format!("Bearer {}", good)), "jwt-secret").is_ok());
    let e = check_jwt(Some(&format!("Bearer {}", good)), "other-secret").unwrap_err();
    assert_eq!(e.error, "JWT_INVALID_SIGNATURE");
    let old = signed_jwt("jwt-secret", 1000);
    let e = check_jwt(Some(&format!("Bearer {}", old)), "jwt-secret").unwrap_err();
    assert_eq!(e.error, "JWT_EXPIRED");
    let e = check_jwt(Some("Bearer not-a-jwt"), "jwt-secret").unwrap_err();
    assert_eq!(e.error, "JWT_INVALID");
    assert_eq!(check_jwt(None, "jwt-secret").unwrap_err().error, "JWT_MISSING");
}

#[test]
fn clearing_expired_authorizations_keeps_the_live_ones() {
    let mut store = SecurityStore::new();
    store.store_new_autorisation("old".to_string(), "c-old".to_string(), 0, SECRET);
    store.store_new_autorisation("new".to_string(), "c-new".to_string(), 100_000, SECRET);
    store.clear_expired_at(90_000);
    assert!(store.get_autorisaton_by_cookie("c-old").is_none());
    assert!(store.get_autorisaton_by_derivated_token(&derivate_token("old", SECRET)).is_none());
    assert!(store.get_autorisaton_by_cookie("c-new").is_some());
}

#[test]
fn user_tokens_pass_the_jwt_check() {
    let t = falidex::routes::users::generate_token_at("user-1", 4_000_000_000, "jwt-secret").unwrap();
    assert_ne!(t, "user-1");
    assert_eq!(t.split('.').count(), 3);
    assert!(check_jwt(Some(&format!("Bearer {}", t)), "jwt-secret").is_ok());
    assert_eq!(
        check_jwt(Some(&format!("Bearer {}", t)), "wrong").unwrap_err().error,
        "JWT_INVALID_SIGNATURE"
    );
    let now_token = falidex::routes::users::generate_token("user-2", "jwt-secret").unwrap();
    assert!(check_jwt(Some(&format!("Bearer {}", now_token)), "jwt-secret").is_ok());
    let old = falidex::routes::users::generate_token_at("user-1", 1000, "jwt-secret").unwrap();
    assert_eq!(check_jwt(Some(&format!("Bearer {}", old)), "jwt-secret").unwrap_err().error, "JWT_EXPIRED");
}

#[test]
fn a_generated_authorization_is_valid_a_day_with_fresh_uuids() {
    let mut store = SecurityStore::new();
    let before = std::time::SystemTime::now().duration_since(std::time::UNIX_EPOCH).unwrap().as_secs() as i64;
    let a = store.generate_and_store(SECRET);
    let after = std::time::SystemTime::now().duration_since(std::time::UNIX_EPOCH).unwrap().as_secs() as i64;
    assert!(a.expiration >= before + 86400 && a.expiration <= after + 86400);
    assert_eq!(a.token.len(), 36);
    assert_eq!(a.cookie.len(), 36);
    assert_ne!(a.token, a.cookie);
    assert_eq!(a.derivated_token, derivate_token(&a.token, SECRET));
    let b = store.generate_and_store(SECRET);
    assert_ne!(a.token, b.token);
    assert_eq!(store.get_autorisaton_by_cookie(&a.cookie).unwrap().token, a.token);
    assert_eq!(store.get_autorisaton_by_cookie(&b.cookie).unwrap().token, b.token);
}

#[test]
fn revoking_one_cookie_leaves_the_others() {
    let mut store = store_with("t1", "c1", 0);
    store.store_new_autorisation("t2".to_string(), "c2".to_string(), 0, SECRET);
    store.revoke_cookie("c1");
    assert!(store.get_autorisaton_by_cookie("c1").is_none());
    assert!(store.get_autorisaton_by_derivated_token(&derivate_token("t1", SECRET)).is_none());
    assert_eq!(store.get_autorisaton_by_cookie("c2").unwrap().token, "t2");
    assert_eq!(store.get_autorisaton_by_derivated_token(&derivate_token("t2", SECRET)).unwrap().cookie, "c2");
}

#[test]
fn user_tokens_can_be_issued_before_the_epoch() {
    let t = falidex::routes::users::generate_token_at("user-1", -100, "jwt-secret").unwrap();
    assert_eq!(t.split('.').count(), 3);
}

#[test]
fn storing_over_a_used_cookie_revokes_the_earlier_authorization() {
    let mut store = store_with("t1", "c1", 0);
    store.store_new_autorisation("t2".to_string(), "c1".to_string(), 0, SECRET);
    assert_eq!(store.get_autorisaton_by_cookie("c1").unwrap().token, "t2");
    assert!(store.get_autorisaton_by_derivated_token(&derivate_token("t1", SECRET)).is_none());
    assert_eq!(store.get_autorisaton_by_derivated_token(&derivate_token("t2", SECRET)).unwrap().cookie, "c1");
}
