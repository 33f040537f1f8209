//! The settings of the service: each is the value found in the environment,
//! or its default. Reading the environment is left to the caller, who hands
//! over what it found under the setting's name.
use vstd::prelude::*;
use crate::text::{chars_of, spec_trim, split_from, split_on, str_eq, string_from_chars, trim};

verus! {

/// The value of a setting: the one found, else the default. A setting with
/// no default must be found.
pub open spec fn spec_env_value(default: Option<Seq<char>>, found: Option<Seq<char>>) -> Seq<char> {
    match found {
        Some(v) => v,
        None => default.unwrap(),
    }
}

/// The view of an optional string.
pub open spec fn opt_view(o: Option<String>) -> Option<Seq<char>> {
    match o {
        Some(s) => Some(s@),
        None => None,
    }
}

/// The value of a setting, from what was found in the environment and its
/// default.
pub fn get_env_value(default: Option<String>, found: Option<String>) -> (r: String)
    requires
        found is Some || default is Some,
    ensures
        r@ == spec_env_value(opt_view(default), opt_view(found)),
{
    match found {
        Some(v) => v,
        None => match default {
            Some(d) => d,
            None => {
                assert(false);
                String::new()
            },
        },
    }
}

/// The key of the encryption of persisted texts (`ENCRYPT_KEY`, required).
pub fn get_encrypt_key(found: Option<String>) -> (r: String)
    requires
        found is Some,
    ensures
        r@ == found.unwrap()@,
{
    get_env_value(None, found)
}

/// The port to listen on (`PORT`, default `3000`).
pub fn get_port(found: Option<String>) -> (r: String)
    ensures
        r@ == spec_env_value(Some("3000"@), opt_view(found)),
{
    get_env_value(Some("3000".to_string()), found)
}

/// The secret of the JSON web tokens (`JWT_SECRET`, required).
pub fn get_jwt_secret(found: Option<String>) -> (r: String)
    requires
        found is Some,
    ensures
        r@ == found.unwrap()@,
{
    get_env_value(None, found)
}

/// The secret of the temporary tokens (`TOKEN_HASH_KEY`, required).
pub fn get_token_hash_key(found: Option<String>) -> (r: String)
    requires
        found is Some,
    ensures
        r@ == found.unwrap()@,
{
    get_env_value(None, found)
}

/// The secret that derives stored tokens (`DERIVATE_TOKEN_HASH_KEY`, required).
pub fn get_derivated_token_hash_key(found: Option<String>) -> (r: String)
    requires
        found is Some,
    ensures
        r@ == found.unwrap()@,
{
    get_env_value(None, found)
}

/// The origins allowed to call the service (`CORS_ORIGIN`, default `*`).
pub fn get_allowed_origins(found: Option<String>) -> (r: String)
    ensures
        r@ == spec_env_value(Some("*"@), opt_view(found)),
{
    get_env_value(Some("*".to_string()), found)
}

/// The name of the database (`BDD`, default `test-falidex`).
pub fn get_bdd(found: Option<String>) -> (r: String)
    ensures
        r@ == spec_env_value(Some("test-falidex"@), opt_view(found)),
{
    get_env_value(Some("test-falidex".to_string()), found)
}

/// The main folder of the images (`CLOUDINARY_MAIN_FOLDER`, default `test_falidex`).
pub fn get_cloudinary_main_folder(found: Option<String>) -> (r: String)
    ensures
        r@ == spec_env_value(Some("test_falidex"@), opt_view(found)),
{
    get_env_value(Some("test_falidex".to_string()), found)
}

/// The key of the image service (`CLOUDINARY_API_KEY`, required).
pub fn get_cloudinary_api_key(found: Option<String>) -> (r: String)
    requires
        found is Some,
    ensures
        r@ == found.unwrap()@,
{
    get_env_value(None, found)
}

/// The secret of the image service (`CLOUDINARY_API_SECRET_KEY`, required).
pub fn get_cloudinary_api_secret_key(found: Option<String>) -> (r: String)
    requires
        found is Some,
    ensures
        r@ == found.unwrap()@,
{
    get_env_value(None, found)
}

/// The account of the image service (`CLOUDINARY_CLOUD_NAME`, required).
pub fn get_cloudinary_cloud_name(found: Option<String>) -> (r: String)
    requires
        found is Some,
    ensures
        r@ == found.unwrap()@,
{
    get_env_value(None, found)
}

/// The domain that the session cookie is set for (`DOMAIN`, default empty:
/// no domain).
pub fn domain(found: Option<String>) -> (r: String)
    ensures
        r@ == spec_env_value(Some(Seq::<char>::empty()), opt_view(found)),
{
    let r = get_env_value(Some(String::new()), found);
    r
}

/// Whether a switch is on: its value is exactly `true`.
pub open spec fn switch_on(found: Option<Seq<char>>) -> bool {
    spec_env_value(Some("false"@), found) == "true"@
}

/// Whether the images are to be moved to the image service at start
/// (`MIGRATION_IMG`, default `false`; on only when exactly `true`).
pub fn is_migration_img_activated(found: Option<String>) -> (r: bool)
    ensures
        r == switch_on(opt_view(found)),
{
    let value = get_env_value(Some("false".to_string()), found);
    str_eq(value.as_str(), "true")
}

/// Whether the relation ids are to be repaired at start
/// (`FIX_RELATION_ID`, default `false`; on only when exactly `true`).
pub fn is_fix_relation_id_activated(found: Option<String>) -> (r: bool)
    ensures
        r == switch_on(opt_view(found)),
{
    let value = get_env_value(Some("false".to_string()), found);
    str_eq(value.as_str(), "true")
}


/// The origins that may call the service with credentials.
#[derive(Debug, Clone)]
pub enum AllowedOrigins {
    /// Any origin: the origin of each request is sent back.
    Mirror,
    /// The listed origins only.
    List(Vec<String>),
}

/// The origins of the `CORS_ORIGIN` setting: `*` allows any, otherwise a
/// comma-separated list, each origin trimmed of white space.
pub fn allowed_origins(value: &str) -> (r: AllowedOrigins)
    ensures
        value@ == "*"@ ==> r is Mirror,
        value@ != "*"@ ==> (r matches AllowedOrigins::List(v) && v@.map_values(|x: String| x@)
            == split_from(value@, ',', 0).map_values(|p: Seq<char>| spec_trim(p))),
{
    if str_eq(value, "*") {
        return AllowedOrigins::Mirror;
    }
    let parts = split_on(value, ',');
    let ghost parts_view = parts@.map_values(|x: String| x@);
    let mut out: Vec<String> = Vec::new();
    let mut i: usize = 0;
    while i < parts.len()
        invariant
            i <= parts@.len(),
            parts_view == parts@.map_values(|x: String| x@),
            out@.map_values(|x: String| x@) == parts_view.subrange(0, i as int).map_values(|p: Seq<char>| spec_trim(p)),
        decreases parts@.len() - i,
    {
        let c = chars_of(parts[i].as_str());
        let t = trim(&c);
        let ghost before = out@.map_values(|x: String| x@);
        out.push(string_from_chars(&t));
        assert(out@.map_values(|x: String| x@) =~= before.push(t@));
        assert(parts_view.subrange(0, i + 1).map_values(|p: Seq<char>| spec_trim(p))
            =~= parts_view.subrange(0, i as int).map_values(|p: Seq<char>| spec_trim(p)).push(spec_trim(parts_view[i as int])));
        i = i + 1;
    }
    assert(parts_view.subrange(0, parts@.len() as int) =~= parts_view);
    AllowedOrigins::List(out)
}

} // verus!
