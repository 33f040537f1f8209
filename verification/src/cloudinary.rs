//! Signatures and addresses for the media host: signed uploads and
//! deletions, signed delivery URLs, and the local records of assets.
use crate::digest::{base64_url_no_pad, base64_url_no_pad_encode, hex_encode, hex_lower, sha256, sha256_digest};
use crate::fresh::{new_uuid, uuid_form};
use crate::model::resource_model::{AssetUrl, CloudinaryAsset, CloudinaryAssetWithId};
use crate::str_map::StrMap;
use crate::text::{
    chars_of, concat, concat3, decimal, i64_to_string, join, join_strings, lemma_lex_asymmetric,
    lemma_lex_irreflexive, lemma_lex_total, lemma_lex_transitive, lex_less, lex_lt, signed_decimal,
    str_eq, string_from_chars, sub_chars, u64_to_string,
};
use vstd::prelude::*;
use vstd::utf8::encode_utf8;

verus! {

broadcast use vstd::string::group_string_axioms;

/// The parameters that a signature leaves out.
pub open spec fn unsigned_key(k: Seq<char>) -> bool {
    k == "file"@ || k == "cloud_name"@ || k == "api_key"@ || k == "signature"@ || k
        == "resource_type"@
}

/// The values of a map of strings, seen as character sequences.
pub open spec fn values_view(m: Map<Seq<char>, String>) -> Map<Seq<char>, Seq<char>> {
    m.map_values(|v: String| v@)
}

/// The parameters that a signature covers, with their values.
pub open spec fn signed_params_view(m: Map<Seq<char>, Seq<char>>) -> Map<Seq<char>, Seq<char>> {
    Map::new(|k: Seq<char>| m.contains_key(k) && !unsigned_key(k), |k: Seq<char>| m[k])
}

/// The parameters that a signature covers, with their values.
pub open spec fn signed_params(m: Map<Seq<char>, String>) -> Map<Seq<char>, Seq<char>> {
    signed_params_view(values_view(m))
}

/// `s` lists the entries of `m` by strictly increasing key.
pub open spec fn sorted_listing(s: Seq<(Seq<char>, Seq<char>)>, m: Map<Seq<char>, Seq<char>>) -> bool {
    &&& forall|i: int, j: int| 0 <= i < j < s.len() ==> lex_lt(#[trigger] s[i].0, #[trigger] s[j].0)
    &&& forall|i: int| 0 <= i < s.len() ==> m.contains_key(#[trigger] s[i].0) && m[s[i].0] == s[i].1
    &&& forall|k: Seq<char>| m.contains_key(k) ==> exists|i: int| 0 <= i < s.len() && #[trigger] s[i].0 == k
}

/// The line that a signature hashes: `key=value` pairs joined by `&`.
pub open spec fn param_line(s: Seq<(Seq<char>, Seq<char>)>) -> Seq<char> {
    join(s.map_values(|p: (Seq<char>, Seq<char>)| p.0 + "="@ + p.1), "&"@)
}

/// The signature of a parameter line: SHA-256 of the line followed by the
/// API secret, in lower-case hexadecimal.
pub open spec fn spec_sign_line(line: Seq<char>, secret: Seq<char>) -> Seq<char> {
    hex_lower(sha256(encode_utf8(line + secret)))
}

/// Two listings of the same entries by strictly increasing key are equal:
/// the signature of a set of parameters does not depend on their order.
pub proof fn lemma_sorted_listing_unique(s1: Seq<(Seq<char>, Seq<char>)>, s2: Seq<(Seq<char>, Seq<char>)>, m: Map<Seq<char>, Seq<char>>)
    requires
        sorted_listing(s1, m),
        sorted_listing(s2, m),
    ensures
        s1 == s2,
    decreases s1.len(),
{
    if s1.len() == 0 {
        if s2.len() > 0 {
            assert(m.contains_key(s2[0].0));
            let i = choose|i: int| 0 <= i < s1.len() && #[trigger] s1[i].0 == s2[0].0;
        }
        assert(s1 =~= s2);
    } else {
        assert(m.contains_key(s1[0].0));
        let j = choose|j: int| 0 <= j < s2.len() && #[trigger] s2[j].0 == s1[0].0;
        assert(m.contains_key(s2[0].0));
        let i = choose|i: int| 0 <= i < s1.len() && #[trigger] s1[i].0 == s2[0].0;
        let k0 = s1[0].0;
        if i > 0 && j > 0 {
            assert(lex_lt(s1[0].0, s1[i].0));
            assert(lex_lt(s2[0].0, s2[j].0));
            lemma_lex_asymmetric(k0, s2[0].0);
        } else if i > 0 {
            assert(s2[0].0 == k0);
        } else if j > 0 {
            assert(s1[0].0 == s2[0].0);
        }
        assert(s2[0].0 == k0);
        assert(s1[0].1 == m[k0]);
        assert(s2[0].1 == m[k0]);
        let m2 = m.remove(k0);
        let t1 = s1.drop_first();
        let t2 = s2.drop_first();
        assert forall|a: int| 0 <= a < t1.len() implies m2.contains_key(#[trigger] t1[a].0) && m2[t1[a].0] == t1[a].1 by {
            assert(t1[a] == s1[a + 1]);
            assert(lex_lt(s1[0].0, s1[a + 1].0));
            lemma_lex_irreflexive(k0);
        }
        assert forall|a: int| 0 <= a < t2.len() implies m2.contains_key(#[trigger] t2[a].0) && m2[t2[a].0] == t2[a].1 by {
            assert(t2[a] == s2[a + 1]);
            assert(lex_lt(s2[0].0, s2[a + 1].0));
            lemma_lex_irreflexive(k0);
        }
        assert forall|k: Seq<char>| m2.contains_key(k) implies exists|a: int| 0 <= a < t1.len() && #[trigger] t1[a].0 == k by {
            let a = choose|a: int| 0 <= a < s1.len() && #[trigger] s1[a].0 == k;
            assert(t1[a - 1].0 == k);
        }
        assert forall|k: Seq<char>| m2.contains_key(k) implies exists|a: int| 0 <= a < t2.len() && #[trigger] t2[a].0 == k by {
            let a = choose|a: int| 0 <= a < s2.len() && #[trigger] s2[a].0 == k;
            assert(t2[a - 1].0 == k);
        }
        assert forall|a: int, b: int| 0 <= a < b < t1.len() implies lex_lt(#[trigger] t1[a].0, #[trigger] t1[b].0) by {
            assert(t1[a] == s1[a + 1]);
            assert(t1[b] == s1[b + 1]);
        }
        assert forall|a: int, b: int| 0 <= a < b < t2.len() implies lex_lt(#[trigger] t2[a].0, #[trigger] t2[b].0) by {
            assert(t2[a] == s2[a + 1]);
            assert(t2[b] == s2[b + 1]);
        }
        lemma_sorted_listing_unique(t1, t2, m2);
        assert(s1 =~= seq![s1[0]] + t1);
        assert(s2 =~= seq![s2[0]] + t2);
    }
}

/// Two sets of parameters that agree on the signed ones have the same
/// signature line, however they were listed.
pub proof fn law_signature_depends_on_signed_params_only(
    m1: Map<Seq<char>, String>,
    m2: Map<Seq<char>, String>,
    s1: Seq<(Seq<char>, Seq<char>)>,
    s2: Seq<(Seq<char>, Seq<char>)>,
)
    requires
        signed_params(m1) == signed_params(m2),
        sorted_listing(s1, signed_params(m1)),
        sorted_listing(s2, signed_params(m2)),
    ensures
        param_line(s1) == param_line(s2),
{
    lemma_sorted_listing_unique(s1, s2, signed_params(m1));
}

/// Adding a parameter that signatures leave out (`file`, `cloud_name`,
/// `api_key`, `signature`, `resource_type`) changes nothing that is signed.
pub proof fn law_unsigned_param_ignored(m: Map<Seq<char>, String>, k: Seq<char>, v: String)
    requires
        unsigned_key(k),
    ensures
        signed_params(m.insert(k, v)) == signed_params(m),
{
    assert(signed_params(m.insert(k, v)) =~= signed_params(m));
}

/// Whether a parameter is left out of signatures.
pub fn is_unsigned_key(k: &str) -> (r: bool)
    ensures
        r == unsigned_key(k@),
{
    str_eq(k, "file") || str_eq(k, "cloud_name") || str_eq(k, "api_key") || str_eq(k, "signature")
        || str_eq(k, "resource_type")
}

/// Pairs of strings seen as pairs of character sequences.
pub open spec fn pairs_view(v: Seq<(String, String)>) -> Seq<(Seq<char>, Seq<char>)> {
    v.map_values(|p: (String, String)| (p.0@, p.1@))
}

/// The keys of `s` increase strictly.
pub open spec fn strictly_sorted(s: Seq<(Seq<char>, Seq<char>)>) -> bool {
    forall|i: int, j: int| 0 <= i < j < s.len() ==> lex_lt(#[trigger] s[i].0, #[trigger] s[j].0)
}

/// `k` is a key of `s`.
pub open spec fn listed_key(s: Seq<(Seq<char>, Seq<char>)>, k: Seq<char>) -> bool {
    exists|a: int| 0 <= a < s.len() && #[trigger] s[a].0 == k
}

proof fn lemma_insert_listed(s: Seq<(Seq<char>, Seq<char>)>, j: int, p: (Seq<char>, Seq<char>), k: Seq<char>)
    requires
        0 <= j <= s.len(),
    ensures
        listed_key(s.insert(j, p), k) <==> (listed_key(s, k) || k == p.0),
{
    let t = s.insert(j, p);
    if listed_key(t, k) {
        let a = choose|a: int| 0 <= a < t.len() && #[trigger] t[a].0 == k;
        if a < j {
            assert(s[a].0 == k);
        } else if a > j {
            assert(s[a - 1].0 == k);
        }
    }
    if listed_key(s, k) {
        let a = choose|a: int| 0 <= a < s.len() && #[trigger] s[a].0 == k;
        if a < j {
            assert(t[a].0 == k);
        } else {
            assert(t[a + 1].0 == k);
        }
    }
    if k == p.0 {
        assert(t[j].0 == k);
    }
}

/// Inserts an entry with a new key into a list sorted by key, where it
/// belongs; returns where.
fn insert_sorted(res: &mut Vec<(String, String)>, key: String, value: String) -> (j: usize)
    requires
        strictly_sorted(pairs_view(old(res)@)),
        !listed_key(pairs_view(old(res)@), key@),
    ensures
        j <= old(res)@.len(),
        pairs_view(final(res)@) == pairs_view(old(res)@).insert(j as int, (key@, value@)),
        strictly_sorted(pairs_view(final(res)@)),
{
    let ghost before = pairs_view(res@);
    let kc = chars_of(key.as_str());
    let mut j: usize = 0;
    while j < res.len()
        invariant
            j <= res@.len(),
            before == pairs_view(res@),
            kc@ == key@,
            forall|a: int| 0 <= a < j ==> !lex_lt(kc@, #[trigger] before[a].0),
        ensures
            j <= res@.len(),
            j < res@.len() ==> lex_lt(key@, before[j as int].0),
            forall|a: int| 0 <= a < j ==> !lex_lt(kc@, #[trigger] before[a].0),
        decreases res@.len() - j,
    {
        let other = chars_of(res[j].0.as_str());
        assert(other@ == before[j as int].0);
        if lex_less(&kc, &other) {
            break;
        }
        j = j + 1;
    }
    let ghost p = (key@, value@);
    res.insert(j, (key, value));
    proof {
        let after = pairs_view(res@);
        assert(after =~= before.insert(j as int, p));
        assert(j < before.len() ==> lex_lt(key@, before[j as int].0));
        assert forall|a: int, b: int| 0 <= a < b < after.len() implies lex_lt(#[trigger] after[a].0, #[trigger] after[b].0) by {
            if a < j && b < j {
            } else if a < j && b == j {
                lemma_lex_total(key@, before[a].0);
                if key@ == before[a].0 {
                    assert(before[a].0 == key@);
                }
            } else if a < j && b > j {
                lemma_lex_total(key@, before[a].0);
                if key@ == before[a].0 {
                    assert(before[a].0 == key@);
                }
                lemma_lex_transitive(before[a].0, key@, before[j as int].0);
                if b - 1 > j {
                    lemma_lex_transitive(before[a].0, before[j as int].0, before[b - 1].0);
                }
            } else if a == j {
                if b - 1 > j {
                    lemma_lex_transitive(key@, before[j as int].0, before[b - 1].0);
                }
            } else {
                assert(lex_lt(before[a - 1].0, before[b - 1].0));
            }
        }
    }
    j
}

/// The signed parameters of `m`, by strictly increasing key.
pub fn sorted_signed_params(m: &StrMap<String>) -> (r: Vec<(String, String)>)
    ensures
        sorted_listing(pairs_view(r@), signed_params(m@)),
{
    let keys = m.keys();
    let ghost target = signed_params(m@);
    let mut res: Vec<(String, String)> = Vec::new();
    let mut i: usize = 0;
    while i < keys.len()
        invariant
            i <= keys@.len(),
            target == signed_params(m@),
            forall|k: Seq<char>| m@.contains_key(k) <==> exists|a: int| 0 <= a < keys@.len() && #[trigger] keys@[a]@ == k,
            forall|a: int| 0 <= a < keys@.len() ==> m@.contains_key(#[trigger] keys@[a]@),
            forall|a: int, b: int| 0 <= a < keys@.len() && 0 <= b < keys@.len() && a != b ==> keys@[a]@ != keys@[b]@,
            strictly_sorted(pairs_view(res@)),
            forall|a: int| 0 <= a < res@.len() ==> target.contains_key(#[trigger] pairs_view(res@)[a].0)
                && target[pairs_view(res@)[a].0] == pairs_view(res@)[a].1,
            forall|k: Seq<char>| listed_key(pairs_view(res@), k) <==> (target.contains_key(k) && exists|b: int| 0 <= b < i && #[trigger] keys@[b]@ == k),
        decreases keys@.len() - i,
    {
        let key = keys[i].clone();
        let ghost before = pairs_view(res@);
        if !is_unsigned_key(key.as_str()) {
            let value = match m.get(key.as_str()) {
                Some(v) => v.clone(),
                None => String::new(),
            };
            proof {
                if listed_key(before, key@) {
                    let b = choose|b: int| 0 <= b < i && #[trigger] keys@[b]@ == key@;
                    assert(keys@[i as int]@ == key@);
                }
            }
            let j = insert_sorted(&mut res, key, value);
            proof {
                let after = pairs_view(res@);
                let p = (keys@[i as int]@, target[keys@[i as int]@]);
                assert forall|k: Seq<char>| listed_key(after, k) <==> (target.contains_key(k) && exists|b: int| 0 <= b < i + 1 && #[trigger] keys@[b]@ == k) by {
                    lemma_insert_listed(before, j as int, p, k);
                    if target.contains_key(k) && exists|b: int| 0 <= b < i + 1 && #[trigger] keys@[b]@ == k {
                        let b = choose|b: int| 0 <= b < i + 1 && #[trigger] keys@[b]@ == k;
                        if b < i {
                            assert(exists|b: int| 0 <= b < i && #[trigger] keys@[b]@ == k);
                        }
                    }
                    if listed_key(before, k) {
                        let b = choose|b: int| 0 <= b < i && #[trigger] keys@[b]@ == k;
                        assert(keys@[b]@ == k);
                    }
                    if k == p.0 {
                        assert(keys@[i as int]@ == k);
                    }
                }
                assert forall|a: int| 0 <= a < after.len() implies target.contains_key(#[trigger] after[a].0)
                    && target[after[a].0] == after[a].1 by {
                    if a < j {
                        assert(after[a] == before[a]);
                    } else if a > j {
                        assert(after[a] == before[a - 1]);
                    }
                }
            }
        } else {
            proof {
                assert forall|k: Seq<char>| listed_key(before, k) <==> (target.contains_key(k) && exists|b: int| 0 <= b < i + 1 && #[trigger] keys@[b]@ == k) by {
                    if target.contains_key(k) && exists|b: int| 0 <= b < i + 1 && #[trigger] keys@[b]@ == k {
                        let b = choose|b: int| 0 <= b < i + 1 && #[trigger] keys@[b]@ == k;
                        if b < i {
                            assert(exists|b: int| 0 <= b < i && #[trigger] keys@[b]@ == k);
                        } else {
                            assert(!target.contains_key(keys@[i as int]@));
                        }
                    }
                    if listed_key(before, k) {
                        let b = choose|b: int| 0 <= b < i && #[trigger] keys@[b]@ == k;
                        assert(keys@[b]@ == k);
                    }
                }
            }
        }
        i = i + 1;
    }
    proof {
        let s = pairs_view(res@);
        assert forall|k: Seq<char>| target.contains_key(k) implies exists|a: int| 0 <= a < s.len() && #[trigger] s[a].0 == k by {
            let b = choose|b: int| 0 <= b < keys@.len() && #[trigger] keys@[b]@ == k;
            assert(listed_key(s, k));
        }
    }
    res
}

/// The `key=value` line of a listing of parameters.
pub fn param_line_of(params: &Vec<(String, String)>) -> (r: String)
    ensures
        r@ == param_line(pairs_view(params@)),
{
    let mut lines: Vec<String> = Vec::new();
    let mut i: usize = 0;
    while i < params.len()
        invariant
            i <= params@.len(),
            lines@.len() == i,
            forall|a: int| 0 <= a < i ==> #[trigger] lines@[a]@ == params@[a].0@ + "="@ + params@[a].1@,
        decreases params@.len() - i,
    {
        lines.push(concat3(params[i].0.as_str(), "=", params[i].1.as_str()));
        i = i + 1;
    }
    let r = join_strings(&lines, "&");
    assert(lines@.map_values(|p: String| p@) =~= pairs_view(params@).map_values(
        |p: (Seq<char>, Seq<char>)| p.0 + "="@ + p.1,
    ));
    r
}

/// The signature of a set of parameters: the signed ones, by increasing
/// key, as `key=value` joined by `&`, followed by the API secret, hashed
/// with SHA-256 and written in hexadecimal. No parameters sign the secret
/// alone.
pub fn get_write_signature(attributes: Option<&StrMap<String>>, api_secret: &str) -> (r: String)
    ensures
        match attributes {
            None => r@ == spec_sign_line(Seq::empty(), api_secret@),
            Some(m) => exists|s: Seq<(Seq<char>, Seq<char>)>| sorted_listing(s, signed_params(m@))
                && r@ == spec_sign_line(param_line(s), api_secret@),
        },
{
    let line = match attributes {
        None => String::new(),
        Some(m) => {
            let params = sorted_signed_params(m);
            param_line_of(&params)
        },
    };
    let to_sign = concat(line.as_str(), api_secret);
    let digest = sha256_digest(to_sign.as_str().as_bytes());
    hex_encode(digest.as_slice())
}

/// The path part of a delivery URL: the transformations joined by `/`,
/// then the public id.
pub open spec fn spec_delivery_param_url(public_id: Seq<char>, transformations: Seq<Seq<char>>) -> Seq<char> {
    let a = join(transformations, "/"@);
    if a.len() == 0 {
        public_id
    } else {
        a + "/"@ + public_id
    }
}

/// Transformations seen as character sequences; none when absent.
pub open spec fn transformations_view(t: Option<Vec<String>>) -> Seq<Seq<char>> {
    match t {
        Some(v) => v@.map_values(|s: String| s@),
        None => Seq::empty(),
    }
}

/// The path part of a delivery URL.
pub fn get_delivery_param_url(id: &str, attributs: Option<Vec<String>>) -> (r: String)
    ensures
        r@ == spec_delivery_param_url(id@, transformations_view(attributs)),
{
    let joined = match &attributs {
        Some(v) => join_strings(v, "/"),
        None => String::new(),
    };
    if joined.as_str().unicode_len() == 0 {
        id.to_string()
    } else {
        concat3(joined.as_str(), "/", id)
    }
}

/// The signature of a delivery path: the first eight characters of the
/// URL-safe base64 of SHA-256 of the path followed by the API secret,
/// between `s--` and `--`.
pub open spec fn spec_delivery_signature(param_url: Seq<char>, secret: Seq<char>) -> Seq<char> {
    "s--"@ + base64_url_no_pad(sha256(encode_utf8(param_url + secret))).subrange(0, 8) + "--"@
}

/// The signature of a delivery path.
pub fn get_delivery_signature(param_url: &str, api_secret: &str) -> (r: String)
    ensures
        r@ == spec_delivery_signature(param_url@, api_secret@),
{
    let to_sign = concat(param_url, api_secret);
    let digest = sha256_digest(to_sign.as_str().as_bytes());
    let hash = base64_url_no_pad_encode(digest.as_slice());
    let chars = chars_of(hash.as_str());
    let first = string_from_chars(&sub_chars(&chars, 0, 8));
    concat3("s--", first.as_str(), "--")
}

/// The key under which the delivery URL of the picture `local_id` with
/// `transformations` is cached: SHA-256 of the local id, `|` and the
/// transformations joined by `/`, in lower-case hexadecimal. Each size of a
/// picture has its own key.
pub open spec fn spec_delivery_cache_key(local_id: Seq<char>, transformations: Seq<Seq<char>>) -> Seq<char> {
    hex_lower(sha256(encode_utf8(local_id + "|"@ + join(transformations, "/"@))))
}

/// The key under which a delivery URL is cached.
pub fn delivery_cache_key(local_id: &str, attributs: &Option<Vec<String>>) -> (r: String)
    ensures
        r@ == spec_delivery_cache_key(local_id@, transformations_view(*attributs)),
{
    let joined = match attributs {
        Some(v) => join_strings(v, "/"),
        None => String::new(),
    };
    proof {
        if attributs is None {
            assert(joined@ == join(Seq::<Seq<char>>::empty(), "/"@));
        }
    }
    let data = concat3(local_id, "|", joined.as_str());
    let digest = sha256_digest(data.as_str().as_bytes());
    hex_encode(digest.as_slice())
}

/// The signed URL that delivers an asset with transformations.
pub open spec fn spec_delivery_url(cloud_name: Seq<char>, public_id: Seq<char>, transformations: Seq<Seq<char>>, secret: Seq<char>) -> Seq<char> {
    let p = spec_delivery_param_url(public_id, transformations);
    "https://res.cloudinary.com/"@ + cloud_name + "/image/authenticated/"@ + spec_delivery_signature(p, secret) + "/"@ + p
}

/// The signed URL that delivers an asset with transformations.
pub fn delivery_url(public_id: &str, attributs: Option<Vec<String>>, cloud_name: &str, api_secret: &str) -> (r: String)
    ensures
        r@ == spec_delivery_url(cloud_name@, public_id@, transformations_view(attributs), api_secret@),
{
    let param_url = get_delivery_param_url(public_id, attributs);
    let signature = get_delivery_signature(param_url.as_str(), api_secret);
    let a = concat3("https://res.cloudinary.com/", cloud_name, "/image/authenticated/");
    let b = concat3(a.as_str(), signature.as_str(), "/");
    concat(b.as_str(), param_url.as_str())
}

/// The parameters of an upload before it is signed.
pub open spec fn spec_upload_base(
    preset: Seq<char>,
    folder: Seq<char>,
    tags: Seq<Seq<char>>,
    api_key: Seq<char>,
    timestamp: i64,
    public_id: Option<Seq<char>>,
) -> Map<Seq<char>, Seq<char>> {
    let m = map![
        "upload_preset"@ => preset,
        "folder"@ => folder,
        "tags"@ => join(tags, ","@),
        "api_key"@ => api_key,
        "timestamp"@ => signed_decimal(timestamp as int)
    ];
    match public_id {
        Some(p) => m.insert("public_id"@, p),
        None => m,
    }
}

/// The parameters of a signed upload: the preset, the folder, the tags
/// joined by commas, the API key, the timestamp and the public id if any,
/// and the signature of those.
pub fn get_upload_attributes(
    preset: String,
    folder: String,
    tags: &Vec<String>,
    timestamp: i64,
    public_id: Option<String>,
    api_key: &str,
    api_secret: &str,
) -> (r: StrMap<String>)
    ensures
        ({
            let base = spec_upload_base(preset@, folder@, tags@.map_values(|t: String| t@), api_key@, timestamp, public_id.deep_view());
            let v = values_view(r@);
            &&& v.contains_key("signature"@)
            &&& v.remove("signature"@) == base
            &&& exists|s: Seq<(Seq<char>, Seq<char>)>| sorted_listing(s, signed_params_view(base))
                && v["signature"@] == spec_sign_line(param_line(s), api_secret@)
        }),
{
    proof {
        reveal_strlit("signature");
        reveal_strlit("upload_preset");
        reveal_strlit("folder");
        reveal_strlit("tags");
        reveal_strlit("api_key");
        reveal_strlit("timestamp");
        reveal_strlit("public_id");
    }
    let ghost pv = public_id.deep_view();
    let mut attributes: StrMap<String> = StrMap::new();
    attributes.insert("upload_preset".to_string(), preset);
    attributes.insert("folder".to_string(), folder);
    attributes.insert("tags".to_string(), join_strings(tags, ","));
    attributes.insert("api_key".to_string(), api_key.to_string());
    attributes.insert("timestamp".to_string(), i64_to_string(timestamp));
    if let Some(id) = public_id {
        attributes.insert("public_id".to_string(), id);
    }
    let ghost base = values_view(attributes@);
    let signature = get_write_signature(Some(&attributes), api_secret);
    attributes.insert("signature".to_string(), signature);
    proof {
        let b = spec_upload_base(preset@, folder@, tags@.map_values(|t: String| t@), api_key@, timestamp, pv);
        assert(base =~= b);
        assert("signature"@[0] == 's' && "timestamp"@[0] == 't' && "public_id"@[0] == 'p');
        assert("signature"@.len() == 9 && "upload_preset"@.len() == 13 && "folder"@.len() == 6
            && "tags"@.len() == 4 && "api_key"@.len() == 7);
        assert("signature"@ != "timestamp"@ && "signature"@ != "public_id"@);
        assert(!b.contains_key("signature"@));
        assert(values_view(attributes@) =~= base.insert("signature"@, signature@));
        assert(values_view(attributes@).remove("signature"@) =~= b);
    }
    attributes
}

/// The signature of the deletion of an asset: it covers the asset id and
/// the timestamp, the API key being left out of signatures.
pub open spec fn spec_delete_signature(asset_id: Seq<char>, timestamp: i64, secret: Seq<char>) -> Seq<char> {
    spec_sign_line("asset_id="@ + asset_id + "&timestamp="@ + signed_decimal(timestamp as int), secret)
}

/// The parameters of the signed deletion of an asset at `timestamp`.
pub fn delete_params(asset_id: &str, api_key: &str, timestamp: i64, api_secret: &str) -> (r: crate::model::resource_model::DeleteParams)
    ensures
        r.asset_id@ == asset_id@,
        r.api_key@ == api_key@,
        r.timestamp@ == signed_decimal(timestamp as int),
        r.signature@ == spec_delete_signature(asset_id@, timestamp, api_secret@),
{
    proof {
        reveal_strlit("asset_id");
        reveal_strlit("api_key");
        reveal_strlit("timestamp");
        reveal_strlit("asset_id=");
        reveal_strlit("&timestamp=");
        reveal_strlit("=");
        reveal_strlit("&");
        reveal_strlit("file");
        reveal_strlit("cloud_name");
        reveal_strlit("signature");
        reveal_strlit("resource_type");
    }
    let ts = i64_to_string(timestamp);
    let mut attributes: StrMap<String> = StrMap::new();
    attributes.insert("asset_id".to_string(), asset_id.to_string());
    attributes.insert("api_key".to_string(), api_key.to_string());
    attributes.insert("timestamp".to_string(), ts.clone());
    let signature = get_write_signature(Some(&attributes), api_secret);
    proof {
        let m = signed_params(attributes@);
        let s = choose|s: Seq<(Seq<char>, Seq<char>)>| sorted_listing(s, signed_params(attributes@))
            && signature@ == spec_sign_line(param_line(s), api_secret@);
        let expected = seq![("asset_id"@, asset_id@), ("timestamp"@, ts@)];
        assert(unsigned_key("api_key"@));
        assert("asset_id"@.len() == 8 && "timestamp"@.len() == 9 && "file"@.len() == 4
            && "cloud_name"@.len() == 10 && "api_key"@.len() == 7 && "signature"@.len() == 9
            && "resource_type"@.len() == 13);
        assert("signature"@[0] == 's' && "timestamp"@[0] == 't');
        assert(!unsigned_key("asset_id"@));
        assert(!unsigned_key("timestamp"@));
        assert(lex_lt("asset_id"@, "timestamp"@));
        assert forall|k: Seq<char>| m.contains_key(k) implies exists|i: int| 0 <= i < expected.len() && #[trigger] expected[i].0 == k by {
            if k == "asset_id"@ {
                assert(expected[0].0 == k);
            } else {
                assert(expected[1].0 == k);
            }
        }
        assert(sorted_listing(expected, m));
        lemma_sorted_listing_unique(s, expected, m);
        assert(param_line(expected) =~= "asset_id="@ + asset_id@ + "&timestamp="@ + ts@) by {
            let lines = expected.map_values(|p: (Seq<char>, Seq<char>)| p.0 + "="@ + p.1);
            assert(lines.drop_last() =~= seq![lines[0]]);
            assert(lines.len() == 2);
            assert(join(lines.drop_last(), "&"@) == lines[0]);
            assert(join(lines, "&"@) == lines[0] + "&"@ + lines[1]);
            assert("asset_id="@ =~= "asset_id"@ + "="@);
            assert("&timestamp="@ =~= "&"@ + "timestamp"@ + "="@);
        }
    }
    crate::model::resource_model::DeleteParams {
        asset_id: asset_id.to_string(),
        api_key: api_key.to_string(),
        signature,
        timestamp: ts,
    }
}

/// The record of an asset: its local id (the given one, or a fresh random
/// one), its public id and its asset id.
pub fn gen_cloudinary_asset(asset_id: String, public_id: String, id: Option<String>) -> (r: CloudinaryAssetWithId)
    ensures
        r.asset_id == asset_id,
        r.public_id == public_id,
        id matches Some(i) ==> r.id == i,
        id is None ==> uuid_form(r.id@),
{
    let fresh = new_uuid();
    CloudinaryAssetWithId {
        id: match id {
            Some(i) => i,
            None => fresh,
        },
        public_id,
        asset_id,
    }
}

/// Where the library serves the picture with local id `local_id`: in
/// 800x800 and as a 100x100 thumbnail.
pub fn get_asset_url_from_local_id(local_id: &str) -> (r: AssetUrl)
    ensures
        r.id@ == local_id@,
        r.url@ == "/resource/"@ + local_id@ + "/800/800"@,
        r.thumbnail@ == "/resource/"@ + local_id@ + "/100/100"@,
{
    AssetUrl {
        id: local_id.to_string(),
        url: concat3("/resource/", local_id, "/800/800"),
        thumbnail: concat3("/resource/", local_id, "/100/100"),
    }
}

/// The refusal when a symbol has no picture.
pub open spec fn no_picture_message() -> Seq<char> {
    "Aucune image trouvée pour ce symbole"@
}

/// Where the library serves each asset of a symbol; refused when there are
/// none.
pub fn asset_urls(assets: &Vec<CloudinaryAssetWithId>) -> (r: Result<Vec<AssetUrl>, String>)
    ensures
        assets@.len() == 0 ==> (r matches Err(m) && m@ == no_picture_message()),
        assets@.len() > 0 ==> (r matches Ok(v) && v@.len() == assets@.len() && forall|i: int| 0 <= i < v@.len() ==> {
            &&& (#[trigger] v@[i]).id@ == assets@[i].id@
            &&& v@[i].url@ == "/resource/"@ + assets@[i].id@ + "/800/800"@
            &&& v@[i].thumbnail@ == "/resource/"@ + assets@[i].id@ + "/100/100"@
        }),
{
    let mut urls: Vec<AssetUrl> = Vec::new();
    let mut i: usize = 0;
    while i < assets.len()
        invariant
            i <= assets@.len(),
            urls@.len() == i,
            forall|k: int| 0 <= k < i ==> {
                &&& (#[trigger] urls@[k]).id@ == assets@[k].id@
                &&& urls@[k].url@ == "/resource/"@ + assets@[k].id@ + "/800/800"@
                &&& urls@[k].thumbnail@ == "/resource/"@ + assets@[k].id@ + "/100/100"@
            },
        decreases assets@.len() - i,
    {
        urls.push(get_asset_url_from_local_id(assets[i].id.as_str()));
        i = i + 1;
    }
    if urls.len() == 0 {
        Err("Aucune image trouvée pour ce symbole".to_string())
    } else {
        Ok(urls)
    }
}

/// The refusal of an upload answer without a public id or an asset id.
pub open spec fn incomplete_upload_message() -> Seq<char> {
    "Cloudinary: public_id ou asset_id manquant dans la réponse"@
}

/// The record of an uploaded asset, under a fresh random local id; refused
/// when the answer lacks its public id or its asset id.
pub fn asset_from_upload(public_id: &Option<String>, asset_id: &Option<String>) -> (r: Result<CloudinaryAssetWithId, String>)
    ensures
        (public_id is Some && asset_id is Some) ==> (r matches Ok(a) && a.public_id == public_id->Some_0
            && a.asset_id == asset_id->Some_0),
        !(public_id is Some && asset_id is Some) ==> (r matches Err(m) && m@ == incomplete_upload_message()),
{
    match (public_id, asset_id) {
        (Some(p), Some(a)) => Ok(gen_cloudinary_asset(a.clone(), p.clone(), None)),
        _ => Err("Cloudinary: public_id ou asset_id manquant dans la réponse".to_string()),
    }
}

/// The tag of the pictures of a symbol.
pub fn symbole_tag(symbole_id: &str) -> (r: String)
    ensures
        r@ == "symbole-"@ + symbole_id@,
{
    concat("symbole-", symbole_id)
}

/// The folder of the pictures of a symbol, under the application folder.
pub fn symbole_folder(app_tag: &str, symbole_id: &str) -> (r: String)
    ensures
        r@ == app_tag@ + "/symbole/"@ + "symbole-"@ + symbole_id@,
{
    let tag = symbole_tag(symbole_id);
    concat3(app_tag, "/symbole/", tag.as_str())
}

/// The search expression for the assets of a folder.
pub fn search_expression(folder: &str) -> (r: String)
    ensures
        r@ == "folder:"@ + folder@,
{
    concat("folder:", folder)
}

/// The transformations of a picture fetched at a given size.
pub fn picture_transformations(width: u16, height: u16) -> (r: Vec<String>)
    ensures
        r@.map_values(|s: String| s@) == seq!["w_"@ + decimal(width as nat), "h_"@ + decimal(height as nat), "f_auto"@, "q_auto"@],
{
    let mut r: Vec<String> = Vec::new();
    r.push(concat("w_", u64_to_string(width as u64).as_str()));
    r.push(concat("h_", u64_to_string(height as u64).as_str()));
    r.push("f_auto".to_string());
    r.push("q_auto".to_string());
    assert(r@.map_values(|s: String| s@) =~= seq!["w_"@ + decimal(width as nat), "h_"@ + decimal(height as nat), "f_auto"@, "q_auto"@]);
    r
}

/// The transformations of a thumbnail of a given size, cropped around the
/// subject.
pub fn thumbnail_transformations(width: u16, height: u16) -> (r: Vec<String>)
    ensures
        r@.map_values(|s: String| s@) == seq!["c_thumb"@, "w_"@ + decimal(width as nat), "h_"@ + decimal(height as nat), "g_auto"@, "f_auto"@, "q_auto"@],
{
    let mut r: Vec<String> = Vec::new();
    r.push("c_thumb".to_string());
    r.push(concat("w_", u64_to_string(width as u64).as_str()));
    r.push(concat("h_", u64_to_string(height as u64).as_str()));
    r.push("g_auto".to_string());
    r.push("f_auto".to_string());
    r.push("q_auto".to_string());
    assert(r@.map_values(|s: String| s@) =~= seq!["c_thumb"@, "w_"@ + decimal(width as nat), "h_"@ + decimal(height as nat), "g_auto"@, "f_auto"@, "q_auto"@]);
    r
}


/// The address of an action of the media host's API for the account
/// `cloud_name`.
pub fn api_url(cloud_name: &str, action: &str) -> (r: String)
    ensures
        r@ == "https://api.cloudinary.com/v1_1/"@ + cloud_name@ + "/"@ + action@,
{
    let a = concat3("https://api.cloudinary.com/v1_1/", cloud_name, "/");
    concat(a.as_str(), action)
}

/// The answer to the deletion of the picture `local_id`, from the outcome of
/// the request: a `result` of `not found` is refused as such; otherwise a
/// successful status confirms the deletion, and any other is refused with
/// the status and the body.
pub open spec fn spec_removal_outcome(
    local_id: Seq<char>,
    success: bool,
    result: Option<Seq<char>>,
    status: Seq<char>,
    body: Seq<char>,
) -> Result<Seq<char>, Seq<char>> {
    if result == Some("not found"@) {
        Err("not found"@)
    } else if success {
        Ok("Image supprimée: "@ + local_id)
    } else {
        Err("Erreur suppression Cloudinary ("@ + status + "): "@ + body)
    }
}

/// The answer to the deletion of the picture `local_id`.
pub fn removal_outcome(local_id: &str, success: bool, result: Option<&str>, status: &str, body: &str) -> (r: Result<String, String>)
    ensures
        match spec_removal_outcome(local_id@, success, match result { Some(x) => Some(x@), None => None }, status@, body@) {
            Ok(m) => r matches Ok(x) && x@ == m,
            Err(m) => r matches Err(x) && x@ == m,
        },
{
    let not_found = match result {
        Some(x) => str_eq(x, "not found"),
        None => false,
    };
    if not_found {
        Err("not found".to_string())
    } else if success {
        Ok(concat("Image supprimée: ", local_id))
    } else {
        let a = concat3("Erreur suppression Cloudinary (", status, "): ");
        Err(concat(a.as_str(), body))
    }
}

/// The tags of a picture moved to the media host for a symbol.
pub fn migration_tags(symbole_id: &str) -> (r: Vec<String>)
    ensures
        r@.map_values(|s: String| s@) == seq!["migration"@, "symbole"@, "symbole-"@ + symbole_id@],
{
    let mut r: Vec<String> = Vec::new();
    r.push("migration".to_string());
    r.push("symbole".to_string());
    r.push(symbole_tag(symbole_id));
    assert(r@.map_values(|s: String| s@) =~= seq!["migration"@, "symbole"@, "symbole-"@ + symbole_id@]);
    r
}

/// The records of the assets a search found, in order, each under the local
/// id already known for it (`known_ids`, in the same order) or a fresh one.
pub fn assets_of_search(resources: &Vec<CloudinaryAsset>, known_ids: &Vec<Option<String>>) -> (r: Vec<CloudinaryAssetWithId>)
    requires
        known_ids@.len() == resources@.len(),
    ensures
        r@.len() == resources@.len(),
        forall|i: int| 0 <= i < r@.len() ==> {
            &&& (#[trigger] r@[i]).asset_id == resources@[i].asset_id
            &&& r@[i].public_id == resources@[i].public_id
            &&& (known_ids@[i] matches Some(k) ==> r@[i].id == k)
            &&& (known_ids@[i] is None ==> uuid_form(r@[i].id@))
        },
{
    let mut r: Vec<CloudinaryAssetWithId> = Vec::new();
    let mut i: usize = 0;
    while i < resources.len()
        invariant
            i <= resources@.len(),
            known_ids@.len() == resources@.len(),
            r@.len() == i,
            forall|k: int| 0 <= k < i ==> {
                &&& (#[trigger] r@[k]).asset_id == resources@[k].asset_id
                &&& r@[k].public_id == resources@[k].public_id
                &&& (known_ids@[k] matches Some(x) ==> r@[k].id == x)
                &&& (known_ids@[k] is None ==> uuid_form(r@[k].id@))
            },
        decreases resources@.len() - i,
    {
        let res = &resources[i];
        r.push(gen_cloudinary_asset(res.asset_id.clone(), res.public_id.clone(), known_ids[i].clone()));
        i = i + 1;
    }
    r
}


/// The tags of a picture uploaded for a symbol.
pub fn upload_tags(symbole_id: &str) -> (r: Vec<String>)
    ensures
        r@.map_values(|s: String| s@) == seq!["symbole"@, "symbole-"@ + symbole_id@],
{
    let mut r: Vec<String> = Vec::new();
    r.push("symbole".to_string());
    r.push(symbole_tag(symbole_id));
    assert(r@.map_values(|s: String| s@) =~= seq!["symbole"@, "symbole-"@ + symbole_id@]);
    r
}

/// The HTTP status of an upload of several pictures: 200 when all went
/// well, 206 when some failed, 500 when all failed.
pub fn upload_batch_status(has_error: bool, has_success: bool) -> (r: u16)
    ensures
        !has_error ==> r == 200,
        has_error && has_success ==> r == 206,
        has_error && !has_success ==> r == 500,
{
    if has_error {
        if has_success {
            206
        } else {
            500
        }
    } else {
        200
    }
}

} // verus!
