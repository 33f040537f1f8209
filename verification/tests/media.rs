use falidex::cloudinary::{
    api_url, asset_from_upload, asset_urls, assets_of_search, delete_params, delivery_url,
    gen_cloudinary_asset, get_asset_url_from_local_id, get_delivery_param_url,
    get_delivery_signature, get_upload_attributes, get_write_signature, migration_tags,
    picture_transformations, removal_outcome, search_expression, symbole_folder, symbole_tag,
    thumbnail_transformations,
};
use falidex::migrate::{migration_source_url, migration_step, MigrationStep};
use falidex::model::falidex_model::Img;
use falidex::model::resource_model::CloudinaryAsset;
use falidex::str_map::StrMap;

fn params(pairs: &[(&str, &str)]) -> StrMap<String> {
    let mut m = StrMap::new();
    for (k, v) in pairs {
        m.insert(k.to_string(), v.to_string());
    }
    m
}

#[test]
fn write_signature_signs_the_sorted_signed_parameters() {
    let m = params(&[("timestamp", "10"), ("folder", "f"), ("api_key", "K"), ("tags", "a,b"), ("file", "x")]);
    assert_eq!(
        get_write_signature(Some(&m), "SEC"),
        "dd1b66b09be011745fa06fc9516002e9cca12d3ddac1430dc4894a6964bf4762"
    );
    assert_eq!(
        get_write_signature(None, "SEC"),
        "945f2ee1303eb1f2bcbb0ec8fd2e21284faecd66bea45322ad909bfaab333b9e"
    );
}

#[test]
fn write_signature_does_not_depend_on_insertion_order() {
    let a = params(&[("b", "2"), ("a", "1"), ("c", "3")]);
    let b = params(&[("c", "3"), ("a", "1"), ("b", "2")]);
    assert_eq!(get_write_signature(Some(&a), "S"), get_write_signature(Some(&b), "S"));
}

#[test]
fn delivery_paths_and_signatures() {
    assert_eq!(get_delivery_param_url("pid-1", None), "pid-1");
    assert_eq!(get_delivery_param_url("pid-1", Some(vec![])), "pid-1");
    assert_eq!(
        get_delivery_param_url("pid-1", Some(vec!["w_10".to_string(), "h_20".to_string()])),
        "w_10/h_20/pid-1"
    );
    assert_eq!(get_delivery_signature("w_10/h_20/pid-1", "SEC"), "s--sE8rsrKF--");
    assert_eq!(
        delivery_url("pid-1", Some(vec!["w_10".to_string(), "h_20".to_string()]), "cloud", "SEC"),
        "https://res.cloudinary.com/cloud/image/authenticated/s--sE8rsrKF--/w_10/h_20/pid-1"
    );
}

#[test]
fn delete_parameters_are_signed() {
    let p = delete_params("A1", "K", 10, "SEC");
    assert_eq!(p.asset_id, "A1");
    assert_eq!(p.api_key, "K");
    assert_eq!(p.timestamp, "10");
    assert_eq!(p.signature, "9ba7671bec26fc30cdf0668e30d509c8e7b8476b50bde608d7b168d79537d729");
}

#[test]
fn upload_attributes_carry_their_signature() {
    let tags = vec!["migration".to_string(), "symbole".to_string()];
    let m = get_upload_attributes(
        "falidex".to_string(),
        "app/symbole/symbole-7".to_string(),
        &tags,
        10,
        Some("pid".to_string()),
        "K",
        "SEC",
    );
    assert_eq!(m.get("upload_preset").unwrap(), "falidex");
    assert_eq!(m.get("tags").unwrap(), "migration,symbole");
    assert_eq!(m.get("api_key").unwrap(), "K");
    assert_eq!(m.get("timestamp").unwrap(), "10");
    assert_eq!(m.get("public_id").unwrap(), "pid");
    assert_eq!(
        m.get("signature").unwrap(),
        "bff03888228304401b48ae9cb16a445242a04d4ddd23d9b55bfe3643a88c3cca"
    );
}

#[test]
fn asset_records_and_urls() {
    let a = gen_cloudinary_asset("A".to_string(), "P".to_string(), Some("L".to_string()));
    assert_eq!((a.id.as_str(), a.public_id.as_str(), a.asset_id.as_str()), ("L", "P", "A"));
    let b = gen_cloudinary_asset("A".to_string(), "P".to_string(), None);
    assert_eq!(b.id.len(), 36);
    let u = get_asset_url_from_local_id("L");
    assert_eq!(u.url, "/resource/L/800/800");
    assert_eq!(u.thumbnail, "/resource/L/100/100");
    assert_eq!(asset_urls(&vec![]).unwrap_err(), "Aucune image trouvée pour ce symbole");
    assert_eq!(asset_urls(&vec![a]).unwrap()[0].id, "L");
    assert_eq!(
        asset_from_upload(&Some("P".to_string()), &None).unwrap_err(),
        "Cloudinary: public_id ou asset_id manquant dans la réponse"
    );
    let up = asset_from_upload(&Some("P".to_string()), &Some("A".to_string())).unwrap();
    assert_eq!((up.public_id.as_str(), up.asset_id.as_str()), ("P", "A"));
}

#[test]
fn search_results_keep_known_local_ids() {
    let resources = vec![
        CloudinaryAsset { public_id: "p1".to_string(), asset_id: "a1".to_string() },
        CloudinaryAsset { public_id: "p2".to_string(), asset_id: "a2".to_string() },
    ];
    let r = assets_of_search(&resources, &vec![Some("known".to_string()), None]);
    assert_eq!(r.len(), 2);
    assert_eq!(r[0].id, "known");
    assert_eq!(r[0].asset_id, "a1");
    assert_eq!(r[1].public_id, "p2");
    assert_eq!(r[1].id.len(), 36);
}

#[test]
fn names_and_addresses() {
    assert_eq!(symbole_tag("7"), "symbole-7");
    assert_eq!(symbole_folder("app", "7"), "app/symbole/symbole-7");
    assert_eq!(search_expression("app/x"), "folder:app/x");
    assert_eq!(api_url("cloud", "asset/destroy"), "https://api.cloudinary.com/v1_1/cloud/asset/destroy");
    assert_eq!(migration_tags("7"), vec!["migration", "symbole", "symbole-7"]);
    assert_eq!(picture_transformations(800, 600), vec!["w_800", "h_600", "f_auto", "q_auto"]);
    assert_eq!(
        thumbnail_transformations(100, 50),
        vec!["c_thumb", "w_100", "h_50", "g_auto", "f_auto", "q_auto"]
    );
}

#[test]
fn removal_outcomes() {
    assert_eq!(removal_outcome("L", true, Some("not found"), "200", "{}").unwrap_err(), "not found");
    assert_eq!(removal_outcome("L", true, Some("ok"), "200", "{}").unwrap(), "Image supprimée: L");
    assert_eq!(removal_outcome("L", true, None, "200", "{}").unwrap(), "Image supprimée: L");
    assert_eq!(
        removal_outcome("L", false, None, "500", "boom").unwrap_err(),
        "Erreur suppression Cloudinary (500): boom"
    );
}

#[test]
fn upload_tags_and_batch_status() {
    assert_eq!(falidex::cloudinary::upload_tags("9"), vec!["symbole", "symbole-9"]);
    assert_eq!(falidex::cloudinary::upload_batch_status(false, true), 200);
    assert_eq!(falidex::cloudinary::upload_batch_status(false, false), 200);
    assert_eq!(falidex::cloudinary::upload_batch_status(true, true), 206);
    assert_eq!(falidex::cloudinary::upload_batch_status(true, false), 500);
}

#[test]
fn pictures_are_fetched_from_the_former_server_once() {
    let moved = Img { id: "a".to_string(), url: "/x/y.png".to_string(), migrated: Some(true) };
    match migration_step(&moved) {
        MigrationStep::AlreadyDone(m) => assert_eq!(m, "/x/y.png Already migrated"),
        _ => panic!("expected already done"),
    }
    let pending = Img { id: "b".to_string(), url: "/x/y.png".to_string(), migrated: None };
    match migration_step(&pending) {
        MigrationStep::Fetch(u) => assert_eq!(
            u,
            "https://resources.falidex.fr/index.php?getPicture=x/y.png&littleSalty=iBhodGT6GTqS6Bb"
        ),
        _ => panic!("expected a fetch"),
    }
    assert_eq!(
        migration_source_url("rel.png"),
        "https://resources.falidex.fr/index.php?getPicture=rel.png&littleSalty=iBhodGT6GTqS6Bb"
    );
}

#[test]
fn unsigned_parameters_do_not_change_the_signature() {
    let plain = params(&[("folder", "f"), ("timestamp", "10")]);
    let extra = params(&[
        ("folder", "f"),
        ("timestamp", "10"),
        ("file", "data"),
        ("cloud_name", "c"),
        ("api_key", "k"),
        ("signature", "s"),
        ("resource_type", "image"),
    ]);
    assert_eq!(get_write_signature(Some(&plain), "SEC"), get_write_signature(Some(&extra), "SEC"));
    let other = params(&[("folder", "g"), ("timestamp", "10")]);
    assert_ne!(get_write_signature(Some(&plain), "SEC"), get_write_signature(Some(&other), "SEC"));
}

#[test]
fn delivery_urls_are_cached_under_a_hashed_key_per_size() {
    let with = falidex::cloudinary::delivery_cache_key("pic-1", &Some(vec!["c_fill".to_string(), "w_100".to_string()]));
    assert_eq!(with, "ef70bf12325afa507e1b05df29f729915555ccb185b4cc6a3ba77cb9cc843cdc");
    let without = falidex::cloudinary::delivery_cache_key("pic-1", &None);
    assert_eq!(without, "287413930836bfaec247546f1e8fcd0e982627accc6473e7bde13745d410b4b8");
}

#[test]
fn a_found_asset_without_known_id_gets_a_uuid() {
    let a = falidex::cloudinary::gen_cloudinary_asset("a-1".to_string(), "p-1".to_string(), None);
    assert_eq!(a.id.len(), 36);
    assert_eq!(a.id.matches('-').count(), 4);
    let b = falidex::cloudinary::gen_cloudinary_asset("a-1".to_string(), "p-1".to_string(), Some("known".to_string()));
    assert_eq!(b.id, "known");
}
