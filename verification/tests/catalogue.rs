use falidex::cache::{
    expiry, file_name_matches, filter_list_update, fresh_value, is_expired, key_of_file_name,
    CacheEntry, FileCache, ListUpdate,
};
use falidex::env::{
    allowed_origins, AllowedOrigins,
    domain, get_allowed_origins, get_bdd, get_cloudinary_main_folder, get_env_value,
    get_jwt_secret, get_port, is_fix_relation_id_activated, is_migration_img_activated,
};
use falidex::import::{
    apply_relation_operations_at, check_batch, check_not_referenced, collect_tmp_ids,
    insert_document, read_entity_fields, update_document,
};
use falidex::model::falidex_model::{
    CreateLinkDetail, Img, LinkDetail, LinkDetailReq, Specificite, UpdateCirculaire, UpdateColor,
};
use falidex::model::import_model::{
    FieldValue, ImportBatchRequest, ImportEntityType, ImportNewLinkFields, ImportOperation,
    ImportOperationType,
};
use falidex::relations::mark_migrated;
use falidex::routes::model::{
    CirculaireCreateReq, CirculaireUpdateReq, ColorUpdateReq, SymboleCreateReq,
    link_detail_from_req_at, prepare_create_link_at,
};
use falidex::str_map::StrMap;
use falidex::text::contains_sub;

fn s(x: &str) -> String {
    x.to_string()
}

#[test]
fn settings_fall_back_to_their_defaults() {
    assert_eq!(get_port(None), "3000");
    assert_eq!(get_port(Some(s("8080"))), "8080");
    assert_eq!(get_allowed_origins(None), "*");
    assert_eq!(get_bdd(None), "test-falidex");
    assert_eq!(get_cloudinary_main_folder(None), "test_falidex");
    assert_eq!(get_jwt_secret(Some(s("j"))), "j");
    assert_eq!(domain(None), "");
    assert_eq!(get_env_value(Some(s("d")), None), "d");
    assert_eq!(get_env_value(None, Some(s("v"))), "v");
}

#[test]
fn switches_are_on_only_when_exactly_true() {
    assert!(!is_migration_img_activated(None));
    assert!(is_migration_img_activated(Some(s("true"))));
    assert!(!is_migration_img_activated(Some(s("TRUE"))));
    assert!(!is_fix_relation_id_activated(Some(s("1"))));
    assert!(is_fix_relation_id_activated(Some(s("true"))));
}

#[test]
fn cache_files_are_named_after_their_keys() {
    assert_eq!(FileCache::new(".app_temp/urls").file_path("k"), ".app_temp/urls/k.json");
    assert_eq!(FileCache::new("base/").file_path("k"), "base/k.json");
    assert_eq!(FileCache::new("").file_path("k"), "k.json");
    assert_eq!(FileCache::new("base").file_path("/abs"), "/abs.json");
    assert_eq!(key_of_file_name("abc.json").as_deref(), Some("abc"));
    assert_eq!(key_of_file_name("abc.json.json").as_deref(), Some("abc"));
    assert_eq!(key_of_file_name("abc.txt"), None);
    assert!(file_name_matches("pid-12.json", "d-1"));
    assert!(!file_name_matches("pid-12.json", "x"));
}

#[test]
fn cache_entries_expire_after_their_time() {
    assert_eq!(expiry(100, 3600), 3700);
    assert!(!is_expired(3700, 3700));
    assert!(is_expired(3701, 3700));
    assert_eq!(fresh_value(CacheEntry { value: 5, expires_at: 10 }, 10), Some(5));
    assert_eq!(fresh_value(CacheEntry { value: 5, expires_at: 10 }, 11), None);
}

#[test]
fn filtering_a_cached_list() {
    match filter_list_update(vec![1, 2, 3], &vec![true, true, true]) {
        ListUpdate::Unchanged => {}
        _ => panic!("expected unchanged"),
    }
    match filter_list_update(vec![1, 2, 3], &vec![false, false, false]) {
        ListUpdate::Delete => {}
        _ => panic!("expected delete"),
    }
    match filter_list_update(vec![1, 2, 3], &vec![true, false, true]) {
        ListUpdate::Replace(v) => assert_eq!(v, vec![1, 3]),
        _ => panic!("expected replace"),
    }
    match filter_list_update(Vec::<u8>::new(), &vec![]) {
        ListUpdate::Unchanged => {}
        _ => panic!("expected unchanged"),
    }
}

#[test]
fn substring_search() {
    assert!(contains_sub("hello", "ell"));
    assert!(contains_sub("hello", ""));
    assert!(contains_sub("hello", "hello"));
    assert!(!contains_sub("hello", "helloo"));
    assert!(!contains_sub("hello", "lo!"));
}

fn fields_of(pairs: Vec<(&str, FieldValue)>) -> StrMap<FieldValue> {
    let mut fields = StrMap::new();
    for (k, v) in pairs {
        fields.insert(k.to_string(), v);
    }
    fields
}

fn op(o: ImportOperationType, e: ImportEntityType, id: &str, f: StrMap<FieldValue>) -> ImportOperation {
    ImportOperation { op: o, entity: e, id: s(id), fields: f, incertain: false, note: None }
}

#[test]
fn referential_fields_are_read_by_entity_type() {
    let f = fields_of(vec![
        ("name", FieldValue::Text(s("Croix"))),
        ("matiere", FieldValue::Other(s("5"))),
        ("content", FieldValue::Bool(true)),
    ]);
    // A symbol has only a name: the other fields are ignored.
    let r = read_entity_fields(ImportEntityType::Symbole, &f, "tmp:s").unwrap();
    assert_eq!(r.name.as_deref(), Some("Croix"));
    assert_eq!(r.matiere, None);
    // A circular reads its subject, which is not a string here.
    let e = read_entity_fields(ImportEntityType::Circulaire, &f, "c-1").unwrap_err();
    assert_eq!(e, "Champs invalides pour Circulaire c-1: invalid type: integer `5`, expected a string");
    let e = read_entity_fields(ImportEntityType::Signification, &f, "g-1").unwrap_err();
    assert_eq!(e, "Champs invalides pour Signification g-1: invalid type: boolean `true`, expected a string");
}

#[test]
fn referential_documents() {
    let f = fields_of(vec![("name", FieldValue::Text(s("Rouge"))), ("colorData", FieldValue::Text(s("#f00")))]);
    let fields = read_entity_fields(ImportEntityType::Color, &f, "tmp:c").unwrap();
    let d = insert_document(ImportEntityType::Color, &fields, "real-c").unwrap();
    assert_eq!(
        d,
        vec![(s("_id"), s("real-c")), (s("name"), s("Rouge")), (s("colorData"), s("#f00"))]
    );
    let missing = read_entity_fields(ImportEntityType::Circulaire, &f, "tmp:k").unwrap();
    assert_eq!(
        insert_document(ImportEntityType::Circulaire, &missing, "k").unwrap_err(),
        "le champ 'matiere' est requis"
    );
    let empty = read_entity_fields(ImportEntityType::Signification, &fields_of(vec![]), "g").unwrap();
    assert_eq!(
        update_document(ImportEntityType::Signification, &empty, "g").unwrap_err(),
        "Aucun champ à mettre à jour pour Signification g"
    );
    assert_eq!(
        check_not_referenced(ImportEntityType::Symbole, "s-1", 2).unwrap_err(),
        "Impossible de supprimer ce Symbole (s-1) : encore référencé par 2 fiche(s)"
    );
    assert!(check_not_referenced(ImportEntityType::Symbole, "s-1", 0).is_ok());
}

fn batch(link_id: Option<&str>, new_link: bool, ops: Vec<ImportOperation>) -> ImportBatchRequest {
    ImportBatchRequest {
        name: s("Import"),
        link_id: link_id.map(s),
        new_link: if new_link { Some(ImportNewLinkFields { name: s("Nouveau"), annee: Some(2024) }) } else { None },
        operations: ops,
    }
}

#[test]
fn batches_are_checked_before_anything_is_applied() {
    let rel = || op(ImportOperationType::Add, ImportEntityType::Relation, "tmp:r", fields_of(vec![]));
    assert!(check_batch(&batch(Some("l"), false, vec![rel()])).is_ok());
    assert_eq!(
        check_batch(&batch(None, false, vec![rel()])).unwrap_err(),
        "Un code cible (existant via linkId, ou nouveau via newLink) est requis pour appliquer des opérations de relation"
    );
    assert_eq!(
        check_batch(&batch(Some("l"), true, vec![])).unwrap_err(),
        "linkId et newLink ne peuvent pas être fournis en même temps"
    );
    let mut doubtful = op(ImportOperationType::Add, ImportEntityType::Color, "tmp:c", fields_of(vec![]));
    doubtful.incertain = true;
    assert_eq!(
        check_batch(&batch(None, false, vec![doubtful])).unwrap_err(),
        "Import refusé : une opération sur Color (id tmp:c) est encore marquée incertaine"
    );
}

#[test]
fn temporary_ids_are_given_to_added_referentials_only() {
    let ops = vec![
        op(ImportOperationType::Add, ImportEntityType::Symbole, "tmp:s", fields_of(vec![])),
        op(ImportOperationType::Add, ImportEntityType::Relation, "tmp:r", fields_of(vec![])),
        op(ImportOperationType::Update, ImportEntityType::Symbole, "tmp:u", fields_of(vec![])),
        op(ImportOperationType::Add, ImportEntityType::Color, "real", fields_of(vec![])),
    ];
    let tmp = collect_tmp_ids(&ops);
    assert_eq!(tmp.len(), 1);
    assert_eq!(tmp.get("tmp:s").unwrap().len(), 36);
}

fn empty_link() -> LinkDetail {
    LinkDetail {
        id: s("link-1"),
        name: s("Code"),
        relations: vec![],
        specificites: Vec::<Specificite>::new(),
        annee: None,
        last_update: s("now"),
        created_at: None,
        default: None,
        visible: None,
        editable: None,
        national: None,
        ville: None,
    }
}

#[test]
fn relation_operations_run_in_order_and_stop_at_the_first_failure() {
    let tmp: StrMap<String> = StrMap::new();
    let ops = vec![
        op(ImportOperationType::Add, ImportEntityType::Relation, "tmp:r1",
            fields_of(vec![("placementId", FieldValue::Text(s("p-1")))])),
        op(ImportOperationType::Add, ImportEntityType::Symbole, "tmp:s", fields_of(vec![])),
        op(ImportOperationType::Update, ImportEntityType::Relation, "rel-new",
            fields_of(vec![("positionId", FieldValue::Text(s("pos-1")))])),
    ];
    let stamps = vec![(s("t1"), s("rel-new")), (s("t2"), s("unused")), (s("t3"), s("other"))];
    let mut link = empty_link();
    let steps = apply_relation_operations_at(&mut link, &ops, &tmp, &stamps).unwrap();
    assert_eq!(steps.len(), 2);
    assert_eq!(steps[0].index, 0);
    assert_eq!(steps[0].resolved_id, "rel-new");
    assert_eq!(steps[1].index, 2);
    assert_eq!(link.relations.len(), 1);
    assert_eq!(link.relations[0].position_id.as_deref(), Some("pos-1"));
    assert_eq!(link.relations[0].created_at.as_deref(), Some("t1"));
    assert_eq!(link.relations[0].updated_at.as_deref(), Some("t3"));

    let failing = vec![
        op(ImportOperationType::Remove, ImportEntityType::Relation, "missing", fields_of(vec![])),
    ];
    let mut link = empty_link();
    let e = apply_relation_operations_at(&mut link, &failing, &tmp, &vec![(s("t"), s("i"))]).unwrap_err();
    assert_eq!(e, "Relation introuvable: missing");
}

#[test]
fn moved_pictures_are_marked() {
    let imgs = vec![
        Img { id: s("a"), url: s("u1"), migrated: None },
        Img { id: s("b"), url: s("u2"), migrated: Some(false) },
    ];
    let r = mark_migrated(imgs, "b");
    assert_eq!(r[0].migrated, None);
    assert_eq!(r[1].migrated, Some(true));
    assert_eq!(r[1].url, "u2");
}

#[test]
fn request_bodies_become_records() {
    let c = CirculaireCreateReq { matiere: s("m"), name: s("n") }.into_create();
    assert_eq!((c.matiere.as_str(), c.name.as_str(), c.id.len()), ("m", "n", 36));
    let u: UpdateCirculaire = CirculaireUpdateReq { matiere: None, name: Some(s("n2")) }.into();
    assert_eq!(u.name.as_deref(), Some("n2"));
    assert_eq!(u.matiere, None);
    let u: UpdateColor = ColorUpdateReq { name: None, color_data: Some(s("#fff")) }.into();
    assert_eq!(u.color_data.as_deref(), Some("#fff"));
    let sy = SymboleCreateReq { name: s("x"), imgs: None }.into_create();
    assert_eq!(sy.name, "x");
}

#[test]
fn codes_are_dated_when_stored() {
    let req = LinkDetailReq {
        name: s("n"),
        id: s("i"),
        relations: vec![],
        specificites: vec![],
        created_at: None,
        last_update: Some(s("old")),
        annee: Some(1939),
        default: None,
        visible: Some(true),
        editable: None,
        national: None,
        ville: None,
    };
    let d = link_detail_from_req_at(req, s("now"));
    assert_eq!(d.created_at.as_deref(), Some("now"));
    assert_eq!(d.last_update, "now");
    assert_eq!(d.annee, Some(1939));
    let create = CreateLinkDetail {
        id: None,
        name: s("n"),
        relations: vec![],
        specificites: vec![],
        created_at: None,
        last_update: None,
        annee: None,
        default: None,
        visible: None,
        editable: None,
        national: None,
        ville: None,
    };
    let c = prepare_create_link_at(create, s("t"), s("oid"));
    assert_eq!(c.id.as_deref(), Some("oid"));
    assert_eq!(c.created_at.as_deref(), Some("t"));
    assert_eq!(c.last_update.as_deref(), Some("t"));
}

#[test]
fn cors_origins_are_listed_or_mirrored() {
    match allowed_origins("*") {
        AllowedOrigins::Mirror => {}
        _ => panic!("expected mirror"),
    }
    match allowed_origins("https://a.org, https://b.org ,") {
        AllowedOrigins::List(v) => assert_eq!(v, vec!["https://a.org", "https://b.org", ""]),
        _ => panic!("expected a list"),
    }
}

#[test]
fn the_first_unreadable_field_in_the_operation_is_reported() {
    let f = fields_of(vec![
        ("colorData", FieldValue::Other(s("[1,2]"))),
        ("name", FieldValue::Other(s("1.5"))),
    ]);
    let e = read_entity_fields(ImportEntityType::Color, &f, "c").unwrap_err();
    assert_eq!(e, "Champs invalides pour Color c: invalid type: sequence, expected a string");
    let g = fields_of(vec![
        ("name", FieldValue::Other(s("{}"))),
        ("colorData", FieldValue::Other(s("[1,2]"))),
    ]);
    let e = read_entity_fields(ImportEntityType::Color, &g, "c").unwrap_err();
    assert_eq!(e, "Champs invalides pour Color c: invalid type: map, expected a string");
}

#[test]
fn a_missing_referential_is_reported_as_not_found() {
    assert!(falidex::import::found_or_not_found(true, ImportEntityType::Color, "c-1").is_ok());
    assert_eq!(
        falidex::import::found_or_not_found(false, ImportEntityType::Color, "c-1").unwrap_err(),
        falidex::import::not_found(ImportEntityType::Color, "c-1")
    );
}
