use falidex::import::{apply_relation_operation, operation_results, field_as_optional_string, field_present, resolve_id};
use falidex::model::falidex_model::{LinkDetail, LinkItem, Specificite};
use falidex::model::import_model::{
    batch_check_from_report, import_code, import_json_schema, validate_batch_json, FieldValue, ImportCodeStatus,
    ImportEntityType, ImportOperation, ImportOperationType,
};
use falidex::str_map::StrMap;

fn fields_of(pairs: Vec<(&str, FieldValue)>) -> StrMap<FieldValue> {
    let mut fields = StrMap::new();
    for (k, v) in pairs {
        fields.insert(k.to_string(), v);
    }
    fields
}

fn text(s: &str) -> FieldValue {
    FieldValue::Text(s.to_string())
}

fn operation(
    op: ImportOperationType,
    entity: ImportEntityType,
    id: &str,
    fields: StrMap<FieldValue>,
) -> ImportOperation {
    ImportOperation {
        op,
        entity,
        id: id.to_string(),
        fields,
        incertain: false,
        note: None,
    }
}

fn empty_link() -> LinkDetail {
    LinkDetail {
        id: "link-1".to_string(),
        name: "Code de test".to_string(),
        relations: vec![],
        specificites: Vec::<Specificite>::new(),
        annee: None,
        last_update: "now".to_string(),
        created_at: None,
        default: None,
        visible: None,
        editable: None,
        national: None,
        ville: None,
    }
}

fn relation(id: &str, position: Option<&str>, filiere: Option<&str>, stamp: Option<&str>) -> LinkItem {
    LinkItem {
        id: Some(id.to_string()),
        placement_id: "placement-1".to_string(),
        position_id: position.map(|s| s.to_string()),
        filiere_id: filiere.map(|s| s.to_string()),
        symbole_id: None,
        circulaire_id: None,
        signification_id: None,
        symbole_sens_id: None,
        symbole_accessory_id: None,
        created_at: stamp.map(|s| s.to_string()),
        updated_at: stamp.map(|s| s.to_string()),
        spe: None,
        absent: None,
        blame: None,
    }
}

#[test]
fn resolve_id_passes_through_real_ids() {
    let tmp_ids: StrMap<String> = StrMap::new();
    assert_eq!(resolve_id("real-id", &tmp_ids).unwrap(), "real-id");
}

#[test]
fn resolve_id_resolves_a_known_tmp_id() {
    let mut tmp_ids = StrMap::new();
    tmp_ids.insert("tmp:symbole-1".to_string(), "real-symbole-1".to_string());
    assert_eq!(resolve_id("tmp:symbole-1", &tmp_ids).unwrap(), "real-symbole-1");
}

#[test]
fn resolve_id_errors_on_an_unknown_tmp_id() {
    let tmp_ids: StrMap<String> = StrMap::new();
    assert!(resolve_id("tmp:unknown", &tmp_ids).is_err());
}

#[test]
fn add_relation_resolves_a_tmp_symbole_id_created_earlier_in_the_batch() {
    let mut tmp_ids = StrMap::new();
    tmp_ids.insert("tmp:symbole-1".to_string(), "real-symbole-1".to_string());
    let mut link = empty_link();

    let op = operation(
        ImportOperationType::Add,
        ImportEntityType::Relation,
        "tmp:relation-1",
        fields_of(vec![("placementId", text("placement-1")), ("symboleId", text("tmp:symbole-1"))]),
    );

    let (resolved_id, before, after) = apply_relation_operation(&mut link, &op, &tmp_ids).unwrap();

    assert!(before.is_none());
    assert!(after.is_some());
    assert_eq!(link.relations.len(), 1);
    assert_eq!(link.relations[0].symbole_id.as_deref(), Some("real-symbole-1"));
    assert_eq!(link.relations[0].placement_id, "placement-1");
    assert_ne!(resolved_id, "tmp:relation-1");
    assert_eq!(link.relations[0].id.as_deref(), Some(resolved_id.as_str()));
}

#[test]
fn add_relation_without_placement_id_is_rejected() {
    let tmp_ids: StrMap<String> = StrMap::new();
    let mut link = empty_link();
    let op = operation(
        ImportOperationType::Add,
        ImportEntityType::Relation,
        "tmp:relation-1",
        fields_of(vec![("symboleId", text("symbole-1"))]),
    );

    assert!(apply_relation_operation(&mut link, &op, &tmp_ids).is_err());
}

#[test]
fn update_relation_only_touches_fields_present_in_the_payload() {
    let tmp_ids: StrMap<String> = StrMap::new();
    let mut link = empty_link();
    link.relations.push(relation(
        "relation-1",
        Some("position-1"),
        Some("filiere-1"),
        Some("2020-01-01T00:00:00Z"),
    ));

    let op = operation(
        ImportOperationType::Update,
        ImportEntityType::Relation,
        "relation-1",
        fields_of(vec![("symboleId", text("symbole-2"))]),
    );

    let (resolved_id, before, _after) = apply_relation_operation(&mut link, &op, &tmp_ids).unwrap();

    assert_eq!(resolved_id, "relation-1");
    assert!(before.is_some());
    let updated = &link.relations[0];
    assert_eq!(updated.symbole_id.as_deref(), Some("symbole-2"));
    assert_eq!(updated.filiere_id.as_deref(), Some("filiere-1"));
    assert_eq!(updated.position_id.as_deref(), Some("position-1"));
    assert_eq!(updated.placement_id, "placement-1");
    assert_eq!(updated.created_at.as_deref(), Some("2020-01-01T00:00:00Z"));
}

#[test]
fn update_relation_can_explicitly_clear_a_field_with_null() {
    let tmp_ids: StrMap<String> = StrMap::new();
    let mut link = empty_link();
    link.relations.push(relation("relation-1", Some("position-1"), None, None));

    let op = operation(
        ImportOperationType::Update,
        ImportEntityType::Relation,
        "relation-1",
        fields_of(vec![("positionId", FieldValue::Null)]),
    );

    apply_relation_operation(&mut link, &op, &tmp_ids).unwrap();
    assert!(link.relations[0].position_id.is_none());
}

#[test]
fn update_relation_rejects_an_unknown_relation_id() {
    let tmp_ids: StrMap<String> = StrMap::new();
    let mut link = empty_link();
    let op = operation(
        ImportOperationType::Update,
        ImportEntityType::Relation,
        "does-not-exist",
        fields_of(vec![("symboleId", text("symbole-1"))]),
    );

    assert!(apply_relation_operation(&mut link, &op, &tmp_ids).is_err());
}

#[test]
fn remove_relation_deletes_the_matching_item() {
    let tmp_ids: StrMap<String> = StrMap::new();
    let mut link = empty_link();
    link.relations.push(relation("relation-1", None, None, None));

    let op = operation(
        ImportOperationType::Remove,
        ImportEntityType::Relation,
        "relation-1",
        fields_of(vec![]),
    );

    let (resolved_id, before, after) = apply_relation_operation(&mut link, &op, &tmp_ids).unwrap();
    assert_eq!(resolved_id, "relation-1");
    assert!(before.is_some());
    assert!(after.is_none());
    assert!(link.relations.is_empty());
}

#[test]
fn field_helpers_distinguish_absent_null_and_present() {
    let fields = fields_of(vec![("name", text("x")), ("explicit_null", FieldValue::Null)]);

    assert!(field_present(&fields, "name"));
    assert!(field_present(&fields, "explicit_null"));
    assert!(!field_present(&fields, "missing"));

    assert_eq!(field_as_optional_string(&fields, "name").unwrap(), Some("x".to_string()));
    assert_eq!(field_as_optional_string(&fields, "explicit_null").unwrap(), None);
    assert_eq!(field_as_optional_string(&fields, "missing").unwrap(), None);
}

#[test]
fn validate_batch_json_accepts_a_conforming_batch() {
    let value = r#"{
        "name": "Import circulaire 2024-12",
        "newLink": { "name": "Croix de guerre 1939-1945" },
        "operations": [
            {
                "op": "add",
                "entity": "symbole",
                "id": "tmp:symbole-1",
                "fields": { "name": "Croix de guerre 1939-1945" },
                "confidence": 0.95,
                "incertain": false
            }
        ]
    }"#;
    assert_eq!(validate_batch_json(import_json_schema(), value), Ok(()));
}

#[test]
fn validate_batch_json_rejects_an_incomplete_operation() {
    let value = r#"{
        "name": "Import circulaire 2024-12",
        "operations": [
            { "op": "add", "entity": "symbole" }
        ]
    }"#;
    let errors = validate_batch_json(import_json_schema(), value).expect_err("should be rejected");
    assert!(!errors.is_empty());
}

#[test]
fn validate_batch_json_rejects_an_unknown_top_level_property() {
    let value = r#"{ "name": "x", "operations": [], "unexpectedField": true }"#;
    assert!(validate_batch_json(import_json_schema(), value).is_err());
}

#[test]
fn validate_batch_json_rejects_a_confidence_out_of_range() {
    let value = r#"{
        "name": "x",
        "operations": [
            { "op": "add", "entity": "color", "id": "tmp:color-1", "confidence": 1.5, "incertain": false }
        ]
    }"#;
    assert!(validate_batch_json(import_json_schema(), value).is_err());
}

#[test]
fn schema_errors_name_the_place_in_the_body() {
    let value = r#"{ "name": "x", "operations": [ { "op": "add", "entity": "color", "id": "c", "confidence": 1.5, "incertain": false } ] }"#;
    let errors = validate_batch_json(import_json_schema(), value).unwrap_err();
    assert_eq!(errors.len(), 1);
    assert!(errors[0].starts_with("/operations/0/confidence: "));
    let unreadable = validate_batch_json("{ not json", "{}").unwrap_err();
    assert_eq!(unreadable.len(), 1);
}

#[test]
fn a_validator_report_becomes_the_batch_check() {
    assert_eq!(batch_check_from_report(Ok(vec![])), Ok(()));
    assert_eq!(
        batch_check_from_report(Ok(vec![("/a".to_string(), "bad".to_string()), ("".to_string(), "x".to_string())])),
        Err(vec!["/a: bad".to_string(), ": x".to_string()])
    );
    assert_eq!(batch_check_from_report(Err("no schema".to_string())), Err(vec!["no schema".to_string()]));
}

#[test]
fn the_import_record_follows_the_outcome() {
    let applied = import_code(
        "code-1".to_string(),
        "Import circulaire 2024-12".to_string(),
        "2026-07-27T00:00:00Z".to_string(),
        "user-1".to_string(),
        "quentin".to_string(),
        None,
        Ok((vec![1u8, 2], Some("link-1".to_string()))),
    );
    assert_eq!(applied.status, ImportCodeStatus::Applied);
    assert_eq!(applied.operations, vec![1, 2]);
    assert_eq!(applied.link_id.as_deref(), Some("link-1"));
    assert!(applied.error.is_none());
    let failed = import_code(
        "code-2".to_string(),
        "n".to_string(),
        "d".to_string(),
        "u".to_string(),
        "q".to_string(),
        Some("asked".to_string()),
        Err::<(Vec<u8>, Option<String>), String>("boom".to_string()),
    );
    assert_eq!(failed.status, ImportCodeStatus::Failed);
    assert!(failed.operations.is_empty());
    assert_eq!(failed.link_id.as_deref(), Some("asked"));
    assert_eq!(failed.error.as_deref(), Some("boom"));
    assert_eq!(failed.id, "code-2");
    assert_eq!(failed.user_name, "q");
}

#[test]
fn an_added_relation_id_is_not_the_temporary_one() {
    let mut l = empty_link();
    let op = operation(
        ImportOperationType::Add,
        ImportEntityType::Relation,
        "tmp:relation-9",
        fields_of(vec![("placementId", text("p"))]),
    );
    let (rid, _, _) = apply_relation_operation(&mut l, &op, &StrMap::new()).unwrap();
    assert_ne!(rid, "tmp:relation-9");
    assert_eq!(rid.len(), 36);
    assert_eq!(l.relations[0].id.as_deref(), Some(rid.as_str()));
}

#[test]
fn operation_results_list_referentials_first_then_relation_steps() {
    let ops = vec![
        operation(ImportOperationType::Add, ImportEntityType::Relation, "tmp:r-1", fields_of(vec![])),
        operation(ImportOperationType::Add, ImportEntityType::Symbole, "tmp:s-1", fields_of(vec![])),
        operation(ImportOperationType::Remove, ImportEntityType::Color, "c-1", fields_of(vec![])),
    ];
    let referential = vec![
        ("real-s".to_string(), None, Some(1u8)),
        ("c-1".to_string(), Some(2u8), None),
    ];
    let relations = vec![(0usize, "rel-uuid".to_string(), None, Some(3u8))];
    let r = operation_results(&ops, referential, relations);
    assert_eq!(r.len(), 3);
    assert_eq!(r[0].source_id, "tmp:s-1");
    assert_eq!(r[0].resolved_id, "real-s");
    assert_eq!(r[0].entity, ImportEntityType::Symbole);
    assert_eq!(r[0].after, Some(1));
    assert_eq!(r[1].source_id, "c-1");
    assert_eq!(r[1].op, ImportOperationType::Remove);
    assert_eq!(r[1].before, Some(2));
    assert_eq!(r[2].source_id, "tmp:r-1");
    assert_eq!(r[2].resolved_id, "rel-uuid");
    assert_eq!(r[2].entity, ImportEntityType::Relation);
    assert_eq!(r[2].after, Some(3));
}
