use falidex::encrypt::{decrypt_data, encrypt_data};
use falidex::env::{get_encrypt_key, get_token_hash_key};
use falidex::model::falidex_model::{LinkDetail, LinkItem, OccurenceDetail, Specificite};
use falidex::relations::{
    add_relation_item, add_relation_item_at, check_color_unused, check_unused, check_update_not_empty, fix_relation_ids,
    fixed_ids_report, get_occurences, partial_update_outcome, remove_relation_item,
    replace_relation_item, replace_relation_item_at, write_outcome, RelationField,
};
use falidex::str_map::StrMap;
use falidex::text::{i64_to_string, join_strings, split_on, u64_to_string};
use falidex::token::{verify_temp_token_at, TokenStore};

fn s(x: &str) -> String {
    x.to_string()
}

fn item(id: Option<&str>, placement: &str, symbole: Option<&str>) -> LinkItem {
    LinkItem {
        id: id.map(s),
        placement_id: s(placement),
        position_id: None,
        filiere_id: None,
        symbole_id: symbole.map(s),
        circulaire_id: None,
        signification_id: None,
        symbole_sens_id: None,
        symbole_accessory_id: None,
        created_at: Some(s("created")),
        updated_at: None,
        spe: None,
        absent: None,
        blame: None,
    }
}

fn link(name: &str, editable: Option<bool>, relations: Vec<LinkItem>) -> LinkDetail {
    LinkDetail {
        id: s("l-1"),
        name: s(name),
        relations,
        specificites: Vec::<Specificite>::new(),
        annee: None,
        last_update: s("t0"),
        created_at: None,
        default: None,
        visible: None,
        editable,
        national: None,
        ville: None,
    }
}

#[test]
fn relations_are_added_with_an_id_and_dates() {
    let mut l = link("c", None, vec![]);
    add_relation_item_at(&mut l, item(None, "p", None), s("fresh"), s("now")).unwrap();
    assert_eq!(l.relations[0].id.as_deref(), Some("fresh"));
    assert_eq!(l.relations[0].created_at.as_deref(), Some("now"));
    assert_eq!(l.relations[0].updated_at.as_deref(), Some("now"));
    let mut locked = link("c", Some(false), vec![]);
    assert_eq!(
        add_relation_item_at(&mut locked, item(None, "p", None), s("f"), s("n")).unwrap_err(),
        "Ce link n'est pas éditable"
    );
    assert!(locked.relations.is_empty());
}

#[test]
fn relations_are_replaced_keeping_their_creation_date() {
    let mut l = link("c", None, vec![item(Some("r1"), "p", None)]);
    replace_relation_item_at(&mut l, item(Some("r1"), "p2", Some("s")), s("later")).unwrap();
    assert_eq!(l.relations[0].placement_id, "p2");
    assert_eq!(l.relations[0].created_at.as_deref(), Some("created"));
    assert_eq!(l.relations[0].updated_at.as_deref(), Some("later"));
    assert_eq!(
        replace_relation_item_at(&mut l, item(None, "p", None), s("x")).unwrap_err(),
        "L'identifiant de la relation est requis pour la mise à jour"
    );
    assert_eq!(
        replace_relation_item_at(&mut l, item(Some("zz"), "p", None), s("x")).unwrap_err(),
        "Aucune relation trouvée avec cet identifiant"
    );
    remove_relation_item(&mut l, "r1").unwrap();
    assert!(l.relations.is_empty());
    assert!(remove_relation_item(&mut l, "r1").is_err());
}

#[test]
fn missing_relation_ids_are_filled() {
    let mut links = vec![
        link("a", None, vec![item(None, "p", None), item(Some("keep"), "p", None)]),
        link("b", None, vec![item(Some("x"), "p", None)]),
    ];
    let n = fix_relation_ids(&mut links);
    assert_eq!(n, 1);
    assert!(links[0].relations[0].id.is_some());
    assert_eq!(links[0].relations[1].id.as_deref(), Some("keep"));
    assert_eq!(fixed_ids_report(n), "1 link(s) mis à jour avec succès");
}

#[test]
fn occurences_count_the_relations_that_use_a_referential() {
    let links = vec![
        link("a", None, vec![item(Some("1"), "p", Some("s1")), item(Some("2"), "p", Some("s1"))]),
        link("b", None, vec![item(Some("3"), "p", Some("s2"))]),
    ];
    let occ = get_occurences(&links, RelationField::Symbole, "s1");
    assert_eq!(occ.len(), 1);
    assert_eq!(occ[0].relation, "a");
    assert_eq!(occ[0].items, 2);
    assert!(get_occurences(&links, RelationField::Symbole, "none").is_empty());
    assert_eq!(get_occurences(&links, RelationField::Placement, "p").len(), 2);
    let e = check_unused(&occ, "ce symbole car il est utilisé").unwrap_err();
    assert_eq!(e, "Impossible de supprimer ce symbole car il est utilisé dans 1 relation(s) (2 item(s) au total)");
    assert!(check_unused(&Vec::<OccurenceDetail>::new(), "x").is_ok());
}

#[test]
fn write_outcomes() {
    assert_eq!(partial_update_outcome(0, 0, "absent", "ok").unwrap_err(), "absent");
    assert_eq!(partial_update_outcome(1, 1, "absent", "ok").unwrap(), "ok");
    assert_eq!(
        partial_update_outcome(1, 0, "absent", "ok").unwrap(),
        "Aucune modification détectée (valeurs identiques)"
    );
    assert_eq!(check_update_not_empty(0).unwrap_err(), "Aucun champ à mettre à jour");
    assert!(check_update_not_empty(2).is_ok());
    assert_eq!(write_outcome(1, "done", "nf").unwrap(), "done");
    assert_eq!(write_outcome(0, "done", "nf").unwrap_err(), "nf");
    assert_eq!(
        check_color_unused(3).unwrap_err(),
        "Impossible de supprimer cette color car elle est utilisée par 3 circulaire(s)"
    );
}

#[test]
fn encrypted_texts_come_back() {
    let key = get_encrypt_key(Some(s("a configured key")));
    assert_eq!(key, "a configured key");
    let c = encrypt_data(s("secret text"), &key).unwrap();
    assert_ne!(c, "secret text");
    assert_eq!(decrypt_data(c.clone(), &key).unwrap(), "secret text");
    assert!(decrypt_data(c, "other key").is_err());
    assert!(decrypt_data(s("***"), &key).is_err());
}

#[test]
fn first_token_scheme() {
    assert_eq!(get_token_hash_key(Some(s("tsec"))), "tsec");
    let good = falidex::security_utils::hash_token("admin", "tsec", 500);
    assert_eq!(good, "b8a3a4d04e7c952a59311dd75fb2feae81f83cacde2777c789af39e4505d35f6");
    assert!(verify_temp_token_at("admin", 500, &good, 560, "tsec"));
    assert!(verify_temp_token_at("admin", 500, &good, 440, "tsec"));
    assert!(!verify_temp_token_at("admin", 500, &good, 561, "tsec"));
    assert!(!verify_temp_token_at("admin", 500, &good, 439, "tsec"));
    let mut store = TokenStore::new();
    store.store_token(s("t"), 1000);
    assert!(store.verify_stored_token_at("t", 1000 + 86399));
    assert!(!store.verify_stored_token_at("t", 1000 + 86400));
    assert!(!store.verify_stored_token_at("u", 1000));
    store.revoke("t");
    assert!(!store.verify_stored_token_at("t", 1000));
}

#[test]
fn maps_and_strings() {
    let mut m = StrMap::new();
    m.insert(s("a"), 1);
    m.insert(s("b"), 2);
    m.insert(s("a"), 3);
    assert_eq!(m.len(), 2);
    assert_eq!(m.get("a"), Some(&3));
    m.remove("a");
    assert!(!m.contains_key("a"));
    assert_eq!(m.keys(), vec![s("b")]);
    assert_eq!(split_on("a,,b", ','), vec!["a", "", "b"]);
    assert_eq!(split_on("", ','), vec![""]);
    assert_eq!(join_strings(&vec![s("a"), s("b")], ", "), "a, b");
    assert_eq!(u64_to_string(0), "0");
    assert_eq!(i64_to_string(-42), "-42");
    assert_eq!(i64_to_string(i64::MIN), "-9223372036854775808");
}

fn uuid_shaped(x: &str) -> bool {
    x.len() == 36
        && x.char_indices().all(|(i, c)| {
            if i == 8 || i == 13 || i == 18 || i == 23 {
                c == '-'
            } else {
                c.is_ascii_digit() || ('a'..='f').contains(&c)
            }
        })
}

#[test]
fn an_added_relation_gets_a_fresh_uuid() {
    let mut l = link("c", None, vec![]);
    add_relation_item(&mut l, item(None, "p", Some("s"))).unwrap();
    let id = l.relations[0].id.clone().unwrap();
    assert!(uuid_shaped(&id));
    assert_eq!(l.relations[0].placement_id, "p");
    assert_eq!(l.relations[0].symbole_id.as_deref(), Some("s"));
}

#[test]
fn a_replaced_relation_takes_the_new_fields() {
    let mut l = link("c", None, vec![item(Some("r1"), "p", None), item(Some("r2"), "q", None)]);
    replace_relation_item(&mut l, item(Some("r2"), "q2", Some("s"))).unwrap();
    assert_eq!(l.relations.len(), 2);
    assert_eq!(l.relations[0].placement_id, "p");
    assert_eq!(l.relations[1].id.as_deref(), Some("r2"));
    assert_eq!(l.relations[1].placement_id, "q2");
    assert_eq!(l.relations[1].symbole_id.as_deref(), Some("s"));
    assert_eq!(l.relations[1].created_at.as_deref(), Some("created"));
    assert!(l.relations[1].updated_at.is_some());
}

#[test]
fn filling_missing_ids_keeps_the_other_fields() {
    let mut links = vec![link("a", None, vec![item(None, "p", Some("s1")), item(None, "q", None)])];
    let n = fix_relation_ids(&mut links);
    assert_eq!(n, 1);
    let r0 = &links[0].relations[0];
    assert!(uuid_shaped(r0.id.as_deref().unwrap()));
    assert_eq!(r0.placement_id, "p");
    assert_eq!(r0.symbole_id.as_deref(), Some("s1"));
    assert_eq!(r0.created_at.as_deref(), Some("created"));
    assert!(r0.updated_at.is_none());
    assert_ne!(links[0].relations[0].id, links[0].relations[1].id);
    assert_eq!(fix_relation_ids(&mut links), 0);
}
