//! Applying an import batch: temporary ids, the relations of the targeted
//! code, and the documents written to the shared referentials.
use crate::fresh::{lemma_uuid_is_not_temporary, new_uuid, now_rfc3339, uuid_form};
use crate::model::falidex_model::{clone_opt, relations_view, LinkDetail, LinkItem, LinkItemView};
use crate::model::import_model::{
    FieldValue, FieldValueView, ImportBatchRequest, ImportEntityType, ImportOperation,
    ImportOperationType,
};
use crate::str_map::StrMap;
use crate::model::falidex_model::Specificite;
use crate::model::import_model::ImportNewLinkFields;
use crate::text::{concat, concat3, decimal, has_prefix, starts_with, str_eq, u64_to_string};
use vstd::prelude::*;

verus! {

broadcast use vstd::string::group_string_axioms;

/// The prefix of a temporary id.
pub open spec fn tmp_prefix() -> Seq<char> {
    "tmp:"@
}

/// The error for a temporary id that no operation of the batch adds.
pub open spec fn unresolved_message(id: Seq<char>) -> Seq<char> {
    "Id temporaire non résolu: "@ + id
}

/// What `id` stands for once temporary ids are replaced by real ones.
pub open spec fn spec_resolve_id(id: Seq<char>, tmp: Map<Seq<char>, String>) -> Result<Seq<char>, Seq<char>> {
    if has_prefix(id, tmp_prefix()) {
        if tmp.contains_key(id) {
            Ok(tmp[id]@)
        } else {
            Err(unresolved_message(id))
        }
    } else {
        Ok(id)
    }
}

/// What an optional id stands for once temporary ids are replaced.
pub open spec fn spec_resolve_optional_id(id: Option<Seq<char>>, tmp: Map<Seq<char>, String>) -> Result<Option<Seq<char>>, Seq<char>> {
    match id {
        None => Ok(None),
        Some(v) => match spec_resolve_id(v, tmp) {
            Ok(w) => Ok(Some(w)),
            Err(e) => Err(e),
        },
    }
}

/// A result with its strings seen as character sequences.
pub open spec fn string_result(r: Result<String, String>) -> Result<Seq<char>, Seq<char>> {
    match r {
        Ok(s) => Ok(s@),
        Err(e) => Err(e@),
    }
}

/// A result with its optional string seen as a character sequence.
pub open spec fn opt_string_result(r: Result<Option<String>, String>) -> Result<Option<Seq<char>>, Seq<char>> {
    match r {
        Ok(s) => Ok(s.deep_view()),
        Err(e) => Err(e@),
    }
}

/// A result with its optional boolean kept and its error seen as characters.
pub open spec fn opt_bool_result(r: Result<Option<bool>, String>) -> Result<Option<bool>, Seq<char>> {
    match r {
        Ok(b) => Ok(b),
        Err(e) => Err(e@),
    }
}

/// Resolves an id: a temporary one through `tmp_ids`, a real one as it is.
pub fn resolve_id(id: &str, tmp_ids: &StrMap<String>) -> (r: Result<String, String>)
    ensures
        string_result(r) == spec_resolve_id(id@, tmp_ids@),
{
    proof {
        reveal_strlit("tmp:");
    }
    if starts_with(id, "tmp:") {
        match tmp_ids.get(id) {
            Some(v) => Ok(v.clone()),
            None => Err(concat("Id temporaire non résolu: ", id)),
        }
    } else {
        Ok(id.to_string())
    }
}

/// Resolves an optional id: absent stays absent.
pub fn resolve_optional_id(id: Option<String>, tmp_ids: &StrMap<String>) -> (r: Result<Option<String>, String>)
    ensures
        opt_string_result(r) == spec_resolve_optional_id(id.deep_view(), tmp_ids@),
{
    match id {
        None => Ok(None),
        Some(v) => match resolve_id(v.as_str(), tmp_ids) {
            Ok(w) => Ok(Some(w)),
            Err(e) => Err(e),
        },
    }
}

/// Whether the fields mention `key`, even with `null`.
pub fn field_present(fields: &StrMap<FieldValue>, key: &str) -> (r: bool)
    ensures
        r == fields@.contains_key(key@),
{
    fields.contains_key(key)
}

/// The error for a field that should hold a string or `null`.
pub open spec fn not_string_message(key: Seq<char>) -> Seq<char> {
    "le champ '"@ + key + "' doit être une chaîne ou null"@
}

/// The error for a field that should hold a boolean or `null`.
pub open spec fn not_bool_message(key: Seq<char>) -> Seq<char> {
    "le champ '"@ + key + "' doit être un booléen ou null"@
}

/// A field read as an optional string: absent and `null` give none.
pub open spec fn spec_field_string(fields: Map<Seq<char>, FieldValue>, key: Seq<char>) -> Result<Option<Seq<char>>, Seq<char>> {
    if !fields.contains_key(key) {
        Ok(None)
    } else {
        match fields[key]@ {
            FieldValueView::Null => Ok(None),
            FieldValueView::Text(s) => Ok(Some(s)),
            _ => Err(not_string_message(key)),
        }
    }
}

/// A field read as an optional boolean: absent and `null` give none.
pub open spec fn spec_field_bool(fields: Map<Seq<char>, FieldValue>, key: Seq<char>) -> Result<Option<bool>, Seq<char>> {
    if !fields.contains_key(key) {
        Ok(None)
    } else {
        match fields[key]@ {
            FieldValueView::Null => Ok(None),
            FieldValueView::Bool(b) => Ok(Some(b)),
            _ => Err(not_bool_message(key)),
        }
    }
}

/// Reads a field as an optional string.
pub fn field_as_optional_string(fields: &StrMap<FieldValue>, key: &str) -> (r: Result<Option<String>, String>)
    ensures
        opt_string_result(r) == spec_field_string(fields@, key@),
{
    match fields.get(key) {
        None => Ok(None),
        Some(FieldValue::Null) => Ok(None),
        Some(FieldValue::Text(s)) => Ok(Some(s.clone())),
        Some(_) => Err(concat3("le champ '", key, "' doit être une chaîne ou null")),
    }
}

/// Reads a field as an optional boolean.
pub fn field_as_optional_bool(fields: &StrMap<FieldValue>, key: &str) -> (r: Result<Option<bool>, String>)
    ensures
        opt_bool_result(r) == spec_field_bool(fields@, key@),
{
    match fields.get(key) {
        None => Ok(None),
        Some(FieldValue::Null) => Ok(None),
        Some(FieldValue::Bool(b)) => Ok(Some(*b)),
        Some(_) => Err(concat3("le champ '", key, "' doit être un booléen ou null")),
    }
}

/// A reference field of a relation: the payload's value, resolved, when the
/// payload mentions it; the existing value otherwise.
pub open spec fn spec_resolve_field(
    fields: Map<Seq<char>, FieldValue>,
    tmp: Map<Seq<char>, String>,
    key: Seq<char>,
    existing: Option<Seq<char>>,
) -> Result<Option<Seq<char>>, Seq<char>> {
    if fields.contains_key(key) {
        match spec_field_string(fields, key) {
            Ok(v) => spec_resolve_optional_id(v, tmp),
            Err(e) => Err(e),
        }
    } else {
        Ok(existing)
    }
}

/// A boolean field of a relation: the payload's value when it mentions it,
/// the existing value otherwise.
pub open spec fn spec_bool_field(fields: Map<Seq<char>, FieldValue>, key: Seq<char>, existing: Option<bool>) -> Result<Option<bool>, Seq<char>> {
    if fields.contains_key(key) {
        spec_field_bool(fields, key)
    } else {
        Ok(existing)
    }
}

fn resolve_field(
    fields: &StrMap<FieldValue>,
    tmp_ids: &StrMap<String>,
    key: &str,
    existing: Option<String>,
) -> (r: Result<Option<String>, String>)
    ensures
        opt_string_result(r) == spec_resolve_field(fields@, tmp_ids@, key@, existing.deep_view()),
{
    if field_present(fields, key) {
        match field_as_optional_string(fields, key) {
            Ok(v) => resolve_optional_id(v, tmp_ids),
            Err(e) => Err(e),
        }
    } else {
        Ok(existing)
    }
}

/// The error for a relation without a placement.
pub open spec fn required_placement_message() -> Seq<char> {
    "le champ 'placementId' est requis pour une relation"@
}

/// A relation seen as a `LinkItemView`, when there is one.
pub open spec fn opt_item_view(existing: Option<&LinkItem>) -> Option<LinkItemView> {
    match existing {
        Some(e) => Some(e@),
        None => None,
    }
}

/// An optional string field of the existing relation, if there is one.
pub open spec fn existing_text(existing: Option<LinkItemView>, f: spec_fn(LinkItemView) -> Option<Seq<char>>) -> Option<Seq<char>> {
    match existing {
        Some(e) => f(e),
        None => None,
    }
}

/// An optional boolean field of the existing relation, if there is one.
pub open spec fn existing_flag(existing: Option<LinkItemView>, f: spec_fn(LinkItemView) -> Option<bool>) -> Option<bool> {
    match existing {
        Some(e) => f(e),
        None => None,
    }
}

/// The relation that an operation's fields describe: a new one when
/// `existing` is none, else `existing` with the fields that the payload
/// mentions replaced. `now` is the time of the change and `fresh_id` the id
/// of a new relation (or of one that had none).
pub open spec fn spec_build_link_item(
    fields: Map<Seq<char>, FieldValue>,
    tmp: Map<Seq<char>, String>,
    existing: Option<LinkItemView>,
    now: Seq<char>,
    fresh_id: Seq<char>,
) -> Result<LinkItemView, Seq<char>> {
    let placement = spec_resolve_field(fields, tmp, "placementId"@,
        match existing { Some(e) => Some(e.placement_id), None => None });
    let position = spec_resolve_field(fields, tmp, "positionId"@, existing_text(existing, |e: LinkItemView| e.position_id));
    let filiere = spec_resolve_field(fields, tmp, "filiereId"@, existing_text(existing, |e: LinkItemView| e.filiere_id));
    let symbole = spec_resolve_field(fields, tmp, "symboleId"@, existing_text(existing, |e: LinkItemView| e.symbole_id));
    let circulaire = spec_resolve_field(fields, tmp, "circulaireId"@, existing_text(existing, |e: LinkItemView| e.circulaire_id));
    let signification = spec_resolve_field(fields, tmp, "significationId"@, existing_text(existing, |e: LinkItemView| e.signification_id));
    let sens = spec_resolve_field(fields, tmp, "symboleSensId"@, existing_text(existing, |e: LinkItemView| e.symbole_sens_id));
    let accessory = spec_resolve_field(fields, tmp, "symboleAccessoryId"@, existing_text(existing, |e: LinkItemView| e.symbole_accessory_id));
    let spe = spec_bool_field(fields, "spe"@, existing_flag(existing, |e: LinkItemView| e.spe));
    let absent = spec_bool_field(fields, "absent"@, existing_flag(existing, |e: LinkItemView| e.absent));
    let blame = spec_bool_field(fields, "blame"@, existing_flag(existing, |e: LinkItemView| e.blame));
    if placement is Err {
        Err(placement->Err_0)
    } else if placement->Ok_0 is None {
        Err(required_placement_message())
    } else if position is Err {
        Err(position->Err_0)
    } else if filiere is Err {
        Err(filiere->Err_0)
    } else if symbole is Err {
        Err(symbole->Err_0)
    } else if circulaire is Err {
        Err(circulaire->Err_0)
    } else if signification is Err {
        Err(signification->Err_0)
    } else if sens is Err {
        Err(sens->Err_0)
    } else if accessory is Err {
        Err(accessory->Err_0)
    } else if spe is Err {
        Err(spe->Err_0)
    } else if absent is Err {
        Err(absent->Err_0)
    } else if blame is Err {
        Err(blame->Err_0)
    } else {
        Ok(LinkItemView {
            id: Some(
                match existing {
                    Some(e) => match e.id {
                        Some(i) => i,
                        None => fresh_id,
                    },
                    None => fresh_id,
                },
            ),
            placement_id: placement->Ok_0->Some_0,
            position_id: position->Ok_0,
            filiere_id: filiere->Ok_0,
            symbole_id: symbole->Ok_0,
            circulaire_id: circulaire->Ok_0,
            signification_id: signification->Ok_0,
            symbole_sens_id: sens->Ok_0,
            symbole_accessory_id: accessory->Ok_0,
            created_at: match existing {
                Some(e) => match e.created_at {
                    Some(c) => Some(c),
                    None => Some(now),
                },
                None => Some(now),
            },
            updated_at: Some(now),
            spe: spe->Ok_0,
            absent: absent->Ok_0,
            blame: blame->Ok_0,
        })
    }
}

/// A built relation with its strings seen as character sequences.
pub open spec fn item_result(r: Result<LinkItem, String>) -> Result<LinkItemView, Seq<char>> {
    match r {
        Ok(item) => Ok(item@),
        Err(e) => Err(e@),
    }
}

/// Builds the relation that an operation's fields describe, at time `now`,
/// giving it `fresh_id` when it has no id yet.
pub fn build_link_item_at(
    fields: &StrMap<FieldValue>,
    tmp_ids: &StrMap<String>,
    existing: Option<&LinkItem>,
    now: String,
    fresh_id: String,
) -> (r: Result<LinkItem, String>)
    ensures
        item_result(r) == spec_build_link_item(fields@, tmp_ids@, opt_item_view(existing), now@, fresh_id@),
{
    let ex_placement = match existing {
        Some(e) => Some(e.placement_id.clone()),
        None => None,
    };
    let placement_id = match resolve_field(fields, tmp_ids, "placementId", ex_placement) {
        Err(e) => return Err(e),
        Ok(None) => return Err("le champ 'placementId' est requis pour une relation".to_string()),
        Ok(Some(p)) => p,
    };
    let position_id = match resolve_field(fields, tmp_ids, "positionId",
        match existing { Some(e) => clone_opt(&e.position_id), None => None }) {
        Err(e) => return Err(e),
        Ok(v) => v,
    };
    let filiere_id = match resolve_field(fields, tmp_ids, "filiereId",
        match existing { Some(e) => clone_opt(&e.filiere_id), None => None }) {
        Err(e) => return Err(e),
        Ok(v) => v,
    };
    let symbole_id = match resolve_field(fields, tmp_ids, "symboleId",
        match existing { Some(e) => clone_opt(&e.symbole_id), None => None }) {
        Err(e) => return Err(e),
        Ok(v) => v,
    };
    let circulaire_id = match resolve_field(fields, tmp_ids, "circulaireId",
        match existing { Some(e) => clone_opt(&e.circulaire_id), None => None }) {
        Err(e) => return Err(e),
        Ok(v) => v,
    };
    let signification_id = match resolve_field(fields, tmp_ids, "significationId",
        match existing { Some(e) => clone_opt(&e.signification_id), None => None }) {
        Err(e) => return Err(e),
        Ok(v) => v,
    };
    let symbole_sens_id = match resolve_field(fields, tmp_ids, "symboleSensId",
        match existing { Some(e) => clone_opt(&e.symbole_sens_id), None => None }) {
        Err(e) => return Err(e),
        Ok(v) => v,
    };
    let symbole_accessory_id = match resolve_field(fields, tmp_ids, "symboleAccessoryId",
        match existing { Some(e) => clone_opt(&e.symbole_accessory_id), None => None }) {
        Err(e) => return Err(e),
        Ok(v) => v,
    };
    let spe = match if field_present(fields, "spe") {
        field_as_optional_bool(fields, "spe")
    } else {
        Ok(match existing { Some(e) => e.spe, None => None })
    } {
        Err(e) => return Err(e),
        Ok(v) => v,
    };
    let absent = match if field_present(fields, "absent") {
        field_as_optional_bool(fields, "absent")
    } else {
        Ok(match existing { Some(e) => e.absent, None => None })
    } {
        Err(e) => return Err(e),
        Ok(v) => v,
    };
    let blame = match if field_present(fields, "blame") {
        field_as_optional_bool(fields, "blame")
    } else {
        Ok(match existing { Some(e) => e.blame, None => None })
    } {
        Err(e) => return Err(e),
        Ok(v) => v,
    };
    let id = match existing {
        Some(e) => match &e.id {
            Some(i) => i.clone(),
            None => fresh_id,
        },
        None => fresh_id,
    };
    let created_at = match existing {
        Some(e) => match &e.created_at {
            Some(c) => Some(c.clone()),
            None => Some(now.clone()),
        },
        None => Some(now.clone()),
    };
    Ok(LinkItem {
        id: Some(id),
        placement_id,
        position_id,
        filiere_id,
        symbole_id,
        circulaire_id,
        signification_id,
        symbole_sens_id,
        symbole_accessory_id,
        created_at,
        updated_at: Some(now),
        spe,
        absent,
        blame,
    })
}

/// Builds the relation that an operation's fields describe, now, with a
/// fresh random id when it needs one.
pub fn build_link_item_from_fields(
    fields: &StrMap<FieldValue>,
    tmp_ids: &StrMap<String>,
    existing: Option<&LinkItem>,
) -> (r: Result<LinkItem, String>)
    ensures
        exists|now: Seq<char>, fresh_id: Seq<char>|
            uuid_form(fresh_id) && item_result(r) == spec_build_link_item(fields@, tmp_ids@, opt_item_view(existing), now, fresh_id),
{
    let now = now_rfc3339();
    let fresh_id = new_uuid();
    let r = build_link_item_at(fields, tmp_ids, existing, now, fresh_id);
    r
}

/// Index of the first relation whose id is `id`, at or after `i`, or -1.
pub open spec fn find_relation_from(rels: Seq<LinkItemView>, id: Seq<char>, i: int) -> int
    decreases rels.len() - i,
{
    if i < 0 || i >= rels.len() {
        -1
    } else if rels[i].id == Some(id) {
        i
    } else {
        find_relation_from(rels, id, i + 1)
    }
}

/// Index of the first relation whose id is `id`, or -1.
pub open spec fn spec_find_relation(rels: Seq<LinkItemView>, id: Seq<char>) -> int {
    find_relation_from(rels, id, 0)
}

proof fn lemma_find_relation_range(rels: Seq<LinkItemView>, id: Seq<char>, i: int)
    requires
        0 <= i,
    ensures
        find_relation_from(rels, id, i) == -1 || (i <= find_relation_from(rels, id, i) < rels.len()
            && rels[find_relation_from(rels, id, i)].id == Some(id)),
    decreases rels.len() - i,
{
    if i < rels.len() && rels[i].id != Some(id) {
        lemma_find_relation_range(rels, id, i + 1);
    }
}

/// Position of the first relation whose id is `id`.
pub fn find_relation(relations: &Vec<LinkItem>, id: &str) -> (r: Option<usize>)
    ensures
        match r {
            Some(i) => i as int == spec_find_relation(relations_view(relations@), id@) && i < relations@.len(),
            None => spec_find_relation(relations_view(relations@), id@) == -1,
        },
{
    let ghost rels = relations_view(relations@);
    let mut i: usize = 0;
    while i < relations.len()
        invariant
            i <= relations@.len(),
            rels == relations_view(relations@),
            find_relation_from(rels, id@, i as int) == spec_find_relation(rels, id@),
        decreases relations@.len() - i,
    {
        let hit = match &relations[i].id {
            Some(rid) => str_eq(rid.as_str(), id),
            None => false,
        };
        assert(rels[i as int] == relations@[i as int]@);
        if hit {
            return Some(i);
        }
        i = i + 1;
    }
    None
}

/// The error for an operation on a relation that the code does not hold.
pub open spec fn missing_relation_message(id: Seq<char>) -> Seq<char> {
    "Relation introuvable: "@ + id
}

/// The effect of a relation operation on the relations of the targeted code:
/// the new relations, the id of the relation acted on, and the relation
/// before and after.
pub open spec fn spec_apply_relation(
    rels: Seq<LinkItemView>,
    op: ImportOperationType,
    op_id: Seq<char>,
    fields: Map<Seq<char>, FieldValue>,
    tmp: Map<Seq<char>, String>,
    now: Seq<char>,
    fresh_id: Seq<char>,
) -> Result<(Seq<LinkItemView>, Seq<char>, Option<LinkItemView>, Option<LinkItemView>), Seq<char>> {
    let pos = spec_find_relation(rels, op_id);
    match op {
        ImportOperationType::Add => match spec_build_link_item(fields, tmp, None, now, fresh_id) {
            Ok(item) => Ok((rels.push(item), match item.id { Some(i) => i, None => Seq::empty() }, None, Some(item))),
            Err(e) => Err(e),
        },
        ImportOperationType::Update => if pos < 0 {
            Err(missing_relation_message(op_id))
        } else {
            match spec_build_link_item(fields, tmp, Some(rels[pos]), now, fresh_id) {
                Ok(item) => Ok((rels.update(pos, item), op_id, Some(rels[pos]), Some(item))),
                Err(e) => Err(e),
            }
        },
        ImportOperationType::Remove => if pos < 0 {
            Err(missing_relation_message(op_id))
        } else {
            Ok((rels.remove(pos), op_id, Some(rels[pos]), None))
        },
    }
}

/// An update of a relation changes only the fields that its payload
/// mentions: every other field, the id and the creation time stay as they
/// were, and the relation keeps its place among the relations of the code.
pub proof fn law_update_keeps_absent_fields(
    rels: Seq<LinkItemView>,
    op_id: Seq<char>,
    fields: Map<Seq<char>, FieldValue>,
    tmp: Map<Seq<char>, String>,
    now: Seq<char>,
    fresh_id: Seq<char>,
)
    requires
        spec_apply_relation(rels, ImportOperationType::Update, op_id, fields, tmp, now, fresh_id) is Ok,
    ensures
        ({
            let t = spec_apply_relation(rels, ImportOperationType::Update, op_id, fields, tmp, now, fresh_id)->Ok_0;
            let before = t.2->Some_0;
            let after = t.3->Some_0;
            let pos = spec_find_relation(rels, op_id);
            &&& t.0 == rels.update(pos, after)
            &&& t.1 == op_id
            &&& (before.id is Some ==> after.id == before.id)
            &&& (before.created_at is Some ==> after.created_at == before.created_at)
            &&& after.updated_at == Some(now)
            &&& (!fields.contains_key("placementId"@) ==> after.placement_id == before.placement_id)
            &&& (!fields.contains_key("positionId"@) ==> after.position_id == before.position_id)
            &&& (!fields.contains_key("filiereId"@) ==> after.filiere_id == before.filiere_id)
            &&& (!fields.contains_key("symboleId"@) ==> after.symbole_id == before.symbole_id)
            &&& (!fields.contains_key("circulaireId"@) ==> after.circulaire_id == before.circulaire_id)
            &&& (!fields.contains_key("significationId"@) ==> after.signification_id == before.signification_id)
            &&& (!fields.contains_key("symboleSensId"@) ==> after.symbole_sens_id == before.symbole_sens_id)
            &&& (!fields.contains_key("symboleAccessoryId"@) ==> after.symbole_accessory_id == before.symbole_accessory_id)
            &&& (!fields.contains_key("spe"@) ==> after.spe == before.spe)
            &&& (!fields.contains_key("absent"@) ==> after.absent == before.absent)
            &&& (!fields.contains_key("blame"@) ==> after.blame == before.blame)
        }),
{
}

/// An added relation gets the fresh id it is given, whatever id its
/// operation carried in the batch.
pub proof fn law_added_relation_gets_the_fresh_id(
    rels: Seq<LinkItemView>,
    op_id: Seq<char>,
    fields: Map<Seq<char>, FieldValue>,
    tmp: Map<Seq<char>, String>,
    now: Seq<char>,
    fresh_id: Seq<char>,
)
    requires
        spec_apply_relation(rels, ImportOperationType::Add, op_id, fields, tmp, now, fresh_id) is Ok,
    ensures
        ({
            let t = spec_apply_relation(rels, ImportOperationType::Add, op_id, fields, tmp, now, fresh_id)->Ok_0;
            &&& t.1 == fresh_id
            &&& t.0 == rels.push(t.3->Some_0)
            &&& t.3->Some_0.id == Some(fresh_id)
            &&& t.2 is None
        }),
{
}

/// What a relation operation returns, with strings seen as characters.
pub open spec fn relation_outcome(r: Result<(String, Option<LinkItem>, Option<LinkItem>), String>) -> Result<(Seq<char>, Option<LinkItemView>, Option<LinkItemView>), Seq<char>> {
    match r {
        Ok(t) => Ok((t.0@, match t.1 { Some(i) => Some(i@), None => None }, match t.2 { Some(i) => Some(i@), None => None })),
        Err(e) => Err(e@),
    }
}

/// `a` and `b` are the same code but maybe for their relations.
pub open spec fn same_but_relations(a: LinkDetail, b: LinkDetail) -> bool {
    &&& a.name == b.name
    &&& a.id == b.id
    &&& a.specificites == b.specificites
    &&& a.annee == b.annee
    &&& a.last_update == b.last_update
    &&& a.created_at == b.created_at
    &&& a.default == b.default
    &&& a.visible == b.visible
    &&& a.editable == b.editable
    &&& a.national == b.national
    &&& a.ville == b.ville
}

/// Applies one relation operation of a batch to the targeted code, in
/// memory, at time `now`, giving `fresh_id` to an added relation.
pub fn apply_relation_operation_at(
    link: &mut LinkDetail,
    op: &ImportOperation,
    tmp_ids: &StrMap<String>,
    now: String,
    fresh_id: String,
) -> (r: Result<(String, Option<LinkItem>, Option<LinkItem>), String>)
    ensures
        same_but_relations(*final(link), *old(link)),
        match spec_apply_relation(relations_view(old(link).relations@), op.op, op.id@, op.fields@, tmp_ids@, now@, fresh_id@) {
            Ok(t) => relation_outcome(r) == Ok::<_, Seq<char>>((t.1, t.2, t.3)) && relations_view(final(link).relations@) == t.0,
            Err(e) => relation_outcome(r) == Err::<(Seq<char>, Option<LinkItemView>, Option<LinkItemView>), Seq<char>>(e) && final(link).relations@ == old(link).relations@,
        },
{
    let ghost rels = relations_view(link.relations@);
    match op.op {
        ImportOperationType::Add => {
            match build_link_item_at(&op.fields, tmp_ids, None, now, fresh_id) {
                Err(e) => Err(e),
                Ok(item) => {
                    let resolved_id = match &item.id {
                        Some(i) => i.clone(),
                        None => String::new(),
                    };
                    let after = item.copy();
                    link.relations.push(item);
                    assert(relations_view(link.relations@) =~= rels.push(after@));
                    Ok((resolved_id, None, Some(after)))
                },
            }
        },
        ImportOperationType::Update => {
            match find_relation(&link.relations, op.id.as_str()) {
                None => Err(concat("Relation introuvable: ", op.id.as_str())),
                Some(pos) => {
                    assert(rels[pos as int] == link.relations@[pos as int]@);
                    let before = link.relations[pos].copy();
                    match build_link_item_at(&op.fields, tmp_ids, Some(&before), now, fresh_id) {
                        Err(e) => Err(e),
                        Ok(updated) => {
                            let after = updated.copy();
                            link.relations.set(pos, updated);
                            assert(relations_view(link.relations@) =~= rels.update(pos as int, after@));
                            Ok((op.id.clone(), Some(before), Some(after)))
                        },
                    }
                },
            }
        },
        ImportOperationType::Remove => {
            match find_relation(&link.relations, op.id.as_str()) {
                None => Err(concat("Relation introuvable: ", op.id.as_str())),
                Some(pos) => {
                    assert(rels[pos as int] == link.relations@[pos as int]@);
                    let before = link.relations.remove(pos);
                    assert(relations_view(link.relations@) =~= rels.remove(pos as int));
                    Ok((op.id.clone(), Some(before), None))
                },
            }
        },
    }
}

/// Applies one relation operation of a batch to the targeted code, in
/// memory, now, with a fresh random id for an added relation.
pub fn apply_relation_operation(
    link: &mut LinkDetail,
    op: &ImportOperation,
    tmp_ids: &StrMap<String>,
) -> (r: Result<(String, Option<LinkItem>, Option<LinkItem>), String>)
    ensures
        same_but_relations(*final(link), *old(link)),
        exists|now: Seq<char>, fresh_id: Seq<char>|
            uuid_form(fresh_id) && match #[trigger] spec_apply_relation(relations_view(old(link).relations@), op.op, op.id@, op.fields@, tmp_ids@, now, fresh_id) {
                Ok(t) => relation_outcome(r) == Ok::<_, Seq<char>>((t.1, t.2, t.3)) && relations_view(final(link).relations@) == t.0,
                Err(e) => relation_outcome(r) == Err::<(Seq<char>, Option<LinkItemView>, Option<LinkItemView>), Seq<char>>(e) && final(link).relations@ == old(link).relations@,
            },
        op.op == ImportOperationType::Add ==> (r matches Ok(t) ==> !(t.0@.len() >= 4 && t.0@[3] == ':')),
{
    let now = now_rfc3339();
    let fresh_id = new_uuid();
    let r = apply_relation_operation_at(link, op, tmp_ids, now, fresh_id);
    proof {
        if r is Ok && op.op == ImportOperationType::Add {
            law_added_relation_gets_the_fresh_id(relations_view(old(link).relations@), op.id@, op.fields@, tmp_ids@, now@, fresh_id@);
            lemma_uuid_is_not_temporary(fresh_id@);
        }
    }
    r
}

/// What one relation operation of a batch gave: the index of the operation
/// in the batch, the id of the relation, and the relation before and after.
#[derive(Debug, Clone)]
pub struct RelationStep {
    pub index: usize,
    pub resolved_id: String,
    pub before: Option<LinkItem>,
    pub after: Option<LinkItem>,
}

/// A relation step, with its strings seen as character sequences.
pub open spec fn step_view(s: RelationStep) -> (int, Seq<char>, Option<LinkItemView>, Option<LinkItemView>) {
    (
        s.index as int,
        s.resolved_id@,
        match s.before { Some(i) => Some(i@), None => None },
        match s.after { Some(i) => Some(i@), None => None },
    )
}

/// The view of each step.
pub open spec fn steps_view(v: Seq<RelationStep>) -> Seq<(int, Seq<char>, Option<LinkItemView>, Option<LinkItemView>)> {
    v.map_values(|s: RelationStep| step_view(s))
}

/// The time and the fresh id given to each operation, as character sequences.
pub open spec fn stamps_view(v: Seq<(String, String)>) -> Seq<(Seq<char>, Seq<char>)> {
    v.map_values(|p: (String, String)| (p.0@, p.1@))
}

/// The relation operations of `ops` applied in order to the relations
/// `rels`, the other operations skipped, the operation at index `i` stamped
/// with `stamps[i]`: the relations reached, the steps taken, and the error
/// that stopped the run, if one did (the relations are then those reached
/// before the failing operation).
pub open spec fn spec_relations_fold(
    rels: Seq<LinkItemView>,
    ops: Seq<ImportOperation>,
    tmp: Map<Seq<char>, String>,
    stamps: Seq<(Seq<char>, Seq<char>)>,
) -> (Seq<LinkItemView>, Seq<(int, Seq<char>, Option<LinkItemView>, Option<LinkItemView>)>, Option<Seq<char>>)
    decreases ops.len(),
{
    if ops.len() == 0 {
        (rels, Seq::empty(), None)
    } else {
        let prev = spec_relations_fold(rels, ops.drop_last(), tmp, stamps);
        let n = ops.len() - 1;
        let op = ops[n];
        if prev.2 is Some || op.entity != ImportEntityType::Relation {
            prev
        } else {
            match spec_apply_relation(prev.0, op.op, op.id@, op.fields@, tmp, stamps[n].0, stamps[n].1) {
                Ok(t) => (t.0, prev.1.push((n, t.1, t.2, t.3)), None),
                Err(e) => (prev.0, prev.1, Some(e)),
            }
        }
    }
}

/// Once a run stopped on an error, longer batches stop there too.
pub proof fn lemma_relations_fold_stops(
    rels: Seq<LinkItemView>,
    ops: Seq<ImportOperation>,
    tmp: Map<Seq<char>, String>,
    stamps: Seq<(Seq<char>, Seq<char>)>,
    j: int,
    k: int,
)
    requires
        0 <= j <= k <= ops.len(),
        spec_relations_fold(rels, ops.take(j), tmp, stamps).2 is Some,
    ensures
        spec_relations_fold(rels, ops.take(k), tmp, stamps) == spec_relations_fold(rels, ops.take(j), tmp, stamps),
    decreases k - j,
{
    if k > j {
        lemma_relations_fold_stops(rels, ops, tmp, stamps, j, k - 1);
        assert(ops.take(k).drop_last() =~= ops.take(k - 1));
    }
}

/// `rels` and `r` are the relations reached and the answer of the run `f`.
pub open spec fn relations_fold_outcome(
    f: (Seq<LinkItemView>, Seq<(int, Seq<char>, Option<LinkItemView>, Option<LinkItemView>)>, Option<Seq<char>>),
    rels: Seq<LinkItemView>,
    r: Result<Vec<RelationStep>, String>,
) -> bool {
    &&& rels == f.0
    &&& match f.2 {
        None => r matches Ok(v) && steps_view(v@) == f.1,
        Some(e) => r matches Err(x) && x@ == e,
    }
}

/// Applies, in order, the relation operations of a batch to the targeted
/// code, in memory, skipping the others; the operation at index `i` is
/// stamped with the time and the fresh id `stamps[i]`. The run stops at the
/// first operation that fails, and its error is answered.
pub fn apply_relation_operations_at(
    link: &mut LinkDetail,
    ops: &Vec<ImportOperation>,
    tmp_ids: &StrMap<String>,
    stamps: &Vec<(String, String)>,
) -> (r: Result<Vec<RelationStep>, String>)
    requires
        stamps@.len() == ops@.len(),
    ensures
        same_but_relations(*final(link), *old(link)),
        relations_view(final(link).relations@)
            == spec_relations_fold(relations_view(old(link).relations@), ops@, tmp_ids@, stamps_view(stamps@)).0,
        match spec_relations_fold(relations_view(old(link).relations@), ops@, tmp_ids@, stamps_view(stamps@)).2 {
            None => r matches Ok(v) && steps_view(v@)
                == spec_relations_fold(relations_view(old(link).relations@), ops@, tmp_ids@, stamps_view(stamps@)).1,
            Some(e) => r matches Err(x) && x@ == e,
        },
{
    let ghost rels0 = relations_view(link.relations@);
    let ghost link0 = *link;
    let ghost st = stamps_view(stamps@);
    let mut steps: Vec<RelationStep> = Vec::new();
    let mut i: usize = 0;
    assert(ops@.take(0) =~= Seq::<ImportOperation>::empty());
    while i < ops.len()
        invariant
            i <= ops@.len(),
            stamps@.len() == ops@.len(),
            st == stamps_view(stamps@),
            same_but_relations(*link, link0),
            link0 == *old(link),
            rels0 == relations_view(link0.relations@),
            spec_relations_fold(rels0, ops@.take(i as int), tmp_ids@, st).2 is None,
            relations_view(link.relations@) == spec_relations_fold(rels0, ops@.take(i as int), tmp_ids@, st).0,
            steps_view(steps@) == spec_relations_fold(rels0, ops@.take(i as int), tmp_ids@, st).1,
        decreases ops@.len() - i,
    {
        assert(ops@.take(i + 1).drop_last() =~= ops@.take(i as int));
        assert(ops@.take(i + 1)[i as int] == ops@[i as int]);
        if ops[i].entity == ImportEntityType::Relation {
            let now = stamps[i].0.clone();
            let fresh_id = stamps[i].1.clone();
            assert(st[i as int] == (now@, fresh_id@));
            match apply_relation_operation_at(link, &ops[i], tmp_ids, now, fresh_id) {
                Ok(t) => {
                    let (resolved_id, before, after) = t;
                    let step = RelationStep { index: i, resolved_id, before, after };
                    steps.push(step);
                    assert(steps_view(steps@) =~= spec_relations_fold(rels0, ops@.take(i + 1), tmp_ids@, st).1);
                },
                Err(e) => {
                    proof {
                        assert(spec_relations_fold(rels0, ops@.take(i + 1), tmp_ids@, st).2 == Some(e@));
                        lemma_relations_fold_stops(rels0, ops@, tmp_ids@, st, i + 1, ops@.len() as int);
                        assert(ops@.take(ops@.len() as int) =~= ops@);
                    }
                    return Err(e);
                },
            }
        }
        i = i + 1;
    }
    assert(ops@.take(ops@.len() as int) =~= ops@);
    Ok(steps)
}

/// Applies, in order, the relation operations of a batch to the targeted
/// code, in memory, now, each added relation under a fresh random id.
pub fn apply_relation_operations(
    link: &mut LinkDetail,
    ops: &Vec<ImportOperation>,
    tmp_ids: &StrMap<String>,
) -> (r: Result<Vec<RelationStep>, String>)
    ensures
        same_but_relations(*final(link), *old(link)),
        (exists|stamps: Seq<(Seq<char>, Seq<char>)>|
            stamps.len() == ops@.len() && (forall|i: int| 0 <= i < stamps.len() ==> uuid_form(#[trigger] stamps[i].1))
            && #[trigger] relations_fold_outcome(
                spec_relations_fold(relations_view(old(link).relations@), ops@, tmp_ids@, stamps),
                relations_view(final(link).relations@),
                r,
            )),
{
    let mut stamps: Vec<(String, String)> = Vec::new();
    let mut i: usize = 0;
    while i < ops.len()
        invariant
            i <= ops@.len(),
            stamps@.len() == i,
            forall|j: int| 0 <= j < i ==> uuid_form(#[trigger] stamps@[j].1@),
        decreases ops@.len() - i,
    {
        stamps.push((now_rfc3339(), new_uuid()));
        i = i + 1;
    }
    assert(forall|j: int| 0 <= j < stamps@.len() ==> #[trigger] stamps_view(stamps@)[j].1 == stamps@[j].1@);
    let r = apply_relation_operations_at(link, ops, tmp_ids, &stamps);
    assert(relations_fold_outcome(
        spec_relations_fold(relations_view(old(link).relations@), ops@, tmp_ids@, stamps_view(stamps@)),
        relations_view(link.relations@),
        r,
    ));
    r
}

/// How `Debug` writes an entity type.
pub open spec fn spec_entity_name(e: ImportEntityType) -> Seq<char> {
    match e {
        ImportEntityType::Circulaire => "Circulaire"@,
        ImportEntityType::Color => "Color"@,
        ImportEntityType::Filiere => "Filiere"@,
        ImportEntityType::Placement => "Placement"@,
        ImportEntityType::Position => "Position"@,
        ImportEntityType::Symbole => "Symbole"@,
        ImportEntityType::Signification => "Signification"@,
        ImportEntityType::SymboleSens => "SymboleSens"@,
        ImportEntityType::SymboleAccessoire => "SymboleAccessoire"@,
        ImportEntityType::Relation => "Relation"@,
    }
}

/// The name of an entity type, as `Debug` writes it.
pub fn entity_name(e: ImportEntityType) -> (r: &'static str)
    ensures
        r@ == spec_entity_name(e),
{
    match e {
        ImportEntityType::Circulaire => "Circulaire",
        ImportEntityType::Color => "Color",
        ImportEntityType::Filiere => "Filiere",
        ImportEntityType::Placement => "Placement",
        ImportEntityType::Position => "Position",
        ImportEntityType::Symbole => "Symbole",
        ImportEntityType::Signification => "Signification",
        ImportEntityType::SymboleSens => "SymboleSens",
        ImportEntityType::SymboleAccessoire => "SymboleAccessoire",
        ImportEntityType::Relation => "Relation",
    }
}

/// Index of the first operation still marked uncertain, at or after `i`, or -1.
pub open spec fn first_incertain_from(ops: Seq<ImportOperation>, i: int) -> int
    decreases ops.len() - i,
{
    if i < 0 || i >= ops.len() {
        -1
    } else if ops[i].incertain {
        i
    } else {
        first_incertain_from(ops, i + 1)
    }
}

/// The refusal of a batch that still holds an uncertain operation.
pub open spec fn incertain_message(entity: ImportEntityType, id: Seq<char>) -> Seq<char> {
    "Import refusé : une opération sur "@ + spec_entity_name(entity) + " (id "@ + id
        + ") est encore marquée incertaine"@
}

/// The refusal of a batch that names both an existing and a new code.
pub open spec fn both_targets_message() -> Seq<char> {
    "linkId et newLink ne peuvent pas être fournis en même temps"@
}

/// The refusal of a batch with relation operations and no code to apply them to.
pub open spec fn no_target_message() -> Seq<char> {
    "Un code cible (existant via linkId, ou nouveau via newLink) est requis pour appliquer des opérations de relation"@
}

/// Whether some operation of the batch acts on a relation.
pub open spec fn has_relation_ops(ops: Seq<ImportOperation>) -> bool {
    exists|i: int| 0 <= i < ops.len() && #[trigger] ops[i].entity == ImportEntityType::Relation
}

/// Why a batch is refused before anything is applied, if it is.
pub open spec fn spec_check_batch(req: ImportBatchRequest) -> Option<Seq<char>> {
    let ops = req.operations@;
    let i = first_incertain_from(ops, 0);
    if i >= 0 {
        Some(incertain_message(ops[i].entity, ops[i].id@))
    } else if req.link_id is Some && req.new_link is Some {
        Some(both_targets_message())
    } else if has_relation_ops(ops) && req.link_id is None && req.new_link is None {
        Some(no_target_message())
    } else {
        None
    }
}

/// The checks made on a batch before anything of it is applied: no operation
/// may still be uncertain, the batch names at most one target code, and it
/// names one when it holds relation operations.
pub fn check_batch(req: &ImportBatchRequest) -> (r: Result<(), String>)
    ensures
        match spec_check_batch(*req) {
            Some(m) => r matches Err(e) && e@ == m,
            None => r is Ok,
        },
{
    let ghost ops = req.operations@;
    let mut i: usize = 0;
    while i < req.operations.len()
        invariant
            ops == req.operations@,
            i <= ops.len(),
            first_incertain_from(ops, i as int) == first_incertain_from(ops, 0),
        decreases ops.len() - i,
    {
        if req.operations[i].incertain {
            let op = &req.operations[i];
            let a = concat3("Import refusé : une opération sur ", entity_name(op.entity), " (id ");
            let b = concat3(a.as_str(), op.id.as_str(), ") est encore marquée incertaine");
            return Err(b);
        }
        i = i + 1;
    }
    if req.link_id.is_some() && req.new_link.is_some() {
        return Err("linkId et newLink ne peuvent pas être fournis en même temps".to_string());
    }
    let mut has_relation = false;
    let mut j: usize = 0;
    while j < req.operations.len()
        invariant
            ops == req.operations@,
            j <= ops.len(),
            has_relation == exists|k: int| 0 <= k < j && #[trigger] ops[k].entity == ImportEntityType::Relation,
        decreases ops.len() - j,
    {
        if req.operations[j].entity == ImportEntityType::Relation {
            has_relation = true;
        }
        j = j + 1;
    }
    if has_relation && req.link_id.is_none() && req.new_link.is_none() {
        return Err(
            "Un code cible (existant via linkId, ou nouveau via newLink) est requis pour appliquer des opérations de relation".to_string(),
        );
    }
    Ok(())
}

/// An operation adds a shared referential under a temporary id.
pub open spec fn adds_under_tmp_id(op: ImportOperation) -> bool {
    op.op == ImportOperationType::Add && op.entity != ImportEntityType::Relation && has_prefix(
        op.id@,
        tmp_prefix(),
    )
}

/// Gives each temporary id under which the batch adds a shared referential a
/// fresh real id, whatever the order of the operations. Relations are left
/// out: no other operation refers to their temporary id.
pub fn collect_tmp_ids(ops: &Vec<ImportOperation>) -> (r: StrMap<String>)
    ensures
        forall|k: Seq<char>| r@.contains_key(k) <==> exists|i: int| 0 <= i < ops@.len()
            && adds_under_tmp_id(#[trigger] ops@[i]) && ops@[i].id@ == k,
        forall|k: Seq<char>| r@.contains_key(k) ==> uuid_form(#[trigger] r@[k]@),
{
    proof {
        reveal_strlit("tmp:");
    }
    let mut tmp: StrMap<String> = StrMap::new();
    let mut i: usize = 0;
    while i < ops.len()
        invariant
            i <= ops@.len(),
            forall|k: Seq<char>| tmp@.contains_key(k) <==> exists|j: int| 0 <= j < i
                && adds_under_tmp_id(#[trigger] ops@[j]) && ops@[j].id@ == k,
            forall|k: Seq<char>| tmp@.contains_key(k) ==> uuid_form(#[trigger] tmp@[k]@),
        decreases ops@.len() - i,
    {
        let op = &ops[i];
        if op.op == ImportOperationType::Add && op.entity != ImportEntityType::Relation
            && starts_with(op.id.as_str(), "tmp:") {
            tmp.insert(op.id.clone(), new_uuid());
        }
        proof {
            assert forall|k: Seq<char>| tmp@.contains_key(k) <==> exists|j: int| 0 <= j < i + 1
                && adds_under_tmp_id(#[trigger] ops@[j]) && ops@[j].id@ == k by {
                if tmp@.contains_key(k) && k != ops@[i as int].id@ {
                    let j = choose|j: int| 0 <= j < i && adds_under_tmp_id(#[trigger] ops@[j]) && ops@[j].id@ == k;
                }
            }
        }
        i = i + 1;
    }
    tmp
}

/// Every temporary id that the batch adds resolves once collected.
pub proof fn lemma_collected_tmp_ids_resolve(ops: Seq<ImportOperation>, tmp: Map<Seq<char>, String>, i: int)
    requires
        forall|k: Seq<char>| tmp.contains_key(k) <==> exists|j: int| 0 <= j < ops.len()
            && adds_under_tmp_id(#[trigger] ops[j]) && ops[j].id@ == k,
        0 <= i < ops.len(),
        adds_under_tmp_id(ops[i]),
    ensures
        spec_resolve_id(ops[i].id@, tmp) == Ok::<Seq<char>, Seq<char>>(tmp[ops[i].id@]@),
{
}

/// The fields of a shared referential, once read from an operation.
#[derive(Debug, Clone)]
pub struct EntityFields {
    pub name: Option<String>,
    pub matiere: Option<String>,
    pub color_data: Option<String>,
    pub content: Option<String>,
}

/// Whether the fields of an entity type include `key`.
pub open spec fn reads_key(e: ImportEntityType, key: Seq<char>) -> bool {
    match e {
        ImportEntityType::Circulaire => key == "matiere"@ || key == "name"@,
        ImportEntityType::Color => key == "name"@ || key == "colorData"@,
        ImportEntityType::Signification => key == "content"@,
        ImportEntityType::Relation => false,
        _ => key == "name"@,
    }
}

/// What reading a JSON value as an optional string gives with serde: the
/// string, none for `null`, or serde's message for a value of another type.
pub uninterp spec fn serde_optional_string(json: Seq<char>) -> Result<Option<Seq<char>>, Seq<char>>;

/// Reads the JSON text `json` as an optional string.
///
/// Trusted: parses the text with `serde_json::from_str` into a
/// `serde_json::Value`, then reads it with `serde_json::from_value` as an
/// `Option<String>`; an error is returned as its message. The result is a
/// function of the text, named `serde_optional_string`.
#[verifier::external_body]
fn json_as_optional_string(json: &str) -> (r: Result<Option<String>, String>)
    ensures
        opt_string_result(r) == serde_optional_string(json@),
{
    serde_json::from_str::<serde_json::Value>(json)
        .and_then(serde_json::from_value::<Option<String>>)
        .map_err(|e| e.to_string())
}

/// A field value read as an optional string, as serde reads it: a string,
/// none for `null`, and for any other value what serde makes of its JSON
/// text.
pub open spec fn serde_field_read(v: FieldValueView) -> Result<Option<Seq<char>>, Seq<char>> {
    match v {
        FieldValueView::Null => Ok(None),
        FieldValueView::Text(s) => Ok(Some(s)),
        FieldValueView::Bool(b) => serde_optional_string(if b { "true"@ } else { "false"@ }),
        FieldValueView::Other(j) => serde_optional_string(j),
    }
}

/// A field of an entity type read from an operation: a field that the type
/// does not have, or that is absent, is none.
pub open spec fn field_read(e: ImportEntityType, fields: Map<Seq<char>, FieldValue>, key: Seq<char>) -> Result<Option<Seq<char>>, Seq<char>> {
    if reads_key(e, key) && fields.contains_key(key) {
        serde_field_read(fields[key]@)
    } else {
        Ok(None)
    }
}

/// The refusal of the fields of an operation.
pub open spec fn invalid_fields_message(e: ImportEntityType, id: Seq<char>, detail: Seq<char>) -> Seq<char> {
    "Champs invalides pour "@ + spec_entity_name(e) + " "@ + id + ": "@ + detail
}

/// Every field that an entity type reads from the operation can be read.
pub open spec fn fields_readable(e: ImportEntityType, fields: Map<Seq<char>, FieldValue>) -> bool {
    forall|k: Seq<char>| #[trigger] field_read(e, fields, k) is Ok
}

/// The fields seen as optional character sequences.
pub open spec fn entity_fields_view(f: EntityFields) -> (Option<Seq<char>>, Option<Seq<char>>, Option<Seq<char>>, Option<Seq<char>>) {
    (f.name.deep_view(), f.matiere.deep_view(), f.color_data.deep_view(), f.content.deep_view())
}

/// One field of an entity type read from an operation.
fn read_field(e: ImportEntityType, fields: &StrMap<FieldValue>, key: &str, id: &str) -> (r: Result<Option<String>, String>)
    ensures
        match field_read(e, fields@, key@) {
            Ok(v) => r matches Ok(x) && x.deep_view() == v,
            Err(m) => r matches Err(x) && x@ == invalid_fields_message(e, id@, m),
        },
{
    let wanted = match e {
        ImportEntityType::Circulaire => str_eq(key, "matiere") || str_eq(key, "name"),
        ImportEntityType::Color => str_eq(key, "name") || str_eq(key, "colorData"),
        ImportEntityType::Signification => str_eq(key, "content"),
        ImportEntityType::Relation => false,
        _ => str_eq(key, "name"),
    };
    if !wanted {
        return Ok(None);
    }
    let read = match fields.get(key) {
        None => Ok(None),
        Some(FieldValue::Null) => Ok(None),
        Some(FieldValue::Text(t)) => Ok(Some(t.clone())),
        Some(FieldValue::Bool(b)) => json_as_optional_string(if *b { "true" } else { "false" }),
        Some(FieldValue::Other(j)) => json_as_optional_string(j.as_str()),
    };
    match read {
        Ok(v) => Ok(v),
        Err(m) => {
            let a = concat3("Champs invalides pour ", entity_name(e), " ");
            let b = concat3(a.as_str(), id, ": ");
            Err(concat(b.as_str(), m.as_str()))
        },
    }
}

/// Reads the fields of a shared referential from an operation on it, as
/// serde reads them into the fields of that type: `name`, `matiere`,
/// `colorData` and `content`, as far as the type has them, each a string or
/// `null`; the others are ignored. A field that cannot be read refuses them
/// all, with serde's message (the first such field in the operation's order).
pub fn read_entity_fields(e: ImportEntityType, fields: &StrMap<FieldValue>, id: &str) -> (r: Result<EntityFields, String>)
    ensures
        r is Ok <==> fields_readable(e, fields@),
        r matches Ok(f) ==> entity_fields_view(f) == (
            field_read(e, fields@, "name"@)->Ok_0,
            field_read(e, fields@, "matiere"@)->Ok_0,
            field_read(e, fields@, "colorData"@)->Ok_0,
            field_read(e, fields@, "content"@)->Ok_0,
        ),
        r matches Err(m) ==> exists|k: Seq<char>| #[trigger] field_read(e, fields@, k) matches Err(x)
            && m@ == invalid_fields_message(e, id@, x),
{
    let keys = fields.keys();
    let mut i: usize = 0;
    while i < keys.len()
        invariant
            i <= keys@.len(),
            forall|k: Seq<char>| fields@.contains_key(k) <==> exists|j: int| 0 <= j < keys@.len() && #[trigger] keys@[j]@ == k,
            forall|j: int| 0 <= j < i ==> #[trigger] field_read(e, fields@, keys@[j]@) is Ok,
        decreases keys@.len() - i,
    {
        match read_field(e, fields, keys[i].as_str(), id) {
            Err(m) => return Err(m),
            Ok(_) => {},
        }
        i = i + 1;
    }
    proof {
        assert forall|k: Seq<char>| #[trigger] field_read(e, fields@, k) is Ok by {
            if fields@.contains_key(k) {
                let j = choose|j: int| 0 <= j < keys@.len() && #[trigger] keys@[j]@ == k;
                assert(field_read(e, fields@, keys@[j]@) is Ok);
            }
        }
    }
    let name = match read_field(e, fields, "name", id) {
        Ok(v) => v,
        Err(m) => return Err(m),
    };
    let matiere = match read_field(e, fields, "matiere", id) {
        Ok(v) => v,
        Err(m) => return Err(m),
    };
    let color_data = match read_field(e, fields, "colorData", id) {
        Ok(v) => v,
        Err(m) => return Err(m),
    };
    let content = match read_field(e, fields, "content", id) {
        Ok(v) => v,
        Err(m) => return Err(m),
    };
    Ok(EntityFields { name, matiere, color_data, content })
}

/// The collection that holds an entity type; relations live inside codes.
pub open spec fn spec_collection_name(e: ImportEntityType) -> Option<Seq<char>> {
    match e {
        ImportEntityType::Circulaire => Some("circulaires"@),
        ImportEntityType::Color => Some("colors"@),
        ImportEntityType::Filiere => Some("filieres"@),
        ImportEntityType::Placement => Some("placements"@),
        ImportEntityType::Position => Some("positions"@),
        ImportEntityType::Symbole => Some("symboles"@),
        ImportEntityType::Signification => Some("significations"@),
        ImportEntityType::SymboleSens => Some("symboles-sens"@),
        ImportEntityType::SymboleAccessoire => Some("symboles-accessories"@),
        ImportEntityType::Relation => None,
    }
}

/// The collection that holds an entity type.
pub fn collection_name(e: ImportEntityType) -> (r: Option<&'static str>)
    ensures
        match r {
            Some(n) => spec_collection_name(e) == Some(n@),
            None => spec_collection_name(e) is None,
        },
{
    match e {
        ImportEntityType::Circulaire => Some("circulaires"),
        ImportEntityType::Color => Some("colors"),
        ImportEntityType::Filiere => Some("filieres"),
        ImportEntityType::Placement => Some("placements"),
        ImportEntityType::Position => Some("positions"),
        ImportEntityType::Symbole => Some("symboles"),
        ImportEntityType::Signification => Some("significations"),
        ImportEntityType::SymboleSens => Some("symboles-sens"),
        ImportEntityType::SymboleAccessoire => Some("symboles-accessories"),
        ImportEntityType::Relation => None,
    }
}

/// The field of a relation that refers to an entity type. Colors are tied to
/// circulars elsewhere and relations are no referential: neither has one.
pub open spec fn spec_reference_field(e: ImportEntityType) -> Option<Seq<char>> {
    match e {
        ImportEntityType::Filiere => Some("filiereId"@),
        ImportEntityType::Symbole => Some("symboleId"@),
        ImportEntityType::Placement => Some("placementId"@),
        ImportEntityType::Position => Some("positionId"@),
        ImportEntityType::Circulaire => Some("circulaireId"@),
        ImportEntityType::Signification => Some("significationId"@),
        ImportEntityType::SymboleSens => Some("symboleSensId"@),
        ImportEntityType::SymboleAccessoire => Some("symboleAccessoryId"@),
        ImportEntityType::Color | ImportEntityType::Relation => None,
    }
}

/// The field of a relation that refers to an entity type, which a removal
/// checks before deleting the referential.
pub fn reference_field(e: ImportEntityType) -> (r: Option<&'static str>)
    ensures
        match r {
            Some(n) => spec_reference_field(e) == Some(n@),
            None => spec_reference_field(e) is None,
        },
{
    match e {
        ImportEntityType::Filiere => Some("filiereId"),
        ImportEntityType::Symbole => Some("symboleId"),
        ImportEntityType::Placement => Some("placementId"),
        ImportEntityType::Position => Some("positionId"),
        ImportEntityType::Circulaire => Some("circulaireId"),
        ImportEntityType::Signification => Some("significationId"),
        ImportEntityType::SymboleSens => Some("symboleSensId"),
        ImportEntityType::SymboleAccessoire => Some("symboleAccessoryId"),
        ImportEntityType::Color | ImportEntityType::Relation => None,
    }
}

/// The refusal to remove a referential that codes still use.
pub open spec fn still_referenced_message(e: ImportEntityType, id: Seq<char>, count: u64) -> Seq<char> {
    "Impossible de supprimer ce "@ + spec_entity_name(e) + " ("@ + id + ") : encore référencé par "@
        + decimal(count as nat) + " fiche(s)"@
}

/// Whether a referential may be removed, given how many codes still use it.
pub fn check_not_referenced(e: ImportEntityType, id: &str, count: u64) -> (r: Result<(), String>)
    ensures
        count > 0 ==> (r matches Err(m) && m@ == still_referenced_message(e, id@, count)),
        count == 0 ==> r is Ok,
{
    if count > 0 {
        let a = concat3("Impossible de supprimer ce ", entity_name(e), " (");
        let b = concat3(a.as_str(), id, ") : encore référencé par ");
        let n = u64_to_string(count);
        Err(concat3(b.as_str(), n.as_str(), " fiche(s)"))
    } else {
        Ok(())
    }
}

/// The error for a required field missing from an added referential.
pub open spec fn required_field_message(key: Seq<char>) -> Seq<char> {
    "le champ '"@ + key + "' est requis"@
}

/// A document: its keys and string values, in order.
pub open spec fn doc_view(d: Seq<(String, String)>) -> Seq<(Seq<char>, Seq<char>)> {
    d.map_values(|p: (String, String)| (p.0@, p.1@))
}

/// A document with its strings seen as characters.
pub open spec fn doc_result(r: Result<Vec<(String, String)>, String>) -> Result<Seq<(Seq<char>, Seq<char>)>, Seq<char>> {
    match r {
        Ok(d) => Ok(doc_view(d@)),
        Err(e) => Err(e@),
    }
}

/// The document that adds a referential under `id`, or the field it lacks.
pub open spec fn spec_insert_document(e: ImportEntityType, f: EntityFields, id: Seq<char>) -> Result<Seq<(Seq<char>, Seq<char>)>, Seq<char>> {
    match e {
        ImportEntityType::Circulaire => if f.matiere is None {
            Err(required_field_message("matiere"@))
        } else if f.name is None {
            Err(required_field_message("name"@))
        } else {
            Ok(seq![("_id"@, id), ("matiere"@, f.matiere->Some_0@), ("name"@, f.name->Some_0@)])
        },
        ImportEntityType::Color => if f.name is None {
            Err(required_field_message("name"@))
        } else if f.color_data is None {
            Err(required_field_message("colorData"@))
        } else {
            Ok(seq![("_id"@, id), ("name"@, f.name->Some_0@), ("colorData"@, f.color_data->Some_0@)])
        },
        ImportEntityType::Signification => if f.content is None {
            Err(required_field_message("content"@))
        } else {
            Ok(seq![("_id"@, id), ("content"@, f.content->Some_0@)])
        },
        _ => if f.name is None {
            Err(required_field_message("name"@))
        } else {
            Ok(seq![("_id"@, id), ("name"@, f.name->Some_0@)])
        },
    }
}

fn required(v: &Option<String>, key: &str) -> (r: Result<String, String>)
    ensures
        match v {
            Some(s) => r matches Ok(t) && t@ == s@,
            None => r matches Err(m) && m@ == required_field_message(key@),
        },
{
    match v {
        Some(s) => Ok(s.clone()),
        None => Err(concat3("le champ '", key, "' est requis")),
    }
}

fn pair(k: &str, v: String) -> (r: (String, String))
    ensures
        r.0@ == k@,
        r.1@ == v@,
{
    (k.to_string(), v)
}

/// The document that adds a referential under `id`. Relations are added to
/// their code, not as documents.
pub fn insert_document(e: ImportEntityType, f: &EntityFields, id: &str) -> (r: Result<Vec<(String, String)>, String>)
    requires
        e != ImportEntityType::Relation,
    ensures
        doc_result(r) == spec_insert_document(e, *f, id@),
{
    let mut d: Vec<(String, String)> = Vec::new();
    d.push(pair("_id", id.to_string()));
    match e {
        ImportEntityType::Circulaire => {
            let m = match required(&f.matiere, "matiere") {
                Ok(m) => m,
                Err(err) => return Err(err),
            };
            let n = match required(&f.name, "name") {
                Ok(n) => n,
                Err(err) => return Err(err),
            };
            d.push(pair("matiere", m));
            d.push(pair("name", n));
        },
        ImportEntityType::Color => {
            let n = match required(&f.name, "name") {
                Ok(n) => n,
                Err(err) => return Err(err),
            };
            let c = match required(&f.color_data, "colorData") {
                Ok(c) => c,
                Err(err) => return Err(err),
            };
            d.push(pair("name", n));
            d.push(pair("colorData", c));
        },
        ImportEntityType::Signification => {
            let c = match required(&f.content, "content") {
                Ok(c) => c,
                Err(err) => return Err(err),
            };
            d.push(pair("content", c));
        },
        _ => {
            let n = match required(&f.name, "name") {
                Ok(n) => n,
                Err(err) => return Err(err),
            };
            d.push(pair("name", n));
        },
    }
    assert(doc_view(d@) =~= spec_insert_document(e, *f, id@)->Ok_0);
    Ok(d)
}

/// The fields that an update of a referential sets, in order.
pub open spec fn spec_update_fields(e: ImportEntityType, f: EntityFields) -> Seq<(Seq<char>, Seq<char>)> {
    let opt = |k: Seq<char>, v: Option<String>| match v {
        Some(s) => seq![(k, s@)],
        None => Seq::<(Seq<char>, Seq<char>)>::empty(),
    };
    match e {
        ImportEntityType::Circulaire => opt("matiere"@, f.matiere) + opt("name"@, f.name),
        ImportEntityType::Color => opt("name"@, f.name) + opt("colorData"@, f.color_data),
        ImportEntityType::Signification => opt("content"@, f.content),
        _ => opt("name"@, f.name),
    }
}

/// The refusal of an update that changes nothing.
pub open spec fn nothing_to_update_message(e: ImportEntityType, id: Seq<char>) -> Seq<char> {
    "Aucun champ à mettre à jour pour "@ + spec_entity_name(e) + " "@ + id
}

/// The fields that an update of a referential sets; refused when there are
/// none. `op_id` is the id that the batch gave, for the message.
pub fn update_document(e: ImportEntityType, f: &EntityFields, op_id: &str) -> (r: Result<Vec<(String, String)>, String>)
    requires
        e != ImportEntityType::Relation,
    ensures
        spec_update_fields(e, *f).len() == 0 ==> (r matches Err(m) && m@ == nothing_to_update_message(e, op_id@)),
        spec_update_fields(e, *f).len() > 0 ==> (r matches Ok(d) && doc_view(d@) == spec_update_fields(e, *f)),
{
    let mut d: Vec<(String, String)> = Vec::new();
    match e {
        ImportEntityType::Circulaire => {
            if let Some(v) = &f.matiere {
                d.push(pair("matiere", v.clone()));
            }
            if let Some(v) = &f.name {
                d.push(pair("name", v.clone()));
            }
        },
        ImportEntityType::Color => {
            if let Some(v) = &f.name {
                d.push(pair("name", v.clone()));
            }
            if let Some(v) = &f.color_data {
                d.push(pair("colorData", v.clone()));
            }
        },
        ImportEntityType::Signification => {
            if let Some(v) = &f.content {
                d.push(pair("content", v.clone()));
            }
        },
        _ => {
            if let Some(v) = &f.name {
                d.push(pair("name", v.clone()));
            }
        },
    }
    assert(doc_view(d@) =~= spec_update_fields(e, *f));
    if d.len() == 0 {
        let a = concat3("Aucun champ à mettre à jour pour ", entity_name(e), " ");
        return Err(concat(a.as_str(), op_id));
    }
    Ok(d)
}

/// The error for a referential that an update or a removal does not find.
pub open spec fn not_found_message(e: ImportEntityType, id: Seq<char>) -> Seq<char> {
    spec_entity_name(e) + " introuvable: "@ + id
}

/// The error for a referential that an update or a removal does not find.
pub fn not_found(e: ImportEntityType, id: &str) -> (r: String)
    ensures
        r@ == not_found_message(e, id@),
{
    concat3(entity_name(e), " introuvable: ", id)
}

/// What an update or a removal of a referential gives once the database
/// answered whether it `found` the referential `id`: nothing, or the error
/// that it is not found.
pub fn found_or_not_found(found: bool, e: ImportEntityType, id: &str) -> (r: Result<(), String>)
    ensures
        r is Ok <==> found,
        r matches Err(m) ==> m@ == not_found_message(e, id@),
{
    if found {
        Ok(())
    } else {
        Err(not_found(e, id))
    }
}

/// The code that a batch creates when it names a new one, at time `now`,
/// under `id`: visible, editable, not a default code, with no relation yet.
pub fn new_link_detail_at(new_link: &ImportNewLinkFields, now: String, id: String) -> (r: LinkDetail)
    ensures
        r.id == id,
        r.name == new_link.name,
        r.relations@.len() == 0,
        r.specificites@.len() == 0,
        r.annee == new_link.annee,
        r.last_update == now,
        r.created_at == Some(now),
        r.default == Some(false),
        r.visible == Some(true),
        r.editable == Some(true),
        r.national is None,
        r.ville is None,
{
    LinkDetail {
        id,
        name: new_link.name.clone(),
        relations: Vec::new(),
        specificites: Vec::<Specificite>::new(),
        annee: new_link.annee,
        last_update: now.clone(),
        created_at: Some(now),
        default: Some(false),
        visible: Some(true),
        editable: Some(true),
        national: None,
        ville: None,
    }
}

/// The code that a batch creates when it names a new one, now, under a
/// fresh random id.
pub fn new_link_detail(new_link: &ImportNewLinkFields) -> (r: LinkDetail)
    ensures
        r.name == new_link.name,
        r.relations@.len() == 0,
        r.specificites@.len() == 0,
        r.annee == new_link.annee,
        r.created_at == Some(r.last_update),
        r.default == Some(false),
        r.visible == Some(true),
        r.editable == Some(true),
        r.national is None,
        r.ville is None,
        uuid_form(r.id@),
{
    let now = now_rfc3339();
    let id = new_uuid();
    new_link_detail_at(new_link, now, id)
}


/// What an operation of an applied batch did: the operation, the id it
/// resolved to, and what it acted on before and after (`T`).
pub struct ImportOperationResult<T> {
    pub op: ImportOperationType,
    pub entity: ImportEntityType,
    pub source_id: String,
    pub resolved_id: String,
    pub before: Option<T>,
    pub after: Option<T>,
}

/// The positions, among the first `n` operations, of those on a shared
/// referential, in order.
pub open spec fn referential_positions(ops: Seq<ImportOperation>, n: int) -> Seq<int>
    decreases n,
{
    if n <= 0 {
        Seq::empty()
    } else {
        let p = referential_positions(ops, n - 1);
        if ops[n - 1].entity != ImportEntityType::Relation {
            p.push(n - 1)
        } else {
            p
        }
    }
}

/// Each position among the first `i` operations is below `i`.
proof fn lemma_referential_positions_below(ops: Seq<ImportOperation>, i: int)
    requires
        0 <= i,
    ensures
        forall|m: int| 0 <= m < referential_positions(ops, i).len()
            ==> 0 <= #[trigger] referential_positions(ops, i)[m] < i,
    decreases i,
{
    if i > 0 {
        lemma_referential_positions_below(ops, i - 1);
        let p = referential_positions(ops, i - 1);
        assert forall|m: int| 0 <= m < referential_positions(ops, i).len()
            implies 0 <= #[trigger] referential_positions(ops, i)[m] < i by {
            if m < p.len() {
                assert(referential_positions(ops, i)[m] == p[m]);
            }
        }
    }
}

/// The positions among the first `i` operations are the first ones among
/// the first `n`, for `i <= n`, and each is below `i`.
proof fn lemma_referential_positions_prefix(ops: Seq<ImportOperation>, i: int, n: int)
    requires
        0 <= i <= n,
    ensures
        referential_positions(ops, i).len() <= referential_positions(ops, n).len(),
        forall|m: int| 0 <= m < referential_positions(ops, i).len()
            ==> #[trigger] referential_positions(ops, i)[m] == referential_positions(ops, n)[m],
        forall|m: int| 0 <= m < referential_positions(ops, i).len()
            ==> 0 <= #[trigger] referential_positions(ops, i)[m] < i,
    decreases n,
{
    lemma_referential_positions_below(ops, i);
    if i < n {
        lemma_referential_positions_prefix(ops, i, n - 1);
    }
}

/// `r` records the operation `op`, resolved to `resolved_id`, with `before`
/// and `after`.
pub open spec fn records_operation<T>(
    r: ImportOperationResult<T>,
    op: ImportOperation,
    resolved_id: Seq<char>,
    before: Option<T>,
    after: Option<T>,
) -> bool {
    &&& r.op == op.op
    &&& r.entity == op.entity
    &&& r.source_id@ == op.id@
    &&& r.resolved_id@ == resolved_id
    &&& r.before == before
    &&& r.after == after
}

/// The results of an applied batch: first one for each operation on a shared
/// referential, in the batch's order, with what it gave (`referential`, in
/// the same order); then one for each relation step (`relations`: the
/// position of its operation, its resolved id, before and after), in order.
pub fn operation_results<T>(
    ops: &Vec<ImportOperation>,
    referential: Vec<(String, Option<T>, Option<T>)>,
    relations: Vec<(usize, String, Option<T>, Option<T>)>,
) -> (r: Vec<ImportOperationResult<T>>)
    requires
        referential@.len() == referential_positions(ops@, ops@.len() as int).len(),
        forall|j: int| 0 <= j < relations@.len() ==> (#[trigger] relations@[j]).0 < ops@.len(),
    ensures
        r@.len() == referential@.len() + relations@.len(),
        forall|i: int| 0 <= i < referential@.len() ==> records_operation(
            #[trigger] r@[i],
            ops@[referential_positions(ops@, ops@.len() as int)[i]],
            referential@[i].0@,
            referential@[i].1,
            referential@[i].2,
        ),
        forall|j: int| 0 <= j < relations@.len() ==> records_operation(
            #[trigger] r@[referential@.len() + j],
            ops@[relations@[j].0 as int],
            relations@[j].1@,
            relations@[j].2,
            relations@[j].3,
        ),
{
    let ghost all = referential_positions(ops@, ops@.len() as int);
    let ghost refs = referential@;
    let ghost rels = relations@;
    let mut referential = referential;
    let mut relations = relations;
    let mut r: Vec<ImportOperationResult<T>> = Vec::new();
    let mut i: usize = 0;
    while i < ops.len()
        invariant
            i <= ops@.len(),
            all == referential_positions(ops@, ops@.len() as int),
            refs.len() == all.len(),
            r@.len() == referential_positions(ops@, i as int).len(),
            referential@ == refs.subrange(r@.len() as int, refs.len() as int),
            forall|m: int| 0 <= m < r@.len() ==> records_operation(
                #[trigger] r@[m],
                ops@[all[m]],
                refs[m].0@,
                refs[m].1,
                refs[m].2,
            ),
        decreases ops@.len() - i,
    {
        proof {
            lemma_referential_positions_prefix(ops@, i as int + 1, ops@.len() as int);
        }
        let op = &ops[i];
        if op.entity != ImportEntityType::Relation {
            let k = r.len();
            assert(referential_positions(ops@, i as int + 1)[k as int] == i);
            let (resolved_id, before, after) = referential.remove(0);
            r.push(ImportOperationResult {
                op: op.op,
                entity: op.entity,
                source_id: op.id.clone(),
                resolved_id,
                before,
                after,
            });
            assert(referential@ =~= refs.subrange(r@.len() as int, refs.len() as int));
        }
        i = i + 1;
    }
    let base = r.len();
    assert(base == refs.len());
    let n = relations.len();
    let mut j: usize = 0;
    while j < n
        invariant
            n == rels.len(),
            base == refs.len(),
            j <= rels.len(),
            r@.len() == base + j,
            relations@ == rels.subrange(j as int, rels.len() as int),
            forall|q: int| 0 <= q < rels.len() ==> (#[trigger] rels[q]).0 < ops@.len(),
            forall|m: int| 0 <= m < base ==> records_operation(
                #[trigger] r@[m],
                ops@[all[m]],
                refs[m].0@,
                refs[m].1,
                refs[m].2,
            ),
            forall|q: int| 0 <= q < j ==> records_operation(
                #[trigger] r@[base + q],
                ops@[rels[q].0 as int],
                rels[q].1@,
                rels[q].2,
                rels[q].3,
            ),
        decreases rels.len() - j,
    {
        let (index, resolved_id, before, after) = relations.remove(0);
        let op = &ops[index];
        r.push(ImportOperationResult {
            op: op.op,
            entity: op.entity,
            source_id: op.id.clone(),
            resolved_id,
            before,
            after,
        });
        assert(relations@ =~= rels.subrange(j as int + 1, rels.len() as int));
        j = j + 1;
    }
    r
}


/// The field of an operation's payload that a document key names: `name`,
/// `matiere`, `colorData` or `content`; none for another key.
pub open spec fn payload_field(f: EntityFields, key: Seq<char>) -> Option<Seq<char>> {
    if key == "name"@ {
        f.name.deep_view()
    } else if key == "matiere"@ {
        f.matiere.deep_view()
    } else if key == "colorData"@ {
        f.color_data.deep_view()
    } else if key == "content"@ {
        f.content.deep_view()
    } else {
        None
    }
}

/// The keys of the referential documents are all different.
proof fn lemma_document_keys_differ()
    ensures
        "name"@ != "matiere"@,
        "name"@ != "colorData"@,
        "name"@ != "content"@,
        "matiere"@ != "colorData"@,
        "matiere"@ != "content"@,
        "colorData"@ != "content"@,
{
    reveal_strlit("name");
    reveal_strlit("matiere");
    reveal_strlit("colorData");
    reveal_strlit("content");
    assert("name"@.len() != "matiere"@.len());
    assert("name"@.len() != "colorData"@.len());
    assert("name"@.len() != "content"@.len());
    assert("matiere"@.len() != "colorData"@.len());
    assert("matiere"@[0] != "content"@[0]);
    assert("colorData"@.len() != "content"@.len());
}

/// The document that adds a referential holds its id under `_id` first,
/// then, under each key that its type reads, the payload field of the same
/// name, and nothing else; it is refused exactly when one of those fields is
/// missing.
pub proof fn law_inserted_document_holds_the_payload(e: ImportEntityType, f: EntityFields, id: Seq<char>)
    requires
        e != ImportEntityType::Relation,
    ensures
        spec_insert_document(e, f, id) is Ok <==> forall|k: Seq<char>| reads_key(e, k) ==> #[trigger] payload_field(f, k) is Some,
        spec_insert_document(e, f, id) matches Ok(d) ==> {
            &&& d.len() >= 1
            &&& d[0] == ("_id"@, id)
            &&& forall|i: int| 1 <= i < d.len() ==> reads_key(e, (#[trigger] d[i]).0)
                && payload_field(f, d[i].0) == Some(d[i].1)
            &&& forall|k: Seq<char>| reads_key(e, k) ==> exists|i: int| 1 <= i < d.len() && (#[trigger] d[i]).0 == k
        },
{
    lemma_document_keys_differ();
    reveal_strlit("name");
    reveal_strlit("matiere");
    reveal_strlit("colorData");
    reveal_strlit("content");
    reveal_strlit("_id");
    match spec_insert_document(e, f, id) {
        Ok(d) => {
            match e {
                ImportEntityType::Circulaire => {
                    assert(d[1].0 == "matiere"@);
                    assert(d[2].0 == "name"@);
                },
                ImportEntityType::Color => {
                    assert(d[1].0 == "name"@);
                    assert(d[2].0 == "colorData"@);
                },
                ImportEntityType::Signification => {
                    assert(d[1].0 == "content"@);
                },
                _ => {
                    assert(d[1].0 == "name"@);
                },
            }
        },
        Err(_) => {
            match e {
                ImportEntityType::Circulaire => {
                    if f.matiere is None {
                        assert(reads_key(e, "matiere"@) && payload_field(f, "matiere"@) is None);
                    } else {
                        assert(reads_key(e, "name"@) && payload_field(f, "name"@) is None);
                    }
                },
                ImportEntityType::Color => {
                    if f.name is None {
                        assert(reads_key(e, "name"@) && payload_field(f, "name"@) is None);
                    } else {
                        assert(reads_key(e, "colorData"@) && payload_field(f, "colorData"@) is None);
                    }
                },
                ImportEntityType::Signification => {
                    assert(reads_key(e, "content"@) && payload_field(f, "content"@) is None);
                },
                _ => {
                    assert(reads_key(e, "name"@) && payload_field(f, "name"@) is None);
                },
            }
        },
    }
}

/// The fields that an update of a referential sets are, each once, the keys
/// that its type reads and that the payload gives, each with the payload
/// field of the same name.
pub proof fn law_update_sets_the_payload(e: ImportEntityType, f: EntityFields)
    requires
        e != ImportEntityType::Relation,
    ensures
        forall|i: int| 0 <= i < spec_update_fields(e, f).len() ==> reads_key(e, (#[trigger] spec_update_fields(e, f)[i]).0)
            && payload_field(f, spec_update_fields(e, f)[i].0) == Some(spec_update_fields(e, f)[i].1),
        forall|k: Seq<char>| reads_key(e, k) && #[trigger] payload_field(f, k) is Some ==> exists|i: int|
            0 <= i < spec_update_fields(e, f).len() && spec_update_fields(e, f)[i].0 == k,
{
    lemma_document_keys_differ();
    reveal_strlit("name");
    reveal_strlit("matiere");
    reveal_strlit("colorData");
    reveal_strlit("content");
    let d = spec_update_fields(e, f);
    match e {
        ImportEntityType::Circulaire => {
            if f.matiere is Some {
                assert(d[0].0 == "matiere"@);
                if f.name is Some {
                    assert(d[1].0 == "name"@);
                }
            } else if f.name is Some {
                assert(d[0].0 == "name"@);
            }
        },
        ImportEntityType::Color => {
            if f.name is Some {
                assert(d[0].0 == "name"@);
                if f.color_data is Some {
                    assert(d[1].0 == "colorData"@);
                }
            } else if f.color_data is Some {
                assert(d[0].0 == "colorData"@);
            }
        },
        ImportEntityType::Signification => {
            if f.content is Some {
                assert(d[0].0 == "content"@);
            }
        },
        _ => {
            if f.name is Some {
                assert(d[0].0 == "name"@);
            }
        },
    }
}


/// What a reference key of a relation's payload gives the built relation:
/// a string is the id it resolves to (through the temporary ids), `null`
/// is none, and nothing else is accepted.
pub open spec fn mentioned_reference(fields: Map<Seq<char>, FieldValue>, tmp: Map<Seq<char>, String>, key: Seq<char>, value: Option<Seq<char>>) -> bool {
    fields.contains_key(key) ==> match fields[key]@ {
        FieldValueView::Text(v) => spec_resolve_id(v, tmp) is Ok && value == Some(spec_resolve_id(v, tmp)->Ok_0),
        FieldValueView::Null => value is None,
        _ => false,
    }
}

/// What a flag of a relation's payload gives the built relation: a boolean
/// is taken, `null` is none, and nothing else is accepted.
pub open spec fn mentioned_flag(fields: Map<Seq<char>, FieldValue>, key: Seq<char>, value: Option<bool>) -> bool {
    fields.contains_key(key) ==> match fields[key]@ {
        FieldValueView::Bool(b) => value == Some(b),
        FieldValueView::Null => value is None,
        _ => false,
    }
}

/// A relation built from an operation takes every field that the payload
/// mentions from the payload: each reference as the id its string resolves
/// to, each flag as given, and `null` as none; a temporary id that does not
/// resolve, or a value of another kind, refuses the operation. The
/// placement is required, so it cannot be `null`. A field that the payload
/// does not mention is that of the existing relation, or none for a new
/// one; the id is the existing one, else `fresh_id`.
pub proof fn law_built_relation_takes_the_payload(
    fields: Map<Seq<char>, FieldValue>,
    tmp: Map<Seq<char>, String>,
    existing: Option<LinkItemView>,
    now: Seq<char>,
    fresh_id: Seq<char>,
)
    requires
        spec_build_link_item(fields, tmp, existing, now, fresh_id) is Ok,
    ensures
        ({
            let item = spec_build_link_item(fields, tmp, existing, now, fresh_id)->Ok_0;
            &&& mentioned_reference(fields, tmp, "placementId"@, Some(item.placement_id))
            &&& mentioned_reference(fields, tmp, "positionId"@, item.position_id)
            &&& mentioned_reference(fields, tmp, "filiereId"@, item.filiere_id)
            &&& mentioned_reference(fields, tmp, "symboleId"@, item.symbole_id)
            &&& mentioned_reference(fields, tmp, "circulaireId"@, item.circulaire_id)
            &&& mentioned_reference(fields, tmp, "significationId"@, item.signification_id)
            &&& mentioned_reference(fields, tmp, "symboleSensId"@, item.symbole_sens_id)
            &&& mentioned_reference(fields, tmp, "symboleAccessoryId"@, item.symbole_accessory_id)
            &&& mentioned_flag(fields, "spe"@, item.spe)
            &&& mentioned_flag(fields, "absent"@, item.absent)
            &&& mentioned_flag(fields, "blame"@, item.blame)
            &&& (!fields.contains_key("placementId"@) ==> existing is Some && item.placement_id == existing->Some_0.placement_id)
            &&& (!fields.contains_key("positionId"@) ==> item.position_id == (if existing is Some { existing->Some_0.position_id } else { None }))
            &&& (!fields.contains_key("filiereId"@) ==> item.filiere_id == (if existing is Some { existing->Some_0.filiere_id } else { None }))
            &&& (!fields.contains_key("symboleId"@) ==> item.symbole_id == (if existing is Some { existing->Some_0.symbole_id } else { None }))
            &&& (!fields.contains_key("circulaireId"@) ==> item.circulaire_id == (if existing is Some { existing->Some_0.circulaire_id } else { None }))
            &&& (!fields.contains_key("significationId"@) ==> item.signification_id == (if existing is Some { existing->Some_0.signification_id } else { None }))
            &&& (!fields.contains_key("symboleSensId"@) ==> item.symbole_sens_id == (if existing is Some { existing->Some_0.symbole_sens_id } else { None }))
            &&& (!fields.contains_key("symboleAccessoryId"@) ==> item.symbole_accessory_id == (if existing is Some { existing->Some_0.symbole_accessory_id } else { None }))
            &&& (!fields.contains_key("spe"@) ==> item.spe == (if existing is Some { existing->Some_0.spe } else { None }))
            &&& (!fields.contains_key("absent"@) ==> item.absent == (if existing is Some { existing->Some_0.absent } else { None }))
            &&& (!fields.contains_key("blame"@) ==> item.blame == (if existing is Some { existing->Some_0.blame } else { None }))
            &&& item.id == (if existing is Some && existing->Some_0.id is Some { existing->Some_0.id } else { Some(fresh_id) })
            &&& item.created_at == (if existing is Some && existing->Some_0.created_at is Some { existing->Some_0.created_at } else { Some(now) })
            &&& item.updated_at == Some(now)
        }),
{
}


/// The relation that an add or an update of a batch leaves in the code takes
/// every reference and flag that the operation's payload mentions from the
/// payload.
pub proof fn law_applied_relation_takes_the_payload(
    rels: Seq<LinkItemView>,
    op: ImportOperationType,
    op_id: Seq<char>,
    fields: Map<Seq<char>, FieldValue>,
    tmp: Map<Seq<char>, String>,
    now: Seq<char>,
    fresh_id: Seq<char>,
)
    requires
        op != ImportOperationType::Remove,
        spec_apply_relation(rels, op, op_id, fields, tmp, now, fresh_id) is Ok,
    ensures
        ({
            let item = spec_apply_relation(rels, op, op_id, fields, tmp, now, fresh_id)->Ok_0.3->Some_0;
            &&& spec_apply_relation(rels, op, op_id, fields, tmp, now, fresh_id)->Ok_0.3 is Some
            &&& mentioned_reference(fields, tmp, "placementId"@, Some(item.placement_id))
            &&& mentioned_reference(fields, tmp, "positionId"@, item.position_id)
            &&& mentioned_reference(fields, tmp, "filiereId"@, item.filiere_id)
            &&& mentioned_reference(fields, tmp, "symboleId"@, item.symbole_id)
            &&& mentioned_reference(fields, tmp, "circulaireId"@, item.circulaire_id)
            &&& mentioned_reference(fields, tmp, "significationId"@, item.signification_id)
            &&& mentioned_reference(fields, tmp, "symboleSensId"@, item.symbole_sens_id)
            &&& mentioned_reference(fields, tmp, "symboleAccessoryId"@, item.symbole_accessory_id)
            &&& mentioned_flag(fields, "spe"@, item.spe)
            &&& mentioned_flag(fields, "absent"@, item.absent)
            &&& mentioned_flag(fields, "blame"@, item.blame)
        }),
{
    let pos = spec_find_relation(rels, op_id);
    if op == ImportOperationType::Add {
        law_built_relation_takes_the_payload(fields, tmp, None, now, fresh_id);
    } else {
        law_built_relation_takes_the_payload(fields, tmp, Some(rels[pos]), now, fresh_id);
    }
}

} // verus!
