//! Editing the relations of a code, and counting how the codes use a
//! referential.
use crate::fresh::{new_object_id_hex, new_uuid, now_rfc3339, object_id_form, uuid_form};
use crate::import::{find_relation, spec_find_relation};
use crate::model::falidex_model::{
    clone_opt, relations_view, Img, LinkDetail, LinkItem, LinkItemView, OccurenceDetail,
};
use crate::import::same_but_relations;
use crate::text::{concat, concat3, decimal, str_eq, u128_to_string, u64_to_string};
use vstd::prelude::*;

verus! {

broadcast use vstd::string::group_string_axioms;

/// The refusal to edit a code marked as not editable.
pub open spec fn not_editable_message() -> Seq<char> {
    "Ce link n'est pas éditable"@
}

/// The refusal to update a relation without an id.
pub open spec fn relation_id_required_message() -> Seq<char> {
    "L'identifiant de la relation est requis pour la mise à jour"@
}

/// The error for a relation that the code does not hold.
pub open spec fn no_relation_message() -> Seq<char> {
    "Aucune relation trouvée avec cet identifiant"@
}

/// A relation sent for a creation, with the id it gets (its own, or
/// `fresh_id`) and the time `now` as creation and update times.
pub open spec fn stamped_new(d: LinkItemView, fresh_id: Seq<char>, now: Seq<char>) -> LinkItemView {
    LinkItemView {
        id: match d.id {
            Some(i) => Some(i),
            None => Some(fresh_id),
        },
        created_at: Some(now),
        updated_at: Some(now),
        ..d
    }
}

/// A relation sent for an update, keeping the creation time of the relation
/// it replaces and taking `now` as update time.
pub open spec fn stamped_update(d: LinkItemView, replaced: LinkItemView, now: Seq<char>) -> LinkItemView {
    LinkItemView { created_at: replaced.created_at, updated_at: Some(now), ..d }
}

/// A unit result with its error seen as characters.
pub open spec fn unit_result(r: Result<(), String>) -> Result<(), Seq<char>> {
    match r {
        Ok(()) => Ok(()),
        Err(e) => Err(e@),
    }
}

/// Adds a relation to an editable code, giving it `fresh_id` when it has no
/// id, and `now` as creation and update time.
pub fn add_relation_item_at(link: &mut LinkDetail, data: LinkItem, fresh_id: String, now: String) -> (r: Result<(), String>)
    ensures
        same_but_relations(*final(link), *old(link)),
        old(link).editable == Some(false) ==> unit_result(r) == Err::<(), Seq<char>>(not_editable_message())
            && final(link).relations@ == old(link).relations@,
        old(link).editable != Some(false) ==> r is Ok && relations_view(final(link).relations@)
            == relations_view(old(link).relations@).push(stamped_new(data@, fresh_id@, now@)),
        old(link).editable != Some(false) ==> final(link).relations@.len() == old(link).relations@.len() + 1
            && final(link).relations@.last().id == (if data.id is Some { data.id } else { Some(fresh_id) })
            && final(link).relations@.last().placement_id == data.placement_id,
{
    if link.editable == Some(false) {
        return Err("Ce link n'est pas éditable".to_string());
    }
    let mut data = data;
    if data.id.is_none() {
        data.id = Some(fresh_id);
    }
    data.created_at = Some(now.clone());
    data.updated_at = Some(now);
    let ghost rels = relations_view(link.relations@);
    let ghost item = data@;
    link.relations.push(data);
    assert(relations_view(link.relations@) =~= rels.push(item));
    Ok(())
}

/// Adds a relation to an editable code, now, with a fresh random id when it
/// has none.
pub fn add_relation_item(link: &mut LinkDetail, data: LinkItem) -> (r: Result<(), String>)
    ensures
        same_but_relations(*final(link), *old(link)),
        old(link).editable == Some(false) ==> unit_result(r) == Err::<(), Seq<char>>(not_editable_message())
            && final(link).relations@ == old(link).relations@,
        old(link).editable != Some(false) ==> r is Ok && exists|fresh_id: Seq<char>, now: Seq<char>|
            uuid_form(fresh_id) && relations_view(final(link).relations@) == relations_view(old(link).relations@).push(
                #[trigger] stamped_new(data@, fresh_id, now)),
        (old(link).editable != Some(false) && data.id is Some) ==> final(link).relations@.last().id == data.id,
        (old(link).editable != Some(false) && data.id is None) ==> uuid_form(final(link).relations@.last().id->Some_0@),
{
    let fresh_id = new_uuid();
    let now = now_rfc3339();
    add_relation_item_at(link, data, fresh_id, now)
}

/// Replaces, in an editable code, the relation with the id of `data` by
/// `data`, keeping its creation time and taking `now` as update time.
pub fn replace_relation_item_at(link: &mut LinkDetail, data: LinkItem, now: String) -> (r: Result<(), String>)
    ensures
        same_but_relations(*final(link), *old(link)),
        ({
            let rels = relations_view(old(link).relations@);
            if old(link).editable == Some(false) {
                unit_result(r) == Err::<(), Seq<char>>(not_editable_message())
                    && final(link).relations@ == old(link).relations@
            } else if data.id is None {
                unit_result(r) == Err::<(), Seq<char>>(relation_id_required_message())
                    && final(link).relations@ == old(link).relations@
            } else if spec_find_relation(rels, data.id->Some_0@) < 0 {
                unit_result(r) == Err::<(), Seq<char>>(no_relation_message())
                    && final(link).relations@ == old(link).relations@
            } else {
                let pos = spec_find_relation(rels, data.id->Some_0@);
                r is Ok && relations_view(final(link).relations@) == rels.update(
                    pos,
                    stamped_update(data@, rels[pos], now@),
                )
            }
        }),
{
    if link.editable == Some(false) {
        return Err("Ce link n'est pas éditable".to_string());
    }
    let relation_id = match &data.id {
        Some(i) => i.clone(),
        None => return Err("L'identifiant de la relation est requis pour la mise à jour".to_string()),
    };
    let ghost rels = relations_view(link.relations@);
    match find_relation(&link.relations, relation_id.as_str()) {
        None => Err("Aucune relation trouvée avec cet identifiant".to_string()),
        Some(pos) => {
            assert(rels[pos as int] == link.relations@[pos as int]@);
            let mut data = data;
            data.created_at = clone_opt(&link.relations[pos].created_at);
            data.updated_at = Some(now);
            let ghost item = data@;
            link.relations.set(pos, data);
            assert(relations_view(link.relations@) =~= rels.update(pos as int, item));
            Ok(())
        },
    }
}

/// The relations `rels` once the one with the id of `d` is replaced by `d`,
/// keeping its creation time and taking `now` as update time.
pub open spec fn replaced_at(rels: Seq<LinkItemView>, d: LinkItemView, now: Seq<char>) -> Seq<LinkItemView> {
    let pos = spec_find_relation(rels, d.id->Some_0);
    rels.update(pos, stamped_update(d, rels[pos], now))
}

/// Replaces, in an editable code, the relation with the id of `data`, now.
pub fn replace_relation_item(link: &mut LinkDetail, data: LinkItem) -> (r: Result<(), String>)
    ensures
        same_but_relations(*final(link), *old(link)),
        r is Err ==> final(link).relations@ == old(link).relations@,
        r is Ok <==> (old(link).editable != Some(false) && data.id is Some && spec_find_relation(
            relations_view(old(link).relations@),
            data.id->Some_0@,
        ) >= 0),
        r is Ok ==> exists|now: Seq<char>|
            relations_view(final(link).relations@) == #[trigger] replaced_at(relations_view(old(link).relations@), data@, now),
{
    let now = now_rfc3339();
    let ghost n = now@;
    let r = replace_relation_item_at(link, data, now);
    proof {
        if r is Ok {
            let rels = relations_view(old(link).relations@);
            let pos = spec_find_relation(rels, data.id->Some_0@);
            assert(relations_view(link.relations@) == replaced_at(rels, data@, n));
        }
    }
    r
}

/// Removes from an editable code the relation whose id is `relation_id`.
pub fn remove_relation_item(link: &mut LinkDetail, relation_id: &str) -> (r: Result<(), String>)
    ensures
        same_but_relations(*final(link), *old(link)),
        ({
            let rels = relations_view(old(link).relations@);
            let pos = spec_find_relation(rels, relation_id@);
            if old(link).editable == Some(false) {
                unit_result(r) == Err::<(), Seq<char>>(not_editable_message())
                    && final(link).relations@ == old(link).relations@
            } else if pos < 0 {
                unit_result(r) == Err::<(), Seq<char>>(no_relation_message())
                    && final(link).relations@ == old(link).relations@
            } else {
                r is Ok && relations_view(final(link).relations@) == rels.remove(pos)
            }
        }),
{
    if link.editable == Some(false) {
        return Err("Ce link n'est pas éditable".to_string());
    }
    let ghost rels = relations_view(link.relations@);
    match find_relation(&link.relations, relation_id) {
        None => Err("Aucune relation trouvée avec cet identifiant".to_string()),
        Some(pos) => {
            link.relations.remove(pos);
            assert(relations_view(link.relations@) =~= rels.remove(pos as int));
            Ok(())
        },
    }
}

/// Replaces the relation with the id of `data` by `data`, as it is, in any
/// code.
pub fn replace_relation_as_sent(link: &mut LinkDetail, data: LinkItem) -> (r: Result<(), String>)
    ensures
        same_but_relations(*final(link), *old(link)),
        ({
            let rels = relations_view(old(link).relations@);
            if data.id is None {
                unit_result(r) == Err::<(), Seq<char>>(relation_id_required_message())
                    && final(link).relations@ == old(link).relations@
            } else if spec_find_relation(rels, data.id->Some_0@) < 0 {
                unit_result(r) == Err::<(), Seq<char>>(no_relation_message())
                    && final(link).relations@ == old(link).relations@
            } else {
                r is Ok && relations_view(final(link).relations@) == rels.update(
                    spec_find_relation(rels, data.id->Some_0@),
                    data@,
                )
            }
        }),
{
    let relation_id = match &data.id {
        Some(i) => i.clone(),
        None => return Err("L'identifiant de la relation est requis pour la mise à jour".to_string()),
    };
    let ghost rels = relations_view(link.relations@);
    match find_relation(&link.relations, relation_id.as_str()) {
        None => Err("Aucune relation trouvée avec cet identifiant".to_string()),
        Some(pos) => {
            let ghost item = data@;
            link.relations.set(pos, data);
            assert(relations_view(link.relations@) =~= rels.update(pos as int, item));
            Ok(())
        },
    }
}

/// Appends a relation to any code, giving it a fresh BSON object id when it
/// has no id.
pub fn push_relation_with_object_id(link: &mut LinkDetail, data: LinkItem)
    ensures
        same_but_relations(*final(link), *old(link)),
        final(link).relations@.len() == old(link).relations@.len() + 1,
        final(link).relations@.drop_last() == old(link).relations@,
        data.id is Some ==> final(link).relations@.last() == data,
        data.id is None ==> final(link).relations@.last().id is Some
            && object_id_form(final(link).relations@.last().id->Some_0@)
            && final(link).relations@.last()@ == (LinkItemView { id: final(link).relations@.last()@.id, ..data@ }),
{
    let mut data = data;
    if data.id.is_none() {
        data.id = Some(new_object_id_hex());
    }
    link.relations.push(data);
    assert(link.relations@.drop_last() =~= old(link).relations@);
}

/// Gives an id to each relation that has none, in every code; returns how
/// many codes changed.
pub fn fix_relation_ids(links: &mut Vec<LinkDetail>) -> (r: u64)
    ensures
        final(links)@.len() == old(links)@.len(),
        forall|i: int| 0 <= i < final(links)@.len() ==> same_but_relations(#[trigger] final(links)@[i], old(links)@[i]),
        forall|i: int, j: int| 0 <= i < final(links)@.len() && 0 <= j < final(links)@[i].relations@.len()
            ==> (#[trigger] final(links)@[i].relations@[j]).id is Some,
        forall|i: int, j: int| 0 <= i < final(links)@.len() && 0 <= j < final(links)@[i].relations@.len()
            && (#[trigger] old(links)@[i].relations@[j]).id is Some ==> final(links)@[i].relations@[j] == old(links)@[i].relations@[j],
        forall|i: int| 0 <= i < final(links)@.len() ==> (#[trigger] final(links)@[i]).relations@.len() == old(links)@[i].relations@.len(),
        forall|i: int, j: int| 0 <= i < final(links)@.len() && 0 <= j < final(links)@[i].relations@.len()
            && (#[trigger] old(links)@[i].relations@[j]).id is None ==> {
                let after = final(links)@[i].relations@[j];
                &&& uuid_form(after.id->Some_0@)
                &&& after@ == (LinkItemView { id: after@.id, ..old(links)@[i].relations@[j]@ })
            },
        r as int == count_links_missing_ids(old(links)@, old(links)@.len() as int),
{
    let mut count: u64 = 0;
    let mut i: usize = 0;
    let ghost start = links@;
    while i < links.len()
        invariant
            start == old(links)@,
            links@.len() == start.len(),
            i <= links@.len(),
            count as int == count_links_missing_ids(start, i as int),
            count <= i,
            forall|k: int| i <= k < links@.len() ==> links@[k] == start[k],
            forall|k: int| 0 <= k < links@.len() ==> same_but_relations(#[trigger] links@[k], start[k]),
            forall|k: int| 0 <= k < links@.len() ==> (#[trigger] links@[k]).relations@.len() == start[k].relations@.len(),
            forall|k: int, j: int| 0 <= k < i && 0 <= j < links@[k].relations@.len() ==> (#[trigger] links@[k].relations@[j]).id is Some,
            forall|k: int, j: int| 0 <= k < links@.len() && 0 <= j < links@[k].relations@.len()
                && (#[trigger] start[k].relations@[j]).id is Some ==> links@[k].relations@[j] == start[k].relations@[j],
            forall|k: int, j: int| 0 <= k < i && 0 <= j < links@[k].relations@.len()
                && (#[trigger] start[k].relations@[j]).id is None ==> {
                    let after = links@[k].relations@[j];
                    &&& uuid_form(after.id->Some_0@)
                    &&& after@ == (LinkItemView { id: after@.id, ..start[k].relations@[j]@ })
                },
        decreases links@.len() - i,
    {
        let mut link = links.remove(i);
        let ghost before = link;
        let mut changed = false;
        let mut rels = Vec::new();
        std::mem::swap(&mut rels, &mut link.relations);
        let mut j: usize = 0;
        while j < rels.len()
            invariant
                j <= rels@.len(),
                rels@.len() == before.relations@.len(),
                forall|m: int| 0 <= m < j ==> (#[trigger] rels@[m]).id is Some,
                forall|m: int| j <= m < rels@.len() ==> rels@[m] == before.relations@[m],
                forall|m: int| 0 <= m < rels@.len() && (#[trigger] before.relations@[m]).id is Some ==> rels@[m] == before.relations@[m],
                forall|m: int| 0 <= m < j && (#[trigger] before.relations@[m]).id is None ==> {
                    &&& uuid_form(rels@[m].id->Some_0@)
                    &&& rels@[m]@ == (LinkItemView { id: rels@[m]@.id, ..before.relations@[m]@ })
                },
                changed == exists|m: int| 0 <= m < j && (#[trigger] before.relations@[m]).id is None,
            decreases rels@.len() - j,
        {
            if rels[j].id.is_none() {
                let mut item = rels[j].copy();
                item.id = Some(new_uuid());
                rels.set(j, item);
                changed = true;
            }
            j = j + 1;
        }
        link.relations = rels;
        links.insert(i, link);
        if changed {
            count = count + 1;
        }
        proof {
            assert(changed == link_missing_ids(start[i as int]));
            assert(links@[i as int] == link);
            assert forall|k: int| i < k < links@.len() implies links@[k] == start[k] by {}
        }
        i = i + 1;
    }
    count
}

/// A code has a relation without an id.
pub open spec fn link_missing_ids(l: LinkDetail) -> bool {
    exists|m: int| 0 <= m < l.relations@.len() && (#[trigger] l.relations@[m]).id is None
}

/// How many of the first `n` codes have a relation without an id.
pub open spec fn count_links_missing_ids(links: Seq<LinkDetail>, n: int) -> int
    decreases n,
{
    if n <= 0 {
        0
    } else {
        count_links_missing_ids(links, n - 1) + if link_missing_ids(links[n - 1]) { 1int } else { 0int }
    }
}

/// A field of a relation that refers to a referential.
#[derive(Debug, Clone, Copy, PartialEq, Eq, Structural)]
pub enum RelationField {
    Placement,
    Position,
    Filiere,
    Symbole,
    Circulaire,
    Signification,
    SymboleSens,
    SymboleAccessoire,
}

/// The value of a reference field of a relation.
pub open spec fn spec_field_value(item: LinkItemView, f: RelationField) -> Option<Seq<char>> {
    match f {
        RelationField::Placement => Some(item.placement_id),
        RelationField::Position => item.position_id,
        RelationField::Filiere => item.filiere_id,
        RelationField::Symbole => item.symbole_id,
        RelationField::Circulaire => item.circulaire_id,
        RelationField::Signification => item.signification_id,
        RelationField::SymboleSens => item.symbole_sens_id,
        RelationField::SymboleAccessoire => item.symbole_accessory_id,
    }
}

/// The value of a reference field of a relation.
pub fn field_value(item: &LinkItem, f: RelationField) -> (r: Option<String>)
    ensures
        r.deep_view() == spec_field_value(item@, f),
        f == RelationField::Placement ==> r.deep_view() == Some(item.placement_id@),
        f == RelationField::Position ==> r.deep_view() == item.position_id.deep_view(),
        f == RelationField::Filiere ==> r.deep_view() == item.filiere_id.deep_view(),
        f == RelationField::Symbole ==> r.deep_view() == item.symbole_id.deep_view(),
        f == RelationField::Circulaire ==> r.deep_view() == item.circulaire_id.deep_view(),
        f == RelationField::Signification ==> r.deep_view() == item.signification_id.deep_view(),
        f == RelationField::SymboleSens ==> r.deep_view() == item.symbole_sens_id.deep_view(),
        f == RelationField::SymboleAccessoire ==> r.deep_view() == item.symbole_accessory_id.deep_view(),
{
    match f {
        RelationField::Placement => Some(item.placement_id.clone()),
        RelationField::Position => clone_opt(&item.position_id),
        RelationField::Filiere => clone_opt(&item.filiere_id),
        RelationField::Symbole => clone_opt(&item.symbole_id),
        RelationField::Circulaire => clone_opt(&item.circulaire_id),
        RelationField::Signification => clone_opt(&item.signification_id),
        RelationField::SymboleSens => clone_opt(&item.symbole_sens_id),
        RelationField::SymboleAccessoire => clone_opt(&item.symbole_accessory_id),
    }
}

/// The strings of `v`, seen as character sequences.
pub open spec fn strings_view(v: Seq<String>) -> Seq<Seq<char>> {
    v.map_values(|s: String| s@)
}

/// Whether one of `ids` is `x`.
pub fn contains_str(ids: &Vec<String>, x: &str) -> (r: bool)
    ensures
        r == strings_view(ids@).contains(x@),
{
    let mut i: usize = 0;
    while i < ids.len()
        invariant
            i <= ids@.len(),
            forall|j: int| 0 <= j < i ==> ids@[j]@ != x@,
        decreases ids@.len() - i,
    {
        if str_eq(ids[i].as_str(), x) {
            assert(strings_view(ids@)[i as int] == x@);
            return true;
        }
        i = i + 1;
    }
    assert(!strings_view(ids@).contains(x@)) by {
        if strings_view(ids@).contains(x@) {
            let j = choose|j: int| 0 <= j < strings_view(ids@).len() && strings_view(ids@)[j] == x@;
            assert(ids@[j]@ == x@);
        }
    }
    false
}

/// A relation refers, through `f`, to one of `ids`.
pub open spec fn uses_any(item: LinkItemView, f: RelationField, ids: Seq<Seq<char>>) -> bool {
    match spec_field_value(item, f) {
        Some(v) => ids.contains(v),
        None => false,
    }
}

/// How many of the first `n` relations refer, through `f`, to one of `ids`.
pub open spec fn count_uses(rels: Seq<LinkItemView>, f: RelationField, ids: Seq<Seq<char>>, n: int) -> nat
    decreases n,
{
    if n <= 0 {
        0
    } else {
        count_uses(rels, f, ids, n - 1) + if uses_any(rels[n - 1], f, ids) { 1nat } else { 0nat }
    }
}

proof fn lemma_count_uses_bound(rels: Seq<LinkItemView>, f: RelationField, ids: Seq<Seq<char>>, n: int)
    requires
        0 <= n,
    ensures
        count_uses(rels, f, ids, n) <= n,
    decreases n,
{
    if n > 0 {
        lemma_count_uses_bound(rels, f, ids, n - 1);
    }
}

/// For each of the first `n` codes that has relations referring, through
/// `f`, to one of `ids`: its name and how many such relations it has.
pub open spec fn spec_occurences(links: Seq<LinkDetail>, f: RelationField, ids: Seq<Seq<char>>, n: int) -> Seq<(Seq<char>, nat)>
    decreases n,
{
    if n <= 0 {
        Seq::empty()
    } else {
        let c = count_uses(relations_view(links[n - 1].relations@), f, ids, links[n - 1].relations@.len() as int);
        let prev = spec_occurences(links, f, ids, n - 1);
        if c > 0 {
            prev.push((links[n - 1].name@, c))
        } else {
            prev
        }
    }
}

/// Occurrences seen as names and counts.
pub open spec fn occurences_view(o: Seq<OccurenceDetail>) -> Seq<(Seq<char>, nat)> {
    o.map_values(|d: OccurenceDetail| (d.relation@, d.items as nat))
}

/// How many relations of a code refer, through `f`, to one of `ids`.
pub fn count_in_link(link: &LinkDetail, f: RelationField, ids: &Vec<String>) -> (r: u64)
    ensures
        r as nat == count_uses(relations_view(link.relations@), f, strings_view(ids@), link.relations@.len() as int),
{
    let ghost rels = relations_view(link.relations@);
    let mut c: u64 = 0;
    let mut i: usize = 0;
    while i < link.relations.len()
        invariant
            i <= link.relations@.len(),
            rels == relations_view(link.relations@),
            c as nat == count_uses(rels, f, strings_view(ids@), i as int),
            c <= i,
        decreases link.relations@.len() - i,
    {
        let hit = match field_value(&link.relations[i], f) {
            Some(v) => contains_str(ids, v.as_str()),
            None => false,
        };
        assert(rels[i as int] == link.relations@[i as int]@);
        if hit {
            c = c + 1;
        }
        i = i + 1;
    }
    c
}

/// For each code whose relations refer, through `f`, to one of `ids`: its
/// name and how many of its relations do.
pub fn get_occurences_in(links: &Vec<LinkDetail>, f: RelationField, ids: &Vec<String>) -> (r: Vec<OccurenceDetail>)
    ensures
        occurences_view(r@) == spec_occurences(links@, f, strings_view(ids@), links@.len() as int),
{
    let mut r: Vec<OccurenceDetail> = Vec::new();
    let mut i: usize = 0;
    while i < links.len()
        invariant
            i <= links@.len(),
            occurences_view(r@) == spec_occurences(links@, f, strings_view(ids@), i as int),
        decreases links@.len() - i,
    {
        let c = count_in_link(&links[i], f, ids);
        let ghost prev = r@;
        if c > 0 {
            r.push(OccurenceDetail { relation: links[i].name.clone(), items: c });
            assert(occurences_view(r@) =~= occurences_view(prev).push((links@[i as int].name@, c as nat)));
        }
        i = i + 1;
    }
    r
}

/// For each code whose relations refer, through `f`, to `id`: its name and
/// how many of its relations do.
pub fn get_occurences(links: &Vec<LinkDetail>, f: RelationField, id: &str) -> (r: Vec<OccurenceDetail>)
    ensures
        occurences_view(r@) == spec_occurences(links@, f, seq![id@], links@.len() as int),
{
    let mut ids: Vec<String> = Vec::new();
    ids.push(id.to_string());
    assert(strings_view(ids@) =~= seq![id@]);
    get_occurences_in(links, f, &ids)
}

/// The total count of a list of occurrences.
pub open spec fn total_items(o: Seq<OccurenceDetail>, n: int) -> nat
    decreases n,
{
    if n <= 0 {
        0
    } else {
        total_items(o, n - 1) + o[n - 1].items as nat
    }
}

/// The refusal to delete a referential that codes use; `subject` names it,
/// as in "ce symbole car il est utilisé".
pub open spec fn in_use_message(subject: Seq<char>, o: Seq<OccurenceDetail>) -> Seq<char> {
    "Impossible de supprimer "@ + subject + " dans "@ + decimal(o.len()) + " relation(s) ("@
        + decimal(total_items(o, o.len() as int)) + " item(s) au total)"@
}

/// Whether a referential may be deleted given where it occurs: refused when
/// some code uses it.
pub fn check_unused(occurences: &Vec<OccurenceDetail>, subject: &str) -> (r: Result<(), String>)
    ensures
        occurences@.len() == 0 ==> r is Ok,
        occurences@.len() > 0 ==> (r matches Err(m) && m@ == in_use_message(subject@, occurences@)),
{
    if occurences.len() == 0 {
        return Ok(());
    }
    let mut total: u128 = 0;
    let mut i: usize = 0;
    while i < occurences.len()
        invariant
            i <= occurences@.len(),
            total as nat == total_items(occurences@, i as int),
            total <= i * 0xffff_ffff_ffff_ffffu128,
        decreases occurences@.len() - i,
    {
        assert(total + occurences@[i as int].items <= (i + 1) * 0xffff_ffff_ffff_ffffu128) by (nonlinear_arith)
            requires
                total <= i * 0xffff_ffff_ffff_ffffu128,
                occurences@[i as int].items <= 0xffff_ffff_ffff_ffffu128;
        assert((i + 1) * 0xffff_ffff_ffff_ffffu128 <= 0xffff_ffff_ffff_ffffu128 * 0xffff_ffff_ffff_ffffu128) by (nonlinear_arith)
            requires
                i + 1 <= 0xffff_ffff_ffff_ffffu128;
        total = total + occurences[i].items as u128;
        i = i + 1;
    }
    let a = concat3("Impossible de supprimer ", subject, " dans ");
    let n = u64_to_string(occurences.len() as u64);
    let b = concat3(a.as_str(), n.as_str(), " relation(s) (");
    let t = u128_to_string(total);
    Err(concat3(b.as_str(), t.as_str(), " item(s) au total)"))
}

/// The refusal to delete a color that circulars still use.
pub open spec fn color_in_use_message(count: u64) -> Seq<char> {
    "Impossible de supprimer cette color car elle est utilisée par "@ + decimal(count as nat)
        + " circulaire(s)"@
}

/// Whether a color may be deleted, given how many circulars use it.
pub fn check_color_unused(count: u64) -> (r: Result<(), String>)
    ensures
        count == 0 ==> r is Ok,
        count > 0 ==> (r matches Err(m) && m@ == color_in_use_message(count)),
{
    if count > 0 {
        let n = u64_to_string(count);
        Err(concat3("Impossible de supprimer cette color car elle est utilisée par ", n.as_str(), " circulaire(s)"))
    } else {
        Ok(())
    }
}

/// The message for an update that matched a document but changed nothing.
pub open spec fn unchanged_message() -> Seq<char> {
    "Aucune modification détectée (valeurs identiques)"@
}

/// The outcome of a partial update, from how many documents it matched and
/// modified: `not_found` when none matched, `updated` when one changed, and
/// a notice of no change otherwise.
pub fn partial_update_outcome(matched: u64, modified: u64, not_found: &str, updated: &str) -> (r: Result<String, String>)
    ensures
        matched == 0 ==> (r matches Err(m) && m@ == not_found@),
        matched > 0 && modified > 0 ==> (r matches Ok(m) && m@ == updated@),
        matched > 0 && modified == 0 ==> (r matches Ok(m) && m@ == unchanged_message()),
{
    if matched == 0 {
        Err(not_found.to_string())
    } else if modified > 0 {
        Ok(updated.to_string())
    } else {
        Ok("Aucune modification détectée (valeurs identiques)".to_string())
    }
}

/// A partial update that sets no field is refused.
pub fn check_update_not_empty(field_count: usize) -> (r: Result<(), String>)
    ensures
        field_count == 0 ==> (r matches Err(m) && m@ == "Aucun champ à mettre à jour"@),
        field_count > 0 ==> r is Ok,
{
    if field_count == 0 {
        Err("Aucun champ à mettre à jour".to_string())
    } else {
        Ok(())
    }
}

/// The outcome of writing a whole document or deleting one, from how many
/// documents it changed: `done` when one did, `not_found` otherwise.
pub fn write_outcome(changed: u64, done: &str, not_found: &str) -> (r: Result<String, String>)
    ensures
        changed > 0 ==> (r matches Ok(m) && m@ == done@),
        changed == 0 ==> (r matches Err(m) && m@ == not_found@),
{
    if changed > 0 {
        Ok(done.to_string())
    } else {
        Err(not_found.to_string())
    }
}

/// The report of a run that gave ids to relations.
pub fn fixed_ids_report(count: u64) -> (r: String)
    ensures
        r@ == decimal(count as nat) + " link(s) mis à jour avec succès"@,
{
    let n = u64_to_string(count);
    concat(n.as_str(), " link(s) mis à jour avec succès")
}


/// The pictures of a symbol once the picture `img_id` is marked as moved to
/// the media host: every picture with that id is marked, the others are kept
/// as they were.
pub fn mark_migrated(imgs: Vec<Img>, img_id: &str) -> (r: Vec<Img>)
    ensures
        r@.len() == imgs@.len(),
        forall|i: int| 0 <= i < r@.len() ==> {
            &&& (#[trigger] r@[i]).id == imgs@[i].id
            &&& r@[i].url == imgs@[i].url
            &&& r@[i].migrated == if imgs@[i].id@ == img_id@ { Some(true) } else { imgs@[i].migrated }
        },
{
    let mut r: Vec<Img> = Vec::new();
    let mut rest = imgs;
    let ghost s = rest@;
    assert(s.len() == rest.len());
    let mut back: Vec<Img> = Vec::new();
    while rest.len() > 0
        invariant
            s.len() <= usize::MAX,
            rest@ == s.subrange(0, rest@.len() as int),
            back@.len() + rest@.len() == s.len(),
            forall|k: int| 0 <= k < back@.len() ==> back@[k] == s[s.len() - 1 - k],
        decreases rest@.len(),
    {
        let x = rest.pop().unwrap();
        back.push(x);
        assert(rest@ =~= s.subrange(0, rest@.len() as int));
    }
    let mut i: usize = 0;
    while back.len() > 0
        invariant
            s.len() <= usize::MAX,
            i <= s.len(),
            back@.len() + i == s.len(),
            forall|k: int| 0 <= k < back@.len() ==> back@[k] == s[s.len() - 1 - k],
            r@.len() == i,
            forall|k: int| 0 <= k < i ==> {
                &&& (#[trigger] r@[k]).id == s[k].id
                &&& r@[k].url == s[k].url
                &&& r@[k].migrated == if s[k].id@ == img_id@ { Some(true) } else { s[k].migrated }
            },
        decreases back@.len(),
    {
        let x = back.pop().unwrap();
        assert(x == s[i as int]);
        let migrated = if crate::text::str_eq(x.id.as_str(), img_id) { Some(true) } else { x.migrated };
        r.push(Img { id: x.id, url: x.url, migrated });
        i = i + 1;
    }
    r
}


/// Each reference field that the occurrences read is the relation's field
/// of the same name: the placement, the position, the branch, the symbol,
/// the circular, the meaning, the symbol's sense and its accessory.
pub proof fn law_relation_fields_are_read_by_name(item: LinkItemView)
    ensures
        spec_field_value(item, RelationField::Placement) == Some(item.placement_id),
        spec_field_value(item, RelationField::Position) == item.position_id,
        spec_field_value(item, RelationField::Filiere) == item.filiere_id,
        spec_field_value(item, RelationField::Symbole) == item.symbole_id,
        spec_field_value(item, RelationField::Circulaire) == item.circulaire_id,
        spec_field_value(item, RelationField::Signification) == item.signification_id,
        spec_field_value(item, RelationField::SymboleSens) == item.symbole_sens_id,
        spec_field_value(item, RelationField::SymboleAccessoire) == item.symbole_accessory_id,
{
}

proof fn lemma_count_uses_positive(rels: Seq<LinkItemView>, f: RelationField, ids: Seq<Seq<char>>, n: int, j: int)
    requires
        0 <= j < n <= rels.len(),
        uses_any(rels[j], f, ids),
    ensures
        count_uses(rels, f, ids, n) >= 1,
    decreases n,
{
    if j < n - 1 {
        lemma_count_uses_positive(rels, f, ids, n - 1, j);
    }
}

proof fn lemma_occurences_hold(links: Seq<LinkDetail>, f: RelationField, ids: Seq<Seq<char>>, n: int, i: int)
    requires
        0 <= i < n <= links.len(),
        count_uses(relations_view(links[i].relations@), f, ids, links[i].relations@.len() as int) >= 1,
    ensures
        exists|k: int| 0 <= k < spec_occurences(links, f, ids, n).len()
            && (#[trigger] spec_occurences(links, f, ids, n)[k]).0 == links[i].name@
            && spec_occurences(links, f, ids, n)[k].1 >= 1,
    decreases n,
{
    let occ = spec_occurences(links, f, ids, n);
    if i == n - 1 {
        let k = occ.len() - 1;
        assert(occ[k].0 == links[i].name@);
    } else {
        lemma_occurences_hold(links, f, ids, n - 1, i);
        let prev = spec_occurences(links, f, ids, n - 1);
        let k = choose|k: int| 0 <= k < prev.len() && (#[trigger] prev[k]).0 == links[i].name@ && prev[k].1 >= 1;
        assert(occ[k] == prev[k]);
    }
}

/// A code with a relation whose circular is `id` is among the occurrences
/// of the circular `id`, with at least one relation; so is a code with a
/// relation that refers to `id` through any other reference field, read by
/// its name. A referential in use is never reported unused.
pub proof fn law_used_referential_is_reported(links: Seq<LinkDetail>, f: RelationField, id: Seq<char>, i: int, j: int)
    requires
        0 <= i < links.len(),
        0 <= j < links[i].relations@.len(),
        spec_field_value(links[i].relations@[j]@, f) == Some(id),
    ensures
        exists|k: int| 0 <= k < spec_occurences(links, f, seq![id], links.len() as int).len()
            && (#[trigger] spec_occurences(links, f, seq![id], links.len() as int)[k]).0 == links[i].name@
            && spec_occurences(links, f, seq![id], links.len() as int)[k].1 >= 1,
{
    let rels = relations_view(links[i].relations@);
    assert(rels[j] == links[i].relations@[j]@);
    assert(seq![id].contains(id)) by {
        assert(seq![id][0] == id);
    }
    lemma_count_uses_positive(rels, f, seq![id], links[i].relations@.len() as int, j);
    lemma_occurences_hold(links, f, seq![id], links.len() as int, i);
}

/// The occurrences of the circular `id` name every code with a relation
/// whose circular is `id`.
pub proof fn law_circular_in_use_is_reported(links: Seq<LinkDetail>, id: Seq<char>, i: int, j: int)
    requires
        0 <= i < links.len(),
        0 <= j < links[i].relations@.len(),
        links[i].relations@[j]@.circulaire_id == Some(id),
    ensures
        exists|k: int| 0 <= k < spec_occurences(links, RelationField::Circulaire, seq![id], links.len() as int).len()
            && (#[trigger] spec_occurences(links, RelationField::Circulaire, seq![id], links.len() as int)[k]).0 == links[i].name@
            && spec_occurences(links, RelationField::Circulaire, seq![id], links.len() as int)[k].1 >= 1,
{
    law_used_referential_is_reported(links, RelationField::Circulaire, id, i, j);
}


/// A relation added to a code keeps the id it was sent with; only one sent
/// without an id gets the fresh one. Every field it refers through is kept
/// as sent, and both its times are the time of the addition.
pub proof fn law_added_relation_keeps_its_id(d: LinkItemView, fresh_id: Seq<char>, now: Seq<char>)
    ensures
        d.id is Some ==> stamped_new(d, fresh_id, now).id == d.id,
        d.id is None ==> stamped_new(d, fresh_id, now).id == Some(fresh_id),
        stamped_new(d, fresh_id, now).placement_id == d.placement_id,
        stamped_new(d, fresh_id, now).position_id == d.position_id,
        stamped_new(d, fresh_id, now).filiere_id == d.filiere_id,
        stamped_new(d, fresh_id, now).symbole_id == d.symbole_id,
        stamped_new(d, fresh_id, now).circulaire_id == d.circulaire_id,
        stamped_new(d, fresh_id, now).signification_id == d.signification_id,
        stamped_new(d, fresh_id, now).symbole_sens_id == d.symbole_sens_id,
        stamped_new(d, fresh_id, now).symbole_accessory_id == d.symbole_accessory_id,
        stamped_new(d, fresh_id, now).spe == d.spe,
        stamped_new(d, fresh_id, now).absent == d.absent,
        stamped_new(d, fresh_id, now).blame == d.blame,
        stamped_new(d, fresh_id, now).created_at == Some(now),
        stamped_new(d, fresh_id, now).updated_at == Some(now),
{
}

/// A relation that replaces another keeps its id and every field it was
/// sent with, the creation time of the one it replaces, and the time of the
/// change as update time.
pub proof fn law_replaced_relation_is_as_sent(d: LinkItemView, replaced: LinkItemView, now: Seq<char>)
    ensures
        stamped_update(d, replaced, now).id == d.id,
        stamped_update(d, replaced, now).placement_id == d.placement_id,
        stamped_update(d, replaced, now).position_id == d.position_id,
        stamped_update(d, replaced, now).filiere_id == d.filiere_id,
        stamped_update(d, replaced, now).symbole_id == d.symbole_id,
        stamped_update(d, replaced, now).circulaire_id == d.circulaire_id,
        stamped_update(d, replaced, now).signification_id == d.signification_id,
        stamped_update(d, replaced, now).symbole_sens_id == d.symbole_sens_id,
        stamped_update(d, replaced, now).symbole_accessory_id == d.symbole_accessory_id,
        stamped_update(d, replaced, now).spe == d.spe,
        stamped_update(d, replaced, now).absent == d.absent,
        stamped_update(d, replaced, now).blame == d.blame,
        stamped_update(d, replaced, now).created_at == replaced.created_at,
        stamped_update(d, replaced, now).updated_at == Some(now),
{
}

} // verus!
