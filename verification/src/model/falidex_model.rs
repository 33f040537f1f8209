//! The referentials of the decoration catalogue, and the codes (links) that
//! relate them.
use vstd::prelude::*;

verus! {

/// A copy of an optional string.
pub fn clone_opt(o: &Option<String>) -> (r: Option<String>)
    ensures
        r == *o,
{
    match o {
        Some(s) => Some(s.clone()),
        None => None,
    }
}

#[derive(Debug, Clone)]
pub struct Circulaire {
    pub matiere: String,
    pub name: String,
    pub id: String,
}

#[derive(Debug, Clone)]
pub struct Color {
    pub id: String,
    pub name: String,
    pub color_data: String,
}

#[derive(Debug, Clone)]
pub struct Filiere {
    pub name: String,
    pub id: String,
}

#[derive(Debug, Clone)]
pub struct Placement {
    pub name: String,
    pub id: String,
}

#[derive(Debug, Clone)]
pub struct Position {
    pub name: String,
    pub id: String,
}

#[derive(Debug, Clone)]
pub struct Signification {
    pub content: String,
    pub id: String,
}

#[derive(Debug, Clone)]
pub struct SymboleAccessoire {
    pub name: String,
    pub id: String,
}

#[derive(Debug, Clone)]
pub struct SymboleSens {
    pub name: String,
    pub id: String,
}

/// A picture of a symbol.
#[derive(Debug, Clone)]
pub struct Img {
    pub id: String,
    pub url: String,
    pub migrated: Option<bool>,
}

#[derive(Debug, Clone)]
pub struct Symbole {
    pub name: String,
    pub id: String,
    pub imgs: Option<Vec<Img>>,
}

#[derive(Debug, Clone)]
pub struct CirculaireColor {
    pub id: String,
    pub circulaire_id: String,
    pub color_ids: Vec<String>,
}

/// A code, as listed.
#[derive(Debug, Clone)]
pub struct Link {
    pub name: String,
    pub id: String,
    pub last_update: String,
}

/// A code with its relations.
#[derive(Debug, Clone)]
pub struct LinkDetail {
    pub name: String,
    pub id: String,
    pub relations: Vec<LinkItem>,
    pub specificites: Vec<Specificite>,
    pub annee: Option<u64>,
    pub last_update: String,
    pub created_at: Option<String>,
    pub default: Option<bool>,
    pub visible: Option<bool>,
    pub editable: Option<bool>,
    pub national: Option<bool>,
    pub ville: Option<String>,
}

/// A code as a client sends it for an update.
#[derive(Debug, Clone)]
pub struct LinkDetailReq {
    pub name: String,
    pub id: String,
    pub relations: Vec<LinkItem>,
    pub specificites: Vec<Specificite>,
    pub created_at: Option<String>,
    pub last_update: Option<String>,
    pub annee: Option<u64>,
    pub default: Option<bool>,
    pub visible: Option<bool>,
    pub editable: Option<bool>,
    pub national: Option<bool>,
    pub ville: Option<String>,
}

/// A code as a client sends it for a creation.
#[derive(Debug, Clone)]
pub struct CreateLinkDetail {
    pub id: Option<String>,
    pub name: String,
    pub relations: Vec<LinkItem>,
    pub specificites: Vec<Specificite>,
    pub created_at: Option<String>,
    pub last_update: Option<String>,
    pub annee: Option<u64>,
    pub default: Option<bool>,
    pub visible: Option<bool>,
    pub editable: Option<bool>,
    pub national: Option<bool>,
    pub ville: Option<String>,
}

#[derive(Debug, Clone)]
pub struct Specificite {
    pub name: String,
    pub text: String,
    pub id: Option<String>,
    pub article: Option<String>,
    pub note: Option<String>,
}

/// One relation of a code: a placement, and the referentials it ties to it.
#[derive(Debug, Clone)]
pub struct LinkItem {
    pub id: Option<String>,
    pub placement_id: String,
    pub position_id: Option<String>,
    pub filiere_id: Option<String>,
    pub symbole_id: Option<String>,
    pub circulaire_id: Option<String>,
    pub signification_id: Option<String>,
    pub symbole_sens_id: Option<String>,
    pub symbole_accessory_id: Option<String>,
    pub created_at: Option<String>,
    pub updated_at: Option<String>,
    pub spe: Option<bool>,
    pub absent: Option<bool>,
    pub blame: Option<bool>,
}

/// A relation, with its strings seen as character sequences.
pub struct LinkItemView {
    pub id: Option<Seq<char>>,
    pub placement_id: Seq<char>,
    pub position_id: Option<Seq<char>>,
    pub filiere_id: Option<Seq<char>>,
    pub symbole_id: Option<Seq<char>>,
    pub circulaire_id: Option<Seq<char>>,
    pub signification_id: Option<Seq<char>>,
    pub symbole_sens_id: Option<Seq<char>>,
    pub symbole_accessory_id: Option<Seq<char>>,
    pub created_at: Option<Seq<char>>,
    pub updated_at: Option<Seq<char>>,
    pub spe: Option<bool>,
    pub absent: Option<bool>,
    pub blame: Option<bool>,
}

impl View for LinkItem {
    type V = LinkItemView;

    open spec fn view(&self) -> LinkItemView {
        LinkItemView {
            id: self.id.deep_view(),
            placement_id: self.placement_id@,
            position_id: self.position_id.deep_view(),
            filiere_id: self.filiere_id.deep_view(),
            symbole_id: self.symbole_id.deep_view(),
            circulaire_id: self.circulaire_id.deep_view(),
            signification_id: self.signification_id.deep_view(),
            symbole_sens_id: self.symbole_sens_id.deep_view(),
            symbole_accessory_id: self.symbole_accessory_id.deep_view(),
            created_at: self.created_at.deep_view(),
            updated_at: self.updated_at.deep_view(),
            spe: self.spe,
            absent: self.absent,
            blame: self.blame,
        }
    }
}

impl LinkItem {
    /// A copy of this relation.
    pub fn copy(&self) -> (r: LinkItem)
        ensures
            r == *self,
    {
        LinkItem {
            id: clone_opt(&self.id),
            placement_id: self.placement_id.clone(),
            position_id: clone_opt(&self.position_id),
            filiere_id: clone_opt(&self.filiere_id),
            symbole_id: clone_opt(&self.symbole_id),
            circulaire_id: clone_opt(&self.circulaire_id),
            signification_id: clone_opt(&self.signification_id),
            symbole_sens_id: clone_opt(&self.symbole_sens_id),
            symbole_accessory_id: clone_opt(&self.symbole_accessory_id),
            created_at: clone_opt(&self.created_at),
            updated_at: clone_opt(&self.updated_at),
            spe: self.spe,
            absent: self.absent,
            blame: self.blame,
        }
    }
}

/// The relations of a code, each seen as a `LinkItemView`.
pub open spec fn relations_view(relations: Seq<LinkItem>) -> Seq<LinkItemView> {
    relations.map_values(|r: LinkItem| r@)
}

/// How many relations of a code use a referential.
#[derive(Debug, Clone)]
pub struct OccurenceDetail {
    pub relation: String,
    pub items: u64,
}

/// One line of the activity log.
#[derive(Debug, Clone)]
pub struct Log {
    pub id: String,
    pub date: String,
    pub user_id: String,
    pub info: String,
}

/// A circular to insert.
#[derive(Debug, Clone)]
pub struct CreateCirculaire {
    pub id: String,
    pub matiere: String,
    pub name: String,
}

/// The fields of a circular to change.
#[derive(Debug, Clone)]
pub struct UpdateCirculaire {
    pub matiere: Option<String>,
    pub name: Option<String>,
}

/// A color to insert.
#[derive(Debug, Clone)]
pub struct CreateColor {
    pub id: String,
    pub name: String,
    pub color_data: String,
}

/// The fields of a color to change.
#[derive(Debug, Clone)]
pub struct UpdateColor {
    pub name: Option<String>,
    pub color_data: Option<String>,
}

/// A branch to insert.
#[derive(Debug, Clone)]
pub struct CreateFiliere {
    pub id: String,
    pub name: String,
}

/// The fields of a branch to change.
#[derive(Debug, Clone)]
pub struct UpdateFiliere {
    pub name: Option<String>,
}

/// A placement to insert.
#[derive(Debug, Clone)]
pub struct CreatePlacement {
    pub id: String,
    pub name: String,
}

/// The fields of a placement to change.
#[derive(Debug, Clone)]
pub struct UpdatePlacement {
    pub name: Option<String>,
}

/// A position to insert.
#[derive(Debug, Clone)]
pub struct CreatePosition {
    pub id: String,
    pub name: String,
}

/// The fields of a position to change.
#[derive(Debug, Clone)]
pub struct UpdatePosition {
    pub name: Option<String>,
}

/// A meaning to insert.
#[derive(Debug, Clone)]
pub struct CreateSignification {
    pub id: String,
    pub content: String,
}

/// The fields of a meaning to change.
#[derive(Debug, Clone)]
pub struct UpdateSignification {
    pub content: Option<String>,
}

/// An accessory to insert.
#[derive(Debug, Clone)]
pub struct CreateSymboleAccessoire {
    pub id: String,
    pub name: String,
}

/// The fields of an accessory to change.
#[derive(Debug, Clone)]
pub struct UpdateSymboleAccessoire {
    pub name: Option<String>,
}

/// A symbol direction to insert.
#[derive(Debug, Clone)]
pub struct CreateSymboleSens {
    pub id: String,
    pub name: String,
}

/// The fields of a symbol direction to change.
#[derive(Debug, Clone)]
pub struct UpdateSymboleSens {
    pub name: Option<String>,
}

/// A symbol to insert.
#[derive(Debug, Clone)]
pub struct CreateSymbole {
    pub id: String,
    pub name: String,
}

/// The fields of a symbol to change.
#[derive(Debug, Clone)]
pub struct UpdateSymbole {
    pub name: Option<String>,
    pub imgs: Option<Vec<Img>>,
}

/// A tie between a circular and colors, to insert.
#[derive(Debug, Clone)]
pub struct CreateCirculaireColor {
    pub id: String,
    pub circulaire_id: String,
    pub color_ids: Vec<String>,
}

/// The fields of a tie between a circular and colors to change.
#[derive(Debug, Clone)]
pub struct UpdateCirculaireColor {
    pub circulaire_id: Option<String>,
    pub color_ids: Option<Vec<String>>,
}

} // verus!
