//! The bodies of the catalogue's create and update requests, and how they
//! become the records that are stored.
use vstd::prelude::*;
use vstd::std_specs::convert::FromSpecImpl;
use crate::fresh::{new_object_id_hex, new_uuid, now_rfc3339};
use crate::model::falidex_model::{CreateLinkDetail, LinkDetail, LinkDetailReq, CreateCirculaire, UpdateCirculaire, CreateColor, UpdateColor, CreateFiliere, UpdateFiliere, CreatePlacement, UpdatePlacement, CreatePosition, UpdatePosition, CreateSignification, UpdateSignification, CreateSymboleAccessoire, UpdateSymboleAccessoire, CreateSymboleSens, UpdateSymboleSens, CreateSymbole, UpdateSymbole, CreateCirculaireColor, UpdateCirculaireColor, Img};

verus! {

/// The body of a request that creates a circular.
#[derive(Debug, Clone)]
pub struct CirculaireCreateReq {
    pub matiere: String,
    pub name: String,
}

impl CirculaireCreateReq {
    /// The record to insert, under a fresh random id.
    pub fn into_create(self) -> (r: CreateCirculaire)
        ensures
            r.matiere == self.matiere,
            r.name == self.name,
            r.id@.len() == 36,
    {
        CreateCirculaire { id: new_uuid(), matiere: self.matiere, name: self.name }
    }
}

/// The body of a request that changes a circular: the fields to change.
#[derive(Debug, Clone)]
pub struct CirculaireUpdateReq {
    pub matiere: Option<String>,
    pub name: Option<String>,
}

impl From<CirculaireUpdateReq> for UpdateCirculaire {
    fn from(req: CirculaireUpdateReq) -> (r: Self)
        ensures
            r.matiere == req.matiere,
            r.name == req.name,
    {
        UpdateCirculaire { matiere: req.matiere, name: req.name }
    }
}

impl FromSpecImpl<CirculaireUpdateReq> for UpdateCirculaire {
    open spec fn obeys_from_spec() -> bool {
        true
    }

    open spec fn from_spec(req: CirculaireUpdateReq) -> Self {
        UpdateCirculaire { matiere: req.matiere, name: req.name }
    }
}

/// The body of a request that creates a color.
#[derive(Debug, Clone)]
pub struct ColorCreateReq {
    pub name: String,
    pub color_data: String,
}

impl ColorCreateReq {
    /// The record to insert, under a fresh random id.
    pub fn into_create(self) -> (r: CreateColor)
        ensures
            r.name == self.name,
            r.color_data == self.color_data,
            r.id@.len() == 36,
    {
        CreateColor { id: new_uuid(), name: self.name, color_data: self.color_data }
    }
}

/// The body of a request that changes a color: the fields to change.
#[derive(Debug, Clone)]
pub struct ColorUpdateReq {
    pub name: Option<String>,
    pub color_data: Option<String>,
}

impl From<ColorUpdateReq> for UpdateColor {
    fn from(req: ColorUpdateReq) -> (r: Self)
        ensures
            r.name == req.name,
            r.color_data == req.color_data,
    {
        UpdateColor { name: req.name, color_data: req.color_data }
    }
}

impl FromSpecImpl<ColorUpdateReq> for UpdateColor {
    open spec fn obeys_from_spec() -> bool {
        true
    }

    open spec fn from_spec(req: ColorUpdateReq) -> Self {
        UpdateColor { name: req.name, color_data: req.color_data }
    }
}

/// The body of a request that creates a branch.
#[derive(Debug, Clone)]
pub struct FiliereCreateReq {
    pub name: String,
}

impl FiliereCreateReq {
    /// The record to insert, under a fresh random id.
    pub fn into_create(self) -> (r: CreateFiliere)
        ensures
            r.name == self.name,
            r.id@.len() == 36,
    {
        CreateFiliere { id: new_uuid(), name: self.name }
    }
}

/// The body of a request that changes a branch: the fields to change.
#[derive(Debug, Clone)]
pub struct FiliereUpdateReq {
    pub name: Option<String>,
}

impl From<FiliereUpdateReq> for UpdateFiliere {
    fn from(req: FiliereUpdateReq) -> (r: Self)
        ensures
            r.name == req.name,
    {
        UpdateFiliere { name: req.name }
    }
}

impl FromSpecImpl<FiliereUpdateReq> for UpdateFiliere {
    open spec fn obeys_from_spec() -> bool {
        true
    }

    open spec fn from_spec(req: FiliereUpdateReq) -> Self {
        UpdateFiliere { name: req.name }
    }
}

/// The body of a request that creates a placement.
#[derive(Debug, Clone)]
pub struct PlacementCreateReq {
    pub name: String,
}

impl PlacementCreateReq {
    /// The record to insert, under a fresh random id.
    pub fn into_create(self) -> (r: CreatePlacement)
        ensures
            r.name == self.name,
            r.id@.len() == 36,
    {
        CreatePlacement { id: new_uuid(), name: self.name }
    }
}

/// The body of a request that changes a placement: the fields to change.
#[derive(Debug, Clone)]
pub struct PlacementUpdateReq {
    pub name: Option<String>,
}

impl From<PlacementUpdateReq> for UpdatePlacement {
    fn from(req: PlacementUpdateReq) -> (r: Self)
        ensures
            r.name == req.name,
    {
        UpdatePlacement { name: req.name }
    }
}

impl FromSpecImpl<PlacementUpdateReq> for UpdatePlacement {
    open spec fn obeys_from_spec() -> bool {
        true
    }

    open spec fn from_spec(req: PlacementUpdateReq) -> Self {
        UpdatePlacement { name: req.name }
    }
}

/// The body of a request that creates a position.
#[derive(Debug, Clone)]
pub struct PositionCreateReq {
    pub name: String,
}

impl PositionCreateReq {
    /// The record to insert, under a fresh random id.
    pub fn into_create(self) -> (r: CreatePosition)
        ensures
            r.name == self.name,
            r.id@.len() == 36,
    {
        CreatePosition { id: new_uuid(), name: self.name }
    }
}

/// The body of a request that changes a position: the fields to change.
#[derive(Debug, Clone)]
pub struct PositionUpdateReq {
    pub name: Option<String>,
}

impl From<PositionUpdateReq> for UpdatePosition {
    fn from(req: PositionUpdateReq) -> (r: Self)
        ensures
            r.name == req.name,
    {
        UpdatePosition { name: req.name }
    }
}

impl FromSpecImpl<PositionUpdateReq> for UpdatePosition {
    open spec fn obeys_from_spec() -> bool {
        true
    }

    open spec fn from_spec(req: PositionUpdateReq) -> Self {
        UpdatePosition { name: req.name }
    }
}

/// The body of a request that creates a meaning.
#[derive(Debug, Clone)]
pub struct SignificationCreateReq {
    pub content: String,
}

impl SignificationCreateReq {
    /// The record to insert, under a fresh random id.
    pub fn into_create(self) -> (r: CreateSignification)
        ensures
            r.content == self.content,
            r.id@.len() == 36,
    {
        CreateSignification { id: new_uuid(), content: self.content }
    }
}

/// The body of a request that changes a meaning: the fields to change.
#[derive(Debug, Clone)]
pub struct SignificationUpdateReq {
    pub content: Option<String>,
}

impl From<SignificationUpdateReq> for UpdateSignification {
    fn from(req: SignificationUpdateReq) -> (r: Self)
        ensures
            r.content == req.content,
    {
        UpdateSignification { content: req.content }
    }
}

impl FromSpecImpl<SignificationUpdateReq> for UpdateSignification {
    open spec fn obeys_from_spec() -> bool {
        true
    }

    open spec fn from_spec(req: SignificationUpdateReq) -> Self {
        UpdateSignification { content: req.content }
    }
}

/// The body of a request that creates an accessory.
#[derive(Debug, Clone)]
pub struct SymboleAccessoireCreateReq {
    pub name: String,
}

impl SymboleAccessoireCreateReq {
    /// The record to insert, under a fresh random id.
    pub fn into_create(self) -> (r: CreateSymboleAccessoire)
        ensures
            r.name == self.name,
            r.id@.len() == 36,
    {
        CreateSymboleAccessoire { id: new_uuid(), name: self.name }
    }
}

/// The body of a request that changes an accessory: the fields to change.
#[derive(Debug, Clone)]
pub struct SymboleAccessoireUpdateReq {
    pub name: Option<String>,
}

impl From<SymboleAccessoireUpdateReq> for UpdateSymboleAccessoire {
    fn from(req: SymboleAccessoireUpdateReq) -> (r: Self)
        ensures
            r.name == req.name,
    {
        UpdateSymboleAccessoire { name: req.name }
    }
}

impl FromSpecImpl<SymboleAccessoireUpdateReq> for UpdateSymboleAccessoire {
    open spec fn obeys_from_spec() -> bool {
        true
    }

    open spec fn from_spec(req: SymboleAccessoireUpdateReq) -> Self {
        UpdateSymboleAccessoire { name: req.name }
    }
}

/// The body of a request that creates a symbol direction.
#[derive(Debug, Clone)]
pub struct SymboleSensCreateReq {
    pub name: String,
}

impl SymboleSensCreateReq {
    /// The record to insert, under a fresh random id.
    pub fn into_create(self) -> (r: CreateSymboleSens)
        ensures
            r.name == self.name,
            r.id@.len() == 36,
    {
        CreateSymboleSens { id: new_uuid(), name: self.name }
    }
}

/// The body of a request that changes a symbol direction: the fields to change.
#[derive(Debug, Clone)]
pub struct SymboleSensUpdateReq {
    pub name: Option<String>,
}

impl From<SymboleSensUpdateReq> for UpdateSymboleSens {
    fn from(req: SymboleSensUpdateReq) -> (r: Self)
        ensures
            r.name == req.name,
    {
        UpdateSymboleSens { name: req.name }
    }
}

impl FromSpecImpl<SymboleSensUpdateReq> for UpdateSymboleSens {
    open spec fn obeys_from_spec() -> bool {
        true
    }

    open spec fn from_spec(req: SymboleSensUpdateReq) -> Self {
        UpdateSymboleSens { name: req.name }
    }
}

/// The body of a request that creates a symbol.
#[derive(Debug, Clone)]
pub struct SymboleCreateReq {
    pub name: String,
    pub imgs: Option<Vec<Img>>,
}

impl SymboleCreateReq {
    /// The record to insert, under a fresh random id.
    pub fn into_create(self) -> (r: CreateSymbole)
        ensures
            r.name == self.name,
            r.id@.len() == 36,
    {
        CreateSymbole { id: new_uuid(), name: self.name }
    }
}

/// The body of a request that changes a symbol: the fields to change.
#[derive(Debug, Clone)]
pub struct SymboleUpdateReq {
    pub name: Option<String>,
    pub imgs: Option<Vec<Img>>,
}

impl From<SymboleUpdateReq> for UpdateSymbole {
    fn from(req: SymboleUpdateReq) -> (r: Self)
        ensures
            r.name == req.name,
            r.imgs == req.imgs,
    {
        UpdateSymbole { name: req.name, imgs: req.imgs }
    }
}

impl FromSpecImpl<SymboleUpdateReq> for UpdateSymbole {
    open spec fn obeys_from_spec() -> bool {
        true
    }

    open spec fn from_spec(req: SymboleUpdateReq) -> Self {
        UpdateSymbole { name: req.name, imgs: req.imgs }
    }
}

/// The body of a request that creates a tie between a circular and colors.
#[derive(Debug, Clone)]
pub struct CirculaireColorCreateReq {
    pub circulaire_id: String,
    pub color_ids: Vec<String>,
}

impl CirculaireColorCreateReq {
    /// The record to insert, under a fresh random id.
    pub fn into_create(self) -> (r: CreateCirculaireColor)
        ensures
            r.circulaire_id == self.circulaire_id,
            r.color_ids == self.color_ids,
            r.id@.len() == 36,
    {
        CreateCirculaireColor { id: new_uuid(), circulaire_id: self.circulaire_id, color_ids: self.color_ids }
    }
}

/// The body of a request that changes a tie between a circular and colors: the fields to change.
#[derive(Debug, Clone)]
pub struct CirculaireColorUpdateReq {
    pub circulaire_id: Option<String>,
    pub color_ids: Option<Vec<String>>,
}

impl From<CirculaireColorUpdateReq> for UpdateCirculaireColor {
    fn from(req: CirculaireColorUpdateReq) -> (r: Self)
        ensures
            r.circulaire_id == req.circulaire_id,
            r.color_ids == req.color_ids,
    {
        UpdateCirculaireColor { circulaire_id: req.circulaire_id, color_ids: req.color_ids }
    }
}

impl FromSpecImpl<CirculaireColorUpdateReq> for UpdateCirculaireColor {
    open spec fn obeys_from_spec() -> bool {
        true
    }

    open spec fn from_spec(req: CirculaireColorUpdateReq) -> Self {
        UpdateCirculaireColor { circulaire_id: req.circulaire_id, color_ids: req.color_ids }
    }
}


/// The code that an update request stores at time `now`: as sent, its
/// creation date kept or set to `now`, its last update `now`.
pub fn link_detail_from_req_at(payload: LinkDetailReq, now: String) -> (r: LinkDetail)
    ensures
        r.id == payload.id,
        r.name == payload.name,
        r.relations == payload.relations,
        r.specificites == payload.specificites,
        r.annee == payload.annee,
        r.created_at == (match payload.created_at { Some(c) => Some(c), None => Some(now) }),
        r.last_update == now,
        r.default == payload.default,
        r.visible == payload.visible,
        r.editable == payload.editable,
        r.national == payload.national,
        r.ville == payload.ville,
{
    let created_at = match payload.created_at {
        Some(c) => Some(c),
        None => Some(now.clone()),
    };
    LinkDetail {
        id: payload.id,
        name: payload.name,
        relations: payload.relations,
        specificites: payload.specificites,
        annee: payload.annee,
        created_at,
        last_update: now,
        default: payload.default,
        visible: payload.visible,
        editable: payload.editable,
        national: payload.national,
        ville: payload.ville,
    }
}

/// The code that an update request stores now.
pub fn link_detail_from_req(payload: LinkDetailReq) -> (r: LinkDetail)
    ensures
        r.id == payload.id,
        r.name == payload.name,
        r.relations == payload.relations,
        r.specificites == payload.specificites,
        r.annee == payload.annee,
        r.created_at == (match payload.created_at { Some(c) => Some(c), None => Some(r.last_update) }),
        r.default == payload.default,
        r.visible == payload.visible,
        r.editable == payload.editable,
        r.national == payload.national,
        r.ville == payload.ville,
{
    link_detail_from_req_at(payload, now_rfc3339())
}

/// A creation request completed at time `now`: an id `fresh_id` when it has
/// none, and both dates set to `now`.
pub fn prepare_create_link_at(payload: CreateLinkDetail, now: String, fresh_id: String) -> (r: CreateLinkDetail)
    ensures
        r.id == (match payload.id { Some(i) => Some(i), None => Some(fresh_id) }),
        r.created_at == Some(now),
        r.last_update == Some(now),
        r.name == payload.name,
        r.relations == payload.relations,
        r.specificites == payload.specificites,
        r.annee == payload.annee,
        r.default == payload.default,
        r.visible == payload.visible,
        r.editable == payload.editable,
        r.national == payload.national,
        r.ville == payload.ville,
{
    let mut payload = payload;
    if payload.id.is_none() {
        payload.id = Some(fresh_id);
    }
    payload.created_at = Some(now.clone());
    payload.last_update = Some(now);
    payload
}

/// A creation request completed now, with a fresh object id when it has none.
pub fn prepare_create_link(payload: CreateLinkDetail) -> (r: CreateLinkDetail)
    ensures
        payload.id is Some ==> r.id == payload.id,
        r.id is Some,
        r.created_at is Some,
        r.created_at == r.last_update,
        r.name == payload.name,
        r.relations == payload.relations,
        r.specificites == payload.specificites,
        r.annee == payload.annee,
        r.default == payload.default,
        r.visible == payload.visible,
        r.editable == payload.editable,
        r.national == payload.national,
        r.ville == payload.ville,
{
    let fresh_id = new_object_id_hex();
    prepare_create_link_at(payload, now_rfc3339(), fresh_id)
}


/// Turning a `CirculaireUpdateReq` into the update stored keeps every field it
/// carries, as it is: a field sent is set, a field left out stays unchanged.
pub proof fn law_circulaire_update_keeps_its_fields(req: CirculaireUpdateReq)
    ensures
        <UpdateCirculaire as vstd::std_specs::convert::FromSpec<CirculaireUpdateReq>>::from_spec(req).matiere == req.matiere,
        <UpdateCirculaire as vstd::std_specs::convert::FromSpec<CirculaireUpdateReq>>::from_spec(req).name == req.name,
{
}

/// Turning a `ColorUpdateReq` into the update stored keeps every field it
/// carries, as it is: a field sent is set, a field left out stays unchanged.
pub proof fn law_color_update_keeps_its_fields(req: ColorUpdateReq)
    ensures
        <UpdateColor as vstd::std_specs::convert::FromSpec<ColorUpdateReq>>::from_spec(req).name == req.name,
        <UpdateColor as vstd::std_specs::convert::FromSpec<ColorUpdateReq>>::from_spec(req).color_data == req.color_data,
{
}

/// Turning a `FiliereUpdateReq` into the update stored keeps every field it
/// carries, as it is: a field sent is set, a field left out stays unchanged.
pub proof fn law_filiere_update_keeps_its_fields(req: FiliereUpdateReq)
    ensures
        <UpdateFiliere as vstd::std_specs::convert::FromSpec<FiliereUpdateReq>>::from_spec(req).name == req.name,
{
}

/// Turning a `PlacementUpdateReq` into the update stored keeps every field it
/// carries, as it is: a field sent is set, a field left out stays unchanged.
pub proof fn law_placement_update_keeps_its_fields(req: PlacementUpdateReq)
    ensures
        <UpdatePlacement as vstd::std_specs::convert::FromSpec<PlacementUpdateReq>>::from_spec(req).name == req.name,
{
}

/// Turning a `PositionUpdateReq` into the update stored keeps every field it
/// carries, as it is: a field sent is set, a field left out stays unchanged.
pub proof fn law_position_update_keeps_its_fields(req: PositionUpdateReq)
    ensures
        <UpdatePosition as vstd::std_specs::convert::FromSpec<PositionUpdateReq>>::from_spec(req).name == req.name,
{
}

/// Turning a `SignificationUpdateReq` into the update stored keeps every field it
/// carries, as it is: a field sent is set, a field left out stays unchanged.
pub proof fn law_signification_update_keeps_its_fields(req: SignificationUpdateReq)
    ensures
        <UpdateSignification as vstd::std_specs::convert::FromSpec<SignificationUpdateReq>>::from_spec(req).content == req.content,
{
}

/// Turning a `SymboleAccessoireUpdateReq` into the update stored keeps every field it
/// carries, as it is: a field sent is set, a field left out stays unchanged.
pub proof fn law_symbole_accessoire_update_keeps_its_fields(req: SymboleAccessoireUpdateReq)
    ensures
        <UpdateSymboleAccessoire as vstd::std_specs::convert::FromSpec<SymboleAccessoireUpdateReq>>::from_spec(req).name == req.name,
{
}

/// Turning a `SymboleSensUpdateReq` into the update stored keeps every field it
/// carries, as it is: a field sent is set, a field left out stays unchanged.
pub proof fn law_symbole_sens_update_keeps_its_fields(req: SymboleSensUpdateReq)
    ensures
        <UpdateSymboleSens as vstd::std_specs::convert::FromSpec<SymboleSensUpdateReq>>::from_spec(req).name == req.name,
{
}

/// Turning a `SymboleUpdateReq` into the update stored keeps every field it
/// carries, as it is: a field sent is set, a field left out stays unchanged.
pub proof fn law_symbole_update_keeps_its_fields(req: SymboleUpdateReq)
    ensures
        <UpdateSymbole as vstd::std_specs::convert::FromSpec<SymboleUpdateReq>>::from_spec(req).name == req.name,
        <UpdateSymbole as vstd::std_specs::convert::FromSpec<SymboleUpdateReq>>::from_spec(req).imgs == req.imgs,
{
}

/// Turning a `CirculaireColorUpdateReq` into the update stored keeps every field it
/// carries, as it is: a field sent is set, a field left out stays unchanged.
pub proof fn law_circulaire_color_update_keeps_its_fields(req: CirculaireColorUpdateReq)
    ensures
        <UpdateCirculaireColor as vstd::std_specs::convert::FromSpec<CirculaireColorUpdateReq>>::from_spec(req).circulaire_id == req.circulaire_id,
        <UpdateCirculaireColor as vstd::std_specs::convert::FromSpec<CirculaireColorUpdateReq>>::from_spec(req).color_ids == req.color_ids,
{
}

} // verus!
