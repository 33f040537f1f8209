//! What the media host answers, and the records that the library keeps of
//! its assets.
use vstd::prelude::*;

verus! {

/// The answer of the media host to an upload.
#[derive(Debug, Clone)]
pub struct CloudinaryUploadResponse {
    pub asset_id: Option<String>,
    pub public_id: Option<String>,
    pub version: Option<u64>,
    pub signature: Option<String>,
    pub width: Option<u32>,
    pub height: Option<u32>,
    pub format: Option<String>,
    pub resource_type: Option<String>,
    pub created_at: Option<String>,
    pub tags: Option<Vec<String>>,
    pub bytes: Option<u64>,
    /// The delivery type of the asset (`type` in the answer).
    pub delivery_type: Option<String>,
    pub etag: Option<String>,
    pub placeholder: Option<bool>,
    pub url: Option<String>,
    pub secure_url: Option<String>,
    pub folder: Option<String>,
    pub original_filename: Option<String>,
    pub error: Option<CloudinaryError>,
}

/// An error that the media host reports.
#[derive(Debug, Clone)]
pub struct CloudinaryError {
    pub message: String,
}

/// Where a picture of a symbol is served, in full and as a thumbnail.
#[derive(Debug, Clone)]
pub struct AssetUrl {
    pub id: String,
    pub url: String,
    pub thumbnail: String,
}

/// The parameters of a signed deletion.
#[derive(Debug, Clone)]
pub struct DeleteParams {
    pub asset_id: String,
    pub signature: String,
    pub api_key: String,
    pub timestamp: String,
}

/// An asset as the media host lists it.
#[derive(Debug, Clone)]
pub struct CloudinaryAsset {
    pub public_id: String,
    pub asset_id: String,
}

/// An asset with the local id under which the library serves it.
#[derive(Debug, Clone)]
pub struct CloudinaryAssetWithId {
    pub id: String,
    pub public_id: String,
    pub asset_id: String,
}

/// The answer of the media host to a search.
#[derive(Debug, Clone)]
pub struct CloudinarySearchResponse {
    pub resources: Vec<CloudinaryAsset>,
}

} // verus!
