//! Moving the pictures of the symbols from the former image server to the
//! media host: where a picture is fetched from, and what is reported.
use vstd::prelude::*;
use crate::model::falidex_model::Img;
use crate::text::{chars_of, concat, concat3, string_from_chars, sub_chars};

verus! {

/// The path of a picture on the former server: its URL without one leading
/// `/`.
pub open spec fn relative_path(url: Seq<char>) -> Seq<char> {
    if url.len() > 0 && url[0] == '/' {
        url.subrange(1, url.len() as int)
    } else {
        url
    }
}

/// The address the former server serves a picture at.
pub open spec fn spec_migration_source_url(url: Seq<char>) -> Seq<char> {
    "https://resources.falidex.fr/index.php?getPicture="@ + relative_path(url) + "&littleSalty=iBhodGT6GTqS6Bb"@
}

/// The address the former server serves the picture of URL `url` at.
pub fn migration_source_url(url: &str) -> (r: String)
    ensures
        r@ == spec_migration_source_url(url@),
{
    let c = chars_of(url);
    let path = if c.len() > 0 && c[0] == '/' {
        string_from_chars(&sub_chars(&c, 1, c.len()))
    } else {
        url.to_string()
    };
    concat3("https://resources.falidex.fr/index.php?getPicture=", path.as_str(), "&littleSalty=iBhodGT6GTqS6Bb")
}

/// What a migration does with a picture: skip it when it was already moved,
/// otherwise fetch it from the former server at the given address.
#[derive(Debug, Clone)]
pub enum MigrationStep {
    AlreadyDone(String),
    Fetch(String),
}

/// What a migration does with the picture `img`: one already moved is
/// reported as such, any other is fetched from the former server.
pub fn migration_step(img: &Img) -> (r: MigrationStep)
    ensures
        img.migrated == Some(true) ==> (r matches MigrationStep::AlreadyDone(m) && m@ == img.url@ + " Already migrated"@),
        img.migrated != Some(true) ==> (r matches MigrationStep::Fetch(u) && u@ == spec_migration_source_url(img.url@)),
{
    let done = match img.migrated {
        Some(b) => b,
        None => false,
    };
    if done {
        MigrationStep::AlreadyDone(concat(img.url.as_str(), " Already migrated"))
    } else {
        MigrationStep::Fetch(migration_source_url(img.url.as_str()))
    }
}

} // verus!
