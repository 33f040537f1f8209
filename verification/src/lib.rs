//! Verified core of the Falidex back end: the rules behind authentication
//! tokens, the import of batches of referential and relation operations,
//! the edition of decoration codes, the file cache and the media signatures.
//! Everything that talks to the network, the database, the file system or
//! the process environment lives in the application crate around it.
pub mod cache;
pub mod cloudinary;
pub mod digest;
pub mod encrypt;
pub mod env;
pub mod fresh;
pub mod security_utils;
pub mod import;
pub mod middleware;
pub mod migrate;
pub mod model;
pub mod relations;
pub mod routes;
pub mod str_map;
pub mod token;
pub mod text;

use vstd::prelude::*;

verus! {

} // verus!
