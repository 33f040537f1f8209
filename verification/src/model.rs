//! The data that the library reasons about.
pub mod falidex_model;
pub mod import_model;
pub mod resource_model;
pub mod db_model;
