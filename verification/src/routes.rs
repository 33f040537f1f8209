//! The decisions behind the routes: the exchange of a temporary token for a
//! session, the token of an authenticated user, and the request bodies of
//! the catalogue.
pub mod model;
pub mod token;
pub mod users;
