//! Records of users, persisted texts and authentication exchanges.
use vstd::prelude::*;

verus! {

/// A persisted text, encrypted, under a name.
#[derive(Debug, Clone)]
pub struct Persistence {
    pub name: String,
    pub value: String,
}

/// A login request.
#[derive(Debug, Clone)]
pub struct AuthRequest {
    pub user_name: String,
    pub hash: String,
}

/// The id of an authenticated user.
#[derive(Debug, Clone)]
pub struct UserAuth {
    pub id: String,
}

/// An error answered to a client: a code and a message.
#[derive(Debug, Clone)]
pub struct ErrorResult {
    pub error: String,
    pub message: String,
}

/// A temporary token presented to obtain an authorization.
#[derive(Debug, Clone)]
pub struct TokenAuth {
    pub role: String,
    pub timestamp: i64,
    pub hash: String,
}

/// The token handed out for an authorization.
#[derive(Debug, Clone)]
pub struct TokenAuthResponse {
    pub token: String,
}

} // verus!
