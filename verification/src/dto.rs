//! Plain request and response shapes shared by the transport adapters.

use vstd::prelude::*;

verus! {

pub struct RegisterRequest {
    pub username: String,
    pub email: String,
    pub password: String,
}

pub struct LoginRequest {
    pub email: String,
    pub password: String,
}

/// What a successful registration or login hands back: the issued bearer
/// token, its lifetime in seconds, and the token type ("Bearer").
pub struct AuthResponse {
    pub access_token: String,
    pub expires_in: i64,
    pub token_type: String,
}

pub struct CreatePostRequest {
    pub title: String,
    pub content: String,
}

/// A partial update: fields left unset keep their stored value.
pub struct UpdatePostRequest {
    pub title: Option<String>,
    pub content: Option<String>,
}

} // verus!
