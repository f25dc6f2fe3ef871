//! The request and response shapes exchanged with the transport layer.
use vstd::prelude::*;

verus! {

/// The raw registration request body.
#[derive(Debug, Clone)]
pub struct UserRequest {
    pub username: String,
    pub password: String,
    pub email: String,
}

/// The registration response body: the fresh identifier's text.
#[derive(Debug, Clone)]
pub struct UserResponse {
    pub id: String,
}

} // verus!
