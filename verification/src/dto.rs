//! The bodies of the requests and answers of login and registration.

use vstd::prelude::*;

verus! {

/// The body of a registration request.
#[derive(Debug, Clone)]
pub struct RegisterRequest {
    pub email: String,
    pub password: String,
    pub name: Option<String>,
    pub phone: Option<String>,
    pub address: Option<String>,
}

/// The body of a login request.
#[derive(Debug, Clone)]
pub struct LoginRequest {
    pub email: String,
    pub password: String,
}

/// An identifier and a credential, as a login hands them in.
#[derive(Debug, Clone)]
pub struct AuthRequest {
    pub email: String,
    pub password: String,
}

/// The answer to a successful login: the token.
#[derive(Debug, Clone)]
pub struct AuthResponse {
    pub token: String,
}

impl AuthResponse {
    /// Wraps a token as the answer to a login.
    pub fn new(token: String) -> (response: AuthResponse)
        ensures
            response.token == token,
    {
        AuthResponse { token }
    }
}

} // verus!
