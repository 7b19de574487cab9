//! The bodies of the authentication requests.

use vstd::prelude::*;

verus! {

/// The body of a sign-in request.
#[derive(Debug, Clone, PartialEq, Eq)]
pub struct LoginRequest {
    pub email: String,
    pub password: String,
}

/// The body of a request to open an account.
#[derive(Debug, Clone, PartialEq, Eq)]
pub struct RegisterRequest {
    pub email: String,
    pub first_name: String,
    pub last_name: String,
    pub base_currency_code: String,
}

/// The body of a request for a way to set a new password.
#[derive(Debug, Clone, PartialEq, Eq)]
pub struct ForgotPasswordRequest {
    pub email: String,
    pub locale: Option<String>,
}

/// The body of a request to set a new password with a reset token.
#[derive(Debug, Clone, PartialEq, Eq)]
pub struct ResetPasswordRequest {
    pub token: String,
    pub new_password: String,
}

} // verus!
