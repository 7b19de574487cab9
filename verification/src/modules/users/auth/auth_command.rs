//! What a caller asks of the authentication service.

use vstd::prelude::*;
use crate::modules::users::auth::auth_dto::{
    ForgotPasswordRequest,
    LoginRequest,
    RegisterRequest,
    ResetPasswordRequest,
};

verus! {

/// Sign in with an address and a password.
#[derive(Debug, Clone, PartialEq, Eq)]
pub struct LoginCommand {
    pub email: String,
    pub password: String,
}

impl LoginCommand {
    /// The command that carries out `request`.
    pub fn from(request: LoginRequest) -> (command: Self)
        ensures
            command.email == request.email,
            command.password == request.password,
    {
        Self {
            email: request.email,
            password: request.password,
        }
    }
}

/// Open an account.
#[derive(Debug, Clone, PartialEq, Eq)]
pub struct RegisterCommand {
    pub user_email: String,
    pub user_first_name: String,
    pub user_last_name: String,
    pub user_base_currency_code: String,
}

impl RegisterCommand {
    /// The command that carries out `request`.
    pub fn from(request: RegisterRequest) -> (command: Self)
        ensures
            command.user_email == request.email,
            command.user_first_name == request.first_name,
            command.user_last_name == request.last_name,
            command.user_base_currency_code == request.base_currency_code,
    {
        Self {
            user_email: request.email,
            user_first_name: request.first_name,
            user_last_name: request.last_name,
            user_base_currency_code: request.base_currency_code,
        }
    }
}

/// Ask for a way to set a new password.
#[derive(Debug, Clone, PartialEq, Eq)]
pub struct ForgotPasswordCommand {
    pub user_email: String,
    pub locale: Option<String>,
}

impl ForgotPasswordCommand {
    /// The command that carries out `request`.
    pub fn from(request: ForgotPasswordRequest) -> (command: Self)
        ensures
            command.user_email == request.email,
            command.locale == request.locale,
    {
        Self {
            user_email: request.email,
            locale: request.locale,
        }
    }
}

/// Set a new password with a reset token.
#[derive(Debug, Clone, PartialEq, Eq)]
pub struct ResetPasswordCommand {
    pub token: String,
    pub new_password: String,
}

impl ResetPasswordCommand {
    /// The command that carries out `request`.
    pub fn from(request: ResetPasswordRequest) -> (command: Self)
        ensures
            command.token == request.token,
            command.new_password == request.new_password,
    {
        Self {
            token: request.token,
            new_password: request.new_password,
        }
    }
}

} // verus!
