//! What a caller asks of the user service, with the identity it acts under.

use vstd::prelude::*;
use crate::modules::users::user::user_dto::{
    UserCreateRequest,
    UserUpdateBaseCurrencyRequest,
    UserUpdateNameRequest,
};
use crate::shared::auth::jwt::AuthUser;
use crate::shared::ids::Uuid;
use crate::shared::response::PaginationRequest;

verus! {

/// Read one user.
#[derive(Debug, Clone, PartialEq, Eq)]
pub struct UserGetCommand {
    pub user_id: Uuid,
    pub auth_user: AuthUser,
}

impl UserGetCommand {
    /// The command to read the user `user_id`.
    pub fn new(user_id: Uuid, auth_user: AuthUser) -> (command: Self)
        ensures
            command.user_id == user_id,
            command.auth_user == auth_user,
    {
        Self {
            user_id,
            auth_user,
        }
    }
}

/// Read the user who signs in with an address.
#[derive(Debug, Clone, PartialEq, Eq)]
pub struct UserGetByEmailCommand {
    pub user_email: String,
    pub auth_user: AuthUser,
}

/// Create a user.
#[derive(Debug, Clone, PartialEq, Eq)]
pub struct UserCreateCommand {
    pub user_email: String,
    pub user_first_name: String,
    pub user_last_name: String,
    pub user_base_currency_code: String,
    pub auth_user: AuthUser,
}

impl UserCreateCommand {
    /// The command that carries out `request`.
    pub fn new(request: UserCreateRequest, auth_user: AuthUser) -> (command: Self)
        ensures
            command.user_email == request.user_email,
            command.user_first_name == request.user_first_name,
            command.user_last_name == request.user_last_name,
            command.user_base_currency_code == request.user_base_currency_code,
            command.auth_user == auth_user,
    {
        Self {
            user_email: request.user_email,
            user_first_name: request.user_first_name,
            user_last_name: request.user_last_name,
            user_base_currency_code: request.user_base_currency_code,
            auth_user,
        }
    }
}

/// Change a user's password, given the old one.
#[derive(Debug, Clone, PartialEq, Eq)]
pub struct UserUpdatePasswordCommand {
    pub user_id: Uuid,
    pub user_old_password: String,
    pub user_new_password: String,
    pub auth_user: AuthUser,
}

/// Change a user's names.
#[derive(Debug, Clone, PartialEq, Eq)]
pub struct UserUpdateNameCommand {
    pub user_id: Uuid,
    pub user_first_name: String,
    pub user_last_name: String,
    pub auth_user: AuthUser,
}

impl UserUpdateNameCommand {
    /// The command that carries out `user_update_request` on the user
    /// `user_id`.
    pub fn new(
        user_id: Uuid,
        user_update_request: UserUpdateNameRequest,
        auth_user: AuthUser,
    ) -> (command: Self)
        ensures
            command.user_id == user_id,
            command.user_first_name == user_update_request.user_first_name,
            command.user_last_name == user_update_request.user_last_name,
            command.auth_user == auth_user,
    {
        Self {
            user_id,
            user_first_name: user_update_request.user_first_name,
            user_last_name: user_update_request.user_last_name,
            auth_user,
        }
    }
}

/// Change a user's base currency.
#[derive(Debug, Clone, PartialEq, Eq)]
pub struct UserUpdateBaseCurrencyCommand {
    pub user_id: Uuid,
    pub user_base_currency_code: String,
    pub auth_user: AuthUser,
}

impl UserUpdateBaseCurrencyCommand {
    /// The command that carries out `user_update_base_currency_request` on
    /// the user `user_id`.
    pub fn new(
        user_id: Uuid,
        user_update_base_currency_request: UserUpdateBaseCurrencyRequest,
        auth_user: AuthUser,
    ) -> (command: Self)
        ensures
            command.user_id == user_id,
            command.user_base_currency_code == user_update_base_currency_request.user_base_currency_code,
            command.auth_user == auth_user,
    {
        Self {
            user_id,
            user_base_currency_code: user_update_base_currency_request.user_base_currency_code,
            auth_user,
        }
    }
}

/// Delete a user.
#[derive(Debug, Clone, PartialEq, Eq)]
pub struct UserDeleteCommand {
    pub user_id: Uuid,
    pub auth_user: AuthUser,
}

impl UserDeleteCommand {
    /// The command to delete the user `user_id`.
    pub fn new(user_id: Uuid, auth_user: AuthUser) -> (command: Self)
        ensures
            command.user_id == user_id,
            command.auth_user == auth_user,
    {
        Self {
            user_id,
            auth_user,
        }
    }
}

/// List users.
#[derive(Debug, Clone, PartialEq, Eq)]
pub struct UserListCommand {
    pub pagination: Option<PaginationRequest>,
    pub auth_user: AuthUser,
}

impl UserListCommand {
    /// The command to list users as `pagination` says.
    pub fn new(pagination: PaginationRequest, auth_user: AuthUser) -> (command: Self)
        ensures
            command.pagination == Some(pagination),
            command.auth_user == auth_user,
    {
        Self {
            pagination: Some(pagination),
            auth_user,
        }
    }
}

} // verus!
