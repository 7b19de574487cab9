//! What a caller asks of the people service, with the identity it acts
//! under.

use vstd::prelude::*;
use crate::modules::people::people_dto::{
    PeopleCreateRequest,
    PeopleUpdateArchivedRequest,
    PeopleUpdateRequest,
};
use crate::shared::auth::jwt::AuthUser;
use crate::shared::ids::Uuid;
use crate::shared::response::PaginationRequest;

verus! {

/// Read one contact.
#[derive(Debug, Clone, PartialEq, Eq)]
pub struct PeopleGetCommand {
    pub people_id: Uuid,
    pub auth_user: AuthUser,
}

impl PeopleGetCommand {
    /// The command to read the contact `people_id`.
    pub fn new(people_id: Uuid, auth_user: AuthUser) -> (command: Self)
        ensures
            command.people_id == people_id,
            command.auth_user == auth_user,
    {
        Self {
            people_id,
            auth_user,
        }
    }
}

/// Create a contact owned by the acting user.
#[derive(Debug, Clone, PartialEq, Eq)]
pub struct PeopleCreateCommand {
    pub user_id: Uuid,
    pub people_name: String,
    pub people_email: Option<String>,
    pub people_phone: Option<String>,
    pub people_image_url: Option<String>,
    pub people_note: Option<String>,
    pub auth_user: AuthUser,
}

impl PeopleCreateCommand {
    /// The command that carries out `request`: the contact belongs to the
    /// acting user.
    pub fn new(request: PeopleCreateRequest, auth_user: AuthUser) -> (command: Self)
        ensures
            command.user_id == auth_user.user_id,
            command.people_name == request.people_name,
            command.people_email == request.people_email,
            command.people_phone == request.people_phone,
            command.people_image_url == request.people_image_url,
            command.people_note == request.people_note,
            command.auth_user == auth_user,
    {
        Self {
            user_id: auth_user.user_id,
            people_name: request.people_name,
            people_email: request.people_email,
            people_phone: request.people_phone,
            people_image_url: request.people_image_url,
            people_note: request.people_note,
            auth_user,
        }
    }
}

/// Change the picture of a contact.
#[derive(Debug, Clone, PartialEq, Eq)]
pub struct PeopleUpdateImageCommand {
    pub people_id: Uuid,
    pub people_image_url: Option<String>,
    pub auth_user: AuthUser,
}

/// Archive a contact or bring it back.
#[derive(Debug, Clone, PartialEq, Eq)]
pub struct PeopleArchivedCommand {
    pub people_id: Uuid,
    pub people_archived: bool,
    pub auth_user: AuthUser,
}

impl PeopleArchivedCommand {
    /// The command that carries out `request` on the contact `people_id`.
    pub fn new(
        people_id: Uuid,
        request: PeopleUpdateArchivedRequest,
        auth_user: AuthUser,
    ) -> (command: Self)
        ensures
            command.people_id == people_id,
            command.people_archived == request.people_archived,
            command.auth_user == auth_user,
    {
        Self {
            people_id,
            people_archived: request.people_archived,
            auth_user,
        }
    }
}

/// Change the name and details of a contact.
#[derive(Debug, Clone, PartialEq, Eq)]
pub struct PeopleUpdateCommand {
    pub people_id: Uuid,
    pub people_name: String,
    pub people_email: Option<String>,
    pub people_phone: Option<String>,
    pub people_note: Option<String>,
    pub auth_user: AuthUser,
}

impl PeopleUpdateCommand {
    /// The command that carries out `request` on the contact `people_id`.
    pub fn new(
        people_id: Uuid,
        request: PeopleUpdateRequest,
        auth_user: AuthUser,
    ) -> (command: Self)
        ensures
            command.people_id == people_id,
            command.people_name == request.people_name,
            command.people_email == request.people_email,
            command.people_phone == request.people_phone,
            command.people_note == request.people_note,
            command.auth_user == auth_user,
    {
        Self {
            people_id,
            people_name: request.people_name,
            people_email: request.people_email,
            people_phone: request.people_phone,
            people_note: request.people_note,
            auth_user,
        }
    }
}

/// Delete a contact.
#[derive(Debug, Clone, PartialEq, Eq)]
pub struct PeopleDeleteCommand {
    pub people_id: Uuid,
    pub auth_user: AuthUser,
}

impl PeopleDeleteCommand {
    /// The command to delete the contact `people_id`.
    pub fn new(people_id: Uuid, auth_user: AuthUser) -> (command: Self)
        ensures
            command.people_id == people_id,
            command.auth_user == auth_user,
    {
        Self {
            people_id,
            auth_user,
        }
    }
}

/// List contacts.
#[derive(Debug, Clone, PartialEq, Eq)]
pub struct PeopleListCommand {
    pub pagination: Option<PaginationRequest>,
    pub auth_user: AuthUser,
}

impl PeopleListCommand {
    /// The command to list contacts as `pagination` says.
    pub fn new(pagination: Option<PaginationRequest>, auth_user: AuthUser) -> (command: Self)
        ensures
            command.pagination == pagination,
            command.auth_user == auth_user,
    {
        Self {
            pagination,
            auth_user,
        }
    }
}

/// List the contacts of one user.
#[derive(Debug, Clone, PartialEq, Eq)]
pub struct PeopleListByUserCommand {
    pub user_id: Uuid,
    pub pagination: Option<PaginationRequest>,
    pub auth_user: AuthUser,
}

impl PeopleListByUserCommand {
    /// The command to list the contacts that `user_id` owns.
    pub fn new(
        user_id: Uuid,
        pagination: Option<PaginationRequest>,
        auth_user: AuthUser,
    ) -> (command: Self)
        ensures
            command.user_id == user_id,
            command.pagination == pagination,
            command.auth_user == auth_user,
    {
        Self {
            user_id,
            pagination,
            auth_user,
        }
    }
}

} // verus!
