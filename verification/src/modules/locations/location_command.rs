//! What a caller asks of the location service, with the identity it acts
//! under.

use vstd::prelude::*;
use crate::modules::locations::location_dto::{
    LocationCreateRequest,
    LocationUpdateArchivedRequest,
    LocationUpdateNameRequest,
    LocationUpdateRequest,
};
use crate::shared::auth::jwt::AuthUser;
use crate::shared::decimal::Decimal;
use crate::shared::ids::Uuid;
use crate::shared::response::PaginationRequest;

verus! {

/// Read one location.
#[derive(Debug, Clone, PartialEq, Eq)]
pub struct LocationGetCommand {
    pub location_id: Uuid,
    pub auth_user: AuthUser,
}

impl LocationGetCommand {
    /// The command to read the location `location_id`.
    pub fn new(location_id: Uuid, auth_user: AuthUser) -> (command: Self)
        ensures
            command.location_id == location_id,
            command.auth_user == auth_user,
    {
        Self {
            location_id,
            auth_user,
        }
    }
}

/// Create a location owned by the acting user.
#[derive(Debug, Clone, PartialEq, Eq)]
pub struct LocationCreateCommand {
    pub user_id: Uuid,
    pub location_name: String,
    pub location_address: Option<String>,
    pub location_city: Option<String>,
    pub location_region: Option<String>,
    pub location_postal_code: Option<String>,
    pub location_country_code: Option<String>,
    pub location_latitude: Option<Decimal>,
    pub location_longitude: Option<Decimal>,
    pub auth_user: AuthUser,
}

impl LocationCreateCommand {
    /// The command that carries out `request`: the location belongs to the
    /// acting user.
    pub fn new(request: LocationCreateRequest, auth_user: AuthUser) -> (command: Self)
        ensures
            command.user_id == auth_user.user_id,
            command.location_name == request.location_name,
            command.location_address == request.location_address,
            command.location_city == request.location_city,
            command.location_region == request.location_region,
            command.location_postal_code == request.location_postal_code,
            command.location_country_code == request.location_country_code,
            command.location_latitude == request.location_latitude,
            command.location_longitude == request.location_longitude,
            command.auth_user == auth_user,
    {
        Self {
            user_id: auth_user.user_id,
            location_name: request.location_name,
            location_address: request.location_address,
            location_city: request.location_city,
            location_region: request.location_region,
            location_postal_code: request.location_postal_code,
            location_country_code: request.location_country_code,
            location_latitude: request.location_latitude,
            location_longitude: request.location_longitude,
            auth_user,
        }
    }
}

/// Rename a location.
#[derive(Debug, Clone, PartialEq, Eq)]
pub struct LocationUpdateNameCommand {
    pub location_id: Uuid,
    pub location_name: String,
    pub auth_user: AuthUser,
}

impl LocationUpdateNameCommand {
    /// The command that carries out `request` on the location `location_id`.
    pub fn new(
        location_id: Uuid,
        request: LocationUpdateNameRequest,
        auth_user: AuthUser,
    ) -> (command: Self)
        ensures
            command.location_id == location_id,
            command.location_name == request.location_name,
            command.auth_user == auth_user,
    {
        Self {
            location_id,
            location_name: request.location_name,
            auth_user,
        }
    }
}

/// Change the address of a location.
#[derive(Debug, Clone, PartialEq, Eq)]
pub struct LocationUpdateCommand {
    pub location_id: Uuid,
    pub location_address: Option<String>,
    pub location_city: Option<String>,
    pub location_region: Option<String>,
    pub location_postal_code: Option<String>,
    pub location_country_code: Option<String>,
    pub auth_user: AuthUser,
}

impl LocationUpdateCommand {
    /// The command that carries out `request` on the location `location_id`.
    pub fn new(
        location_id: Uuid,
        request: LocationUpdateRequest,
        auth_user: AuthUser,
    ) -> (command: Self)
        ensures
            command.location_id == location_id,
            command.location_address == request.location_address,
            command.location_city == request.location_city,
            command.location_region == request.location_region,
            command.location_postal_code == request.location_postal_code,
            command.location_country_code == request.location_country_code,
            command.auth_user == auth_user,
    {
        Self {
            location_id,
            location_address: request.location_address,
            location_city: request.location_city,
            location_region: request.location_region,
            location_postal_code: request.location_postal_code,
            location_country_code: request.location_country_code,
            auth_user,
        }
    }
}

/// Change the coordinates of a location.
#[derive(Debug, Clone, PartialEq, Eq)]
pub struct LocationUpdateLatLongCommand {
    pub location_id: Uuid,
    pub location_latitude: Option<Decimal>,
    pub location_longitude: Option<Decimal>,
    pub auth_user: AuthUser,
}

impl LocationUpdateLatLongCommand {
    /// The command to set the coordinates of the location `location_id`.
    pub fn new(
        location_id: Uuid,
        location_latitude: Option<Decimal>,
        location_longitude: Option<Decimal>,
        auth_user: AuthUser,
    ) -> (command: Self)
        ensures
            command.location_id == location_id,
            command.location_latitude == location_latitude,
            command.location_longitude == location_longitude,
            command.auth_user == auth_user,
    {
        Self {
            location_id,
            location_latitude,
            location_longitude,
            auth_user,
        }
    }
}

/// Archive a location or bring it back.
#[derive(Debug, Clone, PartialEq, Eq)]
pub struct LocationArchivedCommand {
    pub location_id: Uuid,
    pub location_archived: bool,
    pub auth_user: AuthUser,
}

impl LocationArchivedCommand {
    /// The command that carries out `request` on the location `location_id`.
    pub fn new(
        location_id: Uuid,
        request: LocationUpdateArchivedRequest,
        auth_user: AuthUser,
    ) -> (command: Self)
        ensures
            command.location_id == location_id,
            command.location_archived == request.location_archived,
            command.auth_user == auth_user,
    {
        Self {
            location_id,
            location_archived: request.location_archived,
            auth_user,
        }
    }
}

/// Delete a location.
#[derive(Debug, Clone, PartialEq, Eq)]
pub struct LocationDeleteCommand {
    pub location_id: Uuid,
    pub auth_user: AuthUser,
}

impl LocationDeleteCommand {
    /// The command to delete the location `location_id`.
    pub fn new(location_id: Uuid, auth_user: AuthUser) -> (command: Self)
        ensures
            command.location_id == location_id,
            command.auth_user == auth_user,
    {
        Self {
            location_id,
            auth_user,
        }
    }
}

/// List locations.
#[derive(Debug, Clone, PartialEq, Eq)]
pub struct LocationListCommand {
    pub pagination: Option<PaginationRequest>,
    pub auth_user: AuthUser,
}

impl LocationListCommand {
    /// The command to list locations as `pagination` says.
    pub fn new(pagination: Option<PaginationRequest>, auth_user: AuthUser) -> (command: Self)
        ensures
            command.pagination == pagination,
            command.auth_user == auth_user,
    {
        Self {
            pagination,
            auth_user,
        }
    }
}

/// List the locations of one user.
#[derive(Debug, Clone, PartialEq, Eq)]
pub struct LocationListByUserCommand {
    pub user_id: Uuid,
    pub pagination: Option<PaginationRequest>,
    pub auth_user: AuthUser,
}

impl LocationListByUserCommand {
    /// The command to list the locations that `user_id` owns.
    pub fn new(
        user_id: Uuid,
        pagination: Option<PaginationRequest>,
        auth_user: AuthUser,
    ) -> (command: Self)
        ensures
            command.user_id == user_id,
            command.pagination == pagination,
            command.auth_user == auth_user,
    {
        Self {
            user_id,
            pagination,
            auth_user,
        }
    }
}

} // verus!
