//! Locations as clients see them, and the requests that change them.

use vstd::prelude::*;
use vstd::string::StringExecFns;
use crate::modules::locations::location_model::{Location, LocationView};
use crate::shared::cache_aside::Response;
use crate::shared::db::row::{MappingError, MappingErrorView, clone_text, lemma_bytes_deep_view};
use crate::shared::decimal::{Decimal, DecimalView};
use crate::shared::ids::{Uuid, hyphenated};
use crate::shared::temporal::DateTimeUtc;
use crate::shared::utils::{bu, read_stored_id, read_stored_owner, stored_id, stored_owner};

verus! {

/// A location as clients see it.
#[derive(Debug, Clone, PartialEq, Eq)]
pub struct LocationResponse {
    pub location_id: Uuid,
    pub user_id: Uuid,
    pub location_name: String,
    pub location_address: Option<String>,
    pub location_city: Option<String>,
    pub location_region: Option<String>,
    pub location_postal_code: Option<String>,
    pub location_country_code: Option<String>,
    pub location_latitude: Option<Decimal>,
    pub location_longitude: Option<Decimal>,
    pub location_archived: bool,
    pub location_created_at: Option<DateTimeUtc>,
    pub location_updated_at: Option<DateTimeUtc>,
}

/// What a [`LocationResponse`] stands for.
pub struct LocationResponseView {
    pub location_id: Seq<u8>,
    pub user_id: Seq<u8>,
    pub location_name: Seq<char>,
    pub location_address: Option<Seq<char>>,
    pub location_city: Option<Seq<char>>,
    pub location_region: Option<Seq<char>>,
    pub location_postal_code: Option<Seq<char>>,
    pub location_country_code: Option<Seq<char>>,
    pub location_latitude: Option<DecimalView>,
    pub location_longitude: Option<DecimalView>,
    pub location_archived: bool,
    pub location_created_at: Option<DateTimeUtc>,
    pub location_updated_at: Option<DateTimeUtc>,
}

impl DeepView for LocationResponse {
    type V = LocationResponseView;

    open spec fn deep_view(&self) -> LocationResponseView {
        LocationResponseView {
            location_id: self.location_id@,
            user_id: self.user_id@,
            location_name: self.location_name@,
            location_address: self.location_address.deep_view(),
            location_city: self.location_city.deep_view(),
            location_region: self.location_region.deep_view(),
            location_postal_code: self.location_postal_code.deep_view(),
            location_country_code: self.location_country_code.deep_view(),
            location_latitude: self.location_latitude.deep_view(),
            location_longitude: self.location_longitude.deep_view(),
            location_archived: self.location_archived,
            location_created_at: self.location_created_at,
            location_updated_at: self.location_updated_at,
        }
    }
}

impl View for LocationResponse {
    type V = LocationResponseView;

    open spec fn view(&self) -> LocationResponseView {
        self.deep_view()
    }
}

/// The cache key of the location `id`.
pub open spec fn location_key(id: Seq<u8>) -> Seq<char> {
    "location:"@ + hyphenated(id)
}

/// The cache key of the list of the locations that `user` owns.
pub open spec fn location_list_key(user: Seq<u8>) -> Seq<char> {
    "user:"@ + hyphenated(user) + ":location"@
}

impl LocationResponse {
    /// The response that shows an entity whose identity is `id` and whose
    /// owner is `owner`.
    pub open spec fn of(
        location: LocationView,
        id: Seq<u8>,
        owner: Seq<u8>,
    ) -> LocationResponseView {
        LocationResponseView {
            location_id: id,
            user_id: owner,
            location_name: location.name,
            location_address: location.address,
            location_city: location.city,
            location_region: location.region,
            location_postal_code: location.postal_code,
            location_country_code: location.country_code,
            location_latitude: location.latitude,
            location_longitude: location.longitude,
            location_archived: location.archived,
            location_created_at: location.created_at,
            location_updated_at: location.updated_at,
        }
    }

    /// The response that shows `location`, which the store has given an identity.
    pub fn from(location: Location) -> (response: LocationResponse)
        requires
            <LocationResponse as Response>::of_entity(location@) is Ok,
        ensures
            Ok::<LocationResponseView, MappingErrorView>(response@) == <LocationResponse as Response>
                ::of_entity(
                location@,
            ),
    {
        broadcast use lemma_bytes_deep_view;

        let id = match &location.id {
            Some(bytes) => bu(bytes.as_slice()),
            None => unreached(),
        };
        let owner = bu(location.user_id.as_slice());
        LocationResponse {
            location_id: id,
            user_id: owner,
            location_name: location.name,
            location_address: location.address,
            location_city: location.city,
            location_region: location.region,
            location_postal_code: location.postal_code,
            location_country_code: location.country_code,
            location_latitude: location.latitude,
            location_longitude: location.longitude,
            location_archived: location.archived,
            location_created_at: location.created_at,
            location_updated_at: location.updated_at,
        }
    }

    /// The response that shows `location`, which is left as it is.
    pub fn from_ref(location: &Location) -> (response: LocationResponse)
        requires
            <LocationResponse as Response>::of_entity(location@) is Ok,
        ensures
            Ok::<LocationResponseView, MappingErrorView>(response@) == <LocationResponse as Response>
                ::of_entity(
                location@,
            ),
    {
        broadcast use lemma_bytes_deep_view;

        let id = match &location.id {
            Some(bytes) => bu(bytes.as_slice()),
            None => unreached(),
        };
        let owner = bu(location.user_id.as_slice());
        LocationResponse {
            location_id: id,
            user_id: owner,
            location_name: location.name.clone(),
            location_address: clone_text(&location.address),
            location_city: clone_text(&location.city),
            location_region: clone_text(&location.region),
            location_postal_code: clone_text(&location.postal_code),
            location_country_code: clone_text(&location.country_code),
            location_latitude: location.latitude,
            location_longitude: location.longitude,
            location_archived: location.archived,
            location_created_at: location.created_at,
            location_updated_at: location.updated_at,
        }
    }
}

impl Response for LocationResponse {
    type Entity = Location;

    open spec fn of_entity(entity: LocationView) -> Result<LocationResponseView, MappingErrorView> {
        match stored_id(entity.id) {
            Err(e) => Err(e),
            Ok(id) => match stored_owner(entity.user_id) {
                Err(e) => Err(e),
                Ok(owner) => Ok(Self::of(entity, id, owner)),
            },
        }
    }

    open spec fn key_of(response: LocationResponseView) -> Seq<char> {
        location_key(response.location_id)
    }

    open spec fn list_keys_of(response: LocationResponseView) -> Seq<Seq<char>> {
        seq![location_list_key(response.user_id)]
    }

    fn from_entity(entity: &Location) -> (r: Result<Self, MappingError>) {
        match read_stored_id(&entity.id) {
            Err(e) => Err(e),
            Ok(_) => match read_stored_owner(&entity.user_id) {
                Err(e) => Err(e),
                Ok(_) => Ok(LocationResponse::from_ref(entity)),
            },
        }
    }

    fn duplicate(&self) -> (r: Self) {
        LocationResponse {
            location_id: self.location_id,
            user_id: self.user_id,
            location_name: self.location_name.clone(),
            location_address: clone_text(&self.location_address),
            location_city: clone_text(&self.location_city),
            location_region: clone_text(&self.location_region),
            location_postal_code: clone_text(&self.location_postal_code),
            location_country_code: clone_text(&self.location_country_code),
            location_latitude: self.location_latitude,
            location_longitude: self.location_longitude,
            location_archived: self.location_archived,
            location_created_at: self.location_created_at,
            location_updated_at: self.location_updated_at,
        }
    }

    fn cache_key(&self) -> (key: String) {
        let mut key = String::from_str("location:");
        key.append(self.location_id.to_string().as_str());
        key
    }

    fn list_cache_keys(&self) -> (keys: Vec<String>) {
        let mut keys: Vec<String> = Vec::new();
        keys.push(location_list_cache_key(&self.user_id));
        assert(keys.deep_view() =~= seq![location_list_key(self.user_id@)]);
        keys
    }
}

/// Forms the cache key of the list of the locations that `user` owns.
pub fn location_list_cache_key(user: &Uuid) -> (key: String)
    ensures
        key@ == location_list_key(user@),
{
    let mut key = String::from_str("user:");
    key.append(user.to_string().as_str());
    key.append(":location");
    key
}

/// The body of a request to create a location.
#[derive(Debug, Clone, PartialEq, Eq)]
pub struct LocationCreateRequest {
    pub location_name: String,
    pub location_address: Option<String>,
    pub location_city: Option<String>,
    pub location_region: Option<String>,
    pub location_postal_code: Option<String>,
    pub location_country_code: Option<String>,
    pub location_latitude: Option<Decimal>,
    pub location_longitude: Option<Decimal>,
}

/// The body of a request to rename a location.
#[derive(Debug, Clone, PartialEq, Eq)]
pub struct LocationUpdateNameRequest {
    pub location_name: String,
}

/// The body of a request to change the address of a location.
#[derive(Debug, Clone, PartialEq, Eq)]
pub struct LocationUpdateRequest {
    pub location_address: Option<String>,
    pub location_city: Option<String>,
    pub location_region: Option<String>,
    pub location_postal_code: Option<String>,
    pub location_country_code: Option<String>,
}

/// The body of a request to archive a location or to bring it back.
#[derive(Debug, Clone, PartialEq, Eq)]
pub struct LocationUpdateArchivedRequest {
    pub location_archived: bool,
}

/// The key of a location is never the key of a list of locations.
pub proof fn lemma_location_key_is_no_list_key(id: Seq<u8>, user: Seq<u8>)
    ensures
        location_key(id) != location_list_key(user),
{
    reveal_strlit("location:");
    reveal_strlit("user:");
    assert(location_key(id)[0] == 'l');
    assert(location_list_key(user)[0] == 'u');
}

} // verus!
