//! The operations on locations.
//!
//! A location belongs to the user who created it. Single locations and each
//! owner's list are cached; paged listings and searches are not.

use vstd::prelude::*;
use vstd::string::StringExecFns;
use crate::modules::locations::location_command::{
    LocationArchivedCommand,
    LocationCreateCommand,
    LocationDeleteCommand,
    LocationGetCommand,
    LocationListByUserCommand,
    LocationListCommand,
    LocationUpdateCommand,
    LocationUpdateLatLongCommand,
    LocationUpdateNameCommand,
};
use crate::modules::locations::location_dto::{
    LocationResponse,
    LocationResponseView,
    lemma_location_key_is_no_list_key,
    location_key,
    location_list_cache_key,
    location_list_key,
};
use crate::modules::locations::location_model::{Location, LocationView};
use crate::modules::locations::location_repo::{
    LocationRepository,
    LocationRepositoryInterface,
    location_archived_call,
    location_create_call,
    location_delete_call,
    location_get_all_call,
    location_get_by_user_call,
    location_get_call,
    location_search_by_user_call,
    location_search_call,
    location_update_call,
    location_update_lat_long_call,
    location_update_name_call,
};
use crate::shared::cache_aside::{
    CACHE_TTL_SECONDS,
    CachedView,
    EventView,
    OutcomeView,
    Plan,
    PlanView,
    Response,
    delete_plan,
    read_plan,
    uncached_plan,
    write_plan,
};
use crate::shared::cache_model::{created_is_read_back, read_fuel, run};
use crate::shared::crud_repository::ProcedureCallView;
use crate::shared::db::mysql::{FromSqlRow, column_index};
use crate::shared::db::param::stored_value;
use crate::shared::db::row::{ColumnView, MappingErrorView, SqlValueView, cell, instant_value};
use crate::shared::decimal::DecimalView;
use crate::shared::ids::Uuid;
use crate::shared::response::PaginationRequest;
use crate::shared::service::{Flow, Step, begin};
use crate::shared::temporal::DateTimeUtc;
use crate::shared::utils::{extract_pagination_data, limit_of, offset_fits, offset_param, search_of};

verus! {

/// The plan that reads the location `id`.
pub open spec fn get_location_plan(cached: bool, id: Seq<u8>, user: Seq<u8>) -> PlanView {
    read_plan(
        location_get_call(id, Some(user)),
        location_key(id),
        cached,
        "Error from repository"@,
    )
}

/// The plan that creates `location`.
pub open spec fn create_location_plan(cached: bool, location: LocationView, user: Seq<u8>)
    -> PlanView {
    write_plan(location_create_call(location, Some(user)), cached, "Error creating location"@)
}

/// The plan that renames the location `id`.
pub open spec fn update_location_name_plan(
    cached: bool,
    id: Seq<u8>,
    name: Seq<char>,
    user: Seq<u8>,
) -> PlanView {
    write_plan(location_update_name_call(id, name, Some(user)), cached, "Error from repository"@)
}

/// The plan that changes the address of the location `id`.
pub open spec fn update_location_plan(
    cached: bool,
    id: Seq<u8>,
    address: Option<Seq<char>>,
    city: Option<Seq<char>>,
    region: Option<Seq<char>>,
    postal_code: Option<Seq<char>>,
    country_code: Option<Seq<char>>,
    user: Seq<u8>,
) -> PlanView {
    write_plan(
        location_update_call(id, address, city, region, postal_code, country_code, Some(user)),
        cached,
        "Error from repository"@,
    )
}

/// The plan that sets the coordinates of the location `id`.
pub open spec fn update_location_lat_long_plan(
    cached: bool,
    id: Seq<u8>,
    latitude: Option<DecimalView>,
    longitude: Option<DecimalView>,
    user: Seq<u8>,
) -> PlanView {
    write_plan(
        location_update_lat_long_call(id, latitude, longitude, Some(user)),
        cached,
        "Error from repository"@,
    )
}

/// The plan that archives the location `id` or brings it back.
pub open spec fn archive_location_plan(cached: bool, id: Seq<u8>, archived: bool, user: Seq<u8>)
    -> PlanView {
    write_plan(
        location_archived_call(id, archived, Some(user)),
        cached,
        "Error from repository"@,
    )
}

/// The plan that deletes the location `id`. A location is addressed only by
/// the user that owns it, so the acting user is its owner: once the store
/// has carried the delete out, the location's own entry and that owner's
/// list of locations leave the cache.
pub open spec fn delete_location_plan(cached: bool, id: Seq<u8>, user: Seq<u8>) -> PlanView {
    delete_plan(
        location_delete_call(id, Some(user)),
        seq![location_key(id), location_list_key(user)],
        cached,
        "Error deleting location"@,
    )
}

/// The plan that lists locations page by page, or searches them where the
/// request carries a search text. Neither is ever cached.
pub open spec fn list_locations_plan(pagination: Option<PaginationRequest>, user: Seq<u8>)
    -> PlanView {
    match search_of(pagination) {
        Some(query) => uncached_plan(
            location_search_call(
                query@,
                limit_of(pagination),
                offset_param(pagination),
                Some(user),
            ),
            "Error getting locations"@,
        ),
        None => uncached_plan(
            location_get_all_call(limit_of(pagination), offset_param(pagination), Some(user)),
            "Error getting locations"@,
        ),
    }
}

/// The plan that lists the locations that `owner` owns: a search, never
/// cached, where the request carries a search text, and a read through the
/// cache otherwise.
pub open spec fn list_locations_by_user_plan(
    cached: bool,
    owner: Seq<u8>,
    pagination: Option<PaginationRequest>,
    user: Seq<u8>,
) -> PlanView {
    match search_of(pagination) {
        Some(query) => uncached_plan(
            location_search_by_user_call(owner, query@, Some(user)),
            "Error getting locations"@,
        ),
        None => read_plan(
            location_get_by_user_call(owner, Some(user)),
            location_list_key(owner),
            cached,
            "Error getting locations"@,
        ),
    }
}

/// The operations on locations.
pub trait LocationServiceInterface {
    /// Whether a cache is configured.
    spec fn caches(&self) -> bool;

    /// Reads one location, through the cache.
    fn get(&self, command: LocationGetCommand) -> (step: Step<LocationResponse>)
        ensures
            step.deep_view() == begin::<LocationResponseView>(
                get_location_plan(
                    self.caches(),
                    command.location_id@,
                    command.auth_user.user_id@,
                ),
            ),
    ;

    /// Creates a location and caches what the store answered.
    fn create(&self, command: LocationCreateCommand) -> (step: Step<LocationResponse>)
        ensures
            step.deep_view() == begin::<LocationResponseView>(
                create_location_plan(
                    self.caches(),
                    LocationView {
                        id: None,
                        user_id: command.user_id@,
                        name: command.location_name@,
                        address: command.location_address.deep_view(),
                        city: command.location_city.deep_view(),
                        region: command.location_region.deep_view(),
                        postal_code: command.location_postal_code.deep_view(),
                        country_code: command.location_country_code.deep_view(),
                        latitude: command.location_latitude.deep_view(),
                        longitude: command.location_longitude.deep_view(),
                        archived: false,
                        created_at: None,
                        updated_at: None,
                    },
                    command.auth_user.user_id@,
                ),
            ),
    ;

    /// Renames a location; not found where there is no such location.
    fn update_name(&self, command: LocationUpdateNameCommand) -> (step: Step<LocationResponse>)
        ensures
            step.deep_view() == begin::<LocationResponseView>(
                update_location_name_plan(
                    self.caches(),
                    command.location_id@,
                    command.location_name@,
                    command.auth_user.user_id@,
                ),
            ),
    ;

    /// Changes the address of a location; not found where there is no such
    /// location.
    fn update(&self, command: LocationUpdateCommand) -> (step: Step<LocationResponse>)
        ensures
            step.deep_view() == begin::<LocationResponseView>(
                update_location_plan(
                    self.caches(),
                    command.location_id@,
                    command.location_address.deep_view(),
                    command.location_city.deep_view(),
                    command.location_region.deep_view(),
                    command.location_postal_code.deep_view(),
                    command.location_country_code.deep_view(),
                    command.auth_user.user_id@,
                ),
            ),
    ;

    /// Sets the coordinates of a location; not found where there is no such
    /// location.
    fn update_lat_long(&self, command: LocationUpdateLatLongCommand) -> (step: Step<
        LocationResponse,
    >)
        ensures
            step.deep_view() == begin::<LocationResponseView>(
                update_location_lat_long_plan(
                    self.caches(),
                    command.location_id@,
                    command.location_latitude.deep_view(),
                    command.location_longitude.deep_view(),
                    command.auth_user.user_id@,
                ),
            ),
    ;

    /// Archives a location or brings it back; not found where there is no
    /// such location. An archived location can still be read.
    fn archived(&self, command: LocationArchivedCommand) -> (step: Step<LocationResponse>)
        ensures
            step.deep_view() == begin::<LocationResponseView>(
                archive_location_plan(
                    self.caches(),
                    command.location_id@,
                    command.location_archived,
                    command.auth_user.user_id@,
                ),
            ),
    ;

    /// Deletes a location and drops it from the cache.
    fn delete(&self, command: LocationDeleteCommand) -> (step: Step<LocationResponse>)
        ensures
            step.deep_view() == begin::<LocationResponseView>(
                delete_location_plan(
                    self.caches(),
                    command.location_id@,
                    command.auth_user.user_id@,
                ),
            ),
    ;

    /// Lists or searches locations, straight from the store.
    fn get_all(&self, command: LocationListCommand) -> (step: Step<LocationResponse>)
        requires
            offset_fits(command.pagination),
        ensures
            step.deep_view() == begin::<LocationResponseView>(
                list_locations_plan(command.pagination, command.auth_user.user_id@),
            ),
    ;

    /// Lists the locations of one user through the cache, or searches them
    /// straight from the store.
    fn get_by_user(&self, command: LocationListByUserCommand) -> (step: Step<LocationResponse>)
        ensures
            step.deep_view() == begin::<LocationResponseView>(
                list_locations_by_user_plan(
                    self.caches(),
                    command.user_id@,
                    command.pagination,
                    command.auth_user.user_id@,
                ),
            ),
    ;
}

/// The location service: its repository, and whether a cache is configured.
#[derive(Debug, Clone, Copy, PartialEq, Eq)]
pub struct LocationService {
    pub location_repo: LocationRepository,
    pub cache: bool,
}

impl LocationService {
    /// The service, with or without a cache.
    pub fn new(cache: bool) -> (service: Self)
        ensures
            service.cache == cache,
    {
        LocationService { location_repo: LocationRepository {  }, cache }
    }

    /// The lifetime of a cached location, in seconds.
    pub fn redis_key_ttl(&self) -> (ttl: Option<u64>)
        ensures
            ttl == Some(CACHE_TTL_SECONDS),
    {
        Some(CACHE_TTL_SECONDS)
    }

    /// The cache key of the location `key`.
    pub fn form_redis_key_location(&self, key: &Uuid) -> (text: String)
        ensures
            text@ == location_key(key@),
    {
        let mut text = String::from_str("location:");
        text.append(key.to_string().as_str());
        text
    }

    /// The cache key of the list of the locations that `user` owns.
    pub fn form_redis_key_list_by_user(&self, user: &Uuid) -> (text: String)
        ensures
            text@ == location_list_key(user@),
    {
        location_list_cache_key(user)
    }
}

impl LocationServiceInterface for LocationService {
    open spec fn caches(&self) -> bool {
        self.cache
    }

    fn get(&self, command: LocationGetCommand) -> (step: Step<LocationResponse>) {
        let key = self.form_redis_key_location(&command.location_id);
        let call = self.location_repo.get(command.location_id, Some(command.auth_user.user_id));
        Flow::start(Plan::read(call, key, self.cache, "Error from repository"))
    }

    fn create(&self, command: LocationCreateCommand) -> (step: Step<LocationResponse>) {
        let meta_user = command.auth_user.user_id;
        let location_create = Location::from(command);
        let call = self.location_repo.create(location_create, Some(meta_user));
        Flow::start(Plan::write(call, self.cache, "Error creating location"))
    }

    fn update_name(&self, command: LocationUpdateNameCommand) -> (step: Step<LocationResponse>) {
        let call = self.location_repo.update_name(
            command.location_id,
            command.location_name,
            Some(command.auth_user.user_id),
        );
        Flow::start(Plan::write(call, self.cache, "Error from repository"))
    }

    fn update(&self, command: LocationUpdateCommand) -> (step: Step<LocationResponse>) {
        let call = self.location_repo.update(
            command.location_id,
            command.location_address,
            command.location_city,
            command.location_region,
            command.location_postal_code,
            command.location_country_code,
            Some(command.auth_user.user_id),
        );
        Flow::start(Plan::write(call, self.cache, "Error from repository"))
    }

    fn update_lat_long(&self, command: LocationUpdateLatLongCommand) -> (step: Step<
        LocationResponse,
    >) {
        let call = self.location_repo.update_lat_long(
            command.location_id,
            command.location_latitude,
            command.location_longitude,
            Some(command.auth_user.user_id),
        );
        Flow::start(Plan::write(call, self.cache, "Error from repository"))
    }

    fn archived(&self, command: LocationArchivedCommand) -> (step: Step<LocationResponse>) {
        let call = self.location_repo.archived(
            command.location_id,
            command.location_archived,
            Some(command.auth_user.user_id),
        );
        Flow::start(Plan::write(call, self.cache, "Error from repository"))
    }

    fn delete(&self, command: LocationDeleteCommand) -> (step: Step<LocationResponse>) {
        let mut keys: Vec<String> = Vec::new();
        keys.push(self.form_redis_key_location(&command.location_id));
        keys.push(self.form_redis_key_list_by_user(&command.auth_user.user_id));
        assert(keys.deep_view() =~= seq![
            location_key(command.location_id@),
            location_list_key(command.auth_user.user_id@),
        ]);
        let call = self.location_repo.delete(
            command.location_id,
            Some(command.auth_user.user_id),
        );
        Flow::start(Plan::delete(call, keys, self.cache, "Error deleting location"))
    }

    fn get_all(&self, command: LocationListCommand) -> (step: Step<LocationResponse>) {
        let meta_user = command.auth_user.user_id;
        let (limit, offset, search) = extract_pagination_data(command.pagination);
        let call = match search {
            Some(query) => self.location_repo.search(query, limit, offset, Some(meta_user)),
            None => self.location_repo.get_all(limit, offset, Some(meta_user)),
        };
        Flow::start(Plan::uncached(call, "Error getting locations"))
    }

    fn get_by_user(&self, command: LocationListByUserCommand) -> (step: Step<LocationResponse>) {
        let search = match command.pagination {
            Some(pagination) => pagination.search,
            None => None,
        };
        match search {
            Some(query) => {
                let call = self.location_repo.search_by_user(
                    command.user_id,
                    query,
                    Some(command.auth_user.user_id),
                );
                Flow::start(Plan::uncached(call, "Error getting locations"))
            },
            None => {
                let key = self.form_redis_key_list_by_user(&command.user_id);
                let call = self.location_repo.get_by_user(
                    command.user_id,
                    Some(command.auth_user.user_id),
                );
                Flow::start(Plan::read(call, key, self.cache, "Error getting locations"))
            },
        }
    }
}

/// Whether `row`, read through `index`, holds the location as a store that
/// keeps what it is given holds it: every column that the create call bound
/// holds what was bound, and the rest holds what the store assigned.
pub open spec fn keeps_location(
    location: LocationView,
    meta_user: Option<Seq<u8>>,
    row: Seq<ColumnView>,
    index: Map<Seq<char>, usize>,
    id: Seq<u8>,
    created_at: Option<DateTimeUtc>,
    updated_at: Option<DateTimeUtc>,
) -> bool {
    &&& cell(row, index, "user_id"@) == Some(
        stored_value(location_create_call(location, meta_user).params[0]),
    )
    &&& cell(row, index, "name"@) == Some(
        stored_value(location_create_call(location, meta_user).params[1]),
    )
    &&& cell(row, index, "address"@) == Some(
        stored_value(location_create_call(location, meta_user).params[2]),
    )
    &&& cell(row, index, "city"@) == Some(
        stored_value(location_create_call(location, meta_user).params[3]),
    )
    &&& cell(row, index, "region"@) == Some(
        stored_value(location_create_call(location, meta_user).params[4]),
    )
    &&& cell(row, index, "postal_code"@) == Some(
        stored_value(location_create_call(location, meta_user).params[5]),
    )
    &&& cell(row, index, "country_code"@) == Some(
        stored_value(location_create_call(location, meta_user).params[6]),
    )
    &&& cell(row, index, "latitude"@) == Some(
        stored_value(location_create_call(location, meta_user).params[7]),
    )
    &&& cell(row, index, "longitude"@) == Some(
        stored_value(location_create_call(location, meta_user).params[8]),
    )
    &&& cell(row, index, "archived"@) == Some(
        stored_value(location_create_call(location, meta_user).params[9]),
    )
    &&& cell(row, index, "id"@) == Some(SqlValueView::Bytes(id))
    &&& cell(row, index, "created_at"@) == Some(instant_value(created_at))
    &&& cell(row, index, "updated_at"@) == Some(instant_value(updated_at))
}

/// What a store keeps of a created location comes back to the caller.
///
/// Where the row that is read holds, column by column, what the create call
/// bound, together with the identity and the times that the store assigned,
/// reading it gives the location that was asked for, and the response shows
/// every field the caller set.
pub proof fn location_round_trip(
    location: LocationView,
    meta_user: Option<Seq<u8>>,
    row: Seq<ColumnView>,
    index: Map<Seq<char>, usize>,
    id: Seq<u8>,
    created_at: Option<DateTimeUtc>,
    updated_at: Option<DateTimeUtc>,
)
    requires
        location.user_id.len() == 16,
        id.len() == 16,
        keeps_location(location, meta_user, row, index, id, created_at, updated_at),
    ensures
        <Location as FromSqlRow>::row_model(row, index) == Ok::<LocationView, MappingErrorView>(
            LocationView { id: Some(id), created_at, updated_at, ..location },
        ),
        <LocationResponse as Response>::of_entity(
            LocationView { id: Some(id), created_at, updated_at, ..location },
        ) == Ok::<
            LocationResponseView,
            MappingErrorView,
        >(LocationResponse::of(
            LocationView { id: Some(id), created_at, updated_at, ..location },
            id,
            location.user_id,
        )),
{
}

/// Create, then get, for a location.
///
/// The store keeps what it is given: it answers the create with a row that
/// holds what the call bound, under the identity and the times it assigned,
/// and, nothing else having written since, it answers the read of that
/// location with the same row. Then the create shows the location with every
/// field as it was asked for, and the read that follows shows that same
/// location, with or without a cache.
pub proof fn created_location_is_read_back(
    cached: bool,
    location: LocationView,
    actor: Seq<u8>,
    reader: Seq<u8>,
    row: Seq<ColumnView>,
    id: Seq<u8>,
    created_at: Option<DateTimeUtc>,
    updated_at: Option<DateTimeUtc>,
    cache: Map<Seq<char>, CachedView<LocationResponseView>>,
    store: spec_fn(ProcedureCallView) -> EventView<LocationResponseView>,
)
    requires
        location.user_id.len() == 16,
        id.len() == 16,
        keeps_location(location, Some(actor), row, column_index(row), id, created_at, updated_at),
        store(location_create_call(location, Some(actor))) == EventView::<LocationResponseView>::One(
            Ok(row),
        ),
        store(location_get_call(id, Some(reader))) == EventView::<LocationResponseView>::Row(
            Ok(Some(row)),
        ),
    ensures
        ({
            let shown = LocationResponse::of(
                LocationView { id: Some(id), created_at, updated_at, ..location },
                id,
                location.user_id,
            );
            let created = run::<LocationResponse>(
                begin(create_location_plan(cached, location, actor)),
                cache,
                store,
                Seq::empty(),
                3,
            );
            let got = run::<LocationResponse>(
                begin(get_location_plan(cached, id, reader)),
                created->Some_0.cache,
                store,
                Seq::empty(),
                read_fuel(),
            );
            &&& created is Some
            &&& created->Some_0.outcome == OutcomeView::Found(shown)
            &&& got is Some
            &&& got->Some_0.outcome == OutcomeView::Found(shown)
            &&& shown.location_id == id
            &&& shown.user_id == location.user_id
            &&& shown.location_name == location.name
            &&& shown.location_address == location.address
            &&& shown.location_city == location.city
            &&& shown.location_region == location.region
            &&& shown.location_postal_code == location.postal_code
            &&& shown.location_country_code == location.country_code
            &&& shown.location_latitude == location.latitude
            &&& shown.location_longitude == location.longitude
            &&& shown.location_archived == location.archived
        }),
{
    location_round_trip(location, Some(actor), row, column_index(row), id, created_at, updated_at);
    lemma_location_key_is_no_list_key(id, location.user_id);
    created_is_read_back::<LocationResponse>(
        create_location_plan(cached, location, actor),
        get_location_plan(cached, id, reader),
        row,
        LocationResponse::of(
            LocationView { id: Some(id), created_at, updated_at, ..location },
            id,
            location.user_id,
        ),
        cache,
        store,
        3,
    );
}

} // verus!
