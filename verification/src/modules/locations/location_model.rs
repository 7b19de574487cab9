//! Locations as the store holds them.

use vstd::prelude::*;
use crate::modules::locations::location_command::LocationCreateCommand;
use crate::shared::db::mysql::FromSqlRow;
use crate::shared::db::row::{
    ColumnIndexMap,
    ColumnView,
    MappingError,
    MappingErrorView,
    Row,
    bool_of,
    bytes_of,
    Earliest,
    error_of,
    lemma_bytes_deep_view,
    opt_bytes_of,
    opt_datetime_of,
    opt_decimal_of,
    opt_text_of,
    text_of,
};
use crate::shared::decimal::{Decimal, DecimalView};
use crate::shared::temporal::DateTimeUtc;
use crate::shared::utils::ub;

verus! {

/// A place of one user.
#[derive(Debug, Clone, PartialEq, Eq)]
pub struct Location {
    /// The sixteen bytes of the identity; none before the store has assigned one.
    pub id: Option<Vec<u8>>,
    /// The sixteen bytes of the owning user's identity.
    pub user_id: Vec<u8>,
    pub name: String,
    pub address: Option<String>,
    pub city: Option<String>,
    pub region: Option<String>,
    pub postal_code: Option<String>,
    pub country_code: Option<String>,
    pub latitude: Option<Decimal>,
    pub longitude: Option<Decimal>,
    /// Set when the location is put away; an archived location still exists.
    pub archived: bool,
    pub created_at: Option<DateTimeUtc>,
    pub updated_at: Option<DateTimeUtc>,
}

/// What a [`Location`] stands for.
pub struct LocationView {
    pub id: Option<Seq<u8>>,
    pub user_id: Seq<u8>,
    pub name: Seq<char>,
    pub address: Option<Seq<char>>,
    pub city: Option<Seq<char>>,
    pub region: Option<Seq<char>>,
    pub postal_code: Option<Seq<char>>,
    pub country_code: Option<Seq<char>>,
    pub latitude: Option<DecimalView>,
    pub longitude: Option<DecimalView>,
    pub archived: bool,
    pub created_at: Option<DateTimeUtc>,
    pub updated_at: Option<DateTimeUtc>,
}

impl DeepView for Location {
    type V = LocationView;

    open spec fn deep_view(&self) -> LocationView {
        LocationView {
            id: self.id.deep_view(),
            user_id: self.user_id@,
            name: self.name@,
            address: self.address.deep_view(),
            city: self.city.deep_view(),
            region: self.region.deep_view(),
            postal_code: self.postal_code.deep_view(),
            country_code: self.country_code.deep_view(),
            latitude: self.latitude.deep_view(),
            longitude: self.longitude.deep_view(),
            archived: self.archived,
            created_at: self.created_at,
            updated_at: self.updated_at,
        }
    }
}

impl View for Location {
    type V = LocationView;

    open spec fn view(&self) -> LocationView {
        self.deep_view()
    }
}

impl FromSqlRow for Location {
    open spec fn row_model(row: Seq<ColumnView>, index: Map<Seq<char>, usize>) -> Result<
        LocationView,
        MappingErrorView,
    > {
        let id = opt_bytes_of(row, index, "id"@);
        let user_id = bytes_of(row, index, "user_id"@);
        let name = text_of(row, index, "name"@);
        let address = opt_text_of(row, index, "address"@);
        let city = opt_text_of(row, index, "city"@);
        let region = opt_text_of(row, index, "region"@);
        let postal_code = opt_text_of(row, index, "postal_code"@);
        let country_code = opt_text_of(row, index, "country_code"@);
        let latitude = opt_decimal_of(row, index, "latitude"@);
        let longitude = opt_decimal_of(row, index, "longitude"@);
        let archived = bool_of(row, index, "archived"@);
        let created_at = opt_datetime_of(row, index, "created_at"@);
        let updated_at = opt_datetime_of(row, index, "updated_at"@);
        match error_of(id)
            .or_later(error_of(user_id))
            .or_later(error_of(name))
            .or_later(error_of(address))
            .or_later(error_of(city))
            .or_later(error_of(region))
            .or_later(error_of(postal_code))
            .or_later(error_of(country_code))
            .or_later(error_of(latitude))
            .or_later(error_of(longitude))
            .or_later(error_of(archived))
            .or_later(error_of(created_at))
            .or_later(error_of(updated_at)) {
            Some(e) => Err(e),
            None => Ok(
                LocationView {
                    id: id->Ok_0,
                    user_id: user_id->Ok_0,
                    name: name->Ok_0,
                    address: address->Ok_0,
                    city: city->Ok_0,
                    region: region->Ok_0,
                    postal_code: postal_code->Ok_0,
                    country_code: country_code->Ok_0,
                    latitude: latitude->Ok_0,
                    longitude: longitude->Ok_0,
                    archived: archived->Ok_0,
                    created_at: created_at->Ok_0,
                    updated_at: updated_at->Ok_0,
                },
            ),
        }
    }

    fn map_row_to_entity(row: &Row, index_map: &ColumnIndexMap) -> (r: Result<
        Self,
        MappingError,
    >) {
        broadcast use lemma_bytes_deep_view;

        let id = row.get_opt_bytes(index_map, "id")?;
        let user_id = row.get_bytes(index_map, "user_id")?;
        let name = row.get_text(index_map, "name")?;
        let address = row.get_opt_text(index_map, "address")?;
        let city = row.get_opt_text(index_map, "city")?;
        let region = row.get_opt_text(index_map, "region")?;
        let postal_code = row.get_opt_text(index_map, "postal_code")?;
        let country_code = row.get_opt_text(index_map, "country_code")?;
        let latitude = row.get_opt_decimal(index_map, "latitude")?;
        let longitude = row.get_opt_decimal(index_map, "longitude")?;
        let archived = row.get_bool(index_map, "archived")?;
        let created_at = row.get_opt_datetime(index_map, "created_at")?;
        let updated_at = row.get_opt_datetime(index_map, "updated_at")?;
        Ok(
            Location {
                id,
                user_id,
                name,
                address,
                city,
                region,
                postal_code,
                country_code,
                latitude,
                longitude,
                archived,
                created_at,
                updated_at,
            },
        )
    }
}

impl Location {
    /// The location a create command asks for: owned by the acting user,
    /// not archived, without identity and times, which the store assigns.
    pub fn from(command: LocationCreateCommand) -> (location: Location)
        ensures
            location@ == (LocationView {
                id: None,
                user_id: command.user_id@,
                name: command.location_name@,
                address: command.location_address.deep_view(),
                city: command.location_city.deep_view(),
                region: command.location_region.deep_view(),
                postal_code: command.location_postal_code.deep_view(),
                country_code: command.location_country_code.deep_view(),
                latitude: command.location_latitude.deep_view(),
                longitude: command.location_longitude.deep_view(),
                archived: false,
                created_at: None,
                updated_at: None,
            }),
    {
        Location {
            id: None,
            user_id: ub(command.user_id),
            name: command.location_name,
            address: command.location_address,
            city: command.location_city,
            region: command.location_region,
            postal_code: command.location_postal_code,
            country_code: command.location_country_code,
            latitude: command.location_latitude,
            longitude: command.location_longitude,
            archived: false,
            created_at: None,
            updated_at: None,
        }
    }
}

} // verus!
