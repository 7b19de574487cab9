//! The stored procedures behind locations.
//!
//! Every call ends with the identity of the acting user, which the store
//! records: sixteen bytes, or null where nobody is named.

use vstd::prelude::*;
use crate::modules::locations::location_model::{Location, LocationView};
use crate::shared::crud_repository::{
    CallShape,
    CrudRepository,
    ProcedureCall,
    ProcedureCallView,
    procedure_call,
    stamped,
};
use crate::shared::db::mysql::GenericRepository;
use crate::shared::db::param::{MySqlParam, MySqlParamView};
use crate::shared::db::row::lemma_bytes_deep_view;
use crate::shared::decimal::{Decimal, DecimalView};
use crate::shared::ids::Uuid;
use crate::shared::utils::{oub, oub_spec, ub};

verus! {

/// Reads the location `location_id`.
pub open spec fn location_get_call(
    location_id: Seq<u8>,
    meta_user: Option<Seq<u8>>,
) -> ProcedureCallView {
    procedure_call(
        "proc_location_get_by_id"@,
        seq![
            MySqlParamView::Bytes(location_id),
            MySqlParamView::OptBytes(meta_user),
        ],
        CallShape::FetchOptional,
    )
}

/// Stores `location` and reads back what was stored, with the identity
/// the store gave it.
pub open spec fn location_create_call(
    location: LocationView,
    meta_user: Option<Seq<u8>>,
) -> ProcedureCallView {
    procedure_call(
        "proc_location_create"@,
        seq![
            MySqlParamView::Bytes(location.user_id),
            MySqlParamView::String(location.name),
            MySqlParamView::OptString(location.address),
            MySqlParamView::OptString(location.city),
            MySqlParamView::OptString(location.region),
            MySqlParamView::OptString(location.postal_code),
            MySqlParamView::OptString(location.country_code),
            MySqlParamView::OptDecimal(location.latitude),
            MySqlParamView::OptDecimal(location.longitude),
            MySqlParamView::Bool(location.archived),
            MySqlParamView::OptBytes(meta_user),
        ],
        CallShape::FetchOne,
    )
}

/// Renames the location `location_id` and reads it back.
pub open spec fn location_update_name_call(
    location_id: Seq<u8>,
    name: Seq<char>,
    meta_user: Option<Seq<u8>>,
) -> ProcedureCallView {
    procedure_call(
        "proc_location_update_name"@,
        seq![
            MySqlParamView::Bytes(location_id),
            MySqlParamView::String(name),
            MySqlParamView::OptBytes(meta_user),
        ],
        CallShape::FetchOptional,
    )
}

/// Changes the address of the location `location_id` and reads it back.
pub open spec fn location_update_call(
    location_id: Seq<u8>,
    address: Option<Seq<char>>,
    city: Option<Seq<char>>,
    region: Option<Seq<char>>,
    postal_code: Option<Seq<char>>,
    country_code: Option<Seq<char>>,
    meta_user: Option<Seq<u8>>,
) -> ProcedureCallView {
    procedure_call(
        "proc_location_update"@,
        seq![
            MySqlParamView::Bytes(location_id),
            MySqlParamView::OptString(address),
            MySqlParamView::OptString(city),
            MySqlParamView::OptString(region),
            MySqlParamView::OptString(postal_code),
            MySqlParamView::OptString(country_code),
            MySqlParamView::OptBytes(meta_user),
        ],
        CallShape::FetchOptional,
    )
}

/// Sets the coordinates of the location `location_id` and reads it back.
pub open spec fn location_update_lat_long_call(
    location_id: Seq<u8>,
    latitude: Option<DecimalView>,
    longitude: Option<DecimalView>,
    meta_user: Option<Seq<u8>>,
) -> ProcedureCallView {
    procedure_call(
        "proc_location_update_lat_long"@,
        seq![
            MySqlParamView::Bytes(location_id),
            MySqlParamView::OptDecimal(latitude),
            MySqlParamView::OptDecimal(longitude),
            MySqlParamView::OptBytes(meta_user),
        ],
        CallShape::FetchOptional,
    )
}

/// Archives the location `location_id` or brings it back, and reads it
/// back.
pub open spec fn location_archived_call(
    location_id: Seq<u8>,
    archived: bool,
    meta_user: Option<Seq<u8>>,
) -> ProcedureCallView {
    procedure_call(
        "proc_location_update_archived"@,
        seq![
            MySqlParamView::Bytes(location_id),
            MySqlParamView::Bool(archived),
            MySqlParamView::OptBytes(meta_user),
        ],
        CallShape::FetchOptional,
    )
}

/// Deletes the location `location_id`.
pub open spec fn location_delete_call(
    location_id: Seq<u8>,
    meta_user: Option<Seq<u8>>,
) -> ProcedureCallView {
    procedure_call(
        "proc_location_delete"@,
        seq![
            MySqlParamView::Bytes(location_id),
            MySqlParamView::OptBytes(meta_user),
        ],
        CallShape::Execute,
    )
}

/// Lists locations: at most `limit` of them, after the first `offset`.
pub open spec fn location_get_all_call(
    limit: Option<u32>,
    offset: Option<u32>,
    meta_user: Option<Seq<u8>>,
) -> ProcedureCallView {
    procedure_call(
        "proc_location_list"@,
        seq![
            MySqlParamView::OptU32(limit),
            MySqlParamView::OptU32(offset),
            MySqlParamView::OptBytes(meta_user),
        ],
        CallShape::FetchList,
    )
}

/// Lists the locations that `user_id` owns.
pub open spec fn location_get_by_user_call(
    user_id: Seq<u8>,
    meta_user: Option<Seq<u8>>,
) -> ProcedureCallView {
    procedure_call(
        "proc_location_by_user"@,
        seq![
            MySqlParamView::Bytes(user_id),
            MySqlParamView::OptBytes(meta_user),
        ],
        CallShape::FetchList,
    )
}

/// Lists the locations that match `query`: at most `limit` of them,
/// after the first `offset`.
pub open spec fn location_search_call(
    query: Seq<char>,
    limit: Option<u32>,
    offset: Option<u32>,
    meta_user: Option<Seq<u8>>,
) -> ProcedureCallView {
    procedure_call(
        "proc_location_search"@,
        seq![
            MySqlParamView::String(query),
            MySqlParamView::OptU32(limit),
            MySqlParamView::OptU32(offset),
            MySqlParamView::OptBytes(meta_user),
        ],
        CallShape::FetchList,
    )
}

/// Lists the locations of `user_id` that match `query`.
pub open spec fn location_search_by_user_call(
    user_id: Seq<u8>,
    query: Seq<char>,
    meta_user: Option<Seq<u8>>,
) -> ProcedureCallView {
    procedure_call(
        "proc_location_search_by_user"@,
        seq![
            MySqlParamView::Bytes(user_id),
            MySqlParamView::String(query),
            MySqlParamView::OptBytes(meta_user),
        ],
        CallShape::FetchList,
    )
}

/// The store calls that read and change locations.
pub trait LocationRepositoryInterface {
    /// Reads the location `location_id`.
    fn get(&self, location_id: Uuid, meta_user: Option<Uuid>) -> (call: ProcedureCall)
        ensures
            call@ == location_get_call(location_id@, oub_spec(meta_user)),
    ;

    /// Stores `location` and reads back what was stored, with the identity
    /// the store gave it.
    fn create(&self, location: Location, meta_user: Option<Uuid>) -> (call: ProcedureCall)
        ensures
            call@ == location_create_call(location@, oub_spec(meta_user)),
    ;

    /// Renames the location `location_id` and reads it back.
    fn update_name(
        &self,
        location_id: Uuid,
        name: String,
        meta_user: Option<Uuid>,
    ) -> (call: ProcedureCall)
        ensures
            call@ == location_update_name_call(location_id@, name@, oub_spec(meta_user)),
    ;

    /// Changes the address of the location `location_id` and reads it back.
    fn update(
        &self,
        location_id: Uuid,
        address: Option<String>,
        city: Option<String>,
        region: Option<String>,
        postal_code: Option<String>,
        country_code: Option<String>,
        meta_user: Option<Uuid>,
    ) -> (call: ProcedureCall)
        ensures
            call@ == location_update_call(
                location_id@,
                address.deep_view(),
                city.deep_view(),
                region.deep_view(),
                postal_code.deep_view(),
                country_code.deep_view(),
                oub_spec(meta_user),
            ),
    ;

    /// Sets the coordinates of the location `location_id` and reads it back.
    fn update_lat_long(
        &self,
        location_id: Uuid,
        latitude: Option<Decimal>,
        longitude: Option<Decimal>,
        meta_user: Option<Uuid>,
    ) -> (call: ProcedureCall)
        ensures
            call@ == location_update_lat_long_call(
                location_id@,
                latitude.deep_view(),
                longitude.deep_view(),
                oub_spec(meta_user),
            ),
    ;

    /// Archives the location `location_id` or brings it back, and reads it
    /// back.
    fn archived(
        &self,
        location_id: Uuid,
        archived: bool,
        meta_user: Option<Uuid>,
    ) -> (call: ProcedureCall)
        ensures
            call@ == location_archived_call(location_id@, archived, oub_spec(meta_user)),
    ;

    /// Deletes the location `location_id`.
    fn delete(&self, location_id: Uuid, meta_user: Option<Uuid>) -> (call: ProcedureCall)
        ensures
            call@ == location_delete_call(location_id@, oub_spec(meta_user)),
    ;

    /// Lists locations: at most `limit` of them, after the first `offset`.
    fn get_all(
        &self,
        limit: Option<u32>,
        offset: Option<u32>,
        meta_user: Option<Uuid>,
    ) -> (call: ProcedureCall)
        ensures
            call@ == location_get_all_call(limit, offset, oub_spec(meta_user)),
    ;

    /// Lists the locations that `user_id` owns.
    fn get_by_user(&self, user_id: Uuid, meta_user: Option<Uuid>) -> (call: ProcedureCall)
        ensures
            call@ == location_get_by_user_call(user_id@, oub_spec(meta_user)),
    ;

    /// Lists the locations that match `query`: at most `limit` of them,
    /// after the first `offset`.
    fn search(
        &self,
        query: String,
        limit: Option<u32>,
        offset: Option<u32>,
        meta_user: Option<Uuid>,
    ) -> (call: ProcedureCall)
        ensures
            call@ == location_search_call(query@, limit, offset, oub_spec(meta_user)),
    ;

    /// Lists the locations of `user_id` that match `query`.
    fn search_by_user(
        &self,
        user_id: Uuid,
        query: String,
        meta_user: Option<Uuid>,
    ) -> (call: ProcedureCall)
        ensures
            call@ == location_search_by_user_call(user_id@, query@, oub_spec(meta_user)),
    ;
}

/// The repository of locations.
#[derive(Debug, Clone, Copy, PartialEq, Eq)]
pub struct LocationRepository {}

impl GenericRepository<Location> for LocationRepository {
}

impl LocationRepositoryInterface for LocationRepository {
    fn get(&self, location_id: Uuid, meta_user: Option<Uuid>) -> (call: ProcedureCall) {
        broadcast use lemma_bytes_deep_view;

        let mut params: Vec<MySqlParam> = Vec::new();
        params.push(MySqlParam::Bytes(ub(location_id)));
        params.push(MySqlParam::OptBytes(oub(meta_user)));
        assert(params.deep_view() =~= seq![
                MySqlParamView::Bytes(location_id@),
                MySqlParamView::OptBytes(oub_spec(meta_user)),
            ]);
        self.call_procedure_for_optional("proc_location_get_by_id", params)
    }

    fn create(&self, location: Location, meta_user: Option<Uuid>) -> (call: ProcedureCall) {
        broadcast use lemma_bytes_deep_view;

        let mut params: Vec<MySqlParam> = Vec::new();
        params.push(MySqlParam::Bytes(location.user_id));
        params.push(MySqlParam::String(location.name));
        params.push(MySqlParam::OptString(location.address));
        params.push(MySqlParam::OptString(location.city));
        params.push(MySqlParam::OptString(location.region));
        params.push(MySqlParam::OptString(location.postal_code));
        params.push(MySqlParam::OptString(location.country_code));
        params.push(MySqlParam::OptDecimal(location.latitude));
        params.push(MySqlParam::OptDecimal(location.longitude));
        params.push(MySqlParam::Bool(location.archived));
        params.push(MySqlParam::OptBytes(oub(meta_user)));
        assert(params.deep_view() =~= seq![
                MySqlParamView::Bytes(location.user_id@),
                MySqlParamView::String(location.name@),
                MySqlParamView::OptString(location.address.deep_view()),
                MySqlParamView::OptString(location.city.deep_view()),
                MySqlParamView::OptString(location.region.deep_view()),
                MySqlParamView::OptString(location.postal_code.deep_view()),
                MySqlParamView::OptString(location.country_code.deep_view()),
                MySqlParamView::OptDecimal(location.latitude.deep_view()),
                MySqlParamView::OptDecimal(location.longitude.deep_view()),
                MySqlParamView::Bool(location.archived),
                MySqlParamView::OptBytes(oub_spec(meta_user)),
            ]);
        self.call_procedure_for_one("proc_location_create", params)
    }

    fn update_name(
        &self,
        location_id: Uuid,
        name: String,
        meta_user: Option<Uuid>,
    ) -> (call: ProcedureCall) {
        broadcast use lemma_bytes_deep_view;

        let mut params: Vec<MySqlParam> = Vec::new();
        params.push(MySqlParam::Bytes(ub(location_id)));
        params.push(MySqlParam::String(name));
        params.push(MySqlParam::OptBytes(oub(meta_user)));
        assert(params.deep_view() =~= seq![
                MySqlParamView::Bytes(location_id@),
                MySqlParamView::String(name@),
                MySqlParamView::OptBytes(oub_spec(meta_user)),
            ]);
        self.call_procedure_for_optional("proc_location_update_name", params)
    }

    fn update(
        &self,
        location_id: Uuid,
        address: Option<String>,
        city: Option<String>,
        region: Option<String>,
        postal_code: Option<String>,
        country_code: Option<String>,
        meta_user: Option<Uuid>,
    ) -> (call: ProcedureCall) {
        broadcast use lemma_bytes_deep_view;

        let mut params: Vec<MySqlParam> = Vec::new();
        params.push(MySqlParam::Bytes(ub(location_id)));
        params.push(MySqlParam::OptString(address));
        params.push(MySqlParam::OptString(city));
        params.push(MySqlParam::OptString(region));
        params.push(MySqlParam::OptString(postal_code));
        params.push(MySqlParam::OptString(country_code));
        params.push(MySqlParam::OptBytes(oub(meta_user)));
        assert(params.deep_view() =~= seq![
                MySqlParamView::Bytes(location_id@),
                MySqlParamView::OptString(address.deep_view()),
                MySqlParamView::OptString(city.deep_view()),
                MySqlParamView::OptString(region.deep_view()),
                MySqlParamView::OptString(postal_code.deep_view()),
                MySqlParamView::OptString(country_code.deep_view()),
                MySqlParamView::OptBytes(oub_spec(meta_user)),
            ]);
        self.call_procedure_for_optional("proc_location_update", params)
    }

    fn update_lat_long(
        &self,
        location_id: Uuid,
        latitude: Option<Decimal>,
        longitude: Option<Decimal>,
        meta_user: Option<Uuid>,
    ) -> (call: ProcedureCall) {
        broadcast use lemma_bytes_deep_view;

        let mut params: Vec<MySqlParam> = Vec::new();
        params.push(MySqlParam::Bytes(ub(location_id)));
        params.push(MySqlParam::OptDecimal(latitude));
        params.push(MySqlParam::OptDecimal(longitude));
        params.push(MySqlParam::OptBytes(oub(meta_user)));
        assert(params.deep_view() =~= seq![
                MySqlParamView::Bytes(location_id@),
                MySqlParamView::OptDecimal(latitude.deep_view()),
                MySqlParamView::OptDecimal(longitude.deep_view()),
                MySqlParamView::OptBytes(oub_spec(meta_user)),
            ]);
        self.call_procedure_for_optional("proc_location_update_lat_long", params)
    }

    fn archived(
        &self,
        location_id: Uuid,
        archived: bool,
        meta_user: Option<Uuid>,
    ) -> (call: ProcedureCall) {
        broadcast use lemma_bytes_deep_view;

        let mut params: Vec<MySqlParam> = Vec::new();
        params.push(MySqlParam::Bytes(ub(location_id)));
        params.push(MySqlParam::Bool(archived));
        params.push(MySqlParam::OptBytes(oub(meta_user)));
        assert(params.deep_view() =~= seq![
                MySqlParamView::Bytes(location_id@),
                MySqlParamView::Bool(archived),
                MySqlParamView::OptBytes(oub_spec(meta_user)),
            ]);
        self.call_procedure_for_optional("proc_location_update_archived", params)
    }

    fn delete(&self, location_id: Uuid, meta_user: Option<Uuid>) -> (call: ProcedureCall) {
        broadcast use lemma_bytes_deep_view;

        let mut params: Vec<MySqlParam> = Vec::new();
        params.push(MySqlParam::Bytes(ub(location_id)));
        params.push(MySqlParam::OptBytes(oub(meta_user)));
        assert(params.deep_view() =~= seq![
                MySqlParamView::Bytes(location_id@),
                MySqlParamView::OptBytes(oub_spec(meta_user)),
            ]);
        self.call_procedure("proc_location_delete", params)
    }

    fn get_all(
        &self,
        limit: Option<u32>,
        offset: Option<u32>,
        meta_user: Option<Uuid>,
    ) -> (call: ProcedureCall) {
        broadcast use lemma_bytes_deep_view;

        let mut params: Vec<MySqlParam> = Vec::new();
        params.push(MySqlParam::OptU32(limit));
        params.push(MySqlParam::OptU32(offset));
        params.push(MySqlParam::OptBytes(oub(meta_user)));
        assert(params.deep_view() =~= seq![
                MySqlParamView::OptU32(limit),
                MySqlParamView::OptU32(offset),
                MySqlParamView::OptBytes(oub_spec(meta_user)),
            ]);
        self.call_procedure_for_list("proc_location_list", params)
    }

    fn get_by_user(&self, user_id: Uuid, meta_user: Option<Uuid>) -> (call: ProcedureCall) {
        broadcast use lemma_bytes_deep_view;

        let mut params: Vec<MySqlParam> = Vec::new();
        params.push(MySqlParam::Bytes(ub(user_id)));
        params.push(MySqlParam::OptBytes(oub(meta_user)));
        assert(params.deep_view() =~= seq![
                MySqlParamView::Bytes(user_id@),
                MySqlParamView::OptBytes(oub_spec(meta_user)),
            ]);
        self.call_procedure_for_list("proc_location_by_user", params)
    }

    fn search(
        &self,
        query: String,
        limit: Option<u32>,
        offset: Option<u32>,
        meta_user: Option<Uuid>,
    ) -> (call: ProcedureCall) {
        broadcast use lemma_bytes_deep_view;

        let mut params: Vec<MySqlParam> = Vec::new();
        params.push(MySqlParam::String(query));
        params.push(MySqlParam::OptU32(limit));
        params.push(MySqlParam::OptU32(offset));
        params.push(MySqlParam::OptBytes(oub(meta_user)));
        assert(params.deep_view() =~= seq![
                MySqlParamView::String(query@),
                MySqlParamView::OptU32(limit),
                MySqlParamView::OptU32(offset),
                MySqlParamView::OptBytes(oub_spec(meta_user)),
            ]);
        self.call_procedure_for_list("proc_location_search", params)
    }

    fn search_by_user(
        &self,
        user_id: Uuid,
        query: String,
        meta_user: Option<Uuid>,
    ) -> (call: ProcedureCall) {
        broadcast use lemma_bytes_deep_view;

        let mut params: Vec<MySqlParam> = Vec::new();
        params.push(MySqlParam::Bytes(ub(user_id)));
        params.push(MySqlParam::String(query));
        params.push(MySqlParam::OptBytes(oub(meta_user)));
        assert(params.deep_view() =~= seq![
                MySqlParamView::Bytes(user_id@),
                MySqlParamView::String(query@),
                MySqlParamView::OptBytes(oub_spec(meta_user)),
            ]);
        self.call_procedure_for_list("proc_location_search_by_user", params)
    }
}

/// Every store call that reads or changes a location ends with the
/// identity of the acting user.
pub proof fn location_calls_are_stamped()
    ensures
        forall|location_id: Seq<u8>, meta_user: Option<Seq<u8>>|
            stamped(#[trigger] location_get_call(location_id, meta_user), meta_user),
        forall|location: LocationView, meta_user: Option<Seq<u8>>|
            stamped(#[trigger] location_create_call(location, meta_user), meta_user),
        forall|location_id: Seq<u8>, name: Seq<char>, meta_user: Option<Seq<u8>>|
            stamped(#[trigger] location_update_name_call(location_id, name, meta_user), meta_user),
        forall|location_id: Seq<u8>, address: Option<Seq<char>>, city: Option<Seq<char>>, region: Option<Seq<char>>, postal_code: Option<Seq<char>>, country_code: Option<Seq<char>>, meta_user: Option<Seq<u8>>|
            stamped(#[trigger] location_update_call(location_id, address, city, region, postal_code, country_code, meta_user), meta_user),
        forall|location_id: Seq<u8>, latitude: Option<DecimalView>, longitude: Option<DecimalView>, meta_user: Option<Seq<u8>>|
            stamped(#[trigger] location_update_lat_long_call(location_id, latitude, longitude, meta_user), meta_user),
        forall|location_id: Seq<u8>, archived: bool, meta_user: Option<Seq<u8>>|
            stamped(#[trigger] location_archived_call(location_id, archived, meta_user), meta_user),
        forall|location_id: Seq<u8>, meta_user: Option<Seq<u8>>|
            stamped(#[trigger] location_delete_call(location_id, meta_user), meta_user),
        forall|limit: Option<u32>, offset: Option<u32>, meta_user: Option<Seq<u8>>|
            stamped(#[trigger] location_get_all_call(limit, offset, meta_user), meta_user),
        forall|user_id: Seq<u8>, meta_user: Option<Seq<u8>>|
            stamped(#[trigger] location_get_by_user_call(user_id, meta_user), meta_user),
        forall|query: Seq<char>, limit: Option<u32>, offset: Option<u32>, meta_user: Option<Seq<u8>>|
            stamped(#[trigger] location_search_call(query, limit, offset, meta_user), meta_user),
        forall|user_id: Seq<u8>, query: Seq<char>, meta_user: Option<Seq<u8>>|
            stamped(#[trigger] location_search_by_user_call(user_id, query, meta_user), meta_user),
{
}

} // verus!
