//! The stored procedures behind contacts.
//!
//! Every call ends with the identity of the acting user, which the store
//! records: sixteen bytes, or null where nobody is named.

use vstd::prelude::*;
use crate::modules::people::people_model::{People, PeopleView};
use crate::shared::crud_repository::{
    CallShape,
    CrudRepository,
    ProcedureCall,
    ProcedureCallView,
    procedure_call,
    stamped,
};
use crate::shared::db::mysql::GenericRepository;
use crate::shared::db::param::{MySqlParam, MySqlParamView};
use crate::shared::db::row::lemma_bytes_deep_view;
use crate::shared::ids::Uuid;
use crate::shared::utils::{oub, oub_spec, ub};

verus! {

/// Reads the contact `people_id`.
pub open spec fn people_get_call(
    people_id: Seq<u8>,
    meta_user: Option<Seq<u8>>,
) -> ProcedureCallView {
    procedure_call(
        "proc_people_get_by_id"@,
        seq![
            MySqlParamView::Bytes(people_id),
            MySqlParamView::OptBytes(meta_user),
        ],
        CallShape::FetchOptional,
    )
}

/// Stores `people` and reads back what was stored, with the identity the
/// store gave it.
pub open spec fn people_create_call(
    people: PeopleView,
    meta_user: Option<Seq<u8>>,
) -> ProcedureCallView {
    procedure_call(
        "proc_people_create"@,
        seq![
            MySqlParamView::Bytes(people.user_id),
            MySqlParamView::String(people.name),
            MySqlParamView::OptString(people.email),
            MySqlParamView::OptString(people.phone),
            MySqlParamView::OptString(people.image_url),
            MySqlParamView::OptString(people.note),
            MySqlParamView::Bool(people.archived),
            MySqlParamView::OptBytes(meta_user),
        ],
        CallShape::FetchOne,
    )
}

/// Changes the picture of the contact `people_id` and reads it back.
pub open spec fn people_update_image_call(
    people_id: Seq<u8>,
    image_url: Option<Seq<char>>,
    meta_user: Option<Seq<u8>>,
) -> ProcedureCallView {
    procedure_call(
        "proc_people_update_image"@,
        seq![
            MySqlParamView::Bytes(people_id),
            MySqlParamView::OptString(image_url),
            MySqlParamView::OptBytes(meta_user),
        ],
        CallShape::FetchOptional,
    )
}

/// Changes the name and details of the contact `people_id` and reads it
/// back.
pub open spec fn people_update_call(
    people_id: Seq<u8>,
    name: Seq<char>,
    email: Option<Seq<char>>,
    phone: Option<Seq<char>>,
    note: Option<Seq<char>>,
    meta_user: Option<Seq<u8>>,
) -> ProcedureCallView {
    procedure_call(
        "proc_people_update"@,
        seq![
            MySqlParamView::Bytes(people_id),
            MySqlParamView::String(name),
            MySqlParamView::OptString(email),
            MySqlParamView::OptString(phone),
            MySqlParamView::OptString(note),
            MySqlParamView::OptBytes(meta_user),
        ],
        CallShape::FetchOptional,
    )
}

/// Archives the contact `people_id` or brings it back, and reads it back.
pub open spec fn people_archived_call(
    people_id: Seq<u8>,
    archived: bool,
    meta_user: Option<Seq<u8>>,
) -> ProcedureCallView {
    procedure_call(
        "proc_people_update_archived"@,
        seq![
            MySqlParamView::Bytes(people_id),
            MySqlParamView::Bool(archived),
            MySqlParamView::OptBytes(meta_user),
        ],
        CallShape::FetchOptional,
    )
}

/// Deletes the contact `people_id`.
pub open spec fn people_delete_call(
    people_id: Seq<u8>,
    meta_user: Option<Seq<u8>>,
) -> ProcedureCallView {
    procedure_call(
        "proc_people_delete"@,
        seq![
            MySqlParamView::Bytes(people_id),
            MySqlParamView::OptBytes(meta_user),
        ],
        CallShape::Execute,
    )
}

/// Lists contacts: at most `limit` of them, after the first `offset`.
pub open spec fn people_get_all_call(
    limit: Option<u32>,
    offset: Option<u32>,
    meta_user: Option<Seq<u8>>,
) -> ProcedureCallView {
    procedure_call(
        "proc_people_list"@,
        seq![
            MySqlParamView::OptU32(limit),
            MySqlParamView::OptU32(offset),
            MySqlParamView::OptBytes(meta_user),
        ],
        CallShape::FetchList,
    )
}

/// Lists the contacts that `user_id` owns.
pub open spec fn people_get_by_user_call(
    user_id: Seq<u8>,
    meta_user: Option<Seq<u8>>,
) -> ProcedureCallView {
    procedure_call(
        "proc_people_by_user"@,
        seq![
            MySqlParamView::Bytes(user_id),
            MySqlParamView::OptBytes(meta_user),
        ],
        CallShape::FetchList,
    )
}

/// Lists the contacts that match `query`: at most `limit` of them, after
/// the first `offset`.
pub open spec fn people_search_call(
    query: Seq<char>,
    limit: Option<u32>,
    offset: Option<u32>,
    meta_user: Option<Seq<u8>>,
) -> ProcedureCallView {
    procedure_call(
        "proc_people_search"@,
        seq![
            MySqlParamView::String(query),
            MySqlParamView::OptU32(limit),
            MySqlParamView::OptU32(offset),
            MySqlParamView::OptBytes(meta_user),
        ],
        CallShape::FetchList,
    )
}

/// Lists the contacts of `user_id` that match `query`.
pub open spec fn people_search_by_user_call(
    user_id: Seq<u8>,
    query: Seq<char>,
    meta_user: Option<Seq<u8>>,
) -> ProcedureCallView {
    procedure_call(
        "proc_people_search_by_user"@,
        seq![
            MySqlParamView::Bytes(user_id),
            MySqlParamView::String(query),
            MySqlParamView::OptBytes(meta_user),
        ],
        CallShape::FetchList,
    )
}

/// The store calls that read and change contacts.
pub trait PeopleRepositoryInterface {
    /// Reads the contact `people_id`.
    fn get(&self, people_id: Uuid, meta_user: Option<Uuid>) -> (call: ProcedureCall)
        ensures
            call@ == people_get_call(people_id@, oub_spec(meta_user)),
    ;

    /// Stores `people` and reads back what was stored, with the identity the
    /// store gave it.
    fn create(&self, people: People, meta_user: Option<Uuid>) -> (call: ProcedureCall)
        ensures
            call@ == people_create_call(people@, oub_spec(meta_user)),
    ;

    /// Changes the picture of the contact `people_id` and reads it back.
    fn update_image(
        &self,
        people_id: Uuid,
        image_url: Option<String>,
        meta_user: Option<Uuid>,
    ) -> (call: ProcedureCall)
        ensures
            call@ == people_update_image_call(people_id@, image_url.deep_view(), oub_spec(meta_user)),
    ;

    /// Changes the name and details of the contact `people_id` and reads it
    /// back.
    fn update(
        &self,
        people_id: Uuid,
        name: String,
        email: Option<String>,
        phone: Option<String>,
        note: Option<String>,
        meta_user: Option<Uuid>,
    ) -> (call: ProcedureCall)
        ensures
            call@ == people_update_call(
                people_id@,
                name@,
                email.deep_view(),
                phone.deep_view(),
                note.deep_view(),
                oub_spec(meta_user),
            ),
    ;

    /// Archives the contact `people_id` or brings it back, and reads it back.
    fn archived(
        &self,
        people_id: Uuid,
        archived: bool,
        meta_user: Option<Uuid>,
    ) -> (call: ProcedureCall)
        ensures
            call@ == people_archived_call(people_id@, archived, oub_spec(meta_user)),
    ;

    /// Deletes the contact `people_id`.
    fn delete(&self, people_id: Uuid, meta_user: Option<Uuid>) -> (call: ProcedureCall)
        ensures
            call@ == people_delete_call(people_id@, oub_spec(meta_user)),
    ;

    /// Lists contacts: at most `limit` of them, after the first `offset`.
    fn get_all(
        &self,
        limit: Option<u32>,
        offset: Option<u32>,
        meta_user: Option<Uuid>,
    ) -> (call: ProcedureCall)
        ensures
            call@ == people_get_all_call(limit, offset, oub_spec(meta_user)),
    ;

    /// Lists the contacts that `user_id` owns.
    fn get_by_user(&self, user_id: Uuid, meta_user: Option<Uuid>) -> (call: ProcedureCall)
        ensures
            call@ == people_get_by_user_call(user_id@, oub_spec(meta_user)),
    ;

    /// Lists the contacts that match `query`: at most `limit` of them, after
    /// the first `offset`.
    fn search(
        &self,
        query: String,
        limit: Option<u32>,
        offset: Option<u32>,
        meta_user: Option<Uuid>,
    ) -> (call: ProcedureCall)
        ensures
            call@ == people_search_call(query@, limit, offset, oub_spec(meta_user)),
    ;

    /// Lists the contacts of `user_id` that match `query`.
    fn search_by_user(
        &self,
        user_id: Uuid,
        query: String,
        meta_user: Option<Uuid>,
    ) -> (call: ProcedureCall)
        ensures
            call@ == people_search_by_user_call(user_id@, query@, oub_spec(meta_user)),
    ;
}

/// The repository of contacts.
#[derive(Debug, Clone, Copy, PartialEq, Eq)]
pub struct PeopleRepository {}

impl GenericRepository<People> for PeopleRepository {
}

impl PeopleRepositoryInterface for PeopleRepository {
    fn get(&self, people_id: Uuid, meta_user: Option<Uuid>) -> (call: ProcedureCall) {
        broadcast use lemma_bytes_deep_view;

        let mut params: Vec<MySqlParam> = Vec::new();
        params.push(MySqlParam::Bytes(ub(people_id)));
        params.push(MySqlParam::OptBytes(oub(meta_user)));
        assert(params.deep_view() =~= seq![
                MySqlParamView::Bytes(people_id@),
                MySqlParamView::OptBytes(oub_spec(meta_user)),
            ]);
        self.call_procedure_for_optional("proc_people_get_by_id", params)
    }

    fn create(&self, people: People, meta_user: Option<Uuid>) -> (call: ProcedureCall) {
        broadcast use lemma_bytes_deep_view;

        let mut params: Vec<MySqlParam> = Vec::new();
        params.push(MySqlParam::Bytes(people.user_id));
        params.push(MySqlParam::String(people.name));
        params.push(MySqlParam::OptString(people.email));
        params.push(MySqlParam::OptString(people.phone));
        params.push(MySqlParam::OptString(people.image_url));
        params.push(MySqlParam::OptString(people.note));
        params.push(MySqlParam::Bool(people.archived));
        params.push(MySqlParam::OptBytes(oub(meta_user)));
        assert(params.deep_view() =~= seq![
                MySqlParamView::Bytes(people.user_id@),
                MySqlParamView::String(people.name@),
                MySqlParamView::OptString(people.email.deep_view()),
                MySqlParamView::OptString(people.phone.deep_view()),
                MySqlParamView::OptString(people.image_url.deep_view()),
                MySqlParamView::OptString(people.note.deep_view()),
                MySqlParamView::Bool(people.archived),
                MySqlParamView::OptBytes(oub_spec(meta_user)),
            ]);
        self.call_procedure_for_one("proc_people_create", params)
    }

    fn update_image(
        &self,
        people_id: Uuid,
        image_url: Option<String>,
        meta_user: Option<Uuid>,
    ) -> (call: ProcedureCall) {
        broadcast use lemma_bytes_deep_view;

        let mut params: Vec<MySqlParam> = Vec::new();
        params.push(MySqlParam::Bytes(ub(people_id)));
        params.push(MySqlParam::OptString(image_url));
        params.push(MySqlParam::OptBytes(oub(meta_user)));
        assert(params.deep_view() =~= seq![
                MySqlParamView::Bytes(people_id@),
                MySqlParamView::OptString(image_url.deep_view()),
                MySqlParamView::OptBytes(oub_spec(meta_user)),
            ]);
        self.call_procedure_for_optional("proc_people_update_image", params)
    }

    fn update(
        &self,
        people_id: Uuid,
        name: String,
        email: Option<String>,
        phone: Option<String>,
        note: Option<String>,
        meta_user: Option<Uuid>,
    ) -> (call: ProcedureCall) {
        broadcast use lemma_bytes_deep_view;

        let mut params: Vec<MySqlParam> = Vec::new();
        params.push(MySqlParam::Bytes(ub(people_id)));
        params.push(MySqlParam::String(name));
        params.push(MySqlParam::OptString(email));
        params.push(MySqlParam::OptString(phone));
        params.push(MySqlParam::OptString(note));
        params.push(MySqlParam::OptBytes(oub(meta_user)));
        assert(params.deep_view() =~= seq![
                MySqlParamView::Bytes(people_id@),
                MySqlParamView::String(name@),
                MySqlParamView::OptString(email.deep_view()),
                MySqlParamView::OptString(phone.deep_view()),
                MySqlParamView::OptString(note.deep_view()),
                MySqlParamView::OptBytes(oub_spec(meta_user)),
            ]);
        self.call_procedure_for_optional("proc_people_update", params)
    }

    fn archived(
        &self,
        people_id: Uuid,
        archived: bool,
        meta_user: Option<Uuid>,
    ) -> (call: ProcedureCall) {
        broadcast use lemma_bytes_deep_view;

        let mut params: Vec<MySqlParam> = Vec::new();
        params.push(MySqlParam::Bytes(ub(people_id)));
        params.push(MySqlParam::Bool(archived));
        params.push(MySqlParam::OptBytes(oub(meta_user)));
        assert(params.deep_view() =~= seq![
                MySqlParamView::Bytes(people_id@),
                MySqlParamView::Bool(archived),
                MySqlParamView::OptBytes(oub_spec(meta_user)),
            ]);
        self.call_procedure_for_optional("proc_people_update_archived", params)
    }

    fn delete(&self, people_id: Uuid, meta_user: Option<Uuid>) -> (call: ProcedureCall) {
        broadcast use lemma_bytes_deep_view;

        let mut params: Vec<MySqlParam> = Vec::new();
        params.push(MySqlParam::Bytes(ub(people_id)));
        params.push(MySqlParam::OptBytes(oub(meta_user)));
        assert(params.deep_view() =~= seq![
                MySqlParamView::Bytes(people_id@),
                MySqlParamView::OptBytes(oub_spec(meta_user)),
            ]);
        self.call_procedure("proc_people_delete", params)
    }

    fn get_all(
        &self,
        limit: Option<u32>,
        offset: Option<u32>,
        meta_user: Option<Uuid>,
    ) -> (call: ProcedureCall) {
        broadcast use lemma_bytes_deep_view;

        let mut params: Vec<MySqlParam> = Vec::new();
        params.push(MySqlParam::OptU32(limit));
        params.push(MySqlParam::OptU32(offset));
        params.push(MySqlParam::OptBytes(oub(meta_user)));
        assert(params.deep_view() =~= seq![
                MySqlParamView::OptU32(limit),
                MySqlParamView::OptU32(offset),
                MySqlParamView::OptBytes(oub_spec(meta_user)),
            ]);
        self.call_procedure_for_list("proc_people_list", params)
    }

    fn get_by_user(&self, user_id: Uuid, meta_user: Option<Uuid>) -> (call: ProcedureCall) {
        broadcast use lemma_bytes_deep_view;

        let mut params: Vec<MySqlParam> = Vec::new();
        params.push(MySqlParam::Bytes(ub(user_id)));
        params.push(MySqlParam::OptBytes(oub(meta_user)));
        assert(params.deep_view() =~= seq![
                MySqlParamView::Bytes(user_id@),
                MySqlParamView::OptBytes(oub_spec(meta_user)),
            ]);
        self.call_procedure_for_list("proc_people_by_user", params)
    }

    fn search(
        &self,
        query: String,
        limit: Option<u32>,
        offset: Option<u32>,
        meta_user: Option<Uuid>,
    ) -> (call: ProcedureCall) {
        broadcast use lemma_bytes_deep_view;

        let mut params: Vec<MySqlParam> = Vec::new();
        params.push(MySqlParam::String(query));
        params.push(MySqlParam::OptU32(limit));
        params.push(MySqlParam::OptU32(offset));
        params.push(MySqlParam::OptBytes(oub(meta_user)));
        assert(params.deep_view() =~= seq![
                MySqlParamView::String(query@),
                MySqlParamView::OptU32(limit),
                MySqlParamView::OptU32(offset),
                MySqlParamView::OptBytes(oub_spec(meta_user)),
            ]);
        self.call_procedure_for_list("proc_people_search", params)
    }

    fn search_by_user(
        &self,
        user_id: Uuid,
        query: String,
        meta_user: Option<Uuid>,
    ) -> (call: ProcedureCall) {
        broadcast use lemma_bytes_deep_view;

        let mut params: Vec<MySqlParam> = Vec::new();
        params.push(MySqlParam::Bytes(ub(user_id)));
        params.push(MySqlParam::String(query));
        params.push(MySqlParam::OptBytes(oub(meta_user)));
        assert(params.deep_view() =~= seq![
                MySqlParamView::Bytes(user_id@),
                MySqlParamView::String(query@),
                MySqlParamView::OptBytes(oub_spec(meta_user)),
            ]);
        self.call_procedure_for_list("proc_people_search_by_user", params)
    }
}

/// Every store call that reads or changes a contact ends with the
/// identity of the acting user.
pub proof fn people_calls_are_stamped()
    ensures
        forall|people_id: Seq<u8>, meta_user: Option<Seq<u8>>|
            stamped(#[trigger] people_get_call(people_id, meta_user), meta_user),
        forall|people: PeopleView, meta_user: Option<Seq<u8>>|
            stamped(#[trigger] people_create_call(people, meta_user), meta_user),
        forall|people_id: Seq<u8>, image_url: Option<Seq<char>>, meta_user: Option<Seq<u8>>|
            stamped(#[trigger] people_update_image_call(people_id, image_url, meta_user), meta_user),
        forall|people_id: Seq<u8>, name: Seq<char>, email: Option<Seq<char>>, phone: Option<Seq<char>>, note: Option<Seq<char>>, meta_user: Option<Seq<u8>>|
            stamped(#[trigger] people_update_call(people_id, name, email, phone, note, meta_user), meta_user),
        forall|people_id: Seq<u8>, archived: bool, meta_user: Option<Seq<u8>>|
            stamped(#[trigger] people_archived_call(people_id, archived, meta_user), meta_user),
        forall|people_id: Seq<u8>, meta_user: Option<Seq<u8>>|
            stamped(#[trigger] people_delete_call(people_id, meta_user), meta_user),
        forall|limit: Option<u32>, offset: Option<u32>, meta_user: Option<Seq<u8>>|
            stamped(#[trigger] people_get_all_call(limit, offset, meta_user), meta_user),
        forall|user_id: Seq<u8>, meta_user: Option<Seq<u8>>|
            stamped(#[trigger] people_get_by_user_call(user_id, meta_user), meta_user),
        forall|query: Seq<char>, limit: Option<u32>, offset: Option<u32>, meta_user: Option<Seq<u8>>|
            stamped(#[trigger] people_search_call(query, limit, offset, meta_user), meta_user),
        forall|user_id: Seq<u8>, query: Seq<char>, meta_user: Option<Seq<u8>>|
            stamped(#[trigger] people_search_by_user_call(user_id, query, meta_user), meta_user),
{
}

} // verus!
