//! The stored procedures behind users.
//!
//! Every call ends with the identity of the acting user, which the store
//! records: sixteen bytes, or null where nobody is named.

use vstd::prelude::*;
use crate::modules::users::user::user_model::{User, UserView};
use crate::shared::crud_repository::{
    CallShape,
    CrudRepository,
    ProcedureCall,
    ProcedureCallView,
    procedure_call,
    stamped,
};
use crate::shared::db::mysql::GenericRepository;
use crate::shared::db::param::{MySqlParam, MySqlParamView};
use crate::shared::db::row::lemma_bytes_deep_view;
use crate::shared::ids::Uuid;
use crate::shared::utils::{oub, oub_spec, ub};

verus! {

/// Reads the user `user_id`.
pub open spec fn user_get_call(user_id: Seq<u8>, meta_user: Option<Seq<u8>>) -> ProcedureCallView {
    procedure_call(
        "proc_user_get_by_id"@,
        seq![
            MySqlParamView::Bytes(user_id),
            MySqlParamView::OptBytes(meta_user),
        ],
        CallShape::FetchOptional,
    )
}

/// Stores `user` and reads back what was stored, with the identity the
/// store gave it.
pub open spec fn user_create_call(user: UserView, meta_user: Option<Seq<u8>>) -> ProcedureCallView {
    procedure_call(
        "proc_user_insert"@,
        seq![
            MySqlParamView::String(user.email),
            MySqlParamView::String(user.password_hash),
            MySqlParamView::String(user.first_name),
            MySqlParamView::String(user.last_name),
            MySqlParamView::String(user.base_currency_code),
            MySqlParamView::OptBytes(meta_user),
        ],
        CallShape::FetchOne,
    )
}

/// Replaces the stored password of the user `user_id` and reads the user
/// back.
pub open spec fn user_update_password_call(
    user_id: Seq<u8>,
    password: Seq<char>,
    meta_user: Option<Seq<u8>>,
) -> ProcedureCallView {
    procedure_call(
        "proc_user_update_password"@,
        seq![
            MySqlParamView::Bytes(user_id),
            MySqlParamView::String(password),
            MySqlParamView::OptBytes(meta_user),
        ],
        CallShape::FetchOptional,
    )
}

/// Changes the names of the user `user_id` and reads the user back.
pub open spec fn user_update_name_call(
    user_id: Seq<u8>,
    first_name: Seq<char>,
    last_name: Seq<char>,
    meta_user: Option<Seq<u8>>,
) -> ProcedureCallView {
    procedure_call(
        "proc_user_update_name"@,
        seq![
            MySqlParamView::Bytes(user_id),
            MySqlParamView::String(first_name),
            MySqlParamView::String(last_name),
            MySqlParamView::OptBytes(meta_user),
        ],
        CallShape::FetchOptional,
    )
}

/// Changes the base currency of the user `user_id` and reads the user
/// back.
pub open spec fn user_update_base_currency_call(
    user_id: Seq<u8>,
    base_currency: Seq<char>,
    meta_user: Option<Seq<u8>>,
) -> ProcedureCallView {
    procedure_call(
        "proc_user_update_base_currency"@,
        seq![
            MySqlParamView::Bytes(user_id),
            MySqlParamView::String(base_currency),
            MySqlParamView::OptBytes(meta_user),
        ],
        CallShape::FetchOptional,
    )
}

/// Deletes the user `user_id`.
pub open spec fn user_delete_call(
    user_id: Seq<u8>,
    meta_user: Option<Seq<u8>>,
) -> ProcedureCallView {
    procedure_call(
        "proc_user_delete"@,
        seq![
            MySqlParamView::Bytes(user_id),
            MySqlParamView::OptBytes(meta_user),
        ],
        CallShape::Execute,
    )
}

/// Reads the user who signs in with `email`.
pub open spec fn user_get_by_email_call(
    email: Seq<char>,
    meta_user: Option<Seq<u8>>,
) -> ProcedureCallView {
    procedure_call(
        "proc_user_get_by_email"@,
        seq![
            MySqlParamView::String(email),
            MySqlParamView::OptBytes(meta_user),
        ],
        CallShape::FetchOptional,
    )
}

/// Lists users: at most `limit` of them, after the first `offset`.
pub open spec fn user_get_all_call(
    limit: Option<u32>,
    offset: Option<u32>,
    meta_user: Option<Seq<u8>>,
) -> ProcedureCallView {
    procedure_call(
        "proc_user_list"@,
        seq![
            MySqlParamView::OptU32(limit),
            MySqlParamView::OptU32(offset),
            MySqlParamView::OptBytes(meta_user),
        ],
        CallShape::FetchList,
    )
}

/// The store calls that read and change users.
pub trait UserRepositoryInterface {
    /// Reads the user `user_id`.
    fn get(&self, user_id: Uuid, meta_user: Option<Uuid>) -> (call: ProcedureCall)
        ensures
            call@ == user_get_call(user_id@, oub_spec(meta_user)),
    ;

    /// Stores `user` and reads back what was stored, with the identity the
    /// store gave it.
    fn create(&self, user: User, meta_user: Option<Uuid>) -> (call: ProcedureCall)
        ensures
            call@ == user_create_call(user@, oub_spec(meta_user)),
    ;

    /// Replaces the stored password of the user `user_id` and reads the user
    /// back.
    fn update_password(
        &self,
        user_id: Uuid,
        password: String,
        meta_user: Option<Uuid>,
    ) -> (call: ProcedureCall)
        ensures
            call@ == user_update_password_call(user_id@, password@, oub_spec(meta_user)),
    ;

    /// Changes the names of the user `user_id` and reads the user back.
    fn update_name(
        &self,
        user_id: Uuid,
        first_name: String,
        last_name: String,
        meta_user: Option<Uuid>,
    ) -> (call: ProcedureCall)
        ensures
            call@ == user_update_name_call(user_id@, first_name@, last_name@, oub_spec(meta_user)),
    ;

    /// Changes the base currency of the user `user_id` and reads the user
    /// back.
    fn update_base_currency(
        &self,
        user_id: Uuid,
        base_currency: String,
        meta_user: Option<Uuid>,
    ) -> (call: ProcedureCall)
        ensures
            call@ == user_update_base_currency_call(user_id@, base_currency@, oub_spec(meta_user)),
    ;

    /// Deletes the user `user_id`.
    fn delete(&self, user_id: Uuid, meta_user: Option<Uuid>) -> (call: ProcedureCall)
        ensures
            call@ == user_delete_call(user_id@, oub_spec(meta_user)),
    ;

    /// Reads the user who signs in with `email`.
    fn get_by_email(&self, email: String, meta_user: Option<Uuid>) -> (call: ProcedureCall)
        ensures
            call@ == user_get_by_email_call(email@, oub_spec(meta_user)),
    ;

    /// Lists users: at most `limit` of them, after the first `offset`.
    fn get_all(
        &self,
        limit: Option<u32>,
        offset: Option<u32>,
        meta_user: Option<Uuid>,
    ) -> (call: ProcedureCall)
        ensures
            call@ == user_get_all_call(limit, offset, oub_spec(meta_user)),
    ;
}

/// The repository of users.
#[derive(Debug, Clone, Copy, PartialEq, Eq)]
pub struct UserRepository {}

impl GenericRepository<User> for UserRepository {
}

impl UserRepositoryInterface for UserRepository {
    fn get(&self, user_id: Uuid, meta_user: Option<Uuid>) -> (call: ProcedureCall) {
        broadcast use lemma_bytes_deep_view;

        let mut params: Vec<MySqlParam> = Vec::new();
        params.push(MySqlParam::Bytes(ub(user_id)));
        params.push(MySqlParam::OptBytes(oub(meta_user)));
        assert(params.deep_view() =~= seq![
                MySqlParamView::Bytes(user_id@),
                MySqlParamView::OptBytes(oub_spec(meta_user)),
            ]);
        self.call_procedure_for_optional("proc_user_get_by_id", params)
    }

    fn create(&self, user: User, meta_user: Option<Uuid>) -> (call: ProcedureCall) {
        broadcast use lemma_bytes_deep_view;

        let mut params: Vec<MySqlParam> = Vec::new();
        params.push(MySqlParam::String(user.email));
        params.push(MySqlParam::String(user.password_hash));
        params.push(MySqlParam::String(user.first_name));
        params.push(MySqlParam::String(user.last_name));
        params.push(MySqlParam::String(user.base_currency_code));
        params.push(MySqlParam::OptBytes(oub(meta_user)));
        assert(params.deep_view() =~= seq![
                MySqlParamView::String(user.email@),
                MySqlParamView::String(user.password_hash@),
                MySqlParamView::String(user.first_name@),
                MySqlParamView::String(user.last_name@),
                MySqlParamView::String(user.base_currency_code@),
                MySqlParamView::OptBytes(oub_spec(meta_user)),
            ]);
        self.call_procedure_for_one("proc_user_insert", params)
    }

    fn update_password(
        &self,
        user_id: Uuid,
        password: String,
        meta_user: Option<Uuid>,
    ) -> (call: ProcedureCall) {
        broadcast use lemma_bytes_deep_view;

        let mut params: Vec<MySqlParam> = Vec::new();
        params.push(MySqlParam::Bytes(ub(user_id)));
        params.push(MySqlParam::String(password));
        params.push(MySqlParam::OptBytes(oub(meta_user)));
        assert(params.deep_view() =~= seq![
                MySqlParamView::Bytes(user_id@),
                MySqlParamView::String(password@),
                MySqlParamView::OptBytes(oub_spec(meta_user)),
            ]);
        self.call_procedure_for_optional("proc_user_update_password", params)
    }

    fn update_name(
        &self,
        user_id: Uuid,
        first_name: String,
        last_name: String,
        meta_user: Option<Uuid>,
    ) -> (call: ProcedureCall) {
        broadcast use lemma_bytes_deep_view;

        let mut params: Vec<MySqlParam> = Vec::new();
        params.push(MySqlParam::Bytes(ub(user_id)));
        params.push(MySqlParam::String(first_name));
        params.push(MySqlParam::String(last_name));
        params.push(MySqlParam::OptBytes(oub(meta_user)));
        assert(params.deep_view() =~= seq![
                MySqlParamView::Bytes(user_id@),
                MySqlParamView::String(first_name@),
                MySqlParamView::String(last_name@),
                MySqlParamView::OptBytes(oub_spec(meta_user)),
            ]);
        self.call_procedure_for_optional("proc_user_update_name", params)
    }

    fn update_base_currency(
        &self,
        user_id: Uuid,
        base_currency: String,
        meta_user: Option<Uuid>,
    ) -> (call: ProcedureCall) {
        broadcast use lemma_bytes_deep_view;

        let mut params: Vec<MySqlParam> = Vec::new();
        params.push(MySqlParam::Bytes(ub(user_id)));
        params.push(MySqlParam::String(base_currency));
        params.push(MySqlParam::OptBytes(oub(meta_user)));
        assert(params.deep_view() =~= seq![
                MySqlParamView::Bytes(user_id@),
                MySqlParamView::String(base_currency@),
                MySqlParamView::OptBytes(oub_spec(meta_user)),
            ]);
        self.call_procedure_for_optional("proc_user_update_base_currency", params)
    }

    fn delete(&self, user_id: Uuid, meta_user: Option<Uuid>) -> (call: ProcedureCall) {
        broadcast use lemma_bytes_deep_view;

        let mut params: Vec<MySqlParam> = Vec::new();
        params.push(MySqlParam::Bytes(ub(user_id)));
        params.push(MySqlParam::OptBytes(oub(meta_user)));
        assert(params.deep_view() =~= seq![
                MySqlParamView::Bytes(user_id@),
                MySqlParamView::OptBytes(oub_spec(meta_user)),
            ]);
        self.call_procedure("proc_user_delete", params)
    }

    fn get_by_email(&self, email: String, meta_user: Option<Uuid>) -> (call: ProcedureCall) {
        broadcast use lemma_bytes_deep_view;

        let mut params: Vec<MySqlParam> = Vec::new();
        params.push(MySqlParam::String(email));
        params.push(MySqlParam::OptBytes(oub(meta_user)));
        assert(params.deep_view() =~= seq![
                MySqlParamView::String(email@),
                MySqlParamView::OptBytes(oub_spec(meta_user)),
            ]);
        self.call_procedure_for_optional("proc_user_get_by_email", params)
    }

    fn get_all(
        &self,
        limit: Option<u32>,
        offset: Option<u32>,
        meta_user: Option<Uuid>,
    ) -> (call: ProcedureCall) {
        broadcast use lemma_bytes_deep_view;

        let mut params: Vec<MySqlParam> = Vec::new();
        params.push(MySqlParam::OptU32(limit));
        params.push(MySqlParam::OptU32(offset));
        params.push(MySqlParam::OptBytes(oub(meta_user)));
        assert(params.deep_view() =~= seq![
                MySqlParamView::OptU32(limit),
                MySqlParamView::OptU32(offset),
                MySqlParamView::OptBytes(oub_spec(meta_user)),
            ]);
        self.call_procedure_for_list("proc_user_list", params)
    }
}

/// Every store call that reads or changes a user ends with the
/// identity of the acting user.
pub proof fn user_calls_are_stamped()
    ensures
        forall|user_id: Seq<u8>, meta_user: Option<Seq<u8>>|
            stamped(#[trigger] user_get_call(user_id, meta_user), meta_user),
        forall|user: UserView, meta_user: Option<Seq<u8>>|
            stamped(#[trigger] user_create_call(user, meta_user), meta_user),
        forall|user_id: Seq<u8>, password: Seq<char>, meta_user: Option<Seq<u8>>|
            stamped(#[trigger] user_update_password_call(user_id, password, meta_user), meta_user),
        forall|user_id: Seq<u8>, first_name: Seq<char>, last_name: Seq<char>, meta_user: Option<Seq<u8>>|
            stamped(#[trigger] user_update_name_call(user_id, first_name, last_name, meta_user), meta_user),
        forall|user_id: Seq<u8>, base_currency: Seq<char>, meta_user: Option<Seq<u8>>|
            stamped(#[trigger] user_update_base_currency_call(user_id, base_currency, meta_user), meta_user),
        forall|user_id: Seq<u8>, meta_user: Option<Seq<u8>>|
            stamped(#[trigger] user_delete_call(user_id, meta_user), meta_user),
        forall|email: Seq<char>, meta_user: Option<Seq<u8>>|
            stamped(#[trigger] user_get_by_email_call(email, meta_user), meta_user),
        forall|limit: Option<u32>, offset: Option<u32>, meta_user: Option<Seq<u8>>|
            stamped(#[trigger] user_get_all_call(limit, offset, meta_user), meta_user),
{
}

} // verus!
