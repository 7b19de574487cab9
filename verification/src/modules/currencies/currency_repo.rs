//! The stored procedures behind currencies and exchange rates.
//!
//! Every call ends with the identity of the acting user, which the store
//! records: sixteen bytes, or null where nobody is named.

use vstd::prelude::*;
use crate::modules::currencies::currency_model::{Currency, CurrencyView, FxRate, FxRateView};
use crate::shared::crud_repository::{
    CallShape,
    CrudRepository,
    ProcedureCall,
    ProcedureCallView,
    procedure_call,
    stamped,
};
use crate::shared::db::mysql::GenericRepository;
use crate::shared::db::param::{MySqlParam, MySqlParamView};
use crate::shared::db::row::lemma_bytes_deep_view;
use crate::shared::decimal::{Decimal, DecimalView};
use crate::shared::ids::Uuid;
use crate::shared::utils::{oub, oub_spec, ub};

verus! {

/// Reads the currency `code`.
pub open spec fn currency_get_call(
    code: Seq<char>,
    meta_user: Option<Seq<u8>>,
) -> ProcedureCallView {
    procedure_call(
        "proc_currency_get_by_code"@,
        seq![
            MySqlParamView::String(code),
            MySqlParamView::OptBytes(meta_user),
        ],
        CallShape::FetchOptional,
    )
}

/// Stores `currency` and reads back what was stored.
pub open spec fn currency_create_call(
    currency: CurrencyView,
    meta_user: Option<Seq<u8>>,
) -> ProcedureCallView {
    procedure_call(
        "proc_currency_insert"@,
        seq![
            MySqlParamView::String(currency.code),
            MySqlParamView::String(currency.name),
            MySqlParamView::U8(currency.minor_unit),
            MySqlParamView::OptBytes(meta_user),
        ],
        CallShape::FetchOne,
    )
}

/// Renames the currency `code` and reads it back.
pub open spec fn currency_update_name_call(
    code: Seq<char>,
    name: Seq<char>,
    meta_user: Option<Seq<u8>>,
) -> ProcedureCallView {
    procedure_call(
        "proc_currency_update_name"@,
        seq![
            MySqlParamView::String(code),
            MySqlParamView::String(name),
            MySqlParamView::OptBytes(meta_user),
        ],
        CallShape::FetchOptional,
    )
}

/// Deletes the currency `code`.
pub open spec fn currency_delete_call(
    code: Seq<char>,
    meta_user: Option<Seq<u8>>,
) -> ProcedureCallView {
    procedure_call(
        "proc_currency_delete"@,
        seq![
            MySqlParamView::String(code),
            MySqlParamView::OptBytes(meta_user),
        ],
        CallShape::Execute,
    )
}

/// Lists the currencies.
pub open spec fn currency_get_all_call(meta_user: Option<Seq<u8>>) -> ProcedureCallView {
    procedure_call(
        "proc_currency_list"@,
        seq![
            MySqlParamView::OptBytes(meta_user),
        ],
        CallShape::FetchList,
    )
}

/// The store calls that read and change currencies.
pub trait CurrencyRepositoryInterface {
    /// Reads the currency `code`.
    fn get(&self, code: String, meta_user: Option<Uuid>) -> (call: ProcedureCall)
        ensures
            call@ == currency_get_call(code@, oub_spec(meta_user)),
    ;

    /// Stores `currency` and reads back what was stored.
    fn create(&self, currency: Currency, meta_user: Option<Uuid>) -> (call: ProcedureCall)
        ensures
            call@ == currency_create_call(currency@, oub_spec(meta_user)),
    ;

    /// Renames the currency `code` and reads it back.
    fn update_name(
        &self,
        code: String,
        name: String,
        meta_user: Option<Uuid>,
    ) -> (call: ProcedureCall)
        ensures
            call@ == currency_update_name_call(code@, name@, oub_spec(meta_user)),
    ;

    /// Deletes the currency `code`.
    fn delete(&self, code: String, meta_user: Option<Uuid>) -> (call: ProcedureCall)
        ensures
            call@ == currency_delete_call(code@, oub_spec(meta_user)),
    ;

    /// Lists the currencies.
    fn get_all(&self, meta_user: Option<Uuid>) -> (call: ProcedureCall)
        ensures
            call@ == currency_get_all_call(oub_spec(meta_user)),
    ;
}

/// The repository of currencies.
#[derive(Debug, Clone, Copy, PartialEq, Eq)]
pub struct CurrencyRepository {}

impl GenericRepository<Currency> for CurrencyRepository {
}

impl CurrencyRepositoryInterface for CurrencyRepository {
    fn get(&self, code: String, meta_user: Option<Uuid>) -> (call: ProcedureCall) {
        broadcast use lemma_bytes_deep_view;

        let mut params: Vec<MySqlParam> = Vec::new();
        params.push(MySqlParam::String(code));
        params.push(MySqlParam::OptBytes(oub(meta_user)));
        assert(params.deep_view() =~= seq![
                MySqlParamView::String(code@),
                MySqlParamView::OptBytes(oub_spec(meta_user)),
            ]);
        self.call_procedure_for_optional("proc_currency_get_by_code", params)
    }

    fn create(&self, currency: Currency, meta_user: Option<Uuid>) -> (call: ProcedureCall) {
        broadcast use lemma_bytes_deep_view;

        let mut params: Vec<MySqlParam> = Vec::new();
        params.push(MySqlParam::String(currency.code));
        params.push(MySqlParam::String(currency.name));
        params.push(MySqlParam::U8(currency.minor_unit));
        params.push(MySqlParam::OptBytes(oub(meta_user)));
        assert(params.deep_view() =~= seq![
                MySqlParamView::String(currency.code@),
                MySqlParamView::String(currency.name@),
                MySqlParamView::U8(currency.minor_unit),
                MySqlParamView::OptBytes(oub_spec(meta_user)),
            ]);
        self.call_procedure_for_one("proc_currency_insert", params)
    }

    fn update_name(
        &self,
        code: String,
        name: String,
        meta_user: Option<Uuid>,
    ) -> (call: ProcedureCall) {
        broadcast use lemma_bytes_deep_view;

        let mut params: Vec<MySqlParam> = Vec::new();
        params.push(MySqlParam::String(code));
        params.push(MySqlParam::String(name));
        params.push(MySqlParam::OptBytes(oub(meta_user)));
        assert(params.deep_view() =~= seq![
                MySqlParamView::String(code@),
                MySqlParamView::String(name@),
                MySqlParamView::OptBytes(oub_spec(meta_user)),
            ]);
        self.call_procedure_for_optional("proc_currency_update_name", params)
    }

    fn delete(&self, code: String, meta_user: Option<Uuid>) -> (call: ProcedureCall) {
        broadcast use lemma_bytes_deep_view;

        let mut params: Vec<MySqlParam> = Vec::new();
        params.push(MySqlParam::String(code));
        params.push(MySqlParam::OptBytes(oub(meta_user)));
        assert(params.deep_view() =~= seq![
                MySqlParamView::String(code@),
                MySqlParamView::OptBytes(oub_spec(meta_user)),
            ]);
        self.call_procedure("proc_currency_delete", params)
    }

    fn get_all(&self, meta_user: Option<Uuid>) -> (call: ProcedureCall) {
        broadcast use lemma_bytes_deep_view;

        let mut params: Vec<MySqlParam> = Vec::new();
        params.push(MySqlParam::OptBytes(oub(meta_user)));
        assert(params.deep_view() =~= seq![
                MySqlParamView::OptBytes(oub_spec(meta_user)),
            ]);
        self.call_procedure_for_list("proc_currency_list", params)
    }
}

/// Reads the exchange rate `fx_rate_id`.
pub open spec fn fx_rate_get_call(
    fx_rate_id: Seq<u8>,
    meta_user: Option<Seq<u8>>,
) -> ProcedureCallView {
    procedure_call(
        "proc_fx_rate_get_by_id"@,
        seq![
            MySqlParamView::Bytes(fx_rate_id),
            MySqlParamView::OptBytes(meta_user),
        ],
        CallShape::FetchOptional,
    )
}

/// Stores `fx_rate` and reads back what was stored, with the identity
/// the store gave it.
pub open spec fn fx_rate_create_call(
    fx_rate: FxRateView,
    meta_user: Option<Seq<u8>>,
) -> ProcedureCallView {
    procedure_call(
        "proc_fx_rate_create"@,
        seq![
            MySqlParamView::String(fx_rate.base_code),
            MySqlParamView::String(fx_rate.quote_code),
            MySqlParamView::Decimal(fx_rate.rate),
            MySqlParamView::NaiveDate(fx_rate.as_of_date),
            MySqlParamView::String(fx_rate.source),
            MySqlParamView::OptBytes(meta_user),
        ],
        CallShape::FetchOne,
    )
}

/// Changes the rate of the exchange rate `fx_rate_id` and reads it back.
pub open spec fn fx_rate_update_call(
    fx_rate_id: Seq<u8>,
    rate: DecimalView,
    meta_user: Option<Seq<u8>>,
) -> ProcedureCallView {
    procedure_call(
        "proc_fx_rate_update_rate"@,
        seq![
            MySqlParamView::Bytes(fx_rate_id),
            MySqlParamView::Decimal(rate),
            MySqlParamView::OptBytes(meta_user),
        ],
        CallShape::FetchOptional,
    )
}

/// Deletes the exchange rate `fx_rate_id`.
pub open spec fn fx_rate_delete_call(
    fx_rate_id: Seq<u8>,
    meta_user: Option<Seq<u8>>,
) -> ProcedureCallView {
    procedure_call(
        "proc_fx_rate_delete"@,
        seq![
            MySqlParamView::Bytes(fx_rate_id),
            MySqlParamView::OptBytes(meta_user),
        ],
        CallShape::Execute,
    )
}

/// Lists the exchange rates.
pub open spec fn fx_rate_get_all_call(meta_user: Option<Seq<u8>>) -> ProcedureCallView {
    procedure_call(
        "proc_fx_rate_list"@,
        seq![
            MySqlParamView::OptBytes(meta_user),
        ],
        CallShape::FetchList,
    )
}

/// Lists the exchange rates whose base currency is `base_code`.
pub open spec fn fx_rate_get_by_base_code_call(
    base_code: Seq<char>,
    meta_user: Option<Seq<u8>>,
) -> ProcedureCallView {
    procedure_call(
        "proc_fx_rate_by_code"@,
        seq![
            MySqlParamView::String(base_code),
            MySqlParamView::OptBytes(meta_user),
        ],
        CallShape::FetchList,
    )
}

/// The store calls that read and change exchange rates.
pub trait FxRateRepositoryInterface {
    /// Reads the exchange rate `fx_rate_id`.
    fn get(&self, fx_rate_id: Uuid, meta_user: Option<Uuid>) -> (call: ProcedureCall)
        ensures
            call@ == fx_rate_get_call(fx_rate_id@, oub_spec(meta_user)),
    ;

    /// Stores `fx_rate` and reads back what was stored, with the identity
    /// the store gave it.
    fn create(&self, fx_rate: FxRate, meta_user: Option<Uuid>) -> (call: ProcedureCall)
        ensures
            call@ == fx_rate_create_call(fx_rate@, oub_spec(meta_user)),
    ;

    /// Changes the rate of the exchange rate `fx_rate_id` and reads it back.
    fn update(
        &self,
        fx_rate_id: Uuid,
        rate: Decimal,
        meta_user: Option<Uuid>,
    ) -> (call: ProcedureCall)
        ensures
            call@ == fx_rate_update_call(fx_rate_id@, rate@, oub_spec(meta_user)),
    ;

    /// Deletes the exchange rate `fx_rate_id`.
    fn delete(&self, fx_rate_id: Uuid, meta_user: Option<Uuid>) -> (call: ProcedureCall)
        ensures
            call@ == fx_rate_delete_call(fx_rate_id@, oub_spec(meta_user)),
    ;

    /// Lists the exchange rates.
    fn get_all(&self, meta_user: Option<Uuid>) -> (call: ProcedureCall)
        ensures
            call@ == fx_rate_get_all_call(oub_spec(meta_user)),
    ;

    /// Lists the exchange rates whose base currency is `base_code`.
    fn get_by_base_code(&self, base_code: String, meta_user: Option<Uuid>) -> (call: ProcedureCall)
        ensures
            call@ == fx_rate_get_by_base_code_call(base_code@, oub_spec(meta_user)),
    ;
}

/// The repository of exchange rates.
#[derive(Debug, Clone, Copy, PartialEq, Eq)]
pub struct FxRateRepository {}

impl GenericRepository<FxRate> for FxRateRepository {
}

impl FxRateRepositoryInterface for FxRateRepository {
    fn get(&self, fx_rate_id: Uuid, meta_user: Option<Uuid>) -> (call: ProcedureCall) {
        broadcast use lemma_bytes_deep_view;

        let mut params: Vec<MySqlParam> = Vec::new();
        params.push(MySqlParam::Bytes(ub(fx_rate_id)));
        params.push(MySqlParam::OptBytes(oub(meta_user)));
        assert(params.deep_view() =~= seq![
                MySqlParamView::Bytes(fx_rate_id@),
                MySqlParamView::OptBytes(oub_spec(meta_user)),
            ]);
        self.call_procedure_for_optional("proc_fx_rate_get_by_id", params)
    }

    fn create(&self, fx_rate: FxRate, meta_user: Option<Uuid>) -> (call: ProcedureCall) {
        broadcast use lemma_bytes_deep_view;

        let mut params: Vec<MySqlParam> = Vec::new();
        params.push(MySqlParam::String(fx_rate.base_code));
        params.push(MySqlParam::String(fx_rate.quote_code));
        params.push(MySqlParam::Decimal(fx_rate.rate));
        params.push(MySqlParam::NaiveDate(fx_rate.as_of_date));
        params.push(MySqlParam::String(fx_rate.source));
        params.push(MySqlParam::OptBytes(oub(meta_user)));
        assert(params.deep_view() =~= seq![
                MySqlParamView::String(fx_rate.base_code@),
                MySqlParamView::String(fx_rate.quote_code@),
                MySqlParamView::Decimal(fx_rate.rate@),
                MySqlParamView::NaiveDate(fx_rate.as_of_date),
                MySqlParamView::String(fx_rate.source@),
                MySqlParamView::OptBytes(oub_spec(meta_user)),
            ]);
        self.call_procedure_for_one("proc_fx_rate_create", params)
    }

    fn update(
        &self,
        fx_rate_id: Uuid,
        rate: Decimal,
        meta_user: Option<Uuid>,
    ) -> (call: ProcedureCall) {
        broadcast use lemma_bytes_deep_view;

        let mut params: Vec<MySqlParam> = Vec::new();
        params.push(MySqlParam::Bytes(ub(fx_rate_id)));
        params.push(MySqlParam::Decimal(rate));
        params.push(MySqlParam::OptBytes(oub(meta_user)));
        assert(params.deep_view() =~= seq![
                MySqlParamView::Bytes(fx_rate_id@),
                MySqlParamView::Decimal(rate@),
                MySqlParamView::OptBytes(oub_spec(meta_user)),
            ]);
        self.call_procedure_for_optional("proc_fx_rate_update_rate", params)
    }

    fn delete(&self, fx_rate_id: Uuid, meta_user: Option<Uuid>) -> (call: ProcedureCall) {
        broadcast use lemma_bytes_deep_view;

        let mut params: Vec<MySqlParam> = Vec::new();
        params.push(MySqlParam::Bytes(ub(fx_rate_id)));
        params.push(MySqlParam::OptBytes(oub(meta_user)));
        assert(params.deep_view() =~= seq![
                MySqlParamView::Bytes(fx_rate_id@),
                MySqlParamView::OptBytes(oub_spec(meta_user)),
            ]);
        self.call_procedure("proc_fx_rate_delete", params)
    }

    fn get_all(&self, meta_user: Option<Uuid>) -> (call: ProcedureCall) {
        broadcast use lemma_bytes_deep_view;

        let mut params: Vec<MySqlParam> = Vec::new();
        params.push(MySqlParam::OptBytes(oub(meta_user)));
        assert(params.deep_view() =~= seq![
                MySqlParamView::OptBytes(oub_spec(meta_user)),
            ]);
        self.call_procedure_for_list("proc_fx_rate_list", params)
    }

    fn get_by_base_code(
        &self,
        base_code: String,
        meta_user: Option<Uuid>,
    ) -> (call: ProcedureCall) {
        broadcast use lemma_bytes_deep_view;

        let mut params: Vec<MySqlParam> = Vec::new();
        params.push(MySqlParam::String(base_code));
        params.push(MySqlParam::OptBytes(oub(meta_user)));
        assert(params.deep_view() =~= seq![
                MySqlParamView::String(base_code@),
                MySqlParamView::OptBytes(oub_spec(meta_user)),
            ]);
        self.call_procedure_for_list("proc_fx_rate_by_code", params)
    }
}

/// Every store call that reads or changes a currency or an exchange rate ends with the
/// identity of the acting user.
pub proof fn currency_and_fx_rate_calls_are_stamped()
    ensures
        forall|code: Seq<char>, meta_user: Option<Seq<u8>>|
            stamped(#[trigger] currency_get_call(code, meta_user), meta_user),
        forall|currency: CurrencyView, meta_user: Option<Seq<u8>>|
            stamped(#[trigger] currency_create_call(currency, meta_user), meta_user),
        forall|code: Seq<char>, name: Seq<char>, meta_user: Option<Seq<u8>>|
            stamped(#[trigger] currency_update_name_call(code, name, meta_user), meta_user),
        forall|code: Seq<char>, meta_user: Option<Seq<u8>>|
            stamped(#[trigger] currency_delete_call(code, meta_user), meta_user),
        forall|meta_user: Option<Seq<u8>>|
            stamped(#[trigger] currency_get_all_call(meta_user), meta_user),
        forall|fx_rate_id: Seq<u8>, meta_user: Option<Seq<u8>>|
            stamped(#[trigger] fx_rate_get_call(fx_rate_id, meta_user), meta_user),
        forall|fx_rate: FxRateView, meta_user: Option<Seq<u8>>|
            stamped(#[trigger] fx_rate_create_call(fx_rate, meta_user), meta_user),
        forall|fx_rate_id: Seq<u8>, rate: DecimalView, meta_user: Option<Seq<u8>>|
            stamped(#[trigger] fx_rate_update_call(fx_rate_id, rate, meta_user), meta_user),
        forall|fx_rate_id: Seq<u8>, meta_user: Option<Seq<u8>>|
            stamped(#[trigger] fx_rate_delete_call(fx_rate_id, meta_user), meta_user),
        forall|meta_user: Option<Seq<u8>>|
            stamped(#[trigger] fx_rate_get_all_call(meta_user), meta_user),
        forall|base_code: Seq<char>, meta_user: Option<Seq<u8>>|
            stamped(#[trigger] fx_rate_get_by_base_code_call(base_code, meta_user), meta_user),
{
}

} // verus!
