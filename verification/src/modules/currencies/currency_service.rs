//! The operations on currencies and exchange rates.
//!
//! Each operation hands back its first step; the caller runs it to the end.
//! Currencies and exchange rates are global: the acting user only stamps the
//! store calls.

use vstd::prelude::*;
use vstd::string::StringExecFns;
use crate::modules::currencies::currency_command::{
    CurrencyCreateCommand,
    CurrencyDeleteCommand,
    CurrencyGetCommand,
    CurrencyListCommand,
    CurrencyUpdateNameCommand,
    FxRateByBaseCodeCommand,
    FxRateCreateCommand,
    FxRateDeleteCommand,
    FxRateGetCommand,
    FxRateListCommand,
    FxRateUpdateRateCommand,
};
use crate::modules::currencies::currency_dto::{
    CurrencyResponse,
    CurrencyResponseView,
    FxRateResponse,
    FxRateResponseView,
    currency_key,
    currency_list_key,
    fx_rate_key,
    fx_rate_list_key,
    lemma_currency_key_is_no_list_key,
    lemma_fx_rate_key_is_no_list_key,
};
use crate::modules::currencies::currency_model::{Currency, CurrencyView, FxRate, FxRateView};
use crate::modules::currencies::currency_repo::{
    CurrencyRepository,
    CurrencyRepositoryInterface,
    FxRateRepository,
    FxRateRepositoryInterface,
    currency_create_call,
    currency_delete_call,
    currency_get_all_call,
    currency_get_call,
    currency_update_name_call,
    fx_rate_create_call,
    fx_rate_delete_call,
    fx_rate_get_all_call,
    fx_rate_get_by_base_code_call,
    fx_rate_get_call,
    fx_rate_update_call,
};
use crate::shared::cache_aside::{
    Action,
    ActionView,
    CACHE_TTL_SECONDS,
    CachedView,
    Event,
    EventView,
    Outcome,
    OutcomeView,
    Plan,
    PlanView,
    Response,
    ServiceError,
    ServiceErrorView,
    delete_plan,
    read_plan,
    uncached_plan,
    write_plan,
};
use crate::shared::cache_model::{created_is_read_back, read_fuel, run};
use crate::shared::crud_repository::{ProcedureCall, ProcedureCallView};
use crate::shared::db::mysql::{FromSqlRow, GenericRepository, column_index, optional_model};
use crate::shared::db::param::stored_value;
use crate::shared::db::row::{ColumnView, MappingErrorView, SqlValueView, cell, instant_value};
use crate::shared::decimal::DecimalView;
use crate::shared::ids::Uuid;
use crate::shared::service::{Flow, FlowView, Stage, Step, StepView, advance, begin};
use crate::shared::temporal::DateTimeUtc;

verus! {

/// The plan that reads the currency `code`.
pub open spec fn get_currency_plan(cached: bool, code: Seq<char>, user: Seq<u8>) -> PlanView {
    read_plan(
        currency_get_call(code, Some(user)),
        currency_key(code),
        cached,
        "Error during getting currency"@,
    )
}

/// The plan that creates `currency`.
pub open spec fn create_currency_plan(cached: bool, currency: CurrencyView, user: Seq<u8>)
    -> PlanView {
    write_plan(
        currency_create_call(currency, Some(user)),
        cached,
        "Error during creating currency"@,
    )
}

/// The plan that renames the currency `code`.
pub open spec fn update_currency_name_plan(
    cached: bool,
    code: Seq<char>,
    name: Seq<char>,
    user: Seq<u8>,
) -> PlanView {
    write_plan(
        currency_update_name_call(code, name, Some(user)),
        cached,
        "Error during updating currency"@,
    )
}

/// The plan that deletes the currency `code`: its own entry and the list of
/// all currencies leave the cache.
pub open spec fn delete_currency_plan(cached: bool, code: Seq<char>, user: Seq<u8>) -> PlanView {
    delete_plan(
        currency_delete_call(code, Some(user)),
        seq![currency_key(code), currency_list_key()],
        cached,
        "Error during deleting currency"@,
    )
}

/// The plan that lists the currencies.
pub open spec fn list_currencies_plan(cached: bool, user: Seq<u8>) -> PlanView {
    read_plan(
        currency_get_all_call(Some(user)),
        currency_list_key(),
        cached,
        "Error during getting currency"@,
    )
}

/// The plan that reads the exchange rate `id`.
pub open spec fn get_fx_rate_plan(cached: bool, id: Seq<u8>, user: Seq<u8>) -> PlanView {
    read_plan(
        fx_rate_get_call(id, Some(user)),
        fx_rate_key(id),
        cached,
        "Error during getting fx_rate"@,
    )
}

/// The plan that stores `fx_rate`, once its currencies are known to exist.
pub open spec fn create_fx_rate_plan(cached: bool, fx_rate: FxRateView, user: Seq<u8>) -> PlanView {
    write_plan(fx_rate_create_call(fx_rate, Some(user)), cached, "Error during creating fx_rate"@)
}

/// The plan that changes the rate of the exchange rate `id`.
pub open spec fn update_fx_rate_plan(cached: bool, id: Seq<u8>, rate: DecimalView, user: Seq<u8>)
    -> PlanView {
    write_plan(
        fx_rate_update_call(id, rate, Some(user)),
        cached,
        "Error during updating fx_rate"@,
    )
}

/// The plan that deletes the exchange rate `id`: its own entry and the list
/// of all exchange rates leave the cache.
pub open spec fn delete_fx_rate_plan(cached: bool, id: Seq<u8>, user: Seq<u8>) -> PlanView {
    delete_plan(
        fx_rate_delete_call(id, Some(user)),
        seq![fx_rate_key(id), fx_rate_list_key()],
        cached,
        "Error during deleting fx_rate"@,
    )
}

/// The plan that lists the exchange rates.
pub open spec fn list_fx_rates_plan(cached: bool, user: Seq<u8>) -> PlanView {
    read_plan(
        fx_rate_get_all_call(Some(user)),
        fx_rate_list_key(),
        cached,
        "Error getting fx rates"@,
    )
}

/// The plan that lists the exchange rates of the base currency `base_code`,
/// once that currency is known to exist. The listing is never cached.
pub open spec fn list_fx_rates_by_base_code_plan(base_code: Seq<char>, user: Seq<u8>) -> PlanView {
    uncached_plan(fx_rate_get_by_base_code_call(base_code, Some(user)), "Error getting fx rates"@)
}

/// A currency that must exist before an exchange-rate operation goes on:
/// the lookup, and the text that reports its failure.
#[derive(Debug, PartialEq, Eq)]
pub struct CurrencyCheck {
    pub call: ProcedureCall,
    pub failure: String,
}

/// What a [`CurrencyCheck`] stands for.
pub struct CurrencyCheckView {
    pub call: ProcedureCallView,
    pub failure: Seq<char>,
}

impl DeepView for CurrencyCheck {
    type V = CurrencyCheckView;

    open spec fn deep_view(&self) -> CurrencyCheckView {
        CurrencyCheckView { call: self.call@, failure: self.failure@ }
    }
}

/// The lookup that makes sure that the currency `code` exists.
pub open spec fn currency_check(code: Seq<char>, user: Seq<u8>, failure: Seq<char>)
    -> CurrencyCheckView {
    CurrencyCheckView { call: currency_get_call(code, Some(user)), failure }
}

/// An exchange-rate operation that first looks up the currencies it refers
/// to. The lookups go straight to the store.
#[derive(Debug, PartialEq, Eq)]
pub enum CheckedFlow {
    /// A currency lookup is under way; `failure` reports its failure,
    /// `pending` are the lookups still to make, `plan` is what follows them.
    Checking { failure: String, pending: Vec<CurrencyCheck>, plan: Plan },
    /// Every currency exists; the operation itself is under way.
    Running(Flow<FxRateResponse>),
}

/// What a [`CheckedFlow`] stands for.
pub enum CheckedFlowView {
    Checking { failure: Seq<char>, pending: Seq<CurrencyCheckView>, plan: PlanView },
    Running(FlowView<FxRateResponseView>),
}

impl DeepView for CheckedFlow {
    type V = CheckedFlowView;

    open spec fn deep_view(&self) -> CheckedFlowView {
        match *self {
            CheckedFlow::Checking { failure, pending, plan } => CheckedFlowView::Checking {
                failure: failure@,
                pending: pending.deep_view(),
                plan: plan@,
            },
            CheckedFlow::Running(flow) => CheckedFlowView::Running(flow.deep_view()),
        }
    }
}

/// One step of a [`CheckedFlow`].
#[derive(Debug, PartialEq, Eq)]
pub struct CheckedStep {
    pub flow: CheckedFlow,
    pub action: Action<FxRateResponse>,
}

/// What a [`CheckedStep`] stands for.
pub struct CheckedStepView {
    pub flow: CheckedFlowView,
    pub action: ActionView<FxRateResponseView>,
}

impl DeepView for CheckedStep {
    type V = CheckedStepView;

    open spec fn deep_view(&self) -> CheckedStepView {
        CheckedStepView { flow: self.flow.deep_view(), action: self.action.deep_view() }
    }
}

/// A step of the operation itself, as a step of the checked operation.
pub open spec fn running(step: StepView<FxRateResponseView>) -> CheckedStepView {
    CheckedStepView { flow: CheckedFlowView::Running(step.flow), action: step.action }
}

/// The step that ends a checked operation with `outcome` before the
/// operation itself has begun: nothing was written.
pub open spec fn stop(plan: PlanView, outcome: OutcomeView<FxRateResponseView>)
    -> CheckedStepView {
    running(crate::shared::service::finish(plan, outcome))
}

/// The step that makes the first of the `pending` lookups, or begins the
/// operation itself when none is left.
pub open spec fn check_next(pending: Seq<CurrencyCheckView>, plan: PlanView) -> CheckedStepView {
    if pending.len() == 0 {
        running(begin(plan))
    } else {
        CheckedStepView {
            flow: CheckedFlowView::Checking {
                failure: pending[0].failure,
                pending: pending.skip(1),
                plan,
            },
            action: ActionView::Call(pending[0].call),
        }
    }
}

/// The step a checked operation takes when `event` arrives.
///
/// A lookup that finds no currency ends the operation as not found; one that
/// fails ends it with the lookup's own failure text. Either way the
/// operation itself never starts.
pub open spec fn advance_checked(flow: CheckedFlowView, event: EventView<FxRateResponseView>)
    -> CheckedStepView {
    match flow {
        CheckedFlowView::Checking { failure, pending, plan } => match event {
            EventView::Row(answer) => match optional_model::<Currency>(answer) {
                Err(_) => stop(plan, OutcomeView::Failed(ServiceErrorView::Repository(failure))),
                Ok(None) => stop(plan, OutcomeView::NotFound),
                Ok(Some(_)) => check_next(pending, plan),
            },
            _ => stop(plan, OutcomeView::Failed(ServiceErrorView::Protocol)),
        },
        CheckedFlowView::Running(flow) => running(advance::<FxRateResponse>(flow, event)),
    }
}

/// What creating an exchange rate asks of the store before anything is
/// written: the base currency, then the quote currency.
pub open spec fn create_fx_rate_checks(base_code: Seq<char>, quote_code: Seq<char>, user: Seq<u8>)
    -> Seq<CurrencyCheckView> {
    seq![
        currency_check(base_code, user, "Error during getting currency base code"@),
        currency_check(quote_code, user, "Error during getting currency quote code"@),
    ]
}

/// An exchange rate is created only between currencies that exist.
///
/// The operation first looks up the base currency. Where that is missing it
/// ends as not found. Where it exists, the quote currency is looked up, and
/// where that is missing the operation ends as not found. In both cases the
/// only store calls were the lookups: the create call was never asked for,
/// so no exchange rate was stored.
pub proof fn fx_rate_without_currency_is_not_found(
    cached: bool,
    fx_rate: FxRateView,
    user: Seq<u8>,
    base_answer: Result<Option<Seq<crate::shared::db::row::ColumnView>>, Seq<char>>,
)
    ensures
        ({
            let plan = create_fx_rate_plan(cached, fx_rate, user);
            let first = check_next(
                create_fx_rate_checks(fx_rate.base_code, fx_rate.quote_code, user),
                plan,
            );
            let base_missing = advance_checked(first.flow, EventView::Row(Ok(None)));
            let second = advance_checked(first.flow, EventView::Row(base_answer));
            let quote_missing = advance_checked(second.flow, EventView::Row(Ok(None)));
            &&& first.action == ActionView::<FxRateResponseView>::Call(
                currency_get_call(fx_rate.base_code, Some(user)),
            )
            &&& base_missing.action == ActionView::<FxRateResponseView>::Finish(
                OutcomeView::NotFound,
            )
            &&& optional_model::<Currency>(base_answer) matches Ok(Some(_)) ==> {
                &&& second.action == ActionView::<FxRateResponseView>::Call(
                    currency_get_call(fx_rate.quote_code, Some(user)),
                )
                &&& quote_missing.action == ActionView::<FxRateResponseView>::Finish(
                    OutcomeView::NotFound,
                )
            }
        }),
{
    let checks = create_fx_rate_checks(fx_rate.base_code, fx_rate.quote_code, user);
    assert(checks.skip(1).len() == 1);
    assert(checks.skip(1)[0] == checks[1]);
}

impl CheckedFlow {
    /// A step of the operation itself, as a step of the checked operation.
    fn running(step: Step<FxRateResponse>) -> (r: CheckedStep)
        ensures
            r.deep_view() == running(step.deep_view()),
    {
        CheckedStep { flow: CheckedFlow::Running(step.flow), action: step.action }
    }

    /// Ends the operation before it has begun.
    fn stop(plan: Plan, outcome: Outcome<FxRateResponse>) -> (r: CheckedStep)
        ensures
            r.deep_view() == stop(plan@, outcome.deep_view()),
    {
        CheckedStep {
            flow: CheckedFlow::Running(Flow { plan, stage: Stage::Finished }),
            action: Action::Finish(outcome),
        }
    }

    /// Starts the operation that `plan` describes, after the `checks`.
    pub fn start(checks: Vec<CurrencyCheck>, plan: Plan) -> (step: CheckedStep)
        ensures
            step.deep_view() == check_next(checks.deep_view(), plan@),
    {
        let mut pending = checks;
        if pending.len() == 0 {
            Self::running(Flow::start(plan))
        } else {
            let ghost before = pending.deep_view();
            let first = pending.remove(0);
            assert(pending.deep_view() =~= before.skip(1));
            assert(before[0] == first.deep_view());
            CheckedStep {
                flow: CheckedFlow::Checking { failure: first.failure, pending, plan },
                action: Action::Call(first.call),
            }
        }
    }

    /// Takes the step that `event` calls for.
    pub fn resume(self, event: Event<FxRateResponse>) -> (step: CheckedStep)
        ensures
            step.deep_view() == advance_checked(self.deep_view(), event.deep_view()),
    {
        match self {
            CheckedFlow::Checking { failure, pending, plan } => match event {
                Event::Row(answer) => {
                    let repository = CurrencyRepository {  };
                    match repository.parse_entity_from_option_result_sql(answer) {
                        Err(_) => Self::stop(
                            plan,
                            Outcome::Failed(ServiceError::Repository(failure)),
                        ),
                        Ok(None) => Self::stop(plan, Outcome::NotFound),
                        Ok(Some(_)) => Self::start(pending, plan),
                    }
                },
                _ => Self::stop(plan, Outcome::Failed(ServiceError::Protocol)),
            },
            CheckedFlow::Running(flow) => Self::running(flow.resume(event)),
        }
    }
}

/// The operations on currencies and exchange rates.
pub trait CurrencyServiceInterface {
    /// Whether a cache is configured.
    spec fn caches(&self) -> bool;

    /// Reads one currency, through the cache.
    fn get_currency(&self, command: CurrencyGetCommand) -> (step: Step<CurrencyResponse>)
        ensures
            step.deep_view() == begin::<CurrencyResponseView>(
                get_currency_plan(
                    self.caches(),
                    command.currency_code@,
                    command.auth_user.user_id@,
                ),
            ),
    ;

    /// Creates a currency and caches what the store answered.
    fn create_currency(&self, command: CurrencyCreateCommand) -> (step: Step<CurrencyResponse>)
        ensures
            step.deep_view() == begin::<CurrencyResponseView>(
                create_currency_plan(
                    self.caches(),
                    CurrencyView {
                        code: command.currency_code@,
                        name: command.currency_name@,
                        minor_unit: command.currency_minor_unit,
                    },
                    command.auth_user.user_id@,
                ),
            ),
    ;

    /// Renames a currency; not found where there is no such currency.
    fn update_currency_name(&self, command: CurrencyUpdateNameCommand) -> (step: Step<
        CurrencyResponse,
    >)
        ensures
            step.deep_view() == begin::<CurrencyResponseView>(
                update_currency_name_plan(
                    self.caches(),
                    command.currency_code@,
                    command.currency_name@,
                    command.auth_user.user_id@,
                ),
            ),
    ;

    /// Deletes a currency and drops it from the cache.
    fn delete_currency(&self, command: CurrencyDeleteCommand) -> (step: Step<CurrencyResponse>)
        ensures
            step.deep_view() == begin::<CurrencyResponseView>(
                delete_currency_plan(
                    self.caches(),
                    command.currency_code@,
                    command.auth_user.user_id@,
                ),
            ),
    ;

    /// Lists the currencies, through the cache.
    fn list_currencies(&self, command: CurrencyListCommand) -> (step: Step<CurrencyResponse>)
        ensures
            step.deep_view() == begin::<CurrencyResponseView>(
                list_currencies_plan(self.caches(), command.auth_user.user_id@),
            ),
    ;

    /// Reads one exchange rate, through the cache.
    fn get_fx_rate(&self, command: FxRateGetCommand) -> (step: Step<FxRateResponse>)
        ensures
            step.deep_view() == begin::<FxRateResponseView>(
                get_fx_rate_plan(self.caches(), command.fx_rate_id@, command.auth_user.user_id@),
            ),
    ;

    /// Creates an exchange rate, once its base currency and then its quote
    /// currency are known to exist; not found where either is missing.
    fn create_fx_rate(&self, command: FxRateCreateCommand) -> (step: CheckedStep)
        ensures
            step.deep_view() == check_next(
                create_fx_rate_checks(
                    command.fx_rate_base_code@,
                    command.fx_rate_quote_code@,
                    command.auth_user.user_id@,
                ),
                create_fx_rate_plan(
                    self.caches(),
                    FxRateView {
                        id: None,
                        base_code: command.fx_rate_base_code@,
                        quote_code: command.fx_rate_quote_code@,
                        rate: command.fx_rate_rate@,
                        as_of_date: command.fx_rate_as_of_date,
                        source: command.fx_rate_source@,
                        created_at: None,
                    },
                    command.auth_user.user_id@,
                ),
            ),
    ;

    /// Changes the rate of an exchange rate; not found where there is no
    /// such exchange rate.
    fn update_fx_rate(&self, command: FxRateUpdateRateCommand) -> (step: Step<FxRateResponse>)
        ensures
            step.deep_view() == begin::<FxRateResponseView>(
                update_fx_rate_plan(
                    self.caches(),
                    command.fx_rate_id@,
                    command.fx_rate_rate@,
                    command.auth_user.user_id@,
                ),
            ),
    ;

    /// Deletes an exchange rate and drops it from the cache.
    fn delete_fx_rate(&self, command: FxRateDeleteCommand) -> (step: Step<FxRateResponse>)
        ensures
            step.deep_view() == begin::<FxRateResponseView>(
                delete_fx_rate_plan(
                    self.caches(),
                    command.fx_rate_id@,
                    command.auth_user.user_id@,
                ),
            ),
    ;

    /// Lists the exchange rates, through the cache.
    fn list_fx_rates(&self, command: FxRateListCommand) -> (step: Step<FxRateResponse>)
        ensures
            step.deep_view() == begin::<FxRateResponseView>(
                list_fx_rates_plan(self.caches(), command.auth_user.user_id@),
            ),
    ;

    /// Lists the exchange rates of one base currency, once that currency is
    /// known to exist; not found where it is missing.
    fn list_fx_rates_by_base_code(&self, command: FxRateByBaseCodeCommand) -> (step: CheckedStep)
        ensures
            step.deep_view() == check_next(
                seq![
                    currency_check(
                        command.fx_rate_base_code@,
                        command.auth_user.user_id@,
                        "Error during getting currency base code"@,
                    ),
                ],
                list_fx_rates_by_base_code_plan(
                    command.fx_rate_base_code@,
                    command.auth_user.user_id@,
                ),
            ),
    ;
}

/// The currency service: its repositories, and whether a cache is
/// configured.
#[derive(Debug, Clone, Copy, PartialEq, Eq)]
pub struct CurrencyService {
    pub currency_repo: CurrencyRepository,
    pub fx_rate_repo: FxRateRepository,
    pub cache: bool,
}

impl CurrencyService {
    /// The service, with or without a cache.
    pub fn new(cache: bool) -> (service: Self)
        ensures
            service.cache == cache,
    {
        CurrencyService {
            currency_repo: CurrencyRepository {  },
            fx_rate_repo: FxRateRepository {  },
            cache,
        }
    }

    /// The lifetime of a cached currency, in seconds.
    pub fn redis_key_currency_ttl(&self) -> (ttl: Option<u64>)
        ensures
            ttl == Some(CACHE_TTL_SECONDS),
    {
        Some(CACHE_TTL_SECONDS)
    }

    /// The cache key of the currency `code`.
    pub fn form_redis_key_single_currency(&self, code: &String) -> (key: String)
        ensures
            key@ == currency_key(code@),
    {
        let mut key = String::from_str("currency:");
        key.append(code.as_str());
        key
    }

    /// The cache key of the list of all currencies.
    pub fn form_redis_key_list_currencies(&self) -> (key: String)
        ensures
            key@ == currency_list_key(),
    {
        String::from_str("currency:list")
    }

    /// The lifetime of a cached exchange rate, in seconds.
    pub fn redis_key_fx_rate_ttl(&self) -> (ttl: Option<u64>)
        ensures
            ttl == Some(CACHE_TTL_SECONDS),
    {
        Some(CACHE_TTL_SECONDS)
    }

    /// The cache key of the exchange rate `key`.
    pub fn form_redis_key_single_fx_rate(&self, key: &Uuid) -> (text: String)
        ensures
            text@ == fx_rate_key(key@),
    {
        let mut text = String::from_str("fx_rate:");
        text.append(key.to_string().as_str());
        text
    }

    /// The cache key of the list of all exchange rates.
    pub fn form_redis_key_list_fx_rates(&self) -> (key: String)
        ensures
            key@ == fx_rate_list_key(),
    {
        String::from_str("fx_rate:list")
    }

    /// The lookup that makes sure that the currency `code` exists.
    fn check(&self, code: String, user: Uuid, failure: &str) -> (check: CurrencyCheck)
        ensures
            check.deep_view() == currency_check(code@, user@, failure@),
    {
        CurrencyCheck {
            call: self.currency_repo.get(code, Some(user)),
            failure: failure.to_string(),
        }
    }
}

impl CurrencyServiceInterface for CurrencyService {
    open spec fn caches(&self) -> bool {
        self.cache
    }

    fn get_currency(&self, command: CurrencyGetCommand) -> (step: Step<CurrencyResponse>) {
        let key = self.form_redis_key_single_currency(&command.currency_code);
        let call = self.currency_repo.get(command.currency_code, Some(command.auth_user.user_id));
        Flow::start(Plan::read(call, key, self.cache, "Error during getting currency"))
    }

    fn create_currency(&self, command: CurrencyCreateCommand) -> (step: Step<CurrencyResponse>) {
        let meta_user = command.auth_user.user_id;
        let currency_create = Currency::from(command);
        let call = self.currency_repo.create(currency_create, Some(meta_user));
        Flow::start(Plan::write(call, self.cache, "Error during creating currency"))
    }

    fn update_currency_name(&self, command: CurrencyUpdateNameCommand) -> (step: Step<
        CurrencyResponse,
    >) {
        let call = self.currency_repo.update_name(
            command.currency_code,
            command.currency_name,
            Some(command.auth_user.user_id),
        );
        Flow::start(Plan::write(call, self.cache, "Error during updating currency"))
    }

    fn delete_currency(&self, command: CurrencyDeleteCommand) -> (step: Step<CurrencyResponse>) {
        let mut keys: Vec<String> = Vec::new();
        keys.push(self.form_redis_key_single_currency(&command.currency_code));
        keys.push(self.form_redis_key_list_currencies());
        assert(keys.deep_view() =~= seq![
            currency_key(command.currency_code@),
            currency_list_key(),
        ]);
        let call = self.currency_repo.delete(
            command.currency_code,
            Some(command.auth_user.user_id),
        );
        Flow::start(Plan::delete(call, keys, self.cache, "Error during deleting currency"))
    }

    fn list_currencies(&self, command: CurrencyListCommand) -> (step: Step<CurrencyResponse>) {
        let key = self.form_redis_key_list_currencies();
        let call = self.currency_repo.get_all(Some(command.auth_user.user_id));
        Flow::start(Plan::read(call, key, self.cache, "Error during getting currency"))
    }

    fn get_fx_rate(&self, command: FxRateGetCommand) -> (step: Step<FxRateResponse>) {
        let key = self.form_redis_key_single_fx_rate(&command.fx_rate_id);
        let call = self.fx_rate_repo.get(command.fx_rate_id, Some(command.auth_user.user_id));
        Flow::start(Plan::read(call, key, self.cache, "Error during getting fx_rate"))
    }

    fn create_fx_rate(&self, command: FxRateCreateCommand) -> (step: CheckedStep) {
        let meta_user = command.auth_user.user_id;
        let mut checks: Vec<CurrencyCheck> = Vec::new();
        checks.push(
            self.check(
                command.fx_rate_base_code.clone(),
                meta_user,
                "Error during getting currency base code",
            ),
        );
        checks.push(
            self.check(
                command.fx_rate_quote_code.clone(),
                meta_user,
                "Error during getting currency quote code",
            ),
        );
        assert(checks.deep_view() =~= seq![
            currency_check(
                command.fx_rate_base_code@,
                meta_user@,
                "Error during getting currency base code"@,
            ),
            currency_check(
                command.fx_rate_quote_code@,
                meta_user@,
                "Error during getting currency quote code"@,
            ),
        ]);
        let fx_rate_create = FxRate::from(command);
        let call = self.fx_rate_repo.create(fx_rate_create, Some(meta_user));
        CheckedFlow::start(checks, Plan::write(call, self.cache, "Error during creating fx_rate"))
    }

    fn update_fx_rate(&self, command: FxRateUpdateRateCommand) -> (step: Step<FxRateResponse>) {
        let call = self.fx_rate_repo.update(
            command.fx_rate_id,
            command.fx_rate_rate,
            Some(command.auth_user.user_id),
        );
        Flow::start(Plan::write(call, self.cache, "Error during updating fx_rate"))
    }

    fn delete_fx_rate(&self, command: FxRateDeleteCommand) -> (step: Step<FxRateResponse>) {
        let mut keys: Vec<String> = Vec::new();
        keys.push(self.form_redis_key_single_fx_rate(&command.fx_rate_id));
        keys.push(self.form_redis_key_list_fx_rates());
        assert(keys.deep_view() =~= seq![fx_rate_key(command.fx_rate_id@), fx_rate_list_key()]);
        let call = self.fx_rate_repo.delete(command.fx_rate_id, Some(command.auth_user.user_id));
        Flow::start(Plan::delete(call, keys, self.cache, "Error during deleting fx_rate"))
    }

    fn list_fx_rates(&self, command: FxRateListCommand) -> (step: Step<FxRateResponse>) {
        let key = self.form_redis_key_list_fx_rates();
        let call = self.fx_rate_repo.get_all(Some(command.auth_user.user_id));
        Flow::start(Plan::read(call, key, self.cache, "Error getting fx rates"))
    }

    fn list_fx_rates_by_base_code(&self, command: FxRateByBaseCodeCommand) -> (step: CheckedStep) {
        let meta_user = command.auth_user.user_id;
        let mut checks: Vec<CurrencyCheck> = Vec::new();
        checks.push(
            self.check(
                command.fx_rate_base_code.clone(),
                meta_user,
                "Error during getting currency base code",
            ),
        );
        assert(checks.deep_view() =~= seq![
            currency_check(
                command.fx_rate_base_code@,
                meta_user@,
                "Error during getting currency base code"@,
            ),
        ]);
        let call = self.fx_rate_repo.get_by_base_code(command.fx_rate_base_code, Some(meta_user));
        CheckedFlow::start(checks, Plan::uncached(call, "Error getting fx rates"))
    }
}

/// Whether `row`, read through `index`, holds the currency as a store that
/// keeps what it is given holds it: every column that the create call bound
/// holds what was bound.
pub open spec fn keeps_currency(
    currency: CurrencyView,
    meta_user: Option<Seq<u8>>,
    row: Seq<ColumnView>,
    index: Map<Seq<char>, usize>,
) -> bool {
    &&& cell(row, index, "code"@) == Some(
        stored_value(currency_create_call(currency, meta_user).params[0]),
    )
    &&& cell(row, index, "name"@) == Some(
        stored_value(currency_create_call(currency, meta_user).params[1]),
    )
    &&& cell(row, index, "minor_unit"@) == Some(
        stored_value(currency_create_call(currency, meta_user).params[2]),
    )
}

/// What a store keeps of a created currency comes back to the caller.
///
/// Where the row that is read holds, column by column, what the create call
/// bound, reading it gives the currency that was asked for, and the response
/// shows every field the caller set.
pub proof fn currency_round_trip(
    currency: CurrencyView,
    meta_user: Option<Seq<u8>>,
    row: Seq<ColumnView>,
    index: Map<Seq<char>, usize>,
)
    requires
        keeps_currency(currency, meta_user, row, index),
    ensures
        <Currency as FromSqlRow>::row_model(row, index) == Ok::<CurrencyView, MappingErrorView>(
            currency,
        ),
        <CurrencyResponse as Response>::of_entity(currency) == Ok::<
            CurrencyResponseView,
            MappingErrorView,
        >(CurrencyResponse::of(currency)),
{
}

/// Create, then get, for a currency.
///
/// The store keeps what it is given: it answers the create with a row that
/// holds what the call bound, and, nothing else having written since, it
/// answers the read of that currency with the same row. Then the create shows
/// the currency with every field as it was asked for, and the read that
/// follows shows that same currency, with or without a cache.
///
/// With a cache this leaves out the code `list`, whose key is the key of
/// the list of all currencies.
pub proof fn created_currency_is_read_back(
    cached: bool,
    currency: CurrencyView,
    actor: Seq<u8>,
    reader: Seq<u8>,
    row: Seq<ColumnView>,
    cache: Map<Seq<char>, CachedView<CurrencyResponseView>>,
    store: spec_fn(ProcedureCallView) -> EventView<CurrencyResponseView>,
)
    requires
        cached ==> currency.code != "list"@,
        keeps_currency(currency, Some(actor), row, column_index(row)),
        store(currency_create_call(currency, Some(actor))) == EventView::<CurrencyResponseView>::One(
            Ok(row),
        ),
        store(currency_get_call(currency.code, Some(reader))) == EventView::<CurrencyResponseView>::Row(
            Ok(Some(row)),
        ),
    ensures
        ({
            let shown = CurrencyResponse::of(currency);
            let created = run::<CurrencyResponse>(
                begin(create_currency_plan(cached, currency, actor)),
                cache,
                store,
                Seq::empty(),
                3,
            );
            let got = run::<CurrencyResponse>(
                begin(get_currency_plan(cached, currency.code, reader)),
                created->Some_0.cache,
                store,
                Seq::empty(),
                read_fuel(),
            );
            &&& created is Some
            &&& created->Some_0.outcome == OutcomeView::Found(shown)
            &&& got is Some
            &&& got->Some_0.outcome == OutcomeView::Found(shown)
            &&& shown.currency_code == currency.code
            &&& shown.currency_name == currency.name
            &&& shown.currency_minor_unit == currency.minor_unit
        }),
{
    currency_round_trip(currency, Some(actor), row, column_index(row));
    if cached {
        lemma_currency_key_is_no_list_key(currency.code);
    }
    created_is_read_back::<CurrencyResponse>(
        create_currency_plan(cached, currency, actor),
        get_currency_plan(cached, currency.code, reader),
        row,
        CurrencyResponse::of(currency),
        cache,
        store,
        3,
    );
}

/// Whether `row`, read through `index`, holds the exchange rate as a store
/// that keeps what it is given holds it: every column that the create call
/// bound holds what was bound, and the rest holds what the store assigned.
pub open spec fn keeps_fx_rate(
    fx_rate: FxRateView,
    meta_user: Option<Seq<u8>>,
    row: Seq<ColumnView>,
    index: Map<Seq<char>, usize>,
    id: Seq<u8>,
    created_at: Option<DateTimeUtc>,
) -> bool {
    &&& cell(row, index, "base_code"@) == Some(
        stored_value(fx_rate_create_call(fx_rate, meta_user).params[0]),
    )
    &&& cell(row, index, "quote_code"@) == Some(
        stored_value(fx_rate_create_call(fx_rate, meta_user).params[1]),
    )
    &&& cell(row, index, "rate"@) == Some(
        stored_value(fx_rate_create_call(fx_rate, meta_user).params[2]),
    )
    &&& cell(row, index, "as_of_date"@) == Some(
        stored_value(fx_rate_create_call(fx_rate, meta_user).params[3]),
    )
    &&& cell(row, index, "source"@) == Some(
        stored_value(fx_rate_create_call(fx_rate, meta_user).params[4]),
    )
    &&& cell(row, index, "id"@) == Some(SqlValueView::Bytes(id))
    &&& cell(row, index, "created_at"@) == Some(instant_value(created_at))
}

/// What a store keeps of a created exchange rate comes back to the caller.
///
/// Where the row that is read holds, column by column, what the create call
/// bound, together with the identity and the creation time that the store
/// assigned, reading it gives the exchange rate that was asked for, and the
/// response shows every field the caller set.
pub proof fn fx_rate_round_trip(
    fx_rate: FxRateView,
    meta_user: Option<Seq<u8>>,
    row: Seq<ColumnView>,
    index: Map<Seq<char>, usize>,
    id: Seq<u8>,
    created_at: Option<DateTimeUtc>,
)
    requires
        id.len() == 16,
        keeps_fx_rate(fx_rate, meta_user, row, index, id, created_at),
    ensures
        <FxRate as FromSqlRow>::row_model(row, index) == Ok::<FxRateView, MappingErrorView>(
            FxRateView { id: Some(id), created_at, ..fx_rate },
        ),
        <FxRateResponse as Response>::of_entity(
            FxRateView { id: Some(id), created_at, ..fx_rate },
        ) == Ok::<
            FxRateResponseView,
            MappingErrorView,
        >(FxRateResponse::of(fx_rate, id)),
{
}

/// Create, then get, for an exchange rate.
///
/// Both currencies exist: the store answers each lookup with a row that
/// reads as a currency. And the store keeps what it is given: it answers
/// the create with a row that holds what the call bound, under the identity
/// and the creation time it assigned, and, nothing else having written
/// since, it answers the read of that exchange rate with the same row. Then
/// the two lookups lead to the create, the create shows the exchange rate
/// with every field as it was asked for, and the read that follows shows
/// that same exchange rate, with or without a cache.
pub proof fn created_fx_rate_is_read_back(
    cached: bool,
    fx_rate: FxRateView,
    actor: Seq<u8>,
    reader: Seq<u8>,
    row: Seq<ColumnView>,
    id: Seq<u8>,
    created_at: Option<DateTimeUtc>,
    cache: Map<Seq<char>, CachedView<FxRateResponseView>>,
    store: spec_fn(ProcedureCallView) -> EventView<FxRateResponseView>,
)
    requires
        id.len() == 16,
        store(currency_get_call(fx_rate.base_code, Some(actor))) matches EventView::Row(answer)
            && optional_model::<Currency>(answer) matches Ok(Some(_)),
        store(currency_get_call(fx_rate.quote_code, Some(actor))) matches EventView::Row(answer)
            && optional_model::<Currency>(answer) matches Ok(Some(_)),
        keeps_fx_rate(fx_rate, Some(actor), row, column_index(row), id, created_at),
        store(fx_rate_create_call(fx_rate, Some(actor))) == EventView::<FxRateResponseView>::One(
            Ok(row),
        ),
        store(fx_rate_get_call(id, Some(reader))) == EventView::<FxRateResponseView>::Row(
            Ok(Some(row)),
        ),
    ensures
        ({
            let plan = create_fx_rate_plan(cached, fx_rate, actor);
            let first = check_next(
                create_fx_rate_checks(fx_rate.base_code, fx_rate.quote_code, actor),
                plan,
            );
            let second = advance_checked(
                first.flow,
                store(currency_get_call(fx_rate.base_code, Some(actor))),
            );
            let third = advance_checked(
                second.flow,
                store(currency_get_call(fx_rate.quote_code, Some(actor))),
            );
            let shown = FxRateResponse::of(fx_rate, id);
            let created = run::<FxRateResponse>(begin(plan), cache, store, Seq::empty(), 3);
            let got = run::<FxRateResponse>(
                begin(get_fx_rate_plan(cached, id, reader)),
                created->Some_0.cache,
                store,
                Seq::empty(),
                read_fuel(),
            );
            &&& first.action == ActionView::<FxRateResponseView>::Call(
                currency_get_call(fx_rate.base_code, Some(actor)),
            )
            &&& second.action == ActionView::<FxRateResponseView>::Call(
                currency_get_call(fx_rate.quote_code, Some(actor)),
            )
            &&& third == running(begin(plan))
            &&& created is Some
            &&& created->Some_0.outcome == OutcomeView::Found(shown)
            &&& got is Some
            &&& got->Some_0.outcome == OutcomeView::Found(shown)
            &&& shown.fx_rate_id == id
            &&& shown.fx_rate_base_code == fx_rate.base_code
            &&& shown.fx_rate_quote_code == fx_rate.quote_code
            &&& shown.fx_rate_rate == fx_rate.rate
            &&& shown.fx_rate_as_of_date == fx_rate.as_of_date
            &&& shown.fx_rate_source == fx_rate.source
        }),
{
    let checks = create_fx_rate_checks(fx_rate.base_code, fx_rate.quote_code, actor);
    assert(checks.skip(1).len() == 1);
    assert(checks.skip(1)[0] == checks[1]);
    assert(checks.skip(1).skip(1).len() == 0);
    fx_rate_round_trip(fx_rate, Some(actor), row, column_index(row), id, created_at);
    lemma_fx_rate_key_is_no_list_key(id);
    created_is_read_back::<FxRateResponse>(
        create_fx_rate_plan(cached, fx_rate, actor),
        get_fx_rate_plan(cached, id, reader),
        row,
        FxRateResponse::of(fx_rate, id),
        cache,
        store,
        3,
    );
}

} // verus!
