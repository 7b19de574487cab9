use std::collections::HashMap;

use finlife::modules::currencies::currency_command::{
    CurrencyCreateCommand, CurrencyDeleteCommand, CurrencyGetCommand, CurrencyListCommand,
    CurrencyUpdateNameCommand, FxRateByBaseCodeCommand, FxRateCreateCommand, FxRateDeleteCommand,
    FxRateGetCommand, FxRateListCommand, FxRateUpdateRateCommand,
};
use finlife::modules::currencies::currency_dto::{
    CurrencyCreateRequest, CurrencyResponse, CurrencyUpdateNameRequest, FxRateCreateRequest,
    FxRateResponse, FxRateUpdateRateRequest,
};
use finlife::modules::currencies::currency_service::{
    CheckedStep, CurrencyService, CurrencyServiceInterface,
};
use finlife::modules::users::user::user_model::UserRole;
use finlife::shared::auth::jwt::AuthUser;
use finlife::shared::cache_aside::{
    Action, Cached, Event, Outcome, Plan, Policy, Response, ServiceError, CACHE_TTL_SECONDS,
};
use finlife::shared::crud_repository::{CallShape, ProcedureCall};
use finlife::shared::db::param::MySqlParam;
use finlife::shared::db::row::{Column, Row, SqlValue};
use finlife::shared::decimal::Decimal;
use finlife::shared::ids::Uuid;
use finlife::shared::response::PaginationRequest;
use finlife::shared::service::{Flow, Stage, Step};
use finlife::shared::temporal::NaiveDate;

/// What a run did: every action in order, as a short text.
#[derive(Default)]
struct Trace {
    actions: Vec<String>,
    ttls: Vec<Option<u64>>,
}

impl Trace {
    fn store_calls(&self) -> Vec<&str> {
        self.actions.iter().filter(|a| a.starts_with("CALL ")).map(|a| a.as_str()).collect()
    }
}

type Cache<R> = HashMap<String, Cached<R>>;

fn cache_event<R: Clone>(cache: &mut Cache<R>, action: &Action<R>, trace: &mut Trace) -> Event<R> {
    match action {
        Action::CacheGet { key, many } => {
            trace.actions.push(format!("GET {key} many={many}"));
            Event::Cached(Ok(cache.get(key).cloned()))
        }
        Action::CacheSet { key, value, ttl } => {
            trace.actions.push(format!("SET {key}"));
            trace.ttls.push(*ttl);
            cache.insert(key.clone(), value.clone());
            Event::Stored(Ok(()))
        }
        Action::CacheDelete { key } => {
            trace.actions.push(format!("DEL {key}"));
            cache.remove(key);
            Event::Dropped(Ok(()))
        }
        _ => unreachable!(),
    }
}

fn run<R: Response + Clone>(
    mut step: Step<R>,
    cache: &mut Cache<R>,
    store: &mut dyn FnMut(&ProcedureCall) -> Event<R>,
    trace: &mut Trace,
) -> Outcome<R> {
    loop {
        let event = match &step.action {
            Action::Finish(_) => break,
            Action::Call(call) => {
                trace.actions.push(call.query.clone());
                store(call)
            }
            other => cache_event(cache, other, trace),
        };
        step = step.flow.resume(event);
    }
    match step.action {
        Action::Finish(outcome) => outcome,
        _ => unreachable!(),
    }
}

fn run_checked(
    mut step: CheckedStep,
    cache: &mut Cache<FxRateResponse>,
    store: &mut dyn FnMut(&ProcedureCall) -> Event<FxRateResponse>,
    trace: &mut Trace,
) -> Outcome<FxRateResponse> {
    loop {
        let event = match &step.action {
            Action::Finish(_) => break,
            Action::Call(call) => {
                trace.actions.push(call.query.clone());
                store(call)
            }
            other => cache_event(cache, other, trace),
        };
        step = step.flow.resume(event);
    }
    match step.action {
        Action::Finish(outcome) => outcome,
        _ => unreachable!(),
    }
}

fn user() -> AuthUser {
    AuthUser { user_id: Uuid::from_bytes([0xaa; 16]), role: UserRole::USER }
}

fn col(name: &str, value: SqlValue) -> Column {
    Column { name: name.to_string(), value }
}

fn text(s: &str) -> SqlValue {
    SqlValue::Text(s.to_string())
}

fn currency_row(code: &str, name: &str, minor_unit: u8) -> Row {
    Row {
        columns: vec![
            col("code", text(code)),
            col("name", text(name)),
            col("minor_unit", SqlValue::UInt(minor_unit as u64)),
        ],
    }
}

fn currency(code: &str, name: &str, minor_unit: u8) -> CurrencyResponse {
    CurrencyResponse {
        currency_code: code.to_string(),
        currency_name: name.to_string(),
        currency_minor_unit: minor_unit,
    }
}

/// A store of currencies that keeps what it is given.
#[derive(Default)]
struct CurrencyTable {
    rows: Vec<(String, String, u8)>,
}

impl CurrencyTable {
    fn answer<R>(&mut self, call: &ProcedureCall) -> Event<R> {
        let name = call.query.as_str();
        if name.starts_with("CALL proc_currency_get_by_code(") {
            let code = string_param(&call.params[0]);
            let row = self.rows.iter().find(|r| r.0 == code).map(|r| currency_row(&r.0, &r.1, r.2));
            Event::Row(Ok(row))
        } else if name.starts_with("CALL proc_currency_insert(") {
            let code = string_param(&call.params[0]);
            if self.rows.iter().any(|r| r.0 == code) {
                return Event::One(Err("Duplicate entry".to_string()));
            }
            let minor = match call.params[2] {
                MySqlParam::U8(m) => m,
                _ => panic!("minor unit is bound as an unsigned byte"),
            };
            self.rows.push((code.clone(), string_param(&call.params[1]), minor));
            Event::One(Ok(currency_row(&code, &string_param(&call.params[1]), minor)))
        } else if name.starts_with("CALL proc_currency_update_name(") {
            let code = string_param(&call.params[0]);
            let new_name = string_param(&call.params[1]);
            match self.rows.iter_mut().find(|r| r.0 == code) {
                Some(r) => {
                    r.1 = new_name;
                    Event::Row(Ok(Some(currency_row(&r.0, &r.1, r.2))))
                }
                None => Event::Row(Ok(None)),
            }
        } else if name.starts_with("CALL proc_currency_delete(") {
            let code = string_param(&call.params[0]);
            self.rows.retain(|r| r.0 != code);
            Event::Executed(Ok(()))
        } else if name.starts_with("CALL proc_currency_list(") {
            Event::Rows(Ok(self.rows.iter().map(|r| currency_row(&r.0, &r.1, r.2)).collect()))
        } else {
            panic!("unexpected call {name}")
        }
    }
}

fn string_param(param: &MySqlParam) -> String {
    match param {
        MySqlParam::String(s) => s.clone(),
        other => panic!("expected a text parameter, found {other:?}"),
    }
}

fn get_command(code: &str) -> CurrencyGetCommand {
    CurrencyGetCommand::new(code.to_string(), user())
}

fn create_command(code: &str, name: &str, minor_unit: u8) -> CurrencyCreateCommand {
    CurrencyCreateCommand::new(
        CurrencyCreateRequest {
            currency_code: code.to_string(),
            currency_name: name.to_string(),
            currency_minor_unit: minor_unit,
        },
        user(),
    )
}

#[test]
fn create_then_get_gives_back_what_was_created() {
    let service = CurrencyService::new(false);
    let mut table = CurrencyTable::default();
    let mut cache = Cache::new();
    let mut trace = Trace::default();
    let created = run(
        service.create_currency(create_command("JPY", "Yen", 0)),
        &mut cache,
        &mut |c| table.answer(c),
        &mut trace,
    );
    assert_eq!(created, Outcome::Found(currency("JPY", "Yen", 0)));
    let read =
        run(service.get_currency(get_command("JPY")), &mut cache, &mut |c| table.answer(c), &mut trace);
    assert_eq!(read, Outcome::Found(currency("JPY", "Yen", 0)));
}

#[test]
fn without_a_cache_no_cache_action_is_asked_for() {
    let service = CurrencyService::new(false);
    let mut table = CurrencyTable::default();
    let mut cache = Cache::new();
    let mut trace = Trace::default();
    run(service.create_currency(create_command("EUR", "Euro", 2)), &mut cache, &mut |c| table.answer(c), &mut trace);
    run(service.get_currency(get_command("EUR")), &mut cache, &mut |c| table.answer(c), &mut trace);
    run(
        service.delete_currency(CurrencyDeleteCommand::new("EUR".to_string(), user())),
        &mut cache,
        &mut |c| table.answer(c),
        &mut trace,
    );
    assert_eq!(
        trace.actions,
        vec![
            "CALL proc_currency_insert(?, ?, ?, ?)",
            "CALL proc_currency_get_by_code(?, ?)",
            "CALL proc_currency_delete(?, ?)",
        ]
    );
    assert!(cache.is_empty());
}

#[test]
fn first_read_fills_the_cache_and_the_second_is_served_from_it() {
    let service = CurrencyService::new(true);
    let mut table = CurrencyTable::default();
    table.rows.push(("EUR".to_string(), "Euro".to_string(), 2));
    let mut cache = Cache::new();
    let mut first = Trace::default();
    let one = run(service.get_currency(get_command("EUR")), &mut cache, &mut |c| table.answer(c), &mut first);
    assert_eq!(
        first.actions,
        vec!["GET currency:EUR many=false", "CALL proc_currency_get_by_code(?, ?)", "SET currency:EUR"]
    );
    assert_eq!(first.ttls, vec![Some(3600)]);
    assert_eq!(cache.get("currency:EUR"), Some(&Cached::One(currency("EUR", "Euro", 2))));

    let mut second = Trace::default();
    let mut no_store = |call: &ProcedureCall| -> Event<CurrencyResponse> {
        panic!("the store must not be called: {}", call.query)
    };
    let two = run(service.get_currency(get_command("EUR")), &mut cache, &mut no_store, &mut second);
    assert_eq!(second.actions, vec!["GET currency:EUR many=false"]);
    assert_eq!(one, two);
    assert_eq!(two, Outcome::Found(currency("EUR", "Euro", 2)));
}

#[test]
fn a_read_of_nothing_is_not_found_and_caches_nothing() {
    let service = CurrencyService::new(true);
    let mut table = CurrencyTable::default();
    let mut cache = Cache::new();
    let mut trace = Trace::default();
    let outcome = run(service.get_currency(get_command("ZZZ")), &mut cache, &mut |c| table.answer(c), &mut trace);
    assert_eq!(outcome, Outcome::NotFound);
    assert!(cache.is_empty());
    assert_eq!(trace.actions, vec!["GET currency:ZZZ many=false", "CALL proc_currency_get_by_code(?, ?)"]);
}

#[test]
fn the_list_is_cached_as_a_whole() {
    let service = CurrencyService::new(true);
    let mut table = CurrencyTable::default();
    table.rows.push(("EUR".to_string(), "Euro".to_string(), 2));
    table.rows.push(("JPY".to_string(), "Yen".to_string(), 0));
    let mut cache = Cache::new();
    let mut first = Trace::default();
    let command = || {
        CurrencyListCommand::new(PaginationRequest { page: None, page_size: None, search: None }, user())
    };
    let listed = run(service.list_currencies(command()), &mut cache, &mut |c| table.answer(c), &mut first);
    let expected = vec![currency("EUR", "Euro", 2), currency("JPY", "Yen", 0)];
    assert_eq!(listed, Outcome::Listed(expected.clone()));
    assert_eq!(
        first.actions,
        vec!["GET currency:list many=true", "CALL proc_currency_list(?)", "SET currency:list"]
    );
    let mut second = Trace::default();
    let again = run(
        service.list_currencies(command()),
        &mut cache,
        &mut |c| panic!("the store must not be called: {}", c.query),
        &mut second,
    );
    assert_eq!(again, Outcome::Listed(expected));
    assert_eq!(second.actions, vec!["GET currency:list many=true"]);
}

#[test]
fn an_update_is_seen_by_the_next_read_and_drops_the_list() {
    let service = CurrencyService::new(true);
    let mut table = CurrencyTable::default();
    table.rows.push(("EUR".to_string(), "Euro".to_string(), 2));
    let mut cache = Cache::new();
    let mut trace = Trace::default();
    // Warm the cache with the old state and with the list.
    run(service.get_currency(get_command("EUR")), &mut cache, &mut |c| table.answer(c), &mut trace);
    run(
        service.list_currencies(CurrencyListCommand::new(
            PaginationRequest { page: None, page_size: None, search: None },
            user(),
        )),
        &mut cache,
        &mut |c| table.answer(c),
        &mut trace,
    );
    assert!(cache.contains_key("currency:list"));

    let mut write = Trace::default();
    let request = CurrencyUpdateNameRequest {
        currency_code: "EUR".to_string(),
        currency_name: "Euro (EU)".to_string(),
    };
    let updated = run(
        service.update_currency_name(CurrencyUpdateNameCommand::new(request, user())),
        &mut cache,
        &mut |c| table.answer(c),
        &mut write,
    );
    assert_eq!(updated, Outcome::Found(currency("EUR", "Euro (EU)", 2)));
    assert_eq!(
        write.actions,
        vec!["CALL proc_currency_update_name(?, ?, ?)", "SET currency:EUR", "DEL currency:list"]
    );
    assert!(!cache.contains_key("currency:list"));

    let mut read = Trace::default();
    let seen = run(
        service.get_currency(get_command("EUR")),
        &mut cache,
        &mut |c| panic!("the store must not be called: {}", c.query),
        &mut read,
    );
    assert_eq!(seen, Outcome::Found(currency("EUR", "Euro (EU)", 2)));
}

#[test]
fn an_update_of_an_unknown_identity_is_not_found() {
    let service = CurrencyService::new(true);
    let mut table = CurrencyTable::default();
    let mut cache = Cache::new();
    let mut trace = Trace::default();
    let request =
        CurrencyUpdateNameRequest { currency_code: "ZZZ".to_string(), currency_name: "Nothing".to_string() };
    let outcome = run(
        service.update_currency_name(CurrencyUpdateNameCommand::new(request, user())),
        &mut cache,
        &mut |c| table.answer(c),
        &mut trace,
    );
    assert_eq!(outcome, Outcome::NotFound);
    assert!(cache.is_empty());
    assert!(table.rows.is_empty());
    assert_eq!(trace.actions, vec!["CALL proc_currency_update_name(?, ?, ?)"]);
}

#[test]
fn a_delete_is_seen_by_the_next_read() {
    let service = CurrencyService::new(true);
    let mut table = CurrencyTable::default();
    table.rows.push(("EUR".to_string(), "Euro".to_string(), 2));
    let mut cache = Cache::new();
    let mut trace = Trace::default();
    run(service.get_currency(get_command("EUR")), &mut cache, &mut |c| table.answer(c), &mut trace);
    assert!(cache.contains_key("currency:EUR"));

    let mut delete = Trace::default();
    let deleted = run(
        service.delete_currency(CurrencyDeleteCommand::new("EUR".to_string(), user())),
        &mut cache,
        &mut |c| table.answer(c),
        &mut delete,
    );
    assert_eq!(deleted, Outcome::Done);
    assert_eq!(
        delete.actions,
        vec!["CALL proc_currency_delete(?, ?)", "DEL currency:EUR", "DEL currency:list"]
    );
    assert!(cache.is_empty());

    let mut read = Trace::default();
    let gone = run(service.get_currency(get_command("EUR")), &mut cache, &mut |c| table.answer(c), &mut read);
    assert_eq!(gone, Outcome::NotFound);
    assert_eq!(read.store_calls(), vec!["CALL proc_currency_get_by_code(?, ?)"]);
}

#[test]
fn a_failed_delete_leaves_the_cache_as_it_was_and_reports_the_failure() {
    let service = CurrencyService::new(true);
    let mut cache = Cache::new();
    cache.insert("currency:EUR".to_string(), Cached::One(currency("EUR", "Euro", 2)));
    cache.insert("currency:list".to_string(), Cached::Many(vec![currency("EUR", "Euro", 2)]));
    let before = cache.clone();
    let mut trace = Trace::default();
    let outcome = run(
        service.delete_currency(CurrencyDeleteCommand::new("EUR".to_string(), user())),
        &mut cache,
        &mut |_| Event::Executed(Err("foreign key constraint fails".to_string())),
        &mut trace,
    );
    assert_eq!(
        outcome,
        Outcome::Failed(ServiceError::Repository("Error during deleting currency".to_string()))
    );
    assert_eq!(trace.actions, vec!["CALL proc_currency_delete(?, ?)"]);
    assert_eq!(cache, before);
}

#[test]
fn a_repository_failure_is_reported_without_its_cause() {
    let service = CurrencyService::new(true);
    let mut cache = Cache::new();
    let mut trace = Trace::default();
    let read = run(
        service.get_currency(get_command("EUR")),
        &mut cache,
        &mut |_| Event::Row(Err("Access denied for user 'app'".to_string())),
        &mut trace,
    );
    assert_eq!(read, Outcome::Failed(ServiceError::Repository("Error during getting currency".to_string())));
    let create = run(
        service.create_currency(create_command("EUR", "Euro", 2)),
        &mut cache,
        &mut |_| Event::One(Err("Duplicate entry 'EUR'".to_string())),
        &mut trace,
    );
    assert_eq!(create, Outcome::Failed(ServiceError::Repository("Error during creating currency".to_string())));
    assert!(cache.is_empty());
}

#[test]
fn a_row_that_does_not_fit_is_a_repository_failure() {
    let service = CurrencyService::new(true);
    let mut cache = Cache::new();
    let mut trace = Trace::default();
    let row = Row { columns: vec![col("code", text("EUR"))] };
    let outcome = run(
        service.get_currency(get_command("EUR")),
        &mut cache,
        &mut |_| Event::Row(Ok(Some(row.clone()))),
        &mut trace,
    );
    assert_eq!(outcome, Outcome::Failed(ServiceError::Repository("Error during getting currency".to_string())));
    assert!(cache.is_empty());
}

#[test]
fn a_failing_cache_fails_the_read() {
    let service = CurrencyService::new(true);
    let step = service.get_currency(get_command("EUR"));
    let step = step.flow.resume(Event::Cached(Err("connection refused".to_string())));
    assert_eq!(
        step.action,
        Action::Finish(Outcome::Failed(ServiceError::Cache(
            "Error during getting currency".to_string()
        )))
    );
}

#[test]
fn a_failing_cache_fails_the_write_after_the_store_was_changed() {
    let service = CurrencyService::new(true);
    let step = service.create_currency(create_command("EUR", "Euro", 2));
    assert!(matches!(step.action, Action::Call(_)));
    let step = step.flow.resume(Event::One(Ok(currency_row("EUR", "Euro", 2))));
    assert!(matches!(step.action, Action::CacheSet { .. }));
    let step = step.flow.resume(Event::Stored(Err("timeout".to_string())));
    assert_eq!(
        step.action,
        Action::Finish(Outcome::Failed(ServiceError::Cache(
            "Error during creating currency".to_string()
        )))
    );
}

#[test]
fn an_event_that_does_not_answer_the_action_ends_the_operation() {
    let service = CurrencyService::new(true);
    let step = service.get_currency(get_command("EUR"));
    let step = step.flow.resume(Event::Stored(Ok(())));
    assert_eq!(step.action, Action::Finish(Outcome::Failed(ServiceError::Protocol)));
    assert_eq!(step.flow.stage, Stage::Finished);
    let step = step.flow.resume(Event::Cached(Ok(None)));
    assert_eq!(step.action, Action::Finish(Outcome::Failed(ServiceError::Protocol)));

    let step = service.get_currency(get_command("EUR"));
    let step = step.flow.resume(Event::Cached(Ok(None)));
    // The call expects at most one row; a list does not answer it.
    let step = step.flow.resume(Event::Rows(Ok(vec![])));
    assert_eq!(step.action, Action::Finish(Outcome::Failed(ServiceError::Protocol)));
}

#[test]
fn a_cached_list_does_not_answer_a_read_of_one() {
    let service = CurrencyService::new(true);
    let step = service.get_currency(get_command("EUR"));
    let step = step.flow.resume(Event::Cached(Ok(Some(Cached::Many(vec![])))));
    assert_eq!(step.action, Action::Finish(Outcome::Failed(ServiceError::Protocol)));
}

#[test]
fn plans_say_what_the_cache_does() {
    let call = ProcedureCall { query: "CALL p()".to_string(), params: vec![], shape: CallShape::FetchOptional };
    let read = Plan::read(call.replicate(), "k".to_string(), true, "failed");
    assert_eq!(read.policy, Policy::ReadThrough { key: "k".to_string() });
    assert_eq!(read.ttl, Some(CACHE_TTL_SECONDS));
    assert_eq!(read.failure, "failed");
    assert_eq!(Plan::read(call.replicate(), "k".to_string(), false, "failed").policy, Policy::Bypass);
    assert_eq!(Plan::write(call.replicate(), true, "failed").policy, Policy::WriteThrough);
    assert_eq!(Plan::write(call.replicate(), false, "failed").policy, Policy::Bypass);
    assert_eq!(
        Plan::delete(call.replicate(), vec!["a".to_string()], true, "failed").policy,
        Policy::Invalidate { keys: vec!["a".to_string()] }
    );
    assert_eq!(Plan::delete(call.replicate(), vec!["a".to_string()], false, "failed").policy, Policy::Bypass);
    assert_eq!(Plan::uncached(call, "failed").policy, Policy::Bypass);
    let start: Step<CurrencyResponse> = Flow::start(read);
    assert_eq!(start.action, Action::CacheGet { key: "k".to_string(), many: false });
}

// ---- exchange rates ----

fn fx_row(id: [u8; 16], base: &str, quote: &str, rate: Decimal) -> Row {
    Row {
        columns: vec![
            col("id", SqlValue::Bytes(id.to_vec())),
            col("base_code", text(base)),
            col("quote_code", text(quote)),
            col("rate", SqlValue::Decimal(rate)),
            col("as_of_date", SqlValue::Date(NaiveDate { days_from_ce: 739_000 })),
            col("source", text("ecb")),
            col("created_at", SqlValue::Null),
        ],
    }
}

fn fx_command(base: &str, quote: &str) -> FxRateCreateCommand {
    FxRateCreateCommand::new(
        FxRateCreateRequest {
            fx_rate_base_code: base.to_string(),
            fx_rate_quote_code: quote.to_string(),
            fx_rate_rate: Decimal::new(10875, 4).unwrap(),
            fx_rate_as_of_date: NaiveDate { days_from_ce: 739_000 },
            fx_rate_source: "ecb".to_string(),
        },
        user(),
    )
}

/// A store that knows the dollar only and records what it is asked to create.
fn dollar_store(
    created: &mut Vec<ProcedureCall>,
) -> impl FnMut(&ProcedureCall) -> Event<FxRateResponse> + '_ {
    move |call: &ProcedureCall| {
        if call.query.starts_with("CALL proc_currency_get_by_code(") {
            let code = string_param(&call.params[0]);
            if code == "USD" {
                Event::Row(Ok(Some(currency_row("USD", "Dollar", 2))))
            } else {
                Event::Row(Ok(None))
            }
        } else if call.query.starts_with("CALL proc_fx_rate_create(") {
            created.push(call.replicate());
            Event::One(Ok(fx_row(
                [7u8; 16],
                &string_param(&call.params[0]),
                &string_param(&call.params[1]),
                Decimal::new(10875, 4).unwrap(),
            )))
        } else if call.query.starts_with("CALL proc_fx_rate_by_code(") {
            Event::Rows(Ok(vec![fx_row([7u8; 16], "USD", "USD", Decimal::new(1, 0).unwrap())]))
        } else {
            panic!("unexpected call {}", call.query)
        }
    }
}

#[test]
fn an_exchange_rate_to_an_unknown_currency_is_not_found_and_nothing_is_stored() {
    let service = CurrencyService::new(true);
    let mut created = Vec::new();
    let mut cache = Cache::new();
    let mut trace = Trace::default();
    let outcome = run_checked(
        service.create_fx_rate(fx_command("USD", "ZZZ")),
        &mut cache,
        &mut dollar_store(&mut created),
        &mut trace,
    );
    assert_eq!(outcome, Outcome::NotFound);
    assert_eq!(
        trace.actions,
        vec!["CALL proc_currency_get_by_code(?, ?)", "CALL proc_currency_get_by_code(?, ?)"]
    );
    assert!(created.is_empty());
    assert!(cache.is_empty());
}

#[test]
fn an_exchange_rate_from_an_unknown_currency_is_not_found_after_one_lookup() {
    let service = CurrencyService::new(true);
    let mut created = Vec::new();
    let mut cache = Cache::new();
    let mut trace = Trace::default();
    let outcome = run_checked(
        service.create_fx_rate(fx_command("ZZZ", "USD")),
        &mut cache,
        &mut dollar_store(&mut created),
        &mut trace,
    );
    assert_eq!(outcome, Outcome::NotFound);
    assert_eq!(trace.actions, vec!["CALL proc_currency_get_by_code(?, ?)"]);
    assert!(created.is_empty());
}

#[test]
fn an_exchange_rate_between_known_currencies_is_created_and_cached() {
    let service = CurrencyService::new(true);
    let mut created = Vec::new();
    let mut cache = Cache::new();
    cache.insert("fx_rate:list".to_string(), Cached::Many(vec![]));
    let mut trace = Trace::default();
    let outcome = run_checked(
        service.create_fx_rate(fx_command("USD", "USD")),
        &mut cache,
        &mut dollar_store(&mut created),
        &mut trace,
    );
    let id = Uuid::from_bytes([7u8; 16]);
    let expected = FxRateResponse {
        fx_rate_id: id,
        fx_rate_base_code: "USD".to_string(),
        fx_rate_quote_code: "USD".to_string(),
        fx_rate_rate: Decimal::new(10875, 4).unwrap(),
        fx_rate_as_of_date: NaiveDate { days_from_ce: 739_000 },
        fx_rate_source: "ecb".to_string(),
    };
    assert_eq!(outcome, Outcome::Found(expected.clone()));
    assert_eq!(
        trace.actions,
        vec![
            "CALL proc_currency_get_by_code(?, ?)",
            "CALL proc_currency_get_by_code(?, ?)",
            "CALL proc_fx_rate_create(?, ?, ?, ?, ?, ?)",
            "SET fx_rate:07070707-0707-0707-0707-070707070707",
            "DEL fx_rate:list",
        ]
    );
    assert_eq!(created.len(), 1);
    assert_eq!(
        cache.get("fx_rate:07070707-0707-0707-0707-070707070707"),
        Some(&Cached::One(expected))
    );
    assert!(!cache.contains_key("fx_rate:list"));
}

#[test]
fn a_failing_currency_lookup_fails_the_creation_with_its_own_text() {
    let service = CurrencyService::new(true);
    let step = service.create_fx_rate(fx_command("USD", "EUR"));
    let step = step.flow.resume(Event::Row(Err("gone away".to_string())));
    assert_eq!(
        step.action,
        Action::Finish(Outcome::Failed(ServiceError::Repository(
            "Error during getting currency base code".to_string()
        )))
    );
    let step = service.create_fx_rate(fx_command("USD", "EUR"));
    let step = step.flow.resume(Event::Row(Ok(Some(currency_row("USD", "Dollar", 2)))));
    let step = step.flow.resume(Event::Row(Err("gone away".to_string())));
    assert_eq!(
        step.action,
        Action::Finish(Outcome::Failed(ServiceError::Repository(
            "Error during getting currency quote code".to_string()
        )))
    );
}

#[test]
fn exchange_rates_of_an_unknown_base_currency_are_not_found() {
    let service = CurrencyService::new(true);
    let mut created = Vec::new();
    let mut cache = Cache::new();
    let mut trace = Trace::default();
    let command = FxRateByBaseCodeCommand::new("ZZZ".to_string(), None, user());
    let outcome = run_checked(
        service.list_fx_rates_by_base_code(command),
        &mut cache,
        &mut dollar_store(&mut created),
        &mut trace,
    );
    assert_eq!(outcome, Outcome::NotFound);
    assert_eq!(trace.actions, vec!["CALL proc_currency_get_by_code(?, ?)"]);
}

#[test]
fn exchange_rates_of_a_base_currency_are_listed_without_the_cache() {
    let service = CurrencyService::new(true);
    let mut created = Vec::new();
    let mut cache = Cache::new();
    let mut trace = Trace::default();
    let command = FxRateByBaseCodeCommand::new("USD".to_string(), None, user());
    let outcome = run_checked(
        service.list_fx_rates_by_base_code(command),
        &mut cache,
        &mut dollar_store(&mut created),
        &mut trace,
    );
    match outcome {
        Outcome::Listed(rates) => {
            assert_eq!(rates.len(), 1);
            assert_eq!(rates[0].fx_rate_id, Uuid::from_bytes([7u8; 16]));
        }
        other => panic!("expected a list, found {other:?}"),
    }
    assert_eq!(
        trace.actions,
        vec!["CALL proc_currency_get_by_code(?, ?)", "CALL proc_fx_rate_by_code(?, ?)"]
    );
    assert!(cache.is_empty());
}

#[test]
fn exchange_rate_operations_use_their_keys() {
    let service = CurrencyService::new(true);
    let id = Uuid::from_bytes([1u8; 16]);
    let key = "fx_rate:01010101-0101-0101-0101-010101010101";
    let get = service.get_fx_rate(FxRateGetCommand::new(id, user()));
    assert_eq!(get.action, Action::CacheGet { key: key.to_string(), many: false });
    let list = service.list_fx_rates(FxRateListCommand::new(None, user()));
    assert_eq!(list.action, Action::CacheGet { key: "fx_rate:list".to_string(), many: true });
    let mut cache = Cache::new();
    let mut trace = Trace::default();
    let deleted = run(
        service.delete_fx_rate(FxRateDeleteCommand::new(id, user())),
        &mut cache,
        &mut |_| Event::Executed(Ok(())),
        &mut trace,
    );
    assert_eq!(deleted, Outcome::Done);
    assert_eq!(
        trace.actions,
        vec!["CALL proc_fx_rate_delete(?, ?)".to_string(), format!("DEL {key}"), "DEL fx_rate:list".to_string()]
    );
    let update = service.update_fx_rate(FxRateUpdateRateCommand::new(
        id,
        FxRateUpdateRateRequest { fx_rate_rate: Decimal::new(2, 0).unwrap() },
        user(),
    ));
    let step = update.flow.resume(Event::Row(Ok(None)));
    assert_eq!(step.action, Action::Finish(Outcome::NotFound));
}

#[test]
fn an_exchange_rate_row_without_identity_is_a_repository_failure() {
    let service = CurrencyService::new(false);
    let id = Uuid::from_bytes([1u8; 16]);
    let mut row = fx_row([1u8; 16], "EUR", "USD", Decimal::new(1, 0).unwrap());
    row.columns[0].value = SqlValue::Null;
    let step = service.get_fx_rate(FxRateGetCommand::new(id, user()));
    let step = step.flow.resume(Event::Row(Ok(Some(row))));
    assert_eq!(
        step.action,
        Action::Finish(Outcome::Failed(ServiceError::Repository("Error during getting fx_rate".to_string())))
    );
    let mut short = fx_row([1u8; 16], "EUR", "USD", Decimal::new(1, 0).unwrap());
    short.columns[0].value = SqlValue::Bytes(vec![1, 2, 3]);
    let step = service.get_fx_rate(FxRateGetCommand::new(id, user()));
    let step = step.flow.resume(Event::Row(Ok(Some(short))));
    assert!(matches!(step.action, Action::Finish(Outcome::Failed(ServiceError::Repository(_)))));
}

#[test]
fn service_keys_and_lifetimes() {
    let service = CurrencyService::new(true);
    assert_eq!(service.redis_key_currency_ttl(), Some(3600));
    assert_eq!(service.redis_key_fx_rate_ttl(), Some(3600));
    assert_eq!(service.form_redis_key_single_currency(&"EUR".to_string()), "currency:EUR");
    assert_eq!(service.form_redis_key_list_currencies(), "currency:list");
    assert_eq!(service.form_redis_key_list_fx_rates(), "fx_rate:list");
    assert_eq!(
        service.form_redis_key_single_fx_rate(&Uuid::from_bytes([0x10; 16])),
        "fx_rate:10101010-1010-1010-1010-101010101010"
    );
}

#[test]
fn a_currency_called_list_shares_its_key_with_the_list() {
    // The one currency code whose own key is the key of the list of all currencies.
    let own = currency("list", "List", 2);
    assert_eq!(own.cache_key(), "currency:list");
    assert_eq!(own.list_cache_keys(), vec!["currency:list".to_string()]);
}

#[test]
fn not_found_is_told_apart_from_a_failure() {
    assert_eq!(Outcome::Found(currency("EUR", "Euro", 2)).status(), 200);
    assert_eq!(Outcome::<CurrencyResponse>::Listed(vec![]).status(), 200);
    assert_eq!(Outcome::<CurrencyResponse>::Done.status(), 200);
    assert_eq!(Outcome::<CurrencyResponse>::NotFound.status(), 404);
    assert_eq!(Outcome::<CurrencyResponse>::Failed(ServiceError::Protocol).status(), 500);
    assert_eq!(
        Outcome::<CurrencyResponse>::Failed(ServiceError::Cache("down".to_string())).status(),
        500
    );
}

#[test]
fn a_failing_cache_delete_gives_the_text_of_the_operation() {
    let service = CurrencyService::new(true);
    let step = service.delete_currency(CurrencyDeleteCommand::new("EUR".to_string(), user()));
    let step = step.flow.resume(Event::Executed(Ok(())));
    assert_eq!(step.action, Action::CacheDelete { key: "currency:EUR".to_string() });
    let step = step.flow.resume(Event::Dropped(Err("READONLY You can't write".to_string())));
    assert_eq!(
        step.action,
        Action::Finish(Outcome::Failed(ServiceError::Cache(
            "Error during deleting currency".to_string()
        )))
    );
}
