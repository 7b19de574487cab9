use std::collections::HashMap;

use finlife::modules::locations::location_command::{
    LocationArchivedCommand, LocationCreateCommand, LocationDeleteCommand, LocationGetCommand,
    LocationListByUserCommand, LocationListCommand, LocationUpdateCommand,
    LocationUpdateLatLongCommand, LocationUpdateNameCommand,
};
use finlife::modules::locations::location_dto::{
    LocationCreateRequest, LocationResponse, LocationUpdateArchivedRequest,
    LocationUpdateNameRequest, LocationUpdateRequest,
};
use finlife::modules::locations::location_model::Location;
use finlife::modules::locations::location_service::{LocationService, LocationServiceInterface};
use finlife::modules::people::people_command::{
    PeopleArchivedCommand, PeopleCreateCommand, PeopleDeleteCommand, PeopleGetCommand,
    PeopleListByUserCommand, PeopleListCommand, PeopleUpdateCommand, PeopleUpdateImageCommand,
};
use finlife::modules::people::people_dto::{
    PeopleCreateRequest, PeopleResponse, PeopleUpdateArchivedRequest, PeopleUpdateRequest,
};
use finlife::modules::people::people_model::People;
use finlife::modules::people::people_service::{PeopleInterface, PeopleService};
use finlife::modules::users::user::user_model::UserRole;
use finlife::shared::auth::jwt::AuthUser;
use finlife::shared::cache_aside::{Action, Cached, Event, Outcome, Response, ServiceError};
use finlife::shared::crud_repository::ProcedureCall;
use finlife::shared::db::param::MySqlParam;
use finlife::shared::db::row::{Column, Row, SqlValue};
use finlife::shared::decimal::Decimal;
use finlife::shared::ids::Uuid;
use finlife::shared::response::PaginationRequest;
use finlife::shared::service::Step;
use finlife::shared::temporal::DateTimeUtc;

type Cache<R> = HashMap<String, Cached<R>>;

fn run<R: Response + Clone>(
    mut step: Step<R>,
    cache: &mut Cache<R>,
    store: &mut dyn FnMut(&ProcedureCall) -> Event<R>,
    actions: &mut Vec<String>,
) -> Outcome<R> {
    loop {
        let event = match &step.action {
            Action::Finish(_) => break,
            Action::Call(call) => {
                actions.push(call.query.clone());
                store(call)
            }
            Action::CacheGet { key, .. } => {
                actions.push(format!("GET {key}"));
                Event::Cached(Ok(cache.get(key).cloned()))
            }
            Action::CacheSet { key, value, .. } => {
                actions.push(format!("SET {key}"));
                cache.insert(key.clone(), value.clone());
                Event::Stored(Ok(()))
            }
            Action::CacheDelete { key } => {
                actions.push(format!("DEL {key}"));
                cache.remove(key);
                Event::Dropped(Ok(()))
            }
        };
        step = step.flow.resume(event);
    }
    match step.action {
        Action::Finish(outcome) => outcome,
        _ => unreachable!(),
    }
}

const OWNER: [u8; 16] = [0xaa; 16];

fn user() -> AuthUser {
    AuthUser { user_id: Uuid::from_bytes(OWNER), role: UserRole::USER }
}

fn col(name: &str, value: SqlValue) -> Column {
    Column { name: name.to_string(), value }
}

fn opt_text(value: &Option<String>) -> SqlValue {
    match value {
        Some(s) => SqlValue::Text(s.clone()),
        None => SqlValue::Null,
    }
}

fn bytes_param(param: &MySqlParam) -> Vec<u8> {
    match param {
        MySqlParam::Bytes(b) => b.clone(),
        other => panic!("expected bytes, found {other:?}"),
    }
}

fn text_param(param: &MySqlParam) -> String {
    match param {
        MySqlParam::String(s) => s.clone(),
        other => panic!("expected a text, found {other:?}"),
    }
}

fn opt_text_param(param: &MySqlParam) -> Option<String> {
    match param {
        MySqlParam::OptString(s) => s.clone(),
        other => panic!("expected an optional text, found {other:?}"),
    }
}

fn bool_param(param: &MySqlParam) -> bool {
    match param {
        MySqlParam::Bool(b) => *b,
        other => panic!("expected a truth value, found {other:?}"),
    }
}

fn opt_u32_param(param: &MySqlParam) -> Option<u32> {
    match param {
        MySqlParam::OptU32(n) => *n,
        other => panic!("expected an optional number, found {other:?}"),
    }
}

/// A table of contacts that keeps what it is given and assigns identities.
#[derive(Default)]
struct PeopleTable {
    rows: Vec<People>,
    next: u8,
}

impl PeopleTable {
    fn row(p: &People) -> Row {
        Row {
            columns: vec![
                col("id", SqlValue::Bytes(p.id.clone().unwrap())),
                col("user_id", SqlValue::Bytes(p.user_id.clone())),
                col("name", SqlValue::Text(p.name.clone())),
                col("email", opt_text(&p.email)),
                col("phone", opt_text(&p.phone)),
                col("image_url", opt_text(&p.image_url)),
                col("note", opt_text(&p.note)),
                col("archived", SqlValue::Int(p.archived as i64)),
                col("created_at", SqlValue::DateTime(DateTimeUtc { seconds: 1_700_000_000, nanos: 0 })),
                col("updated_at", SqlValue::Null),
            ],
        }
    }

    fn find(&mut self, id: &[u8]) -> Option<&mut People> {
        self.rows.iter_mut().find(|p| p.id.as_deref() == Some(id))
    }

    fn answer(&mut self, call: &ProcedureCall) -> Event<PeopleResponse> {
        let q = call.query.as_str();
        let p = &call.params;
        if q.starts_with("CALL proc_people_create(") {
            self.next += 1;
            let person = People {
                id: Some(vec![self.next; 16]),
                user_id: bytes_param(&p[0]),
                name: text_param(&p[1]),
                email: opt_text_param(&p[2]),
                phone: opt_text_param(&p[3]),
                image_url: opt_text_param(&p[4]),
                note: opt_text_param(&p[5]),
                archived: bool_param(&p[6]),
                created_at: None,
                updated_at: None,
            };
            let row = Self::row(&person);
            self.rows.push(person);
            Event::One(Ok(row))
        } else if q.starts_with("CALL proc_people_get_by_id(") {
            Event::Row(Ok(self.find(&bytes_param(&p[0])).map(|p| Self::row(p))))
        } else if q.starts_with("CALL proc_people_update_archived(") {
            let archived = bool_param(&p[1]);
            Event::Row(Ok(self.find(&bytes_param(&p[0])).map(|person| {
                person.archived = archived;
                Self::row(person)
            })))
        } else if q.starts_with("CALL proc_people_update_image(") {
            let image = opt_text_param(&p[1]);
            Event::Row(Ok(self.find(&bytes_param(&p[0])).map(|person| {
                person.image_url = image;
                Self::row(person)
            })))
        } else if q.starts_with("CALL proc_people_update(") {
            let (name, email, phone, note) =
                (text_param(&p[1]), opt_text_param(&p[2]), opt_text_param(&p[3]), opt_text_param(&p[4]));
            Event::Row(Ok(self.find(&bytes_param(&p[0])).map(|person| {
                person.name = name;
                person.email = email;
                person.phone = phone;
                person.note = note;
                Self::row(person)
            })))
        } else if q.starts_with("CALL proc_people_delete(") {
            let id = bytes_param(&p[0]);
            self.rows.retain(|person| person.id.as_deref() != Some(&id[..]));
            Event::Executed(Ok(()))
        } else if q.starts_with("CALL proc_people_list(") {
            let limit = opt_u32_param(&p[0]).map(|n| n as usize).unwrap_or(usize::MAX);
            let offset = opt_u32_param(&p[1]).unwrap_or(0) as usize;
            Event::Rows(Ok(self.rows.iter().skip(offset).take(limit).map(Self::row).collect()))
        } else if q.starts_with("CALL proc_people_by_user(") {
            let owner = bytes_param(&p[0]);
            Event::Rows(Ok(self.rows.iter().filter(|r| r.user_id == owner).map(Self::row).collect()))
        } else {
            panic!("unexpected call {q}")
        }
    }
}

fn create(name: &str) -> PeopleCreateCommand {
    PeopleCreateCommand::new(
        PeopleCreateRequest {
            people_name: name.to_string(),
            people_email: Some(format!("{name}@example.org")),
            people_phone: None,
            people_image_url: None,
            people_note: Some("met at work".to_string()),
        },
        user(),
    )
}

fn created_id(outcome: &Outcome<PeopleResponse>) -> Uuid {
    match outcome {
        Outcome::Found(person) => person.people_id,
        other => panic!("expected a contact, found {other:?}"),
    }
}

#[test]
fn a_created_contact_belongs_to_the_acting_user() {
    let command = create("ada");
    assert_eq!(command.user_id, Uuid::from_bytes(OWNER));
    let person = People::from(command);
    assert_eq!(person.id, None);
    assert_eq!(person.user_id, OWNER.to_vec());
    assert!(!person.archived);
    assert_eq!(person.created_at, None);
}

#[test]
fn create_then_get_gives_back_every_field_that_was_set() {
    let service = PeopleService::new(false);
    let mut table = PeopleTable::default();
    let mut cache = Cache::new();
    let mut actions = Vec::new();
    let created = run(service.create(create("ada")), &mut cache, &mut |c| table.answer(c), &mut actions);
    let id = created_id(&created);
    let read = run(
        service.get(PeopleGetCommand::new(id, user())),
        &mut cache,
        &mut |c| table.answer(c),
        &mut actions,
    );
    let expected = PeopleResponse {
        people_id: id,
        user_id: Uuid::from_bytes(OWNER),
        people_name: "ada".to_string(),
        people_email: Some("ada@example.org".to_string()),
        people_phone: None,
        people_image_url: None,
        people_note: Some("met at work".to_string()),
        people_archived: false,
        people_created_at: Some(DateTimeUtc { seconds: 1_700_000_000, nanos: 0 }),
        people_updated_at: None,
    };
    assert_eq!(created, Outcome::Found(expected.clone()));
    assert_eq!(read, Outcome::Found(expected));
}

#[test]
fn an_archived_contact_is_still_read_and_only_a_delete_removes_it() {
    let service = PeopleService::new(true);
    let mut table = PeopleTable::default();
    let mut cache = Cache::new();
    let mut actions = Vec::new();
    let id = created_id(&run(service.create(create("ada")), &mut cache, &mut |c| table.answer(c), &mut actions));

    let archived = run(
        service.archived(PeopleArchivedCommand::new(id, PeopleUpdateArchivedRequest { people_archived: true }, user())),
        &mut cache,
        &mut |c| table.answer(c),
        &mut actions,
    );
    assert!(matches!(&archived, Outcome::Found(p) if p.people_archived));

    let read = run(service.get(PeopleGetCommand::new(id, user())), &mut cache, &mut |c| table.answer(c), &mut actions);
    assert!(matches!(&read, Outcome::Found(p) if p.people_archived && p.people_id == id));
    // The store agrees with the cache.
    cache.clear();
    let read = run(service.get(PeopleGetCommand::new(id, user())), &mut cache, &mut |c| table.answer(c), &mut actions);
    assert!(matches!(&read, Outcome::Found(p) if p.people_archived));

    let deleted = run(service.delete(PeopleDeleteCommand::new(id, user())), &mut cache, &mut |c| table.answer(c), &mut actions);
    assert_eq!(deleted, Outcome::Done);
    let read = run(service.get(PeopleGetCommand::new(id, user())), &mut cache, &mut |c| table.answer(c), &mut actions);
    assert_eq!(read, Outcome::NotFound);
}

#[test]
fn a_write_drops_the_owners_list_and_keeps_the_contact() {
    let service = PeopleService::new(true);
    let mut table = PeopleTable::default();
    let mut cache = Cache::new();
    let mut actions = Vec::new();
    let owner = Uuid::from_bytes(OWNER);
    let list_key = format!("user:{}:people", owner.to_string());
    let id = created_id(&run(service.create(create("ada")), &mut cache, &mut |c| table.answer(c), &mut actions));
    let listed = run(
        service.get_by_user(PeopleListByUserCommand::new(owner, None, user())),
        &mut cache,
        &mut |c| table.answer(c),
        &mut actions,
    );
    assert!(matches!(&listed, Outcome::Listed(all) if all.len() == 1));
    assert!(cache.contains_key(&list_key));

    actions.clear();
    let request = PeopleUpdateRequest {
        people_name: "Ada L.".to_string(),
        people_email: None,
        people_phone: Some("+44".to_string()),
        people_note: None,
    };
    run(service.update(PeopleUpdateCommand::new(id, request, user())), &mut cache, &mut |c| table.answer(c), &mut actions);
    assert_eq!(
        actions,
        vec![
            "CALL proc_people_update(?, ?, ?, ?, ?, ?)".to_string(),
            format!("SET person:{}", id.to_string()),
            format!("DEL {list_key}"),
        ]
    );
    assert!(!cache.contains_key(&list_key));
    let listed = run(
        service.get_by_user(PeopleListByUserCommand::new(owner, None, user())),
        &mut cache,
        &mut |c| table.answer(c),
        &mut actions,
    );
    assert!(matches!(&listed, Outcome::Listed(all) if all[0].people_name == "Ada L." && all[0].people_phone == Some("+44".to_string())));
}

#[test]
fn scoped_updates_of_an_unknown_contact_are_not_found() {
    let service = PeopleService::new(true);
    let mut table = PeopleTable::default();
    let mut cache = Cache::new();
    let mut actions = Vec::new();
    let unknown = Uuid::from_bytes([0x77; 16]);
    let request = PeopleUpdateRequest { people_name: "x".to_string(), people_email: None, people_phone: None, people_note: None };
    let steps = vec![
        service.update(PeopleUpdateCommand::new(unknown, request, user())),
        service.archived(PeopleArchivedCommand::new(unknown, PeopleUpdateArchivedRequest { people_archived: true }, user())),
        service.update_image(PeopleUpdateImageCommand { people_id: unknown, people_image_url: None, auth_user: user() }),
    ];
    for step in steps {
        let outcome = run(step, &mut cache, &mut |c| table.answer(c), &mut actions);
        assert_eq!(outcome, Outcome::NotFound);
    }
    assert!(cache.is_empty());
    assert!(table.rows.is_empty());
}

#[test]
fn pages_of_a_listing_are_disjoint_and_cover_it() {
    let service = PeopleService::new(true);
    let mut table = PeopleTable::default();
    let mut cache = Cache::new();
    let mut actions = Vec::new();
    for i in 0..25 {
        run(service.create(create(&format!("p{i}"))), &mut cache, &mut |c| table.answer(c), &mut actions);
    }
    let page = |n: u32| {
        PeopleListCommand::new(Some(PaginationRequest { page: Some(n), page_size: Some(20), search: None }), user())
    };
    let ids = |outcome: Outcome<PeopleResponse>| -> Vec<Uuid> {
        match outcome {
            Outcome::Listed(people) => people.iter().map(|p| p.people_id).collect(),
            other => panic!("expected a list, found {other:?}"),
        }
    };
    let first = ids(run(service.get_all(page(1)), &mut cache, &mut |c| table.answer(c), &mut actions));
    let second = ids(run(service.get_all(page(2)), &mut cache, &mut |c| table.answer(c), &mut actions));
    assert_eq!(first.len(), 20);
    assert_eq!(second.len(), 5);
    assert!(first.iter().all(|id| !second.contains(id)));
    let mut all: Vec<Uuid> = first.into_iter().chain(second).collect();
    all.dedup();
    assert_eq!(all.len(), 25);
    let third = ids(run(service.get_all(page(3)), &mut cache, &mut |c| table.answer(c), &mut actions));
    assert!(third.is_empty());
}

#[test]
fn a_paged_listing_never_touches_the_cache() {
    let service = PeopleService::new(true);
    let step = service.get_all(PeopleListCommand::new(None, user()));
    match &step.action {
        Action::Call(call) => {
            assert_eq!(call.query, "CALL proc_people_list(?, ?, ?)");
            assert_eq!(call.params[0], MySqlParam::OptU32(None));
            assert_eq!(call.params[1], MySqlParam::OptU32(None));
        }
        other => panic!("expected a store call, found {other:?}"),
    }
    let step = step.flow.resume(Event::Rows(Ok(vec![])));
    assert_eq!(step.action, Action::Finish(Outcome::Listed(vec![])));
}

#[test]
fn people_failures_carry_the_text_of_the_operation() {
    let service = PeopleService::new(false);
    let id = Uuid::from_bytes([1u8; 16]);
    let failed = |step: Step<PeopleResponse>, event: Event<PeopleResponse>| match step.flow.resume(event).action {
        Action::Finish(Outcome::Failed(ServiceError::Repository(text))) => text,
        other => panic!("expected a repository failure, found {other:?}"),
    };
    let err = || "boom".to_string();
    assert_eq!(failed(service.get(PeopleGetCommand::new(id, user())), Event::Row(Err(err()))), "Error from repository");
    assert_eq!(failed(service.create(create("x")), Event::One(Err(err()))), "Error creating person");
    assert_eq!(failed(service.delete(PeopleDeleteCommand::new(id, user())), Event::Executed(Err(err()))), "Error deleting person");
    assert_eq!(failed(service.get_all(PeopleListCommand::new(None, user())), Event::Rows(Err(err()))), "Error getting people");
    assert_eq!(
        failed(service.get_by_user(PeopleListByUserCommand::new(id, None, user())), Event::Rows(Err(err()))),
        "Error getting people"
    );
}

#[test]
fn people_keys() {
    let service = PeopleService::new(true);
    let id = Uuid::from_bytes([0x21; 16]);
    assert_eq!(service.redis_key_ttl(), Some(3600));
    assert_eq!(service.form_redis_key_person(&id), "person:21212121-2121-2121-2121-212121212121");
    assert_eq!(service.form_redis_key_list_by_user(&id), "user:21212121-2121-2121-2121-212121212121:people");
}

// ---- locations ----

fn location_row(l: &Location) -> Row {
    let dec = |d: &Option<Decimal>| match d {
        Some(d) => SqlValue::Decimal(*d),
        None => SqlValue::Null,
    };
    Row {
        columns: vec![
            col("id", SqlValue::Bytes(l.id.clone().unwrap())),
            col("user_id", SqlValue::Bytes(l.user_id.clone())),
            col("name", SqlValue::Text(l.name.clone())),
            col("address", opt_text(&l.address)),
            col("city", opt_text(&l.city)),
            col("region", opt_text(&l.region)),
            col("postal_code", opt_text(&l.postal_code)),
            col("country_code", opt_text(&l.country_code)),
            col("latitude", dec(&l.latitude)),
            col("longitude", dec(&l.longitude)),
            col("archived", SqlValue::Bool(l.archived)),
            col("created_at", SqlValue::Null),
            col("updated_at", SqlValue::Null),
        ],
    }
}

fn home() -> LocationCreateCommand {
    LocationCreateCommand::new(
        LocationCreateRequest {
            location_name: "Home".to_string(),
            location_address: Some("1 Main St".to_string()),
            location_city: Some("Paris".to_string()),
            location_region: None,
            location_postal_code: Some("75001".to_string()),
            location_country_code: Some("FR".to_string()),
            location_latitude: Decimal::new(488566, 4),
            location_longitude: Decimal::new(23522, 4),
        },
        user(),
    )
}

#[test]
fn a_created_location_round_trips_through_a_store_that_keeps_it() {
    let service = LocationService::new(true);
    let mut cache = Cache::new();
    let mut actions = Vec::new();
    let mut stored = Location::from(home());
    stored.id = Some(vec![0x31; 16]);
    let row = location_row(&stored);
    let created = run(service.create(home()), &mut cache, &mut |_| Event::One(Ok(row.clone())), &mut actions);
    let expected = LocationResponse {
        location_id: Uuid::from_bytes([0x31; 16]),
        user_id: Uuid::from_bytes(OWNER),
        location_name: "Home".to_string(),
        location_address: Some("1 Main St".to_string()),
        location_city: Some("Paris".to_string()),
        location_region: None,
        location_postal_code: Some("75001".to_string()),
        location_country_code: Some("FR".to_string()),
        location_latitude: Decimal::new(488566, 4),
        location_longitude: Decimal::new(23522, 4),
        location_archived: false,
        location_created_at: None,
        location_updated_at: None,
    };
    assert_eq!(created, Outcome::Found(expected.clone()));
    assert_eq!(
        actions,
        vec![
            "CALL proc_location_create(?, ?, ?, ?, ?, ?, ?, ?, ?, ?, ?)",
            "SET location:31313131-3131-3131-3131-313131313131",
            "DEL user:aaaaaaaa-aaaa-aaaa-aaaa-aaaaaaaaaaaa:location",
        ]
    );
    assert_eq!(LocationResponse::from(stored.clone()), expected);
    assert_eq!(LocationResponse::from_ref(&stored), expected);
}

#[test]
fn a_location_listing_with_a_search_text_searches() {
    let service = LocationService::new(true);
    let search = PaginationRequest { page: Some(1), page_size: Some(10), search: Some("home".to_string()) };
    let step = service.get_all(LocationListCommand::new(Some(search), user()));
    match &step.action {
        Action::Call(call) => {
            assert_eq!(call.query, "CALL proc_location_search(?, ?, ?, ?)");
            assert_eq!(call.params[0], MySqlParam::String("home".to_string()));
            assert_eq!(call.params[1], MySqlParam::OptU32(Some(10)));
            assert_eq!(call.params[2], MySqlParam::OptU32(Some(0)));
        }
        other => panic!("expected a store call, found {other:?}"),
    }
    let plain = PaginationRequest { page: Some(3), page_size: Some(10), search: None };
    let step = service.get_all(LocationListCommand::new(Some(plain), user()));
    match &step.action {
        Action::Call(call) => {
            assert_eq!(call.query, "CALL proc_location_list(?, ?, ?)");
            assert_eq!(call.params[1], MySqlParam::OptU32(Some(20)));
        }
        other => panic!("expected a store call, found {other:?}"),
    }
}

#[test]
fn the_locations_of_a_user_are_cached_unless_searched() {
    let service = LocationService::new(true);
    let owner = Uuid::from_bytes(OWNER);
    let step = service.get_by_user(LocationListByUserCommand::new(owner, None, user()));
    assert_eq!(
        step.action,
        Action::CacheGet { key: "user:aaaaaaaa-aaaa-aaaa-aaaa-aaaaaaaaaaaa:location".to_string(), many: true }
    );
    let search = PaginationRequest { page: None, page_size: None, search: Some("par".to_string()) };
    let step = service.get_by_user(LocationListByUserCommand::new(owner, Some(search), user()));
    match &step.action {
        Action::Call(call) => assert_eq!(call.query, "CALL proc_location_search_by_user(?, ?, ?)"),
        other => panic!("expected a store call, found {other:?}"),
    }
    let step = step.flow.resume(Event::Rows(Ok(vec![])));
    assert_eq!(step.action, Action::Finish(Outcome::Listed(vec![])));
}

#[test]
fn location_updates_of_an_unknown_location_are_not_found() {
    let service = LocationService::new(true);
    let unknown = Uuid::from_bytes([0x55; 16]);
    let steps = vec![
        service.update_name(LocationUpdateNameCommand::new(unknown, LocationUpdateNameRequest { location_name: "x".to_string() }, user())),
        service.update(LocationUpdateCommand::new(
            unknown,
            LocationUpdateRequest {
                location_address: None,
                location_city: None,
                location_region: None,
                location_postal_code: None,
                location_country_code: None,
            },
            user(),
        )),
        service.update_lat_long(LocationUpdateLatLongCommand::new(unknown, None, None, user())),
        service.archived(LocationArchivedCommand::new(unknown, LocationUpdateArchivedRequest { location_archived: true }, user())),
    ];
    for step in steps {
        assert!(matches!(step.action, Action::Call(_)));
        let step = step.flow.resume(Event::Row(Ok(None)));
        assert_eq!(step.action, Action::Finish(Outcome::NotFound));
    }
}

#[test]
fn deleting_a_location_drops_it_and_the_owners_list() {
    let service = LocationService::new(true);
    let id = Uuid::from_bytes([0x31; 16]);
    let mut cache: Cache<LocationResponse> = Cache::new();
    let mut actions = Vec::new();
    let outcome = run(
        service.delete(LocationDeleteCommand::new(id, user())),
        &mut cache,
        &mut |_| Event::Executed(Ok(())),
        &mut actions,
    );
    assert_eq!(outcome, Outcome::Done);
    assert_eq!(
        actions,
        vec![
            "CALL proc_location_delete(?, ?)",
            "DEL location:31313131-3131-3131-3131-313131313131",
            "DEL user:aaaaaaaa-aaaa-aaaa-aaaa-aaaaaaaaaaaa:location",
        ]
    );
    let read = service.get(LocationGetCommand::new(id, user()));
    assert_eq!(
        read.action,
        Action::CacheGet { key: "location:31313131-3131-3131-3131-313131313131".to_string(), many: false }
    );
    assert_eq!(service.redis_key_ttl(), Some(3600));
    assert_eq!(service.form_redis_key_location(&id), "location:31313131-3131-3131-3131-313131313131");
    assert_eq!(service.form_redis_key_list_by_user(&id), "user:31313131-3131-3131-3131-313131313131:location");
}

#[test]
fn a_failed_location_delete_leaves_the_cache_as_it_was() {
    let service = LocationService::new(true);
    let id = Uuid::from_bytes([0x31; 16]);
    let mut stored = Location::from(home());
    stored.id = Some(vec![0x31; 16]);
    let cached = LocationResponse::from(stored);
    let mut cache: Cache<LocationResponse> = Cache::new();
    cache.insert("location:31313131-3131-3131-3131-313131313131".to_string(), Cached::One(cached.clone()));
    cache.insert(
        "user:aaaaaaaa-aaaa-aaaa-aaaa-aaaaaaaaaaaa:location".to_string(),
        Cached::Many(vec![cached.clone()]),
    );
    let before = cache.clone();
    let mut actions = Vec::new();
    let outcome = run(
        service.delete(LocationDeleteCommand::new(id, user())),
        &mut cache,
        &mut |_| Event::Executed(Err("foreign key constraint fails".to_string())),
        &mut actions,
    );
    assert_eq!(
        outcome,
        Outcome::Failed(ServiceError::Repository("Error deleting location".to_string()))
    );
    assert_eq!(actions, vec!["CALL proc_location_delete(?, ?)"]);
    assert_eq!(cache, before);
}

#[test]
fn a_failing_cache_read_gives_the_text_of_the_operation_whatever_the_cause() {
    let service = LocationService::new(true);
    let id = Uuid::from_bytes([0x31; 16]);
    let failed = |cause: &str| {
        service
            .get(LocationGetCommand::new(id, user()))
            .flow
            .resume(Event::Cached(Err(cause.to_string())))
            .action
    };
    let refused = failed("connection refused");
    let timed_out = failed("timed out after 30s");
    assert_eq!(refused, timed_out);
    assert_eq!(
        refused,
        Action::Finish(Outcome::Failed(ServiceError::Cache("Error from repository".to_string())))
    );
}

#[test]
fn twenty_five_locations_are_listed_on_two_pages() {
    let service = LocationService::new(true);
    let rows: Vec<Row> = (0u8..25)
        .map(|i| {
            let mut stored = Location::from(home());
            stored.id = Some(vec![i; 16]);
            location_row(&stored)
        })
        .collect();
    let mut store = |call: &ProcedureCall| -> Event<LocationResponse> {
        assert_eq!(call.query, "CALL proc_location_list(?, ?, ?)");
        let limit = opt_u32_param(&call.params[0]).unwrap() as usize;
        let offset = opt_u32_param(&call.params[1]).unwrap() as usize;
        Event::Rows(Ok(rows.iter().skip(offset).take(limit).cloned().collect()))
    };
    let page = |n: u32| {
        LocationListCommand::new(
            Some(PaginationRequest { page: Some(n), page_size: Some(20), search: None }),
            user(),
        )
    };
    let mut cache = Cache::new();
    let mut actions = Vec::new();
    let ids = |outcome: Outcome<LocationResponse>| -> Vec<Uuid> {
        match outcome {
            Outcome::Listed(all) => all.iter().map(|l| l.location_id).collect(),
            other => panic!("expected a list, found {other:?}"),
        }
    };
    let r1 = ids(run(service.get_all(page(1)), &mut cache, &mut store, &mut actions));
    let r2 = ids(run(service.get_all(page(2)), &mut cache, &mut store, &mut actions));
    assert_eq!(r1.len(), 20);
    assert_eq!(r2.len(), 5);
    let mut all: Vec<[u8; 16]> = r1.iter().chain(r2.iter()).map(|id| *id.as_bytes()).collect();
    all.sort();
    let expected: Vec<[u8; 16]> = (0u8..25).map(|i| [i; 16]).collect();
    assert_eq!(all, expected);
}
