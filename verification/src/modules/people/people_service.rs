//! The operations on contacts.
//!
//! A contact belongs to the user who created it. Single contacts and each
//! owner's list are cached; paged listings are not.

use vstd::prelude::*;
use vstd::string::StringExecFns;
use crate::modules::people::people_command::{
    PeopleArchivedCommand,
    PeopleCreateCommand,
    PeopleDeleteCommand,
    PeopleGetCommand,
    PeopleListByUserCommand,
    PeopleListCommand,
    PeopleUpdateCommand,
    PeopleUpdateImageCommand,
};
use crate::modules::people::people_dto::{
    PeopleResponse,
    PeopleResponseView,
    lemma_person_key_is_no_list_key,
    people_list_cache_key,
    people_list_key,
    person_key,
};
use crate::modules::people::people_model::{People, PeopleView};
use crate::modules::people::people_repo::{
    PeopleRepository,
    PeopleRepositoryInterface,
    people_archived_call,
    people_create_call,
    people_delete_call,
    people_get_all_call,
    people_get_by_user_call,
    people_get_call,
    people_update_call,
    people_update_image_call,
};
use crate::shared::cache_aside::{
    CACHE_TTL_SECONDS,
    CachedView,
    EventView,
    OutcomeView,
    Plan,
    PlanView,
    Response,
    delete_plan,
    read_plan,
    uncached_plan,
    write_plan,
};
use crate::shared::cache_model::{
    Run,
    cache_reply,
    created_is_read_back,
    delete_is_seen_by_read,
    deleted_is_not_found,
    read_fuel,
    run,
    write_is_seen_by_read,
};
use crate::shared::crud_repository::ProcedureCallView;
use crate::shared::db::mysql::{FromSqlRow, column_index};
use crate::shared::db::param::stored_value;
use crate::shared::db::row::{ColumnView, MappingErrorView, SqlValueView, cell, instant_value};
use crate::shared::ids::Uuid;
use crate::shared::response::PaginationRequest;
use crate::shared::service::{Flow, Step, advance, begin, call_store};
use crate::shared::temporal::DateTimeUtc;
use crate::shared::utils::{extract_pagination_data, limit_of, offset_fits, offset_param};

verus! {

/// The plan that reads the contact `id`.
pub open spec fn get_person_plan(cached: bool, id: Seq<u8>, user: Seq<u8>) -> PlanView {
    read_plan(people_get_call(id, Some(user)), person_key(id), cached, "Error from repository"@)
}

/// The plan that creates `people`.
pub open spec fn create_person_plan(cached: bool, people: PeopleView, user: Seq<u8>) -> PlanView {
    write_plan(people_create_call(people, Some(user)), cached, "Error creating person"@)
}

/// The plan that changes the picture of the contact `id`.
pub open spec fn update_person_image_plan(
    cached: bool,
    id: Seq<u8>,
    image_url: Option<Seq<char>>,
    user: Seq<u8>,
) -> PlanView {
    write_plan(
        people_update_image_call(id, image_url, Some(user)),
        cached,
        "Error from repository"@,
    )
}

/// The plan that changes the name and details of the contact `id`.
pub open spec fn update_person_plan(
    cached: bool,
    id: Seq<u8>,
    name: Seq<char>,
    email: Option<Seq<char>>,
    phone: Option<Seq<char>>,
    note: Option<Seq<char>>,
    user: Seq<u8>,
) -> PlanView {
    write_plan(
        people_update_call(id, name, email, phone, note, Some(user)),
        cached,
        "Error from repository"@,
    )
}

/// The plan that archives the contact `id` or brings it back.
pub open spec fn archive_person_plan(cached: bool, id: Seq<u8>, archived: bool, user: Seq<u8>)
    -> PlanView {
    write_plan(people_archived_call(id, archived, Some(user)), cached, "Error from repository"@)
}

/// The plan that deletes the contact `id`. A contact is addressed only by
/// the user that owns it, so the acting user is its owner: once the store
/// has carried the delete out, the contact's own entry and that owner's
/// list of contacts leave the cache.
pub open spec fn delete_person_plan(cached: bool, id: Seq<u8>, user: Seq<u8>) -> PlanView {
    delete_plan(
        people_delete_call(id, Some(user)),
        seq![person_key(id), people_list_key(user)],
        cached,
        "Error deleting person"@,
    )
}

/// The plan that lists contacts page by page. The listing is never cached.
pub open spec fn list_people_plan(pagination: Option<PaginationRequest>, user: Seq<u8>)
    -> PlanView {
    uncached_plan(
        people_get_all_call(limit_of(pagination), offset_param(pagination), Some(user)),
        "Error getting people"@,
    )
}

/// The plan that lists the contacts that `owner` owns.
pub open spec fn list_people_by_user_plan(cached: bool, owner: Seq<u8>, user: Seq<u8>)
    -> PlanView {
    read_plan(
        people_get_by_user_call(owner, Some(user)),
        people_list_key(owner),
        cached,
        "Error getting people"@,
    )
}

/// The operations on contacts.
pub trait PeopleInterface {
    /// Whether a cache is configured.
    spec fn caches(&self) -> bool;

    /// Reads one contact, through the cache.
    fn get(&self, command: PeopleGetCommand) -> (step: Step<PeopleResponse>)
        ensures
            step.deep_view() == begin::<PeopleResponseView>(
                get_person_plan(self.caches(), command.people_id@, command.auth_user.user_id@),
            ),
    ;

    /// Creates a contact and caches what the store answered.
    fn create(&self, command: PeopleCreateCommand) -> (step: Step<PeopleResponse>)
        ensures
            step.deep_view() == begin::<PeopleResponseView>(
                create_person_plan(
                    self.caches(),
                    PeopleView {
                        id: None,
                        user_id: command.user_id@,
                        name: command.people_name@,
                        email: command.people_email.deep_view(),
                        phone: command.people_phone.deep_view(),
                        image_url: command.people_image_url.deep_view(),
                        note: command.people_note.deep_view(),
                        archived: false,
                        created_at: None,
                        updated_at: None,
                    },
                    command.auth_user.user_id@,
                ),
            ),
    ;

    /// Changes the picture of a contact; not found where there is no such
    /// contact.
    fn update_image(&self, command: PeopleUpdateImageCommand) -> (step: Step<PeopleResponse>)
        ensures
            step.deep_view() == begin::<PeopleResponseView>(
                update_person_image_plan(
                    self.caches(),
                    command.people_id@,
                    command.people_image_url.deep_view(),
                    command.auth_user.user_id@,
                ),
            ),
    ;

    /// Changes the name and details of a contact; not found where there is
    /// no such contact.
    fn update(&self, command: PeopleUpdateCommand) -> (step: Step<PeopleResponse>)
        ensures
            step.deep_view() == begin::<PeopleResponseView>(
                update_person_plan(
                    self.caches(),
                    command.people_id@,
                    command.people_name@,
                    command.people_email.deep_view(),
                    command.people_phone.deep_view(),
                    command.people_note.deep_view(),
                    command.auth_user.user_id@,
                ),
            ),
    ;

    /// Archives a contact or brings it back; not found where there is no
    /// such contact. An archived contact can still be read.
    fn archived(&self, command: PeopleArchivedCommand) -> (step: Step<PeopleResponse>)
        ensures
            step.deep_view() == begin::<PeopleResponseView>(
                archive_person_plan(
                    self.caches(),
                    command.people_id@,
                    command.people_archived,
                    command.auth_user.user_id@,
                ),
            ),
    ;

    /// Deletes a contact and drops it from the cache.
    fn delete(&self, command: PeopleDeleteCommand) -> (step: Step<PeopleResponse>)
        ensures
            step.deep_view() == begin::<PeopleResponseView>(
                delete_person_plan(self.caches(), command.people_id@, command.auth_user.user_id@),
            ),
    ;

    /// Lists contacts page by page, straight from the store.
    fn get_all(&self, command: PeopleListCommand) -> (step: Step<PeopleResponse>)
        requires
            offset_fits(command.pagination),
        ensures
            step.deep_view() == begin::<PeopleResponseView>(
                list_people_plan(command.pagination, command.auth_user.user_id@),
            ),
    ;

    /// Lists the contacts of one user, through the cache.
    fn get_by_user(&self, command: PeopleListByUserCommand) -> (step: Step<PeopleResponse>)
        ensures
            step.deep_view() == begin::<PeopleResponseView>(
                list_people_by_user_plan(
                    self.caches(),
                    command.user_id@,
                    command.auth_user.user_id@,
                ),
            ),
    ;
}

/// The people service: its repository, and whether a cache is configured.
#[derive(Debug, Clone, Copy, PartialEq, Eq)]
pub struct PeopleService {
    pub people_repo: PeopleRepository,
    pub cache: bool,
}

impl PeopleService {
    /// The service, with or without a cache.
    pub fn new(cache: bool) -> (service: Self)
        ensures
            service.cache == cache,
    {
        PeopleService { people_repo: PeopleRepository {  }, cache }
    }

    /// The lifetime of a cached contact, in seconds.
    pub fn redis_key_ttl(&self) -> (ttl: Option<u64>)
        ensures
            ttl == Some(CACHE_TTL_SECONDS),
    {
        Some(CACHE_TTL_SECONDS)
    }

    /// The cache key of the contact `key`.
    pub fn form_redis_key_person(&self, key: &Uuid) -> (text: String)
        ensures
            text@ == person_key(key@),
    {
        let mut text = String::from_str("person:");
        text.append(key.to_string().as_str());
        text
    }

    /// The cache key of the list of the contacts that `user` owns.
    pub fn form_redis_key_list_by_user(&self, user: &Uuid) -> (text: String)
        ensures
            text@ == people_list_key(user@),
    {
        people_list_cache_key(user)
    }
}

impl PeopleInterface for PeopleService {
    open spec fn caches(&self) -> bool {
        self.cache
    }

    fn get(&self, command: PeopleGetCommand) -> (step: Step<PeopleResponse>) {
        let key = self.form_redis_key_person(&command.people_id);
        let call = self.people_repo.get(command.people_id, Some(command.auth_user.user_id));
        Flow::start(Plan::read(call, key, self.cache, "Error from repository"))
    }

    fn create(&self, command: PeopleCreateCommand) -> (step: Step<PeopleResponse>) {
        let meta_user = command.auth_user.user_id;
        let person_create = People::from(command);
        let call = self.people_repo.create(person_create, Some(meta_user));
        Flow::start(Plan::write(call, self.cache, "Error creating person"))
    }

    fn update_image(&self, command: PeopleUpdateImageCommand) -> (step: Step<PeopleResponse>) {
        let call = self.people_repo.update_image(
            command.people_id,
            command.people_image_url,
            Some(command.auth_user.user_id),
        );
        Flow::start(Plan::write(call, self.cache, "Error from repository"))
    }

    fn update(&self, command: PeopleUpdateCommand) -> (step: Step<PeopleResponse>) {
        let call = self.people_repo.update(
            command.people_id,
            command.people_name,
            command.people_email,
            command.people_phone,
            command.people_note,
            Some(command.auth_user.user_id),
        );
        Flow::start(Plan::write(call, self.cache, "Error from repository"))
    }

    fn archived(&self, command: PeopleArchivedCommand) -> (step: Step<PeopleResponse>) {
        let call = self.people_repo.archived(
            command.people_id,
            command.people_archived,
            Some(command.auth_user.user_id),
        );
        Flow::start(Plan::write(call, self.cache, "Error from repository"))
    }

    fn delete(&self, command: PeopleDeleteCommand) -> (step: Step<PeopleResponse>) {
        let mut keys: Vec<String> = Vec::new();
        keys.push(self.form_redis_key_person(&command.people_id));
        keys.push(self.form_redis_key_list_by_user(&command.auth_user.user_id));
        assert(keys.deep_view() =~= seq![
            person_key(command.people_id@),
            people_list_key(command.auth_user.user_id@),
        ]);
        let call = self.people_repo.delete(command.people_id, Some(command.auth_user.user_id));
        Flow::start(Plan::delete(call, keys, self.cache, "Error deleting person"))
    }

    fn get_all(&self, command: PeopleListCommand) -> (step: Step<PeopleResponse>) {
        let (limit, offset, _) = extract_pagination_data(command.pagination);
        let call = self.people_repo.get_all(limit, offset, Some(command.auth_user.user_id));
        Flow::start(Plan::uncached(call, "Error getting people"))
    }

    fn get_by_user(&self, command: PeopleListByUserCommand) -> (step: Step<PeopleResponse>) {
        let key = self.form_redis_key_list_by_user(&command.user_id);
        let call = self.people_repo.get_by_user(command.user_id, Some(command.auth_user.user_id));
        Flow::start(Plan::read(call, key, self.cache, "Error getting people"))
    }
}

/// Whether `row`, read through `index`, holds the contact as a store that
/// keeps what it is given holds it: every column that the create call bound
/// holds what was bound, and the rest holds what the store assigned.
pub open spec fn keeps_person(
    people: PeopleView,
    meta_user: Option<Seq<u8>>,
    row: Seq<ColumnView>,
    index: Map<Seq<char>, usize>,
    id: Seq<u8>,
    created_at: Option<DateTimeUtc>,
    updated_at: Option<DateTimeUtc>,
) -> bool {
    &&& cell(row, index, "user_id"@) == Some(
        stored_value(people_create_call(people, meta_user).params[0]),
    )
    &&& cell(row, index, "name"@) == Some(
        stored_value(people_create_call(people, meta_user).params[1]),
    )
    &&& cell(row, index, "email"@) == Some(
        stored_value(people_create_call(people, meta_user).params[2]),
    )
    &&& cell(row, index, "phone"@) == Some(
        stored_value(people_create_call(people, meta_user).params[3]),
    )
    &&& cell(row, index, "image_url"@) == Some(
        stored_value(people_create_call(people, meta_user).params[4]),
    )
    &&& cell(row, index, "note"@) == Some(
        stored_value(people_create_call(people, meta_user).params[5]),
    )
    &&& cell(row, index, "archived"@) == Some(
        stored_value(people_create_call(people, meta_user).params[6]),
    )
    &&& cell(row, index, "id"@) == Some(SqlValueView::Bytes(id))
    &&& cell(row, index, "created_at"@) == Some(instant_value(created_at))
    &&& cell(row, index, "updated_at"@) == Some(instant_value(updated_at))
}

/// What a store keeps of a created contact comes back to the caller.
///
/// Where the row that is read holds, column by column, what the create call
/// bound, together with the identity and the times that the store assigned,
/// reading it gives the contact that was asked for, and the response shows
/// every field the caller set.
pub proof fn person_round_trip(
    people: PeopleView,
    meta_user: Option<Seq<u8>>,
    row: Seq<ColumnView>,
    index: Map<Seq<char>, usize>,
    id: Seq<u8>,
    created_at: Option<DateTimeUtc>,
    updated_at: Option<DateTimeUtc>,
)
    requires
        people.user_id.len() == 16,
        id.len() == 16,
        keeps_person(people, meta_user, row, index, id, created_at, updated_at),
    ensures
        <People as FromSqlRow>::row_model(row, index) == Ok::<PeopleView, MappingErrorView>(
            PeopleView { id: Some(id), created_at, updated_at, ..people },
        ),
        <PeopleResponse as Response>::of_entity(
            PeopleView { id: Some(id), created_at, updated_at, ..people },
        ) == Ok::<
            PeopleResponseView,
            MappingErrorView,
        >(PeopleResponse::of(
            PeopleView { id: Some(id), created_at, updated_at, ..people },
            id,
            people.user_id,
        )),
{
}

/// Create, then get, for a contact.
///
/// The store keeps what it is given: it answers the create with a row that
/// holds what the call bound, under the identity and the times it assigned,
/// and, nothing else having written since, it answers the read of that
/// contact with the same row. Then the create shows the contact with every
/// field as it was asked for, and the read that follows shows that same
/// contact, with or without a cache.
pub proof fn created_person_is_read_back(
    cached: bool,
    people: PeopleView,
    actor: Seq<u8>,
    reader: Seq<u8>,
    row: Seq<ColumnView>,
    id: Seq<u8>,
    created_at: Option<DateTimeUtc>,
    updated_at: Option<DateTimeUtc>,
    cache: Map<Seq<char>, CachedView<PeopleResponseView>>,
    store: spec_fn(ProcedureCallView) -> EventView<PeopleResponseView>,
)
    requires
        people.user_id.len() == 16,
        id.len() == 16,
        keeps_person(people, Some(actor), row, column_index(row), id, created_at, updated_at),
        store(people_create_call(people, Some(actor))) == EventView::<PeopleResponseView>::One(
            Ok(row),
        ),
        store(people_get_call(id, Some(reader))) == EventView::<PeopleResponseView>::Row(
            Ok(Some(row)),
        ),
    ensures
        ({
            let shown = PeopleResponse::of(
                PeopleView { id: Some(id), created_at, updated_at, ..people },
                id,
                people.user_id,
            );
            let created = run::<PeopleResponse>(
                begin(create_person_plan(cached, people, actor)),
                cache,
                store,
                Seq::empty(),
                3,
            );
            let got = run::<PeopleResponse>(
                begin(get_person_plan(cached, id, reader)),
                created->Some_0.cache,
                store,
                Seq::empty(),
                read_fuel(),
            );
            &&& created is Some
            &&& created->Some_0.outcome == OutcomeView::Found(shown)
            &&& got is Some
            &&& got->Some_0.outcome == OutcomeView::Found(shown)
            &&& shown.people_id == id
            &&& shown.user_id == people.user_id
            &&& shown.people_name == people.name
            &&& shown.people_email == people.email
            &&& shown.people_phone == people.phone
            &&& shown.people_image_url == people.image_url
            &&& shown.people_note == people.note
            &&& shown.people_archived == people.archived
        }),
{
    person_round_trip(people, Some(actor), row, column_index(row), id, created_at, updated_at);
    lemma_person_key_is_no_list_key(id, people.user_id);
    created_is_read_back::<PeopleResponse>(
        create_person_plan(cached, people, actor),
        get_person_plan(cached, id, reader),
        row,
        PeopleResponse::of(
            PeopleView { id: Some(id), created_at, updated_at, ..people },
            id,
            people.user_id,
        ),
        cache,
        store,
        3,
    );
}

/// Archiving is not deleting: after a contact was archived or brought back,
/// reading it still gives the contact, in the state the store answered,
/// from the cache and without a store call.
pub proof fn archived_person_is_still_read(
    id: Seq<u8>,
    archived: bool,
    user: Seq<u8>,
    reader: Seq<u8>,
    cache: Map<Seq<char>, CachedView<PeopleResponseView>>,
    store: spec_fn(ProcedureCallView) -> EventView<PeopleResponseView>,
    later_store: spec_fn(ProcedureCallView) -> EventView<PeopleResponseView>,
    fuel: nat,
)
    requires
        run::<PeopleResponse>(
            begin(archive_person_plan(true, id, archived, user)),
            cache,
            store,
            Seq::empty(),
            fuel,
        ) matches Some(done) && done.outcome matches OutcomeView::Found(person) && person.people_id
            == id,
    ensures
        ({
            let done = run::<PeopleResponse>(
                begin(archive_person_plan(true, id, archived, user)),
                cache,
                store,
                Seq::empty(),
                fuel,
            )->Some_0;
            run::<PeopleResponse>(
                begin(get_person_plan(true, id, reader)),
                done.cache,
                later_store,
                Seq::empty(),
                read_fuel(),
            ) == Some(Run { outcome: done.outcome, cache: done.cache, calls: Seq::empty() })
        }),
{
    let write = archive_person_plan(true, id, archived, user);
    let read = get_person_plan(true, id, reader);
    let done = run::<PeopleResponse>(begin(write), cache, store, Seq::empty(), fuel)->Some_0;
    let person = done.outcome->Found_0;
    lemma_person_key_is_no_list_key(person.people_id, person.user_id);
    write_is_seen_by_read::<PeopleResponse>(write, read, cache, store, later_store, fuel);
}

/// Only deleting takes a contact out of the cache: after a delete that the
/// store carried out, reading the contact misses the cache and asks the
/// store.
pub proof fn deleted_person_is_read_from_store(
    id: Seq<u8>,
    user: Seq<u8>,
    reader: Seq<u8>,
    cache: Map<Seq<char>, CachedView<PeopleResponseView>>,
    store: spec_fn(ProcedureCallView) -> EventView<PeopleResponseView>,
    fuel: nat,
)
    requires
        store(people_delete_call(id, Some(user))) == EventView::<PeopleResponseView>::Executed(
            Ok(()),
        ),
        run::<PeopleResponse>(
            begin(delete_person_plan(true, id, user)),
            cache,
            store,
            Seq::empty(),
            fuel,
        ) is Some,
    ensures
        ({
            let done = run::<PeopleResponse>(
                begin(delete_person_plan(true, id, user)),
                cache,
                store,
                Seq::empty(),
                fuel,
            )->Some_0;
            let read = get_person_plan(true, id, reader);
            &&& !done.cache.dom().contains(person_key(id))
            &&& advance::<PeopleResponse>(
                begin::<PeopleResponseView>(read).flow,
                cache_reply(done.cache, begin::<PeopleResponseView>(read).action),
            ) == call_store::<PeopleResponseView>(read)
        }),
{
    let delete = delete_person_plan(true, id, user);
    let keys = seq![person_key(id), people_list_key(user)];
    assert(keys[0] == person_key(id));
    delete_is_seen_by_read::<PeopleResponse>(
        delete,
        keys,
        get_person_plan(true, id, reader),
        person_key(id),
        cache,
        store,
        fuel,
    );
}

/// Delete, then get, for a contact: once the store has carried the delete
/// out and no longer holds the contact, reading the contact ends as not
/// found, also where the cache held it before the delete.
pub proof fn deleted_person_is_not_found(
    id: Seq<u8>,
    user: Seq<u8>,
    reader: Seq<u8>,
    cache: Map<Seq<char>, CachedView<PeopleResponseView>>,
    store: spec_fn(ProcedureCallView) -> EventView<PeopleResponseView>,
    later_store: spec_fn(ProcedureCallView) -> EventView<PeopleResponseView>,
)
    requires
        store(people_delete_call(id, Some(user))) == EventView::<PeopleResponseView>::Executed(
            Ok(()),
        ),
        later_store(people_get_call(id, Some(reader))) == EventView::<PeopleResponseView>::Row(
            Ok(None),
        ),
    ensures
        ({
            let deleted = run::<PeopleResponse>(
                begin(delete_person_plan(true, id, user)),
                cache,
                store,
                Seq::empty(),
                3,
            );
            &&& deleted is Some
            &&& deleted->Some_0.outcome == OutcomeView::<PeopleResponseView>::Done
            &&& run::<PeopleResponse>(
                begin(get_person_plan(true, id, reader)),
                deleted->Some_0.cache,
                later_store,
                Seq::empty(),
                read_fuel(),
            ) == Some(
                Run {
                    outcome: OutcomeView::<PeopleResponseView>::NotFound,
                    cache: deleted->Some_0.cache,
                    calls: seq![people_get_call(id, Some(reader))],
                },
            )
        }),
{
    let keys = seq![person_key(id), people_list_key(user)];
    assert(keys[0] == person_key(id));
    deleted_is_not_found::<PeopleResponse>(
        delete_person_plan(true, id, user),
        keys,
        get_person_plan(true, id, reader),
        person_key(id),
        cache,
        store,
        later_store,
        3,
    );
}

} // verus!
