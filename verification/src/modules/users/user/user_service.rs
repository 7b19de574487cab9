//! The operations on users.
//!
//! Users are global. Single users are cached; listings are not. A password
//! is changed only by whoever knows the old one.

use vstd::prelude::*;
use vstd::string::StringExecFns;
use vstd::utf8::encode_utf8;
use crate::modules::users::user::user_command::{
    UserCreateCommand,
    UserDeleteCommand,
    UserGetCommand,
    UserListCommand,
    UserUpdateBaseCurrencyCommand,
    UserUpdateNameCommand,
    UserUpdatePasswordCommand,
};
use crate::modules::users::user::user_dto::{UserResponse, UserResponseView, user_key};
use crate::modules::users::user::user_model::{
    INITIAL_PASSWORD_LENGTH,
    User,
    UserRole,
    UserView,
    role_named,
    role_text,
};
use crate::modules::users::user::user_repo::{
    UserRepository,
    UserRepositoryInterface,
    user_create_call,
    user_delete_call,
    user_get_all_call,
    user_get_call,
    user_update_base_currency_call,
    user_update_name_call,
    user_update_password_call,
};
use crate::shared::auth::password::{
    argon2_verification,
    is_generated_password,
    verdict,
    verify_password,
};
use crate::shared::cache_aside::{
    Action,
    ActionView,
    CACHE_TTL_SECONDS,
    CachedView,
    Event,
    EventView,
    Outcome,
    OutcomeView,
    Plan,
    PlanView,
    Response,
    ServiceError,
    ServiceErrorView,
    delete_plan,
    read_plan,
    uncached_plan,
    write_plan,
};
use crate::shared::cache_model::{created_is_read_back, read_fuel, run};
use crate::shared::crud_repository::ProcedureCallView;
use crate::shared::db::mysql::{FromSqlRow, GenericRepository, column_index, optional_model};
use crate::shared::db::param::stored_value;
use crate::shared::db::row::{ColumnView, MappingErrorView, SqlValueView, cell, instant_value};
use crate::shared::ids::Uuid;
use crate::shared::response::PaginationRequest;
use crate::shared::service::{Flow, FlowView, Stage, Step, StepView, advance, begin, finish};
use crate::shared::temporal::DateTimeUtc;
use crate::shared::utils::{extract_pagination_data, limit_of, offset_fits, offset_param};

verus! {

/// The plan that reads the user `id`.
pub open spec fn get_user_plan(cached: bool, id: Seq<u8>, user: Seq<u8>) -> PlanView {
    read_plan(user_get_call(id, Some(user)), user_key(id), cached, "Error during getting user"@)
}

/// The plan that creates `account`.
pub open spec fn create_user_plan(cached: bool, account: UserView, user: Seq<u8>) -> PlanView {
    write_plan(user_create_call(account, Some(user)), cached, "Error during creating user"@)
}

/// The plan that replaces the stored password of the user `id`, once the old
/// password is known to be right.
pub open spec fn update_user_password_plan(
    cached: bool,
    id: Seq<u8>,
    password: Seq<char>,
    user: Seq<u8>,
) -> PlanView {
    write_plan(
        user_update_password_call(id, password, Some(user)),
        cached,
        "Error during updating user"@,
    )
}

/// The plan that changes the names of the user `id`.
pub open spec fn update_user_name_plan(
    cached: bool,
    id: Seq<u8>,
    first_name: Seq<char>,
    last_name: Seq<char>,
    user: Seq<u8>,
) -> PlanView {
    write_plan(
        user_update_name_call(id, first_name, last_name, Some(user)),
        cached,
        "Error during updating user name"@,
    )
}

/// The plan that changes the base currency of the user `id`.
pub open spec fn update_user_base_currency_plan(
    cached: bool,
    id: Seq<u8>,
    base_currency: Seq<char>,
    user: Seq<u8>,
) -> PlanView {
    write_plan(
        user_update_base_currency_call(id, base_currency, Some(user)),
        cached,
        "Error during updating user base currency"@,
    )
}

/// The plan that deletes the user `id`: its entry leaves the cache.
pub open spec fn delete_user_plan(cached: bool, id: Seq<u8>, user: Seq<u8>) -> PlanView {
    delete_plan(
        user_delete_call(id, Some(user)),
        seq![user_key(id)],
        cached,
        "Error during deleting user"@,
    )
}

/// The plan that lists users page by page. The listing is never cached.
pub open spec fn list_users_plan(pagination: Option<PaginationRequest>, user: Seq<u8>) -> PlanView {
    uncached_plan(
        user_get_all_call(limit_of(pagination), offset_param(pagination), Some(user)),
        "Error getting users"@,
    )
}

/// A change of password: the user is read first, the old password is
/// checked against the stored hash, and only then is the new one written.
#[derive(Debug, PartialEq, Eq)]
pub enum PasswordChange {
    /// The user was asked for; `old_password` is checked against what comes
    /// back, `plan` writes the new password.
    Reading { old_password: String, plan: Plan },
    /// The old password was right; the update is under way.
    Writing(Flow<UserResponse>),
}

/// What a [`PasswordChange`] stands for.
pub enum PasswordChangeView {
    Reading { old_password: Seq<char>, plan: PlanView },
    Writing(FlowView<UserResponseView>),
}

impl DeepView for PasswordChange {
    type V = PasswordChangeView;

    open spec fn deep_view(&self) -> PasswordChangeView {
        match *self {
            PasswordChange::Reading { old_password, plan } => PasswordChangeView::Reading {
                old_password: old_password@,
                plan: plan@,
            },
            PasswordChange::Writing(flow) => PasswordChangeView::Writing(flow.deep_view()),
        }
    }
}

/// One step of a [`PasswordChange`].
#[derive(Debug, PartialEq, Eq)]
pub struct PasswordChangeStep {
    pub flow: PasswordChange,
    pub action: Action<UserResponse>,
}

/// What a [`PasswordChangeStep`] stands for.
pub struct PasswordChangeStepView {
    pub flow: PasswordChangeView,
    pub action: ActionView<UserResponseView>,
}

impl DeepView for PasswordChangeStep {
    type V = PasswordChangeStepView;

    open spec fn deep_view(&self) -> PasswordChangeStepView {
        PasswordChangeStepView { flow: self.flow.deep_view(), action: self.action.deep_view() }
    }
}

/// A step of the update, as a step of the change of password.
pub open spec fn writing(step: StepView<UserResponseView>) -> PasswordChangeStepView {
    PasswordChangeStepView { flow: PasswordChangeView::Writing(step.flow), action: step.action }
}

/// The step that ends a change of password before anything was written.
pub open spec fn turn_down(plan: PlanView, outcome: OutcomeView<UserResponseView>)
    -> PasswordChangeStepView {
    writing(finish(plan, outcome))
}

/// The first step of the change of password of the user `id`: the user is
/// read straight from the store.
pub open spec fn begin_password_change(
    cached: bool,
    id: Seq<u8>,
    old_password: Seq<char>,
    new_password: Seq<char>,
    user: Seq<u8>,
) -> PasswordChangeStepView {
    PasswordChangeStepView {
        flow: PasswordChangeView::Reading {
            old_password,
            plan: update_user_password_plan(cached, id, new_password, user),
        },
        action: ActionView::Call(user_get_call(id, Some(user))),
    }
}

/// What the stored user means for a change of password: none where the new
/// password may be written.
pub open spec fn password_refusal(old_password: Seq<char>, answer: Result<
    Option<Seq<ColumnView>>,
    Seq<char>,
>) -> Option<OutcomeView<UserResponseView>> {
    match optional_model::<User>(answer) {
        Err(_) => Some(
            OutcomeView::Failed(
                ServiceErrorView::Repository("Error during updating user password"@),
            ),
        ),
        Ok(None) => Some(OutcomeView::NotFound),
        Ok(Some(user)) => match verdict(
            argon2_verification(encode_utf8(old_password), user.password_hash),
        ) {
            Err(_) => Some(OutcomeView::Failed(ServiceErrorView::Validation("Invalid password"@))),
            Ok(false) => Some(
                OutcomeView::Failed(ServiceErrorView::Validation("Password don't match"@)),
            ),
            Ok(true) => None,
        },
    }
}

/// The step a change of password takes when `event` arrives.
///
/// The new password is written only where the user exists and the old
/// password matches the stored hash. A user that does not exist ends the
/// change as not found; a wrong old password turns it down.
pub open spec fn advance_password_change(
    flow: PasswordChangeView,
    event: EventView<UserResponseView>,
) -> PasswordChangeStepView {
    match flow {
        PasswordChangeView::Reading { old_password, plan } => match event {
            EventView::Row(answer) => match password_refusal(old_password, answer) {
                Some(outcome) => turn_down(plan, outcome),
                None => writing(begin(plan)),
            },
            _ => turn_down(plan, OutcomeView::Failed(ServiceErrorView::Protocol)),
        },
        PasswordChangeView::Writing(flow) => writing(advance::<UserResponse>(flow, event)),
    }
}

impl PasswordChange {
    /// A step of the update, as a step of the change of password.
    fn writing(step: Step<UserResponse>) -> (r: PasswordChangeStep)
        ensures
            r.deep_view() == writing(step.deep_view()),
    {
        PasswordChangeStep { flow: PasswordChange::Writing(step.flow), action: step.action }
    }

    /// Ends the change before anything was written.
    fn turn_down(plan: Plan, outcome: Outcome<UserResponse>) -> (r: PasswordChangeStep)
        ensures
            r.deep_view() == turn_down(plan@, outcome.deep_view()),
    {
        PasswordChangeStep {
            flow: PasswordChange::Writing(Flow { plan, stage: Stage::Finished }),
            action: Action::Finish(outcome),
        }
    }

    /// What the stored user means for the change.
    fn refusal(
        old_password: &String,
        answer: Result<Option<crate::shared::db::row::Row>, String>,
    ) -> (r:
        Option<Outcome<UserResponse>>)
        ensures
            r.deep_view() == password_refusal(
                old_password@,
                crate::shared::db::row::outcome(answer),
            ),
    {
        let repository = UserRepository {  };
        let parsed: Result<Option<User>, _> = repository.parse_entity_from_option_result_sql(
            answer,
        );
        match parsed {
            Err(_) => Some(
                Outcome::Failed(
                    ServiceError::Repository(
                        String::from_str("Error during updating user password"),
                    ),
                ),
            ),
            Ok(None) => Some(Outcome::NotFound),
            Ok(Some(old_user)) => match verify_password(
                old_password.as_str().as_bytes(),
                old_user.password_hash.as_str(),
            ) {
                Err(_) => Some(
                    Outcome::Failed(ServiceError::Validation(String::from_str("Invalid password"))),
                ),
                Ok(false) => Some(
                    Outcome::Failed(
                        ServiceError::Validation(String::from_str("Password don't match")),
                    ),
                ),
                Ok(true) => None,
            },
        }
    }

    /// Takes the step that `event` calls for.
    pub fn resume(self, event: Event<UserResponse>) -> (step: PasswordChangeStep)
        ensures
            step.deep_view() == advance_password_change(self.deep_view(), event.deep_view()),
    {
        match self {
            PasswordChange::Reading { old_password, plan } => match event {
                Event::Row(answer) => match Self::refusal(&old_password, answer) {
                    Some(outcome) => Self::turn_down(plan, outcome),
                    None => Self::writing(Flow::start(plan)),
                },
                _ => Self::turn_down(plan, Outcome::Failed(ServiceError::Protocol)),
            },
            PasswordChange::Writing(flow) => Self::writing(flow.resume(event)),
        }
    }
}

/// The operations on users.
pub trait UserServiceInterface {
    /// Whether a cache is configured.
    spec fn caches(&self) -> bool;

    /// Reads one user, through the cache.
    fn get(&self, command: UserGetCommand) -> (step: Step<UserResponse>)
        ensures
            step.deep_view() == begin::<UserResponseView>(
                get_user_plan(self.caches(), command.user_id@, command.auth_user.user_id@),
            ),
    ;

    /// Creates a user with a password made up at random, and caches what
    /// the store answered.
    fn create(&self, command: UserCreateCommand) -> (step: Step<UserResponse>)
        ensures
            exists|password: Seq<char>|
                is_generated_password(password, INITIAL_PASSWORD_LENGTH as nat)
                    && #[trigger] step.deep_view() == begin::<
                    UserResponseView,
                >(
                    create_user_plan(
                        self.caches(),
                        UserView {
                            id: None,
                            email: command.user_email@,
                            password_hash: password,
                            role: UserRole::USER,
                            first_name: command.user_first_name@,
                            last_name: command.user_last_name@,
                            base_currency_code: command.user_base_currency_code@,
                            created_at: None,
                            updated_at: None,
                        },
                        command.auth_user.user_id@,
                    ),
                ),
    ;

    /// Changes the password of a user who knows the old one; not found
    /// where there is no such user.
    fn update_password(&self, command: UserUpdatePasswordCommand) -> (step: PasswordChangeStep)
        ensures
            step.deep_view() == begin_password_change(
                self.caches(),
                command.user_id@,
                command.user_old_password@,
                command.user_new_password@,
                command.auth_user.user_id@,
            ),
    ;

    /// Changes the names of a user; not found where there is no such user.
    fn update_name(&self, command: UserUpdateNameCommand) -> (step: Step<UserResponse>)
        ensures
            step.deep_view() == begin::<UserResponseView>(
                update_user_name_plan(
                    self.caches(),
                    command.user_id@,
                    command.user_first_name@,
                    command.user_last_name@,
                    command.auth_user.user_id@,
                ),
            ),
    ;

    /// Changes the base currency of a user; not found where there is no
    /// such user.
    fn update_base_currency(&self, command: UserUpdateBaseCurrencyCommand) -> (step: Step<
        UserResponse,
    >)
        ensures
            step.deep_view() == begin::<UserResponseView>(
                update_user_base_currency_plan(
                    self.caches(),
                    command.user_id@,
                    command.user_base_currency_code@,
                    command.auth_user.user_id@,
                ),
            ),
    ;

    /// Deletes a user and drops it from the cache.
    fn delete(&self, command: UserDeleteCommand) -> (step: Step<UserResponse>)
        ensures
            step.deep_view() == begin::<UserResponseView>(
                delete_user_plan(self.caches(), command.user_id@, command.auth_user.user_id@),
            ),
    ;

    /// Lists users page by page, straight from the store.
    fn list(&self, command: UserListCommand) -> (step: Step<UserResponse>)
        requires
            offset_fits(command.pagination),
        ensures
            step.deep_view() == begin::<UserResponseView>(
                list_users_plan(command.pagination, command.auth_user.user_id@),
            ),
    ;
}

/// The user service: its repository, and whether a cache is configured.
#[derive(Debug, Clone, Copy, PartialEq, Eq)]
pub struct UserService {
    pub user_repo: UserRepository,
    pub cache: bool,
}

impl UserService {
    /// The service, with or without a cache.
    pub fn new(cache: bool) -> (service: Self)
        ensures
            service.cache == cache,
    {
        UserService { user_repo: UserRepository {  }, cache }
    }

    /// The lifetime of a cached user, in seconds.
    pub fn redis_key_single_ttl(&self) -> (ttl: Option<u64>)
        ensures
            ttl == Some(CACHE_TTL_SECONDS),
    {
        Some(CACHE_TTL_SECONDS)
    }

    /// The cache key of the user `key`.
    pub fn form_redis_key_single(&self, key: &Uuid) -> (text: String)
        ensures
            text@ == user_key(key@),
    {
        let mut text = String::from_str("user:");
        text.append(key.to_string().as_str());
        text
    }
}

impl UserServiceInterface for UserService {
    open spec fn caches(&self) -> bool {
        self.cache
    }

    fn get(&self, command: UserGetCommand) -> (step: Step<UserResponse>) {
        let key = self.form_redis_key_single(&command.user_id);
        let call = self.user_repo.get(command.user_id, Some(command.auth_user.user_id));
        Flow::start(Plan::read(call, key, self.cache, "Error during getting user"))
    }

    fn create(&self, command: UserCreateCommand) -> (step: Step<UserResponse>) {
        let meta_user = command.auth_user.user_id;
        let user_create = User::from(command);
        let ghost password = user_create@.password_hash;
        let call = self.user_repo.create(user_create, Some(meta_user));
        let step = Flow::start(Plan::write(call, self.cache, "Error during creating user"));
        proof {
            let account = UserView {
                id: None,
                email: command.user_email@,
                password_hash: password,
                role: UserRole::USER,
                first_name: command.user_first_name@,
                last_name: command.user_last_name@,
                base_currency_code: command.user_base_currency_code@,
                created_at: None,
                updated_at: None,
            };
            assert(user_create@ == account);
            assert(step.deep_view() == begin::<UserResponseView>(
                create_user_plan(self.caches(), account, command.auth_user.user_id@),
            ));
        }
        step
    }

    fn update_password(&self, command: UserUpdatePasswordCommand) -> (step: PasswordChangeStep) {
        let meta_user = command.auth_user.user_id;
        let read = self.user_repo.get(command.user_id, Some(meta_user));
        let write = self.user_repo.update_password(
            command.user_id,
            command.user_new_password,
            Some(meta_user),
        );
        PasswordChangeStep {
            flow: PasswordChange::Reading {
                old_password: command.user_old_password,
                plan: Plan::write(write, self.cache, "Error during updating user"),
            },
            action: Action::Call(read),
        }
    }

    fn update_name(&self, command: UserUpdateNameCommand) -> (step: Step<UserResponse>) {
        let call = self.user_repo.update_name(
            command.user_id,
            command.user_first_name,
            command.user_last_name,
            Some(command.auth_user.user_id),
        );
        Flow::start(Plan::write(call, self.cache, "Error during updating user name"))
    }

    fn update_base_currency(&self, command: UserUpdateBaseCurrencyCommand) -> (step: Step<
        UserResponse,
    >) {
        let call = self.user_repo.update_base_currency(
            command.user_id,
            command.user_base_currency_code,
            Some(command.auth_user.user_id),
        );
        Flow::start(Plan::write(call, self.cache, "Error during updating user base currency"))
    }

    fn delete(&self, command: UserDeleteCommand) -> (step: Step<UserResponse>) {
        let mut keys: Vec<String> = Vec::new();
        keys.push(self.form_redis_key_single(&command.user_id));
        assert(keys.deep_view() =~= seq![user_key(command.user_id@)]);
        let call = self.user_repo.delete(command.user_id, Some(command.auth_user.user_id));
        Flow::start(Plan::delete(call, keys, self.cache, "Error during deleting user"))
    }

    fn list(&self, command: UserListCommand) -> (step: Step<UserResponse>) {
        let (limit, offset, _) = extract_pagination_data(command.pagination);
        let call = self.user_repo.get_all(limit, offset, Some(command.auth_user.user_id));
        Flow::start(Plan::uncached(call, "Error getting users"))
    }
}

/// Whether `row`, read through `index`, holds the user as a store that
/// keeps what it is given holds it: every column that the create call bound
/// holds what was bound, and the rest holds what the store assigned.
pub open spec fn keeps_user(
    user: UserView,
    meta_user: Option<Seq<u8>>,
    row: Seq<ColumnView>,
    index: Map<Seq<char>, usize>,
    id: Seq<u8>,
    role: UserRole,
    created_at: Option<DateTimeUtc>,
    updated_at: Option<DateTimeUtc>,
) -> bool {
    &&& cell(row, index, "email"@) == Some(
        stored_value(user_create_call(user, meta_user).params[0]),
    )
    &&& cell(row, index, "password_hash"@) == Some(
        stored_value(user_create_call(user, meta_user).params[1]),
    )
    &&& cell(row, index, "first_name"@) == Some(
        stored_value(user_create_call(user, meta_user).params[2]),
    )
    &&& cell(row, index, "last_name"@) == Some(
        stored_value(user_create_call(user, meta_user).params[3]),
    )
    &&& cell(row, index, "base_currency_code"@) == Some(
        stored_value(user_create_call(user, meta_user).params[4]),
    )
    &&& cell(row, index, "role"@) == Some(SqlValueView::Text(role_text(role)))
    &&& cell(row, index, "id"@) == Some(SqlValueView::Bytes(id))
    &&& cell(row, index, "created_at"@) == Some(instant_value(created_at))
    &&& cell(row, index, "updated_at"@) == Some(instant_value(updated_at))
}

/// What a store keeps of a created user comes back to the caller.
///
/// Where the row that is read holds, column by column, what the create call
/// bound, together with the identity, the role and the times that the store
/// assigned, reading it gives the user that was asked for, and the response
/// shows every field the caller set.
pub proof fn user_round_trip(
    user: UserView,
    meta_user: Option<Seq<u8>>,
    row: Seq<ColumnView>,
    index: Map<Seq<char>, usize>,
    id: Seq<u8>,
    role: UserRole,
    created_at: Option<DateTimeUtc>,
    updated_at: Option<DateTimeUtc>,
)
    requires
        id.len() == 16,
        keeps_user(user, meta_user, row, index, id, role, created_at, updated_at),
    ensures
        <User as FromSqlRow>::row_model(row, index) == Ok::<UserView, MappingErrorView>(
            UserView { id: Some(id), role, created_at, updated_at, ..user },
        ),
        <UserResponse as Response>::of_entity(
            UserView { id: Some(id), role, created_at, updated_at, ..user },
        ) == Ok::<
            UserResponseView,
            MappingErrorView,
        >(UserResponse::of(user, id)),
{
    reveal_strlit("ADMIN");
    reveal_strlit("USER");
    assert("USER"@.len() != "ADMIN"@.len());
    assert(role_named(role_text(role)) == Some(role));
}

/// Create, then get, for a user.
///
/// The store keeps what it is given: it answers the create with a row that
/// holds what the call bound, under the identity, the role and the times it
/// assigned, and, nothing else having written since, it answers the read of
/// that user with the same row. Then the create shows the user with every
/// field as it was asked for, and the read that follows shows that same user,
/// with or without a cache.
pub proof fn created_user_is_read_back(
    cached: bool,
    user: UserView,
    actor: Seq<u8>,
    reader: Seq<u8>,
    row: Seq<ColumnView>,
    id: Seq<u8>,
    role: UserRole,
    created_at: Option<DateTimeUtc>,
    updated_at: Option<DateTimeUtc>,
    cache: Map<Seq<char>, CachedView<UserResponseView>>,
    store: spec_fn(ProcedureCallView) -> EventView<UserResponseView>,
)
    requires
        id.len() == 16,
        keeps_user(user, Some(actor), row, column_index(row), id, role, created_at, updated_at),
        store(user_create_call(user, Some(actor))) == EventView::<UserResponseView>::One(Ok(row)),
        store(user_get_call(id, Some(reader))) == EventView::<UserResponseView>::Row(
            Ok(Some(row)),
        ),
    ensures
        ({
            let shown = UserResponse::of(user, id);
            let created = run::<UserResponse>(
                begin(create_user_plan(cached, user, actor)),
                cache,
                store,
                Seq::empty(),
                2,
            );
            let got = run::<UserResponse>(
                begin(get_user_plan(cached, id, reader)),
                created->Some_0.cache,
                store,
                Seq::empty(),
                read_fuel(),
            );
            &&& created is Some
            &&& created->Some_0.outcome == OutcomeView::Found(shown)
            &&& got is Some
            &&& got->Some_0.outcome == OutcomeView::Found(shown)
            &&& shown.user_id == id
            &&& shown.user_email == user.email
            &&& shown.user_first_name == user.first_name
            &&& shown.user_last_name == user.last_name
            &&& shown.user_base_currency_code == user.base_currency_code
        }),
{
    user_round_trip(user, Some(actor), row, column_index(row), id, role, created_at, updated_at);
    created_is_read_back::<UserResponse>(
        create_user_plan(cached, user, actor),
        get_user_plan(cached, id, reader),
        row,
        UserResponse::of(user, id),
        cache,
        store,
        2,
    );
}

} // verus!
