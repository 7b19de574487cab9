//! The user entity as the store holds it.

use vstd::prelude::*;
use vstd::string::StringExecFns;
use crate::modules::users::auth::auth_command::RegisterCommand;
use crate::modules::users::user::user_command::UserCreateCommand;
use crate::shared::auth::password::{generate_password, is_generated_password};
use crate::shared::db::mysql::FromSqlRow;
use crate::shared::db::row::{
    Earliest,
    ColumnIndexMap,
    ColumnType,
    ColumnView,
    MappingError,
    MappingErrorView,
    MappingProblem,
    Row,
    SqlValue,
    SqlValueView,
    cell,
    error_of,
    failure,
    lemma_bytes_deep_view,
    opt_bytes_of,
    opt_datetime_of,
    outcome,
    required,
    text_of,
};
use crate::shared::temporal::DateTimeUtc;

verus! {

/// What a user may do.
#[allow(clippy::upper_case_acronyms)]
#[derive(Debug, Clone, Copy, PartialEq, Eq, Structural)]
pub enum UserRole {
    ADMIN,
    USER,
}

impl DeepView for UserRole {
    type V = UserRole;

    open spec fn deep_view(&self) -> UserRole {
        *self
    }
}

/// The role that a text names.
pub open spec fn role_named(text: Seq<char>) -> Option<UserRole> {
    if text == "ADMIN"@ {
        Some(UserRole::ADMIN)
    } else if text == "USER"@ {
        Some(UserRole::USER)
    } else {
        None
    }
}

/// The text that names a role.
pub open spec fn role_text(role: UserRole) -> Seq<char> {
    match role {
        UserRole::ADMIN => "ADMIN"@,
        UserRole::USER => "USER"@,
    }
}

/// Column `name` read as a role: the text `ADMIN` or `USER`.
pub open spec fn role_of(row: Seq<ColumnView>, index: Map<Seq<char>, usize>, name: Seq<char>) -> Result<
    UserRole,
    MappingErrorView,
> {
    match cell(row, index, name) {
        Some(SqlValueView::Text(text)) => match role_named(text) {
            Some(role) => Ok(role),
            None => Err(failure(name, ColumnType::Role, MappingProblem::OutOfRange)),
        },
        c => required(c, None::<UserRole>, name, ColumnType::Role),
    }
}

/// Reads column `name` as a role.
pub fn get_role(row: &Row, index_map: &ColumnIndexMap, name: &str) -> (r: Result<
    UserRole,
    MappingError,
>)
    ensures
        outcome(r) == role_of(row@, index_map@, name@),
{
    let cell = row.cell(index_map, name);
    match cell {
        Some(SqlValue::Text(text)) => {
            if *text == String::from_str("ADMIN") {
                Ok(UserRole::ADMIN)
            } else if *text == String::from_str("USER") {
                Ok(UserRole::USER)
            } else {
                Err(
                    MappingError {
                        column: name.to_string(),
                        expected: ColumnType::Role,
                        problem: MappingProblem::OutOfRange,
                    },
                )
            }
        },
        None => Err(
            MappingError {
                column: name.to_string(),
                expected: ColumnType::Role,
                problem: MappingProblem::MissingColumn,
            },
        ),
        Some(SqlValue::Null) => Err(
            MappingError {
                column: name.to_string(),
                expected: ColumnType::Role,
                problem: MappingProblem::UnexpectedNull,
            },
        ),
        Some(_) => Err(
            MappingError {
                column: name.to_string(),
                expected: ColumnType::Role,
                problem: MappingProblem::TypeMismatch,
            },
        ),
    }
}

/// A user account.
#[derive(Debug, Clone, PartialEq, Eq)]
pub struct User {
    /// The sixteen bytes of the identity; none before the store has assigned one.
    pub id: Option<Vec<u8>>,
    /// The address the user signs in with; no two users share one.
    pub email: String,
    /// The PHC string of the password. It never leaves the service.
    pub password_hash: String,
    pub role: UserRole,
    pub first_name: String,
    pub last_name: String,
    pub base_currency_code: String,
    pub created_at: Option<DateTimeUtc>,
    pub updated_at: Option<DateTimeUtc>,
}

/// What an [`User`] stands for.
pub struct UserView {
    pub id: Option<Seq<u8>>,
    pub email: Seq<char>,
    pub password_hash: Seq<char>,
    pub role: UserRole,
    pub first_name: Seq<char>,
    pub last_name: Seq<char>,
    pub base_currency_code: Seq<char>,
    pub created_at: Option<DateTimeUtc>,
    pub updated_at: Option<DateTimeUtc>,
}

impl DeepView for User {
    type V = UserView;

    open spec fn deep_view(&self) -> UserView {
        UserView {
            id: self.id.deep_view(),
            email: self.email@,
            password_hash: self.password_hash@,
            role: self.role,
            first_name: self.first_name@,
            last_name: self.last_name@,
            base_currency_code: self.base_currency_code@,
            created_at: self.created_at,
            updated_at: self.updated_at,
        }
    }
}

impl View for User {
    type V = UserView;

    open spec fn view(&self) -> UserView {
        self.deep_view()
    }
}

impl FromSqlRow for User {
    open spec fn row_model(row: Seq<ColumnView>, index: Map<Seq<char>, usize>) -> Result<
        UserView,
        MappingErrorView,
    > {
        let id = opt_bytes_of(row, index, "id"@);
        let email = text_of(row, index, "email"@);
        let password_hash = text_of(row, index, "password_hash"@);
        let role = role_of(row, index, "role"@);
        let first_name = text_of(row, index, "first_name"@);
        let last_name = text_of(row, index, "last_name"@);
        let base_currency_code = text_of(row, index, "base_currency_code"@);
        let created_at = opt_datetime_of(row, index, "created_at"@);
        let updated_at = opt_datetime_of(row, index, "updated_at"@);
        match error_of(id)
            .or_later(error_of(email))
            .or_later(error_of(password_hash))
            .or_later(error_of(role))
            .or_later(error_of(first_name))
            .or_later(error_of(last_name))
            .or_later(error_of(base_currency_code))
            .or_later(error_of(created_at))
            .or_later(error_of(updated_at)) {
            Some(e) => Err(e),
            None => Ok(
                UserView {
                    id: id->Ok_0,
                    email: email->Ok_0,
                    password_hash: password_hash->Ok_0,
                    role: role->Ok_0,
                    first_name: first_name->Ok_0,
                    last_name: last_name->Ok_0,
                    base_currency_code: base_currency_code->Ok_0,
                    created_at: created_at->Ok_0,
                    updated_at: updated_at->Ok_0,
                },
            ),
        }
    }

    fn map_row_to_entity(row: &Row, index_map: &ColumnIndexMap) -> (r: Result<
        Self,
        MappingError,
    >) {
        broadcast use lemma_bytes_deep_view;

        let id = row.get_opt_bytes(index_map, "id")?;
        let email = row.get_text(index_map, "email")?;
        let password_hash = row.get_text(index_map, "password_hash")?;
        let role = get_role(row, index_map, "role")?;
        let first_name = row.get_text(index_map, "first_name")?;
        let last_name = row.get_text(index_map, "last_name")?;
        let base_currency_code = row.get_text(index_map, "base_currency_code")?;
        let created_at = row.get_opt_datetime(index_map, "created_at")?;
        let updated_at = row.get_opt_datetime(index_map, "updated_at")?;
        Ok(
            User {
                id,
                email,
                password_hash,
                role,
                first_name,
                last_name,
                base_currency_code,
                created_at,
                updated_at,
            },
        )
    }
}

/// The number of characters of the password that a new account starts with.
pub const INITIAL_PASSWORD_LENGTH: usize = 12;

impl User {
    /// A new account with the given names and a password that was made up at
    /// random: an ordinary user, without identity and times, which the store
    /// assigns.
    fn fresh(
        email: String,
        first_name: String,
        last_name: String,
        base_currency_code: String,
    ) -> (user:
        User)
        ensures
            user@.id is None,
            user@.email == email@,
            is_generated_password(user@.password_hash, INITIAL_PASSWORD_LENGTH as nat),
            user@.role == UserRole::USER,
            user@.first_name == first_name@,
            user@.last_name == last_name@,
            user@.base_currency_code == base_currency_code@,
            user@.created_at is None,
            user@.updated_at is None,
    {
        User {
            id: None,
            email,
            password_hash: generate_password(INITIAL_PASSWORD_LENGTH),
            role: UserRole::USER,
            first_name,
            last_name,
            base_currency_code,
            created_at: None,
            updated_at: None,
        }
    }

    /// The account a create command asks for. Its password is made up at
    /// random, so two calls give two accounts.
    pub fn from(command: UserCreateCommand) -> (user: User)
        ensures
            user@.id is None,
            user@.email == command.user_email@,
            is_generated_password(user@.password_hash, INITIAL_PASSWORD_LENGTH as nat),
            user@.role == UserRole::USER,
            user@.first_name == command.user_first_name@,
            user@.last_name == command.user_last_name@,
            user@.base_currency_code == command.user_base_currency_code@,
            user@.created_at is None,
            user@.updated_at is None,
    {
        Self::fresh(
            command.user_email,
            command.user_first_name,
            command.user_last_name,
            command.user_base_currency_code,
        )
    }

    /// The account a registration asks for. Its password is made up at
    /// random, so two calls give two accounts.
    pub fn from_registration(command: RegisterCommand) -> (user: User)
        ensures
            user@.id is None,
            user@.email == command.user_email@,
            is_generated_password(user@.password_hash, INITIAL_PASSWORD_LENGTH as nat),
            user@.role == UserRole::USER,
            user@.first_name == command.user_first_name@,
            user@.last_name == command.user_last_name@,
            user@.base_currency_code == command.user_base_currency_code@,
            user@.created_at is None,
            user@.updated_at is None,
    {
        Self::fresh(
            command.user_email,
            command.user_first_name,
            command.user_last_name,
            command.user_base_currency_code,
        )
    }
}

} // verus!
