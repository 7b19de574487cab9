//! Signing in.
//!
//! The user is read by address, the password is checked against the stored
//! hash, and only then is a token asked for. Issuing the token is the
//! caller's work.

use vstd::prelude::*;
use vstd::string::StringExecFns;
use vstd::utf8::encode_utf8;
use crate::modules::users::auth::auth_command::LoginCommand;
use crate::modules::users::user::user_model::{User, UserRole};
use crate::modules::users::user::user_repo::{
    UserRepository,
    UserRepositoryInterface,
    user_get_by_email_call,
};
use crate::shared::auth::jwt::AuthUser;
use crate::shared::cache_aside::{STATUS_INTERNAL_SERVER_ERROR, STATUS_NOT_FOUND, STATUS_OK};
use crate::shared::auth::password::{argon2_verification, verdict, verify_password};
use crate::shared::crud_repository::ProcedureCall;
use crate::shared::db::mysql::{GenericRepository, optional_model};
use crate::shared::db::row::{ColumnView, Row, outcome};
use crate::shared::errors::AppError;
use crate::shared::utils::{read_stored_id, stored_id};

verus! {

/// Why signing in failed.
#[derive(Debug, Clone, PartialEq, Eq)]
pub enum LoginError {
    /// No address was given.
    InvalidEmail,
    /// No password was given, or the stored hash cannot be checked.
    InvalidPassword,
    /// The password is not the user's.
    PasswordMismatch,
    /// The store failed.
    Repository,
    /// No token could be issued.
    Token(AppError),
    /// An event arrived that does not answer the action that was asked for.
    Protocol,
}

impl LoginError {
    /// The text of the failure.
    pub open spec fn message_spec(&self) -> Seq<char> {
        match *self {
            LoginError::InvalidEmail => "Invalid email"@,
            LoginError::InvalidPassword => "Invalid password"@,
            LoginError::PasswordMismatch => "Password don't match"@,
            LoginError::Repository => "Error during user login"@,
            LoginError::Token(e) => e.message_spec(),
            LoginError::Protocol => "unexpected event"@,
        }
    }

    /// The text of the failure.
    pub fn to_string(&self) -> (text: String)
        ensures
            text@ == self.message_spec(),
    {
        match self {
            LoginError::InvalidEmail => String::from_str("Invalid email"),
            LoginError::InvalidPassword => String::from_str("Invalid password"),
            LoginError::PasswordMismatch => String::from_str("Password don't match"),
            LoginError::Repository => String::from_str("Error during user login"),
            LoginError::Token(e) => e.to_string(),
            LoginError::Protocol => String::from_str("unexpected event"),
        }
    }
}

/// How signing in ended.
#[derive(Debug, Clone, PartialEq, Eq)]
pub enum LoginOutcome {
    /// The token that was issued.
    Token(String),
    /// Nobody signs in with that address. This is no failure.
    NotFound,
    Failed(LoginError),
}

impl LoginOutcome {
    /// The HTTP status that reports the outcome.
    pub fn status(&self) -> (status: u16)
        ensures
            status == match *self {
                LoginOutcome::Token(_) => STATUS_OK,
                LoginOutcome::NotFound => STATUS_NOT_FOUND,
                LoginOutcome::Failed(_) => STATUS_INTERNAL_SERVER_ERROR,
            },
    {
        match self {
            LoginOutcome::Token(_) => STATUS_OK,
            LoginOutcome::NotFound => STATUS_NOT_FOUND,
            LoginOutcome::Failed(_) => STATUS_INTERNAL_SERVER_ERROR,
        }
    }
}

/// What the caller must do next.
#[derive(Debug, Clone, PartialEq, Eq)]
pub enum LoginAction {
    /// Run the procedure call against the store.
    Call(ProcedureCall),
    /// Issue a token to this user.
    IssueToken(AuthUser),
    /// Nothing more: signing in ended.
    Finish(LoginOutcome),
}

/// What came back from the action that was asked for.
#[derive(Debug, PartialEq, Eq)]
pub enum LoginEvent {
    /// The answer to the call: at most one row, or the driver's message.
    Row(Result<Option<Row>, String>),
    /// The answer to [`LoginAction::IssueToken`].
    Token(Result<String, AppError>),
}

/// Where signing in stands.
#[derive(Debug, Clone, PartialEq, Eq)]
pub enum LoginFlow {
    /// The user was asked for; `password` is checked against what comes
    /// back.
    Reading { password: String },
    /// A token was asked for.
    Signing,
    /// Signing in ended.
    Finished,
}

/// One step of signing in.
#[derive(Debug, PartialEq, Eq)]
pub struct LoginStep {
    pub flow: LoginFlow,
    pub action: LoginAction,
}

/// What the stored user means for signing in with `password`: the user to
/// issue a token to, or how signing in ends.
pub open spec fn login_decision(password: Seq<char>, answer: Result<
    Option<Seq<ColumnView>>,
    Seq<char>,
>) -> Result<(Seq<u8>, UserRole), LoginOutcome> {
    match optional_model::<User>(answer) {
        Err(_) => Err(LoginOutcome::Failed(LoginError::Repository)),
        Ok(None) => Err(LoginOutcome::NotFound),
        Ok(Some(user)) => match verdict(
            argon2_verification(encode_utf8(password), user.password_hash),
        ) {
            Err(_) => Err(LoginOutcome::Failed(LoginError::InvalidPassword)),
            Ok(false) => Err(LoginOutcome::Failed(LoginError::PasswordMismatch)),
            Ok(true) => match stored_id(user.id) {
                Ok(id) => Ok((id, user.role)),
                Err(_) => Err(LoginOutcome::Failed(LoginError::Repository)),
            },
        },
    }
}

impl LoginFlow {
    /// Ends signing in with `outcome`.
    fn finish(outcome: LoginOutcome) -> (step: LoginStep)
        ensures
            step.flow == LoginFlow::Finished,
            step.action == LoginAction::Finish(outcome),
    {
        LoginStep { flow: LoginFlow::Finished, action: LoginAction::Finish(outcome) }
    }

    /// What the stored user means for signing in.
    fn decide(password: &String, answer: Result<Option<Row>, String>) -> (r: Result<
        AuthUser,
        LoginOutcome,
    >)
        ensures
            match r {
                Ok(auth_user) => login_decision(password@, outcome(answer)) == Ok::<
                    (Seq<u8>, UserRole),
                    LoginOutcome,
                >((auth_user.user_id@, auth_user.role)),
                Err(ended) => login_decision(password@, outcome(answer)) == Err::<
                    (Seq<u8>, UserRole),
                    LoginOutcome,
                >(ended),
            },
    {
        let repository = UserRepository {  };
        let parsed: Result<Option<User>, _> = repository.parse_entity_from_option_result_sql(
            answer,
        );
        match parsed {
            Err(_) => Err(LoginOutcome::Failed(LoginError::Repository)),
            Ok(None) => Err(LoginOutcome::NotFound),
            Ok(Some(user)) => match verify_password(
                password.as_str().as_bytes(),
                user.password_hash.as_str(),
            ) {
                Err(_) => Err(LoginOutcome::Failed(LoginError::InvalidPassword)),
                Ok(false) => Err(LoginOutcome::Failed(LoginError::PasswordMismatch)),
                Ok(true) => match read_stored_id(&user.id) {
                    Ok(_) => Ok(AuthUser::from(user)),
                    Err(_) => Err(LoginOutcome::Failed(LoginError::Repository)),
                },
            },
        }
    }

    /// Takes the step that `event` calls for.
    ///
    /// A token is asked for only where the user exists and the password
    /// matches the stored hash. The outcome is the token that the caller
    /// issued, or the failure to issue one.
    pub fn resume(self, event: LoginEvent) -> (step: LoginStep)
        ensures
            match (self, event) {
                (LoginFlow::Reading { password }, LoginEvent::Row(answer)) => match login_decision(
                    password@,
                    outcome(answer),
                ) {
                    Ok((id, role)) => step.flow == LoginFlow::Signing && (step.action
                        matches LoginAction::IssueToken(auth_user) && auth_user.user_id@ == id
                        && auth_user.role == role),
                    Err(ended) => step.flow == LoginFlow::Finished && step.action
                        == LoginAction::Finish(ended),
                },
                (LoginFlow::Signing, LoginEvent::Token(Ok(token))) => step.flow
                    == LoginFlow::Finished && step.action == LoginAction::Finish(
                    LoginOutcome::Token(token),
                ),
                (LoginFlow::Signing, LoginEvent::Token(Err(e))) => step.flow == LoginFlow::Finished
                    && step.action == LoginAction::Finish(
                    LoginOutcome::Failed(LoginError::Token(e)),
                ),
                _ => step.flow == LoginFlow::Finished && step.action == LoginAction::Finish(
                    LoginOutcome::Failed(LoginError::Protocol),
                ),
            },
    {
        match (self, event) {
            (LoginFlow::Reading { password }, LoginEvent::Row(answer)) => match Self::decide(
                &password,
                answer,
            ) {
                Ok(auth_user) => LoginStep {
                    flow: LoginFlow::Signing,
                    action: LoginAction::IssueToken(auth_user),
                },
                Err(ended) => Self::finish(ended),
            },
            (LoginFlow::Signing, LoginEvent::Token(Ok(token))) => Self::finish(
                LoginOutcome::Token(token),
            ),
            (LoginFlow::Signing, LoginEvent::Token(Err(e))) => Self::finish(
                LoginOutcome::Failed(LoginError::Token(e)),
            ),
            _ => Self::finish(LoginOutcome::Failed(LoginError::Protocol)),
        }
    }
}

/// The operations of the authentication service.
pub trait AuthServiceInterface {
    /// Starts signing in. A missing address or password ends it at once;
    /// otherwise the user is read by address, under nobody's identity.
    fn login(&self, command: LoginCommand) -> (step: LoginStep)
        ensures
            command.email@.len() == 0 ==> step.flow == LoginFlow::Finished && step.action
                == LoginAction::Finish(LoginOutcome::Failed(LoginError::InvalidEmail)),
            command.email@.len() > 0 && command.password@.len() == 0 ==> step.flow
                == LoginFlow::Finished && step.action == LoginAction::Finish(
                LoginOutcome::Failed(LoginError::InvalidPassword),
            ),
            command.email@.len() > 0 && command.password@.len() > 0 ==> (step.flow
                matches LoginFlow::Reading { password } && password@ == command.password@) && (
            step.action matches LoginAction::Call(call) && call@ == user_get_by_email_call(
                command.email@,
                None,
            )),
    ;
}

/// The authentication service.
#[derive(Debug, Clone, Copy, PartialEq, Eq)]
pub struct AuthService {
    pub user_repo: UserRepository,
}

impl AuthService {
    /// The service.
    pub fn new() -> Self {
        AuthService { user_repo: UserRepository {  } }
    }
}

impl AuthServiceInterface for AuthService {
    fn login(&self, command: LoginCommand) -> (step: LoginStep) {
        if command.email.as_str().is_empty() {
            return LoginFlow::finish(LoginOutcome::Failed(LoginError::InvalidEmail));
        }
        if command.password.as_str().is_empty() {
            return LoginFlow::finish(LoginOutcome::Failed(LoginError::InvalidPassword));
        }
        let call = self.user_repo.get_by_email(command.email, None);
        LoginStep {
            flow: LoginFlow::Reading { password: command.password },
            action: LoginAction::Call(call),
        }
    }
}

} // verus!
