use argon2::password_hash::{PasswordHasher, SaltString};
use finlife::modules::users::auth::auth_command::{
    ForgotPasswordCommand, LoginCommand, RegisterCommand, ResetPasswordCommand,
};
use finlife::modules::users::auth::auth_dto::{
    ForgotPasswordRequest, LoginRequest, RegisterRequest, ResetPasswordRequest,
};
use finlife::modules::users::auth::auth_service::{
    AuthService, AuthServiceInterface, LoginAction, LoginError, LoginEvent, LoginFlow,
    LoginOutcome,
};
use finlife::modules::users::user::user_command::{
    UserCreateCommand, UserDeleteCommand, UserGetCommand, UserListCommand,
    UserUpdateBaseCurrencyCommand, UserUpdateNameCommand, UserUpdatePasswordCommand,
};
use finlife::modules::users::user::user_dto::{
    UserCreateRequest, UserResponse, UserUpdateBaseCurrencyRequest, UserUpdateNameRequest,
};
use finlife::modules::users::user::user_model::{User, UserRole};
use finlife::modules::users::user::user_service::{UserService, UserServiceInterface};
use finlife::shared::auth::jwt::{bearer_token, require_admin, AuthUser, Claims};
use finlife::shared::auth::password::{
    generate_password, hash_password, judge, password_charset, verify_password, PasswordError,
    Verification,
};
use finlife::shared::cache_aside::{Action, Event, Outcome, ServiceError};
use finlife::shared::db::param::MySqlParam;
use finlife::shared::db::row::{Column, Row, SqlValue};
use finlife::shared::errors::AppError;
use finlife::shared::ids::Uuid;
use finlife::shared::response::PaginationRequest;

fn admin() -> AuthUser {
    AuthUser { user_id: Uuid::from_bytes([0xad; 16]), role: UserRole::ADMIN }
}

fn col(name: &str, value: &str) -> Column {
    Column { name: name.to_string(), value: SqlValue::Text(value.to_string()) }
}

fn user_row(id: [u8; 16], password_hash: &str) -> Row {
    Row {
        columns: vec![
            Column { name: "id".to_string(), value: SqlValue::Bytes(id.to_vec()) },
            col("email", "ada@example.org"),
            col("password_hash", password_hash),
            col("role", "USER"),
            col("first_name", "Ada"),
            col("last_name", "Lovelace"),
            col("base_currency_code", "GBP"),
            Column { name: "created_at".to_string(), value: SqlValue::Null },
            Column { name: "updated_at".to_string(), value: SqlValue::Null },
        ],
    }
}

fn ada(id: [u8; 16]) -> UserResponse {
    UserResponse {
        user_id: Uuid::from_bytes(id),
        user_email: "ada@example.org".to_string(),
        user_first_name: "Ada".to_string(),
        user_last_name: "Lovelace".to_string(),
        user_base_currency_code: "GBP".to_string(),
    }
}

#[test]
fn a_hashed_password_verifies_and_another_does_not() {
    let phc = hash_password(b"correct horse").unwrap();
    assert!(phc.starts_with("$argon2id$v=19$m=19456,t=2,p=1$"));
    assert_eq!(verify_password(b"correct horse", &phc), Ok(true));
    assert_eq!(verify_password(b"battery staple", &phc), Ok(false));
    assert_eq!(verify_password(b"", &phc), Ok(false));
}

#[test]
fn hashing_twice_gives_two_hashes() {
    let one = hash_password(b"same").unwrap();
    let two = hash_password(b"same").unwrap();
    assert_ne!(one, two);
    assert_eq!(verify_password(b"same", &one), Ok(true));
    assert_eq!(verify_password(b"same", &two), Ok(true));
}

#[test]
fn a_hash_made_with_other_costs_verifies_by_the_costs_it_carries() {
    let salt = SaltString::encode_b64(b"0123456789abcdef").unwrap();
    let params = argon2::Params::new(64, 1, 1, None).unwrap();
    let light = argon2::Argon2::new(argon2::Algorithm::Argon2id, argon2::Version::V0x13, params);
    let phc = light.hash_password(b"password", &salt).unwrap().to_string();
    assert!(phc.starts_with("$argon2id$v=19$m=64,t=1,p=1$"));
    assert_eq!(verify_password(b"password", &phc), Ok(true));
    assert_eq!(verify_password(b"Password", &phc), Ok(false));
}

#[test]
fn what_is_no_hash_is_refused() {
    assert_eq!(verify_password(b"x", "plain-text"), Err(PasswordError::InvalidHashFormat));
    assert_eq!(verify_password(b"x", ""), Err(PasswordError::InvalidHashFormat));
}

#[test]
fn a_hash_of_another_algorithm_cannot_be_checked() {
    let phc = "$scrypt$ln=16,r=8,p=1$aM15713r3Xsvxbi31lqr1Q$nFNh2CVHVjNldFVKDHDlm4CbdRSCdEBsjjJxD+iCs5E";
    assert_eq!(verify_password(b"x", phc), Err(PasswordError::VerifyError));
}

#[test]
fn verdicts_are_told_apart() {
    assert_eq!(judge(Verification::Verified), Ok(true));
    assert_eq!(judge(Verification::Mismatch), Ok(false));
    assert_eq!(judge(Verification::Malformed), Err(PasswordError::InvalidHashFormat));
    assert_eq!(judge(Verification::Unusable), Err(PasswordError::VerifyError));
}

#[test]
fn password_failures_have_their_texts() {
    assert_eq!(PasswordError::HashFailed.to_string(), "password hashing failed");
    assert_eq!(PasswordError::InvalidHashFormat.to_string(), "invalid password hash format");
    assert_eq!(PasswordError::VerifyError.to_string(), "password verification error");
}

#[test]
fn a_generated_password_has_the_length_asked_for_and_only_known_characters() {
    let charset = password_charset();
    assert_eq!(charset.chars().count(), 88);
    for len in [0usize, 1, 12, 64] {
        let password = generate_password(len);
        assert_eq!(password.chars().count(), len);
        assert!(password.chars().all(|c| charset.contains(c)));
    }
}

#[test]
fn generated_passwords_differ() {
    assert_ne!(generate_password(32), generate_password(32));
}

#[test]
fn a_new_account_is_an_ordinary_user_with_a_made_up_password() {
    let command = UserCreateCommand::new(
        UserCreateRequest {
            user_email: "ada@example.org".to_string(),
            user_first_name: "Ada".to_string(),
            user_last_name: "Lovelace".to_string(),
            user_base_currency_code: "GBP".to_string(),
        },
        admin(),
    );
    let user = User::from(command);
    assert_eq!(user.id, None);
    assert_eq!(user.email, "ada@example.org");
    assert_eq!(user.role, UserRole::USER);
    assert_eq!(user.first_name, "Ada");
    assert_eq!(user.last_name, "Lovelace");
    assert_eq!(user.base_currency_code, "GBP");
    assert_eq!(user.password_hash.chars().count(), 12);
    let registered = User::from_registration(RegisterCommand::from(RegisterRequest {
        email: "b@example.org".to_string(),
        first_name: "B".to_string(),
        last_name: "C".to_string(),
        base_currency_code: "EUR".to_string(),
    }));
    assert_eq!(registered.email, "b@example.org");
    assert_eq!(registered.base_currency_code, "EUR");
    assert_eq!(registered.role, UserRole::USER);
}

#[test]
fn creating_a_user_binds_the_made_up_password() {
    let service = UserService::new(true);
    let command = UserCreateCommand::new(
        UserCreateRequest {
            user_email: "ada@example.org".to_string(),
            user_first_name: "Ada".to_string(),
            user_last_name: "Lovelace".to_string(),
            user_base_currency_code: "GBP".to_string(),
        },
        admin(),
    );
    let step = service.create(command);
    match &step.action {
        Action::Call(call) => {
            assert_eq!(call.query, "CALL proc_user_insert(?, ?, ?, ?, ?, ?)");
            assert_eq!(call.params[0], MySqlParam::String("ada@example.org".to_string()));
            match &call.params[1] {
                MySqlParam::String(password) => assert_eq!(password.chars().count(), 12),
                other => panic!("expected a text, found {other:?}"),
            }
            assert_eq!(call.params[5], MySqlParam::OptBytes(Some(vec![0xad; 16])));
        }
        other => panic!("expected a store call, found {other:?}"),
    }
    let step = step.flow.resume(Event::One(Ok(user_row([1u8; 16], "ignored"))));
    assert!(matches!(&step.action, Action::CacheSet { key, .. } if key == "user:01010101-0101-0101-0101-010101010101"));
    // A user is in no cached list: nothing is dropped.
    let step = step.flow.resume(Event::Stored(Ok(())));
    assert_eq!(step.action, Action::Finish(Outcome::Found(ada([1u8; 16]))));
}

#[test]
fn a_response_never_shows_the_password_hash() {
    let mut user = User::from(UserCreateCommand::new(
        UserCreateRequest {
            user_email: "ada@example.org".to_string(),
            user_first_name: "Ada".to_string(),
            user_last_name: "Lovelace".to_string(),
            user_base_currency_code: "GBP".to_string(),
        },
        admin(),
    ));
    user.id = Some(vec![1u8; 16]);
    let shown = format!("{:?}", UserResponse::from(user.clone()));
    assert!(!shown.contains(&user.password_hash));
    assert_eq!(UserResponse::from(user), ada([1u8; 16]));
}

fn change_password(old: &str, new: &str) -> UserUpdatePasswordCommand {
    UserUpdatePasswordCommand {
        user_id: Uuid::from_bytes([1u8; 16]),
        user_old_password: old.to_string(),
        user_new_password: new.to_string(),
        auth_user: admin(),
    }
}

#[test]
fn a_password_is_changed_by_whoever_knows_the_old_one() {
    let service = UserService::new(true);
    let phc = hash_password(b"old secret").unwrap();
    let step = service.update_password(change_password("old secret", "new secret"));
    match &step.action {
        Action::Call(call) => assert_eq!(call.query, "CALL proc_user_get_by_id(?, ?)"),
        other => panic!("expected a store call, found {other:?}"),
    }
    let step = step.flow.resume(Event::Row(Ok(Some(user_row([1u8; 16], &phc)))));
    match &step.action {
        Action::Call(call) => {
            assert_eq!(call.query, "CALL proc_user_update_password(?, ?, ?)");
            assert_eq!(call.params[0], MySqlParam::Bytes(vec![1u8; 16]));
            assert_eq!(call.params[1], MySqlParam::String("new secret".to_string()));
        }
        other => panic!("expected a store call, found {other:?}"),
    }
    let step = step.flow.resume(Event::Row(Ok(Some(user_row([1u8; 16], "changed")))));
    assert!(matches!(&step.action, Action::CacheSet { key, .. } if key == "user:01010101-0101-0101-0101-010101010101"));
    let step = step.flow.resume(Event::Stored(Ok(())));
    assert_eq!(step.action, Action::Finish(Outcome::Found(ada([1u8; 16]))));
}

#[test]
fn a_wrong_old_password_turns_the_change_down_before_anything_is_written() {
    let service = UserService::new(true);
    let phc = hash_password(b"old secret").unwrap();
    let step = service.update_password(change_password("guess", "new secret"));
    let step = step.flow.resume(Event::Row(Ok(Some(user_row([1u8; 16], &phc)))));
    assert_eq!(
        step.action,
        Action::Finish(Outcome::Failed(ServiceError::Validation("Password don't match".to_string())))
    );
}

#[test]
fn a_stored_hash_that_cannot_be_checked_turns_the_change_down() {
    let service = UserService::new(true);
    let step = service.update_password(change_password("old", "new"));
    let step = step.flow.resume(Event::Row(Ok(Some(user_row([1u8; 16], "not-a-hash")))));
    assert_eq!(
        step.action,
        Action::Finish(Outcome::Failed(ServiceError::Validation("Invalid password".to_string())))
    );
}

#[test]
fn a_password_change_of_an_unknown_user_is_not_found() {
    let service = UserService::new(true);
    let step = service.update_password(change_password("old", "new"));
    let step = step.flow.resume(Event::Row(Ok(None)));
    assert_eq!(step.action, Action::Finish(Outcome::NotFound));
    let step = service.update_password(change_password("old", "new"));
    let step = step.flow.resume(Event::Row(Err("down".to_string())));
    assert_eq!(
        step.action,
        Action::Finish(Outcome::Failed(ServiceError::Repository(
            "Error during updating user password".to_string()
        )))
    );
    let step = service.update_password(change_password("old", "new"));
    let step = step.flow.resume(Event::Stored(Ok(())));
    assert_eq!(step.action, Action::Finish(Outcome::Failed(ServiceError::Protocol)));
}

#[test]
fn a_password_change_that_finds_no_row_to_update_is_not_found() {
    let service = UserService::new(false);
    let phc = hash_password(b"old").unwrap();
    let step = service.update_password(change_password("old", "new"));
    let step = step.flow.resume(Event::Row(Ok(Some(user_row([1u8; 16], &phc)))));
    let step = step.flow.resume(Event::Row(Ok(None)));
    assert_eq!(step.action, Action::Finish(Outcome::NotFound));
    let step = service.update_password(change_password("old", "new"));
    let step = step.flow.resume(Event::Row(Ok(Some(user_row([1u8; 16], &phc)))));
    let step = step.flow.resume(Event::Row(Err("down".to_string())));
    assert_eq!(
        step.action,
        Action::Finish(Outcome::Failed(ServiceError::Repository("Error during updating user".to_string())))
    );
}

#[test]
fn user_operations_use_their_keys_and_texts() {
    let service = UserService::new(true);
    let id = Uuid::from_bytes([2u8; 16]);
    let key = "user:02020202-0202-0202-0202-020202020202";
    assert_eq!(service.redis_key_single_ttl(), Some(3600));
    assert_eq!(service.form_redis_key_single(&id), key);
    let get = service.get(UserGetCommand::new(id, admin()));
    assert_eq!(get.action, Action::CacheGet { key: key.to_string(), many: false });
    let step = get.flow.resume(Event::Cached(Ok(None)));
    let step = step.flow.resume(Event::Row(Err("x".to_string())));
    assert_eq!(
        step.action,
        Action::Finish(Outcome::Failed(ServiceError::Repository("Error during getting user".to_string())))
    );
    let name = service.update_name(UserUpdateNameCommand::new(
        id,
        UserUpdateNameRequest { user_first_name: "A".to_string(), user_last_name: "B".to_string() },
        admin(),
    ));
    assert_eq!(name.flow.resume(Event::Row(Ok(None))).action, Action::Finish(Outcome::NotFound));
    let currency = service.update_base_currency(UserUpdateBaseCurrencyCommand::new(
        id,
        UserUpdateBaseCurrencyRequest { user_base_currency_code: "EUR".to_string() },
        admin(),
    ));
    let step = currency.flow.resume(Event::Row(Err("x".to_string())));
    assert_eq!(
        step.action,
        Action::Finish(Outcome::Failed(ServiceError::Repository(
            "Error during updating user base currency".to_string()
        )))
    );
    let delete = service.delete(UserDeleteCommand::new(id, admin()));
    let step = delete.flow.resume(Event::Executed(Ok(())));
    assert_eq!(step.action, Action::CacheDelete { key: key.to_string() });
    assert_eq!(step.flow.resume(Event::Dropped(Ok(()))).action, Action::Finish(Outcome::Done));
    let list = service.list(UserListCommand::new(
        PaginationRequest { page: Some(2), page_size: Some(5), search: None },
        admin(),
    ));
    match &list.action {
        Action::Call(call) => {
            assert_eq!(call.params[0], MySqlParam::OptU32(Some(5)));
            assert_eq!(call.params[1], MySqlParam::OptU32(Some(5)));
        }
        other => panic!("expected a store call, found {other:?}"),
    }
}

// ---- signing in ----

fn login(email: &str, password: &str) -> LoginCommand {
    LoginCommand::from(LoginRequest { email: email.to_string(), password: password.to_string() })
}

#[test]
fn signing_in_needs_an_address_and_a_password() {
    let service = AuthService::new();
    let step = service.login(login("", "secret"));
    assert_eq!(step.action, LoginAction::Finish(LoginOutcome::Failed(LoginError::InvalidEmail)));
    let step = service.login(login("ada@example.org", ""));
    assert_eq!(step.action, LoginAction::Finish(LoginOutcome::Failed(LoginError::InvalidPassword)));
    let step = service.login(login("", ""));
    assert_eq!(step.action, LoginAction::Finish(LoginOutcome::Failed(LoginError::InvalidEmail)));
}

#[test]
fn signing_in_reads_the_user_under_nobodys_identity() {
    let step = AuthService::new().login(login("ada@example.org", "secret"));
    match &step.action {
        LoginAction::Call(call) => {
            assert_eq!(call.query, "CALL proc_user_get_by_email(?, ?)");
            assert_eq!(
                call.params,
                vec![MySqlParam::String("ada@example.org".to_string()), MySqlParam::OptBytes(None)]
            );
        }
        other => panic!("expected a store call, found {other:?}"),
    }
    assert_eq!(step.flow, LoginFlow::Reading { password: "secret".to_string() });
}

#[test]
fn the_right_password_gets_a_token() {
    let phc = hash_password(b"secret").unwrap();
    let step = AuthService::new().login(login("ada@example.org", "secret"));
    let step = step.flow.resume(LoginEvent::Row(Ok(Some(user_row([3u8; 16], &phc)))));
    assert_eq!(
        step.action,
        LoginAction::IssueToken(AuthUser { user_id: Uuid::from_bytes([3u8; 16]), role: UserRole::USER })
    );
    let step = step.flow.resume(LoginEvent::Token(Ok("header.claims.signature".to_string())));
    assert_eq!(
        step.action,
        LoginAction::Finish(LoginOutcome::Token("header.claims.signature".to_string()))
    );
    assert_eq!(step.flow, LoginFlow::Finished);
}

#[test]
fn the_wrong_password_gets_none() {
    let phc = hash_password(b"secret").unwrap();
    let step = AuthService::new().login(login("ada@example.org", "guess"));
    let step = step.flow.resume(LoginEvent::Row(Ok(Some(user_row([3u8; 16], &phc)))));
    assert_eq!(step.action, LoginAction::Finish(LoginOutcome::Failed(LoginError::PasswordMismatch)));
}

#[test]
fn an_unknown_address_is_not_found() {
    let step = AuthService::new().login(login("nobody@example.org", "secret"));
    let step = step.flow.resume(LoginEvent::Row(Ok(None)));
    assert_eq!(step.action, LoginAction::Finish(LoginOutcome::NotFound));
}

#[test]
fn signing_in_reports_its_failures() {
    let service = AuthService::new();
    let step = service.login(login("a@b.c", "secret")).flow.resume(LoginEvent::Row(Err("down".to_string())));
    assert_eq!(step.action, LoginAction::Finish(LoginOutcome::Failed(LoginError::Repository)));
    let step = service
        .login(login("a@b.c", "secret"))
        .flow
        .resume(LoginEvent::Row(Ok(Some(user_row([3u8; 16], "not-a-hash")))));
    assert_eq!(step.action, LoginAction::Finish(LoginOutcome::Failed(LoginError::InvalidPassword)));
    let step = service.login(login("a@b.c", "secret")).flow.resume(LoginEvent::Token(Ok("t".to_string())));
    assert_eq!(step.action, LoginAction::Finish(LoginOutcome::Failed(LoginError::Protocol)));
    let phc = hash_password(b"secret").unwrap();
    let step = service
        .login(login("a@b.c", "secret"))
        .flow
        .resume(LoginEvent::Row(Ok(Some(user_row([3u8; 16], &phc)))))
        .flow
        .resume(LoginEvent::Token(Err(AppError::Unauthorized)));
    assert_eq!(
        step.action,
        LoginAction::Finish(LoginOutcome::Failed(LoginError::Token(AppError::Unauthorized)))
    );
}

#[test]
fn login_failures_have_their_texts() {
    assert_eq!(LoginError::InvalidEmail.to_string(), "Invalid email");
    assert_eq!(LoginError::InvalidPassword.to_string(), "Invalid password");
    assert_eq!(LoginError::PasswordMismatch.to_string(), "Password don't match");
    assert_eq!(LoginError::Repository.to_string(), "Error during user login");
    assert_eq!(LoginError::Token(AppError::Unauthorized).to_string(), "unauthorized");
}

#[test]
fn auth_commands_carry_their_requests() {
    let forgot = ForgotPasswordCommand::from(ForgotPasswordRequest {
        email: "a@b.c".to_string(),
        locale: Some("fr".to_string()),
    });
    assert_eq!(forgot, ForgotPasswordCommand { user_email: "a@b.c".to_string(), locale: Some("fr".to_string()) });
    let reset = ResetPasswordCommand::from(ResetPasswordRequest {
        token: "t".to_string(),
        new_password: "n".to_string(),
    });
    assert_eq!(reset, ResetPasswordCommand { token: "t".to_string(), new_password: "n".to_string() });
}

// ---- tokens ----

#[test]
fn claims_name_the_user_and_expire_a_day_later() {
    let user = AuthUser { user_id: Uuid::from_bytes([3u8; 16]), role: UserRole::ADMIN };
    let claims = Claims::new(&user, "issuer", "audience", 1_700_000_000);
    assert_eq!(
        claims,
        Claims {
            sub: "03030303-0303-0303-0303-030303030303".to_string(),
            role: UserRole::ADMIN,
            iss: "issuer".to_string(),
            aud: "audience".to_string(),
            exp: 1_700_086_400,
        }
    );
    assert_eq!(AuthUser::from_claims(&claims), Ok(user));
}

#[test]
fn claims_of_another_issuer_or_audience_are_refused() {
    let user = AuthUser { user_id: Uuid::from_bytes([3u8; 16]), role: UserRole::USER };
    let claims = || Claims::new(&user, "issuer", "audience", 0);
    assert_eq!(claims().accept("issuer", "audience"), Ok(claims()));
    assert_eq!(claims().accept("other", "audience"), Err(AppError::Unauthorized));
    assert_eq!(claims().accept("issuer", "other"), Err(AppError::Unauthorized));
}

#[test]
fn claims_without_an_identity_are_unauthorized() {
    let claims = Claims {
        sub: "somebody".to_string(),
        role: UserRole::USER,
        iss: "i".to_string(),
        aud: "a".to_string(),
        exp: 0,
    };
    assert_eq!(AuthUser::from_claims(&claims), Err(AppError::Unauthorized));
}

#[test]
fn the_bearer_token_follows_the_word_bearer() {
    assert_eq!(bearer_token("Bearer abc.def.ghi"), Some("abc.def.ghi"));
    assert_eq!(bearer_token("Bearer "), Some(""));
    assert_eq!(bearer_token("bearer abc"), None);
    assert_eq!(bearer_token("Basic abc"), None);
    assert_eq!(bearer_token("Bearer"), None);
    assert_eq!(bearer_token(""), None);
}

#[test]
fn only_administrators_pass() {
    assert_eq!(require_admin(&admin()), Ok(()));
    let user = AuthUser { user_id: Uuid::from_bytes([1u8; 16]), role: UserRole::USER };
    assert_eq!(require_admin(&user), Err(AppError::Forbidden));
}

#[test]
fn a_stored_user_is_the_caller_it_names() {
    let mut user = User::from(UserCreateCommand::new(
        UserCreateRequest {
            user_email: "ada@example.org".to_string(),
            user_first_name: "Ada".to_string(),
            user_last_name: "Lovelace".to_string(),
            user_base_currency_code: "GBP".to_string(),
        },
        admin(),
    ));
    user.id = Some(vec![9u8; 16]);
    user.role = UserRole::ADMIN;
    let expected = AuthUser { user_id: Uuid::from_bytes([9u8; 16]), role: UserRole::ADMIN };
    assert_eq!(AuthUser::from_ref(&user), expected);
    assert_eq!(AuthUser::from(user), expected);
}

#[test]
fn login_outcomes_have_their_status() {
    assert_eq!(LoginOutcome::Token("t".to_string()).status(), 200);
    assert_eq!(LoginOutcome::NotFound.status(), 404);
    assert_eq!(LoginOutcome::Failed(LoginError::PasswordMismatch).status(), 500);
}

#[test]
fn twenty_five_users_are_listed_on_two_pages() {
    let service = UserService::new(true);
    let page = |n: u32| {
        UserListCommand::new(
            PaginationRequest { page: Some(n), page_size: Some(20), search: None },
            admin(),
        )
    };
    let listed = |n: u32| -> Vec<[u8; 16]> {
        let step = service.list(page(n));
        let (limit, offset) = match &step.action {
            Action::Call(call) => match (&call.params[0], &call.params[1]) {
                (MySqlParam::OptU32(Some(limit)), MySqlParam::OptU32(Some(offset))) => {
                    (*limit as usize, *offset as usize)
                }
                other => panic!("expected limit and offset, found {other:?}"),
            },
            other => panic!("expected a store call, found {other:?}"),
        };
        let rows: Vec<Row> =
            (0u8..25).skip(offset).take(limit).map(|i| user_row([i; 16], "hash")).collect();
        match step.flow.resume(Event::Rows(Ok(rows))).action {
            Action::Finish(Outcome::Listed(users)) => {
                users.iter().map(|u| *u.user_id.as_bytes()).collect()
            }
            other => panic!("expected a list, found {other:?}"),
        }
    };
    let r1 = listed(1);
    let r2 = listed(2);
    assert_eq!(r1.len(), 20);
    assert_eq!(r2.len(), 5);
    assert!(r1.iter().all(|id| !r2.contains(id)));
    let mut all: Vec<[u8; 16]> = r1.into_iter().chain(r2).collect();
    all.sort();
    assert_eq!(all, (0u8..25).map(|i| [i; 16]).collect::<Vec<_>>());
}

#[test]
fn a_created_user_is_read_back_with_and_without_a_cache() {
    let request = || UserCreateRequest {
        user_email: "ada@example.org".to_string(),
        user_first_name: "Ada".to_string(),
        user_last_name: "Lovelace".to_string(),
        user_base_currency_code: "GBP".to_string(),
    };
    let id = [7u8; 16];
    // The row a store keeps: what the create call bound, under the identity it assigned.
    let kept = |call_params: &[MySqlParam]| -> Row {
        let text = |p: &MySqlParam| match p {
            MySqlParam::String(s) => SqlValue::Text(s.clone()),
            other => panic!("expected a text, found {other:?}"),
        };
        Row {
            columns: vec![
                Column { name: "id".to_string(), value: SqlValue::Bytes(id.to_vec()) },
                Column { name: "email".to_string(), value: text(&call_params[0]) },
                Column { name: "password_hash".to_string(), value: text(&call_params[1]) },
                Column { name: "first_name".to_string(), value: text(&call_params[2]) },
                Column { name: "last_name".to_string(), value: text(&call_params[3]) },
                Column { name: "base_currency_code".to_string(), value: text(&call_params[4]) },
                col("role", "USER"),
                Column { name: "created_at".to_string(), value: SqlValue::Null },
                Column { name: "updated_at".to_string(), value: SqlValue::Null },
            ],
        }
    };

    let cached = UserService::new(true);
    let step = cached.create(UserCreateCommand::new(request(), admin()));
    let row = match &step.action {
        Action::Call(call) => kept(&call.params),
        other => panic!("expected a store call, found {other:?}"),
    };
    let step = step.flow.resume(Event::One(Ok(row.clone())));
    let (key, value) = match &step.action {
        Action::CacheSet { key, value, .. } => (key.clone(), value.clone()),
        other => panic!("expected a cache write, found {other:?}"),
    };
    let step = step.flow.resume(Event::Stored(Ok(())));
    assert_eq!(step.action, Action::Finish(Outcome::Found(ada(id))));
    let read = cached.get(UserGetCommand::new(Uuid::from_bytes(id), admin()));
    assert_eq!(read.action, Action::CacheGet { key, many: false });
    let read = read.flow.resume(Event::Cached(Ok(Some(value))));
    assert_eq!(read.action, Action::Finish(Outcome::Found(ada(id))));

    let plain = UserService::new(false);
    let step = plain.create(UserCreateCommand::new(request(), admin()));
    let row = match &step.action {
        Action::Call(call) => kept(&call.params),
        other => panic!("expected a store call, found {other:?}"),
    };
    let step = step.flow.resume(Event::One(Ok(row.clone())));
    assert_eq!(step.action, Action::Finish(Outcome::Found(ada(id))));
    let read = plain.get(UserGetCommand::new(Uuid::from_bytes(id), admin()));
    assert!(matches!(&read.action, Action::Call(call) if call.query == "CALL proc_user_get_by_id(?, ?)"));
    let read = read.flow.resume(Event::Row(Ok(Some(row))));
    assert_eq!(read.action, Action::Finish(Outcome::Found(ada(id))));
}
