//! The identity a verified token resolves to, and the claims a token
//! carries. Signing and checking signatures happen outside the library.

use vstd::prelude::*;
use crate::modules::users::user::user_model::{User, UserRole};
use crate::shared::db::row::lemma_bytes_deep_view;
use crate::shared::errors::AppError;
use crate::shared::ids::{Uuid, hyphenated, uuid_parsed};
use crate::shared::text::strip_prefix;
use crate::shared::utils::{bu, stored_id};

verus! {

/// How long a token is valid: a day, in seconds.
pub const TOKEN_LIFETIME_SECONDS: i64 = 86_400;

/// The claims a token carries.
#[derive(Debug, Clone, PartialEq, Eq)]
pub struct Claims {
    /// The user's identity in its hyphenated text form.
    pub sub: String,
    pub role: UserRole,
    pub iss: String,
    pub aud: String,
    /// Expiry, in seconds since the epoch.
    pub exp: usize,
}

/// The authenticated caller of a request: taken as given, used to scope
/// ownership and to stamp every store call.
#[derive(Debug, Clone, Copy, PartialEq, Eq)]
pub struct AuthUser {
    pub user_id: Uuid,
    pub role: UserRole,
}

impl Claims {
    /// The claims of a token issued to `user` at the time `now`, in seconds
    /// since the epoch: it expires a day later.
    pub fn new(user: &AuthUser, issuer: &str, audience: &str, now: i64) -> (claims: Claims)
        requires
            0 <= now + TOKEN_LIFETIME_SECONDS <= usize::MAX,
            now + TOKEN_LIFETIME_SECONDS <= i64::MAX,
        ensures
            claims.sub@ == hyphenated(user.user_id@),
            claims.role == user.role,
            claims.iss@ == issuer@,
            claims.aud@ == audience@,
            claims.exp == now + TOKEN_LIFETIME_SECONDS,
    {
        Claims {
            sub: user.user_id.to_string(),
            role: user.role,
            iss: issuer.to_string(),
            aud: audience.to_string(),
            exp: (now + TOKEN_LIFETIME_SECONDS) as usize,
        }
    }

    /// Lets through the claims of a token that names this issuer and this
    /// audience, and refuses every other.
    pub fn accept(self, issuer: &str, audience: &str) -> (r: Result<Claims, AppError>)
        ensures
            self.iss@ == issuer@ && self.aud@ == audience@ ==> r == Ok::<Claims, AppError>(self),
            !(self.iss@ == issuer@ && self.aud@ == audience@) ==> r == Err::<Claims, AppError>(
                AppError::Unauthorized,
            ),
    {
        if self.iss != issuer.to_string() || self.aud != audience.to_string() {
            return Err(AppError::Unauthorized);
        }
        Ok(self)
    }
}

impl AuthUser {
    /// The caller that a stored user is.
    pub fn from(user: User) -> (auth_user: AuthUser)
        requires
            stored_id(user@.id) is Ok,
        ensures
            Some(auth_user.user_id@) == user@.id,
            auth_user.role == user@.role,
    {
        Self::from_ref(&user)
    }

    /// The caller that a stored user is; the user is left as it is.
    pub fn from_ref(user: &User) -> (auth_user: AuthUser)
        requires
            stored_id(user@.id) is Ok,
        ensures
            Some(auth_user.user_id@) == user@.id,
            auth_user.role == user@.role,
    {
        broadcast use lemma_bytes_deep_view;

        let user_id = match &user.id {
            Some(bytes) => bu(bytes.as_slice()),
            None => unreached(),
        };
        AuthUser { user_id, role: user.role }
    }

    /// The caller that the claims of a checked token name; unauthorized
    /// where the subject spells no identity.
    pub fn from_claims(claims: &Claims) -> (r: Result<AuthUser, AppError>)
        ensures
            match r {
                Ok(auth_user) => uuid_parsed(claims.sub@) == Some(auth_user.user_id@)
                    && auth_user.role == claims.role,
                Err(e) => uuid_parsed(claims.sub@) is None && e == AppError::Unauthorized,
            },
    {
        match Uuid::parse_str(claims.sub.as_str()) {
            Some(user_id) => Ok(AuthUser { user_id, role: claims.role }),
            None => Err(AppError::Unauthorized),
        }
    }
}

/// The token of an `Authorization` header: what follows the word `Bearer`
/// and a space; none where the header does not start with them.
pub fn bearer_token(auth: &str) -> (token: Option<&str>)
    ensures
        match token {
            Some(t) => auth@ == "Bearer "@ + t@,
            None => !"Bearer "@.is_prefix_of(auth@),
        },
{
    strip_prefix(auth, "Bearer ")
}

/// Lets administrators through and refuses everyone else.
pub fn require_admin(user: &AuthUser) -> (r: Result<(), AppError>)
    ensures
        user.role == UserRole::ADMIN ==> r is Ok,
        user.role != UserRole::ADMIN ==> r == Err::<(), AppError>(AppError::Forbidden),
{
    match user.role {
        UserRole::ADMIN => Ok(()),
        UserRole::USER => Err(AppError::Forbidden),
    }
}

} // verus!
