//! Users as clients see them, and the requests that change them.

use vstd::prelude::*;
use vstd::string::StringExecFns;
use crate::modules::users::user::user_model::{User, UserView};
use crate::shared::cache_aside::Response;
use crate::shared::db::row::{MappingError, MappingErrorView, lemma_bytes_deep_view};
use crate::shared::ids::{Uuid, hyphenated};
use crate::shared::utils::{bu, read_stored_id, stored_id};

verus! {

/// A user as clients see it: without the password hash and the role.
#[derive(Debug, Clone, PartialEq, Eq)]
pub struct UserResponse {
    pub user_id: Uuid,
    pub user_email: String,
    pub user_first_name: String,
    pub user_last_name: String,
    pub user_base_currency_code: String,
}

/// What an [`UserResponse`] stands for.
pub struct UserResponseView {
    pub user_id: Seq<u8>,
    pub user_email: Seq<char>,
    pub user_first_name: Seq<char>,
    pub user_last_name: Seq<char>,
    pub user_base_currency_code: Seq<char>,
}

impl DeepView for UserResponse {
    type V = UserResponseView;

    open spec fn deep_view(&self) -> UserResponseView {
        UserResponseView {
            user_id: self.user_id@,
            user_email: self.user_email@,
            user_first_name: self.user_first_name@,
            user_last_name: self.user_last_name@,
            user_base_currency_code: self.user_base_currency_code@,
        }
    }
}

impl View for UserResponse {
    type V = UserResponseView;

    open spec fn view(&self) -> UserResponseView {
        self.deep_view()
    }
}

/// The cache key of the user `id`.
pub open spec fn user_key(id: Seq<u8>) -> Seq<char> {
    "user:"@ + hyphenated(id)
}

impl UserResponse {
    /// The response that shows an entity whose identity is `id`.
    pub open spec fn of(user: UserView, id: Seq<u8>) -> UserResponseView {
        UserResponseView {
            user_id: id,
            user_email: user.email,
            user_first_name: user.first_name,
            user_last_name: user.last_name,
            user_base_currency_code: user.base_currency_code,
        }
    }

    /// The response that shows `user`, which the store has given an identity.
    pub fn from(user: User) -> (response: UserResponse)
        requires
            <UserResponse as Response>::of_entity(user@) is Ok,
        ensures
            Ok::<UserResponseView, MappingErrorView>(response@) == <UserResponse as Response>
                ::of_entity(
                user@,
            ),
    {
        broadcast use lemma_bytes_deep_view;

        let id = match &user.id {
            Some(bytes) => bu(bytes.as_slice()),
            None => unreached(),
        };
        UserResponse {
            user_id: id,
            user_email: user.email,
            user_first_name: user.first_name,
            user_last_name: user.last_name,
            user_base_currency_code: user.base_currency_code,
        }
    }

    /// The response that shows `user`, which is left as it is.
    pub fn from_ref(user: &User) -> (response: UserResponse)
        requires
            <UserResponse as Response>::of_entity(user@) is Ok,
        ensures
            Ok::<UserResponseView, MappingErrorView>(response@) == <UserResponse as Response>
                ::of_entity(
                user@,
            ),
    {
        broadcast use lemma_bytes_deep_view;

        let id = match &user.id {
            Some(bytes) => bu(bytes.as_slice()),
            None => unreached(),
        };
        UserResponse {
            user_id: id,
            user_email: user.email.clone(),
            user_first_name: user.first_name.clone(),
            user_last_name: user.last_name.clone(),
            user_base_currency_code: user.base_currency_code.clone(),
        }
    }
}

impl Response for UserResponse {
    type Entity = User;

    open spec fn of_entity(entity: UserView) -> Result<UserResponseView, MappingErrorView> {
        match stored_id(entity.id) {
            Err(e) => Err(e),
            Ok(id) => Ok(Self::of(entity, id)),
        }
    }

    open spec fn key_of(response: UserResponseView) -> Seq<char> {
        user_key(response.user_id)
    }

    open spec fn list_keys_of(response: UserResponseView) -> Seq<Seq<char>> {
        Seq::empty()
    }

    fn from_entity(entity: &User) -> (r: Result<Self, MappingError>) {
        match read_stored_id(&entity.id) {
            Err(e) => Err(e),
            Ok(_) => Ok(UserResponse::from_ref(entity)),
        }
    }

    fn duplicate(&self) -> (r: Self) {
        UserResponse {
            user_id: self.user_id,
            user_email: self.user_email.clone(),
            user_first_name: self.user_first_name.clone(),
            user_last_name: self.user_last_name.clone(),
            user_base_currency_code: self.user_base_currency_code.clone(),
        }
    }

    fn cache_key(&self) -> (key: String) {
        let mut key = String::from_str("user:");
        key.append(self.user_id.to_string().as_str());
        key
    }

    fn list_cache_keys(&self) -> (keys: Vec<String>) {
        let keys: Vec<String> = Vec::new();
        assert(keys.deep_view() =~= Seq::<Seq<char>>::empty());
        keys
    }
}

/// The body of a request to create a user.
#[derive(Debug, Clone, PartialEq, Eq)]
pub struct UserCreateRequest {
    pub user_email: String,
    pub user_first_name: String,
    pub user_last_name: String,
    pub user_base_currency_code: String,
}

/// The body of a request to change a user's names.
#[derive(Debug, Clone, PartialEq, Eq)]
pub struct UserUpdateNameRequest {
    pub user_first_name: String,
    pub user_last_name: String,
}

/// The body of a request to change a user's base currency.
#[derive(Debug, Clone, PartialEq, Eq)]
pub struct UserUpdateBaseCurrencyRequest {
    pub user_base_currency_code: String,
}

} // verus!
