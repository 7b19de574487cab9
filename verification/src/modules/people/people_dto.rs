//! Contacts as clients see them, and the requests that change them.

use vstd::prelude::*;
use vstd::string::StringExecFns;
use crate::modules::people::people_model::{People, PeopleView};
use crate::shared::cache_aside::Response;
use crate::shared::db::row::{MappingError, MappingErrorView, clone_text, lemma_bytes_deep_view};
use crate::shared::ids::{Uuid, hyphenated};
use crate::shared::temporal::DateTimeUtc;
use crate::shared::utils::{bu, read_stored_id, read_stored_owner, stored_id, stored_owner};

verus! {

/// A contact as clients see it.
#[derive(Debug, Clone, PartialEq, Eq)]
pub struct PeopleResponse {
    pub people_id: Uuid,
    pub user_id: Uuid,
    pub people_name: String,
    pub people_email: Option<String>,
    pub people_phone: Option<String>,
    pub people_image_url: Option<String>,
    pub people_note: Option<String>,
    pub people_archived: bool,
    pub people_created_at: Option<DateTimeUtc>,
    pub people_updated_at: Option<DateTimeUtc>,
}

/// What a [`PeopleResponse`] stands for.
pub struct PeopleResponseView {
    pub people_id: Seq<u8>,
    pub user_id: Seq<u8>,
    pub people_name: Seq<char>,
    pub people_email: Option<Seq<char>>,
    pub people_phone: Option<Seq<char>>,
    pub people_image_url: Option<Seq<char>>,
    pub people_note: Option<Seq<char>>,
    pub people_archived: bool,
    pub people_created_at: Option<DateTimeUtc>,
    pub people_updated_at: Option<DateTimeUtc>,
}

impl DeepView for PeopleResponse {
    type V = PeopleResponseView;

    open spec fn deep_view(&self) -> PeopleResponseView {
        PeopleResponseView {
            people_id: self.people_id@,
            user_id: self.user_id@,
            people_name: self.people_name@,
            people_email: self.people_email.deep_view(),
            people_phone: self.people_phone.deep_view(),
            people_image_url: self.people_image_url.deep_view(),
            people_note: self.people_note.deep_view(),
            people_archived: self.people_archived,
            people_created_at: self.people_created_at,
            people_updated_at: self.people_updated_at,
        }
    }
}

impl View for PeopleResponse {
    type V = PeopleResponseView;

    open spec fn view(&self) -> PeopleResponseView {
        self.deep_view()
    }
}

/// The cache key of the contact `id`.
pub open spec fn person_key(id: Seq<u8>) -> Seq<char> {
    "person:"@ + hyphenated(id)
}

/// The cache key of the list of the contacts that `user` owns.
pub open spec fn people_list_key(user: Seq<u8>) -> Seq<char> {
    "user:"@ + hyphenated(user) + ":people"@
}

impl PeopleResponse {
    /// The response that shows an entity whose identity is `id` and whose
    /// owner is `owner`.
    pub open spec fn of(people: PeopleView, id: Seq<u8>, owner: Seq<u8>) -> PeopleResponseView {
        PeopleResponseView {
            people_id: id,
            user_id: owner,
            people_name: people.name,
            people_email: people.email,
            people_phone: people.phone,
            people_image_url: people.image_url,
            people_note: people.note,
            people_archived: people.archived,
            people_created_at: people.created_at,
            people_updated_at: people.updated_at,
        }
    }

    /// The response that shows `people`, which the store has given an identity.
    pub fn from(people: People) -> (response: PeopleResponse)
        requires
            <PeopleResponse as Response>::of_entity(people@) is Ok,
        ensures
            Ok::<PeopleResponseView, MappingErrorView>(response@) == <PeopleResponse as Response>
                ::of_entity(
                people@,
            ),
    {
        broadcast use lemma_bytes_deep_view;

        let id = match &people.id {
            Some(bytes) => bu(bytes.as_slice()),
            None => unreached(),
        };
        let owner = bu(people.user_id.as_slice());
        PeopleResponse {
            people_id: id,
            user_id: owner,
            people_name: people.name,
            people_email: people.email,
            people_phone: people.phone,
            people_image_url: people.image_url,
            people_note: people.note,
            people_archived: people.archived,
            people_created_at: people.created_at,
            people_updated_at: people.updated_at,
        }
    }

    /// The response that shows `people`, which is left as it is.
    pub fn from_ref(people: &People) -> (response: PeopleResponse)
        requires
            <PeopleResponse as Response>::of_entity(people@) is Ok,
        ensures
            Ok::<PeopleResponseView, MappingErrorView>(response@) == <PeopleResponse as Response>
                ::of_entity(
                people@,
            ),
    {
        broadcast use lemma_bytes_deep_view;

        let id = match &people.id {
            Some(bytes) => bu(bytes.as_slice()),
            None => unreached(),
        };
        let owner = bu(people.user_id.as_slice());
        PeopleResponse {
            people_id: id,
            user_id: owner,
            people_name: people.name.clone(),
            people_email: clone_text(&people.email),
            people_phone: clone_text(&people.phone),
            people_image_url: clone_text(&people.image_url),
            people_note: clone_text(&people.note),
            people_archived: people.archived,
            people_created_at: people.created_at,
            people_updated_at: people.updated_at,
        }
    }
}

impl Response for PeopleResponse {
    type Entity = People;

    open spec fn of_entity(entity: PeopleView) -> Result<PeopleResponseView, MappingErrorView> {
        match stored_id(entity.id) {
            Err(e) => Err(e),
            Ok(id) => match stored_owner(entity.user_id) {
                Err(e) => Err(e),
                Ok(owner) => Ok(Self::of(entity, id, owner)),
            },
        }
    }

    open spec fn key_of(response: PeopleResponseView) -> Seq<char> {
        person_key(response.people_id)
    }

    open spec fn list_keys_of(response: PeopleResponseView) -> Seq<Seq<char>> {
        seq![people_list_key(response.user_id)]
    }

    fn from_entity(entity: &People) -> (r: Result<Self, MappingError>) {
        match read_stored_id(&entity.id) {
            Err(e) => Err(e),
            Ok(_) => match read_stored_owner(&entity.user_id) {
                Err(e) => Err(e),
                Ok(_) => Ok(PeopleResponse::from_ref(entity)),
            },
        }
    }

    fn duplicate(&self) -> (r: Self) {
        PeopleResponse {
            people_id: self.people_id,
            user_id: self.user_id,
            people_name: self.people_name.clone(),
            people_email: clone_text(&self.people_email),
            people_phone: clone_text(&self.people_phone),
            people_image_url: clone_text(&self.people_image_url),
            people_note: clone_text(&self.people_note),
            people_archived: self.people_archived,
            people_created_at: self.people_created_at,
            people_updated_at: self.people_updated_at,
        }
    }

    fn cache_key(&self) -> (key: String) {
        let mut key = String::from_str("person:");
        key.append(self.people_id.to_string().as_str());
        key
    }

    fn list_cache_keys(&self) -> (keys: Vec<String>) {
        let mut keys: Vec<String> = Vec::new();
        keys.push(people_list_cache_key(&self.user_id));
        assert(keys.deep_view() =~= seq![people_list_key(self.user_id@)]);
        keys
    }
}

/// Forms the cache key of the list of the contacts that `user` owns.
pub fn people_list_cache_key(user: &Uuid) -> (key: String)
    ensures
        key@ == people_list_key(user@),
{
    let mut key = String::from_str("user:");
    key.append(user.to_string().as_str());
    key.append(":people");
    key
}

/// The body of a request to create a contact.
#[derive(Debug, Clone, PartialEq, Eq)]
pub struct PeopleCreateRequest {
    pub people_name: String,
    pub people_email: Option<String>,
    pub people_phone: Option<String>,
    pub people_image_url: Option<String>,
    pub people_note: Option<String>,
}

/// The body of a request to change a contact's name and details.
#[derive(Debug, Clone, PartialEq, Eq)]
pub struct PeopleUpdateRequest {
    pub people_name: String,
    pub people_email: Option<String>,
    pub people_phone: Option<String>,
    pub people_note: Option<String>,
}

/// The body of a request to archive a contact or to bring it back.
#[derive(Debug, Clone, PartialEq, Eq)]
pub struct PeopleUpdateArchivedRequest {
    pub people_archived: bool,
}

/// The key of a contact is never the key of a list of contacts.
pub proof fn lemma_person_key_is_no_list_key(id: Seq<u8>, user: Seq<u8>)
    ensures
        person_key(id) != people_list_key(user),
{
    reveal_strlit("person:");
    reveal_strlit("user:");
    assert(person_key(id)[0] == 'p');
    assert(people_list_key(user)[0] == 'u');
}

} // verus!
