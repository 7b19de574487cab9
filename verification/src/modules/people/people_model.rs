//! Contacts as the store holds them.

use vstd::prelude::*;
use crate::modules::people::people_command::PeopleCreateCommand;
use crate::shared::db::mysql::FromSqlRow;
use crate::shared::db::row::{
    ColumnIndexMap,
    ColumnView,
    MappingError,
    MappingErrorView,
    Row,
    bool_of,
    bytes_of,
    Earliest,
    error_of,
    lemma_bytes_deep_view,
    opt_bytes_of,
    opt_datetime_of,
    opt_text_of,
    text_of,
};
use crate::shared::temporal::DateTimeUtc;
use crate::shared::utils::ub;

verus! {

/// A contact of one user.
#[derive(Debug, Clone, PartialEq, Eq)]
pub struct People {
    /// The sixteen bytes of the identity; none before the store has assigned one.
    pub id: Option<Vec<u8>>,
    /// The sixteen bytes of the owning user's identity.
    pub user_id: Vec<u8>,
    pub name: String,
    pub email: Option<String>,
    pub phone: Option<String>,
    pub image_url: Option<String>,
    pub note: Option<String>,
    /// Set when the contact is put away; an archived contact still exists.
    pub archived: bool,
    pub created_at: Option<DateTimeUtc>,
    pub updated_at: Option<DateTimeUtc>,
}

/// What a [`People`] stands for.
pub struct PeopleView {
    pub id: Option<Seq<u8>>,
    pub user_id: Seq<u8>,
    pub name: Seq<char>,
    pub email: Option<Seq<char>>,
    pub phone: Option<Seq<char>>,
    pub image_url: Option<Seq<char>>,
    pub note: Option<Seq<char>>,
    pub archived: bool,
    pub created_at: Option<DateTimeUtc>,
    pub updated_at: Option<DateTimeUtc>,
}

impl DeepView for People {
    type V = PeopleView;

    open spec fn deep_view(&self) -> PeopleView {
        PeopleView {
            id: self.id.deep_view(),
            user_id: self.user_id@,
            name: self.name@,
            email: self.email.deep_view(),
            phone: self.phone.deep_view(),
            image_url: self.image_url.deep_view(),
            note: self.note.deep_view(),
            archived: self.archived,
            created_at: self.created_at,
            updated_at: self.updated_at,
        }
    }
}

impl View for People {
    type V = PeopleView;

    open spec fn view(&self) -> PeopleView {
        self.deep_view()
    }
}

impl FromSqlRow for People {
    open spec fn row_model(row: Seq<ColumnView>, index: Map<Seq<char>, usize>) -> Result<
        PeopleView,
        MappingErrorView,
    > {
        let id = opt_bytes_of(row, index, "id"@);
        let user_id = bytes_of(row, index, "user_id"@);
        let name = text_of(row, index, "name"@);
        let email = opt_text_of(row, index, "email"@);
        let phone = opt_text_of(row, index, "phone"@);
        let image_url = opt_text_of(row, index, "image_url"@);
        let note = opt_text_of(row, index, "note"@);
        let archived = bool_of(row, index, "archived"@);
        let created_at = opt_datetime_of(row, index, "created_at"@);
        let updated_at = opt_datetime_of(row, index, "updated_at"@);
        match error_of(id)
            .or_later(error_of(user_id))
            .or_later(error_of(name))
            .or_later(error_of(email))
            .or_later(error_of(phone))
            .or_later(error_of(image_url))
            .or_later(error_of(note))
            .or_later(error_of(archived))
            .or_later(error_of(created_at))
            .or_later(error_of(updated_at)) {
            Some(e) => Err(e),
            None => Ok(
                PeopleView {
                    id: id->Ok_0,
                    user_id: user_id->Ok_0,
                    name: name->Ok_0,
                    email: email->Ok_0,
                    phone: phone->Ok_0,
                    image_url: image_url->Ok_0,
                    note: note->Ok_0,
                    archived: archived->Ok_0,
                    created_at: created_at->Ok_0,
                    updated_at: updated_at->Ok_0,
                },
            ),
        }
    }

    fn map_row_to_entity(row: &Row, index_map: &ColumnIndexMap) -> (r: Result<
        Self,
        MappingError,
    >) {
        broadcast use lemma_bytes_deep_view;

        let id = row.get_opt_bytes(index_map, "id")?;
        let user_id = row.get_bytes(index_map, "user_id")?;
        let name = row.get_text(index_map, "name")?;
        let email = row.get_opt_text(index_map, "email")?;
        let phone = row.get_opt_text(index_map, "phone")?;
        let image_url = row.get_opt_text(index_map, "image_url")?;
        let note = row.get_opt_text(index_map, "note")?;
        let archived = row.get_bool(index_map, "archived")?;
        let created_at = row.get_opt_datetime(index_map, "created_at")?;
        let updated_at = row.get_opt_datetime(index_map, "updated_at")?;
        Ok(
            People {
                id,
                user_id,
                name,
                email,
                phone,
                image_url,
                note,
                archived,
                created_at,
                updated_at,
            },
        )
    }
}

impl People {
    /// The contact a create command asks for: owned by the acting user, not
    /// archived, without identity and times, which the store assigns.
    pub fn from(command: PeopleCreateCommand) -> (people: People)
        ensures
            people@ == (PeopleView {
                id: None,
                user_id: command.user_id@,
                name: command.people_name@,
                email: command.people_email.deep_view(),
                phone: command.people_phone.deep_view(),
                image_url: command.people_image_url.deep_view(),
                note: command.people_note.deep_view(),
                archived: false,
                created_at: None,
                updated_at: None,
            }),
    {
        People {
            id: None,
            user_id: ub(command.user_id),
            name: command.people_name,
            email: command.people_email,
            phone: command.people_phone,
            image_url: command.people_image_url,
            note: command.people_note,
            archived: false,
            created_at: None,
            updated_at: None,
        }
    }
}

} // verus!
