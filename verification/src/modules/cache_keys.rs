//! The cache keys of the entity families never run into each other.

use vstd::prelude::*;
use crate::modules::currencies::currency_dto::{
    currency_key,
    currency_list_key,
    fx_rate_key,
    fx_rate_list_key,
};
use crate::modules::locations::location_dto::{location_key, location_list_key};
use crate::modules::people::people_dto::{people_list_key, person_key};
use crate::modules::users::user::user_dto::user_key;
use crate::shared::ids::lemma_hyphenated_len;

verus! {

/// Each family of entities has a namespace of its own: no key of one family
/// is a key of another, whatever the code and the identities. Within the
/// keys that begin with `user:`, a user, a user's contacts and a user's
/// locations differ in length.
pub proof fn key_namespaces_are_disjoint(code: Seq<char>, a: Seq<u8>, b: Seq<u8>)
    requires
        a.len() == 16,
        b.len() == 16,
    ensures
        currency_key(code) != fx_rate_key(a),
        currency_key(code) != fx_rate_list_key(),
        currency_key(code) != person_key(a),
        currency_key(code) != location_key(a),
        currency_key(code) != user_key(a),
        currency_key(code) != people_list_key(a),
        currency_key(code) != location_list_key(a),
        currency_list_key() != fx_rate_key(a),
        currency_list_key() != fx_rate_list_key(),
        currency_list_key() != person_key(a),
        currency_list_key() != location_key(a),
        currency_list_key() != user_key(a),
        fx_rate_key(a) != person_key(b),
        fx_rate_key(a) != location_key(b),
        fx_rate_key(a) != user_key(b),
        fx_rate_key(a) != people_list_key(b),
        fx_rate_key(a) != location_list_key(b),
        fx_rate_list_key() != person_key(a),
        fx_rate_list_key() != location_key(a),
        fx_rate_list_key() != user_key(a),
        person_key(a) != location_key(b),
        person_key(a) != user_key(b),
        person_key(a) != people_list_key(b),
        person_key(a) != location_list_key(b),
        location_key(a) != user_key(b),
        location_key(a) != people_list_key(b),
        location_key(a) != location_list_key(b),
        user_key(a) != people_list_key(b),
        user_key(a) != location_list_key(b),
        people_list_key(a) != location_list_key(b),
{
    reveal_strlit("currency:");
    reveal_strlit("currency:list");
    reveal_strlit("fx_rate:");
    reveal_strlit("fx_rate:list");
    reveal_strlit("person:");
    reveal_strlit("location:");
    reveal_strlit("user:");
    reveal_strlit(":people");
    reveal_strlit(":location");
    lemma_hyphenated_len(a);
    lemma_hyphenated_len(b);
    assert(currency_key(code)[0] == 'c');
    assert(currency_list_key()[0] == 'c');
    assert(fx_rate_key(a)[0] == 'f');
    assert(fx_rate_list_key()[0] == 'f');
    assert(person_key(a)[0] == 'p');
    assert(person_key(b)[0] == 'p');
    assert(location_key(a)[0] == 'l');
    assert(location_key(b)[0] == 'l');
    assert(user_key(a)[0] == 'u');
    assert(user_key(b)[0] == 'u');
    assert(people_list_key(a)[0] == 'u');
    assert(people_list_key(b)[0] == 'u');
    assert(location_list_key(a)[0] == 'u');
    assert(location_list_key(b)[0] == 'u');
    assert(user_key(a).len() == 41);
    assert(people_list_key(b).len() == 48);
    assert(location_list_key(b).len() == 50);
    assert(people_list_key(a).len() == 48);
}

} // verus!
