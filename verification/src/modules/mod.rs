//! The entity families: users, currencies and exchange rates, people,
//! locations.

pub mod cache_keys;
pub mod currencies;
pub mod locations;
pub mod people;
pub mod users;
