//! Users and their authentication.

pub mod auth;
pub mod user;
