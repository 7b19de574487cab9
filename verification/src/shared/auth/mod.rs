//! The authenticated identity and what it may do.

pub mod jwt;
pub mod password;
