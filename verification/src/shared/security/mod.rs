//! Keeping secrets at rest.

pub mod encryption;
