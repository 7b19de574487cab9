//! The relational store as the library sees it: typed procedure parameters,
//! result rows, and the mapping from rows to entities.

pub mod mysql;
pub mod param;
pub mod row;
