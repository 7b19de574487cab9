//! User accounts.

pub mod user_command;
pub mod user_dto;
pub mod user_model;
pub mod user_repo;
pub mod user_service;
