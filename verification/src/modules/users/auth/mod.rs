//! Signing in.

pub mod auth_command;
pub mod auth_dto;
pub mod auth_service;
