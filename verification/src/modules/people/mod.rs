//! Contacts: the people a user deals with.

pub mod people_command;
pub mod people_dto;
pub mod people_model;
pub mod people_repo;
pub mod people_service;
