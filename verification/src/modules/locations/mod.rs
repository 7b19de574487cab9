//! Locations: the places a user deals with.

pub mod location_command;
pub mod location_dto;
pub mod location_model;
pub mod location_repo;
pub mod location_service;
