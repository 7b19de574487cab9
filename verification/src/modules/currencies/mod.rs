//! Currencies and the exchange rates between them.

pub mod currency_command;
pub mod currency_dto;
pub mod currency_model;
pub mod currency_repo;
pub mod currency_service;
