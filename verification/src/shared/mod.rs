//! Building blocks shared by every entity family.

pub mod auth;
pub mod cache_aside;
pub mod cache_model;
pub mod config;
pub mod crud_repository;
pub mod db;
pub mod decimal;
pub mod errors;
pub mod ids;
pub mod log;
pub mod money;
pub mod pagination;
pub mod response;
pub mod security;
pub mod service;
pub mod temporal;
pub mod text;
pub mod utils;
