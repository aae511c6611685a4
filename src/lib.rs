//! Session and access-token lifecycle for a user service: signed claims,
//! password checks, login and refresh against session and credential stores,
//! and the per-request authorization decision.

pub mod auth;
pub mod configuration;
pub mod model;
pub mod repository;
pub mod memory_store;
pub mod password;
pub mod user_service;
pub mod session_service;
pub mod error;
pub mod middleware;
pub mod validation;
