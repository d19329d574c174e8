//! Authentication core for a single-resource account service: password
//! hashing and verification, signed-token issuance and validation, and the
//! registration / login orchestration that enforces username uniqueness.

pub mod config;
pub mod user_id;
pub mod errors;
pub mod requests;
pub mod responses;
pub mod argon_security_service;
pub mod jwt_service;
pub mod repository;
pub mod users_service;
