//! Token issuance, validation, rotation and revocation for a task service:
//! signed access and refresh tokens, password hashing, the registry of
//! outstanding refresh tokens, and the session flows built on them.

pub mod auth;
pub mod clock;
pub mod config;
pub mod error;
pub mod json;
pub mod jwt;
pub mod middleware;
pub mod passwords;
pub mod session;
pub mod store;
pub mod task;
pub mod text;
pub mod users;
pub mod validation;
