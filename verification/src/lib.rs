//! Verified core of a REST backend for a 3D-model sharing platform.
//!
//! The library holds the platform's logic: error classification, claims
//! and token handling, validation, authorization rules, pagination
//! arithmetic, upload-name handling, and the SQL statements each
//! operation issues, together with their bind lists. The surrounding
//! binary wires this logic to the HTTP framework, the database driver
//! and the file system.

pub mod auth;
pub mod clock;
pub mod config;
pub mod errors;
pub mod files;
pub mod likes;
pub mod model;
pub mod pagination;
pub mod query;
pub mod routes;
pub mod text;
pub mod user;
pub mod warning;
