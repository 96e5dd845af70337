//! Address book server for RustDesk clients: the verified core.
//!
//! The HTTP plumbing, the database and the clock live outside this crate; what
//! stands here are the rules the server applies to the values they produce:
//! configuration resolution, the login rate limiter, address-book access
//! control, the legacy address-book payload, share management and device
//! auto-registration.
pub mod config;
pub mod error;
pub mod models;
pub mod routes;
