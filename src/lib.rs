//! Authentication and authorization core of a small HTTP user service:
//! password hashing, signed identity tokens, the bearer-token and role checks
//! that protect routes, and the decisions of the auth handlers.
//! Document-store access, the HTTP server and the clock live with the caller,
//! which hands their results to the functions here as plain values.

pub mod error;
pub mod tokens;
pub mod credentials;
pub mod ids;
pub mod models;
pub mod auth_middleware;
pub mod admin_middleware;
pub mod handlers;
