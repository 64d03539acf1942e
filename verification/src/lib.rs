//! Verified core of a small REST backend: credential hashing, signed
//! identity tokens, a request-gating state machine, and a closed error
//! taxonomy with a uniform response envelope.
//!
//! Transport, storage and configuration are collaborators: callers read
//! the signing secret and the clock once at startup and pass them in, and
//! hand storage lookup results to the account service as plain values.

pub mod auth_middleware;
pub mod errors;
pub mod jwt;
pub mod password;
pub mod todo;
pub mod user;
pub mod user_service;
