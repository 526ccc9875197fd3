//! Identity establishment for a multi-resource REST backend: a presented
//! bearer token is validated against the identity provider's published
//! signing keys, and the token's subject is resolved to a stable, locally
//! owned user identifier that is created exactly once.
//!
//! Beside the identity core the crate holds the backend's resource types
//! and the decisions of its resource handlers, as functions on plain values.

pub mod auth;
pub mod challenge;
pub mod challenge_answers;
pub mod clock;
pub mod identifier;
pub mod json;
pub mod library;
pub mod migrations;
pub mod preferences;
pub mod solution;
pub mod text;
