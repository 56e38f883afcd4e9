//! Credential-issuing authentication core: shape validation and normalization of
//! usernames, one-way hashing of secrets, issuing of signed expiring tokens, and the
//! signup and login flows that tie them to a user store.

pub mod text;
pub mod validation;
pub mod error;
pub mod normalize;
pub mod secret;
pub mod model;
pub mod token;
pub mod flow;
pub mod store;
pub mod laws;
pub mod config;
