//! Credential and session management for a community review site: password
//! hashing, session issuing, a compact transport encoding for session tokens,
//! and validation of presented tokens against the persisted session records.

pub mod credential;
pub mod clock;
pub mod session;
pub mod codec;
pub mod store;
pub mod content;
pub mod config;
pub mod docker;
