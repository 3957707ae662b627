//! A verified core for server-side, token-based sessions.
//!
//! Clients hold an opaque bearer token; the store keeps only its SHA-256
//! digest. Sessions can be looked up by token (refreshing their last-use
//! metadata), listed per user, and revoked.

pub mod address;
pub mod guarantees;
pub mod new_session;
pub mod query;
pub mod store;
pub mod table;
pub mod session;
pub mod token;
