//! Bulk, best-effort removal of an account's posts and comments, and the
//! rules for submitting new posts, as pure decision logic: every function
//! here maps plain values to plain values and leaves the network to its
//! caller.

pub mod app;
pub mod client;
pub mod error;
pub mod purge;
pub mod reddit;
pub mod settings;
