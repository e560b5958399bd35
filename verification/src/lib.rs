//! A credential store over the platform's native secret storage.
//!
//! Passwords and binary secrets are kept under a (service, account) identity.
//! The store itself holds no state: every operation is at most one read and
//! one write against the platform store, reached through the `keyring` crate.

pub mod error;
pub mod laws;
pub mod model;
pub mod platform;
pub mod protocol;
pub mod store;

pub use error::StoreError;
pub use store::{init, Keyring};
