//! Request planning for a Firebase Realtime Database REST client.
//!
//! The library decides what is sent and how each outcome is classified; it
//! performs no I/O itself. [`Database`] asks a credential resolver for a token
//! before every call, [`firebase::Database`] holds one token for its whole
//! life, and [`auth`] classifies what the resolver met.

pub mod auth;
pub mod database;
pub mod error;
pub mod firebase;
pub mod request;
pub mod trusted;
pub mod url;

pub use database::Database;
pub use error::FirebaseError;
