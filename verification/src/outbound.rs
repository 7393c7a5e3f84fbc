//! What the adapters to the outside decide.

pub mod email_client;
pub mod prometheus;
pub mod sqlite;
