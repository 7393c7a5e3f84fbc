//! The blog domain: authors with a unique name and an email address.

pub mod models;
pub mod ports;
