//! The author domain: authors with a unique name.

pub mod models;
