//! The domains, each with its models, and the decisions of their services.

pub mod author;
pub mod blog;
pub mod posts;
pub mod service;
