//! The data structures of the author domain.

pub mod author;
pub mod errors;
