//! The data structures of the posts domain.

pub mod author;
pub mod errors;
pub mod post;
