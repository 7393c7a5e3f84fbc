//! The data structures of the blog domain.

pub mod author;
