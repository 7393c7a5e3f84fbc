//! The posts domain: posts and the authors who write them.

pub mod models;
