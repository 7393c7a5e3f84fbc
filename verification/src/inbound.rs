//! What the adapters that face callers decide.

pub mod http;
