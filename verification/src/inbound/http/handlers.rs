//! One module for each operation that the interface offers.

pub mod create_author;
