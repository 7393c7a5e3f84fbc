//! Building blocks shared by every domain.

pub mod failure;
pub mod identifier;
pub mod newtypes;
pub mod text;
