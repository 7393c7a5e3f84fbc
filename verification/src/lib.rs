//! Author creation behind ports and adapters: validated value types, a closed
//! error taxonomy, and the decisions of the service and of the transactional
//! storage adapter, stated as contracts.

pub mod common;
pub mod config;
pub mod domain;
pub mod inbound;
pub mod outbound;
pub mod routes;
