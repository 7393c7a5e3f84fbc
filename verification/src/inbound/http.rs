//! The HTTP interface: what is answered to a request, apart from the
//! transport itself.

use vstd::prelude::*;

pub mod handlers;
pub mod responses;

verus! {

/// Configuration for the HTTP server.
#[derive(Debug, Clone, PartialEq, Eq)]
pub struct HttpServerConfig<'a> {
    pub port: &'a str,
}

/// The status codes that the interface answers with.
#[derive(Clone, Copy, Debug, PartialEq, Eq, Structural)]
pub enum StatusCode {
    Created,
    UnprocessableEntity,
    InternalServerError,
}

impl StatusCode {
    /// The number of the status code.
    pub open spec fn number(self) -> u16 {
        match self {
            StatusCode::Created => 201,
            StatusCode::UnprocessableEntity => 422,
            StatusCode::InternalServerError => 500,
        }
    }

    /// The number of the status code.
    pub fn as_u16(self) -> (number: u16)
        ensures
            number == self.number(),
    {
        match self {
            StatusCode::Created => 201,
            StatusCode::UnprocessableEntity => 422,
            StatusCode::InternalServerError => 500,
        }
    }
}

} // verus!
