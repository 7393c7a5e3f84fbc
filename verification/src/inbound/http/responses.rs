//! The shape that every response body has.

use vstd::prelude::*;

verus! {

/// Generic response structure shared by all API responses.
#[derive(Debug, Clone, PartialEq, Eq)]
pub struct ResponseBody<T> {
    pub status_code: u16,
    pub data: T,
}

/// The response data format for all error responses.
#[derive(Debug, Clone, PartialEq, Eq)]
pub struct ErrorResponseData {
    pub message: String,
}

} // verus!
