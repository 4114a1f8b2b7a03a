//! The structured request that the router consumes.

use vstd::prelude::*;

verus! {

/// The request method: `GET`, or any other.
#[derive(Debug, Clone, Copy, PartialEq, Eq, Structural)]
pub enum Method {
    Get,
    Other,
}

/// A parsed request: its method and the resource path, which starts with `/`.
#[derive(Debug, Clone, PartialEq)]
pub struct HttpRequest {
    pub method: Method,
    pub resource: String,
}

} // verus!
