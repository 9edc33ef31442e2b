//! The request descriptor: everything the dispatcher needs to put a call on
//! the wire, built and signed before any I/O happens.

use vstd::prelude::*;

verus! {

/// The HTTP method of a request.
#[derive(Debug, Clone, Copy, PartialEq, Eq, Structural)]
pub enum Method {
    Get,
    Post,
    Delete,
}

/// True when parameters travel in the request body rather than the URL
/// query: the exchange takes POST parameters in the body, GET and DELETE
/// parameters in the query string, under the same canonical encoding.
pub open spec fn carries_body(m: Method) -> bool {
    m == Method::Post
}

/// A fully built request, ready for dispatch. Created per call and consumed
/// once; it performs no I/O itself.
#[derive(Debug, Clone, PartialEq, Eq)]
pub struct RequestDescriptor {
    /// HTTP method.
    pub method: Method,
    /// Path below the exchange's base URL, as bytes.
    pub path: Vec<u8>,
    /// Encoded parameters sent in the URL query string (GET/DELETE).
    pub query: Vec<u8>,
    /// Encoded parameters sent as the request body (POST).
    pub body: Vec<u8>,
    /// Value of the API-key header, present on authenticated requests.
    pub api_key: Option<Vec<u8>>,
    /// The timestamp that was signed into the request, present on signed
    /// requests.
    pub timestamp: Option<u64>,
}

} // verus!
