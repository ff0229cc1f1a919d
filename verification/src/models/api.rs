use vstd::prelude::*;

verus! {

/// HTTP method of a request to the API.
#[derive(Debug, Clone, Copy, PartialEq, Eq, Structural)]
pub enum HttpMethod {
    Post,
    Put,
    Get,
    Patch,
}

/// The answer of the API to a request.
#[derive(Debug, Clone, PartialEq, Eq)]
pub struct ApiResponse {
    pub result: String,
}

} // verus!
