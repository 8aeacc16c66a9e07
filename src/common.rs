//! Response shapes shared by the services.

use vstd::prelude::*;

verus! {

/// The answer of a health check.
#[derive(Debug, Clone)]
pub struct HealthResponse {
    pub status: String,
}

impl HealthResponse {
    /// A healthy answer.
    pub fn ok() -> (r: HealthResponse)
        ensures
            r.status@ == "OK"@,
    {
        HealthResponse { status: String::from_str("OK") }
    }
}

/// A bare error body.
#[derive(Debug, Clone)]
pub struct ErrorResponse {
    pub error: String,
}

/// The reply of the echo service to `message`.
pub fn echo_reply(message: &str) -> (r: String)
    ensures
        r@ == "Hello "@ + message@,
{
    String::from_str("Hello ").concat(message)
}

} // verus!
