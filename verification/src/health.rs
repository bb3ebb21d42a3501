//! The health-check payload.

use vstd::prelude::*;

verus! {

/// The body of a health-check response.
#[derive(Debug, Clone, Copy)]
pub struct HealthResponse {
    /// Overall service health.
    pub status: &'static str,
    /// The service's name.
    pub service: &'static str,
    /// The service's version.
    pub version: &'static str,
}

/// The fixed payload reported while the service is up.
pub fn health_payload() -> (r: HealthResponse)
    ensures
        r.status@ == "healthy"@,
        r.service@ == "rust-transcoder"@,
        r.version@ == "0.1.0"@,
{
    HealthResponse { status: "healthy", service: "rust-transcoder", version: "0.1.0" }
}

} // verus!
