//! The health endpoint's answer and the application's identity.

use vstd::prelude::*;

verus! {

/// The status reported by the health endpoint (`ok` on the wire).
#[derive(Debug, Clone, PartialEq, Eq)]
pub enum HealthStatus {
    Healthy,
}

/// The health endpoint's answer: the status, the application name and its version.
#[derive(Debug, Clone, PartialEq, Eq)]
pub struct HealthResponse {
    pub status: HealthStatus,
    pub app: String,
    pub version: String,
}

impl HealthResponse {
    /// A healthy answer for the given application name and version.
    pub fn new(app: &str, version: &str) -> (r: HealthResponse)
        ensures
            r.status is Healthy,
            r.app@ == app@,
            r.version@ == version@,
    {
        HealthResponse { status: HealthStatus::Healthy, app: app.to_owned(), version: version.to_owned() }
    }
}

/// The application's name.
pub fn app_name() -> (name: &'static str)
    ensures
        name@ == "promptogether"@,
{
    "promptogether"
}

/// The application's version.
pub fn app_version() -> (version: &'static str)
    ensures
        version@ == "0.1.0"@,
{
    "0.1.0"
}

} // verus!
