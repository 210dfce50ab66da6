//! The health report.

use vstd::prelude::*;
use crate::text::owned;

verus! {

/// The health of the service and of its database.
#[derive(Debug, Clone)]
pub struct HealthResponse {
    pub status: String,
    pub version: String,
    pub database: String,
}

/// The report for a database that answered or not: healthy with status
/// 200, or degraded (the database unhealthy) with status 503.
pub fn health_report(database_ok: bool, version: &str) -> (r: (u16, HealthResponse))
    ensures
        database_ok ==> r.0 == 200 && r.1.status@ == "healthy"@ && r.1.database@ == "healthy"@,
        !database_ok ==> r.0 == 503 && r.1.status@ == "degraded"@ && r.1.database@ == "unhealthy"@,
        r.1.version@ == version@,
{
    if database_ok {
        (200, HealthResponse { status: owned("healthy"), version: owned(version), database: owned("healthy") })
    } else {
        (503, HealthResponse { status: owned("degraded"), version: owned(version), database: owned("unhealthy") })
    }
}

} // verus!
