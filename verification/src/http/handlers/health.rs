//! `GET /api/health`: public, no API key required (a liveness probe that runs one
//! trivial query against the database).

use vstd::prelude::*;

verus! {

/// What the liveness probe answers: its status code, an optional `Cache-Control`
/// value, and the two fields of its JSON body.
#[derive(Debug, Clone, Copy)]
pub struct HealthReport {
    pub status: u16,
    pub cache_control: Option<&'static str>,
    pub status_text: &'static str,
    pub database_text: &'static str,
}

/// A working database is a cacheable 200 `{"status":"ok","database":"ok"}`; a failed
/// query is a 503 `{"status":"error","database":"query failed"}`.
pub open spec fn health_report_for(database_up: bool, r: HealthReport) -> bool {
    if database_up {
        &&& r.status == 200
        &&& r.cache_control matches Some(c) && c@ == "public, max-age=60, stale-while-revalidate=300"@
        &&& r.status_text@ == "ok"@
        &&& r.database_text@ == "ok"@
    } else {
        &&& r.status == 503
        &&& r.cache_control is None
        &&& r.status_text@ == "error"@
        &&& r.database_text@ == "query failed"@
    }
}

/// The reply of the liveness probe, given whether its query succeeded.
pub fn health_report(database_up: bool) -> (r: HealthReport)
    ensures
        health_report_for(database_up, r),
{
    if database_up {
        HealthReport {
            status: 200,
            cache_control: Some("public, max-age=60, stale-while-revalidate=300"),
            status_text: "ok",
            database_text: "ok",
        }
    } else {
        HealthReport { status: 503, cache_control: None, status_text: "error", database_text: "query failed" }
    }
}

} // verus!
