use vstd::prelude::*;
use crate::envelope::{TextReply, STATUS_OK};
use crate::host::timestamp_now;

verus! {

/// What the health route reports.
#[derive(Clone, Debug, PartialEq, Eq)]
pub struct HealthReport {
    pub status: String,
    pub timestamp: String,
}

/// The answer of the index route.
pub fn handle_index() -> (reply: TextReply)
    ensures
        reply.status == STATUS_OK,
        reply.text@ == "Rust Worker API v1.0"@,
{
    TextReply { status: STATUS_OK, text: String::from_str("Rust Worker API v1.0") }
}

/// The report of a service that was healthy at `timestamp`.
pub fn health_report(timestamp: String) -> (report: HealthReport)
    ensures
        report.status@ == "healthy"@,
        report.timestamp == timestamp,
{
    HealthReport { status: String::from_str("healthy"), timestamp }
}

/// The answer of the health route: healthy, at the time of the call.
pub fn handle_health() -> (report: HealthReport)
    ensures
        report.status@ == "healthy"@,
{
    health_report(timestamp_now())
}

} // verus!
