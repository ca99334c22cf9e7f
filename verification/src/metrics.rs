//! What the store client reports at one tick of the dashboard.

use vstd::prelude::*;

verus! {

/// Cumulative counters and latencies, taken once per tick.
#[derive(Clone, Copy, Debug, PartialEq, Eq, Structural)]
pub struct MetricsSnapshot {
    /// Queries issued so far.
    pub queries_num: u64,
    /// Pages requested by iterating queries so far.
    pub queries_iter_num: u64,
    /// Errors of queries so far.
    pub errors_num: u64,
    /// Errors of iterating queries so far.
    pub errors_iter_num: u64,
    /// Average latency in milliseconds, where the client has one.
    pub latency_avg_ms: Option<u64>,
    /// 99.9th percentile of the latency in milliseconds, where the client has one.
    pub latency_percentile_ms: Option<u64>,
}

/// A latency as it is recorded: zero where the client reported none.
pub open spec fn latency_or_zero(latency: Option<u64>) -> u64 {
    match latency {
        Some(millis) => millis,
        None => 0,
    }
}

} // verus!
