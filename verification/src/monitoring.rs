//! Service counters and gauges, kept as plain saturating integers. Exporting
//! them to a metrics sink is the process's business.

use vstd::prelude::*;

verus! {

/// The service-wide counters and gauges.
#[derive(Clone, Copy, Debug, PartialEq, Eq, Structural, Default)]
pub struct MetricsState {
    pub signing_requests_total: u64,
    pub signing_results_success: u64,
    pub signing_results_failure: u64,
    pub signing_duration_ms_sum: u64,
    pub signing_duration_count: u64,
    pub active_signers: u64,
    pub uptime_seconds: u64,
    pub queue_depth: u64,
}

/// A counter bumped by one, stopping at its ceiling instead of wrapping.
pub open spec fn bumped(c: u64) -> u64 {
    if c < u64::MAX {
        (c + 1) as u64
    } else {
        c
    }
}

fn bump(c: u64) -> (r: u64)
    ensures
        r == bumped(c),
{
    if c < u64::MAX {
        c + 1
    } else {
        c
    }
}

/// Fresh metrics: everything at zero.
pub fn new_metrics() -> (r: MetricsState)
    ensures
        r == (MetricsState {
            signing_requests_total: 0,
            signing_results_success: 0,
            signing_results_failure: 0,
            signing_duration_ms_sum: 0,
            signing_duration_count: 0,
            active_signers: 0,
            uptime_seconds: 0,
            queue_depth: 0,
        }),
{
    MetricsState {
        signing_requests_total: 0,
        signing_results_success: 0,
        signing_results_failure: 0,
        signing_duration_ms_sum: 0,
        signing_duration_count: 0,
        active_signers: 0,
        uptime_seconds: 0,
        queue_depth: 0,
    }
}

/// Counts one accepted signing request.
pub fn record_signing_request(m: &mut MetricsState)
    ensures
        *final(m) == (MetricsState {
            signing_requests_total: bumped(old(m).signing_requests_total),
            ..*old(m)
        }),
{
    m.signing_requests_total = bump(m.signing_requests_total);
}

/// Counts one finished signing session, by outcome.
pub fn record_signing_result(m: &mut MetricsState, success: bool)
    ensures
        success ==> *final(m) == (MetricsState {
            signing_results_success: bumped(old(m).signing_results_success),
            ..*old(m)
        }),
        !success ==> *final(m) == (MetricsState {
            signing_results_failure: bumped(old(m).signing_results_failure),
            ..*old(m)
        }),
{
    if success {
        m.signing_results_success = bump(m.signing_results_success);
    } else {
        m.signing_results_failure = bump(m.signing_results_failure);
    }
}

/// Adds one session's duration to the running histogram sum.
pub fn record_signing_duration(m: &mut MetricsState, duration_ms: u64)
    ensures
        final(m).signing_duration_count == bumped(old(m).signing_duration_count),
        old(m).signing_duration_ms_sum + duration_ms <= u64::MAX
            ==> final(m).signing_duration_ms_sum == old(m).signing_duration_ms_sum + duration_ms,
        old(m).signing_duration_ms_sum + duration_ms > u64::MAX
            ==> final(m).signing_duration_ms_sum == u64::MAX,
        *final(m) == (MetricsState {
            signing_duration_ms_sum: final(m).signing_duration_ms_sum,
            signing_duration_count: final(m).signing_duration_count,
            ..*old(m)
        }),
{
    if m.signing_duration_ms_sum <= u64::MAX - duration_ms {
        m.signing_duration_ms_sum = m.signing_duration_ms_sum + duration_ms;
    } else {
        m.signing_duration_ms_sum = u64::MAX;
    }
    m.signing_duration_count = bump(m.signing_duration_count);
}

/// Sets the live-signer gauge.
pub fn update_active_signers(m: &mut MetricsState, count: u64)
    ensures
        *final(m) == (MetricsState { active_signers: count, ..*old(m) }),
{
    m.active_signers = count;
}

/// Sets the uptime gauge to the seconds elapsed since the process started.
pub fn record_uptime(m: &mut MetricsState, uptime_secs: u64)
    ensures
        *final(m) == (MetricsState { uptime_seconds: uptime_secs, ..*old(m) }),
{
    m.uptime_seconds = uptime_secs;
}

/// Sets the queue-depth gauge.
pub fn record_queue_depth(m: &mut MetricsState, depth: u64)
    ensures
        *final(m) == (MetricsState { queue_depth: depth, ..*old(m) }),
{
    m.queue_depth = depth;
}

} // verus!
