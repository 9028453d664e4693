//! The readiness prober's decisions.
//!
//! The runtime performs one probe attempt at a time — an HTTP GET or a TCP
//! connect — and hands the observed outcome here; this module decides
//! whether the application is ready, whether an async-init deadline has
//! passed, and whether a progress line is due.

use vstd::prelude::*;
use crate::checkpoint::Checkpoint;

verus! {

/// The healthy-status set: the probe statuses the configuration treats as
/// "the application is up" — every code from 100 up to, but not
/// including, the configured minimum unhealthy status.
pub open spec fn healthy_codes(min_unhealthy: u16) -> Set<u16> {
    Set::new(|c: u16| 100 <= c < min_unhealthy)
}

/// The prober reports an HTTP probe ready exactly when its status code is
/// a member of the healthy-status set.
pub fn probe_status_ready(min_unhealthy: u16, status: u16) -> (r: bool)
    ensures
        r == healthy_codes(min_unhealthy).contains(status),
{
    100 <= status && status < min_unhealthy
}

/// What one probe attempt observed.
#[derive(Clone, Copy, Debug, PartialEq, Eq, Structural)]
pub enum ProbeOutcome {
    /// An HTTP probe got a response with this status.
    Status(u16),
    /// A TCP probe connected (the connection is closed at once).
    Connected,
    /// The attempt failed in transport: no response, no connection.
    Failed,
}

/// Readiness of one observed outcome: an HTTP status in the healthy set,
/// or a successful TCP connection. A transport failure is never ready.
pub open spec fn probe_ready_spec(min_unhealthy: u16, outcome: ProbeOutcome) -> bool {
    match outcome {
        ProbeOutcome::Status(c) => healthy_codes(min_unhealthy).contains(c),
        ProbeOutcome::Connected => true,
        ProbeOutcome::Failed => false,
    }
}

/// What the probe loop does next.
#[derive(Clone, Copy, Debug, PartialEq, Eq, Structural)]
pub enum ProbeStep {
    /// The application is ready: stop probing.
    Ready,
    /// Not ready: wait the fixed delay and try again.
    Retry,
    /// Not ready and the deadline has passed: give up without error and
    /// let a later invocation probe again.
    DeadlineExpired,
}

/// The fixed delay between probe attempts, in milliseconds.
pub const PROBE_RETRY_DELAY_MS: u64 = 10;

/// One readiness-probing session: the configuration the probe loop
/// decides by, and the progress-logging checkpoint.
#[derive(Debug)]
pub struct ProbeSession {
    /// A probe status below this bound (and at or above 100) is healthy.
    pub min_unhealthy_status: u16,
    /// The wall-clock time at which to give up, if the wait is bounded.
    pub deadline_ms: Option<u64>,
    /// Progress logging for the wait.
    pub checkpoint: Checkpoint,
}

impl ProbeSession {
    /// The session's deadline, if any, has passed.
    pub open spec fn spec_deadline_passed(self, now_ms: u64) -> bool {
        match self.deadline_ms {
            Some(d) => now_ms >= d,
            None => false,
        }
    }

    /// Begin probing at `now_ms`. With `deadline_ms` the wait is bounded
    /// (async init); without it the loop retries until ready.
    pub fn new(min_unhealthy_status: u16, now_ms: u64, deadline_ms: Option<u64>) -> (r:
        ProbeSession)
        ensures
            r.min_unhealthy_status == min_unhealthy_status,
            r.deadline_ms == deadline_ms,
            r.checkpoint.start_ms == now_ms,
    {
        ProbeSession { min_unhealthy_status, deadline_ms, checkpoint: Checkpoint::new(now_ms) }
    }

    /// Report whether a progress line is due before the next attempt,
    /// advancing the checkpoint when one is.
    pub fn should_log(&mut self, now_ms: u64) -> (log: bool)
        ensures
            log == old(self).checkpoint.spec_lapsed(now_ms),
            final(self).min_unhealthy_status == old(self).min_unhealthy_status,
            final(self).deadline_ms == old(self).deadline_ms,
            final(self).checkpoint.start_ms == old(self).checkpoint.start_ms,
    {
        self.checkpoint.poll(now_ms)
    }

    /// Decide what the loop does after one attempt: ready stops it, an
    /// expired deadline abandons it, anything else retries after the fixed
    /// delay.
    pub fn evaluate(&self, now_ms: u64, outcome: &ProbeOutcome) -> (step: ProbeStep)
        ensures
            step == ProbeStep::Ready <==> probe_ready_spec(self.min_unhealthy_status, *outcome),
            step == ProbeStep::DeadlineExpired <==> !probe_ready_spec(
                self.min_unhealthy_status,
                *outcome,
            ) && self.spec_deadline_passed(now_ms),
            step == ProbeStep::Retry <==> !probe_ready_spec(self.min_unhealthy_status, *outcome)
                && !self.spec_deadline_passed(now_ms),
    {
        let ready = match outcome {
            ProbeOutcome::Status(c) => probe_status_ready(self.min_unhealthy_status, *c),
            ProbeOutcome::Connected => true,
            ProbeOutcome::Failed => false,
        };
        if ready {
            ProbeStep::Ready
        } else {
            let deadline_passed = match self.deadline_ms {
                Some(d) => now_ms >= d,
                None => false,
            };
            if deadline_passed {
                ProbeStep::DeadlineExpired
            } else {
                ProbeStep::Retry
            }
        }
    }
}

} // verus!
