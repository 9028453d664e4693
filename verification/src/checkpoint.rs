//! A logging checkpoint for long waits: it remembers when the wait began
//! and when the next progress line is due, so that a tight retry loop logs
//! once per interval instead of once per attempt.

use vstd::prelude::*;

verus! {

/// The default spacing of progress lines, in milliseconds.
pub const CHECKPOINT_INTERVAL_MS: u64 = 2000;

/// Progress-logging state for a long wait. All times are wall-clock
/// milliseconds supplied by the caller.
#[derive(Debug)]
pub struct Checkpoint {
    /// When the wait began.
    pub start_ms: u64,
    /// How far apart progress lines are due.
    pub interval_ms: u64,
    /// The elapsed wait, relative to `start_ms`, at which the next
    /// progress line is due.
    pub next_ms: u64,
}

impl Checkpoint {
    /// The elapsed wait has crossed the next due point.
    pub open spec fn spec_lapsed(self, now_ms: u64) -> bool {
        now_ms - self.start_ms > self.next_ms
    }

    /// `self` with the due point advanced by one interval (to the top of
    /// the counter's range at worst).
    pub open spec fn spec_incremented(self) -> Checkpoint {
        Checkpoint {
            next_ms: if self.next_ms + self.interval_ms <= u64::MAX {
                (self.next_ms + self.interval_ms) as u64
            } else {
                u64::MAX
            },
            ..self
        }
    }

    /// Begin a wait at `now_ms`, with the first progress line due one
    /// default interval later.
    pub fn new(now_ms: u64) -> (r: Checkpoint)
        ensures
            r.start_ms == now_ms,
            r.interval_ms == CHECKPOINT_INTERVAL_MS,
            r.next_ms == CHECKPOINT_INTERVAL_MS,
    {
        Checkpoint {
            start_ms: now_ms,
            interval_ms: CHECKPOINT_INTERVAL_MS,
            next_ms: CHECKPOINT_INTERVAL_MS,
        }
    }

    /// Has the wait crossed the next due point?
    pub fn lapsed(&self, now_ms: u64) -> (r: bool)
        ensures
            r == self.spec_lapsed(now_ms),
    {
        now_ms > self.start_ms && now_ms - self.start_ms > self.next_ms
    }

    /// Advance the due point by one interval.
    pub fn increment(&mut self)
        ensures
            *final(self) == old(self).spec_incremented(),
    {
        if self.next_ms <= u64::MAX - self.interval_ms {
            self.next_ms = self.next_ms + self.interval_ms;
        } else {
            self.next_ms = u64::MAX;
        }
    }

    /// Report whether a progress line is due, advancing the due point when
    /// one is: a wait that loops on this logs once per interval.
    pub fn poll(&mut self, now_ms: u64) -> (log: bool)
        ensures
            log == old(self).spec_lapsed(now_ms),
            *final(self) == if old(self).spec_lapsed(now_ms) {
                old(self).spec_incremented()
            } else {
                *old(self)
            },
    {
        if self.lapsed(now_ms) {
            self.increment();
            true
        } else {
            false
        }
    }
}

} // verus!
