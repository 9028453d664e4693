//! The upstream client pool's freshness policy.
//!
//! The runtime keeps one pooled HTTP client; this module decides when that
//! client must be replaced. Times are wall-clock milliseconds supplied by
//! the caller: across an execution-environment freeze and thaw a monotonic
//! clock may not advance, while wall-clock time correctly reflects that a
//! long gap may have passed and that pooled connections may be dead.
//!
//! Client identity is modelled by a generation number: the runtime holds
//! one client per generation, so two invocations use the same client
//! instance exactly when they run under the same generation.

use vstd::prelude::*;

verus! {

/// Freshness state of the pooled upstream client.
#[derive(Debug)]
pub struct ClientPool {
    /// Which client instance the runtime currently holds.
    pub generation: u64,
    /// When the last invocation started.
    pub last_invoke_ms: u64,
    /// The idle gap beyond which the client is replaced.
    pub idle_timeout_ms: u64,
}

impl ClientPool {
    /// The gap since the last invocation start exceeds the idle bound.
    /// A last-invocation time in the future counts as no gap at all.
    pub open spec fn spec_expired(self, now_ms: u64) -> bool {
        now_ms - self.last_invoke_ms > self.idle_timeout_ms
    }

    /// How one invocation start changes the pool: the generation steps
    /// exactly when the idle bound was exceeded, and the last-invocation
    /// time becomes `now_ms` — before the request is dispatched, so that a
    /// long-running call cannot by itself expire the next one.
    pub open spec fn spec_invoked(self, now_ms: u64, next: ClientPool, refreshed: bool) -> bool {
        &&& self.generation < u64::MAX
        &&& refreshed == self.spec_expired(now_ms)
        &&& next.generation == if refreshed {
            self.generation + 1
        } else {
            self.generation as int
        }
        &&& next.last_invoke_ms == now_ms
        &&& next.idle_timeout_ms == self.idle_timeout_ms
    }

    /// A fresh pool: generation zero, last use now.
    pub fn new(now_ms: u64, idle_timeout_ms: u64) -> (r: ClientPool)
        ensures
            r.generation == 0,
            r.last_invoke_ms == now_ms,
            r.idle_timeout_ms == idle_timeout_ms,
    {
        ClientPool { generation: 0, last_invoke_ms: now_ms, idle_timeout_ms }
    }

    /// Has the client been idle past the bound?
    pub fn timeout_has_expired(&self, now_ms: u64) -> (r: bool)
        ensures
            r == self.spec_expired(now_ms),
    {
        now_ms > self.last_invoke_ms && now_ms - self.last_invoke_ms > self.idle_timeout_ms
    }

    /// Record an invocation start: report whether the runtime must replace
    /// its client (and step the generation if so), and stamp the
    /// last-invocation time, all before the request is dispatched.
    pub fn on_invoke(&mut self, now_ms: u64) -> (refreshed: bool)
        requires
            old(self).generation < u64::MAX,
        ensures
            old(self).spec_invoked(now_ms, *final(self), refreshed),
    {
        let refreshed = self.timeout_has_expired(now_ms);
        if refreshed {
            self.generation = self.generation + 1;
        }
        self.last_invoke_ms = now_ms;
        refreshed
    }
}

/// Pool freshness across two consecutive invocations, at `t1` and then
/// `t2`: when the gap between them exceeds the idle bound the second
/// invocation runs on a different client instance than the first, and when
/// it does not (the clock even having gone backwards counts as no gap) the
/// second invocation reuses the same instance.
pub proof fn lemma_pool_freshness(
    p0: ClientPool,
    t1: u64,
    p1: ClientPool,
    r1: bool,
    t2: u64,
    p2: ClientPool,
    r2: bool,
)
    requires
        p0.spec_invoked(t1, p1, r1),
        p1.spec_invoked(t2, p2, r2),
    ensures
        t2 - t1 > p1.idle_timeout_ms ==> p2.generation != p1.generation,
        t2 - t1 <= p1.idle_timeout_ms ==> p2.generation == p1.generation,
{
    assert(p1.last_invoke_ms == t1);
}

} // verus!
