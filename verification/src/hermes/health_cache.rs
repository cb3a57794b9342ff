//! Short-lived memory of whether the Hermes gateway is healthy.

use vstd::prelude::*;

use crate::text::{
    ascii_lowered, decimal, decimal_u64, join2, join3, opt_copy, opt_text, same_ignoring_ascii_case,
};

verus! {

/// What a probe found.
#[derive(Debug, PartialEq)]
pub struct HealthSnapshot {
    pub healthy: bool,
    pub reason: Option<String>,
}

impl HealthSnapshot {
    /// A copy of this snapshot.
    pub fn copy(&self) -> (r: HealthSnapshot)
        ensures
            r == *self,
    {
        HealthSnapshot { healthy: self.healthy, reason: opt_copy(&self.reason) }
    }
}

/// How a health probe ended.
pub enum Probe {
    /// The gateway answered with this status.
    Answered(String),
    /// The request failed.
    Failed(String),
    /// No answer came in time.
    TimedOut,
}

/// The shortest time that a probe is given, in milliseconds.
pub const SHORTEST_PROBE_MS: u64 = 50;

/// How long a probe may take.
pub fn probe_timeout_ms(timeout_ms: u64) -> (r: u64)
    ensures
        r == (if timeout_ms < SHORTEST_PROBE_MS {
            SHORTEST_PROBE_MS
        } else {
            timeout_ms
        }),
{
    if timeout_ms < SHORTEST_PROBE_MS {
        SHORTEST_PROBE_MS
    } else {
        timeout_ms
    }
}

/// What the end of a probe says about the gateway: it is healthy exactly when it
/// answered `ok`, whatever the case of the letters.
pub fn snapshot_of(probe: &Probe, timeout_ms: u64) -> (r: HealthSnapshot)
    ensures
        match *probe {
            Probe::Answered(status) => if ascii_lowered(status@) == ascii_lowered("ok"@) {
                r.healthy && r.reason is None
            } else {
                !r.healthy && opt_text(r.reason) == Some("status="@ + status@)
            },
            Probe::Failed(error) => !r.healthy && opt_text(r.reason) == Some(error@),
            Probe::TimedOut => !r.healthy && opt_text(r.reason) == Some(
                "health probe timeout after "@ + decimal(timeout_ms as nat) + "ms"@,
            ),
        },
{
    match probe {
        Probe::Answered(status) => if same_ignoring_ascii_case(status.as_str(), "ok") {
            HealthSnapshot { healthy: true, reason: None }
        } else {
            HealthSnapshot { healthy: false, reason: Some(join2("status=", status.as_str())) }
        },
        Probe::Failed(error) => HealthSnapshot { healthy: false, reason: Some(error.clone()) },
        Probe::TimedOut => HealthSnapshot {
            healthy: false,
            reason: Some(
                join3("health probe timeout after ", decimal_u64(timeout_ms).as_str(), "ms"),
            ),
        },
    }
}

/// A snapshot and when it was taken, in nanoseconds of a clock that never goes
/// back.
struct CacheEntry {
    snapshot: HealthSnapshot,
    checked_at_ns: u64,
}

/// Remembers the last snapshot for a while.
pub struct HealthCache {
    ttl_ms: u64,
    entry: Option<CacheEntry>,
}

/// Whether something that happened at `then` is at most `ttl_ms` old at `now`.
pub open spec fn fresh(then: u64, now: u64, ttl_ms: u64) -> bool {
    now - then <= ttl_ms * 1_000_000
}

impl HealthCache {
    /// How long a snapshot stays valid.
    pub closed spec fn ttl(&self) -> u64 {
        self.ttl_ms
    }

    /// The snapshot that is remembered, with its time.
    pub closed spec fn kept(&self) -> Option<(HealthSnapshot, u64)> {
        match self.entry {
            Some(e) => Some((e.snapshot, e.checked_at_ns)),
            None => None,
        }
    }

    /// A cache that remembers nothing yet.
    pub fn new(ttl_ms: u64) -> (r: HealthCache)
        ensures
            r.ttl() == ttl_ms,
            r.kept() is None,
    {
        HealthCache { ttl_ms, entry: None }
    }

    /// The remembered snapshot, while it is valid.
    pub fn peek(&self, now_ns: u64) -> (r: Option<HealthSnapshot>)
        ensures
            r == (match self.kept() {
                Some((s, then)) => if fresh(then, now_ns, self.ttl()) {
                    Some(s)
                } else {
                    None
                },
                None => None,
            }),
    {
        match &self.entry {
            Some(e) => {
                let age: u128 = if now_ns > e.checked_at_ns {
                    (now_ns - e.checked_at_ns) as u128
                } else {
                    0
                };
                let limit: u128 = self.ttl_ms as u128 * 1_000_000;
                if age <= limit {
                    Some(e.snapshot.copy())
                } else {
                    None
                }
            },
            None => None,
        }
    }

    /// Remembers a snapshot.
    pub fn insert(&mut self, snapshot: HealthSnapshot, now_ns: u64)
        ensures
            final(self).kept() == Some((snapshot, now_ns)),
            final(self).ttl() == old(self).ttl(),
    {
        self.entry = Some(CacheEntry { snapshot, checked_at_ns: now_ns });
    }

    /// Forgets the snapshot.
    pub fn invalidate(&mut self)
        ensures
            final(self).kept() is None,
            final(self).ttl() == old(self).ttl(),
    {
        self.entry = None;
    }
}

/// A snapshot is served again at the same moment, and not after its time.
pub proof fn law_snapshot_lives_for_ttl(then: u64, now: u64, ttl_ms: u64)
    requires
        then <= now,
    ensures
        fresh(then, then, ttl_ms),
        fresh(then, now, ttl_ms) <==> now <= then + ttl_ms * 1_000_000,
{
}

} // verus!
