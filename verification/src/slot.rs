//! Per-slot busy-cache policy: when to trust a cached "externally busy"
//! observation and when to issue a fresh probe.

use vstd::prelude::*;

verus! {

/// Minimum time, in milliseconds, between repeated probes of a backend
/// recently observed externally busy, applied only while an alternative
/// backend exists.
pub const RECHECK_INTERVAL_MS: u64 = 5000;

/// Outcome of one busy probe against a backend, as seen by the scheduler.
#[derive(Clone, Copy, Debug, PartialEq, Eq)]
pub enum ProbeOutcome {
    /// The backend reported it is not busy.
    Free,
    /// The backend reported it is busy for reasons outside the scheduler's
    /// control.
    Busy,
    /// The probe call itself failed before an answer arrived.
    TransportFailed,
}

impl ProbeOutcome {
    /// Classifies a probe reply. `Some(b)` is the backend's own busy answer;
    /// `None` stands for a transport failure, which the scheduler treats
    /// like a busy report and never surfaces to the caller.
    pub fn of_reply(reply: Option<bool>) -> (r: ProbeOutcome)
        ensures
            r is Free <==> reply == Some(false),
            r is Busy <==> reply == Some(true),
            r is TransportFailed <==> reply is None,
    {
        match reply {
            Some(false) => ProbeOutcome::Free,
            Some(true) => ProbeOutcome::Busy,
            None => ProbeOutcome::TransportFailed,
        }
    }
}

/// The scheduler's cached knowledge about one backend slot.
#[derive(Clone, Copy, Debug, PartialEq, Eq)]
pub struct SlotCache {
    /// When a probe (or a probe failure) last reported the backend
    /// externally busy, as a millisecond reading of a monotonic clock;
    /// `None` once the backend was confirmed free.
    pub busy_since: Option<u64>,
}

/// Milliseconds elapsed from `mark` to `now`, saturating at zero if the
/// clock reads earlier than the mark.
pub open spec fn elapsed_ms(now: u64, mark: u64) -> int {
    if now >= mark {
        now - mark
    } else {
        0
    }
}

/// A probe of this slot is suppressed: the backend was observed busy less
/// than a recheck interval ago, and the pool offers at least one
/// alternative slot to try instead.
pub open spec fn probe_suppressed(cache: SlotCache, now: u64, pool_size: int) -> bool {
    &&& pool_size > 1
    &&& cache.busy_since matches Some(mark) && elapsed_ms(now, mark) < RECHECK_INTERVAL_MS
}

impl SlotCache {
    /// A fresh slot: nothing is cached, so the first scan probes it.
    pub fn new() -> (r: SlotCache)
        ensures
            r.busy_since is None,
    {
        SlotCache { busy_since: None }
    }

    /// Decides whether the scheduler should issue a probe for this slot now,
    /// or skip the slot on the strength of a recent busy observation.
    pub fn should_probe(&self, now: u64, pool_size: usize) -> (r: bool)
        ensures
            r == !probe_suppressed(*self, now, pool_size as int),
    {
        if pool_size <= 1 {
            return true;
        }
        match self.busy_since {
            None => true,
            Some(mark) => {
                let elapsed: u64 = if now >= mark {
                    now - mark
                } else {
                    0
                };
                elapsed >= RECHECK_INTERVAL_MS
            },
        }
    }

    /// Records the outcome of a probe that was actually issued: a busy
    /// report or a transport failure marks the slot busy as of `now`, a free
    /// report clears the mark. Returns true exactly when the backend is
    /// confirmed free and the conversion may start.
    pub fn record_probe(&mut self, outcome: ProbeOutcome, now: u64) -> (selected: bool)
        ensures
            selected == (outcome is Free),
            outcome is Free ==> final(self).busy_since is None,
            !(outcome is Free) ==> final(self).busy_since == Some(now),
    {
        match outcome {
            ProbeOutcome::Free => {
                self.busy_since = None;
                true
            },
            ProbeOutcome::Busy | ProbeOutcome::TransportFailed => {
                self.busy_since = Some(now);
                false
            },
        }
    }
}

/// Recheck suppression: with more than one backend, a slot marked busy at
/// `mark` is skipped without a probe at any instant earlier than
/// `mark + RECHECK_INTERVAL_MS`.
pub proof fn lemma_recheck_suppression(cache: SlotCache, now: u64, pool_size: int)
    requires
        pool_size > 1,
        cache.busy_since matches Some(mark) && now < mark + RECHECK_INTERVAL_MS,
    ensures
        probe_suppressed(cache, now, pool_size),
{
}

/// Once the recheck interval has elapsed the suppression lapses: the next
/// scan probes the slot again. This is the automatic retry after a busy
/// report or a transport failure.
pub proof fn lemma_recheck_expires(cache: SlotCache, now: u64, pool_size: int)
    requires
        cache.busy_since matches Some(mark) && now >= mark + RECHECK_INTERVAL_MS,
    ensures
        !probe_suppressed(cache, now, pool_size),
{
}

/// Sole-backend exemption: with a single backend there is no alternative to
/// try, so a busy mark never suppresses a probe, however recent.
pub proof fn lemma_sole_backend_always_probed(cache: SlotCache, now: u64)
    ensures
        !probe_suppressed(cache, now, 1),
{
}

/// Fail-safe probing, end to end: after a probe failed (or reported busy)
/// at `marked_at`, the slot stays suppressed for exactly one recheck
/// interval while alternatives exist, and becomes probe-eligible again the
/// moment the interval has elapsed.
pub proof fn lemma_failsafe_window(cache: SlotCache, marked_at: u64, now: u64, pool_size: int)
    requires
        cache.busy_since == Some(marked_at),
        pool_size > 1,
    ensures
        now < marked_at + RECHECK_INTERVAL_MS ==> probe_suppressed(cache, now, pool_size),
        now >= marked_at + RECHECK_INTERVAL_MS ==> !probe_suppressed(cache, now, pool_size),
{
}

} // verus!
