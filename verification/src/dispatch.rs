//! The dispatch scan: one pass over the pool in scan order, the choice of
//! wait strategy when a pass comes up empty, and the scheduler's own error.
//!
//! A pass is driven from outside: the caller tries each slot's exclusive
//! guard without blocking, issues the probes the policy asks for, and hands
//! the answers in. The functions here make every decision — which slot to
//! examine, which to select, how each cache is rewritten — and their
//! contracts pin those decisions down exactly.

use vstd::prelude::*;
use vstd::string::StringExecFns;
use crate::detector::SlotObservation;
use crate::detector::all_blocked;
use crate::slot::ProbeOutcome;
use crate::slot::SlotCache;
use crate::slot::probe_suppressed;

verus! {

/// Delay in milliseconds before the next scan when no free signal can be
/// expected to fire.
pub const POLL_DELAY_MS: u64 = 1000;

/// Upper bound in milliseconds on one wait for the free signal: a safety
/// net against a missed or suppressed signal.
pub const FREE_WAIT_TIMEOUT_MS: u64 = 120000;

/// The scheduler's own error. A backend's conversion failure is never
/// wrapped in this: it is handed back to the caller verbatim.
#[derive(Clone, Copy, Debug, PartialEq, Eq)]
pub enum LoadBalanceError {
    /// The pool was empty at dispatch time.
    NoServers,
}

impl LoadBalanceError {
    /// A human-readable description of the error.
    pub fn message(&self) -> (r: String)
        ensures
            r@ == "no servers available for load balancing"@,
    {
        String::from_str("no servers available for load balancing")
    }
}

/// Guards entry to a dispatch: an empty pool is a configuration error,
/// surfaced here at dispatch time — construction of a pool never fails.
pub fn require_backends(pool_size: usize) -> (r: Result<(), LoadBalanceError>)
    ensures
        r is Ok <==> pool_size > 0,
        pool_size == 0 ==> r == Err::<(), LoadBalanceError>(LoadBalanceError::NoServers),
{
    if pool_size == 0 {
        Err(LoadBalanceError::NoServers)
    } else {
        Ok(())
    }
}

/// How to wait after a scan pass selected nothing.
#[derive(Clone, Copy, Debug, PartialEq, Eq)]
pub enum WaitStrategy {
    /// Sleep `POLL_DELAY_MS`, then rescan. Chosen when nothing in the pool
    /// is progressing on this scheduler's behalf, so no free signal will
    /// fire: waiting on one would hang until the timeout for nothing.
    Poll,
    /// Wait for the free signal, bounded by `FREE_WAIT_TIMEOUT_MS`, then
    /// rescan whether woken or timed out.
    AwaitSignal,
}

/// The wait strategy as a function of the detector's verdict and the
/// number of conversions this pool currently has in flight.
pub open spec fn spec_wait_strategy(externally_blocked: bool, active: nat) -> WaitStrategy {
    if externally_blocked || active == 0 {
        WaitStrategy::Poll
    } else {
        WaitStrategy::AwaitSignal
    }
}

/// Decides how to wait after an empty pass: poll when the pool is
/// externally blocked or nothing is in flight (no signal is coming),
/// otherwise wait for the free signal under its bounded timeout.
pub fn wait_strategy(externally_blocked: bool, active: usize) -> (r: WaitStrategy)
    ensures
        r == spec_wait_strategy(externally_blocked, active as nat),
{
    if externally_blocked || active == 0 {
        WaitStrategy::Poll
    } else {
        WaitStrategy::AwaitSignal
    }
}

/// The whole fallback decision after an empty pass, from the detector's
/// raw observations: poll exactly when every slot reports externally
/// blocked or no conversion is in flight in this pool. With the in-flight
/// count tracked, a caller that waits on the free signal does so only
/// while some conversion is genuinely running, whose completion fires the
/// signal; the bounded timeout backstops a signal missed in the race
/// between the last scan and registering to wait.
pub fn empty_pass_fallback(obs: &Vec<SlotObservation>, active: usize) -> (r: WaitStrategy)
    ensures
        r == spec_wait_strategy(all_blocked(obs@), active as nat),
{
    let blocked = crate::detector::all_externally_blocked(obs);
    wait_strategy(blocked, active)
}

/// The fixed, ordered pool of backend slot caches — the scheduler's own
/// bookkeeping. The backend handles and their exclusive guards live with
/// the caller, indexed alike; membership never changes at runtime.
#[derive(Debug)]
pub struct Pool {
    /// One cache per backend, in scan order.
    pub slots: Vec<SlotCache>,
}

/// Outcome of one scan pass over the pool.
#[derive(Clone, Copy, Debug, PartialEq, Eq)]
pub enum ScanOutcome {
    /// The slot at this index was acquired, probed, and confirmed free:
    /// the conversion runs there, under the guard the caller holds.
    Selected(usize),
    /// No slot could be selected on this pass.
    NoneFree,
}

/// A pass examines a slot — issues a probe — exactly when the caller could
/// take its guard and no recent busy mark suppresses the probe.
pub open spec fn slot_examined(slot: SlotCache, guard_free: bool, now: u64, pool_size: int) -> bool {
    guard_free && !probe_suppressed(slot, now, pool_size)
}

/// A pass selects slot `i`: it examines it and the probe reports free.
pub open spec fn slot_selected(
    slots: Seq<SlotCache>,
    guards_free: Seq<bool>,
    probes: Seq<ProbeOutcome>,
    now: u64,
    i: int,
) -> bool {
    slot_examined(slots[i], guards_free[i], now, slots.len() as int) && probes[i] is Free
}

/// How a pass rewrites one slot it moved past without selecting it: an
/// examined slot answered busy or failed its probe and is marked busy as
/// of `now`; a skipped slot is left untouched.
pub open spec fn slot_after_pass(
    prior: SlotCache,
    updated: SlotCache,
    guard_free: bool,
    probe: ProbeOutcome,
    now: u64,
    pool_size: int,
) -> bool {
    if slot_examined(prior, guard_free, now, pool_size) {
        updated.busy_since == Some(now)
    } else {
        updated == prior
    }
}

impl Pool {
    /// A pool over `count` backends with nothing cached yet. Construction
    /// never fails: an empty pool is legal here and rejected at dispatch
    /// time by `require_backends`.
    pub fn new(count: usize) -> (r: Pool)
        ensures
            r.slots@.len() == count,
            forall|i: int| 0 <= i < count ==> r.slots@[i].busy_since is None,
    {
        let mut slots: Vec<SlotCache> = Vec::new();
        let mut i: usize = 0;
        while i < count
            invariant
                i <= count,
                slots@.len() == i,
                forall|j: int| 0 <= j < i ==> slots@[j].busy_since is None,
            decreases count - i,
        {
            slots.push(SlotCache::new());
            i += 1;
        }
        Pool { slots }
    }

    /// Number of backend slots.
    pub fn len(&self) -> (r: usize)
        ensures
            r == self.slots@.len(),
    {
        self.slots.len()
    }

    /// One scan pass in pool order. `guards_free[i]` says whether the
    /// caller's non-blocking try on slot `i`'s guard succeeded; `probes[i]`
    /// is the answer slot `i`'s backend gives if it is probed on this pass
    /// (unexamined slots never issue theirs). The pass selects the first
    /// slot whose guard was taken, whose probe was not suppressed, and
    /// whose backend answered free; every examined slot before it is
    /// marked busy as of `now`, and every slot past the selection is left
    /// untouched.
    #[verifier::loop_isolation(false)]
    pub fn scan_pass(
        &mut self,
        now: u64,
        guards_free: &Vec<bool>,
        probes: &Vec<ProbeOutcome>,
    ) -> (r: ScanOutcome)
        requires
            guards_free@.len() == old(self).slots@.len(),
            probes@.len() == old(self).slots@.len(),
        ensures
            final(self).slots@.len() == old(self).slots@.len(),
            r matches ScanOutcome::Selected(i) ==> {
                &&& i < old(self).slots@.len()
                &&& slot_selected(old(self).slots@, guards_free@, probes@, now, i as int)
                &&& forall|j: int|
                    0 <= j < i ==> !slot_selected(old(self).slots@, guards_free@, probes@, now, j)
                &&& final(self).slots@[i as int].busy_since is None
                &&& forall|j: int|
                    0 <= j < i ==> slot_after_pass(
                        old(self).slots@[j],
                        final(self).slots@[j],
                        guards_free@[j],
                        probes@[j],
                        now,
                        old(self).slots@.len() as int,
                    )
                &&& forall|j: int|
                    i < j < old(self).slots@.len() ==> final(self).slots@[j] == old(self).slots@[j]
            },
            r is NoneFree ==> forall|j: int|
                0 <= j < old(self).slots@.len() ==> !slot_selected(
                    old(self).slots@,
                    guards_free@,
                    probes@,
                    now,
                    j,
                ),
            r is NoneFree ==> forall|j: int|
                0 <= j < old(self).slots@.len() ==> slot_after_pass(
                    old(self).slots@[j],
                    final(self).slots@[j],
                    guards_free@[j],
                    probes@[j],
                    now,
                    old(self).slots@.len() as int,
                ),
            (exists|j: int|
                0 <= j < old(self).slots@.len() && slot_selected(
                    old(self).slots@,
                    guards_free@,
                    probes@,
                    now,
                    j,
                )) <==> r is Selected,
    {
        let ghost prior = self.slots@;
        let n = self.slots.len();
        let mut i: usize = 0;
        while i < n
            invariant
                n == self.slots@.len(),
                prior.len() == n,
                guards_free@.len() == n,
                probes@.len() == n,
                i <= n,
                forall|j: int|
                    0 <= j < i ==> !slot_selected(prior, guards_free@, probes@, now, j),
                forall|j: int|
                    0 <= j < i ==> slot_after_pass(
                        prior[j],
                        self.slots@[j],
                        guards_free@[j],
                        probes@[j],
                        now,
                        n as int,
                    ),
                forall|j: int| i <= j < n ==> self.slots@[j] == prior[j],
            decreases n - i,
        {
            if guards_free[i] {
                let slot = self.slots[i];
                if slot.should_probe(now, n) {
                    let mut updated = slot;
                    let chosen = updated.record_probe(probes[i], now);
                    self.slots.set(i, updated);
                    if chosen {
                        proof {
                            assert(slot_selected(prior, guards_free@, probes@, now, i as int));
                        }
                        return ScanOutcome::Selected(i);
                    }
                }
            }
            i += 1;
        }
        ScanOutcome::NoneFree
    }
}

/// Mutual exclusion: a conversion is started on a slot only under that
/// slot's exclusive guard. While one caller's conversion is in flight on
/// slot `i`, every other caller's non-blocking try on that guard fails, so
/// no other pass can select slot `i` — at most one conversion ever runs on
/// a slot at a time.
pub proof fn lemma_mutual_exclusion(
    slots: Seq<SlotCache>,
    guards_free: Seq<bool>,
    probes: Seq<ProbeOutcome>,
    now: u64,
    i: int,
)
    requires
        0 <= i < slots.len(),
        !guards_free[i],
    ensures
        !slot_selected(slots, guards_free, probes, now, i),
{
}

/// Liveness under partial contention, pass by pass: the moment any slot is
/// unguarded, probe-eligible, and answers free, a scan pass selects some
/// slot — a caller never falls into the wait path while a backend is
/// available to it.
pub proof fn lemma_scan_progress(
    slots: Seq<SlotCache>,
    guards_free: Seq<bool>,
    probes: Seq<ProbeOutcome>,
    now: u64,
    i: int,
)
    requires
        0 <= i < slots.len(),
        guards_free[i],
        !probe_suppressed(slots[i], now, slots.len() as int),
        probes[i] is Free,
    ensures
        exists|j: int| 0 <= j < slots.len() && slot_selected(slots, guards_free, probes, now, j),
{
    assert(0 <= i < slots.len() && slot_selected(slots, guards_free, probes, now, i));
}

/// A suppressed slot is invisible to a pass: with its busy mark fresh and
/// an alternative backend present, the slot is neither probed nor
/// selected, and its cache comes out of the pass exactly as it went in.
pub proof fn lemma_suppressed_slot_skipped(
    slots: Seq<SlotCache>,
    guards_free: Seq<bool>,
    probes: Seq<ProbeOutcome>,
    updated: SlotCache,
    now: u64,
    i: int,
)
    requires
        0 <= i < slots.len(),
        probe_suppressed(slots[i], now, slots.len() as int),
        slot_after_pass(slots[i], updated, guards_free[i], probes[i], now, slots.len() as int),
    ensures
        !slot_selected(slots, guards_free, probes, now, i),
        updated == slots[i],
{
}

/// All-blocked detection: when every slot reports externally blocked, or
/// no conversion is in flight anywhere in the pool, no free signal is
/// coming; the scheduler then takes the short poll delay rather than the
/// long bounded wait on a signal nothing will fire.
pub proof fn lemma_all_blocked_polls(obs: Seq<SlotObservation>, blocked: bool, active: nat)
    requires
        blocked == all_blocked(obs),
        all_blocked(obs) || active == 0,
    ensures
        spec_wait_strategy(blocked, active) == WaitStrategy::Poll,
{
}

/// The liveness guarantee of tracking the in-flight count: the bounded
/// wait on the free signal is chosen only while some conversion is in
/// flight and the pool is not externally blocked. Whichever conversion
/// finishes fires the signal, so a waiter is woken — or, at worst, times
/// out after `FREE_WAIT_TIMEOUT_MS` and rescans.
pub proof fn lemma_wait_only_under_progress(externally_blocked: bool, active: nat)
    requires
        spec_wait_strategy(externally_blocked, active) == WaitStrategy::AwaitSignal,
    ensures
        !externally_blocked && active > 0,
{
}

} // verus!
