//! External-block detector: decides whether the whole pool is unavailable
//! for reasons the scheduler cannot be woken from, as opposed to every
//! backend being busy with a conversion this scheduler is running.

use vstd::prelude::*;

verus! {

/// Bounded wait, in milliseconds, the detector spends trying to acquire
/// one slot's guard before presuming the slot locally in use.
pub const DETECTOR_GUARD_TIMEOUT_MS: u64 = 1000;

/// What the detector saw of one slot while walking the pool.
#[derive(Clone, Copy, Debug, PartialEq, Eq)]
pub enum SlotObservation {
    /// The slot's exclusive guard could not be acquired within the bounded
    /// wait: a conversion is presumed to be running there, so a free signal
    /// is still to come.
    Contended,
    /// The guard was acquired; this is the slot's cached busy mark at that
    /// moment.
    Acquired { busy_since: Option<u64> },
}

/// One observed slot counts as externally blocked: its guard was free to
/// take, yet its cache still carries a busy mark.
pub open spec fn observation_blocked(o: SlotObservation) -> bool {
    o matches SlotObservation::Acquired { busy_since } && busy_since is Some
}

/// The whole pool is externally blocked: every slot was acquirable and
/// every one carried a busy mark. A single contended or unmarked slot
/// means some conversion can still finish and fire the free signal.
pub open spec fn all_blocked(obs: Seq<SlotObservation>) -> bool {
    forall|i: int| 0 <= i < obs.len() ==> observation_blocked(obs[i])
}

/// Whether one slot's observation counts as externally blocked.
pub fn slot_blocked(o: &SlotObservation) -> (r: bool)
    ensures
        r == observation_blocked(*o),
{
    match o {
        SlotObservation::Acquired { busy_since: Some(_) } => true,
        _ => false,
    }
}

/// The detector's verdict over the observations of one walk of the pool:
/// blocked only if every slot is. On an empty pool the verdict is blocked
/// vacuously; dispatch rejects an empty pool before ever consulting it.
pub fn all_externally_blocked(obs: &Vec<SlotObservation>) -> (r: bool)
    ensures
        r == all_blocked(obs@),
{
    let n = obs.len();
    let mut i: usize = 0;
    while i < n
        invariant
            i <= n,
            n == obs@.len(),
            forall|j: int| 0 <= j < i ==> observation_blocked(obs@[j]),
        decreases n - i,
    {
        if !slot_blocked(&obs[i]) {
            return false;
        }
        i += 1;
    }
    true
}

} // verus!
