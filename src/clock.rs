//! Alignment of a fixed-cadence timer to the slot boundaries of a chain.
use vstd::prelude::*;

verus! {

/// Length of a slot, in seconds.
pub const SECONDS_PER_SLOT: u64 = 12;

/// Seconds since genesis, taken as zero before genesis.
pub open spec fn elapsed(genesis_time: u64, now: u64) -> nat {
    if now >= genesis_time {
        (now - genesis_time) as nat
    } else {
        0
    }
}

/// Whole slots that have passed since genesis.
pub open spec fn intervals_passed_spec(genesis_time: u64, now: u64, slot_duration: u64) -> nat
    recommends
        slot_duration > 0,
{
    elapsed(genesis_time, now) / (slot_duration as nat)
}

/// The first slot boundary strictly after the current slot began.
pub open spec fn next_boundary_spec(genesis_time: u64, now: u64, slot_duration: u64) -> int
    recommends
        slot_duration > 0,
{
    genesis_time + (intervals_passed_spec(genesis_time, now, slot_duration) + 1) * slot_duration
}

/// Seconds to wait until that boundary, taken as zero if it has passed.
pub open spec fn wait_spec(genesis_time: u64, now: u64, slot_duration: u64) -> int
    recommends
        slot_duration > 0,
{
    let b = next_boundary_spec(genesis_time, now, slot_duration);
    if b >= now {
        b - now
    } else {
        0
    }
}

/// When the first tick of the poller falls, computed from the genesis time
/// and the current time.
#[derive(Clone, Copy, Debug, PartialEq, Eq, Structural)]
pub struct Alignment {
    pub intervals_passed: u64,
    pub next_boundary: u64,
    pub wait: u64,
}

/// Computes the next slot boundary after `now` and the wait until it.
pub fn align(genesis_time: u64, now: u64, slot_duration: u64) -> (r: Alignment)
    requires
        slot_duration > 0,
        genesis_time + slot_duration <= u64::MAX,
        now + slot_duration <= u64::MAX,
    ensures
        r.intervals_passed == intervals_passed_spec(genesis_time, now, slot_duration),
        r.next_boundary == next_boundary_spec(genesis_time, now, slot_duration),
        r.wait == wait_spec(genesis_time, now, slot_duration),
{
    let since_genesis: u64 = now.saturating_sub(genesis_time);
    let intervals_passed: u64 = since_genesis / slot_duration;
    proof {
        lemma_boundary_bounds(genesis_time, now, slot_duration);
    }
    let next_boundary: u64 = genesis_time + (intervals_passed + 1) * slot_duration;
    let wait: u64 = next_boundary.saturating_sub(now);
    Alignment { intervals_passed, next_boundary, wait }
}

/// The boundary lies after `now` (or at the first boundary, before genesis)
/// and at most one slot past `max(now, genesis_time)`.
proof fn lemma_boundary_bounds(genesis_time: u64, now: u64, slot_duration: u64)
    requires
        slot_duration > 0,
    ensures
        (intervals_passed_spec(genesis_time, now, slot_duration) + 1) * slot_duration
            <= elapsed(genesis_time, now) + slot_duration,
        (intervals_passed_spec(genesis_time, now, slot_duration) + 1) * slot_duration
            > elapsed(genesis_time, now),
{
    let e = elapsed(genesis_time, now) as int;
    let d = slot_duration as int;
    let q = e / d;
    assert(q * d <= e && e < q * d + d) by (nonlinear_arith)
        requires
            d > 0,
            e >= 0,
            q == e / d,
    ;
    assert((q + 1) * d == q * d + d) by (nonlinear_arith);
}

/// From genesis on, the next boundary lies strictly after `now`, and a whole
/// number of slots after genesis.
pub proof fn lemma_boundary_after_now_on_slot(genesis_time: u64, now: u64, slot_duration: u64)
    requires
        slot_duration > 0,
        now >= genesis_time,
    ensures
        next_boundary_spec(genesis_time, now, slot_duration) > now,
        (next_boundary_spec(genesis_time, now, slot_duration) - genesis_time) % (
        slot_duration as int) == 0,
{
    lemma_boundary_bounds(genesis_time, now, slot_duration);
    let k = intervals_passed_spec(genesis_time, now, slot_duration) + 1;
    let d = slot_duration as int;
    assert((k * d) % d == 0) by (nonlinear_arith)
        requires
            d > 0,
    ;
}

/// Before genesis no time has elapsed, so the first boundary is one slot
/// after genesis.
pub proof fn lemma_before_genesis_first_slot(genesis_time: u64, now: u64, slot_duration: u64)
    requires
        slot_duration > 0,
        now < genesis_time,
    ensures
        elapsed(genesis_time, now) == 0,
        intervals_passed_spec(genesis_time, now, slot_duration) == 0,
        next_boundary_spec(genesis_time, now, slot_duration) == genesis_time + slot_duration,
        wait_spec(genesis_time, now, slot_duration) == genesis_time + slot_duration - now,
{
    assert(0nat / (slot_duration as nat) == 0);
    assert(((0nat + 1) * slot_duration) as int == slot_duration as int) by (nonlinear_arith);
}

} // verus!
