//! Deadlines on the clock of the transport.
//!
//! The clock counts nanoseconds from a fixed start. Deadlines are wider than
//! readings of the clock, so that every timeout has one.

use vstd::prelude::*;

verus! {

/// The instant `timeout_millis` milliseconds after `now`.
pub open spec fn instant_after(now: u64, timeout_millis: u64) -> u128 {
    (now + timeout_millis * 1_000_000) as u128
}

/// The instant `timeout_millis` milliseconds after `now`.
pub fn deadline_after(now: u64, timeout_millis: u64) -> (deadline: u128)
    ensures
        deadline == instant_after(now, timeout_millis),
        deadline == now + timeout_millis * 1_000_000,
{
    now as u128 + timeout_millis as u128 * 1_000_000
}

/// Whether `deadline` has come at `now`.
pub fn has_expired(deadline: u128, now: u64) -> (expired: bool)
    ensures
        expired == (deadline <= now),
{
    deadline <= now as u128
}

} // verus!
