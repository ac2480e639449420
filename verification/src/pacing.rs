//! The rate pacer: how long to wait so that cycles keep the target interval.

use vstd::prelude::*;

verus! {

/// Frames per second that the caster aims at.
pub const TARGET_FRAMERATE: u64 = 20;

/// The target interval between two frames, in milliseconds.
pub const FRAME_DURATION_MILLIS: u64 = 1000 / TARGET_FRAMERATE;

/// The target interval between two frames, in nanoseconds.
pub const FRAME_DURATION_NANOS: u64 = FRAME_DURATION_MILLIS * 1_000_000;

/// What the pacer does at the end of a cycle.
#[derive(Debug, Clone, Copy, PartialEq, Eq)]
pub enum Pacing {
    /// The cycle was short: sleep for the rest of the interval.
    Sleep { nanos: u64 },
    /// The cycle took the whole interval or more: warn and go on at once.
    Overrun,
}

/// What `sync` decides for a cycle that took `elapsed` of a `target` interval.
pub open spec fn pacing_spec(elapsed: int, target: int) -> Pacing {
    if elapsed < target {
        Pacing::Sleep { nanos: (target - elapsed) as u64 }
    } else {
        Pacing::Overrun
    }
}

/// Paces a cycle that has taken `elapsed_nanos` so far against
/// `target_nanos`: the rest of the interval is slept, an overrun is not.
pub fn sync(elapsed_nanos: u128, target_nanos: u64) -> (pacing: Pacing)
    ensures
        pacing == pacing_spec(elapsed_nanos as int, target_nanos as int),
        pacing matches Pacing::Sleep { nanos } ==> 0 < nanos <= target_nanos && elapsed_nanos + nanos
            == target_nanos,
{
    if elapsed_nanos < target_nanos as u128 {
        Pacing::Sleep { nanos: target_nanos - (elapsed_nanos as u64) }
    } else {
        Pacing::Overrun
    }
}

/// Paces a cycle against the caster's frame interval.
pub fn sync_frame_rate(elapsed_nanos: u128) -> (pacing: Pacing)
    ensures
        pacing == pacing_spec(elapsed_nanos as int, FRAME_DURATION_NANOS as int),
        FRAME_DURATION_NANOS == 50_000_000,
{
    sync(elapsed_nanos, FRAME_DURATION_NANOS)
}

} // verus!
