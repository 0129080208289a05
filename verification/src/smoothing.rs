//! Critically-bounded interpolation: a scalar is moved toward a target by at
//! most a per-tick budget, never overshooting. The ship uses it for pitch,
//! yaw, camera offset and the thrust ramp.

use vstd::prelude::*;

verus! {

/// What one smoothing step yields: `current` moved toward `target` by at
/// most `delta`, stopping exactly on the target.
pub open spec fn spec_transition(current: int, target: int, delta: int) -> int {
    if current < target {
        if current + delta < target {
            current + delta
        } else {
            target
        }
    } else {
        if current - delta > target {
            current - delta
        } else {
            target
        }
    }
}

/// Moves `current` toward `target` by at most `delta` (a rate already
/// multiplied by the tick's duration), never overshooting: the result lies
/// between `current` and `target` inclusive, and equals `target` as soon as
/// the remaining distance is within `delta`.
pub fn transition_to_target(current: i64, target: i64, delta: i64) -> (r: i64)
    requires
        delta >= 0,
        -0x2000_0000_0000_0000 <= current <= 0x2000_0000_0000_0000,
        -0x2000_0000_0000_0000 <= target <= 0x2000_0000_0000_0000,
        delta <= 0x2000_0000_0000_0000,
    ensures
        r == spec_transition(current as int, target as int, delta as int),
        current <= target ==> current <= r <= target,
        current >= target ==> target <= r <= current,
        target - delta <= current <= target + delta ==> r == target,
{
    if current < target {
        let stepped = current + delta;
        if stepped < target {
            stepped
        } else {
            target
        }
    } else if current > target {
        let stepped = current - delta;
        if stepped > target {
            stepped
        } else {
            target
        }
    } else {
        target
    }
}

} // verus!
