//! The fixed-point grid on which the simulation runs.

use vstd::prelude::*;

verus! {

/// Number of grid steps in one unit of length (one pixel of the arena), in a
/// direction of unit length, and in one degree of angle.
pub const UNIT: i64 = 16_777_216;

/// Largest arena extent, in grid steps, that the simulation accepts.
pub const MAX_EXTENT: i64 = 281_474_976_710_656;

/// Largest magnitude, in grid steps, of a coordinate that the entities'
/// operations accept.
pub const REACH: i64 = 562_949_953_421_312;

/// `value` confined to `[low, high]`; `low` wins where the bounds cross.
pub open spec fn clamp_spec(value: int, low: int, high: int) -> int {
    if value < low {
        low
    } else if value > high {
        high
    } else {
        value
    }
}

/// The quotient of `a` by a positive `b`, rounded toward zero.
pub open spec fn div_toward_zero(a: int, b: int) -> int {
    if a >= 0 {
        a / b
    } else {
        -((-a) / b)
    }
}

/// The magnitude of `value`.
pub open spec fn magnitude_spec(value: int) -> int {
    if value < 0 {
        -value
    } else {
        value
    }
}

/// The magnitude of `value`.
pub fn magnitude(value: i64) -> (r: i64)
    requires
        value > i64::MIN,
    ensures
        r == magnitude_spec(value as int),
{
    if value < 0 {
        -value
    } else {
        value
    }
}

/// Confines `value` to `[low, high]`.
pub fn clamp(value: i64, low: i64, high: i64) -> (r: i64)
    ensures
        r == clamp_spec(value as int, low as int, high as int),
        low <= high ==> low <= r <= high,
{
    if value < low {
        low
    } else if value > high {
        high
    } else {
        value
    }
}

} // verus!
