//! Position resolution: bounded count + accumulated offset -> angle.
//!
//! Policy: the absolute position is wrapped into `[0, PERIOD)` with a floored
//! modulo before scaling to degrees, so multiples of full rotations are
//! discarded and a negative position never yields a negative angle.

use vstd::prelude::*;

verus! {

/// Raw counter units in one full revolution of the dial.
pub const PERIOD: i64 = 128;

/// Degrees in a full circle.
pub const FULL_CIRCLE: i64 = 360;

/// Floored modulo of `pos` by `PERIOD`: the unique representative of `pos`
/// in `[0, PERIOD)`.  (In specification arithmetic `%` is Euclidean, which
/// coincides with floored modulo for a positive modulus.)
pub open spec fn wrap_position(pos: int) -> int {
    pos % (PERIOD as int)
}

/// The angle, in whole degrees, that an absolute position resolves to.
pub open spec fn angle_of_position(pos: int) -> int {
    wrap_position(pos) * (FULL_CIRCLE as int) / (PERIOD as int)
}

/// Combine the bounded hardware count with the saturation offset and resolve
/// the absolute angle in `[0, 360)`.
pub fn resolve_angle(count: i16, offset: i32) -> (angle: u16)
    ensures
        angle == angle_of_position(count + offset),
        0 <= angle < FULL_CIRCLE,
{
    let pos: i64 = count as i64 + offset as i64;
    let rem: i64 = pos % PERIOD;
    let wrapped: i64 = if rem < 0 {
        rem + PERIOD
    } else {
        rem
    };
    assert(wrapped == wrap_position(pos as int));
    assert(0 <= wrapped < PERIOD);
    (wrapped * FULL_CIRCLE / PERIOD) as u16
}

/// The resolved angle is always a whole degree in `[0, 360)`.
pub proof fn lemma_angle_in_range(pos: int)
    ensures
        0 <= angle_of_position(pos) < FULL_CIRCLE,
{
}

/// Advancing the position by a whole revolution leaves the angle unchanged:
/// in particular `PERIOD` itself resolves to angle 0, not 360.
pub proof fn lemma_angle_periodic(pos: int)
    ensures
        angle_of_position(pos + PERIOD) == angle_of_position(pos),
{
}

} // verus!
