//! Integer trigonometry for placing the radial indicator.
//!
//! Sine and cosine are computed in fixed point, scaled by `TRIG_SCALE`, with
//! the classic rational approximation `sin d ~= 4d(180-d) / (40500 - d(180-d))`
//! for `d` in `[0, 180]` degrees and odd symmetry for the rest of the circle.
//! The approximation is exact at every multiple of 90 degrees and stays
//! within `TRIG_SCALE` in magnitude everywhere, which is all the scene
//! composition relies on.

use vstd::prelude::*;

verus! {

/// Fixed-point scale: this value stands for 1.0.
pub const TRIG_SCALE: i32 = 1000;

/// Scaled sine on the first half-circle, `0 <= d <= 180`.
pub open spec fn sin_scaled_half(d: int) -> int {
    (4 * d * (180 - d) * TRIG_SCALE) / (40500 - d * (180 - d))
}

/// Scaled sine on the whole circle, `0 <= d < 360`.
pub open spec fn sin_scaled(d: int) -> int {
    if d < 180 {
        sin_scaled_half(d)
    } else {
        -sin_scaled_half(d - 180)
    }
}

/// Scaled cosine on the whole circle, `0 <= d < 360`.
pub open spec fn cos_scaled(d: int) -> int {
    sin_scaled((d + 90) % 360)
}

/// Scaled sine on `[0, 180]`, bounded by the scale.
fn sin_mil_half(degrees: u16) -> (s: i32)
    requires
        degrees <= 180,
    ensures
        s == sin_scaled_half(degrees as int),
        0 <= s <= TRIG_SCALE,
{
    let d: i32 = degrees as i32;
    assert(0 <= d * (180 - d) <= 8100) by (nonlinear_arith)
        requires
            0 <= d <= 180,
    ;
    let chord: i32 = d * (180 - d);
    let numerator: i32 = 4 * chord * TRIG_SCALE;
    let denominator: i32 = 40500 - chord;
    let s: i32 = numerator / denominator;
    proof {
        assert(4 * (d as int) * (180 - d) * TRIG_SCALE == 4 * ((d as int) * (180 - d))
            * TRIG_SCALE) by (nonlinear_arith);
        assert(numerator <= TRIG_SCALE * denominator);
        assert(numerator / denominator <= TRIG_SCALE) by (nonlinear_arith)
            requires
                numerator <= TRIG_SCALE * denominator,
                denominator > 0,
                numerator >= 0,
        ;
    }
    s
}

/// Scaled sine of a whole-degree angle.
pub fn sin_mil(degrees: u16) -> (s: i32)
    requires
        degrees < 360,
    ensures
        s == sin_scaled(degrees as int),
        -TRIG_SCALE <= s <= TRIG_SCALE,
{
    if degrees < 180 {
        sin_mil_half(degrees)
    } else {
        -sin_mil_half(degrees - 180)
    }
}

/// Scaled cosine of a whole-degree angle.
pub fn cos_mil(degrees: u16) -> (c: i32)
    requires
        degrees < 360,
    ensures
        c == cos_scaled(degrees as int),
        -TRIG_SCALE <= c <= TRIG_SCALE,
{
    let shifted: u16 = if degrees >= 270 {
        degrees - 270
    } else {
        degrees + 90
    };
    assert(shifted == (degrees + 90) % 360);
    sin_mil(shifted)
}

} // verus!
