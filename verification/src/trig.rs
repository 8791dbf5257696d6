//! Fixed-point sine for the animation's breathing and rotation effects.
//!
//! Angles are in milliradians, results are scaled by 10000.  On the half
//! period the sine is computed with Bhaskara's rational approximation,
//! which provably stays inside `[0, 10000]`; the second half period is its
//! negation, so the full wave provably stays inside `[-10000, 10000]`.

use vstd::prelude::*;

verus! {

/// One scaled unit: spec-level results lie in `[-SIN_SCALE, SIN_SCALE]`.
pub const SIN_SCALE: i64 = 10000;

/// Pi, in milliradians.
pub const PI_MRAD: u32 = 3142;

/// A full period, in milliradians.
pub const TWO_PI_MRAD: u32 = 6284;

/// Bhaskara's sine approximation on the first half period, scaled by
/// 10000: `16 x (pi - x) / (5 pi^2 - 4 x (pi - x))`.
pub open spec fn sin_half_spec(x: int) -> int {
    let t = x * (3142 - x);
    160000 * t / (49365620 - 4 * t)
}

/// Sine over one full period, scaled by 10000.
pub open spec fn sin_mrad_spec(x: int) -> int {
    if x <= 3142 {
        sin_half_spec(x)
    } else {
        -sin_half_spec(x - 3142)
    }
}

/// Cosine over one full period, scaled by 10000: the sine a quarter period
/// ahead.
pub open spec fn cos_mrad_spec(x: int) -> int {
    sin_mrad_spec((x + 1571) % 6284)
}

/// On the half period, Bhaskara's numerator term is bounded by its value at
/// the peak.
proof fn lemma_half_wave_bounds(x: int)
    requires
        0 <= x <= 3142,
    ensures
        0 <= x * (3142 - x) <= 2468041,
{
    assert(0 <= x * (3142 - x) <= 2468041) by (nonlinear_arith)
        requires
            0 <= x <= 3142,
    ;
}

/// The half-period sine stays inside `[0, 10000]`.
pub proof fn lemma_sin_half_bounds(x: int)
    requires
        0 <= x <= 3142,
    ensures
        0 <= sin_half_spec(x) <= 10000,
{
    let t = x * (3142 - x);
    lemma_half_wave_bounds(x);
    assert(160000 * t <= 10000 * (49365620 - 4 * t));
    assert(0 <= 160000 * t / (49365620 - 4 * t) <= 10000) by (nonlinear_arith)
        requires
            0 <= t,
            160000 * t <= 10000 * (49365620 - 4 * t),
            49365620 - 4 * t > 0,
    ;
}

/// The full-period sine stays inside `[-10000, 10000]`.
pub proof fn lemma_sin_bounds(x: int)
    requires
        0 <= x < 6284,
    ensures
        -10000 <= sin_mrad_spec(x) <= 10000,
{
    if x <= 3142 {
        lemma_sin_half_bounds(x);
    } else {
        lemma_sin_half_bounds(x - 3142);
    }
}

/// Sine of `x` milliradians, scaled by 10000.
pub fn sin_mrad(x: u32) -> (r: i64)
    requires
        x < TWO_PI_MRAD,
    ensures
        r == sin_mrad_spec(x as int),
        -SIN_SCALE <= r <= SIN_SCALE,
{
    proof {
        lemma_sin_bounds(x as int);
    }
    if x <= 3142 {
        sin_half(x as i64)
    } else {
        let s = sin_half(x as i64 - 3142);
        -s
    }
}

/// Cosine of `x` milliradians, scaled by 10000.
pub fn cos_mrad(x: u32) -> (r: i64)
    requires
        x < TWO_PI_MRAD,
    ensures
        r == cos_mrad_spec(x as int),
        -SIN_SCALE <= r <= SIN_SCALE,
{
    sin_mrad((x + 1571) % 6284)
}

/// Bhaskara's sine approximation on the first half period.
fn sin_half(x: i64) -> (r: i64)
    requires
        0 <= x <= PI_MRAD,
    ensures
        r == sin_half_spec(x as int),
        0 <= r <= SIN_SCALE,
{
    proof {
        lemma_half_wave_bounds(x as int);
        lemma_sin_half_bounds(x as int);
    }
    let t = x * (3142 - x);
    let num = 160000 * t;
    let den = 49365620 - 4 * t;
    num / den
}

} // verus!
