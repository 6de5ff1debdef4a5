//! Fixed-point sine and cosine on angles in degrees.
//!
//! The half-turn is covered by a rational approximation that is exact at 0,
//! 90 and 180 degrees and stays within one unit everywhere, so rotation
//! matrices built from it have bounded entries, and rotations by multiples
//! of a quarter turn come out exact.

use vstd::prelude::*;
use vstd::arithmetic::div_mod::{
    lemma_add_mod_noop, lemma_div_is_ordered, lemma_div_multiples_vanish,
    lemma_div_of0, lemma_div_pos_is_pos, lemma_fundamental_div_mod,
    lemma_mod_division_less_than_divisor, lemma_mod_multiples_vanish, lemma_small_mod,
};

use crate::fx::{fx_ok, SCALE};

verus! {

/// A quarter turn in fixed-point degrees.
pub const DEG_90: i64 = 90_000_000;

/// A half turn in fixed-point degrees.
pub const DEG_180: i64 = 180_000_000;

/// A full turn in fixed-point degrees.
pub const DEG_360: i64 = 360_000_000;

/// The approximation's constant term: 40500 whole units squared.
pub const HALF_SIN_DEN: i64 = 40_500_000_000_000_000;

/// Peak of `w * (DEG_180 - w)` over the half turn: 8100 whole units squared.
pub const HALF_SIN_PEAK: i64 = 8_100_000_000_000_000;

/// The rational approximation of sine over one half turn, in fixed point:
/// `sin(w) = 4 w (180 - w) / (40500 - w (180 - w))` with all quantities
/// scaled by `SCALE`.
pub open spec fn half_sin_s(w: int) -> int {
    (4 * w * (DEG_180 - w) * SCALE) / (HALF_SIN_DEN - w * (DEG_180 - w))
}

/// An angle reduced to one full turn, the canonical range of stored angles.
pub open spec fn wrap_360_s(x: int) -> int {
    x % (DEG_360 as int)
}

/// Fixed-point sine of an angle in degrees.
pub open spec fn sin_deg_s(x: int) -> int {
    let w = wrap_360_s(x);
    if w <= DEG_180 {
        half_sin_s(w)
    } else {
        -half_sin_s(w - DEG_180)
    }
}

/// Fixed-point cosine of an angle in degrees.
pub open spec fn cos_deg_s(x: int) -> int {
    sin_deg_s(x + DEG_90)
}

/// Over the half turn the approximation stays within one unit, and the
/// product under it stays under its peak.
pub proof fn lemma_half_sin_bounds(w: int)
    requires
        0 <= w <= DEG_180,
    ensures
        0 <= half_sin_s(w) <= SCALE,
        0 <= w * (DEG_180 - w) <= HALF_SIN_PEAK,
{
    assert(0 <= w * (DEG_180 - w) <= HALF_SIN_PEAK) by (nonlinear_arith)
        requires
            0 <= w <= DEG_180,
            DEG_180 == 180_000_000int,
            HALF_SIN_PEAK == 8_100_000_000_000_000int;
    assert(0 <= 4 * w * (DEG_180 - w) * SCALE) by (nonlinear_arith)
        requires
            0 <= w * (DEG_180 - w),
            SCALE == 1_000_000int;
    assert(4 * w * (DEG_180 - w) * SCALE <= (HALF_SIN_DEN - w * (DEG_180 - w)) * SCALE)
        by (nonlinear_arith)
        requires
            0 <= w * (DEG_180 - w) <= HALF_SIN_PEAK,
            HALF_SIN_DEN == 40_500_000_000_000_000int,
            HALF_SIN_PEAK == 8_100_000_000_000_000int,
            SCALE == 1_000_000int;
    let t = w * (DEG_180 - w);
    let num = 4 * w * (DEG_180 - w) * SCALE;
    let den = HALF_SIN_DEN - t;
    lemma_div_pos_is_pos(num, den);
    lemma_div_is_ordered(num, den * SCALE, den);
    lemma_div_multiples_vanish(SCALE as int, den);
}

/// Sine is zero at zero degrees.
pub proof fn lemma_sin_deg_zero()
    ensures
        sin_deg_s(0) == 0,
{
    lemma_small_mod(0, DEG_360 as nat);
    assert(4 * 0 * (DEG_180 - 0) * SCALE == 0) by (nonlinear_arith);
    assert(0 * (DEG_180 - 0int) == 0) by (nonlinear_arith);
    lemma_div_of0(HALF_SIN_DEN - 0 * (DEG_180 - 0int));
}

/// Sine is exactly one unit at ninety degrees.
pub proof fn lemma_sin_deg_90()
    ensures
        sin_deg_s(DEG_90 as int) == SCALE,
{
    lemma_small_mod(DEG_90 as nat, DEG_360 as nat);
    let w = DEG_90 as int;
    assert(4 * w * (DEG_180 - w) * SCALE == (HALF_SIN_DEN - w * (DEG_180 - w)) * SCALE)
        by (nonlinear_arith)
        requires
            w == 90_000_000int,
            DEG_180 == 180_000_000int,
            HALF_SIN_DEN == 40_500_000_000_000_000int,
            SCALE == 1_000_000int;
    assert(HALF_SIN_DEN - w * (DEG_180 - w) > 0) by (nonlinear_arith)
        requires
            w == 90_000_000int,
            DEG_180 == 180_000_000int,
            HALF_SIN_DEN == 40_500_000_000_000_000int;
    lemma_div_multiples_vanish(SCALE as int, HALF_SIN_DEN - w * (DEG_180 - w));
}

/// Cosine is one unit at zero degrees.
pub proof fn lemma_cos_deg_zero()
    ensures
        cos_deg_s(0) == SCALE,
{
    assert(0 + DEG_90 == DEG_90);
    lemma_sin_deg_90();
}

/// Reduce an angle to `[0, 360)` degrees.
pub fn wrap_360(x: i64) -> (r: i64)
    requires
        fx_ok(x as int),
    ensures
        r == wrap_360_s(x as int),
        0 <= r < DEG_360,
{
    let m: u64 = DEG_360 as u64;
    if x >= 0 {
        let r: u64 = (x as u64) % m;
        proof {
            lemma_fundamental_div_mod(x as int, DEG_360 as int);
        }
        r as i64
    } else {
        let k: u64 = (-x) as u64;
        let rem: u64 = k % m;
        proof {
            let ki = k as int;
            let mi = DEG_360 as int;
            let q = ki / mi;
            let ri = ki % mi;
            lemma_fundamental_div_mod(ki, mi);
            if ri == 0 {
                assert(x as int == mi * (-q) + 0) by (nonlinear_arith)
                    requires
                        x as int == -ki,
                        ki == mi * q + ri,
                        ri == 0;
                lemma_mod_multiples_vanish(-q, 0, mi);
                lemma_small_mod(0, mi as nat);
            } else {
                assert(x as int == mi * (-q - 1) + (mi - ri)) by (nonlinear_arith)
                    requires
                        x as int == -ki,
                        ki == mi * q + ri;
                lemma_mod_multiples_vanish(-q - 1, mi - ri, mi);
                lemma_mod_division_less_than_divisor(ki, mi);
                lemma_small_mod((mi - ri) as nat, mi as nat);
            }
        }
        if rem == 0 {
            0
        } else {
            DEG_360 - (rem as i64)
        }
    }
}

/// Sine over the half turn (see `half_sin_s`).
fn half_sin(w: i64) -> (r: i64)
    requires
        0 <= w <= DEG_180,
    ensures
        r == half_sin_s(w as int),
        0 <= r <= SCALE,
{
    proof {
        lemma_half_sin_bounds(w as int);
    }
    let t: i64 = w * (DEG_180 - w);
    proof {
        assert(4 * (t as int) * (SCALE as int) == 4 * (w as int) * (DEG_180 - w as int) * (
        SCALE as int)) by (nonlinear_arith)
            requires
                t as int == (w as int) * (DEG_180 - w as int);
        assert(4 * (t as int) * (SCALE as int) <= 32_400_000_000_000_000_000_000int)
            by (nonlinear_arith)
            requires
                0 <= t as int <= 8_100_000_000_000_000int,
                SCALE == 1_000_000int;
    }
    let num: u128 = 4 * (t as u128) * (SCALE as u128);
    let den: u128 = (HALF_SIN_DEN - t) as u128;
    let q: u128 = num / den;
    q as i64
}

/// Fixed-point sine of an angle in degrees.
pub fn sin_deg(x: i64) -> (r: i64)
    requires
        fx_ok(x as int),
    ensures
        r == sin_deg_s(x as int),
        -SCALE <= r <= SCALE,
{
    let w = wrap_360(x);
    if w <= DEG_180 {
        half_sin(w)
    } else {
        -half_sin(w - DEG_180)
    }
}

/// Fixed-point cosine of an angle in degrees.
pub fn cos_deg(x: i64) -> (r: i64)
    requires
        fx_ok(x as int),
    ensures
        r == cos_deg_s(x as int),
        -SCALE <= r <= SCALE,
{
    let w = wrap_360(x);
    let r = sin_deg(w + DEG_90);
    proof {
        let mi = DEG_360 as int;
        let xi = x as int;
        let c = DEG_90 as int;
        lemma_add_mod_noop(xi, c, mi);
        lemma_small_mod(c as nat, mi as nat);
        vstd::arithmetic::div_mod::lemma_mod_twice(xi, mi);
        lemma_add_mod_noop(xi % mi, c, mi);
    }
    r
}

} // verus!
