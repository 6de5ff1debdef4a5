//! Signed fixed-point arithmetic with a decimal scale.
//!
//! A quantity `x` is represented by the integer `x * SCALE`, truncated toward
//! zero. Every operation saturates at `±FX_LIM`, so all representable values
//! stay inside a range whose products fit comfortably in 128-bit
//! intermediates; the saturation point is part of each operation's contract.

use vstd::prelude::*;

verus! {

/// One whole unit: the fixed-point representation of 1.0.
pub const SCALE: i64 = 1_000_000;

/// Saturation bound of every fixed-point operation (one thousand million
/// whole units).
pub const FX_LIM: i64 = 1_000_000_000_000_000;

/// Truncating division (toward zero), the rounding that the executable
/// operations apply; `b` is expected to be positive.
pub open spec fn tdiv(a: int, b: int) -> int {
    if a >= 0 {
        a / b
    } else {
        -((-a) / b)
    }
}

/// Saturation to the representable range.
pub open spec fn fx_clip(x: int) -> int {
    if x < -FX_LIM {
        -FX_LIM as int
    } else if x > FX_LIM {
        FX_LIM as int
    } else {
        x
    }
}

/// Meaning of fixed-point addition.
pub open spec fn fx_add_s(a: int, b: int) -> int {
    fx_clip(a + b)
}

/// Meaning of fixed-point subtraction.
pub open spec fn fx_sub_s(a: int, b: int) -> int {
    fx_clip(a - b)
}

/// Meaning of fixed-point multiplication: the double-width product scaled
/// back down, truncated toward zero, then saturated.
pub open spec fn fx_mul_s(a: int, b: int) -> int {
    fx_clip(tdiv(a * b, SCALE as int))
}

/// Meaning of fixed-point division; division by zero is defined as zero so
/// that the operation is total.
pub open spec fn fx_div_s(a: int, b: int) -> int {
    if b == 0 {
        0
    } else if b > 0 {
        fx_clip(tdiv(a * (SCALE as int), b))
    } else {
        fx_clip(tdiv(-(a * (SCALE as int)), -b))
    }
}

/// Clamping to a closed interval.
pub open spec fn clamp_s(x: int, lo: int, hi: int) -> int {
    if x < lo {
        lo
    } else if x > hi {
        hi
    } else {
        x
    }
}

/// A value the operations can produce: inside the saturation range.
pub open spec fn fx_ok(x: int) -> bool {
    -FX_LIM <= x <= FX_LIM
}

/// Saturating fixed-point addition.
pub fn fx_add(a: i64, b: i64) -> (r: i64)
    requires
        fx_ok(a as int),
        fx_ok(b as int),
    ensures
        r == fx_add_s(a as int, b as int),
        fx_ok(r as int),
{
    let s: i128 = a as i128 + b as i128;
    if s < -FX_LIM as i128 {
        -FX_LIM
    } else if s > FX_LIM as i128 {
        FX_LIM
    } else {
        s as i64
    }
}

/// Saturating fixed-point subtraction.
pub fn fx_sub(a: i64, b: i64) -> (r: i64)
    requires
        fx_ok(a as int),
        fx_ok(b as int),
    ensures
        r == fx_sub_s(a as int, b as int),
        fx_ok(r as int),
{
    let s: i128 = a as i128 - b as i128;
    if s < -FX_LIM as i128 {
        -FX_LIM
    } else if s > FX_LIM as i128 {
        FX_LIM
    } else {
        s as i64
    }
}

/// Negation (exact: the range is symmetric).
pub fn fx_neg(a: i64) -> (r: i64)
    requires
        fx_ok(a as int),
    ensures
        r == -(a as int),
        fx_ok(r as int),
{
    -a
}

/// Saturating fixed-point multiplication with truncation toward zero.
pub fn fx_mul(a: i64, b: i64) -> (r: i64)
    requires
        fx_ok(a as int),
        fx_ok(b as int),
    ensures
        r == fx_mul_s(a as int, b as int),
        fx_ok(r as int),
{
    proof {
        let l = FX_LIM as int;
        assert(-l * l <= (a as int) * (b as int) <= l * l) by (nonlinear_arith)
            requires -l <= a as int <= l && -l <= b as int <= l;
    }
    let p: i128 = (a as i128) * (b as i128);
    let neg: bool = p < 0;
    let mag: u128 = if neg {
        (-p) as u128
    } else {
        p as u128
    };
    let q: u128 = mag / (SCALE as u128);
    proof {
        assert((a as int) * (b as int) == p as int);
        if p >= 0 {
            assert(q as int == tdiv(a as int * b as int, SCALE as int));
        } else {
            assert(mag as int == -(p as int));
            assert(q as int == (-(a as int * b as int)) / (SCALE as int));
        }
    }
    if neg {
        if q >= FX_LIM as u128 {
            -FX_LIM
        } else {
            -(q as i64)
        }
    } else {
        if q >= FX_LIM as u128 {
            FX_LIM
        } else {
            q as i64
        }
    }
}

/// Saturating fixed-point division with truncation toward zero; division by
/// zero yields zero.
pub fn fx_div(a: i64, b: i64) -> (r: i64)
    requires
        fx_ok(a as int),
        fx_ok(b as int),
    ensures
        r == fx_div_s(a as int, b as int),
        fx_ok(r as int),
{
    if b == 0 {
        return 0;
    }
    proof {
        let l = FX_LIM as int;
        let sc = SCALE as int;
        assert(-l * sc <= (a as int) * sc <= l * sc) by (nonlinear_arith)
            requires -l <= a as int <= l && sc > 0;
    }
    let p: i128 = (a as i128) * (SCALE as i128);
    let neg: bool = (p < 0) != (b < 0);
    let pmag: u128 = if p < 0 {
        (-p) as u128
    } else {
        p as u128
    };
    let bmag: u128 = if b < 0 {
        (-(b as i128)) as u128
    } else {
        b as u128
    };
    let q: u128 = pmag / bmag;
    proof {
        let ai = a as int;
        let bi = b as int;
        let sc = SCALE as int;
        assert(p as int == ai * sc);
        if bi > 0 {
            if ai >= 0 {
                assert(q as int == (ai * sc) / bi);
            } else {
                assert(pmag as int == -(ai * sc));
                assert(q as int == (-(ai * sc)) / bi);
            }
        } else {
            assert(bmag as int == -bi);
            if ai >= 0 {
                assert(pmag as int == ai * sc);
                assert(-(ai * sc) <= 0) by (nonlinear_arith)
                    requires ai >= 0 && sc > 0;
                assert(q as int == (ai * sc) / (-bi));
            } else {
                assert(pmag as int == -(ai * sc));
                assert(-(ai * sc) >= 0) by (nonlinear_arith)
                    requires ai < 0 && sc > 0;
                assert(q as int == (-(ai * sc)) / (-bi));
            }
        }
    }
    if neg {
        if q >= FX_LIM as u128 {
            -FX_LIM
        } else {
            -(q as i64)
        }
    } else {
        if q >= FX_LIM as u128 {
            FX_LIM
        } else {
            q as i64
        }
    }
}

/// Clamp to a closed interval.
pub fn fx_clamp(x: i64, lo: i64, hi: i64) -> (r: i64)
    requires
        lo <= hi,
    ensures
        r == clamp_s(x as int, lo as int, hi as int),
{
    if x < lo {
        lo
    } else if x > hi {
        hi
    } else {
        x
    }
}

} // verus!
