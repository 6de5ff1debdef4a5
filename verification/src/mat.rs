//! Fixed-point vectors and 4x4 matrices.
//!
//! Matrices are row-major: the translation column is `m03, m13, m23`. Every
//! entry-producing operation scales the double-width product back down with
//! truncation toward zero and saturates at the fixed-point range, exactly as
//! `fx_mul_s` does for scalars.

use vstd::prelude::*;
use vstd::arithmetic::div_mod::lemma_div_multiples_vanish;
use crate::fx::{fx_clip, fx_ok, tdiv, FX_LIM, SCALE};

verus! {

/// A fixed-point vector with three components.
#[derive(Clone, Copy, Debug, PartialEq, Eq, Structural)]
pub struct Vec3 {
    pub x: i64,
    pub y: i64,
    pub z: i64,
}

/// All three components inside the fixed-point range.
pub open spec fn vec3_ok(v: Vec3) -> bool {
    fx_ok(v.x as int) && fx_ok(v.y as int) && fx_ok(v.z as int)
}

/// A fixed-point 4x4 matrix, row-major.
#[derive(Clone, Copy, Debug, PartialEq, Eq, Structural)]
pub struct Mat4 {
    pub m00: i64, pub m01: i64, pub m02: i64, pub m03: i64,
    pub m10: i64, pub m11: i64, pub m12: i64, pub m13: i64,
    pub m20: i64, pub m21: i64, pub m22: i64, pub m23: i64,
    pub m30: i64, pub m31: i64, pub m32: i64, pub m33: i64,
}

/// All sixteen entries inside the fixed-point range.
pub open spec fn mat_ok(a: Mat4) -> bool {
    &&& fx_ok(a.m00 as int) && fx_ok(a.m01 as int) && fx_ok(a.m02 as int) && fx_ok(a.m03 as int)
    &&& fx_ok(a.m10 as int) && fx_ok(a.m11 as int) && fx_ok(a.m12 as int) && fx_ok(a.m13 as int)
    &&& fx_ok(a.m20 as int) && fx_ok(a.m21 as int) && fx_ok(a.m22 as int) && fx_ok(a.m23 as int)
    &&& fx_ok(a.m30 as int) && fx_ok(a.m31 as int) && fx_ok(a.m32 as int) && fx_ok(a.m33 as int)
}

/// One entry of a matrix product: the four-term dot product, scaled back
/// down with truncation, then saturated.
pub open spec fn dot4_s(a0: int, a1: int, a2: int, a3: int, b0: int, b1: int, b2: int, b3: int) -> int {
    fx_clip(tdiv(a0 * b0 + a1 * b1 + a2 * b2 + a3 * b3, SCALE as int))
}

/// A three-term dot product, scaled back down with truncation, then
/// saturated.
pub open spec fn dot3_s(a0: int, a1: int, a2: int, b0: int, b1: int, b2: int) -> int {
    fx_clip(tdiv(a0 * b0 + a1 * b1 + a2 * b2, SCALE as int))
}

/// The identity matrix.
pub open spec fn mat_id_s() -> Mat4 {
    Mat4 {
        m00: SCALE, m01: 0, m02: 0, m03: 0,
        m10: 0, m11: SCALE, m12: 0, m13: 0,
        m20: 0, m21: 0, m22: SCALE, m23: 0,
        m30: 0, m31: 0, m32: 0, m33: SCALE,
    }
}

/// A pure translation matrix.
pub open spec fn mat_translation_s(t: Vec3) -> Mat4 {
    Mat4 {
        m00: SCALE, m01: 0, m02: 0, m03: t.x,
        m10: 0, m11: SCALE, m12: 0, m13: t.y,
        m20: 0, m21: 0, m22: SCALE, m23: t.z,
        m30: 0, m31: 0, m32: 0, m33: SCALE,
    }
}

/// A pure uniform-scale matrix.
pub open spec fn mat_scale_s(s: i64) -> Mat4 {
    Mat4 {
        m00: s, m01: 0, m02: 0, m03: 0,
        m10: 0, m11: s, m12: 0, m13: 0,
        m20: 0, m21: 0, m22: s, m23: 0,
        m30: 0, m31: 0, m32: 0, m33: SCALE,
    }
}

/// The matrix product, entry by entry.
pub open spec fn mat_mul_s(a: Mat4, b: Mat4) -> Mat4 {
    Mat4 {
        m00: dot4_s(a.m00 as int, a.m01 as int, a.m02 as int, a.m03 as int, b.m00 as int, b.m10 as int, b.m20 as int, b.m30 as int) as i64,
        m01: dot4_s(a.m00 as int, a.m01 as int, a.m02 as int, a.m03 as int, b.m01 as int, b.m11 as int, b.m21 as int, b.m31 as int) as i64,
        m02: dot4_s(a.m00 as int, a.m01 as int, a.m02 as int, a.m03 as int, b.m02 as int, b.m12 as int, b.m22 as int, b.m32 as int) as i64,
        m03: dot4_s(a.m00 as int, a.m01 as int, a.m02 as int, a.m03 as int, b.m03 as int, b.m13 as int, b.m23 as int, b.m33 as int) as i64,
        m10: dot4_s(a.m10 as int, a.m11 as int, a.m12 as int, a.m13 as int, b.m00 as int, b.m10 as int, b.m20 as int, b.m30 as int) as i64,
        m11: dot4_s(a.m10 as int, a.m11 as int, a.m12 as int, a.m13 as int, b.m01 as int, b.m11 as int, b.m21 as int, b.m31 as int) as i64,
        m12: dot4_s(a.m10 as int, a.m11 as int, a.m12 as int, a.m13 as int, b.m02 as int, b.m12 as int, b.m22 as int, b.m32 as int) as i64,
        m13: dot4_s(a.m10 as int, a.m11 as int, a.m12 as int, a.m13 as int, b.m03 as int, b.m13 as int, b.m23 as int, b.m33 as int) as i64,
        m20: dot4_s(a.m20 as int, a.m21 as int, a.m22 as int, a.m23 as int, b.m00 as int, b.m10 as int, b.m20 as int, b.m30 as int) as i64,
        m21: dot4_s(a.m20 as int, a.m21 as int, a.m22 as int, a.m23 as int, b.m01 as int, b.m11 as int, b.m21 as int, b.m31 as int) as i64,
        m22: dot4_s(a.m20 as int, a.m21 as int, a.m22 as int, a.m23 as int, b.m02 as int, b.m12 as int, b.m22 as int, b.m32 as int) as i64,
        m23: dot4_s(a.m20 as int, a.m21 as int, a.m22 as int, a.m23 as int, b.m03 as int, b.m13 as int, b.m23 as int, b.m33 as int) as i64,
        m30: dot4_s(a.m30 as int, a.m31 as int, a.m32 as int, a.m33 as int, b.m00 as int, b.m10 as int, b.m20 as int, b.m30 as int) as i64,
        m31: dot4_s(a.m30 as int, a.m31 as int, a.m32 as int, a.m33 as int, b.m01 as int, b.m11 as int, b.m21 as int, b.m31 as int) as i64,
        m32: dot4_s(a.m30 as int, a.m31 as int, a.m32 as int, a.m33 as int, b.m02 as int, b.m12 as int, b.m22 as int, b.m32 as int) as i64,
        m33: dot4_s(a.m30 as int, a.m31 as int, a.m32 as int, a.m33 as int, b.m03 as int, b.m13 as int, b.m23 as int, b.m33 as int) as i64,
    }
}

/// A matrix flattened row by row, the order its entries are packed in for
/// upload.
pub open spec fn mat_rows_s(m: Mat4) -> Seq<i64> {
    seq![
        m.m00, m.m01, m.m02, m.m03,
        m.m10, m.m11, m.m12, m.m13,
        m.m20, m.m21, m.m22, m.m23,
        m.m30, m.m31, m.m32, m.m33,
    ]
}

impl Mat4 {
    /// The sixteen entries, row by row.
    pub fn to_rows(&self) -> (r: Vec<i64>)
        ensures
            r@ == mat_rows_s(*self),
    {
        let mut out: Vec<i64> = Vec::new();
        out.push(self.m00);
        out.push(self.m01);
        out.push(self.m02);
        out.push(self.m03);
        out.push(self.m10);
        out.push(self.m11);
        out.push(self.m12);
        out.push(self.m13);
        out.push(self.m20);
        out.push(self.m21);
        out.push(self.m22);
        out.push(self.m23);
        out.push(self.m30);
        out.push(self.m31);
        out.push(self.m32);
        out.push(self.m33);
        proof {
            assert(out@ =~= mat_rows_s(*self));
        }
        out
    }
}

/// The scaled-product division is exact on whole multiples of the scale.
pub proof fn lemma_tdiv_scale_exact(v: int)
    ensures
        tdiv(v * SCALE, SCALE as int) == v,
        tdiv(SCALE * v, SCALE as int) == v,
{
    if v >= 0 {
        lemma_div_multiples_vanish(v, SCALE as int);
        assert(v * SCALE == SCALE * v) by (nonlinear_arith);
    } else {
        lemma_div_multiples_vanish(-v, SCALE as int);
        assert(-(v * SCALE) == SCALE * -v) by (nonlinear_arith);
        assert(v * SCALE == SCALE * v) by (nonlinear_arith);
        assert(v * SCALE < 0) by (nonlinear_arith)
            requires v < 0 && SCALE == 1_000_000int;
    }
}

/// Multiplying by the identity on the left changes nothing.
pub proof fn lemma_mul_id_left(a: Mat4)
    requires
        mat_ok(a),
    ensures
        mat_mul_s(mat_id_s(), a) == a,
{
    lemma_mul_id_entries(a);
}

/// Multiplying by the identity on the right changes nothing.
pub proof fn lemma_mul_id_right(a: Mat4)
    requires
        mat_ok(a),
    ensures
        mat_mul_s(a, mat_id_s()) == a,
{
    lemma_mul_id_entries(a);
}

proof fn lemma_mul_id_entries(a: Mat4)
    requires
        mat_ok(a),
    ensures
        mat_mul_s(mat_id_s(), a) == a,
        mat_mul_s(a, mat_id_s()) == a,
{
    assert forall|v: int, p: int, q: int, r: int| fx_ok(v) implies
        dot4_s(SCALE as int, 0, 0, 0, v, p, q, r) == v
        && dot4_s(0, SCALE as int, 0, 0, p, v, q, r) == v
        && dot4_s(0, 0, SCALE as int, 0, p, q, v, r) == v
        && dot4_s(0, 0, 0, SCALE as int, p, q, r, v) == v
        && dot4_s(v, p, q, r, SCALE as int, 0, 0, 0) == v
        && dot4_s(p, v, q, r, 0, SCALE as int, 0, 0) == v
        && dot4_s(p, q, v, r, 0, 0, SCALE as int, 0) == v
        && dot4_s(p, q, r, v, 0, 0, 0, SCALE as int) == v by {
        assert(SCALE as int * v == v * SCALE) by (nonlinear_arith);
        assert(0 * p == 0 && 0 * q == 0 && 0 * r == 0) by (nonlinear_arith);
        assert(p * 0 == 0 && q * 0 == 0 && r * 0 == 0) by (nonlinear_arith);
        lemma_tdiv_scale_exact(v);
    }
}

/// A three-term dot product of fixed-point values.
pub fn dot3(a0: i64, a1: i64, a2: i64, b0: i64, b1: i64, b2: i64) -> (r: i64)
    requires
        fx_ok(a0 as int) && fx_ok(a1 as int) && fx_ok(a2 as int),
        fx_ok(b0 as int) && fx_ok(b1 as int) && fx_ok(b2 as int),
    ensures
        r == dot3_s(a0 as int, a1 as int, a2 as int, b0 as int, b1 as int, b2 as int),
        fx_ok(r as int),
{
    proof {
        let l = FX_LIM as int;
        assert(-l * l <= (a0 as int) * (b0 as int) <= l * l) by (nonlinear_arith)
            requires -l <= a0 as int <= l && -l <= b0 as int <= l;
        assert(-l * l <= (a1 as int) * (b1 as int) <= l * l) by (nonlinear_arith)
            requires -l <= a1 as int <= l && -l <= b1 as int <= l;
        assert(-l * l <= (a2 as int) * (b2 as int) <= l * l) by (nonlinear_arith)
            requires -l <= a2 as int <= l && -l <= b2 as int <= l;
    }
    let s: i128 = (a0 as i128) * (b0 as i128) + (a1 as i128) * (b1 as i128)
        + (a2 as i128) * (b2 as i128);
    let neg: bool = s < 0;
    let mag: u128 = if neg {
        (-s) as u128
    } else {
        s as u128
    };
    let q: u128 = mag / (SCALE as u128);
    proof {
        let si = s as int;
        if si >= 0 {
            assert(q as int == tdiv(si, SCALE as int));
        } else {
            assert(mag as int == -si);
            assert(q as int == (-si) / (SCALE as int));
        }
    }
    if neg {
        if q >= FX_LIM as u128 {
            -FX_LIM
        } else {
            -(q as i64)
        }
    } else {
        if q >= FX_LIM as u128 {
            FX_LIM
        } else {
            q as i64
        }
    }
}

/// One entry of a matrix product.
fn dot4(a0: i64, a1: i64, a2: i64, a3: i64, b0: i64, b1: i64, b2: i64, b3: i64) -> (r: i64)
    requires
        fx_ok(a0 as int) && fx_ok(a1 as int) && fx_ok(a2 as int) && fx_ok(a3 as int),
        fx_ok(b0 as int) && fx_ok(b1 as int) && fx_ok(b2 as int) && fx_ok(b3 as int),
    ensures
        r == dot4_s(a0 as int, a1 as int, a2 as int, a3 as int, b0 as int, b1 as int, b2 as int, b3 as int),
        fx_ok(r as int),
{
    proof {
        let l = FX_LIM as int;
        assert(-l * l <= (a0 as int) * (b0 as int) <= l * l) by (nonlinear_arith)
            requires -l <= a0 as int <= l && -l <= b0 as int <= l;
        assert(-l * l <= (a1 as int) * (b1 as int) <= l * l) by (nonlinear_arith)
            requires -l <= a1 as int <= l && -l <= b1 as int <= l;
        assert(-l * l <= (a2 as int) * (b2 as int) <= l * l) by (nonlinear_arith)
            requires -l <= a2 as int <= l && -l <= b2 as int <= l;
        assert(-l * l <= (a3 as int) * (b3 as int) <= l * l) by (nonlinear_arith)
            requires -l <= a3 as int <= l && -l <= b3 as int <= l;
    }
    let s: i128 = (a0 as i128) * (b0 as i128) + (a1 as i128) * (b1 as i128)
        + (a2 as i128) * (b2 as i128) + (a3 as i128) * (b3 as i128);
    let neg: bool = s < 0;
    let mag: u128 = if neg {
        (-s) as u128
    } else {
        s as u128
    };
    let q: u128 = mag / (SCALE as u128);
    proof {
        let si = s as int;
        if si >= 0 {
            assert(q as int == tdiv(si, SCALE as int));
        } else {
            assert(mag as int == -si);
            assert(q as int == (-si) / (SCALE as int));
        }
    }
    if neg {
        if q >= FX_LIM as u128 {
            -FX_LIM
        } else {
            -(q as i64)
        }
    } else {
        if q >= FX_LIM as u128 {
            FX_LIM
        } else {
            q as i64
        }
    }
}

impl Mat4 {
    /// The identity matrix.
    pub fn identity() -> (r: Mat4)
        ensures
            r == mat_id_s(),
            mat_ok(r),
    {
        Mat4 {
            m00: SCALE, m01: 0, m02: 0, m03: 0,
            m10: 0, m11: SCALE, m12: 0, m13: 0,
            m20: 0, m21: 0, m22: SCALE, m23: 0,
            m30: 0, m31: 0, m32: 0, m33: SCALE,
        }
    }

    /// A pure translation matrix.
    pub fn translation(t: Vec3) -> (r: Mat4)
        requires
            vec3_ok(t),
        ensures
            r == mat_translation_s(t),
            mat_ok(r),
    {
        Mat4 {
            m00: SCALE, m01: 0, m02: 0, m03: t.x,
            m10: 0, m11: SCALE, m12: 0, m13: t.y,
            m20: 0, m21: 0, m22: SCALE, m23: t.z,
            m30: 0, m31: 0, m32: 0, m33: SCALE,
        }
    }

    /// A pure uniform-scale matrix.
    pub fn uniform_scale(s: i64) -> (r: Mat4)
        requires
            fx_ok(s as int),
        ensures
            r == mat_scale_s(s),
            mat_ok(r),
    {
        Mat4 {
            m00: s, m01: 0, m02: 0, m03: 0,
            m10: 0, m11: s, m12: 0, m13: 0,
            m20: 0, m21: 0, m22: s, m23: 0,
            m30: 0, m31: 0, m32: 0, m33: SCALE,
        }
    }

    /// The matrix product.
    pub fn mul(&self, b: &Mat4) -> (r: Mat4)
        requires
            mat_ok(*self),
            mat_ok(*b),
        ensures
            r == mat_mul_s(*self, *b),
            mat_ok(r),
    {
        Mat4 {
            m00: dot4(self.m00, self.m01, self.m02, self.m03, b.m00, b.m10, b.m20, b.m30),
            m01: dot4(self.m00, self.m01, self.m02, self.m03, b.m01, b.m11, b.m21, b.m31),
            m02: dot4(self.m00, self.m01, self.m02, self.m03, b.m02, b.m12, b.m22, b.m32),
            m03: dot4(self.m00, self.m01, self.m02, self.m03, b.m03, b.m13, b.m23, b.m33),
            m10: dot4(self.m10, self.m11, self.m12, self.m13, b.m00, b.m10, b.m20, b.m30),
            m11: dot4(self.m10, self.m11, self.m12, self.m13, b.m01, b.m11, b.m21, b.m31),
            m12: dot4(self.m10, self.m11, self.m12, self.m13, b.m02, b.m12, b.m22, b.m32),
            m13: dot4(self.m10, self.m11, self.m12, self.m13, b.m03, b.m13, b.m23, b.m33),
            m20: dot4(self.m20, self.m21, self.m22, self.m23, b.m00, b.m10, b.m20, b.m30),
            m21: dot4(self.m20, self.m21, self.m22, self.m23, b.m01, b.m11, b.m21, b.m31),
            m22: dot4(self.m20, self.m21, self.m22, self.m23, b.m02, b.m12, b.m22, b.m32),
            m23: dot4(self.m20, self.m21, self.m22, self.m23, b.m03, b.m13, b.m23, b.m33),
            m30: dot4(self.m30, self.m31, self.m32, self.m33, b.m00, b.m10, b.m20, b.m30),
            m31: dot4(self.m30, self.m31, self.m32, self.m33, b.m01, b.m11, b.m21, b.m31),
            m32: dot4(self.m30, self.m31, self.m32, self.m33, b.m02, b.m12, b.m22, b.m32),
            m33: dot4(self.m30, self.m31, self.m32, self.m33, b.m03, b.m13, b.m23, b.m33),
        }
    }
}

} // verus!
