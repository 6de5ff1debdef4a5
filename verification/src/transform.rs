//! The transform component: translation, per-axis rotation in degrees, and a
//! uniform scale, together with its 4x4 model matrix.
//!
//! The model matrix is composed in a fixed order: translation, then the
//! rotations about x, y and z, then the scale.

use vstd::prelude::*;
use crate::fx::{fx_ok, SCALE};
use crate::mat::{
    mat_id_s, mat_mul_s, mat_ok, mat_scale_s, mat_translation_s, vec3_ok, Mat4, Vec3,
};
use crate::trig::{cos_deg, cos_deg_s, lemma_cos_deg_zero, lemma_sin_deg_zero, sin_deg, sin_deg_s};

verus! {

/// A transform component: where an entity sits, how it is turned (degrees
/// about each axis) and how it is scaled.
#[derive(Clone, Copy, Debug, PartialEq, Eq, Structural)]
pub struct Transform {
    pub translation: Vec3,
    pub scale: i64,
    pub rotation: Vec3,
}

/// All fields inside the fixed-point range.
pub open spec fn transform_ok(t: Transform) -> bool {
    vec3_ok(t.translation) && fx_ok(t.scale as int) && vec3_ok(t.rotation)
}

/// Rotation about the x axis by an angle in degrees.
pub open spec fn mat_rot_x_s(d: int) -> Mat4 {
    Mat4 {
        m00: SCALE, m01: 0, m02: 0, m03: 0,
        m10: 0, m11: cos_deg_s(d) as i64, m12: (-sin_deg_s(d)) as i64, m13: 0,
        m20: 0, m21: sin_deg_s(d) as i64, m22: cos_deg_s(d) as i64, m23: 0,
        m30: 0, m31: 0, m32: 0, m33: SCALE,
    }
}

/// Rotation about the y axis by an angle in degrees.
pub open spec fn mat_rot_y_s(d: int) -> Mat4 {
    Mat4 {
        m00: cos_deg_s(d) as i64, m01: 0, m02: sin_deg_s(d) as i64, m03: 0,
        m10: 0, m11: SCALE, m12: 0, m13: 0,
        m20: (-sin_deg_s(d)) as i64, m21: 0, m22: cos_deg_s(d) as i64, m23: 0,
        m30: 0, m31: 0, m32: 0, m33: SCALE,
    }
}

/// Rotation about the z axis by an angle in degrees.
pub open spec fn mat_rot_z_s(d: int) -> Mat4 {
    Mat4 {
        m00: cos_deg_s(d) as i64, m01: (-sin_deg_s(d)) as i64, m02: 0, m03: 0,
        m10: sin_deg_s(d) as i64, m11: cos_deg_s(d) as i64, m12: 0, m13: 0,
        m20: 0, m21: 0, m22: SCALE, m23: 0,
        m30: 0, m31: 0, m32: 0, m33: SCALE,
    }
}

/// The model matrix of a transform: identity, then translation, then the
/// three axis rotations in x, y, z order, then the uniform scale, multiplied
/// left to right.
pub open spec fn transform_mat_s(t: Transform) -> Mat4 {
    mat_mul_s(
        mat_mul_s(
            mat_mul_s(mat_id_s(), mat_translation_s(t.translation)),
            mat_mul_s(
                mat_mul_s(mat_rot_x_s(t.rotation.x as int), mat_rot_y_s(t.rotation.y as int)),
                mat_rot_z_s(t.rotation.z as int),
            ),
        ),
        mat_scale_s(t.scale),
    )
}

/// Rotation about the x axis.
pub fn rotation_x(d: i64) -> (r: Mat4)
    requires
        fx_ok(d as int),
    ensures
        r == mat_rot_x_s(d as int),
        mat_ok(r),
{
    let c = cos_deg(d);
    let s = sin_deg(d);
    Mat4 {
        m00: SCALE, m01: 0, m02: 0, m03: 0,
        m10: 0, m11: c, m12: -s, m13: 0,
        m20: 0, m21: s, m22: c, m23: 0,
        m30: 0, m31: 0, m32: 0, m33: SCALE,
    }
}

/// Rotation about the y axis.
pub fn rotation_y(d: i64) -> (r: Mat4)
    requires
        fx_ok(d as int),
    ensures
        r == mat_rot_y_s(d as int),
        mat_ok(r),
{
    let c = cos_deg(d);
    let s = sin_deg(d);
    Mat4 {
        m00: c, m01: 0, m02: s, m03: 0,
        m10: 0, m11: SCALE, m12: 0, m13: 0,
        m20: -s, m21: 0, m22: c, m23: 0,
        m30: 0, m31: 0, m32: 0, m33: SCALE,
    }
}

/// Rotation about the z axis.
pub fn rotation_z(d: i64) -> (r: Mat4)
    requires
        fx_ok(d as int),
    ensures
        r == mat_rot_z_s(d as int),
        mat_ok(r),
{
    let c = cos_deg(d);
    let s = sin_deg(d);
    Mat4 {
        m00: c, m01: -s, m02: 0, m03: 0,
        m10: s, m11: c, m12: 0, m13: 0,
        m20: 0, m21: 0, m22: SCALE, m23: 0,
        m30: 0, m31: 0, m32: 0, m33: SCALE,
    }
}

impl Transform {
    /// The model matrix of this transform.
    pub fn mat4(&self) -> (r: Mat4)
        requires
            transform_ok(*self),
        ensures
            r == transform_mat_s(*self),
            mat_ok(r),
    {
        let translation = Mat4::translation(self.translation);
        let rot_x = rotation_x(self.rotation.x);
        let rot_y = rotation_y(self.rotation.y);
        let rot_z = rotation_z(self.rotation.z);
        let rotation = rot_x.mul(&rot_y).mul(&rot_z);
        let scale = Mat4::uniform_scale(self.scale);
        Mat4::identity().mul(&translation).mul(&rotation).mul(&scale)
    }
}

/// The per-draw constant block holding one entity's model matrix.
#[derive(Clone, Copy, Debug, PartialEq, Eq, Structural)]
pub struct ModelPush {
    pub model: Mat4,
}

impl ModelPush {
    /// Pack a transform's model matrix for the per-draw constant range.
    pub fn from_transform(transform: &Transform) -> (r: ModelPush)
        requires
            transform_ok(*transform),
        ensures
            r.model == transform_mat_s(*transform),
    {
        ModelPush { model: transform.mat4() }
    }
}

/// A rotation by zero degrees is the identity matrix.
pub proof fn lemma_rot_zero_is_id()
    ensures
        mat_rot_x_s(0) == mat_id_s(),
        mat_rot_y_s(0) == mat_id_s(),
        mat_rot_z_s(0) == mat_id_s(),
{
    lemma_sin_deg_zero();
    lemma_cos_deg_zero();
}

/// With no rotation and unit scale, the model matrix is the pure translation
/// matrix.
pub proof fn lemma_translation_only(t: Transform)
    requires
        transform_ok(t),
        t.rotation.x == 0 && t.rotation.y == 0 && t.rotation.z == 0,
        t.scale == SCALE,
    ensures
        transform_mat_s(t) == mat_translation_s(t.translation),
{
    lemma_rot_zero_is_id();
    let id = mat_id_s();
    let tr = mat_translation_s(t.translation);
    assert(mat_ok(id));
    assert(mat_ok(tr));
    crate::mat::lemma_mul_id_left(id);
    crate::mat::lemma_mul_id_left(tr);
    crate::mat::lemma_mul_id_right(tr);
    assert(mat_scale_s(SCALE) == id);
}

/// With no rotation and no translation, the model matrix is the pure
/// uniform-scale matrix.
pub proof fn lemma_scale_only(t: Transform)
    requires
        transform_ok(t),
        t.rotation.x == 0 && t.rotation.y == 0 && t.rotation.z == 0,
        t.translation.x == 0 && t.translation.y == 0 && t.translation.z == 0,
    ensures
        transform_mat_s(t) == mat_scale_s(t.scale),
{
    lemma_rot_zero_is_id();
    let id = mat_id_s();
    let sc = mat_scale_s(t.scale);
    assert(mat_translation_s(t.translation) == id);
    assert(mat_ok(id));
    assert(mat_ok(sc));
    crate::mat::lemma_mul_id_left(id);
    crate::mat::lemma_mul_id_right(id);
    crate::mat::lemma_mul_id_left(sc);
}

} // verus!
