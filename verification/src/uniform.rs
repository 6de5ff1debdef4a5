//! The per-frame uniform blocks handed to the shading stages.

use vstd::prelude::*;
use crate::camera::{camera_ok, proj_mat_s, projection_ok, view_mat_s, Camera, Projection};
use crate::fx::SCALE;
use crate::mat::{mat_id_s, mat_mul_s, mat_ok, Mat4, Vec3};

verus! {

/// A view matrix with its translation column removed, for shading stages
/// that need view-space directions without translation.
pub open spec fn strip_translation_s(m: Mat4) -> Mat4 {
    Mat4 { m03: 0, m13: 0, m23: 0, m33: SCALE, ..m }
}

/// The camera uniform: the packed view-projection product, the
/// translation-stripped view matrix, and the bare projection matrix.
#[derive(Clone, Copy, Debug, PartialEq, Eq, Structural)]
pub struct CameraUniform {
    pub view_projection: Mat4,
    pub view_without_translation: Mat4,
    pub projection: Mat4,
}

impl CameraUniform {
    /// A fresh uniform holding identity matrices.
    pub fn new() -> (r: CameraUniform)
        ensures
            r.view_projection == mat_id_s(),
            r.view_without_translation == mat_id_s(),
            r.projection == mat_id_s(),
    {
        CameraUniform {
            view_projection: Mat4::identity(),
            view_without_translation: Mat4::identity(),
            projection: Mat4::identity(),
        }
    }

    /// Recompute all three matrices from the camera and projection.
    pub fn update_view_projection(&mut self, camera: &Camera, projection: &Projection)
        requires
            camera_ok(*camera),
            projection_ok(*projection),
        ensures
            final(self).view_projection == mat_mul_s(proj_mat_s(*projection), view_mat_s(*camera)),
            final(self).view_without_translation == strip_translation_s(view_mat_s(*camera)),
            final(self).projection == proj_mat_s(*projection),
            mat_ok(final(self).view_projection),
            mat_ok(final(self).view_without_translation),
            mat_ok(final(self).projection),
    {
        let projection_matrix = projection.calculate_matrix();
        let view_matrix = camera.calculate_matrix();
        self.view_projection = projection_matrix.mul(&view_matrix);
        self.view_without_translation = Mat4 {
            m03: 0,
            m13: 0,
            m23: 0,
            m33: SCALE,
            ..view_matrix
        };
        self.projection = projection_matrix;
    }
}

impl CameraUniform {
    /// The 48 entries the shading stage consumes: the view-projection
    /// product, the translation-stripped view matrix and the bare
    /// projection matrix, each row by row, in that order.
    pub fn pack(&self) -> (r: Vec<i64>)
        ensures
            r@ == crate::mat::mat_rows_s(self.view_projection) + crate::mat::mat_rows_s(
                self.view_without_translation,
            ) + crate::mat::mat_rows_s(self.projection),
            r@.len() == 48,
    {
        let mut out = self.view_projection.to_rows();
        let mut middle = self.view_without_translation.to_rows();
        let mut last = self.projection.to_rows();
        out.append(&mut middle);
        out.append(&mut last);
        out
    }
}

/// The light uniform: a direction and a color for the shading stage.
#[derive(Clone, Copy, Debug, PartialEq, Eq, Structural)]
pub struct LightUniform {
    pub light_direction: Vec3,
    pub light_color: Vec3,
}

impl LightUniform {
    /// A light uniform from a direction and a color.
    pub fn new(direction: Vec3, color: Vec3) -> (r: LightUniform)
        ensures
            r.light_direction == direction,
            r.light_color == color,
    {
        LightUniform { light_direction: direction, light_color: color }
    }
}

} // verus!
