//! The camera system: a first-person camera, a perspective projection, and
//! a controller that folds keyboard and mouse intent into both.
//!
//! Angles are in fixed-point degrees. The stored yaw is kept reduced to one
//! full turn and the pitch is always clamped strictly inside a quarter turn,
//! so the view direction can never flip over the vertical.

use vstd::prelude::*;
use crate::fx::{
    clamp_s, fx_add, fx_add_s, fx_clamp, fx_clip, fx_mul, fx_mul_s, fx_neg, fx_ok, FX_LIM, SCALE,
};
use crate::mat::{dot3, dot3_s, mat_ok, vec3_ok, Mat4, Vec3};
use crate::trig::{cos_deg, cos_deg_s, sin_deg, sin_deg_s, wrap_360, wrap_360_s, DEG_360};

verus! {

/// The pitch bound: a quarter turn less a small epsilon, so the view
/// direction never reaches straight up or straight down.
pub const PITCH_LIMIT: i64 = 89_994_270;

/// A first-person camera: a position and a view direction given by yaw and
/// pitch in fixed-point degrees.
#[derive(Clone, Copy, Debug, PartialEq, Eq, Structural)]
pub struct Camera {
    pub position: Vec3,
    pub yaw: i64,
    pub pitch: i64,
}

/// The camera invariant: position in range, yaw reduced to one turn, pitch
/// inside the clamp bound.
pub open spec fn camera_ok(c: Camera) -> bool {
    &&& vec3_ok(c.position)
    &&& 0 <= c.yaw < DEG_360
    &&& -PITCH_LIMIT <= c.pitch <= PITCH_LIMIT
}

/// The view matrix of a camera: rows are the right, up and negated forward
/// vectors derived from yaw and pitch, with the translation column taking
/// the position onto each of them.
pub open spec fn view_mat_s(c: Camera) -> Mat4 {
    let sp = sin_deg_s(c.pitch as int);
    let cp = cos_deg_s(c.pitch as int);
    let sy = sin_deg_s(c.yaw as int);
    let cy = cos_deg_s(c.yaw as int);
    let fx_x = fx_mul_s(cp, cy);
    let fx_z = fx_mul_s(cp, sy);
    let ux = fx_mul_s(-sp, cy);
    let uz = fx_mul_s(-sp, sy);
    Mat4 {
        m00: (-sy) as i64,
        m01: 0,
        m02: cy as i64,
        m03: (-dot3_s(-sy, 0, cy, c.position.x as int, c.position.y as int, c.position.z as int)) as i64,
        m10: ux as i64,
        m11: cp as i64,
        m12: uz as i64,
        m13: (-dot3_s(ux, cp, uz, c.position.x as int, c.position.y as int, c.position.z as int)) as i64,
        m20: (-fx_x) as i64,
        m21: (-sp) as i64,
        m22: (-fx_z) as i64,
        m23: dot3_s(fx_x, sp, fx_z, c.position.x as int, c.position.y as int, c.position.z as int) as i64,
        m30: 0,
        m31: 0,
        m32: 0,
        m33: SCALE,
    }
}

impl Camera {
    /// A camera at a position with a view direction; the yaw is reduced to
    /// one turn and the pitch clamped into the allowed range.
    pub fn new(position: Vec3, yaw: i64, pitch: i64) -> (r: Camera)
        requires
            vec3_ok(position),
            fx_ok(yaw as int),
        ensures
            r.position == position,
            r.yaw == wrap_360_s(yaw as int),
            r.pitch == clamp_s(pitch as int, -PITCH_LIMIT as int, PITCH_LIMIT as int),
            camera_ok(r),
    {
        Camera {
            position,
            yaw: wrap_360(yaw),
            pitch: fx_clamp(pitch, -PITCH_LIMIT, PITCH_LIMIT),
        }
    }

    /// The view matrix of this camera.
    pub fn calculate_matrix(&self) -> (r: Mat4)
        requires
            camera_ok(*self),
        ensures
            r == view_mat_s(*self),
            mat_ok(r),
    {
        let sp = sin_deg(self.pitch);
        let cp = cos_deg(self.pitch);
        let sy = sin_deg(self.yaw);
        let cy = cos_deg(self.yaw);
        let f_x = fx_mul(cp, cy);
        let f_z = fx_mul(cp, sy);
        let u_x = fx_mul(-sp, cy);
        let u_z = fx_mul(-sp, sy);
        let p = self.position;
        Mat4 {
            m00: -sy,
            m01: 0,
            m02: cy,
            m03: fx_neg(dot3(-sy, 0, cy, p.x, p.y, p.z)),
            m10: u_x,
            m11: cp,
            m12: u_z,
            m13: fx_neg(dot3(u_x, cp, u_z, p.x, p.y, p.z)),
            m20: -f_x,
            m21: -sp,
            m22: -f_z,
            m23: dot3(f_x, sp, f_z, p.x, p.y, p.z),
            m30: 0,
            m31: 0,
            m32: 0,
            m33: SCALE,
        }
    }
}

/// The aspect ratio of a surface, width over height, in fixed point.
pub open spec fn aspect_s(width: int, height: int) -> int {
    fx_clip((width * SCALE) / height)
}

/// A perspective projection: aspect ratio, vertical field of view in
/// fixed-point degrees, and the near and far planes.
#[derive(Clone, Copy, Debug, PartialEq, Eq, Structural)]
pub struct Projection {
    pub aspect: i64,
    pub fovy: i64,
    pub znear: i64,
    pub zfar: i64,
}

/// The projection invariant: everything in range, with a nonnegative field
/// of view.
pub open spec fn projection_ok(p: Projection) -> bool {
    &&& fx_ok(p.aspect as int)
    &&& 0 <= p.fovy <= FX_LIM
    &&& fx_ok(p.znear as int)
    &&& fx_ok(p.zfar as int)
}

/// The perspective matrix: the standard right-handed frustum from the field
/// of view, aspect ratio and depth planes, with every division total (a
/// degenerate denominator yields zero, see `fx_div_s`).
pub open spec fn proj_mat_s(p: Projection) -> Mat4 {
    let half = p.fovy as int / 2;
    let f = crate::fx::fx_div_s(cos_deg_s(half), sin_deg_s(half));
    let depth = crate::fx::fx_sub_s(p.znear as int, p.zfar as int);
    Mat4 {
        m00: crate::fx::fx_div_s(f, p.aspect as int) as i64,
        m01: 0,
        m02: 0,
        m03: 0,
        m10: 0,
        m11: f as i64,
        m12: 0,
        m13: 0,
        m20: 0,
        m21: 0,
        m22: crate::fx::fx_div_s(fx_add_s(p.zfar as int, p.znear as int), depth) as i64,
        m23: crate::fx::fx_div_s(
            fx_add_s(fx_mul_s(p.zfar as int, p.znear as int), fx_mul_s(p.zfar as int, p.znear as int)),
            depth,
        ) as i64,
        m30: 0,
        m31: 0,
        m32: (-SCALE) as i64,
        m33: 0,
    }
}

impl Projection {
    /// A projection for a surface of the given pixel size.
    pub fn new(width: u32, height: u32, fovy: i64, znear: i64, zfar: i64) -> (r: Projection)
        requires
            height >= 1,
            0 <= fovy <= FX_LIM,
            fx_ok(znear as int),
            fx_ok(zfar as int),
        ensures
            r.aspect == aspect_s(width as int, height as int),
            r.fovy == fovy,
            r.znear == znear,
            r.zfar == zfar,
            projection_ok(r),
    {
        Projection { aspect: aspect_of(width, height), fovy, znear, zfar }
    }

    /// Recompute the aspect ratio for a resized surface; nothing else
    /// changes.
    pub fn resize(&mut self, width: u32, height: u32)
        requires
            height >= 1,
            projection_ok(*old(self)),
        ensures
            final(self).aspect == aspect_s(width as int, height as int),
            final(self).fovy == old(self).fovy,
            final(self).znear == old(self).znear,
            final(self).zfar == old(self).zfar,
            projection_ok(*final(self)),
    {
        self.aspect = aspect_of(width, height);
    }

    /// The perspective matrix of this projection.
    pub fn calculate_matrix(&self) -> (r: Mat4)
        requires
            projection_ok(*self),
        ensures
            r == proj_mat_s(*self),
            mat_ok(r),
    {
        let half = ((self.fovy as u64) / 2) as i64;
        let sh = sin_deg(half);
        let ch = cos_deg(half);
        let f = crate::fx::fx_div(ch, sh);
        let depth = crate::fx::fx_sub(self.znear, self.zfar);
        let zz = fx_mul(self.zfar, self.znear);
        Mat4 {
            m00: crate::fx::fx_div(f, self.aspect),
            m01: 0,
            m02: 0,
            m03: 0,
            m10: 0,
            m11: f,
            m12: 0,
            m13: 0,
            m20: 0,
            m21: 0,
            m22: crate::fx::fx_div(fx_add(self.zfar, self.znear), depth),
            m23: crate::fx::fx_div(fx_add(zz, zz), depth),
            m30: 0,
            m31: 0,
            m32: -SCALE,
            m33: 0,
        }
    }
}

/// The aspect ratio of a surface in fixed point, saturated.
fn aspect_of(width: u32, height: u32) -> (r: i64)
    requires
        height >= 1,
    ensures
        r == aspect_s(width as int, height as int),
        fx_ok(r as int),
{
    let a: u64 = ((width as u64) * (SCALE as u64)) / (height as u64);
    if a > FX_LIM as u64 {
        FX_LIM
    } else {
        a as i64
    }
}

/// Movement or rotation applied over a time step: intent times speed times
/// elapsed time.
pub open spec fn move_delta_s(amount: int, speed: int, dt: int) -> int {
    fx_mul_s(fx_mul_s(amount, speed), dt)
}

/// The position after one controller update: forward and strafe movement in
/// the horizontal plane from the yaw, then the vertical movement.
pub open spec fn updated_pos_s(c: Camera, k: CameraController, dt: int) -> Vec3 {
    let sy = sin_deg_s(c.yaw as int);
    let cy = cos_deg_s(c.yaw as int);
    let mf = move_delta_s(k.amount_forward as int, k.speed as int, dt);
    let mr = move_delta_s(k.amount_right as int, k.speed as int, dt);
    let mu = move_delta_s(k.amount_up as int, k.speed as int, dt);
    Vec3 {
        x: fx_add_s(fx_add_s(c.position.x as int, fx_mul_s(cy, mf)), fx_mul_s(-sy, mr)) as i64,
        y: fx_add_s(c.position.y as int, mu) as i64,
        z: fx_add_s(fx_add_s(c.position.z as int, fx_mul_s(sy, mf)), fx_mul_s(cy, mr)) as i64,
    }
}

/// The yaw after one controller update, reduced to one turn.
pub open spec fn updated_yaw_s(c: Camera, k: CameraController, dt: int) -> int {
    wrap_360_s(
        fx_add_s(c.yaw as int, move_delta_s(k.rotate_horizontal as int, k.sensitivity as int, dt)),
    )
}

/// The signed pitch change of one controller update (vertical mouse motion
/// pulls the pitch the opposite way).
pub open spec fn pitch_delta_s(k: CameraController, dt: int) -> int {
    move_delta_s(-(k.rotate_vertical as int), k.sensitivity as int, dt)
}

/// The pitch after one controller update, clamped inside the limit.
pub open spec fn updated_pitch_s(c: Camera, k: CameraController, dt: int) -> int {
    clamp_s(
        fx_add_s(c.pitch as int, pitch_delta_s(k, dt)),
        -PITCH_LIMIT as int,
        PITCH_LIMIT as int,
    )
}

/// The keys the camera controller recognizes; anything else is `Other`.
#[derive(Clone, Copy, Debug, PartialEq, Eq, Structural)]
pub enum Key {
    KeyW,
    KeyA,
    KeyS,
    KeyD,
    Space,
    ShiftLeft,
    Other,
}

/// Accumulated movement intent and the latest mouse deltas, with the speed
/// and sensitivity scalars.
#[derive(Clone, Copy, Debug, PartialEq, Eq, Structural)]
pub struct CameraController {
    pub amount_right: i64,
    pub amount_forward: i64,
    pub amount_up: i64,
    pub rotate_horizontal: i64,
    pub rotate_vertical: i64,
    pub speed: i64,
    pub sensitivity: i64,
}

/// The controller invariant: every field in the fixed-point range.
pub open spec fn controller_ok(k: CameraController) -> bool {
    &&& fx_ok(k.amount_right as int) && fx_ok(k.amount_forward as int) && fx_ok(k.amount_up as int)
    &&& fx_ok(k.rotate_horizontal as int) && fx_ok(k.rotate_vertical as int)
    &&& fx_ok(k.speed as int) && fx_ok(k.sensitivity as int)
}

impl CameraController {
    /// A controller with no pending intent.
    pub fn new(speed: i64, sensitivity: i64) -> (r: CameraController)
        requires
            fx_ok(speed as int),
            fx_ok(sensitivity as int),
        ensures
            r == (CameraController {
                amount_right: 0,
                amount_forward: 0,
                amount_up: 0,
                rotate_horizontal: 0,
                rotate_vertical: 0,
                speed,
                sensitivity,
            }),
            controller_ok(r),
    {
        CameraController {
            amount_right: 0,
            amount_forward: 0,
            amount_up: 0,
            rotate_horizontal: 0,
            rotate_vertical: 0,
            speed,
            sensitivity,
        }
    }

    /// Fold one keyboard event into the movement intent; returns whether the
    /// key is one the camera recognizes.
    pub fn process_keyboard(&mut self, key: Key, pressed: bool) -> (r: bool)
        requires
            controller_ok(*old(self)),
        ensures
            r == !(key is Other),
            key is KeyW ==> *final(self) == (CameraController {
                amount_forward: if pressed { SCALE } else { 0i64 },
                ..*old(self)
            }),
            key is KeyA ==> *final(self) == (CameraController {
                amount_right: if pressed { (-SCALE) as i64 } else { 0i64 },
                ..*old(self)
            }),
            key is KeyS ==> *final(self) == (CameraController {
                amount_forward: if pressed { (-SCALE) as i64 } else { 0i64 },
                ..*old(self)
            }),
            key is KeyD ==> *final(self) == (CameraController {
                amount_right: if pressed { SCALE } else { 0i64 },
                ..*old(self)
            }),
            key is Space ==> *final(self) == (CameraController {
                amount_up: if pressed { SCALE } else { 0i64 },
                ..*old(self)
            }),
            key is ShiftLeft ==> *final(self) == (CameraController {
                amount_up: if pressed { (-SCALE) as i64 } else { 0i64 },
                ..*old(self)
            }),
            key is Other ==> *final(self) == *old(self),
            controller_ok(*final(self)),
    {
        let amount: i64 = if pressed {
            SCALE
        } else {
            0
        };
        match key {
            Key::KeyW => {
                self.amount_forward = amount;
                true
            },
            Key::KeyA => {
                self.amount_right = -amount;
                true
            },
            Key::KeyS => {
                self.amount_forward = -amount;
                true
            },
            Key::KeyD => {
                self.amount_right = amount;
                true
            },
            Key::Space => {
                self.amount_up = amount;
                true
            },
            Key::ShiftLeft => {
                self.amount_up = -amount;
                true
            },
            Key::Other => false,
        }
    }

    /// Store the latest raw pointer delta, replacing (not accumulating) any
    /// delta not yet consumed; values are saturated into the fixed-point
    /// range.
    pub fn process_mouse(&mut self, mouse_dx: i64, mouse_dy: i64)
        ensures
            *final(self) == (CameraController {
                rotate_horizontal: fx_clip(mouse_dx as int) as i64,
                rotate_vertical: fx_clip(mouse_dy as int) as i64,
                ..*old(self)
            }),
    {
        self.rotate_horizontal = fx_clamp(mouse_dx, -FX_LIM, FX_LIM);
        self.rotate_vertical = fx_clamp(mouse_dy, -FX_LIM, FX_LIM);
    }

    /// Advance the camera by one time step: move in the horizontal plane
    /// along the yaw direction, move vertically, turn by the stored mouse
    /// deltas, consume those deltas, and clamp the pitch.
    pub fn update_camera(&mut self, camera: &mut Camera, dt: i64)
        requires
            controller_ok(*old(self)),
            camera_ok(*old(camera)),
            0 <= dt <= FX_LIM,
        ensures
            final(camera).position == updated_pos_s(*old(camera), *old(self), dt as int),
            final(camera).yaw == updated_yaw_s(*old(camera), *old(self), dt as int),
            final(camera).pitch == updated_pitch_s(*old(camera), *old(self), dt as int),
            camera_ok(*final(camera)),
            *final(self) == (CameraController {
                rotate_horizontal: 0,
                rotate_vertical: 0,
                ..*old(self)
            }),
    {
        let sy = sin_deg(camera.yaw);
        let cy = cos_deg(camera.yaw);
        let mf = fx_mul(fx_mul(self.amount_forward, self.speed), dt);
        let mr = fx_mul(fx_mul(self.amount_right, self.speed), dt);
        let mu = fx_mul(fx_mul(self.amount_up, self.speed), dt);

        let px = fx_add(fx_add(camera.position.x, fx_mul(cy, mf)), fx_mul(-sy, mr));
        let py = fx_add(camera.position.y, mu);
        let pz = fx_add(fx_add(camera.position.z, fx_mul(sy, mf)), fx_mul(cy, mr));
        camera.position = Vec3 { x: px, y: py, z: pz };

        let dyaw = fx_mul(fx_mul(self.rotate_horizontal, self.sensitivity), dt);
        camera.yaw = wrap_360(fx_add(camera.yaw, dyaw));

        let dpitch = fx_mul(fx_mul(-self.rotate_vertical, self.sensitivity), dt);
        camera.pitch = fx_clamp(fx_add(camera.pitch, dpitch), -PITCH_LIMIT, PITCH_LIMIT);

        self.rotate_horizontal = 0;
        self.rotate_vertical = 0;
    }
}

/// The pitch after any update lies inside the clamp bound: the view can
/// never pass the vertical.
pub proof fn lemma_pitch_never_beyond(c: Camera, k: CameraController, dt: int)
    ensures
        -PITCH_LIMIT <= updated_pitch_s(c, k, dt) <= PITCH_LIMIT,
{
}

/// A large enough downward pitch change lands exactly on the lower bound,
/// wherever the pitch started inside the range.
pub proof fn lemma_pitch_saturates_low(c: Camera, k: CameraController, dt: int)
    requires
        camera_ok(c),
        pitch_delta_s(k, dt) <= -2 * PITCH_LIMIT,
    ensures
        updated_pitch_s(c, k, dt) == -PITCH_LIMIT,
{
}

/// A large enough upward pitch change lands exactly on the upper bound,
/// wherever the pitch started inside the range.
pub proof fn lemma_pitch_saturates_high(c: Camera, k: CameraController, dt: int)
    requires
        camera_ok(c),
        pitch_delta_s(k, dt) >= 2 * PITCH_LIMIT,
    ensures
        updated_pitch_s(c, k, dt) == PITCH_LIMIT,
{
}

} // verus!
