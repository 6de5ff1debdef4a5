//! The per-frame lifecycle: the engine state that owns the store and the
//! camera triad, the resize handler, the frame state machine, the draw-list
//! join over the component store, and the recovery policy for presentation
//! failures.

use vstd::prelude::*;
use crate::camera::{
    aspect_s, camera_ok, controller_ok, proj_mat_s, projection_ok, updated_pitch_s,
    updated_pos_s, updated_yaw_s, view_mat_s, Camera, CameraController, Projection,
};
use crate::ecs::{ComponentKind, EcsError, World};
use crate::fx::FX_LIM;
use crate::mat::{mat_mul_s, Vec3};
use crate::model::{Material, Mesh};
use crate::transform::{transform_mat_s, ModelPush};
use crate::uniform::{strip_translation_s, CameraUniform};

verus! {

/// The phases one frame passes through, in order, returning to idle.
#[derive(Clone, Copy, Debug, PartialEq, Eq, Structural)]
pub enum FramePhase {
    Idle,
    Input,
    Update,
    Render,
    Present,
}

/// The successor of each frame phase: input comes first, then the
/// simulation update, then rendering, then presentation, then back to idle.
pub open spec fn next_phase_s(p: FramePhase) -> FramePhase {
    match p {
        FramePhase::Idle => FramePhase::Input,
        FramePhase::Input => FramePhase::Update,
        FramePhase::Update => FramePhase::Render,
        FramePhase::Render => FramePhase::Present,
        FramePhase::Present => FramePhase::Idle,
    }
}

/// Five steps take any phase back to itself: the frame cycle is exactly
/// input, update, render, present.
pub proof fn lemma_phase_cycle(p: FramePhase)
    ensures
        next_phase_s(next_phase_s(next_phase_s(next_phase_s(next_phase_s(p))))) == p,
{
}

/// What the host reports after asking the surface for a frame.
#[derive(Clone, Copy, Debug, PartialEq, Eq, Structural)]
pub enum PresentStatus {
    /// The frame was presented.
    Completed,
    /// The surface was lost and must be reconfigured.
    Lost,
    /// The surface no longer matches the window and must be reconfigured.
    Outdated,
    /// The device is out of memory.
    OutOfMemory,
    /// The frame took too long; it is simply dropped.
    Timeout,
}

/// What the lifecycle decides after a presentation report.
#[derive(Clone, Copy, Debug, PartialEq, Eq, Structural)]
pub enum FrameDecision {
    /// The frame went through; carry on.
    Continue,
    /// The surface was reconfigured at the stored size; the frame is
    /// abandoned and the loop carries on.
    Recovered,
    /// A fatal condition: the event loop must terminate.
    Exit,
    /// The frame is dropped; the loop carries on.
    SkipFrame,
}

/// One draw: an entity's model matrix as a per-draw constant, its material
/// binding, and an indexed draw per mesh.
pub struct DrawCommand {
    pub entity: usize,
    pub push: ModelPush,
    pub material: Material,
    pub meshes: Vec<Mesh>,
}

/// An entity is drawable when it has all three of renderable geometry, a
/// transform and a material.
pub open spec fn drawable(w: World, i: int) -> bool {
    &&& 0 <= i < w.slot_len_s()
    &&& w.transforms_s()[i] is Some
    &&& i < w.models_s().len() && w.models_s()[i] is Some
    &&& i < w.materials_s().len() && w.materials_s()[i] is Some
}

/// The drawable entities among the first `n`, in index order.
pub open spec fn drawable_indices_s(w: World, n: int) -> Seq<int>
    decreases n,
{
    if n <= 0 {
        Seq::empty()
    } else if drawable(w, n - 1) {
        drawable_indices_s(w, n - 1) + seq![n - 1]
    } else {
        drawable_indices_s(w, n - 1)
    }
}

/// A draw command carries exactly what the store holds for entity `i`.
pub open spec fn cmd_matches(c: DrawCommand, w: World, i: int) -> bool {
    &&& c.entity == i
    &&& c.push.model == transform_mat_s(w.transforms_s()[i].unwrap())
    &&& c.material == w.materials_s()[i].unwrap()
    &&& c.meshes@ == w.models_s()[i].unwrap().meshes@
}

/// The whole engine state the lifecycle owns: the store, the camera triad,
/// the uniform, the stored surface and depth sizes, and the frame phase.
pub struct EngineCore {
    pub world: World,
    pub camera: Camera,
    pub projection: Projection,
    pub camera_controller: CameraController,
    pub camera_uniform: CameraUniform,
    pub size_width: u32,
    pub size_height: u32,
    pub depth_width: u32,
    pub depth_height: u32,
    pub reconfigures: u64,
    pub phase: FramePhase,
}

/// The engine invariant: every owned piece is well formed and the stored
/// sizes are nonzero.
pub open spec fn engine_ok(e: EngineCore) -> bool {
    &&& e.world.wf()
    &&& camera_ok(e.camera)
    &&& projection_ok(e.projection)
    &&& controller_ok(e.camera_controller)
    &&& e.size_width >= 1 && e.size_height >= 1
}

impl EngineCore {
    /// The engine over a populated store and a surface of the given size,
    /// with the standard starting camera: at (0, 5, 10), looking along
    /// negative z (yaw a quarter turn back), pitched down twenty degrees,
    /// a 45 degree field of view, near and far planes at 0.1 and 100, and
    /// a controller with speed 4 and sensitivity 0.4.
    pub fn new(width: u32, height: u32, world: World) -> (r: EngineCore)
        requires
            width >= 1,
            height >= 1,
            world.wf(),
        ensures
            r.world == world,
            r.camera.position == (Vec3 { x: 0i64, y: 5_000_000i64, z: 10_000_000i64 }),
            r.camera.yaw == 270_000_000i64,
            r.camera.pitch == -20_000_000i64,
            r.projection.aspect == aspect_s(width as int, height as int),
            r.projection.fovy == 45_000_000i64,
            r.projection.znear == 100_000i64,
            r.projection.zfar == 100_000_000i64,
            r.camera_controller.speed == 4_000_000i64,
            r.camera_controller.sensitivity == 400_000i64,
            r.camera_controller.amount_right == 0 && r.camera_controller.amount_forward == 0
                && r.camera_controller.amount_up == 0,
            r.camera_controller.rotate_horizontal == 0 && r.camera_controller.rotate_vertical
                == 0,
            r.camera_uniform.view_projection == mat_mul_s(
                proj_mat_s(r.projection),
                view_mat_s(r.camera),
            ),
            r.camera_uniform.view_without_translation == strip_translation_s(view_mat_s(r.camera)),
            r.camera_uniform.projection == proj_mat_s(r.projection),
            r.size_width == width && r.size_height == height,
            r.depth_width == width && r.depth_height == height,
            r.reconfigures == 0,
            r.phase is Idle,
            engine_ok(r),
    {
        let camera = Camera::new(
            Vec3 { x: 0, y: 5_000_000, z: 10_000_000 },
            -90_000_000,
            -20_000_000,
        );
        let projection = Projection::new(width, height, 45_000_000, 100_000, 100_000_000);
        let camera_controller = CameraController::new(4_000_000, 400_000);
        let mut camera_uniform = CameraUniform::new();
        camera_uniform.update_view_projection(&camera, &projection);
        EngineCore {
            world,
            camera,
            projection,
            camera_controller,
            camera_uniform,
            size_width: width,
            size_height: height,
            depth_width: width,
            depth_height: height,
            reconfigures: 0,
            phase: FramePhase::Idle,
        }
    }

    /// Advance the frame state machine by one phase.
    pub fn advance_phase(&mut self)
        ensures
            final(self).phase == next_phase_s(old(self).phase),
            *final(self) == (EngineCore { phase: next_phase_s(old(self).phase), ..*old(self) }),
    {
        let next = match self.phase {
            FramePhase::Idle => FramePhase::Input,
            FramePhase::Input => FramePhase::Update,
            FramePhase::Update => FramePhase::Render,
            FramePhase::Render => FramePhase::Present,
            FramePhase::Present => FramePhase::Idle,
        };
        self.phase = next;
    }

    /// Handle a window resize: a size with both dimensions nonzero is
    /// stored, the projection aspect recomputed, the depth buffer size
    /// replaced and the surface reconfigured (one more reconfiguration);
    /// a zero-area size changes nothing at all. Returns whether the host
    /// must recreate its depth texture and reconfigure its surface.
    pub fn resize(&mut self, width: u32, height: u32) -> (changed: bool)
        requires
            projection_ok(old(self).projection),
            old(self).reconfigures < u64::MAX,
        ensures
            changed == (width >= 1 && height >= 1),
            changed ==> *final(self) == (EngineCore {
                size_width: width,
                size_height: height,
                depth_width: width,
                depth_height: height,
                reconfigures: (old(self).reconfigures + 1) as u64,
                projection: Projection {
                    aspect: aspect_s(width as int, height as int) as i64,
                    ..old(self).projection
                },
                ..*old(self)
            }),
            !changed ==> *final(self) == *old(self),
            projection_ok(final(self).projection),
    {
        if width > 0 && height > 0 {
            self.size_width = width;
            self.size_height = height;
            self.projection.resize(width, height);
            self.depth_width = width;
            self.depth_height = height;
            self.reconfigures = self.reconfigures + 1;
            true
        } else {
            false
        }
    }

    /// Advance the simulation by one time step: fold the controller's
    /// accumulated intent into the camera, then recompute the camera
    /// uniform from the new camera and the projection.
    pub fn update(&mut self, dt: i64)
        requires
            controller_ok(old(self).camera_controller),
            camera_ok(old(self).camera),
            projection_ok(old(self).projection),
            0 <= dt <= FX_LIM,
        ensures
            final(self).camera.position == updated_pos_s(
                old(self).camera,
                old(self).camera_controller,
                dt as int,
            ),
            final(self).camera.yaw == updated_yaw_s(
                old(self).camera,
                old(self).camera_controller,
                dt as int,
            ),
            final(self).camera.pitch == updated_pitch_s(
                old(self).camera,
                old(self).camera_controller,
                dt as int,
            ),
            camera_ok(final(self).camera),
            final(self).camera_controller == (CameraController {
                rotate_horizontal: 0,
                rotate_vertical: 0,
                ..old(self).camera_controller
            }),
            final(self).camera_uniform.view_projection == mat_mul_s(
                proj_mat_s(old(self).projection),
                view_mat_s(final(self).camera),
            ),
            final(self).camera_uniform.view_without_translation == strip_translation_s(
                view_mat_s(final(self).camera),
            ),
            final(self).camera_uniform.projection == proj_mat_s(old(self).projection),
            final(self).world == old(self).world,
            final(self).projection == old(self).projection,
            final(self).size_width == old(self).size_width,
            final(self).size_height == old(self).size_height,
            final(self).depth_width == old(self).depth_width,
            final(self).depth_height == old(self).depth_height,
            final(self).reconfigures == old(self).reconfigures,
            final(self).phase == old(self).phase,
    {
        self.camera_controller.update_camera(&mut self.camera, dt);
        self.camera_uniform.update_view_projection(&self.camera, &self.projection);
    }

    /// Apply the presentation error policy: success carries on; a lost or
    /// outdated surface triggers exactly one reconfiguring resize at the
    /// stored size and the loop carries on; out of memory is fatal; a
    /// timeout drops the frame and carries on.
    pub fn handle_present(&mut self, status: PresentStatus) -> (d: FrameDecision)
        requires
            engine_ok(*old(self)),
            old(self).reconfigures < u64::MAX,
        ensures
            status is Completed ==> d == FrameDecision::Continue && *final(self) == *old(self),
            (status is Lost || status is Outdated) ==> d == FrameDecision::Recovered
                && *final(self) == (EngineCore {
                reconfigures: (old(self).reconfigures + 1) as u64,
                projection: Projection {
                    aspect: aspect_s(
                        old(self).size_width as int,
                        old(self).size_height as int,
                    ) as i64,
                    ..old(self).projection
                },
                depth_width: old(self).size_width,
                depth_height: old(self).size_height,
                ..*old(self)
            }),
            status is OutOfMemory ==> d == FrameDecision::Exit && *final(self) == *old(self),
            status is Timeout ==> d == FrameDecision::SkipFrame && *final(self) == *old(self),
            engine_ok(*final(self)),
    {
        match status {
            PresentStatus::Completed => FrameDecision::Continue,
            PresentStatus::Lost | PresentStatus::Outdated => {
                let w = self.size_width;
                let h = self.size_height;
                let _changed = self.resize(w, h);
                FrameDecision::Recovered
            },
            PresentStatus::OutOfMemory => FrameDecision::Exit,
            PresentStatus::Timeout => FrameDecision::SkipFrame,
        }
    }
}

/// Pick the output format from the backend's capability list: the first
/// format flagged as sRGB, falling back to the first reported format when
/// none is. The caller hands the sRGB flag of each reported format, in
/// order; the result indexes that list.
pub fn select_surface_format(is_srgb: &Vec<bool>) -> (r: usize)
    requires
        is_srgb@.len() >= 1,
    ensures
        r < is_srgb@.len(),
        forall|i: int| 0 <= i < r ==> !is_srgb@[i],
        !(forall|i: int| 0 <= i < is_srgb@.len() ==> !is_srgb@[i]) ==> is_srgb@[r as int],
        (forall|i: int| 0 <= i < is_srgb@.len() ==> !is_srgb@[i]) ==> r == 0,
{
    let mut i: usize = 0;
    while i < is_srgb.len()
        invariant
            i <= is_srgb@.len(),
            forall|j: int| 0 <= j < i ==> !is_srgb@[j],
        decreases is_srgb@.len() - i,
    {
        if is_srgb[i] {
            return i;
        }
        i = i + 1;
    }
    0
}

/// Clone a mesh list field by field.
fn clone_meshes(meshes: &Vec<Mesh>) -> (r: Vec<Mesh>)
    ensures
        r@ == meshes@,
{
    let mut out: Vec<Mesh> = Vec::new();
    let mut i: usize = 0;
    while i < meshes.len()
        invariant
            i <= meshes@.len(),
            out@ == meshes@.subrange(0, i as int),
        decreases meshes@.len() - i,
    {
        let m = &meshes[i];
        out.push(
            Mesh {
                name: m.name.clone(),
                vertex_buffer: m.vertex_buffer,
                index_buffer: m.index_buffer,
                num_elements: m.num_elements,
            },
        );
        proof {
            assert(out@ =~= meshes@.subrange(0, i as int + 1));
        }
        i = i + 1;
    }
    proof {
        assert(meshes@.subrange(0, meshes@.len() as int) =~= meshes@);
    }
    out
}

/// Join the store's renderable, transform and material sequences by index
/// and emit one draw command per entity that has all three, in index
/// order. The three sequences are borrowed exclusively for the duration
/// and released on every path; a conflicting outstanding borrow fails the
/// whole pass and changes nothing.
pub fn build_draw_list(world: &mut World) -> (r: Result<Vec<DrawCommand>, EcsError>)
    requires
        old(world).wf(),
    ensures
        r is Ok <==> (old(world).flag_s(ComponentKind::Model) is Free && old(world).flag_s(
            ComponentKind::Transform,
        ) is Free && old(world).flag_s(ComponentKind::Material) is Free),
        r is Err ==> r == Err::<Vec<DrawCommand>, EcsError>(EcsError::BorrowConflict),
        final(world).count_s() == old(world).count_s(),
        final(world).transforms_s() == old(world).transforms_s(),
        final(world).models_s() == old(world).models_s(),
        final(world).materials_s() == old(world).materials_s(),
        final(world).cubemaps_s() == old(world).cubemaps_s(),
        forall|k: ComponentKind| final(world).flag_s(k) == old(world).flag_s(k),
        final(world).wf(),
        r matches Ok(cmds) ==> {
            &&& cmds@.len() == drawable_indices_s(*old(world), old(world).count_s() as int).len()
            &&& forall|k: int|
                0 <= k < cmds@.len() ==> cmd_matches(
                    #[trigger] cmds@[k],
                    *old(world),
                    drawable_indices_s(*old(world), old(world).count_s() as int)[k],
                )
        },
{
    if !world.try_borrow_mut(ComponentKind::Model) {
        return Err(EcsError::BorrowConflict);
    }
    if !world.try_borrow_mut(ComponentKind::Transform) {
        let _released = world.release(ComponentKind::Model);
        return Err(EcsError::BorrowConflict);
    }
    if !world.try_borrow_mut(ComponentKind::Material) {
        let _released = world.release(ComponentKind::Transform);
        let _released2 = world.release(ComponentKind::Model);
        return Err(EcsError::BorrowConflict);
    }
    let count = world.entity_count();
    let mut cmds: Vec<DrawCommand> = Vec::new();
    let mut i: usize = 0;
    while i < count
        invariant
            i <= count,
            count == world.count_s(),
            world.wf(),
            world.count_s() == old(world).count_s(),
            world.transforms_s() == old(world).transforms_s(),
            world.models_s() == old(world).models_s(),
            world.materials_s() == old(world).materials_s(),
            world.cubemaps_s() == old(world).cubemaps_s(),
            world.flag_s(ComponentKind::Model) is Exclusive,
            world.flag_s(ComponentKind::Transform) is Exclusive,
            world.flag_s(ComponentKind::Material) is Exclusive,
            world.flag_s(ComponentKind::Cubemap) == old(world).flag_s(ComponentKind::Cubemap),
            cmds@.len() == drawable_indices_s(*old(world), i as int).len(),
            forall|k: int|
                0 <= k < cmds@.len() ==> cmd_matches(
                    #[trigger] cmds@[k],
                    *old(world),
                    drawable_indices_s(*old(world), i as int)[k],
                ),
        decreases count - i,
    {
        let transform = world.transform_at(i);
        let model = world.model_at(i);
        let material = world.material_at(i);
        match (transform, model, material) {
            (Some(t), Some(m), Some(mat)) => {
                let push = ModelPush::from_transform(&t);
                let meshes = clone_meshes(&m.meshes);
                cmds.push(DrawCommand { entity: i, push, material: mat, meshes });
            },
            _ => {},
        }
        i = i + 1;
    }
    let _released = world.release(ComponentKind::Material);
    let _released2 = world.release(ComponentKind::Transform);
    let _released3 = world.release(ComponentKind::Model);
    Ok(cmds)
}

} // verus!
