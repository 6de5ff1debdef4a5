use scene_engine::ecs::{Component, ComponentKind, World};
use scene_engine::lifecycle::{
    build_draw_list, select_surface_format, EngineCore, FrameDecision, FramePhase, PresentStatus,
};
use scene_engine::mat::{Mat4, Vec3};
use scene_engine::model::{Material, Mesh, Model};
use scene_engine::transform::Transform;
use scene_engine::SCALE;

fn engine() -> EngineCore {
    EngineCore::new(800, 600, World::new())
}

fn unit_transform() -> Transform {
    Transform {
        translation: Vec3 { x: 0, y: 0, z: 0 },
        scale: SCALE,
        rotation: Vec3 { x: 0, y: 0, z: 0 },
    }
}

fn mesh(vb: u64) -> Mesh {
    Mesh { name: String::from("part"), vertex_buffer: vb, index_buffer: vb + 1, num_elements: 3 }
}

#[test]
fn engine_starts_with_the_standard_camera() {
    let e = engine();
    assert_eq!(e.camera.position, Vec3 { x: 0, y: 5_000_000, z: 10_000_000 });
    assert_eq!(e.camera.yaw, 270_000_000);
    assert_eq!(e.camera.pitch, -20_000_000);
    assert_eq!(e.projection.fovy, 45_000_000);
    assert_eq!(e.size_width, 800);
    assert_eq!(e.depth_height, 600);
    assert_eq!(e.reconfigures, 0);
    assert_eq!(e.phase, FramePhase::Idle);
}

#[test]
fn resize_to_zero_changes_nothing() {
    let mut e = engine();
    let aspect_before = e.projection.aspect;
    assert!(!e.resize(0, 600));
    assert!(!e.resize(800, 0));
    assert_eq!(e.size_width, 800);
    assert_eq!(e.size_height, 600);
    assert_eq!(e.depth_width, 800);
    assert_eq!(e.depth_height, 600);
    assert_eq!(e.projection.aspect, aspect_before);
    assert_eq!(e.reconfigures, 0);
}

#[test]
fn nonzero_resize_updates_size_aspect_and_depth() {
    let mut e = engine();
    assert!(e.resize(400, 100));
    assert_eq!(e.size_width, 400);
    assert_eq!(e.size_height, 100);
    assert_eq!(e.depth_width, 400);
    assert_eq!(e.depth_height, 100);
    assert_eq!(e.projection.aspect, 4_000_000);
    assert_eq!(e.reconfigures, 1);
}

#[test]
fn lost_surface_recovers_with_exactly_one_reconfiguration() {
    let mut e = engine();
    let d = e.handle_present(PresentStatus::Lost);
    assert_eq!(d, FrameDecision::Recovered);
    // exactly one reconfiguring resize, at the stored size
    assert_eq!(e.reconfigures, 1);
    assert_eq!(e.size_width, 800);
    assert_eq!(e.size_height, 600);
    assert_eq!(e.depth_width, 800);
    assert_eq!(e.depth_height, 600);
}

#[test]
fn outdated_surface_recovers_like_a_lost_one() {
    let mut e = engine();
    assert_eq!(e.handle_present(PresentStatus::Outdated), FrameDecision::Recovered);
    assert_eq!(e.reconfigures, 1);
}

#[test]
fn out_of_memory_is_fatal_and_changes_nothing() {
    let mut e = engine();
    assert_eq!(e.handle_present(PresentStatus::OutOfMemory), FrameDecision::Exit);
    assert_eq!(e.reconfigures, 0);
}

#[test]
fn timeout_skips_the_frame() {
    let mut e = engine();
    assert_eq!(e.handle_present(PresentStatus::Timeout), FrameDecision::SkipFrame);
    assert_eq!(e.reconfigures, 0);
}

#[test]
fn successful_presentation_continues() {
    let mut e = engine();
    assert_eq!(e.handle_present(PresentStatus::Completed), FrameDecision::Continue);
    assert_eq!(e.reconfigures, 0);
}

#[test]
fn the_frame_phases_cycle_in_order() {
    let mut e = engine();
    e.advance_phase();
    assert_eq!(e.phase, FramePhase::Input);
    e.advance_phase();
    assert_eq!(e.phase, FramePhase::Update);
    e.advance_phase();
    assert_eq!(e.phase, FramePhase::Render);
    e.advance_phase();
    assert_eq!(e.phase, FramePhase::Present);
    e.advance_phase();
    assert_eq!(e.phase, FramePhase::Idle);
}

#[test]
fn update_recomputes_the_uniform_from_the_new_camera() {
    let mut e = engine();
    let vp_before = e.camera_uniform.view_projection;
    e.camera_controller.process_mouse(50_000_000, 0);
    e.update(SCALE);
    // the deltas were consumed and the packed matrix moved with the camera
    assert_eq!(e.camera_controller.rotate_horizontal, 0);
    assert_ne!(e.camera_uniform.view_projection, vp_before);
    assert_eq!(e.camera_uniform.projection, e.projection.calculate_matrix());
}

#[test]
fn uniform_starts_as_identities() {
    let u = scene_engine::uniform::CameraUniform::new();
    assert_eq!(u.view_projection, Mat4::identity());
    assert_eq!(u.projection, Mat4::identity());
}

#[test]
fn draw_list_joins_the_three_component_sequences() {
    let mut w = World::new();
    // entity 0: everything; entity 1: no material; entity 2: everything
    for _ in 0..3 {
        let _ = w.new_entity();
    }
    for e in [0usize, 2] {
        w.add_component_to_entity(e, Component::Transform(unit_transform())).unwrap();
        w.add_component_to_entity(
            e,
            Component::Model(Model { meshes: vec![mesh(10 * e as u64)] }),
        )
        .unwrap();
        w.add_component_to_entity(e, Component::Material(Material { bind_group: e as u64 }))
            .unwrap();
    }
    w.add_component_to_entity(1, Component::Transform(unit_transform())).unwrap();
    w.add_component_to_entity(1, Component::Model(Model { meshes: vec![mesh(99)] })).unwrap();

    let cmds = build_draw_list(&mut w).unwrap();
    assert_eq!(cmds.len(), 2);
    assert_eq!(cmds[0].entity, 0);
    assert_eq!(cmds[1].entity, 2);
    assert_eq!(cmds[1].material.bind_group, 2);
    assert_eq!(cmds[1].meshes[0].vertex_buffer, 20);
    assert_eq!(cmds[0].push.model, unit_transform().mat4());
    // the borrows were released: the store accepts changes again
    assert!(w.add_component_to_entity(1, Component::Material(Material { bind_group: 9 })).is_ok());
}

#[test]
fn draw_list_fails_fast_under_an_outstanding_borrow() {
    let mut w = World::new();
    let _ = w.new_entity();
    assert!(w.try_borrow(ComponentKind::Transform));
    assert!(build_draw_list(&mut w).is_err());
    // the model borrow taken along the way was released again
    assert!(w.release(ComponentKind::Transform));
    assert!(build_draw_list(&mut w).is_ok());
}

#[test]
fn surface_format_prefers_the_first_srgb_entry() {
    assert_eq!(select_surface_format(&vec![false, true, true]), 1);
    assert_eq!(select_surface_format(&vec![true, false]), 0);
    // no sRGB format reported: fall back to the first
    assert_eq!(select_surface_format(&vec![false, false, false]), 0);
}

#[test]
fn the_uniform_packs_three_matrices_row_by_row() {
    let u = scene_engine::uniform::CameraUniform::new();
    let packed = u.pack();
    assert_eq!(packed.len(), 48);
    // an identity matrix packs as the unit diagonal
    assert_eq!(packed[0], SCALE);
    assert_eq!(packed[1], 0);
    assert_eq!(packed[5], SCALE);
    assert_eq!(packed[16], SCALE);
    assert_eq!(packed[47], SCALE);
}
