use scene_engine::mat::{Mat4, Vec3};
use scene_engine::transform::{rotation_x, rotation_z, ModelPush, Transform};
use scene_engine::SCALE;

fn translation_of(tx: i64, ty: i64, tz: i64) -> Mat4 {
    Mat4::translation(Vec3 { x: tx, y: ty, z: tz })
}

#[test]
fn identity_times_identity() {
    let id = Mat4::identity();
    assert_eq!(id.mul(&id), id);
}

#[test]
fn translation_times_identity() {
    let t = translation_of(3_000_000, -2_000_000, 500_000);
    let id = Mat4::identity();
    assert_eq!(t.mul(&id), t);
    assert_eq!(id.mul(&t), t);
}

#[test]
fn zero_rotation_unit_scale_gives_pure_translation() {
    // rotation (0,0,0), scale 1, translation (tx,ty,tz): the model matrix
    // is exactly the translation matrix
    let tr = Transform {
        translation: Vec3 { x: 7_000_000, y: 8_000_000, z: -9_000_000 },
        scale: SCALE,
        rotation: Vec3 { x: 0, y: 0, z: 0 },
    };
    assert_eq!(tr.mat4(), translation_of(7_000_000, 8_000_000, -9_000_000));
}

#[test]
fn zero_rotation_zero_translation_gives_pure_scale() {
    let tr = Transform {
        translation: Vec3 { x: 0, y: 0, z: 0 },
        scale: 2_500_000,
        rotation: Vec3 { x: 0, y: 0, z: 0 },
    };
    assert_eq!(tr.mat4(), Mat4::uniform_scale(2_500_000));
}

#[test]
fn rotation_by_quarter_turn_is_exact() {
    let r = rotation_x(90_000_000);
    // cos 90 == 0, sin 90 == 1
    assert_eq!(r.m11, 0);
    assert_eq!(r.m12, -SCALE);
    assert_eq!(r.m21, SCALE);
    assert_eq!(r.m22, 0);
    let rz = rotation_z(90_000_000);
    assert_eq!(rz.m00, 0);
    assert_eq!(rz.m01, -SCALE);
}

#[test]
fn model_push_packs_the_model_matrix() {
    let tr = Transform {
        translation: Vec3 { x: 1_000_000, y: 2_000_000, z: 3_000_000 },
        scale: SCALE,
        rotation: Vec3 { x: 0, y: 0, z: 0 },
    };
    let push = ModelPush::from_transform(&tr);
    assert_eq!(push.model, tr.mat4());
    assert_eq!(push.model.m03, 1_000_000);
    assert_eq!(push.model.m13, 2_000_000);
    assert_eq!(push.model.m23, 3_000_000);
}

#[test]
fn rotated_quarter_turn_moves_translation_through_composition() {
    // scale 2 with translation: diagonal is 2.0 and the translation column
    // is carried through unchanged
    let tr = Transform {
        translation: Vec3 { x: 4_000_000, y: 0, z: 0 },
        scale: 2_000_000,
        rotation: Vec3 { x: 0, y: 0, z: 0 },
    };
    let m = tr.mat4();
    assert_eq!(m.m00, 2_000_000);
    assert_eq!(m.m11, 2_000_000);
    assert_eq!(m.m22, 2_000_000);
    assert_eq!(m.m03, 4_000_000);
    assert_eq!(m.m33, SCALE);
}
