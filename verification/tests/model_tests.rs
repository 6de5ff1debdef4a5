use scene_engine::cubemap::{create_cubemap_vertices, CubemapComponent};
use scene_engine::model::{build_gltf_vertices, build_obj_vertices, widen_indices, ModelError, Uv};
use scene_engine::mat::Vec3;
use scene_engine::SCALE;

#[test]
fn obj_vertices_assemble_with_flipped_v() {
    // one triangle: three vertices, no normals in the decode
    let positions: Vec<i64> = vec![
        0, 0, 0,
        SCALE, 0, 0,
        0, SCALE, 0,
    ];
    let texcoords: Vec<i64> = vec![
        0, 0,
        SCALE, 0,
        0, 250_000,
    ];
    let normals: Vec<i64> = Vec::new();
    let verts = build_obj_vertices(&positions, &texcoords, &normals).unwrap();
    assert_eq!(verts.len(), 3);
    assert_eq!(verts[1].position, Vec3 { x: SCALE, y: 0, z: 0 });
    // the v coordinate is flipped: v' = 1 - v
    assert_eq!(verts[0].uv, Uv { u: 0, v: SCALE });
    assert_eq!(verts[2].uv, Uv { u: 0, v: 750_000 });
    // missing normals default to the zero vector
    assert_eq!(verts[0].normal, Vec3 { x: 0, y: 0, z: 0 });
}

#[test]
fn obj_vertices_take_decoded_normals_when_present() {
    let positions: Vec<i64> = vec![0, 0, 0];
    let texcoords: Vec<i64> = vec![0, 0];
    let normals: Vec<i64> = vec![0, SCALE, 0];
    let verts = build_obj_vertices(&positions, &texcoords, &normals).unwrap();
    assert_eq!(verts[0].normal, Vec3 { x: 0, y: SCALE, z: 0 });
}

#[test]
fn obj_vertices_fail_on_short_texcoords() {
    let positions: Vec<i64> = vec![0, 0, 0, 1, 1, 1];
    let texcoords: Vec<i64> = vec![0, 0];
    let normals: Vec<i64> = Vec::new();
    assert!(matches!(
        build_obj_vertices(&positions, &texcoords, &normals),
        Err(ModelError::TooFewTexcoords)
    ));
}

#[test]
fn obj_vertices_fail_on_short_normals() {
    let positions: Vec<i64> = vec![0, 0, 0, 1, 1, 1];
    let texcoords: Vec<i64> = vec![0, 0, 0, 0];
    let normals: Vec<i64> = vec![0, SCALE, 0];
    assert!(matches!(
        build_obj_vertices(&positions, &texcoords, &normals),
        Err(ModelError::TooFewNormals)
    ));
}

#[test]
fn gltf_vertices_pad_missing_attributes() {
    let positions = vec![
        Vec3 { x: 1, y: 2, z: 3 },
        Vec3 { x: 4, y: 5, z: 6 },
    ];
    let normals = vec![Vec3 { x: 0, y: SCALE, z: 0 }];
    let uvs: Vec<Uv> = Vec::new();
    let verts = build_gltf_vertices(&positions, &normals, &uvs);
    assert_eq!(verts.len(), 2);
    assert_eq!(verts[0].normal, Vec3 { x: 0, y: SCALE, z: 0 });
    // the second vertex has no decoded normal: zero vector
    assert_eq!(verts[1].normal, Vec3 { x: 0, y: 0, z: 0 });
    // no decoded texture coordinates at all: origin
    assert_eq!(verts[0].uv, Uv { u: 0, v: 0 });
    // and no flip on this path
    assert_eq!(verts[1].position, Vec3 { x: 4, y: 5, z: 6 });
}

#[test]
fn indices_widen_without_change() {
    let idx: Vec<u16> = vec![0, 1, 2, 65535];
    let wide = widen_indices(&idx);
    assert_eq!(wide, vec![0u32, 1, 2, 65535]);
}

#[test]
fn cube_geometry_has_thirty_six_unit_corners() {
    let verts = create_cubemap_vertices();
    assert_eq!(verts.len(), 36);
    for v in &verts {
        assert!(v.x == SCALE || v.x == -SCALE);
        assert!(v.y == SCALE || v.y == -SCALE);
        assert!(v.z == SCALE || v.z == -SCALE);
    }
    // the first face is the back face, wound from its top-left corner
    assert_eq!(verts[0], Vec3 { x: -SCALE, y: SCALE, z: -SCALE });
    assert_eq!(verts[1], Vec3 { x: -SCALE, y: -SCALE, z: -SCALE });
}

#[test]
fn cubemap_component_always_has_six_layers() {
    let c = CubemapComponent::new(3, 4);
    assert_eq!(c.layer_count, 6);
    assert_eq!(c.vertices, 3);
    assert_eq!(c.bind_group, 4);
}
