use scene_engine::cubemap::CubemapComponent;
use scene_engine::ecs::ComponentKind;
use scene_engine::model::{Material, Mesh, Model};
use scene_engine::scene::{
    build_world, parse_scene, validate_entity, EntityAssets, RawEntity, RawTransform,
    SceneError,
};

fn no_raw_extras() -> RawEntity {
    RawEntity {
        model_path: None,
        gltf_path: None,
        texture_path: None,
        transform: None,
        skybox: None,
    }
}

fn text(s: &str) -> Option<Vec<u8>> {
    Some(s.as_bytes().to_vec())
}

fn one_mesh_model(vb: u64, ib: u64) -> Model {
    Model {
        meshes: vec![Mesh {
            name: String::from("part"),
            vertex_buffer: vb,
            index_buffer: ib,
            num_elements: 36,
        }],
    }
}

fn no_assets() -> EntityAssets {
    EntityAssets { model: None, gltf_model: None, material: None, cubemap: None }
}

#[test]
fn scene_with_model_texture_and_transform_populates_one_entity() {
    let json = r#"{
        "entities": [
            {
                "model_path": "cube.obj",
                "texture_path": "bricks.png",
                "transform": {
                    "position": [1.0, 2.0, 3.0],
                    "rotation": [0.0, 0.0, 0.0],
                    "scale": 2.0
                }
            }
        ]
    }"#;
    let desc = parse_scene(json).unwrap();
    assert_eq!(desc.entities.len(), 1);
    let e = &desc.entities[0];
    assert_eq!(e.model_path.as_deref(), Some("cube.obj"));
    assert_eq!(e.texture_path.as_deref(), Some("bricks.png"));
    let t = e.transform.unwrap();
    assert_eq!(t.scale, 2_000_000);
    assert_eq!(t.translation.x, 1_000_000);
    assert_eq!(t.translation.y, 2_000_000);
    assert_eq!(t.translation.z, 3_000_000);

    let assets = vec![EntityAssets {
        model: Some(one_mesh_model(10, 11)),
        gltf_model: None,
        material: Some(Material { bind_group: 5 }),
        cubemap: None,
    }];
    let w = build_world(&desc, assets);
    assert_eq!(w.entity_count(), 1);
    assert!(w.has_component(0, ComponentKind::Model));
    assert!(w.has_component(0, ComponentKind::Material));
    assert!(w.has_component(0, ComponentKind::Transform));
    assert!(!w.has_component(0, ComponentKind::Cubemap));
    assert_eq!(w.transform_at(0).unwrap().scale, 2_000_000);
    assert_eq!(w.material_at(0).unwrap().bind_group, 5);
}

#[test]
fn six_face_skybox_loads_and_carries_six_layers() {
    let json = r#"{
        "entities": [
            { "skybox": ["px.png","nx.png","py.png","ny.png","pz.png","nz.png"] }
        ]
    }"#;
    let desc = parse_scene(json).unwrap();
    let sb = desc.entities[0].skybox.as_ref().unwrap();
    assert_eq!(sb.len(), 6);
    let assets = vec![EntityAssets {
        model: None,
        gltf_model: None,
        material: None,
        cubemap: Some(CubemapComponent::new(21, 22)),
    }];
    let w = build_world(&desc, assets);
    assert!(w.has_component(0, ComponentKind::Cubemap));
    assert_eq!(w.cubemap_at(0).unwrap().layer_count, 6);
}

#[test]
fn five_face_skybox_fails_the_load() {
    let json = r#"{
        "entities": [
            { "skybox": ["px.png","nx.png","py.png","ny.png","pz.png"] }
        ]
    }"#;
    assert!(matches!(parse_scene(json), Err(SceneError::SkyboxFaceCount)));
}

#[test]
fn texture_defaults_only_beside_geometry() {
    let json = r#"{ "entities": [ { "model_path": "cube.obj" } ] }"#;
    let desc = parse_scene(json).unwrap();
    assert_eq!(desc.entities[0].texture_path.as_deref(), Some("debug.png"));

    // a texture path without any geometry is not attached
    let json2 = r#"{ "entities": [ { "texture_path": "bricks.png" } ] }"#;
    let desc2 = parse_scene(json2).unwrap();
    assert!(desc2.entities[0].texture_path.is_none());
}

#[test]
fn malformed_json_aborts_the_load() {
    assert!(matches!(parse_scene("{ not json"), Err(SceneError::MalformedDocument)));
}

#[test]
fn missing_entities_array_aborts_the_load() {
    assert!(matches!(parse_scene("{}"), Err(SceneError::MissingEntities)));
    assert!(matches!(
        parse_scene(r#"{ "entities": 3 }"#),
        Err(SceneError::MissingEntities)
    ));
}

#[test]
fn transform_without_scale_aborts_the_load() {
    let json = r#"{
        "entities": [
            { "transform": { "position": [0,0,0], "rotation": [0,0,0] } }
        ]
    }"#;
    assert!(matches!(parse_scene(json), Err(SceneError::BadTransform)));
}

#[test]
fn transform_with_a_non_number_aborts_the_load() {
    let json = r#"{
        "entities": [
            { "transform": { "position": [0,"x",0], "rotation": [0,0,0], "scale": 1.0 } }
        ]
    }"#;
    assert!(matches!(parse_scene(json), Err(SceneError::BadNumber)));
}

#[test]
fn unknown_keys_are_ignored() {
    let json = r#"{ "entities": [ { "whatever": 1 } ], "extra": true }"#;
    let desc = parse_scene(json).unwrap();
    assert_eq!(desc.entities.len(), 1);
    assert!(desc.entities[0].model_path.is_none());
}

#[test]
fn scene_graph_model_wins_the_renderable_slot() {
    let json = r#"{
        "entities": [ { "model_path": "a.obj", "gltf_path": "b.gltf" } ]
    }"#;
    let desc = parse_scene(json).unwrap();
    let assets = vec![EntityAssets {
        model: Some(one_mesh_model(1, 2)),
        gltf_model: Some(one_mesh_model(3, 4)),
        material: Some(Material { bind_group: 9 }),
        cubemap: None,
    }];
    let w = build_world(&desc, assets);
    let m = w.model_at(0).unwrap();
    assert_eq!(m.meshes[0].vertex_buffer, 3);
}

#[test]
fn validation_applies_the_defaulting_rules_directly() {
    let raw = RawEntity { model_path: Some(String::from("cube.obj")), ..no_raw_extras() };
    let e = validate_entity(&raw).unwrap();
    assert_eq!(e.texture_path.as_deref(), Some("debug.png"));
    assert!(e.transform.is_none());
    assert!(e.skybox.is_none());
}

#[test]
fn validation_parses_transform_numbers_exactly() {
    let raw = RawEntity {
        transform: Some(RawTransform {
            position: Some(vec![text("-1.5"), text("0"), text("2e1")]),
            rotation: Some(vec![text("0"), text("90"), text("0")]),
            scale: Some(text("0.25")),
        }),
        ..no_raw_extras()
    };
    let e = validate_entity(&raw).unwrap();
    let t = e.transform.unwrap();
    assert_eq!(t.translation.x, -1_500_000);
    assert_eq!(t.translation.y, 0);
    assert_eq!(t.translation.z, 20_000_000);
    assert_eq!(t.rotation.y, 90_000_000);
    assert_eq!(t.scale, 250_000);
}

#[test]
fn validation_rejects_short_position_arrays() {
    let raw = RawEntity {
        transform: Some(RawTransform {
            position: Some(vec![text("1"), text("2")]),
            rotation: Some(vec![text("0"), text("0"), text("0")]),
            scale: Some(text("1")),
        }),
        ..no_raw_extras()
    };
    assert!(matches!(validate_entity(&raw), Err(SceneError::BadTransform)));
}

#[test]
fn validation_counts_only_string_skybox_faces() {
    // six elements, one of them not a string: only five faces
    let raw = RawEntity {
        skybox: Some(vec![
            Some(String::from("a")),
            Some(String::from("b")),
            None,
            Some(String::from("c")),
            Some(String::from("d")),
            Some(String::from("e")),
        ]),
        ..no_raw_extras()
    };
    assert!(matches!(validate_entity(&raw), Err(SceneError::SkyboxFaceCount)));
}

#[test]
fn empty_scene_builds_an_empty_world() {
    let desc = parse_scene(r#"{ "entities": [] }"#).unwrap();
    let w = build_world(&desc, Vec::new());
    assert_eq!(w.entity_count(), 0);
    assert_eq!(w.slot_count(), 0);
}

#[test]
fn second_entity_without_components_still_gets_an_id() {
    let json = r#"{
        "entities": [
            { "transform": { "position": [0,0,0], "rotation": [0,0,0], "scale": 1 } },
            {}
        ]
    }"#;
    let desc = parse_scene(json).unwrap();
    let w = build_world(&desc, vec![no_assets(), no_assets()]);
    assert_eq!(w.entity_count(), 2);
    assert!(w.has_component(0, ComponentKind::Transform));
    assert!(!w.has_component(1, ComponentKind::Transform));
    // the one attach grew every sequence to cover both issued entities
    assert_eq!(w.slot_count(), 2);
}
