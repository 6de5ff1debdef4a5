use scene_engine::ecs::{Component, ComponentKind, EcsError, World};
use scene_engine::mat::Vec3;
use scene_engine::model::Material;
use scene_engine::transform::Transform;
use scene_engine::SCALE;

fn plain_transform() -> Transform {
    Transform {
        translation: Vec3 { x: 0, y: 0, z: 0 },
        scale: SCALE,
        rotation: Vec3 { x: 0, y: 0, z: 0 },
    }
}

#[test]
fn entity_ids_increase_from_zero() {
    let mut w = World::new();
    assert_eq!(w.entity_count(), 0);
    assert_eq!(w.new_entity(), 0);
    assert_eq!(w.new_entity(), 1);
    assert_eq!(w.new_entity(), 2);
    assert_eq!(w.entity_count(), 3);
}

#[test]
fn sequences_cover_every_entity_after_any_add() {
    let mut w = World::new();
    let e0 = w.new_entity();
    let _e1 = w.new_entity();
    let e2 = w.new_entity();
    assert_eq!(w.slot_count(), 0);
    // one add to the lowest entity still grows every sequence to cover the
    // highest issued id
    assert!(w.add_component_to_entity(e0, Component::Transform(plain_transform())).is_ok());
    assert_eq!(w.slot_count(), 3);
    assert!(w.has_component(e0, ComponentKind::Transform));
    // a type never attached to an entity reads absent
    assert!(!w.has_component(e0, ComponentKind::Material));
    assert!(!w.has_component(e2, ComponentKind::Transform));
    assert!(!w.has_component(e2, ComponentKind::Cubemap));
}

#[test]
fn adding_to_an_unissued_id_fails() {
    let mut w = World::new();
    let _ = w.new_entity();
    assert_eq!(
        w.add_component_to_entity(5, Component::Material(Material { bind_group: 1 })),
        Err(EcsError::NoSuchEntity)
    );
    // a failed add leaves the store unchanged
    assert_eq!(w.slot_count(), 0);
}

#[test]
fn component_values_read_back() {
    let mut w = World::new();
    let e = w.new_entity();
    let t = Transform {
        translation: Vec3 { x: 1, y: 2, z: 3 },
        scale: 2_000_000,
        rotation: Vec3 { x: 0, y: 0, z: 0 },
    };
    assert!(w.add_component_to_entity(e, Component::Transform(t)).is_ok());
    assert!(w.add_component_to_entity(e, Component::Material(Material { bind_group: 7 })).is_ok());
    let read = w.transform_at(e).unwrap();
    assert_eq!(read.scale, 2_000_000);
    assert_eq!(read.translation.x, 1);
    assert_eq!(w.material_at(e).unwrap().bind_group, 7);
    assert!(w.cubemap_at(e).is_none());
}

#[test]
fn mutable_borrow_excludes_every_other_borrow() {
    let mut w = World::new();
    assert!(w.try_borrow_mut(ComponentKind::Transform));
    // a second mutable borrow of the same type fails at once
    assert!(!w.try_borrow_mut(ComponentKind::Transform));
    // so does a shared borrow of the same type
    assert!(!w.try_borrow(ComponentKind::Transform));
    // another type is unaffected
    assert!(w.try_borrow_mut(ComponentKind::Model));
    assert!(w.release(ComponentKind::Model));
}

#[test]
fn shared_borrows_stack_and_exclude_the_mutable_one() {
    let mut w = World::new();
    assert!(w.try_borrow(ComponentKind::Material));
    assert!(w.try_borrow(ComponentKind::Material));
    // outstanding shared borrows refuse the mutable borrow
    assert!(!w.try_borrow_mut(ComponentKind::Material));
    assert!(w.release(ComponentKind::Material));
    // one holder remains: still refused
    assert!(!w.try_borrow_mut(ComponentKind::Material));
    assert!(w.release(ComponentKind::Material));
    // all released: the mutable borrow now succeeds
    assert!(w.try_borrow_mut(ComponentKind::Material));
}

#[test]
fn releasing_an_unborrowed_sequence_reports_nothing_to_release() {
    let mut w = World::new();
    assert!(!w.release(ComponentKind::Cubemap));
}

#[test]
fn adds_are_refused_while_any_sequence_is_borrowed() {
    let mut w = World::new();
    let e = w.new_entity();
    assert!(w.try_borrow(ComponentKind::Model));
    assert_eq!(
        w.add_component_to_entity(e, Component::Transform(plain_transform())),
        Err(EcsError::BorrowConflict)
    );
    assert!(w.release(ComponentKind::Model));
    assert!(w.add_component_to_entity(e, Component::Transform(plain_transform())).is_ok());
}

#[test]
fn a_second_add_replaces_the_slot() {
    let mut w = World::new();
    let e = w.new_entity();
    assert!(w.add_component_to_entity(e, Component::Material(Material { bind_group: 1 })).is_ok());
    assert!(w.add_component_to_entity(e, Component::Material(Material { bind_group: 2 })).is_ok());
    assert_eq!(w.material_at(e).unwrap().bind_group, 2);
}
