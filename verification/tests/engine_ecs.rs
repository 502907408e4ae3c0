use finalengine::engine_ecs::{EcsWorld, EntityName, StableEntityId};

#[test]
fn stable_ids_are_unique() {
    let first = StableEntityId::new();
    let second = StableEntityId::new();

    assert_ne!(first, second);
}

#[test]
fn stable_id_keeps_its_uuid() {
    let id = StableEntityId::from_uuid(42);
    assert_eq!(id.as_uuid(), 42);
    assert_eq!(id, StableEntityId::from_uuid(42));
}

#[test]
fn fresh_stable_id_is_a_version_four_uuid() {
    let value = StableEntityId::new().as_uuid();
    assert_eq!((value >> 76) & 0xf, 4);
    assert_eq!((value >> 62) & 0x3, 2);
}

#[test]
fn new_world_holds_no_entity() {
    let world = EcsWorld::new();
    let entities = world.raw().borrow::<shipyard::EntitiesView>().unwrap();
    let count = entities.iter().count();
    assert_eq!(count, 0);
}

#[test]
fn entity_name_keeps_its_text() {
    assert_eq!(EntityName::new("Camera").value, "Camera");
}

#[test]
fn world_holds_the_entities_added_to_it() {
    let mut world = EcsWorld::new();
    let entity = world.raw_mut().add_entity(());
    assert!(world.raw_mut().is_entity_alive(entity));
    assert!(world.raw_mut().delete_entity(entity));
    assert!(!world.raw_mut().is_entity_alive(entity));
    let _ = EcsWorld::default();
}
