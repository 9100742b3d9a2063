use overworld::geom::{Rect, Vec2i};
use overworld::world::{
    CollisionComponent, Entity, EntityBundle, FollowComponent, Interactable, InteractableType,
    SlotData, World, WorldError,
};

fn bundle_at(x: i64, y: i64) -> EntityBundle {
    EntityBundle { position: Some(Vec2i { x, y }), ..EntityBundle::default() }
}

#[test]
fn spawn_and_query() {
    let mut w = World::new();
    let e = w.spawn(bundle_at(5, 6));
    assert!(w.is_live(e));
    assert_eq!(w.get_position(e), Some(Vec2i { x: 5, y: 6 }));
    assert_eq!(w.get_collision(e), None);
}

#[test]
fn stale_handle_fails_all_queries() {
    let mut w = World::new();
    let e = w.spawn(bundle_at(1, 1));
    assert!(w.despawn(e));
    assert!(!w.is_live(e));
    assert_eq!(w.get_position(e), None);
    // A second despawn of the stale handle changes nothing.
    assert!(!w.despawn(e));
}

#[test]
fn slot_reuse_bumps_generation() {
    let mut w = World::new();
    let e1 = w.spawn(bundle_at(1, 1));
    w.despawn(e1);
    let e2 = w.spawn(bundle_at(2, 2));
    // The retired slot is reused under a fresh generation.
    assert_eq!(e2.idx, e1.idx);
    assert!(e2.gen > e1.gen);
    // The old handle must not alias the new entity.
    assert!(!w.is_live(e1));
    assert_eq!(w.get_position(e1), None);
    assert_eq!(w.get_position(e2), Some(Vec2i { x: 2, y: 2 }));
}

#[test]
fn set_position_needs_live_positioned_entity() {
    let mut w = World::new();
    let e = w.spawn(bundle_at(0, 0));
    assert!(w.set_position(e, Vec2i { x: 9, y: 9 }));
    assert_eq!(w.get_position(e), Some(Vec2i { x: 9, y: 9 }));
    let bare = w.spawn(EntityBundle::default());
    assert!(!w.set_position(bare, Vec2i { x: 1, y: 1 }));
    w.despawn(e);
    assert!(!w.set_position(e, Vec2i { x: 3, y: 3 }));
}

#[test]
fn insert_follow_attaches_and_replaces() {
    let mut w = World::new();
    let target = w.spawn(bundle_at(10, 10));
    let e = w.spawn(bundle_at(0, 0));
    let f = FollowComponent { target, max_distance: 8, speed: 2 };
    assert!(w.insert_follow(e, f));
    assert_eq!(w.get_follow(e), Some(f));
    let f2 = FollowComponent { target, max_distance: 4, speed: 1 };
    assert!(w.insert_follow(e, f2));
    assert_eq!(w.get_follow(e), Some(f2));
}

#[test]
fn duplicate_copies_four_components() {
    let mut w = World::new();
    let e = w.spawn(EntityBundle {
        position: Some(Vec2i { x: 3, y: 4 }),
        collision: Some(CollisionComponent { bounds: Rect { x: 0, y: 0, w: 8, h: 8 } }),
        interactable: Some(Interactable {
            bounds: Rect { x: 0, y: 0, w: 8, h: 8 },
            interaction: InteractableType::Lamp,
            priority: 1,
        }),
        ..EntityBundle::default()
    });
    let copy = w.duplicate_entity(e).expect("source is live");
    assert!(w.is_live(copy));
    assert_eq!(w.get_position(copy), Some(Vec2i { x: 3, y: 4 }));
    assert_eq!(
        w.get_collision(copy),
        Some(CollisionComponent { bounds: Rect { x: 0, y: 0, w: 8, h: 8 } })
    );
    // Interactable and follow components are not duplicated.
    assert_eq!(w.get_interactable(copy), None);
    // A stale source duplicates nothing.
    w.despawn(e);
    assert!(w.duplicate_entity(e).is_none());
}

#[test]
fn snapshot_round_trip_preserves_entities() {
    let mut w = World::new();
    let a = w.spawn(bundle_at(1, 2));
    let b = w.spawn(bundle_at(3, 4));
    w.despawn(a);
    let slots = w.export_slots();
    let restored = World::from_slots(slots).expect("snapshot is in bounds");
    assert!(!restored.is_live(a));
    assert!(restored.is_live(b));
    assert_eq!(restored.get_position(b), Some(Vec2i { x: 3, y: 4 }));
}

#[test]
fn snapshot_with_out_of_range_position_is_rejected() {
    let slots = vec![SlotData {
        gen: 0,
        alive: true,
        position: Some(Vec2i { x: i64::MAX / 2, y: 0 }),
        sprite: None,
        collision: None,
        animation: None,
        interactable: None,
        follow: None,
    }];
    assert_eq!(World::from_slots(slots).err(), Some(WorldError::ValueOutOfRange));
}
