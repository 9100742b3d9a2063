use overworld::geom::{Rect, Vec2i};
use overworld::world::{CollisionComponent, EntityBundle, World};

fn collider(x: i64, y: i64, bounds: Rect) -> EntityBundle {
    EntityBundle {
        position: Some(Vec2i { x, y }),
        collision: Some(CollisionComponent { bounds }),
        ..EntityBundle::default()
    }
}

#[test]
fn no_overlap_is_a_no_op() {
    let mut w = World::new();
    let a = w.spawn(collider(0, 0, Rect { x: 0, y: 0, w: 10, h: 10 }));
    let _b = w.spawn(collider(100, 100, Rect { x: 0, y: 0, w: 10, h: 10 }));
    assert!(w.resolve_penetrations(a));
    assert_eq!(w.get_position(a), Some(Vec2i { x: 0, y: 0 }));
}

#[test]
fn touching_boxes_leave_position_unchanged() {
    // Touching edges count as overlap, but the push distance is zero.
    let mut w = World::new();
    let a = w.spawn(collider(0, 0, Rect { x: 0, y: 0, w: 10, h: 10 }));
    let _b = w.spawn(collider(10, 0, Rect { x: 0, y: 0, w: 10, h: 10 }));
    w.resolve_penetrations(a);
    assert_eq!(w.get_position(a), Some(Vec2i { x: 0, y: 0 }));
}

#[test]
fn single_overlap_resolves_along_smaller_axis() {
    // A's box [0,10]x[0,10] against B's [8,18]x[0,10]: the leftward push
    // (2 pixels) beats every other candidate, so A moves left by exactly 2
    // and not at all vertically.
    let mut w = World::new();
    let a = w.spawn(collider(0, 0, Rect { x: 0, y: 0, w: 10, h: 10 }));
    let _b = w.spawn(collider(8, 0, Rect { x: 0, y: 0, w: 10, h: 10 }));
    w.resolve_penetrations(a);
    assert_eq!(w.get_position(a), Some(Vec2i { x: -2, y: 0 }));
}

#[test]
fn vertical_push_wins_when_smaller() {
    // A overlaps B by 2 pixels vertically and 8 horizontally: the upward
    // push is smaller, so only y changes.
    let mut w = World::new();
    let a = w.spawn(collider(0, 0, Rect { x: 0, y: 0, w: 10, h: 10 }));
    let _b = w.spawn(collider(2, 8, Rect { x: 0, y: 0, w: 10, h: 10 }));
    w.resolve_penetrations(a);
    assert_eq!(w.get_position(a), Some(Vec2i { x: 0, y: -2 }));
}

#[test]
fn axis_tie_resolves_horizontally() {
    // Both minimum candidates have magnitude 2; the horizontal one wins.
    let mut w = World::new();
    let a = w.spawn(collider(0, 0, Rect { x: 0, y: 0, w: 10, h: 10 }));
    let _b = w.spawn(collider(8, 8, Rect { x: 0, y: 0, w: 10, h: 10 }));
    w.resolve_penetrations(a);
    assert_eq!(w.get_position(a), Some(Vec2i { x: -2, y: 8 - 10 + 10 - 8 }));
    assert_eq!(w.get_position(a).unwrap().y, 0);
}

#[test]
fn overlaps_resolve_sequentially_in_slot_order() {
    // The first correction pushes A left out of B; the corrected box is
    // then tested against C, which overlaps it and pushes again.
    let mut w = World::new();
    let a = w.spawn(collider(0, 0, Rect { x: 0, y: 0, w: 10, h: 10 }));
    let _b = w.spawn(collider(8, 0, Rect { x: 0, y: 0, w: 10, h: 10 }));
    let _c = w.spawn(collider(-11, 0, Rect { x: 0, y: 0, w: 10, h: 10 }));
    w.resolve_penetrations(a);
    // After B: x == -2; box [-2,8] then touches C's [-11,-1]: push right by 1.
    assert_eq!(w.get_position(a), Some(Vec2i { x: -1, y: 0 }));
}

#[test]
fn only_the_subject_moves() {
    let mut w = World::new();
    let a = w.spawn(collider(0, 0, Rect { x: 0, y: 0, w: 10, h: 10 }));
    let b = w.spawn(collider(8, 0, Rect { x: 0, y: 0, w: 10, h: 10 }));
    w.resolve_penetrations(a);
    assert_eq!(w.get_position(b), Some(Vec2i { x: 8, y: 0 }));
}

#[test]
fn entity_without_box_is_untouched() {
    let mut w = World::new();
    let a = w.spawn(EntityBundle {
        position: Some(Vec2i { x: 0, y: 0 }),
        ..EntityBundle::default()
    });
    assert!(!w.resolve_penetrations(a));
    assert_eq!(w.get_position(a), Some(Vec2i { x: 0, y: 0 }));
}
