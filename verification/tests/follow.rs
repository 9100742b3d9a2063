use overworld::geom::Vec2i;
use overworld::world::{EntityBundle, FollowComponent, World};

fn at(x: i64, y: i64) -> EntityBundle {
    EntityBundle { position: Some(Vec2i { x, y }), ..EntityBundle::default() }
}

#[test]
fn within_threshold_follower_stays() {
    let mut w = World::new();
    let target = w.spawn(at(40, 0));
    let e = w.spawn(at(0, 0));
    w.insert_follow(e, FollowComponent { target, max_distance: 50, speed: 3 });
    w.follow();
    assert_eq!(w.get_position(e), Some(Vec2i { x: 0, y: 0 }));
}

#[test]
fn beyond_threshold_moves_speed_along_larger_axis() {
    let mut w = World::new();
    let target = w.spawn(at(100, 5));
    let e = w.spawn(at(0, 0));
    w.insert_follow(e, FollowComponent { target, max_distance: 50, speed: 3 });
    w.follow();
    // |dx| = 100 dominates |dy| = 5: a single-axis step of min(100, 3).
    assert_eq!(w.get_position(e), Some(Vec2i { x: 3, y: 0 }));
}

#[test]
fn close_target_moves_exact_delta() {
    let mut w = World::new();
    let target = w.spawn(at(2, 0));
    let e = w.spawn(at(0, 0));
    w.insert_follow(e, FollowComponent { target, max_distance: 1, speed: 10 });
    w.follow();
    // min(|dx|, speed) == 2: the follower lands on the target column.
    assert_eq!(w.get_position(e), Some(Vec2i { x: 2, y: 0 }));
}

#[test]
fn equal_axis_distances_step_vertically() {
    let mut w = World::new();
    let target = w.spawn(at(10, 10));
    let e = w.spawn(at(0, 0));
    w.insert_follow(e, FollowComponent { target, max_distance: 5, speed: 4 });
    w.follow();
    // On a tie the vertical axis is chosen; steps are never diagonal.
    assert_eq!(w.get_position(e), Some(Vec2i { x: 0, y: 4 }));
}

#[test]
fn follower_moves_toward_negative_delta() {
    let mut w = World::new();
    let target = w.spawn(at(-100, 0));
    let e = w.spawn(at(0, 0));
    w.insert_follow(e, FollowComponent { target, max_distance: 10, speed: 7 });
    w.follow();
    assert_eq!(w.get_position(e), Some(Vec2i { x: -7, y: 0 }));
}

#[test]
fn stale_target_is_skipped_silently() {
    let mut w = World::new();
    let target = w.spawn(at(100, 0));
    let e = w.spawn(at(0, 0));
    w.insert_follow(e, FollowComponent { target, max_distance: 10, speed: 7 });
    w.despawn(target);
    w.follow();
    assert_eq!(w.get_position(e), Some(Vec2i { x: 0, y: 0 }));
}

#[test]
fn zig_zag_across_ticks() {
    let mut w = World::new();
    let target = w.spawn(at(6, 5));
    let e = w.spawn(at(0, 0));
    w.insert_follow(e, FollowComponent { target, max_distance: 0, speed: 2 });
    w.follow();
    // |dx| = 6 > |dy| = 5: horizontal first.
    assert_eq!(w.get_position(e), Some(Vec2i { x: 2, y: 0 }));
    w.follow();
    // Now |dx| = 4 < |dy| = 5: vertical.
    assert_eq!(w.get_position(e), Some(Vec2i { x: 2, y: 2 }));
}
