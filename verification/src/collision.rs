//! Minimum-translation-vector collision resolution. Once per tick the
//! subject entity (the player) is pushed out of every box it penetrates:
//! each overlapping pair yields four candidate separations (left, right, up,
//! down); the smaller horizontal and the smaller vertical candidate compete,
//! and the overall smaller one is applied, ties going to the horizontal.
//! Overlaps are resolved sequentially in slot order within one call, each
//! from the box as corrected so far. Only the subject moves.

use vstd::math::abs;
use vstd::prelude::*;

use crate::geom::{abs_i64, rects_overlap, Rect, Vec2i, COORD_LIMIT, RECT_LIMIT};
use crate::world::{live, with_position, Entity, World, WorldView};

verus! {

/// World-space collision box of slot `i`: its collision bounds offset by
/// its position. `None` for dead slots and slots lacking either component.
pub open spec fn world_box_at(w: WorldView, i: int) -> Option<Rect> {
    if w.alive[i] {
        match (w.positions[i], w.collisions[i]) {
            (Some(p), Some(c)) => Some(
                Rect {
                    x: (c.bounds.x + p.x) as i64,
                    y: (c.bounds.y + p.y) as i64,
                    w: c.bounds.w,
                    h: c.bounds.h,
                },
            ),
            _ => None,
        }
    } else {
        None
    }
}

/// Signed distance that would move `our` flush against the left edge of
/// `other` (a push to the left, so non-positive under overlap).
pub open spec fn push_left(our: Rect, other: Rect) -> int {
    other.x - (our.x + our.w)
}

/// Signed distance that would move `our` flush against the right edge of
/// `other`.
pub open spec fn push_right(our: Rect, other: Rect) -> int {
    (other.x + other.w) - our.x
}

/// Signed distance that would move `our` flush against the top edge of
/// `other`.
pub open spec fn push_up(our: Rect, other: Rect) -> int {
    other.y - (our.y + our.h)
}

/// Signed distance that would move `our` flush against the bottom edge of
/// `other`.
pub open spec fn push_down(our: Rect, other: Rect) -> int {
    (other.y + other.h) - our.y
}

/// The horizontal candidate of smaller magnitude; ties prefer the leftward
/// push.
pub open spec fn min_horiz(our: Rect, other: Rect) -> int {
    if abs(push_left(our, other)) <= abs(push_right(our, other)) {
        push_left(our, other)
    } else {
        push_right(our, other)
    }
}

/// The vertical candidate of smaller magnitude; ties prefer the upward
/// push.
pub open spec fn min_vert(our: Rect, other: Rect) -> int {
    if abs(push_up(our, other)) <= abs(push_down(our, other)) {
        push_up(our, other)
    } else {
        push_down(our, other)
    }
}

/// One pairwise correction: if the boxes overlap, apply the smaller of the
/// two winning candidates (ties go to the horizontal); otherwise leave the
/// box alone.
pub open spec fn resolve_one(our: Rect, other: Rect) -> Rect {
    if rects_overlap(our, other) {
        if abs(min_horiz(our, other)) <= abs(min_vert(our, other)) {
            Rect { x: (our.x + min_horiz(our, other)) as i64, ..our }
        } else {
            Rect { y: (our.y + min_vert(our, other)) as i64, ..our }
        }
    } else {
        our
    }
}

/// Fold the pairwise correction over slots `i..`, skipping the subject
/// slot `e` and slots without a world box.
pub open spec fn resolve_from(w: WorldView, e: int, our: Rect, i: int) -> Rect
    decreases w.gens.len() - i,
{
    if i < 0 || i >= w.gens.len() {
        our
    } else {
        let next = if i != e {
            match world_box_at(w, i) {
                Some(b) => resolve_one(our, b),
                None => our,
            }
        } else {
            our
        };
        resolve_from(w, e, next, i + 1)
    }
}

/// Clamp a coordinate into the world coordinate range. Corrections far
/// enough out to leave the range (possible only within a few component
/// bounds of the boundary) are cut off at the boundary.
pub open spec fn clamp_coord(v: int) -> int {
    if v < -COORD_LIMIT {
        -COORD_LIMIT as int
    } else if v > COORD_LIMIT {
        COORD_LIMIT as int
    } else {
        v
    }
}

/// The whole tick's effect: the subject's position moves by however far the
/// fold moved its world box; entities without position or collision box are
/// left untouched, as is everything else.
pub open spec fn resolve_model(w: WorldView, e: Entity) -> WorldView {
    if live(w, e) && world_box_at(w, e.idx as int) is Some {
        let c = w.collisions[e.idx as int]->Some_0;
        let our0 = world_box_at(w, e.idx as int)->Some_0;
        let resolved = resolve_from(w, e.idx as int, our0, 0);
        let np = Vec2i {
            x: clamp_coord(resolved.x - c.bounds.x) as i64,
            y: clamp_coord(resolved.y - c.bounds.y) as i64,
        };
        with_position(w, e.idx as int, Some(np))
    } else {
        w
    }
}

/// Bound on the subject's box while corrections fold over it: each step
/// lands it flush against a bounded box, so it never drifts beyond the
/// coordinate range plus two component bounds.
pub open spec fn subject_box_bounded(r: Rect) -> bool {
    &&& -(COORD_LIMIT + 2 * RECT_LIMIT) <= r.x <= COORD_LIMIT + 2 * RECT_LIMIT
    &&& -(COORD_LIMIT + 2 * RECT_LIMIT) <= r.y <= COORD_LIMIT + 2 * RECT_LIMIT
    &&& 0 <= r.w <= RECT_LIMIT
    &&& 0 <= r.h <= RECT_LIMIT
}

/// Bound on any other entity's world box under world well-formedness.
pub open spec fn obstacle_box_bounded(r: Rect) -> bool {
    &&& -(COORD_LIMIT + RECT_LIMIT) <= r.x <= COORD_LIMIT + RECT_LIMIT
    &&& -(COORD_LIMIT + RECT_LIMIT) <= r.y <= COORD_LIMIT + RECT_LIMIT
    &&& 0 <= r.w <= RECT_LIMIT
    &&& 0 <= r.h <= RECT_LIMIT
}

/// A pairwise correction against a bounded obstacle keeps the subject's box
/// bounded and leaves its size untouched.
pub proof fn lemma_resolve_one_bounds(our: Rect, other: Rect)
    requires
        subject_box_bounded(our),
        obstacle_box_bounded(other),
    ensures
        subject_box_bounded(resolve_one(our, other)),
        resolve_one(our, other).w == our.w,
        resolve_one(our, other).h == our.h,
{
}

impl World {
    /// Push entity `entity` out of every collision box it penetrates, one
    /// overlap at a time in slot order, each correction taken from the box
    /// as already corrected. Entities without a position and collision box,
    /// and stale handles, are left untouched.
    #[verifier::loop_isolation(false)]
    pub fn resolve_penetrations(&mut self, entity: Entity) -> (moved: bool)
        requires
            old(self).wf(),
        ensures
            final(self).wf(),
            final(self)@ == resolve_model(old(self)@, entity),
            moved == (live(old(self)@, entity) && world_box_at(old(self)@, entity.idx as int)
                is Some),
    {
        let e = entity;
        if !(e.idx < self.gens.len() && self.alive[e.idx] && self.gens[e.idx] == e.gen) {
            return false;
        }
        let (pos, bounds) = match (self.positions[e.idx], self.collisions[e.idx]) {
            (Some(p), Some(c)) => (p, c.bounds),
            _ => {
                return false;
            },
        };
        let ghost w = self@;
        let ghost our0 = world_box_at(w, e.idx as int)->Some_0;
        proof {
            assert(crate::world::slot_wf(w, e.idx as int));
        }
        let mut our_box = Rect { x: bounds.x + pos.x, y: bounds.y + pos.y, w: bounds.w, h: bounds.h };
        assert(our_box == our0);
        let n = self.gens.len();
        let mut i: usize = 0;
        while i < n
            invariant
                0 <= i <= n,
                subject_box_bounded(our_box),
                our_box.w == bounds.w && our_box.h == bounds.h,
                resolve_from(w, e.idx as int, our_box, i as int) == resolve_from(
                    w,
                    e.idx as int,
                    our0,
                    0,
                ),
            decreases n - i,
        {
            if i != e.idx {
                if self.alive[i] {
                    if let (Some(op), Some(oc)) = (self.positions[i], self.collisions[i]) {
                        proof {
                            assert(crate::world::slot_wf(w, i as int));
                        }
                        let other_box = Rect {
                            x: oc.bounds.x + op.x,
                            y: oc.bounds.y + op.y,
                            w: oc.bounds.w,
                            h: oc.bounds.h,
                        };
                        assert(Some(other_box) == world_box_at(w, i as int));
                        if our_box.overlaps(&other_box) {
                            let leftwards = other_box.left() - our_box.right();
                            let rightwards = other_box.right() - our_box.left();
                            let upwards = other_box.top() - our_box.bottom();
                            let downwards = other_box.bottom() - our_box.top();
                            let min_h = if abs_i64(leftwards) <= abs_i64(rightwards) {
                                leftwards
                            } else {
                                rightwards
                            };
                            let min_v = if abs_i64(upwards) <= abs_i64(downwards) {
                                upwards
                            } else {
                                downwards
                            };
                            proof {
                                lemma_resolve_one_bounds(our_box, other_box);
                            }
                            if abs_i64(min_h) <= abs_i64(min_v) {
                                our_box.x = our_box.x + min_h;
                            } else {
                                our_box.y = our_box.y + min_v;
                            }
                        }
                    }
                }
            }
            i = i + 1;
        }
        let new_x = clamp_i64(our_box.x - bounds.x);
        let new_y = clamp_i64(our_box.y - bounds.y);
        let moved = self.set_position(e, Vec2i { x: new_x, y: new_y });
        proof {
            assert(final(self)@ == resolve_model(old(self)@, entity));
        }
        moved
    }
}

/// Clamp a coordinate into the world coordinate range.
fn clamp_i64(v: i64) -> (r: i64)
    ensures
        r == clamp_coord(v as int),
{
    if v < -COORD_LIMIT {
        -COORD_LIMIT
    } else if v > COORD_LIMIT {
        COORD_LIMIT
    } else {
        v
    }
}

/// A box that overlaps nothing is never corrected by the fold.
pub proof fn lemma_resolve_from_untouched(w: WorldView, e: int, our: Rect, i: int)
    requires
        0 <= i <= w.gens.len(),
        forall|j: int|
            i <= j < w.gens.len() && j != e && (#[trigger] world_box_at(w, j)) is Some
                ==> !rects_overlap(our, world_box_at(w, j)->Some_0),
    ensures
        resolve_from(w, e, our, i) == our,
    decreases w.gens.len() - i,
{
    if i < w.gens.len() {
        lemma_resolve_from_untouched(w, e, our, i + 1);
    }
}

/// Resolving penetrations for an entity whose box overlaps no other box is
/// a no-op: the world, and in particular the entity's position, is
/// unchanged.
pub proof fn lemma_resolve_no_overlap_noop(w: WorldView, e: Entity)
    requires
        crate::world::world_wf(w),
        live(w, e),
        world_box_at(w, e.idx as int) is Some,
        forall|j: int|
            0 <= j < w.gens.len() && j != e.idx && (#[trigger] world_box_at(w, j)) is Some
                ==> !rects_overlap(world_box_at(w, e.idx as int)->Some_0, world_box_at(w, j)->Some_0),
    ensures
        resolve_model(w, e) == w,
{
    let i = e.idx as int;
    let our0 = world_box_at(w, i)->Some_0;
    lemma_resolve_from_untouched(w, e.idx as int, our0, 0);
    let c = w.collisions[i]->Some_0;
    let p = w.positions[i]->Some_0;
    assert(crate::world::slot_wf(w, i));
    assert(our0.x - c.bounds.x == p.x);
    assert(our0.y - c.bounds.y == p.y);
    assert(resolve_model(w, e).positions =~= w.positions);
    assert(resolve_model(w, e) =~= w);
}

/// The fold against a world where only box `b` overlaps — neither the
/// original box nor its corrected form meets any other box — is exactly
/// the one pairwise correction against `b`.
proof fn lemma_resolve_from_single(w: WorldView, e: int, our: Rect, i: int, b: int)
    requires
        0 <= i <= b < w.gens.len(),
        e != b,
        world_box_at(w, b) is Some,
        rects_overlap(our, world_box_at(w, b)->Some_0),
        forall|j: int|
            i <= j < w.gens.len() && j != e && j != b && (#[trigger] world_box_at(w, j)) is Some
                ==> !rects_overlap(our, world_box_at(w, j)->Some_0) && !rects_overlap(
                resolve_one(our, world_box_at(w, b)->Some_0),
                world_box_at(w, j)->Some_0,
            ),
    ensures
        resolve_from(w, e, our, i) == resolve_one(our, world_box_at(w, b)->Some_0),
    decreases b - i,
{
    if i == b {
        lemma_resolve_from_untouched(
            w,
            e,
            resolve_one(our, world_box_at(w, b)->Some_0),
            i + 1,
        );
    } else {
        lemma_resolve_from_single(w, e, our, i + 1, b);
    }
}

/// The single-overlap law at the world level: when the subject's box
/// overlaps exactly one other box — and the one correction puts it clear
/// of everything and inside the coordinate range — resolving penetrations
/// moves the subject's position along exactly one axis, by the smaller of
/// that axis's two candidate push distances, and not at all on the other
/// axis. The clear-of-everything premise is essential: the resolution is
/// a sequential single pass, so a correction that lands the box on a
/// third box later in slot order is corrected again within the same call,
/// and the net motion is then no longer a single-axis push.
pub proof fn lemma_single_overlap_resolution(w: WorldView, e: Entity, b: int)
    requires
        crate::world::world_wf(w),
        live(w, e),
        world_box_at(w, e.idx as int) is Some,
        0 <= b < w.gens.len(),
        b != e.idx,
        world_box_at(w, b) is Some,
        rects_overlap(world_box_at(w, e.idx as int)->Some_0, world_box_at(w, b)->Some_0),
        forall|j: int|
            0 <= j < w.gens.len() && j != e.idx && j != b && (#[trigger] world_box_at(w, j))
                is Some ==> !rects_overlap(
                world_box_at(w, e.idx as int)->Some_0,
                world_box_at(w, j)->Some_0,
            ) && !rects_overlap(
                resolve_one(world_box_at(w, e.idx as int)->Some_0, world_box_at(w, b)->Some_0),
                world_box_at(w, j)->Some_0,
            ),
        -COORD_LIMIT <= resolve_one(
            world_box_at(w, e.idx as int)->Some_0,
            world_box_at(w, b)->Some_0,
        ).x - w.collisions[e.idx as int]->Some_0.bounds.x <= COORD_LIMIT,
        -COORD_LIMIT <= resolve_one(
            world_box_at(w, e.idx as int)->Some_0,
            world_box_at(w, b)->Some_0,
        ).y - w.collisions[e.idx as int]->Some_0.bounds.y <= COORD_LIMIT,
    ensures
        resolve_model(w, e).positions[e.idx as int] is Some,
        ({
            let our = world_box_at(w, e.idx as int)->Some_0;
            let other = world_box_at(w, b)->Some_0;
            let p0 = w.positions[e.idx as int]->Some_0;
            let p1 = resolve_model(w, e).positions[e.idx as int]->Some_0;
            if abs(min_horiz(our, other)) <= abs(min_vert(our, other)) {
                &&& p1.y == p0.y
                &&& abs(p1.x - p0.x) == vstd::math::min(
                    abs(push_left(our, other)) as int,
                    abs(push_right(our, other)) as int,
                )
            } else {
                &&& p1.x == p0.x
                &&& abs(p1.y - p0.y) == vstd::math::min(
                    abs(push_up(our, other)) as int,
                    abs(push_down(our, other)) as int,
                )
            }
        }),
{
    let i = e.idx as int;
    let our = world_box_at(w, i)->Some_0;
    let other = world_box_at(w, b)->Some_0;
    let c = w.collisions[i]->Some_0;
    let p0 = w.positions[i]->Some_0;
    assert(crate::world::slot_wf(w, i));
    assert(crate::world::slot_wf(w, b));
    lemma_resolve_from_single(w, i, our, 0, b);
    lemma_single_axis_correction(our, other);
}

/// Against exactly one overlapping box, the correction moves the subject
/// along exactly one axis, by the smaller of that axis's two candidate
/// push distances; the other axis is untouched. Ties between the axes go
/// to the horizontal.
pub proof fn lemma_single_axis_correction(our: Rect, other: Rect)
    requires
        rects_overlap(our, other),
        subject_box_bounded(our),
        obstacle_box_bounded(other),
    ensures
        abs(min_horiz(our, other)) <= abs(min_vert(our, other)) ==> {
            let r = resolve_one(our, other);
            &&& r.y == our.y
            &&& r.x - our.x == min_horiz(our, other)
            &&& abs(r.x - our.x) == vstd::math::min(
                abs(push_left(our, other)) as int,
                abs(push_right(our, other)) as int,
            )
        },
        abs(min_horiz(our, other)) > abs(min_vert(our, other)) ==> {
            let r = resolve_one(our, other);
            &&& r.x == our.x
            &&& r.y - our.y == min_vert(our, other)
            &&& abs(r.y - our.y) == vstd::math::min(
                abs(push_up(our, other)) as int,
                abs(push_down(our, other)) as int,
            )
        },
{
}

} // verus!
