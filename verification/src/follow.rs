//! Follow behaviour: an entity with a follow component trails its target.
//! Once the Manhattan separation (sum of the axis distances) exceeds the
//! component's `max_distance`, the follower steps along the single axis of
//! larger distance, by at most `speed` pixels — never diagonally, so a
//! follower zig-zags. All steps of one tick are computed from the positions
//! before the tick. A missing target, a stale handle or a target without a
//! position silently leaves the follower in place.

use vstd::math::abs;
use vstd::prelude::*;

use crate::geom::{abs_i64, Vec2i};
use crate::world::{live, position_wf, World, WorldView};

verus! {

/// The signed step along one axis: magnitude `min(|delta|, speed)`, sign of
/// `delta`.
pub open spec fn axis_step(delta: int, speed: int) -> int {
    if delta >= 0 {
        vstd::math::min(delta, speed)
    } else {
        -vstd::math::min(-delta, speed)
    }
}

/// Where a follower at `pos` ends up after one tick chasing `target`: in
/// place while the Manhattan separation is within `max_distance`, else one
/// bounded step along the axis of larger distance (ties go vertical).
pub open spec fn follow_step(pos: Vec2i, target: Vec2i, max_distance: int, speed: int) -> Vec2i {
    let dx = target.x - pos.x;
    let dy = target.y - pos.y;
    if abs(dx) + abs(dy) > max_distance {
        if abs(dx) > abs(dy) {
            Vec2i { x: (pos.x + axis_step(dx, speed)) as i64, y: pos.y }
        } else {
            Vec2i { x: pos.x, y: (pos.y + axis_step(dy, speed)) as i64 }
        }
    } else {
        pos
    }
}

/// The position slot `i` holds after one follow tick over `w`. Only live
/// slots carrying both a position and a follow component whose target is
/// live and positioned can move.
pub open spec fn follow_pos_at(w: WorldView, i: int) -> Option<Vec2i> {
    if w.alive[i] && w.positions[i] is Some && w.follows[i] is Some {
        let f = w.follows[i]->Some_0;
        if live(w, f.target) && w.positions[f.target.idx as int] is Some {
            Some(
                follow_step(
                    w.positions[i]->Some_0,
                    w.positions[f.target.idx as int]->Some_0,
                    f.max_distance as int,
                    f.speed as int,
                ),
            )
        } else {
            w.positions[i]
        }
    } else {
        w.positions[i]
    }
}

/// One follow tick over the whole world: every follower steps at once, all
/// from the pre-tick positions.
pub open spec fn follow_model(w: WorldView) -> WorldView {
    WorldView { positions: Seq::new(w.positions.len(), |i: int| follow_pos_at(w, i)), ..w }
}

/// A follow step lands between the follower and its target on each axis, so
/// positions inside the coordinate range stay inside it.
pub proof fn lemma_follow_step_in_range(pos: Vec2i, target: Vec2i, max_distance: int, speed: int)
    requires
        position_wf(pos),
        position_wf(target),
        speed >= 0,
    ensures
        position_wf(follow_step(pos, target, max_distance, speed)),
{
}

/// The follow threshold law: within `max_distance` Manhattan separation the
/// follower does not move at all; beyond it, it moves by exactly
/// `min(|delta|, speed)` along the single axis of larger distance, toward
/// the target, and does not move on the other axis.
pub proof fn lemma_follow_threshold(pos: Vec2i, target: Vec2i, max_distance: int, speed: int)
    requires
        position_wf(pos),
        position_wf(target),
        speed >= 0,
    ensures
        abs(target.x - pos.x) + abs(target.y - pos.y) <= max_distance ==> follow_step(
            pos,
            target,
            max_distance,
            speed,
        ) == pos,
        abs(target.x - pos.x) + abs(target.y - pos.y) > max_distance && abs(target.x - pos.x)
            > abs(target.y - pos.y) ==> {
            let np = follow_step(pos, target, max_distance, speed);
            &&& np.y == pos.y
            &&& abs(np.x - pos.x) == vstd::math::min(abs(target.x - pos.x) as int, speed)
            &&& (target.x >= pos.x ==> np.x >= pos.x)
            &&& (target.x <= pos.x ==> np.x <= pos.x)
        },
        abs(target.x - pos.x) + abs(target.y - pos.y) > max_distance && abs(target.x - pos.x)
            <= abs(target.y - pos.y) ==> {
            let np = follow_step(pos, target, max_distance, speed);
            &&& np.x == pos.x
            &&& abs(np.y - pos.y) == vstd::math::min(abs(target.y - pos.y) as int, speed)
            &&& (target.y >= pos.y ==> np.y >= pos.y)
            &&& (target.y <= pos.y ==> np.y <= pos.y)
        },
{
}

impl World {
    /// Advance every follower by one tick, per `follow_model`: each step is
    /// computed from the positions before the call, then all are applied.
    #[verifier::loop_isolation(false)]
    pub fn follow(&mut self)
        requires
            old(self).wf(),
        ensures
            final(self).wf(),
            final(self)@ == follow_model(old(self)@),
    {
        let ghost w = self@;
        let n = self.positions.len();
        let mut new_positions: Vec<Option<Vec2i>> = Vec::new();
        let mut i: usize = 0;
        while i < n
            invariant
                0 <= i <= n,
                self@ == w,
                new_positions@.len() == i,
                forall|j: int| 0 <= j < i ==> new_positions@[j] == follow_pos_at(w, j),
            decreases n - i,
        {
            let mut next: Option<Vec2i> = self.positions[i];
            if self.alive[i] {
                if let (Some(pos), Some(f)) = (self.positions[i], self.follows[i]) {
                    let t = f.target;
                    if t.idx < self.gens.len() && self.alive[t.idx] && self.gens[t.idx] == t.gen {
                        if let Some(target_pos) = self.positions[t.idx] {
                            proof {
                                assert(crate::world::slot_wf(w, i as int));
                                assert(crate::world::slot_wf(w, t.idx as int));
                            }
                            let dx = target_pos.x - pos.x;
                            let dy = target_pos.y - pos.y;
                            if abs_i64(dx) + abs_i64(dy) > f.max_distance {
                                let np = if abs_i64(dx) > abs_i64(dy) {
                                    let step = if abs_i64(dx) <= f.speed {
                                        dx
                                    } else if dx >= 0 {
                                        f.speed
                                    } else {
                                        -f.speed
                                    };
                                    Vec2i { x: pos.x + step, y: pos.y }
                                } else {
                                    let step = if abs_i64(dy) <= f.speed {
                                        dy
                                    } else if dy >= 0 {
                                        f.speed
                                    } else {
                                        -f.speed
                                    };
                                    Vec2i { x: pos.x, y: pos.y + step }
                                };
                                next = Some(np);
                            }
                        }
                    }
                }
            }
            assert(next == follow_pos_at(w, i as int));
            new_positions.push(next);
            i = i + 1;
        }
        self.positions = new_positions;
        proof {
            assert(self@ =~= follow_model(w));
            assert forall|j: int| 0 <= j < self@.gens.len() implies crate::world::slot_wf(
                self@,
                j,
            ) by {
                assert(crate::world::slot_wf(w, j));
                if self@.positions[j] is Some && w.follows[j] is Some && w.alive[j]
                    && w.positions[j] is Some {
                    let f = w.follows[j]->Some_0;
                    if live(w, f.target) && w.positions[f.target.idx as int] is Some {
                        assert(crate::world::slot_wf(w, f.target.idx as int));
                        lemma_follow_step_in_range(
                            w.positions[j]->Some_0,
                            w.positions[f.target.idx as int]->Some_0,
                            f.max_distance as int,
                            f.speed as int,
                        );
                    }
                }
            }
        }
    }
}

} // verus!
