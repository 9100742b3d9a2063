//! Interaction dispatch. On an interact press, the acting entity's position
//! is tested against every interactable's trigger bounds; the containing
//! trigger of highest priority wins, and among equal priorities the entity
//! in the higher slot. One semantic event is emitted per successful
//! dispatch; none when nothing matches.

use vstd::prelude::*;

use crate::geom::{rect_contains, Vec2i};
use crate::world::{position_of, Entity, InteractableType, World, WorldView};

verus! {

/// A semantic event the world update emits.
#[derive(Clone, Copy, PartialEq, Eq, Structural, Debug)]
pub enum Event {
    Interaction { entity: Entity, interaction: InteractableType },
}

/// Slot `i` is live, positioned, interactable, and its trigger bounds
/// (offset by its position) contain `p`.
pub open spec fn interact_candidate(w: WorldView, i: int, p: Vec2i) -> bool {
    &&& w.alive[i]
    &&& w.positions[i] is Some
    &&& w.interactables[i] is Some
    &&& {
        let ip = w.positions[i]->Some_0;
        let b = w.interactables[i]->Some_0.bounds;
        rect_contains(
            crate::geom::Rect {
                x: (b.x + ip.x) as i64,
                y: (b.y + ip.y) as i64,
                w: b.w,
                h: b.h,
            },
            p,
        )
    }
}

/// The winning candidate among slots `0..n`: highest priority, ties going
/// to the higher slot index.
pub open spec fn best_candidate_upto(w: WorldView, p: Vec2i, n: int) -> Option<int>
    decreases n,
{
    if n <= 0 {
        None
    } else {
        let i = n - 1;
        let prev = best_candidate_upto(w, p, i);
        if interact_candidate(w, i, p) {
            match prev {
                Some(b) => if w.interactables[i]->Some_0.priority
                    >= w.interactables[b]->Some_0.priority {
                    Some(i)
                } else {
                    prev
                },
                None => Some(i),
            }
        } else {
            prev
        }
    }
}

pub open spec fn best_candidate(w: WorldView, p: Vec2i) -> Option<int> {
    best_candidate_upto(w, p, w.gens.len() as int)
}

/// Whatever the scan returns is itself a candidate slot in range.
pub proof fn lemma_best_candidate_upto_is_candidate(w: WorldView, p: Vec2i, n: int)
    requires
        best_candidate_upto(w, p, n) is Some,
    ensures
        0 <= best_candidate_upto(w, p, n)->Some_0 < n,
        interact_candidate(w, best_candidate_upto(w, p, n)->Some_0, p),
    decreases n,
{
    if n > 0 {
        if best_candidate_upto(w, p, n - 1) is Some {
            lemma_best_candidate_upto_is_candidate(w, p, n - 1);
        }
    }
}

/// The event an interact press by `actor` produces: the winning candidate
/// around the actor's position, or nothing when the actor has no position
/// or no trigger contains it.
pub open spec fn interact_event(w: WorldView, actor: Entity) -> Option<Event> {
    match position_of(w, actor) {
        Some(p) => match best_candidate(w, p) {
            Some(i) => Some(
                Event::Interaction {
                    entity: Entity { idx: i as usize, gen: w.gens[i] },
                    interaction: w.interactables[i]->Some_0.interaction,
                },
            ),
            None => None,
        },
        None => None,
    }
}

impl World {
    /// Dispatch an interact press by `actor`: push the winning trigger's
    /// event onto `events`, or push nothing when no trigger contains the
    /// actor's position (or the actor has none).
    #[verifier::loop_isolation(false)]
    pub fn interact(&self, actor: Entity, events: &mut Vec<Event>)
        requires
            self.wf(),
        ensures
            final(events)@ == match interact_event(self@, actor) {
                Some(ev) => old(events)@.push(ev),
                None => old(events)@,
            },
    {
        let pos = match self.get_position(actor) {
            Some(p) => p,
            None => {
                return ;
            },
        };
        let n = self.gens.len();
        let mut best: Option<usize> = None;
        let mut i: usize = 0;
        while i < n
            invariant
                0 <= i <= n,
                match best {
                    Some(b) => 0 <= b < i && best_candidate_upto(self@, pos, i as int) == Some(
                        b as int,
                    ),
                    None => best_candidate_upto(self@, pos, i as int) is None,
                },
            decreases n - i,
        {
            let ghost pre_best = best;
            if self.alive[i] {
                if let (Some(ip), Some(x)) = (self.positions[i], self.interactables[i]) {
                    proof {
                        assert(crate::world::slot_wf(self@, i as int));
                        assert(crate::world::slot_wf(self@, actor.idx as int));
                    }
                    let b = x.bounds;
                    let contains = b.x + ip.x <= pos.x && pos.x <= b.x + ip.x + b.w && b.y + ip.y
                        <= pos.y && pos.y <= b.y + ip.y + b.h;
                    assert(contains == interact_candidate(self@, i as int, pos));
                    if contains {
                        let take = match best {
                            Some(prev) => {
                                let prev_priority = match self.interactables[prev] {
                                    Some(px) => px.priority,
                                    None => 0,
                                };
                                x.priority >= prev_priority
                            },
                            None => true,
                        };
                        if take {
                            best = Some(i);
                        }
                    }
                }
            }
            proof {
                let ghost wv = self@;
                let ghost ii = i as int;
                if pre_best is Some {
                    lemma_best_candidate_upto_is_candidate(wv, pos, ii);
                }
                if interact_candidate(wv, ii, pos) {
                    assert(self@.alive[ii]);
                    assert(self@.positions[ii] is Some);
                    assert(self@.interactables[ii] is Some);
                    match pre_best {
                        Some(pb) => {
                            if wv.interactables[ii]->Some_0.priority
                                >= wv.interactables[pb as int]->Some_0.priority {
                                assert(best == Some(i));
                            } else {
                                assert(best == pre_best);
                            }
                        },
                        None => {
                            assert(best == Some(i));
                        },
                    }
                    assert(best_candidate_upto(wv, pos, ii + 1) is Some);
                } else {
                    assert(best == pre_best);
                }
            }
            i = i + 1;
        }
        if let Some(b) = best {
            proof {
                lemma_best_candidate_upto_is_candidate(self@, pos, n as int);
            }
            let x = match self.interactables[b] {
                Some(x) => x,
                None => {
                    proof {
                        assert(false);
                    }
                    return ;
                },
            };
            events.push(
                Event::Interaction {
                    entity: Entity { idx: b, gen: self.gens[b] },
                    interaction: x.interaction,
                },
            );
        }
    }
}

} // verus!
