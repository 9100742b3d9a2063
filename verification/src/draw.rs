//! Draw-order and hit-test logic. Drawable entities (live, positioned,
//! sprited) are ordered by draw layer ascending, then y position
//! ascending; entities sharing both are kept in slot order, so the order
//! is stable and deterministic. The cursor hit test walks that order from
//! the top.

use vstd::prelude::*;

use crate::assets::{spec_texture_size, Assets, AssetsView};
use crate::geom::{rect_contains, Rect, Vec2i, COORD_LIMIT, RECT_LIMIT};
use crate::world::{Entity, SpriteComponent, SpriteView, World, WorldView};

verus! {

/// Slot `i` takes part in drawing: live, with a position and a sprite.
pub open spec fn drawable(w: WorldView, i: int) -> bool {
    &&& 0 <= i < w.gens.len()
    &&& w.alive[i]
    &&& w.positions[i] is Some
    &&& w.sprites[i] is Some
}

pub open spec fn layer_of(w: WorldView, i: int) -> int {
    w.sprites[i]->Some_0.layer as int
}

pub open spec fn y_of(w: WorldView, i: int) -> int {
    w.positions[i]->Some_0.y as int
}

/// Strict draw order between two drawable slots: layer, then y, then slot
/// index — the stable, deterministic tie-break.
pub open spec fn draw_lt(w: WorldView, i: int, j: int) -> bool {
    ||| layer_of(w, i) < layer_of(w, j)
    ||| (layer_of(w, i) == layer_of(w, j) && y_of(w, i) < y_of(w, j))
    ||| (layer_of(w, i) == layer_of(w, j) && y_of(w, i) == y_of(w, j) && i < j)
}

/// The layer/y key of `i` is lexicographically no greater than `j`'s.
pub open spec fn key_le(w: WorldView, i: int, j: int) -> bool {
    ||| layer_of(w, i) < layer_of(w, j)
    ||| (layer_of(w, i) == layer_of(w, j) && y_of(w, i) <= y_of(w, j))
}

impl crate::overworld::Overworld {
    /// The entities to draw, in drawing order: layer ascending, then y
    /// ascending, slot order among ties. Every drawable entity appears,
    /// nothing else does.
    #[verifier::loop_isolation(false)]
    pub fn draw_order(&self) -> (r: Vec<Entity>)
        requires
            self.wf(),
        ensures
            forall|k: int|
                0 <= k < r@.len() ==> drawable(self.world@, (#[trigger] r@[k]).idx as int)
                    && r@[k].gen == self.world@.gens[r@[k].idx as int],
            forall|k1: int, k2: int|
                0 <= k1 < k2 < r@.len() ==> draw_lt(
                    self.world@,
                    (#[trigger] r@[k1]).idx as int,
                    (#[trigger] r@[k2]).idx as int,
                ),
            forall|i: int|
                drawable(self.world@, i) ==> exists|k: int|
                    0 <= k < r@.len() && (#[trigger] r@[k]).idx == i,
    {
        let ghost w = self.world@;
        let n = self.world.gens.len();
        let mut out: Vec<Entity> = Vec::new();
        let mut i: usize = 0;
        while i < n
            invariant
                0 <= i <= n,
                forall|k: int|
                    0 <= k < out@.len() ==> (#[trigger] out@[k]).idx < i && drawable(
                        w,
                        out@[k].idx as int,
                    ) && out@[k].gen == w.gens[out@[k].idx as int],
                forall|k1: int, k2: int|
                    0 <= k1 < k2 < out@.len() ==> draw_lt(
                        w,
                        (#[trigger] out@[k1]).idx as int,
                        (#[trigger] out@[k2]).idx as int,
                    ),
                forall|j: int|
                    0 <= j < i && drawable(w, j) ==> exists|k: int|
                        0 <= k < out@.len() && (#[trigger] out@[k]).idx == j,
            decreases n - i,
        {
            if self.world.alive[i] {
                if let (Some(pos), Some(sp)) = (
                    self.world.positions[i],
                    self.world.sprites[i].as_ref(),
                ) {
                    let layer = sp.layer;
                    let y = pos.y;
                    let ghost pre = out@;
                    let mut p: usize = 0;
                    let mut scanning = true;
                    while scanning
                        invariant
                            0 <= p <= out@.len(),
                            out@ == pre,
                            forall|k: int| 0 <= k < p ==> key_le(w, (#[trigger] out@[k]).idx as int, i as int),
                            !scanning ==> (p == out@.len() || !key_le(
                                w,
                                out@[p as int].idx as int,
                                i as int,
                            )),
                        decreases out@.len() - p, (if scanning { 1int } else { 0int }),
                    {
                        if p < out.len() {
                            let e = out[p];
                            let (el, ey) = self.drawable_key(e.idx);
                            if el < layer || (el == layer && ey <= y) {
                                p = p + 1;
                            } else {
                                scanning = false;
                            }
                        } else {
                            scanning = false;
                        }
                    }
                    let e = Entity { idx: i, gen: self.world.gens[i] };
                    out.insert(p, e);
                    proof {
                        let ghost now = out@;
                        assert(now.len() == pre.len() + 1);
                        assert(forall|k: int| 0 <= k < p ==> now[k] == pre[k]);
                        assert(now[p as int] == e);
                        assert(forall|k: int|
                            p < k < now.len() ==> now[k] == pre[k - 1]);
                        assert forall|k1: int, k2: int|
                            0 <= k1 < k2 < now.len() implies draw_lt(
                            w,
                            (#[trigger] now[k1]).idx as int,
                            (#[trigger] now[k2]).idx as int,
                        ) by {
                            if k2 == p {
                                assert(key_le(w, now[k1].idx as int, i as int));
                                assert(now[k1].idx < i);
                            } else if k1 == p {
                                let jj = now[k2].idx as int;
                                assert(!key_le(w, pre[k2 - 1].idx as int, i as int));
                            } else if k1 < p && k2 > p {
                                assert(draw_lt(w, pre[k1].idx as int, pre[k2 - 1].idx as int));
                            }
                        }
                        assert forall|j: int|
                            0 <= j < i + 1 && drawable(w, j) implies exists|k: int|
                            0 <= k < now.len() && (#[trigger] now[k]).idx == j by {
                            if j == i {
                                assert(now[p as int].idx == j);
                            } else {
                                let k0 = choose|k: int|
                                    0 <= k < pre.len() && (#[trigger] pre[k]).idx == j;
                                if k0 < p {
                                    assert(now[k0].idx == j);
                                } else {
                                    assert(now[k0 + 1].idx == j);
                                }
                            }
                        }
                    }
                }
            }
            i = i + 1;
        }
        out
    }

    /// The draw key of slot `idx`: its sprite layer and its y position.
    /// Callers pass a slot already known to be drawable; anything else
    /// reports the bottom key.
    fn drawable_key(&self, idx: usize) -> (r: (i64, i64))
        requires
            self.wf(),
        ensures
            drawable(self.world@, idx as int) ==> r.0 == layer_of(self.world@, idx as int) && r.1
                == y_of(self.world@, idx as int),
    {
        if idx < self.world.gens.len() {
            match (&self.world.sprites[idx], self.world.positions[idx]) {
                (Some(sp), Some(pos)) => (sp.layer, pos.y),
                _ => (i64::MIN, i64::MIN),
            }
        } else {
            (i64::MIN, i64::MIN)
        }
    }
}

/// The size a sprite is drawn at: its source rectangle's size, or the full
/// texture size when no source is set. `None` when the catalog does not
/// know the texture.
pub open spec fn spec_sprite_size(assets: AssetsView, s: SpriteView) -> Option<Vec2i> {
    match s.source {
        Some(r) => Some(Vec2i { x: r.w, y: r.h }),
        None => spec_texture_size(assets, s.texture),
    }
}

/// The sprite's drawing offset: its own offset, pulled back by half its
/// size when centered (halves round toward zero on the pixel grid).
pub open spec fn spec_sprite_offset(assets: AssetsView, s: SpriteView) -> Option<Vec2i> {
    match spec_sprite_size(assets, s) {
        Some(size) => Some(
            if s.centered {
                Vec2i {
                    x: (s.offset.x - crate::animation::half_toward_zero(size.x as int)) as i64,
                    y: (s.offset.y - crate::animation::half_toward_zero(size.y as int)) as i64,
                }
            } else {
                s.offset
            },
        ),
        None => None,
    }
}

/// The sprite's bounds relative to its entity's position.
pub open spec fn spec_sprite_bounds(assets: AssetsView, s: SpriteView) -> Option<Rect> {
    match (spec_sprite_offset(assets, s), spec_sprite_size(assets, s)) {
        (Some(o), Some(size)) => Some(Rect { x: o.x, y: o.y, w: size.x, h: size.y }),
        _ => None,
    }
}

impl SpriteComponent {
    /// The size the sprite is drawn at, when the catalog knows it.
    pub fn size(&self, assets: &Assets) -> (r: Option<Vec2i>)
        requires
            assets.wf(),
            crate::world::sprite_wf(self@),
        ensures
            r == spec_sprite_size(assets@, self@),
            match r {
                Some(v) => crate::geom::vec_bounded(v, RECT_LIMIT as int),
                None => true,
            },
    {
        match self.source {
            Some(rect) => Some(Vec2i { x: rect.w, y: rect.h }),
            None => assets.texture_size(&self.texture),
        }
    }

    /// The sprite's drawing offset, centering correction included.
    pub fn offset(&self, assets: &Assets) -> (r: Option<Vec2i>)
        requires
            assets.wf(),
            crate::world::sprite_wf(self@),
        ensures
            r == spec_sprite_offset(assets@, self@),
            match r {
                Some(v) => crate::geom::vec_bounded(
                    v,
                    crate::world::OFFSET_LIMIT + RECT_LIMIT as int,
                ),
                None => true,
            },
    {
        match self.size(assets) {
            Some(size) => Some(
                if self.centered {
                    Vec2i {
                        x: self.offset.x - (if size.x >= 0 {
                            size.x / 2
                        } else {
                            -((-size.x) / 2)
                        }),
                        y: self.offset.y - (if size.y >= 0 {
                            size.y / 2
                        } else {
                            -((-size.y) / 2)
                        }),
                    }
                } else {
                    self.offset
                },
            ),
            None => None,
        }
    }

    /// The sprite's bounds relative to its entity's position.
    pub fn bounds(&self, assets: &Assets) -> (r: Option<Rect>)
        requires
            assets.wf(),
            crate::world::sprite_wf(self@),
        ensures
            r == spec_sprite_bounds(assets@, self@),
            match r {
                Some(rect) => crate::geom::rect_bounded(
                    rect,
                    crate::world::OFFSET_LIMIT + RECT_LIMIT as int,
                ),
                None => true,
            },
    {
        match (self.offset(assets), self.size(assets)) {
            (Some(o), Some(size)) => Some(Rect { x: o.x, y: o.y, w: size.x, h: size.y }),
            _ => None,
        }
    }
}

/// Slot `i` is under the cursor: drawable, with known sprite bounds that,
/// offset by its position, contain `cursor`.
pub open spec fn hit_candidate(assets: AssetsView, w: WorldView, i: int, cursor: Vec2i) -> bool {
    &&& drawable(w, i)
    &&& spec_sprite_bounds(assets, w.sprites[i]->Some_0) is Some
    &&& {
        let b = spec_sprite_bounds(assets, w.sprites[i]->Some_0)->Some_0;
        let p = w.positions[i]->Some_0;
        rect_contains(Rect { x: (b.x + p.x) as i64, y: (b.y + p.y) as i64, w: b.w, h: b.h }, cursor)
    }
}

/// The topmost slot under the cursor among `0..n`: the hit candidate whose
/// layer/y key is no smaller than every earlier candidate's — the reverse
/// of the draw order, so the entity drawn last wins.
pub open spec fn top_hit_upto(assets: AssetsView, w: WorldView, cursor: Vec2i, n: int) -> Option<
    int,
>
    decreases n,
{
    if n <= 0 {
        None
    } else {
        let i = n - 1;
        let prev = top_hit_upto(assets, w, cursor, i);
        if hit_candidate(assets, w, i, cursor) {
            match prev {
                Some(b) => if key_le(w, b, i) {
                    Some(i)
                } else {
                    prev
                },
                None => Some(i),
            }
        } else {
            prev
        }
    }
}

pub open spec fn top_hit(assets: AssetsView, w: WorldView, cursor: Vec2i) -> Option<int> {
    top_hit_upto(assets, w, cursor, w.gens.len() as int)
}

/// Whatever the scan returns is itself a hit candidate in range.
pub proof fn lemma_top_hit_is_candidate(assets: AssetsView, w: WorldView, cursor: Vec2i, n: int)
    requires
        top_hit_upto(assets, w, cursor, n) is Some,
    ensures
        0 <= top_hit_upto(assets, w, cursor, n)->Some_0 < n,
        hit_candidate(assets, w, top_hit_upto(assets, w, cursor, n)->Some_0, cursor),
    decreases n,
{
    if n > 0 {
        if top_hit_upto(assets, w, cursor, n - 1) is Some {
            lemma_top_hit_is_candidate(assets, w, cursor, n - 1);
        }
    }
}

impl crate::overworld::Overworld {
    /// The topmost drawable entity under the cursor, and the offset from
    /// the cursor to its position; `None` when nothing is hit.
    #[verifier::loop_isolation(false)]
    pub fn query_cursor_pos(&self, assets: &Assets, cursor: Vec2i) -> (r: Option<(Entity, Vec2i)>)
        requires
            self.wf(),
            assets.wf(),
            crate::geom::vec_bounded(cursor, COORD_LIMIT as int),
        ensures
            match r {
                Some((e, off)) => top_hit(assets@, self.world@, cursor) == Some(e.idx as int)
                    && e.gen == self.world@.gens[e.idx as int] && off == (Vec2i {
                    x: (self.world@.positions[e.idx as int]->Some_0.x - cursor.x) as i64,
                    y: (self.world@.positions[e.idx as int]->Some_0.y - cursor.y) as i64,
                }),
                None => top_hit(assets@, self.world@, cursor) is None,
            },
    {
        let ghost w = self.world@;
        let n = self.world.gens.len();
        let mut best: Option<usize> = None;
        let mut i: usize = 0;
        while i < n
            invariant
                0 <= i <= n,
                match best {
                    Some(b) => 0 <= b < i && top_hit_upto(assets@, w, cursor, i as int) == Some(
                        b as int,
                    ),
                    None => top_hit_upto(assets@, w, cursor, i as int) is None,
                },
            decreases n - i,
        {
            let ghost pre_best = best;
            if self.world.alive[i] {
                if let (Some(pos), Some(sp)) = (
                    self.world.positions[i],
                    self.world.sprites[i].as_ref(),
                ) {
                    proof {
                        assert(crate::world::slot_wf(w, i as int));
                    }
                    if let Some(b) = sp.bounds(assets) {
                        proof {
                            assert(crate::world::sprite_wf(w.sprites[i as int]->Some_0));
                        }
                        let contains = b.x + pos.x <= cursor.x && cursor.x <= b.x + pos.x + b.w
                            && b.y + pos.y <= cursor.y && cursor.y <= b.y + pos.y + b.h;
                        if contains {
                            let take = match best {
                                Some(prev) => {
                                    let (pl, py) = self.drawable_key(prev);
                                    pl < sp.layer || (pl == sp.layer && py <= pos.y)
                                },
                                None => true,
                            };
                            if take {
                                best = Some(i);
                            }
                        }
                    }
                }
            }
            proof {
                if pre_best is Some {
                    lemma_top_hit_is_candidate(assets@, w, cursor, i as int);
                }
            }
            i = i + 1;
        }
        match best {
            Some(b) => {
                proof {
                    lemma_top_hit_is_candidate(assets@, w, cursor, n as int);
                    assert(crate::world::slot_wf(w, b as int));
                }
                match self.world.positions[b] {
                    Some(pos) => Some(
                        (
                            Entity { idx: b, gen: self.world.gens[b] },
                            Vec2i { x: pos.x - cursor.x, y: pos.y - cursor.y },
                        ),
                    ),
                    None => {
                        proof {
                            assert(false);
                        }
                        None
                    },
                }
            },
            None => None,
        }
    }
}

} // verus!
