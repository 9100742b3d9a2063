//! The animation ticker. Every tick, each animation component's frame
//! counter advances by one and wraps to zero when it reaches the length of
//! its animation's expanded frame table (a length of zero pins it at zero).
//! Every entity carrying both a sprite and an animation then has the
//! sprite's offset and source rectangle overwritten from the current
//! frame's metadata: while an animation is present it is the sole authority
//! over those sprite fields.

use vstd::arithmetic::div_mod::{
    lemma_fundamental_div_mod, lemma_fundamental_div_mod_converse,
    lemma_mod_division_less_than_divisor, lemma_mod_multiples_basic,
};
use vstd::prelude::*;

use crate::assets::{
    spec_anim_frame, spec_anim_length, sprite_in_catalog, Assets, AssetsView, Frame,
};
use crate::geom::Vec2i;
use crate::world::{
    AnimationComponent, AnimationView, SpriteComponent, SpriteView, World, WorldView,
};

verus! {

/// One advance of a frame counter against a table of length `len`.
pub open spec fn ticked_frame(frame: int, len: int) -> int {
    if frame + 1 >= len {
        0
    } else {
        frame + 1
    }
}

/// Length of the frame table an animation component currently points at: 0
/// when its sprite id is out of the catalog or its animation name unknown.
pub open spec fn anim_table_len(assets: AssetsView, a: AnimationView) -> int {
    match sprite_in_catalog(assets, a.id) {
        Some(s) => spec_anim_length(s, a.animation),
        None => 0,
    }
}

/// An animation component after one tick.
pub open spec fn ticked_animation(assets: AssetsView, a: AnimationView) -> AnimationView {
    AnimationView {
        frame: ticked_frame(a.frame as int, anim_table_len(assets, a)) as usize,
        ..a
    }
}

/// Halving that rounds toward zero, matching integer division on signed
/// machine integers.
pub open spec fn half_toward_zero(d: int) -> int {
    if d >= 0 {
        d / 2
    } else {
        -((-d) / 2)
    }
}

/// The sprite fields the current animation frame dictates: offset, source
/// rectangle, and for centered sprites a correction of half the difference
/// between the frame and its logical cell.
pub open spec fn sprite_from_frame(s: SpriteView, a: AnimationView, fi: Frame) -> SpriteView {
    let cx: int = if s.centered {
        half_toward_zero(fi.src.w - fi.source_size.x)
    } else {
        0
    };
    let cy: int = if s.centered {
        half_toward_zero(fi.src.h - fi.source_size.y)
    } else {
        0
    };
    SpriteView {
        offset: Vec2i {
            x: (fi.offset.x + a.offset.x + cx) as i64,
            y: (fi.offset.y + a.offset.y + cy) as i64,
        },
        source: Some(fi.src),
        ..s
    }
}

/// The animation component slot `i` holds after one tick.
pub open spec fn tick_anim_at(assets: AssetsView, w: WorldView, i: int) -> Option<AnimationView> {
    match w.animations[i] {
        Some(a) => if w.alive[i] {
            Some(ticked_animation(assets, a))
        } else {
            Some(a)
        },
        None => None,
    }
}

/// The sprite component slot `i` holds after one tick: rewritten from frame
/// metadata when the slot is live and carries both a sprite and an
/// animation whose sprite id is in the catalog; untouched otherwise.
pub open spec fn tick_sprite_at(assets: AssetsView, w: WorldView, i: int) -> Option<SpriteView> {
    if w.alive[i] {
        match (w.sprites[i], w.animations[i]) {
            (Some(s), Some(a)) => {
                let a2 = ticked_animation(assets, a);
                match sprite_in_catalog(assets, a2.id) {
                    Some(sp) => Some(
                        sprite_from_frame(s, a2, spec_anim_frame(sp, a2.animation, a2.frame as int)),
                    ),
                    None => Some(s),
                }
            },
            _ => w.sprites[i],
        }
    } else {
        w.sprites[i]
    }
}

/// One animation tick over the whole world.
pub open spec fn tick_model(assets: AssetsView, w: WorldView) -> WorldView {
    WorldView {
        animations: Seq::new(w.animations.len(), |i: int| tick_anim_at(assets, w, i)),
        sprites: Seq::new(w.sprites.len(), |i: int| tick_sprite_at(assets, w, i)),
        ..w
    }
}

/// The frame counter after `n` ticks, starting from 0, against a table of
/// length `len`.
pub open spec fn frame_after_ticks(n: nat, len: int) -> int
    decreases n,
{
    if n == 0 {
        0
    } else {
        ticked_frame(frame_after_ticks((n - 1) as nat, len), len)
    }
}

/// The animation wraparound law: against a table of length `len > 0` the
/// frame counter visits `n % len` after `n` ticks — so ticking `len` times
/// returns it to 0, once per cycle — and a table of length 0 pins it at 0
/// forever.
pub proof fn lemma_animation_wraparound(n: nat, len: int)
    ensures
        len > 0 ==> frame_after_ticks(n, len) == (n as int) % len,
        len <= 0 ==> frame_after_ticks(n, len) == 0,
    decreases n,
{
    if n > 0 {
        lemma_animation_wraparound((n - 1) as nat, len);
        if len > 0 {
            let m = (n - 1) as int;
            lemma_mod_division_less_than_divisor(m, len);
            let r = m % len;
            lemma_fundamental_div_mod(m, len);
            let q = m / len;
            assert((q + 1) * len == q * len + len) by (nonlinear_arith);
            assert(len * q == q * len) by (nonlinear_arith);
            if r + 1 >= len {
                lemma_mod_multiples_basic(q + 1, len);
                assert(n as int == (q + 1) * len);
            } else {
                lemma_fundamental_div_mod_converse(n as int, len, q, r + 1);
            }
        }
    }
}

impl World {
    /// Advance every animation by one tick and overwrite every animated
    /// sprite's offset and source rectangle from the new current frame, per
    /// `tick_model`.
    #[verifier::loop_isolation(false)]
    pub fn tick_animations(&mut self, assets: &Assets)
        requires
            old(self).wf(),
        ensures
            final(self).wf(),
            final(self)@ == tick_model(assets@, old(self)@),
    {
        let ghost w = self@;
        let n = self.animations.len();
        let mut new_animations: Vec<Option<AnimationComponent>> = Vec::new();
        let mut i: usize = 0;
        while i < n
            invariant
                0 <= i <= n,
                self@ == w,
                new_animations@.len() == i,
                forall|j: int|
                    0 <= j < i ==> crate::world::animation_opt_view(#[trigger] new_animations@[j])
                        == tick_anim_at(assets@, w, j),
                forall|j: int|
                    0 <= j < i ==> match crate::world::animation_opt_view(
                        #[trigger] new_animations@[j],
                    ) {
                        Some(av) => crate::world::animation_wf(av),
                        None => true,
                    },
            decreases n - i,
        {
            let next: Option<AnimationComponent> = match &self.animations[i] {
                Some(a) => {
                    if self.alive[i] {
                        let len: usize = match assets.get_sprite(a.id) {
                            Some(sp) => sp.get_anim_length(a.animation.as_string()),
                            None => 0,
                        };
                        let nf: usize = if len == 0 || a.frame >= len - 1 {
                            0
                        } else {
                            a.frame + 1
                        };
                        Some(
                            AnimationComponent {
                                id: a.id,
                                animation: a.animation.clone(),
                                frame: nf,
                                offset: a.offset,
                            },
                        )
                    } else {
                        Some(a.clone())
                    }
                },
                None => None,
            };
            proof {
                assert(crate::world::slot_wf(w, i as int));
            }
            new_animations.push(next);
            i = i + 1;
        }
        self.animations = new_animations;
        let ghost w1 = self@;
        proof {
            assert(w1.animations =~= Seq::new(
                w.animations.len(),
                |j: int| tick_anim_at(assets@, w, j),
            ));
        }
        let m = self.sprites.len();
        let mut new_sprites: Vec<Option<SpriteComponent>> = Vec::new();
        let mut k: usize = 0;
        while k < m
            invariant
                0 <= k <= m,
                self@ == w1,
                new_sprites@.len() == k,
                forall|j: int|
                    0 <= j < k ==> crate::world::sprite_opt_view(#[trigger] new_sprites@[j])
                        == tick_sprite_at(assets@, w, j),
                forall|j: int|
                    0 <= j < k ==> match crate::world::sprite_opt_view(
                        #[trigger] new_sprites@[j],
                    ) {
                        Some(sv) => crate::world::sprite_wf(sv),
                        None => true,
                    },
            decreases m - k,
        {
            let next: Option<SpriteComponent> = match (&self.sprites[k], &self.animations[k]) {
                (Some(s), Some(a)) if self.alive[k] => {
                    match assets.get_sprite(a.id) {
                        Some(sp) => {
                            proof {
                                assert(crate::world::slot_wf(w, k as int));
                                assert(a@ == ticked_animation(assets@, w.animations[k as int]->Some_0));
                            }
                            let fi = sp.get_anim_frame(a.animation.as_string(), a.frame);
                            let mut off_x: i64 = fi.offset.x + a.offset.x;
                            let mut off_y: i64 = fi.offset.y + a.offset.y;
                            if s.centered {
                                let dx = fi.src.w - fi.source_size.x;
                                let dy = fi.src.h - fi.source_size.y;
                                off_x = off_x + (if dx >= 0 {
                                    dx / 2
                                } else {
                                    -((-dx) / 2)
                                });
                                off_y = off_y + (if dy >= 0 {
                                    dy / 2
                                } else {
                                    -((-dy) / 2)
                                });
                            }
                            Some(
                                SpriteComponent {
                                    texture: s.texture.clone(),
                                    source: Some(fi.src),
                                    offset: Vec2i { x: off_x, y: off_y },
                                    centered: s.centered,
                                    flip_h: s.flip_h,
                                    layer: s.layer,
                                },
                            )
                        },
                        None => Some(s.clone()),
                    }
                },
                (Some(s), _) => Some(s.clone()),
                (None, _) => None,
            };
            proof {
                assert(crate::world::slot_wf(w, k as int));
            }
            new_sprites.push(next);
            k = k + 1;
        }
        self.sprites = new_sprites;
        proof {
            assert(self@ =~= tick_model(assets@, w));
            assert forall|j: int| 0 <= j < self@.gens.len() implies crate::world::slot_wf(
                self@,
                j,
            ) by {
                assert(crate::world::slot_wf(w, j));
            }
        }
    }
}

} // verus!
