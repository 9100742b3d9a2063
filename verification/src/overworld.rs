//! The overworld: the entity-component world plus the player handle, and
//! the per-tick update that strings the phases together — player movement,
//! follow, collision resolution, interaction dispatch, animation tick.

use vstd::prelude::*;

use crate::animation::tick_model;
use crate::assets::{Assets, AssetsView, TextureId, TextureIdView};
use crate::collision::{clamp_coord, resolve_model};
use crate::follow::follow_model;
use crate::geom::{Rect, Vec2i};
use crate::input::InputState;
use crate::interact::{interact_event, Event};
use crate::ustr::ustr;
use crate::world::{
    live, AnimationComponent, AnimationView, CollisionComponent, Entity, EntityBundle,
    SpriteComponent, SpriteView, World, WorldView,
};

verus! {

/// Net horizontal motion the held movement keys ask for.
pub open spec fn input_dx(input: InputState) -> int {
    (if input.right_held {
        1int
    } else {
        0int
    }) - (if input.left_held {
        1int
    } else {
        0int
    })
}

/// Net vertical motion the held movement keys ask for.
pub open spec fn input_dy(input: InputState) -> int {
    (if input.down_held {
        1int
    } else {
        0int
    }) - (if input.up_held {
        1int
    } else {
        0int
    })
}

/// The animation name and flip the held keys select, keeping the current
/// pair when no movement key is held. When several are held the precedence
/// is right, left, down, up — the order the keys are applied in, last
/// written wins.
pub open spec fn player_anim(input: InputState, current: Seq<char>, current_flip: bool) -> (
    Seq<char>,
    bool,
) {
    if input.right_held {
        ("Right"@, false)
    } else if input.left_held {
        ("Right"@, true)
    } else if input.down_held {
        ("Idle"@, false)
    } else if input.up_held {
        ("Back"@, false)
    } else {
        (current, current_flip)
    }
}

/// The world after the player's movement input is applied: position stepped
/// by one pixel per held axis key (clamped to the coordinate range), walk
/// animation and flip selected by the held keys. Without all three of
/// position, sprite and animation on the player the input is ignored.
pub open spec fn move_player_model(w: WorldView, player: Entity, input: InputState) -> WorldView {
    let p = player.idx as int;
    if live(w, player) && w.positions[p] is Some && w.sprites[p] is Some && w.animations[p]
        is Some {
        let pos = w.positions[p]->Some_0;
        let s = w.sprites[p]->Some_0;
        let a = w.animations[p]->Some_0;
        let np = Vec2i {
            x: clamp_coord(pos.x + input_dx(input)) as i64,
            y: clamp_coord(pos.y + input_dy(input)) as i64,
        };
        let sel = player_anim(input, a.animation, s.flip_h);
        WorldView {
            positions: w.positions.update(p, Some(np)),
            sprites: w.sprites.update(p, Some(SpriteView { flip_h: sel.1, ..s })),
            animations: w.animations.update(p, Some(AnimationView { animation: sel.0, ..a })),
            ..w
        }
    } else {
        w
    }
}

/// The world state the tick reaches just before animations advance: input
/// moved the player, followers stepped, and penetrations were resolved.
pub open spec fn pre_tick_world(
    w: WorldView,
    player: Entity,
    input: InputState,
    allow_input: bool,
) -> WorldView {
    let w1 = if allow_input {
        move_player_model(w, player, input)
    } else {
        w
    };
    let w2 = if allow_input {
        follow_model(w1)
    } else {
        w1
    };
    resolve_model(w2, player)
}

/// The whole world tick.
pub open spec fn update_model(
    assets: AssetsView,
    w: WorldView,
    player: Entity,
    input: InputState,
    allow_input: bool,
) -> WorldView {
    tick_model(assets, pre_tick_world(w, player, input, allow_input))
}

/// The event one world tick emits: an interaction, dispatched against the
/// post-resolution world, only on an interact press while input is allowed.
pub open spec fn update_event(
    w: WorldView,
    player: Entity,
    input: InputState,
    allow_input: bool,
) -> Option<Event> {
    if allow_input && input.confirm_pressed {
        interact_event(pre_tick_world(w, player, input, allow_input), player)
    } else {
        None
    }
}

impl World {
    /// Apply the player's movement input, per `move_player_model`.
    pub fn move_player(&mut self, player: Entity, input: &InputState)
        requires
            old(self).wf(),
        ensures
            final(self).wf(),
            final(self)@ == move_player_model(old(self)@, player, *input),
    {
        let p = player.idx;
        if !(p < self.gens.len() && self.alive[p] && self.gens[p] == player.gen) {
            return ;
        }
        let has_all = self.positions[p].is_some() && self.sprites[p].is_some()
            && self.animations[p].is_some();
        if !has_all {
            return ;
        }
        proof {
            assert(crate::world::slot_wf(self@, p as int));
            reveal_strlit("Right");
            reveal_strlit("Idle");
            reveal_strlit("Back");
        }
        let pos = match self.positions[p] {
            Some(q) => q,
            None => {
                return ;
            },
        };
        let dx: i64 = (if input.right_held {
            1i64
        } else {
            0i64
        }) - (if input.left_held {
            1i64
        } else {
            0i64
        });
        let dy: i64 = (if input.down_held {
            1i64
        } else {
            0i64
        }) - (if input.up_held {
            1i64
        } else {
            0i64
        });
        let np = Vec2i { x: clamp_i64_coord(pos.x + dx), y: clamp_i64_coord(pos.y + dy) };
        self.positions.set(p, Some(np));
        let (s_new, a_new): (SpriteComponent, AnimationComponent) = {
            let s = match self.sprites[p].as_ref() {
                Some(s) => s,
                None => {
                    proof {
                        assert(false);
                    }
                    return ;
                },
            };
            let a = match self.animations[p].as_ref() {
                Some(a) => a,
                None => {
                    proof {
                        assert(false);
                    }
                    return ;
                },
            };
            let (name, flip) = if input.right_held {
                (ustr("Right"), false)
            } else if input.left_held {
                (ustr("Right"), true)
            } else if input.down_held {
                (ustr("Idle"), false)
            } else if input.up_held {
                (ustr("Back"), false)
            } else {
                (a.animation.clone(), s.flip_h)
            };
            (
                SpriteComponent {
                    texture: s.texture.clone(),
                    source: s.source,
                    offset: s.offset,
                    centered: s.centered,
                    flip_h: flip,
                    layer: s.layer,
                },
                AnimationComponent { id: a.id, animation: name, frame: a.frame, offset: a.offset },
            )
        };
        self.sprites.set(p, Some(s_new));
        self.animations.set(p, Some(a_new));
        proof {
            assert(self@ =~= move_player_model(old(self)@, player, *input));
            assert forall|j: int| 0 <= j < self@.gens.len() implies crate::world::slot_wf(
                self@,
                j,
            ) by {
                assert(crate::world::slot_wf(old(self)@, j));
            }
        }
    }
}

/// Clamp a coordinate into the world coordinate range.
fn clamp_i64_coord(v: i64) -> (r: i64)
    ensures
        r == clamp_coord(v as int),
{
    if v < -crate::geom::COORD_LIMIT {
        -crate::geom::COORD_LIMIT
    } else if v > crate::geom::COORD_LIMIT {
        crate::geom::COORD_LIMIT
    } else {
        v
    }
}

/// The world the game opens on: the concept backdrop with its boundary
/// collision box, the mine wall and floor, and the player with sprite,
/// idle animation and collision box. Slot 3 is the player.
pub open spec fn initial_overworld(a: AssetsView) -> WorldView {
    WorldView {
        gens: seq![0u64, 0u64, 0u64, 0u64],
        alive: seq![true, true, true, true],
        positions: seq![
            Some(Vec2i { x: 0, y: 0 }),
            Some(Vec2i { x: 0, y: 0 }),
            Some(Vec2i { x: 0, y: 0 }),
            Some(Vec2i { x: 320, y: 180 }),
        ],
        sprites: seq![
            Some(
                SpriteView {
                    texture: a.char_concept,
                    source: None,
                    offset: Vec2i { x: 0, y: 0 },
                    centered: false,
                    flip_h: false,
                    layer: -1i64,
                },
            ),
            Some(
                SpriteView {
                    texture: TextureIdView::Name("minewall"@),
                    source: None,
                    offset: Vec2i { x: 0, y: 0 },
                    centered: false,
                    flip_h: false,
                    layer: -1i64,
                },
            ),
            Some(
                SpriteView {
                    texture: TextureIdView::Name("minefloor"@),
                    source: None,
                    offset: Vec2i { x: 0, y: 0 },
                    centered: true,
                    flip_h: false,
                    layer: -1i64,
                },
            ),
            Some(
                SpriteView {
                    texture: TextureIdView::Sprite(a.char_sprite),
                    source: None,
                    offset: Vec2i { x: 0, y: 0 },
                    centered: false,
                    flip_h: false,
                    layer: 0,
                },
            ),
        ],
        collisions: seq![
            Some(CollisionComponent { bounds: Rect { x: 64, y: 64, w: 128, h: 128 } }),
            Some(CollisionComponent { bounds: Rect { x: 22, y: 22, w: 211, h: 113 } }),
            None,
            Some(CollisionComponent { bounds: Rect { x: -8i64, y: 12, w: 16, h: 10 } }),
        ],
        animations: seq![
            None,
            None,
            None,
            Some(
                AnimationView {
                    id: a.char_sprite,
                    animation: "Idle"@,
                    frame: 0,
                    offset: Vec2i { x: 0, y: 0 },
                },
            ),
        ],
        interactables: seq![None, None, None, None],
        follows: seq![None, None, None, None],
    }
}

/// The entity-component world plus the player's handle.
pub struct Overworld {
    pub world: World,
    pub player: Entity,
}

impl Overworld {
    /// Well-formedness: the world's storages and bounds are intact.
    pub open spec fn wf(self) -> bool {
        self.world.wf()
    }

    /// Build the opening overworld.
    pub fn new(assets: &Assets) -> (r: Overworld)
        ensures
            r.wf(),
            r.world@ == initial_overworld(assets@),
            r.player == (Entity { idx: 3usize, gen: 0u64 }),
            live(r.world@, r.player),
    {
        proof {
            reveal_strlit("minewall");
            reveal_strlit("minefloor");
            reveal_strlit("Idle");
        }
        let mut world = World::new();
        proof {
            reveal_with_fuel(crate::world::first_free_from, 6);
        }
        world.spawn(
            EntityBundle {
                position: Some(Vec2i { x: 0, y: 0 }),
                sprite: Some(
                    SpriteComponent {
                        texture: assets.char_concept.clone(),
                        source: None,
                        offset: Vec2i { x: 0, y: 0 },
                        centered: false,
                        flip_h: false,
                        layer: -1,
                    },
                ),
                collision: Some(
                    CollisionComponent { bounds: Rect { x: 64, y: 64, w: 128, h: 128 } },
                ),
                animation: None,
                interactable: None,
                follow: None,
            },
        );
        world.spawn(
            EntityBundle {
                position: Some(Vec2i { x: 0, y: 0 }),
                sprite: Some(
                    SpriteComponent {
                        texture: assets.get_texture("minewall"),
                        source: None,
                        offset: Vec2i { x: 0, y: 0 },
                        centered: false,
                        flip_h: false,
                        layer: -1,
                    },
                ),
                collision: Some(
                    CollisionComponent { bounds: Rect { x: 22, y: 22, w: 211, h: 113 } },
                ),
                animation: None,
                interactable: None,
                follow: None,
            },
        );
        world.spawn(
            EntityBundle {
                position: Some(Vec2i { x: 0, y: 0 }),
                sprite: Some(
                    SpriteComponent {
                        texture: assets.get_texture("minefloor"),
                        source: None,
                        offset: Vec2i { x: 0, y: 0 },
                        centered: true,
                        flip_h: false,
                        layer: -1,
                    },
                ),
                collision: None,
                animation: None,
                interactable: None,
                follow: None,
            },
        );
        let player = world.spawn(
            EntityBundle {
                position: Some(Vec2i { x: 320, y: 180 }),
                sprite: Some(
                    SpriteComponent {
                        texture: TextureId::from_sprite(assets.char_sprite),
                        source: None,
                        offset: Vec2i { x: 0, y: 0 },
                        centered: false,
                        flip_h: false,
                        layer: 0,
                    },
                ),
                collision: Some(
                    CollisionComponent { bounds: Rect { x: -8, y: 12, w: 16, h: 10 } },
                ),
                animation: Some(
                    AnimationComponent {
                        id: assets.char_sprite,
                        animation: ustr("Idle"),
                        frame: 0,
                        offset: Vec2i { x: 0, y: 0 },
                    },
                ),
                interactable: None,
                follow: None,
            },
        );
        let r = Overworld { world, player };
        proof {
            assert(r.world@ =~~= initial_overworld(assets@));
        }
        r
    }

    /// One world tick: while input is allowed the player moves and
    /// followers step; penetrations are then resolved for the player; an
    /// interact press (input allowed) dispatches at most one interaction
    /// event onto `events`; finally every animation advances one frame.
    pub fn update(
        &mut self,
        assets: &Assets,
        input: &InputState,
        events: &mut Vec<Event>,
        allow_input: bool,
    )
        requires
            old(self).wf(),
        ensures
            final(self).wf(),
            final(self).player == old(self).player,
            final(self).world@ == update_model(
                assets@,
                old(self).world@,
                old(self).player,
                *input,
                allow_input,
            ),
            final(events)@ == match update_event(
                old(self).world@,
                old(self).player,
                *input,
                allow_input,
            ) {
                Some(ev) => old(events)@.push(ev),
                None => old(events)@,
            },
    {
        if allow_input {
            self.world.move_player(self.player, input);
            self.world.follow();
        }
        self.world.resolve_penetrations(self.player);
        if allow_input && input.confirm_pressed {
            self.world.interact(self.player, events);
        }
        self.world.tick_animations(assets);
    }
}

} // verus!
