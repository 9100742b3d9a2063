//! The entity-component world: an arena of generational entity handles with
//! sparse per-entity components. Stale handles (despawned, or from a reused
//! slot of an older generation) are detected and fail every query.

use vstd::prelude::*;

use crate::assets::{AnimatedSpriteId, TextureId, TextureIdView};
use crate::geom::{rect_bounded, vec_bounded, Rect, Vec2i, COORD_LIMIT, RECT_LIMIT};
use crate::ustr::Ustr;

verus! {

/// Largest magnitude of a sprite's pixel offset. The animation ticker writes
/// sums of a few `RECT_LIMIT`-bounded frame fields here, so the bound is a
/// few times larger.
pub const OFFSET_LIMIT: i64 = 0x1_0000_0000;

/// Handle to one entity: a slot index plus the generation the slot had when
/// the entity was spawned.
#[derive(Clone, Copy, PartialEq, Eq, Structural, Debug)]
pub struct Entity {
    pub idx: usize,
    pub gen: u64,
}

/// How an entity is drawn: its texture, optional source sub-rectangle,
/// pixel offset, centering and flip flags, and draw layer. When `source` is
/// absent the bounds derive from the full texture size.
#[derive(Debug)]
pub struct SpriteComponent {
    pub texture: TextureId,
    pub source: Option<Rect>,
    pub offset: Vec2i,
    pub centered: bool,
    pub flip_h: bool,
    pub layer: i64,
}

/// Mathematical shape of a `SpriteComponent`.
#[verifier::ext_equal]
pub struct SpriteView {
    pub texture: TextureIdView,
    pub source: Option<Rect>,
    pub offset: Vec2i,
    pub centered: bool,
    pub flip_h: bool,
    pub layer: i64,
}

impl View for SpriteComponent {
    type V = SpriteView;

    open spec fn view(&self) -> SpriteView {
        SpriteView {
            texture: self.texture@,
            source: self.source,
            offset: self.offset,
            centered: self.centered,
            flip_h: self.flip_h,
            layer: self.layer,
        }
    }
}

impl Clone for SpriteComponent {
    fn clone(&self) -> (r: Self)
        ensures
            r@ == self@,
    {
        SpriteComponent {
            texture: self.texture.clone(),
            source: self.source,
            offset: self.offset,
            centered: self.centered,
            flip_h: self.flip_h,
            layer: self.layer,
        }
    }
}

impl Default for SpriteComponent {
    /// The placeholder texture, no source rectangle, zero offset, layer 0.
    fn default() -> (r: Self)
        ensures
            r@ == (SpriteView {
                texture: TextureIdView::Name("missing"@),
                source: None,
                offset: Vec2i { x: 0, y: 0 },
                centered: false,
                flip_h: false,
                layer: 0,
            }),
    {
        SpriteComponent {
            texture: TextureId::default(),
            source: None,
            offset: Vec2i { x: 0, y: 0 },
            centered: false,
            flip_h: false,
            layer: 0,
        }
    }
}

/// The animation state of an entity: which animated sprite, which named
/// animation, the current tick into its expanded frame table, and an extra
/// drawing offset.
#[derive(Debug)]
pub struct AnimationComponent {
    pub id: AnimatedSpriteId,
    pub animation: Ustr,
    pub frame: usize,
    pub offset: Vec2i,
}

/// Mathematical shape of an `AnimationComponent`.
#[verifier::ext_equal]
pub struct AnimationView {
    pub id: AnimatedSpriteId,
    pub animation: Seq<char>,
    pub frame: usize,
    pub offset: Vec2i,
}

impl View for AnimationComponent {
    type V = AnimationView;

    open spec fn view(&self) -> AnimationView {
        AnimationView {
            id: self.id,
            animation: self.animation@,
            frame: self.frame,
            offset: self.offset,
        }
    }
}

impl Clone for AnimationComponent {
    fn clone(&self) -> (r: Self)
        ensures
            r@ == self@,
    {
        AnimationComponent {
            id: self.id,
            animation: self.animation.clone(),
            frame: self.frame,
            offset: self.offset,
        }
    }
}

/// The collision box of an entity, relative to its position.
#[derive(Clone, Copy, PartialEq, Eq, Structural, Debug)]
pub struct CollisionComponent {
    pub bounds: Rect,
}

/// The kind of interaction an interactable entity offers.
#[derive(Clone, Copy, PartialEq, Eq, Structural, Debug)]
pub enum InteractableType {
    Lamp,
    Companion,
}

impl Default for InteractableType {
    fn default() -> (r: Self)
        ensures
            r == InteractableType::Lamp,
    {
        InteractableType::Lamp
    }
}

/// Marks an entity as a target of player interaction: its trigger bounds
/// (relative to its position), the interaction kind, and a priority. Higher
/// priority wins when several triggers contain the player; among equal
/// priorities the entity in the higher slot wins.
#[derive(Clone, Copy, PartialEq, Eq, Structural, Debug)]
pub struct Interactable {
    pub bounds: Rect,
    pub interaction: InteractableType,
    pub priority: i64,
}

/// Makes an entity trail a target entity: it steps along one axis at a time
/// once the Manhattan separation exceeds `max_distance`, at most `speed`
/// pixels per tick.
#[derive(Clone, Copy, PartialEq, Eq, Structural, Debug)]
pub struct FollowComponent {
    pub target: Entity,
    pub max_distance: i64,
    pub speed: i64,
}

/// Everything a freshly spawned entity carries.
#[derive(Debug)]
pub struct EntityBundle {
    pub position: Option<Vec2i>,
    pub sprite: Option<SpriteComponent>,
    pub collision: Option<CollisionComponent>,
    pub animation: Option<AnimationComponent>,
    pub interactable: Option<Interactable>,
    pub follow: Option<FollowComponent>,
}

/// Mathematical shape of an `EntityBundle`.
#[verifier::ext_equal]
pub struct BundleView {
    pub position: Option<Vec2i>,
    pub sprite: Option<SpriteView>,
    pub collision: Option<CollisionComponent>,
    pub animation: Option<AnimationView>,
    pub interactable: Option<Interactable>,
    pub follow: Option<FollowComponent>,
}

pub open spec fn sprite_opt_view(o: Option<SpriteComponent>) -> Option<SpriteView> {
    match o {
        Some(s) => Some(s@),
        None => None,
    }
}

pub open spec fn animation_opt_view(o: Option<AnimationComponent>) -> Option<AnimationView> {
    match o {
        Some(a) => Some(a@),
        None => None,
    }
}

impl View for EntityBundle {
    type V = BundleView;

    open spec fn view(&self) -> BundleView {
        BundleView {
            position: self.position,
            sprite: sprite_opt_view(self.sprite),
            collision: self.collision,
            animation: animation_opt_view(self.animation),
            interactable: self.interactable,
            follow: self.follow,
        }
    }
}

impl Default for EntityBundle {
    /// A bundle with no components at all.
    fn default() -> (r: Self)
        ensures
            r@ == (BundleView {
                position: None,
                sprite: None,
                collision: None,
                animation: None,
                interactable: None,
                follow: None,
            }),
    {
        EntityBundle {
            position: None,
            sprite: None,
            collision: None,
            animation: None,
            interactable: None,
            follow: None,
        }
    }
}

/// Bounds that keep every component's arithmetic far inside `i64`.
pub open spec fn position_wf(p: Vec2i) -> bool {
    vec_bounded(p, COORD_LIMIT as int)
}

pub open spec fn sprite_wf(s: SpriteView) -> bool {
    &&& vec_bounded(s.offset, OFFSET_LIMIT as int)
    &&& match s.source {
        Some(r) => rect_bounded(r, RECT_LIMIT as int) && r.w >= 0 && r.h >= 0,
        None => true,
    }
}

pub open spec fn collision_wf(c: CollisionComponent) -> bool {
    rect_bounded(c.bounds, RECT_LIMIT as int) && c.bounds.w >= 0 && c.bounds.h >= 0
}

pub open spec fn animation_wf(a: AnimationView) -> bool {
    vec_bounded(a.offset, RECT_LIMIT as int)
}

pub open spec fn interactable_wf(x: Interactable) -> bool {
    rect_bounded(x.bounds, RECT_LIMIT as int) && x.bounds.w >= 0 && x.bounds.h >= 0
}

pub open spec fn follow_wf(f: FollowComponent) -> bool {
    0 <= f.max_distance <= RECT_LIMIT && 0 <= f.speed <= RECT_LIMIT
}

pub open spec fn bundle_wf(b: BundleView) -> bool {
    &&& match b.position {
        Some(p) => position_wf(p),
        None => true,
    }
    &&& match b.sprite {
        Some(s) => sprite_wf(s),
        None => true,
    }
    &&& match b.collision {
        Some(c) => collision_wf(c),
        None => true,
    }
    &&& match b.animation {
        Some(a) => animation_wf(a),
        None => true,
    }
    &&& match b.interactable {
        Some(x) => interactable_wf(x),
        None => true,
    }
    &&& match b.follow {
        Some(f) => follow_wf(f),
        None => true,
    }
}

/// Mathematical shape of the whole world: one sequence per storage, all of
/// the same length, indexed by slot.
#[verifier::ext_equal]
pub struct WorldView {
    pub gens: Seq<u64>,
    pub alive: Seq<bool>,
    pub positions: Seq<Option<Vec2i>>,
    pub sprites: Seq<Option<SpriteView>>,
    pub collisions: Seq<Option<CollisionComponent>>,
    pub animations: Seq<Option<AnimationView>>,
    pub interactables: Seq<Option<Interactable>>,
    pub follows: Seq<Option<FollowComponent>>,
}

pub open spec fn world_dims_ok(w: WorldView) -> bool {
    &&& w.alive.len() == w.gens.len()
    &&& w.positions.len() == w.gens.len()
    &&& w.sprites.len() == w.gens.len()
    &&& w.collisions.len() == w.gens.len()
    &&& w.animations.len() == w.gens.len()
    &&& w.interactables.len() == w.gens.len()
    &&& w.follows.len() == w.gens.len()
}

pub open spec fn slot_wf(w: WorldView, i: int) -> bool {
    &&& match w.positions[i] {
        Some(p) => position_wf(p),
        None => true,
    }
    &&& match w.sprites[i] {
        Some(s) => sprite_wf(s),
        None => true,
    }
    &&& match w.collisions[i] {
        Some(c) => collision_wf(c),
        None => true,
    }
    &&& match w.animations[i] {
        Some(a) => animation_wf(a),
        None => true,
    }
    &&& match w.interactables[i] {
        Some(x) => interactable_wf(x),
        None => true,
    }
    &&& match w.follows[i] {
        Some(f) => follow_wf(f),
        None => true,
    }
}

pub open spec fn world_wf(w: WorldView) -> bool {
    &&& world_dims_ok(w)
    &&& forall|i: int| 0 <= i < w.gens.len() ==> slot_wf(w, i)
}

/// Entity `e` names a live slot of the current generation.
pub open spec fn live(w: WorldView, e: Entity) -> bool {
    &&& e.idx < w.gens.len()
    &&& w.alive[e.idx as int]
    &&& w.gens[e.idx as int] == e.gen
}

/// The position of `e`, or `None` when the handle is stale or the entity
/// has no position.
pub open spec fn position_of(w: WorldView, e: Entity) -> Option<Vec2i> {
    if live(w, e) {
        w.positions[e.idx as int]
    } else {
        None
    }
}

pub open spec fn sprite_of(w: WorldView, e: Entity) -> Option<SpriteView> {
    if live(w, e) {
        w.sprites[e.idx as int]
    } else {
        None
    }
}

pub open spec fn collision_of(w: WorldView, e: Entity) -> Option<CollisionComponent> {
    if live(w, e) {
        w.collisions[e.idx as int]
    } else {
        None
    }
}

pub open spec fn animation_of(w: WorldView, e: Entity) -> Option<AnimationView> {
    if live(w, e) {
        w.animations[e.idx as int]
    } else {
        None
    }
}

pub open spec fn interactable_of(w: WorldView, e: Entity) -> Option<Interactable> {
    if live(w, e) {
        w.interactables[e.idx as int]
    } else {
        None
    }
}

pub open spec fn follow_of(w: WorldView, e: Entity) -> Option<FollowComponent> {
    if live(w, e) {
        w.follows[e.idx as int]
    } else {
        None
    }
}

/// First dead slot whose generation counter has room left, scanning from
/// `i`; `None` when every slot from `i` on is taken.
pub open spec fn first_free_from(w: WorldView, i: int) -> Option<int>
    decreases w.gens.len() - i,
{
    if i < 0 || i >= w.gens.len() {
        None
    } else if !w.alive[i] && w.gens[i] < u64::MAX {
        Some(i)
    } else {
        first_free_from(w, i + 1)
    }
}

pub open spec fn first_free(w: WorldView) -> Option<int> {
    first_free_from(w, 0)
}

/// The world after spawning into existing slot `i` with new generation `g`.
pub open spec fn spawned_view(w: WorldView, b: BundleView, i: int, g: u64) -> WorldView {
    WorldView {
        gens: w.gens.update(i, g),
        alive: w.alive.update(i, true),
        positions: w.positions.update(i, b.position),
        sprites: w.sprites.update(i, b.sprite),
        collisions: w.collisions.update(i, b.collision),
        animations: w.animations.update(i, b.animation),
        interactables: w.interactables.update(i, b.interactable),
        follows: w.follows.update(i, b.follow),
    }
}

/// The world after spawning into a brand-new slot at the end.
pub open spec fn pushed_view(w: WorldView, b: BundleView) -> WorldView {
    WorldView {
        gens: w.gens.push(0u64),
        alive: w.alive.push(true),
        positions: w.positions.push(b.position),
        sprites: w.sprites.push(b.sprite),
        collisions: w.collisions.push(b.collision),
        animations: w.animations.push(b.animation),
        interactables: w.interactables.push(b.interactable),
        follows: w.follows.push(b.follow),
    }
}

/// The world after despawning slot `i`: the slot goes dead, its generation
/// is bumped so the old handle turns stale, and its components are dropped.
/// A slot whose generation counter is exhausted keeps it and is never
/// reused; the dead flag alone already makes the old handle stale.
pub open spec fn despawned_view(w: WorldView, i: int) -> WorldView {
    WorldView {
        gens: w.gens.update(i, if w.gens[i] < u64::MAX { (w.gens[i] + 1) as u64 } else { w.gens[i] }),
        alive: w.alive.update(i, false),
        positions: w.positions.update(i, None),
        sprites: w.sprites.update(i, None),
        collisions: w.collisions.update(i, None),
        animations: w.animations.update(i, None),
        interactables: w.interactables.update(i, None),
        follows: w.follows.update(i, None),
    }
}

/// The world with slot `i`'s position replaced.
pub open spec fn with_position(w: WorldView, i: int, p: Option<Vec2i>) -> WorldView {
    WorldView { positions: w.positions.update(i, p), ..w }
}

/// The world with slot `i`'s follow component replaced.
pub open spec fn with_follow(w: WorldView, i: int, f: Option<FollowComponent>) -> WorldView {
    WorldView { follows: w.follows.update(i, f), ..w }
}

/// The entity-component store.
pub struct World {
    pub(crate) gens: Vec<u64>,
    pub(crate) alive: Vec<bool>,
    pub(crate) positions: Vec<Option<Vec2i>>,
    pub(crate) sprites: Vec<Option<SpriteComponent>>,
    pub(crate) collisions: Vec<Option<CollisionComponent>>,
    pub(crate) animations: Vec<Option<AnimationComponent>>,
    pub(crate) interactables: Vec<Option<Interactable>>,
    pub(crate) follows: Vec<Option<FollowComponent>>,
}

impl View for World {
    type V = WorldView;

    open(crate) spec fn view(&self) -> WorldView {
        WorldView {
            gens: self.gens@,
            alive: self.alive@,
            positions: self.positions@,
            sprites: self.sprites@.map_values(|o: Option<SpriteComponent>| sprite_opt_view(o)),
            collisions: self.collisions@,
            animations: self.animations@.map_values(
                |o: Option<AnimationComponent>| animation_opt_view(o),
            ),
            interactables: self.interactables@,
            follows: self.follows@,
        }
    }
}

impl World {
    /// Well-formedness: the storages agree in length and every component
    /// stays inside the coordinate bounds. Every constructor establishes it
    /// and every method preserves it.
    pub open spec fn wf(self) -> bool {
        world_wf(self@)
    }

    /// An empty world.
    pub fn new() -> (w: World)
        ensures
            w.wf(),
            w@ == (WorldView {
                gens: Seq::<u64>::empty(),
                alive: Seq::<bool>::empty(),
                positions: Seq::<Option<Vec2i>>::empty(),
                sprites: Seq::<Option<SpriteView>>::empty(),
                collisions: Seq::<Option<CollisionComponent>>::empty(),
                animations: Seq::<Option<AnimationView>>::empty(),
                interactables: Seq::<Option<Interactable>>::empty(),
                follows: Seq::<Option<FollowComponent>>::empty(),
            }),
    {
        World {
            gens: Vec::new(),
            alive: Vec::new(),
            positions: Vec::new(),
            sprites: Vec::new(),
            collisions: Vec::new(),
            animations: Vec::new(),
            interactables: Vec::new(),
            follows: Vec::new(),
        }
    }

    /// Number of slots, live or dead.
    pub fn slot_count(&self) -> (n: usize)
        requires
            self.wf(),
        ensures
            n == self@.gens.len(),
    {
        self.gens.len()
    }

    /// Whether `e` still names a live entity.
    pub fn is_live(&self, e: Entity) -> (r: bool)
        requires
            self.wf(),
        ensures
            r == live(self@, e),
    {
        e.idx < self.gens.len() && self.alive[e.idx] && self.gens[e.idx] == e.gen
    }

    /// Spawn an entity carrying `bundle`, reusing the first retired slot if
    /// one is left, else growing the arena.
    #[verifier::loop_isolation(false)]
    pub fn spawn(&mut self, bundle: EntityBundle) -> (e: Entity)
        requires
            old(self).wf(),
            bundle_wf(bundle@),
        ensures
            final(self).wf(),
            match first_free(old(self)@) {
                Some(i) => e == (Entity {
                    idx: i as usize,
                    gen: (old(self)@.gens[i] + 1) as u64,
                }) && final(self)@ == spawned_view(
                    old(self)@,
                    bundle@,
                    i,
                    (old(self)@.gens[i] + 1) as u64,
                ),
                None => e == (Entity { idx: old(self)@.gens.len() as usize, gen: 0u64 })
                    && final(self)@ == pushed_view(old(self)@, bundle@),
            },
            live(final(self)@, e),
    {
        let ghost b_view = bundle@;
        let EntityBundle { position, sprite, collision, animation, interactable, follow } = bundle;
        let n = self.gens.len();
        let mut i: usize = 0;
        while i < n
            invariant
                0 <= i <= n,
                self@ == old(self)@,
                first_free_from(self@, i as int) == first_free(self@),
            decreases n - i,
        {
            if !self.alive[i] && self.gens[i] < u64::MAX {
                let g = self.gens[i] + 1;
                self.gens.set(i, g);
                self.alive.set(i, true);
                self.positions.set(i, position);
                self.sprites.set(i, sprite);
                self.collisions.set(i, collision);
                self.animations.set(i, animation);
                self.interactables.set(i, interactable);
                self.follows.set(i, follow);
                proof {
                    assert(self@ =~= spawned_view(old(self)@, b_view, i as int, g));
                    assert forall|j: int| 0 <= j < self@.gens.len() implies slot_wf(
                        self@,
                        j,
                    ) by {
                        assert(slot_wf(old(self)@, j));
                    }
                }
                return Entity { idx: i, gen: g };
            }
            i = i + 1;
        }
        self.gens.push(0);
        self.alive.push(true);
        self.positions.push(position);
        self.sprites.push(sprite);
        self.collisions.push(collision);
        self.animations.push(animation);
        self.interactables.push(interactable);
        self.follows.push(follow);
        proof {
            assert(self@ =~= pushed_view(old(self)@, b_view));
            assert forall|j: int| 0 <= j < self@.gens.len() implies slot_wf(self@, j) by {
                if j < old(self)@.gens.len() {
                    assert(slot_wf(old(self)@, j));
                }
            }
        }
        Entity { idx: n, gen: 0 }
    }

    /// Retire entity `e`. Returns whether the handle was still live; a stale
    /// handle changes nothing.
    pub fn despawn(&mut self, e: Entity) -> (ok: bool)
        requires
            old(self).wf(),
        ensures
            final(self).wf(),
            ok == live(old(self)@, e),
            final(self)@ == if live(old(self)@, e) {
                despawned_view(old(self)@, e.idx as int)
            } else {
                old(self)@
            },
    {
        if e.idx < self.gens.len() && self.alive[e.idx] && self.gens[e.idx] == e.gen {
            let i = e.idx;
            if self.gens[i] < u64::MAX {
                self.gens.set(i, self.gens[i] + 1);
            }
            self.alive.set(i, false);
            self.positions.set(i, None);
            self.sprites.set(i, None);
            self.collisions.set(i, None);
            self.animations.set(i, None);
            self.interactables.set(i, None);
            self.follows.set(i, None);
            proof {
                assert(self@ =~= despawned_view(old(self)@, e.idx as int));
                assert forall|j: int| 0 <= j < self@.gens.len() implies slot_wf(self@, j) by {
                    assert(slot_wf(old(self)@, j));
                }
            }
            true
        } else {
            false
        }
    }

    pub fn get_position(&self, e: Entity) -> (r: Option<Vec2i>)
        requires
            self.wf(),
        ensures
            r == position_of(self@, e),
    {
        if e.idx < self.gens.len() && self.alive[e.idx] && self.gens[e.idx] == e.gen {
            self.positions[e.idx]
        } else {
            None
        }
    }

    pub fn get_collision(&self, e: Entity) -> (r: Option<CollisionComponent>)
        requires
            self.wf(),
        ensures
            r == collision_of(self@, e),
    {
        if e.idx < self.gens.len() && self.alive[e.idx] && self.gens[e.idx] == e.gen {
            self.collisions[e.idx]
        } else {
            None
        }
    }

    pub fn get_interactable(&self, e: Entity) -> (r: Option<Interactable>)
        requires
            self.wf(),
        ensures
            r == interactable_of(self@, e),
    {
        if e.idx < self.gens.len() && self.alive[e.idx] && self.gens[e.idx] == e.gen {
            self.interactables[e.idx]
        } else {
            None
        }
    }

    pub fn get_follow(&self, e: Entity) -> (r: Option<FollowComponent>)
        requires
            self.wf(),
        ensures
            r == follow_of(self@, e),
    {
        if e.idx < self.gens.len() && self.alive[e.idx] && self.gens[e.idx] == e.gen {
            self.follows[e.idx]
        } else {
            None
        }
    }

    pub fn get_sprite(&self, e: Entity) -> (r: Option<&SpriteComponent>)
        requires
            self.wf(),
        ensures
            match r {
                Some(s) => sprite_of(self@, e) == Some(s@),
                None => sprite_of(self@, e) is None,
            },
    {
        if e.idx < self.gens.len() && self.alive[e.idx] && self.gens[e.idx] == e.gen {
            self.sprites[e.idx].as_ref()
        } else {
            None
        }
    }

    pub fn get_animation(&self, e: Entity) -> (r: Option<&AnimationComponent>)
        requires
            self.wf(),
        ensures
            match r {
                Some(a) => animation_of(self@, e) == Some(a@),
                None => animation_of(self@, e) is None,
            },
    {
        if e.idx < self.gens.len() && self.alive[e.idx] && self.gens[e.idx] == e.gen {
            self.animations[e.idx].as_ref()
        } else {
            None
        }
    }

    /// Overwrite the position of `e`. Fails (and changes nothing) when the
    /// handle is stale or the entity carries no position.
    pub fn set_position(&mut self, e: Entity, p: Vec2i) -> (ok: bool)
        requires
            old(self).wf(),
            position_wf(p),
        ensures
            final(self).wf(),
            ok == (position_of(old(self)@, e) is Some),
            final(self)@ == if position_of(old(self)@, e) is Some {
                with_position(old(self)@, e.idx as int, Some(p))
            } else {
                old(self)@
            },
    {
        if e.idx < self.gens.len() && self.alive[e.idx] && self.gens[e.idx] == e.gen
            && self.positions[e.idx].is_some() {
            self.positions.set(e.idx, Some(p));
            proof {
                assert(self@ =~= with_position(old(self)@, e.idx as int, Some(p)));
                assert forall|j: int| 0 <= j < self@.gens.len() implies slot_wf(self@, j) by {
                    assert(slot_wf(old(self)@, j));
                }
            }
            true
        } else {
            false
        }
    }

    /// Attach (or replace) a follow component on `e`. Fails on a stale
    /// handle.
    pub fn insert_follow(&mut self, e: Entity, f: FollowComponent) -> (ok: bool)
        requires
            old(self).wf(),
            follow_wf(f),
        ensures
            final(self).wf(),
            ok == live(old(self)@, e),
            final(self)@ == if live(old(self)@, e) {
                with_follow(old(self)@, e.idx as int, Some(f))
            } else {
                old(self)@
            },
    {
        if e.idx < self.gens.len() && self.alive[e.idx] && self.gens[e.idx] == e.gen {
            self.follows.set(e.idx, Some(f));
            proof {
                assert(self@ =~= with_follow(old(self)@, e.idx as int, Some(f)));
                assert forall|j: int| 0 <= j < self@.gens.len() implies slot_wf(self@, j) by {
                    assert(slot_wf(old(self)@, j));
                }
            }
            true
        } else {
            false
        }
    }
}

/// The bundle a duplicated entity starts with: copies of the source's
/// position, sprite, collision and animation. Interactable and follow
/// components are not duplicated.
pub open spec fn dup_bundle(w: WorldView, i: int) -> BundleView {
    BundleView {
        position: w.positions[i],
        sprite: w.sprites[i],
        collision: w.collisions[i],
        animation: w.animations[i],
        interactable: None,
        follow: None,
    }
}

/// One slot's full contents, as handed to and received from the snapshot
/// collaborator. A snapshot keeps dead slots too, so entity handles stay
/// stable within a session.
#[derive(Debug)]
pub struct SlotData {
    pub gen: u64,
    pub alive: bool,
    pub position: Option<Vec2i>,
    pub sprite: Option<SpriteComponent>,
    pub collision: Option<CollisionComponent>,
    pub animation: Option<AnimationComponent>,
    pub interactable: Option<Interactable>,
    pub follow: Option<FollowComponent>,
}

/// Mathematical shape of one exported slot.
#[verifier::ext_equal]
pub struct SlotDataView {
    pub gen: u64,
    pub alive: bool,
    pub position: Option<Vec2i>,
    pub sprite: Option<SpriteView>,
    pub collision: Option<CollisionComponent>,
    pub animation: Option<AnimationView>,
    pub interactable: Option<Interactable>,
    pub follow: Option<FollowComponent>,
}

impl View for SlotData {
    type V = SlotDataView;

    open spec fn view(&self) -> SlotDataView {
        SlotDataView {
            gen: self.gen,
            alive: self.alive,
            position: self.position,
            sprite: sprite_opt_view(self.sprite),
            collision: self.collision,
            animation: animation_opt_view(self.animation),
            interactable: self.interactable,
            follow: self.follow,
        }
    }
}

/// The world `slots` describes, one sequence per storage.
pub open spec fn world_of_slots(slots: Seq<SlotDataView>) -> WorldView {
    WorldView {
        gens: slots.map_values(|s: SlotDataView| s.gen),
        alive: slots.map_values(|s: SlotDataView| s.alive),
        positions: slots.map_values(|s: SlotDataView| s.position),
        sprites: slots.map_values(|s: SlotDataView| s.sprite),
        collisions: slots.map_values(|s: SlotDataView| s.collision),
        animations: slots.map_values(|s: SlotDataView| s.animation),
        interactables: slots.map_values(|s: SlotDataView| s.interactable),
        follows: slots.map_values(|s: SlotDataView| s.follow),
    }
}

/// A slot's components stay inside the coordinate bounds.
pub open spec fn slot_data_wf(s: SlotDataView) -> bool {
    &&& match s.position {
        Some(p) => position_wf(p),
        None => true,
    }
    &&& match s.sprite {
        Some(v) => sprite_wf(v),
        None => true,
    }
    &&& match s.collision {
        Some(c) => collision_wf(c),
        None => true,
    }
    &&& match s.animation {
        Some(a) => animation_wf(a),
        None => true,
    }
    &&& match s.interactable {
        Some(x) => interactable_wf(x),
        None => true,
    }
    &&& match s.follow {
        Some(f) => follow_wf(f),
        None => true,
    }
}

/// Why a snapshot cannot be restored.
#[derive(Clone, Copy, PartialEq, Eq, Structural, Debug)]
pub enum WorldError {
    /// A component in the snapshot leaves the coordinate bounds.
    ValueOutOfRange,
}

impl World {
    /// Clone every slot for the snapshot collaborator.
    #[verifier::loop_isolation(false)]
    pub fn export_slots(&self) -> (r: Vec<SlotData>)
        requires
            self.wf(),
        ensures
            r@.len() == self@.gens.len(),
            forall|i: int|
                0 <= i < r@.len() ==> (#[trigger] r@[i])@ == (SlotDataView {
                    gen: self@.gens[i],
                    alive: self@.alive[i],
                    position: self@.positions[i],
                    sprite: self@.sprites[i],
                    collision: self@.collisions[i],
                    animation: self@.animations[i],
                    interactable: self@.interactables[i],
                    follow: self@.follows[i],
                }),
    {
        let n = self.gens.len();
        let mut out: Vec<SlotData> = Vec::new();
        let mut i: usize = 0;
        while i < n
            invariant
                0 <= i <= n,
                out@.len() == i,
                forall|j: int|
                    0 <= j < i ==> (#[trigger] out@[j])@ == (SlotDataView {
                        gen: self@.gens[j],
                        alive: self@.alive[j],
                        position: self@.positions[j],
                        sprite: self@.sprites[j],
                        collision: self@.collisions[j],
                        animation: self@.animations[j],
                        interactable: self@.interactables[j],
                        follow: self@.follows[j],
                    }),
            decreases n - i,
        {
            let sprite: Option<SpriteComponent> = match self.sprites[i].as_ref() {
                Some(s) => Some(s.clone()),
                None => None,
            };
            let animation: Option<AnimationComponent> = match self.animations[i].as_ref() {
                Some(a) => Some(a.clone()),
                None => None,
            };
            out.push(
                SlotData {
                    gen: self.gens[i],
                    alive: self.alive[i],
                    position: self.positions[i],
                    sprite,
                    collision: self.collisions[i],
                    animation,
                    interactable: self.interactables[i],
                    follow: self.follows[i],
                },
            );
            i = i + 1;
        }
        out
    }

    /// Spawn a copy of entity `e`, carrying clones of its position, sprite,
    /// collision and animation components. A stale handle changes nothing.
    pub fn duplicate_entity(&mut self, e: Entity) -> (r: Option<Entity>)
        requires
            old(self).wf(),
        ensures
            final(self).wf(),
            !live(old(self)@, e) ==> r is None && final(self)@ == old(self)@,
            live(old(self)@, e) ==> match first_free(old(self)@) {
                Some(i) => r == Some(
                    Entity { idx: i as usize, gen: (old(self)@.gens[i] + 1) as u64 },
                ) && final(self)@ == spawned_view(
                    old(self)@,
                    dup_bundle(old(self)@, e.idx as int),
                    i,
                    (old(self)@.gens[i] + 1) as u64,
                ),
                None => r == Some(
                    Entity { idx: old(self)@.gens.len() as usize, gen: 0u64 },
                ) && final(self)@ == pushed_view(old(self)@, dup_bundle(old(self)@, e.idx as int)),
            },
    {
        if !(e.idx < self.gens.len() && self.alive[e.idx] && self.gens[e.idx] == e.gen) {
            return None;
        }
        proof {
            assert(slot_wf(self@, e.idx as int));
        }
        let i = e.idx;
        let sprite: Option<SpriteComponent> = match self.sprites[i].as_ref() {
            Some(s) => Some(s.clone()),
            None => None,
        };
        let animation: Option<AnimationComponent> = match self.animations[i].as_ref() {
            Some(a) => Some(a.clone()),
            None => None,
        };
        let bundle = EntityBundle {
            position: self.positions[i],
            sprite,
            collision: self.collisions[i],
            animation,
            interactable: None,
            follow: None,
        };
        proof {
            assert(bundle@ =~= dup_bundle(self@, e.idx as int));
        }
        Some(self.spawn(bundle))
    }

    /// Restore a world from a snapshot, replacing everything. A snapshot
    /// holding a component outside the coordinate bounds is rejected whole
    /// — the fatal load error the caller surfaces — exactly when some slot
    /// violates the bounds.
    #[verifier::loop_isolation(false)]
    pub fn from_slots(slots: Vec<SlotData>) -> (r: Result<World, WorldError>)
        ensures
            match r {
                Ok(w) => w.wf() && w@ == world_of_slots(
                    slots@.map_values(|s: SlotData| s@),
                ) && (forall|i: int|
                    0 <= i < slots@.len() ==> slot_data_wf((#[trigger] slots@[i])@)),
                Err(_) => exists|i: int|
                    0 <= i < slots@.len() && !slot_data_wf((#[trigger] slots@[i])@),
            },
    {
        let ghost views = slots@.map_values(|s: SlotData| s@);
        let n = slots.len();
        let mut remaining = slots;
        // Reverse into a scratch vector so each slot can be moved out in
        // input order.
        let mut rest: Vec<SlotData> = Vec::new();
        while remaining.len() > 0
            invariant
                remaining@.len() + rest@.len() == n,
                forall|j: int| 0 <= j < remaining@.len() ==> (#[trigger] remaining@[j])@ == views[j],
                forall|j: int| 0 <= j < rest@.len() ==> (#[trigger] rest@[j])@ == views[n - 1 - j],
            decreases remaining@.len(),
        {
            match remaining.pop() {
                Some(s) => {
                    rest.push(s);
                },
                None => {
                    proof {
                        assert(false);
                    }
                },
            }
        }
        let mut w = World::new();
        let mut k: usize = rest.len();
        while k > 0
            invariant
                0 <= k <= n,
                rest@.len() == k,
                forall|j: int| 0 <= j < k ==> (#[trigger] rest@[j])@ == views[n - 1 - j],
                w.wf(),
                w@.gens.len() == n - k,
                forall|j: int| 0 <= j < n - k ==> slot_data_wf(#[trigger] views[j]),
                forall|j: int|
                    0 <= j < n - k ==> w@.gens[j] == (#[trigger] views[j]).gen && w@.alive[j]
                        == views[j].alive && w@.positions[j] == views[j].position && w@.sprites[j]
                        == views[j].sprite && w@.collisions[j] == views[j].collision
                        && w@.animations[j] == views[j].animation && w@.interactables[j]
                        == views[j].interactable && w@.follows[j] == views[j].follow,
            decreases k,
        {
            let s = match rest.pop() {
                Some(s) => s,
                None => {
                    proof {
                        assert(false);
                    }
                    return Err(WorldError::ValueOutOfRange);
                },
            };
            k = k - 1;
            let ok = slot_data_bounds_ok(&s);
            if !ok {
                return Err(WorldError::ValueOutOfRange);
            }
            let ghost w0 = w@;
            let SlotData { gen, alive, position, sprite, collision, animation, interactable, follow } =
                s;
            w.gens.push(gen);
            w.alive.push(alive);
            w.positions.push(position);
            w.sprites.push(sprite);
            w.collisions.push(collision);
            w.animations.push(animation);
            w.interactables.push(interactable);
            w.follows.push(follow);
            proof {
                assert(w@.sprites =~= w0.sprites.push(sprite_opt_view(sprite)));
                assert(w@.animations =~= w0.animations.push(animation_opt_view(animation)));
                assert forall|j: int| 0 <= j < w@.gens.len() implies slot_wf(w@, j) by {
                    if j < w0.gens.len() {
                        assert(slot_wf(w0, j));
                    }
                }
            }
        }
        proof {
            assert(w@ =~= world_of_slots(views));
            assert forall|i: int| 0 <= i < slots@.len() implies slot_data_wf(
                (#[trigger] slots@[i])@,
            ) by {
                assert(views[i] == slots@[i]@);
            }
        }
        Ok(w)
    }
}

/// All of one snapshot slot's components lie inside the coordinate bounds.
fn slot_data_bounds_ok(s: &SlotData) -> (r: bool)
    ensures
        r == slot_data_wf(s@),
{
    let pos_ok = match s.position {
        Some(p) => -COORD_LIMIT <= p.x && p.x <= COORD_LIMIT && -COORD_LIMIT <= p.y && p.y
            <= COORD_LIMIT,
        None => true,
    };
    let sprite_ok = match s.sprite.as_ref() {
        Some(v) => {
            let off_ok = -OFFSET_LIMIT <= v.offset.x && v.offset.x <= OFFSET_LIMIT && -OFFSET_LIMIT
                <= v.offset.y && v.offset.y <= OFFSET_LIMIT;
            let src_ok = match v.source {
                Some(rc) => -RECT_LIMIT <= rc.x && rc.x <= RECT_LIMIT && -RECT_LIMIT <= rc.y && rc.y
                    <= RECT_LIMIT && 0 <= rc.w && rc.w <= RECT_LIMIT && 0 <= rc.h && rc.h
                    <= RECT_LIMIT,
                None => true,
            };
            off_ok && src_ok
        },
        None => true,
    };
    let col_ok = match s.collision {
        Some(c) => -RECT_LIMIT <= c.bounds.x && c.bounds.x <= RECT_LIMIT && -RECT_LIMIT
            <= c.bounds.y && c.bounds.y <= RECT_LIMIT && 0 <= c.bounds.w && c.bounds.w <= RECT_LIMIT
            && 0 <= c.bounds.h && c.bounds.h <= RECT_LIMIT,
        None => true,
    };
    let anim_ok = match s.animation.as_ref() {
        Some(a) => -RECT_LIMIT <= a.offset.x && a.offset.x <= RECT_LIMIT && -RECT_LIMIT
            <= a.offset.y && a.offset.y <= RECT_LIMIT,
        None => true,
    };
    let int_ok = match s.interactable {
        Some(x) => -RECT_LIMIT <= x.bounds.x && x.bounds.x <= RECT_LIMIT && -RECT_LIMIT
            <= x.bounds.y && x.bounds.y <= RECT_LIMIT && 0 <= x.bounds.w && x.bounds.w <= RECT_LIMIT
            && 0 <= x.bounds.h && x.bounds.h <= RECT_LIMIT,
        None => true,
    };
    let fol_ok = match s.follow {
        Some(f) => 0 <= f.max_distance && f.max_distance <= RECT_LIMIT && 0 <= f.speed && f.speed
            <= RECT_LIMIT,
        None => true,
    };
    pos_ok && sprite_ok && col_ok && anim_ok && int_ok && fol_ok
}

} // verus!
