use overworld::assets::{AnimatedSpriteId, Assets, TextureEntry, TextureId};
use overworld::geom::{Rect, Vec2i};
use overworld::overworld::Overworld;
use overworld::world::{EntityBundle, SpriteComponent};

fn bare_assets() -> Assets {
    Assets::new(TextureId::from_name("concept"), AnimatedSpriteId(0))
}

fn sprited(x: i64, y: i64, layer: i64) -> EntityBundle {
    EntityBundle {
        position: Some(Vec2i { x, y }),
        sprite: Some(SpriteComponent { layer, ..SpriteComponent::default() }),
        ..EntityBundle::default()
    }
}

#[test]
fn draw_order_sorts_by_layer_then_y_then_slot() {
    let assets = bare_assets();
    let mut ow = Overworld::new(&assets);
    // The opening world: slots 0..=2 on layer -1 at y 0, the player (slot
    // 3) on layer 0 at y 180 — drawn in slot order, player last.
    let order: Vec<usize> = ow.draw_order().iter().map(|e| e.idx).collect();
    assert_eq!(order, vec![0, 1, 2, 3]);
    // A backdrop higher up (smaller y) on the same layer is drawn before
    // its layer peers; a higher layer goes last.
    let behind = ow.world.spawn(sprited(0, -50, -1));
    let front = ow.world.spawn(sprited(0, 0, 7));
    let order: Vec<usize> = ow.draw_order().iter().map(|e| e.idx).collect();
    assert_eq!(order, vec![behind.idx, 0, 1, 2, 3, front.idx]);
}

#[test]
fn draw_order_is_stable_for_equal_keys() {
    let assets = bare_assets();
    let mut ow = Overworld::new(&assets);
    // Three entities sharing layer and y keep their slot order.
    let a = ow.world.spawn(sprited(10, 5, 2));
    let b = ow.world.spawn(sprited(20, 5, 2));
    let c = ow.world.spawn(sprited(30, 5, 2));
    let order: Vec<usize> = ow.draw_order().iter().map(|e| e.idx).collect();
    let tail: Vec<usize> = order[order.len() - 3..].to_vec();
    assert_eq!(tail, vec![a.idx, b.idx, c.idx]);
}

#[test]
fn draw_order_skips_undrawable_slots() {
    let assets = bare_assets();
    let mut ow = Overworld::new(&assets);
    let bare = ow.world.spawn(EntityBundle {
        position: Some(Vec2i { x: 0, y: 0 }),
        ..EntityBundle::default()
    });
    let order: Vec<usize> = ow.draw_order().iter().map(|e| e.idx).collect();
    assert!(!order.contains(&bare.idx));
}

#[test]
fn sprite_bounds_come_from_source_or_texture() {
    let mut assets = bare_assets();
    assets.add_texture(TextureEntry { name: "concept".to_string(), size: Vec2i { x: 40, y: 30 } });
    let with_source = SpriteComponent {
        source: Some(Rect { x: 5, y: 5, w: 12, h: 8 }),
        ..SpriteComponent::default()
    };
    assert_eq!(with_source.size(&assets), Some(Vec2i { x: 12, y: 8 }));
    let named = SpriteComponent {
        texture: TextureId::from_name("concept"),
        ..SpriteComponent::default()
    };
    assert_eq!(named.size(&assets), Some(Vec2i { x: 40, y: 30 }));
    assert_eq!(named.bounds(&assets), Some(Rect { x: 0, y: 0, w: 40, h: 30 }));
    let unknown = SpriteComponent::default();
    assert_eq!(unknown.size(&assets), None);
    // A centered sprite is pulled back by half its size.
    let centered = SpriteComponent {
        texture: TextureId::from_name("concept"),
        centered: true,
        ..SpriteComponent::default()
    };
    assert_eq!(centered.offset(&assets), Some(Vec2i { x: -20, y: -15 }));
}

#[test]
fn cursor_hit_test_picks_topmost_entity() {
    let mut assets = bare_assets();
    assets.add_texture(TextureEntry { name: "concept".to_string(), size: Vec2i { x: 100, y: 100 } });
    let mut ow = Overworld::new(&assets);
    // Slot 0 (the concept backdrop at (0,0)) covers the cursor once its
    // texture size is known; the other starting slots have unknown
    // textures and cannot be hit.
    let hit = ow.query_cursor_pos(&assets, Vec2i { x: 50, y: 50 });
    let (e, off) = hit.expect("backdrop is under the cursor");
    assert_eq!(e.idx, 0);
    assert_eq!(off, Vec2i { x: -50, y: -50 });
    // A later slot with the same layer and y wins the tie: drawn later,
    // so hit first.
    let top = ow.world.spawn(EntityBundle {
        position: Some(Vec2i { x: 40, y: 0 }),
        sprite: Some(SpriteComponent {
            texture: TextureId::from_name("concept"),
            layer: -1,
            ..SpriteComponent::default()
        }),
        ..EntityBundle::default()
    });
    let (e, _off) = ow.query_cursor_pos(&assets, Vec2i { x: 50, y: 50 }).unwrap();
    assert_eq!(e, top);
    // Nothing under a far-away cursor.
    assert!(ow.query_cursor_pos(&assets, Vec2i { x: 5000, y: 5000 }).is_none());
}
