use overworld::assets::{
    AnimatedSprite, AnimatedSpriteId, AnimationTrack, Assets, Frame, SheetFrame, SheetTag,
    SpriteSheet, SpritesheetImportError, TextureId,
};
use overworld::geom::{Rect, Vec2i};
use overworld::ustr::ustr;
use overworld::world::{AnimationComponent, EntityBundle, SpriteComponent, World};

fn frame(x: i64) -> Frame {
    Frame {
        src: Rect { x, y: 0, w: 16, h: 16 },
        offset: Vec2i { x, y: 0 },
        source_size: Vec2i { x: 16, y: 16 },
    }
}

fn sprite_assets() -> Assets {
    let sprite = AnimatedSprite::new(
        "sheet.png".to_string(),
        Vec2i { x: 64, y: 16 },
        vec![frame(0), frame(16), frame(32)],
        vec![AnimationTrack { name: "Walk".to_string(), frame_ids: vec![0, 1, 2] }],
    )
    .expect("tables are well formed");
    let mut assets = Assets::new(TextureId::from_name("concept"), AnimatedSpriteId(0));
    assets.add_sprite(sprite);
    assets
}

fn animated_entity(assets_id: usize, animation: &str) -> EntityBundle {
    EntityBundle {
        position: Some(Vec2i { x: 0, y: 0 }),
        sprite: Some(SpriteComponent::default()),
        animation: Some(AnimationComponent {
            id: AnimatedSpriteId(assets_id),
            animation: ustr(animation),
            frame: 0,
            offset: Vec2i { x: 0, y: 0 },
        }),
        ..EntityBundle::default()
    }
}

#[test]
fn frame_counter_wraps_at_length() {
    // Length 3: ticking L + 1 = 4 times gives 1, 2, 0, 1 — the counter is
    // tick_count mod 3, returning to 0 exactly once per cycle.
    let assets = sprite_assets();
    let mut w = World::new();
    let e = w.spawn(animated_entity(0, "Walk"));
    let expected = [1usize, 2, 0, 1];
    for want in expected {
        w.tick_animations(&assets);
        assert_eq!(w.get_animation(e).unwrap().frame, want);
    }
}

#[test]
fn zero_length_animation_stays_at_frame_zero() {
    // An unknown animation name has table length 0: the counter is pinned.
    let assets = sprite_assets();
    let mut w = World::new();
    let e = w.spawn(animated_entity(0, "Missing"));
    for _ in 0..5 {
        w.tick_animations(&assets);
        assert_eq!(w.get_animation(e).unwrap().frame, 0);
    }
}

#[test]
fn ticker_overwrites_sprite_from_frame_metadata() {
    let assets = sprite_assets();
    let mut w = World::new();
    let mut bundle = animated_entity(0, "Walk");
    if let Some(a) = &mut bundle.animation {
        a.offset = Vec2i { x: 5, y: 7 };
    }
    let e = w.spawn(bundle);
    w.tick_animations(&assets);
    // After one tick the counter is 1, so frame 1's metadata drives the
    // sprite: source rect at x = 16, offset 16 + 5.
    let s = w.get_sprite(e).unwrap();
    assert_eq!(s.source, Some(Rect { x: 16, y: 0, w: 16, h: 16 }));
    assert_eq!(s.offset, Vec2i { x: 21, y: 7 });
}

#[test]
fn centered_sprite_gets_half_difference_correction() {
    let sprite = AnimatedSprite::new(
        "sheet.png".to_string(),
        Vec2i { x: 64, y: 16 },
        vec![Frame {
            src: Rect { x: 0, y: 0, w: 20, h: 16 },
            offset: Vec2i { x: 0, y: 0 },
            source_size: Vec2i { x: 16, y: 10 },
        }],
        vec![AnimationTrack { name: "Walk".to_string(), frame_ids: vec![0] }],
    )
    .expect("tables are well formed");
    let mut assets = Assets::new(TextureId::from_name("concept"), AnimatedSpriteId(0));
    assets.add_sprite(sprite);
    let mut w = World::new();
    let mut bundle = animated_entity(0, "Walk");
    if let Some(s) = &mut bundle.sprite {
        s.centered = true;
    }
    let e = w.spawn(bundle);
    w.tick_animations(&assets);
    // (src.w - source_size.x) / 2 == 2 and (src.h - source_size.y) / 2 == 3.
    let s = w.get_sprite(e).unwrap();
    assert_eq!(s.offset, Vec2i { x: 2, y: 3 });
}

#[test]
fn unknown_name_falls_back_to_first_frame() {
    let assets = sprite_assets();
    let sprite = assets.get_sprite(AnimatedSpriteId(0)).unwrap();
    let f = sprite.get_anim_frame(&"Nope".to_string(), 7);
    assert_eq!(f.src.x, 0);
    assert_eq!(sprite.get_anim_length(&"Nope".to_string()), 0);
}

#[test]
fn out_of_range_tick_falls_back_to_first_frame() {
    let assets = sprite_assets();
    let sprite = assets.get_sprite(AnimatedSpriteId(0)).unwrap();
    let f = sprite.get_anim_frame(&"Walk".to_string(), 99);
    assert_eq!(f.src.x, 0);
    assert_eq!(sprite.get_anim_length(&"Walk".to_string()), 3);
}

fn sheet_frame(duration_ms: u32) -> SheetFrame {
    SheetFrame {
        frame: Rect { x: 0, y: 0, w: 16, h: 16 },
        sprite_source_size: Rect { x: 1, y: 2, w: 16, h: 16 },
        source_size: Vec2i { x: 16, y: 16 },
        duration_ms,
    }
}

#[test]
fn sheet_conversion_expands_at_nominal_rate() {
    // A 100 ms frame at 60 frames per second expands into
    // round(100 * 60 / 1000) = 6 table entries.
    let sheet = SpriteSheet {
        frames: vec![sheet_frame(100), sheet_frame(50)],
        tags: vec![SheetTag { name: "Walk".to_string(), from: 0, to: 1 }],
        image: "sheet.png".to_string(),
        image_size: Vec2i { x: 32, y: 16 },
    };
    let sprite = sheet.convert().expect("sheet is well formed");
    // 50 ms expands into round(3.5) = 3 entries (half rounds up).
    assert_eq!(sprite.get_anim_length(&"Walk".to_string()), 9);
    let f = sprite.get_anim_frame(&"Walk".to_string(), 0);
    assert_eq!(f.offset, Vec2i { x: 1, y: 2 });
    assert_eq!(sprite.get_anim_frame(&"Walk".to_string(), 6).src, sheet_frame(50).frame);
    assert_eq!(sprite.get_image_filename(), "sheet.png");
}

#[test]
fn sheet_without_frames_is_rejected() {
    let sheet = SpriteSheet {
        frames: vec![],
        tags: vec![],
        image: "sheet.png".to_string(),
        image_size: Vec2i { x: 32, y: 16 },
    };
    assert_eq!(sheet.convert().err(), Some(SpritesheetImportError::NoFrames));
}

#[test]
fn tag_past_frame_list_is_rejected() {
    let sheet = SpriteSheet {
        frames: vec![sheet_frame(100)],
        tags: vec![SheetTag { name: "Walk".to_string(), from: 0, to: 5 }],
        image: "sheet.png".to_string(),
        image_size: Vec2i { x: 32, y: 16 },
    };
    assert_eq!(sheet.convert().err(), Some(SpritesheetImportError::FrameOutOfRange));
}

#[test]
fn duplicate_animation_names_are_rejected() {
    let sprite = AnimatedSprite::new(
        "sheet.png".to_string(),
        Vec2i { x: 64, y: 16 },
        vec![frame(0)],
        vec![
            AnimationTrack { name: "Walk".to_string(), frame_ids: vec![0] },
            AnimationTrack { name: "Walk".to_string(), frame_ids: vec![0] },
        ],
    );
    assert_eq!(sprite.err(), Some(SpritesheetImportError::DuplicateAnimation));
}

#[test]
fn track_entry_past_frames_is_rejected() {
    let sprite = AnimatedSprite::new(
        "sheet.png".to_string(),
        Vec2i { x: 64, y: 16 },
        vec![frame(0)],
        vec![AnimationTrack { name: "Walk".to_string(), frame_ids: vec![3] }],
    );
    assert_eq!(sprite.err(), Some(SpritesheetImportError::FrameOutOfRange));
}

#[test]
fn overlong_frame_duration_is_rejected() {
    let sheet = SpriteSheet {
        frames: vec![sheet_frame(1000000)],
        tags: vec![SheetTag { name: "Walk".to_string(), from: 0, to: 0 }],
        image: "sheet.png".to_string(),
        image_size: Vec2i { x: 32, y: 16 },
    };
    assert_eq!(sheet.convert().err(), Some(SpritesheetImportError::ValueOutOfRange));
}

#[test]
fn absurd_frame_metadata_is_rejected() {
    let sprite = AnimatedSprite::new(
        "sheet.png".to_string(),
        Vec2i { x: 64, y: 16 },
        vec![Frame {
            src: Rect { x: i64::MAX / 2, y: 0, w: 16, h: 16 },
            offset: Vec2i { x: 0, y: 0 },
            source_size: Vec2i { x: 16, y: 16 },
        }],
        vec![],
    );
    assert_eq!(sprite.err(), Some(SpritesheetImportError::ValueOutOfRange));
}
