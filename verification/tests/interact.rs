use overworld::assets::{AnimatedSpriteId, Assets, TextureId};
use overworld::geom::{Rect, Vec2i};
use overworld::input::InputState;
use overworld::interact::Event;
use overworld::overworld::Overworld;
use overworld::world::{EntityBundle, Interactable, InteractableType, World};

fn trigger(x: i64, y: i64, priority: i64, kind: InteractableType) -> EntityBundle {
    EntityBundle {
        position: Some(Vec2i { x, y }),
        interactable: Some(Interactable {
            bounds: Rect { x: 0, y: 0, w: 100, h: 100 },
            interaction: kind,
            priority,
        }),
        ..EntityBundle::default()
    }
}

fn actor_at(x: i64, y: i64) -> EntityBundle {
    EntityBundle { position: Some(Vec2i { x, y }), ..EntityBundle::default() }
}

#[test]
fn highest_priority_trigger_wins() {
    // Two triggers both contain the actor; the priority-5 one takes the
    // event, the priority-1 one is never reported.
    let mut w = World::new();
    let actor = w.spawn(actor_at(50, 50));
    let low = w.spawn(trigger(0, 0, 1, InteractableType::Lamp));
    let high = w.spawn(trigger(10, 10, 5, InteractableType::Companion));
    let mut events: Vec<Event> = Vec::new();
    w.interact(actor, &mut events);
    assert_eq!(events.len(), 1);
    match events[0] {
        Event::Interaction { entity, interaction } => {
            assert_eq!(entity, high);
            assert_ne!(entity, low);
            assert_eq!(interaction, InteractableType::Companion);
        }
    }
}

#[test]
fn no_containing_trigger_means_no_event() {
    let mut w = World::new();
    let actor = w.spawn(actor_at(500, 500));
    let _t = w.spawn(trigger(0, 0, 5, InteractableType::Lamp));
    let mut events: Vec<Event> = Vec::new();
    w.interact(actor, &mut events);
    assert!(events.is_empty());
}

#[test]
fn equal_priority_tie_goes_to_higher_slot() {
    let mut w = World::new();
    let actor = w.spawn(actor_at(50, 50));
    let _first = w.spawn(trigger(0, 0, 3, InteractableType::Lamp));
    let second = w.spawn(trigger(10, 10, 3, InteractableType::Companion));
    let mut events: Vec<Event> = Vec::new();
    w.interact(actor, &mut events);
    assert_eq!(events.len(), 1);
    match events[0] {
        Event::Interaction { entity, .. } => assert_eq!(entity, second),
    }
}

#[test]
fn actor_without_position_emits_nothing() {
    let mut w = World::new();
    let actor = w.spawn(EntityBundle::default());
    let _t = w.spawn(trigger(0, 0, 5, InteractableType::Lamp));
    let mut events: Vec<Event> = Vec::new();
    w.interact(actor, &mut events);
    assert!(events.is_empty());
}

#[test]
fn trigger_bounds_are_offset_by_its_position() {
    let mut w = World::new();
    let actor = w.spawn(actor_at(150, 150));
    // Bounds [0,100]^2 offset by position (100,100) contain (150,150).
    let t = w.spawn(trigger(100, 100, 1, InteractableType::Lamp));
    let mut events: Vec<Event> = Vec::new();
    w.interact(actor, &mut events);
    assert_eq!(events.len(), 1);
    match events[0] {
        Event::Interaction { entity, .. } => assert_eq!(entity, t),
    }
}

#[test]
fn interact_action_reports_only_the_priority_five_entity() {
    // End to end through the world tick: two triggers contain the player's
    // position; the interact press emits one event, for the priority-5
    // entity only.
    let assets = Assets::new(TextureId::from_name("concept"), AnimatedSpriteId(0));
    let mut ow = Overworld::new(&assets);
    let around_player = Interactable {
        bounds: Rect { x: 0, y: 0, w: 60, h: 60 },
        interaction: InteractableType::Lamp,
        priority: 1,
    };
    let _low = ow.world.spawn(EntityBundle {
        position: Some(Vec2i { x: 300, y: 160 }),
        interactable: Some(around_player),
        ..EntityBundle::default()
    });
    let high = ow.world.spawn(EntityBundle {
        position: Some(Vec2i { x: 310, y: 170 }),
        interactable: Some(Interactable { priority: 5, ..around_player }),
        ..EntityBundle::default()
    });
    let mut events: Vec<Event> = Vec::new();
    let press = InputState { confirm_pressed: true, ..InputState::none() };
    ow.update(&assets, &press, &mut events, true);
    assert_eq!(events.len(), 1);
    match events[0] {
        Event::Interaction { entity, interaction } => {
            assert_eq!(entity, high);
            assert_eq!(interaction, InteractableType::Lamp);
        }
    }
}
