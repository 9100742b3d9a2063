use overworld::assets::{AnimatedSpriteId, Assets, TextureId};
use overworld::dialogue::WaitingFor;
use overworld::game::{Game, GhostClass, PlayerClass};
use overworld::geom::{Rect, Vec2i};
use overworld::input::InputState;
use overworld::script::{RunStatus, ScriptError, WaitKind};
use overworld::world::{Entity, EntityBundle, FollowComponent, Interactable, InteractableType};

fn game_assets() -> Assets {
    Assets::new(TextureId::from_name("concept"), AnimatedSpriteId(0))
}

fn idle() -> InputState {
    InputState::none()
}

fn press_confirm() -> InputState {
    InputState { confirm_pressed: true, ..InputState::none() }
}

/// A trigger whose bounds contain the player's starting position (320, 180).
fn trigger_at_player(kind: InteractableType, priority: i64) -> EntityBundle {
    EntityBundle {
        position: Some(Vec2i { x: 300, y: 160 }),
        interactable: Some(Interactable {
            bounds: Rect { x: 0, y: 0, w: 60, h: 60 },
            interaction: kind,
            priority,
        }),
        ..EntityBundle::default()
    }
}

/// Step frames until the held script run finishes, confirming whenever the
/// box waits for a confirm or a choice (always picking the highlighted
/// first entry) and idling through reveals and auto-advances.
fn drive_to_completion(game: &mut Game, assets: &Assets) {
    for _ in 0..10000 {
        match game.script_status() {
            None => return,
            Some(RunStatus::Waiting(WaitKind::Confirm)) => game.update(assets, &press_confirm()),
            Some(RunStatus::Waiting(WaitKind::Choice)) => game.update(assets, &press_confirm()),
            _ => game.update(assets, &idle()),
        }
    }
    panic!("script did not finish");
}

#[test]
fn new_game_starts_quiet() {
    let assets = game_assets();
    let game = Game::new(&assets);
    assert!(!game.dialogue.shown());
    assert!(game.script_status().is_none());
    assert_eq!(game.info.player_class, None);
    assert_eq!(game.overworld.player, Entity { idx: 3, gen: 0 });
}

#[test]
fn interacting_with_lamp_opens_its_dialogue() {
    let assets = game_assets();
    let mut game = Game::new(&assets);
    game.overworld.world.spawn(trigger_at_player(InteractableType::Lamp, 5));
    game.update(&assets, &press_confirm());
    assert!(game.dialogue.shown());
    assert_eq!(game.dialogue.waiting(), WaitingFor::Confirm);
    assert_eq!(game.script_status(), Some(RunStatus::Waiting(WaitKind::Confirm)));
    // Reveal a few characters: the first lamp line appears.
    for _ in 0..12 {
        game.update(&assets, &idle());
    }
    assert_eq!(game.dialogue.revealed(), "IT'S A LAMP.");
    // Confirm twice: second line, then the dialogue closes and the script
    // run is retired.
    game.update(&assets, &press_confirm());
    assert!(game.dialogue.shown());
    game.update(&assets, &press_confirm());
    assert!(!game.dialogue.shown());
    assert!(game.script_status().is_none());
}

#[test]
fn input_is_suppressed_while_dialogue_is_shown() {
    let assets = game_assets();
    let mut game = Game::new(&assets);
    game.overworld.world.spawn(trigger_at_player(InteractableType::Lamp, 5));
    game.update(&assets, &press_confirm());
    assert!(game.dialogue.shown());
    let before = game.overworld.world.get_position(game.overworld.player).unwrap();
    let walk = InputState { right_held: true, ..InputState::none() };
    game.update(&assets, &walk);
    let after = game.overworld.world.get_position(game.overworld.player).unwrap();
    assert_eq!(before, after);
}

#[test]
fn force_ending_cancels_the_waiting_script() {
    let assets = game_assets();
    let mut game = Game::new(&assets);
    let lamp = game.overworld.world.spawn(trigger_at_player(InteractableType::Lamp, 5));
    game.update(&assets, &press_confirm());
    assert_eq!(game.script_status(), Some(RunStatus::Waiting(WaitKind::Confirm)));
    let info_before = game.info;
    // Force-end while the script awaits its confirm signal: it fails with
    // the cancellation error and the box closes at once.
    game.end_dialogue();
    assert!(!game.dialogue.shown());
    assert_eq!(game.script_status(), Some(RunStatus::Failed(ScriptError::Cancelled)));
    // Remove the trigger so a later press cannot start a fresh dialogue.
    game.overworld.world.despawn(lamp);
    // A confirm press afterwards resumes nothing: the failed run is
    // discarded untouched, the box stays closed, nothing was mutated.
    game.update(&assets, &press_confirm());
    assert!(game.script_status().is_none());
    assert!(!game.dialogue.shown());
    assert_eq!(game.info, info_before);
    game.update(&assets, &press_confirm());
    assert!(!game.dialogue.shown());
}

#[test]
fn meeting_script_sets_personas_and_attaches_follower() {
    let assets = game_assets();
    let mut game = Game::new(&assets);
    let ghost = game.overworld.world.spawn(trigger_at_player(InteractableType::Companion, 5));
    game.update(&assets, &press_confirm());
    assert!(game.dialogue.shown());
    drive_to_completion(&mut game, &assets);
    // Always picking the first choice: the player becomes a witch, the
    // companion a ghost.
    assert_eq!(game.info.player_class, Some(PlayerClass::Witch));
    assert_eq!(game.info.ghost_class, Some(GhostClass::Spirit));
    assert!(!game.dialogue.shown());
    // The companion now follows the player.
    assert_eq!(
        game.overworld.world.get_follow(ghost),
        Some(FollowComponent { target: game.overworld.player, max_distance: 64, speed: 1 })
    );
}

#[test]
fn returning_conversation_runs_once_personas_exist() {
    let assets = game_assets();
    let mut game = Game::new(&assets);
    let _ghost = game.overworld.world.spawn(trigger_at_player(InteractableType::Companion, 5));
    game.update(&assets, &press_confirm());
    drive_to_completion(&mut game, &assets);
    // Interact again: with a companion persona recorded, the returning
    // conversation runs; picking the first entry closes it.
    game.update(&assets, &press_confirm());
    assert!(game.dialogue.shown());
    drive_to_completion(&mut game, &assets);
    assert!(!game.dialogue.shown());
    assert_eq!(game.info.player_class, Some(PlayerClass::Witch));
}

#[test]
fn show_text_api_sets_confirm_continuation() {
    let assets = game_assets();
    let mut game = Game::new(&assets);
    game.show_text("HELLO".to_string());
    assert!(game.dialogue.shown());
    assert_eq!(game.dialogue.waiting(), WaitingFor::Confirm);
    game.show_text_auto("AUTO".to_string());
    assert_eq!(game.dialogue.waiting(), WaitingFor::Auto);
    game.show_choice(vec!["A".to_string(), "B".to_string()]);
    assert_eq!(game.dialogue.waiting(), WaitingFor::Choice);
    assert_eq!(game.dialogue.choice_count(), 2);
    game.end_dialogue();
    assert!(!game.dialogue.shown());
    assert_eq!(game.dialogue.choice_count(), 0);
}

#[test]
fn player_class_texts_match_persona() {
    assert_eq!(PlayerClass::Witch.name(), "WITCH");
    assert_eq!(PlayerClass::Princess.name(), "PRINCESS");
    assert_eq!(PlayerClass::Knight.ghost_title(), "MY LADY");
    assert_eq!(GhostClass::Spirit.name(), "GHOST");
    assert_eq!(GhostClass::Goblin.affectation(), "NYEHEHEH");
    assert_eq!(GhostClass::Dwarf.affectation(), "AYE");
}

#[test]
fn walking_moves_player_one_pixel_per_tick() {
    let assets = game_assets();
    let mut game = Game::new(&assets);
    let start = game.overworld.world.get_position(game.overworld.player).unwrap();
    let walk = InputState { right_held: true, down_held: true, ..InputState::none() };
    game.update(&assets, &walk);
    let after = game.overworld.world.get_position(game.overworld.player).unwrap();
    assert_eq!(after, Vec2i { x: start.x + 1, y: start.y + 1 });
}

#[test]
fn firebolt_lesson_runs_and_returns_to_menu() {
    let assets = game_assets();
    let mut game = Game::new(&assets);
    let _ghost = game.overworld.world.spawn(trigger_at_player(InteractableType::Companion, 5));
    // First meeting: both personas get chosen.
    game.update(&assets, &press_confirm());
    drive_to_completion(&mut game, &assets);
    // Talk again and navigate the menu down twice, onto "FIREBOLT".
    game.update(&assets, &press_confirm());
    for _ in 0..200 {
        if game.script_status() == Some(RunStatus::Waiting(WaitKind::Choice)) {
            break;
        }
        game.update(&assets, &idle());
    }
    assert_eq!(game.script_status(), Some(RunStatus::Waiting(WaitKind::Choice)));
    assert_eq!(game.dialogue.choice_count(), 3);
    let menu_down = InputState { down_pressed: true, ..InputState::none() };
    game.update(&assets, &menu_down);
    game.update(&assets, &menu_down);
    assert_eq!(game.dialogue.current_choice(), 2);
    // Confirm into the lesson, then confirm through it (first entry each
    // time: very strong, lots of mana, yes) and out via "NOTHING".
    drive_to_completion(&mut game, &assets);
    assert!(!game.dialogue.shown());
    assert!(game.script_status().is_none());
    // The personas survive the whole conversation.
    assert_eq!(game.info.player_class, Some(PlayerClass::Witch));
    assert_eq!(game.info.ghost_class, Some(GhostClass::Spirit));
}
