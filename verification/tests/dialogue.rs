use overworld::dialogue::{Dialogue, Signal, WaitingFor};
use overworld::input::InputState;

fn none() -> InputState {
    InputState::none()
}

fn confirm() -> InputState {
    InputState { confirm_pressed: true, ..InputState::none() }
}

fn up() -> InputState {
    InputState { up_pressed: true, ..InputState::none() }
}

fn down() -> InputState {
    InputState { down_pressed: true, ..InputState::none() }
}

#[test]
fn reveal_advances_one_character_per_tick() {
    let mut d = Dialogue::default();
    d.set_text("ABCDE".to_string());
    assert!(d.shown());
    for _ in 0..3 {
        d.update(&none());
    }
    assert_eq!(d.revealed(), "ABC");
    assert_eq!(d.revealed_len(), 3);
    for _ in 0..4 {
        d.update(&none());
    }
    // Growth past the text length is harmless: the display stays clamped.
    assert_eq!(d.revealed(), "ABCDE");
    assert_eq!(d.revealed_len(), 5);
}

#[test]
fn auto_fires_the_tick_reveal_reaches_length() {
    let mut d = Dialogue::default();
    d.set_text("AB".to_string());
    d.set_waiting(WaitingFor::Auto);
    assert_eq!(d.update(&none()), None);
    // Reveal reaches the length on this tick: the auto-advance fires now,
    // unconditionally, and only once.
    assert_eq!(d.update(&none()), Some(Signal::Auto));
    assert_eq!(d.waiting(), WaitingFor::Nothing);
    assert_eq!(d.update(&none()), None);
}

#[test]
fn auto_on_empty_text_fires_immediately() {
    let mut d = Dialogue::default();
    d.set_text(String::new());
    d.set_waiting(WaitingFor::Auto);
    assert_eq!(d.update(&none()), Some(Signal::Auto));
}

#[test]
fn confirm_fires_only_on_confirm_press() {
    let mut d = Dialogue::default();
    d.set_text("HELLO".to_string());
    d.set_waiting(WaitingFor::Confirm);
    for _ in 0..10 {
        assert_eq!(d.update(&none()), None);
    }
    assert_eq!(d.update(&confirm()), Some(Signal::Confirm));
    assert_eq!(d.waiting(), WaitingFor::Nothing);
    // A second press has no continuation left to fire.
    assert_eq!(d.update(&confirm()), None);
}

#[test]
fn choice_up_wraps_to_last() {
    let mut d = Dialogue::default();
    d.show_choices(vec!["A".to_string(), "B".to_string(), "C".to_string()]);
    assert_eq!(d.current_choice(), 0);
    d.update(&up());
    assert_eq!(d.current_choice(), 2);
}

#[test]
fn choice_down_wraps_to_first() {
    let mut d = Dialogue::default();
    d.show_choices(vec!["A".to_string(), "B".to_string(), "C".to_string()]);
    d.update(&up());
    assert_eq!(d.current_choice(), 2);
    d.update(&down());
    assert_eq!(d.current_choice(), 0);
}

#[test]
fn choice_navigation_moves_one_entry() {
    let mut d = Dialogue::default();
    d.show_choices(vec!["A".to_string(), "B".to_string(), "C".to_string()]);
    d.update(&down());
    assert_eq!(d.current_choice(), 1);
    d.update(&down());
    assert_eq!(d.current_choice(), 2);
    d.update(&up());
    assert_eq!(d.current_choice(), 1);
}

#[test]
fn choice_resolves_with_highlighted_index_and_drops_list() {
    let mut d = Dialogue::default();
    d.set_text("PICK".to_string());
    d.show_choices(vec!["A".to_string(), "B".to_string(), "C".to_string()]);
    d.update(&down());
    assert_eq!(d.update(&confirm()), Some(Signal::Choice(1)));
    assert_eq!(d.choice_count(), 0);
    assert_eq!(d.waiting(), WaitingFor::Nothing);
}

#[test]
fn set_text_restarts_reveal() {
    let mut d = Dialogue::default();
    d.set_text("FIRST".to_string());
    for _ in 0..5 {
        d.update(&none());
    }
    d.set_text("SECOND".to_string());
    assert_eq!(d.revealed(), "");
    d.update(&none());
    assert_eq!(d.revealed(), "S");
}

#[test]
fn clear_drops_every_field() {
    let mut d = Dialogue::default();
    d.set_text("HELLO".to_string());
    d.show_choices(vec!["A".to_string(), "B".to_string()]);
    d.update(&none());
    d.clear();
    assert!(!d.shown());
    assert_eq!(d.waiting(), WaitingFor::Nothing);
    assert_eq!(d.choice_count(), 0);
    assert_eq!(d.current_choice(), 0);
    assert_eq!(d.revealed(), "");
}
