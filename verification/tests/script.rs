use overworld::dialogue::{Dialogue, Signal, WaitingFor};
use overworld::game::{Info, PlayerClass, TextPiece};
use overworld::script::{Node, RunStatus, ScriptError, ScriptRunner, WaitKind};
use overworld::world::{Entity, EntityBundle, World};

fn plain_line(s: &str) -> Node {
    Node::Line { text: vec![TextPiece::Lit(s.to_string())], auto: false }
}

fn runner_env() -> (Dialogue, Info, World, Entity) {
    let mut world = World::new();
    let player = world.spawn(EntityBundle::default());
    (Dialogue::default(), Info::default(), world, player)
}

#[test]
fn runner_suspends_at_first_line() {
    let (mut d, mut info, mut w, player) = runner_env();
    let mut r = ScriptRunner::new(vec![plain_line("HI"), Node::EndDialogue]);
    assert_eq!(r.status(), RunStatus::Ready);
    r.advance(&mut d, &mut info, &mut w, player);
    assert_eq!(r.status(), RunStatus::Waiting(WaitKind::Confirm));
    assert!(d.shown());
    assert_eq!(d.waiting(), WaitingFor::Confirm);
}

#[test]
fn runner_finishes_after_delivery() {
    let (mut d, mut info, mut w, player) = runner_env();
    let mut r = ScriptRunner::new(vec![plain_line("HI"), Node::EndDialogue]);
    r.advance(&mut d, &mut info, &mut w, player);
    // The engine fires the confirm signal; delivering it runs the script
    // to its end, which closes the box.
    d.set_waiting(WaitingFor::Nothing);
    r.resume(Signal::Confirm, &mut d, &mut info, &mut w, player);
    assert_eq!(r.status(), RunStatus::Done);
    assert!(!d.shown());
}

#[test]
fn cancelled_runner_ignores_later_signals() {
    let (mut d, mut info, mut w, player) = runner_env();
    let mut r = ScriptRunner::new(vec![plain_line("HI"), plain_line("BYE"), Node::EndDialogue]);
    r.advance(&mut d, &mut info, &mut w, player);
    assert_eq!(r.status(), RunStatus::Waiting(WaitKind::Confirm));
    r.cancel();
    assert_eq!(r.status(), RunStatus::Failed(ScriptError::Cancelled));
    // Delivering the signal it once waited on changes nothing: the failed
    // run never executes another step.
    let shown_before = d.shown();
    r.resume(Signal::Confirm, &mut d, &mut info, &mut w, player);
    assert_eq!(r.status(), RunStatus::Failed(ScriptError::Cancelled));
    assert_eq!(d.shown(), shown_before);
}

#[test]
fn cancel_keeps_a_finished_outcome() {
    let (mut d, mut info, mut w, player) = runner_env();
    let mut r = ScriptRunner::new(vec![Node::EndDialogue]);
    r.advance(&mut d, &mut info, &mut w, player);
    assert_eq!(r.status(), RunStatus::Done);
    r.cancel();
    assert_eq!(r.status(), RunStatus::Done);
}

#[test]
fn mismatched_signal_leaves_run_suspended() {
    let (mut d, mut info, mut w, player) = runner_env();
    let mut r = ScriptRunner::new(vec![plain_line("HI")]);
    r.advance(&mut d, &mut info, &mut w, player);
    assert_eq!(r.status(), RunStatus::Waiting(WaitKind::Confirm));
    // An auto-advance signal is not the one-shot this wait holds.
    r.resume(Signal::Auto, &mut d, &mut info, &mut w, player);
    assert_eq!(r.status(), RunStatus::Waiting(WaitKind::Confirm));
}

#[test]
fn loop_without_wait_is_declared_stalled() {
    let (mut d, mut info, mut w, player) = runner_env();
    let mut r = ScriptRunner::new(vec![Node::Loop(vec![])]);
    r.advance(&mut d, &mut info, &mut w, player);
    assert_eq!(r.status(), RunStatus::Failed(ScriptError::Stalled));
}

#[test]
fn choice_signal_picks_the_branch() {
    let (mut d, mut info, mut w, player) = runner_env();
    let mut r = ScriptRunner::new(vec![
        Node::Choice {
            options: vec!["A".to_string(), "B".to_string()],
            branches: vec![vec![plain_line("FIRST")], vec![plain_line("SECOND")]],
        },
        Node::EndDialogue,
    ]);
    r.advance(&mut d, &mut info, &mut w, player);
    assert_eq!(r.status(), RunStatus::Waiting(WaitKind::Choice));
    assert_eq!(d.choice_count(), 2);
    // The engine resolves the choice with index 1 and clears the list.
    d.set_waiting(WaitingFor::Nothing);
    r.resume(Signal::Choice(1), &mut d, &mut info, &mut w, player);
    assert_eq!(r.status(), RunStatus::Waiting(WaitKind::Confirm));
    assert_eq!(d.revealed(), "");
    for _ in 0..6 {
        d.update(&overworld::input::InputState::none());
    }
    assert_eq!(d.revealed(), "SECOND");
}

#[test]
fn persona_branch_picks_reply_by_stored_class() {
    // The companion-persona script replies to the goblin pick with the
    // knight-specific line exactly when the stored player persona is the
    // knight.
    let (mut d, mut info, mut w, player) = runner_env();
    info.player_class = Some(PlayerClass::Knight);
    let mut r = ScriptRunner::new(overworld::scripts::ghost_customize_ghost_class());
    r.advance(&mut d, &mut info, &mut w, player);
    assert_eq!(r.status(), RunStatus::Waiting(WaitKind::Choice));
    // Pick "A GOBLIN" (index 1): Maribelle's description line shows.
    d.set_waiting(WaitingFor::Nothing);
    r.resume(Signal::Choice(1), &mut d, &mut info, &mut w, player);
    for _ in 0..60 {
        d.update(&overworld::input::InputState::none());
    }
    assert_eq!(d.revealed(), "YOU ARE A GOBLIN TROUBLEMAKER,\nTERRORIZING THE LAND.");
    // Confirm: the knight-specific reaction follows.
    d.set_waiting(WaitingFor::Nothing);
    r.resume(Signal::Confirm, &mut d, &mut info, &mut w, player);
    for _ in 0..60 {
        d.update(&overworld::input::InputState::none());
    }
    assert_eq!(d.revealed(), "NYEHEHEH!  I HOPE THERE'S\nNO HARD FEELINGS, MS. KNIGHT!");
    // Completing the branch records the goblin persona.
    d.set_waiting(WaitingFor::Nothing);
    r.resume(Signal::Confirm, &mut d, &mut info, &mut w, player);
    assert_eq!(info.ghost_class, Some(overworld::game::GhostClass::Goblin));
    assert_eq!(r.status(), RunStatus::Done);
    assert!(!d.shown());
}
