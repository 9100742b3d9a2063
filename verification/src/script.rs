//! Dialogue scripts and their cooperative runner. A script is a tree of
//! steps — show a line, show a choice with branches, set narrative state,
//! attach the companion, end the dialogue, enter a sub-script or a loop.
//! The runner executes steps until one suspends on a single-shot signal
//! (confirm, choice or auto-advance); the game loop later delivers exactly
//! one signal per frame and the runner resumes. Execution is specified by
//! the step interpreter `micro_step` / `run_steps` below, and the runner
//! is proved to follow it exactly. Force-ending the dialogue cancels the
//! runner: it fails with a cancellation error, and a failed runner never
//! executes another step, whatever is delivered afterwards.

use vstd::prelude::*;

use crate::dialogue::{
    dialogue_wf, empty_dialogue, Dialogue, DialogueView, PortraitOrientation, Signal, WaitingFor,
};
use crate::dialogue::strings_view;
use crate::game::{
    pieces_view, render, render_text, GhostClass, Info, PlayerClass, Portrait, TextPiece,
};
use crate::geom::{Vec2i, RECT_LIMIT};
use crate::world::{
    live, with_follow, Entity, FollowComponent, SpriteComponent, World, WorldView,
};

verus! {

/// One step of a dialogue script.
#[derive(Debug)]
pub enum Node {
    /// Replace the portrait beside the box.
    Portrait(Option<(Portrait, PortraitOrientation)>),
    /// Show a line and suspend: on a confirm signal, or — when `auto` — on
    /// the auto-advance signal once the text is fully revealed.
    Line { text: Vec<TextPiece>, auto: bool },
    /// Show a choice list and suspend; the resolved index picks the branch
    /// to run next.
    Choice { options: Vec<String>, branches: Vec<Vec<Node>> },
    /// Record the player's chosen persona.
    SetPlayerClass(PlayerClass),
    /// Record the companion's chosen persona.
    SetGhostClass(GhostClass),
    /// Give `entity` a follow component trailing the player.
    AttachFollow { entity: Entity, max_distance: i64, speed: i64 },
    /// Close the dialogue box and drop all its state.
    EndDialogue,
    /// Run one of two branches by whether the player's chosen persona is
    /// `class`, then continue here.
    IfPlayerClassIs { class: PlayerClass, then_branch: Vec<Node>, else_branch: Vec<Node> },
    /// Run a sub-script, then continue here.
    Sub(Vec<Node>),
    /// Run the body again each time it finishes, until an `ExitLoop` runs.
    Loop(Vec<Node>),
    /// Leave the innermost enclosing loop.
    ExitLoop,
}

/// A whole script.
pub type Script = Vec<Node>;

/// Mathematical shape of one script step.
#[verifier::ext_equal]
pub enum NodeV {
    Portrait(Option<(Portrait, PortraitOrientation)>),
    Line { text: Seq<crate::game::TextPieceV>, auto: bool },
    Choice { options: Seq<Seq<char>>, branches: Seq<Seq<NodeV>> },
    SetPlayerClass(PlayerClass),
    SetGhostClass(GhostClass),
    AttachFollow { entity: Entity, max_distance: i64, speed: i64 },
    EndDialogue,
    IfPlayerClassIs { class: PlayerClass, then_branch: Seq<NodeV>, else_branch: Seq<NodeV> },
    Sub(Seq<NodeV>),
    Loop(Seq<NodeV>),
    ExitLoop,
}

/// The shape of one step.
pub open spec fn node_view(n: Node) -> NodeV
    decreases n, 0int,
{
    match n {
        Node::Portrait(p) => NodeV::Portrait(p),
        Node::Line { text, auto } => NodeV::Line { text: pieces_view(text@), auto },
        Node::Choice { options, branches } => NodeV::Choice {
            options: strings_view(options@),
            branches: branch_views(branches@),
        },
        Node::SetPlayerClass(c) => NodeV::SetPlayerClass(c),
        Node::SetGhostClass(c) => NodeV::SetGhostClass(c),
        Node::AttachFollow { entity, max_distance, speed } => NodeV::AttachFollow {
            entity,
            max_distance,
            speed,
        },
        Node::EndDialogue => NodeV::EndDialogue,
        Node::IfPlayerClassIs { class, then_branch, else_branch } => NodeV::IfPlayerClassIs {
            class,
            then_branch: node_views(then_branch@),
            else_branch: node_views(else_branch@),
        },
        Node::Sub(b) => NodeV::Sub(node_views(b@)),
        Node::Loop(b) => NodeV::Loop(node_views(b@)),
        Node::ExitLoop => NodeV::ExitLoop,
    }
}

/// The shape of a whole script.
pub open spec fn node_views(s: Seq<Node>) -> Seq<NodeV>
    decreases s, 1int,
{
    if s.len() == 0 {
        Seq::empty()
    } else {
        node_views(s.subrange(0, s.len() - 1)).push(node_view(s[s.len() - 1]))
    }
}

/// The shapes of a list of branch scripts.
pub open spec fn branch_views(bs: Seq<Vec<Node>>) -> Seq<Seq<NodeV>>
    decreases bs, 1int,
{
    if bs.len() == 0 {
        Seq::empty()
    } else {
        branch_views(bs.subrange(0, bs.len() - 1)).push(node_views(bs[bs.len() - 1]@))
    }
}

/// A script's shape has one entry per step.
pub broadcast proof fn lemma_node_views_len(s: Seq<Node>)
    ensures
        (#[trigger] node_views(s)).len() == s.len(),
    decreases s.len(),
{
    if s.len() > 0 {
        lemma_node_views_len(s.subrange(0, s.len() - 1));
    }
}

/// A script's shape holds each step's shape at the step's position.
pub broadcast proof fn lemma_node_views_index(s: Seq<Node>, i: int)
    requires
        0 <= i < s.len(),
    ensures
        #[trigger] node_views(s)[i] == node_view(s[i]),
    decreases s.len(),
{
    lemma_node_views_len(s.subrange(0, s.len() - 1));
    if i < s.len() - 1 {
        lemma_node_views_index(s.subrange(0, s.len() - 1), i);
    }
}

/// A branch list's shape has one entry per branch.
pub broadcast proof fn lemma_branch_views_len(bs: Seq<Vec<Node>>)
    ensures
        (#[trigger] branch_views(bs)).len() == bs.len(),
    decreases bs.len(),
{
    if bs.len() > 0 {
        lemma_branch_views_len(bs.subrange(0, bs.len() - 1));
    }
}

/// A branch list's shape holds each branch's shape at its position.
pub broadcast proof fn lemma_branch_views_index(bs: Seq<Vec<Node>>, i: int)
    requires
        0 <= i < bs.len(),
    ensures
        #[trigger] branch_views(bs)[i] == node_views(bs[i]@),
    decreases bs.len(),
{
    lemma_branch_views_len(bs.subrange(0, bs.len() - 1));
    if i < bs.len() - 1 {
        lemma_branch_views_index(bs.subrange(0, bs.len() - 1), i);
    }
}

/// What a suspended script is waiting on.
#[derive(Clone, Copy, PartialEq, Eq, Structural, Debug)]
pub enum WaitKind {
    Confirm,
    Choice,
    Auto,
}

/// The signal a wait accepts: each wait holds a single-shot channel for
/// exactly one signal kind.
pub open spec fn signal_matches(k: WaitKind, s: Signal) -> bool {
    match (k, s) {
        (WaitKind::Confirm, Signal::Confirm) => true,
        (WaitKind::Auto, Signal::Auto) => true,
        (WaitKind::Choice, Signal::Choice(_)) => true,
        _ => false,
    }
}

/// Why a script stopped without finishing.
#[derive(Clone, Copy, PartialEq, Eq, Structural, Debug)]
pub enum ScriptError {
    /// The dialogue was force-ended while the script was suspended; the
    /// signal it waited on can never arrive.
    Cancelled,
    /// The script ran too many steps without suspending (a loop that never
    /// waits).
    Stalled,
}

/// Where a script run stands.
#[derive(Clone, Copy, PartialEq, Eq, Structural, Debug)]
pub enum RunStatus {
    /// Steps may execute now.
    Ready,
    /// Suspended on a single-shot signal.
    Waiting(WaitKind),
    /// Finished normally.
    Done,
    /// Stopped with an error; a failed run never executes another step.
    Failed(ScriptError),
}

/// Cancelling a run: a run that could still execute or resume fails with
/// the cancellation error; a finished or already-failed run keeps its
/// outcome.
pub open spec fn cancel_model(s: RunStatus) -> RunStatus {
    match s {
        RunStatus::Ready => RunStatus::Failed(ScriptError::Cancelled),
        RunStatus::Waiting(_) => RunStatus::Failed(ScriptError::Cancelled),
        _ => s,
    }
}

/// A run that can never execute another step.
pub open spec fn script_blocked(s: RunStatus) -> bool {
    s is Done || s is Failed
}

/// The cancellation law: cancelling a suspended script fails it with the
/// cancellation error, and the failed run is blocked — by the runner's
/// contracts a blocked run is never stepped and never changes the
/// dialogue, the narrative state or the world again, whatever signals are
/// delivered later. A force-ended script can therefore never resume as if
/// it had been confirmed.
pub proof fn lemma_cancellation(s: RunStatus)
    requires
        s is Waiting,
    ensures
        cancel_model(s) == RunStatus::Failed(ScriptError::Cancelled),
        script_blocked(cancel_model(s)),
{
}

/// `a` and `b` agree on every storage but the follow components — the only
/// part of the world a script step may touch.
pub open spec fn world_frame_except_follows(a: WorldView, b: WorldView) -> bool {
    &&& a.gens == b.gens
    &&& a.alive == b.alive
    &&& a.positions == b.positions
    &&& a.sprites == b.sprites
    &&& a.collisions == b.collisions
    &&& a.animations == b.animations
    &&& a.interactables == b.interactables
}

/// How one level of the runner's stack was entered from the level above.
#[derive(Clone, Copy, PartialEq, Eq, Structural, Debug)]
pub enum Via {
    Root,
    SubScript,
    LoopBody,
    Branch(usize),
    Then,
    Else,
}

/// One level of the runner's stack: the step counter within one script
/// vector, and how that vector was reached.
#[derive(Clone, Copy, PartialEq, Eq, Structural, Debug)]
pub struct Level {
    pub pc: usize,
    pub via: Via,
}

/// Most steps a run may execute between two suspensions before it is
/// declared stalled.
pub const STEP_BUDGET: usize = 4096;

/// Mathematical shape of a runner: the script tree, the stack of step
/// counters into it, and the run's status.
#[verifier::ext_equal]
pub struct RunnerView {
    pub script: Seq<NodeV>,
    pub stack: Seq<Level>,
    pub status: RunStatus,
}

/// Everything one script step may read or write: the runner itself, the
/// dialogue box, the narrative state and the world.
#[verifier::ext_equal]
pub struct ScriptState {
    pub runner: RunnerView,
    pub dialogue: DialogueView,
    pub info: Info,
    pub world: WorldView,
}

/// The script vector the stack stands in from level `k` on: `s` narrowed
/// by each further level's entry. `None` when the stack does not describe
/// a path through the tree.
pub open spec fn locate_from(s: Seq<NodeV>, stack: Seq<Level>, k: int) -> Option<Seq<NodeV>>
    decreases stack.len() - k,
{
    if k < 1 || k >= stack.len() {
        Some(s)
    } else {
        let parent_pc = stack[k - 1].pc as int;
        if parent_pc >= s.len() {
            None
        } else {
            match (s[parent_pc], stack[k].via) {
                (NodeV::Sub(b), Via::SubScript) => locate_from(b, stack, k + 1),
                (NodeV::Loop(b), Via::LoopBody) => locate_from(b, stack, k + 1),
                (NodeV::IfPlayerClassIs { then_branch, .. }, Via::Then) => locate_from(
                    then_branch,
                    stack,
                    k + 1,
                ),
                (NodeV::IfPlayerClassIs { else_branch, .. }, Via::Else) => locate_from(
                    else_branch,
                    stack,
                    k + 1,
                ),
                (NodeV::Choice { branches, .. }, Via::Branch(i)) => if i < branches.len() {
                    locate_from(branches[i as int], stack, k + 1)
                } else {
                    None
                },
                _ => None,
            }
        }
    }
}

/// The script vector the runner currently stands in.
pub open spec fn current_script(r: RunnerView) -> Option<Seq<NodeV>> {
    locate_from(r.script, r.stack, 1)
}

/// The stack with level `k`'s step counter advanced by one.
pub open spec fn bump_pc(stack: Seq<Level>, k: int) -> Seq<Level> {
    stack.update(k, Level { pc: (stack[k].pc + 1) as usize, via: stack[k].via })
}

/// Whether some level of the stack was entered as a loop body.
pub open spec fn has_loop_level(stack: Seq<Level>) -> bool
    decreases stack.len(),
{
    if stack.len() == 0 {
        false
    } else if stack[stack.len() - 1].via == Via::LoopBody {
        true
    } else {
        has_loop_level(stack.drop_last())
    }
}

/// The stack after popping levels up to and including the innermost loop
/// body; empty when no loop encloses the current position.
pub open spec fn popped_to_loop(stack: Seq<Level>) -> Seq<Level>
    decreases stack.len(),
{
    if stack.len() == 0 {
        stack
    } else if stack[stack.len() - 1].via == Via::LoopBody {
        stack.drop_last()
    } else {
        popped_to_loop(stack.drop_last())
    }
}

/// One step of the script interpreter, taken with the run ready. Covers
/// every situation the runner can stand in, including a stack that no
/// longer describes the tree (the run then just finishes).
pub open spec fn micro_step(st: ScriptState, player: Entity) -> ScriptState {
    let stack = st.runner.stack;
    let depth = stack.len() as int;
    if depth == 0 {
        ScriptState { runner: RunnerView { status: RunStatus::Done, ..st.runner }, ..st }
    } else {
        match current_script(st.runner) {
            None => ScriptState {
                runner: RunnerView { status: RunStatus::Done, ..st.runner },
                ..st
            },
            Some(s) => {
                let lvl = stack[depth - 1];
                if lvl.pc >= s.len() {
                    if lvl.via == Via::LoopBody {
                        ScriptState {
                            runner: RunnerView {
                                stack: stack.update(
                                    depth - 1,
                                    Level { pc: 0, via: Via::LoopBody },
                                ),
                                ..st.runner
                            },
                            ..st
                        }
                    } else if depth == 1 {
                        ScriptState {
                            runner: RunnerView { status: RunStatus::Done, ..st.runner },
                            ..st
                        }
                    } else {
                        let shorter = stack.drop_last();
                        let t = stack[depth - 2];
                        if t.pc < usize::MAX {
                            ScriptState {
                                runner: RunnerView {
                                    stack: bump_pc(shorter, depth - 2),
                                    ..st.runner
                                },
                                ..st
                            }
                        } else {
                            ScriptState {
                                runner: RunnerView {
                                    stack: shorter,
                                    status: RunStatus::Failed(ScriptError::Stalled),
                                    ..st.runner
                                },
                                ..st
                            }
                        }
                    }
                } else {
                    match s[lvl.pc as int] {
                        NodeV::Portrait(p) => ScriptState {
                            runner: RunnerView { stack: bump_pc(stack, depth - 1), ..st.runner },
                            dialogue: DialogueView {
                                portrait: match p {
                                    Some((c, o)) => Some((portrait_sprite_view(c), o)),
                                    None => None,
                                },
                                ..st.dialogue
                            },
                            ..st
                        },
                        NodeV::Line { text, auto } => ScriptState {
                            runner: RunnerView {
                                stack: bump_pc(stack, depth - 1),
                                status: RunStatus::Waiting(
                                    if auto {
                                        WaitKind::Auto
                                    } else {
                                        WaitKind::Confirm
                                    },
                                ),
                                ..st.runner
                            },
                            dialogue: DialogueView {
                                shown: true,
                                text: render_text(text, st.info),
                                progress: 0,
                                waiting: if auto {
                                    WaitingFor::Auto
                                } else {
                                    WaitingFor::Confirm
                                },
                                ..st.dialogue
                            },
                            ..st
                        },
                        NodeV::Choice { options, .. } => if options.len() == 0 {
                            ScriptState {
                                runner: RunnerView {
                                    stack: bump_pc(stack, depth - 1),
                                    ..st.runner
                                },
                                ..st
                            }
                        } else {
                            ScriptState {
                                runner: RunnerView {
                                    status: RunStatus::Waiting(WaitKind::Choice),
                                    ..st.runner
                                },
                                dialogue: DialogueView {
                                    choices: Some(options),
                                    current_choice: 0,
                                    waiting: WaitingFor::Choice,
                                    ..st.dialogue
                                },
                                ..st
                            }
                        },
                        NodeV::SetPlayerClass(c) => ScriptState {
                            runner: RunnerView { stack: bump_pc(stack, depth - 1), ..st.runner },
                            info: Info { player_class: Some(c), ..st.info },
                            ..st
                        },
                        NodeV::SetGhostClass(c) => ScriptState {
                            runner: RunnerView { stack: bump_pc(stack, depth - 1), ..st.runner },
                            info: Info { ghost_class: Some(c), ..st.info },
                            ..st
                        },
                        NodeV::AttachFollow { entity, max_distance, speed } => ScriptState {
                            runner: RunnerView { stack: bump_pc(stack, depth - 1), ..st.runner },
                            world: if 0 <= max_distance <= RECT_LIMIT && 0 <= speed <= RECT_LIMIT
                                && live(st.world, entity) {
                                with_follow(
                                    st.world,
                                    entity.idx as int,
                                    Some(
                                        FollowComponent { target: player, max_distance, speed },
                                    ),
                                )
                            } else {
                                st.world
                            },
                            ..st
                        },
                        NodeV::EndDialogue => ScriptState {
                            runner: RunnerView { stack: bump_pc(stack, depth - 1), ..st.runner },
                            dialogue: empty_dialogue(),
                            ..st
                        },
                        NodeV::IfPlayerClassIs { class, .. } => ScriptState {
                            runner: RunnerView {
                                stack: stack.push(
                                    Level {
                                        pc: 0,
                                        via: if st.info.player_class == Some(class) {
                                            Via::Then
                                        } else {
                                            Via::Else
                                        },
                                    },
                                ),
                                ..st.runner
                            },
                            ..st
                        },
                        NodeV::Sub(_) => ScriptState {
                            runner: RunnerView {
                                stack: stack.push(Level { pc: 0, via: Via::SubScript }),
                                ..st.runner
                            },
                            ..st
                        },
                        NodeV::Loop(_) => ScriptState {
                            runner: RunnerView {
                                stack: stack.push(Level { pc: 0, via: Via::LoopBody }),
                                ..st.runner
                            },
                            ..st
                        },
                        NodeV::ExitLoop => {
                            let st2 = popped_to_loop(stack);
                            if has_loop_level(stack) && st2.len() > 0 {
                                let t = st2[st2.len() - 1];
                                if t.pc < usize::MAX {
                                    ScriptState {
                                        runner: RunnerView {
                                            stack: bump_pc(st2, st2.len() - 1),
                                            ..st.runner
                                        },
                                        ..st
                                    }
                                } else {
                                    ScriptState {
                                        runner: RunnerView {
                                            stack: st2,
                                            status: RunStatus::Failed(ScriptError::Stalled),
                                            ..st.runner
                                        },
                                        ..st
                                    }
                                }
                            } else {
                                ScriptState {
                                    runner: RunnerView { stack: st2, ..st.runner },
                                    ..st
                                }
                            }
                        },
                    }
                }
            },
        }
    }
}

/// The interpreter run to its next suspension: steps execute while the run
/// is ready; a run that takes more than `fuel` steps without suspending is
/// declared stalled.
pub open spec fn run_steps(st: ScriptState, player: Entity, fuel: nat) -> ScriptState
    decreases fuel,
{
    if !(st.runner.status is Ready) {
        st
    } else if fuel == 0 {
        ScriptState {
            runner: RunnerView { status: RunStatus::Failed(ScriptError::Stalled), ..st.runner },
            ..st
        }
    } else {
        run_steps(micro_step(st, player), player, (fuel - 1) as nat)
    }
}

/// Delivering one signal to a suspended run: a matching signal readies the
/// run — a resolved choice additionally descending into the chosen branch
/// (or skipping a step that is not a choice after all). Only the runner
/// changes; anything not suspended, or a mismatched signal, changes
/// nothing.
pub open spec fn deliver_model(st: ScriptState, signal: Signal) -> ScriptState {
    match st.runner.status {
        RunStatus::Waiting(k) => if !signal_matches(k, signal) {
            st
        } else {
            match signal {
                Signal::Choice(i) => {
                    let stack = st.runner.stack;
                    let depth = stack.len() as int;
                    if depth > 0 {
                        let lvl = stack[depth - 1];
                        match current_script(st.runner) {
                            Some(s) => if lvl.pc < s.len() {
                                match s[lvl.pc as int] {
                                    NodeV::Choice { branches, .. } => if i < branches.len() {
                                        ScriptState {
                                            runner: RunnerView {
                                                stack: stack.push(
                                                    Level { pc: 0, via: Via::Branch(i) },
                                                ),
                                                status: RunStatus::Ready,
                                                ..st.runner
                                            },
                                            ..st
                                        }
                                    } else {
                                        ScriptState {
                                            runner: RunnerView {
                                                stack: bump_pc(stack, depth - 1),
                                                status: RunStatus::Ready,
                                                ..st.runner
                                            },
                                            ..st
                                        }
                                    },
                                    _ => ScriptState {
                                        runner: RunnerView {
                                            stack: bump_pc(stack, depth - 1),
                                            status: RunStatus::Ready,
                                            ..st.runner
                                        },
                                        ..st
                                    },
                                }
                            } else {
                                ScriptState {
                                    runner: RunnerView { status: RunStatus::Ready, ..st.runner },
                                    ..st
                                }
                            },
                            None => ScriptState {
                                runner: RunnerView { status: RunStatus::Ready, ..st.runner },
                                ..st
                            },
                        }
                    } else {
                        ScriptState {
                            runner: RunnerView { status: RunStatus::Ready, ..st.runner },
                            ..st
                        }
                    }
                },
                _ => ScriptState {
                    runner: RunnerView { status: RunStatus::Ready, ..st.runner },
                    ..st
                },
            }
        },
        _ => st,
    }
}

/// Delivering a signal and running to the next suspension, as one frame of
/// the game loop does.
pub open spec fn resume_model(st: ScriptState, signal: Signal, player: Entity) -> ScriptState {
    run_steps(deliver_model(st, signal), player, STEP_BUDGET as nat)
}

/// With fuel left, a ready run takes one step.
proof fn lemma_run_steps_step(st: ScriptState, player: Entity, fuel: nat)
    requires
        st.runner.status is Ready,
        fuel > 0,
    ensures
        run_steps(st, player, fuel) == run_steps(micro_step(st, player), player, (fuel - 1) as nat),
{
}

/// A run that is not ready stays put.
proof fn lemma_run_steps_stopped(st: ScriptState, player: Entity, fuel: nat)
    requires
        !(st.runner.status is Ready),
    ensures
        run_steps(st, player, fuel) == st,
{
}

/// The runner for one script: the script tree, a stack of step counters
/// into it, and the run's status.
#[derive(Debug)]
pub struct ScriptRunner {
    script: Script,
    stack: Vec<Level>,
    status: RunStatus,
}

impl View for ScriptRunner {
    type V = RunnerView;

    closed spec fn view(&self) -> RunnerView {
        RunnerView { script: node_views(self.script@), stack: self.stack@, status: self.status }
    }
}

/// The combined state the runner's contracts speak of.
pub open spec fn script_state(
    r: RunnerView,
    dialogue: DialogueView,
    info: Info,
    world: WorldView,
) -> ScriptState {
    ScriptState { runner: r, dialogue, info, world }
}

/// The script vector the runner currently stands in, per `locate_from`.
fn locate<'a>(script: &'a Vec<Node>, stack: &Vec<Level>) -> (r: Option<&'a Vec<Node>>)
    ensures
        match r {
            Some(s) => locate_from(node_views(script@), stack@, 1) == Some(node_views(s@)),
            None => locate_from(node_views(script@), stack@, 1) is None,
        },
{
    broadcast use lemma_node_views_len, lemma_node_views_index, lemma_branch_views_len, lemma_branch_views_index;

    let mut s: &'a Vec<Node> = script;
    let mut k: usize = 1;
    while k < stack.len()
        invariant
            1 <= k,
            locate_from(node_views(script@), stack@, 1) == locate_from(
                node_views(s@),
                stack@,
                k as int,
            ),
        decreases stack@.len() - k,
    {
        broadcast use lemma_node_views_len, lemma_node_views_index, lemma_branch_views_len, lemma_branch_views_index;

        let parent_pc = stack[k - 1].pc;
        if parent_pc >= s.len() {
            return None;
        }
        proof {
            lemma_node_views_len(s@);
            lemma_node_views_index(s@, parent_pc as int);
        }
        let next: &'a Vec<Node> = match (&s[parent_pc], stack[k].via) {
            (Node::Sub(b), Via::SubScript) => b,
            (Node::Loop(b), Via::LoopBody) => b,
            (Node::IfPlayerClassIs { then_branch, .. }, Via::Then) => then_branch,
            (Node::IfPlayerClassIs { else_branch, .. }, Via::Else) => else_branch,
            (Node::Choice { branches, .. }, Via::Branch(i)) => {
                proof {
                    lemma_branch_views_len(branches@);
                }
                if i < branches.len() {
                    proof {
                        lemma_branch_views_index(branches@, i as int);
                    }
                    &branches[i]
                } else {
                    return None;
                }
            },
            _ => {
                return None;
            },
        };
        s = next;
        k = k + 1;
    }
    Some(s)
}

/// Pop stack levels up to and including the innermost loop body. Returns
/// whether one was found; without one the stack ends up empty.
fn pop_to_loop_level(stack: &mut Vec<Level>) -> (found: bool)
    ensures
        final(stack)@ == popped_to_loop(old(stack)@),
        found == has_loop_level(old(stack)@),
{
    let mut found = false;
    while !found && stack.len() > 0
        invariant
            popped_to_loop(old(stack)@) == if found {
                stack@
            } else {
                popped_to_loop(stack@)
            },
            has_loop_level(old(stack)@) == if found {
                true
            } else {
                has_loop_level(stack@)
            },
        decreases stack@.len(), (if found { 0int } else { 1int }),
    {
        let top = stack[stack.len() - 1];
        stack.pop();
        if top.via == Via::LoopBody {
            found = true;
        }
    }
    found
}

impl ScriptRunner {
    /// A fresh run of `script`, ready to execute its first step from the
    /// top of the tree.
    pub fn new(script: Script) -> (r: ScriptRunner)
        ensures
            r@ == (RunnerView {
                script: node_views(script@),
                stack: seq![Level { pc: 0, via: Via::Root }],
                status: RunStatus::Ready,
            }),
    {
        let r = ScriptRunner {
            script,
            stack: vec![Level { pc: 0, via: Via::Root }],
            status: RunStatus::Ready,
        };
        proof {
            assert(r@.stack =~= seq![Level { pc: 0, via: Via::Root }]);
        }
        r
    }

    /// The run's status.
    pub fn status(&self) -> (r: RunStatus)
        ensures
            r == self@.status,
    {
        self.status
    }

    /// Cancel the run, per `cancel_model`: an unfinished run fails with the
    /// cancellation error and can never execute another step.
    pub fn cancel(&mut self)
        ensures
            final(self)@ == (RunnerView {
                status: cancel_model(old(self)@.status),
                ..old(self)@
            }),
    {
        match self.status {
            RunStatus::Ready => {
                self.status = RunStatus::Failed(ScriptError::Cancelled);
            },
            RunStatus::Waiting(_) => {
                self.status = RunStatus::Failed(ScriptError::Cancelled);
            },
            _ => {},
        }
    }

    /// Execute steps until the run suspends, finishes or fails, exactly as
    /// `run_steps` prescribes. A run that is not ready changes nothing at
    /// all. Script steps may rewrite the dialogue box, the narrative state
    /// and the world's follow components; they touch nothing else.
    #[verifier::loop_isolation(false)]
    pub fn advance(
        &mut self,
        dialogue: &mut Dialogue,
        info: &mut Info,
        world: &mut World,
        player: Entity,
    )
        requires
            dialogue_wf(old(dialogue)@),
            old(world).wf(),
        ensures
            dialogue_wf(final(dialogue)@),
            final(world).wf(),
            !(final(self)@.status is Ready),
            world_frame_except_follows(final(world)@, old(world)@),
            ({
                let end = run_steps(
                    script_state(old(self)@, old(dialogue)@, *old(info), old(world)@),
                    player,
                    STEP_BUDGET as nat,
                );
                &&& final(self)@ == end.runner
                &&& final(dialogue)@ == end.dialogue
                &&& *final(info) == end.info
                &&& final(world)@ == end.world
            }),
            !(old(self)@.status is Ready) ==> final(self)@ == old(self)@ && final(dialogue)@
                == old(dialogue)@ && *final(info) == *old(info) && final(world)@ == old(world)@,
            script_blocked(old(self)@.status) ==> final(self)@ == old(self)@,
    {
        broadcast use lemma_node_views_len, lemma_node_views_index, lemma_branch_views_len, lemma_branch_views_index;

        let ghost st0 = script_state(self@, dialogue@, *info, world@);
        if !(self.status == RunStatus::Ready) {
            return ;
        }
        let mut fuel: usize = STEP_BUDGET;
        while fuel > 0
            invariant
                self@.status == RunStatus::Ready,
                dialogue_wf(dialogue@),
                world.wf(),
                world_frame_except_follows(world@, old(world)@),
                run_steps(st0, player, STEP_BUDGET as nat) == run_steps(
                    script_state(self@, dialogue@, *info, world@),
                    player,
                    fuel as nat,
                ),
            decreases fuel,
        {
            broadcast use lemma_node_views_len, lemma_node_views_index, lemma_branch_views_len, lemma_branch_views_index;

            let ghost st_pre = script_state(self@, dialogue@, *info, world@);
            let ghost fuel_pre = fuel;
            fuel = fuel - 1;
            let depth = self.stack.len();
            if depth == 0 {
                self.status = RunStatus::Done;
                proof {
                    let ghost cur = script_state(self@, dialogue@, *info, world@);
                    assert(cur =~~= micro_step(st_pre, player));
                    lemma_run_steps_step(st_pre, player, fuel_pre as nat);
                    lemma_run_steps_stopped(cur, player, (fuel_pre - 1) as nat);
                }
                return ;
            }
            let lvl = self.stack[depth - 1];
            let located = locate(&self.script, &self.stack);
            let s: &Vec<Node> = match located {
                Some(s) => s,
                None => {
                    self.status = RunStatus::Done;
                    proof {
                        let ghost cur = script_state(self@, dialogue@, *info, world@);
                        assert(cur =~~= micro_step(st_pre, player));
                        lemma_run_steps_step(st_pre, player, fuel_pre as nat);
                        lemma_run_steps_stopped(cur, player, (fuel_pre - 1) as nat);
                    }
                    return ;
                },
            };
            if lvl.pc >= s.len() {
                if lvl.via == Via::LoopBody {
                    self.stack.set(depth - 1, Level { pc: 0, via: Via::LoopBody });
                } else if depth == 1 {
                    self.status = RunStatus::Done;
                    proof {
                        let ghost cur = script_state(self@, dialogue@, *info, world@);
                        assert(cur =~~= micro_step(st_pre, player));
                        lemma_run_steps_step(st_pre, player, fuel_pre as nat);
                        lemma_run_steps_stopped(cur, player, (fuel_pre - 1) as nat);
                    }
                    return ;
                } else {
                    self.stack.pop();
                    let t = self.stack[depth - 2];
                    if t.pc < usize::MAX {
                        self.stack.set(depth - 2, Level { pc: t.pc + 1, via: t.via });
                    } else {
                        self.status = RunStatus::Failed(ScriptError::Stalled);
                        proof {
                            let ghost cur = script_state(self@, dialogue@, *info, world@);
                            assert(cur =~~= micro_step(st_pre, player));
                            lemma_run_steps_step(st_pre, player, fuel_pre as nat);
                            lemma_run_steps_stopped(cur, player, (fuel_pre - 1) as nat);
                        }
                        return ;
                    }
                }
            } else {
                proof {
                    lemma_node_views_len(s@);
                    lemma_node_views_index(s@, lvl.pc as int);
                }
                match &s[lvl.pc] {
                    Node::Portrait(p) => {
                        let sprite = match p {
                            Some((c, o)) => Some((portrait_sprite(*c), *o)),
                            None => None,
                        };
                        dialogue.set_portrait(sprite);
                        self.stack.set(depth - 1, Level { pc: lvl.pc + 1, via: lvl.via });
                    },
                    Node::Line { text, auto } => {
                        let rendered = render(text, info);
                        dialogue.set_text(rendered);
                        if *auto {
                            dialogue.set_waiting(WaitingFor::Auto);
                            self.stack.set(depth - 1, Level { pc: lvl.pc + 1, via: lvl.via });
                            self.status = RunStatus::Waiting(WaitKind::Auto);
                        } else {
                            dialogue.set_waiting(WaitingFor::Confirm);
                            self.stack.set(depth - 1, Level { pc: lvl.pc + 1, via: lvl.via });
                            self.status = RunStatus::Waiting(WaitKind::Confirm);
                        }
                        proof {
                            let ghost cur = script_state(self@, dialogue@, *info, world@);
                            assert(cur =~~= micro_step(st_pre, player));
                            lemma_run_steps_step(st_pre, player, fuel_pre as nat);
                            lemma_run_steps_stopped(cur, player, (fuel_pre - 1) as nat);
                        }
                        return ;
                    },
                    Node::Choice { options, branches: _ } => {
                        if options.len() == 0 {
                            self.stack.set(depth - 1, Level { pc: lvl.pc + 1, via: lvl.via });
                        } else {
                            let mut cloned: Vec<String> = Vec::new();
                            let mut oi: usize = 0;
                            while oi < options.len()
                                invariant
                                    0 <= oi <= options@.len(),
                                    cloned@.len() == oi,
                                    forall|j: int| 0 <= j < oi ==> cloned@[j] == options@[j],
                                decreases options@.len() - oi,
                            {
                                cloned.push(options[oi].clone());
                                oi = oi + 1;
                            }
                            proof {
                                assert(cloned@ =~= options@);
                            }
                            dialogue.show_choices(cloned);
                            self.status = RunStatus::Waiting(WaitKind::Choice);
                            proof {
                                let ghost cur = script_state(self@, dialogue@, *info, world@);
                                assert(cur =~~= micro_step(st_pre, player));
                                lemma_run_steps_step(st_pre, player, fuel_pre as nat);
                                lemma_run_steps_stopped(cur, player, (fuel_pre - 1) as nat);
                            }
                            return ;
                        }
                    },
                    Node::SetPlayerClass(c) => {
                        info.player_class = Some(*c);
                        self.stack.set(depth - 1, Level { pc: lvl.pc + 1, via: lvl.via });
                    },
                    Node::SetGhostClass(c) => {
                        info.ghost_class = Some(*c);
                        self.stack.set(depth - 1, Level { pc: lvl.pc + 1, via: lvl.via });
                    },
                    Node::AttachFollow { entity, max_distance, speed } => {
                        if 0 <= *max_distance && *max_distance <= RECT_LIMIT && 0 <= *speed
                            && *speed <= RECT_LIMIT {
                            world.insert_follow(
                                *entity,
                                FollowComponent {
                                    target: player,
                                    max_distance: *max_distance,
                                    speed: *speed,
                                },
                            );
                        }
                        self.stack.set(depth - 1, Level { pc: lvl.pc + 1, via: lvl.via });
                    },
                    Node::EndDialogue => {
                        dialogue.clear();
                        self.stack.set(depth - 1, Level { pc: lvl.pc + 1, via: lvl.via });
                    },
                    Node::IfPlayerClassIs { class, .. } => {
                        let taken = match info.player_class {
                            Some(c) => c == *class,
                            None => false,
                        };
                        if taken {
                            self.stack.push(Level { pc: 0, via: Via::Then });
                        } else {
                            self.stack.push(Level { pc: 0, via: Via::Else });
                        }
                    },
                    Node::Sub(_) => {
                        self.stack.push(Level { pc: 0, via: Via::SubScript });
                    },
                    Node::Loop(_) => {
                        self.stack.push(Level { pc: 0, via: Via::LoopBody });
                    },
                    Node::ExitLoop => {
                        let found = pop_to_loop_level(&mut self.stack);
                        if found && self.stack.len() > 0 {
                            let d = self.stack.len();
                            let t = self.stack[d - 1];
                            if t.pc < usize::MAX {
                                self.stack.set(d - 1, Level { pc: t.pc + 1, via: t.via });
                            } else {
                                self.status = RunStatus::Failed(ScriptError::Stalled);
                                proof {
                                    let ghost cur = script_state(self@, dialogue@, *info, world@);
                                    assert(cur =~~= micro_step(st_pre, player));
                                    lemma_run_steps_step(st_pre, player, fuel_pre as nat);
                                    lemma_run_steps_stopped(cur, player, (fuel_pre - 1) as nat);
                                }
                                return ;
                            }
                        }
                    },
                }
            }
            proof {
                let ghost cur = script_state(self@, dialogue@, *info, world@);
                assert(cur =~~= micro_step(st_pre, player));
                lemma_run_steps_step(st_pre, player, fuel_pre as nat);
            }
        }
        let ghost st_exit = script_state(self@, dialogue@, *info, world@);
        self.status = RunStatus::Failed(ScriptError::Stalled);
        proof {
            assert(script_state(self@, dialogue@, *info, world@) =~~= run_steps(st_exit, player, 0));
        }
    }

    /// Deliver a one-shot signal and run on, per `deliver_model` and
    /// `run_steps`. Only a suspended run reacts, and only to the signal
    /// kind it waits on — everything else, in particular a finished or
    /// failed run, is left exactly as it was. A resolved choice signal
    /// picks the branch to run next.
    pub fn resume(
        &mut self,
        signal: Signal,
        dialogue: &mut Dialogue,
        info: &mut Info,
        world: &mut World,
        player: Entity,
    )
        requires
            dialogue_wf(old(dialogue)@),
            old(world).wf(),
        ensures
            dialogue_wf(final(dialogue)@),
            final(world).wf(),
            world_frame_except_follows(final(world)@, old(world)@),
            old(self)@.status is Waiting ==> ({
                let end = resume_model(
                    script_state(old(self)@, old(dialogue)@, *old(info), old(world)@),
                    signal,
                    player,
                );
                &&& final(self)@ == end.runner
                &&& final(dialogue)@ == end.dialogue
                &&& *final(info) == end.info
                &&& final(world)@ == end.world
            }),
            old(self)@.status is Waiting ==> !(final(self)@.status is Ready),
            !(old(self)@.status is Waiting) ==> final(self)@ == old(self)@ && final(dialogue)@
                == old(dialogue)@ && *final(info) == *old(info) && final(world)@ == old(world)@,
            script_blocked(old(self)@.status) ==> final(self)@ == old(self)@,
    {
        broadcast use lemma_node_views_len, lemma_node_views_index, lemma_branch_views_len, lemma_branch_views_index;

        let ghost st0 = script_state(self@, dialogue@, *info, world@);
        let kind = match self.status {
            RunStatus::Waiting(k) => k,
            _ => {
                return ;
            },
        };
        match (kind, signal) {
            (WaitKind::Confirm, Signal::Confirm) => {
                self.status = RunStatus::Ready;
            },
            (WaitKind::Auto, Signal::Auto) => {
                self.status = RunStatus::Ready;
            },
            (WaitKind::Choice, Signal::Choice(i)) => {
                let depth = self.stack.len();
                if depth > 0 {
                    let lvl = self.stack[depth - 1];
                    let located = locate(&self.script, &self.stack);
                    match located {
                        Some(s) => {
                            if lvl.pc < s.len() {
                                proof {
                                    lemma_node_views_len(s@);
                                    lemma_node_views_index(s@, lvl.pc as int);
                                }
                                match &s[lvl.pc] {
                                    Node::Choice { options: _, branches } => {
                                        proof {
                                            lemma_branch_views_len(branches@);
                                        }
                                        if i < branches.len() {
                                            self.stack.push(Level { pc: 0, via: Via::Branch(i) });
                                        } else {
                                            self.stack.set(
                                                depth - 1,
                                                Level { pc: lvl.pc + 1, via: lvl.via },
                                            );
                                        }
                                    },
                                    _ => {
                                        self.stack.set(
                                            depth - 1,
                                            Level { pc: lvl.pc + 1, via: lvl.via },
                                        );
                                    },
                                }
                            }
                        },
                        None => {},
                    }
                }
                self.status = RunStatus::Ready;
            },
            _ => {
                // A signal of the wrong kind: the single-shot channel for
                // this wait never fired, so stay suspended.
                proof {
                    assert(deliver_model(st0, signal) =~~= st0);
                    lemma_run_steps_stopped(st0, player, STEP_BUDGET as nat);
                }
                return ;
            },
        }
        proof {
            assert(script_state(self@, dialogue@, *info, world@) =~~= deliver_model(st0, signal));
        }
        self.advance(dialogue, info, world, player);
    }
}

/// An empty script under construction.
pub fn script_new() -> (r: Vec<Node>)
    ensures
        node_views(r@) == Seq::<NodeV>::empty(),
{
    let r: Vec<Node> = Vec::new();
    proof {
        lemma_node_views_len(r@);
        assert(node_views(r@) =~= Seq::<NodeV>::empty());
    }
    r
}

/// Append one step to a script under construction.
pub fn script_push(v: &mut Vec<Node>, n: Node)
    ensures
        node_views(final(v)@) == node_views(old(v)@).push(node_view(n)),
{
    let ghost nv = node_view(n);
    v.push(n);
    proof {
        lemma_node_views_len(old(v)@);
        lemma_node_views_len(v@);
        assert forall|i: int| 0 <= i < v@.len() implies (#[trigger] node_views(v@)[i])
            == node_views(old(v)@).push(nv)[i] by {
            lemma_node_views_index(v@, i);
            if i < old(v)@.len() {
                lemma_node_views_index(old(v)@, i);
            }
        }
        assert(node_views(v@) =~= node_views(old(v)@).push(nv));
    }
}

/// An empty branch list under construction.
pub fn branches_new() -> (r: Vec<Vec<Node>>)
    ensures
        branch_views(r@) == Seq::<Seq<NodeV>>::empty(),
{
    let r: Vec<Vec<Node>> = Vec::new();
    proof {
        lemma_branch_views_len(r@);
        assert(branch_views(r@) =~= Seq::<Seq<NodeV>>::empty());
    }
    r
}

/// Append one branch to a branch list under construction.
pub fn branches_push(v: &mut Vec<Vec<Node>>, b: Vec<Node>)
    ensures
        branch_views(final(v)@) == branch_views(old(v)@).push(node_views(b@)),
{
    let ghost bv = node_views(b@);
    v.push(b);
    proof {
        lemma_branch_views_len(old(v)@);
        lemma_branch_views_len(v@);
        assert forall|i: int| 0 <= i < v@.len() implies (#[trigger] branch_views(v@)[i])
            == branch_views(old(v)@).push(bv)[i] by {
            lemma_branch_views_index(v@, i);
            if i < old(v)@.len() {
                lemma_branch_views_index(old(v)@, i);
            }
        }
        assert(branch_views(v@) =~= branch_views(old(v)@).push(bv));
    }
}

/// The sprite a portrait is drawn with: the character's portrait texture
/// with every other field at its default.
pub open spec fn portrait_sprite_view(p: Portrait) -> crate::world::SpriteView {
    crate::world::SpriteView {
        texture: crate::assets::TextureIdView::Name(
            match p {
                Portrait::Maribelle => "maribelleportrait"@,
                Portrait::Companion => "ghostportrait"@,
            },
        ),
        source: None,
        offset: Vec2i { x: 0, y: 0 },
        centered: false,
        flip_h: false,
        layer: 0,
    }
}

/// Build the portrait sprite for `p`.
pub fn portrait_sprite(p: Portrait) -> (r: SpriteComponent)
    ensures
        r@ == portrait_sprite_view(p),
{
    proof {
        reveal_strlit("maribelleportrait");
        reveal_strlit("ghostportrait");
    }
    let texture = match p {
        Portrait::Maribelle => crate::assets::TextureId::from_name("maribelleportrait"),
        Portrait::Companion => crate::assets::TextureId::from_name("ghostportrait"),
    };
    SpriteComponent {
        texture,
        source: None,
        offset: Vec2i { x: 0, y: 0 },
        centered: false,
        flip_h: false,
        layer: 0,
    }
}

} // verus!
