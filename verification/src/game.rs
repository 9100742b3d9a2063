//! The game facade: accumulated narrative state (the chosen player and
//! companion personas), text templates that dialogue scripts render against
//! it, and the `Game` object that owns the overworld, the dialogue box and
//! the running script.

use vstd::prelude::*;

use crate::assets::Assets;
use crate::dialogue::{
    dialogue_step, dialogue_wf, empty_dialogue, Dialogue, DialogueView, PortraitOrientation,
    WaitingFor,
};
use crate::input::InputState;
use crate::interact::Event;
use crate::overworld::{update_event, update_model, Overworld};
use crate::script::{
    cancel_model, node_views, run_steps, resume_model, script_blocked, script_state,
    world_frame_except_follows, Level, NodeV, RunStatus, RunnerView, Script, ScriptRunner, Via,
    STEP_BUDGET,
};
use crate::scripts::{
    after_script, ghost_after, ghost_meeting, lamp_dialogue_tree, lamp_script, meeting_script,
};
use crate::world::{Entity, InteractableType, WorldView};

verus! {

/// The persona the player picks for themself.
#[derive(Clone, Copy, PartialEq, Eq, Structural, Debug)]
pub enum PlayerClass {
    Witch,
    Princess,
    Knight,
}

/// The name a player persona goes by.
pub open spec fn player_class_name(c: PlayerClass) -> Seq<char> {
    match c {
        PlayerClass::Witch => "WITCH"@,
        PlayerClass::Princess => "PRINCESS"@,
        PlayerClass::Knight => "KNIGHT"@,
    }
}

/// How the companion addresses that persona.
pub open spec fn player_class_title(c: PlayerClass) -> Seq<char> {
    match c {
        PlayerClass::Witch => "GREAT WITCH"@,
        PlayerClass::Princess => "YOUR HIGHNESS"@,
        PlayerClass::Knight => "MY LADY"@,
    }
}

impl PlayerClass {
    pub fn name(&self) -> (r: &'static str)
        ensures
            r@ == player_class_name(*self),
    {
        match self {
            PlayerClass::Witch => "WITCH",
            PlayerClass::Princess => "PRINCESS",
            PlayerClass::Knight => "KNIGHT",
        }
    }

    pub fn ghost_title(&self) -> (r: &'static str)
        ensures
            r@ == player_class_title(*self),
    {
        match self {
            PlayerClass::Witch => "GREAT WITCH",
            PlayerClass::Princess => "YOUR HIGHNESS",
            PlayerClass::Knight => "MY LADY",
        }
    }
}

/// The persona the ghost companion ends up with.
#[derive(Clone, Copy, PartialEq, Eq, Structural, Debug)]
pub enum GhostClass {
    Spirit,
    Goblin,
    Dwarf,
}

/// The name a companion persona goes by.
pub open spec fn ghost_class_name(c: GhostClass) -> Seq<char> {
    match c {
        GhostClass::Spirit => "GHOST"@,
        GhostClass::Goblin => "GOBLIN"@,
        GhostClass::Dwarf => "DWARF"@,
    }
}

/// The companion's catchphrase for that persona.
pub open spec fn ghost_class_affectation(c: GhostClass) -> Seq<char> {
    match c {
        GhostClass::Spirit => "WOO OO"@,
        GhostClass::Goblin => "NYEHEHEH"@,
        GhostClass::Dwarf => "AYE"@,
    }
}

impl GhostClass {
    pub fn name(&self) -> (r: &'static str)
        ensures
            r@ == ghost_class_name(*self),
    {
        match self {
            GhostClass::Spirit => "GHOST",
            GhostClass::Goblin => "GOBLIN",
            GhostClass::Dwarf => "DWARF",
        }
    }

    pub fn affectation(&self) -> (r: &'static str)
        ensures
            r@ == ghost_class_affectation(*self),
    {
        match self {
            GhostClass::Spirit => "WOO OO",
            GhostClass::Goblin => "NYEHEHEH",
            GhostClass::Dwarf => "AYE",
        }
    }
}

/// Accumulated narrative state: set by dialogue scripts, read by later
/// dialogue scripts.
#[derive(Clone, Copy, PartialEq, Eq, Structural, Debug)]
pub struct Info {
    pub player_class: Option<PlayerClass>,
    pub ghost_class: Option<GhostClass>,
}

impl Default for Info {
    /// Nothing chosen yet.
    fn default() -> (r: Self)
        ensures
            r == (Info { player_class: None, ghost_class: None }),
    {
        Info { player_class: None, ghost_class: None }
    }
}

/// A character whose portrait can sit beside the dialogue box.
#[derive(Clone, Copy, PartialEq, Eq, Structural, Debug)]
pub enum Portrait {
    Maribelle,
    Companion,
}

/// One piece of a templated dialogue line: literal text, or a placeholder
/// filled from the narrative state when the line is shown.
#[derive(Debug)]
pub enum TextPiece {
    Lit(String),
    PlayerClassName,
    PlayerTitle,
    GhostClassName,
    GhostAffectation,
}

/// Mathematical shape of a `TextPiece`.
pub enum TextPieceV {
    Lit(Seq<char>),
    PlayerClassName,
    PlayerTitle,
    GhostClassName,
    GhostAffectation,
}

impl View for TextPiece {
    type V = TextPieceV;

    open spec fn view(&self) -> TextPieceV {
        match self {
            TextPiece::Lit(s) => TextPieceV::Lit(s@),
            TextPiece::PlayerClassName => TextPieceV::PlayerClassName,
            TextPiece::PlayerTitle => TextPieceV::PlayerTitle,
            TextPiece::GhostClassName => TextPieceV::GhostClassName,
            TextPiece::GhostAffectation => TextPieceV::GhostAffectation,
        }
    }
}

/// The view of a whole template.
pub open spec fn pieces_view(ps: Seq<TextPiece>) -> Seq<TextPieceV> {
    ps.map_values(|p: TextPiece| p@)
}

/// What one piece renders to. A placeholder whose persona has not been
/// chosen yet renders empty; the shipped scripts only read a persona after
/// a script has set it.
pub open spec fn piece_text(p: TextPieceV, info: Info) -> Seq<char> {
    match p {
        TextPieceV::Lit(s) => s,
        TextPieceV::PlayerClassName => match info.player_class {
            Some(c) => player_class_name(c),
            None => Seq::empty(),
        },
        TextPieceV::PlayerTitle => match info.player_class {
            Some(c) => player_class_title(c),
            None => Seq::empty(),
        },
        TextPieceV::GhostClassName => match info.ghost_class {
            Some(c) => ghost_class_name(c),
            None => Seq::empty(),
        },
        TextPieceV::GhostAffectation => match info.ghost_class {
            Some(c) => ghost_class_affectation(c),
            None => Seq::empty(),
        },
    }
}

/// What a whole template renders to: the pieces' texts concatenated.
pub open spec fn render_text(ps: Seq<TextPieceV>, info: Info) -> Seq<char>
    decreases ps.len(),
{
    if ps.len() == 0 {
        Seq::empty()
    } else {
        render_text(ps.drop_last(), info) + piece_text(ps.last(), info)
    }
}

/// Render a templated line against the narrative state.
#[verifier::loop_isolation(false)]
pub fn render(pieces: &Vec<TextPiece>, info: &Info) -> (r: String)
    ensures
        r@ == render_text(pieces_view(pieces@), *info),
{
    proof {
        reveal_strlit("");
    }
    let mut out = String::new();
    let mut i: usize = 0;
    while i < pieces.len()
        invariant
            0 <= i <= pieces@.len(),
            out@ == render_text(pieces_view(pieces@).take(i as int), *info),
        decreases pieces@.len() - i,
    {
        match &pieces[i] {
            TextPiece::Lit(s) => out.append(s.as_str()),
            TextPiece::PlayerClassName => match info.player_class {
                Some(c) => out.append(c.name()),
                None => out.append(""),
            },
            TextPiece::PlayerTitle => match info.player_class {
                Some(c) => out.append(c.ghost_title()),
                None => out.append(""),
            },
            TextPiece::GhostClassName => match info.ghost_class {
                Some(c) => out.append(c.name()),
                None => out.append(""),
            },
            TextPiece::GhostAffectation => match info.ghost_class {
                Some(c) => out.append(c.affectation()),
                None => out.append(""),
            },
        }
        proof {
            let ghost pv = pieces_view(pieces@);
            assert(pv.take(i + 1).drop_last() =~= pv.take(i as int));
            assert(pv.take(i + 1).last() == pv[i as int]);
        }
        i = i + 1;
    }
    proof {
        assert(pieces_view(pieces@).take(pieces@.len() as int) =~= pieces_view(pieces@));
    }
    out
}

/// A freshly started run of a script tree.
pub open spec fn fresh_runner(tree: Seq<NodeV>) -> RunnerView {
    RunnerView {
        script: tree,
        stack: seq![Level { pc: 0, via: Via::Root }],
        status: RunStatus::Ready,
    }
}

/// The conversation an interaction event starts: the lamp's; for the
/// companion, the first meeting while no companion persona exists yet, the
/// returning conversation afterwards — the stateful already-met predicate.
pub open spec fn spawned_tree(
    interaction: InteractableType,
    entity: Entity,
    info: Info,
) -> Seq<NodeV> {
    match interaction {
        InteractableType::Lamp => lamp_script(),
        InteractableType::Companion => if info.ghost_class is None {
            meeting_script(entity)
        } else {
            after_script()
        },
    }
}

/// The outcome of one whole frame.
#[verifier::ext_equal]
pub struct FrameResult {
    pub world: WorldView,
    pub dialogue: DialogueView,
    pub info: Info,
    pub script: Option<RunnerView>,
}

/// One whole frame of the game: the overworld ticks with input suppressed
/// while the box is shown; a shown box ticks and its fired signal resumes
/// the held run; an interaction event starts the matching conversation and
/// runs it to its first suspension; a finished or failed run is discarded.
pub open spec fn frame_model(
    assets: crate::assets::AssetsView,
    world0: WorldView,
    player: Entity,
    dialogue0: DialogueView,
    info0: Info,
    script0: Option<RunnerView>,
    input: InputState,
) -> FrameResult {
    let shown = dialogue0.shown;
    let allow = !shown;
    let w1 = update_model(assets, world0, player, input, allow);
    let ev = update_event(world0, player, input, allow);
    let step = dialogue_step(dialogue0, input);
    let d1 = if shown {
        step.0
    } else {
        dialogue0
    };
    let fired: Option<crate::dialogue::Signal> = if shown {
        step.1
    } else {
        None
    };
    let after_resume: (Option<RunnerView>, DialogueView, Info, WorldView) = match (
        script0,
        fired,
    ) {
        (Some(r), Some(sig)) => if r.status is Waiting {
            let end = resume_model(script_state(r, d1, info0, w1), sig, player);
            (Some(end.runner), end.dialogue, end.info, end.world)
        } else {
            (Some(r), d1, info0, w1)
        },
        _ => (script0, d1, info0, w1),
    };
    let after_spawn: (Option<RunnerView>, DialogueView, Info, WorldView) = match ev {
        Some(Event::Interaction { entity, interaction }) => {
            let tree = spawned_tree(interaction, entity, after_resume.2);
            let end = run_steps(
                script_state(fresh_runner(tree), after_resume.1, after_resume.2, after_resume.3),
                player,
                STEP_BUDGET as nat,
            );
            (Some(end.runner), end.dialogue, end.info, end.world)
        },
        None => after_resume,
    };
    let script_final: Option<RunnerView> = match after_spawn.0 {
        Some(r) => if script_blocked(r.status) {
            None
        } else {
            Some(r)
        },
        None => None,
    };
    FrameResult {
        world: after_spawn.3,
        dialogue: after_spawn.1,
        info: after_spawn.2,
        script: script_final,
    }
}

/// The whole game: the overworld, the dialogue box, the accumulated
/// narrative state, and the script currently driving a conversation, if
/// any.
pub struct Game {
    pub overworld: Overworld,
    pub dialogue: Dialogue,
    pub info: Info,
    pub script: Option<ScriptRunner>,
}

impl Game {
    /// Well-formedness: the overworld and dialogue invariants hold, and a
    /// held script run is always suspended, finished or failed — never
    /// mid-step.
    pub open spec fn wf(self) -> bool {
        &&& self.overworld.wf()
        &&& dialogue_wf(self.dialogue@)
        &&& match self.script {
            Some(r) => !(r@.status is Ready),
            None => true,
        }
    }

    /// A fresh game: the opening overworld, a closed dialogue box, no
    /// narrative state, no running script.
    pub fn new(assets: &Assets) -> (r: Game)
        ensures
            r.wf(),
            r.overworld.world@ == crate::overworld::initial_overworld(assets@),
            r.overworld.player == (crate::world::Entity { idx: 3usize, gen: 0u64 }),
            r.dialogue@ == empty_dialogue(),
            r.info == (Info { player_class: None, ghost_class: None }),
            r.script is None,
    {
        Game {
            overworld: Overworld::new(assets),
            dialogue: Dialogue::default(),
            info: Info::default(),
            script: None,
        }
    }

    /// Show a line and leave the box waiting for a confirm press.
    pub fn show_text(&mut self, text: String)
        requires
            dialogue_wf(old(self).dialogue@),
        ensures
            dialogue_wf(final(self).dialogue@),
            final(self).dialogue@ == (crate::dialogue::DialogueView {
                shown: true,
                text: text@,
                progress: 0,
                waiting: WaitingFor::Confirm,
                ..old(self).dialogue@
            }),
            final(self).overworld == old(self).overworld,
            final(self).info == old(self).info,
            final(self).script == old(self).script,
    {
        self.dialogue.set_text(text);
        self.dialogue.set_waiting(WaitingFor::Confirm);
    }

    /// Show a line that advances by itself once fully revealed.
    pub fn show_text_auto(&mut self, text: String)
        requires
            dialogue_wf(old(self).dialogue@),
        ensures
            dialogue_wf(final(self).dialogue@),
            final(self).dialogue@ == (crate::dialogue::DialogueView {
                shown: true,
                text: text@,
                progress: 0,
                waiting: WaitingFor::Auto,
                ..old(self).dialogue@
            }),
            final(self).overworld == old(self).overworld,
            final(self).info == old(self).info,
            final(self).script == old(self).script,
    {
        self.dialogue.set_text(text);
        self.dialogue.set_waiting(WaitingFor::Auto);
    }

    /// Present a choice list and leave the box waiting for the choice.
    pub fn show_choice(&mut self, choices: Vec<String>)
        requires
            dialogue_wf(old(self).dialogue@),
            choices@.len() >= 1,
        ensures
            dialogue_wf(final(self).dialogue@),
            final(self).dialogue@ == (crate::dialogue::DialogueView {
                choices: Some(crate::dialogue::strings_view(choices@)),
                current_choice: 0,
                waiting: WaitingFor::Choice,
                ..old(self).dialogue@
            }),
            final(self).overworld == old(self).overworld,
            final(self).info == old(self).info,
            final(self).script == old(self).script,
    {
        self.dialogue.show_choices(choices);
    }

    /// Replace the portrait beside the box.
    pub fn show_portrait(&mut self, p: Option<(Portrait, PortraitOrientation)>)
        requires
            dialogue_wf(old(self).dialogue@),
        ensures
            dialogue_wf(final(self).dialogue@),
            final(self).dialogue@ == (crate::dialogue::DialogueView {
                portrait: match p {
                    Some((c, o)) => Some((crate::script::portrait_sprite_view(c), o)),
                    None => None,
                },
                ..old(self).dialogue@
            }),
            final(self).overworld == old(self).overworld,
            final(self).info == old(self).info,
            final(self).script == old(self).script,
    {
        let sprite = match p {
            Some((c, o)) => Some((crate::script::portrait_sprite(c), o)),
            None => None,
        };
        self.dialogue.set_portrait(sprite);
    }

    /// Force-end the conversation: every piece of dialogue state is
    /// dropped, and a script still running or suspended is cancelled — it
    /// fails with the cancellation error and can never resume.
    pub fn end_dialogue(&mut self)
        ensures
            dialogue_wf(final(self).dialogue@),
            final(self).dialogue@ == empty_dialogue(),
            final(self).overworld == old(self).overworld,
            final(self).info == old(self).info,
            match (old(self).script, final(self).script) {
                (Some(o), Some(n)) => n@ == (crate::script::RunnerView {
                    status: cancel_model(o@.status),
                    ..o@
                }),
                (None, None) => true,
                _ => false,
            },
    {
        self.dialogue.clear();
        let s = self.script.take();
        match s {
            Some(mut r) => {
                r.cancel();
                self.script = Some(r);
            },
            None => {},
        }
    }

    /// Hand a fresh script to the runner and let it execute up to its
    /// first suspension. Replaces whatever run was held before.
    fn start_script(&mut self, script: Script)
        requires
            dialogue_wf(old(self).dialogue@),
            old(self).overworld.wf(),
        ensures
            dialogue_wf(final(self).dialogue@),
            final(self).overworld.wf(),
            world_frame_except_follows(final(self).overworld.world@, old(self).overworld.world@),
            final(self).overworld.player == old(self).overworld.player,
            ({
                let end = run_steps(
                    script_state(
                        fresh_runner(node_views(script@)),
                        old(self).dialogue@,
                        old(self).info,
                        old(self).overworld.world@,
                    ),
                    old(self).overworld.player,
                    STEP_BUDGET as nat,
                );
                &&& match final(self).script {
                    Some(r) => r@ == end.runner,
                    None => false,
                }
                &&& final(self).dialogue@ == end.dialogue
                &&& final(self).info == end.info
                &&& final(self).overworld.world@ == end.world
            }),
            match final(self).script {
                Some(r) => !(r@.status is Ready),
                None => false,
            },
    {
        let mut r = ScriptRunner::new(script);
        let player = self.overworld.player;
        r.advance(&mut self.dialogue, &mut self.info, &mut self.overworld.world, player);
        self.script = Some(r);
    }

    /// One frame: the overworld ticks (input suppressed while a dialogue
    /// is shown); a shown dialogue box ticks and may fire one signal,
    /// which resumes the suspended script; an interaction event spawns the
    /// matching script — the lamp's, the first-meeting conversation, or
    /// the returning conversation once a companion persona exists; a
    /// finished or failed run is discarded. Scripts only ever rewrite the
    /// dialogue box, the narrative state and follow components.
    pub fn update(&mut self, assets: &Assets, input: &InputState)
        requires
            old(self).wf(),
        ensures
            final(self).wf(),
            final(self).overworld.player == old(self).overworld.player,
            world_frame_except_follows(
                final(self).overworld.world@,
                update_model(
                    assets@,
                    old(self).overworld.world@,
                    old(self).overworld.player,
                    *input,
                    !old(self).dialogue@.shown,
                ),
            ),
            ({
                let fr = frame_model(
                    assets@,
                    old(self).overworld.world@,
                    old(self).overworld.player,
                    old(self).dialogue@,
                    old(self).info,
                    match old(self).script {
                        Some(r) => Some(r@),
                        None => None,
                    },
                    *input,
                );
                &&& final(self).overworld.world@ == fr.world
                &&& final(self).dialogue@ == fr.dialogue
                &&& final(self).info == fr.info
                &&& match (final(self).script, fr.script) {
                    (Some(a), Some(b)) => a@ == b,
                    (None, None) => true,
                    _ => false,
                }
            }),
    {
        let ghost script0: Option<RunnerView> = match &self.script {
            Some(r) => Some(r@),
            None => None,
        };
        let ghost fr = frame_model(
            assets@,
            self.overworld.world@,
            self.overworld.player,
            self.dialogue@,
            self.info,
            script0,
            *input,
        );
        let shown = self.dialogue.shown();
        let allow = !shown;
        let mut events: Vec<Event> = Vec::new();
        self.overworld.update(assets, input, &mut events, allow);
        if shown {
            let fired = self.dialogue.update(input);
            if let Some(sig) = fired {
                let s = self.script.take();
                match s {
                    Some(mut r) => {
                        let player = self.overworld.player;
                        r.resume(
                            sig,
                            &mut self.dialogue,
                            &mut self.info,
                            &mut self.overworld.world,
                            player,
                        );
                        self.script = Some(r);
                    },
                    None => {},
                }
            }
        }
        if events.len() >= 1 {
            match events[0] {
                Event::Interaction { entity, interaction } => {
                    match interaction {
                        InteractableType::Lamp => {
                            self.start_script(lamp_dialogue_tree());
                        },
                        InteractableType::Companion => {
                            if self.info.ghost_class.is_none() {
                                self.start_script(ghost_meeting(entity));
                            } else {
                                self.start_script(ghost_after());
                            }
                        },
                    }
                },
            }
        }
        let finished = match &self.script {
            Some(r) => matches!(r.status(), RunStatus::Done | RunStatus::Failed(_)),
            None => false,
        };
        if finished {
            self.script = None;
        }
        proof {
            let ghost fin_script: Option<RunnerView> = match &self.script {
                Some(r) => Some(r@),
                None => None,
            };
            assert(self.overworld.world@ =~~= fr.world);
            assert(self.dialogue@ =~~= fr.dialogue);
            assert(self.info == fr.info);
            assert(fin_script =~~= fr.script);
        }
    }

    /// The script run's status, if a script is held.
    pub fn script_status(&self) -> (r: Option<RunStatus>)
        ensures
            r == match self.script {
                Some(s) => Some(s@.status),
                None => None,
            },
    {
        match &self.script {
            Some(s) => Some(s.status()),
            None => None,
        }
    }
}

} // verus!
