//! The dialogue engine: a text box revealing one character per tick, an
//! optional choice list with wraparound navigation, and a single pending
//! continuation (confirm / choice / auto-advance) that fires as a one-shot
//! signal. At most one signal fires per tick.

use vstd::prelude::*;

use crate::input::InputState;
use crate::world::{SpriteComponent, SpriteView};

verus! {

/// The single pending continuation a suspended dialogue script waits on.
#[derive(Clone, Copy, PartialEq, Eq, Structural, Debug)]
pub enum WaitingFor {
    Confirm,
    Choice,
    Auto,
    Nothing,
}

impl Default for WaitingFor {
    fn default() -> (r: Self)
        ensures
            r == WaitingFor::Nothing,
    {
        WaitingFor::Nothing
    }
}

/// Which side of the box a portrait sits on.
#[derive(Clone, Copy, PartialEq, Eq, Structural, Debug)]
pub enum PortraitOrientation {
    Left,
    Right,
}

/// The one-shot value that resumes a suspended dialogue script.
#[derive(Clone, Copy, PartialEq, Eq, Structural, Debug)]
pub enum Signal {
    Confirm,
    Choice(usize),
    Auto,
}

/// Mathematical shape of the dialogue state.
#[verifier::ext_equal]
pub struct DialogueView {
    pub shown: bool,
    pub text: Seq<char>,
    pub progress: int,
    pub waiting: WaitingFor,
    pub choices: Option<Seq<Seq<char>>>,
    pub current_choice: int,
    pub portrait: Option<(SpriteView, PortraitOrientation)>,
}

/// The dialogue state of a closed box: nothing shown, nothing pending.
pub open spec fn empty_dialogue() -> DialogueView {
    DialogueView {
        shown: false,
        text: Seq::empty(),
        progress: 0,
        waiting: WaitingFor::Nothing,
        choices: None,
        current_choice: 0,
        portrait: None,
    }
}

/// Reveal progress never runs past the text, and a choice list is never
/// empty with its highlight always on a real entry.
pub open spec fn dialogue_wf(d: DialogueView) -> bool {
    &&& 0 <= d.progress <= d.text.len()
    &&& match d.choices {
        Some(c) => c.len() >= 1 && 0 <= d.current_choice < c.len(),
        None => true,
    }
}

/// Where the highlight lands after this tick's up/down presses: up then
/// down, each wrapping around the `len` entries.
pub open spec fn choice_nav(cur: int, len: int, up: bool, down: bool) -> int {
    let c1 = if up {
        if cur == 0 {
            len - 1
        } else {
            cur - 1
        }
    } else {
        cur
    };
    if down {
        if c1 >= len - 1 {
            0
        } else {
            c1 + 1
        }
    } else {
        c1
    }
}

/// One tick of the dialogue box: reveal one more character (stopping at the
/// end of the text), move the choice highlight, then fire at most one
/// signal — a pending auto-advance fires by itself the moment the text is
/// fully revealed; confirm and choice continuations fire only on a confirm
/// press, a resolved choice carrying the highlighted index and dropping the
/// list.
pub open spec fn dialogue_step(d: DialogueView, input: InputState) -> (DialogueView, Option<
    Signal,
>) {
    let progress2: int = if d.progress < d.text.len() {
        d.progress + 1
    } else {
        d.progress
    };
    let cur2: int = match d.choices {
        Some(c) => choice_nav(d.current_choice, c.len() as int, input.up_pressed, input.down_pressed),
        None => d.current_choice,
    };
    let auto_fires = progress2 >= d.text.len() && d.waiting is Auto;
    let w1 = if auto_fires {
        WaitingFor::Nothing
    } else {
        d.waiting
    };
    if input.confirm_pressed && w1 is Confirm {
        (
            DialogueView { progress: progress2, current_choice: cur2, waiting: WaitingFor::Nothing, ..d },
            Some(Signal::Confirm),
        )
    } else if input.confirm_pressed && w1 is Choice {
        (
            DialogueView {
                progress: progress2,
                current_choice: cur2,
                waiting: WaitingFor::Nothing,
                choices: None,
                ..d
            },
            Some(Signal::Choice(cur2 as usize)),
        )
    } else {
        (
            DialogueView { progress: progress2, current_choice: cur2, waiting: w1, ..d },
            if auto_fires {
                Some(Signal::Auto)
            } else {
                None
            },
        )
    }
}

/// The view of a list of option strings.
pub open spec fn strings_view(v: Seq<String>) -> Seq<Seq<char>> {
    v.map_values(|s: String| s@)
}

/// The dialogue box state.
#[derive(Debug)]
pub struct Dialogue {
    shown: bool,
    current_text: String,
    current_progress: usize,
    waiting_for: WaitingFor,
    choices: Option<Vec<String>>,
    current_choice: usize,
    portrait: Option<(SpriteComponent, PortraitOrientation)>,
}

impl View for Dialogue {
    type V = DialogueView;

    closed spec fn view(&self) -> DialogueView {
        DialogueView {
            shown: self.shown,
            text: self.current_text@,
            progress: self.current_progress as int,
            waiting: self.waiting_for,
            choices: match self.choices {
                Some(c) => Some(strings_view(c@)),
                None => None,
            },
            current_choice: self.current_choice as int,
            portrait: match self.portrait {
                Some((s, o)) => Some((s@, o)),
                None => None,
            },
        }
    }
}

impl Default for Dialogue {
    /// A closed dialogue box.
    fn default() -> (r: Self)
        ensures
            r@ == empty_dialogue(),
            dialogue_wf(r@),
    {
        let r = Dialogue {
            shown: false,
            current_text: String::new(),
            current_progress: 0,
            waiting_for: WaitingFor::Nothing,
            choices: None,
            current_choice: 0,
            portrait: None,
        };
        proof {
            assert(r@ =~= empty_dialogue());
        }
        r
    }
}

impl Dialogue {
    /// Show the box with fresh text: reveal progress restarts at zero, the
    /// buffer is replaced, everything else stays.
    pub fn set_text(&mut self, text: String)
        requires
            dialogue_wf(old(self)@),
        ensures
            dialogue_wf(final(self)@),
            final(self)@ == (DialogueView { shown: true, text: text@, progress: 0, ..old(self)@ }),
    {
        let ghost t = text@;
        self.shown = true;
        self.current_text = text;
        self.current_progress = 0;
        proof {
            assert(self@ =~= (DialogueView { shown: true, text: t, progress: 0, ..old(self)@ }));
        }
    }

    /// Replace the pending continuation.
    pub fn set_waiting(&mut self, w: WaitingFor)
        requires
            dialogue_wf(old(self)@),
        ensures
            dialogue_wf(final(self)@),
            final(self)@ == (DialogueView { waiting: w, ..old(self)@ }),
    {
        self.waiting_for = w;
        proof {
            assert(self@ =~= (DialogueView { waiting: w, ..old(self)@ }));
        }
    }

    /// Present a choice list: highlight on the first entry, waiting for a
    /// choice signal.
    pub fn show_choices(&mut self, options: Vec<String>)
        requires
            dialogue_wf(old(self)@),
            options@.len() >= 1,
        ensures
            dialogue_wf(final(self)@),
            final(self)@ == (DialogueView {
                choices: Some(strings_view(options@)),
                current_choice: 0,
                waiting: WaitingFor::Choice,
                ..old(self)@
            }),
    {
        let ghost o = options@;
        self.choices = Some(options);
        self.current_choice = 0;
        self.waiting_for = WaitingFor::Choice;
        proof {
            assert(self@ =~= (DialogueView {
                choices: Some(strings_view(o)),
                current_choice: 0,
                waiting: WaitingFor::Choice,
                ..old(self)@
            }));
        }
    }

    /// Replace the portrait.
    pub fn set_portrait(&mut self, p: Option<(SpriteComponent, PortraitOrientation)>)
        requires
            dialogue_wf(old(self)@),
        ensures
            dialogue_wf(final(self)@),
            final(self)@ == (DialogueView {
                portrait: match p {
                    Some((s, o)) => Some((s@, o)),
                    None => None,
                },
                ..old(self)@
            }),
    {
        let ghost pv: Option<(SpriteView, PortraitOrientation)> = match p {
            Some((ref s, o)) => Some((s@, o)),
            None => None,
        };
        self.portrait = p;
        proof {
            assert(self@ =~= (DialogueView { portrait: pv, ..old(self)@ }));
        }
    }

    /// Close the box and drop every piece of dialogue state — text,
    /// portrait, choices, highlight and pending continuation — so that no
    /// stale continuation can ever fire after the dialogue ends.
    pub fn clear(&mut self)
        ensures
            dialogue_wf(final(self)@),
            final(self)@ == empty_dialogue(),
    {
        self.shown = false;
        self.current_text = String::new();
        self.current_progress = 0;
        self.waiting_for = WaitingFor::Nothing;
        self.choices = None;
        self.current_choice = 0;
        self.portrait = None;
        proof {
            assert(self@ =~= empty_dialogue());
        }
    }

    /// One tick, per `dialogue_step`: reveal, navigate, fire at most one
    /// signal.
    pub fn update(&mut self, input: &InputState) -> (fired: Option<Signal>)
        requires
            dialogue_wf(old(self)@),
        ensures
            dialogue_wf(final(self)@),
            final(self)@ == dialogue_step(old(self)@, *input).0,
            fired == dialogue_step(old(self)@, *input).1,
    {
        if self.current_progress < self.current_text.as_str().unicode_len() {
            self.current_progress = self.current_progress + 1;
        }
        if let Some(c) = &self.choices {
            if input.up_pressed {
                self.current_choice = if self.current_choice == 0 {
                    c.len() - 1
                } else {
                    self.current_choice - 1
                };
            }
            if input.down_pressed {
                self.current_choice = if self.current_choice >= c.len() - 1 {
                    0
                } else {
                    self.current_choice + 1
                };
            }
        }
        let mut fired: Option<Signal> = None;
        if self.current_progress >= self.current_text.as_str().unicode_len() {
            if self.waiting_for == WaitingFor::Auto {
                self.waiting_for = WaitingFor::Nothing;
                fired = Some(Signal::Auto);
            }
        }
        if input.confirm_pressed {
            if self.waiting_for == WaitingFor::Confirm {
                self.waiting_for = WaitingFor::Nothing;
                fired = Some(Signal::Confirm);
            } else if self.waiting_for == WaitingFor::Choice {
                self.waiting_for = WaitingFor::Nothing;
                fired = Some(Signal::Choice(self.current_choice));
                self.choices = None;
            }
        }
        proof {
            assert(self@ =~= dialogue_step(old(self)@, *input).0);
        }
        fired
    }

    /// Whether the box is on screen.
    pub fn shown(&self) -> (r: bool)
        ensures
            r == self@.shown,
    {
        self.shown
    }

    /// The pending continuation.
    pub fn waiting(&self) -> (r: WaitingFor)
        ensures
            r == self@.waiting,
    {
        self.waiting_for
    }

    /// The highlighted choice index.
    pub fn current_choice(&self) -> (r: usize)
        ensures
            r == self@.current_choice,
    {
        self.current_choice
    }

    /// How many entries the choice list currently holds; 0 without a list.
    pub fn choice_count(&self) -> (r: usize)
        ensures
            r == match self@.choices {
                Some(c) => c.len() as usize,
                None => 0usize,
            },
    {
        match &self.choices {
            Some(c) => c.len(),
            None => 0,
        }
    }

    /// How many characters of the text count as revealed: the reveal
    /// progress, which the display clamps to the text length.
    pub fn revealed_len(&self) -> (r: usize)
        requires
            dialogue_wf(self@),
        ensures
            r == vstd::math::min(self@.progress, self@.text.len() as int),
    {
        let len = self.current_text.as_str().unicode_len();
        if self.current_progress < len {
            self.current_progress
        } else {
            len
        }
    }

    /// The revealed prefix of the text.
    pub fn revealed(&self) -> (r: &str)
        requires
            dialogue_wf(self@),
        ensures
            r@ == self@.text.subrange(0, vstd::math::min(self@.progress, self@.text.len() as int)),
    {
        let n = self.revealed_len();
        self.current_text.as_str().substring_char(0, n)
    }
}

} // verus!
