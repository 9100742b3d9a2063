//! The per-frame input snapshot the core consumes. The input collaborator
//! (a windowing library) fills one of these each frame; "held" is
//! level-triggered, "pressed" is edge-triggered — one activation per
//! physical press.

use vstd::prelude::*;

verus! {

/// One frame's worth of input.
#[derive(Clone, Copy, PartialEq, Eq, Structural, Debug, Default)]
pub struct InputState {
    /// Movement keys currently held down.
    pub up_held: bool,
    pub down_held: bool,
    pub left_held: bool,
    pub right_held: bool,
    /// The interact / confirm key was pressed this frame.
    pub confirm_pressed: bool,
    /// Menu navigation keys pressed this frame.
    pub up_pressed: bool,
    pub down_pressed: bool,
}

impl InputState {
    /// A frame with no input at all.
    pub fn none() -> (r: InputState)
        ensures
            r == (InputState {
                up_held: false,
                down_held: false,
                left_held: false,
                right_held: false,
                confirm_pressed: false,
                up_pressed: false,
                down_pressed: false,
            }),
    {
        InputState {
            up_held: false,
            down_held: false,
            left_held: false,
            right_held: false,
            confirm_pressed: false,
            up_pressed: false,
            down_pressed: false,
        }
    }
}

} // verus!
