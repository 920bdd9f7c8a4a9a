//! What a player does in one frame: the buttons of both controllers, and whether the reset button
//! is pressed before the frame begins.
//!
//! A reset is part of the input, so a sequence of inputs replays everything that was done. It is
//! the reset signal, not a power cycle: memory and cartridge stay.

use vstd::prelude::*;

use crate::joypad::Buttons;

verus! {

#[derive(Debug, Clone, Copy, PartialEq, Eq, Structural)]
pub struct FrameInput {
    pub p1: Buttons,
    pub p2: Buttons,
    /// The reset button is pressed before this frame.
    pub reset: bool,
}

impl Default for FrameInput {
    fn default() -> (input: Self)
        ensures
            input == FrameInput::idle(),
    {
        FrameInput::none()
    }
}

impl FrameInput {
    /// Nothing is pressed.
    pub open spec fn idle() -> FrameInput {
        FrameInput { p1: Buttons { raw: 0 }, p2: Buttons { raw: 0 }, reset: false }
    }

    pub fn none() -> (input: Self)
        ensures
            input == FrameInput::idle(),
    {
        FrameInput { p1: Buttons::empty(), p2: Buttons::empty(), reset: false }
    }

    pub fn new(p1: Buttons, p2: Buttons) -> (input: Self)
        ensures
            input == (FrameInput { p1, p2, reset: false }),
    {
        FrameInput { p1, p2, reset: false }
    }

    /// The same buttons, with the reset button pressed before the frame.
    pub fn with_reset(self) -> (input: Self)
        ensures
            input == (FrameInput { reset: true, ..self }),
    {
        FrameInput { p1: self.p1, p2: self.p2, reset: true }
    }
}

impl From<[Buttons; 2]> for FrameInput {
    /// The buttons of both players, without a reset.
    fn from(pads: [Buttons; 2]) -> (input: Self) {
        FrameInput::new(pads[0], pads[1])
    }
}

impl vstd::std_specs::convert::FromSpecImpl<[Buttons; 2]> for FrameInput {
    open spec fn obeys_from_spec() -> bool {
        true
    }

    open spec fn from_spec(pads: [Buttons; 2]) -> FrameInput {
        FrameInput { p1: pads@[0], p2: pads@[1], reset: false }
    }
}

} // verus!
