//! What the panel's controls can report.

use vstd::prelude::*;

verus! {

/// A push-button at the moment of a poll
#[derive(Copy, Clone, Debug, PartialEq, Eq, Structural)]
pub enum ButtonState {
    Pressed,
    Released,
}

/// The movement of one rotary encoder since the last poll
#[derive(Copy, Clone, Debug, PartialEq, Eq, Structural)]
pub enum RotaryState {
    Idle,
    Clockwise,
    CounterClockwise,
}

/// The instrument that a mode selector points at
#[derive(Copy, Clone, Debug, PartialEq, Eq, Structural)]
pub enum ModeSelectorState {
    ModeSelectorCom1,
    ModeSelectorCom2,
    ModeSelectorNav1,
    ModeSelectorNav2,
    ModeSelectorAdf,
    ModeSelectorDme,
    ModeSelectorXpdr,
}

impl RotaryState {
    /// The signed number of detents: one forward when turned clockwise, one back when turned
    /// counterclockwise
    pub open spec fn direction(self) -> int {
        match self {
            RotaryState::Clockwise => 1,
            RotaryState::CounterClockwise => -1,
            RotaryState::Idle => 0,
        }
    }

    /// The change that this movement makes to a value that moves by `step` per detent
    pub fn delta(self, step: i64) -> (change: i64)
        requires
            i64::MIN < step,
        ensures
            change == self.direction() * step,
    {
        match self {
            RotaryState::Clockwise => step,
            RotaryState::CounterClockwise => -step,
            RotaryState::Idle => 0,
        }
    }
}

} // verus!
