//! The panel's two reports: the input report that says what the controls do, and the feature
//! report that says what the windows show.

use vstd::prelude::*;
use crate::constants::{
    BITMASK_BUTTON_LOWER_PRESSED, BITMASK_BUTTON_UPPER_PRESSED, BITMASK_MODE_SELECTOR_LOWER_ADF,
    BITMASK_MODE_SELECTOR_LOWER_COM1, BITMASK_MODE_SELECTOR_LOWER_COM2,
    BITMASK_MODE_SELECTOR_LOWER_DME, BITMASK_MODE_SELECTOR_LOWER_NAV1,
    BITMASK_MODE_SELECTOR_LOWER_NAV2, BITMASK_MODE_SELECTOR_LOWER_XPDR,
    BITMASK_MODE_SELECTOR_UPPER_ADF, BITMASK_MODE_SELECTOR_UPPER_COM1,
    BITMASK_MODE_SELECTOR_UPPER_COM2, BITMASK_MODE_SELECTOR_UPPER_DME,
    BITMASK_MODE_SELECTOR_UPPER_NAV1, BITMASK_MODE_SELECTOR_UPPER_NAV2,
    BITMASK_MODE_SELECTOR_UPPER_XPDR, BITMASK_ROTARY_LOWER_INNER_CLOCKWISE,
    BITMASK_ROTARY_LOWER_INNER_COUNTERCLOCKWISE, BITMASK_ROTARY_LOWER_OUTER_CLOCKWISE,
    BITMASK_ROTARY_LOWER_OUTER_COUNTERCLOCKWISE, BITMASK_ROTARY_UPPER_INNER_CLOCKWISE,
    BITMASK_ROTARY_UPPER_INNER_COUNTERCLOCKWISE, BITMASK_ROTARY_UPPER_OUTER_CLOCKWISE,
    BITMASK_ROTARY_UPPER_OUTER_COUNTERCLOCKWISE, NO_INPUTS_AFTER_TIMEOUT,
};
use crate::input_states::{ButtonState, ModeSelectorState, RotaryState};

verus! {

/// What all controls of the panel report in one poll
#[derive(Copy, Clone, Debug, PartialEq, Eq, Structural)]
pub struct InputState {
    pub mode_selector_upper: ModeSelectorState,
    pub mode_selector_lower: ModeSelectorState,
    pub rotary_upper_inner: RotaryState,
    pub rotary_upper_outer: RotaryState,
    pub rotary_lower_inner: RotaryState,
    pub rotary_lower_outer: RotaryState,
    pub button_upper: ButtonState,
    pub button_lower: ButtonState,
}

/// The bits of the input word that stand for the seven positions of one mode selector
#[derive(Copy, Clone, Debug, PartialEq, Eq, Structural)]
pub struct ModeSelectorBitmaps {
    pub com1: u32,
    pub com2: u32,
    pub nav1: u32,
    pub nav2: u32,
    pub adf: u32,
    pub dme: u32,
    pub xpdr: u32,
}

/// An input report that cannot come from a sound panel: a mode selector always points at one
/// of its seven positions, and this word has the bit of none. Each variant carries the word.
#[derive(Copy, Clone, Debug, PartialEq, Eq, Structural)]
pub enum DecodeError {
    /// No bit of the upper mode selector is set
    UnknownUpperModeSelector(u32),
    /// A bit of the upper mode selector is set, and none of the lower one
    UnknownLowerModeSelector(u32),
}

/// The three bytes of an input report as one word, first byte highest
pub open spec fn packed_word(report: Seq<u8>) -> u32 {
    (report[0] as u32 * 0x1_0000 + report[1] as u32 * 0x100 + report[2] as u32) as u32
}

/// Does a bitmask apply: is any of its bits set in the word?
pub open spec fn bitmask_applies_spec(input_buffer: u32, bitmask: u32) -> bool {
    input_buffer & bitmask != 0
}

/// The state of a button, whose bit is set while it is pressed
pub open spec fn button_state_of(input_buffer: u32, bitmask_button_pressed: u32) -> ButtonState {
    if bitmask_applies_spec(input_buffer, bitmask_button_pressed) {
        ButtonState::Pressed
    } else {
        ButtonState::Released
    }
}

/// The movement of a rotary: the clockwise bit is looked at first, then the counterclockwise
/// one
pub open spec fn rotary_state_of(
    input_buffer: u32,
    bitmask_clockwise: u32,
    bitmask_counterclockwise: u32,
) -> RotaryState {
    if bitmask_applies_spec(input_buffer, bitmask_clockwise) {
        RotaryState::Clockwise
    } else if bitmask_applies_spec(input_buffer, bitmask_counterclockwise) {
        RotaryState::CounterClockwise
    } else {
        RotaryState::Idle
    }
}

/// The position of a mode selector: the first of COM1, COM2, NAV1, NAV2, ADF, DME, XPDR whose
/// bit is set; none if no bit is set
pub open spec fn mode_selector_state_of(
    input_buffer: u32,
    bitmaps: ModeSelectorBitmaps,
) -> Option<ModeSelectorState> {
    if bitmask_applies_spec(input_buffer, bitmaps.com1) {
        Some(ModeSelectorState::ModeSelectorCom1)
    } else if bitmask_applies_spec(input_buffer, bitmaps.com2) {
        Some(ModeSelectorState::ModeSelectorCom2)
    } else if bitmask_applies_spec(input_buffer, bitmaps.nav1) {
        Some(ModeSelectorState::ModeSelectorNav1)
    } else if bitmask_applies_spec(input_buffer, bitmaps.nav2) {
        Some(ModeSelectorState::ModeSelectorNav2)
    } else if bitmask_applies_spec(input_buffer, bitmaps.adf) {
        Some(ModeSelectorState::ModeSelectorAdf)
    } else if bitmask_applies_spec(input_buffer, bitmaps.dme) {
        Some(ModeSelectorState::ModeSelectorDme)
    } else if bitmask_applies_spec(input_buffer, bitmaps.xpdr) {
        Some(ModeSelectorState::ModeSelectorXpdr)
    } else {
        None
    }
}

/// The bits of the upper mode selector
pub open spec fn upper_bitmaps() -> ModeSelectorBitmaps {
    ModeSelectorBitmaps {
        com1: BITMASK_MODE_SELECTOR_UPPER_COM1,
        com2: BITMASK_MODE_SELECTOR_UPPER_COM2,
        nav1: BITMASK_MODE_SELECTOR_UPPER_NAV1,
        nav2: BITMASK_MODE_SELECTOR_UPPER_NAV2,
        adf: BITMASK_MODE_SELECTOR_UPPER_ADF,
        dme: BITMASK_MODE_SELECTOR_UPPER_DME,
        xpdr: BITMASK_MODE_SELECTOR_UPPER_XPDR,
    }
}

/// The bits of the lower mode selector
pub open spec fn lower_bitmaps() -> ModeSelectorBitmaps {
    ModeSelectorBitmaps {
        com1: BITMASK_MODE_SELECTOR_LOWER_COM1,
        com2: BITMASK_MODE_SELECTOR_LOWER_COM2,
        nav1: BITMASK_MODE_SELECTOR_LOWER_NAV1,
        nav2: BITMASK_MODE_SELECTOR_LOWER_NAV2,
        adf: BITMASK_MODE_SELECTOR_LOWER_ADF,
        dme: BITMASK_MODE_SELECTOR_LOWER_DME,
        xpdr: BITMASK_MODE_SELECTOR_LOWER_XPDR,
    }
}

/// What an input word says.
///
/// The word 0 is what a poll gives that timed out: no new input. In every other word each
/// button and rotary is read from its bits, and each mode selector must show one of its seven
/// positions; the upper selector is looked at first.
pub open spec fn decoded_word(input_buffer: u32) -> Result<Option<InputState>, DecodeError> {
    if input_buffer == NO_INPUTS_AFTER_TIMEOUT {
        Ok(None)
    } else {
        match (
            mode_selector_state_of(input_buffer, upper_bitmaps()),
            mode_selector_state_of(input_buffer, lower_bitmaps()),
        ) {
            (None, _) => Err(DecodeError::UnknownUpperModeSelector(input_buffer)),
            (Some(_), None) => Err(DecodeError::UnknownLowerModeSelector(input_buffer)),
            (Some(upper), Some(lower)) => Ok(
                Some(
                    InputState {
                        mode_selector_upper: upper,
                        mode_selector_lower: lower,
                        rotary_upper_inner: rotary_state_of(
                            input_buffer,
                            BITMASK_ROTARY_UPPER_INNER_CLOCKWISE,
                            BITMASK_ROTARY_UPPER_INNER_COUNTERCLOCKWISE,
                        ),
                        rotary_upper_outer: rotary_state_of(
                            input_buffer,
                            BITMASK_ROTARY_UPPER_OUTER_CLOCKWISE,
                            BITMASK_ROTARY_UPPER_OUTER_COUNTERCLOCKWISE,
                        ),
                        rotary_lower_inner: rotary_state_of(
                            input_buffer,
                            BITMASK_ROTARY_LOWER_INNER_CLOCKWISE,
                            BITMASK_ROTARY_LOWER_INNER_COUNTERCLOCKWISE,
                        ),
                        rotary_lower_outer: rotary_state_of(
                            input_buffer,
                            BITMASK_ROTARY_LOWER_OUTER_CLOCKWISE,
                            BITMASK_ROTARY_LOWER_OUTER_COUNTERCLOCKWISE,
                        ),
                        button_upper: button_state_of(input_buffer, BITMASK_BUTTON_UPPER_PRESSED),
                        button_lower: button_state_of(input_buffer, BITMASK_BUTTON_LOWER_PRESSED),
                    },
                ),
            ),
        }
    }
}

impl InputState {
    /// The controls at rest: both selectors on COM1, no rotary moving, no button pressed
    pub fn new() -> (state: InputState)
        ensures
            state == (InputState {
                mode_selector_upper: ModeSelectorState::ModeSelectorCom1,
                mode_selector_lower: ModeSelectorState::ModeSelectorCom1,
                rotary_upper_inner: RotaryState::Idle,
                rotary_upper_outer: RotaryState::Idle,
                rotary_lower_inner: RotaryState::Idle,
                rotary_lower_outer: RotaryState::Idle,
                button_upper: ButtonState::Released,
                button_lower: ButtonState::Released,
            }),
    {
        InputState {
            mode_selector_upper: ModeSelectorState::ModeSelectorCom1,
            mode_selector_lower: ModeSelectorState::ModeSelectorCom1,
            rotary_upper_inner: RotaryState::Idle,
            rotary_upper_outer: RotaryState::Idle,
            rotary_lower_inner: RotaryState::Idle,
            rotary_lower_outer: RotaryState::Idle,
            button_upper: ButtonState::Released,
            button_lower: ButtonState::Released,
        }
    }
}

/// Does a passed bitmask apply?
/// True if any 1 bit of the bitmask is also 1 in the buffer
pub fn bitmask_applies(input_buffer: u32, bitmask: u32) -> (applies: bool)
    ensures
        applies == bitmask_applies_spec(input_buffer, bitmask),
{
    (input_buffer & bitmask) > 0
}

/// Return the state a specific button is in.
/// Bitmask defines what button is referenced
pub fn parse_button_state(input_buffer: u32, bitmask_button_pressed: u32) -> (state: ButtonState)
    ensures
        state == button_state_of(input_buffer, bitmask_button_pressed),
{
    if bitmask_applies(input_buffer, bitmask_button_pressed) {
        ButtonState::Pressed
    } else {
        ButtonState::Released
    }
}

/// Return what state a rotary is in.
/// Bitmasks define what rotary is referenced
pub fn parse_rotary_state(
    input_buffer: u32,
    bitmask_clockwise: u32,
    bitmask_counterclockwise: u32,
) -> (state: RotaryState)
    ensures
        state == rotary_state_of(input_buffer, bitmask_clockwise, bitmask_counterclockwise),
{
    if bitmask_applies(input_buffer, bitmask_clockwise) {
        RotaryState::Clockwise
    } else if bitmask_applies(input_buffer, bitmask_counterclockwise) {
        RotaryState::CounterClockwise
    } else {
        RotaryState::Idle
    }
}

/// Returns what state a mode selector is in, or nothing where the word has none of its bits
pub fn parse_mode_selector_state(input_buffer: u32, bitmaps: ModeSelectorBitmaps) -> (state:
    Option<ModeSelectorState>)
    ensures
        state == mode_selector_state_of(input_buffer, bitmaps),
{
    if bitmask_applies(input_buffer, bitmaps.com1) {
        Some(ModeSelectorState::ModeSelectorCom1)
    } else if bitmask_applies(input_buffer, bitmaps.com2) {
        Some(ModeSelectorState::ModeSelectorCom2)
    } else if bitmask_applies(input_buffer, bitmaps.nav1) {
        Some(ModeSelectorState::ModeSelectorNav1)
    } else if bitmask_applies(input_buffer, bitmaps.nav2) {
        Some(ModeSelectorState::ModeSelectorNav2)
    } else if bitmask_applies(input_buffer, bitmaps.adf) {
        Some(ModeSelectorState::ModeSelectorAdf)
    } else if bitmask_applies(input_buffer, bitmaps.dme) {
        Some(ModeSelectorState::ModeSelectorDme)
    } else if bitmask_applies(input_buffer, bitmaps.xpdr) {
        Some(ModeSelectorState::ModeSelectorXpdr)
    } else {
        None
    }
}

/// Turns the three bytes of an input report into a single 32 bit value
pub fn pack_input_report(report: [u8; 3]) -> (input_buffer: u32)
    ensures
        input_buffer == packed_word(report@),
        input_buffer < 0x100_0000,
{
    let high = report[0];
    let middle = report[1];
    let low = report[2];
    assert(((high as u32) << 16) | ((middle as u32) << 8) | (low as u32) == (high as u32 * 0x1_0000
        + middle as u32 * 0x100 + low as u32) as u32) by (bit_vector);
    ((high as u32) << 16) | ((middle as u32) << 8) | (low as u32)
}

/// Decodes one input report into the state of all buttons and rotaries on the hardware.
///
/// Gives nothing for the all-zero report of a poll that timed out, and an error for a report
/// in which a mode selector shows none of its positions.
pub fn decode_input(report: [u8; 3]) -> (decoded: Result<Option<InputState>, DecodeError>)
    ensures
        decoded == decoded_word(packed_word(report@)),
{
    let input_buffer = pack_input_report(report);
    if input_buffer == NO_INPUTS_AFTER_TIMEOUT {
        return Ok(None);
    }
    let mut input_state = InputState::new();
    input_state.button_upper = parse_button_state(input_buffer, BITMASK_BUTTON_UPPER_PRESSED);
    input_state.button_lower = parse_button_state(input_buffer, BITMASK_BUTTON_LOWER_PRESSED);

    input_state.rotary_upper_inner = parse_rotary_state(
        input_buffer,
        BITMASK_ROTARY_UPPER_INNER_CLOCKWISE,
        BITMASK_ROTARY_UPPER_INNER_COUNTERCLOCKWISE,
    );

    input_state.rotary_upper_outer = parse_rotary_state(
        input_buffer,
        BITMASK_ROTARY_UPPER_OUTER_CLOCKWISE,
        BITMASK_ROTARY_UPPER_OUTER_COUNTERCLOCKWISE,
    );

    input_state.rotary_lower_inner = parse_rotary_state(
        input_buffer,
        BITMASK_ROTARY_LOWER_INNER_CLOCKWISE,
        BITMASK_ROTARY_LOWER_INNER_COUNTERCLOCKWISE,
    );

    input_state.rotary_lower_outer = parse_rotary_state(
        input_buffer,
        BITMASK_ROTARY_LOWER_OUTER_CLOCKWISE,
        BITMASK_ROTARY_LOWER_OUTER_COUNTERCLOCKWISE,
    );

    let upper = parse_mode_selector_state(
        input_buffer,
        ModeSelectorBitmaps {
            com1: BITMASK_MODE_SELECTOR_UPPER_COM1,
            com2: BITMASK_MODE_SELECTOR_UPPER_COM2,
            nav1: BITMASK_MODE_SELECTOR_UPPER_NAV1,
            nav2: BITMASK_MODE_SELECTOR_UPPER_NAV2,
            adf: BITMASK_MODE_SELECTOR_UPPER_ADF,
            dme: BITMASK_MODE_SELECTOR_UPPER_DME,
            xpdr: BITMASK_MODE_SELECTOR_UPPER_XPDR,
        },
    );
    match upper {
        Some(selected) => {
            input_state.mode_selector_upper = selected;
        },
        None => {
            return Err(DecodeError::UnknownUpperModeSelector(input_buffer));
        },
    }

    let lower = parse_mode_selector_state(
        input_buffer,
        ModeSelectorBitmaps {
            com1: BITMASK_MODE_SELECTOR_LOWER_COM1,
            com2: BITMASK_MODE_SELECTOR_LOWER_COM2,
            nav1: BITMASK_MODE_SELECTOR_LOWER_NAV1,
            nav2: BITMASK_MODE_SELECTOR_LOWER_NAV2,
            adf: BITMASK_MODE_SELECTOR_LOWER_ADF,
            dme: BITMASK_MODE_SELECTOR_LOWER_DME,
            xpdr: BITMASK_MODE_SELECTOR_LOWER_XPDR,
        },
    );
    match lower {
        Some(selected) => {
            input_state.mode_selector_lower = selected;
        },
        None => {
            return Err(DecodeError::UnknownLowerModeSelector(input_buffer));
        },
    }

    Ok(Some(input_state))
}

} // verus!
