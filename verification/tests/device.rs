use radio_panel::constants::{
    BITMASK_BUTTON_LOWER_PRESSED, BITMASK_BUTTON_UPPER_PRESSED, BITMASK_MODE_SELECTOR_LOWER_COM1,
    BITMASK_MODE_SELECTOR_UPPER_COM1, BITMASK_ROTARY_LOWER_INNER_CLOCKWISE,
    BITMASK_ROTARY_LOWER_INNER_COUNTERCLOCKWISE, BITMASK_ROTARY_LOWER_OUTER_CLOCKWISE,
    BITMASK_ROTARY_LOWER_OUTER_COUNTERCLOCKWISE, BITMASK_ROTARY_UPPER_INNER_CLOCKWISE,
    BITMASK_ROTARY_UPPER_INNER_COUNTERCLOCKWISE, BITMASK_ROTARY_UPPER_OUTER_CLOCKWISE,
    BITMASK_ROTARY_UPPER_OUTER_COUNTERCLOCKWISE,
};
use radio_panel::device::{
    bitmask_applies, decode_input, pack_input_report, parse_button_state,
    parse_mode_selector_state, parse_rotary_state, DecodeError, InputState, ModeSelectorBitmaps,
};
use radio_panel::input_states::{ButtonState, ModeSelectorState, RotaryState};

fn report_of(word: u32) -> [u8; 3] {
    [(word >> 16) as u8, (word >> 8) as u8, word as u8]
}

fn upper() -> ModeSelectorBitmaps {
    ModeSelectorBitmaps {
        com1: 0x01_0000,
        com2: 0x02_0000,
        nav1: 0x04_0000,
        nav2: 0x08_0000,
        adf: 0x10_0000,
        dme: 0x20_0000,
        xpdr: 0x40_0000,
    }
}

fn lower() -> ModeSelectorBitmaps {
    ModeSelectorBitmaps {
        com1: 0x80_0000,
        com2: 0x00_0100,
        nav1: 0x00_0200,
        nav2: 0x00_0400,
        adf: 0x00_0800,
        dme: 0x00_1000,
        xpdr: 0x00_2000,
    }
}

#[test]
fn upper_button_bit_alone_reads_as_pressed_with_idle_rotaries() {
    let word: u32 = 0b0100_0000_0000_0000;
    assert_eq!(word, BITMASK_BUTTON_UPPER_PRESSED);
    assert_eq!(parse_button_state(word, BITMASK_BUTTON_UPPER_PRESSED), ButtonState::Pressed);
    assert_eq!(parse_button_state(word, BITMASK_BUTTON_LOWER_PRESSED), ButtonState::Released);
    let rotaries = [
        (BITMASK_ROTARY_UPPER_INNER_CLOCKWISE, BITMASK_ROTARY_UPPER_INNER_COUNTERCLOCKWISE),
        (BITMASK_ROTARY_UPPER_OUTER_CLOCKWISE, BITMASK_ROTARY_UPPER_OUTER_COUNTERCLOCKWISE),
        (BITMASK_ROTARY_LOWER_INNER_CLOCKWISE, BITMASK_ROTARY_LOWER_INNER_COUNTERCLOCKWISE),
        (BITMASK_ROTARY_LOWER_OUTER_CLOCKWISE, BITMASK_ROTARY_LOWER_OUTER_COUNTERCLOCKWISE),
    ];
    for (clockwise, counterclockwise) in rotaries {
        assert_eq!(parse_rotary_state(word, clockwise, counterclockwise), RotaryState::Idle);
    }
    // no mode selector bit is set in this word: a sound panel never sends it
    assert_eq!(parse_mode_selector_state(word, upper()), None);
    assert_eq!(parse_mode_selector_state(word, lower()), None);
    assert_eq!(decode_input(report_of(word)), Err(DecodeError::UnknownUpperModeSelector(word)));
}

#[test]
fn upper_button_with_both_selectors_on_com1_decodes_to_the_rest_state_with_button() {
    let word = BITMASK_BUTTON_UPPER_PRESSED | BITMASK_MODE_SELECTOR_UPPER_COM1
        | BITMASK_MODE_SELECTOR_LOWER_COM1;
    let mut expected = InputState::new();
    expected.button_upper = ButtonState::Pressed;
    assert_eq!(decode_input(report_of(word)), Ok(Some(expected)));
}

#[test]
fn all_zero_report_is_no_input() {
    assert_eq!(decode_input([0, 0, 0]), Ok(None));
}

#[test]
fn report_without_lower_selector_is_an_error() {
    let word = 0x01_0000 | 0x01;
    assert_eq!(decode_input(report_of(word)), Err(DecodeError::UnknownLowerModeSelector(word)));
}

#[test]
fn report_without_upper_selector_is_an_error() {
    let word = 0x80_0000 | 0x04;
    assert_eq!(decode_input(report_of(word)), Err(DecodeError::UnknownUpperModeSelector(word)));
}

#[test]
fn new_input_state_is_at_rest() {
    let state = InputState::new();
    assert_eq!(state.mode_selector_upper, ModeSelectorState::ModeSelectorCom1);
    assert_eq!(state.mode_selector_lower, ModeSelectorState::ModeSelectorCom1);
    assert_eq!(state.rotary_upper_inner, RotaryState::Idle);
    assert_eq!(state.rotary_upper_outer, RotaryState::Idle);
    assert_eq!(state.rotary_lower_inner, RotaryState::Idle);
    assert_eq!(state.rotary_lower_outer, RotaryState::Idle);
    assert_eq!(state.button_upper, ButtonState::Released);
    assert_eq!(state.button_lower, ButtonState::Released);
}

#[test]
fn report_bytes_are_packed_first_byte_highest() {
    assert_eq!(pack_input_report([0x12, 0x34, 0x56]), 0x12_3456);
    assert_eq!(pack_input_report([0xFF, 0xFF, 0xFF]), 0xFF_FFFF);
    assert_eq!(pack_input_report([0, 0, 1]), 1);
}

#[test]
fn bitmask_applies_when_a_bit_is_shared() {
    assert!(bitmask_applies(0b0110, 0b0100));
    assert!(bitmask_applies(0b0110, 0b1100));
    assert!(!bitmask_applies(0b0110, 0b1001));
    assert!(!bitmask_applies(0, 0xFFFF_FFFF));
}

#[test]
fn rotary_clockwise_is_looked_at_first() {
    assert_eq!(parse_rotary_state(0b01, 0b01, 0b10), RotaryState::Clockwise);
    assert_eq!(parse_rotary_state(0b10, 0b01, 0b10), RotaryState::CounterClockwise);
    assert_eq!(parse_rotary_state(0b11, 0b01, 0b10), RotaryState::Clockwise);
    assert_eq!(parse_rotary_state(0b100, 0b01, 0b10), RotaryState::Idle);
}

#[test]
fn every_selector_position_is_decoded() {
    let positions = [
        ModeSelectorState::ModeSelectorCom1,
        ModeSelectorState::ModeSelectorCom2,
        ModeSelectorState::ModeSelectorNav1,
        ModeSelectorState::ModeSelectorNav2,
        ModeSelectorState::ModeSelectorAdf,
        ModeSelectorState::ModeSelectorDme,
        ModeSelectorState::ModeSelectorXpdr,
    ];
    let upper_bits = [0x01_0000u32, 0x02_0000, 0x04_0000, 0x08_0000, 0x10_0000, 0x20_0000, 0x40_0000];
    let lower_bits = [0x80_0000u32, 0x00_0100, 0x00_0200, 0x00_0400, 0x00_0800, 0x00_1000, 0x00_2000];
    for u in 0..7 {
        for l in 0..7 {
            let decoded = decode_input(report_of(upper_bits[u] | lower_bits[l])).unwrap().unwrap();
            assert_eq!(decoded.mode_selector_upper, positions[u]);
            assert_eq!(decoded.mode_selector_lower, positions[l]);
            assert_eq!(decoded.button_upper, ButtonState::Released);
            assert_eq!(decoded.rotary_lower_outer, RotaryState::Idle);
        }
    }
}

#[test]
fn selector_priority_takes_the_first_match() {
    assert_eq!(
        parse_mode_selector_state(0x01_0000 | 0x40_0000, upper()),
        Some(ModeSelectorState::ModeSelectorCom1)
    );
    assert_eq!(
        parse_mode_selector_state(0x10_0000 | 0x20_0000, upper()),
        Some(ModeSelectorState::ModeSelectorAdf)
    );
}

#[test]
fn rotaries_and_buttons_are_decoded_per_bank() {
    let word = 0x02_0000 | 0x00_2000 | 0x8000 | 0b1001_0110;
    let decoded = decode_input(report_of(word)).unwrap().unwrap();
    assert_eq!(decoded.mode_selector_upper, ModeSelectorState::ModeSelectorCom2);
    assert_eq!(decoded.mode_selector_lower, ModeSelectorState::ModeSelectorXpdr);
    assert_eq!(decoded.button_upper, ButtonState::Released);
    assert_eq!(decoded.button_lower, ButtonState::Pressed);
    assert_eq!(decoded.rotary_upper_inner, RotaryState::CounterClockwise);
    assert_eq!(decoded.rotary_upper_outer, RotaryState::Clockwise);
    assert_eq!(decoded.rotary_lower_inner, RotaryState::Clockwise);
    assert_eq!(decoded.rotary_lower_outer, RotaryState::CounterClockwise);
}
