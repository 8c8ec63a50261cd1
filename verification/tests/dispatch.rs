use radio_panel::device::InputState;
use radio_panel::dispatch::{
    autopilot_logic, dispatch, display_adf_values, display_dme_on_hardware,
    display_frequency_on_hardware, display_xpdr_on_hardware, format_adf, format_airspeed,
    format_altitude, format_dme, format_heading, format_vertical_speed, format_xpdr,
    handle_lower_panel, handle_upper_panel, show_connecting_animation, show_standby_screen,
    window_at, PanelError, PollUpdate,
};
use radio_panel::display::{DisplayError, RadioPanel};
use radio_panel::frequency::Frequency;
use radio_panel::hardware::Window;
use radio_panel::input_states::{ButtonState, ModeSelectorState, RotaryState};
use radio_panel::simulator::Transmission;
use radio_panel::states::{
    instruments_default_state, AdfState, AutopilotState, AutopilotValue, DmeState, XpdrState,
};

fn shown(text_left: &str, text_right: &str, left: Window, right: Window) -> RadioPanel {
    let mut panel = RadioPanel::new();
    panel.set_window(left, text_left).unwrap();
    panel.set_window(right, text_right).unwrap();
    panel
}

fn input(upper: ModeSelectorState, lower: ModeSelectorState) -> InputState {
    let mut input = InputState::new();
    input.mode_selector_upper = upper;
    input.mode_selector_lower = lower;
    input
}

fn autopilot(altitude: i32, vertical_speed: i16, selected_setting: AutopilotValue) -> AutopilotState {
    AutopilotState { airspeed: 250, heading: 5, altitude, vertical_speed, selected_setting }
}

#[test]
fn default_state_is_as_documented() {
    let state = instruments_default_state();
    assert_eq!(state.com1_state.active_freq, Frequency { integer: 118, fraction: 0 });
    assert_eq!(state.com2_state.standby_freq, Frequency { integer: 118, fraction: 0 });
    assert_eq!(state.nav1_state.active_freq, Frequency { integer: 108, fraction: 0 });
    assert_eq!(state.nav2_state.standby_freq, Frequency { integer: 108, fraction: 0 });
    assert_eq!(state.adf_state, AdfState { active_frequency: 123, standby_frequency: 123 });
    assert_eq!(state.dme_state, DmeState { distance_tenths: 0 });
    assert_eq!(state.xpdr_state, XpdrState { code: [1, 0, 0, 0], selected_digit: 0 });
    assert_eq!(
        state.autopilot_state,
        AutopilotState {
            airspeed: 0,
            heading: 0,
            altitude: 100,
            vertical_speed: 0,
            selected_setting: AutopilotValue::Altitude,
        }
    );
}

#[test]
fn autopilot_texts() {
    let state = autopilot(100, 0, AutopilotValue::Altitude);
    assert_eq!(format_airspeed(&state), "  250");
    assert_eq!(format_heading(&state), "  005");
    assert_eq!(format_altitude(&state), "00100.");
    assert_eq!(format_vertical_speed(&state), " 0000");
    let state = autopilot(35000, -1500, AutopilotValue::VerticalSpeed);
    assert_eq!(format_altitude(&state), "35000");
    assert_eq!(format_vertical_speed(&state), "-1500.");
    let state = autopilot(100000, 9900, AutopilotValue::VerticalSpeed);
    assert_eq!(format_altitude(&state), "100000");
    assert_eq!(format_vertical_speed(&state), " 9900.");
    let state = autopilot(100, -100, AutopilotValue::Altitude);
    assert_eq!(format_vertical_speed(&state), "-0100");
}

#[test]
fn other_instrument_texts() {
    assert_eq!(format_adf(&AdfState { active_frequency: 0, standby_frequency: 123 }), "  123");
    assert_eq!(format_adf(&AdfState { active_frequency: 0, standby_frequency: -32768 }), "-32768");
    assert_eq!(format_dme(&DmeState { distance_tenths: 0 }), "   0.0");
    assert_eq!(format_dme(&DmeState { distance_tenths: 47 }), "   4.7");
    assert_eq!(format_dme(&DmeState { distance_tenths: 123 }), "   12.3");
    assert_eq!(format_xpdr(&XpdrState { code: [1, 0, 0, 0], selected_digit: 0 }), " 1.000");
    assert_eq!(format_xpdr(&XpdrState { code: [7, 5, 0, 0], selected_digit: 3 }), " 7500.");
    assert_eq!(format_xpdr(&XpdrState { code: [7, 5, 0, 0], selected_digit: 4 }), " 7500");
    assert_eq!(format_xpdr(&XpdrState { code: [12, 5, 0, 0], selected_digit: 1 }), " 12.500");
}

#[test]
fn frequency_display_shows_active_left_and_standby_right() {
    let mut state = instruments_default_state().com1_state;
    state.standby_freq = Frequency { integer: 121, fraction: 500 };
    let mut panel = RadioPanel::new();
    let report =
        display_frequency_on_hardware(&mut panel, &state, Window::TopLeft, Window::TopRight, 3)
            .unwrap();
    assert_eq!(panel, shown("18.000", "21.500", Window::TopLeft, Window::TopRight));
    assert_eq!(report, panel.update_all_windows());
    assert_eq!(&report[1..11], &[1, 0xD8, 0, 0, 0, 2, 0xD1, 5, 0, 0]);
}

#[test]
fn frequency_display_reports_what_does_not_fit() {
    let mut state = instruments_default_state().com1_state;
    state.standby_freq = Frequency { integer: 5, fraction: 0 };
    let mut panel = RadioPanel::new();
    assert_eq!(
        display_frequency_on_hardware(&mut panel, &state, Window::TopLeft, Window::TopRight, 3),
        Err(DisplayError::MisplacedPoint)
    );
    assert_eq!(panel, shown("18.000", "", Window::TopLeft, Window::TopRight));
    state.active_freq = Frequency { integer: 1180, fraction: 0 };
    assert_eq!(
        display_frequency_on_hardware(&mut panel, &state, Window::TopLeft, Window::TopRight, 2),
        Err(DisplayError::TooLong)
    );
}

#[test]
fn xpdr_adf_and_dme_displays() {
    let state = instruments_default_state();
    let mut panel = RadioPanel::new();
    display_xpdr_on_hardware(&mut panel, &state.xpdr_state, Window::BottomLeft, Window::BottomRight)
        .unwrap();
    assert_eq!(panel, shown("     ", " 1.000", Window::BottomLeft, Window::BottomRight));
    let mut panel = RadioPanel::new();
    display_adf_values(&state.adf_state, Window::TopLeft, Window::TopRight, &mut panel).unwrap();
    assert_eq!(panel, shown("     ", "  123", Window::TopLeft, Window::TopRight));
    let mut panel = RadioPanel::new();
    display_dme_on_hardware(
        &mut panel,
        &state.dme_state,
        &state.nav1_state,
        Window::TopLeft,
        Window::TopRight,
    )
    .unwrap();
    assert_eq!(panel, shown("108.00", "   0.0", Window::TopLeft, Window::TopRight));
    assert_eq!(
        display_dme_on_hardware(
            &mut panel,
            &DmeState { distance_tenths: 100 },
            &state.nav1_state,
            Window::TopLeft,
            Window::TopRight,
        ),
        Err(DisplayError::TooLong)
    );
}

#[test]
fn autopilot_is_shown_in_all_four_windows() {
    let state = autopilot(35000, -1500, AutopilotValue::VerticalSpeed);
    let mut panel = RadioPanel::new();
    let update = autopilot_logic(&state, &mut panel).unwrap();
    let mut expected = RadioPanel::new();
    expected.set_window(Window::TopLeft, "  250").unwrap();
    expected.set_window(Window::TopRight, "  005").unwrap();
    expected.set_window(Window::BottomLeft, "35000").unwrap();
    expected.set_window(Window::BottomRight, "-1500.").unwrap();
    assert_eq!(panel, expected);
    assert_eq!(update.report, expected.update_all_windows());
    assert_eq!(
        update.transmissions,
        vec![
            Transmission { event_id: 1009, value: 5 },
            Transmission { event_id: 1010, value: 35000 },
            Transmission { event_id: 1011, value: (-1500i32) as u32 },
            Transmission { event_id: 1012, value: 250 },
        ]
    );
}

#[test]
fn highest_altitude_does_not_fit_its_window() {
    let state = autopilot(100000, 0, AutopilotValue::Altitude);
    let mut panel = RadioPanel::new();
    assert_eq!(autopilot_logic(&state, &mut panel), Err(DisplayError::TooLong));
    let mut expected = RadioPanel::new();
    expected.set_window(Window::TopLeft, "  250").unwrap();
    expected.set_window(Window::TopRight, "  005").unwrap();
    expected.set_window(Window::BottomRight, " 0000").unwrap();
    assert_eq!(panel, expected);
    let state = autopilot(99999, 0, AutopilotValue::Altitude);
    assert!(autopilot_logic(&state, &mut panel).is_ok());
}

#[test]
fn equal_selectors_route_everything_to_the_autopilot() {
    let mut state = instruments_default_state();
    let before = state;
    let mut panel = RadioPanel::new();
    let mut poll = input(ModeSelectorState::ModeSelectorCom1, ModeSelectorState::ModeSelectorCom1);
    poll.rotary_upper_outer = RotaryState::Clockwise;
    poll.rotary_upper_inner = RotaryState::Clockwise;
    poll.rotary_lower_outer = RotaryState::Clockwise;
    poll.button_upper = ButtonState::Pressed;
    let update = dispatch(poll, &mut state, &mut panel).unwrap();
    assert_eq!(state.com1_state, before.com1_state);
    assert_eq!(state.xpdr_state, before.xpdr_state);
    assert_eq!(
        state.autopilot_state,
        AutopilotState {
            airspeed: 1,
            heading: 1,
            altitude: 1100,
            vertical_speed: 0,
            selected_setting: AutopilotValue::Altitude,
        }
    );
    match update {
        PollUpdate::Autopilot(update) => {
            assert_eq!(update.report, panel.update_all_windows());
            assert_eq!(update.transmissions.len(), 4);
            assert_eq!(update.transmissions[1], Transmission { event_id: 1010, value: 1100 });
        }
        PollUpdate::Banks(_, _) => panic!("the poll went to the banks"),
    }
    let mut expected = RadioPanel::new();
    expected.set_window(Window::TopLeft, "    1").unwrap();
    expected.set_window(Window::TopRight, "  001").unwrap();
    expected.set_window(Window::BottomLeft, "01100.").unwrap();
    expected.set_window(Window::BottomRight, " 0000").unwrap();
    assert_eq!(panel, expected);
}

#[test]
fn autopilot_poll_uses_the_lower_button_to_toggle() {
    let mut state = instruments_default_state();
    let mut panel = RadioPanel::new();
    let mut poll = input(ModeSelectorState::ModeSelectorXpdr, ModeSelectorState::ModeSelectorXpdr);
    poll.button_lower = ButtonState::Pressed;
    poll.rotary_lower_inner = RotaryState::CounterClockwise;
    dispatch(poll, &mut state, &mut panel).unwrap();
    assert_eq!(state.autopilot_state.selected_setting, AutopilotValue::VerticalSpeed);
    assert_eq!(state.autopilot_state.vertical_speed, -100);
    assert_eq!(state.xpdr_state, instruments_default_state().xpdr_state);
}

#[test]
fn different_selectors_control_two_instruments_in_one_poll() {
    let mut state = instruments_default_state();
    let mut panel = RadioPanel::new();
    let mut poll = input(ModeSelectorState::ModeSelectorCom1, ModeSelectorState::ModeSelectorNav2);
    poll.rotary_upper_outer = RotaryState::Clockwise;
    poll.rotary_lower_inner = RotaryState::Clockwise;
    poll.button_lower = ButtonState::Pressed;
    let update = dispatch(poll, &mut state, &mut panel).unwrap();
    assert_eq!(state.com1_state.standby_freq, Frequency { integer: 119, fraction: 0 });
    assert_eq!(state.com1_state.active_freq, Frequency { integer: 118, fraction: 0 });
    assert_eq!(state.nav2_state.standby_freq, Frequency { integer: 108, fraction: 50 });
    assert_eq!(state.nav1_state, instruments_default_state().nav1_state);
    assert_eq!(state.autopilot_state, instruments_default_state().autopilot_state);
    let upper_only = shown("18.000", "19.000", Window::TopLeft, Window::TopRight);
    let mut both = upper_only;
    both.set_window(Window::BottomLeft, "108.00").unwrap();
    both.set_window(Window::BottomRight, "108.05").unwrap();
    assert_eq!(panel, both);
    match update {
        PollUpdate::Banks(upper, lower) => {
            assert_eq!(upper.report, upper_only.update_all_windows());
            assert_eq!(
                upper.transmissions,
                vec![
                    Transmission { event_id: 1000, value: 118000000 },
                    Transmission { event_id: 1001, value: 119000000 },
                ]
            );
            assert_eq!(lower.report, both.update_all_windows());
            assert_eq!(
                lower.transmissions,
                vec![
                    Transmission { event_id: 1006, value: 108000000 },
                    Transmission { event_id: 1007, value: 108050000 },
                ]
            );
        }
        PollUpdate::Autopilot(_) => panic!("the poll went to the autopilot"),
    }
}

#[test]
fn every_instrument_can_be_handled_by_either_bank() {
    let selectors = [
        ModeSelectorState::ModeSelectorCom1,
        ModeSelectorState::ModeSelectorCom2,
        ModeSelectorState::ModeSelectorNav1,
        ModeSelectorState::ModeSelectorNav2,
        ModeSelectorState::ModeSelectorAdf,
        ModeSelectorState::ModeSelectorDme,
        ModeSelectorState::ModeSelectorXpdr,
    ];
    let events = [2usize, 2, 2, 2, 0, 0, 1];
    for (i, selector) in selectors.iter().enumerate() {
        let mut state = instruments_default_state();
        let mut panel = RadioPanel::new();
        let mut poll = input(*selector, *selector);
        poll.rotary_upper_outer = RotaryState::CounterClockwise;
        poll.rotary_lower_outer = RotaryState::CounterClockwise;
        let upper = handle_upper_panel(poll, &mut state, &mut panel).unwrap();
        assert_eq!(upper.transmissions.len(), events[i]);
        assert_eq!(upper.report, panel.update_all_windows());
        assert_eq!(&upper.report[11..21], &[0x0F; 10]);
        let lower = handle_lower_panel(poll, &mut state, &mut panel).unwrap();
        assert_eq!(lower.transmissions.len(), events[i]);
        assert_eq!(lower.report, panel.update_all_windows());
    }
}

#[test]
fn xpdr_bank_changes_shows_and_sends_the_code() {
    let mut state = instruments_default_state();
    let mut panel = RadioPanel::new();
    let mut poll = input(ModeSelectorState::ModeSelectorAdf, ModeSelectorState::ModeSelectorXpdr);
    poll.button_lower = ButtonState::Pressed;
    poll.rotary_lower_outer = RotaryState::Clockwise;
    poll.rotary_lower_inner = RotaryState::Clockwise;
    let update = handle_lower_panel(poll, &mut state, &mut panel).unwrap();
    assert_eq!(state.xpdr_state, XpdrState { code: [1, 2, 0, 0], selected_digit: 1 });
    assert_eq!(panel, shown("     ", " 12.00", Window::BottomLeft, Window::BottomRight));
    assert_eq!(update.transmissions, vec![Transmission { event_id: 1008, value: 0x1200 }]);
}

#[test]
fn bank_reports_a_display_fault_before_a_missing_code() {
    let mut state = instruments_default_state();
    state.com2_state.active_freq = Frequency { integer: 5, fraction: 0 };
    let mut panel = RadioPanel::new();
    let poll = input(ModeSelectorState::ModeSelectorCom2, ModeSelectorState::ModeSelectorAdf);
    assert_eq!(
        handle_upper_panel(poll, &mut state, &mut panel),
        Err(PanelError::Display(DisplayError::MisplacedPoint))
    );
    state.com2_state.active_freq = Frequency { integer: 118, fraction: 1000 };
    assert_eq!(
        handle_upper_panel(poll, &mut state, &mut panel),
        Err(PanelError::Display(DisplayError::TooLong))
    );
    state.com2_state.active_freq = Frequency { integer: 118, fraction: -5 };
    assert_eq!(handle_upper_panel(poll, &mut state, &mut panel), Err(PanelError::NoSimulatorCode));
}

#[test]
fn bank_reports_a_missing_code_when_the_texts_fit() {
    let mut state = instruments_default_state();
    state.xpdr_state = XpdrState { code: [-1, 0, 0, 3], selected_digit: 3 };
    let mut panel = RadioPanel::new();
    let poll = input(ModeSelectorState::ModeSelectorNav1, ModeSelectorState::ModeSelectorXpdr);
    assert_eq!(
        handle_lower_panel(poll, &mut state, &mut panel),
        Err(PanelError::Display(DisplayError::TooLong))
    );
    state.com1_state.active_freq = Frequency { integer: -18, fraction: 0 };
    let poll = input(ModeSelectorState::ModeSelectorCom1, ModeSelectorState::ModeSelectorXpdr);
    assert_eq!(handle_upper_panel(poll, &mut state, &mut panel), Err(PanelError::NoSimulatorCode));
    assert_eq!(panel.windows[0], shown("18.000", "", Window::TopLeft, Window::TopRight).windows[0]);
}

#[test]
fn a_stopped_upper_bank_stops_the_poll() {
    let mut state = instruments_default_state();
    state.com1_state.active_freq = Frequency { integer: 5, fraction: 0 };
    let mut panel = RadioPanel::new();
    let mut poll = input(ModeSelectorState::ModeSelectorCom1, ModeSelectorState::ModeSelectorNav1);
    poll.rotary_lower_outer = RotaryState::Clockwise;
    assert_eq!(
        dispatch(poll, &mut state, &mut panel),
        Err(PanelError::Display(DisplayError::MisplacedPoint))
    );
    assert_eq!(state.nav1_state, instruments_default_state().nav1_state);
}

#[test]
fn standby_screen_is_all_dashes() {
    let mut panel = RadioPanel::new();
    let report = show_standby_screen(&mut panel);
    assert_eq!(report[0], 0);
    for i in 1..21 {
        assert_eq!(report[i], 0xE0);
    }
    assert_eq!(report[21], 0x0F);
    assert_eq!(report[22], 0x0F);
    assert_eq!(report, panel.update_all_windows());
}

#[test]
fn connecting_animation_walks_a_dash_through_the_windows() {
    let mut panel = RadioPanel::new();
    panel.set_window(Window::BottomRight, "12345").unwrap();
    for step in 0..20 {
        let report = show_connecting_animation(&mut panel, step);
        for i in 1..21 {
            let expected = if i == step + 1 { 0xE0 } else { 0x0F };
            assert_eq!(report[i], expected, "step {} byte {}", step, i);
        }
    }
    assert_eq!(panel, RadioPanel::new());
}

#[test]
fn windows_by_place() {
    assert_eq!(window_at(0), Window::TopLeft);
    assert_eq!(window_at(1), Window::TopRight);
    assert_eq!(window_at(2), Window::BottomLeft);
    assert_eq!(window_at(3), Window::BottomRight);
    assert_eq!(window_at(4), Window::TopLeft);
}
