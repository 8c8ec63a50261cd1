use radio_panel::frequency::Frequency;
use radio_panel::simulator::{
    frequency_transport_code, frequency_transport_text, is_literal, literal_number,
    send_autopilot_to_sim,
    send_com_to_sim, send_nav_to_sim, send_xpdr_to_sim, setup_simulator_event_ids,
    transmit_value, xpdr_transport_code, xpdr_transport_text, Transmission,
    EVENT_ID_AP_ALT_VAR_SET_ENGLISH, EVENT_ID_AP_SPD_VAR_SET, EVENT_ID_AP_VS_VAR_SET_ENGLISH,
    EVENT_ID_COM_RADIO_SET_HZ, EVENT_ID_COM_STBY_RADIO_SET_HZ, EVENT_ID_HEADING_BUG_SET,
    EVENT_ID_NAV1_RADIO_SET_HZ, EVENT_ID_NAV1_STBY_SET_HZ, EVENT_ID_XPNDR_SET,
};
use radio_panel::states::{AutopilotState, AutopilotValue, FrequencyState, XpdrState};

#[test]
fn frequency_code_is_whole_fraction_and_three_zeros() {
    let freq = Frequency { integer: 118, fraction: 0 };
    assert_eq!(frequency_transport_text(freq), "118000000");
    assert_eq!(frequency_transport_code(freq), Some(118000000));
    assert_eq!(frequency_transport_code(Frequency { integer: 136, fraction: 995 }), Some(136995000));
    assert_eq!(frequency_transport_code(Frequency { integer: 108, fraction: 50 }), Some(108050000));
    assert_eq!(frequency_transport_code(Frequency { integer: 5, fraction: 7 }), Some(5007000));
    assert_eq!(frequency_transport_code(Frequency { integer: 0, fraction: 0 }), Some(0));
}

#[test]
fn frequency_code_of_wide_parts_follows_the_text() {
    assert_eq!(frequency_transport_text(Frequency { integer: 1000, fraction: 0 }), "1000000000");
    assert_eq!(frequency_transport_code(Frequency { integer: 1000, fraction: 0 }), Some(1000000000));
    assert_eq!(frequency_transport_code(Frequency { integer: 4294, fraction: 967 }), Some(4294967000));
    assert_eq!(frequency_transport_code(Frequency { integer: 4295, fraction: 0 }), None);
    assert_eq!(frequency_transport_code(Frequency { integer: 32767, fraction: 32767 }), None);
}

#[test]
fn negative_frequency_has_no_code() {
    assert_eq!(frequency_transport_code(Frequency { integer: -118, fraction: 0 }), None);
    assert_eq!(frequency_transport_code(Frequency { integer: 118, fraction: -5 }), None);
    assert_eq!(frequency_transport_text(Frequency { integer: -1, fraction: -5 }), "0-10-5000");
}

#[test]
fn literals_are_read_in_their_base() {
    assert_eq!(literal_number("42"), Some(42));
    assert_eq!(literal_number("042"), Some(42));
    assert_eq!(literal_number("0"), Some(0));
    assert_eq!(literal_number("4294967295"), Some(4294967295));
    assert_eq!(literal_number("4294967296"), None);
    assert_eq!(literal_number("0x42"), Some(66));
    assert_eq!(literal_number("0x1200"), Some(0x1200));
    assert_eq!(literal_number("0x10"), Some(16));
    assert_eq!(literal_number("0x99999999"), Some(0x99999999));
    assert_eq!(literal_number("0x100000000"), None);
}

#[test]
fn other_texts_are_no_literals() {
    for text in ["", "-5", "+5", " 42", "42 ", "1_000", "_1", "0x", "0xff", "0X10", "0b101", "x1", "12a"] {
        assert_eq!(literal_number(text), None, "{:?}", text);
        assert!(!is_literal(text), "{:?}", text);
    }
    assert!(is_literal("0") && is_literal("0019") && is_literal("0x0") && is_literal("0x123"));
}

#[test]
fn radio_events_carry_active_then_standby() {
    let state = FrequencyState {
        standby_freq: Frequency { integer: 121, fraction: 500 },
        active_freq: Frequency { integer: 118, fraction: 25 },
    };
    assert_eq!(
        send_com_to_sim(&state, EVENT_ID_COM_RADIO_SET_HZ, EVENT_ID_COM_STBY_RADIO_SET_HZ),
        Some(vec![
            Transmission { event_id: 1000, value: 118025000 },
            Transmission { event_id: 1001, value: 121500000 },
        ])
    );
    assert_eq!(
        send_nav_to_sim(&state, EVENT_ID_NAV1_RADIO_SET_HZ, EVENT_ID_NAV1_STBY_SET_HZ),
        Some(vec![
            Transmission { event_id: 1004, value: 118025000 },
            Transmission { event_id: 1005, value: 121500000 },
        ])
    );
}

#[test]
fn radio_without_a_code_sends_nothing() {
    let state = FrequencyState {
        standby_freq: Frequency { integer: -1, fraction: 0 },
        active_freq: Frequency { integer: 118, fraction: 0 },
    };
    assert_eq!(send_com_to_sim(&state, 1000, 1001), None);
    let state = FrequencyState {
        standby_freq: Frequency { integer: 118, fraction: 0 },
        active_freq: Frequency { integer: 9999, fraction: 0 },
    };
    assert_eq!(send_com_to_sim(&state, 1000, 1001), None);
}

#[test]
fn xpdr_code_is_read_as_base_sixteen() {
    let state = XpdrState { code: [1, 0, 0, 0], selected_digit: 0 };
    assert_eq!(xpdr_transport_text(&state), "1000");
    assert_eq!(xpdr_transport_code(&state), Some(0x1000));
    assert_eq!(xpdr_transport_code(&state), Some(4096));
    let state = XpdrState { code: [7, 5, 0, 0], selected_digit: 2 };
    assert_eq!(xpdr_transport_code(&state), Some(0x7500));
    let state = XpdrState { code: [0, 0, 0, 0], selected_digit: 2 };
    assert_eq!(xpdr_transport_code(&state), Some(0));
    assert_eq!(
        send_xpdr_to_sim(&XpdrState { code: [1, 2, 0, 0], selected_digit: 1 }, EVENT_ID_XPNDR_SET),
        Some(vec![Transmission { event_id: 1008, value: 0x1200 }])
    );
}

#[test]
fn xpdr_code_outside_the_digits() {
    let state = XpdrState { code: [1, -1, 0, 0], selected_digit: 0 };
    assert_eq!(xpdr_transport_code(&state), None);
    assert_eq!(send_xpdr_to_sim(&state, EVENT_ID_XPNDR_SET), None);
    let state = XpdrState { code: [12, 3, 4, 5], selected_digit: 0 };
    assert_eq!(xpdr_transport_text(&state), "12345");
    assert_eq!(xpdr_transport_code(&state), Some(0x12345));
    let state = XpdrState { code: [127, 127, 127, 127], selected_digit: 0 };
    assert_eq!(xpdr_transport_code(&state), None);
}

#[test]
fn transmitted_values_are_two_complement() {
    assert_eq!(transmit_value(0), 0);
    assert_eq!(transmit_value(359), 359);
    assert_eq!(transmit_value(100000), 100000);
    assert_eq!(transmit_value(-100), 0xFFFF_FF9C);
    assert_eq!(transmit_value(-9900), (-9900i32) as u32);
    assert_eq!(transmit_value(i32::MIN), 0x8000_0000);
}

#[test]
fn autopilot_events_in_their_order() {
    let state = AutopilotState {
        airspeed: 250,
        heading: 90,
        altitude: 35000,
        vertical_speed: -1500,
        selected_setting: AutopilotValue::VerticalSpeed,
    };
    assert_eq!(
        send_autopilot_to_sim(&state),
        vec![
            Transmission { event_id: EVENT_ID_HEADING_BUG_SET, value: 90 },
            Transmission { event_id: EVENT_ID_AP_ALT_VAR_SET_ENGLISH, value: 35000 },
            Transmission { event_id: EVENT_ID_AP_VS_VAR_SET_ENGLISH, value: (-1500i32) as u32 },
            Transmission { event_id: EVENT_ID_AP_SPD_VAR_SET, value: 250 },
        ]
    );
    assert_eq!(EVENT_ID_HEADING_BUG_SET, 1009);
    assert_eq!(EVENT_ID_AP_ALT_VAR_SET_ENGLISH, 1010);
    assert_eq!(EVENT_ID_AP_VS_VAR_SET_ENGLISH, 1011);
    assert_eq!(EVENT_ID_AP_SPD_VAR_SET, 1012);
}

#[test]
fn event_table_names_every_event_once() {
    let mappings = setup_simulator_event_ids();
    let names = [
        "COM_RADIO_SET_HZ",
        "COM_STBY_RADIO_SET_HZ",
        "COM2_RADIO_SET_HZ",
        "COM2_STBY_RADIO_SET_HZ",
        "NAV1_RADIO_SET_HZ",
        "NAV1_STBY_SET_HZ",
        "NAV2_RADIO_SET_HZ",
        "NAV2_STBY_SET_HZ",
        "XPNDR_SET",
        "HEADING_BUG_SET",
        "AP_ALT_VAR_SET_ENGLISH",
        "AP_VS_VAR_SET_ENGLISH",
        "AP_SPD_VAR_SET",
    ];
    assert_eq!(mappings.len(), 13);
    for (i, mapping) in mappings.iter().enumerate() {
        assert_eq!(mapping.event_id, 1000 + i as u32);
        assert_eq!(mapping.event_name, names[i]);
    }
}
