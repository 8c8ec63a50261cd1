//! What one poll of the panel does: the controls of each bank act on the instrument that the
//! bank's mode selector points at, the windows show that instrument, and the simulator is told.

use vstd::prelude::*;
use vstd::string::StringExecFns;
use crate::controls::{
    apply_autopilot_input, apply_com_input, apply_nav_input, apply_xpdr_input, autopilot_step,
    com_step, nav_step, xpdr_step,
};
use crate::device::InputState;
use crate::display::{
    blank_panel, first_error, is_glyph, is_plain, lemma_error_of_marked_text,
    lemma_error_of_plain_text, text_error, DisplayError, RadioPanel,
};
use crate::frequency::{format_frequency, frequency_text, Frequency};
use crate::hardware::Window;
use crate::input_states::{ButtonState, ModeSelectorState, RotaryState};
use crate::simulator::{
    autopilot_transmissions, lemma_frequency_code, lemma_xpdr_code, radio_transmissions,
    send_autopilot_to_sim, send_com_to_sim,
    send_nav_to_sim, send_xpdr_to_sim, xpdr_code_text, xpdr_transmissions, xpdr_transport_text,
    Transmission, EVENT_ID_COM2_RADIO_SET_HZ, EVENT_ID_COM2_STBY_RADIO_SET_HZ,
    EVENT_ID_COM_RADIO_SET_HZ, EVENT_ID_COM_STBY_RADIO_SET_HZ, EVENT_ID_NAV1_RADIO_SET_HZ,
    EVENT_ID_NAV1_STBY_SET_HZ, EVENT_ID_NAV2_RADIO_SET_HZ, EVENT_ID_NAV2_STBY_SET_HZ,
    EVENT_ID_XPNDR_SET,
};
use crate::states::{
    AdfState, AutopilotState, AutopilotValue, DmeState, FrequencyState, InstrumentStates,
    XpdrState,
};
use crate::text::{
    char_count, decimal_string, decimal_text, digit_char, digit_to_char, digits_of,
    is_digit_char, lemma_digits_of, pad_left, padded_left, push_char, push_range, zero_padded,
    zero_padded_string,
};

verus! {

/// A window full of blanks
pub open spec fn blank_text() -> Seq<char> {
    seq![' ', ' ', ' ', ' ', ' ']
}

/// A window full of dashes
pub open spec fn dashes_text() -> Seq<char> {
    seq!['-', '-', '-', '-', '-']
}

/// The point that marks a value as the selected one, or nothing
pub open spec fn selected_indicator(selected: bool) -> Seq<char> {
    if selected {
        seq!['.']
    } else {
        Seq::empty()
    }
}

/// A text with a point put behind the character at position `at`, if the text reaches that
/// far
pub open spec fn marked_at(text: Seq<char>, at: int) -> Seq<char> {
    if 0 <= at < text.len() {
        text.subrange(0, at + 1) + seq!['.'] + text.subrange(at + 1, text.len() as int)
    } else {
        text
    }
}

/// The airspeed as its window shows it: right-justified in 5 characters
pub open spec fn airspeed_text(state: AutopilotState) -> Seq<char> {
    pad_left(decimal_text(state.airspeed as int), 5, ' ')
}

/// The heading as its window shows it: 2 blanks, then 3 digits
pub open spec fn heading_text(state: AutopilotState) -> Seq<char> {
    seq![' ', ' '] + pad_left(decimal_text(state.heading as int), 3, '0')
}

/// The altitude as its window shows it: 5 digits, and a point behind them while the altitude
/// is selected
pub open spec fn altitude_text(state: AutopilotState) -> Seq<char> {
    pad_left(decimal_text(state.altitude as int), 5, '0') + selected_indicator(
        state.selected_setting is Altitude,
    )
}

/// The vertical speed as its window shows it: a blank or a minus sign, then 4 digits, and a
/// point behind them while the vertical speed is selected
pub open spec fn vertical_speed_text(state: AutopilotState) -> Seq<char> {
    (if state.vertical_speed >= 0 {
        seq![' '] + pad_left(decimal_text(state.vertical_speed as int), 4, '0')
    } else {
        zero_padded(state.vertical_speed as int, 5)
    }) + selected_indicator(state.selected_setting is VerticalSpeed)
}

/// The direction finder's standby frequency as its window shows it: right-justified in 5
/// characters
pub open spec fn adf_text(state: AdfState) -> Seq<char> {
    pad_left(decimal_text(state.standby_frequency as int), 5, ' ')
}

/// The distance as its window shows it: 3 blanks, the whole miles, a point and the tenths
pub open spec fn dme_text(state: DmeState) -> Seq<char> {
    seq![' ', ' ', ' '] + decimal_text(state.distance_tenths as int / 10) + seq!['.'] + seq![
        digit_char(state.distance_tenths as int % 10),
    ]
}

/// The transponder code as its window shows it: a blank, the digits, and a point behind the
/// selected digit
pub open spec fn xpdr_text(state: XpdrState) -> Seq<char> {
    marked_at(seq![' '] + xpdr_code_text(state), state.selected_digit + 1)
}

/// The airspeed as its window shows it
pub fn format_airspeed(state: &AutopilotState) -> (text: String)
    ensures
        text@ == airspeed_text(*state),
{
    let number = decimal_string(state.airspeed as i64);
    padded_left(number.as_str(), 5, ' ')
}

/// The heading as its window shows it
pub fn format_heading(state: &AutopilotState) -> (text: String)
    ensures
        text@ == heading_text(*state),
{
    let number = decimal_string(state.heading as i64);
    let digits = padded_left(number.as_str(), 3, '0');
    let mut text = String::new();
    push_char(&mut text, ' ');
    push_char(&mut text, ' ');
    text.append(digits.as_str());
    text
}

/// The altitude as its window shows it
pub fn format_altitude(state: &AutopilotState) -> (text: String)
    ensures
        text@ == altitude_text(*state),
{
    let number = decimal_string(state.altitude as i64);
    let mut text = padded_left(number.as_str(), 5, '0');
    match state.selected_setting {
        AutopilotValue::Altitude => {
            push_char(&mut text, '.');
        },
        AutopilotValue::VerticalSpeed => {},
    }
    text
}

/// The vertical speed as its window shows it.
/// Formatted as in an Airbus: aligned right, always 4 digits, sign in front
pub fn format_vertical_speed(state: &AutopilotState) -> (text: String)
    ensures
        text@ == vertical_speed_text(*state),
{
    let mut text = String::new();
    if state.vertical_speed >= 0 {
        let number = decimal_string(state.vertical_speed as i64);
        let digits = padded_left(number.as_str(), 4, '0');
        push_char(&mut text, ' ');
        text.append(digits.as_str());
    } else {
        let digits = zero_padded_string(state.vertical_speed as i64, 5);
        text.append(digits.as_str());
    }
    match state.selected_setting {
        AutopilotValue::Altitude => {},
        AutopilotValue::VerticalSpeed => {
            push_char(&mut text, '.');
        },
    }
    text
}

/// The direction finder's standby frequency as its window shows it
pub fn format_adf(state: &AdfState) -> (text: String)
    ensures
        text@ == adf_text(*state),
{
    let number = decimal_string(state.standby_frequency as i64);
    padded_left(number.as_str(), 5, ' ')
}

/// The distance as its window shows it
pub fn format_dme(state: &DmeState) -> (text: String)
    ensures
        text@ == dme_text(*state),
{
    let miles = decimal_string((state.distance_tenths / 10) as i64);
    let mut text = String::new();
    push_char(&mut text, ' ');
    push_char(&mut text, ' ');
    push_char(&mut text, ' ');
    text.append(miles.as_str());
    push_char(&mut text, '.');
    push_char(&mut text, digit_to_char((state.distance_tenths % 10) as u8));
    text
}

/// The transponder code as its window shows it
pub fn format_xpdr(state: &XpdrState) -> (text: String)
    ensures
        text@ == xpdr_text(*state),
{
    let digits = xpdr_transport_text(state);
    let mut code = String::new();
    push_char(&mut code, ' ');
    code.append(digits.as_str());
    let len = char_count(code.as_str());
    if state.selected_digit < len - 1 {
        // if digit selected, add dot to it
        let mut text = String::new();
        push_range(&mut text, code.as_str(), 0, state.selected_digit + 2);
        push_char(&mut text, '.');
        push_range(&mut text, code.as_str(), state.selected_digit + 2, len);
        text
    } else {
        code
    }
}

/// Shows a radio in two windows: the active frequency on the left, the standby frequency on
/// the right. Gives the feature report that shows the panel, or the first thing that is wrong
/// with one of the two texts.
pub fn display_frequency_on_hardware(
    radio_panel: &mut RadioPanel,
    frequency_state: &FrequencyState,
    left_window: Window,
    right_window: Window,
    fractional_digits: u8,
) -> (result: Result<[u8; 23], DisplayError>)
    requires
        fractional_digits == 2 || fractional_digits == 3,
    ensures
        old(radio_panel).is_well_formed() ==> final(radio_panel).is_well_formed(),
        *final(radio_panel) == old(radio_panel).with_text(
            left_window,
            frequency_text(frequency_state.active_freq, fractional_digits as int),
        ).with_text(
            right_window,
            frequency_text(frequency_state.standby_freq, fractional_digits as int),
        ),
        match result {
            Ok(report) => report@ == final(radio_panel).report() && first_error(
                text_error(frequency_text(frequency_state.active_freq, fractional_digits as int)),
                text_error(frequency_text(frequency_state.standby_freq, fractional_digits as int)),
            ) is None,
            Err(error) => first_error(
                text_error(frequency_text(frequency_state.active_freq, fractional_digits as int)),
                text_error(frequency_text(frequency_state.standby_freq, fractional_digits as int)),
            ) == Some(error),
        },
{
    let active = format_frequency(frequency_state.active_freq, fractional_digits);
    let standby = format_frequency(frequency_state.standby_freq, fractional_digits);
    radio_panel.show_pair(left_window, active.as_str(), right_window, standby.as_str())
}

/// Shows the transponder in two windows: nothing on the left, the code on the right with a
/// point behind the selected digit
pub fn display_xpdr_on_hardware(
    radio_panel: &mut RadioPanel,
    state: &XpdrState,
    left_window: Window,
    right_window: Window,
) -> (result: Result<[u8; 23], DisplayError>)
    ensures
        old(radio_panel).is_well_formed() ==> final(radio_panel).is_well_formed(),
        *final(radio_panel) == old(radio_panel).with_text(left_window, blank_text()).with_text(
            right_window,
            xpdr_text(*state),
        ),
        match result {
            Ok(report) => report@ == final(radio_panel).report() && first_error(
                text_error(blank_text()),
                text_error(xpdr_text(*state)),
            ) is None,
            Err(error) => first_error(text_error(blank_text()), text_error(xpdr_text(*state)))
                == Some(error),
        },
{
    let code = format_xpdr(state);
    proof {
        reveal_strlit("     ");
        assert("     "@ =~= blank_text());
    }
    radio_panel.show_pair(left_window, "     ", right_window, code.as_str())
}

/// Shows the direction finder in two windows: nothing in the window of the active frequency,
/// the standby frequency in the other
pub fn display_adf_values(
    adf_state: &AdfState,
    window_active: Window,
    window_standby: Window,
    radio_panel: &mut RadioPanel,
) -> (result: Result<[u8; 23], DisplayError>)
    ensures
        old(radio_panel).is_well_formed() ==> final(radio_panel).is_well_formed(),
        *final(radio_panel) == old(radio_panel).with_text(window_active, blank_text()).with_text(
            window_standby,
            adf_text(*adf_state),
        ),
        match result {
            Ok(report) => report@ == final(radio_panel).report() && first_error(
                text_error(blank_text()),
                text_error(adf_text(*adf_state)),
            ) is None,
            Err(error) => first_error(text_error(blank_text()), text_error(adf_text(*adf_state)))
                == Some(error),
        },
{
    let standby = format_adf(adf_state);
    proof {
        reveal_strlit("     ");
        assert("     "@ =~= blank_text());
    }
    radio_panel.show_pair(window_active, "     ", window_standby, standby.as_str())
}

/// Shows the distance-measuring equipment in two windows: the active frequency of the first
/// NAV radio, and the distance
pub fn display_dme_on_hardware(
    radio_panel: &mut RadioPanel,
    dme_state: &DmeState,
    nav1_state: &FrequencyState,
    window_active: Window,
    window_standby: Window,
) -> (result: Result<[u8; 23], DisplayError>)
    ensures
        old(radio_panel).is_well_formed() ==> final(radio_panel).is_well_formed(),
        *final(radio_panel) == old(radio_panel).with_text(
            window_active,
            frequency_text(nav1_state.active_freq, 2),
        ).with_text(window_standby, dme_text(*dme_state)),
        match result {
            Ok(report) => report@ == final(radio_panel).report() && first_error(
                text_error(frequency_text(nav1_state.active_freq, 2)),
                text_error(dme_text(*dme_state)),
            ) is None,
            Err(error) => first_error(
                text_error(frequency_text(nav1_state.active_freq, 2)),
                text_error(dme_text(*dme_state)),
            ) == Some(error),
        },
{
    let formatted_distance = format_dme(dme_state);
    let active = format_frequency(nav1_state.active_freq, 2);
    radio_panel.show_pair(
        window_active,
        active.as_str(),
        window_standby,
        formatted_distance.as_str(),
    )
}

/// An integer written in decimal is made of digits and at most a dash, and is as long as its
/// size asks for.
pub proof fn lemma_decimal_text_shape(n: int)
    ensures
        is_plain(decimal_text(n)),
        decimal_text(n).len() >= 1,
        0 <= n < 10 ==> decimal_text(n).len() == 1,
        10 <= n < 100 ==> decimal_text(n).len() == 2,
        100 <= n < 1000 ==> decimal_text(n).len() == 3,
        1000 <= n < 10000 ==> decimal_text(n).len() == 4,
        10000 <= n < 100000 ==> decimal_text(n).len() == 5,
        100000 <= n ==> decimal_text(n).len() >= 6,
        -10 < n < 0 ==> decimal_text(n).len() == 2,
        -100 < n <= -10 ==> decimal_text(n).len() == 3,
        -1000 < n <= -100 ==> decimal_text(n).len() == 4,
        -10000 < n <= -1000 ==> decimal_text(n).len() == 5,
        n <= -10000 ==> decimal_text(n).len() >= 6,
{
    if n < 0 {
        lemma_digits_of((-n) as nat);
        let digits = digits_of((-n) as nat);
        assert forall|i: int| 0 <= i < decimal_text(n).len() implies is_glyph(
            #[trigger] decimal_text(n)[i],
        ) by {
            if i > 0 {
                assert(is_digit_char(digits[i - 1]));
            }
        }
    } else {
        lemma_digits_of(n as nat);
        let digits = digits_of(n as nat);
        assert forall|i: int| 0 <= i < decimal_text(n).len() implies is_glyph(
            #[trigger] decimal_text(n)[i],
        ) by {
            assert(is_digit_char(digits[i]));
        }
    }
}

/// Padding a text of digits, blanks and dashes with blanks or zeros leaves it one.
pub proof fn lemma_pad_left_is_plain(text: Seq<char>, width: nat, fill: char)
    requires
        is_plain(text),
        is_glyph(fill),
    ensures
        is_plain(pad_left(text, width, fill)),
        pad_left(text, width, fill).len() == if text.len() >= width {
            text.len()
        } else {
            width
        },
{
    let padded = pad_left(text, width, fill);
    assert forall|i: int| 0 <= i < padded.len() implies is_glyph(#[trigger] padded[i]) by {
        if text.len() < width && i >= width - text.len() {
            assert(is_glyph(text[i - (width - text.len())]));
        } else if text.len() >= width {
            assert(is_glyph(text[i]));
        }
    }
}

/// A frequency fits its window: with 3 fractional digits where its whole part has 2 or 3
/// digits, with 2 fractional digits where its whole part has up to 3, and its fraction is a
/// number of thousandths. Every channel of the COM band fits with 3 fractional digits and
/// every channel of the NAV band with 2.
pub proof fn lemma_frequency_text_fits(freq: Frequency, fractional_digits: int)
    requires
        fractional_digits == 2 || fractional_digits == 3,
        0 <= freq.fraction <= 999,
        fractional_digits == 3 ==> 10 <= freq.integer <= 999,
        fractional_digits == 2 ==> 0 <= freq.integer <= 999,
    ensures
        text_error(frequency_text(freq, fractional_digits)) is None,
{
    let whole = decimal_text(freq.integer as int);
    let fraction = zero_padded(freq.fraction as int, 3);
    lemma_decimal_text_shape(freq.integer as int);
    lemma_decimal_text_shape(freq.fraction as int);
    lemma_pad_left_is_plain(decimal_text(freq.fraction as int), 3, '0');
    assert(fraction.len() == 3);
    if fractional_digits == 2 {
        let shown = fraction.subrange(0, 2);
        assert(is_plain(shown)) by {
            assert forall|i: int| 0 <= i < shown.len() implies is_glyph(#[trigger] shown[i]) by {
                assert(is_glyph(fraction[i]));
            }
        }
        lemma_error_of_marked_text(whole, shown);
    } else {
        let shown = whole.subrange(1, whole.len() as int);
        assert(is_plain(shown)) by {
            assert forall|i: int| 0 <= i < shown.len() implies is_glyph(#[trigger] shown[i]) by {
                assert(is_glyph(whole[i + 1]));
            }
        }
        lemma_error_of_marked_text(shown, fraction);
    }
}

/// The transponder fits its window while its digits are octal and one of them is selected.
pub proof fn lemma_xpdr_text_fits(state: XpdrState)
    requires
        state.is_well_formed(),
    ensures
        text_error(xpdr_text(state)) is None,
{
    let code = seq![' '] + xpdr_code_text(state);
    assert(0 <= state.code@[0] < 8 && 0 <= state.code@[1] < 8 && 0 <= state.code@[2] < 8 && 0
        <= state.code@[3] < 8);
    lemma_decimal_text_shape(state.code@[0] as int);
    lemma_decimal_text_shape(state.code@[1] as int);
    lemma_decimal_text_shape(state.code@[2] as int);
    lemma_decimal_text_shape(state.code@[3] as int);
    assert(code.len() == 5);
    assert(is_plain(code)) by {
        assert forall|i: int| 0 <= i < code.len() implies is_glyph(#[trigger] code[i]) by {
            if i == 1 {
                assert(is_glyph(decimal_text(state.code@[0] as int)[0]));
            } else if i == 2 {
                assert(is_glyph(decimal_text(state.code@[1] as int)[0]));
            } else if i == 3 {
                assert(is_glyph(decimal_text(state.code@[2] as int)[0]));
            } else if i == 4 {
                assert(is_glyph(decimal_text(state.code@[3] as int)[0]));
            }
        }
    }
    let at = state.selected_digit + 1;
    let before = code.subrange(0, at + 1);
    let after = code.subrange(at + 1, code.len() as int);
    assert(is_plain(before)) by {
        assert forall|i: int| 0 <= i < before.len() implies is_glyph(#[trigger] before[i]) by {
            assert(is_glyph(code[i]));
        }
    }
    assert(is_plain(after)) by {
        assert forall|i: int| 0 <= i < after.len() implies is_glyph(#[trigger] after[i]) by {
            assert(is_glyph(code[i + at + 1]));
        }
    }
    lemma_error_of_marked_text(before, after);
}

/// The direction finder fits its window unless its standby frequency is below -9999.
pub proof fn lemma_adf_text_fits(state: AdfState)
    requires
        state.is_well_formed(),
    ensures
        text_error(adf_text(state)) is None,
{
    lemma_decimal_text_shape(state.standby_frequency as int);
    lemma_pad_left_is_plain(decimal_text(state.standby_frequency as int), 5, ' ');
    lemma_error_of_plain_text(adf_text(state));
}

/// The distance fits its window while it is below 10 nautical miles.
pub proof fn lemma_dme_text_fits(state: DmeState)
    requires
        state.is_well_formed(),
    ensures
        text_error(dme_text(state)) is None,
{
    let miles = decimal_text(state.distance_tenths as int / 10);
    let before = seq![' ', ' ', ' '] + miles;
    let after = seq![digit_char(state.distance_tenths as int % 10)];
    lemma_decimal_text_shape(state.distance_tenths as int / 10);
    assert(is_plain(before)) by {
        assert forall|i: int| 0 <= i < before.len() implies is_glyph(#[trigger] before[i]) by {
            if i >= 3 {
                assert(is_glyph(miles[i - 3]));
            }
        }
    }
    assert(is_plain(after));
    assert(dme_text(state) =~= before + seq!['.'] + after);
    lemma_error_of_marked_text(before, after);
}

/// Of the autopilot's four texts, three always fit their windows while the targets are
/// within their limits. The altitude fits up to 99999; the highest altitude, 100000, needs a
/// sixth digit and is too long.
pub proof fn lemma_autopilot_texts_fit(state: AutopilotState)
    requires
        state.is_well_formed(),
    ensures
        text_error(airspeed_text(state)) is None,
        text_error(heading_text(state)) is None,
        text_error(vertical_speed_text(state)) is None,
        text_error(altitude_text(state)) == if state.altitude > 99999 {
            Some(DisplayError::TooLong)
        } else {
            None
        },
{
    let none = Seq::<char>::empty();
    lemma_decimal_text_shape(state.airspeed as int);
    lemma_pad_left_is_plain(decimal_text(state.airspeed as int), 5, ' ');
    lemma_error_of_plain_text(airspeed_text(state));

    lemma_decimal_text_shape(state.heading as int);
    lemma_pad_left_is_plain(decimal_text(state.heading as int), 3, '0');
    let heading = pad_left(decimal_text(state.heading as int), 3, '0');
    assert(is_plain(heading_text(state))) by {
        assert forall|i: int| 0 <= i < heading_text(state).len() implies is_glyph(
            #[trigger] heading_text(state)[i],
        ) by {
            if i >= 2 {
                assert(is_glyph(heading[i - 2]));
            }
        }
    }
    lemma_error_of_plain_text(heading_text(state));

    lemma_decimal_text_shape(state.altitude as int);
    lemma_pad_left_is_plain(decimal_text(state.altitude as int), 5, '0');
    let altitude = pad_left(decimal_text(state.altitude as int), 5, '0');
    if state.selected_setting is Altitude {
        assert(altitude_text(state) =~= altitude + seq!['.'] + none);
        lemma_error_of_marked_text(altitude, none);
    } else {
        assert(altitude_text(state) =~= altitude);
        lemma_error_of_plain_text(altitude);
    }

    let speed = if state.vertical_speed >= 0 {
        seq![' '] + pad_left(decimal_text(state.vertical_speed as int), 4, '0')
    } else {
        zero_padded(state.vertical_speed as int, 5)
    };
    assert(is_plain(speed) && speed.len() == 5) by {
        if state.vertical_speed >= 0 {
            lemma_decimal_text_shape(state.vertical_speed as int);
            lemma_pad_left_is_plain(decimal_text(state.vertical_speed as int), 4, '0');
            let digits = pad_left(decimal_text(state.vertical_speed as int), 4, '0');
            assert forall|i: int| 0 <= i < speed.len() implies is_glyph(#[trigger] speed[i]) by {
                if i >= 1 {
                    assert(is_glyph(digits[i - 1]));
                }
            }
        } else {
            lemma_decimal_text_shape(-state.vertical_speed as int);
            lemma_pad_left_is_plain(decimal_text(-state.vertical_speed as int), 4, '0');
            let digits = pad_left(decimal_text(-state.vertical_speed as int), 4, '0');
            assert forall|i: int| 0 <= i < speed.len() implies is_glyph(#[trigger] speed[i]) by {
                if i >= 1 {
                    assert(is_glyph(digits[i - 1]));
                }
            }
        }
    }
    if state.selected_setting is VerticalSpeed {
        assert(vertical_speed_text(state) =~= speed + seq!['.'] + none);
        lemma_error_of_marked_text(speed, none);
    } else {
        assert(vertical_speed_text(state) =~= speed);
        lemma_error_of_plain_text(speed);
    }
}

/// Why a poll could not be carried out
#[derive(Copy, Clone, Debug, PartialEq, Eq, Structural)]
pub enum PanelError {
    /// A value does not fit its window
    Display(DisplayError),
    /// A value cannot be written as a number that the simulator takes
    NoSimulatorCode,
}

/// What a poll asks of the outside: the feature report to send to the panel, and the events
/// to send to the simulator, in their order
#[derive(Clone, Debug, PartialEq, Eq)]
pub struct PanelUpdate {
    pub report: [u8; 23],
    pub transmissions: Vec<Transmission>,
}

/// The first thing that is wrong with one of the autopilot's four texts, in the order
/// airspeed, heading, altitude, vertical speed
pub open spec fn autopilot_display_error(state: AutopilotState) -> Option<DisplayError> {
    first_error(
        first_error(text_error(airspeed_text(state)), text_error(heading_text(state))),
        first_error(text_error(altitude_text(state)), text_error(vertical_speed_text(state))),
    )
}

/// The panel after it was asked to show the autopilot: airspeed top left, heading top right,
/// altitude bottom left, vertical speed bottom right
pub open spec fn autopilot_panel(panel: RadioPanel, state: AutopilotState) -> RadioPanel {
    panel.with_text(Window::TopLeft, airspeed_text(state)).with_text(
        Window::TopRight,
        heading_text(state),
    ).with_text(Window::BottomLeft, altitude_text(state)).with_text(
        Window::BottomRight,
        vertical_speed_text(state),
    )
}

/// Shows the autopilot in all four windows and tells the simulator its four targets.
///
/// Every window whose text fits is drawn. Where one does not fit, the first such finding is
/// returned in place of the update; with the targets within their limits that happens for
/// the altitude 100000 only.
pub fn autopilot_logic(state: &AutopilotState, radio_panel: &mut RadioPanel) -> (result: Result<
    PanelUpdate,
    DisplayError,
>)
    ensures
        old(radio_panel).is_well_formed() ==> final(radio_panel).is_well_formed(),
        *final(radio_panel) == autopilot_panel(*old(radio_panel), *state),
        match result {
            Ok(update) => {
                &&& autopilot_display_error(*state) is None
                &&& update.report@ == final(radio_panel).report()
                &&& update.transmissions@ == autopilot_transmissions(*state)
            },
            Err(error) => autopilot_display_error(*state) == Some(error),
        },
        state.is_well_formed() && state.altitude <= 99999 ==> result is Ok,
{
    let transmissions = send_autopilot_to_sim(state);
    let airspeed = format_airspeed(state);
    let heading = format_heading(state);
    let altitude = format_altitude(state);
    let vertical_speed = format_vertical_speed(state);
    proof {
        if state.is_well_formed() {
            lemma_autopilot_texts_fit(*state);
        }
    }
    let upper = radio_panel.show_pair(
        Window::TopLeft,
        airspeed.as_str(),
        Window::TopRight,
        heading.as_str(),
    );
    let lower = radio_panel.show_pair(
        Window::BottomLeft,
        altitude.as_str(),
        Window::BottomRight,
        vertical_speed.as_str(),
    );
    match upper {
        Err(error) => Err(error),
        Ok(_) => match lower {
            Err(error) => Err(error),
            Ok(report) => Ok(PanelUpdate { report, transmissions }),
        },
    }
}

/// Show only dashes to indicate no data received from sim yet. Gives the feature report that
/// shows the panel
pub fn show_standby_screen(radio_panel: &mut RadioPanel) -> (report: [u8; 23])
    ensures
        old(radio_panel).is_well_formed() ==> final(radio_panel).is_well_formed(),
        text_error(dashes_text()) is None,
        *final(radio_panel) == old(radio_panel).with_text(Window::TopLeft, dashes_text()).with_text(
            Window::TopRight,
            dashes_text(),
        ).with_text(Window::BottomLeft, dashes_text()).with_text(
            Window::BottomRight,
            dashes_text(),
        ),
        report@ == final(radio_panel).report(),
{
    proof {
        reveal_strlit("-----");
        assert("-----"@ =~= dashes_text());
        lemma_error_of_plain_text(dashes_text());
    }
    let _ = radio_panel.show_pair(Window::TopLeft, "-----", Window::TopRight, "-----");
    let _ = radio_panel.show_pair(Window::BottomLeft, "-----", Window::BottomRight, "-----");
    radio_panel.update_all_windows()
}

/// The instruments after the button and the rotaries of one bank have acted on the
/// instrument that the bank's mode selector points at. The direction finder and the
/// distance-measuring equipment take no input.
pub open spec fn bank_state_after(
    state: InstrumentStates,
    selector: ModeSelectorState,
    button: ButtonState,
    outer: RotaryState,
    inner: RotaryState,
) -> InstrumentStates {
    match selector {
        ModeSelectorState::ModeSelectorCom1 => InstrumentStates {
            com1_state: com_step(state.com1_state, button, outer, inner),
            ..state
        },
        ModeSelectorState::ModeSelectorCom2 => InstrumentStates {
            com2_state: com_step(state.com2_state, button, outer, inner),
            ..state
        },
        ModeSelectorState::ModeSelectorNav1 => InstrumentStates {
            nav1_state: nav_step(state.nav1_state, button, outer, inner),
            ..state
        },
        ModeSelectorState::ModeSelectorNav2 => InstrumentStates {
            nav2_state: nav_step(state.nav2_state, button, outer, inner),
            ..state
        },
        ModeSelectorState::ModeSelectorAdf => state,
        ModeSelectorState::ModeSelectorDme => state,
        ModeSelectorState::ModeSelectorXpdr => InstrumentStates {
            xpdr_state: xpdr_step(state.xpdr_state, button, outer, inner),
            ..state
        },
    }
}

/// What the two windows of a bank show of the instrument that the bank's mode selector points
/// at: the left text and the right text
pub open spec fn bank_texts(state: InstrumentStates, selector: ModeSelectorState) -> (
    Seq<char>,
    Seq<char>,
) {
    match selector {
        ModeSelectorState::ModeSelectorCom1 => (
            frequency_text(state.com1_state.active_freq, 3),
            frequency_text(state.com1_state.standby_freq, 3),
        ),
        ModeSelectorState::ModeSelectorCom2 => (
            frequency_text(state.com2_state.active_freq, 3),
            frequency_text(state.com2_state.standby_freq, 3),
        ),
        ModeSelectorState::ModeSelectorNav1 => (
            frequency_text(state.nav1_state.active_freq, 2),
            frequency_text(state.nav1_state.standby_freq, 2),
        ),
        ModeSelectorState::ModeSelectorNav2 => (
            frequency_text(state.nav2_state.active_freq, 2),
            frequency_text(state.nav2_state.standby_freq, 2),
        ),
        ModeSelectorState::ModeSelectorAdf => (blank_text(), adf_text(state.adf_state)),
        ModeSelectorState::ModeSelectorDme => (
            frequency_text(state.nav1_state.active_freq, 2),
            dme_text(state.dme_state),
        ),
        ModeSelectorState::ModeSelectorXpdr => (blank_text(), xpdr_text(state.xpdr_state)),
    }
}

/// The events that tell the simulator about the instrument that a mode selector points at;
/// none where a value of the instrument has no code. Nothing is sent for the direction finder
/// and the distance-measuring equipment.
pub open spec fn bank_transmissions(state: InstrumentStates, selector: ModeSelectorState) -> Option<
    Seq<Transmission>,
> {
    match selector {
        ModeSelectorState::ModeSelectorCom1 => radio_transmissions(
            state.com1_state,
            EVENT_ID_COM_RADIO_SET_HZ,
            EVENT_ID_COM_STBY_RADIO_SET_HZ,
        ),
        ModeSelectorState::ModeSelectorCom2 => radio_transmissions(
            state.com2_state,
            EVENT_ID_COM2_RADIO_SET_HZ,
            EVENT_ID_COM2_STBY_RADIO_SET_HZ,
        ),
        ModeSelectorState::ModeSelectorNav1 => radio_transmissions(
            state.nav1_state,
            EVENT_ID_NAV1_RADIO_SET_HZ,
            EVENT_ID_NAV1_STBY_SET_HZ,
        ),
        ModeSelectorState::ModeSelectorNav2 => radio_transmissions(
            state.nav2_state,
            EVENT_ID_NAV2_RADIO_SET_HZ,
            EVENT_ID_NAV2_STBY_SET_HZ,
        ),
        ModeSelectorState::ModeSelectorAdf => Some(Seq::empty()),
        ModeSelectorState::ModeSelectorDme => Some(Seq::empty()),
        ModeSelectorState::ModeSelectorXpdr => xpdr_transmissions(
            state.xpdr_state,
            EVENT_ID_XPNDR_SET,
        ),
    }
}

/// How showing two texts and sending events ends: with the events for the simulator, or
/// with the first text that does not fit its window, or, where both texts fit, with a value
/// that has no code
pub open spec fn outcome_of(
    left_text: Seq<char>,
    right_text: Seq<char>,
    transmissions: Option<Seq<Transmission>>,
) -> Result<Seq<Transmission>, PanelError> {
    match first_error(text_error(left_text), text_error(right_text)) {
        Some(error) => Err(PanelError::Display(error)),
        None => match transmissions {
            Some(events) => Ok(events),
            None => Err(PanelError::NoSimulatorCode),
        },
    }
}

/// How showing and sending the instrument of a bank ends
pub open spec fn bank_outcome(state: InstrumentStates, selector: ModeSelectorState) -> Result<
    Seq<Transmission>,
    PanelError,
> {
    outcome_of(
        bank_texts(state, selector).0,
        bank_texts(state, selector).1,
        bank_transmissions(state, selector),
    )
}

/// The panel after the two windows of a bank were asked to show the instrument that the
/// bank's mode selector points at
pub open spec fn bank_panel(
    panel: RadioPanel,
    state: InstrumentStates,
    selector: ModeSelectorState,
    left_window: Window,
    right_window: Window,
) -> RadioPanel {
    panel.with_text(left_window, bank_texts(state, selector).0).with_text(
        right_window,
        bank_texts(state, selector).1,
    )
}

/// Puts together what a bank shows and what it sends
fn bank_update(shown: Result<[u8; 23], DisplayError>, sent: Option<Vec<Transmission>>) -> (result:
    Result<PanelUpdate, PanelError>)
    ensures
        match result {
            Ok(update) => shown == Ok::<[u8; 23], DisplayError>(update.report) && sent == Some(
                update.transmissions,
            ),
            Err(error) => match shown {
                Err(finding) => error == PanelError::Display(finding),
                Ok(_) => sent is None && error == PanelError::NoSimulatorCode,
            },
        },
{
    match shown {
        Err(error) => Err(PanelError::Display(error)),
        Ok(report) => match sent {
            Some(transmissions) => Ok(PanelUpdate { report, transmissions }),
            None => Err(PanelError::NoSimulatorCode),
        },
    }
}

/// Whether an update says what `outcome` asks for and carries the report of `panel`
pub open spec fn carries_out(
    result: Result<PanelUpdate, PanelError>,
    outcome: Result<Seq<Transmission>, PanelError>,
    panel: RadioPanel,
) -> bool {
    match result {
        Ok(update) => {
            &&& outcome == Ok::<Seq<Transmission>, PanelError>(update.transmissions@)
            &&& update.report@ == panel.report()
        },
        Err(error) => outcome == Err::<Seq<Transmission>, PanelError>(error),
    }
}

/// One poll of a COM radio: its button and rotaries act on it, two windows show it with 3
/// fractional digits, and the events that tell the simulator its frequencies are put together
pub fn handle_com(
    frequency_state: &mut FrequencyState,
    button: ButtonState,
    outer_rotary: RotaryState,
    inner_rotary: RotaryState,
    radio_panel: &mut RadioPanel,
    left_window: Window,
    right_window: Window,
    active_event_id: u32,
    standby_event_id: u32,
) -> (result: Result<PanelUpdate, PanelError>)
    ensures
        old(radio_panel).is_well_formed() ==> final(radio_panel).is_well_formed(),
        *final(frequency_state) == com_step(
            *old(frequency_state),
            button,
            outer_rotary,
            inner_rotary,
        ),
        *final(radio_panel) == old(radio_panel).with_text(
            left_window,
            frequency_text(final(frequency_state).active_freq, 3),
        ).with_text(right_window, frequency_text(final(frequency_state).standby_freq, 3)),
        carries_out(
            result,
            outcome_of(
                frequency_text(final(frequency_state).active_freq, 3),
                frequency_text(final(frequency_state).standby_freq, 3),
                radio_transmissions(*final(frequency_state), active_event_id, standby_event_id),
            ),
            *final(radio_panel),
        ),
        old(frequency_state).is_com() ==> final(frequency_state).is_com() && result is Ok,
{
    apply_com_input(frequency_state, button, outer_rotary, inner_rotary);
    proof {
        if frequency_state.is_com() {
            lemma_frequency_text_fits(frequency_state.active_freq, 3);
            lemma_frequency_text_fits(frequency_state.standby_freq, 3);
            lemma_frequency_code(frequency_state.active_freq);
            lemma_frequency_code(frequency_state.standby_freq);
        }
    }
    let shown = display_frequency_on_hardware(
        radio_panel,
        frequency_state,
        left_window,
        right_window,
        3,
    );
    let sent = send_com_to_sim(frequency_state, active_event_id, standby_event_id);
    bank_update(shown, sent)
}

/// One poll of a NAV radio: its button and rotaries act on it, two windows show it with 2
/// fractional digits, and the events that tell the simulator its frequencies are put together
pub fn handle_nav(
    frequency_state: &mut FrequencyState,
    button: ButtonState,
    outer_rotary: RotaryState,
    inner_rotary: RotaryState,
    radio_panel: &mut RadioPanel,
    left_window: Window,
    right_window: Window,
    active_event_id: u32,
    standby_event_id: u32,
) -> (result: Result<PanelUpdate, PanelError>)
    ensures
        old(radio_panel).is_well_formed() ==> final(radio_panel).is_well_formed(),
        *final(frequency_state) == nav_step(
            *old(frequency_state),
            button,
            outer_rotary,
            inner_rotary,
        ),
        *final(radio_panel) == old(radio_panel).with_text(
            left_window,
            frequency_text(final(frequency_state).active_freq, 2),
        ).with_text(right_window, frequency_text(final(frequency_state).standby_freq, 2)),
        carries_out(
            result,
            outcome_of(
                frequency_text(final(frequency_state).active_freq, 2),
                frequency_text(final(frequency_state).standby_freq, 2),
                radio_transmissions(*final(frequency_state), active_event_id, standby_event_id),
            ),
            *final(radio_panel),
        ),
        old(frequency_state).is_nav() ==> final(frequency_state).is_nav() && result is Ok,
{
    apply_nav_input(frequency_state, button, outer_rotary, inner_rotary);
    proof {
        if frequency_state.is_nav() {
            lemma_frequency_text_fits(frequency_state.active_freq, 2);
            lemma_frequency_text_fits(frequency_state.standby_freq, 2);
            lemma_frequency_code(frequency_state.active_freq);
            lemma_frequency_code(frequency_state.standby_freq);
        }
    }
    let shown = display_frequency_on_hardware(
        radio_panel,
        frequency_state,
        left_window,
        right_window,
        2,
    );
    let sent = send_nav_to_sim(frequency_state, active_event_id, standby_event_id);
    bank_update(shown, sent)
}

/// One poll of the direction finder: two windows show it; it takes no input and the
/// simulator is told nothing
pub fn handle_adf(
    adf_state: &AdfState,
    radio_panel: &mut RadioPanel,
    left_window: Window,
    right_window: Window,
) -> (result: Result<PanelUpdate, PanelError>)
    ensures
        old(radio_panel).is_well_formed() ==> final(radio_panel).is_well_formed(),
        *final(radio_panel) == old(radio_panel).with_text(left_window, blank_text()).with_text(
            right_window,
            adf_text(*adf_state),
        ),
        carries_out(
            result,
            outcome_of(blank_text(), adf_text(*adf_state), Some(Seq::empty())),
            *final(radio_panel),
        ),
        adf_state.is_well_formed() ==> result is Ok,
{
    proof {
        lemma_error_of_plain_text(blank_text());
        if adf_state.is_well_formed() {
            lemma_adf_text_fits(*adf_state);
        }
    }
    let shown = display_adf_values(adf_state, left_window, right_window, radio_panel);
    bank_update(shown, Some(Vec::new()))
}

/// One poll of the distance-measuring equipment: two windows show the active frequency of
/// the first NAV radio and the distance; it takes no input and the simulator is told nothing
pub fn handle_dme(
    dme_state: &DmeState,
    nav1_state: &FrequencyState,
    radio_panel: &mut RadioPanel,
    left_window: Window,
    right_window: Window,
) -> (result: Result<PanelUpdate, PanelError>)
    ensures
        old(radio_panel).is_well_formed() ==> final(radio_panel).is_well_formed(),
        *final(radio_panel) == old(radio_panel).with_text(
            left_window,
            frequency_text(nav1_state.active_freq, 2),
        ).with_text(right_window, dme_text(*dme_state)),
        carries_out(
            result,
            outcome_of(
                frequency_text(nav1_state.active_freq, 2),
                dme_text(*dme_state),
                Some(Seq::empty()),
            ),
            *final(radio_panel),
        ),
        dme_state.is_well_formed() && nav1_state.is_nav() ==> result is Ok,
{
    proof {
        if nav1_state.is_nav() {
            lemma_frequency_text_fits(nav1_state.active_freq, 2);
        }
        if dme_state.is_well_formed() {
            lemma_dme_text_fits(*dme_state);
        }
    }
    let shown = display_dme_on_hardware(
        radio_panel,
        dme_state,
        nav1_state,
        left_window,
        right_window,
    );
    bank_update(shown, Some(Vec::new()))
}

/// One poll of the transponder: its button and rotaries act on it, two windows show it, and
/// the event that tells the simulator its code is put together
pub fn handle_xpdr(
    xpdr_state: &mut XpdrState,
    button: ButtonState,
    outer_rotary: RotaryState,
    inner_rotary: RotaryState,
    radio_panel: &mut RadioPanel,
    left_window: Window,
    right_window: Window,
) -> (result: Result<PanelUpdate, PanelError>)
    requires
        old(xpdr_state).selected_digit < 4,
    ensures
        old(radio_panel).is_well_formed() ==> final(radio_panel).is_well_formed(),
        *final(xpdr_state) == xpdr_step(*old(xpdr_state), button, outer_rotary, inner_rotary),
        *final(radio_panel) == old(radio_panel).with_text(left_window, blank_text()).with_text(
            right_window,
            xpdr_text(*final(xpdr_state)),
        ),
        carries_out(
            result,
            outcome_of(
                blank_text(),
                xpdr_text(*final(xpdr_state)),
                xpdr_transmissions(*final(xpdr_state), EVENT_ID_XPNDR_SET),
            ),
            *final(radio_panel),
        ),
        final(xpdr_state).selected_digit < 4,
        old(xpdr_state).is_well_formed() ==> final(xpdr_state).is_well_formed() && result is Ok,
{
    apply_xpdr_input(xpdr_state, button, outer_rotary, inner_rotary);
    proof {
        lemma_error_of_plain_text(blank_text());
        if xpdr_state.is_well_formed() {
            lemma_xpdr_text_fits(*xpdr_state);
            lemma_xpdr_code(*xpdr_state);
        }
    }
    let shown = display_xpdr_on_hardware(radio_panel, xpdr_state, left_window, right_window);
    let sent = send_xpdr_to_sim(xpdr_state, EVENT_ID_XPNDR_SET);
    bank_update(shown, sent)
}

/// One bank of the panel: its button and rotaries act on the instrument that its mode
/// selector points at, its two windows show that instrument, and the events that tell the
/// simulator about it are put together.
///
/// The instrument is changed first. Every window whose text fits is drawn. The update is
/// returned where both texts fit and every value has a code, which is so whenever the
/// instruments are within their limits.
pub fn handle_bank(
    selector: ModeSelectorState,
    button: ButtonState,
    outer_rotary: RotaryState,
    inner_rotary: RotaryState,
    state: &mut InstrumentStates,
    radio_panel: &mut RadioPanel,
    left_window: Window,
    right_window: Window,
) -> (result: Result<PanelUpdate, PanelError>)
    requires
        selector is ModeSelectorXpdr ==> old(state).xpdr_state.selected_digit < 4,
    ensures
        old(radio_panel).is_well_formed() ==> final(radio_panel).is_well_formed(),
        *final(state) == bank_state_after(
            *old(state),
            selector,
            button,
            outer_rotary,
            inner_rotary,
        ),
        *final(radio_panel) == bank_panel(
            *old(radio_panel),
            *final(state),
            selector,
            left_window,
            right_window,
        ),
        carries_out(result, bank_outcome(*final(state), selector), *final(radio_panel)),
        old(state).xpdr_state.selected_digit < 4 ==> final(state).xpdr_state.selected_digit < 4,
        old(state).is_well_formed() ==> final(state).is_well_formed() && result is Ok,
{
    match selector {
        ModeSelectorState::ModeSelectorCom1 => handle_com(
            &mut state.com1_state,
            button,
            outer_rotary,
            inner_rotary,
            radio_panel,
            left_window,
            right_window,
            EVENT_ID_COM_RADIO_SET_HZ,
            EVENT_ID_COM_STBY_RADIO_SET_HZ,
        ),
        ModeSelectorState::ModeSelectorCom2 => handle_com(
            &mut state.com2_state,
            button,
            outer_rotary,
            inner_rotary,
            radio_panel,
            left_window,
            right_window,
            EVENT_ID_COM2_RADIO_SET_HZ,
            EVENT_ID_COM2_STBY_RADIO_SET_HZ,
        ),
        ModeSelectorState::ModeSelectorNav1 => handle_nav(
            &mut state.nav1_state,
            button,
            outer_rotary,
            inner_rotary,
            radio_panel,
            left_window,
            right_window,
            EVENT_ID_NAV1_RADIO_SET_HZ,
            EVENT_ID_NAV1_STBY_SET_HZ,
        ),
        ModeSelectorState::ModeSelectorNav2 => handle_nav(
            &mut state.nav2_state,
            button,
            outer_rotary,
            inner_rotary,
            radio_panel,
            left_window,
            right_window,
            EVENT_ID_NAV2_RADIO_SET_HZ,
            EVENT_ID_NAV2_STBY_SET_HZ,
        ),
        ModeSelectorState::ModeSelectorAdf => handle_adf(
            &state.adf_state,
            radio_panel,
            left_window,
            right_window,
        ),
        ModeSelectorState::ModeSelectorDme => handle_dme(
            &state.dme_state,
            &state.nav1_state,
            radio_panel,
            left_window,
            right_window,
        ),
        ModeSelectorState::ModeSelectorXpdr => handle_xpdr(
            &mut state.xpdr_state,
            button,
            outer_rotary,
            inner_rotary,
            radio_panel,
            left_window,
            right_window,
        ),
    }
}

/// The upper bank of the panel: its controls act on the instrument that the upper mode
/// selector points at, which is shown in the two upper windows
pub fn handle_upper_panel(
    input: InputState,
    state: &mut InstrumentStates,
    radio_panel: &mut RadioPanel,
) -> (result: Result<PanelUpdate, PanelError>)
    requires
        input.mode_selector_upper is ModeSelectorXpdr ==> old(state).xpdr_state.selected_digit < 4,
    ensures
        old(radio_panel).is_well_formed() ==> final(radio_panel).is_well_formed(),
        *final(state) == bank_state_after(
            *old(state),
            input.mode_selector_upper,
            input.button_upper,
            input.rotary_upper_outer,
            input.rotary_upper_inner,
        ),
        *final(radio_panel) == bank_panel(
            *old(radio_panel),
            *final(state),
            input.mode_selector_upper,
            Window::TopLeft,
            Window::TopRight,
        ),
        carries_out(
            result,
            bank_outcome(*final(state), input.mode_selector_upper),
            *final(radio_panel),
        ),
        old(state).xpdr_state.selected_digit < 4 ==> final(state).xpdr_state.selected_digit < 4,
        old(state).is_well_formed() ==> final(state).is_well_formed() && result is Ok,
{
    handle_bank(
        input.mode_selector_upper,
        input.button_upper,
        input.rotary_upper_outer,
        input.rotary_upper_inner,
        state,
        radio_panel,
        Window::TopLeft,
        Window::TopRight,
    )
}

/// The lower bank of the panel: its controls act on the instrument that the lower mode
/// selector points at, which is shown in the two lower windows
pub fn handle_lower_panel(
    input: InputState,
    state: &mut InstrumentStates,
    radio_panel: &mut RadioPanel,
) -> (result: Result<PanelUpdate, PanelError>)
    requires
        input.mode_selector_lower is ModeSelectorXpdr ==> old(state).xpdr_state.selected_digit < 4,
    ensures
        old(radio_panel).is_well_formed() ==> final(radio_panel).is_well_formed(),
        *final(state) == bank_state_after(
            *old(state),
            input.mode_selector_lower,
            input.button_lower,
            input.rotary_lower_outer,
            input.rotary_lower_inner,
        ),
        *final(radio_panel) == bank_panel(
            *old(radio_panel),
            *final(state),
            input.mode_selector_lower,
            Window::BottomLeft,
            Window::BottomRight,
        ),
        carries_out(
            result,
            bank_outcome(*final(state), input.mode_selector_lower),
            *final(radio_panel),
        ),
        old(state).xpdr_state.selected_digit < 4 ==> final(state).xpdr_state.selected_digit < 4,
        old(state).is_well_formed() ==> final(state).is_well_formed() && result is Ok,
{
    handle_bank(
        input.mode_selector_lower,
        input.button_lower,
        input.rotary_lower_outer,
        input.rotary_lower_inner,
        state,
        radio_panel,
        Window::BottomLeft,
        Window::BottomRight,
    )
}

/// What one poll asks of the outside
#[derive(Clone, Debug, PartialEq, Eq)]
pub enum PollUpdate {
    /// Both mode selectors point at the same instrument: the controls went to the autopilot
    Autopilot(PanelUpdate),
    /// Each bank went to its own instrument: the update of the upper bank, then that of the
    /// lower bank
    Banks(PanelUpdate, PanelUpdate),
}

/// Whether a poll goes to the autopilot: it does when both mode selectors point at the same
/// instrument
pub open spec fn routes_to_autopilot(input: InputState) -> bool {
    input.mode_selector_upper == input.mode_selector_lower
}

/// The instruments after a poll that went to the autopilot: all rotaries and the lower button
/// have acted on the autopilot, and no radio has changed
pub open spec fn autopilot_state_after(
    state: InstrumentStates,
    input: InputState,
) -> InstrumentStates {
    InstrumentStates {
        autopilot_state: autopilot_step(
            state.autopilot_state,
            input.rotary_upper_outer,
            input.rotary_upper_inner,
            input.rotary_lower_outer,
            input.rotary_lower_inner,
            input.button_lower,
        ),
        ..state
    }
}

/// The instruments after the upper bank has acted
pub open spec fn upper_state_after(state: InstrumentStates, input: InputState) -> InstrumentStates {
    bank_state_after(
        state,
        input.mode_selector_upper,
        input.button_upper,
        input.rotary_upper_outer,
        input.rotary_upper_inner,
    )
}

/// The instruments after the lower bank has acted
pub open spec fn lower_state_after(state: InstrumentStates, input: InputState) -> InstrumentStates {
    bank_state_after(
        state,
        input.mode_selector_lower,
        input.button_lower,
        input.rotary_lower_outer,
        input.rotary_lower_inner,
    )
}

/// The panel after the upper bank has shown its instrument
pub open spec fn upper_panel_after(
    panel: RadioPanel,
    state: InstrumentStates,
    input: InputState,
) -> RadioPanel {
    bank_panel(panel, state, input.mode_selector_upper, Window::TopLeft, Window::TopRight)
}

/// The panel after the lower bank has shown its instrument
pub open spec fn lower_panel_after(
    panel: RadioPanel,
    state: InstrumentStates,
    input: InputState,
) -> RadioPanel {
    bank_panel(panel, state, input.mode_selector_lower, Window::BottomLeft, Window::BottomRight)
}

/// The instruments after one poll.
///
/// Where both mode selectors point at the same instrument, the poll goes to the autopilot
/// alone. Otherwise the upper bank acts, and then the lower bank, unless the upper bank could
/// not be carried out.
pub open spec fn poll_state_after(state: InstrumentStates, input: InputState) -> InstrumentStates {
    if routes_to_autopilot(input) {
        autopilot_state_after(state, input)
    } else {
        let upper = upper_state_after(state, input);
        if bank_outcome(upper, input.mode_selector_upper) is Err {
            upper
        } else {
            lower_state_after(upper, input)
        }
    }
}

/// The panel after one poll of instruments that were in `state` before it
pub open spec fn poll_panel_after(
    panel: RadioPanel,
    state: InstrumentStates,
    input: InputState,
) -> RadioPanel {
    if routes_to_autopilot(input) {
        autopilot_panel(panel, autopilot_state_after(state, input).autopilot_state)
    } else {
        let upper = upper_state_after(state, input);
        let upper_panel = upper_panel_after(panel, upper, input);
        if bank_outcome(upper, input.mode_selector_upper) is Err {
            upper_panel
        } else {
            lower_panel_after(upper_panel, lower_state_after(upper, input), input)
        }
    }
}

/// Whether `result` is how one poll ends for instruments that were in `state`, and a panel
/// that showed `panel`, before it.
///
/// A poll that goes to the autopilot ends with the autopilot's update, or with the first of
/// its texts that does not fit. A poll that goes to the banks ends with the updates of both
/// banks, the upper one with the report of the panel as it was between the two, or with what
/// stopped the upper bank, or else with what stopped the lower bank.
pub open spec fn is_poll_outcome(
    result: Result<PollUpdate, PanelError>,
    panel: RadioPanel,
    state: InstrumentStates,
    input: InputState,
) -> bool {
    let after = poll_state_after(state, input);
    let panel_after = poll_panel_after(panel, state, input);
    if routes_to_autopilot(input) {
        match result {
            Ok(PollUpdate::Autopilot(update)) => {
                &&& autopilot_display_error(after.autopilot_state) is None
                &&& update.report@ == panel_after.report()
                &&& update.transmissions@ == autopilot_transmissions(after.autopilot_state)
            },
            Ok(PollUpdate::Banks(_, _)) => false,
            Err(PanelError::Display(error)) => autopilot_display_error(after.autopilot_state)
                == Some(error),
            Err(PanelError::NoSimulatorCode) => false,
        }
    } else {
        let upper = upper_state_after(state, input);
        let upper_panel = upper_panel_after(panel, upper, input);
        match result {
            Ok(PollUpdate::Autopilot(_)) => false,
            Ok(PollUpdate::Banks(first, second)) => {
                &&& carries_out(
                    Ok(first),
                    bank_outcome(upper, input.mode_selector_upper),
                    upper_panel,
                )
                &&& carries_out(
                    Ok(second),
                    bank_outcome(after, input.mode_selector_lower),
                    panel_after,
                )
            },
            Err(error) => if bank_outcome(upper, input.mode_selector_upper) is Err {
                bank_outcome(upper, input.mode_selector_upper) == Err::<
                    Seq<Transmission>,
                    PanelError,
                >(error)
            } else {
                bank_outcome(after, input.mode_selector_lower) == Err::<
                    Seq<Transmission>,
                    PanelError,
                >(error)
            },
        }
    }
}

/// One poll of the panel.
///
/// If the upper and the lower mode selector point at the same instrument, all rotaries and
/// the lower button go to the autopilot and no radio is touched. Otherwise the controls of
/// the upper bank go to the instrument of the upper selector and then those of the lower bank
/// to the instrument of the lower selector: the two banks can control two instruments in one
/// poll. With the instruments within their limits the poll is always carried out, but for
/// the autopilot at its highest altitude, which no window can show.
pub fn dispatch(
    input: InputState,
    state: &mut InstrumentStates,
    radio_panel: &mut RadioPanel,
) -> (result: Result<PollUpdate, PanelError>)
    requires
        !routes_to_autopilot(input) && (input.mode_selector_upper is ModeSelectorXpdr
            || input.mode_selector_lower is ModeSelectorXpdr) ==> old(state).xpdr_state.selected_digit < 4,
    ensures
        old(radio_panel).is_well_formed() ==> final(radio_panel).is_well_formed(),
        *final(state) == poll_state_after(*old(state), input),
        *final(radio_panel) == poll_panel_after(*old(radio_panel), *old(state), input),
        is_poll_outcome(result, *old(radio_panel), *old(state), input),
        old(state).xpdr_state.selected_digit < 4 ==> final(state).xpdr_state.selected_digit < 4,
        old(state).is_well_formed() ==> final(state).is_well_formed(),
        old(state).is_well_formed() && !(routes_to_autopilot(input)
            && final(state).autopilot_state.altitude > 99999) ==> result is Ok,
{
    if input.mode_selector_upper == input.mode_selector_lower {
        apply_autopilot_input(
            &mut state.autopilot_state,
            input.rotary_upper_outer,
            input.rotary_upper_inner,
            input.rotary_lower_outer,
            input.rotary_lower_inner,
            input.button_lower,
        );
        return match autopilot_logic(&state.autopilot_state, radio_panel) {
            Ok(update) => Ok(PollUpdate::Autopilot(update)),
            Err(error) => Err(PanelError::Display(error)),
        };
    }
    let upper = match handle_upper_panel(input, state, radio_panel) {
        Ok(update) => update,
        Err(error) => { return Err(error); },
    };
    let lower = match handle_lower_panel(input, state, radio_panel) {
        Ok(update) => update,
        Err(error) => { return Err(error); },
    };
    Ok(PollUpdate::Banks(upper, lower))
}

/// The window at a place of the panel, counted from the top left: the bottom right window
/// for every place from the fourth on
pub open spec fn window_at_spec(window_index: int) -> Window {
    if window_index == 0 {
        Window::TopLeft
    } else if window_index == 1 {
        Window::TopRight
    } else if window_index == 2 {
        Window::BottomLeft
    } else {
        Window::BottomRight
    }
}

/// The window at a place of the panel; the first window for a place that the panel does not
/// have
pub fn window_at(window_index: usize) -> (window: Window)
    ensures
        window_index < 4 ==> window == window_at_spec(window_index as int),
        window_index < 4 ==> window.index_spec() == window_index,
        window_index >= 4 ==> window == Window::TopLeft,
{
    match window_index {
        0 => Window::TopLeft,
        1 => Window::TopRight,
        2 => Window::BottomLeft,
        3 => Window::BottomRight,
        _ => Window::TopLeft,
    }
}

/// A window with a single dash in it, at the given place
pub open spec fn animation_text(character_index: int) -> Seq<char> {
    Seq::new(5, |i: int| if i == character_index { '-' } else { ' ' })
}

/// The panel as one frame of the connecting animation shows it: before the first frame all
/// windows are cleared, and in frame `step` a dash stands in window `step / 5` at place
/// `step % 5`
pub open spec fn animation_frame(panel: RadioPanel, step: int) -> RadioPanel {
    let start = if step == 0 {
        blank_panel()
    } else {
        panel
    };
    start.with_text(window_at_spec(step / 5), animation_text(step % 5))
}

/// The number of frames of the connecting animation: a dash walks through the 5 places of
/// each of the 4 windows
pub const ANIMATION_FRAMES: usize = 20;

/// One frame of the animation that runs while the simulator is not connected.
///
/// Gives the feature report that shows the frame. The caller sends it, waits, and asks for
/// the next frame. After the last frame of a window the window is cleared in the panel, which
/// shows with the next report.
pub fn show_connecting_animation(radio_panel: &mut RadioPanel, step: usize) -> (report: [u8; 23])
    requires
        step < ANIMATION_FRAMES,
    ensures
        old(radio_panel).is_well_formed() ==> final(radio_panel).is_well_formed(),
        text_error(animation_text(step as int % 5)) is None,
        report@ == animation_frame(*old(radio_panel), step as int).report(),
        *final(radio_panel) == if step % 5 == 4 {
            animation_frame(*old(radio_panel), step as int).with_text(
                window_at_spec(step as int / 5),
                blank_text(),
            )
        } else {
            animation_frame(*old(radio_panel), step as int)
        },
{
    if step == 0 {
        let _ = radio_panel.clear_all_windows();
    }
    let window = window_at(step / 5);
    let character_index = step % 5;
    let mut content = String::new();
    let mut i: usize = 0;
    while i < 5
        invariant
            i <= 5,
            character_index < 5,
            content@ == animation_text(character_index as int).subrange(0, i as int),
        decreases 5 - i,
    {
        if i == character_index {
            push_char(&mut content, '-');
        } else {
            push_char(&mut content, ' ');
        }
        i = i + 1;
    }
    proof {
        assert(content@ =~= animation_text(character_index as int));
        lemma_error_of_plain_text(animation_text(character_index as int));
        lemma_error_of_plain_text(blank_text());
    }
    let _ = radio_panel.set_window(window, content.as_str());
    let report = radio_panel.update_all_windows();
    if character_index == 4 {
        proof {
            reveal_strlit("     ");
            assert("     "@ =~= blank_text());
        }
        let _ = radio_panel.set_window(window, "     ");
    }
    report
}

} // verus!
