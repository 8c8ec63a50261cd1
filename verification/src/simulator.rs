//! What the simulator is told: which events exist, and the values that go with them.

use vstd::prelude::*;
use vstd::string::StrSliceExecFns;
use vstd::string::StringExecFns;
use crate::frequency::Frequency;
use crate::states::{AutopilotState, FrequencyState, XpdrState};
use crate::text::{
    all_digits, decimal_string, decimal_text, digit_char, is_digit_char,
    lemma_decimal_value_append3, lemma_digits_of, lemma_radix_value_push,
    lemma_three_digit_value, pad_left, padded_left, push_char, radix_value,
};

verus! {

/* The numbers under which the simulator's events are registered and sent */

pub const EVENT_ID_COM_RADIO_SET_HZ: u32 = 1000;

pub const EVENT_ID_COM_STBY_RADIO_SET_HZ: u32 = 1001;

pub const EVENT_ID_COM2_RADIO_SET_HZ: u32 = 1002;

pub const EVENT_ID_COM2_STBY_RADIO_SET_HZ: u32 = 1003;

pub const EVENT_ID_NAV1_RADIO_SET_HZ: u32 = 1004;

pub const EVENT_ID_NAV1_STBY_SET_HZ: u32 = 1005;

pub const EVENT_ID_NAV2_RADIO_SET_HZ: u32 = 1006;

pub const EVENT_ID_NAV2_STBY_SET_HZ: u32 = 1007;

pub const EVENT_ID_XPNDR_SET: u32 = 1008;

pub const EVENT_ID_HEADING_BUG_SET: u32 = 1009;

pub const EVENT_ID_AP_ALT_VAR_SET_ENGLISH: u32 = 1010;

pub const EVENT_ID_AP_VS_VAR_SET_ENGLISH: u32 = 1011;

pub const EVENT_ID_AP_SPD_VAR_SET: u32 = 1012;

/// The number of events that the simulator is told about
pub const EVENT_COUNT: usize = 13;

/// The object that every event is sent to: the user's aircraft
pub const TRANSMIT_OBJECT_ID: u32 = 1;

/// The notification group that every event is sent in
pub const TRANSMIT_GROUP_ID: u32 = 5;

/// The flags that every event is sent with
pub const TRANSMIT_FLAGS: u32 = 0;

/// One event for the simulator: the number it is registered under and the value it carries
#[derive(Copy, Clone, Debug, PartialEq, Eq, Structural)]
pub struct Transmission {
    pub event_id: u32,
    pub value: u32,
}

/// The number of an event and the name that the simulator knows it by
#[derive(Copy, Clone, Debug, PartialEq, Eq)]
pub struct EventMapping {
    pub event_id: u32,
    pub event_name: &'static str,
}

/// The name that the simulator knows an event by; the empty name for a number that stands
/// for no event
pub open spec fn event_name(event_id: u32) -> Seq<char> {
    if event_id == EVENT_ID_COM_RADIO_SET_HZ {
        "COM_RADIO_SET_HZ"@
    } else if event_id == EVENT_ID_COM_STBY_RADIO_SET_HZ {
        "COM_STBY_RADIO_SET_HZ"@
    } else if event_id == EVENT_ID_COM2_RADIO_SET_HZ {
        "COM2_RADIO_SET_HZ"@
    } else if event_id == EVENT_ID_COM2_STBY_RADIO_SET_HZ {
        "COM2_STBY_RADIO_SET_HZ"@
    } else if event_id == EVENT_ID_NAV1_RADIO_SET_HZ {
        "NAV1_RADIO_SET_HZ"@
    } else if event_id == EVENT_ID_NAV1_STBY_SET_HZ {
        "NAV1_STBY_SET_HZ"@
    } else if event_id == EVENT_ID_NAV2_RADIO_SET_HZ {
        "NAV2_RADIO_SET_HZ"@
    } else if event_id == EVENT_ID_NAV2_STBY_SET_HZ {
        "NAV2_STBY_SET_HZ"@
    } else if event_id == EVENT_ID_XPNDR_SET {
        "XPNDR_SET"@
    } else if event_id == EVENT_ID_HEADING_BUG_SET {
        "HEADING_BUG_SET"@
    } else if event_id == EVENT_ID_AP_ALT_VAR_SET_ENGLISH {
        "AP_ALT_VAR_SET_ENGLISH"@
    } else if event_id == EVENT_ID_AP_VS_VAR_SET_ENGLISH {
        "AP_VS_VAR_SET_ENGLISH"@
    } else if event_id == EVENT_ID_AP_SPD_VAR_SET {
        "AP_SPD_VAR_SET"@
    } else {
        Seq::empty()
    }
}

/// Tell simulator which event ID is supposed to represent what simulator event: gives all
/// events, in the order of their numbers, each with its name
pub fn setup_simulator_event_ids() -> (mappings: Vec<EventMapping>)
    ensures
        mappings@.len() == EVENT_COUNT,
        forall|i: int|
            0 <= i < EVENT_COUNT ==> (#[trigger] mappings@[i]).event_id
                == EVENT_ID_COM_RADIO_SET_HZ + i,
        forall|i: int|
            0 <= i < EVENT_COUNT ==> (#[trigger] mappings@[i]).event_name@ == event_name(
                mappings@[i].event_id,
            ),
{
    let mut mappings: Vec<EventMapping> = Vec::new();
    mappings.push(
        EventMapping { event_id: EVENT_ID_COM_RADIO_SET_HZ, event_name: "COM_RADIO_SET_HZ" },
    );
    mappings.push(
        EventMapping {
            event_id: EVENT_ID_COM_STBY_RADIO_SET_HZ,
            event_name: "COM_STBY_RADIO_SET_HZ",
        },
    );
    mappings.push(
        EventMapping { event_id: EVENT_ID_COM2_RADIO_SET_HZ, event_name: "COM2_RADIO_SET_HZ" },
    );
    mappings.push(
        EventMapping {
            event_id: EVENT_ID_COM2_STBY_RADIO_SET_HZ,
            event_name: "COM2_STBY_RADIO_SET_HZ",
        },
    );
    mappings.push(
        EventMapping { event_id: EVENT_ID_NAV1_RADIO_SET_HZ, event_name: "NAV1_RADIO_SET_HZ" },
    );
    mappings.push(
        EventMapping { event_id: EVENT_ID_NAV1_STBY_SET_HZ, event_name: "NAV1_STBY_SET_HZ" },
    );
    mappings.push(
        EventMapping { event_id: EVENT_ID_NAV2_RADIO_SET_HZ, event_name: "NAV2_RADIO_SET_HZ" },
    );
    mappings.push(
        EventMapping { event_id: EVENT_ID_NAV2_STBY_SET_HZ, event_name: "NAV2_STBY_SET_HZ" },
    );
    mappings.push(EventMapping { event_id: EVENT_ID_XPNDR_SET, event_name: "XPNDR_SET" });

    mappings.push(
        EventMapping { event_id: EVENT_ID_HEADING_BUG_SET, event_name: "HEADING_BUG_SET" },
    );
    mappings.push(
        EventMapping {
            event_id: EVENT_ID_AP_ALT_VAR_SET_ENGLISH,
            event_name: "AP_ALT_VAR_SET_ENGLISH",
        },
    );
    mappings.push(
        EventMapping {
            event_id: EVENT_ID_AP_VS_VAR_SET_ENGLISH,
            event_name: "AP_VS_VAR_SET_ENGLISH",
        },
    );
    mappings.push(EventMapping { event_id: EVENT_ID_AP_SPD_VAR_SET, event_name: "AP_SPD_VAR_SET" });
    mappings
}

/// Why a text could not be read as a number.
///
/// Trusted: declares `core::num::ParseIntError` of the standard library, the error that
/// `parse_int::parse::<u32>` returns, as a type that nothing is known of.
#[verifier::external_type_specification]
#[verifier::external_body]
pub struct ExParseIntError(core::num::ParseIntError);

/// Whether a text is a decimal literal: one or more decimal digits
pub open spec fn is_decimal_literal(text: Seq<char>) -> bool {
    text.len() >= 1 && all_digits(text)
}

/// Whether a text is a base-16 literal whose digits are all decimal digits: `0x`, then one or
/// more of the digits 0 to 9
pub open spec fn is_hex_literal(text: Seq<char>) -> bool {
    &&& text.len() >= 3
    &&& text[0] == '0'
    &&& text[1] == 'x'
    &&& all_digits(text.subrange(2, text.len() as int))
}

/// The number that a decimal or base-16 literal stands for
pub open spec fn literal_value(text: Seq<char>) -> nat {
    if is_hex_literal(text) {
        radix_value(text.subrange(2, text.len() as int), 16)
    } else {
        radix_value(text, 10)
    }
}

/// A number as a 32-bit value, if it is small enough to be one
pub open spec fn checked_u32(n: nat) -> Option<u32> {
    if n <= u32::MAX {
        Some(n as u32)
    } else {
        None
    }
}

/// A value as the simulator takes it: 32 bits, a negative one in two's complement
pub open spec fn transmitted(value: int) -> u32 {
    if value >= 0 {
        value as u32
    } else {
        (value + 0x1_0000_0000) as u32
    }
}

/// Reads a decimal or base-16 literal as a 32-bit number.
///
/// Trusted: calls `parse_int::parse::<u32>`, built without its `implicit-octal` feature. Given
/// digits only, it reads them in base 10, leading zeros or not; given `0x` and digits, it
/// reads the digits in base 16. Either way it hands the digits to `u32::from_str_radix`, which
/// gives the number that they stand for, or an error where that number is too large for 32
/// bits. Texts with a sign, an underscore, blanks or another prefix are left out: on a text
/// with a minus sign the outside function can panic.
#[verifier::external_body]
fn parse_literal(text: &str) -> (parsed: Result<u32, core::num::ParseIntError>)
    requires
        is_decimal_literal(text@) || is_hex_literal(text@),
    ensures
        parsed is Ok <==> literal_value(text@) <= u32::MAX,
        parsed matches Ok(number) ==> number == literal_value(text@),
{
    parse_int::parse::<u32>(text)
}

/// What a text says as a number: the value of a decimal or base-16 literal that fits 32 bits;
/// nothing for a larger one, and nothing for a text that is no such literal
pub open spec fn literal_number_of(text: Seq<char>) -> Option<u32> {
    if is_decimal_literal(text) || is_hex_literal(text) {
        checked_u32(literal_value(text))
    } else {
        None
    }
}

/// Whether a text is a decimal literal or a base-16 literal of decimal digits
pub fn is_literal(text: &str) -> (known: bool)
    ensures
        known == (is_decimal_literal(text@) || is_hex_literal(text@)),
{
    let len = text.unicode_len();
    if len == 0 {
        return false;
    }
    let prefixed = len >= 3 && text.get_char(0) == '0' && text.get_char(1) == 'x';
    let start: usize = if prefixed { 2 } else { 0 };
    let mut i: usize = start;
    while i < len
        invariant
            start <= i <= len,
            len == text@.len(),
            start == if prefixed { 2int } else { 0int },
            prefixed == (len >= 3 && text@[0] == '0' && text@[1] == 'x'),
            forall|k: int| start <= k < i ==> is_digit_char(#[trigger] text@[k]),
        decreases len - i,
    {
        let c = text.get_char(i);
        if !('0' <= c && c <= '9') {
            proof {
                if prefixed {
                    assert(text@.subrange(2, len as int)[i - 2] == c);
                    assert(!is_digit_char(text@[1]));
                }
            }
            return false;
        }
        i = i + 1;
    }
    proof {
        if prefixed {
            let digits = text@.subrange(2, len as int);
            assert forall|k: int| 0 <= k < digits.len() implies is_digit_char(
                #[trigger] digits[k],
            ) by {
                assert(is_digit_char(text@[k + 2]));
            }
        }
    }
    true
}

/// The number that a decimal or base-16 literal stands for, if it fits 32 bits
pub fn literal_number(text: &str) -> (number: Option<u32>)
    ensures
        number == literal_number_of(text@),
{
    if !is_literal(text) {
        return None;
    }
    match parse_literal(text) {
        Ok(number) => Some(number),
        Err(_) => None,
    }
}

/// A frequency as the text of its simulator code: the whole megahertz and the fraction, each
/// brought to 3 characters by zeros in front, and three more zeros
pub open spec fn frequency_code_text(freq: Frequency) -> Seq<char> {
    pad_left(decimal_text(freq.integer as int), 3, '0') + pad_left(
        decimal_text(freq.fraction as int),
        3,
        '0',
    ) + seq!['0', '0', '0']
}

/// A frequency as the simulator takes it: the number that its code text stands for. There is
/// none for a frequency with a negative part, nor where the number does not fit 32 bits.
pub open spec fn frequency_code(freq: Frequency) -> Option<u32> {
    if freq.integer < 0 || freq.fraction < 0 {
        None
    } else {
        checked_u32(radix_value(frequency_code_text(freq), 10))
    }
}

/// The text of a frequency's simulator code
pub fn frequency_transport_text(freq: Frequency) -> (text: String)
    ensures
        text@ == frequency_code_text(freq),
{
    let integer = decimal_string(freq.integer as i64);
    let fraction = decimal_string(freq.fraction as i64);
    let mut text = padded_left(integer.as_str(), 3, '0');
    let fraction = padded_left(fraction.as_str(), 3, '0');
    text.append(fraction.as_str());
    text.append("000");
    proof {
        reveal_strlit("000");
        assert("000"@ =~= seq!['0', '0', '0']);
    }
    text
}

/// A frequency as the simulator takes it: whole=118, fraction=000 gives 118000000
pub fn frequency_transport_code(freq: Frequency) -> (code: Option<u32>)
    ensures
        code == frequency_code(freq),
{
    if freq.integer < 0 || freq.fraction < 0 {
        return None;
    }
    let text = frequency_transport_text(freq);
    proof {
        lemma_digits_of(freq.integer as nat);
        lemma_digits_of(freq.fraction as nat);
        assert(is_digit_char('0'));
        assert(is_decimal_literal(text@));
    }
    literal_number(text.as_str())
}

/// For a frequency whose parts are between 0 and 999, the simulator's code is the frequency
/// in kHz times 1000: the whole megahertz in the millions, the fraction in the thousands.
pub proof fn lemma_frequency_code(freq: Frequency)
    requires
        0 <= freq.integer <= 999,
        0 <= freq.fraction <= 999,
    ensures
        frequency_code(freq) == Some((freq.integer * 1_000_000 + freq.fraction * 1_000) as u32),
{
    let whole = pad_left(decimal_text(freq.integer as int), 3, '0');
    let fraction = pad_left(decimal_text(freq.fraction as int), 3, '0');
    let zeros = seq!['0', '0', '0'];
    lemma_three_digit_value(freq.integer as nat);
    lemma_three_digit_value(freq.fraction as nat);
    lemma_decimal_value_append3(whole, fraction);
    lemma_decimal_value_append3(whole + fraction, zeros);
}

/// The two events that tell the simulator the frequencies of a radio, the active one first;
/// none where a frequency has no code
pub open spec fn radio_transmissions(
    state: FrequencyState,
    active_event_id: u32,
    standby_event_id: u32,
) -> Option<Seq<Transmission>> {
    match (frequency_code(state.active_freq), frequency_code(state.standby_freq)) {
        (Some(active), Some(standby)) => Some(
            seq![
                Transmission { event_id: active_event_id, value: active },
                Transmission { event_id: standby_event_id, value: standby },
            ],
        ),
        _ => None,
    }
}

/// The events that tell the simulator the frequencies of a COM radio, in the format that the
/// simulator takes
pub fn send_com_to_sim(
    com_state: &FrequencyState,
    active_event_id: u32,
    standby_event_id: u32,
) -> (sent: Option<Vec<Transmission>>)
    ensures
        match sent {
            Some(events) => radio_transmissions(*com_state, active_event_id, standby_event_id)
                == Some(events@),
            None => radio_transmissions(*com_state, active_event_id, standby_event_id) is None,
        },
{
    let active_frequency = match frequency_transport_code(com_state.active_freq) {
        Some(code) => code,
        None => { return None; },
    };
    let standby_frequency = match frequency_transport_code(com_state.standby_freq) {
        Some(code) => code,
        None => { return None; },
    };
    let mut events: Vec<Transmission> = Vec::new();
    events.push(Transmission { event_id: active_event_id, value: active_frequency });
    events.push(Transmission { event_id: standby_event_id, value: standby_frequency });
    proof {
        assert(events@ =~= radio_transmissions(
            *com_state,
            active_event_id,
            standby_event_id,
        ).unwrap());
    }
    Some(events)
}

/// The events that tell the simulator the frequencies of a NAV radio
pub fn send_nav_to_sim(
    nav_state: &FrequencyState,
    active_event_id: u32,
    standby_event_id: u32,
) -> (sent: Option<Vec<Transmission>>)
    ensures
        match sent {
            Some(events) => radio_transmissions(*nav_state, active_event_id, standby_event_id)
                == Some(events@),
            None => radio_transmissions(*nav_state, active_event_id, standby_event_id) is None,
        },
{
    send_com_to_sim(nav_state, active_event_id, standby_event_id)
}

/// The digits of the transponder code, written one after the other
pub open spec fn xpdr_code_text(state: XpdrState) -> Seq<char> {
    decimal_text(state.code@[0] as int) + decimal_text(state.code@[1] as int) + decimal_text(
        state.code@[2] as int,
    ) + decimal_text(state.code@[3] as int)
}

/// The transponder code as the simulator takes it: its digits read as a base-16 number, so
/// that code 1200 is sent as 0x1200. There is none where a digit is negative, nor where the
/// number does not fit 32 bits.
pub open spec fn xpdr_code(state: XpdrState) -> Option<u32> {
    if state.code@[0] < 0 || state.code@[1] < 0 || state.code@[2] < 0 || state.code@[3] < 0 {
        None
    } else {
        checked_u32(radix_value(xpdr_code_text(state), 16))
    }
}

/// The digits of the transponder code, written one after the other
pub fn xpdr_transport_text(state: &XpdrState) -> (text: String)
    ensures
        text@ == xpdr_code_text(*state),
{
    let mut text = decimal_string(state.code[0] as i64);
    let second = decimal_string(state.code[1] as i64);
    let third = decimal_string(state.code[2] as i64);
    let fourth = decimal_string(state.code[3] as i64);
    text.append(second.as_str());
    text.append(third.as_str());
    text.append(fourth.as_str());
    text
}

/// The transponder code as the simulator takes it
pub fn xpdr_transport_code(state: &XpdrState) -> (code: Option<u32>)
    ensures
        code == xpdr_code(*state),
{
    if state.code[0] < 0 || state.code[1] < 0 || state.code[2] < 0 || state.code[3] < 0 {
        return None;
    }
    let digits = xpdr_transport_text(state);
    let mut literal = String::new();
    push_char(&mut literal, '0');
    push_char(&mut literal, 'x');
    literal.append(digits.as_str());
    proof {
        lemma_digits_of(state.code@[0] as nat);
        lemma_digits_of(state.code@[1] as nat);
        lemma_digits_of(state.code@[2] as nat);
        lemma_digits_of(state.code@[3] as nat);
        assert(literal@.subrange(2, literal@.len() as int) =~= digits@);
        assert(is_hex_literal(literal@));
    }
    literal_number(literal.as_str())
}

/// For a transponder whose digits are all between 0 and 9, the simulator's code has one
/// base-16 digit for each digit of the transponder code.
pub proof fn lemma_xpdr_code(state: XpdrState)
    requires
        forall|i: int| 0 <= i < 4 ==> 0 <= #[trigger] state.code@[i] <= 9,
    ensures
        xpdr_code(state) == Some(
            (state.code@[0] * 4096 + state.code@[1] * 256 + state.code@[2] * 16
                + state.code@[3]) as u32,
        ),
{
    let first = state.code@[0];
    let second = state.code@[1];
    let third = state.code@[2];
    let fourth = state.code@[3];
    let none = Seq::<char>::empty();
    let text = xpdr_code_text(state);
    assert(text =~= none.push(digit_char(first as int)).push(digit_char(second as int)).push(
        digit_char(third as int),
    ).push(digit_char(fourth as int)));
    lemma_radix_value_push(none, digit_char(first as int), 16);
    lemma_radix_value_push(none.push(digit_char(first as int)), digit_char(second as int), 16);
    lemma_radix_value_push(
        none.push(digit_char(first as int)).push(digit_char(second as int)),
        digit_char(third as int),
        16,
    );
    lemma_radix_value_push(
        none.push(digit_char(first as int)).push(digit_char(second as int)).push(
            digit_char(third as int),
        ),
        digit_char(fourth as int),
        16,
    );
}

/// The event that tells the simulator the transponder code; none where the code cannot be
/// sent
pub open spec fn xpdr_transmissions(state: XpdrState, event_id: u32) -> Option<Seq<Transmission>> {
    match xpdr_code(state) {
        Some(code) => Some(seq![Transmission { event_id, value: code }]),
        None => None,
    }
}

/// The event that tells the simulator the transponder code
pub fn send_xpdr_to_sim(state: &XpdrState, event_id: u32) -> (sent: Option<Vec<Transmission>>)
    ensures
        match sent {
            Some(events) => xpdr_transmissions(*state, event_id) == Some(events@),
            None => xpdr_transmissions(*state, event_id) is None,
        },
{
    match xpdr_transport_code(state) {
        Some(code) => {
            let mut events: Vec<Transmission> = Vec::new();
            events.push(Transmission { event_id, value: code });
            proof {
                assert(events@ =~= xpdr_transmissions(*state, event_id).unwrap());
            }
            Some(events)
        },
        None => None,
    }
}

/// The four events that tell the simulator the autopilot's targets: heading, altitude,
/// vertical speed, airspeed
pub open spec fn autopilot_transmissions(state: AutopilotState) -> Seq<Transmission> {
    seq![
        Transmission {
            event_id: EVENT_ID_HEADING_BUG_SET,
            value: transmitted(state.heading as int),
        },
        Transmission {
            event_id: EVENT_ID_AP_ALT_VAR_SET_ENGLISH,
            value: transmitted(state.altitude as int),
        },
        Transmission {
            event_id: EVENT_ID_AP_VS_VAR_SET_ENGLISH,
            value: transmitted(state.vertical_speed as int),
        },
        Transmission {
            event_id: EVENT_ID_AP_SPD_VAR_SET,
            value: transmitted(state.airspeed as int),
        },
    ]
}

/// A value as the simulator takes it: 32 bits, a negative one in two's complement
pub fn transmit_value(value: i32) -> (word: u32)
    ensures
        word == transmitted(value as int),
{
    if value >= 0 {
        value as u32
    } else {
        (value as i64 + 0x1_0000_0000) as u32
    }
}

/// The events that tell the simulator the autopilot's targets
pub fn send_autopilot_to_sim(state: &AutopilotState) -> (events: Vec<Transmission>)
    ensures
        events@ == autopilot_transmissions(*state),
{
    let mut events: Vec<Transmission> = Vec::new();
    events.push(
        Transmission {
            event_id: EVENT_ID_HEADING_BUG_SET,
            value: transmit_value(state.heading as i32),
        },
    );
    events.push(
        Transmission {
            event_id: EVENT_ID_AP_ALT_VAR_SET_ENGLISH,
            value: transmit_value(state.altitude),
        },
    );
    events.push(
        Transmission {
            event_id: EVENT_ID_AP_VS_VAR_SET_ENGLISH,
            value: transmit_value(state.vertical_speed as i32),
        },
    );
    events.push(
        Transmission {
            event_id: EVENT_ID_AP_SPD_VAR_SET,
            value: transmit_value(state.airspeed as i32),
        },
    );
    proof {
        assert(events@ =~= autopilot_transmissions(*state));
    }
    events
}

} // verus!
