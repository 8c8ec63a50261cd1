//! How the buttons and rotaries change the instruments.

use vstd::prelude::*;
use crate::frequency::Frequency;
use crate::input_states::{ButtonState, RotaryState};
use crate::states::{
    AutopilotState, AutopilotValue, FrequencyState, XpdrState, AIRSPEED_MAX, ALTITUDE_MAX,
    ALTITUDE_MIN, COM_BAND_MAX, COM_BAND_MIN, COM_FRACTION_STEP, FRACTION_LIMIT, HEADING_LIMIT,
    NAV_BAND_MAX, NAV_BAND_MIN, NAV_FRACTION_STEP, VERTICAL_SPEED_MAX, XPDR_DIGIT_LIMIT,
};
use crate::utility::{clamp, clamp_spec, wrap, wrap_spec};

verus! {

/// A radio with its active and standby frequencies exchanged
pub open spec fn swapped(state: FrequencyState) -> FrequencyState {
    FrequencyState { standby_freq: state.active_freq, active_freq: state.standby_freq }
}

/// A frequency after the outer rotary has moved its whole megahertz by one per detent, wrapped
/// to the band from `band_min` to `band_max`, and the inner rotary has moved its fraction by
/// `step` per detent, wrapped at a full megahertz
pub open spec fn tuned(
    freq: Frequency,
    outer: RotaryState,
    inner: RotaryState,
    band_min: int,
    band_max: int,
    step: int,
) -> Frequency {
    Frequency {
        integer: wrap_spec(freq.integer + outer.direction(), band_min, band_max + 1) as i16,
        fraction: wrap_spec(
            freq.fraction + inner.direction() * step,
            0,
            FRACTION_LIMIT as int,
        ) as i16,
    }
}

/// A radio after one poll: the button exchanges active and standby, then the rotaries tune
/// the standby frequency
pub open spec fn radio_step(
    state: FrequencyState,
    swap_button: ButtonState,
    outer: RotaryState,
    inner: RotaryState,
    band_min: int,
    band_max: int,
    step: int,
) -> FrequencyState {
    let exchanged = if swap_button is Pressed {
        swapped(state)
    } else {
        state
    };
    FrequencyState {
        standby_freq: tuned(exchanged.standby_freq, outer, inner, band_min, band_max, step),
        active_freq: exchanged.active_freq,
    }
}

/// A COM radio after one poll
pub open spec fn com_step(
    state: FrequencyState,
    swap_button: ButtonState,
    outer: RotaryState,
    inner: RotaryState,
) -> FrequencyState {
    radio_step(
        state,
        swap_button,
        outer,
        inner,
        COM_BAND_MIN as int,
        COM_BAND_MAX as int,
        COM_FRACTION_STEP as int,
    )
}

/// A NAV radio after one poll
pub open spec fn nav_step(
    state: FrequencyState,
    swap_button: ButtonState,
    outer: RotaryState,
    inner: RotaryState,
) -> FrequencyState {
    radio_step(
        state,
        swap_button,
        outer,
        inner,
        NAV_BAND_MIN as int,
        NAV_BAND_MAX as int,
        NAV_FRACTION_STEP as int,
    )
}

/// Exchanges the active and the standby frequency
pub fn swap_frequencies(frequency_state: &mut FrequencyState)
    ensures
        *final(frequency_state) == swapped(*old(frequency_state)),
{
    let active = frequency_state.active_freq;
    frequency_state.active_freq = frequency_state.standby_freq;
    frequency_state.standby_freq = active;
}

/// Tunes the standby frequency: the outer rotary moves the whole megahertz within the band,
/// the inner rotary moves the fraction by `step`; both wrap around
pub fn tune(
    frequency_state: &mut FrequencyState,
    outer_rotary: RotaryState,
    inner_rotary: RotaryState,
    band_min: i16,
    band_max: i16,
    step: i16,
)
    requires
        band_min <= band_max,
        0 <= step < FRACTION_LIMIT,
    ensures
        final(frequency_state).active_freq == old(frequency_state).active_freq,
        final(frequency_state).standby_freq == tuned(
            old(frequency_state).standby_freq,
            outer_rotary,
            inner_rotary,
            band_min as int,
            band_max as int,
            step as int,
        ),
        band_min <= old(frequency_state).standby_freq.integer <= band_max
            ==> band_min <= final(frequency_state).standby_freq.integer <= band_max,
        0 <= old(frequency_state).standby_freq.fraction < FRACTION_LIMIT
            ==> 0 <= final(frequency_state).standby_freq.fraction < FRACTION_LIMIT,
{
    let integer = frequency_state.standby_freq.integer as i64 + outer_rotary.delta(1);
    let fraction = frequency_state.standby_freq.fraction as i64 + inner_rotary.delta(step as i64);
    let integer = wrap(integer, band_min as i64, band_max as i64 + 1);
    let fraction = wrap(fraction, 0, FRACTION_LIMIT as i64);
    frequency_state.standby_freq.integer = integer as i16;
    frequency_state.standby_freq.fraction = fraction as i16;
}

/// One poll of a COM radio: a pressed button exchanges active and standby, then the outer
/// rotary moves the standby frequency by 1 MHz within 118 to 136 and the inner rotary by 5 kHz
pub fn apply_com_input(
    frequency_state: &mut FrequencyState,
    swap_button: ButtonState,
    outer_rotary: RotaryState,
    inner_rotary: RotaryState,
)
    ensures
        *final(frequency_state) == com_step(
            *old(frequency_state),
            swap_button,
            outer_rotary,
            inner_rotary,
        ),
        old(frequency_state).is_com() ==> final(frequency_state).is_com(),
{
    if matches!(swap_button, ButtonState::Pressed) {
        swap_frequencies(frequency_state);
    }
    tune(
        frequency_state,
        outer_rotary,
        inner_rotary,
        COM_BAND_MIN,
        COM_BAND_MAX,
        COM_FRACTION_STEP,
    );
}

/// One poll of a NAV radio: a pressed button exchanges active and standby, then the outer
/// rotary moves the standby frequency by 1 MHz within 108 to 117 and the inner rotary by 50 kHz
pub fn apply_nav_input(
    frequency_state: &mut FrequencyState,
    swap_button: ButtonState,
    outer_rotary: RotaryState,
    inner_rotary: RotaryState,
)
    ensures
        *final(frequency_state) == nav_step(
            *old(frequency_state),
            swap_button,
            outer_rotary,
            inner_rotary,
        ),
        old(frequency_state).is_nav() ==> final(frequency_state).is_nav(),
{
    if matches!(swap_button, ButtonState::Pressed) {
        swap_frequencies(frequency_state);
    }
    tune(
        frequency_state,
        outer_rotary,
        inner_rotary,
        NAV_BAND_MIN,
        NAV_BAND_MAX,
        NAV_FRACTION_STEP,
    );
}

/// The digit that is selected after the button has moved the selection on by one: after the
/// fourth digit comes the first
pub open spec fn advanced_digit(selected_digit: int) -> int {
    wrap_spec(selected_digit + 1, 0, 4)
}

/// A code digit after the two rotaries have each moved it by one per detent, wrapped to the
/// octal digits
pub open spec fn rotated_digit(digit: int, outer: RotaryState, inner: RotaryState) -> int {
    wrap_spec(digit + outer.direction() + inner.direction(), 0, XPDR_DIGIT_LIMIT as int)
}

/// The transponder after one poll: the button moves the selection on to the next digit, then
/// the rotaries change the digit that is selected
pub open spec fn xpdr_step(
    state: XpdrState,
    swap_button: ButtonState,
    outer: RotaryState,
    inner: RotaryState,
) -> XpdrState {
    let selected = if swap_button is Pressed {
        advanced_digit(state.selected_digit as int)
    } else {
        state.selected_digit as int
    };
    let digit = rotated_digit(state.code@[selected] as int, outer, inner) as i8;
    XpdrState {
        code: [
            if selected == 0 { digit } else { state.code@[0] },
            if selected == 1 { digit } else { state.code@[1] },
            if selected == 2 { digit } else { state.code@[2] },
            if selected == 3 { digit } else { state.code@[3] },
        ],
        selected_digit: selected as usize,
    }
}

impl XpdrState {
    /// Moves the selection on to the next digit; after the fourth comes the first
    pub fn advance_digit(&mut self)
        requires
            old(self).selected_digit < 4,
        ensures
            final(self).code == old(self).code,
            final(self).selected_digit == advanced_digit(old(self).selected_digit as int),
            final(self).selected_digit == (old(self).selected_digit + 1) % 4,
    {
        self.selected_digit = wrap(self.selected_digit as i64 + 1, 0, 4) as usize;
    }

    /// Changes the selected digit by one per detent of each rotary, wrapping within the octal
    /// digits
    pub fn rotate(&mut self, outer_rotary: RotaryState, inner_rotary: RotaryState)
        requires
            old(self).selected_digit < 4,
        ensures
            final(self).selected_digit == old(self).selected_digit,
            final(self).code@ == old(self).code@.update(
                old(self).selected_digit as int,
                rotated_digit(
                    old(self).code@[old(self).selected_digit as int] as int,
                    outer_rotary,
                    inner_rotary,
                ) as i8,
            ),
            0 <= old(self).code@[old(self).selected_digit as int] < XPDR_DIGIT_LIMIT ==> 0
                <= rotated_digit(
                old(self).code@[old(self).selected_digit as int] as int,
                outer_rotary,
                inner_rotary,
            ) < XPDR_DIGIT_LIMIT,
    {
        let digit = self.code[self.selected_digit] as i64 + outer_rotary.delta(1)
            + inner_rotary.delta(1);
        let digit = wrap(digit, 0, XPDR_DIGIT_LIMIT as i64);
        self.code[self.selected_digit] = digit as i8;
    }
}

/// One poll of the transponder: a pressed button selects the next digit, then each rotary
/// moves the selected digit by one, within 0 to 7
pub fn apply_xpdr_input(
    state: &mut XpdrState,
    swap_button: ButtonState,
    outer_rotary: RotaryState,
    inner_rotary: RotaryState,
)
    requires
        old(state).selected_digit < 4,
    ensures
        *final(state) == xpdr_step(*old(state), swap_button, outer_rotary, inner_rotary),
        final(state).selected_digit < 4,
        old(state).is_well_formed() ==> final(state).is_well_formed(),
{
    if matches!(swap_button, ButtonState::Pressed) {
        state.advance_digit();
    }
    state.rotate(outer_rotary, inner_rotary);
    proof {
        let expected = xpdr_step(*old(state), swap_button, outer_rotary, inner_rotary);
        assert(state.code@ =~= expected.code@);
        assert(state.code == expected.code);
    }
}

/// The other of the two targets that the lower rotaries can change
pub open spec fn toggled(selected: AutopilotValue) -> AutopilotValue {
    match selected {
        AutopilotValue::Altitude => AutopilotValue::VerticalSpeed,
        AutopilotValue::VerticalSpeed => AutopilotValue::Altitude,
    }
}

/// The autopilot after one poll.
///
/// The button toggles between altitude and vertical speed first. The upper outer rotary turns
/// the heading by 1 degree, around the compass; the upper inner rotary changes the airspeed by
/// 1. The lower rotaries change what is selected after the toggle: the altitude by 1000 (outer)
/// and 100 (inner), or the vertical speed by 100 each. All but the heading stop at their
/// limits.
pub open spec fn autopilot_step(
    state: AutopilotState,
    outer_upper: RotaryState,
    inner_upper: RotaryState,
    outer_lower: RotaryState,
    inner_lower: RotaryState,
    select_button: ButtonState,
) -> AutopilotState {
    let selected = if select_button is Pressed {
        toggled(state.selected_setting)
    } else {
        state.selected_setting
    };
    AutopilotState {
        airspeed: clamp_spec(
            state.airspeed + inner_upper.direction(),
            0,
            AIRSPEED_MAX as int,
        ) as i16,
        heading: wrap_spec(
            state.heading + outer_upper.direction(),
            0,
            HEADING_LIMIT as int,
        ) as i16,
        altitude: if selected is Altitude {
            clamp_spec(
                state.altitude + outer_lower.direction() * 1000 + inner_lower.direction() * 100,
                ALTITUDE_MIN as int,
                ALTITUDE_MAX as int,
            ) as i32
        } else {
            state.altitude
        },
        vertical_speed: if selected is VerticalSpeed {
            clamp_spec(
                state.vertical_speed + outer_lower.direction() * 100 + inner_lower.direction()
                    * 100,
                -VERTICAL_SPEED_MAX as int,
                VERTICAL_SPEED_MAX as int,
            ) as i16
        } else {
            state.vertical_speed
        },
        selected_setting: selected,
    }
}

/// One poll of the autopilot: a pressed button toggles between altitude and vertical speed,
/// the upper rotaries set heading and airspeed, the lower rotaries set what is selected
pub fn apply_autopilot_input(
    autopilot_state: &mut AutopilotState,
    outer_rotary_upper: RotaryState,
    inner_rotary_upper: RotaryState,
    outer_rotary_lower: RotaryState,
    inner_rotary_lower: RotaryState,
    select_button: ButtonState,
)
    ensures
        *final(autopilot_state) == autopilot_step(
            *old(autopilot_state),
            outer_rotary_upper,
            inner_rotary_upper,
            outer_rotary_lower,
            inner_rotary_lower,
            select_button,
        ),
        old(autopilot_state).is_well_formed() ==> final(autopilot_state).is_well_formed(),
{
    if matches!(select_button, ButtonState::Pressed) {
        autopilot_state.selected_setting = match autopilot_state.selected_setting {
            AutopilotValue::Altitude => AutopilotValue::VerticalSpeed,
            AutopilotValue::VerticalSpeed => AutopilotValue::Altitude,
        }
    }
    let heading = autopilot_state.heading as i64 + outer_rotary_upper.delta(1);
    autopilot_state.heading = wrap(heading, 0, HEADING_LIMIT as i64) as i16;

    let airspeed = autopilot_state.airspeed as i64 + inner_rotary_upper.delta(1);
    autopilot_state.airspeed = clamp(airspeed, 0, AIRSPEED_MAX as i64) as i16;

    match autopilot_state.selected_setting {
        AutopilotValue::Altitude => {
            let altitude = autopilot_state.altitude as i64 + outer_rotary_lower.delta(1000)
                + inner_rotary_lower.delta(100);
            autopilot_state.altitude = clamp(
                altitude,
                ALTITUDE_MIN as i64,
                ALTITUDE_MAX as i64,
            ) as i32;
        },
        AutopilotValue::VerticalSpeed => {
            let vertical_speed = autopilot_state.vertical_speed as i64 + outer_rotary_lower.delta(
                100,
            ) + inner_rotary_lower.delta(100);
            autopilot_state.vertical_speed = clamp(
                vertical_speed,
                -(VERTICAL_SPEED_MAX as i64),
                VERTICAL_SPEED_MAX as i64,
            ) as i16;
        },
    }
}

/// One poll of a radio: what the button and the two rotaries reported
pub struct RadioInput {
    pub swap_button: ButtonState,
    pub outer_rotary: RotaryState,
    pub inner_rotary: RotaryState,
}

/// A COM radio after a sequence of polls
pub open spec fn com_run(state: FrequencyState, inputs: Seq<RadioInput>) -> FrequencyState
    decreases inputs.len(),
{
    if inputs.len() == 0 {
        state
    } else {
        let input = inputs.last();
        com_step(
            com_run(state, inputs.drop_last()),
            input.swap_button,
            input.outer_rotary,
            input.inner_rotary,
        )
    }
}

/// A NAV radio after a sequence of polls
pub open spec fn nav_run(state: FrequencyState, inputs: Seq<RadioInput>) -> FrequencyState
    decreases inputs.len(),
{
    if inputs.len() == 0 {
        state
    } else {
        let input = inputs.last();
        nav_step(
            nav_run(state, inputs.drop_last()),
            input.swap_button,
            input.outer_rotary,
            input.inner_rotary,
        )
    }
}

/// The transponder after a sequence of polls
pub open spec fn xpdr_run(state: XpdrState, inputs: Seq<RadioInput>) -> XpdrState
    decreases inputs.len(),
{
    if inputs.len() == 0 {
        state
    } else {
        let input = inputs.last();
        xpdr_step(
            xpdr_run(state, inputs.drop_last()),
            input.swap_button,
            input.outer_rotary,
            input.inner_rotary,
        )
    }
}

/// One poll keeps a COM radio on channels of the COM band.
pub proof fn lemma_com_step_stays_in_band(
    state: FrequencyState,
    swap_button: ButtonState,
    outer: RotaryState,
    inner: RotaryState,
)
    requires
        state.is_com(),
    ensures
        com_step(state, swap_button, outer, inner).is_com(),
{
}

/// One poll keeps a NAV radio on channels of the NAV band.
pub proof fn lemma_nav_step_stays_in_band(
    state: FrequencyState,
    swap_button: ButtonState,
    outer: RotaryState,
    inner: RotaryState,
)
    requires
        state.is_nav(),
    ensures
        nav_step(state, swap_button, outer, inner).is_nav(),
{
}

/// No sequence of button presses and rotary movements takes a COM radio out of its band:
/// both frequencies stay on channels from 118 to 136 MHz.
pub proof fn lemma_com_stays_in_band(state: FrequencyState, inputs: Seq<RadioInput>)
    requires
        state.is_com(),
    ensures
        com_run(state, inputs).is_com(),
        COM_BAND_MIN <= com_run(state, inputs).standby_freq.integer <= COM_BAND_MAX,
        COM_BAND_MIN <= com_run(state, inputs).active_freq.integer <= COM_BAND_MAX,
    decreases inputs.len(),
{
    if inputs.len() > 0 {
        let input = inputs.last();
        lemma_com_stays_in_band(state, inputs.drop_last());
        lemma_com_step_stays_in_band(
            com_run(state, inputs.drop_last()),
            input.swap_button,
            input.outer_rotary,
            input.inner_rotary,
        );
    }
}

/// No sequence of button presses and rotary movements takes a NAV radio out of its band:
/// both frequencies stay on channels from 108 to 117 MHz.
pub proof fn lemma_nav_stays_in_band(state: FrequencyState, inputs: Seq<RadioInput>)
    requires
        state.is_nav(),
    ensures
        nav_run(state, inputs).is_nav(),
        NAV_BAND_MIN <= nav_run(state, inputs).standby_freq.integer <= NAV_BAND_MAX,
        NAV_BAND_MIN <= nav_run(state, inputs).active_freq.integer <= NAV_BAND_MAX,
    decreases inputs.len(),
{
    if inputs.len() > 0 {
        let input = inputs.last();
        lemma_nav_stays_in_band(state, inputs.drop_last());
        lemma_nav_step_stays_in_band(
            nav_run(state, inputs.drop_last()),
            input.swap_button,
            input.outer_rotary,
            input.inner_rotary,
        );
    }
}

/// Exchanging active and standby twice gives back the radio as it was.
pub proof fn lemma_swap_twice_is_identity(state: FrequencyState)
    ensures
        swapped(swapped(state)) == state,
{
}

/// One poll keeps the transponder's digits octal and its selection on one of the four.
pub proof fn lemma_xpdr_step_stays_octal(
    state: XpdrState,
    swap_button: ButtonState,
    outer: RotaryState,
    inner: RotaryState,
)
    requires
        state.is_well_formed(),
    ensures
        xpdr_step(state, swap_button, outer, inner).is_well_formed(),
{
    let next = xpdr_step(state, swap_button, outer, inner);
    assert forall|i: int| 0 <= i < 4 implies 0 <= #[trigger] next.code@[i] < XPDR_DIGIT_LIMIT by {
        assert(0 <= state.code@[i] < XPDR_DIGIT_LIMIT);
        assert(0 <= state.code@[next.selected_digit as int] < XPDR_DIGIT_LIMIT);
    }
}

/// No sequence of button presses and rotary movements takes a digit of the transponder code,
/// the selected one among them, out of 0 to 7, nor the selection off the four digits.
pub proof fn lemma_xpdr_stays_octal(state: XpdrState, inputs: Seq<RadioInput>)
    requires
        state.is_well_formed(),
    ensures
        xpdr_run(state, inputs).is_well_formed(),
        0 <= xpdr_run(state, inputs).code@[xpdr_run(state, inputs).selected_digit as int]
            < XPDR_DIGIT_LIMIT,
    decreases inputs.len(),
{
    if inputs.len() > 0 {
        let input = inputs.last();
        lemma_xpdr_stays_octal(state, inputs.drop_last());
        lemma_xpdr_step_stays_octal(
            xpdr_run(state, inputs.drop_last()),
            input.swap_button,
            input.outer_rotary,
            input.inner_rotary,
        );
    }
}

/// Pressing the button walks the selection through the digits in a cycle: from the first to
/// the second, the third, the fourth, and back to the first.
pub proof fn lemma_advance_digit_cycles()
    ensures
        advanced_digit(0) == 1,
        advanced_digit(1) == 2,
        advanced_digit(2) == 3,
        advanced_digit(3) == 0,
        forall|selected: int| 0 <= selected < 4 ==> advanced_digit(selected) == (selected + 1) % 4,
{
}

} // verus!
