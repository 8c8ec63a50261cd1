//! The state of the instruments that the panel controls, and what holds of it at all times.

use vstd::prelude::*;
use crate::frequency::Frequency;

verus! {

/// Lowest whole megahertz of the COM band
pub const COM_BAND_MIN: i16 = 118;

/// Highest whole megahertz of the COM band
pub const COM_BAND_MAX: i16 = 136;

/// Thousandths of a megahertz between two COM channels
pub const COM_FRACTION_STEP: i16 = 5;

/// Lowest whole megahertz of the NAV band
pub const NAV_BAND_MIN: i16 = 108;

/// Highest whole megahertz of the NAV band
pub const NAV_BAND_MAX: i16 = 117;

/// Thousandths of a megahertz between two NAV channels
pub const NAV_FRACTION_STEP: i16 = 50;

/// The fraction of a frequency is counted in thousandths: it stays below this
pub const FRACTION_LIMIT: i16 = 1000;

/// Highest airspeed the autopilot can be set to
pub const AIRSPEED_MAX: i16 = 9999;

/// Headings are counted in degrees: they stay below this
pub const HEADING_LIMIT: i16 = 360;

/// Lowest altitude the autopilot can be set to
pub const ALTITUDE_MIN: i32 = 100;

/// Highest altitude the autopilot can be set to
pub const ALTITUDE_MAX: i32 = 100000;

/// Highest rate of climb or descent the autopilot can be set to
pub const VERTICAL_SPEED_MAX: i16 = 9900;

/// The transponder code is octal: each digit stays below this
pub const XPDR_DIGIT_LIMIT: i8 = 8;

/// Number of digits of the transponder code
pub const XPDR_DIGIT_COUNT: usize = 4;

/// All instruments together
#[derive(Copy, Clone, Debug, PartialEq, Eq)]
pub struct InstrumentStates {
    pub com1_state: FrequencyState,
    pub com2_state: FrequencyState,
    pub nav1_state: FrequencyState,
    pub nav2_state: FrequencyState,
    pub adf_state: AdfState,
    pub dme_state: DmeState,
    pub xpdr_state: XpdrState,
    pub autopilot_state: AutopilotState,
}

/// A radio: the frequency in use and the one that the rotaries tune
#[derive(Copy, Clone, Debug, PartialEq, Eq, Structural)]
pub struct FrequencyState {
    pub standby_freq: Frequency,
    pub active_freq: Frequency,
}

/// The direction finder's frequencies, in kHz
#[derive(Copy, Clone, Debug, PartialEq, Eq, Structural)]
pub struct AdfState {
    pub active_frequency: i16,
    pub standby_frequency: i16,
}

/// The distance that the distance-measuring equipment reports, in tenths of a nautical mile
#[derive(Copy, Clone, Debug, PartialEq, Eq, Structural)]
pub struct DmeState {
    pub distance_tenths: u32,
}

/// The transponder: its four octal digits and the one that the rotaries change
#[derive(Copy, Clone, Debug, PartialEq, Eq)]
pub struct XpdrState {
    pub code: [i8; 4],
    pub selected_digit: usize,
}

/// The autopilot's targets, and which of altitude and vertical speed the lower rotaries change
#[derive(Copy, Clone, Debug, PartialEq, Eq, Structural)]
pub struct AutopilotState {
    pub airspeed: i16,
    pub heading: i16,
    pub altitude: i32,
    pub vertical_speed: i16,
    pub selected_setting: AutopilotValue,
}

/// The autopilot target that the lower rotaries change
#[derive(Copy, Clone, Debug, PartialEq, Eq, Structural)]
pub enum AutopilotValue {
    Altitude,
    VerticalSpeed,
}

impl Frequency {
    /// Whether this is a channel of the COM band: 118 to 136 MHz in steps of 5 kHz
    pub open spec fn is_com_channel(self) -> bool {
        &&& COM_BAND_MIN <= self.integer <= COM_BAND_MAX
        &&& 0 <= self.fraction < FRACTION_LIMIT
        &&& self.fraction as int % COM_FRACTION_STEP as int == 0
    }

    /// Whether this is a channel of the NAV band: 108 to 117 MHz in steps of 50 kHz
    pub open spec fn is_nav_channel(self) -> bool {
        &&& NAV_BAND_MIN <= self.integer <= NAV_BAND_MAX
        &&& 0 <= self.fraction < FRACTION_LIMIT
        &&& self.fraction as int % NAV_FRACTION_STEP as int == 0
    }
}

impl FrequencyState {
    /// Whether both frequencies are channels of the COM band
    pub open spec fn is_com(self) -> bool {
        self.active_freq.is_com_channel() && self.standby_freq.is_com_channel()
    }

    /// Whether both frequencies are channels of the NAV band
    pub open spec fn is_nav(self) -> bool {
        self.active_freq.is_nav_channel() && self.standby_freq.is_nav_channel()
    }
}

impl AdfState {
    /// Whether the standby frequency fits a window
    pub open spec fn is_well_formed(self) -> bool {
        -9999 <= self.standby_frequency
    }
}

impl DmeState {
    /// Whether the distance fits a window
    pub open spec fn is_well_formed(self) -> bool {
        self.distance_tenths < 100
    }
}

impl XpdrState {
    /// Whether every digit of the code is octal and the selected digit is one of the four
    pub open spec fn is_well_formed(self) -> bool {
        &&& self.selected_digit < XPDR_DIGIT_COUNT
        &&& forall|i: int| 0 <= i < 4 ==> 0 <= #[trigger] self.code@[i] < XPDR_DIGIT_LIMIT
    }
}

impl AutopilotState {
    /// Whether every target is within its limits
    pub open spec fn is_well_formed(self) -> bool {
        &&& 0 <= self.airspeed <= AIRSPEED_MAX
        &&& 0 <= self.heading < HEADING_LIMIT
        &&& ALTITUDE_MIN <= self.altitude <= ALTITUDE_MAX
        &&& -VERTICAL_SPEED_MAX <= self.vertical_speed <= VERTICAL_SPEED_MAX
    }
}

impl InstrumentStates {
    /// Whether every instrument is within its limits
    pub open spec fn is_well_formed(self) -> bool {
        &&& self.com1_state.is_com()
        &&& self.com2_state.is_com()
        &&& self.nav1_state.is_nav()
        &&& self.nav2_state.is_nav()
        &&& self.adf_state.is_well_formed()
        &&& self.dme_state.is_well_formed()
        &&& self.xpdr_state.is_well_formed()
        &&& self.autopilot_state.is_well_formed()
    }
}

/// The instruments as they are before the first input: both COM radios on 118.000, both NAV
/// radios on 108.00, the direction finder on 123, transponder code 1000 with its first digit
/// selected, and the autopilot at altitude 100 with the altitude selected
pub open spec fn default_state() -> InstrumentStates {
    let com = FrequencyState {
        standby_freq: Frequency { integer: 118, fraction: 0 },
        active_freq: Frequency { integer: 118, fraction: 0 },
    };
    let nav = FrequencyState {
        standby_freq: Frequency { integer: 108, fraction: 0 },
        active_freq: Frequency { integer: 108, fraction: 0 },
    };
    InstrumentStates {
        com1_state: com,
        com2_state: com,
        nav1_state: nav,
        nav2_state: nav,
        adf_state: AdfState { active_frequency: 123, standby_frequency: 123 },
        dme_state: DmeState { distance_tenths: 0 },
        xpdr_state: XpdrState { code: [1, 0, 0, 0], selected_digit: 0 },
        autopilot_state: AutopilotState {
            airspeed: 0,
            heading: 0,
            altitude: 100,
            vertical_speed: 0,
            selected_setting: AutopilotValue::Altitude,
        },
    }
}

/// The instruments as they are before the first input
pub fn instruments_default_state() -> (state: InstrumentStates)
    ensures
        state == default_state(),
        state.is_well_formed(),
{
    InstrumentStates {
        com1_state: FrequencyState {
            standby_freq: Frequency { integer: 118, fraction: 0 },
            active_freq: Frequency { integer: 118, fraction: 0 },
        },
        com2_state: FrequencyState {
            standby_freq: Frequency { integer: 118, fraction: 0 },
            active_freq: Frequency { integer: 118, fraction: 0 },
        },
        nav1_state: FrequencyState {
            standby_freq: Frequency { integer: 108, fraction: 0 },
            active_freq: Frequency { integer: 108, fraction: 0 },
        },
        nav2_state: FrequencyState {
            standby_freq: Frequency { integer: 108, fraction: 0 },
            active_freq: Frequency { integer: 108, fraction: 0 },
        },
        adf_state: AdfState { active_frequency: 123, standby_frequency: 123 },
        dme_state: DmeState { distance_tenths: 0 },
        xpdr_state: XpdrState { code: [1, 0, 0, 0], selected_digit: 0 },
        autopilot_state: AutopilotState {
            airspeed: 0,
            heading: 0,
            altitude: 100,  // Airbus A320's minimum setting is 100, might as well initiate as such
            vertical_speed: 0,
            selected_setting: AutopilotValue::Altitude,
        },
    }
}

} // verus!
