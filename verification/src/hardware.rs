//! The panel's windows and the seven-segment displays in them.

use vstd::prelude::*;
use crate::constants::{
    BITMASK_HIDE_DECIMAL_POINT, BITMASK_SHOW_DECIMAL_POINT, DIGIT_BLANK, DIGIT_DASH,
};

verus! {

/// One of the 4 windows on the Radio Panel
#[derive(Copy, Clone, Debug, PartialEq, Eq, Structural)]
pub enum Window {
    TopLeft,
    TopRight,
    BottomLeft,
    BottomRight,
}

impl Window {
    /// The window's place in the panel and in the output report
    pub open spec fn index_spec(self) -> int {
        match self {
            Window::TopLeft => 0,
            Window::TopRight => 1,
            Window::BottomLeft => 2,
            Window::BottomRight => 3,
        }
    }

    /// The window's place in the panel and in the output report
    pub fn index(self) -> (i: usize)
        ensures
            i == self.index_spec(),
            i < 4,
    {
        match self {
            Window::TopLeft => 0,
            Window::TopRight => 1,
            Window::BottomLeft => 2,
            Window::BottomRight => 3,
        }
    }
}

/// One seven-segment display: the code of what it shows and whether the point to the right of
/// it is lit
#[derive(Copy, Clone, Debug, PartialEq, Eq)]
pub struct SevenSegmentDisplay {
    pub value: u8,  // can only display from 0 to 9, nothing or a dash
    pub has_decimal_point: bool,  // used to show a decimal point right of number
}

/// One of 4 windows on the Radio Panel.
/// Each window has 5 7-segment displays
#[derive(Copy, Clone, Debug, PartialEq, Eq)]
pub struct RadioPanelWindow {
    pub displays: [SevenSegmentDisplay; 5],
}

impl SevenSegmentDisplay {
    /// Whether the display holds something that the hardware can show: a digit, nothing or a
    /// dash
    pub open spec fn is_well_formed(self) -> bool {
        self.value <= 9 || self.value == DIGIT_BLANK || self.value == DIGIT_DASH
    }

    /// The byte that shows this display on the hardware
    pub open spec fn data(self) -> u8 {
        if self.has_decimal_point {
            self.value | BITMASK_SHOW_DECIMAL_POINT
        } else {
            self.value | BITMASK_HIDE_DECIMAL_POINT
        }
    }

    /// Returns both value and decimal point data combined
    pub fn get_data(&self) -> (data: u8)
        ensures
            data == self.data(),
            !self.has_decimal_point ==> data == self.value,
            self.has_decimal_point && self.value <= 9 ==> data == 0xD0 + self.value,
            self.has_decimal_point && self.value == DIGIT_BLANK ==> data == 0xDF,
            self.has_decimal_point && self.value == DIGIT_DASH ==> data == 0xF0,
    {
        let value = self.value;
        proof {
            assert(value | 0u8 == value) by (bit_vector);
            assert(value <= 9 ==> value | 0xD0u8 == 0xD0 + value) by (bit_vector);
            assert(0x0Fu8 | 0xD0u8 == 0xDFu8) by (bit_vector);
            assert(0xE0u8 | 0xD0u8 == 0xF0u8) by (bit_vector);
        }
        if self.has_decimal_point {
            // set magic first 4 bits to show a decimal point
            self.value | BITMASK_SHOW_DECIMAL_POINT
        } else {
            // don't set magic first 4 bits
            self.value | BITMASK_HIDE_DECIMAL_POINT
        }
    }
}

impl RadioPanelWindow {
    /// Whether all 5 displays hold something that the hardware can show
    pub open spec fn is_well_formed(self) -> bool {
        forall|i: int| 0 <= i < 5 ==> (#[trigger] self.displays@[i]).is_well_formed()
    }
}

} // verus!
