//! A radio frequency and how it is written in a window.

use vstd::prelude::*;
use vstd::string::StringExecFns;
use crate::text::{
    char_count, decimal_string, decimal_text, push_char, push_range, zero_padded,
    zero_padded_string,
};

verus! {

/// A frequency in MHz: the whole megahertz and the thousandths of a megahertz
#[derive(Copy, Clone, Debug, PartialEq, Eq, Structural)]
pub struct Frequency {
    pub integer: i16,
    pub fraction: i16,
}

/// A frequency as a window shows it.
///
/// With 2 fractional digits: the whole part, a point, and the first two characters of the
/// fraction written with 3 digits (`108.05` for 108 and 50). With 3 fractional digits: the
/// whole part without its first character, a point, and the fraction written with 3 digits
/// (`18.005` for 118 and 5).
pub open spec fn frequency_text(freq: Frequency, fractional_digits: int) -> Seq<char> {
    if fractional_digits == 2 {
        decimal_text(freq.integer as int) + seq!['.'] + zero_padded(
            freq.fraction as int,
            3,
        ).subrange(0, 2)
    } else {
        let whole = decimal_text(freq.integer as int);
        whole.subrange(1, whole.len() as int) + seq!['.'] + zero_padded(freq.fraction as int, 3)
    }
}

/// Formats a given frequency to the 00.000 or 000.00 format
pub fn format_frequency(freq: Frequency, fractional_digits: u8) -> (text: String)
    requires
        fractional_digits == 2 || fractional_digits == 3,
    ensures
        text@ == frequency_text(freq, fractional_digits as int),
{
    let whole = decimal_string(freq.integer as i64);
    let fraction = zero_padded_string(freq.fraction as i64, 3);
    let mut text = String::new();
    if fractional_digits == 2 {
        text.append(whole.as_str());
        push_char(&mut text, '.');
        push_range(&mut text, fraction.as_str(), 0, 2);
    } else {
        push_range(&mut text, whole.as_str(), 1, char_count(whole.as_str()));
        push_char(&mut text, '.');
        text.append(fraction.as_str());
    }
    text
}

} // verus!
