use radio_panel::frequency::{format_frequency, Frequency};
use radio_panel::text::{
    char_count, decimal_string, digit_to_char, magnitude, padded_left, push_digits, push_range,
    push_repeated, zero_padded_string,
};

#[test]
fn decimal_strings() {
    assert_eq!(decimal_string(0), "0");
    assert_eq!(decimal_string(7), "7");
    assert_eq!(decimal_string(10), "10");
    assert_eq!(decimal_string(118), "118");
    assert_eq!(decimal_string(-9900), "-9900");
    assert_eq!(decimal_string(i64::MAX), "9223372036854775807");
    assert_eq!(decimal_string(i64::MIN), "-9223372036854775808");
}

#[test]
fn magnitudes() {
    assert_eq!(magnitude(0), 0);
    assert_eq!(magnitude(5), 5);
    assert_eq!(magnitude(-5), 5);
    assert_eq!(magnitude(i64::MIN), 9223372036854775808);
}

#[test]
fn padding_on_the_left() {
    assert_eq!(padded_left("7", 3, '0'), "007");
    assert_eq!(padded_left("123", 3, '0'), "123");
    assert_eq!(padded_left("1234", 3, '0'), "1234");
    assert_eq!(padded_left("-5", 3, '0'), "0-5");
    assert_eq!(padded_left("12", 5, ' '), "   12");
    assert_eq!(padded_left("", 0, ' '), "");
}

#[test]
fn zero_padding_keeps_the_sign_in_front() {
    assert_eq!(zero_padded_string(5, 3), "005");
    assert_eq!(zero_padded_string(50, 3), "050");
    assert_eq!(zero_padded_string(1234, 3), "1234");
    assert_eq!(zero_padded_string(-100, 5), "-0100");
    assert_eq!(zero_padded_string(-9900, 5), "-9900");
    assert_eq!(zero_padded_string(-5, 3), "-05");
    assert_eq!(zero_padded_string(-5, 0), "-5");
    assert_eq!(zero_padded_string(0, 0), "0");
}

#[test]
fn pushing_pieces() {
    let mut out = String::from("a");
    push_digits(&mut out, 1203);
    assert_eq!(out, "a1203");
    push_repeated(&mut out, '-', 3);
    assert_eq!(out, "a1203---");
    push_range(&mut out, "hello", 1, 3);
    assert_eq!(out, "a1203---el");
    push_range(&mut out, "hello", 3, 99);
    assert_eq!(out, "a1203---ello");
    push_range(&mut out, "hello", 4, 2);
    push_range(&mut out, "hello", 7, 9);
    assert_eq!(out, "a1203---ello");
    assert_eq!(char_count("héllo"), 5);
    assert_eq!(digit_to_char(0), '0');
    assert_eq!(digit_to_char(9), '9');
}

#[test]
fn com_frequencies_drop_the_leading_digit() {
    assert_eq!(format_frequency(Frequency { integer: 118, fraction: 0 }, 3), "18.000");
    assert_eq!(format_frequency(Frequency { integer: 136, fraction: 995 }, 3), "36.995");
    assert_eq!(format_frequency(Frequency { integer: 121, fraction: 5 }, 3), "21.005");
}

#[test]
fn nav_frequencies_show_two_fraction_digits() {
    assert_eq!(format_frequency(Frequency { integer: 117, fraction: 950 }, 2), "117.95");
    assert_eq!(format_frequency(Frequency { integer: 108, fraction: 0 }, 2), "108.00");
}

#[test]
fn frequencies_outside_the_bands_are_formatted_as_written() {
    assert_eq!(format_frequency(Frequency { integer: 5, fraction: 1234 }, 3), ".1234");
    assert_eq!(format_frequency(Frequency { integer: -12, fraction: -5 }, 2), "-12.-0");
    assert_eq!(format_frequency(Frequency { integer: -12, fraction: -5 }, 3), "12.-05");
}
