//! Decimal text: how integers are written into the fixed-width fields of the panel's windows
//! and of the simulator's codes.

use vstd::prelude::*;
use vstd::string::StrSliceExecFns;
use vstd::string::StringExecFns;

verus! {

/// The character of a decimal digit
pub open spec fn digit_char(digit: int) -> char {
    if digit == 0 {
        '0'
    } else if digit == 1 {
        '1'
    } else if digit == 2 {
        '2'
    } else if digit == 3 {
        '3'
    } else if digit == 4 {
        '4'
    } else if digit == 5 {
        '5'
    } else if digit == 6 {
        '6'
    } else if digit == 7 {
        '7'
    } else if digit == 8 {
        '8'
    } else {
        '9'
    }
}

/// Whether a character is one of the decimal digits `0` to `9`
pub open spec fn is_digit_char(c: char) -> bool {
    '0' <= c <= '9'
}

/// The value of a decimal digit character
pub open spec fn digit_value(c: char) -> int {
    c as int - '0' as int
}

/// The decimal digits of a natural number, most significant first, without leading zeros
pub open spec fn digits_of(n: nat) -> Seq<char>
    decreases n,
{
    if n < 10 {
        seq![digit_char(n as int)]
    } else {
        digits_of(n / 10).push(digit_char((n % 10) as int))
    }
}

/// An integer written in decimal, with a minus sign in front of a negative one
pub open spec fn decimal_text(n: int) -> Seq<char> {
    if n < 0 {
        seq!['-'] + digits_of((-n) as nat)
    } else {
        digits_of(n as nat)
    }
}

/// `count` copies of one character
pub open spec fn repeated(fill: char, count: nat) -> Seq<char> {
    Seq::new(count, |i: int| fill)
}

/// A text brought to at least `width` characters by putting `fill` in front of it
pub open spec fn pad_left(text: Seq<char>, width: nat, fill: char) -> Seq<char> {
    if text.len() >= width {
        text
    } else {
        repeated(fill, (width - text.len()) as nat) + text
    }
}

/// An integer written in decimal and brought to at least `width` characters by zeros that
/// stand between the sign and the digits
pub open spec fn zero_padded(n: int, width: nat) -> Seq<char> {
    if n < 0 {
        seq!['-'] + pad_left(
            digits_of((-n) as nat),
            if width >= 1 {
                (width - 1) as nat
            } else {
                0
            },
            '0',
        )
    } else {
        pad_left(digits_of(n as nat), width, '0')
    }
}

/// The number that a text of digits stands for in the given radix
pub open spec fn radix_value(digits: Seq<char>, radix: nat) -> nat
    decreases digits.len(),
{
    if digits.len() == 0 {
        0
    } else {
        (radix_value(digits.drop_last(), radix) * radix + digit_value(digits.last())) as nat
    }
}

/// Whether a text is made of decimal digits only
pub open spec fn all_digits(text: Seq<char>) -> bool {
    forall|i: int| 0 <= i < text.len() ==> is_digit_char(#[trigger] text[i])
}

/// Appends one character to a string.
///
/// Trusted: calls `String::push` of the standard library, which appends the given character
/// to the end of the string.
#[verifier::external_body]
pub(crate) fn push_char(out: &mut String, c: char)
    ensures
        final(out)@ == old(out)@.push(c),
{
    out.push(c)
}

/// The character of a decimal digit
pub fn digit_to_char(digit: u8) -> (c: char)
    requires
        digit <= 9,
    ensures
        c == digit_char(digit as int),
        is_digit_char(c),
        digit_value(c) == digit,
{
    match digit {
        0 => '0',
        1 => '1',
        2 => '2',
        3 => '3',
        4 => '4',
        5 => '5',
        6 => '6',
        7 => '7',
        8 => '8',
        _ => '9',
    }
}

/// Appends the decimal digits of `n`
pub fn push_digits(out: &mut String, n: u64)
    ensures
        final(out)@ == old(out)@ + digits_of(n as nat),
    decreases n,
{
    if n >= 10 {
        push_digits(out, n / 10);
    }
    push_char(out, digit_to_char((n % 10) as u8));
}

/// Appends `count` copies of `fill`
pub fn push_repeated(out: &mut String, fill: char, count: usize)
    ensures
        final(out)@ == old(out)@ + repeated(fill, count as nat),
{
    let mut done: usize = 0;
    while done < count
        invariant
            done <= count,
            out@ == old(out)@ + repeated(fill, done as nat),
        decreases count - done,
    {
        push_char(out, fill);
        done = done + 1;
    }
}

/// Appends the characters of `text` from position `from` up to, not including, position `to`;
/// positions past the end of `text` add nothing
pub fn push_range(out: &mut String, text: &str, from: usize, to: usize)
    ensures
        final(out)@ == old(out)@ + clipped(text@, from as int, to as int),
{
    let len = text.unicode_len();
    let end = if to < len { to } else { len };
    let mut i: usize = from;
    if from >= end {
        return ;
    }
    while i < end
        invariant
            from <= i <= end <= len,
            len == text@.len(),
            out@ == old(out)@ + text@.subrange(from as int, i as int),
        decreases end - i,
    {
        push_char(out, text.get_char(i));
        i = i + 1;
    }
}

/// The part of a text from position `from` up to, not including, position `to`, as far as the
/// text reaches
pub open spec fn clipped(text: Seq<char>, from: int, to: int) -> Seq<char> {
    let end = if to < text.len() { to } else { text.len() as int };
    if 0 <= from < end {
        text.subrange(from, end)
    } else {
        Seq::empty()
    }
}

/// The number of characters of a text
pub fn char_count(text: &str) -> (count: usize)
    ensures
        count == text@.len(),
{
    text.unicode_len()
}

/// The absolute value of an integer
pub fn magnitude(n: i64) -> (m: u64)
    ensures
        n >= 0 ==> m == n,
        n < 0 ==> m == -n,
{
    if n >= 0 {
        n as u64
    } else {
        (-(n + 1)) as u64 + 1
    }
}

/// An integer written in decimal, with a minus sign in front of a negative one
pub fn decimal_string(n: i64) -> (text: String)
    ensures
        text@ == decimal_text(n as int),
{
    let mut text = String::new();
    if n < 0 {
        push_char(&mut text, '-');
        push_digits(&mut text, magnitude(n));
    } else {
        push_digits(&mut text, n as u64);
    }
    text
}

/// A text brought to at least `width` characters by putting `fill` in front of it
pub fn padded_left(text: &str, width: usize, fill: char) -> (padded: String)
    ensures
        padded@ == pad_left(text@, width as nat, fill),
{
    let len = text.unicode_len();
    let mut padded = String::new();
    if len < width {
        push_repeated(&mut padded, fill, width - len);
    }
    padded.append(text);
    padded
}

/// An integer written in decimal and brought to at least `width` characters by zeros that
/// stand between the sign and the digits
pub fn zero_padded_string(n: i64, width: usize) -> (text: String)
    ensures
        text@ == zero_padded(n as int, width as nat),
{
    let mut digits = String::new();
    let mut text = String::new();
    if n < 0 {
        push_digits(&mut digits, magnitude(n));
        push_char(&mut text, '-');
        let inner = if width > 0 { width - 1 } else { 0 };
        let padded = padded_left(digits.as_str(), inner, '0');
        text.append(padded.as_str());
    } else {
        push_digits(&mut digits, n as u64);
        let padded = padded_left(digits.as_str(), width, '0');
        text.append(padded.as_str());
    }
    text
}

/// The digits of a number are decimal digits, at least one and as many as the number needs.
pub proof fn lemma_digits_of(n: nat)
    ensures
        all_digits(digits_of(n)),
        digits_of(n).len() >= 1,
        n < 10 ==> digits_of(n).len() == 1,
        10 <= n < 100 ==> digits_of(n).len() == 2,
        100 <= n < 1000 ==> digits_of(n).len() == 3,
        1000 <= n < 10000 ==> digits_of(n).len() == 4,
        10000 <= n < 100000 ==> digits_of(n).len() == 5,
        100000 <= n ==> digits_of(n).len() >= 6,
    decreases n,
{
    if n >= 10 {
        lemma_digits_of(n / 10);
    }
}

/// A number below 1000 written with 3 digits: hundreds, tens, ones.
pub proof fn lemma_three_digits(n: nat)
    requires
        n < 1000,
    ensures
        pad_left(digits_of(n), 3, '0') == seq![
            digit_char((n / 100) as int),
            digit_char((n / 10 % 10) as int),
            digit_char((n % 10) as int),
        ],
{
    let text = pad_left(digits_of(n), 3, '0');
    let expected = seq![
        digit_char((n / 100) as int),
        digit_char((n / 10 % 10) as int),
        digit_char((n % 10) as int),
    ];
    lemma_digits_of(n);
    reveal_with_fuel(digits_of, 3);
    assert(text =~= expected);
}

/// One more digit multiplies the value of a text by the radix and adds the digit.
pub proof fn lemma_radix_value_push(text: Seq<char>, digit: char, radix: nat)
    requires
        is_digit_char(digit),
    ensures
        radix_value(text.push(digit), radix) == radix_value(text, radix) * radix + digit_value(
            digit,
        ),
{
    assert(text.push(digit).drop_last() =~= text);
    assert(text.push(digit).last() == digit);
    assert(radix_value(text, radix) * radix >= 0) by (nonlinear_arith)
        requires
            radix_value(text, radix) >= 0,
            radix >= 0,
    ;
}

/// Three more decimal digits multiply the value of a text by 1000 and add their own value.
pub proof fn lemma_decimal_value_append3(text: Seq<char>, digits: Seq<char>)
    requires
        digits.len() == 3,
        all_digits(digits),
    ensures
        radix_value(text + digits, 10) == radix_value(text, 10) * 1000 + radix_value(digits, 10),
        radix_value(digits, 10) == digit_value(digits[0]) * 100 + digit_value(digits[1]) * 10
            + digit_value(digits[2]),
{
    let none = Seq::<char>::empty();
    assert(text + digits =~= text.push(digits[0]).push(digits[1]).push(digits[2]));
    assert(digits =~= none.push(digits[0]).push(digits[1]).push(digits[2]));
    lemma_radix_value_push(text, digits[0], 10);
    lemma_radix_value_push(text.push(digits[0]), digits[1], 10);
    lemma_radix_value_push(text.push(digits[0]).push(digits[1]), digits[2], 10);
    lemma_radix_value_push(none, digits[0], 10);
    lemma_radix_value_push(none.push(digits[0]), digits[1], 10);
    lemma_radix_value_push(none.push(digits[0]).push(digits[1]), digits[2], 10);
}

/// A number below 1000 written with 3 digits stands for that number.
pub proof fn lemma_three_digit_value(n: nat)
    requires
        n < 1000,
    ensures
        pad_left(digits_of(n), 3, '0').len() == 3,
        all_digits(pad_left(digits_of(n), 3, '0')),
        radix_value(pad_left(digits_of(n), 3, '0'), 10) == n,
{
    let text = pad_left(digits_of(n), 3, '0');
    lemma_three_digits(n);
    lemma_decimal_value_append3(Seq::<char>::empty(), text);
}

} // verus!
