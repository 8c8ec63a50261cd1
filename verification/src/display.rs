//! The display model: what the four windows show, how a text is drawn into a window, and how
//! the windows are encoded into the panel's feature report.

use vstd::prelude::*;
use vstd::string::StrSliceExecFns;
use crate::constants::{CONTROL_MESSAGE_SIZE, DIGIT_BLANK, DIGIT_DASH};
use crate::hardware::{RadioPanelWindow, SevenSegmentDisplay, Window};
use crate::text::is_digit_char;

verus! {

/// Why a text cannot be drawn into a window
#[derive(Copy, Clone, Debug, PartialEq, Eq, Structural)]
pub enum DisplayError {
    /// A point stands at the start of the text or directly behind another point, where there
    /// is no display for it to belong to
    MisplacedPoint,
    /// The text needs more than the 5 displays of a window
    TooLong,
    /// A character is neither a digit, a blank, a dash nor a point
    UnknownCharacter,
}

/// Whether a character takes a display of its own: a digit, a blank or a dash
pub open spec fn is_glyph(c: char) -> bool {
    c == ' ' || c == '-' || is_digit_char(c)
}

/// The code that shows a character on a display: the digit's value, or the codes for nothing
/// and for a dash
pub open spec fn glyph_code(c: char) -> u8 {
    if c == ' ' {
        DIGIT_BLANK
    } else if c == '-' {
        DIGIT_DASH
    } else {
        (c as int - '0' as int) as u8
    }
}

/// A display that shows `c` without a point
pub open spec fn glyph(c: char) -> SevenSegmentDisplay {
    SevenSegmentDisplay { value: glyph_code(c), has_decimal_point: false }
}

/// A display with its point lit
pub open spec fn with_point(display: SevenSegmentDisplay) -> SevenSegmentDisplay {
    SevenSegmentDisplay { value: display.value, has_decimal_point: true }
}

/// The number of displays that the first `n` characters of a text take: every character but
/// the point takes one
pub open spec fn slots_used(text: Seq<char>, n: int) -> int
    decreases n,
{
    if n <= 0 {
        0
    } else {
        slots_used(text, n - 1) + if text[n - 1] == '.' {
            0int
        } else {
            1int
        }
    }
}

/// What is wrong with the character at position `i` of a text, if anything.
///
/// A point needs a character before it that is no point. Any other character needs a display
/// that is still free, and must be a digit, a blank or a dash.
pub open spec fn char_error(text: Seq<char>, i: int) -> Option<DisplayError> {
    if text[i] == '.' {
        if i == 0 || text[i - 1] == '.' {
            Some(DisplayError::MisplacedPoint)
        } else {
            None
        }
    } else if slots_used(text, i) >= 5 {
        Some(DisplayError::TooLong)
    } else if !is_glyph(text[i]) {
        Some(DisplayError::UnknownCharacter)
    } else {
        None
    }
}

/// The first thing that is wrong among the first `n` characters of a text, if anything
pub open spec fn error_before(text: Seq<char>, n: int) -> Option<DisplayError>
    decreases n,
{
    if n <= 0 {
        None
    } else {
        match error_before(text, n - 1) {
            Some(error) => Some(error),
            None => char_error(text, n - 1),
        }
    }
}

/// The first thing that is wrong with a text, if anything
pub open spec fn text_error(text: Seq<char>) -> Option<DisplayError> {
    error_before(text, text.len() as int)
}

/// Displays after the first `n` characters of a text were drawn over them, from the left.
///
/// A point lights the point of the display that was drawn last. Any other character is drawn
/// into the next display, without a point.
pub open spec fn drawn_before(
    displays: Seq<SevenSegmentDisplay>,
    text: Seq<char>,
    n: int,
) -> Seq<SevenSegmentDisplay>
    decreases n,
{
    if n <= 0 {
        displays
    } else {
        let before = drawn_before(displays, text, n - 1);
        let at = slots_used(text, n - 1);
        if text[n - 1] == '.' {
            before.update(at - 1, with_point(before[at - 1]))
        } else {
            before.update(at, glyph(text[n - 1]))
        }
    }
}

/// Displays after a text was drawn over them
pub open spec fn drawn(displays: Seq<SevenSegmentDisplay>, text: Seq<char>) -> Seq<
    SevenSegmentDisplay,
> {
    drawn_before(displays, text, text.len() as int)
}

/// The 5 displays of a window that shows nothing
pub open spec fn blank_displays() -> Seq<SevenSegmentDisplay> {
    Seq::new(5, |i: int| glyph(' '))
}

/// The 5 displays of a window that was cleared and then had a text drawn into it
pub open spec fn window_displays(text: Seq<char>) -> Seq<SevenSegmentDisplay> {
    drawn(blank_displays(), text)
}

/// The window that holds the given 5 displays
pub open spec fn window_of(displays: Seq<SevenSegmentDisplay>) -> RadioPanelWindow {
    RadioPanelWindow {
        displays: [displays[0], displays[1], displays[2], displays[3], displays[4]],
    }
}

/// Whether a character takes a display of its own: a digit, a blank or a dash
pub fn char_is_glyph(c: char) -> (known: bool)
    ensures
        known == is_glyph(c),
{
    c == ' ' || c == '-' || ('0' <= c && c <= '9')
}

/// The code that shows a digit, a blank or a dash on a display
pub fn char_glyph_code(c: char) -> (code: u8)
    requires
        is_glyph(c),
    ensures
        code == glyph_code(c),
        code <= 9 || code == DIGIT_BLANK || code == DIGIT_DASH,
{
    if c == ' ' {
        DIGIT_BLANK
    } else if c == '-' {
        DIGIT_DASH
    } else {
        (c as u32 - '0' as u32) as u8
    }
}

/// What is wrong with the start of a text is wrong with all of it.
pub proof fn lemma_error_persists(text: Seq<char>, m: int, n: int)
    requires
        0 <= m <= n,
        error_before(text, m) is Some,
    ensures
        error_before(text, n) == error_before(text, m),
    decreases n,
{
    if m < n {
        lemma_error_persists(text, m, n - 1);
    }
}

/// A text without a point takes one display for each character.
pub proof fn lemma_slots_used_without_point(text: Seq<char>, n: int)
    requires
        0 <= n <= text.len(),
        forall|i: int| 0 <= i < n ==> text[i] != '.',
    ensures
        slots_used(text, n) == n,
    decreases n,
{
    if n > 0 {
        lemma_slots_used_without_point(text, n - 1);
    }
}

/// A text with a single point takes one display for each of its other characters.
pub proof fn lemma_slots_used_with_one_point(text: Seq<char>, point: int, n: int)
    requires
        0 <= point < n <= text.len(),
        text[point] == '.',
        forall|i: int| 0 <= i < n && i != point ==> text[i] != '.',
    ensures
        slots_used(text, n) == n - 1,
    decreases n,
{
    if n - 1 > point {
        lemma_slots_used_with_one_point(text, point, n - 1);
    } else {
        lemma_slots_used_without_point(text, n - 1);
    }
}

/// Whether a text is made of digits, blanks, dashes and points, with every point behind a
/// character that is no point: the only thing that can be wrong with it is its length
pub open spec fn is_well_placed(text: Seq<char>) -> bool {
    &&& forall|i: int| 0 <= i < text.len() ==> text[i] == '.' || is_glyph(#[trigger] text[i])
    &&& forall|i: int|
        0 <= i < text.len() && #[trigger] text[i] == '.' ==> i > 0 && text[i - 1] != '.'
}

/// Of a text whose points are well placed and whose other characters are digits, blanks and
/// dashes, the start is too long once it takes more than 5 displays, and is sound until then.
pub proof fn lemma_error_of_well_placed(text: Seq<char>, n: int)
    requires
        0 <= n <= text.len(),
        is_well_placed(text),
    ensures
        slots_used(text, n) > 5 ==> error_before(text, n) == Some(DisplayError::TooLong),
        slots_used(text, n) <= 5 ==> error_before(text, n) is None,
    decreases n,
{
    if n > 0 {
        lemma_error_of_well_placed(text, n - 1);
        assert(text[n - 1] == '.' || is_glyph(text[n - 1]));
    }
}

/// Whether a text is made of digits, blanks and dashes only, so that each of its characters
/// takes a display
pub open spec fn is_plain(text: Seq<char>) -> bool {
    forall|i: int| 0 <= i < text.len() ==> is_glyph(#[trigger] text[i])
}

/// The only thing that can be wrong with a text of digits, blanks and dashes is that it has
/// more than 5 characters.
pub proof fn lemma_error_of_plain_text(text: Seq<char>)
    requires
        is_plain(text),
    ensures
        text_error(text) == if text.len() > 5 {
            Some(DisplayError::TooLong)
        } else {
            None
        },
{
    assert forall|i: int| 0 <= i < text.len() implies text[i] != '.' by {
        assert(is_glyph(text[i]));
    }
    lemma_slots_used_without_point(text, text.len() as int);
    lemma_error_of_well_placed(text, text.len() as int);
}

/// The only thing that can be wrong with a text of digits, blanks and dashes that has one
/// point behind one of them is that it has more than 5 characters besides the point.
pub proof fn lemma_error_of_marked_text(before: Seq<char>, after: Seq<char>)
    requires
        is_plain(before),
        is_plain(after),
        before.len() >= 1,
    ensures
        text_error(before + seq!['.'] + after) == if before.len() + after.len() > 5 {
            Some(DisplayError::TooLong)
        } else {
            None
        },
{
    let text = before + seq!['.'] + after;
    let point = before.len() as int;
    assert forall|i: int| 0 <= i < text.len() && i != point implies is_glyph(text[i]) && text[i]
        != '.' by {
        if i < point {
            assert(is_glyph(before[i]));
        } else {
            assert(is_glyph(after[i - point - 1]));
        }
    }
    assert(text[point] == '.');
    lemma_slots_used_with_one_point(text, point, text.len() as int);
    lemma_error_of_well_placed(text, text.len() as int);
}

/// Whether each of 5 displays holds something that the hardware can show
pub open spec fn all_well_formed(displays: Seq<SevenSegmentDisplay>) -> bool {
    forall|i: int| 0 <= i < 5 ==> (#[trigger] displays[i]).is_well_formed()
}

/// Draws the characters of `value` over the given displays, from the left.
///
/// Gives the displays as they are after the drawing, or the first thing that is wrong with
/// the text.
pub fn draw(displays: [SevenSegmentDisplay; 5], value: &str) -> (result: Result<
    [SevenSegmentDisplay; 5],
    DisplayError,
>)
    ensures
        match result {
            Ok(after) => {
                &&& text_error(value@) is None
                &&& after@ == drawn(displays@, value@)
                &&& all_well_formed(displays@) ==> all_well_formed(after@)
            },
            Err(error) => text_error(value@) == Some(error),
        },
{
    let len = value.unicode_len();
    let ghost text = value@;
    let mut after = displays;
    let mut display_index: usize = 0;
    let mut previous_is_point = true;
    let mut i: usize = 0;
    while i < len
        invariant
            text == value@,
            len == text.len(),
            i <= len,
            display_index == slots_used(text, i as int),
            display_index <= 5,
            error_before(text, i as int) is None,
            after@ == drawn_before(displays@, text, i as int),
            previous_is_point == (i == 0 || text[i - 1] == '.'),
            !previous_is_point ==> display_index >= 1,
            all_well_formed(displays@) ==> all_well_formed(after@),
        decreases len - i,
    {
        let character = value.get_char(i);
        proof {
            assert(error_before(text, i + 1) == char_error(text, i as int));
            if char_error(text, i as int) is Some {
                lemma_error_persists(text, i + 1, len as int);
            }
        }
        // If a dot succeeds a digit, tell that previous digit it has a decimal point
        if character == '.' {
            if previous_is_point {
                return Err(DisplayError::MisplacedPoint);
            }
            let previous = after[display_index - 1];
            after[display_index - 1] = SevenSegmentDisplay {
                value: previous.value,
                has_decimal_point: true,
            };
            previous_is_point = true;
        } else {
            if display_index >= 5 {
                return Err(DisplayError::TooLong);
            }
            if !char_is_glyph(character) {
                return Err(DisplayError::UnknownCharacter);
            }
            after[display_index] = SevenSegmentDisplay {
                value: char_glyph_code(character),
                has_decimal_point: false,
            };
            display_index = display_index + 1;
            previous_is_point = false;
        }
        i = i + 1;
    }
    Ok(after)
}

/// The first of two findings, where there is one
pub open spec fn first_error(first: Option<DisplayError>, second: Option<DisplayError>) -> Option<
    DisplayError,
> {
    if first is Some {
        first
    } else {
        second
    }
}

/// The panel with nothing in any of its windows
pub open spec fn blank_panel() -> RadioPanel {
    RadioPanel {
        windows: [
            window_of(blank_displays()),
            window_of(blank_displays()),
            window_of(blank_displays()),
            window_of(blank_displays()),
        ],
    }
}

/// Represents the radio panel with its 4 windows, containing 5 7-segment displays each.
#[derive(Copy, Clone, Debug, PartialEq, Eq)]
pub struct RadioPanel {
    pub windows: [RadioPanelWindow; 4],
}

impl RadioPanel {
    /// The 5 displays of a window
    pub open spec fn displays(self, window: Window) -> Seq<SevenSegmentDisplay> {
        self.windows@[window.index_spec()].displays@
    }

    /// Whether every display of every window holds something that the hardware can show
    pub open spec fn is_well_formed(self) -> bool {
        forall|w: int| 0 <= w < 4 ==> (#[trigger] self.windows@[w]).is_well_formed()
    }

    /// This panel with one window replaced
    pub open spec fn with_window(self, window: Window, content: RadioPanelWindow) -> RadioPanel {
        RadioPanel {
            windows: [
                if window is TopLeft { content } else { self.windows@[0] },
                if window is TopRight { content } else { self.windows@[1] },
                if window is BottomLeft { content } else { self.windows@[2] },
                if window is BottomRight { content } else { self.windows@[3] },
            ],
        }
    }

    /// This panel after a text was drawn over what a window shows; the panel as it is where
    /// something is wrong with the text
    pub open spec fn with_text_added(self, window: Window, text: Seq<char>) -> RadioPanel {
        if text_error(text) is Some {
            self
        } else {
            self.with_window(window, window_of(drawn(self.displays(window), text)))
        }
    }

    /// This panel after a window was cleared and a text drawn into it; the panel as it is
    /// where something is wrong with the text
    pub open spec fn with_text(self, window: Window, text: Seq<char>) -> RadioPanel {
        if text_error(text) is Some {
            self
        } else {
            self.with_window(window, window_of(window_displays(text)))
        }
    }

    /// The feature report that shows this panel: a zero byte, then the 5 displays of each of
    /// the 4 windows in turn, then 2 unused bytes that hold the code for nothing
    pub open spec fn report(self) -> Seq<u8> {
        Seq::new(
            23,
            |i: int|
                if i == 0 {
                    0u8
                } else if i <= 20 {
                    self.windows@[(i - 1) / 5].displays@[(i - 1) % 5].data()
                } else {
                    DIGIT_BLANK
                },
        )
    }

    /// A panel whose windows show nothing
    pub fn new() -> (panel: RadioPanel)
        ensures
            panel == blank_panel(),
            forall|window: Window| panel.displays(window) == blank_displays(),
            panel.is_well_formed(),
    {
        let blank = SevenSegmentDisplay { value: DIGIT_BLANK, has_decimal_point: false };
        let window = RadioPanelWindow { displays: [blank, blank, blank, blank, blank] };
        let panel = RadioPanel { windows: [window, window, window, window] };
        proof {
            assert(window.displays@ =~= blank_displays());
            assert(window.displays@ =~= window_of(blank_displays()).displays@);
            assert(window.displays == window_of(blank_displays()).displays);
            assert(panel.windows@ =~= blank_panel().windows@);
            assert(panel.windows == blank_panel().windows);
            assert forall|w: int| 0 <= w < 4 implies (#[trigger] panel.windows@[w])
                .is_well_formed() by {
                assert(panel.windows@[w] == window);
            }
        }
        panel
    }

    /// Show values in window, previous values are cleared.
    /// Value can contain up to 5 digits from 0-9, each with an optional point behind it.
    /// Can also be a blank space or a dash.
    /// Examples: 12345, 123.45, 1.2.3.4.5., 12 45, 12-45
    ///
    /// Where something is wrong with the value, the panel stays as it is and the first thing
    /// that is wrong is returned.
    pub fn set_window(&mut self, window: Window, value: &str) -> (result: Result<(), DisplayError>)
        ensures
            *final(self) == old(self).with_text(window, value@),
            match result {
                Ok(_) => text_error(value@) is None && final(self).displays(window)
                    == window_displays(value@),
                Err(error) => text_error(value@) == Some(error),
            },
            forall|other: Window| other != window ==> final(self).displays(other) == old(
                self,
            ).displays(other),
            old(self).is_well_formed() ==> final(self).is_well_formed(),
    {
        let blank = SevenSegmentDisplay { value: DIGIT_BLANK, has_decimal_point: false };
        let cleared = [blank, blank, blank, blank, blank];
        proof {
            assert(cleared@ =~= blank_displays());
        }
        match draw(cleared, value) {
            Ok(displays) => {
                self.put_window(window, RadioPanelWindow { displays });
                proof {
                    let content = window_of(window_displays(value@));
                    assert(displays@ =~= content.displays@);
                    assert(displays == content.displays);
                }
                Ok(())
            },
            Err(error) => Err(error),
        }
    }

    /// Draws the values into a window without clearing it.
    /// If not all digits are set, previous digits can remain
    ///
    /// Where something is wrong with the value, the panel stays as it is and the first thing
    /// that is wrong is returned.
    pub fn set_window_additively(&mut self, window: Window, value: &str) -> (result: Result<
        (),
        DisplayError,
    >)
        ensures
            *final(self) == old(self).with_text_added(window, value@),
            match result {
                Ok(_) => text_error(value@) is None && final(self).displays(window) == drawn(
                    old(self).displays(window),
                    value@,
                ),
                Err(error) => text_error(value@) == Some(error),
            },
            forall|other: Window| other != window ==> final(self).displays(other) == old(
                self,
            ).displays(other),
            old(self).is_well_formed() ==> final(self).is_well_formed(),
    {
        let window_index = window.index();
        proof {
            if self.is_well_formed() {
                assert(self.windows@[window_index as int].is_well_formed());
            }
        }
        match draw(self.windows[window_index].displays, value) {
            Ok(displays) => {
                self.put_window(window, RadioPanelWindow { displays });
                proof {
                    let content = window_of(drawn(old(self).displays(window), value@));
                    assert(displays@ =~= content.displays@);
                    assert(displays == content.displays);
                }
                Ok(())
            },
            Err(error) => Err(error),
        }
    }

    /// Shows one value in each of two windows, then encodes the panel into its feature
    /// report. Both windows are tried; the first value with which something is wrong is
    /// reported, and its window stays as it is.
    pub fn show_pair(
        &mut self,
        left_window: Window,
        left_value: &str,
        right_window: Window,
        right_value: &str,
    ) -> (result: Result<[u8; 23], DisplayError>)
        ensures
            *final(self) == old(self).with_text(left_window, left_value@).with_text(
                right_window,
                right_value@,
            ),
            match result {
                Ok(report) => first_error(text_error(left_value@), text_error(right_value@))
                    is None && report@ == final(self).report(),
                Err(error) => first_error(text_error(left_value@), text_error(right_value@))
                    == Some(error),
            },
            old(self).is_well_formed() ==> final(self).is_well_formed(),
    {
        let left = self.set_window(left_window, left_value);
        let right = self.set_window(right_window, right_value);
        match left {
            Err(error) => Err(error),
            Ok(_) => match right {
                Err(error) => Err(error),
                Ok(_) => Ok(self.update_all_windows()),
            },
        }
    }

    /// Replaces what a window shows
    fn put_window(&mut self, window: Window, content: RadioPanelWindow)
        ensures
            *final(self) == old(self).with_window(window, content),
            final(self).displays(window) == content.displays@,
            forall|other: Window| other != window ==> final(self).displays(other) == old(
                self,
            ).displays(other),
            old(self).is_well_formed() && content.is_well_formed()
                ==> final(self).is_well_formed(),
    {
        let window_index = window.index();
        self.windows[window_index] = content;
        proof {
            let expected = old(self).with_window(window, content);
            assert(self.windows@ =~= expected.windows@);
            assert(self.windows == expected.windows);
            if old(self).is_well_formed() && content.is_well_formed() {
                assert forall|w: int| 0 <= w < 4 implies (#[trigger] self.windows@[w])
                    .is_well_formed() by {
                    if w != window_index {
                        assert(self.windows@[w] == old(self).windows@[w]);
                    }
                }
            }
        }
    }

    /// Encodes what all windows show into the feature report that shows it on the hardware
    pub fn update_all_windows(&self) -> (output_buffer: [u8; 23])
        ensures
            output_buffer@ == self.report(),
    {
        let mut output_buffer = [DIGIT_BLANK;CONTROL_MESSAGE_SIZE];

        // Turn stored data into data buffer to send to device
        // Encoded like this (x meaning irrelevant)
        // 0000xxxx Binary encoded decimal (0x00 shows 0, 0x01 shows 1, etc.)
        // 00001111 Turns the number off
        // 1101xxxx Adds a dot to the number
        // 1110xxxx Shows dash/minus
        let mut window_index: usize = 0;
        while window_index < 4
            invariant
                window_index <= 4,
                forall|i: int| 1 <= i <= 5 * window_index ==> output_buffer@[i] == self.report()[i],
                forall|i: int| 5 * window_index < i < 23 ==> output_buffer@[i] == DIGIT_BLANK,
            decreases 4 - window_index,
        {
            let window = self.windows[window_index];
            let mut display_index: usize = 0;
            while display_index < 5
                invariant
                    window_index < 4,
                    display_index <= 5,
                    window == self.windows@[window_index as int],
                    forall|i: int|
                        1 <= i <= 5 * window_index + display_index ==> output_buffer@[i]
                            == self.report()[i],
                    forall|i: int|
                        5 * window_index + display_index < i < 23 ==> output_buffer@[i]
                            == DIGIT_BLANK,
                decreases 5 - display_index,
            {
                // the first byte of the report is not a display: every display is offset by 1
                output_buffer[(5 * window_index) + (display_index + 1)] =
                    window.displays[display_index].get_data();
                display_index = display_index + 1;
            }
            window_index = window_index + 1;
        }

        output_buffer[0] = 0;
        proof {
            assert(output_buffer@ =~= self.report());
        }
        output_buffer
    }

    /// Clears all windows and encodes the empty panel into its feature report
    pub fn clear_all_windows(&mut self) -> (output_buffer: [u8; 23])
        ensures
            *final(self) == blank_panel(),
            output_buffer@ == final(self).report(),
    {
        *self = RadioPanel::new();
        self.update_all_windows()
    }
}

} // verus!
