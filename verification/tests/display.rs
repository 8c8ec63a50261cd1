use radio_panel::constants::{DIGIT_BLANK, DIGIT_DASH};
use radio_panel::display::{char_glyph_code, char_is_glyph, draw, DisplayError, RadioPanel};
use radio_panel::hardware::{RadioPanelWindow, SevenSegmentDisplay, Window};

fn slot(value: u8, has_decimal_point: bool) -> SevenSegmentDisplay {
    SevenSegmentDisplay { value, has_decimal_point }
}

fn blank() -> SevenSegmentDisplay {
    slot(DIGIT_BLANK, false)
}

fn window(panel: &RadioPanel, window: Window) -> [SevenSegmentDisplay; 5] {
    panel.windows[window.index()].displays
}

#[test]
fn window_text_with_point_marks_the_preceding_digit() {
    let mut panel = RadioPanel::new();
    assert_eq!(panel.set_window(Window::TopLeft, "1.23"), Ok(()));
    assert_eq!(
        window(&panel, Window::TopLeft),
        [slot(1, true), slot(2, false), slot(3, false), blank(), blank()]
    );
    assert_eq!(window(&panel, Window::TopRight), [blank(); 5]);
    assert_eq!(window(&panel, Window::BottomLeft), [blank(); 5]);
    assert_eq!(window(&panel, Window::BottomRight), [blank(); 5]);
}

#[test]
fn new_panel_is_blank() {
    let panel = RadioPanel::new();
    for w in [Window::TopLeft, Window::TopRight, Window::BottomLeft, Window::BottomRight] {
        assert_eq!(window(&panel, w), [blank(); 5]);
    }
}

#[test]
fn set_window_clears_what_was_shown() {
    let mut panel = RadioPanel::new();
    assert_eq!(panel.set_window(Window::BottomRight, "98765"), Ok(()));
    assert_eq!(panel.set_window(Window::BottomRight, "1."), Ok(()));
    assert_eq!(
        window(&panel, Window::BottomRight),
        [slot(1, true), blank(), blank(), blank(), blank()]
    );
}

#[test]
fn set_window_additively_keeps_what_it_does_not_draw_over() {
    let mut panel = RadioPanel::new();
    assert_eq!(panel.set_window(Window::TopRight, "9.8765"), Ok(()));
    assert_eq!(panel.set_window_additively(Window::TopRight, "1-"), Ok(()));
    assert_eq!(
        window(&panel, Window::TopRight),
        [slot(1, false), slot(DIGIT_DASH, false), slot(7, false), slot(6, false), slot(5, false)]
    );
}

#[test]
fn every_display_can_have_a_point() {
    let mut panel = RadioPanel::new();
    assert_eq!(panel.set_window(Window::TopLeft, "1.2.3.4.5."), Ok(()));
    assert_eq!(
        window(&panel, Window::TopLeft),
        [slot(1, true), slot(2, true), slot(3, true), slot(4, true), slot(5, true)]
    );
}

#[test]
fn blanks_and_dashes_take_a_display() {
    let mut panel = RadioPanel::new();
    assert_eq!(panel.set_window(Window::TopLeft, "12 45"), Ok(()));
    assert_eq!(
        window(&panel, Window::TopLeft),
        [slot(1, false), slot(2, false), blank(), slot(4, false), slot(5, false)]
    );
    assert_eq!(panel.set_window(Window::TopLeft, "-0 .9"), Ok(()));
    assert_eq!(
        window(&panel, Window::TopLeft),
        [slot(DIGIT_DASH, false), slot(0, false), slot(DIGIT_BLANK, true), slot(9, false), blank()]
    );
}

#[test]
fn point_at_the_start_is_misplaced() {
    let mut panel = RadioPanel::new();
    panel.set_window(Window::TopLeft, "123").unwrap();
    let before = panel;
    assert_eq!(panel.set_window(Window::TopLeft, ".5"), Err(DisplayError::MisplacedPoint));
    assert_eq!(panel, before);
}

#[test]
fn point_behind_a_point_is_misplaced() {
    let mut panel = RadioPanel::new();
    assert_eq!(panel.set_window(Window::TopLeft, "1..2"), Err(DisplayError::MisplacedPoint));
    assert_eq!(panel, RadioPanel::new());
}

#[test]
fn sixth_character_is_too_long() {
    let mut panel = RadioPanel::new();
    assert_eq!(panel.set_window(Window::BottomLeft, "100000."), Err(DisplayError::TooLong));
    assert_eq!(panel.set_window(Window::BottomLeft, "12345x"), Err(DisplayError::TooLong));
    assert_eq!(panel, RadioPanel::new());
    assert_eq!(panel.set_window(Window::BottomLeft, "12345."), Ok(()));
}

#[test]
fn other_characters_are_unknown() {
    let mut panel = RadioPanel::new();
    assert_eq!(panel.set_window(Window::TopLeft, "12a"), Err(DisplayError::UnknownCharacter));
    assert_eq!(panel.set_window(Window::TopLeft, "+1"), Err(DisplayError::UnknownCharacter));
    assert_eq!(panel.set_window_additively(Window::TopLeft, "é"), Err(DisplayError::UnknownCharacter));
    assert_eq!(panel, RadioPanel::new());
}

#[test]
fn first_fault_is_the_one_reported() {
    let mut panel = RadioPanel::new();
    assert_eq!(panel.set_window(Window::TopLeft, "x..123456"), Err(DisplayError::UnknownCharacter));
    assert_eq!(panel.set_window(Window::TopLeft, "1..x"), Err(DisplayError::MisplacedPoint));
}

#[test]
fn draw_gives_the_displays_without_touching_a_panel() {
    let start = [slot(9, true); 5];
    assert_eq!(
        draw(start, "0.-"),
        Ok([slot(0, true), slot(DIGIT_DASH, false), slot(9, true), slot(9, true), slot(9, true)])
    );
    assert_eq!(draw(start, ""), Ok(start));
    assert_eq!(draw(start, "."), Err(DisplayError::MisplacedPoint));
}

#[test]
fn glyph_codes() {
    assert!(char_is_glyph('0') && char_is_glyph('9') && char_is_glyph(' ') && char_is_glyph('-'));
    assert!(!char_is_glyph('.') && !char_is_glyph('a') && !char_is_glyph('/') && !char_is_glyph(':'));
    assert_eq!(char_glyph_code('0'), 0);
    assert_eq!(char_glyph_code('7'), 7);
    assert_eq!(char_glyph_code('9'), 9);
    assert_eq!(char_glyph_code(' '), 0b0000_1111);
    assert_eq!(char_glyph_code('-'), 0b1110_0000);
}

#[test]
fn display_data_combines_value_and_point() {
    assert_eq!(slot(7, false).get_data(), 0x07);
    assert_eq!(slot(7, true).get_data(), 0xD7);
    assert_eq!(slot(0, true).get_data(), 0xD0);
    assert_eq!(slot(DIGIT_BLANK, false).get_data(), 0x0F);
    assert_eq!(slot(DIGIT_BLANK, true).get_data(), 0xDF);
    assert_eq!(slot(DIGIT_DASH, false).get_data(), 0xE0);
    assert_eq!(slot(DIGIT_DASH, true).get_data(), 0xF0);
}

#[test]
fn report_of_a_blank_panel() {
    let panel = RadioPanel::new();
    let report = panel.update_all_windows();
    assert_eq!(report.len(), 23);
    assert_eq!(report[0], 0);
    for i in 1..23 {
        assert_eq!(report[i], 0x0F);
    }
}

#[test]
fn report_holds_the_windows_in_turn_behind_a_zero_byte() {
    let mut panel = RadioPanel::new();
    panel.set_window(Window::TopLeft, "18.005").unwrap();
    panel.set_window(Window::TopRight, "-----").unwrap();
    panel.set_window(Window::BottomLeft, "1").unwrap();
    panel.set_window(Window::BottomRight, " 1.000").unwrap();
    let report = panel.update_all_windows();
    let expected: [u8; 23] = [
        0, 0x01, 0xD8, 0x00, 0x00, 0x05, 0xE0, 0xE0, 0xE0, 0xE0, 0xE0, 0x01, 0x0F, 0x0F, 0x0F,
        0x0F, 0x0F, 0xD1, 0x00, 0x00, 0x00, 0x0F, 0x0F,
    ];
    assert_eq!(report, expected);
}

#[test]
fn clear_all_windows_blanks_the_panel() {
    let mut panel = RadioPanel::new();
    panel.set_window(Window::TopLeft, "12345").unwrap();
    panel.set_window(Window::BottomRight, "-").unwrap();
    let report = panel.clear_all_windows();
    assert_eq!(panel, RadioPanel::new());
    assert_eq!(report, RadioPanel::new().update_all_windows());
}

#[test]
fn show_pair_draws_both_and_reports_the_first_fault() {
    let mut panel = RadioPanel::new();
    let report = panel.show_pair(Window::TopLeft, "1", Window::TopRight, "2.").unwrap();
    assert_eq!(report[1], 1);
    assert_eq!(report[6], 0xD2);
    assert_eq!(
        panel.show_pair(Window::TopLeft, "x", Window::TopRight, "3"),
        Err(DisplayError::UnknownCharacter)
    );
    assert_eq!(window(&panel, Window::TopLeft)[0], slot(1, false));
    assert_eq!(window(&panel, Window::TopRight)[0], slot(3, false));
    assert_eq!(
        panel.show_pair(Window::TopLeft, "4", Window::TopRight, "123456"),
        Err(DisplayError::TooLong)
    );
    assert_eq!(window(&panel, Window::TopLeft)[0], slot(4, false));
    assert_eq!(window(&panel, Window::TopRight)[0], slot(3, false));
}

#[test]
fn window_indices() {
    assert_eq!(Window::TopLeft.index(), 0);
    assert_eq!(Window::TopRight.index(), 1);
    assert_eq!(Window::BottomLeft.index(), 2);
    assert_eq!(Window::BottomRight.index(), 3);
    let window = RadioPanelWindow { displays: [blank(); 5] };
    assert_eq!(window.displays.len(), 5);
}
