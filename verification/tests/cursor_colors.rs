//! Tests of cursor arithmetic and of the packed color attributes.

use myros::color::{Color, Colors};
use myros::cursor::Location;

#[test]
fn new_location_is_origin() {
    let l = Location::new();
    assert_eq!(l.col(), 0);
    assert_eq!(l.line(), 0);
}

#[test]
fn advance_splits_into_line_and_column() {
    let l = Location::new().advance(2 * 80 + 5);
    assert_eq!(l.line(), 2);
    assert_eq!(l.col(), 5);
}

#[test]
fn next_line_always_lands_on_column_zero() {
    for off in [0usize, 1, 5, 79, 80, 81, 159, 4000, 123_456] {
        let l = Location::new().advance(off);
        let n = l.next_line();
        assert_eq!(n.col(), 0);
        assert_eq!(n.line(), l.line() + 1);
    }
}

#[test]
fn next_tab_advances_to_a_strict_multiple_of_eight() {
    for off in [0usize, 1, 5, 7, 8, 9, 16, 63, 64, 71] {
        let l = Location::new().advance(off);
        let n = l.next_tab();
        assert_eq!(n.col() % 8, 0);
        assert!(n.col() > l.col());
        assert!(n.col() <= l.col() + 8);
    }
    // On a tab stop the cursor moves a whole tab width, never zero.
    assert_eq!(Location::new().advance(8).next_tab().col(), 16);
    // In the last tab field of a row the next stop is column 0 of the next
    // row.
    let n = Location::new().advance(79).next_tab();
    assert_eq!(n.col(), 0);
    assert_eq!(n.line(), 1);
}

#[test]
fn colors_pack_and_unpack() {
    let c = Colors::new_from(Color::Yellow, Color::Blue);
    assert_eq!(c.text(), Color::Yellow);
    assert_eq!(c.background(), Color::Blue);
}

#[test]
fn default_colors_are_light_gray_on_black() {
    let c = Colors::new();
    assert_eq!(c.text(), Color::LightGray);
    assert_eq!(c.background(), Color::Black);
    assert_eq!(Colors::default(), c);
}

#[test]
fn setting_one_nibble_leaves_the_other() {
    let mut c = Colors::new_from(Color::Red, Color::Cyan);
    c.set_text_color(Color::White);
    assert_eq!(c.text(), Color::White);
    assert_eq!(c.background(), Color::Cyan);
    c.set_background_color(Color::Green);
    assert_eq!(c.background(), Color::Green);
    assert_eq!(c.text(), Color::White);
}

#[test]
fn every_color_code_round_trips() {
    let all = [
        Color::Black,
        Color::Blue,
        Color::Green,
        Color::Cyan,
        Color::Red,
        Color::Magenta,
        Color::Brown,
        Color::LightGray,
        Color::DarkGray,
        Color::LightBlue,
        Color::LightGreen,
        Color::LightCyan,
        Color::LightRed,
        Color::LightMagenta,
        Color::Yellow,
        Color::White,
    ];
    for (i, c) in all.iter().enumerate() {
        let packed = Colors::new_from(*c, Color::Black);
        assert_eq!(packed.text(), *c);
        assert_eq!(i, i);
    }
}
