//! Tests of the buffer/scroll engine: the ingestion scenarios, scrolling at
//! the bottom edge, ring-buffer wrap-around, and color handling.

use myros::color::{Color, Colors};
use myros::console::ConsoleData;
use myros::glyph::Glyph;
use myros::{BUFFER_LINES, HEIGHT, WIDTH};

#[test]
fn initial_screen_is_blank() {
    let c = ConsoleData::new();
    assert_eq!(c.location().line(), 0);
    assert_eq!(c.location().col(), 0);
    assert_eq!(c.colors(), Colors::new());
    for row in 0..HEIGHT {
        for col in 0..WIDTH {
            let cell = c.surface_cell(row, col);
            assert_eq!(cell.glyph, Glyph::from_index(0));
            assert_eq!(cell.colors, Colors::new());
        }
    }
}

#[test]
fn ingest_a_tab_b_newline() {
    let mut c = ConsoleData::new();
    c.write_str("A\tB\n");
    assert_eq!(c.surface_cell(0, 0).glyph, Glyph::from_index(b'A'));
    for col in 1..8 {
        assert_eq!(c.surface_cell(0, col).glyph, Glyph::from_index(0));
    }
    assert_eq!(c.surface_cell(0, 8).glyph, Glyph::from_index(b'B'));
    assert_eq!(c.location().line(), 1);
    assert_eq!(c.location().col(), 0);
}

#[test]
fn carriage_return_is_ignored() {
    let mut c = ConsoleData::new();
    c.write_str("AB\rC");
    assert_eq!(c.surface_cell(0, 0).glyph, Glyph::from_index(b'A'));
    assert_eq!(c.surface_cell(0, 1).glyph, Glyph::from_index(b'B'));
    assert_eq!(c.surface_cell(0, 2).glyph, Glyph::from_index(b'C'));
    assert_eq!(c.location().col(), 3);
}

#[test]
fn unmappable_scalar_becomes_replacement() {
    let mut c = ConsoleData::new();
    c.write_str("\u{20ac}");
    assert_eq!(c.surface_cell(0, 0).glyph, Glyph::from_index(0xfe));
}

/// A single row crossing repaints the window, but near the top of the
/// screen the window still starts at row 0.
#[test]
fn first_row_crossing_keeps_row_zero_visible() {
    let mut c = ConsoleData::new();
    let mut line = String::new();
    for _ in 0..WIDTH {
        line.push('x');
    }
    c.write_str(&line);
    c.write_str("y");
    assert_eq!(c.location().line(), 1);
    assert_eq!(c.location().col(), 1);
    assert_eq!(c.surface_cell(0, 0).glyph, Glyph::from_index(b'x'));
    assert_eq!(c.surface_cell(1, 0).glyph, Glyph::from_index(b'y'));
}

/// Passing the bottom edge of the screen scrolls: row 0 leaves the window
/// and the surface's top row mirrors buffer row 1.
#[test]
fn scroll_when_passing_bottom_edge() {
    let mut c = ConsoleData::new();
    // One distinct letter per row, for HEIGHT rows; the last newline pushes
    // the cursor past the bottom edge.
    for r in 0..HEIGHT {
        let letter = (b'a' + (r % 26) as u8) as char;
        let mut s = String::new();
        s.push(letter);
        s.push('\n');
        c.write_str(&s);
    }
    assert_eq!(c.location().line(), HEIGHT);
    // Row 0 (letter 'a') left the window: the top surface row now shows the
    // second row written.
    assert_eq!(c.surface_cell(0, 0).glyph, Glyph::from_index(b'b'));
    // The bottom surface row is the freshly cleared row the cursor sits on.
    assert_eq!(c.surface_cell(HEIGHT - 1, 0).glyph, Glyph::from_index(0));
    // And the surface's top row mirrors buffer row 1.
    assert_eq!(c.surface_cell(0, 0), c.buffer_cell(1, 0));
}

/// Ingesting more characters than the whole ring holds stays in bounds: the
/// row number keeps counting while buffer rows are reused modulo the ring
/// size.
#[test]
fn ring_buffer_wraps_without_fault() {
    let mut c = ConsoleData::new();
    let total_rows = BUFFER_LINES + 4;
    let mut s = String::new();
    for _ in 0..total_rows * WIDTH {
        s.push('z');
    }
    c.write_str(&s);
    assert_eq!(c.location().line(), total_rows);
    assert_eq!(c.location().col(), 0);
    // The rows above the cursor still show the written glyph.
    assert_eq!(c.surface_cell(HEIGHT - 2, 0).glyph, Glyph::from_index(b'z'));
    // The cursor's own row was cleared when it was entered.
    assert_eq!(c.surface_cell(HEIGHT - 1, 0).glyph, Glyph::from_index(0));
}

#[test]
fn colors_are_applied_to_new_cells() {
    let mut c = ConsoleData::new();
    let loud = Colors::new_from(Color::White, Color::Red);
    c.set_colors(loud);
    c.write_str("Q");
    assert_eq!(c.surface_cell(0, 0).colors, loud);
    assert_eq!(c.surface_cell(0, 0).glyph, Glyph::from_index(b'Q'));
    // Cells never written keep the colors they were cleared with.
    assert_eq!(c.surface_cell(0, 1).colors, Colors::new());
}

#[test]
fn writing_is_cumulative_across_calls() {
    let mut c = ConsoleData::new();
    c.write_str("ab");
    c.write_str("cd");
    assert_eq!(c.surface_cell(0, 0).glyph, Glyph::from_index(b'a'));
    assert_eq!(c.surface_cell(0, 1).glyph, Glyph::from_index(b'b'));
    assert_eq!(c.surface_cell(0, 2).glyph, Glyph::from_index(b'c'));
    assert_eq!(c.surface_cell(0, 3).glyph, Glyph::from_index(b'd'));
    assert_eq!(c.location().col(), 4);
}
