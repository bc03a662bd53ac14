//! Tests of the synchronized console handle: the lock-protected facade, and
//! string-granularity serialization of concurrent ingestions.

use myros::glyph::Glyph;
use myros::sync::Console;
use myros::{HEIGHT, WIDTH};
use std::sync::Arc;

#[test]
fn handle_starts_blank_and_ingests() {
    let console = Console::new();
    console.write_str("hi");
    assert_eq!(
        console.surface_cell(0, 0).unwrap().glyph,
        Glyph::from_index(b'h')
    );
    assert_eq!(
        console.surface_cell(0, 1).unwrap().glyph,
        Glyph::from_index(b'i')
    );
    assert_eq!(console.location().col(), 2);
}

#[test]
fn out_of_screen_reads_are_refused() {
    let console = Console::new();
    assert!(console.surface_cell(HEIGHT, 0).is_none());
    assert!(console.surface_cell(0, WIDTH).is_none());
    assert!(console.surface_cell(0, 0).is_some());
}

/// Ingestions through the shared handle serialize at string granularity:
/// writers hand the handle whole rows of one letter in turn, and no row
/// ever mixes letters from two writers.
#[test]
fn interleaved_ingestions_never_mix_within_a_row() {
    let console = Arc::new(Console::new());
    let mut strings = Vec::new();
    for t in 0..4u8 {
        let letter = (b'A' + t) as char;
        let mut s = String::new();
        for _ in 0..WIDTH - 1 {
            s.push(letter);
        }
        s.push('\n');
        strings.push(s);
    }
    for round in 0..8 {
        for t in 0..4 {
            console.write_str(&strings[(t + round) % 4]);
        }
    }
    // Every surface row is homogeneous: one writer's letter across the row,
    // with the last column blank, or a fully blank row.
    for row in 0..HEIGHT {
        let first = console.surface_cell(row, 0).unwrap().glyph;
        for col in 1..WIDTH - 1 {
            assert_eq!(console.surface_cell(row, col).unwrap().glyph, first);
        }
        assert_eq!(
            console.surface_cell(row, WIDTH - 1).unwrap().glyph,
            Glyph::from_index(0)
        );
    }
}
