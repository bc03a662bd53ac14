//! A text console driver: a fixed 256-symbol character set with encode and
//! decode, packed display colors, cursor arithmetic over a flat offset, and a
//! ring-buffered scroll engine that mirrors a sliding window of rows onto a
//! write-only output surface, behind a lock-protected handle.

use vstd::prelude::*;

pub mod color;
pub mod console;
pub mod cursor;
pub mod glyph;
pub mod sync;

verus! {

/// The number of glyphs that fit in one line on the screen.
pub const WIDTH: usize = 80;

/// The number of lines on the screen.
pub const HEIGHT: usize = 25;

/// The number of lines in the scroll-back buffer: one more than the screen,
/// so the row being written is decoupled from the rows already flushed.
pub const BUFFER_LINES: usize = 26;

/// The number of glyphs between tab stops.
pub const TAB_WIDTH: usize = 8;

} // verus!
