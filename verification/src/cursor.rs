//! Cursor locations on the screen, kept as a single flat offset.
//!
//! The offset combines row and column: `row = offset / WIDTH`,
//! `column = offset % WIDTH`. The cursor only ever moves forward.

use vstd::prelude::*;
use crate::{TAB_WIDTH, WIDTH};

verus! {

/// A location on the screen, as a flat offset of `row * WIDTH + column`.
#[derive(Debug, Copy, Clone, Eq, PartialEq, Structural)]
pub struct Location(pub usize);

impl Location {
    /// Returns the location of the first character of the first line.
    pub fn new() -> (r: Location)
        ensures
            r.0 == 0,
    {
        Location(0)
    }

    /// Returns the horizontal offset from the left-most column of the screen.
    pub fn col(self) -> (c: usize)
        ensures
            c == self.0 % WIDTH,
            c < WIDTH,
    {
        self.0 % WIDTH
    }

    /// Returns the total number of lines printed.
    pub fn line(self) -> (l: usize)
        ensures
            l == self.0 / WIDTH,
    {
        self.0 / WIDTH
    }

    /// Returns the `Location` of the next tab stop: the nearest strictly
    /// larger offset that is a multiple of `TAB_WIDTH`. It always advances,
    /// by a full tab width when the offset is already on a tab stop.
    pub fn next_tab(self) -> (r: Location)
        requires
            self.0 + TAB_WIDTH <= usize::MAX,
        ensures
            r.0 == next_tab_offset(self.0 as nat),
            r.0 % TAB_WIDTH == 0,
            self.0 < r.0 <= self.0 + TAB_WIDTH,
            self.0 % TAB_WIDTH == 0 ==> r.0 == self.0 + TAB_WIDTH,
    {
        Location((self.0 - self.0 % TAB_WIDTH) + TAB_WIDTH)
    }

    /// Returns the `Location` of the beginning of the next line: column 0 of
    /// the following row, whatever the current column.
    pub fn next_line(self) -> (r: Location)
        requires
            self.0 + WIDTH <= usize::MAX,
        ensures
            r.0 == next_line_offset(self.0 as nat),
            r.0 % WIDTH == 0,
            r.0 / WIDTH == self.0 / WIDTH + 1,
    {
        Location((self.0 - self.0 % WIDTH) + WIDTH)
    }

    /// Advances the location `n` glyphs forward.
    pub fn advance(self, n: usize) -> (r: Location)
        requires
            self.0 + n <= usize::MAX,
        ensures
            r.0 == self.0 + n,
    {
        Location(self.0 + n)
    }
}

/// The offset of the next tab stop after `offset`.
pub open spec fn next_tab_offset(offset: nat) -> nat {
    ((offset - offset % (TAB_WIDTH as nat)) + TAB_WIDTH) as nat
}

/// The offset of column 0 of the row after the one holding `offset`.
pub open spec fn next_line_offset(offset: nat) -> nat {
    ((offset - offset % (WIDTH as nat)) + WIDTH) as nat
}

/// A row start always sits at column 0, and a tab stop always advances the
/// column to a strict multiple of the tab width above the current column.
/// The column statement needs the cursor left of the last tab stop of its
/// row: from there a tab wraps to column 0 of the next row instead.
pub proof fn lemma_cursor_jumps(loc: Location)
    requires
        loc.0 + WIDTH <= usize::MAX,
    ensures
        next_line_offset(loc.0 as nat) % (WIDTH as nat) == 0,
        next_line_offset(loc.0 as nat) / (WIDTH as nat) == loc.0 as nat / (WIDTH as nat) + 1,
        next_tab_offset(loc.0 as nat) % (TAB_WIDTH as nat) == 0,
        loc.0 < next_tab_offset(loc.0 as nat) <= loc.0 + TAB_WIDTH,
        loc.0 as nat % (WIDTH as nat) < WIDTH - TAB_WIDTH ==> {
            let col = loc.0 as nat % (WIDTH as nat);
            let tab_col = next_tab_offset(loc.0 as nat) % (WIDTH as nat);
            &&& tab_col % (TAB_WIDTH as nat) == 0
            &&& col < tab_col <= col + TAB_WIDTH
        },
{
    let w = WIDTH as nat;
    let t = TAB_WIDTH as nat;
    let off = loc.0 as nat;
    assert(next_line_offset(off) == (off / w + 1) * w) by {
        assert(off == w * (off / w) + off % w) by {
            vstd::arithmetic::div_mod::lemma_fundamental_div_mod(off as int, w as int);
        }
    }
    assert(((off / w + 1) * w) % w == 0) by {
        vstd::arithmetic::div_mod::lemma_mod_multiples_basic((off / w + 1) as int, w as int);
    }
    assert(((off / w + 1) * w) / w == off / w + 1) by {
        vstd::arithmetic::div_mod::lemma_div_by_multiple((off / w + 1) as int, w as int);
    }
    assert(next_tab_offset(off) == (off / t + 1) * t) by {
        assert(off == t * (off / t) + off % t) by {
            vstd::arithmetic::div_mod::lemma_fundamental_div_mod(off as int, t as int);
        }
    }
    assert(((off / t + 1) * t) % t == 0) by {
        vstd::arithmetic::div_mod::lemma_mod_multiples_basic((off / t + 1) as int, t as int);
    }
    if off % w < w - t {
        let col = off % w;
        let row_start = (off - col) as nat;
        assert(row_start % w == 0) by {
            vstd::arithmetic::div_mod::lemma_fundamental_div_mod(off as int, w as int);
            vstd::arithmetic::div_mod::lemma_mod_multiples_basic((off / w) as int, w as int);
        }
        assert(row_start % t == 0) by {
            vstd::arithmetic::div_mod::lemma_fundamental_div_mod(row_start as int, w as int);
            assert(row_start == w * (row_start / w));
            assert(w == 10 * t);
            vstd::arithmetic::div_mod::lemma_mod_multiples_basic((10 * (row_start / w)) as int, t as int);
        }
        assert(off % t == col % t) by {
            vstd::arithmetic::div_mod::lemma_mod_adds(row_start as int, col as int, t as int);
        }
        let tab_target = next_tab_offset(off);
        assert(tab_target == row_start + (col - col % t) + t);
        assert(tab_target % w == (col - col % t) + t) by {
            vstd::arithmetic::div_mod::lemma_mod_adds(
                row_start as int,
                ((col - col % t) + t) as int,
                w as int,
            );
            vstd::arithmetic::div_mod::lemma_small_mod(((col - col % t) + t) as nat, w);
        }
        assert((((col - col % t) + t) as nat) % t == 0) by {
            assert(col == t * (col / t) + col % t) by {
                vstd::arithmetic::div_mod::lemma_fundamental_div_mod(col as int, t as int);
            }
            assert((col - col % t) + t == (col / t + 1) * t);
            vstd::arithmetic::div_mod::lemma_mod_multiples_basic((col / t + 1) as int, t as int);
        }
    }
}

} // verus!
