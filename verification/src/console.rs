//! The console buffer/scroll engine.
//!
//! The engine owns a ring buffer of `BUFFER_LINES` rows and an in-memory
//! output surface of `HEIGHT` rows, the model of the memory-mapped display
//! region. It ingests one scalar at a time: layout characters move the
//! cursor, every other scalar becomes a cell in the buffer. Whenever the
//! cursor crosses into a new row, the freshly entered buffer row is cleared
//! and the whole visible window is repainted onto the surface; otherwise only
//! the row being written is flushed, once per ingestion call.

use vstd::prelude::*;
use crate::color::{default_colors, Colors};
use crate::cursor::Location;
use crate::glyph::{glyph_index_of, Codec, Glyph, REPLACEMENT_INDEX};
use crate::{BUFFER_LINES, HEIGHT, WIDTH};

verus! {

/// The combination of a `Glyph` and `Colors`: the atomic screen cell.
#[derive(Debug, Copy, Clone, Eq, PartialEq, Structural)]
pub struct ColoredGlyph {
    /// The glyph shown in the cell.
    pub glyph: Glyph,
    /// The colors the cell is shown in.
    pub colors: Colors,
}

/// The blank cell: glyph 0 under the given colors.
pub open spec fn null_cell(colors: Colors) -> ColoredGlyph {
    ColoredGlyph { glyph: Glyph(0u8), colors }
}

impl ColoredGlyph {
    /// Returns the blank cell under the given colors.
    pub fn null(colors: Colors) -> (c: ColoredGlyph)
        ensures
            c == null_cell(colors),
    {
        ColoredGlyph { glyph: Glyph(0), colors }
    }
}

/// The abstract state of the console: the ring buffer rows, the output
/// surface rows, the colors for new cells, and the cursor offset.
#[verifier::ext_equal]
pub ghost struct ScreenState {
    /// The ring buffer, `BUFFER_LINES` rows of `WIDTH` cells.
    pub buffer: Seq<Seq<ColoredGlyph>>,
    /// The output surface, `HEIGHT` rows of `WIDTH` cells.
    pub surface: Seq<Seq<ColoredGlyph>>,
    /// The colors given to newly written or cleared cells.
    pub colors: Colors,
    /// The cursor, as a flat offset.
    pub loc: nat,
}

/// A whole row of blank cells.
pub open spec fn blank_row(colors: Colors) -> Seq<ColoredGlyph> {
    Seq::new(WIDTH as nat, |j: int| null_cell(colors))
}

/// The glyph a scalar is rendered as: its own glyph when the table has one,
/// the replacement glyph otherwise. Rendering never fails.
pub open spec fn glyph_for_char(c: char) -> Glyph {
    match glyph_index_of(c) {
        Some(i) => Glyph(i),
        None => Glyph(REPLACEMENT_INDEX),
    }
}

/// Whether a scalar only moves the cursor instead of producing a glyph.
pub open spec fn is_layout_char(c: char) -> bool {
    c == '\n' || c == '\t' || c == '\r'
}

/// The cursor offset after ingesting one scalar from `loc`: a newline jumps
/// to the next row start, a tab to the next tab stop, a carriage return
/// stays, anything else advances one cell.
pub open spec fn target_of(loc: nat, c: char) -> nat {
    if c == '\n' {
        crate::cursor::next_line_offset(loc)
    } else if c == '\t' {
        crate::cursor::next_tab_offset(loc)
    } else if c == '\r' {
        loc
    } else {
        loc + 1
    }
}

/// The buffer after writing one cell at the cursor: row `loc / WIDTH` taken
/// modulo the ring size, column `loc % WIDTH`.
pub open spec fn write_cell(
    buffer: Seq<Seq<ColoredGlyph>>,
    loc: nat,
    cell: ColoredGlyph,
) -> Seq<Seq<ColoredGlyph>> {
    let row = ((loc / (WIDTH as nat)) % (BUFFER_LINES as nat)) as int;
    let col = (loc % (WIDTH as nat)) as int;
    buffer.update(row, buffer[row].update(col, cell))
}

/// The top row of the visible window once the cursor sits on `line`: the
/// window ends at the cursor's row and is clipped at row 0.
pub open spec fn top_row_of(line: nat) -> nat {
    if line + 1 >= HEIGHT {
        (line + 1 - HEIGHT) as nat
    } else {
        0
    }
}

/// The visible window: the `HEIGHT` buffer rows ending at `line`, in
/// top-to-bottom order, each read through the ring.
pub open spec fn window(buffer: Seq<Seq<ColoredGlyph>>, line: nat) -> Seq<Seq<ColoredGlyph>> {
    Seq::new(
        HEIGHT as nat,
        |r: int| buffer[(top_row_of(line) + r) % (BUFFER_LINES as int)],
    )
}

/// One ingestion step. The scalar is written (unless it only moves the
/// cursor) at the old cursor, then the cursor commits to its target; when it
/// crosses into a new row, that row's buffer slot is cleared and the whole
/// window is repainted.
pub open spec fn step(s: ScreenState, c: char) -> ScreenState {
    let t = target_of(s.loc, c);
    let b = if is_layout_char(c) {
        s.buffer
    } else {
        write_cell(s.buffer, s.loc, ColoredGlyph { glyph: glyph_for_char(c), colors: s.colors })
    };
    if t / (WIDTH as nat) > s.loc / (WIDTH as nat) {
        let line = t / (WIDTH as nat);
        let b2 = b.update((line % (BUFFER_LINES as nat)) as int, blank_row(s.colors));
        ScreenState { buffer: b2, surface: window(b2, line), colors: s.colors, loc: t }
    } else {
        ScreenState { buffer: b, surface: s.surface, colors: s.colors, loc: t }
    }
}

/// The state after ingesting a whole sequence of scalars, one step each.
pub open spec fn steps(s: ScreenState, cs: Seq<char>) -> ScreenState
    decreases cs.len(),
{
    if cs.len() == 0 {
        s
    } else {
        steps(step(s, cs[0]), cs.drop_first())
    }
}

/// The final single-row flush of an ingestion call: the cursor's buffer row
/// is copied onto the surface row it is visible in.
pub open spec fn flushed(s: ScreenState) -> ScreenState {
    let line = s.loc / (WIDTH as nat);
    let scr = if line < (HEIGHT - 1) as nat {
        line as int
    } else {
        HEIGHT - 1
    };
    ScreenState {
        surface: s.surface.update(scr, s.buffer[(line % (BUFFER_LINES as nat)) as int]),
        ..s
    }
}

/// A whole ingestion call: every scalar stepped through, then one final
/// single-row flush.
pub open spec fn ingest(s: ScreenState, cs: Seq<char>) -> ScreenState {
    flushed(steps(s, cs))
}

/// The state the console starts in: a blank buffer and a blank window under
/// the default colors, the cursor at the first cell.
pub open spec fn initial_state() -> ScreenState {
    let b = Seq::new(BUFFER_LINES as nat, |r: int| blank_row(default_colors()));
    ScreenState { buffer: b, surface: window(b, 0), colors: default_colors(), loc: 0 }
}

/// Stepping a sequence extended by one scalar is stepping the sequence and
/// then the scalar.
pub proof fn lemma_steps_snoc(s: ScreenState, cs: Seq<char>, c: char)
    ensures
        steps(s, cs.push(c)) == step(steps(s, cs), c),
    decreases cs.len(),
{
    if cs.len() == 0 {
        assert(cs.push(c)[0] == c);
        assert(cs.push(c).drop_first() =~= Seq::<char>::empty());
        assert(steps(s, cs.push(c)) == steps(step(s, c), cs.push(c).drop_first()));
        assert(steps(s, cs) == s);
    } else {
        assert(cs.push(c)[0] == cs[0]);
        assert(cs.push(c).drop_first() =~= cs.drop_first().push(c));
        lemma_steps_snoc(step(s, cs[0]), cs.drop_first(), c);
        assert(steps(s, cs.push(c)) == steps(step(s, cs[0]), cs.drop_first().push(c)));
        assert(steps(s, cs) == steps(step(s, cs[0]), cs.drop_first()));
    }
}

/// One step advances the cursor by at most a full row width.
pub proof fn lemma_step_loc_bound(s: ScreenState, c: char)
    ensures
        step(s, c).loc <= s.loc + WIDTH,
        step(s, c).loc >= s.loc,
{
}

/// Stepping a concatenation is stepping the first part, then the second.
pub proof fn lemma_steps_app(s: ScreenState, a: Seq<char>, b: Seq<char>)
    ensures
        steps(s, a + b) == steps(steps(s, a), b),
    decreases a.len(),
{
    if a.len() == 0 {
        assert(a + b =~= b);
        assert(steps(s, a) == s);
    } else {
        assert((a + b)[0] == a[0]);
        assert((a + b).drop_first() =~= a.drop_first() + b);
        lemma_steps_app(step(s, a[0]), a.drop_first(), b);
        assert(steps(s, a + b) == steps(step(s, a[0]), (a + b).drop_first()));
        assert(steps(s, a) == steps(step(s, a[0]), a.drop_first()));
    }
}

/// Glyph-producing scalars that stay strictly inside the cursor's row only
/// fill cells and advance the cursor: no row is crossed, nothing is
/// repainted or cleared, and every other ring row keeps its contents.
pub proof fn lemma_steps_within_row(s: ScreenState, cs: Seq<char>)
    requires
        shape_ok(s),
        forall|i: int| 0 <= i < cs.len() ==> !is_layout_char(#[trigger] cs[i]),
        s.loc % (WIDTH as nat) + cs.len() < WIDTH,
    ensures
        steps(s, cs).loc == s.loc + cs.len(),
        steps(s, cs).surface == s.surface,
        steps(s, cs).colors == s.colors,
        steps(s, cs).buffer.len() == s.buffer.len(),
        forall|r: int|
            0 <= r < s.buffer.len() && r != ((s.loc / (WIDTH as nat)) % (
            BUFFER_LINES as nat)) as int ==> steps(s, cs).buffer[r] == s.buffer[r],
    decreases cs.len(),
{
    let w = WIDTH as nat;
    if cs.len() > 0 {
        let c = cs[0];
        assert(!is_layout_char(c));
        assert(target_of(s.loc, c) == s.loc + 1);
        assert((s.loc + 1) / w == s.loc / w && (s.loc + 1) % w == s.loc % w + 1) by {
            vstd::arithmetic::div_mod::lemma_fundamental_div_mod(s.loc as int, w as int);
            vstd::arithmetic::div_mod::lemma_fundamental_div_mod_converse(
                (s.loc + 1) as int,
                w as int,
                (s.loc / w) as int,
                (s.loc % w + 1) as int,
            );
        }
        let s1 = step(s, c);
        assert(s1.loc == s.loc + 1 && s1.surface == s.surface && s1.colors == s.colors);
        let ring = ((s.loc / w) % (BUFFER_LINES as nat)) as int;
        let cell = ColoredGlyph { glyph: glyph_for_char(c), colors: s.colors };
        let col = (s.loc % w) as int;
        assert(s1.buffer == s.buffer.update(ring, s.buffer[ring].update(col, cell)));
        lemma_step_preserves_shape(s, c);
        assert(s1.buffer.len() == s.buffer.len());
        lemma_steps_within_row(s1, cs.drop_first());
        assert(steps(s, cs) == steps(s1, cs.drop_first()));
        assert(((s1.loc / w) % (BUFFER_LINES as nat)) as int == ring);
        assert forall|r: int| 0 <= r < s.buffer.len() && r != ring implies steps(
            s,
            cs,
        ).buffer[r] == s.buffer[r] by {
            assert(steps(s, cs).buffer[r] == s1.buffer[r]);
            assert(s1.buffer[r] == s.buffer[r]);
        }
    }
}

/// The scroll scenario at the bottom edge: with the cursor at column 0 of
/// the lowest visible row, a full row of glyph-producing scalars followed by
/// one more scalar scrolls the window. The window's top row becomes absolute
/// row 1, so buffer row 0 leaves it; the top surface row mirrors ring slot
/// 1; and the cursor ends one cell into the row below the old bottom edge.
pub proof fn lemma_scroll_at_bottom_edge(s: ScreenState, cs: Seq<char>)
    requires
        shape_ok(s),
        s.loc == ((HEIGHT - 1) * WIDTH) as nat,
        cs.len() == WIDTH + 1,
        forall|i: int| 0 <= i < cs.len() ==> !is_layout_char(#[trigger] cs[i]),
    ensures
        ingest(s, cs).loc == (HEIGHT * WIDTH + 1) as nat,
        ingest(s, cs).loc / (WIDTH as nat) == HEIGHT,
        ingest(s, cs).loc % (WIDTH as nat) == 1,
        top_row_of((ingest(s, cs).loc / (WIDTH as nat))) == 1,
        ingest(s, cs).surface[0] == s.buffer[1],
{
    let w = WIDTH as nat;
    let a = cs.take(WIDTH - 1);
    let c80 = cs[WIDTH - 1];
    let c81 = cs[WIDTH as int];
    let tail = seq![c80, c81];
    assert(cs =~= a + tail);
    lemma_steps_app(s, a, tail);
    lemma_steps_within_row(s, a);
    let s79 = steps(s, a);
    assert(s79.loc == (HEIGHT - 1) as nat * w + (WIDTH - 1) as nat);
    let s80 = step(s79, c80);
    let s81 = step(s80, c81);
    assert(steps(s79, tail) == s81) by {
        assert(tail[0] == c80 && tail.drop_first() =~= seq![c81]);
        assert(seq![c81][0] == c81 && seq![c81].drop_first() =~= Seq::<char>::empty());
        assert(steps(s79, tail) == steps(s80, tail.drop_first()));
        assert(steps(s80, seq![c81]) == steps(s81, Seq::<char>::empty()));
    }
    // The 80th scalar is written at column 79 and crosses into the next row:
    // ring slot 25 is cleared and the window is repainted from top row 1.
    assert(target_of(s79.loc, c80) == (HEIGHT * WIDTH) as nat);
    assert(s80.loc / w == HEIGHT && s79.loc / w == (HEIGHT - 1) as nat);
    assert(top_row_of(HEIGHT as nat) == 1);
    let b79 = s79.buffer;
    let b80 = s80.buffer;
    assert(s80.surface[0] == b80[(1int % (BUFFER_LINES as int))]);
    assert(s80.surface[0] == b80[1]);
    // Ring slot 1 is untouched throughout: the first 79 scalars write slot
    // 24, the crossing writes slot 24 and clears slot 25, the last scalar
    // writes slot 25.
    assert(b80[1] == b79[1]);
    assert(b79[1] == s.buffer[1]);
    // The 81st scalar stays in its row, so the surface is not repainted
    // again.
    assert(target_of(s80.loc, c81) == s80.loc + 1);
    assert((s80.loc + 1) / w == HEIGHT) by {
        vstd::arithmetic::div_mod::lemma_fundamental_div_mod_converse(
            (s80.loc + 1) as int,
            w as int,
            HEIGHT as int,
            1int,
        );
    }
    assert(s81.surface == s80.surface && s81.loc == s80.loc + 1);
    // The final flush touches the bottom surface row only.
    assert(ingest(s, cs).surface == s81.surface.update(HEIGHT - 1, s81.buffer[(s81.loc / w
        % (BUFFER_LINES as nat)) as int]));
    assert(ingest(s, cs).surface[0] == s81.surface[0]);
    assert((s81.loc / w) == HEIGHT) by {
        vstd::arithmetic::div_mod::lemma_fundamental_div_mod_converse(
            s81.loc as int,
            w as int,
            HEIGHT as int,
            1int,
        );
    }
    assert(ingest(s, cs).loc % w == 1) by {
        vstd::arithmetic::div_mod::lemma_fundamental_div_mod_converse(
            s81.loc as int,
            w as int,
            HEIGHT as int,
            1int,
        );
    }
}

/// The fixed screen shape: the ring buffer and the surface hold their row
/// counts, and every row its width.
pub open spec fn shape_ok(s: ScreenState) -> bool {
    &&& s.buffer.len() == BUFFER_LINES
    &&& forall|r: int| 0 <= r < BUFFER_LINES ==> (#[trigger] s.buffer[r]).len() == WIDTH
    &&& s.surface.len() == HEIGHT
    &&& forall|r: int| 0 <= r < HEIGHT ==> (#[trigger] s.surface[r]).len() == WIDTH
}

/// One step keeps the screen shape: the ring row written or cleared and the
/// column written stay in bounds, whatever the cursor offset.
pub proof fn lemma_step_preserves_shape(s: ScreenState, c: char)
    requires
        shape_ok(s),
    ensures
        shape_ok(step(s, c)),
{
    let t = target_of(s.loc, c);
    let row = ((s.loc / (WIDTH as nat)) % (BUFFER_LINES as nat)) as int;
    assert(0 <= row < BUFFER_LINES);
    assert(blank_row(s.colors).len() == WIDTH);
    if t / (WIDTH as nat) > s.loc / (WIDTH as nat) {
        let line = t / (WIDTH as nat);
        assert forall|r: int| 0 <= r < HEIGHT implies (#[trigger] step(
            s,
            c,
        ).surface[r]).len() == WIDTH by {
            assert(0 <= (top_row_of(line) + r) % (BUFFER_LINES as int) < BUFFER_LINES);
        }
    }
}

/// However many scalars are ingested and however large the absolute row
/// counter grows, the ring-buffer modulo arithmetic stays in bounds: a whole
/// ingestion keeps the screen shape.
pub proof fn lemma_ingest_preserves_shape(s: ScreenState, cs: Seq<char>)
    requires
        shape_ok(s),
    ensures
        shape_ok(ingest(s, cs)),
{
    lemma_steps_preserve_shape(s, cs);
    let fin = steps(s, cs);
    assert(0 <= (fin.loc / (WIDTH as nat)) % (BUFFER_LINES as nat) < BUFFER_LINES);
}

/// Stepping any scalar sequence keeps the screen shape.
pub proof fn lemma_steps_preserve_shape(s: ScreenState, cs: Seq<char>)
    requires
        shape_ok(s),
    ensures
        shape_ok(steps(s, cs)),
    decreases cs.len(),
{
    if cs.len() > 0 {
        lemma_step_preserves_shape(s, cs[0]);
        lemma_steps_preserve_shape(step(s, cs[0]), cs.drop_first());
    }
}

/// A well-formed engine's abstract state has the fixed screen shape, so a
/// caller can index the view that `write_str`'s contract returns.
pub proof fn lemma_wf_implies_shape(c: &ConsoleData)
    requires
        c.wf(),
    ensures
        shape_ok(c@),
{
}

/// The console buffer/scroll engine, with its in-memory output surface.
#[derive(Debug)]
pub struct ConsoleData {
    buffer: Vec<Vec<ColoredGlyph>>,
    surface: Vec<Vec<ColoredGlyph>>,
    codec: Codec,
    colors: Colors,
    loc: Location,
}

impl View for ConsoleData {
    type V = ScreenState;

    closed spec fn view(&self) -> ScreenState {
        ScreenState {
            buffer: self.buffer@.map_values(|r: Vec<ColoredGlyph>| r@),
            surface: self.surface@.map_values(|r: Vec<ColoredGlyph>| r@),
            colors: self.colors,
            loc: self.loc.0 as nat,
        }
    }
}

/// Builds one blank row of cells.
#[verifier::loop_isolation(false)]
fn blank_row_vec(colors: Colors) -> (v: Vec<ColoredGlyph>)
    ensures
        v@ == blank_row(colors),
{
    let mut v: Vec<ColoredGlyph> = Vec::new();
    let mut j: usize = 0;
    while j < WIDTH
        invariant
            j <= WIDTH,
            v@.len() == j,
            forall|k: int| 0 <= k < j ==> v@[k] == null_cell(colors),
        decreases WIDTH - j,
    {
        v.push(ColoredGlyph::null(colors));
        j += 1;
    }
    proof {
        assert(v@ =~= blank_row(colors));
    }
    v
}

/// Copies one row of cells.
#[verifier::loop_isolation(false)]
fn copy_row(src: &Vec<ColoredGlyph>) -> (v: Vec<ColoredGlyph>)
    ensures
        v@ == src@,
{
    let mut v: Vec<ColoredGlyph> = Vec::new();
    let mut j: usize = 0;
    let n = src.len();
    while j < n
        invariant
            j <= n == src@.len(),
            v@ =~= src@.take(j as int),
        decreases n - j,
    {
        v.push(src[j]);
        j += 1;
    }
    proof {
        assert(v@ =~= src@);
    }
    v
}

impl ConsoleData {
    /// The buffer and surface have their fixed shape, and the codec tables
    /// are built: the constructor establishes this and every method
    /// preserves it.
    pub closed spec fn wf(&self) -> bool {
        &&& self.codec.wf()
        &&& self.buffer@.len() == BUFFER_LINES
        &&& forall|r: int| 0 <= r < BUFFER_LINES ==> (#[trigger] self.buffer@[r])@.len() == WIDTH
        &&& self.surface@.len() == HEIGHT
        &&& forall|r: int| 0 <= r < HEIGHT ==> (#[trigger] self.surface@[r])@.len() == WIDTH
    }

    /// Creates the engine in its initial state: cleared buffer, blank
    /// window, default colors, cursor at the first cell.
    #[verifier::loop_isolation(false)]
    pub fn new() -> (c: ConsoleData)
        ensures
            c.wf(),
            c@ == initial_state(),
    {
        let colors = Colors::new();
        let mut buffer: Vec<Vec<ColoredGlyph>> = Vec::new();
        let mut r: usize = 0;
        while r < BUFFER_LINES
            invariant
                r <= BUFFER_LINES,
                buffer@.len() == r,
                forall|k: int| 0 <= k < r ==> (#[trigger] buffer@[k])@ == blank_row(
                    default_colors(),
                ),
            decreases BUFFER_LINES - r,
        {
            buffer.push(blank_row_vec(colors));
            proof {
                assert(colors == default_colors());
                assert(buffer@[r as int]@ == blank_row(default_colors()));
            }
            r += 1;
        }
        let mut surface: Vec<Vec<ColoredGlyph>> = Vec::new();
        let mut r: usize = 0;
        while r < HEIGHT
            invariant
                r <= HEIGHT,
                surface@.len() == r,
                forall|k: int| 0 <= k < r ==> (#[trigger] surface@[k])@ == blank_row(
                    default_colors(),
                ),
            decreases HEIGHT - r,
        {
            surface.push(blank_row_vec(colors));
            proof {
                assert(colors == default_colors());
                assert(surface@[r as int]@ == blank_row(default_colors()));
            }
            r += 1;
        }
        let mut c = ConsoleData {
            buffer,
            surface,
            codec: Codec::new(),
            colors,
            loc: Location::new(),
        };
        c.scroll_and_flush(Location::new());
        proof {
            assert(c@.buffer =~~= initial_state().buffer);
            assert(c@.surface =~~= initial_state().surface);
            assert(c@ =~~= initial_state());
        }
        c
    }

    /// Ingests one scalar at the cursor and commits the cursor to its
    /// target, clearing the entered row and repainting the window whenever
    /// the cursor crosses into a new row.
    fn put_char(&mut self, c: char)
        requires
            old(self).wf(),
            old(self)@.loc + 2 * WIDTH <= usize::MAX,
        ensures
            final(self).wf(),
            final(self)@ == step(old(self)@, c),
    {
        let loc = self.loc;
        let target: Location;
        if c == '\n' {
            target = loc.next_line();
        } else if c == '\t' {
            target = loc.next_tab();
        } else if c == '\r' {
            target = loc;
        } else {
            let glyph = match self.codec.from_char(c) {
                Ok(g) => g,
                Err(_) => Glyph::replacement(),
            };
            let row = loc.line() % BUFFER_LINES;
            let col = loc.col();
            self.buffer[row][col] = ColoredGlyph { glyph, colors: self.colors };
            proof {
                assert(self@.buffer =~~= write_cell(
                    old(self)@.buffer,
                    old(self)@.loc,
                    ColoredGlyph { glyph: glyph_for_char(c), colors: old(self)@.colors },
                ));
            }
            target = loc.advance(1);
        }
        if target.line() > loc.line() {
            let trow = target.line() % BUFFER_LINES;
            let blank = blank_row_vec(self.colors);
            self.buffer[trow] = blank;
            self.scroll_and_flush(target);
            proof {
                assert(self@ =~~= step(old(self)@, c));
            }
        } else {
            self.loc = target;
            proof {
                assert(self@ =~~= step(old(self)@, c));
            }
        }
    }

    /// Repaints the whole visible window for a cursor at `new_loc`, then
    /// commits the cursor: the full scroll taken whenever the cursor enters
    /// a new row.
    #[verifier::loop_isolation(false)]
    fn scroll_and_flush(&mut self, new_loc: Location)
        requires
            old(self).wf(),
            new_loc.0 + WIDTH <= usize::MAX,
        ensures
            final(self).wf(),
            final(self)@.buffer == old(self)@.buffer,
            final(self)@.colors == old(self)@.colors,
            final(self)@.loc == new_loc.0 as nat,
            final(self)@.surface == window(old(self)@.buffer, new_loc.0 as nat / (WIDTH as nat)),
    {
        let line = new_loc.line();
        let top_line = if line + 1 >= HEIGHT {
            line + 1 - HEIGHT
        } else {
            0
        };
        let mut scr: usize = 0;
        while scr < HEIGHT
            invariant
                self.wf(),
                scr <= HEIGHT,
                top_line + HEIGHT <= usize::MAX,
                top_line == top_row_of(new_loc.0 as nat / (WIDTH as nat)),
                self@.buffer == old(self)@.buffer,
                self@.colors == old(self)@.colors,
                self@.loc == old(self)@.loc,
                forall|k: int| 0 <= k < scr ==> self@.surface[k] == window(
                    old(self)@.buffer,
                    new_loc.0 as nat / (WIDTH as nat),
                )[k],
                forall|k: int| scr <= k < HEIGHT ==> self@.surface[k] == old(self)@.surface[k],
            decreases HEIGHT - scr,
        {
            let ghost pre = self@;
            let buf_line = (top_line + scr) % BUFFER_LINES;
            let row = copy_row(&self.buffer[buf_line]);
            self.surface[scr] = row;
            proof {
                let line_n = new_loc.0 as nat / (WIDTH as nat);
                assert(self@.surface.len() == HEIGHT);
                assert(pre.surface.len() == HEIGHT);
                assert(self@.surface[scr as int] == row@);
                assert(row@ == pre.buffer[buf_line as int]);
                assert(buf_line as int == (top_row_of(line_n) + scr) % (BUFFER_LINES as int));
                assert(self@.surface[scr as int] == window(old(self)@.buffer, line_n)[scr as int]);
                assert(forall|k: int| 0 <= k < HEIGHT && k != scr ==> self@.surface[k]
                    == pre.surface[k]);
                assert forall|k: int| 0 <= k < scr + 1 implies self@.surface[k] == window(
                    old(self)@.buffer,
                    line_n,
                )[k] by {
                    if k != scr {
                        assert(self@.surface[k] == pre.surface[k]);
                        assert(pre.surface[k] == window(old(self)@.buffer, line_n)[k]);
                    }
                }
                assert forall|k: int| scr + 1 <= k < HEIGHT implies self@.surface[k] == old(
                    self,
                )@.surface[k] by {
                    assert(self@.surface[k] == pre.surface[k]);
                    assert(pre.surface[k] == old(self)@.surface[k]);
                }
            }
            scr += 1;
        }
        proof {
            let line_n = new_loc.0 as nat / (WIDTH as nat);
            assert(self@.surface.len() == HEIGHT);
            assert forall|k: int| 0 <= k < HEIGHT implies self@.surface[k] == window(
                old(self)@.buffer,
                line_n,
            )[k] by {
                assert(self@.surface[k] == window(old(self)@.buffer, line_n)[k]);
            }
            assert(self@.surface =~~= window(old(self)@.buffer, line_n));
        }
        let ghost surf_done = self@.surface;
        self.loc = new_loc;
        proof {
            assert(self@.surface == surf_done);
        }
    }

    /// Flushes the cursor's buffer row onto the surface row it is visible
    /// in, then commits the cursor: the cheap flush taken when no row was
    /// crossed.
    fn flush(&mut self, new_loc: Location)
        requires
            old(self).wf(),
        ensures
            final(self).wf(),
            final(self)@ == flushed(
                ScreenState { loc: new_loc.0 as nat, ..old(self)@ },
            ),
    {
        let line = new_loc.line();
        let scr_line = if line < HEIGHT - 1 {
            line
        } else {
            HEIGHT - 1
        };
        let buf_line = line % BUFFER_LINES;
        let row = copy_row(&self.buffer[buf_line]);
        self.surface[scr_line] = row;
        self.loc = new_loc;
        proof {
            assert(self@.surface =~~= flushed(
                ScreenState { loc: new_loc.0 as nat, ..old(self)@ },
            ).surface);
            assert(self@ =~~= flushed(
                ScreenState { loc: new_loc.0 as nat, ..old(self)@ },
            ));
        }
    }

    /// Ingests a string: every scalar stepped through the buffer, then one
    /// final single-row flush. A string too long for the cursor's remaining
    /// range is refused whole, leaving the console untouched; on any
    /// realistic input the ingestion happens.
    #[verifier::loop_isolation(false)]
    pub fn write_str(&mut self, s: &str)
        requires
            old(self).wf(),
        ensures
            final(self).wf(),
            can_ingest(old(self)@, s@) ==> final(self)@ == ingest(old(self)@, s@),
            !can_ingest(old(self)@, s@) ==> *final(self) == *old(self),
    {
        let len = s.unicode_len();
        let budget = (usize::MAX - self.loc.0) / WIDTH;
        if !(budget >= 2 && len <= budget - 2) {
            proof {
                vstd::arithmetic::div_mod::lemma_fundamental_div_mod(
                    (usize::MAX - self.loc.0) as int,
                    WIDTH as int,
                );
            }
            return;
        }
        proof {
            vstd::arithmetic::div_mod::lemma_fundamental_div_mod(
                (usize::MAX - self.loc.0) as int,
                WIDTH as int,
            );
            assert(can_ingest(self@, s@));
        }
        let ghost s0 = self@;
        let mut i: usize = 0;
        while i < len
            invariant
                self.wf(),
                i <= len == s@.len(),
                s0.loc + (s@.len() + 2) * WIDTH <= usize::MAX,
                self@ == steps(s0, s@.take(i as int)),
                self@.loc <= s0.loc + i * WIDTH,
            decreases len - i,
        {
            let c = s.get_char(i);
            proof {
                lemma_step_loc_bound(self@, c);
                lemma_steps_snoc(s0, s@.take(i as int), c);
                assert(s@.take(i as int).push(c) =~= s@.take(i + 1));
            }
            self.put_char(c);
            i += 1;
        }
        proof {
            assert(s@.take(len as int) =~= s@);
        }
        let cur = self.loc;
        self.flush(cur);
    }

    /// The cursor location.
    pub fn location(&self) -> (l: Location)
        requires
            self.wf(),
        ensures
            l.0 as nat == self@.loc,
    {
        self.loc
    }

    /// The colors newly written cells receive.
    pub fn colors(&self) -> (c: Colors)
        requires
            self.wf(),
        ensures
            c == self@.colors,
    {
        self.colors
    }

    /// Sets the colors newly written cells receive.
    pub fn set_colors(&mut self, colors: Colors)
        requires
            old(self).wf(),
        ensures
            final(self).wf(),
            final(self)@ == (ScreenState { colors, ..old(self)@ }),
    {
        self.colors = colors;
        proof {
            assert(self@ =~~= (ScreenState { colors, ..old(self)@ }));
        }
    }

    /// One cell of the output surface: what the display hardware would show.
    pub fn surface_cell(&self, row: usize, col: usize) -> (c: ColoredGlyph)
        requires
            self.wf(),
            row < HEIGHT,
            col < WIDTH,
        ensures
            c == self@.surface[row as int][col as int],
    {
        self.surface[row][col]
    }

    /// One cell of the ring buffer, by buffer row.
    pub fn buffer_cell(&self, row: usize, col: usize) -> (c: ColoredGlyph)
        requires
            self.wf(),
            row < BUFFER_LINES,
            col < WIDTH,
        ensures
            c == self@.buffer[row as int][col as int],
    {
        self.buffer[row][col]
    }
}

/// Whether the cursor can take a whole string without its offset outrunning
/// the machine word; false only within a couple of rows of `usize::MAX`.
pub open spec fn can_ingest(s: ScreenState, cs: Seq<char>) -> bool {
    s.loc + (cs.len() + 2) * (WIDTH as nat) <= usize::MAX
}



} // verus!
