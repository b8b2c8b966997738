//! The line engine: one line of cells and the two-phase stream that runs
//! along it.

use vstd::prelude::*;
use crate::cell::{is_glyph_char, lemma_charset, Cell, CellView, CHARSET, CHARSET_LEN};
use crate::sampler::{random_in, random_ratio};

verus! {

/// The phase of a line's stream: `On` while it emits glyphs, `Off` while it
/// fades.
#[derive(Clone, Copy, Debug, PartialEq, Eq, Structural)]
pub enum Stream {
    On,
    Off,
}

/// The state of one line of the grid.
#[derive(Clone, Debug, PartialEq, Eq)]
pub struct LineState {
    /// The current phase.
    pub stream: Stream,
    /// The cells, in the order the stream runs along them.
    pub line: Vec<Cell>,
    /// Ticks left in the `On` phase.
    pub chars: usize,
    /// Ticks left in the `Off` phase.
    pub whitespace: usize,
}

/// A line as a mathematical value.
pub struct LineView {
    pub stream: Stream,
    pub cells: Seq<CellView>,
    pub chars: nat,
    pub whitespace: nat,
}

impl View for LineState {
    type V = LineView;

    open spec fn view(&self) -> LineView {
        LineView {
            stream: self.stream,
            cells: cells_view(self.line@),
            chars: self.chars as nat,
            whitespace: self.whitespace as nat,
        }
    }
}

/// The cells of a line, each as a mathematical value.
pub open spec fn cells_view(line: Seq<Cell>) -> Seq<CellView> {
    Seq::new(line.len(), |i: int| line[i]@)
}

/// The characters that a sequence of draws picks from [`CHARSET`].
pub open spec fn glyphs_of(draws: Seq<usize>) -> Seq<char> {
    Seq::new(draws.len(), |i: int| CHARSET@[draws[i] as int])
}

/// Every draw is a position in [`CHARSET`].
pub open spec fn draws_valid(draws: Seq<usize>) -> bool {
    forall|i: int| 0 <= i < draws.len() ==> #[trigger] draws[i] < CHARSET_LEN
}

/// Cell `i` holds a head that moves on in this pass. A head moves onto the
/// next cell and takes it over, so of two heads side by side only the first
/// moves: the second is overwritten before the pass reaches it.
pub open spec fn head_moves(cells: Seq<CellView>, i: int) -> bool
    decreases i + 1,
{
    if 0 <= i < cells.len() {
        cells[i].is_leading() && !head_moves(cells, i - 1)
    } else {
        false
    }
}

/// A head moves onto cell `i` in this pass.
pub open spec fn head_arrives(cells: Seq<CellView>, i: int) -> bool {
    head_moves(cells, i - 1)
}

/// Whether the pass has just done work when it reaches cell `i`. That is
/// settled by the cell before it alone: a cell that a head moved onto counts
/// as work in both phases; otherwise, while fading, a glyph counts and a
/// blank does not, and while emitting, anything but a trailing glyph counts.
pub open spec fn worked_before(stream: Stream, cells: Seq<CellView>, i: int) -> bool {
    0 < i <= cells.len() && (head_arrives(cells, i - 1) || match stream {
        Stream::Off => cells[i - 1] is Glyph,
        Stream::On => !cells[i - 1].is_trailing(),
    })
}

/// A trailing glyph at cell `i` is erased in this pass: while fading, one
/// that no work came just before, which is the first glyph of a run; while
/// emitting, one that follows work.
pub open spec fn trail_erased(stream: Stream, cells: Seq<CellView>, i: int) -> bool {
    match stream {
        Stream::Off => !worked_before(stream, cells, i),
        Stream::On => worked_before(stream, cells, i),
    }
}

/// A blank at cell `i` becomes a new head in this pass: only while emitting,
/// and only where no work came just before.
pub open spec fn blank_seeded(stream: Stream, cells: Seq<CellView>, i: int) -> bool {
    stream == Stream::On && !worked_before(stream, cells, i)
}

/// Cell `i` after one pass over `cells`, where `glyphs[i]` is the character
/// that cell `i` shows if the pass writes a glyph to it.
pub open spec fn cell_after(stream: Stream, cells: Seq<CellView>, glyphs: Seq<char>, i: int) -> CellView {
    if head_arrives(cells, i) {
        CellView::glyph(glyphs[i], true)
    } else {
        match cells[i] {
            CellView::Blank => if blank_seeded(stream, cells, i) {
                CellView::glyph(glyphs[i], true)
            } else {
                CellView::Blank
            },
            CellView::Glyph { value, leading } => if leading {
                CellView::glyph(glyphs[i], false)
            } else if trail_erased(stream, cells, i) {
                CellView::Blank
            } else {
                cells[i]
            },
        }
    }
}

/// The cells after one pass.
pub open spec fn cells_after(stream: Stream, cells: Seq<CellView>, glyphs: Seq<char>) -> Seq<CellView> {
    Seq::new(cells.len(), |i: int| cell_after(stream, cells, glyphs, i))
}

/// Fewest ticks an `On` phase is given when it is entered.
pub const EMIT_MIN: usize = 5;

/// Fewest ticks an `Off` phase is given when it is entered.
pub const FADE_MIN: usize = 10;

/// Shortest line that can be built: on a shorter one some range that a
/// countdown is drawn from would be empty.
pub const MIN_LINE_LEN: usize = 12;

/// Why a line or a grid cannot be built for a display.
#[derive(Clone, Copy, Debug, PartialEq, Eq, Structural)]
pub enum GeometryError {
    /// The lines would be shorter than [`MIN_LINE_LEN`].
    LineTooShort,
    /// The display has no row at all.
    NoRows,
}

/// The phase that follows `stream`.
pub open spec fn other_phase(stream: Stream) -> Stream {
    match stream {
        Stream::On => Stream::Off,
        Stream::Off => Stream::On,
    }
}

/// `count` is a countdown that a line of `len` cells may be given when it
/// enters the phase `entered`: at least the phase's minimum, and below
/// `len - 1`.
pub open spec fn countdown_in_range(entered: Stream, len: nat, count: nat) -> bool {
    match entered {
        Stream::On => EMIT_MIN <= count < len - 1,
        Stream::Off => FADE_MIN <= count < len - 1,
    }
}

impl LineView {
    /// Ticks left in the current phase.
    pub open spec fn countdown(self) -> nat {
        match self.stream {
            Stream::On => self.chars,
            Stream::Off => self.whitespace,
        }
    }

    /// The next tick ends the current phase.
    pub open spec fn expiring(self) -> bool {
        self.countdown() == 1
    }

    /// The next tick can be taken with a random countdown: the current
    /// countdown has not run out, and if this tick ends the phase, the range
    /// that the next phase's countdown is drawn from holds a value.
    pub open spec fn can_tick(self) -> bool {
        &&& self.countdown() >= 1
        &&& self.expiring() ==> match self.stream {
            Stream::On => self.cells.len() > FADE_MIN + 1,
            Stream::Off => self.cells.len() > EMIT_MIN + 1,
        }
    }

    /// The line is long enough for every countdown range, and its current
    /// countdown has not run out. Building a line establishes this and every
    /// random tick keeps it.
    pub open spec fn wf(self) -> bool {
        &&& self.cells.len() >= MIN_LINE_LEN
        &&& self.countdown() >= 1
    }

    /// A line as it is built for `len` cells: all blank, with both countdowns
    /// drawn from their starting ranges.
    pub open spec fn is_fresh(self, len: nat) -> bool {
        &&& self.cells == Seq::new(len, |i: int| CellView::Blank)
        &&& EMIT_MIN <= self.chars < len / 2
        &&& FADE_MIN <= self.whitespace < len
    }
}

/// The line after one tick. `glyphs[i]` is the character that cell `i` shows
/// if the pass writes a glyph to it; `next` is the countdown that the next
/// phase starts with if this tick ends the current one. The countdown that
/// ran out stays at zero.
pub open spec fn tick(v: LineView, glyphs: Seq<char>, next: nat) -> LineView
    recommends
        v.countdown() >= 1,
        glyphs.len() == v.cells.len(),
{
    let cells = cells_after(v.stream, v.cells, glyphs);
    match v.stream {
        Stream::Off => if v.whitespace == 1 {
            LineView { stream: Stream::On, cells, chars: next, whitespace: 0 }
        } else {
            LineView { stream: Stream::Off, cells, chars: v.chars, whitespace: (v.whitespace - 1) as nat }
        },
        Stream::On => if v.chars == 1 {
            LineView { stream: Stream::Off, cells, chars: 0, whitespace: next }
        } else {
            LineView { stream: Stream::On, cells, chars: (v.chars - 1) as nat, whitespace: v.whitespace }
        },
    }
}

/// `after` is what one tick makes of `before` when `glyphs` and `next` are
/// drawn, and these are draws that the generator can make: every character
/// comes from [`CHARSET`], and a countdown that is started lies in its
/// range.
pub open spec fn is_tick_with(before: LineView, after: LineView, glyphs: Seq<char>, next: nat) -> bool {
    &&& glyphs.len() == before.cells.len()
    &&& forall|i: int| 0 <= i < glyphs.len() ==> is_glyph_char(#[trigger] glyphs[i])
    &&& before.expiring() ==> countdown_in_range(other_phase(before.stream), before.cells.len(), next)
    &&& after == tick(before, glyphs, next)
}

/// `after` is what one tick makes of `before` for some outcome of the random
/// draws.
pub open spec fn is_random_tick(before: LineView, after: LineView) -> bool {
    exists|glyphs: Seq<char>, next: nat| is_tick_with(before, after, glyphs, next)
}

/// One pass over the cells of a line in the phase `stream`.
fn run_pass(line: &mut Vec<Cell>, stream: Stream, draws: &[usize])
    requires
        draws@.len() == old(line)@.len(),
        draws_valid(draws@),
    ensures
        cells_view(final(line)@) == cells_after(stream, cells_view(old(line)@), glyphs_of(draws@)),
{
    let ghost before = cells_view(line@);
    let ghost glyphs = glyphs_of(draws@);
    let n = line.len();
    let mut i: usize = 0;
    let mut updated = false;
    while i < n
        invariant
            line@.len() == n,
            i <= n,
            draws@.len() == n,
            draws_valid(draws@),
            before.len() == n,
            glyphs == glyphs_of(draws@),
            forall|j: int| 0 <= j < i ==> (#[trigger] line@[j])@ == cell_after(stream, before, glyphs, j),
            forall|j: int| i <= j < n ==> (#[trigger] line@[j])@ == before[j],
            i < n ==> !head_arrives(before, i as int),
            updated == worked_before(stream, before, i as int),
        decreases n - i,
    {
        let leading = line[i].is_leading();
        let blank = line[i].is_blank();
        if leading {
            assert(head_moves(before, i as int));
            line[i] = Cell::glyph(draws[i], false);
            if i + 1 < n {
                line[i + 1] = Cell::glyph(draws[i + 1], true);
                assert(!head_moves(before, i + 1));
                i += 2;
            } else {
                i += 1;
            }
            updated = true;
        } else {
            assert(!head_moves(before, i as int));
            if blank {
                match stream {
                    Stream::Off => {
                        updated = false;
                    },
                    Stream::On => {
                        if !updated {
                            line[i] = Cell::glyph(draws[i], true);
                            updated = true;
                        }
                    },
                }
            } else {
                match stream {
                    Stream::Off => {
                        if !updated {
                            line[i] = Cell::Whitespace;
                            updated = true;
                        }
                    },
                    Stream::On => {
                        if updated {
                            line[i] = Cell::Whitespace;
                            updated = false;
                        }
                    },
                }
            }
            i += 1;
        }
    }
}

/// One draw from [`CHARSET`] for each of `n` cells.
fn draw_glyphs(n: usize) -> (draws: Vec<usize>)
    ensures
        draws@.len() == n,
        draws_valid(draws@),
{
    let mut draws: Vec<usize> = Vec::new();
    while draws.len() < n
        invariant
            draws@.len() <= n,
            draws_valid(draws@),
        decreases n - draws@.len(),
    {
        draws.push(random_in(0, CHARSET_LEN));
    }
    draws
}

/// A line of `len` blank cells.
fn blank_line(len: usize) -> (line: Vec<Cell>)
    ensures
        cells_view(line@) == Seq::new(len as nat, |i: int| CellView::Blank),
{
    let mut line: Vec<Cell> = Vec::new();
    while line.len() < len
        invariant
            line@.len() <= len,
            forall|j: int| 0 <= j < line@.len() ==> (#[trigger] line@[j])@ is Blank,
        decreases len - line@.len(),
    {
        line.push(Cell::Whitespace);
    }
    line
}

impl LineState {
    /// A new line of `height` blank cells. It starts in the `On` phase once
    /// in fifty times, with countdowns drawn at random from their starting
    /// ranges. A height below [`MIN_LINE_LEN`] is refused.
    pub fn new(height: usize) -> (r: Result<LineState, GeometryError>)
        ensures
            height < MIN_LINE_LEN <==> r == Err::<LineState, GeometryError>(GeometryError::LineTooShort),
            height >= MIN_LINE_LEN <==> r is Ok,
            r matches Ok(l) ==> l@.is_fresh(height as nat) && l@.wf(),
    {
        if height < MIN_LINE_LEN {
            return Err(GeometryError::LineTooShort);
        }
        let stream = if random_ratio(1, 50) {
            Stream::On
        } else {
            Stream::Off
        };
        let chars = random_in(EMIT_MIN, height / 2);
        let whitespace = random_in(FADE_MIN, height);
        Ok(LineState { stream, line: blank_line(height), chars, whitespace })
    }

    /// Whether [`LineState::update_line`] may be called.
    pub fn can_tick(&self) -> (b: bool)
        ensures
            b == self@.can_tick(),
    {
        match self.stream {
            Stream::On => self.chars >= 1 && (self.chars != 1 || self.line.len() > FADE_MIN + 1),
            Stream::Off => self.whitespace >= 1 && (self.whitespace != 1 || self.line.len() > EMIT_MIN + 1),
        }
    }

    /// One tick with the random draws given: `draws[i]` picks from
    /// [`CHARSET`] the character for cell `i`, should the pass write a glyph
    /// there, and `next_count` is the countdown for the next phase, should
    /// this tick end the current one.
    pub fn update_line_with(&mut self, draws: &[usize], next_count: usize)
        requires
            old(self)@.countdown() >= 1,
            draws@.len() == old(self).line@.len(),
            draws_valid(draws@),
        ensures
            final(self)@ == tick(old(self)@, glyphs_of(draws@), next_count as nat),
            final(self).line@.len() == old(self).line@.len(),
            old(self)@.wf() && next_count >= 1 ==> final(self)@.wf(),
    {
        run_pass(&mut self.line, self.stream, draws);
        assert(cells_view(self.line@).len() == cells_view(old(self).line@).len());
        match self.stream {
            Stream::Off => {
                self.whitespace = self.whitespace - 1;
                if self.whitespace == 0 {
                    self.stream = Stream::On;
                    self.chars = next_count;
                }
            },
            Stream::On => {
                self.chars = self.chars - 1;
                if self.chars == 0 {
                    self.stream = Stream::Off;
                    self.whitespace = next_count;
                }
            },
        }
    }

    /// One tick: a pass over the cells with characters drawn at random from
    /// [`CHARSET`], then the countdown. When the countdown runs out the line
    /// changes phase, and the countdown of the phase it enters is drawn at
    /// random from that phase's range.
    pub fn update_line(&mut self)
        requires
            old(self)@.can_tick(),
        ensures
            is_random_tick(old(self)@, final(self)@),
            final(self).line@.len() == old(self).line@.len(),
            old(self).stream == Stream::On && old(self).chars == 1 ==> final(self).stream == Stream::Off
                && countdown_in_range(Stream::Off, old(self).line@.len(), final(self).whitespace as nat),
            old(self).stream == Stream::Off && old(self).whitespace == 1 ==> final(self).stream
                == Stream::On && countdown_in_range(
                Stream::On,
                old(self).line@.len(),
                final(self).chars as nat,
            ),
            old(self)@.wf() ==> final(self)@.wf(),
    {
        let len = self.line.len();
        let draws = draw_glyphs(len);
        let next = match self.stream {
            Stream::On => if self.chars == 1 {
                random_in(FADE_MIN, len - 1)
            } else {
                0
            },
            Stream::Off => if self.whitespace == 1 {
                random_in(EMIT_MIN, len - 1)
            } else {
                0
            },
        };
        self.update_line_with(&draws, next);
        proof {
            lemma_charset();
            assert(is_tick_with(old(self)@, self@, glyphs_of(draws@), next as nat));
        }
    }
}

} // verus!
