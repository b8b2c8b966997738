//! What holds of a line over its ticks, proved from the definition of a tick.

use vstd::prelude::*;
use crate::cell::{is_glyph_char, CellView};
use crate::line::{
    blank_seeded, cell_after, cells_after, countdown_in_range, head_arrives, head_moves, is_random_tick,
    is_tick_with, other_phase, tick, LineView, Stream,
};

verus! {

/// The line after a run of ticks, one for each entry of `glyphs`, where
/// `nexts[k]` is the countdown drawn at tick `k`.
pub open spec fn run(v: LineView, glyphs: Seq<Seq<char>>, nexts: Seq<nat>) -> LineView
    decreases glyphs.len(),
{
    if glyphs.len() == 0 {
        v
    } else {
        tick(run(v, glyphs.drop_last(), nexts.drop_last()), glyphs.last(), nexts.last())
    }
}

/// A tick keeps the number of cells.
pub proof fn law_tick_keeps_length(v: LineView, glyphs: Seq<char>, next: nat)
    ensures
        tick(v, glyphs, next).cells.len() == v.cells.len(),
{
}

/// However many ticks a line takes, and whatever is drawn for them, it keeps
/// the number of cells it was built with.
pub proof fn law_run_keeps_length(v: LineView, glyphs: Seq<Seq<char>>, nexts: Seq<nat>)
    ensures
        run(v, glyphs, nexts).cells.len() == v.cells.len(),
    decreases glyphs.len(),
{
    if glyphs.len() > 0 {
        law_run_keeps_length(v, glyphs.drop_last(), nexts.drop_last());
    }
}

/// A line that is well formed can take a random tick.
pub proof fn law_well_formed_can_tick(v: LineView)
    requires
        v.wf(),
    ensures
        v.can_tick(),
{
}

/// A random tick keeps a well-formed line well formed, so a line that was
/// built can take random ticks for ever.
pub proof fn law_tick_keeps_well_formed(before: LineView, after: LineView)
    requires
        before.wf(),
        is_random_tick(before, after),
    ensures
        after.wf(),
        after.cells.len() == before.cells.len(),
{
}

/// A random tick that finds the countdown at one ends the phase, and starts
/// the countdown of the phase it enters within that phase's range.
pub proof fn law_countdown_of_one_changes_phase(before: LineView, after: LineView)
    requires
        before.expiring(),
        is_random_tick(before, after),
    ensures
        after.stream == other_phase(before.stream),
        countdown_in_range(after.stream, before.cells.len(), after.countdown()),
{
}

/// Every glyph shows exactly one character, and that character comes from
/// the character set.
pub open spec fn glyphs_printable(cells: Seq<CellView>) -> bool {
    forall|i: int|
        0 <= i < cells.len() ==> ((#[trigger] cells[i]) matches CellView::Glyph { value, .. } ==> value.len()
            == 1 && is_glyph_char(value[0]))
}

/// A random tick writes only characters of the character set: a line whose
/// glyphs are printable has printable glyphs after it. A new line, being
/// blank, has them to begin with.
pub proof fn law_tick_keeps_glyphs_printable(before: LineView, after: LineView)
    requires
        glyphs_printable(before.cells),
        is_random_tick(before, after),
    ensures
        glyphs_printable(after.cells),
{
    let (glyphs, next) = choose|glyphs: Seq<char>, next: nat| is_tick_with(before, after, glyphs, next);
    assert(after.cells == cells_after(before.stream, before.cells, glyphs));
}

/// At most one cell holds a head.
pub open spec fn at_most_one_leading(cells: Seq<CellView>) -> bool {
    forall|i: int, j: int|
        0 <= i < cells.len() && 0 <= j < cells.len() && cells[i].is_leading() && cells[j].is_leading()
            ==> i == j
}

/// The pass leaves a head on cell `i`: a head moves onto it, or it is a
/// blank that the pass seeds.
pub open spec fn gets_head(stream: Stream, cells: Seq<CellView>, i: int) -> bool {
    0 <= i < cells.len() && (head_arrives(cells, i) || (cells[i] is Blank && blank_seeded(
        stream,
        cells,
        i,
    )))
}

/// The pass leaves heads on two different cells.
pub open spec fn gets_two_heads(stream: Stream, cells: Seq<CellView>) -> bool {
    exists|i: int, j: int| i != j && gets_head(stream, cells, i) && gets_head(stream, cells, j)
}

/// After a pass, cell `i` holds a head exactly when the pass left one there.
pub proof fn lemma_leading_after(stream: Stream, cells: Seq<CellView>, glyphs: Seq<char>, i: int)
    requires
        0 <= i < cells.len(),
    ensures
        cells_after(stream, cells, glyphs)[i].is_leading() <==> gets_head(stream, cells, i),
{
}

/// After a tick at most one cell holds a head, unless the pass leaves heads
/// on two cells: a head that moves on while a blank elsewhere is seeded, two
/// blanks seeded, or two heads that both move on.
pub proof fn law_at_most_one_leading(v: LineView, glyphs: Seq<char>, next: nat)
    requires
        !gets_two_heads(v.stream, v.cells),
    ensures
        at_most_one_leading(tick(v, glyphs, next).cells),
{
    let after = tick(v, glyphs, next).cells;
    assert forall|i: int, j: int|
        0 <= i < after.len() && 0 <= j < after.len() && after[i].is_leading() && after[j].is_leading()
        implies i == j by {
        lemma_leading_after(v.stream, v.cells, glyphs, i);
        lemma_leading_after(v.stream, v.cells, glyphs, j);
    }
}

/// Where the pass leaves heads on two cells, two cells hold a head after the
/// tick.
pub proof fn law_two_heads(v: LineView, glyphs: Seq<char>, next: nat)
    requires
        gets_two_heads(v.stream, v.cells),
    ensures
        !at_most_one_leading(tick(v, glyphs, next).cells),
{
    let (i, j) = choose|i: int, j: int|
        i != j && gets_head(v.stream, v.cells, i) && gets_head(v.stream, v.cells, j);
    lemma_leading_after(v.stream, v.cells, glyphs, i);
    lemma_leading_after(v.stream, v.cells, glyphs, j);
}

/// While a line fades, a tick adds no head: a line with at most one head has
/// at most one after it.
pub proof fn law_fading_keeps_one_head(v: LineView, glyphs: Seq<char>, next: nat)
    requires
        v.stream == Stream::Off,
        at_most_one_leading(v.cells),
    ensures
        at_most_one_leading(tick(v, glyphs, next).cells),
{
    assert forall|i: int, j: int|
        i != j && gets_head(v.stream, v.cells, i) && gets_head(v.stream, v.cells, j) implies false by {
        assert(v.cells[i - 1].is_leading() && v.cells[j - 1].is_leading());
    }
    law_at_most_one_leading(v, glyphs, next);
}

} // verus!
