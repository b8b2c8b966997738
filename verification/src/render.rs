//! The compositor: turns a line of the grid into the styled cells that are
//! drawn, in the order in which the display shows them.

use vstd::prelude::*;
use crate::cell::{Cell, CellView};
use crate::grid::{grid_view, Direction, State};
use crate::line::{cells_view, LineState};
use crate::sampler::random_in;
use crate::text::str_eq;

verus! {

/// A foreground colour.
#[derive(Clone, Copy, Debug, PartialEq, Eq, Structural)]
pub enum Color {
    Blue,
    Cyan,
    Red,
    Magenta,
    Yellow,
    Green,
    White,
}

/// How trailing glyphs are coloured: all in one colour, or each in a colour
/// of its own, drawn anew at every tick.
#[derive(Clone, Copy, Debug, PartialEq, Eq, Structural)]
pub enum ColorMode {
    Fixed(Color),
    Rainbow,
}

/// The colour of the head of a stream.
pub const HIGHLIGHT: Color = Color::White;

/// Number of colours that a rainbow draws from.
pub const RAINBOW_LEN: usize = 6;

/// One drawn position: its text, its foreground colour if it has one, and
/// whether it is bold.
#[derive(Clone, Debug, PartialEq, Eq)]
pub struct StyledCell {
    pub text: String,
    pub color: Option<Color>,
    pub bold: bool,
}

/// A styled cell as a mathematical value.
pub struct StyledView {
    pub text: Seq<char>,
    pub color: Option<Color>,
    pub bold: bool,
}

impl View for StyledCell {
    type V = StyledView;

    open spec fn view(&self) -> StyledView {
        StyledView { text: self.text@, color: self.color, bold: self.bold }
    }
}

/// The styled cells of a line, each as a mathematical value.
pub open spec fn styled_view(cells: Seq<StyledCell>) -> Seq<StyledView> {
    Seq::new(cells.len(), |i: int| cells[i]@)
}

/// The colour mode that a colour name stands for. A name that is none of
/// the known ones stands for green.
pub open spec fn color_mode_of(name: Seq<char>) -> ColorMode {
    if name == "blue"@ {
        ColorMode::Fixed(Color::Blue)
    } else if name == "cyan"@ {
        ColorMode::Fixed(Color::Cyan)
    } else if name == "red"@ {
        ColorMode::Fixed(Color::Red)
    } else if name == "purple"@ {
        ColorMode::Fixed(Color::Magenta)
    } else if name == "yellow"@ {
        ColorMode::Fixed(Color::Yellow)
    } else if name == "rainbow"@ {
        ColorMode::Rainbow
    } else {
        ColorMode::Fixed(Color::Green)
    }
}

/// The colour that a rainbow shows for the draw `pick`.
pub open spec fn rainbow_color_of(pick: int) -> Color {
    if pick == 0 {
        Color::Blue
    } else if pick == 1 {
        Color::Cyan
    } else if pick == 2 {
        Color::Red
    } else if pick == 3 {
        Color::Magenta
    } else if pick == 4 {
        Color::Yellow
    } else {
        Color::Green
    }
}

/// How a cell is drawn. A blank is a plain space. A glyph shows its text,
/// bold if `bold` is set: the head in the highlight colour, a trailing
/// glyph in the fixed colour, or in rainbow mode in the colour that `pick`
/// draws.
pub open spec fn styled(cell: CellView, mode: ColorMode, bold: bool, pick: int) -> StyledView {
    match cell {
        CellView::Blank => StyledView { text: seq![' '], color: None, bold: false },
        CellView::Glyph { value, leading } => StyledView {
            text: value,
            color: Some(
                if leading {
                    HIGHLIGHT
                } else {
                    match mode {
                        ColorMode::Fixed(c) => c,
                        ColorMode::Rainbow => rainbow_color_of(pick),
                    }
                },
            ),
            bold,
        },
    }
}

/// The cells of a line in the order in which the display shows them: as
/// stored, or back to front where the head travels towards the start.
pub open spec fn display_order<T>(cells: Seq<T>, direction: Direction) -> Seq<T> {
    if direction.is_reversed() {
        cells.reverse()
    } else {
        cells
    }
}

/// The styled cells that a line is drawn as, where `picks[k]` is the rainbow
/// draw for the `k`-th position shown.
pub open spec fn composed(
    cells: Seq<CellView>,
    mode: ColorMode,
    direction: Direction,
    bold: bool,
    picks: Seq<usize>,
) -> Seq<StyledView> {
    Seq::new(
        cells.len(),
        |k: int| styled(display_order(cells, direction)[k], mode, bold, picks[k] as int),
    )
}

/// `spans` is what `cells` are drawn as under `state` when the rainbow
/// draws are `picks`.
pub open spec fn is_composed(spans: Seq<StyledView>, cells: Seq<CellView>, state: State, picks: Seq<usize>) -> bool {
    &&& picks.len() == cells.len()
    &&& forall|k: int| 0 <= k < picks.len() ==> #[trigger] picks[k] < RAINBOW_LEN
    &&& spans == composed(cells, color_mode_of(state.color@), state.direction, state.bold, picks)
}

/// The colour mode that a colour name stands for.
pub fn color_mode(name: &str) -> (mode: ColorMode)
    ensures
        mode == color_mode_of(name@),
{
    if str_eq(name, "blue") {
        ColorMode::Fixed(Color::Blue)
    } else if str_eq(name, "cyan") {
        ColorMode::Fixed(Color::Cyan)
    } else if str_eq(name, "red") {
        ColorMode::Fixed(Color::Red)
    } else if str_eq(name, "purple") {
        ColorMode::Fixed(Color::Magenta)
    } else if str_eq(name, "yellow") {
        ColorMode::Fixed(Color::Yellow)
    } else if str_eq(name, "rainbow") {
        ColorMode::Rainbow
    } else {
        ColorMode::Fixed(Color::Green)
    }
}

/// The colour that a rainbow shows for the draw `pick`.
pub fn rainbow_color(pick: usize) -> (c: Color)
    ensures
        c == rainbow_color_of(pick as int),
{
    match pick {
        0 => Color::Blue,
        1 => Color::Cyan,
        2 => Color::Red,
        3 => Color::Magenta,
        4 => Color::Yellow,
        _ => Color::Green,
    }
}

/// How a cell is drawn.
pub fn style_cell(cell: &Cell, mode: ColorMode, bold: bool, pick: usize) -> (span: StyledCell)
    ensures
        span@ == styled(cell@, mode, bold, pick as int),
{
    match cell {
        Cell::Whitespace => {
            proof {
                reveal_strlit(" ");
            }
            let text = " ".to_owned();
            assert(text@ =~= seq![' ']);
            StyledCell { text, color: None, bold: false }
        },
        Cell::Sym(sym) => {
            let color = if sym.white {
                HIGHLIGHT
            } else {
                match mode {
                    ColorMode::Fixed(c) => c,
                    ColorMode::Rainbow => rainbow_color(pick),
                }
            };
            StyledCell { text: sym.value.clone(), color: Some(color), bold }
        },
    }
}

/// Puts the cells of a line in the opposite order.
pub fn reverse_cells(line: &mut Vec<Cell>)
    ensures
        final(line)@ == old(line)@.reverse(),
{
    let ghost before = line@;
    let mut turned: Vec<Cell> = Vec::new();
    while line.len() > 0
        invariant
            line@.len() + turned@.len() == before.len(),
            line@ == before.subrange(0, line@.len() as int),
            forall|j: int| 0 <= j < turned@.len() ==> turned@[j] == before[before.len() - 1 - j],
        decreases line@.len(),
    {
        match line.pop() {
            Some(cell) => {
                turned.push(cell);
            },
            None => {},
        }
    }
    *line = turned;
}

/// Turning a line round twice gives the line back.
pub proof fn law_reverse_twice<T>(cells: Seq<T>)
    ensures
        cells.reverse().reverse() == cells,
{
}

/// The order in which a direction shows a line is undone by showing it in
/// that order once more.
pub proof fn law_display_order_round_trip<T>(cells: Seq<T>, direction: Direction)
    ensures
        display_order(display_order(cells, direction), direction) == cells,
{
    law_reverse_twice(cells);
}

/// The styled cells that a line is drawn as under `state`, with the rainbow
/// draws given: `picks[k]` colours the `k`-th position shown, where it holds
/// a trailing glyph and the colour mode is the rainbow. The line is turned
/// round for the directions that show it back to front, and turned back
/// before the function returns.
pub fn compose_line(line: &mut Vec<Cell>, state: &State, picks: &[usize]) -> (spans: Vec<StyledCell>)
    requires
        color_mode_of(state.color@) is Rainbow ==> picks@.len() == old(line)@.len(),
    ensures
        final(line)@ == old(line)@,
        styled_view(spans@) == composed(
            cells_view(old(line)@),
            color_mode_of(state.color@),
            state.direction,
            state.bold,
            picks@,
        ),
{
    let mode = color_mode(state.color.as_str());
    let turn = state.direction.reversed();
    if turn {
        reverse_cells(line);
    }
    let n = line.len();
    let mut spans: Vec<StyledCell> = Vec::new();
    let mut k: usize = 0;
    while k < n
        invariant
            k <= n,
            line@.len() == n,
            spans@.len() == k,
            mode is Rainbow ==> picks@.len() == n,
            line@ == display_order(old(line)@, state.direction),
            forall|j: int|
                0 <= j < k ==> (#[trigger] spans@[j])@ == styled(line@[j]@, mode, state.bold, picks@[j] as int),
        decreases n - k,
    {
        let pick = match mode {
            ColorMode::Rainbow => picks[k],
            ColorMode::Fixed(_) => 0,
        };
        let span = style_cell(&line[k], mode, state.bold, pick);
        spans.push(span);
        k += 1;
    }
    if turn {
        reverse_cells(line);
    }
    proof {
        law_reverse_twice(old(line)@);
        assert(styled_view(spans@) =~= composed(
            cells_view(old(line)@),
            mode,
            state.direction,
            state.bold,
            picks@,
        ));
    }
    spans
}

/// One rainbow draw for each of `n` positions.
fn draw_picks(n: usize) -> (picks: Vec<usize>)
    ensures
        picks@.len() == n,
        forall|k: int| 0 <= k < picks@.len() ==> #[trigger] picks@[k] < RAINBOW_LEN,
{
    let mut picks: Vec<usize> = Vec::new();
    while picks.len() < n
        invariant
            picks@.len() <= n,
            forall|k: int| 0 <= k < picks@.len() ==> #[trigger] picks@[k] < RAINBOW_LEN,
        decreases n - picks@.len(),
    {
        picks.push(random_in(0, RAINBOW_LEN));
    }
    picks
}

/// `spans` is what `cells` are drawn as under `state`, for some outcome of
/// the rainbow draws.
pub open spec fn is_drawn(spans: Seq<StyledView>, cells: Seq<CellView>, state: State) -> bool {
    exists|picks: Seq<usize>| is_composed(spans, cells, state, picks)
}

/// What drawing line `index` of the grid gives: nothing where the grid has
/// no such line, else the line's styled cells for some outcome of the
/// rainbow draws.
pub open spec fn is_drawn_line(
    drawn: Option<Vec<StyledCell>>,
    grid: Seq<LineState>,
    index: int,
    state: State,
) -> bool {
    match drawn {
        Some(spans) => 0 <= index < grid.len() && is_drawn(
            styled_view(spans@),
            grid[index]@.cells,
            state,
        ),
        None => !(0 <= index < grid.len()),
    }
}

/// Draws line `index` of the grid.
fn process_line(index: usize, matrix: &mut [LineState], state: &State) -> (drawn: Option<Vec<StyledCell>>)
    ensures
        final(matrix)@.len() == old(matrix)@.len(),
        grid_view(final(matrix)@) == grid_view(old(matrix)@),
        is_drawn_line(drawn, old(matrix)@, index as int, *state),
{
    if index >= matrix.len() {
        return None;
    }
    let picks = match color_mode(state.color.as_str()) {
        ColorMode::Rainbow => draw_picks(matrix[index].line.len()),
        ColorMode::Fixed(_) => Vec::new(),
    };
    let spans = compose_line(&mut matrix[index].line, state, &picks);
    proof {
        let cells = old(matrix)@[index as int]@.cells;
        let mode = color_mode_of(state.color@);
        let zeros = Seq::new(cells.len(), |k: int| 0usize);
        let witness = if mode is Rainbow {
            picks@
        } else {
            zeros
        };
        assert(composed(cells, mode, state.direction, state.bold, picks@) =~= composed(
            cells,
            mode,
            state.direction,
            state.bold,
            witness,
        ));
        assert(is_composed(styled_view(spans@), cells, *state, witness));
    }
    Some(spans)
}

/// Draws the line that display column `i` shows when the rain falls
/// vertically: the grid holds a line for every other column, so column `i`
/// shows line `i / 2`. A column beyond the grid draws nothing. The grid is
/// as it was when the function returns.
pub fn process_matrix_cols(i: usize, matrix: &mut [LineState], state: &State) -> (drawn: Option<
    Vec<StyledCell>,
>)
    ensures
        final(matrix)@.len() == old(matrix)@.len(),
        grid_view(final(matrix)@) == grid_view(old(matrix)@),
        is_drawn_line(drawn, old(matrix)@, i as int / 2, *state),
{
    process_line(i / 2, matrix, state)
}

/// Draws the line that display row `i` shows when the rain falls
/// horizontally: row `i` shows line `i`. A row beyond the grid draws
/// nothing. The grid is as it was when the function returns.
pub fn process_matrix_rows(i: usize, matrix: &mut [LineState], state: &State) -> (drawn: Option<
    Vec<StyledCell>,
>)
    ensures
        final(matrix)@.len() == old(matrix)@.len(),
        grid_view(final(matrix)@) == grid_view(old(matrix)@),
        is_drawn_line(drawn, old(matrix)@, i as int, *state),
{
    process_line(i, matrix, state)
}

/// One line of the grid as it is drawn, and where: the display column it
/// runs down when the rain falls vertically, else the display row it runs
/// along.
#[derive(Clone, Debug, PartialEq, Eq)]
pub struct PlacedLine {
    pub at: u16,
    pub cells: Vec<StyledCell>,
}

/// The display position of the `k`-th line that is drawn: every other column
/// when the rain falls vertically, every row when it falls horizontally.
pub open spec fn position_of_line(k: int, direction: Direction) -> int {
    if direction.is_vertical() {
        2 * k
    } else {
        k
    }
}

/// How many lines are drawn on a display of `width` by `height` from a grid
/// of `lines` lines: one for each position that the display has and that the
/// grid has a line for.
pub open spec fn lines_drawn(width: nat, height: nat, lines: nat, direction: Direction) -> nat {
    let positions = if direction.is_vertical() {
        (width + 1) / 2
    } else {
        height
    };
    if positions <= lines {
        positions
    } else {
        lines
    }
}

/// `frame` is what the grid is drawn as on a display of `width` by `height`
/// for some outcome of the rainbow draws: line `k` of the grid at the `k`-th
/// position, for as many lines as are drawn.
pub open spec fn is_frame(frame: Seq<PlacedLine>, grid: Seq<LineState>, width: nat, height: nat, state: State) -> bool {
    &&& frame.len() == lines_drawn(width, height, grid.len(), state.direction)
    &&& forall|k: int|
        0 <= k < frame.len() ==> (#[trigger] frame[k]).at == position_of_line(k, state.direction)
            && is_drawn(styled_view(frame[k].cells@), grid[k]@.cells, state)
}

/// Draws the grid for a display of `width` by `height`: walks the display
/// positions in order, every other column or every row, and draws at each
/// the line that it shows. The grid is as it was when the function returns.
pub fn compose_frame(matrix: &mut [LineState], width: u16, height: u16, state: &State) -> (frame: Vec<
    PlacedLine,
>)
    ensures
        final(matrix)@.len() == old(matrix)@.len(),
        grid_view(final(matrix)@) == grid_view(old(matrix)@),
        is_frame(frame@, old(matrix)@, width as nat, height as nat, *state),
{
    let vertical = state.direction.vertical();
    let positions: usize = if vertical {
        (width as usize + 1) / 2
    } else {
        height as usize
    };
    let count = if positions <= matrix.len() {
        positions
    } else {
        matrix.len()
    };
    let mut frame: Vec<PlacedLine> = Vec::new();
    let mut k: usize = 0;
    while k < count
        invariant
            k <= count,
            count <= matrix@.len(),
            count == lines_drawn(width as nat, height as nat, old(matrix)@.len(), state.direction),
            vertical == state.direction.is_vertical(),
            matrix@.len() == old(matrix)@.len(),
            grid_view(matrix@) == grid_view(old(matrix)@),
            frame@.len() == k,
            forall|j: int|
                0 <= j < k ==> (#[trigger] frame@[j]).at == position_of_line(j, state.direction) && is_drawn(
                    styled_view(frame@[j].cells@),
                    old(matrix)@[j]@.cells,
                    *state,
                ),
        decreases count - k,
    {
        assert(old(matrix)@[k as int]@ == grid_view(old(matrix)@)[k as int]);
        let at: usize = if vertical {
            2 * k
        } else {
            k
        };
        let drawn = if vertical {
            process_matrix_cols(at, matrix, state)
        } else {
            process_matrix_rows(at, matrix, state)
        };
        match drawn {
            Some(cells) => {
                frame.push(PlacedLine { at: at as u16, cells });
            },
            None => {},
        }
        assert(matrix@.len() == grid_view(matrix@).len());
        k += 1;
    }
    frame
}

} // verus!
