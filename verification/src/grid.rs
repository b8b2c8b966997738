//! The grid: the lines that fill a display, built for its size and for the
//! direction the rain falls in.

use vstd::prelude::*;
use crate::line::{is_random_tick, GeometryError, LineState, LineView, MIN_LINE_LEN};

verus! {

/// The direction the rain falls in.
#[derive(Clone, Copy, Debug, PartialEq, Eq, Structural)]
pub enum Direction {
    Down,
    Up,
    Left,
    Right,
}

/// What the animation is configured to show.
#[derive(Clone, Debug, PartialEq, Eq)]
pub struct State {
    /// Name of the colour of the trailing glyphs, or `"rainbow"`.
    pub color: String,
    /// Milliseconds between two ticks.
    pub speed: u64,
    /// The direction the rain falls in.
    pub direction: Direction,
    /// Whether glyphs are drawn bold.
    pub bold: bool,
}

/// The configuration as a mathematical value.
pub struct StateView {
    pub color: Seq<char>,
    pub speed: u64,
    pub direction: Direction,
    pub bold: bool,
}

impl View for State {
    type V = StateView;

    open spec fn view(&self) -> StateView {
        StateView { color: self.color@, speed: self.speed, direction: self.direction, bold: self.bold }
    }
}

impl Direction {
    /// The rain falls along the display's columns.
    pub open spec fn is_vertical(self) -> bool {
        self == Direction::Down || self == Direction::Up
    }

    /// The head of a stream travels towards the start of its line.
    pub open spec fn is_reversed(self) -> bool {
        self == Direction::Up || self == Direction::Left
    }

    /// Whether the rain falls along the display's columns.
    pub fn vertical(&self) -> (b: bool)
        ensures
            b == self.is_vertical(),
    {
        match self {
            Direction::Down | Direction::Up => true,
            Direction::Left | Direction::Right => false,
        }
    }

    /// Whether the head of a stream travels towards the start of its line.
    pub fn reversed(&self) -> (b: bool)
        ensures
            b == self.is_reversed(),
    {
        match self {
            Direction::Up | Direction::Left => true,
            Direction::Down | Direction::Right => false,
        }
    }
}

/// The lines of a grid, each as a mathematical value.
pub open spec fn grid_view(grid: Seq<LineState>) -> Seq<LineView> {
    Seq::new(grid.len(), |i: int| grid[i]@)
}

/// How many lines the grid holds for a display of `width` by `height`:
/// every other column when the rain falls vertically, else every row but
/// one. Negative for a horizontal grid on a display without rows.
pub open spec fn line_count(width: nat, height: nat, direction: Direction) -> int {
    if direction.is_vertical() {
        (width / 2 + 1) as int
    } else {
        height - 1
    }
}

/// How many cells each line holds: the display's extent along the direction
/// of the rain.
pub open spec fn line_len(width: nat, height: nat, direction: Direction) -> nat {
    if direction.is_vertical() {
        height
    } else {
        width
    }
}

/// Why no grid can be built for the display, if none can: a horizontal grid
/// needs a row, and any line that is built needs [`MIN_LINE_LEN`] cells.
pub open spec fn geometry_error(width: nat, height: nat, direction: Direction) -> Option<GeometryError> {
    if line_count(width, height, direction) < 0 {
        Some(GeometryError::NoRows)
    } else if line_count(width, height, direction) > 0 && line_len(width, height, direction)
        < MIN_LINE_LEN {
        Some(GeometryError::LineTooShort)
    } else {
        None
    }
}

/// The grid has the number of lines, and each line the number of cells,
/// that the display and the direction call for.
pub open spec fn grid_matches(grid: Seq<LineState>, width: nat, height: nat, direction: Direction) -> bool {
    &&& grid.len() == line_count(width, height, direction)
    &&& forall|i: int|
        0 <= i < grid.len() ==> (#[trigger] grid[i]).line@.len() == line_len(width, height, direction)
}

/// The grid is as it is built for the display: it matches the geometry, and
/// every line is new.
pub open spec fn is_fresh_grid(grid: Seq<LineState>, width: nat, height: nat, direction: Direction) -> bool {
    &&& grid.len() == line_count(width, height, direction)
    &&& forall|i: int|
        0 <= i < grid.len() ==> (#[trigger] grid[i])@.is_fresh(line_len(width, height, direction))
            && grid[i]@.wf()
}

/// A grid as it is built matches the geometry it was built for.
pub proof fn lemma_fresh_grid_matches(grid: Seq<LineState>, width: nat, height: nat, direction: Direction)
    requires
        is_fresh_grid(grid, width, height, direction),
    ensures
        grid_matches(grid, width, height, direction),
{
    assert forall|i: int| 0 <= i < grid.len() implies (#[trigger] grid[i]).line@.len() == line_len(
        width,
        height,
        direction,
    ) by {
    }
}

/// The geometry of the grid for a display of `width` by `height`: the
/// number of lines and the length of each, or why there is no grid.
pub fn geometry(width: u16, height: u16, direction: Direction) -> (r: Result<(usize, usize), GeometryError>)
    ensures
        match geometry_error(width as nat, height as nat, direction) {
            Some(e) => r == Err::<(usize, usize), GeometryError>(e),
            None => r == Ok::<(usize, usize), GeometryError>(
                (
                    line_count(width as nat, height as nat, direction) as usize,
                    line_len(width as nat, height as nat, direction) as usize,
                ),
            ),
        },
{
    let (count, len): (usize, usize) = if direction.vertical() {
        ((width / 2) as usize + 1, height as usize)
    } else {
        if height == 0 {
            return Err(GeometryError::NoRows);
        }
        ((height - 1) as usize, width as usize)
    };
    if count > 0 && len < MIN_LINE_LEN {
        return Err(GeometryError::LineTooShort);
    }
    Ok((count, len))
}

/// Builds the grid anew for a display of `width` by `height`: the old lines
/// are dropped and new ones take their place. On a display that no grid can
/// be built for, the grid is left empty.
pub fn create_matrix(matrix: &mut Vec<LineState>, width: u16, height: u16, state: &State) -> (r: Result<
    (),
    GeometryError,
>)
    ensures
        match geometry_error(width as nat, height as nat, state.direction) {
            Some(e) => r == Err::<(), GeometryError>(e) && final(matrix)@.len() == 0,
            None => r is Ok && is_fresh_grid(
                final(matrix)@,
                width as nat,
                height as nat,
                state.direction,
            ),
        },
        r is Ok ==> grid_matches(final(matrix)@, width as nat, height as nat, state.direction),
{
    *matrix = Vec::new();
    let (count, len) = match geometry(width, height, state.direction) {
        Ok(g) => g,
        Err(e) => {
            return Err(e);
        },
    };
    while matrix.len() < count
        invariant
            matrix@.len() <= count,
            count > 0 ==> len >= MIN_LINE_LEN,
            forall|i: int|
                0 <= i < matrix@.len() ==> (#[trigger] matrix@[i])@.is_fresh(len as nat) && matrix@[i]@.wf(),
        decreases count - matrix@.len(),
    {
        match LineState::new(len) {
            Ok(line) => {
                matrix.push(line);
            },
            Err(e) => {
                return Err(e);
            },
        }
    }
    proof {
        lemma_fresh_grid_matches(matrix@, width as nat, height as nat, state.direction);
    }
    Ok(())
}

/// Whether the grid has the geometry `count` lines of `len` cells.
fn has_geometry(matrix: &Vec<LineState>, count: usize, len: usize) -> (b: bool)
    ensures
        b == (matrix@.len() == count && forall|i: int|
            0 <= i < matrix@.len() ==> (#[trigger] matrix@[i]).line@.len() == len),
{
    if matrix.len() != count {
        return false;
    }
    let mut i: usize = 0;
    while i < matrix.len()
        invariant
            i <= matrix@.len(),
            forall|j: int| 0 <= j < i ==> (#[trigger] matrix@[j]).line@.len() == len,
        decreases matrix@.len() - i,
    {
        if matrix[i].line.len() != len {
            return false;
        }
        i += 1;
    }
    true
}

/// Brings the grid in line with the display: where the grid already has the
/// geometry that the display and the direction call for, it is left as it
/// is; where it differs, whether the display grew or shrank, the grid is
/// built anew. Returns whether it was rebuilt.
pub fn reconcile(matrix: &mut Vec<LineState>, width: u16, height: u16, state: &State) -> (r: Result<
    bool,
    GeometryError,
>)
    ensures
        match geometry_error(width as nat, height as nat, state.direction) {
            Some(e) => r == Err::<bool, GeometryError>(e) && final(matrix)@.len() == 0,
            None => if grid_matches(old(matrix)@, width as nat, height as nat, state.direction) {
                r == Ok::<bool, GeometryError>(false) && final(matrix)@ == old(matrix)@
            } else {
                r == Ok::<bool, GeometryError>(true) && is_fresh_grid(
                    final(matrix)@,
                    width as nat,
                    height as nat,
                    state.direction,
                )
            },
        },
        r is Ok ==> grid_matches(final(matrix)@, width as nat, height as nat, state.direction),
{
    match geometry(width, height, state.direction) {
        Ok((count, len)) => {
            if has_geometry(matrix, count, len) {
                return Ok(false);
            }
        },
        Err(_) => {},
    }
    match create_matrix(matrix, width, height, state) {
        Ok(()) => Ok(true),
        Err(e) => Err(e),
    }
}

/// Advances every line of the grid by one tick, in grid order. A line that
/// cannot take a tick is left as it is.
pub fn update_lines(matrix: &mut [LineState])
    ensures
        final(matrix)@.len() == old(matrix)@.len(),
        forall|i: int|
            0 <= i < old(matrix)@.len() ==> line_advanced(#[trigger] old(matrix)@[i], final(matrix)@[i]),
{
    let n = matrix.len();
    let mut i: usize = 0;
    while i < n
        invariant
            i <= n,
            matrix@.len() == n,
            old(matrix)@.len() == n,
            forall|j: int| 0 <= j < i ==> line_advanced(#[trigger] old(matrix)@[j], matrix@[j]),
            forall|j: int| i <= j < n ==> matrix@[j] == old(matrix)@[j],
        decreases n - i,
    {
        if matrix[i].can_tick() {
            matrix[i].update_line();
        }
        i += 1;
    }
}

/// `after` is `before` one tick later, or `before` itself where it cannot
/// take a tick.
pub open spec fn line_advanced(before: LineState, after: LineState) -> bool {
    if before@.can_tick() {
        is_random_tick(before@, after@)
    } else {
        after == before
    }
}

} // verus!
