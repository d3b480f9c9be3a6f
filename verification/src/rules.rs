use vstd::prelude::*;

verus! {

use crate::cell::Cell;

/// The flat row-major position of the cell at `(row, column)` in a grid
/// `width` columns wide.
pub open spec fn flat_index(width: int, row: int, column: int) -> int {
    row * width + column
}

/// The coordinate one step before `x`, wrapping from 0 around to `limit - 1`.
pub open spec fn wrap_prior(x: int, limit: int) -> int {
    if x == 0 {
        limit - 1
    } else {
        x - 1
    }
}

/// The coordinate one step after `x`, wrapping from `limit - 1` around to 0.
pub open spec fn wrap_next(x: int, limit: int) -> int {
    if x == limit - 1 {
        0
    } else {
        x + 1
    }
}

/// The cell of the row-major grid `g` (`width` columns) at `(row, column)`.
pub open spec fn grid_cell(g: Seq<Cell>, width: int, row: int, column: int) -> Cell {
    g[flat_index(width, row, column)]
}

/// How many of the 8 Moore neighbors of `(row, column)` are alive, with the
/// grid treated as a torus: both coordinates wrap at the edges.
pub open spec fn live_neighbors(g: Seq<Cell>, width: int, height: int, row: int, column: int) -> int {
    let up = wrap_prior(row, height);
    let down = wrap_next(row, height);
    let left = wrap_prior(column, width);
    let right = wrap_next(column, width);
    grid_cell(g, width, up, left).weight() + grid_cell(g, width, up, column).weight()
        + grid_cell(g, width, up, right).weight() + grid_cell(g, width, row, left).weight()
        + grid_cell(g, width, row, right).weight() + grid_cell(g, width, down, left).weight()
        + grid_cell(g, width, down, column).weight() + grid_cell(g, width, down, right).weight()
}

/// The B3/S23 rule table: the next state of a cell that has `n` live
/// neighbors. A live cell survives on 2 or 3 live neighbors; a dead cell is
/// born on exactly 3; every other cell is dead in the next generation.
pub open spec fn next_cell(current: Cell, n: int) -> Cell {
    if current is Alive && n < 2 {
        Cell::Dead
    } else if current is Alive && (n == 2 || n == 3) {
        Cell::Alive
    } else if current is Alive {
        Cell::Dead
    } else if n == 3 {
        Cell::Alive
    } else {
        current
    }
}

/// One generation step of the whole grid, every cell updated simultaneously
/// from the same previous state.
pub open spec fn step(g: Seq<Cell>, width: int, height: int) -> Seq<Cell> {
    Seq::new(g.len(), |i: int| next_cell(g[i], live_neighbors(g, width, height, i / width, i % width)))
}

/// The grid after `n` generation steps.
pub open spec fn step_n(g: Seq<Cell>, width: int, height: int, n: nat) -> Seq<Cell>
    decreases n,
{
    if n == 0 {
        g
    } else {
        step(step_n(g, width, height, (n - 1) as nat), width, height)
    }
}

/// Whether one of the listed `(row, column)` pairs names the flat position
/// `i` of a grid `width` columns wide.
pub open spec fn lists_index(coords: Seq<(u32, u32)>, width: int, i: int) -> bool {
    lists_index_upto(coords, coords.len() as int, width, i)
}

/// Whether one of the first `upto` listed pairs names the flat position `i`.
pub open spec fn lists_index_upto(coords: Seq<(u32, u32)>, upto: int, width: int, i: int) -> bool {
    exists|k: int|
        0 <= k < upto && k < coords.len() && flat_index(width, coords[k].0 as int, coords[k].1 as int)
            == i
}

/// Whether every listed pair lies inside a `width` by `height` grid.
pub open spec fn coords_in_range(coords: Seq<(u32, u32)>, width: int, height: int) -> bool {
    forall|k: int|
        0 <= k < coords.len() ==> (coords[k].0 as int) < height && (coords[k].1 as int) < width
}

/// The printable glyph of one cell: hollow for dead, solid for alive.
pub open spec fn glyph(c: Cell) -> char {
    if c is Dead {
        '◻'
    } else {
        '◼'
    }
}

/// The text of one grid row: one glyph per cell, ended by a newline.
pub open spec fn row_text(g: Seq<Cell>, width: int, row: int) -> Seq<char> {
    Seq::new(width as nat, |c: int| glyph(grid_cell(g, width, row, c))).push('\n')
}

/// The text of the rows `0 .. row`, in order.
pub open spec fn rows_text(g: Seq<Cell>, width: int, row: int) -> Seq<char>
    decreases row,
{
    if row <= 0 {
        Seq::empty()
    } else {
        rows_text(g, width, row - 1) + row_text(g, width, row - 1)
    }
}

/// The full text snapshot of a grid: every row in row-major order, each row
/// newline-terminated.
pub open spec fn render_text(g: Seq<Cell>, width: int, height: int) -> Seq<char> {
    rows_text(g, width, height)
}

/// Rendering is idempotent: the snapshot is a function of the grid state
/// alone, so two renders with no mutation in between yield the same text.
pub proof fn lemma_render_deterministic(a: Seq<Cell>, b: Seq<Cell>, width: int, height: int)
    requires
        a == b,
    ensures
        render_text(a, width, height) == render_text(b, width, height),
{
}

/// Determinism: the generations are a function of the initial state alone.
/// Two runs that start from equal grids agree after any number of steps.
pub proof fn lemma_generations_deterministic(
    a: Seq<Cell>,
    b: Seq<Cell>,
    width: int,
    height: int,
    n: nat,
)
    requires
        a == b,
    ensures
        step_n(a, width, height, n) == step_n(b, width, height, n),
{
}

/// The rule table, row by row: underpopulation and overpopulation kill a
/// live cell, 2 or 3 neighbors keep it, exactly 3 neighbors revive a dead
/// cell, and a dead cell stays dead otherwise.
pub proof fn lemma_rule_table(current: Cell, n: int)
    ensures
        current is Alive && n < 2 ==> next_cell(current, n) is Dead,
        current is Alive && (n == 2 || n == 3) ==> next_cell(current, n) is Alive,
        current is Alive && n > 3 ==> next_cell(current, n) is Dead,
        current is Dead && n == 3 ==> next_cell(current, n) is Alive,
        current is Dead && n != 3 ==> next_cell(current, n) is Dead,
{
}

/// Toroidal wraparound at the corners: the live-neighbor count of each
/// corner cell reads the cells of the opposite edges and the opposite
/// corner, spelled out below as the exact 8-cell sum for all four corners.
pub proof fn lemma_corner_wraparound(g: Seq<Cell>, width: int, height: int)
    requires
        2 <= width,
        2 <= height,
    ensures
        live_neighbors(g, width, height, 0, 0) == grid_cell(g, width, height - 1, width - 1).weight()
            + grid_cell(g, width, height - 1, 0).weight() + grid_cell(g, width, height - 1, 1).weight()
            + grid_cell(g, width, 0, width - 1).weight() + grid_cell(g, width, 0, 1).weight()
            + grid_cell(g, width, 1, width - 1).weight() + grid_cell(g, width, 1, 0).weight()
            + grid_cell(g, width, 1, 1).weight(),
        live_neighbors(g, width, height, 0, width - 1) == grid_cell(g, width, height - 1, width - 2).weight()
            + grid_cell(g, width, height - 1, width - 1).weight() + grid_cell(g, width, height - 1, 0).weight()
            + grid_cell(g, width, 0, width - 2).weight() + grid_cell(g, width, 0, 0).weight()
            + grid_cell(g, width, 1, width - 2).weight() + grid_cell(g, width, 1, width - 1).weight()
            + grid_cell(g, width, 1, 0).weight(),
        live_neighbors(g, width, height, height - 1, 0) == grid_cell(g, width, height - 2, width - 1).weight()
            + grid_cell(g, width, height - 2, 0).weight() + grid_cell(g, width, height - 2, 1).weight()
            + grid_cell(g, width, height - 1, width - 1).weight() + grid_cell(g, width, height - 1, 1).weight()
            + grid_cell(g, width, 0, width - 1).weight() + grid_cell(g, width, 0, 0).weight()
            + grid_cell(g, width, 0, 1).weight(),
        live_neighbors(g, width, height, height - 1, width - 1) == grid_cell(g, width, height - 2, width - 2).weight()
            + grid_cell(g, width, height - 2, width - 1).weight() + grid_cell(g, width, height - 2, 0).weight()
            + grid_cell(g, width, height - 1, width - 2).weight() + grid_cell(g, width, height - 1, 0).weight()
            + grid_cell(g, width, 0, width - 2).weight() + grid_cell(g, width, 0, width - 1).weight()
            + grid_cell(g, width, 0, 0).weight(),
{
}

} // verus!
