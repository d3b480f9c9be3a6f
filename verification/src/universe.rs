use vstd::prelude::*;

verus! {

use crate::cell::Cell;
use crate::rules::{
    flat_index, wrap_prior, wrap_next, grid_cell, live_neighbors, step, lists_index,
    lists_index_upto, coords_in_range, glyph, rows_text, render_text,
};
use vstd::string::StringExecFns;

/// The error a direct-index operation returns when a coordinate names a cell
/// outside the grid. Direct indexing never wraps: wraparound belongs to
/// neighbor counting alone, and a coordinate past the edge is a caller bug.
#[derive(Clone, Copy, Debug, PartialEq, Eq, Structural)]
pub enum GridError {
    OutOfRange,
}

/// A toroidal Game of Life grid: dimensions plus a flat row-major cell
/// buffer of exactly `width * height` cells.
///
/// A zero width or height is valid and leaves a permanently empty grid: it
/// has no cells, and `tick` has nothing to update.
pub struct Universe {
    width: u32,
    height: u32,
    cells: Vec<Cell>,
}

/// Relies on `rand::random` with the standard distribution on `bool`: a fair
/// coin flip from the thread-local generator. Nothing is promised of the
/// outcome.
#[verifier::external_body]
fn random_alive() -> bool {
    rand::random()
}

impl Universe {
    /// The grid width, as a mathematical integer.
    pub closed spec fn spec_width(&self) -> int {
        self.width as int
    }

    /// The grid height, as a mathematical integer.
    pub closed spec fn spec_height(&self) -> int {
        self.height as int
    }

    /// The cell buffer, as a row-major sequence.
    pub closed spec fn grid(&self) -> Seq<Cell> {
        self.cells@
    }

    /// Conservation of size: the buffer holds exactly `width * height`
    /// cells. Every operation keeps this.
    pub open spec fn wf(&self) -> bool {
        self.grid().len() == self.spec_width() * self.spec_height()
    }

    /// A buffer of `n` dead cells.
    fn dead_cells(n: usize) -> (v: Vec<Cell>)
        ensures
            v@.len() == n,
            forall|i: int| 0 <= i < n ==> v@[i] is Dead,
    {
        let mut v: Vec<Cell> = Vec::new();
        while v.len() < n
            invariant
                v@.len() <= n,
                forall|i: int| 0 <= i < v@.len() ==> v@[i] is Dead,
            decreases n - v@.len(),
        {
            v.push(Cell::Dead);
        }
        v
    }

    /// A grid of the given dimensions whose cells are each independently
    /// seeded alive or dead by a coin flip.
    pub fn with_size(width: u32, height: u32) -> (u: Universe)
        requires
            width as int * height as int <= usize::MAX,
        ensures
            u.wf(),
            u.spec_width() == width,
            u.spec_height() == height,
    {
        let total: usize = (width as usize) * (height as usize);
        let mut cells: Vec<Cell> = Vec::new();
        while cells.len() < total
            invariant
                cells@.len() <= total,
            decreases total - cells@.len(),
        {
            let c = if random_alive() {
                Cell::Alive
            } else {
                Cell::Dead
            };
            cells.push(c);
        }
        Universe { width, height, cells }
    }

    /// A randomly seeded grid of the default 128 by 128 size.
    pub fn new() -> (u: Universe)
        ensures
            u.wf(),
            u.spec_width() == 128,
            u.spec_height() == 128,
    {
        Universe::with_size(128, 128)
    }

    /// The grid width.
    pub fn width(&self) -> (w: u32)
        ensures
            w as int == self.spec_width(),
    {
        self.width
    }

    /// The grid height.
    pub fn height(&self) -> (h: u32)
        ensures
            h as int == self.spec_height(),
    {
        self.height
    }

    /// Read-only access to the whole cell buffer, row-major.
    pub fn get_cells(&self) -> (r: &[Cell])
        ensures
            r@ == self.grid(),
    {
        self.cells.as_slice()
    }

    /// The cell buffer as a borrowed slice, for renderers that read the raw
    /// state without copying. The borrow does not survive a mutation: a
    /// resize reallocates the buffer.
    pub fn cells(&self) -> (r: &[Cell])
        ensures
            r@ == self.grid(),
    {
        self.cells.as_slice()
    }

    /// Sets every cell to `Dead`, keeping the dimensions.
    pub fn clear(&mut self)
        requires
            old(self).wf(),
        ensures
            final(self).wf(),
            final(self).spec_width() == old(self).spec_width(),
            final(self).spec_height() == old(self).spec_height(),
            forall|i: int| 0 <= i < final(self).grid().len() ==> final(self).grid()[i] is Dead,
    {
        let n = self.cells.len();
        self.cells = Self::dead_cells(n);
    }

    /// Sets the width and reallocates the buffer at the new total size with
    /// every cell `Dead`: the current pattern is not preserved. A width of 0
    /// leaves a valid, permanently empty grid.
    pub fn set_width(&mut self, width: u32)
        requires
            width as int * old(self).spec_height() <= usize::MAX,
        ensures
            final(self).wf(),
            final(self).spec_width() == width,
            final(self).spec_height() == old(self).spec_height(),
            forall|i: int| 0 <= i < final(self).grid().len() ==> final(self).grid()[i] is Dead,
    {
        self.width = width;
        let n: usize = (width as usize) * (self.height as usize);
        self.cells = Self::dead_cells(n);
    }

    /// Sets the height and reallocates the buffer at the new total size with
    /// every cell `Dead`: the current pattern is not preserved. A height of 0
    /// leaves a valid, permanently empty grid.
    pub fn set_height(&mut self, height: u32)
        requires
            old(self).spec_width() * height as int <= usize::MAX,
        ensures
            final(self).wf(),
            final(self).spec_width() == old(self).spec_width(),
            final(self).spec_height() == height,
            forall|i: int| 0 <= i < final(self).grid().len() ==> final(self).grid()[i] is Dead,
    {
        self.height = height;
        let n: usize = (self.width as usize) * (height as usize);
        self.cells = Self::dead_cells(n);
    }

    /// The flat buffer position of `(row, column)`, valid for in-range
    /// coordinates only: direct indexing does not wrap.
    fn get_index(&self, row: u32, column: u32) -> (idx: usize)
        requires
            self.wf(),
            (row as int) < self.spec_height(),
            (column as int) < self.spec_width(),
        ensures
            idx as int == flat_index(self.spec_width(), row as int, column as int),
            idx < self.grid().len(),
    {
        let len: usize = self.cells.len();
        proof {
            let w: int = self.spec_width();
            let h: int = self.spec_height();
            let r: int = row as int;
            let c: int = column as int;
            assert(r * w + c < w * h) by (nonlinear_arith)
                requires
                    0 <= r < h,
                    0 <= c < w,
            ;
            assert(r * w + c < len);
        }
        (row as usize) * (self.width as usize) + (column as usize)
    }

    /// How many of the 8 Moore neighbors of `(row, column)` are alive, with
    /// both coordinates wrapping toroidally at the grid edges. Each wrapped
    /// coordinate is found by a branch, avoiding division.
    #[verifier::rlimit(50)]
    pub fn live_neighbor_count(&self, row: u32, column: u32) -> (count: u8)
        requires
            self.wf(),
            (row as int) < self.spec_height(),
            (column as int) < self.spec_width(),
        ensures
            count as int == live_neighbors(
                self.grid(),
                self.spec_width(),
                self.spec_height(),
                row as int,
                column as int,
            ),
    {
        let north = if row == 0 {
            self.height - 1
        } else {
            row - 1
        };
        let south = if row == self.height - 1 {
            0
        } else {
            row + 1
        };
        let west = if column == 0 {
            self.width - 1
        } else {
            column - 1
        };
        let east = if column == self.width - 1 {
            0
        } else {
            column + 1
        };

        let mut count: u8 = 0;
        count += self.cells[self.get_index(north, west)].count_value();
        count += self.cells[self.get_index(north, column)].count_value();
        count += self.cells[self.get_index(north, east)].count_value();
        count += self.cells[self.get_index(row, west)].count_value();
        count += self.cells[self.get_index(row, east)].count_value();
        count += self.cells[self.get_index(south, west)].count_value();
        count += self.cells[self.get_index(south, column)].count_value();
        count += self.cells[self.get_index(south, east)].count_value();
        count
    }

    /// The coordinate before `x`, computed with modular arithmetic as
    /// `(x + limit - 1) % limit`.
    fn prior_wrapped(x: u32, limit: u32) -> (r: u32)
        requires
            1 <= limit,
            x < limit,
        ensures
            r as int == wrap_prior(x as int, limit as int),
    {
        let s: u64 = (x as u64) + (limit as u64) - 1;
        proof {
            let xi: int = x as int;
            let li: int = limit as int;
            if xi == 0 {
                vstd::arithmetic::div_mod::lemma_small_mod((li - 1) as nat, li as nat);
            } else {
                vstd::arithmetic::div_mod::lemma_mod_multiples_vanish(1, xi - 1, li);
                vstd::arithmetic::div_mod::lemma_small_mod((xi - 1) as nat, li as nat);
            }
        }
        (s % (limit as u64)) as u32
    }

    /// The coordinate after `x`, computed with modular arithmetic as
    /// `(x + 1) % limit`.
    fn next_wrapped(x: u32, limit: u32) -> (r: u32)
        requires
            1 <= limit,
            x < limit,
        ensures
            r as int == wrap_next(x as int, limit as int),
    {
        let s: u64 = (x as u64) + 1;
        proof {
            let xi: int = x as int;
            let li: int = limit as int;
            if xi == li - 1 {
                vstd::arithmetic::div_mod::lemma_mod_multiples_vanish(1, 0, li);
                vstd::arithmetic::div_mod::lemma_small_mod(0, li as nat);
            } else {
                vstd::arithmetic::div_mod::lemma_small_mod((xi + 1) as nat, li as nat);
            }
        }
        (s % (limit as u64)) as u32
    }

    /// The same live-neighbor count as `live_neighbor_count`, computed with
    /// modular wraparound arithmetic; slower, and proved to agree.
    pub fn slow_live_neighbor_count(&self, row: u32, column: u32) -> (count: u8)
        requires
            self.wf(),
            (row as int) < self.spec_height(),
            (column as int) < self.spec_width(),
        ensures
            count as int == live_neighbors(
                self.grid(),
                self.spec_width(),
                self.spec_height(),
                row as int,
                column as int,
            ),
    {
        let north = Self::prior_wrapped(row, self.height);
        let south = Self::next_wrapped(row, self.height);
        let west = Self::prior_wrapped(column, self.width);
        let east = Self::next_wrapped(column, self.width);

        let mut count: u8 = 0;
        count += self.cells[self.get_index(north, west)].count_value();
        count += self.cells[self.get_index(north, column)].count_value();
        count += self.cells[self.get_index(north, east)].count_value();
        count += self.cells[self.get_index(row, west)].count_value();
        count += self.cells[self.get_index(row, east)].count_value();
        count += self.cells[self.get_index(south, west)].count_value();
        count += self.cells[self.get_index(south, column)].count_value();
        count += self.cells[self.get_index(south, east)].count_value();
        count
    }

    /// Flips the named cell between `Dead` and `Alive`. Direct indexing: the
    /// coordinates do not wrap, and an out-of-range coordinate is rejected
    /// with the grid left unchanged.
    pub fn toggle_cell(&mut self, row: u32, column: u32) -> (r: Result<(), GridError>)
        requires
            old(self).wf(),
        ensures
            final(self).wf(),
            final(self).spec_width() == old(self).spec_width(),
            final(self).spec_height() == old(self).spec_height(),
            r is Ok <==> (row as int) < old(self).spec_height() && (column as int) < old(
                self,
            ).spec_width(),
            r is Ok ==> final(self).grid() == old(self).grid().update(
                flat_index(old(self).spec_width(), row as int, column as int),
                (if grid_cell(old(self).grid(), old(self).spec_width(), row as int, column as int)
                    is Dead {
                    Cell::Alive
                } else {
                    Cell::Dead
                }),
            ),
            r is Err ==> *final(self) == *old(self),
            r is Err ==> r == Result::<(), GridError>::Err(GridError::OutOfRange),
    {
        if row < self.height && column < self.width {
            let idx = self.get_index(row, column);
            let mut c = self.cells[idx];
            c.toggle();
            self.cells[idx] = c;
            Ok(())
        } else {
            Err(GridError::OutOfRange)
        }
    }

    /// Sets each listed `(row, column)` cell to `Alive`, leaving every other
    /// cell untouched; used for seeding patterns. Direct indexing: nothing
    /// wraps, and if any coordinate is out of range the whole call is
    /// rejected with the grid unchanged — there is no partial update.
    #[verifier::loop_isolation(false)]
    pub fn set_cells(&mut self, coords: &[(u32, u32)]) -> (r: Result<(), GridError>)
        requires
            old(self).wf(),
        ensures
            final(self).wf(),
            final(self).spec_width() == old(self).spec_width(),
            final(self).spec_height() == old(self).spec_height(),
            r is Ok <==> coords_in_range(coords@, old(self).spec_width(), old(self).spec_height()),
            r is Ok ==> final(self).grid().len() == old(self).grid().len(),
            r is Ok ==> forall|i: int|
                0 <= i < old(self).grid().len() ==> final(self).grid()[i] == (if lists_index(
                    coords@,
                    old(self).spec_width(),
                    i,
                ) {
                    Cell::Alive
                } else {
                    old(self).grid()[i]
                }),
            r is Err ==> *final(self) == *old(self),
            r is Err ==> r == Result::<(), GridError>::Err(GridError::OutOfRange),
    {
        let ghost w: int = self.spec_width();
        let ghost h: int = self.spec_height();
        let mut k: usize = 0;
        while k < coords.len()
            invariant
                k <= coords@.len(),
                forall|j: int|
                    0 <= j < k ==> (coords@[j].0 as int) < h && (coords@[j].1 as int) < w,
            decreases coords@.len() - k,
        {
            let (row, col) = coords[k];
            if !(row < self.height && col < self.width) {
                proof {
                    assert(!coords_in_range(coords@, w, h)) by {
                        assert((coords@[k as int].0 as int) >= h || (coords@[k as int].1 as int)
                            >= w);
                    }
                }
                return Err(GridError::OutOfRange);
            }
            k += 1;
        }
        let ghost g0 = self.cells@;
        let mut k: usize = 0;
        while k < coords.len()
            invariant
                k <= coords@.len(),
                self.spec_width() == w,
                self.spec_height() == h,
                self.wf(),
                self.cells@.len() == g0.len(),
                forall|i: int|
                    0 <= i < g0.len() ==> self.cells@[i] == (if lists_index_upto(
                        coords@,
                        k as int,
                        w,
                        i,
                    ) {
                        Cell::Alive
                    } else {
                        g0[i]
                    }),
            decreases coords@.len() - k,
        {
            let (row, col) = coords[k];
            let idx = self.get_index(row, col);
            self.cells[idx] = Cell::Alive;
            proof {
                assert forall|i: int|
                    0 <= i < g0.len() implies self.cells@[i] == (if lists_index_upto(
                    coords@,
                    k as int + 1,
                    w,
                    i,
                ) {
                    Cell::Alive
                } else {
                    g0[i]
                }) by {
                    if i == idx as int {
                        assert(flat_index(w, coords@[k as int].0 as int, coords@[k as int].1 as int)
                            == i);
                        assert(lists_index_upto(coords@, k as int + 1, w, i));
                    } else {
                        if lists_index_upto(coords@, k as int + 1, w, i) {
                            let j = choose|j: int|
                                0 <= j < k as int + 1 && j < coords@.len() && flat_index(
                                    w,
                                    coords@[j].0 as int,
                                    coords@[j].1 as int,
                                ) == i;
                            assert(j != k as int);
                            assert(lists_index_upto(coords@, k as int, w, i));
                        } else {
                            assert(!lists_index_upto(coords@, k as int, w, i));
                        }
                    }
                }
            }
            k += 1;
        }
        proof {
            assert(forall|i: int|
                0 <= i < g0.len() ==> lists_index_upto(coords@, coords@.len() as int, w, i)
                    == lists_index(coords@, w, i));
        }
        Ok(())
    }

    /// Advances the grid by exactly one generation: every cell is updated
    /// simultaneously by the B3/S23 rule from the previous generation alone,
    /// written to a fresh buffer that replaces the grid at the end.
    #[verifier::loop_isolation(false)]
    pub fn tick(&mut self)
        requires
            old(self).wf(),
        ensures
            final(self).wf(),
            final(self).spec_width() == old(self).spec_width(),
            final(self).spec_height() == old(self).spec_height(),
            final(self).grid() == step(
                old(self).grid(),
                old(self).spec_width(),
                old(self).spec_height(),
            ),
    {
        let ghost g0 = self.cells@;
        let ghost w: int = self.spec_width();
        let ghost h: int = self.spec_height();
        let mut next: Vec<Cell> = Vec::new();
        let mut row: u32 = 0;
        while row < self.height
            invariant
                (row as int) <= h,
                next@.len() == row as int * w,
                forall|i: int| 0 <= i < next@.len() ==> next@[i] == step(g0, w, h)[i],
            decreases h - row as int,
        {
            let mut col: u32 = 0;
            while col < self.width
                invariant
                    (row as int) < h,
                    (col as int) <= w,
                    next@.len() == row as int * w + col as int,
                    forall|i: int| 0 <= i < next@.len() ==> next@[i] == step(g0, w, h)[i],
                decreases w - col as int,
            {
                let idx = self.get_index(row, col);
                let cell = self.cells[idx];
                let n = self.live_neighbor_count(row, col);
                let next_c = if cell == Cell::Alive {
                    if n < 2 {
                        Cell::Dead
                    } else if n <= 3 {
                        Cell::Alive
                    } else {
                        Cell::Dead
                    }
                } else {
                    if n == 3 {
                        Cell::Alive
                    } else {
                        Cell::Dead
                    }
                };
                proof {
                    vstd::arithmetic::div_mod::lemma_fundamental_div_mod_converse_div(
                        idx as int,
                        w,
                        row as int,
                        col as int,
                    );
                    vstd::arithmetic::div_mod::lemma_fundamental_div_mod_converse_mod(
                        idx as int,
                        w,
                        row as int,
                        col as int,
                    );
                    assert(next_c == step(g0, w, h)[idx as int]);
                }
                next.push(next_c);
                col += 1;
            }
            proof {
                assert(row as int * w + w == (row as int + 1) * w) by (nonlinear_arith);
            }
            row += 1;
        }
        proof {
            assert(row as int * w == h * w);
            assert(g0.len() == w * h);
            assert(next@ =~= step(g0, w, h));
        }
        self.cells = next;
    }

    /// A printable multi-line snapshot: one glyph per cell, hollow for dead
    /// and solid for alive, rows in row-major order and each row ended by a
    /// newline.
    #[verifier::loop_isolation(false)]
    pub fn render(&self) -> (s: String)
        requires
            self.wf(),
        ensures
            s@ == render_text(self.grid(), self.spec_width(), self.spec_height()),
    {
        let ghost g = self.cells@;
        let ghost w: int = self.spec_width();
        let ghost h: int = self.spec_height();
        let mut s = String::new();
        let mut row: u32 = 0;
        while row < self.height
            invariant
                (row as int) <= h,
                s@ == rows_text(g, w, row as int),
            decreases h - row as int,
        {
            let mut col: u32 = 0;
            while col < self.width
                invariant
                    (row as int) < h,
                    (col as int) <= w,
                    s@ == rows_text(g, w, row as int) + Seq::new(
                        col as nat,
                        |c: int| glyph(grid_cell(g, w, row as int, c)),
                    ),
                decreases w - col as int,
            {
                let idx = self.get_index(row, col);
                if self.cells[idx] == Cell::Dead {
                    s.append("◻");
                } else {
                    s.append("◼");
                }
                proof {
                    reveal_strlit("◻");
                    reveal_strlit("◼");
                    assert(s@ =~= rows_text(g, w, row as int) + Seq::new(
                        (col + 1) as nat,
                        |c: int| glyph(grid_cell(g, w, row as int, c)),
                    ));
                }
                col += 1;
            }
            s.append("\n");
            proof {
                reveal_strlit("\n");
                assert(s@ =~= rows_text(g, w, row as int + 1));
            }
            row += 1;
        }
        s
    }
}

} // verus!
