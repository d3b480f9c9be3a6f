use vstd::prelude::*;

verus! {

/// The state of one grid cell: dead or alive, and nothing else.
///
/// A state doubles as a count contribution (`weight`), so a row of cells can
/// be summed directly when counting live neighbors.
#[derive(Clone, Copy, Debug, PartialEq, Eq, Structural)]
pub enum Cell {
    Dead,
    Alive,
}

impl Cell {
    /// What this cell contributes to a live-neighbor count: 1 if alive, else 0.
    pub open spec fn weight(self) -> int {
        if self is Alive {
            1
        } else {
            0
        }
    }

    /// Flips the cell between `Dead` and `Alive`.
    pub fn toggle(&mut self)
        ensures
            (*final(self)) is Alive <==> (*old(self)) is Dead,
    {
        *self = match *self {
            Cell::Dead => Cell::Alive,
            Cell::Alive => Cell::Dead,
        };
    }

    /// The numeric state: the run-time value of `weight`.
    pub fn count_value(self) -> (v: u8)
        ensures
            v as int == self.weight(),
    {
        match self {
            Cell::Dead => 0,
            Cell::Alive => 1,
        }
    }
}

} // verus!
