//! The two-valued state of one grid position.

use vstd::prelude::*;

verus! {

/// One grid position is either alive or dead; a cell is an immutable value
/// that each generation replaces wholesale.
#[derive(Clone, Copy, Debug, PartialEq, Eq, Structural)]
pub enum Cell {
    Dead,
    Alive,
}

/// The ordinal weight of a cell (dead = 0, alive = 1), used only to sum
/// live neighbors.
pub open spec fn live_weight(c: Cell) -> nat {
    if c == Cell::Alive {
        1
    } else {
        0
    }
}

} // verus!
