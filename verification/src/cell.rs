//! The binary cell state and the generation-update rule for a single cell.

use vstd::prelude::*;

verus! {

/// One cell of the grid: either `Alive` or `Dead`, with no payload.
#[derive(Clone, Copy, Debug, PartialEq, Eq, Structural)]
pub enum Cell {
    Alive,
    Dead,
}

/// The fixed rule table: an `Alive` cell survives with 2 or 3 live
/// neighbors, a `Dead` cell is born with exactly 3 live neighbors, and
/// every other combination yields `Dead`.
pub open spec fn next_cell(c: Cell, n: int) -> Cell {
    match c {
        Cell::Alive => if n == 2 || n == 3 {
            Cell::Alive
        } else {
            Cell::Dead
        },
        Cell::Dead => if n == 3 {
            Cell::Alive
        } else {
            Cell::Dead
        },
    }
}

/// Computes the next state of one cell from its current state and its live
/// neighbor count, exactly as the rule table prescribes.
pub fn next_state(c: Cell, n: i32) -> (r: Cell)
    ensures
        r == next_cell(c, n as int),
{
    match (c, n) {
        (Cell::Alive, 2 | 3) => Cell::Alive,
        (Cell::Dead, 3) => Cell::Alive,
        _ => Cell::Dead,
    }
}

/// Rule-table conformance: over every neighbor count, the next state is
/// `Alive` exactly for a live cell with 2 or 3 live neighbors or a dead
/// cell with exactly 3.
pub proof fn lemma_rule_table(c: Cell, n: int)
    ensures
        next_cell(c, n) == Cell::Alive <==> ((c == Cell::Alive && (n == 2 || n == 3)) || (c
            == Cell::Dead && n == 3)),
        next_cell(c, n) == Cell::Alive || next_cell(c, n) == Cell::Dead,
{
}

} // verus!
