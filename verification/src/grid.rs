//! The rectangular cell buffer and the mathematical model of a generation:
//! neighbor counting over the Moore neighborhood and the whole-grid step.

use vstd::prelude::*;

use crate::cell::{next_cell, Cell};

verus! {

/// A rectangular buffer of cells, stored row-major as a vector of rows.
pub struct Grid(pub Vec<Vec<Cell>>);

impl View for Grid {
    type V = Seq<Seq<Cell>>;

    open spec fn view(&self) -> Seq<Seq<Cell>> {
        self.0@.map_values(|row: Vec<Cell>| row@)
    }
}

/// A grid snapshot is well formed for `rows` × `cols` when it has exactly
/// `rows` rows and every row has exactly `cols` cells.
pub open spec fn grid_wf(g: Seq<Seq<Cell>>, rows: int, cols: int) -> bool {
    &&& g.len() == rows
    &&& forall|i: int| 0 <= i < g.len() ==> (#[trigger] g[i]).len() == cols
}

/// True when `(i, j)` names a cell of the grid. Out-of-range coordinates
/// never name a cell: the grid has no wraparound.
pub open spec fn in_bounds(g: Seq<Seq<Cell>>, i: int, j: int) -> bool {
    0 <= i < g.len() && 0 <= j < g[i].len()
}

/// True when `(i, j)` is in range and holds an `Alive` cell.
pub open spec fn alive_at(g: Seq<Seq<Cell>>, i: int, j: int) -> bool {
    in_bounds(g, i, j) && g[i][j] == Cell::Alive
}

/// The contribution of position `(i, j)` to a neighbor count: 1 for an
/// in-range `Alive` cell, 0 otherwise — in particular 0 off the grid.
pub open spec fn live(g: Seq<Seq<Cell>>, i: int, j: int) -> int {
    if alive_at(g, i, j) {
        1
    } else {
        0
    }
}

/// The number of `Alive` cells among the 8 Moore neighbors of `(i, j)`,
/// counting every off-grid position as 0.
pub open spec fn neighbor_count(g: Seq<Seq<Cell>>, i: int, j: int) -> int {
    live(g, i - 1, j - 1) + live(g, i - 1, j) + live(g, i - 1, j + 1) + live(g, i, j - 1) + live(
        g,
        i,
        j + 1,
    ) + live(g, i + 1, j - 1) + live(g, i + 1, j) + live(g, i + 1, j + 1)
}

/// One generation step of a whole grid: every cell's next state is a
/// function of the same pre-step snapshot `g`, so no cell update can
/// observe another cell's next-generation value.
pub open spec fn step_grid(g: Seq<Seq<Cell>>) -> Seq<Seq<Cell>> {
    Seq::new(g.len(), |i: int| Seq::new(g[i].len(), |j: int| next_cell(g[i][j], neighbor_count(g, i, j))))
}

/// `n` generation steps in a row.
pub open spec fn step_n(g: Seq<Seq<Cell>>, n: nat) -> Seq<Seq<Cell>>
    decreases n,
{
    if n == 0 {
        g
    } else {
        step_grid(step_n(g, (n - 1) as nat))
    }
}

/// Positions outside `[0, rows) × [0, cols)` contribute nothing to any
/// neighbor count: edges are hard boundaries, with no wraparound.
pub proof fn lemma_off_grid_contributes_zero(g: Seq<Seq<Cell>>, i: int, j: int)
    requires
        !in_bounds(g, i, j),
    ensures
        live(g, i, j) == 0,
{
}

/// A cell in the top-left corner has at most 3 neighbors that can count:
/// its five off-grid offsets always contribute 0, whatever the grid holds.
pub proof fn lemma_corner_neighbor_bound(g: Seq<Seq<Cell>>)
    ensures
        neighbor_count(g, 0, 0) <= 3,
{
}

/// A neighbor count always lies in the range [0, 8].
pub proof fn lemma_neighbor_count_range(g: Seq<Seq<Cell>>, i: int, j: int)
    ensures
        0 <= neighbor_count(g, i, j) <= 8,
{
}

impl Grid {
    /// Builds a `rows` × `cols` grid with every cell `Dead`.
    pub fn new(rows: usize, cols: usize) -> (g: Grid)
        ensures
            grid_wf(g@, rows as int, cols as int),
            forall|i: int, j: int| in_bounds(g@, i, j) ==> (#[trigger] g@[i][j]) == Cell::Dead,
    {
        let mut outer: Vec<Vec<Cell>> = Vec::new();
        for i in 0..rows
            invariant
                outer@.len() == i,
                forall|r: int| 0 <= r < i ==> (#[trigger] outer@[r])@.len() == cols,
                forall|r: int, c: int|
                    0 <= r < i && 0 <= c < cols ==> outer@[r]@[c] == Cell::Dead,
        {
            let mut row: Vec<Cell> = Vec::new();
            for j in 0..cols
                invariant
                    row@.len() == j,
                    forall|c: int| 0 <= c < j ==> row@[c] == Cell::Dead,
            {
                row.push(Cell::Dead);
            }
            outer.push(row);
        }
        Grid(outer)
    }

    /// Reads the cell at `(i, j)`.
    pub fn get(&self, i: usize, j: usize) -> (c: Cell)
        requires
            in_bounds(self@, i as int, j as int),
        ensures
            c == self@[i as int][j as int],
    {
        self.0[i][j]
    }

    /// Overwrites the cell at `(i, j)`, leaving every other cell unchanged.
    pub fn put(&mut self, i: usize, j: usize, c: Cell)
        requires
            in_bounds(old(self)@, i as int, j as int),
        ensures
            final(self)@ == old(self)@.update(i as int, old(self)@[i as int].update(j as int, c)),
    {
        let row = &mut self.0[i];
        row[j] = c;
        proof {
            assert(self@ =~~= old(self)@.update(i as int, old(self)@[i as int].update(j as int, c)));
        }
    }
}

} // verus!
