//! Laws of the update rule on whole grids: the pointwise behavior of a
//! step, death by isolation, simultaneous birth, the 2×2 block still life
//! and the blinker oscillator.

use vstd::prelude::*;

use crate::cell::{next_cell, Cell};
use crate::grid::{grid_wf, in_bounds, neighbor_count, step_grid, step_n};

verus! {

/// A step keeps the grid's shape.
pub proof fn lemma_step_preserves_wf(g: Seq<Seq<Cell>>, rows: int, cols: int)
    requires
        grid_wf(g, rows, cols),
    ensures
        grid_wf(step_grid(g), rows, cols),
{
}

/// The value of one cell after a step is the rule table applied to the
/// pre-step snapshot alone — in particular it never depends on any other
/// cell's next-generation value.
pub proof fn lemma_step_cell(g: Seq<Seq<Cell>>, i: int, j: int)
    requires
        in_bounds(g, i, j),
    ensures
        step_grid(g)[i][j] == next_cell(g[i][j], neighbor_count(g, i, j)),
{
}

/// Isolation: a live cell with no live neighbors is dead after one step.
pub proof fn lemma_isolated_cell_dies(g: Seq<Seq<Cell>>, i: int, j: int)
    requires
        in_bounds(g, i, j),
        g[i][j] == Cell::Alive,
        neighbor_count(g, i, j) == 0,
    ensures
        step_grid(g)[i][j] == Cell::Dead,
{
}

/// Birth: a dead cell with exactly three live neighbors is alive after one
/// step. The count is taken in the pre-step snapshot, so every such cell is
/// born simultaneously, even where the count rests on cells that are
/// themselves about to die.
pub proof fn lemma_birth(g: Seq<Seq<Cell>>, i: int, j: int)
    requires
        in_bounds(g, i, j),
        g[i][j] == Cell::Dead,
        neighbor_count(g, i, j) == 3,
    ensures
        step_grid(g)[i][j] == Cell::Alive,
{
}

/// A grid fixed by one step is fixed by any number of steps.
pub proof fn lemma_still_life_forever(g: Seq<Seq<Cell>>, n: nat)
    requires
        step_grid(g) == g,
    ensures
        step_n(g, n) == g,
    decreases n,
{
    if n > 0 {
        lemma_still_life_forever(g, (n - 1) as nat);
    }
}

/// Exactly the four cells of the 2×2 block with top-left corner `(r, c)`
/// are alive.
pub open spec fn is_block(g: Seq<Seq<Cell>>, r: int, c: int) -> bool {
    forall|i: int, j: int|
        in_bounds(g, i, j) ==> ((#[trigger] g[i][j]) == Cell::Alive <==> (r <= i <= r + 1 && c <= j
            <= c + 1))
}

/// Still life: a 2×2 block of live cells in an otherwise dead grid is
/// unchanged by a step — each live cell has exactly 3 live neighbors and
/// no dead cell has 3.
pub proof fn lemma_block_still_life(g: Seq<Seq<Cell>>, rows: int, cols: int, r: int, c: int)
    requires
        grid_wf(g, rows, cols),
        0 <= r,
        r + 1 < rows,
        0 <= c,
        c + 1 < cols,
        is_block(g, r, c),
    ensures
        step_grid(g) == g,
{
    assert forall|i: int, j: int|
        0 <= i < rows && 0 <= j < cols implies #[trigger] step_grid(g)[i][j] == g[i][j] by {
        lemma_step_cell(g, i, j);
    }
    assert(step_grid(g) =~~= g);
}

/// A block is therefore unchanged by any number of steps.
pub proof fn lemma_block_unchanged(
    g: Seq<Seq<Cell>>,
    rows: int,
    cols: int,
    r: int,
    c: int,
    n: nat,
)
    requires
        grid_wf(g, rows, cols),
        0 <= r,
        r + 1 < rows,
        0 <= c,
        c + 1 < cols,
        is_block(g, r, c),
    ensures
        step_n(g, n) == g,
{
    lemma_block_still_life(g, rows, cols, r, c);
    lemma_still_life_forever(g, n);
}

/// Exactly the three cells of row `r`, columns `c` to `c + 2`, are alive.
pub open spec fn is_horizontal_blinker(g: Seq<Seq<Cell>>, r: int, c: int) -> bool {
    forall|i: int, j: int|
        in_bounds(g, i, j) ==> ((#[trigger] g[i][j]) == Cell::Alive <==> (i == r && c <= j <= c
            + 2))
}

/// Exactly the three cells of column `c + 1`, rows `r - 1` to `r + 1`, are
/// alive.
pub open spec fn is_vertical_blinker(g: Seq<Seq<Cell>>, r: int, c: int) -> bool {
    forall|i: int, j: int|
        in_bounds(g, i, j) ==> ((#[trigger] g[i][j]) == Cell::Alive <==> (r - 1 <= i <= r + 1 && j
            == c + 1))
}

/// One step turns a horizontal blinker into the vertical one through the
/// same center.
pub proof fn lemma_blinker_horizontal_to_vertical(
    g: Seq<Seq<Cell>>,
    rows: int,
    cols: int,
    r: int,
    c: int,
)
    requires
        grid_wf(g, rows, cols),
        1 <= r,
        r + 1 < rows,
        0 <= c,
        c + 2 < cols,
        is_horizontal_blinker(g, r, c),
    ensures
        grid_wf(step_grid(g), rows, cols),
        is_vertical_blinker(step_grid(g), r, c),
{
    assert forall|i: int, j: int|
        in_bounds(step_grid(g), i, j) implies ((#[trigger] step_grid(g)[i][j]) == Cell::Alive <==> (
    r - 1 <= i <= r + 1 && j == c + 1)) by {
        lemma_step_cell(g, i, j);
    }
}

/// One step turns a vertical blinker back into the horizontal one.
pub proof fn lemma_blinker_vertical_to_horizontal(
    g: Seq<Seq<Cell>>,
    rows: int,
    cols: int,
    r: int,
    c: int,
)
    requires
        grid_wf(g, rows, cols),
        1 <= r,
        r + 1 < rows,
        0 <= c,
        c + 2 < cols,
        is_vertical_blinker(g, r, c),
    ensures
        grid_wf(step_grid(g), rows, cols),
        is_horizontal_blinker(step_grid(g), r, c),
{
    assert forall|i: int, j: int|
        in_bounds(step_grid(g), i, j) implies ((#[trigger] step_grid(g)[i][j]) == Cell::Alive <==> (
    i == r && c <= j <= c + 2)) by {
        lemma_step_cell(g, i, j);
    }
}

/// The blinker oscillates with period 2: one step yields the vertical
/// line, a second step restores the starting horizontal line exactly.
pub proof fn lemma_blinker_oscillates(g: Seq<Seq<Cell>>, rows: int, cols: int, r: int, c: int)
    requires
        grid_wf(g, rows, cols),
        1 <= r,
        r + 1 < rows,
        0 <= c,
        c + 2 < cols,
        is_horizontal_blinker(g, r, c),
    ensures
        is_vertical_blinker(step_grid(g), r, c),
        step_grid(step_grid(g)) == g,
{
    lemma_blinker_horizontal_to_vertical(g, rows, cols, r, c);
    lemma_blinker_vertical_to_horizontal(step_grid(g), rows, cols, r, c);
    let h = step_grid(step_grid(g));
    assert forall|i: int, j: int| 0 <= i < rows && 0 <= j < cols implies #[trigger] h[i][j] == g[i][j] by {
        assert(h[i][j] == Cell::Alive <==> (i == r && c <= j <= c + 2));
        assert(g[i][j] == Cell::Alive <==> (i == r && c <= j <= c + 2));
    }
    assert(h =~~= g);
}

} // verus!
