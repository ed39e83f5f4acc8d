//! The simulation engine: a double-buffered grid with seeding, neighbor
//! counting and the atomic generation step.

use vstd::prelude::*;

use crate::cell::{next_state, Cell};
use crate::grid::{grid_wf, in_bounds, neighbor_count, step_grid, Grid};

verus! {

/// Relies on rand::random::<bool>: an independent fair coin flip. Nothing is
/// promised of the value, which may differ from call to call.
#[verifier::external_body]
fn random_bool() -> bool {
    rand::random()
}

/// Why a mutation was rejected: the coordinate names no cell of the grid.
#[derive(Clone, Copy, Debug, PartialEq, Eq, Structural)]
pub enum GameError {
    OutOfBounds,
}

/// The simulation engine. `front_buf` is the current generation, the source
/// of truth for every read; `back_buf` is the scratch target written during
/// a step and swapped in when the whole generation has been computed.
pub struct Game {
    pub rows: usize,
    pub cols: usize,
    pub front_buf: Grid,
    pub back_buf: Grid,
}

impl Game {
    /// Both buffers have exactly `rows` × `cols` cells. Dimensions are
    /// fixed for the lifetime of the engine: every method preserves this.
    pub open spec fn wf(&self) -> bool {
        &&& grid_wf(self.front_buf@, self.rows as int, self.cols as int)
        &&& grid_wf(self.back_buf@, self.rows as int, self.cols as int)
    }

    /// Builds a `rows` × `cols` game with every cell of both buffers `Dead`.
    pub fn new(rows: usize, cols: usize) -> (game: Game)
        ensures
            game.wf(),
            game.rows == rows,
            game.cols == cols,
            forall|i: int, j: int|
                in_bounds(game.front_buf@, i, j) ==> (#[trigger] game.front_buf@[i][j])
                    == Cell::Dead,
            forall|i: int, j: int|
                in_bounds(game.back_buf@, i, j) ==> (#[trigger] game.back_buf@[i][j])
                    == Cell::Dead,
    {
        Game { rows, cols, front_buf: Grid::new(rows, cols), back_buf: Grid::new(rows, cols) }
    }

    /// Overwrites the current generation at `(i, j)`. The coordinate must
    /// be in bounds; the scratch buffer and the dimensions are untouched.
    pub fn set(&mut self, i: usize, j: usize, state: Cell)
        requires
            old(self).wf(),
            i < old(self).rows,
            j < old(self).cols,
        ensures
            final(self).wf(),
            final(self).rows == old(self).rows,
            final(self).cols == old(self).cols,
            final(self).back_buf == old(self).back_buf,
            final(self).front_buf@ == old(self).front_buf@.update(
                i as int,
                old(self).front_buf@[i as int].update(j as int, state),
            ),
    {
        self.front_buf.put(i, j, state);
    }

    /// Overwrites the current generation at `(i, j)` if the coordinate is
    /// in bounds, and rejects it otherwise, leaving the game unchanged:
    /// silently clamping or wrapping would contradict the no-wraparound
    /// topology.
    pub fn try_set(&mut self, i: usize, j: usize, state: Cell) -> (r: Result<(), GameError>)
        requires
            old(self).wf(),
        ensures
            final(self).wf(),
            final(self).rows == old(self).rows,
            final(self).cols == old(self).cols,
            final(self).back_buf == old(self).back_buf,
            r == Ok::<(), GameError>(()) <==> (i < old(self).rows && j < old(self).cols),
            r == Ok::<(), GameError>(()) ==> final(self).front_buf@ == old(self).front_buf@.update(
                i as int,
                old(self).front_buf@[i as int].update(j as int, state),
            ),
            r is Err ==> *final(self) == *old(self) && r == Err::<(), GameError>(
                GameError::OutOfBounds,
            ),
    {
        if i < self.rows && j < self.cols {
            self.front_buf.put(i, j, state);
            Ok(())
        } else {
            Err(GameError::OutOfBounds)
        }
    }

    /// Re-seeds the current generation: every cell independently becomes
    /// `Alive` or `Dead` on a coin flip. The dimensions and the scratch
    /// buffer are unchanged; which cells come out `Alive` depends on
    /// chance, so nothing is promised of them.
    pub fn fill_random(&mut self)
        requires
            old(self).wf(),
        ensures
            final(self).wf(),
            final(self).rows == old(self).rows,
            final(self).cols == old(self).cols,
            final(self).back_buf == old(self).back_buf,
    {
        let rows = self.rows;
        let cols = self.cols;
        for i in 0..rows
            invariant
                self.wf(),
                rows == self.rows,
                cols == self.cols,
                self.back_buf == old(self).back_buf,
        {
            for j in 0..cols
                invariant
                    self.wf(),
                    rows == self.rows,
                    cols == self.cols,
                    i < rows,
                    self.back_buf == old(self).back_buf,
            {
                let state = if random_bool() {
                    Cell::Alive
                } else {
                    Cell::Dead
                };
                self.front_buf.put(i, j, state);
            }
        }
    }

    /// Counts the `Alive` cells among the 8 Moore neighbors of `(i, j)` in
    /// the current generation. Off-grid positions contribute 0 — the grid
    /// has no wraparound — so the result lies in [0, 8]. Reads only the
    /// current buffer.
    pub fn count_neighbors(&self, i: usize, j: usize) -> (total: i32)
        requires
            self.wf(),
            i < self.rows,
            j < self.cols,
        ensures
            total == neighbor_count(self.front_buf@, i as int, j as int),
            0 <= total <= 8,
    {
        let mut total: i32 = 0;
        if i > 0 && j > 0 && matches!(self.front_buf.get(i - 1, j - 1), Cell::Alive) {
            total = total + 1;
        }
        if i > 0 && matches!(self.front_buf.get(i - 1, j), Cell::Alive) {
            total = total + 1;
        }
        if i > 0 && j + 1 < self.cols && matches!(self.front_buf.get(i - 1, j + 1), Cell::Alive) {
            total = total + 1;
        }
        if j > 0 && matches!(self.front_buf.get(i, j - 1), Cell::Alive) {
            total = total + 1;
        }
        if j + 1 < self.cols && matches!(self.front_buf.get(i, j + 1), Cell::Alive) {
            total = total + 1;
        }
        if i + 1 < self.rows && j > 0 && matches!(self.front_buf.get(i + 1, j - 1), Cell::Alive) {
            total = total + 1;
        }
        if i + 1 < self.rows && matches!(self.front_buf.get(i + 1, j), Cell::Alive) {
            total = total + 1;
        }
        if i + 1 < self.rows && j + 1 < self.cols && matches!(
            self.front_buf.get(i + 1, j + 1),
            Cell::Alive,
        ) {
            total = total + 1;
        }
        total
    }

    /// Advances one generation. Every cell of the new current buffer is the
    /// rule table applied to the old current buffer alone — the conceptual
    /// swap is atomic, so no cell update observes another cell's
    /// next-generation value — and the old current buffer becomes the
    /// scratch buffer.
    pub fn update(&mut self)
        requires
            old(self).wf(),
        ensures
            final(self).wf(),
            final(self).rows == old(self).rows,
            final(self).cols == old(self).cols,
            final(self).front_buf@ == step_grid(old(self).front_buf@),
            final(self).back_buf@ == old(self).front_buf@,
    {
        let rows = self.rows;
        let cols = self.cols;
        for i in 0..rows
            invariant
                self.wf(),
                rows == self.rows,
                cols == self.cols,
                self.front_buf@ == old(self).front_buf@,
                forall|r: int, c: int|
                    0 <= r < i && 0 <= c < cols ==> self.back_buf@[r][c] == step_grid(
                        self.front_buf@,
                    )[r][c],
        {
            for j in 0..cols
                invariant
                    self.wf(),
                    rows == self.rows,
                    cols == self.cols,
                    i < rows,
                    self.front_buf@ == old(self).front_buf@,
                    forall|r: int, c: int|
                        0 <= r < i && 0 <= c < cols ==> self.back_buf@[r][c] == step_grid(
                            self.front_buf@,
                        )[r][c],
                    forall|c: int|
                        0 <= c < j ==> self.back_buf@[i as int][c] == step_grid(
                            self.front_buf@,
                        )[i as int][c],
            {
                let current = self.front_buf.get(i, j);
                let n = self.count_neighbors(i, j);
                let next = next_state(current, n);
                self.back_buf.put(i, j, next);
            }
        }
        core::mem::swap(&mut self.front_buf, &mut self.back_buf);
        proof {
            assert(self.front_buf@ =~~= step_grid(old(self).front_buf@));
        }
    }
}

} // verus!
