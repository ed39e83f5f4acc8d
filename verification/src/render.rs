//! Rendering a generation as text: each row becomes one line closed by a
//! newline, and each cell becomes the two-character token `"O "` (alive) or
//! `". "` (dead).

use vstd::prelude::*;

use crate::cell::Cell;
use crate::game::Game;
use crate::grid::grid_wf;

verus! {

/// The two-character token of one cell.
pub open spec fn render_cell(c: Cell) -> Seq<char> {
    if c == Cell::Alive {
        seq!['O', ' ']
    } else {
        seq!['.', ' ']
    }
}

/// One row as text: the tokens of its cells, left to right.
pub open spec fn render_row(row: Seq<Cell>) -> Seq<char>
    decreases row.len(),
{
    if row.len() == 0 {
        Seq::empty()
    } else {
        render_row(row.drop_last()) + render_cell(row.last())
    }
}

/// A whole grid as text: each row's line, top to bottom, each closed by a
/// newline.
pub open spec fn render_grid(g: Seq<Seq<Cell>>) -> Seq<char>
    decreases g.len(),
{
    if g.len() == 0 {
        Seq::empty()
    } else {
        render_grid(g.drop_last()) + render_row(g.last()).push('\n')
    }
}

/// How often `ch` occurs in `s`.
pub open spec fn count_char(s: Seq<char>, ch: char) -> int
    decreases s.len(),
{
    if s.len() == 0 {
        0
    } else {
        count_char(s.drop_last(), ch) + if s.last() == ch {
            1int
        } else {
            0int
        }
    }
}

/// Character counts add up over concatenation.
pub proof fn lemma_count_char_add(a: Seq<char>, b: Seq<char>, ch: char)
    ensures
        count_char(a + b, ch) == count_char(a, ch) + count_char(b, ch),
    decreases b.len(),
{
    if b.len() == 0 {
        assert(a + b =~= a);
    } else {
        assert((a + b).drop_last() =~= a + b.drop_last());
        lemma_count_char_add(a, b.drop_last(), ch);
    }
}

/// A rendered row is exactly two characters per cell: token `2j` is the
/// marker of cell `j` — `O` for alive, `.` for dead — and is followed by a
/// space. So each line carries one token per grid column.
pub proof fn lemma_render_row_tokens(row: Seq<Cell>)
    ensures
        render_row(row).len() == 2 * row.len(),
        forall|j: int|
            0 <= j < row.len() ==> render_row(row)[2 * j] == (if row[j] == Cell::Alive {
                'O'
            } else {
                '.'
            }) && render_row(row)[2 * j + 1] == ' ',
    decreases row.len(),
{
    if row.len() > 0 {
        lemma_render_row_tokens(row.drop_last());
        let prefix = render_row(row.drop_last());
        let last = row.len() - 1;
        assert forall|j: int| 0 <= j < row.len() implies render_row(row)[2 * j] == (if row[j]
            == Cell::Alive {
            'O'
        } else {
            '.'
        }) && render_row(row)[2 * j + 1] == ' ' by {
            if j < last {
                assert(row.drop_last()[j] == row[j]);
                assert(render_row(row)[2 * j] == prefix[2 * j]);
                assert(render_row(row)[2 * j + 1] == prefix[2 * j + 1]);
            } else {
                assert(render_row(row)[2 * j] == render_cell(row.last())[0]);
                assert(render_row(row)[2 * j + 1] == render_cell(row.last())[1]);
            }
        }
    }
}

/// A rendered row contains no newline.
pub proof fn lemma_render_row_no_newline(row: Seq<Cell>)
    ensures
        count_char(render_row(row), '\n') == 0,
    decreases row.len(),
{
    if row.len() > 0 {
        lemma_render_row_no_newline(row.drop_last());
        let cell = render_cell(row.last());
        let single = seq![cell[0]];
        assert(count_char(cell, '\n') == 0) by {
            assert(count_char(Seq::<char>::empty(), '\n') == 0);
            assert(single.drop_last() =~= Seq::<char>::empty());
            assert(count_char(single, '\n') == 0);
            assert(cell.drop_last() =~= single);
            assert(cell.last() != '\n');
        }
        lemma_count_char_add(render_row(row.drop_last()), cell, '\n');
    }
}

/// A rendered grid holds exactly one newline per row: its line count is the
/// grid height.
pub proof fn lemma_render_grid_lines(g: Seq<Seq<Cell>>)
    ensures
        count_char(render_grid(g), '\n') == g.len(),
    decreases g.len(),
{
    if g.len() > 0 {
        lemma_render_grid_lines(g.drop_last());
        lemma_render_row_no_newline(g.last());
        let line = render_row(g.last()).push('\n');
        assert(count_char(line, '\n') == 1) by {
            assert(line.drop_last() =~= render_row(g.last()));
        }
        lemma_count_char_add(render_grid(g.drop_last()), line, '\n');
    }
}

/// The length of a rendered grid with uniform row length `cols`.
pub proof fn lemma_render_grid_len(g: Seq<Seq<Cell>>, rows: int, cols: int)
    requires
        grid_wf(g, rows, cols),
    ensures
        render_grid(g).len() == rows * (2 * cols + 1),
    decreases g.len(),
{
    if g.len() > 0 {
        assert(grid_wf(g.drop_last(), rows - 1, cols)) by {
            assert(forall|i: int|
                0 <= i < g.len() - 1 ==> (#[trigger] g.drop_last()[i]).len() == g[i].len());
        }
        lemma_render_grid_len(g.drop_last(), rows - 1, cols);
        lemma_render_row_tokens(g.last());
        assert(g.last().len() == cols);
        assert(render_row(g.last()).len() == 2 * cols);
        assert(render_grid(g) == render_grid(g.drop_last()) + render_row(g.last()).push('\n'));
        assert((rows - 1) * (2 * cols + 1) + (2 * cols + 1) == rows * (2 * cols + 1))
            by (nonlinear_arith);
    } else {
        assert(rows * (2 * cols + 1) == 0) by (nonlinear_arith)
            requires
                rows == 0,
        ;
    }
}

/// Relies on String::push: appends the given character to the end of the
/// string.
#[verifier::external_body]
fn push_char(s: &mut String, c: char)
    ensures
        final(s)@ == old(s)@.push(c),
{
    s.push(c);
}

impl Game {
    /// Produces one textual frame of the current generation: one line per
    /// row, one token per cell, alive and dead cells distinguished by their
    /// markers. Pure with respect to the game: nothing is mutated.
    pub fn render(&self) -> (out: String)
        requires
            self.wf(),
        ensures
            out@ == render_grid(self.front_buf@),
    {
        let rows = self.rows;
        let cols = self.cols;
        let mut out = String::new();
        proof {
            assert(self.front_buf@.take(0) =~= Seq::<Seq<Cell>>::empty());
        }
        for i in 0..rows
            invariant
                self.wf(),
                rows == self.rows,
                cols == self.cols,
                out@ == render_grid(self.front_buf@.take(i as int)),
        {
            let ghost row = self.front_buf@[i as int];
            proof {
                assert(row.take(0) =~= Seq::<Cell>::empty());
                assert(out@ =~= render_grid(self.front_buf@.take(i as int)) + render_row(
                    row.take(0),
                ));
            }
            for j in 0..cols
                invariant
                    self.wf(),
                    rows == self.rows,
                    cols == self.cols,
                    i < rows,
                    row == self.front_buf@[i as int],
                    out@ == render_grid(self.front_buf@.take(i as int)) + render_row(
                        row.take(j as int),
                    ),
            {
                match self.front_buf.get(i, j) {
                    Cell::Alive => push_char(&mut out, 'O'),
                    Cell::Dead => push_char(&mut out, '.'),
                }
                push_char(&mut out, ' ');
                proof {
                    assert(row.take(j + 1).drop_last() =~= row.take(j as int));
                    assert(row.take(j + 1).last() == row[j as int]);
                    assert(out@ =~= render_grid(self.front_buf@.take(i as int)) + render_row(
                        row.take(j + 1),
                    ));
                }
            }
            push_char(&mut out, '\n');
            proof {
                assert(row.take(cols as int) =~= row);
                assert(self.front_buf@.take(i + 1).drop_last() =~= self.front_buf@.take(i as int));
                assert(self.front_buf@.take(i + 1).last() == row);
                assert(out@ =~= render_grid(self.front_buf@.take(i + 1)));
            }
        }
        proof {
            assert(self.front_buf@.take(rows as int) =~= self.front_buf@);
        }
        out
    }
}

} // verus!
