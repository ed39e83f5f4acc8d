//! Building a game from a textual seed pattern: each line of the pattern is
//! a row, the character `O` marks an `Alive` cell, any other character marks
//! `Dead`, and a border of `Dead` cells of width `padding` surrounds the
//! pattern on all sides.

use vstd::prelude::*;

use crate::cell::Cell;
use crate::game::Game;
use crate::grid::in_bounds;

verus! {

/// The pattern lines as sequences of characters.
pub open spec fn lines_view(lines: Seq<Vec<char>>) -> Seq<Seq<char>> {
    lines.map_values(|line: Vec<char>| line@)
}

/// The length of the longest line, or 0 when there are no lines.
pub open spec fn max_line_len(lines: Seq<Seq<char>>) -> nat
    decreases lines.len(),
{
    if lines.len() == 0 {
        0
    } else {
        let rest = max_line_len(lines.drop_last());
        if lines.last().len() > rest {
            lines.last().len()
        } else {
            rest
        }
    }
}

/// No line is longer than the longest line.
pub proof fn lemma_max_line_len_bound(lines: Seq<Seq<char>>, k: int)
    requires
        0 <= k < lines.len(),
    ensures
        lines[k].len() <= max_line_len(lines),
    decreases lines.len(),
{
    if k < lines.len() - 1 {
        lemma_max_line_len_bound(lines.drop_last(), k);
    }
}

/// True when grid coordinate `(i, j)` falls on an `O` of the pattern placed
/// with a `padding`-wide border: row `i - padding` of the pattern has an `O`
/// at column `j - padding`. Rows shorter than the longest line leave their
/// trailing cells `Dead`.
pub open spec fn pattern_alive(lines: Seq<Seq<char>>, padding: int, i: int, j: int) -> bool {
    &&& padding <= i < padding + lines.len()
    &&& padding <= j < padding + lines[i - padding].len()
    &&& lines[i - padding][j - padding] == 'O'
}

impl Game {
    /// Builds a game seeded from pattern `lines` with a `padding`-cell-wide
    /// `Dead` border: the grid is (line count + 2·padding) rows by (longest
    /// line + 2·padding) columns — 0 columns when there are no lines — and
    /// a cell is `Alive` exactly where the pattern has an `O`.
    pub fn from_lines(lines: &Vec<Vec<char>>, padding: usize) -> (game: Game)
        requires
            lines@.len() + 2 * padding <= usize::MAX,
            max_line_len(lines_view(lines@)) + 2 * padding <= usize::MAX,
        ensures
            game.wf(),
            game.rows == lines@.len() + 2 * padding,
            game.cols == if lines@.len() == 0 {
                0int
            } else {
                max_line_len(lines_view(lines@)) + 2 * padding
            },
            forall|i: int, j: int|
                in_bounds(game.front_buf@, i, j) ==> ((#[trigger] game.front_buf@[i][j])
                    == Cell::Alive <==> pattern_alive(lines_view(lines@), padding as int, i, j)),
            forall|i: int, j: int|
                in_bounds(game.back_buf@, i, j) ==> (#[trigger] game.back_buf@[i][j])
                    == Cell::Dead,
    {
        let ghost lv = lines_view(lines@);
        let rows = lines.len() + 2 * padding;
        let mut max_len: usize = 0;
        for k in 0..lines.len()
            invariant
                max_len == max_line_len(lv.take(k as int)),
                lv == lines_view(lines@),
        {
            proof {
                assert(lv.take(k + 1).drop_last() =~= lv.take(k as int));
            }
            let len = lines[k].len();
            if len > max_len {
                max_len = len;
            }
        }
        proof {
            assert(lv.take(lines@.len() as int) =~= lv);
        }
        let cols = if lines.len() == 0 {
            0
        } else {
            max_len + 2 * padding
        };
        let mut game = Game::new(rows, cols);
        for i in 0..lines.len()
            invariant
                lv == lines_view(lines@),
                game.wf(),
                game.rows == rows,
                game.cols == cols,
                rows == lines@.len() + 2 * padding,
                lines@.len() > 0 ==> cols == max_line_len(lv) + 2 * padding,
                forall|r: int, c: int|
                    in_bounds(game.back_buf@, r, c) ==> game.back_buf@[r][c] == Cell::Dead,
                forall|r: int, c: int| #![trigger game.front_buf@[r][c]]
                    in_bounds(game.front_buf@, r, c) ==> (game.front_buf@[r][c] == Cell::Alive
                        <==> (pattern_alive(lv, padding as int, r, c) && r < padding + i)),
        {
            proof {
                lemma_max_line_len_bound(lv, i as int);
            }
            let line_len = lines[i].len();
            for j in 0..line_len
                invariant
                    lv == lines_view(lines@),
                    game.wf(),
                    game.rows == rows,
                    game.cols == cols,
                    rows == lines@.len() + 2 * padding,
                    i < lines@.len(),
                    line_len == lv[i as int].len(),
                    lines@.len() > 0 ==> cols == max_line_len(lv) + 2 * padding,
                    lv[i as int].len() <= max_line_len(lv),
                    forall|r: int, c: int|
                        in_bounds(game.back_buf@, r, c) ==> game.back_buf@[r][c] == Cell::Dead,
                    forall|r: int, c: int| #![trigger game.front_buf@[r][c]]
                        in_bounds(game.front_buf@, r, c) ==> (game.front_buf@[r][c] == Cell::Alive
                            <==> (pattern_alive(lv, padding as int, r, c) && (r < padding + i || (r
                            == padding + i && c < padding + j)))),
            {
                let chr = lines[i][j];
                let ghost pre = game.front_buf@;
                if chr == 'O' {
                    game.set(i + padding, j + padding, Cell::Alive);
                }
                proof {
                    assert(lv[i as int] == lines@[i as int]@);
                    assert(chr == lv[i as int][j as int]);
                    assert forall|r: int, c: int| in_bounds(game.front_buf@, r, c) implies (
                    game.front_buf@[r][c] == Cell::Alive <==> (pattern_alive(
                        lv,
                        padding as int,
                        r,
                        c,
                    ) && (r < padding + i || (r == padding + i && c < padding + j + 1)))) by {
                        assert(in_bounds(pre, r, c));
                        assert(pre[r][c] == Cell::Alive <==> (pattern_alive(
                            lv,
                            padding as int,
                            r,
                            c,
                        ) && (r < padding + i || (r == padding + i && c < padding + j))));
                        if !(r == padding + i && c == padding + j) {
                            assert(game.front_buf@[r][c] == pre[r][c]);
                        }
                    }
                }
            }
            proof {
                assert forall|r: int, c: int| in_bounds(game.front_buf@, r, c) implies (
                game.front_buf@[r][c] == Cell::Alive <==> (pattern_alive(lv, padding as int, r, c)
                    && r < padding + i + 1)) by {
                    assert(game.front_buf@[r][c] == Cell::Alive <==> (pattern_alive(
                        lv,
                        padding as int,
                        r,
                        c,
                    ) && (r < padding + i || (r == padding + i && c < padding + line_len))));
                }
            }
        }
        game
    }
}

} // verus!
