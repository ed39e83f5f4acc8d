use game_of_life::cell::Cell;
use game_of_life::game::{Game, GameError};

fn alive(game: &Game, i: usize, j: usize) -> bool {
    matches!(game.front_buf.get(i, j), Cell::Alive)
}

#[test]
fn new_game_all_dead() {
    let game = Game::new(3, 4);
    assert_eq!(game.rows, 3);
    assert_eq!(game.cols, 4);
    for i in 0..3 {
        for j in 0..4 {
            assert!(!alive(&game, i, j));
        }
    }
}

#[test]
fn set_overwrites_one_cell() {
    let mut game = Game::new(3, 3);
    game.set(1, 2, Cell::Alive);
    for i in 0..3 {
        for j in 0..3 {
            assert_eq!(alive(&game, i, j), i == 1 && j == 2);
        }
    }
    game.set(1, 2, Cell::Dead);
    assert!(!alive(&game, 1, 2));
}

#[test]
fn try_set_rejects_out_of_bounds() {
    let mut game = Game::new(2, 2);
    assert_eq!(game.try_set(2, 0, Cell::Alive), Err(GameError::OutOfBounds));
    assert_eq!(game.try_set(0, 2, Cell::Alive), Err(GameError::OutOfBounds));
    for i in 0..2 {
        for j in 0..2 {
            assert!(!alive(&game, i, j));
        }
    }
    assert_eq!(game.try_set(1, 1, Cell::Alive), Ok(()));
    assert!(alive(&game, 1, 1));
}

#[test]
fn corner_has_at_most_three_neighbors() {
    // A full grid: the corner cell still counts only its 3 in-bounds
    // neighbors; the 5 off-grid offsets contribute nothing.
    let mut game = Game::new(3, 3);
    for i in 0..3 {
        for j in 0..3 {
            game.set(i, j, Cell::Alive);
        }
    }
    assert_eq!(game.count_neighbors(0, 0), 3);
    assert_eq!(game.count_neighbors(0, 2), 3);
    assert_eq!(game.count_neighbors(2, 0), 3);
    assert_eq!(game.count_neighbors(2, 2), 3);
    assert_eq!(game.count_neighbors(1, 1), 8);
}

fn single_step_outcome(state: Cell, neighbors: usize) -> Cell {
    // Builds a 5x5 grid with the probed cell at the center and exactly
    // `neighbors` live cells around it, then steps once.
    let mut game = Game::new(5, 5);
    game.set(2, 2, state);
    let ring = [
        (1, 1),
        (1, 2),
        (1, 3),
        (2, 1),
        (2, 3),
        (3, 1),
        (3, 2),
        (3, 3),
    ];
    for k in 0..neighbors {
        let (i, j) = ring[k];
        game.set(i, j, Cell::Alive);
    }
    game.update();
    game.front_buf.get(2, 2)
}

#[test]
fn rule_table_exhaustive() {
    for n in 0..=8 {
        let from_alive = single_step_outcome(Cell::Alive, n);
        let expected_alive = if n == 2 || n == 3 { Cell::Alive } else { Cell::Dead };
        assert_eq!(from_alive, expected_alive, "alive cell with {} neighbors", n);

        let from_dead = single_step_outcome(Cell::Dead, n);
        let expected_dead = if n == 3 { Cell::Alive } else { Cell::Dead };
        assert_eq!(from_dead, expected_dead, "dead cell with {} neighbors", n);
    }
}

fn assert_only_alive(game: &Game, cells: &[(usize, usize)]) {
    for i in 0..game.rows {
        for j in 0..game.cols {
            assert_eq!(alive(game, i, j), cells.contains(&(i, j)), "cell ({}, {})", i, j);
        }
    }
}

#[test]
fn block_is_a_still_life() {
    let mut game = Game::new(4, 4);
    let block = [(1, 1), (1, 2), (2, 1), (2, 2)];
    for &(i, j) in block.iter() {
        game.set(i, j, Cell::Alive);
    }
    game.update();
    assert_only_alive(&game, &block);
    for _ in 0..99 {
        game.update();
    }
    assert_only_alive(&game, &block);
}

#[test]
fn blinker_oscillates_with_period_two() {
    let mut game = Game::new(5, 5);
    let horizontal = [(2, 1), (2, 2), (2, 3)];
    for &(i, j) in horizontal.iter() {
        game.set(i, j, Cell::Alive);
    }
    game.update();
    assert_only_alive(&game, &[(1, 2), (2, 2), (3, 2)]);
    game.update();
    assert_only_alive(&game, &horizontal);
}

#[test]
fn isolated_cell_dies() {
    let mut game = Game::new(3, 3);
    game.set(1, 1, Cell::Alive);
    game.update();
    assert_only_alive(&game, &[]);
}

#[test]
fn birth_uses_pre_step_snapshot() {
    // The blinker's tips die in the very step whose births they feed: the
    // two born cells each count three neighbors in the pre-step snapshot
    // even though two of those three are gone afterwards.
    let mut game = Game::new(5, 5);
    for &(i, j) in [(2, 1), (2, 2), (2, 3)].iter() {
        game.set(i, j, Cell::Alive);
    }
    game.update();
    assert!(alive(&game, 1, 2));
    assert!(alive(&game, 3, 2));
    assert!(!alive(&game, 2, 1));
    assert!(!alive(&game, 2, 3));
    // The scratch buffer now holds the pre-step generation.
    assert!(matches!(game.back_buf.get(2, 1), Cell::Alive));
    assert!(matches!(game.back_buf.get(1, 2), Cell::Dead));
}

#[test]
fn tromino_grows_into_block() {
    // Three mutually-neighboring live cells give the dead corner cell
    // exactly 3 live neighbors; all four are alive after one step.
    let mut game = Game::new(4, 4);
    for &(i, j) in [(1, 1), (1, 2), (2, 1)].iter() {
        game.set(i, j, Cell::Alive);
    }
    game.update();
    assert_only_alive(&game, &[(1, 1), (1, 2), (2, 1), (2, 2)]);
}

#[test]
fn from_lines_places_pattern_inside_padding() {
    let lines = vec![vec!['O', '.'], vec!['.', 'O']];
    let game = Game::from_lines(&lines, 1);
    assert_eq!(game.rows, 4);
    assert_eq!(game.cols, 4);
    assert_only_alive(&game, &[(1, 1), (2, 2)]);
}

#[test]
fn from_lines_empty_input() {
    let lines: Vec<Vec<char>> = Vec::new();
    let game = Game::from_lines(&lines, 10);
    assert_eq!(game.rows, 20);
    assert_eq!(game.cols, 0);
}

#[test]
fn from_lines_ragged_lines_padded_with_dead() {
    let lines = vec![vec!['O'], vec!['O', 'O', 'O']];
    let game = Game::from_lines(&lines, 1);
    assert_eq!(game.rows, 4);
    assert_eq!(game.cols, 5);
    assert_only_alive(&game, &[(1, 1), (2, 1), (2, 2), (2, 3)]);
}

#[test]
fn from_lines_zero_padding() {
    let lines = vec![vec!['O', 'X'], vec!['x', 'O']];
    let game = Game::from_lines(&lines, 0);
    assert_eq!(game.rows, 2);
    assert_eq!(game.cols, 2);
    // only the exact character `O` marks a live cell
    assert_only_alive(&game, &[(0, 0), (1, 1)]);
}

#[test]
fn render_exact_frame() {
    let mut game = Game::new(2, 2);
    game.set(0, 0, Cell::Alive);
    assert_eq!(game.render(), "O . \n. . \n");
}

#[test]
fn render_shape_matches_dimensions() {
    for &(rows, cols) in [(1usize, 1usize), (2, 3), (4, 4), (3, 7)].iter() {
        let mut game = Game::new(rows, cols);
        if rows > 0 && cols > 0 {
            game.set(0, 0, Cell::Alive);
            game.set(rows - 1, cols - 1, Cell::Alive);
        }
        let frame = game.render();
        assert_eq!(frame.lines().count(), rows);
        for line in frame.lines() {
            assert_eq!(line.split_whitespace().count(), cols);
        }
        assert_eq!(frame.len(), rows * (2 * cols + 1));
    }
}

#[test]
fn fill_random_keeps_shape() {
    let mut game = Game::new(10, 10);
    game.fill_random();
    assert_eq!(game.rows, 10);
    assert_eq!(game.cols, 10);
    let frame = game.render();
    assert_eq!(frame.lines().count(), 10);
    for line in frame.lines() {
        assert_eq!(line.split_whitespace().count(), 10);
    }
}
