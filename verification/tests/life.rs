use torus_life::board::Board;
use torus_life::board::create_random_board;
use torus_life::neighbors::get_neighbors;
use torus_life::step::create_next_board;

/// A `width x height` cell vector with exactly the listed `(row, col)` cells
/// alive.
fn board_from(width: usize, height: usize, live: &[(usize, usize)]) -> Vec<bool> {
    let mut cells = vec![false; width * height];
    for &(r, c) in live {
        cells[r * width + c] = true;
    }
    cells
}

#[test]
fn neighbors_of_origin_wrap_both_axes() {
    // 4x4 board: the origin's neighbors wrap across both edges at once.
    let ns = get_neighbors(0, 16, 4);
    assert_eq!(ns, [12, 13, 1, 5, 4, 3, 15, 11]);
    // The bottom-right cell (3,3) and the end of the first row (0,3) are both
    // neighbors of (0,0).
    assert!(ns.contains(&15));
    assert!(ns.contains(&3));
}

#[test]
fn neighbors_of_interior_cell() {
    // Cell (1,1) of a 4x4 board: no wrap anywhere.
    let ns = get_neighbors(5, 16, 4);
    assert_eq!(ns, [1, 2, 6, 10, 9, 8, 4, 0]);
}

#[test]
fn rule_lonely_live_cell_dies() {
    // A single live cell has zero live neighbors and dies.
    let cells = board_from(6, 6, &[(2, 2)]);
    let next = create_next_board(&cells, 6, 6);
    assert!(next.iter().all(|&alive| !alive));
}

#[test]
fn rule_blinker_row() {
    // A horizontal row of three live cells, well away from the edges.
    let cells = board_from(6, 6, &[(2, 1), (2, 2), (2, 3)]);
    let next = create_next_board(&cells, 6, 6);
    // Live center with exactly two live neighbors survives.
    assert!(next[2 * 6 + 2]);
    // Live ends with exactly one live neighbor die.
    assert!(!next[2 * 6 + 1]);
    assert!(!next[2 * 6 + 3]);
    // Dead cells above and below the center have exactly three live
    // neighbors and are born.
    assert!(next[1 * 6 + 2]);
    assert!(next[3 * 6 + 2]);
    // A dead cell with exactly two live neighbors stays dead.
    assert!(!next[1 * 6 + 1]);
    assert!(!next[1 * 6 + 3]);
}

#[test]
fn rule_live_cell_with_three_neighbors_survives() {
    // Each cell of a 2x2 block has exactly three live neighbors.
    let cells = board_from(6, 6, &[(2, 2), (2, 3), (3, 2), (3, 3)]);
    let next = create_next_board(&cells, 6, 6);
    assert!(next[2 * 6 + 2]);
    assert!(next[2 * 6 + 3]);
    assert!(next[3 * 6 + 2]);
    assert!(next[3 * 6 + 3]);
}

#[test]
fn rule_overcrowded_live_cell_dies() {
    // A live center with four live orthogonal neighbors dies.
    let cells = board_from(6, 6, &[(2, 2), (1, 2), (3, 2), (2, 1), (2, 3)]);
    let next = create_next_board(&cells, 6, 6);
    assert!(!next[2 * 6 + 2]);
}

#[test]
fn rule_dead_cell_with_three_neighbors_is_born() {
    // An L of three live cells: their common diagonal neighbor is born.
    let cells = board_from(6, 6, &[(2, 2), (2, 3), (3, 2)]);
    let next = create_next_board(&cells, 6, 6);
    assert!(next[3 * 6 + 3]);
}

#[test]
fn block_is_a_still_life() {
    // A 2x2 block away from every edge is unchanged by one step.
    let cells = board_from(6, 6, &[(2, 2), (2, 3), (3, 2), (3, 3)]);
    let next = create_next_board(&cells, 6, 6);
    assert_eq!(next, cells);
}

#[test]
fn stepper_is_deterministic() {
    let cells = board_from(6, 6, &[(1, 1), (2, 2), (2, 3), (4, 0), (5, 5)]);
    let a = create_next_board(&cells, 6, 6);
    let b = create_next_board(&cells, 6, 6);
    assert_eq!(a, b);
}

#[test]
fn stepper_is_deterministic_on_random_boards() {
    let cells = create_random_board(8 * 6);
    let a = create_next_board(&cells, 8, 6);
    let b = create_next_board(&cells, 8, 6);
    assert_eq!(a, b);
}

#[test]
fn addressing_roundtrip() {
    // Decoding every flat index to (row, col) and re-encoding gives it back.
    let board = Board::from_cells(vec![false; 24], 6, 4);
    for n in 0..24usize {
        let row = n / 6;
        let col = n % 6;
        assert_eq!(row * 6 + col, n);
        assert_eq!(board.index(row, col), n);
    }
}

#[test]
fn board_size_and_dimensions() {
    let board = Board::from_cells(vec![true; 24], 6, 4);
    assert_eq!(board.size(), 24);
    assert_eq!(board.width, 6);
    assert_eq!(board.height, 4);
}

#[test]
fn random_board_has_requested_length() {
    assert_eq!(create_random_board(64).len(), 64);
    let board = Board::random(6, 4);
    assert_eq!(board.cells.len(), 24);
}
