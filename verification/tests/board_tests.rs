//! Board measurements: stack height, garbage height, the well, and cheese
//! detection. Boards are 400 cells, row 0 at the top, cell (x, y) at
//! index y * 10 + x.

use tetra_analysis::board_analyzer::{get_garbage_height, get_height, get_well, has_cheese};
use tetra_analysis::replay_response::MinoType;

fn empty_board() -> Vec<MinoType> {
    vec![MinoType::Empty; 400]
}

fn set(board: &mut Vec<MinoType>, x: usize, y: usize, m: MinoType) {
    board[y * 10 + x] = m;
}

/// Fills row `y` with garbage, leaving one hole.
fn garbage_row(board: &mut Vec<MinoType>, y: usize, hole: usize) {
    for x in 0..10 {
        if x != hole {
            set(board, x, y, MinoType::Garbage);
        }
    }
}

#[test]
fn height_of_boards() {
    let board = empty_board();
    assert_eq!(get_height(&board), 0);

    let mut board = empty_board();
    set(&mut board, 4, 39, MinoType::J);
    assert_eq!(get_height(&board), 1);

    let mut board = empty_board();
    set(&mut board, 0, 35, MinoType::L);
    set(&mut board, 9, 39, MinoType::Z);
    assert_eq!(get_height(&board), 5);

    let mut board = empty_board();
    set(&mut board, 9, 0, MinoType::I);
    assert_eq!(get_height(&board), 40);
}

#[test]
fn garbage_height_of_boards() {
    let board = empty_board();
    assert_eq!(get_garbage_height(&board), 0);

    let mut board = empty_board();
    garbage_row(&mut board, 39, 3);
    garbage_row(&mut board, 38, 3);
    assert_eq!(get_garbage_height(&board), 2);

    // garbage buried under a clean bottom row does not count
    let mut board = empty_board();
    garbage_row(&mut board, 38, 3);
    set(&mut board, 0, 39, MinoType::T);
    assert_eq!(get_garbage_height(&board), 0);

    // every row holding garbage is the documented degenerate case
    let mut board = empty_board();
    for y in 0..40 {
        garbage_row(&mut board, y, 5);
    }
    assert_eq!(get_garbage_height(&board), 0);
}

#[test]
fn well_prefers_leftmost_lowest() {
    let board = empty_board();
    assert_eq!(get_well(&board), (0, 0));

    // every column two high but column 4
    let mut board = empty_board();
    for x in 0..10 {
        if x != 4 {
            set(&mut board, x, 38, MinoType::Garbage);
            set(&mut board, x, 39, MinoType::Garbage);
        }
    }
    assert_eq!(get_well(&board), (4, 0));

    // two equally low columns: the leftmost wins
    let mut board = empty_board();
    for x in 0..10 {
        if x != 4 && x != 7 {
            set(&mut board, x, 39, MinoType::L);
        }
    }
    assert_eq!(get_well(&board), (4, 0));
}

#[test]
fn cheese_detection() {
    // no garbage at all: no cheese
    let board = empty_board();
    assert!(!has_cheese(&board));

    // two bottom rows sharing a hole column: a short run, cheese
    let mut board = empty_board();
    garbage_row(&mut board, 39, 3);
    garbage_row(&mut board, 38, 3);
    assert!(has_cheese(&board));

    // the hole shifts right at the top garbage row: run of one, cheese
    let mut board = empty_board();
    garbage_row(&mut board, 39, 2);
    garbage_row(&mut board, 38, 2);
    garbage_row(&mut board, 37, 5);
    assert!(has_cheese(&board));

    // four bottom rows sharing a hole column: a clean stack, not cheese
    let mut board = empty_board();
    for y in 36..40 {
        garbage_row(&mut board, y, 3);
    }
    assert!(!has_cheese(&board));

    // a deep aligned stack is not cheese either
    let mut board = empty_board();
    for y in 33..40 {
        garbage_row(&mut board, y, 1);
    }
    assert!(!has_cheese(&board));
}
