//! The lookahead search end to end: the empty-queue base case, blocked
//! spawns, the full-clear bonus, a straight Quad, and a T-Spin-Double found
//! and classified through the immobility test.

use tetra_analysis::piece::{PieceShape, Placement};
use tetra_analysis::replay_response::MinoType;
use tetra_analysis::solver::{apply_placement, classify_clear, solve_state, Node};

fn empty_board() -> Vec<MinoType> {
    vec![MinoType::Empty; 400]
}

fn set(board: &mut Vec<MinoType>, x: usize, y: usize, m: MinoType) {
    board[y * 10 + x] = m;
}

#[test]
fn empty_queue_short_circuits() {
    // no shapes at all: attack 0 and the I shape's fall-height bound.
    // an I at its spawn can occupy rows 18 through 39: 22 positions.
    let board = empty_board();
    assert_eq!(solve_state(&board, 0, 0, &[]), (0, 23));

    // a queue of garbage markers names no shape either
    assert_eq!(solve_state(&board, 5, 3, &[MinoType::Garbage]), (0, 23));
}

#[test]
fn lone_held_piece_gives_base_case() {
    // one shape: it is held, nothing is placed, the base case answers.
    let board = empty_board();
    assert_eq!(solve_state(&board, 0, 0, &[MinoType::I]), (0, 23));
    // a T is two rows tall: rows 18 through 38, 21 positions
    assert_eq!(solve_state(&board, 0, 0, &[MinoType::T]), (0, 22));
}

#[test]
fn queue_window_is_eight_entries() {
    // only the first eight queue entries are read: eight garbage markers
    // name no shape, and the T beyond them is never seen, so the I fallback
    // answers rather than the T's 22
    let board = empty_board();
    let queue = [
        MinoType::Garbage,
        MinoType::Garbage,
        MinoType::Garbage,
        MinoType::Garbage,
        MinoType::Garbage,
        MinoType::Garbage,
        MinoType::Garbage,
        MinoType::Garbage,
        MinoType::T,
    ];
    assert_eq!(solve_state(&board, 0, 0, &queue), (0, 23));
}

#[test]
fn blocked_spawn_keeps_attack() {
    // rows 18 and 19 fully walled: no shape can spawn, no attack can grow,
    // and the next piece cannot fall at all
    let mut board = empty_board();
    for x in 0..10 {
        set(&mut board, x, 18, MinoType::Garbage);
        set(&mut board, x, 19, MinoType::Garbage);
    }
    assert_eq!(solve_state(&board, 0, 0, &[MinoType::T, MinoType::I]), (0, 1));
}

#[test]
fn full_clear_adds_ten() {
    // the bottom row misses exactly the four cells a flat I fills: the only
    // line-clearing placement empties the whole board. A Single at tier 0,
    // combo 0 scores 0, so the answer is the bonus alone.
    let mut board = empty_board();
    for x in 0..10 {
        if !(3..7).contains(&x) {
            set(&mut board, x, 39, MinoType::Garbage);
        }
    }
    // hold I, place I; after the clear the board is empty, so the defense
    // bound is 10 + 22 + 1
    assert_eq!(solve_state(&board, 0, 0, &[MinoType::I, MinoType::I]), (10, 33));
}

#[test]
fn quad_empties_the_board() {
    // four bottom rows full but for column 0: a vertical I clears all four,
    // a Quad worth 4 at tier 0, plus 10 for emptying the board
    let mut board = empty_board();
    for y in 36..40 {
        for x in 1..10 {
            set(&mut board, x, y, MinoType::Garbage);
        }
    }
    assert_eq!(solve_state(&board, 0, 0, &[MinoType::I, MinoType::I]), (14, 37));
}

#[test]
fn hold_carries_through_the_clear() {
    // held T, drawn I: the I makes the Quad while the T stays held, so the
    // closing defense bound reads the T's fall height of 21 on the emptied
    // board instead of the I's 22
    let mut board = empty_board();
    for y in 36..40 {
        for x in 1..10 {
            set(&mut board, x, y, MinoType::Garbage);
        }
    }
    assert_eq!(solve_state(&board, 0, 0, &[MinoType::T, MinoType::I]), (14, 36));
}

/// A board whose only line-clearing placement is a T dropped into a slot at
/// the bottom left where all four shifts are blocked: column 1 walled from
/// row 0 to 37, row 38 full but for the stem cell (1, 38), row 39 full but
/// for (0, 39), (1, 39), (2, 39).
fn tspin_double_board() -> Vec<MinoType> {
    let mut board = empty_board();
    for y in 0..38 {
        set(&mut board, 1, y, MinoType::Garbage);
    }
    for x in 0..10 {
        if x != 1 {
            set(&mut board, x, 38, MinoType::Garbage);
        }
    }
    for x in 3..10 {
        set(&mut board, x, 39, MinoType::Garbage);
    }
    board
}

#[test]
fn tspin_double_reclassifies() {
    // the classification itself: two lines, a T, immobile — a T-Spin-Double
    // (category 7), back-to-back qualifying; mobile, it is a plain Double
    assert_eq!(classify_clear(2, true, true), (7, true));
    assert_eq!(classify_clear(2, true, false), (1, false));
    assert_eq!(classify_clear(2, false, true), (1, false));

    // and through the whole search: the T falls into the slot, cannot shift
    // in any direction, clears two lines: a T-Spin-Double at tier 0 and
    // combo 0 is worth 4. The cleared board leaves the column-1 wall, which
    // never blocks the next T's straight fall of 21 positions.
    let board = tspin_double_board();
    assert_eq!(solve_state(&board, 0, 0, &[MinoType::T, MinoType::T]), (4, 26));
}

#[test]
fn streak_raises_tspin_double() {
    // the same clear one streak in reads the tier-1 row: 5 instead of 4
    let board = tspin_double_board();
    assert_eq!(solve_state(&board, 1, 0, &[MinoType::T, MinoType::T]), (5, 27));
}

#[test]
fn non_qualifying_clear_resets_streak() {
    // a Double wipes a streak of 5 no matter its length, and earns nothing
    // past tier 0; a Quad steps the same streak to 6 and reads tier 2
    let mut double_board = empty_board();
    for y in 38..40 {
        for x in 0..10 {
            if x != 4 && x != 5 {
                set(&mut double_board, x, y, MinoType::Garbage);
            }
        }
    }
    // a leftover block far from the slot, so the clear does not empty the
    // board and earn the bonus
    set(&mut double_board, 9, 35, MinoType::Garbage);
    let node = Node { board: double_board, hold: PieceShape::I, btb: 5, combo: 0, attack: 0 };
    let o_drop = Placement { shape: PieceShape::O, rot: 0, col: 4, row: 38 };
    let child = apply_placement(&node, &o_drop, PieceShape::I).unwrap();
    assert_eq!(child.btb, 0);
    assert_eq!(child.attack, 0);

    let mut quad_board = empty_board();
    for y in 36..40 {
        for x in 1..10 {
            set(&mut quad_board, x, y, MinoType::Garbage);
        }
    }
    let node = Node { board: quad_board, hold: PieceShape::I, btb: 5, combo: 0, attack: 0 };
    let i_drop = Placement { shape: PieceShape::I, rot: 1, col: 0, row: 36 };
    let child = apply_placement(&node, &i_drop, PieceShape::I).unwrap();
    assert_eq!(child.btb, 6);
    // a Quad at tier 2 is worth 6, and this one empties the board: plus 10
    assert_eq!(child.attack, 16);
}

#[test]
fn combo_raises_tspin_double() {
    // the same clear four placements into a combo reads column 4: worth 8
    let board = tspin_double_board();
    assert_eq!(solve_state(&board, 0, 4, &[MinoType::T, MinoType::T]), (8, 30));
}
