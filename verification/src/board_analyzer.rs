//! Measurements over a replay board: stack height, height of the garbage
//! layer at the bottom, the position of the well, and whether the garbage
//! surface is "cheese" (its holes shift column within the top few rows).
//!
//! A board is 400 cells in row-major order: row 0 is the top of the field and
//! row 39 the bottom; cell (x, y) sits at index `y * 10 + x`.

use vstd::prelude::*;
use crate::replay_response::{Board, MinoType};

verus! {

/// The cell of column `x` and row `y`.
pub open spec fn spec_cell(b: Seq<MinoType>, x: int, y: int) -> MinoType {
    b[y * 10 + x]
}

/// Whether row `y` holds any non-empty cell.
pub open spec fn spec_row_occupied(b: Seq<MinoType>, y: int) -> bool {
    exists|x: int| 0 <= x < 10 && #[trigger] spec_cell(b, x, y) != MinoType::Empty
}

/// Whether row `y` holds any garbage cell.
pub open spec fn spec_row_garbage(b: Seq<MinoType>, y: int) -> bool {
    exists|x: int| 0 <= x < 10 && #[trigger] spec_cell(b, x, y) == MinoType::Garbage
}

/// The height of column `x`, scanned from row `y` downward: 40 minus the row
/// of the topmost occupied cell, or 0 for an empty column.
pub open spec fn spec_column_height_from(b: Seq<MinoType>, x: int, y: int) -> int
    decreases 40 - y,
{
    if y < 0 || y >= 40 {
        0
    } else if spec_cell(b, x, y) != MinoType::Empty {
        40 - y
    } else {
        spec_column_height_from(b, x, y + 1)
    }
}

/// The height of column `x`.
pub open spec fn spec_column_height(b: Seq<MinoType>, x: int) -> int {
    spec_column_height_from(b, x, 0)
}

/// Whether row `y` holds any block.
fn row_occupied(board: &Board, y: usize) -> (r: bool)
    requires
        board@.len() == 400,
        y < 40,
    ensures
        r == spec_row_occupied(board@, y as int),
{
    let mut x: usize = 0;
    while x < 10
        invariant
            board@.len() == 400,
            y < 40,
            x <= 10,
            forall|i: int| 0 <= i < x ==> #[trigger] spec_cell(board@, i, y as int)
                == MinoType::Empty,
        decreases 10 - x,
    {
        if board[y * 10 + x] != MinoType::Empty {
            assert(spec_cell(board@, x as int, y as int) != MinoType::Empty);
            return true;
        }
        x += 1;
    }
    false
}

/// Whether row `y` holds any garbage cell.
fn row_garbage(board: &Board, y: usize) -> (r: bool)
    requires
        board@.len() == 400,
        y < 40,
    ensures
        r == spec_row_garbage(board@, y as int),
{
    let mut x: usize = 0;
    while x < 10
        invariant
            board@.len() == 400,
            y < 40,
            x <= 10,
            forall|i: int| 0 <= i < x ==> #[trigger] spec_cell(board@, i, y as int)
                != MinoType::Garbage,
        decreases 10 - x,
    {
        if board[y * 10 + x] == MinoType::Garbage {
            assert(spec_cell(board@, x as int, y as int) == MinoType::Garbage);
            return true;
        }
        x += 1;
    }
    false
}

/// The height of the whole stack: 40 minus the topmost occupied row, 0 for an
/// empty board.
pub fn get_height(board: &Board) -> (r: usize)
    requires
        board@.len() == 400,
    ensures
        r <= 40,
        forall|y: int| 0 <= y < 40 - r ==> !spec_row_occupied(board@, y),
        r > 0 ==> spec_row_occupied(board@, 40 - r),
{
    let mut y: usize = 0;
    while y < 40
        invariant
            board@.len() == 400,
            y <= 40,
            forall|i: int| 0 <= i < y ==> !spec_row_occupied(board@, i),
        decreases 40 - y,
    {
        if row_occupied(board, y) {
            return 40 - y;
        }
        y += 1;
    }
    0
}

/// The height of the garbage layer: the number of consecutive rows, counted
/// from just above the bottom row, whose row below holds garbage. The bottom
/// row is scanned first, so the result is the count of garbage rows at the
/// bottom — except that a board whose every row holds garbage yields 0.
pub fn get_garbage_height(board: &Board) -> (r: usize)
    requires
        board@.len() == 400,
    ensures
        r <= 39,
        (forall|y: int| 0 <= y < 40 ==> spec_row_garbage(board@, y)) ==> r == 0,
        !(forall|y: int| 0 <= y < 40 ==> spec_row_garbage(board@, y)) ==> !spec_row_garbage(
            board@,
            39 - r,
        ) && (forall|i: int| 39 - r < i < 40 ==> spec_row_garbage(board@, i)),
{
    let mut y: usize = 40;
    while y > 0
        invariant
            board@.len() == 400,
            y <= 40,
            forall|i: int| y <= i < 40 ==> spec_row_garbage(board@, i),
        decreases y,
    {
        y -= 1;
        if !row_garbage(board, y) {
            return 39 - y;
        }
    }
    0
}

/// The well: the column holding the lowest stack, as (column, height). On a
/// tie the leftmost lowest column wins.
pub fn get_well(board: &Board) -> (r: (usize, usize))
    requires
        board@.len() == 400,
    ensures
        r.0 < 10,
        r.1 == spec_column_height(board@, r.0 as int),
        forall|x: int| 0 <= x < 10 ==> spec_column_height(board@, x) >= r.1,
        forall|x: int| 0 <= x < r.0 ==> spec_column_height(board@, x) > r.1,
{
    let mut best_col: usize = 0;
    let mut best_height: usize = column_height(board, 0);
    let mut x: usize = 1;
    while x < 10
        invariant
            board@.len() == 400,
            1 <= x <= 10,
            best_col < x,
            best_height == spec_column_height(board@, best_col as int),
            forall|i: int| 0 <= i < x ==> spec_column_height(board@, i) >= best_height,
            forall|i: int| 0 <= i < best_col ==> spec_column_height(board@, i) > best_height,
        decreases 10 - x,
    {
        let h = column_height(board, x);
        if h < best_height {
            best_col = x;
            best_height = h;
        }
        x += 1;
    }
    (best_col, best_height)
}

/// The height of one column.
fn column_height(board: &Board, x: usize) -> (r: usize)
    requires
        board@.len() == 400,
        x < 10,
    ensures
        r == spec_column_height(board@, x as int),
        r <= 40,
{
    let mut y: usize = 0;
    while y < 40
        invariant
            board@.len() == 400,
            x < 10,
            y <= 40,
            spec_column_height(board@, x as int) == spec_column_height_from(
                board@,
                x as int,
                y as int,
            ),
        decreases 40 - y,
    {
        if board[y * 10 + x] != MinoType::Empty {
            return 40 - y;
        }
        y += 1;
    }
    0
}

/// The last column of row `y`, scanning right to left from column `x`, whose
/// cell is empty; 10 when none is.
pub open spec fn spec_last_empty_col_from(b: Seq<MinoType>, y: int, x: int) -> int
    decreases x + 1,
{
    if x < 0 {
        10
    } else if spec_cell(b, x, y) == MinoType::Empty {
        x
    } else {
        spec_last_empty_col_from(b, y, x - 1)
    }
}

/// The rightmost empty column of row `y`; 10 when the row is full.
pub open spec fn spec_last_empty_col(b: Seq<MinoType>, y: int) -> int {
    spec_last_empty_col_from(b, y, 9)
}

/// How many consecutive rows, from row `y` downward, share row `y`'s
/// rightmost empty column.
pub open spec fn spec_cheese_run(b: Seq<MinoType>, y: int) -> int
    decreases 39 - y,
{
    if y >= 39 {
        1
    } else if spec_last_empty_col(b, y) == spec_last_empty_col(b, y + 1) {
        1 + spec_cheese_run(b, y + 1)
    } else {
        1
    }
}

/// The number of consecutive garbage rows at the bottom of the board,
/// scanned from row `y` downward; 40 when every row holds garbage.
pub open spec fn spec_garbage_depth_from(b: Seq<MinoType>, y: int) -> int
    decreases y + 1,
{
    if y < 0 {
        40
    } else if !spec_row_garbage(b, y) {
        39 - y
    } else {
        spec_garbage_depth_from(b, y - 1)
    }
}

/// Whether the top of the garbage layer is cheese: the run of bottom garbage
/// rows sharing the topmost garbage row's hole column is shorter than 4.
pub open spec fn spec_has_cheese(b: Seq<MinoType>) -> bool {
    let depth = spec_garbage_depth_from(b, 39);
    if depth == 0 {
        false
    } else {
        let top = if depth >= 40 {
            0
        } else {
            40 - depth
        };
        spec_cheese_run(b, top) < 4
    }
}

/// The rightmost empty column of row `y`; 10 when the row is full.
fn last_empty_col(board: &Board, y: usize) -> (r: usize)
    requires
        board@.len() == 400,
        y < 40,
    ensures
        r == spec_last_empty_col(board@, y as int),
        r <= 10,
{
    let mut x: usize = 10;
    while x > 0
        invariant
            board@.len() == 400,
            y < 40,
            x <= 10,
            spec_last_empty_col(board@, y as int) == spec_last_empty_col_from(
                board@,
                y as int,
                x - 1,
            ),
        decreases x,
    {
        x -= 1;
        if board[y * 10 + x] == MinoType::Empty {
            return x;
        }
    }
    10
}

/// A run of rows sharing a hole column is at least one row long and no longer
/// than the rows below `y`.
proof fn lemma_cheese_run_bound(b: Seq<MinoType>, y: int)
    requires
        0 <= y <= 39,
    ensures
        1 <= spec_cheese_run(b, y) <= 40 - y,
    decreases 39 - y,
{
    if y < 39 {
        lemma_cheese_run_bound(b, y + 1);
    }
}

/// Checks if the top layer of garbage on the board is cheese or not.
pub fn has_cheese(board: &Board) -> (r: bool)
    requires
        board@.len() == 400,
    ensures
        r == spec_has_cheese(board@),
{
    let mut count: usize = 0;
    let mut y: usize = 40;
    while y > 0
        invariant
            board@.len() == 400,
            y <= 40,
            forall|i: int| y <= i < 40 ==> spec_row_garbage(board@, i),
            spec_garbage_depth_from(board@, 39) == spec_garbage_depth_from(board@, y - 1),
            y < 40 ==> count == spec_cheese_run(board@, y as int),
            y == 40 ==> count == 0,
        decreases y,
    {
        y -= 1;
        if !row_garbage(board, y) {
            // rows y + 1 .. 39 hold garbage; count is the run ending at the
            // topmost of them
            proof {
                assert(spec_garbage_depth_from(board@, 39) == 39 - y);
                if y < 39 {
                    lemma_cheese_run_bound(board@, y + 1);
                }
            }
            return count > 0 && count < 4;
        }
        let new_col = last_empty_col(board, y);
        let prev_col = if y == 39 {
            10
        } else {
            last_empty_col(board, y + 1)
        };
        if y < 39 && new_col == prev_col {
            proof {
                lemma_cheese_run_bound(board@, y + 1);
            }
            count += 1;
        } else {
            count = 1;
        }
    }
    proof {
        assert(spec_garbage_depth_from(board@, 39) == 40);
        lemma_cheese_run_bound(board@, 0);
    }
    count > 0 && count < 4
}

} // verus!
