//! Piece geometry and placement operations: the seven tetromino shapes, their
//! orientations as cell offsets inside a bounding box, collision ("fits")
//! tests, dropping a placement onto a board with line clearing, the
//! four-direction immobility test that detects spins, and the fall height of
//! a shape from its spawn position.
//!
//! Boards here are the same 400-cell row-major grids as everywhere else:
//! row 0 at the top, cell (x, y) at index `y * 10 + x`.

use vstd::prelude::*;
use crate::board_analyzer::spec_cell;
use crate::replay_response::MinoType;

verus! {

/// One of the seven tetromino shapes.
#[derive(Clone, Copy, Debug, PartialEq, Eq, Structural, Hash)]
pub enum PieceShape {
    Z,
    L,
    O,
    S,
    I,
    J,
    T,
}

/// A final resting position of a shape: an orientation and the top-left
/// corner of the shape's bounding box on the board.
#[derive(Clone, Copy, Debug, PartialEq, Eq, Structural)]
pub struct Placement {
    pub shape: PieceShape,
    pub rot: usize,
    pub col: usize,
    pub row: usize,
}

/// The number of distinct orientations of a shape.
pub open spec fn spec_rotation_count(s: PieceShape) -> int {
    match s {
        PieceShape::O => 1,
        PieceShape::I => 2,
        PieceShape::S => 2,
        PieceShape::Z => 2,
        _ => 4,
    }
}

/// The four cells of a shape in a given orientation, as (dx, dy) offsets from
/// the top-left corner of its bounding box; dx grows rightward, dy downward.
pub open spec fn spec_offsets(s: PieceShape, rot: int) -> Seq<(int, int)> {
    match s {
        PieceShape::O => seq![(0, 0), (1, 0), (0, 1), (1, 1)],
        PieceShape::I => if rot == 1 {
            seq![(0, 0), (0, 1), (0, 2), (0, 3)]
        } else {
            seq![(0, 0), (1, 0), (2, 0), (3, 0)]
        },
        PieceShape::S => if rot == 1 {
            seq![(0, 0), (0, 1), (1, 1), (1, 2)]
        } else {
            seq![(1, 0), (2, 0), (0, 1), (1, 1)]
        },
        PieceShape::Z => if rot == 1 {
            seq![(1, 0), (0, 1), (1, 1), (0, 2)]
        } else {
            seq![(0, 0), (1, 0), (1, 1), (2, 1)]
        },
        PieceShape::T => if rot == 1 {
            seq![(0, 0), (0, 1), (1, 1), (0, 2)]
        } else if rot == 2 {
            seq![(0, 0), (1, 0), (2, 0), (1, 1)]
        } else if rot == 3 {
            seq![(1, 0), (0, 1), (1, 1), (1, 2)]
        } else {
            seq![(1, 0), (0, 1), (1, 1), (2, 1)]
        },
        PieceShape::L => if rot == 1 {
            seq![(0, 0), (0, 1), (0, 2), (1, 2)]
        } else if rot == 2 {
            seq![(0, 0), (1, 0), (2, 0), (0, 1)]
        } else if rot == 3 {
            seq![(0, 0), (1, 0), (1, 1), (1, 2)]
        } else {
            seq![(2, 0), (0, 1), (1, 1), (2, 1)]
        },
        PieceShape::J => if rot == 1 {
            seq![(0, 0), (1, 0), (0, 1), (0, 2)]
        } else if rot == 2 {
            seq![(0, 0), (1, 0), (2, 0), (2, 1)]
        } else if rot == 3 {
            seq![(1, 0), (1, 1), (0, 2), (1, 2)]
        } else {
            seq![(0, 0), (0, 1), (1, 1), (2, 1)]
        },
    }
}

/// The width of a shape's bounding box in a given orientation.
pub open spec fn spec_piece_width(s: PieceShape, rot: int) -> int {
    match s {
        PieceShape::O => 2,
        PieceShape::I => if rot == 1 {
            1
        } else {
            4
        },
        PieceShape::S => if rot == 1 {
            2
        } else {
            3
        },
        PieceShape::Z => if rot == 1 {
            2
        } else {
            3
        },
        _ => if rot == 1 || rot == 3 {
            2
        } else {
            3
        },
    }
}

/// The height of a shape's bounding box in a given orientation.
pub open spec fn spec_piece_height(s: PieceShape, rot: int) -> int {
    match s {
        PieceShape::O => 2,
        PieceShape::I => if rot == 1 {
            4
        } else {
            1
        },
        PieceShape::S => if rot == 1 {
            3
        } else {
            2
        },
        PieceShape::Z => if rot == 1 {
            3
        } else {
            2
        },
        _ => if rot == 1 || rot == 3 {
            3
        } else {
            2
        },
    }
}

/// The cell color a shape leaves on the board.
pub open spec fn spec_mino_of(s: PieceShape) -> MinoType {
    match s {
        PieceShape::Z => MinoType::Z,
        PieceShape::L => MinoType::L,
        PieceShape::O => MinoType::O,
        PieceShape::S => MinoType::S,
        PieceShape::I => MinoType::I,
        PieceShape::J => MinoType::J,
        PieceShape::T => MinoType::T,
    }
}

/// Whether a shape in orientation `rot`, its box corner at (col, row), lies
/// fully on the board with all four of its cells empty.
pub open spec fn spec_fits_at(b: Seq<MinoType>, s: PieceShape, rot: int, col: int, row: int) -> bool {
    let o = spec_offsets(s, rot);
    &&& 0 <= col
    &&& 0 <= row
    &&& col + spec_piece_width(s, rot) <= 10
    &&& row + spec_piece_height(s, rot) <= 40
    &&& spec_cell(b, col + o[0].0, row + o[0].1) == MinoType::Empty
    &&& spec_cell(b, col + o[1].0, row + o[1].1) == MinoType::Empty
    &&& spec_cell(b, col + o[2].0, row + o[2].1) == MinoType::Empty
    &&& spec_cell(b, col + o[3].0, row + o[3].1) == MinoType::Empty
}

/// Whether a placement lies in free space on the board.
pub open spec fn spec_fits(b: Seq<MinoType>, p: Placement) -> bool {
    spec_fits_at(b, p.shape, p.rot as int, p.col as int, p.row as int)
}

/// Every cell offset lies inside the orientation's bounding box.
pub proof fn lemma_offsets_in_box(s: PieceShape, rot: int)
    ensures
        forall|i: int|
            0 <= i < 4 ==> {
                let o = #[trigger] spec_offsets(s, rot)[i];
                0 <= o.0 < spec_piece_width(s, rot) && 0 <= o.1 < spec_piece_height(s, rot)
            },
{
}

/// The number of distinct orientations of a shape.
pub fn rotation_count(s: PieceShape) -> (r: usize)
    ensures
        r == spec_rotation_count(s),
{
    match s {
        PieceShape::O => 1,
        PieceShape::I => 2,
        PieceShape::S => 2,
        PieceShape::Z => 2,
        _ => 4,
    }
}

/// The cell color a shape leaves on the board.
pub fn mino_of(s: PieceShape) -> (r: MinoType)
    ensures
        r == spec_mino_of(s),
{
    match s {
        PieceShape::Z => MinoType::Z,
        PieceShape::L => MinoType::L,
        PieceShape::O => MinoType::O,
        PieceShape::S => MinoType::S,
        PieceShape::I => MinoType::I,
        PieceShape::J => MinoType::J,
        PieceShape::T => MinoType::T,
    }
}

/// The width of a shape's bounding box in a given orientation.
pub fn piece_width(s: PieceShape, rot: usize) -> (r: usize)
    ensures
        r == spec_piece_width(s, rot as int),
        1 <= r <= 4,
{
    match s {
        PieceShape::O => 2,
        PieceShape::I => if rot == 1 {
            1
        } else {
            4
        },
        PieceShape::S => if rot == 1 {
            2
        } else {
            3
        },
        PieceShape::Z => if rot == 1 {
            2
        } else {
            3
        },
        _ => if rot == 1 || rot == 3 {
            2
        } else {
            3
        },
    }
}

/// The box width, box height and the four cell offsets of an orientation.
fn piece_data(s: PieceShape, rot: usize) -> (r: (
    usize,
    usize,
    (usize, usize),
    (usize, usize),
    (usize, usize),
    (usize, usize),
))
    ensures
        r.0 == spec_piece_width(s, rot as int),
        r.1 == spec_piece_height(s, rot as int),
        (r.2.0 as int, r.2.1 as int) == spec_offsets(s, rot as int)[0],
        (r.3.0 as int, r.3.1 as int) == spec_offsets(s, rot as int)[1],
        (r.4.0 as int, r.4.1 as int) == spec_offsets(s, rot as int)[2],
        (r.5.0 as int, r.5.1 as int) == spec_offsets(s, rot as int)[3],
{
    match s {
        PieceShape::O => (2, 2, (0, 0), (1, 0), (0, 1), (1, 1)),
        PieceShape::I => if rot == 1 {
            (1, 4, (0, 0), (0, 1), (0, 2), (0, 3))
        } else {
            (4, 1, (0, 0), (1, 0), (2, 0), (3, 0))
        },
        PieceShape::S => if rot == 1 {
            (2, 3, (0, 0), (0, 1), (1, 1), (1, 2))
        } else {
            (3, 2, (1, 0), (2, 0), (0, 1), (1, 1))
        },
        PieceShape::Z => if rot == 1 {
            (2, 3, (1, 0), (0, 1), (1, 1), (0, 2))
        } else {
            (3, 2, (0, 0), (1, 0), (1, 1), (2, 1))
        },
        PieceShape::T => if rot == 1 {
            (2, 3, (0, 0), (0, 1), (1, 1), (0, 2))
        } else if rot == 2 {
            (3, 2, (0, 0), (1, 0), (2, 0), (1, 1))
        } else if rot == 3 {
            (2, 3, (1, 0), (0, 1), (1, 1), (1, 2))
        } else {
            (3, 2, (1, 0), (0, 1), (1, 1), (2, 1))
        },
        PieceShape::L => if rot == 1 {
            (2, 3, (0, 0), (0, 1), (0, 2), (1, 2))
        } else if rot == 2 {
            (3, 2, (0, 0), (1, 0), (2, 0), (0, 1))
        } else if rot == 3 {
            (2, 3, (0, 0), (1, 0), (1, 1), (1, 2))
        } else {
            (3, 2, (2, 0), (0, 1), (1, 1), (2, 1))
        },
        PieceShape::J => if rot == 1 {
            (2, 3, (0, 0), (1, 0), (0, 1), (0, 2))
        } else if rot == 2 {
            (3, 2, (0, 0), (1, 0), (2, 0), (2, 1))
        } else if rot == 3 {
            (2, 3, (1, 0), (1, 1), (0, 2), (1, 2))
        } else {
            (3, 2, (0, 0), (0, 1), (1, 1), (2, 1))
        },
    }
}

/// Whether a shape at the given box corner lies in free space on the board.
pub fn fits_at(board: &Vec<MinoType>, s: PieceShape, rot: usize, col: usize, row: usize) -> (r:
    bool)
    requires
        board@.len() == 400,
        col <= 16,
        row <= 48,
    ensures
        r == spec_fits_at(board@, s, rot as int, col as int, row as int),
{
    let (w, h, o0, o1, o2, o3) = piece_data(s, rot);
    proof {
        lemma_offsets_in_box(s, rot as int);
    }
    if col + w > 10 || row + h > 40 {
        return false;
    }
    board[(row + o0.1) * 10 + (col + o0.0)] == MinoType::Empty && board[(row + o1.1) * 10 + (col
        + o1.0)] == MinoType::Empty && board[(row + o2.1) * 10 + (col + o2.0)] == MinoType::Empty
        && board[(row + o3.1) * 10 + (col + o3.0)] == MinoType::Empty
}

/// Whether a placement lies in free space on the board.
pub fn fits(board: &Vec<MinoType>, p: &Placement) -> (r: bool)
    requires
        board@.len() == 400,
        p.col <= 16,
        p.row <= 48,
    ensures
        r == spec_fits(board@, *p),
{
    fits_at(board, p.shape, p.rot, p.col, p.row)
}

/// The spawn placement of a shape: orientation 0 with its box corner at
/// column 3, row 18 — the center of the field at the height pieces enter.
pub open spec fn spec_spawn(s: PieceShape) -> Placement {
    Placement { shape: s, rot: 0, col: 3, row: 18 }
}

/// The spawn placement of a shape.
pub fn spawn_placement(s: PieceShape) -> (r: Placement)
    ensures
        r == spec_spawn(s),
{
    Placement { shape: s, rot: 0, col: 3, row: 18 }
}

/// The number of positions, from row `row` downward, through which a freshly
/// spawned shape can fall before it is obstructed.
pub open spec fn spec_fall_height_from(b: Seq<MinoType>, s: PieceShape, row: int) -> int
    decreases 41 - row,
{
    if row > 40 || !spec_fits_at(b, s, 0, 3, row) {
        0
    } else {
        1 + spec_fall_height_from(b, s, row + 1)
    }
}

/// How much room a shape has under its spawn position: the number of
/// positions, its spawn included, that it can occupy while falling straight
/// down before the first obstruction.
pub open spec fn spec_fall_height(b: Seq<MinoType>, s: PieceShape) -> int {
    spec_fall_height_from(b, s, 18)
}

/// The fall height of a shape from its spawn position.
pub fn fall_height(board: &Vec<MinoType>, s: PieceShape) -> (r: usize)
    requires
        board@.len() == 400,
    ensures
        r == spec_fall_height(board@, s),
        r <= 23,
{
    let mut row: usize = 18;
    while row <= 40 && fits_at(board, s, 0, 3, row)
        invariant
            board@.len() == 400,
            18 <= row <= 41,
            spec_fall_height(board@, s) == row - 18 + spec_fall_height_from(
                board@,
                s,
                row as int,
            ),
        decreases 41 - row,
    {
        row += 1;
    }
    proof {
        assert(spec_fall_height_from(board@, s, row as int) == 0);
    }
    row - 18
}

/// Whether a placement can shift neither up, down, left nor right and stay in
/// free space: the spin-detection proxy for T pieces.
pub open spec fn spec_immobile(b: Seq<MinoType>, p: Placement) -> bool {
    &&& !spec_fits_at(b, p.shape, p.rot as int, p.col as int, p.row as int - 1)
    &&& !spec_fits_at(b, p.shape, p.rot as int, p.col as int, p.row as int + 1)
    &&& !spec_fits_at(b, p.shape, p.rot as int, p.col as int - 1, p.row as int)
    &&& !spec_fits_at(b, p.shape, p.rot as int, p.col as int + 1, p.row as int)
}

/// The four-direction immobility test, run against the board as it was
/// before the placement dropped.
pub fn is_immobile(board: &Vec<MinoType>, p: &Placement) -> (r: bool)
    requires
        board@.len() == 400,
        p.col <= 15,
        p.row <= 47,
    ensures
        r == spec_immobile(board@, *p),
{
    let up = if p.row == 0 {
        false
    } else {
        fits_at(board, p.shape, p.rot, p.col, p.row - 1)
    };
    if up {
        return false;
    }
    if fits_at(board, p.shape, p.rot, p.col, p.row + 1) {
        return false;
    }
    let left = if p.col == 0 {
        false
    } else {
        fits_at(board, p.shape, p.rot, p.col - 1, p.row)
    };
    if left {
        return false;
    }
    if fits_at(board, p.shape, p.rot, p.col + 1, p.row) {
        return false;
    }
    true
}

/// The board after a placement's four cells take the shape's color.
pub open spec fn spec_place(b: Seq<MinoType>, p: Placement) -> Seq<MinoType> {
    let o = spec_offsets(p.shape, p.rot as int);
    let m = spec_mino_of(p.shape);
    b.update((p.row + o[0].1) * 10 + (p.col + o[0].0), m).update(
        (p.row + o[1].1) * 10 + (p.col + o[1].0),
        m,
    ).update((p.row + o[2].1) * 10 + (p.col + o[2].0), m).update(
        (p.row + o[3].1) * 10 + (p.col + o[3].0),
        m,
    )
}

/// Writes a placement's cells onto the board.
pub fn place(board: &mut Vec<MinoType>, p: &Placement)
    requires
        old(board)@.len() == 400,
        spec_fits(old(board)@, *p),
    ensures
        final(board)@ == spec_place(old(board)@, *p),
        final(board)@.len() == 400,
{
    let (_, _, o0, o1, o2, o3) = piece_data(p.shape, p.rot);
    proof {
        lemma_offsets_in_box(p.shape, p.rot as int);
    }
    let m = mino_of(p.shape);
    board[(p.row + o0.1) * 10 + (p.col + o0.0)] = m;
    board[(p.row + o1.1) * 10 + (p.col + o1.0)] = m;
    board[(p.row + o2.1) * 10 + (p.col + o2.0)] = m;
    board[(p.row + o3.1) * 10 + (p.col + o3.0)] = m;
}

/// Whether every cell of row `y` is filled.
pub open spec fn spec_row_full(b: Seq<MinoType>, y: int) -> bool {
    forall|x: int| 0 <= x < 10 ==> #[trigger] spec_cell(b, x, y) != MinoType::Empty
}

/// The cells of row `y`.
pub open spec fn spec_row(b: Seq<MinoType>, y: int) -> Seq<MinoType> {
    b.subrange(y * 10, y * 10 + 10)
}

/// The rows above row `y` that are not full, concatenated in order.
pub open spec fn spec_kept_upto(b: Seq<MinoType>, y: int) -> Seq<MinoType>
    decreases y,
{
    if y <= 0 {
        Seq::empty()
    } else if spec_row_full(b, y - 1) {
        spec_kept_upto(b, y - 1)
    } else {
        spec_kept_upto(b, y - 1) + spec_row(b, y - 1)
    }
}

/// The number of full rows above row `y`.
pub open spec fn spec_cleared_upto(b: Seq<MinoType>, y: int) -> int
    decreases y,
{
    if y <= 0 {
        0
    } else if spec_row_full(b, y - 1) {
        1 + spec_cleared_upto(b, y - 1)
    } else {
        spec_cleared_upto(b, y - 1)
    }
}

/// The number of full rows of the whole board.
pub open spec fn spec_lines_cleared(b: Seq<MinoType>) -> int {
    spec_cleared_upto(b, 40)
}

/// The board after its full rows vanish: as many fresh empty rows on top as
/// rows were full, then the surviving rows in order.
pub open spec fn spec_clear_result(b: Seq<MinoType>) -> Seq<MinoType> {
    Seq::new(10 * spec_cleared_upto(b, 40) as nat, |i: int| MinoType::Empty) + spec_kept_upto(
        b,
        40,
    )
}

/// The surviving rows above row `y` hold ten cells for every row not counted
/// as cleared.
pub proof fn lemma_kept_len(b: Seq<MinoType>, y: int)
    requires
        0 <= y <= 40,
        b.len() == 400,
    ensures
        0 <= spec_cleared_upto(b, y) <= y,
        spec_kept_upto(b, y).len() == 10 * (y - spec_cleared_upto(b, y)),
    decreases y,
{
    if y > 0 {
        lemma_kept_len(b, y - 1);
    }
}

/// Whether every cell of row `y` is filled.
fn row_full(board: &Vec<MinoType>, y: usize) -> (r: bool)
    requires
        board@.len() == 400,
        y < 40,
    ensures
        r == spec_row_full(board@, y as int),
{
    let mut x: usize = 0;
    while x < 10
        invariant
            board@.len() == 400,
            y < 40,
            x <= 10,
            forall|i: int| 0 <= i < x ==> #[trigger] spec_cell(board@, i, y as int)
                != MinoType::Empty,
        decreases 10 - x,
    {
        if board[y * 10 + x] == MinoType::Empty {
            assert(spec_cell(board@, x as int, y as int) == MinoType::Empty);
            return false;
        }
        x += 1;
    }
    true
}

/// Removes the board's full rows, letting everything above them fall by as
/// many rows, and returns how many rows vanished.
pub fn clear_lines(board: &mut Vec<MinoType>) -> (lines: usize)
    requires
        old(board)@.len() == 400,
    ensures
        lines == spec_lines_cleared(old(board)@),
        lines <= 40,
        final(board)@ == spec_clear_result(old(board)@),
        final(board)@.len() == 400,
{
    let ghost b0 = board@;
    let mut kept: Vec<MinoType> = Vec::new();
    let mut full_count: usize = 0;
    let mut y: usize = 0;
    while y < 40
        invariant
            board@ == b0,
            b0.len() == 400,
            y <= 40,
            full_count == spec_cleared_upto(b0, y as int),
            full_count <= y,
            kept@ == spec_kept_upto(b0, y as int),
        decreases 40 - y,
    {
        if row_full(board, y) {
            full_count += 1;
        } else {
            let mut x: usize = 0;
            while x < 10
                invariant
                    board@ == b0,
                    b0.len() == 400,
                    y < 40,
                    x <= 10,
                    kept@ == spec_kept_upto(b0, y as int) + spec_row(b0, y as int).take(x as int),
                decreases 10 - x,
            {
                let c = board[y * 10 + x];
                kept.push(c);
                proof {
                    assert(spec_kept_upto(b0, y as int) + spec_row(b0, y as int).take(
                        x + 1,
                    ) =~= (spec_kept_upto(b0, y as int) + spec_row(b0, y as int).take(
                        x as int,
                    )).push(spec_cell(b0, x as int, y as int)));
                }
                x += 1;
            }
            proof {
                assert(spec_row(b0, y as int).take(10) =~= spec_row(b0, y as int));
                assert(kept@ =~= spec_kept_upto(b0, y + 1));
            }
        }
        y += 1;
    }
    proof {
        lemma_kept_len(b0, 40);
    }
    let mut out: Vec<MinoType> = Vec::new();
    let mut i: usize = 0;
    while i < 10 * full_count
        invariant
            full_count <= 40,
            out@.len() == i,
            i <= 10 * full_count,
            forall|j: int| 0 <= j < i ==> out@[j] == MinoType::Empty,
        decreases 10 * full_count - i,
    {
        out.push(MinoType::Empty);
        i += 1;
    }
    out.append(&mut kept);
    proof {
        assert(out@ =~= spec_clear_result(b0));
    }
    *board = out;
    full_count
}

/// Whether the board holds no block at all.
pub open spec fn spec_board_empty(b: Seq<MinoType>) -> bool {
    forall|i: int| 0 <= i < b.len() ==> b[i] == MinoType::Empty
}

/// Whether the board holds no block at all.
pub fn board_empty(board: &Vec<MinoType>) -> (r: bool)
    ensures
        r == spec_board_empty(board@),
{
    let mut i: usize = 0;
    while i < board.len()
        invariant
            i <= board@.len(),
            forall|j: int| 0 <= j < i ==> board@[j] == MinoType::Empty,
        decreases board@.len() - i,
    {
        if board[i] != MinoType::Empty {
            return false;
        }
        i += 1;
    }
    true
}

} // verus!
