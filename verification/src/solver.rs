//! The lookahead placement search: from a board, streak counters and a queue
//! of upcoming shapes, the best cumulative attack reachable within the
//! lookahead window and the worst-case defense requirement.
//!
//! The search pops one shape per level, asks the move generator for every
//! resting placement of either the drawn shape or the held one, keeps only
//! the placements that clear lines, scores them through the attack table, and
//! recurses; a blocked spawn or an exhausted queue ends a branch with the
//! attack gathered so far plus a fall-height defense bound.

use vstd::prelude::*;
use crate::attack::{get_indexed_attack, lemma_attack_bounded, spec_attack};
use crate::piece::{
    board_empty,
    clear_lines,
    fall_height,
    fits,
    is_immobile,
    place,
    rotation_count,
    fits_at,
    piece_width,
    spawn_placement,
    spec_board_empty,
    spec_clear_result,
    spec_fits,
    spec_fits_at,
    spec_fall_height,
    spec_immobile,
    spec_lines_cleared,
    spec_place,
    spec_piece_height,
    spec_rotation_count,
    spec_spawn,
    spec_piece_width,
    Placement,
    PieceShape,
};
use crate::replay_response::{Board, MinoType};

verus! {

/// The scoring category (0 through 8) and back-to-back qualification of a
/// clear of `lines` lines: an immobile T placement is a T-Spin and qualifies;
/// otherwise the line count alone names the category and only a Quad
/// qualifies.
pub open spec fn spec_classify(lines: int, is_t: bool, immobile: bool) -> (int, bool) {
    if is_t && immobile && 1 <= lines <= 3 {
        (
            if lines == 1 {
                5int
            } else if lines == 2 {
                7int
            } else {
                8int
            },
            true,
        )
    } else {
        (
            if lines == 1 {
                0int
            } else if lines == 2 {
                1int
            } else if lines == 3 {
                2int
            } else {
                3int
            },
            lines == 4 || (is_t && immobile),
        )
    }
}

/// The back-to-back streak after a clear: one more on a qualifying clear,
/// zero otherwise.
pub open spec fn spec_next_btb(qualifying: bool, btb: int) -> int {
    if qualifying {
        btb + 1
    } else {
        0
    }
}

/// Classifies a clear; `lines` is how many lines the placement cleared,
/// `is_t` whether the placed shape was a T, `immobile` the four-direction
/// immobility test on the board before the placement.
pub fn classify_clear(lines: usize, is_t: bool, immobile: bool) -> (r: (usize, bool))
    requires
        1 <= lines,
    ensures
        (r.0 as int, r.1) == spec_classify(lines as int, is_t, immobile),
        r.0 < 9,
{
    if is_t && immobile && lines <= 3 {
        (
            if lines == 1 {
                5
            } else if lines == 2 {
                7
            } else {
                8
            },
            true,
        )
    } else {
        (
            if lines == 1 {
                0
            } else if lines == 2 {
                1
            } else if lines == 3 {
                2
            } else {
                3
            },
            lines == 4 || (is_t && immobile),
        )
    }
}

/// Back-to-back reset law: a clear classified as Single, Double, Triple,
/// T-Spin-Mini-Single or T-Spin-Mini-Double never qualifies, so it resets
/// the streak to zero for the next clear's scoring, whatever the streak was.
pub proof fn lemma_btb_reset(lines: int, is_t: bool, immobile: bool, prev_btb: int)
    requires
        spec_classify(lines, is_t, immobile).0 == 0 || spec_classify(lines, is_t, immobile).0 == 1
            || spec_classify(lines, is_t, immobile).0 == 2 || spec_classify(
            lines,
            is_t,
            immobile,
        ).0 == 4 || spec_classify(lines, is_t, immobile).0 == 6,
    ensures
        !spec_classify(lines, is_t, immobile).1,
        spec_next_btb(spec_classify(lines, is_t, immobile).1, prev_btb) == 0,
{
}

/// One node of the search tree: a board of its own, the held shape, the two
/// streak counters and the attack gathered on the way here.
pub struct Node {
    pub board: Vec<MinoType>,
    pub hold: PieceShape,
    pub btb: usize,
    pub combo: usize,
    pub attack: usize,
}

/// A node's board has the full 400 cells.
pub open spec fn spec_node_wf(n: Node) -> bool {
    n.board@.len() == 400
}

/// The most one clear can add to the attack: 64 from the table and 10 for
/// emptying the board.
pub open spec fn spec_max_gain() -> int {
    74
}

/// A search node as the specification sees it: the board as a sequence and
/// the counters as unbounded integers.
pub struct SpecNode {
    pub board: Seq<MinoType>,
    pub hold: PieceShape,
    pub btb: int,
    pub combo: int,
    pub attack: int,
}

/// The specification view of a node.
pub open spec fn view_node(n: Node) -> SpecNode {
    SpecNode {
        board: n.board@,
        hold: n.hold,
        btb: n.btb as int,
        combo: n.combo as int,
        attack: n.attack as int,
    }
}

/// Whether dropping a placement on the node's board clears at least one line.
pub open spec fn spec_clears(n: SpecNode, p: Placement) -> bool {
    spec_lines_cleared(spec_place(n.board, p)) > 0
}

/// The child a line-clearing placement makes: the cleared board, the swapped
/// hold, the combo carried through, the streak stepped or reset by the
/// clear's classification, and the attack grown by the table value for
/// (category, combo, streak before the clear) plus 10 for an emptied board.
pub open spec fn spec_child(n: SpecNode, p: Placement, next_hold: PieceShape) -> SpecNode {
    let placed = spec_place(n.board, p);
    let lines = spec_lines_cleared(placed);
    let cleared = spec_clear_result(placed);
    let cls = spec_classify(lines, p.shape == PieceShape::T, spec_immobile(n.board, p));
    SpecNode {
        board: cleared,
        hold: next_hold,
        btb: spec_next_btb(cls.1, n.btb),
        combo: n.combo,
        attack: n.attack + spec_attack(cls.0, n.combo, n.btb) + (if spec_board_empty(cleared) {
            10int
        } else {
            0int
        }),
    }
}

/// A fresh copy of a board.
fn copy_board(v: &Vec<MinoType>) -> (r: Vec<MinoType>)
    ensures
        r@ == v@,
{
    let mut out: Vec<MinoType> = Vec::new();
    let mut i: usize = 0;
    while i < v.len()
        invariant
            i <= v@.len(),
            out@ == v@.take(i as int),
        decreases v@.len() - i,
    {
        let c = v[i];
        out.push(c);
        proof {
            assert(v@.take(i + 1) =~= v@.take(i as int).push(v@[i as int]));
        }
        i += 1;
    }
    proof {
        assert(v@.take(v@.len() as int) =~= v@);
    }
    out
}

/// Drops one placement onto a copy of the node's board. A placement that
/// clears no line is discarded; one that clears becomes a child node with
/// the cleared board, the swapped hold, the combo carried through unchanged,
/// the streak stepped or reset by the clear's classification, and the
/// attack grown by the table value for (category, combo, streak before the
/// clear) plus 10 if the clear emptied the board.
pub fn apply_placement(node: &Node, p: &Placement, next_hold: PieceShape) -> (r: Option<Node>)
    requires
        spec_node_wf(*node),
        spec_fits(node.board@, *p),
        p.col < 10,
        p.row < 40,
        node.attack + spec_max_gain() <= usize::MAX,
        node.btb < usize::MAX,
    ensures
        r is Some <==> spec_clears(view_node(*node), *p),
        r matches Some(c) ==> ({
            &&& view_node(c) == spec_child(view_node(*node), *p, next_hold)
            &&& spec_node_wf(c)
            &&& c.hold == next_hold
            &&& c.combo == node.combo
            &&& node.attack <= c.attack <= node.attack + spec_max_gain()
            &&& c.btb <= node.btb + 1
        }),
{
    let mut b = copy_board(&node.board);
    place(&mut b, p);
    let lines = clear_lines(&mut b);
    if lines == 0 {
        return None;
    }
    let immobile = is_immobile(&node.board, p);
    let (cat, qualifying) = classify_clear(lines, p.shape == PieceShape::T, immobile);
    let mut atk = get_indexed_attack(cat, node.combo, node.btb);
    proof {
        lemma_attack_bounded(cat as int, node.combo as int, node.btb as int);
    }
    if board_empty(&b) {
        atk += 10;
    }
    Some(
        Node {
            board: b,
            hold: next_hold,
            btb: if qualifying {
                node.btb + 1
            } else {
                0
            },
            combo: node.combo,
            attack: node.attack + atk,
        },
    )
}

/// The first row, from `row` downward, where the shape fits in this
/// orientation and column; 40 when none does.
pub open spec fn spec_first_fit(
    b: Seq<MinoType>,
    s: PieceShape,
    rot: int,
    col: int,
    row: int,
) -> int
    decreases 40 - row,
{
    if row >= 40 {
        40
    } else if spec_fits_at(b, s, rot, col, row) {
        row
    } else {
        spec_first_fit(b, s, rot, col, row + 1)
    }
}

/// The row where a shape falling from `row` comes to rest: the last row of
/// the contiguous run of fitting rows that starts at `row`.
pub open spec fn spec_rest_row(
    b: Seq<MinoType>,
    s: PieceShape,
    rot: int,
    col: int,
    row: int,
) -> int
    decreases 40 - row,
{
    if row >= 40 {
        row
    } else if spec_fits_at(b, s, rot, col, row + 1) {
        spec_rest_row(b, s, rot, col, row + 1)
    } else {
        row
    }
}

/// The resting placement a straight fall from the spawn row reaches in one
/// orientation and column, if the shape fits anywhere at or below it.
pub open spec fn spec_drop(b: Seq<MinoType>, s: PieceShape, rot: int, col: int) -> Option<
    Placement,
> {
    let f = spec_first_fit(b, s, rot, col, 18);
    if f >= 40 {
        None
    } else {
        Some(
            Placement {
                shape: s,
                rot: rot as usize,
                col: col as usize,
                row: spec_rest_row(b, s, rot, col, f) as usize,
            },
        )
    }
}

/// The resting placements of one orientation over the columns below `col`,
/// in column order.
pub open spec fn spec_drops_upto(b: Seq<MinoType>, s: PieceShape, rot: int, col: int) -> Seq<
    Placement,
>
    decreases col,
{
    if col <= 0 {
        Seq::empty()
    } else {
        spec_drops_upto(b, s, rot, col - 1) + match spec_drop(b, s, rot, col - 1) {
            Some(p) => seq![p],
            None => Seq::empty(),
        }
    }
}

/// The resting placements of the orientations below `rot`, each over its full
/// column range, in order.
pub open spec fn spec_moves_upto(b: Seq<MinoType>, s: PieceShape, rot: int) -> Seq<Placement>
    decreases rot,
{
    if rot <= 0 {
        Seq::empty()
    } else {
        spec_moves_upto(b, s, rot - 1) + spec_drops_upto(
            b,
            s,
            rot - 1,
            11 - spec_piece_width(s, rot - 1),
        )
    }
}

/// Every placement the generator hands the search, in generation order.
pub open spec fn spec_moves(b: Seq<MinoType>, s: PieceShape) -> Seq<Placement> {
    spec_moves_upto(b, s, spec_rotation_count(s))
}

/// Every resting placement of a shape on the board, one per orientation and
/// column: the shape settles at the bottom of the highest gap it fits in at
/// or below the spawn row, slid down until obstructed — never above the row
/// pieces enter at. Each returned placement lies in free space, can fall no
/// further, and no two returned placements coincide.
pub fn generate_placements(board: &Vec<MinoType>, shape: PieceShape) -> (r: Vec<Placement>)
    requires
        board@.len() == 400,
    ensures
        forall|i: int|
            0 <= i < r@.len() ==> {
                let p = #[trigger] r@[i];
                &&& p.shape == shape
                &&& p.rot < spec_rotation_count(shape)
                &&& p.col < 10
                &&& p.row < 40
                &&& spec_fits(board@, p)
                &&& !spec_fits_at(board@, shape, p.rot as int, p.col as int, p.row as int + 1)
            },
        forall|i: int, j: int| 0 <= i < j < r@.len() ==> r@[i] != r@[j],
        r@ == spec_moves(board@, shape),
{
    let rc = rotation_count(shape);
    let mut out: Vec<Placement> = Vec::new();
    let mut rot: usize = 0;
    while rot < rc
        invariant
            board@.len() == 400,
            rc == spec_rotation_count(shape),
            rot <= rc,
            forall|i: int|
                0 <= i < out@.len() ==> {
                    let p = #[trigger] out@[i];
                    &&& p.shape == shape
                    &&& p.rot < spec_rotation_count(shape)
                    &&& p.col < 10
                    &&& p.row < 40
                    &&& spec_fits(board@, p)
                    &&& !spec_fits_at(board@, shape, p.rot as int, p.col as int, p.row as int + 1)
                },
            forall|i: int| 0 <= i < out@.len() ==> (#[trigger] out@[i]).rot < rot,
            forall|i: int, j: int| 0 <= i < j < out@.len() ==> out@[i] != out@[j],
            out@ == spec_moves_upto(board@, shape, rot as int),
        decreases rc - rot,
    {
        let w = piece_width(shape, rot);
        let mut col: usize = 0;
        while col + w <= 10
            invariant
                board@.len() == 400,
                rc == spec_rotation_count(shape),
                rot < rc,
                w == spec_piece_width(shape, rot as int),
                1 <= w <= 4,
                col <= 10,
                col + w <= 11,
                forall|i: int|
                    0 <= i < out@.len() ==> {
                        let p = #[trigger] out@[i];
                        &&& p.shape == shape
                        &&& p.rot < spec_rotation_count(shape)
                        &&& p.col < 10
                        &&& p.row < 40
                        &&& spec_fits(board@, p)
                        &&& !spec_fits_at(
                            board@,
                            shape,
                            p.rot as int,
                            p.col as int,
                            p.row as int + 1,
                        )
                    },
                forall|i: int|
                    0 <= i < out@.len() ==> (#[trigger] out@[i]).rot < rot || (out@[i].rot == rot
                        && out@[i].col < col),
                forall|i: int, j: int| 0 <= i < j < out@.len() ==> out@[i] != out@[j],
                out@ == spec_moves_upto(board@, shape, rot as int) + spec_drops_upto(
                    board@,
                    shape,
                    rot as int,
                    col as int,
                ),
            decreases 10 - col,
        {
            // fall from the spawn row: the first row that fits, then slide
            // down
            let mut row: usize = 18;
            while row < 40 && !fits_at(board, shape, rot, col, row)
                invariant
                    board@.len() == 400,
                    col <= 10,
                    18 <= row <= 40,
                    spec_first_fit(board@, shape, rot as int, col as int, 18) == spec_first_fit(
                        board@,
                        shape,
                        rot as int,
                        col as int,
                        row as int,
                    ),
                decreases 40 - row,
            {
                row += 1;
            }
            if row < 40 {
                // the shape is in free space here; let it fall to rest
                let ghost first = row as int;
                while fits_at(board, shape, rot, col, row + 1)
                    invariant
                        board@.len() == 400,
                        col <= 10,
                        row <= 40,
                        spec_fits_at(board@, shape, rot as int, col as int, row as int),
                        spec_rest_row(board@, shape, rot as int, col as int, first)
                            == spec_rest_row(board@, shape, rot as int, col as int, row as int),
                    decreases 40 - row,
                {
                    proof {
                        assert(spec_piece_height(shape, rot as int) >= 1);
                    }
                    row += 1;
                }
                out.push(Placement { shape, rot, col, row });
                proof {
                    assert(spec_piece_height(shape, rot as int) >= 1);
                    assert(spec_drop(board@, shape, rot as int, col as int) == Some(
                        Placement { shape, rot, col, row },
                    ));
                    assert(spec_drops_upto(board@, shape, rot as int, col + 1)
                        =~= spec_drops_upto(board@, shape, rot as int, col as int).push(
                        Placement { shape, rot, col, row },
                    ));
                }
            } else {
                proof {
                    assert(spec_first_fit(board@, shape, rot as int, col as int, 18) == 40);
                    assert(spec_drop(board@, shape, rot as int, col as int) is None);
                    assert(spec_drops_upto(board@, shape, rot as int, col + 1)
                        =~= spec_drops_upto(board@, shape, rot as int, col as int));
                }
            }
            col += 1;
        }
        proof {
            assert(col == 11 - spec_piece_width(shape, rot as int));
            assert(out@ =~= spec_moves_upto(board@, shape, rot + 1));
        }
        rot += 1;
    }
    out
}

/// The children made by the first `i` generated placements: one child per
/// line-clearing placement, in generation order.
pub open spec fn spec_children_upto(
    n: SpecNode,
    moves: Seq<Placement>,
    next_hold: PieceShape,
    i: int,
) -> Seq<SpecNode>
    decreases i,
{
    if i <= 0 {
        Seq::empty()
    } else {
        spec_children_upto(n, moves, next_hold, i - 1) + (if spec_clears(n, moves[i - 1]) {
            seq![spec_child(n, moves[i - 1], next_hold)]
        } else {
            Seq::empty()
        })
    }
}

/// The children of a node for one shape: none when the shape's spawn is
/// blocked, else one per line-clearing generated placement.
pub open spec fn spec_children(n: SpecNode, shape: PieceShape, next_hold: PieceShape) -> Seq<
    SpecNode,
> {
    if !spec_fits(n.board, spec_spawn(shape)) {
        Seq::empty()
    } else {
        let moves = spec_moves(n.board, shape);
        spec_children_upto(n, moves, next_hold, moves.len() as int)
    }
}

/// The children of a node for one shape: empty when the shape's spawn is
/// blocked, else one child per line-clearing resting placement of the shape.
pub fn get_children(node: &Node, shape: PieceShape, next_hold: PieceShape) -> (r: Vec<Node>)
    requires
        spec_node_wf(*node),
        node.attack + spec_max_gain() <= usize::MAX,
        node.btb < usize::MAX,
    ensures
        !spec_fits(node.board@, spec_spawn(shape)) ==> r@.len() == 0,
        forall|i: int|
            0 <= i < r@.len() ==> {
                let c = #[trigger] r@[i];
                &&& spec_node_wf(c)
                &&& c.hold == next_hold
                &&& c.combo == node.combo
                &&& node.attack <= c.attack <= node.attack + spec_max_gain()
                &&& c.btb <= node.btb + 1
            },
        r@.len() == spec_children(view_node(*node), shape, next_hold).len(),
        forall|i: int|
            0 <= i < r@.len() ==> view_node(#[trigger] r@[i]) == spec_children(
                view_node(*node),
                shape,
                next_hold,
            )[i],
{
    let sp = spawn_placement(shape);
    if !fits(&node.board, &sp) {
        return Vec::new();
    }
    let moves = generate_placements(&node.board, shape);
    let mut children: Vec<Node> = Vec::new();
    let mut i: usize = 0;
    while i < moves.len()
        invariant
            spec_node_wf(*node),
            node.attack + spec_max_gain() <= usize::MAX,
            node.btb < usize::MAX,
            i <= moves@.len(),
            moves@ == spec_moves(node.board@, shape),
            spec_fits(node.board@, spec_spawn(shape)),
            forall|j: int|
                0 <= j < moves@.len() ==> {
                    let p = #[trigger] moves@[j];
                    &&& p.shape == shape
                    &&& p.col < 10
                    &&& p.row < 40
                    &&& spec_fits(node.board@, p)
                },
            forall|j: int|
                0 <= j < children@.len() ==> {
                    let c = #[trigger] children@[j];
                    &&& spec_node_wf(c)
                    &&& c.hold == next_hold
                    &&& c.combo == node.combo
                    &&& node.attack <= c.attack <= node.attack + spec_max_gain()
                    &&& c.btb <= node.btb + 1
                },
            children@.len() == spec_children_upto(view_node(*node), moves@, next_hold, i as int).len(),
            forall|j: int|
                0 <= j < children@.len() ==> view_node(#[trigger] children@[j])
                    == spec_children_upto(view_node(*node), moves@, next_hold, i as int)[j],
        decreases moves@.len() - i,
    {
        let p = moves[i];
        match apply_placement(node, &p, next_hold) {
            Some(child) => {
                children.push(child);
            },
            None => {},
        }
        i += 1;
    }
    children
}

/// The shape whose fall height bounds the defense of a dead branch: the next
/// queued shape, or the held one when the queue has run out.
pub open spec fn spec_next_piece(q: Seq<PieceShape>, idx: int, hold: PieceShape) -> PieceShape {
    if idx < q.len() {
        q[idx]
    } else {
        hold
    }
}

/// The componentwise maximum of the search results of the first `k` children,
/// starting from (0, 0).
pub open spec fn spec_fold_best(
    children: Seq<SpecNode>,
    q: Seq<PieceShape>,
    idx: int,
    k: int,
) -> (int, int)
    decreases q.len() - idx, 1int, k,
{
    if k <= 0 || idx < 0 || idx > q.len() {
        (0, 0)
    } else {
        let prev = spec_fold_best(children, q, idx, k - 1);
        let sub = spec_dfs(children[k - 1], q, idx);
        (
            if sub.0 > prev.0 {
                sub.0
            } else {
                prev.0
            },
            if sub.1 > prev.1 {
                sub.1
            } else {
                prev.1
            },
        )
    }
}

/// One branch of a search level: a branch without children ends at the node's
/// attack with the next piece's fall-height defense bound, else it is the
/// componentwise maximum over the children's search results.
pub open spec fn spec_explore(
    n: SpecNode,
    shape: PieceShape,
    next_hold: PieceShape,
    q: Seq<PieceShape>,
    idx: int,
) -> (int, int)
    decreases q.len() - idx, 2int, 0int,
{
    if idx < 0 || idx > q.len() {
        (0, 0)
    } else {
        let children = spec_children(n, shape, next_hold);
        if children.len() == 0 {
            (n.attack, n.attack + spec_fall_height(n.board, spec_next_piece(q, idx, n.hold)) + 1)
        } else {
            spec_fold_best(children, q, idx, children.len() as int)
        }
    }
}

/// The search: an exhausted queue answers with the node's attack and the held
/// shape's fall-height defense bound; otherwise the componentwise maximum of
/// the drawn-shape branch and, when it differs from the hold, the held-shape
/// branch.
pub open spec fn spec_dfs(n: SpecNode, q: Seq<PieceShape>, idx: int) -> (int, int)
    decreases q.len() - idx, 0int, 0int,
{
    if idx < 0 || idx >= q.len() {
        (n.attack, n.attack + spec_fall_height(n.board, n.hold) + 1)
    } else {
        let a = spec_explore(n, q[idx], n.hold, q, idx + 1);
        if q[idx] != n.hold {
            let b = spec_explore(n, n.hold, q[idx], q, idx + 1);
            (
                if b.0 > a.0 {
                    b.0
                } else {
                    a.0
                },
                if b.1 > a.1 {
                    b.1
                } else {
                    a.1
                },
            )
        } else {
            a
        }
    }
}

/// Explores one branch of a search level: placing `shape` with `next_hold`
/// set aside. A blocked spawn (or a shape with no line-clearing placement)
/// ends the branch at the node's own attack, with a defense bound from the
/// next piece's fall height; otherwise the branch is the componentwise
/// maximum over the children's search results.
fn explore_branch(
    node: &Node,
    shape: PieceShape,
    next_hold: PieceShape,
    queue: &Vec<PieceShape>,
    idx: usize,
) -> (r: (usize, usize))
    requires
        spec_node_wf(*node),
        idx <= queue@.len(),
        queue@.len() <= 8,
        node.attack + spec_max_gain() * (queue@.len() - idx + 1) + 24 <= usize::MAX,
        node.btb + (queue@.len() - idx) < usize::MAX,
    ensures
        r.0 >= node.attack,
        r.0 <= node.attack + spec_max_gain() * (queue@.len() - idx + 1),
        r.1 >= r.0 + 1,
        !spec_fits(node.board@, spec_spawn(shape)) ==> r.0 == node.attack && r.1 == node.attack
            + spec_fall_height(node.board@, spec_next_piece(queue@, idx as int, node.hold)) + 1,
        (r.0 as int, r.1 as int) == spec_explore(
            view_node(*node),
            shape,
            next_hold,
            queue@,
            idx as int,
        ),
    decreases queue@.len() - idx, 1int,
{
    let children = get_children(node, shape, next_hold);
    if children.len() == 0 {
        let next = if idx < queue.len() {
            queue[idx]
        } else {
            node.hold
        };
        let fh = fall_height(&node.board, next);
        (node.attack, node.attack + fh + 1)
    } else {
        let mut best_attack: usize = 0;
        let mut best_defense: usize = 0;
        let mut i: usize = 0;
        while i < children.len()
            invariant
                spec_node_wf(*node),
                idx <= queue@.len(),
                queue@.len() <= 8,
                node.attack + spec_max_gain() * (queue@.len() - idx + 1) + 24 <= usize::MAX,
                node.btb + (queue@.len() - idx) < usize::MAX,
                i <= children@.len(),
                forall|j: int|
                    0 <= j < children@.len() ==> {
                        let c = #[trigger] children@[j];
                        &&& spec_node_wf(c)
                        &&& node.attack <= c.attack <= node.attack + spec_max_gain()
                        &&& c.btb <= node.btb + 1
                    },
                i == 0 ==> best_attack == 0 && best_defense == 0,
                i > 0 ==> best_attack >= node.attack,
                i > 0 ==> best_defense >= best_attack + 1,
                best_attack <= node.attack + spec_max_gain() * (queue@.len() - idx + 1),
                children@.len() == spec_children(view_node(*node), shape, next_hold).len(),
                forall|j: int|
                    0 <= j < children@.len() ==> view_node(#[trigger] children@[j])
                        == spec_children(view_node(*node), shape, next_hold)[j],
                (best_attack as int, best_defense as int) == spec_fold_best(
                    spec_children(view_node(*node), shape, next_hold),
                    queue@,
                    idx as int,
                    i as int,
                ),
            decreases children@.len() - i,
        {
            let child = &children[i];
            let sub = dfs(child, queue, idx);
            if sub.0 > best_attack {
                best_attack = sub.0;
            }
            if sub.1 > best_defense {
                best_defense = sub.1;
            }
            i += 1;
        }
        (best_attack, best_defense)
    }
}

/// The depth-first search over the remaining queue, from `idx` on. Returns
/// the maximum cumulative attack over every branch and the maximum defense
/// requirement; an exhausted queue returns the node's attack and that attack
/// plus the held shape's fall height plus one.
pub fn dfs(node: &Node, queue: &Vec<PieceShape>, idx: usize) -> (r: (usize, usize))
    requires
        spec_node_wf(*node),
        idx <= queue@.len(),
        queue@.len() <= 8,
        node.attack + spec_max_gain() * (queue@.len() - idx) + 24 <= usize::MAX,
        node.btb + (queue@.len() - idx) <= usize::MAX,
    ensures
        r.0 >= node.attack,
        r.0 <= node.attack + spec_max_gain() * (queue@.len() - idx),
        r.1 >= r.0 + 1,
        idx == queue@.len() ==> r.0 == node.attack && r.1 == node.attack + spec_fall_height(
            node.board@,
            node.hold,
        ) + 1,
        (idx < queue@.len() && !spec_fits(node.board@, spec_spawn(queue@[idx as int]))
            && !spec_fits(node.board@, spec_spawn(node.hold))) ==> r.0 == node.attack && r.1
            == node.attack + spec_fall_height(
            node.board@,
            spec_next_piece(queue@, idx + 1, node.hold),
        ) + 1,
        (r.0 as int, r.1 as int) == spec_dfs(view_node(*node), queue@, idx as int),
    decreases queue@.len() - idx, 0int,
{
    if idx >= queue.len() {
        let fh = fall_height(&node.board, node.hold);
        return (node.attack, node.attack + fh + 1);
    }
    let use_shape = queue[idx];
    let a = explore_branch(node, use_shape, node.hold, queue, idx + 1);
    let mut best = a;
    if use_shape != node.hold {
        let b = explore_branch(node, node.hold, use_shape, queue, idx + 1);
        if b.0 > best.0 {
            best.0 = b.0;
        }
        if b.1 > best.1 {
            best.1 = b.1;
        }
    }
    best
}

/// The shape a queue entry names; garbage and empty cells name none.
pub open spec fn spec_piece_of(m: MinoType) -> Option<PieceShape> {
    match m {
        MinoType::Z => Some(PieceShape::Z),
        MinoType::L => Some(PieceShape::L),
        MinoType::O => Some(PieceShape::O),
        MinoType::S => Some(PieceShape::S),
        MinoType::I => Some(PieceShape::I),
        MinoType::J => Some(PieceShape::J),
        MinoType::T => Some(PieceShape::T),
        _ => None,
    }
}

/// The shapes named by the first eight queue entries, in order.
pub open spec fn spec_parsed_queue(q: Seq<MinoType>) -> Seq<PieceShape>
    decreases q.len(),
{
    if q.len() == 0 {
        Seq::empty()
    } else {
        let front = spec_parsed_queue(q.drop_last());
        match spec_piece_of(q.last()) {
            Some(p) => front.push(p),
            None => front,
        }
    }
}

/// The first eight entries of a queue.
pub open spec fn spec_queue_window(q: Seq<MinoType>) -> Seq<MinoType> {
    if q.len() < 8 {
        q
    } else {
        q.take(8)
    }
}

/// The shape a queue entry names.
fn piece_of(m: MinoType) -> (r: Option<PieceShape>)
    ensures
        r == spec_piece_of(m),
{
    match m {
        MinoType::Z => Some(PieceShape::Z),
        MinoType::L => Some(PieceShape::L),
        MinoType::O => Some(PieceShape::O),
        MinoType::S => Some(PieceShape::S),
        MinoType::I => Some(PieceShape::I),
        MinoType::J => Some(PieceShape::J),
        MinoType::T => Some(PieceShape::T),
        MinoType::Garbage => None,
        MinoType::Empty => None,
    }
}

/// Searches a board state: the first parsed queue entry is the held shape,
/// the rest the upcoming shapes, and the result is the search's (maximum
/// attack, maximum defense requirement). A queue naming no shape at all
/// short-circuits to attack 0 with the immediate fall-height bound of the I
/// shape, the tallest drop.
pub fn solve_state(board: &Board, btb: usize, combo: usize, queue: &[MinoType]) -> (r: (
    usize,
    usize,
))
    requires
        board@.len() == 400,
        btb <= usize::MAX - 9,
    ensures
        r.0 <= spec_max_gain() * 7,
        r.1 >= r.0 + 1,
        spec_parsed_queue(spec_queue_window(queue@)).len() == 0 ==> r.0 == 0 && r.1
            == spec_fall_height(board@, PieceShape::I) + 1,
        spec_parsed_queue(spec_queue_window(queue@)).len() == 1 ==> r.0 == 0 && r.1
            == spec_fall_height(board@, spec_parsed_queue(spec_queue_window(queue@))[0]) + 1,
        spec_parsed_queue(spec_queue_window(queue@)).len() >= 1 ==> (r.0 as int, r.1 as int)
            == spec_dfs(
            (SpecNode {
                board: board@,
                hold: spec_parsed_queue(spec_queue_window(queue@))[0],
                btb: btb as int,
                combo: combo as int,
                attack: 0,
            }),
            spec_parsed_queue(spec_queue_window(queue@)),
            1,
        ),
{
    let limit = if queue.len() < 8 {
        queue.len()
    } else {
        8
    };
    let mut pieces: Vec<PieceShape> = Vec::new();
    let mut i: usize = 0;
    while i < limit
        invariant
            limit <= queue@.len(),
            limit <= 8,
            limit == spec_queue_window(queue@).len(),
            i <= limit,
            pieces@ == spec_parsed_queue(spec_queue_window(queue@).take(i as int)),
            pieces@.len() <= i,
        decreases limit - i,
    {
        let m = queue[i];
        proof {
            assert(spec_queue_window(queue@).take(i + 1).drop_last() =~= spec_queue_window(
                queue@,
            ).take(i as int));
            assert(spec_queue_window(queue@).take(i + 1).last() == queue@[i as int]);
        }
        match piece_of(m) {
            Some(p) => {
                pieces.push(p);
            },
            None => {},
        }
        i += 1;
    }
    proof {
        assert(spec_queue_window(queue@).take(limit as int) =~= spec_queue_window(queue@));
    }
    if pieces.len() == 0 {
        let fh = fall_height(board, PieceShape::I);
        return (0, fh + 1);
    }
    let hold = pieces[0];
    let node = Node { board: copy_board(board), hold, btb, combo, attack: 0 };
    dfs(&node, &pieces, 1)
}

} // verus!
