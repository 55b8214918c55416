//! The cube's fixed topology: corner layout, edges, and the per-axis rules
//! that the rotation step follows.

use vstd::prelude::*;

verus! {

/// Number of corners of a cube.
pub const NODE_COUNT: usize = 8;

/// Number of edges of a cube.
pub const EDGE_COUNT: usize = 12;

/// Sign of each corner's offset from the center, per axis, in corner order.
pub open spec fn corner_sign_table() -> Seq<(i8, i8, i8)> {
    seq![
        (-1i8, -1i8, -1i8),
        (1i8, -1i8, -1i8),
        (1i8, 1i8, -1i8),
        (-1i8, 1i8, -1i8),
        (-1i8, -1i8, 1i8),
        (-1i8, 1i8, 1i8),
        (1i8, 1i8, 1i8),
        (1i8, -1i8, 1i8),
    ]
}

/// The twelve wireframe edges, as pairs of corner indices.
pub open spec fn edge_table() -> Seq<(usize, usize)> {
    seq![
        (0usize, 1usize),
        (1usize, 2usize),
        (2usize, 3usize),
        (3usize, 0usize),
        (0usize, 4usize),
        (4usize, 5usize),
        (5usize, 6usize),
        (6usize, 7usize),
        (4usize, 7usize),
        (7usize, 1usize),
        (2usize, 6usize),
        (5usize, 3usize),
    ]
}

/// The corner sign table: corner `i` lies at `center + sign * size / 2` on each axis.
pub fn corner_signs() -> (r: Vec<(i8, i8, i8)>)
    ensures
        r@ == corner_sign_table(),
{
    let r = vec![
        (-1i8, -1i8, -1i8),
        (1i8, -1i8, -1i8),
        (1i8, 1i8, -1i8),
        (-1i8, 1i8, -1i8),
        (-1i8, -1i8, 1i8),
        (-1i8, 1i8, 1i8),
        (1i8, 1i8, 1i8),
        (1i8, -1i8, 1i8),
    ];
    assert(r@ =~= corner_sign_table());
    r
}

/// The edge list shared by every cube.
pub fn edges() -> (r: Vec<(usize, usize)>)
    ensures
        r@ == edge_table(),
{
    let r = vec![
        (0usize, 1usize),
        (1usize, 2usize),
        (2usize, 3usize),
        (3usize, 0usize),
        (0usize, 4usize),
        (4usize, 5usize),
        (5usize, 6usize),
        (6usize, 7usize),
        (4usize, 7usize),
        (7usize, 1usize),
        (2usize, 6usize),
        (5usize, 3usize),
    ];
    assert(r@ =~= edge_table());
    r
}

/// The sign of corner `i`'s offset on coordinate `c` (0 = x, 1 = y, 2 = z).
pub open spec fn corner_sign(i: int, c: int) -> i8 {
    let s = corner_sign_table()[i];
    if c == 0 {
        s.0
    } else if c == 1 {
        s.1
    } else {
        s.2
    }
}

/// Number of coordinates on which corners `i` and `j` lie on opposite sides.
pub open spec fn sign_changes(i: int, j: int) -> int {
    (if corner_sign(i, 0) != corner_sign(j, 0) { 1int } else { 0int }) + (if corner_sign(i, 1)
        != corner_sign(j, 1) {
        1int
    } else {
        0int
    }) + (if corner_sign(i, 2) != corner_sign(j, 2) { 1int } else { 0int })
}

/// Whether two edges join the same two corners, in either direction.
pub open spec fn same_edge(e: (usize, usize), f: (usize, usize)) -> bool {
    (e.0 == f.0 && e.1 == f.1) || (e.0 == f.1 && e.1 == f.0)
}

/// The edge list is the cube's wireframe: every edge joins two valid corners
/// that differ along exactly one axis, and no two edges join the same corners.
pub proof fn lemma_edges_form_wireframe()
    ensures
        edge_table().len() == EDGE_COUNT,
        corner_sign_table().len() == NODE_COUNT,
        forall|k: int|
            0 <= k < EDGE_COUNT ==> {
                let e = #[trigger] edge_table()[k];
                &&& e.0 < NODE_COUNT
                &&& e.1 < NODE_COUNT
                &&& sign_changes(e.0 as int, e.1 as int) == 1
            },
        forall|k: int, l: int|
            0 <= k < l < EDGE_COUNT ==> !same_edge(
                #[trigger] edge_table()[k],
                #[trigger] edge_table()[l],
            ),
{
    let t = edge_table();
    let c = corner_sign_table();
    assert(t[0] == (0usize, 1usize) && t[1] == (1usize, 2usize) && t[2] == (2usize, 3usize) && t[3]
        == (3usize, 0usize) && t[4] == (0usize, 4usize) && t[5] == (4usize, 5usize));
    assert(t[6] == (5usize, 6usize) && t[7] == (6usize, 7usize) && t[8] == (4usize, 7usize) && t[9]
        == (7usize, 1usize) && t[10] == (2usize, 6usize) && t[11] == (5usize, 3usize));
    assert(c[0] == (-1i8, -1i8, -1i8) && c[1] == (1i8, -1i8, -1i8) && c[2] == (1i8, 1i8, -1i8)
        && c[3] == (-1i8, 1i8, -1i8));
    assert(c[4] == (-1i8, -1i8, 1i8) && c[5] == (-1i8, 1i8, 1i8) && c[6] == (1i8, 1i8, 1i8) && c[7]
        == (1i8, -1i8, 1i8));
}

/// A rotation axis.
#[derive(Clone, Copy, PartialEq, Eq, Structural, Debug)]
pub enum Axis {
    X,
    Y,
    Z,
}

/// Where a node's in-plane coordinate lies relative to the center's.
#[derive(Clone, Copy, PartialEq, Eq, Structural, Debug)]
pub enum Side {
    Below,
    Level,
    Above,
    /// The two values are not comparable (one of them is not a number).
    Unordered,
}

/// The two coordinates (0 = x, 1 = y, 2 = z) that a rotation about `axis` moves.
pub open spec fn plane_spec(axis: Axis) -> (usize, usize) {
    match axis {
        Axis::X => (1usize, 2usize),
        Axis::Y => (0usize, 2usize),
        Axis::Z => (0usize, 1usize),
    }
}

/// The center coordinates that the planar distance is measured against.
/// Under the literal rule, rotation about y measures from the center's (x, y)
/// pair while reading the node's (x, z) pair; the corrected rule uses the plane.
pub open spec fn radius_center_spec(axis: Axis, corrected: bool) -> (usize, usize) {
    if axis == Axis::Y && !corrected {
        (0usize, 1usize)
    } else {
        plane_spec(axis)
    }
}

/// The sign correction applied after the single-quadrant angle.
/// About x and y: +1 only when the node lies above the center; about z: -1
/// only when it lies below.
pub open spec fn factor_spec(axis: Axis, side: Side) -> i8 {
    match axis {
        Axis::Z => if side == Side::Below {
            -1i8
        } else {
            1i8
        },
        _ => if side == Side::Above {
            1i8
        } else {
            -1i8
        },
    }
}

/// The coordinates that a rotation about `axis` moves.
pub fn plane(axis: Axis) -> (r: (usize, usize))
    ensures
        r == plane_spec(axis),
        r.0 < r.1 < 3,
{
    match axis {
        Axis::X => (1, 2),
        Axis::Y => (0, 2),
        Axis::Z => (0, 1),
    }
}

/// The center coordinates against which a rotation about `axis` measures
/// the node's planar distance.
pub fn radius_center(axis: Axis, corrected: bool) -> (r: (usize, usize))
    ensures
        r == radius_center_spec(axis, corrected),
        r.0 < r.1 < 3,
{
    if axis == Axis::Y && !corrected {
        (0, 1)
    } else {
        plane(axis)
    }
}

/// The sign correction for a node on `side` of the center, rotating about `axis`.
pub fn sign_factor(axis: Axis, side: Side) -> (r: i8)
    ensures
        r == factor_spec(axis, side),
        r == 1 || r == -1,
{
    match axis {
        Axis::Z => if side == Side::Below {
            -1
        } else {
            1
        },
        _ => if side == Side::Above {
            1
        } else {
            -1
        },
    }
}

} // verus!
