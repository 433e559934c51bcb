//! The geometry kernel: the canonical unit cube and the fixed pairing of its
//! eight corners into the twelve edge segments of a box outline.

use vstd::prelude::*;

verus! {

/// A point in three-dimensional space. Each coordinate is the bit pattern of
/// an IEEE 754 single-precision number; the library treats coordinates as
/// opaque values and never computes on them.
#[derive(Clone, Copy, PartialEq, Eq, Structural, Debug)]
pub struct Point3 {
    pub x: u32,
    pub y: u32,
    pub z: u32,
}

/// Bit pattern of +0.5, the positive coordinate of the canonical unit cube.
pub const CORNER_POS_BITS: u32 = 0x3F00_0000;

/// Bit pattern of -0.5, the negative coordinate of the canonical unit cube.
pub const CORNER_NEG_BITS: u32 = 0xBF00_0000;

/// Whether canonical corner `i` (0 <= i < 8) lies on the positive side of
/// `axis` (0 = x, 1 = y, 2 = z). Corner indices follow a binary pattern:
/// bit 2 gives the x sign, bit 1 the y sign, bit 0 the z sign.
pub open spec fn corner_sign(i: int, axis: int) -> bool {
    if axis == 0 {
        i / 4 % 2 == 1
    } else if axis == 1 {
        i / 2 % 2 == 1
    } else {
        i % 2 == 1
    }
}

/// The coordinate of canonical corner `i` along `axis`.
pub open spec fn corner_coordinate(i: int, axis: int) -> u32 {
    if corner_sign(i, axis) {
        CORNER_POS_BITS
    } else {
        CORNER_NEG_BITS
    }
}

/// Canonical corner `i` of the unit cube centered at the origin with
/// half-extent one half on every axis.
pub open spec fn canonical_corner(i: int) -> Point3 {
    Point3 {
        x: corner_coordinate(i, 0),
        y: corner_coordinate(i, 1),
        z: corner_coordinate(i, 2),
    }
}

/// Canonical corner `i` of the unit cube, as a value.
pub fn unit_cube_corner(i: usize) -> (p: Point3)
    requires
        i < 8,
    ensures
        p == canonical_corner(i as int),
{
    let x: u32 = if i / 4 % 2 == 1 { CORNER_POS_BITS } else { CORNER_NEG_BITS };
    let y: u32 = if i / 2 % 2 == 1 { CORNER_POS_BITS } else { CORNER_NEG_BITS };
    let z: u32 = if i % 2 == 1 { CORNER_POS_BITS } else { CORNER_NEG_BITS };
    Point3 { x, y, z }
}

/// All eight canonical corners of the unit cube, indexed as `canonical_corner`.
pub fn unit_cube_corners() -> (corners: [Point3; 8])
    ensures
        forall|i: int| 0 <= i < 8 ==> corners@[i] == canonical_corner(i),
{
    let corners: [Point3; 8] = [
        unit_cube_corner(0),
        unit_cube_corner(1),
        unit_cube_corner(2),
        unit_cube_corner(3),
        unit_cube_corner(4),
        unit_cube_corner(5),
        unit_cube_corner(6),
        unit_cube_corner(7),
    ];
    corners
}

/// The pair of corner indices joined by edge `k` (0 <= k < 12) of the box
/// outline: four bottom-face edges, four top-face edges, four vertical edges,
/// in that fixed order.
pub open spec fn edge_corners(k: int) -> (int, int) {
    if k == 0 {
        (0, 1)
    } else if k == 1 {
        (0, 2)
    } else if k == 2 {
        (3, 1)
    } else if k == 3 {
        (3, 2)
    } else if k == 4 {
        (4, 5)
    } else if k == 5 {
        (4, 6)
    } else if k == 6 {
        (7, 5)
    } else if k == 7 {
        (7, 6)
    } else if k == 8 {
        (0, 4)
    } else if k == 9 {
        (1, 5)
    } else if k == 10 {
        (2, 6)
    } else {
        (3, 7)
    }
}

/// The twelve edge segments spanned by eight box corners, in the fixed edge
/// order. The caller supplies the corners of one oriented box, normally the
/// canonical corners taken through the instance's affine transform, indexed
/// as `canonical_corner`.
pub fn transformed_box_segments(corners: &[Point3; 8]) -> (segs: Vec<(Point3, Point3)>)
    ensures
        segs@.len() == 12,
        forall|k: int|
            0 <= k < 12 ==> #[trigger] segs@[k] == (
                corners@[edge_corners(k).0],
                corners@[edge_corners(k).1],
            ),
{
    let mut segs: Vec<(Point3, Point3)> = Vec::new();
    segs.push((corners[0], corners[1]));
    segs.push((corners[0], corners[2]));
    segs.push((corners[3], corners[1]));
    segs.push((corners[3], corners[2]));
    segs.push((corners[4], corners[5]));
    segs.push((corners[4], corners[6]));
    segs.push((corners[7], corners[5]));
    segs.push((corners[7], corners[6]));
    segs.push((corners[0], corners[4]));
    segs.push((corners[1], corners[5]));
    segs.push((corners[2], corners[6]));
    segs.push((corners[3], corners[7]));
    segs
}

/// How many axes the canonical corners `i` and `j` differ on.
pub open spec fn axis_difference_count(i: int, j: int) -> int {
    (if corner_sign(i, 0) != corner_sign(j, 0) { 1int } else { 0int })
        + (if corner_sign(i, 1) != corner_sign(j, 1) { 1int } else { 0int })
        + (if corner_sign(i, 2) != corner_sign(j, 2) { 1int } else { 0int })
}

/// Law: every edge of the box outline joins two distinct canonical corners
/// that differ in exactly one coordinate sign, so the twelve segments are
/// exactly cube edges, never face or space diagonals.
pub proof fn lemma_box_edges_are_cube_edges()
    ensures
        forall|k: int| 0 <= k < 12 ==> 0 <= #[trigger] edge_corners(k).0 < 8,
        forall|k: int| 0 <= k < 12 ==> 0 <= #[trigger] edge_corners(k).1 < 8,
        forall|k: int|
            0 <= k < 12 ==> axis_difference_count(
                #[trigger] edge_corners(k).0,
                edge_corners(k).1,
            ) == 1,
{
    assert forall|k: int| 0 <= k < 12 implies 0 <= #[trigger] edge_corners(k).0 < 8
        && 0 <= edge_corners(k).1 < 8
        && axis_difference_count(edge_corners(k).0, edge_corners(k).1) == 1 by {
        if k == 0 {
            assert(axis_difference_count(0, 1) == 1);
        } else if k == 1 {
            assert(axis_difference_count(0, 2) == 1);
        } else if k == 2 {
            assert(axis_difference_count(3, 1) == 1);
        } else if k == 3 {
            assert(axis_difference_count(3, 2) == 1);
        } else if k == 4 {
            assert(axis_difference_count(4, 5) == 1);
        } else if k == 5 {
            assert(axis_difference_count(4, 6) == 1);
        } else if k == 6 {
            assert(axis_difference_count(7, 5) == 1);
        } else if k == 7 {
            assert(axis_difference_count(7, 6) == 1);
        } else if k == 8 {
            assert(axis_difference_count(0, 4) == 1);
        } else if k == 9 {
            assert(axis_difference_count(1, 5) == 1);
        } else if k == 10 {
            assert(axis_difference_count(2, 6) == 1);
        } else {
            assert(axis_difference_count(3, 7) == 1);
        }
    }
}

/// Law: no edge joins a corner to itself, and distinct canonical corners have
/// distinct sign patterns, so an edge's two endpoints are two different
/// corners of the cube.
pub proof fn lemma_distinct_corners_distinct_signs(i: int, j: int)
    requires
        0 <= i < 8,
        0 <= j < 8,
        i != j,
    ensures
        axis_difference_count(i, j) >= 1,
{
}

} // verus!
