//! Axis-aligned rectangle overlap test.
//!
//! Given a moving rectangle `a` and a struck rectangle `b`, the test reports
//! whether they overlap and, if so, which face of `b` was penetrated the
//! least deeply. All comparisons use doubled coordinates (`2 * center ±
//! extent`) so that half-extents of odd sizes need no rounding. Ties between
//! equal penetration depths fall to the earlier face in the fixed order
//! left, right, bottom, top; in healthy play no two depths are exactly equal.

use vstd::prelude::*;

verus! {

/// An axis-aligned rectangle: center and full extent, in milli-units.
#[derive(Clone, Copy, PartialEq, Eq, Structural, Debug)]
pub struct Rect {
    pub cx: i64,
    pub cy: i64,
    pub w: i64,
    pub h: i64,
}

/// The face of the struck rectangle that the moving rectangle penetrated.
#[derive(Clone, Copy, PartialEq, Eq, Structural, Debug)]
pub enum Face {
    Left,
    Right,
    Bottom,
    Top,
}

/// Coordinate bound under which the doubled-coordinate arithmetic cannot
/// overflow an `i64`.
pub const GEOM_BOUND: i64 = 2_000_000_000;

/// A rectangle the overlap test accepts: positive extents, bounded fields.
pub open spec fn rect_wf(r: Rect) -> bool {
    &&& 0 < r.w <= GEOM_BOUND
    &&& 0 < r.h <= GEOM_BOUND
    &&& -GEOM_BOUND <= r.cx <= GEOM_BOUND
    &&& -GEOM_BOUND <= r.cy <= GEOM_BOUND
}

/// Strict interval overlap on both axes, over doubled coordinates.
pub open spec fn overlap_spec(
    acx: int, acy: int, aw: int, ah: int,
    bcx: int, bcy: int, bw: int, bh: int,
) -> bool {
    &&& 2 * acx - aw < 2 * bcx + bw
    &&& 2 * acx + aw > 2 * bcx - bw
    &&& 2 * acy - ah < 2 * bcy + bh
    &&& 2 * acy + ah > 2 * bcy - bh
}

/// How far `a` reaches past `b`'s left edge (doubled units; positive when
/// the rectangles overlap).
pub open spec fn pen_left(acx: int, aw: int, bcx: int, bw: int) -> int {
    (2 * acx + aw) - (2 * bcx - bw)
}

/// How far `a` reaches past `b`'s right edge.
pub open spec fn pen_right(acx: int, aw: int, bcx: int, bw: int) -> int {
    (2 * bcx + bw) - (2 * acx - aw)
}

/// How far `a` reaches past `b`'s bottom edge.
pub open spec fn pen_bottom(acy: int, ah: int, bcy: int, bh: int) -> int {
    (2 * acy + ah) - (2 * bcy - bh)
}

/// How far `a` reaches past `b`'s top edge.
pub open spec fn pen_top(acy: int, ah: int, bcy: int, bh: int) -> int {
    (2 * bcy + bh) - (2 * acy - ah)
}

/// The face of `b` with the least penetration depth, ties falling to the
/// earlier of left, right, bottom, top.
pub open spec fn face_spec(
    acx: int, acy: int, aw: int, ah: int,
    bcx: int, bcy: int, bw: int, bh: int,
) -> Face {
    let pl = pen_left(acx, aw, bcx, bw);
    let pr = pen_right(acx, aw, bcx, bw);
    let pb = pen_bottom(acy, ah, bcy, bh);
    let pt = pen_top(acy, ah, bcy, bh);
    if pl <= pr && pl <= pb && pl <= pt {
        Face::Left
    } else if pr <= pb && pr <= pt {
        Face::Right
    } else if pb <= pt {
        Face::Bottom
    } else {
        Face::Top
    }
}

/// What the overlap test returns: the least-penetrated face of `b` when the
/// rectangles overlap, nothing otherwise.
pub open spec fn collide_spec(
    acx: int, acy: int, aw: int, ah: int,
    bcx: int, bcy: int, bw: int, bh: int,
) -> Option<Face> {
    if overlap_spec(acx, acy, aw, ah, bcx, bcy, bw, bh) {
        Some(face_spec(acx, acy, aw, ah, bcx, bcy, bw, bh))
    } else {
        None
    }
}

/// Shorthand for `collide_spec` over two rectangles.
pub open spec fn collide_rects(a: Rect, b: Rect) -> Option<Face> {
    collide_spec(
        a.cx as int, a.cy as int, a.w as int, a.h as int,
        b.cx as int, b.cy as int, b.w as int, b.h as int,
    )
}

/// Tests whether `a` overlaps `b` and, if so, reports which face of `b`
/// it penetrated the least deeply.
pub fn collide(a: &Rect, b: &Rect) -> (r: Option<Face>)
    requires
        rect_wf(*a),
        rect_wf(*b),
    ensures
        r == collide_rects(*a, *b),
{
    let a_min_x: i64 = 2 * a.cx - a.w;
    let a_max_x: i64 = 2 * a.cx + a.w;
    let a_min_y: i64 = 2 * a.cy - a.h;
    let a_max_y: i64 = 2 * a.cy + a.h;
    let b_min_x: i64 = 2 * b.cx - b.w;
    let b_max_x: i64 = 2 * b.cx + b.w;
    let b_min_y: i64 = 2 * b.cy - b.h;
    let b_max_y: i64 = 2 * b.cy + b.h;
    if a_min_x < b_max_x && a_max_x > b_min_x && a_min_y < b_max_y && a_max_y > b_min_y {
        let pl: i64 = a_max_x - b_min_x;
        let pr: i64 = b_max_x - a_min_x;
        let pb: i64 = a_max_y - b_min_y;
        let pt: i64 = b_max_y - a_min_y;
        if pl <= pr && pl <= pb && pl <= pt {
            Some(Face::Left)
        } else if pr <= pb && pr <= pt {
            Some(Face::Right)
        } else if pb <= pt {
            Some(Face::Bottom)
        } else {
            Some(Face::Top)
        }
    } else {
        None
    }
}

/// The overlap test is a pure function of its inputs: two results obtained
/// from the same pair of rectangles are the same result.
pub proof fn lemma_collide_deterministic(a: Rect, b: Rect, r1: Option<Face>, r2: Option<Face>)
    requires
        r1 == collide_rects(a, b),
        r2 == collide_rects(a, b),
    ensures
        r1 == r2,
{
}

} // verus!
