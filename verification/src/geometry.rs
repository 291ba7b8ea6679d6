//! Oriented-rectangle geometry: turns a center, a facing direction and an
//! extent into the four corners of a rotated rectangle, ready to be handed to
//! a rasterizer as a closed polygon.
//!
//! The convention is deliberate and callers must match it: `height` is the
//! rectangle's extent along the facing direction, `width` the extent along
//! the axis a quarter turn clockwise from it. For a facing direction
//! `(dx, dy)` that lateral axis is `(dy, -dx)`.
//!
//! Everything is fixed point. A direction component equal to `DIR_SCALE`
//! stands for 1.0, so a unit direction vector satisfies
//! `dx*dx + dy*dy ~ DIR_SCALE * DIR_SCALE`. Corner coordinates come out in
//! fine units of `1 / (2 * DIR_SCALE)` drawing units, which absorbs both the
//! direction scale and the halving of the extents around the center: centers
//! are passed in fine units, extents in drawing units, and every corner is an
//! exact integer — no rounding happens anywhere in the walk.

use vstd::prelude::*;

verus! {

/// Fixed-point scale of direction vectors: this value stands for 1.0.
pub const DIR_SCALE: i64 = 1_000_000;

/// Largest extent `corners` accepts; keeps every product inside `i64`.
pub const MAX_EXTENT: i64 = 1_000_000_000;

/// Largest center coordinate magnitude `corners` accepts; keeps every sum
/// inside `i64`.
pub const MAX_CENTER: i64 = 1_000_000_000_000_000_000;

/// A point in fine coordinates: `2 * DIR_SCALE` fine units per drawing unit.
#[derive(Debug, Clone, Copy, PartialEq, Eq, Structural)]
pub struct Point {
    pub x: i64,
    pub y: i64,
}

/// The corner walk, mathematically. Starting corner: the center, shifted
/// back by half the height along the facing direction `(dx, dy)` and back by
/// half the width along the lateral axis `(dy, -dx)`. The walk then goes the
/// full height forward, the full width laterally, and back by the height,
/// which closes into a rectangle. Centers `(cx, cy)` are in fine units;
/// since one fine unit is `1 / (2 * DIR_SCALE)` drawing units, the product
/// `h * dx` is exactly the half-height shift and `2 * h * dx` the full edge.
pub open spec fn rect_corners(cx: int, cy: int, dx: int, dy: int, w: int, h: int) -> Seq<(int, int)> {
    let x0 = cx - h * dx - w * dy;
    let y0 = cy - h * dy + w * dx;
    seq![
        (x0, y0),
        (x0 + 2 * (h * dx), y0 + 2 * (h * dy)),
        (x0 + 2 * (h * dx) + 2 * (w * dy), y0 + 2 * (h * dy) - 2 * (w * dx)),
        (x0 + 2 * (w * dy), y0 - 2 * (w * dx)),
    ]
}

/// Dot product of two plane vectors.
pub open spec fn dot(ax: int, ay: int, bx: int, by: int) -> int {
    ax * bx + ay * by
}

/// Cross product (signed area) of two plane vectors.
pub open spec fn cross(ax: int, ay: int, bx: int, by: int) -> int {
    ax * by - ay * bx
}

/// The four ordered corners of the rectangle centered at `(cx, cy)` (fine
/// units), facing `(dir_x, dir_y)` (`DIR_SCALE` fixed point), with extent
/// `height` along the facing axis and `width` along the lateral axis (both
/// in drawing units). The result is a closed polygon in walking order, in
/// fine units; consecutive points are its edges, last back to first closes
/// it.
pub fn corners(cx: i64, cy: i64, dir_x: i64, dir_y: i64, width: i64, height: i64) -> (r: Vec<Point>)
    requires
        -DIR_SCALE <= dir_x <= DIR_SCALE,
        -DIR_SCALE <= dir_y <= DIR_SCALE,
        0 <= width <= MAX_EXTENT,
        0 <= height <= MAX_EXTENT,
        -MAX_CENTER <= cx <= MAX_CENTER,
        -MAX_CENTER <= cy <= MAX_CENTER,
    ensures
        r@.len() == 4,
        ({
            let cs = rect_corners(cx as int, cy as int, dir_x as int, dir_y as int, width as int, height as int);
            &&& r@[0].x == cs[0].0 && r@[0].y == cs[0].1
            &&& r@[1].x == cs[1].0 && r@[1].y == cs[1].1
            &&& r@[2].x == cs[2].0 && r@[2].y == cs[2].1
            &&& r@[3].x == cs[3].0 && r@[3].y == cs[3].1
        }),
{
    proof {
        assert(-1_000_000_000_000_000 <= height * dir_x <= 1_000_000_000_000_000) by (nonlinear_arith)
            requires
                0 <= height <= 1_000_000_000,
                -1_000_000 <= dir_x <= 1_000_000,
        ;
        assert(-1_000_000_000_000_000 <= height * dir_y <= 1_000_000_000_000_000) by (nonlinear_arith)
            requires
                0 <= height <= 1_000_000_000,
                -1_000_000 <= dir_y <= 1_000_000,
        ;
        assert(-1_000_000_000_000_000 <= width * dir_x <= 1_000_000_000_000_000) by (nonlinear_arith)
            requires
                0 <= width <= 1_000_000_000,
                -1_000_000 <= dir_x <= 1_000_000,
        ;
        assert(-1_000_000_000_000_000 <= width * dir_y <= 1_000_000_000_000_000) by (nonlinear_arith)
            requires
                0 <= width <= 1_000_000_000,
                -1_000_000 <= dir_y <= 1_000_000,
        ;
    }
    let hx = height * dir_x;
    let hy = height * dir_y;
    let wx = width * dir_x;
    let wy = width * dir_y;
    let x0 = cx - hx - wy;
    let y0 = cy - hy + wx;
    let x1 = x0 + 2 * hx;
    let y1 = y0 + 2 * hy;
    let x2 = x1 + 2 * wy;
    let y2 = y1 - 2 * wx;
    let x3 = x0 + 2 * wy;
    let y3 = y0 - 2 * wx;
    let mut r: Vec<Point> = Vec::new();
    r.push(Point { x: x0, y: y0 });
    r.push(Point { x: x1, y: y1 });
    r.push(Point { x: x2, y: y2 });
    r.push(Point { x: x3, y: y3 });
    r
}

/// Winding consistency of the corner walk, for every facing direction: the
/// corners always form a parallelogram (opposite edges are equal vectors)
/// with perpendicular adjacent edges, and the signed area of the two edges
/// leaving the first corner is `-4*h*w*(dx*dx + dy*dy)` — one fixed sign
/// whenever the rectangle is non-degenerate, so the winding order never
/// flips and the polygon never self-intersects as the direction sweeps a
/// full turn.
pub proof fn lemma_corners_winding(cx: int, cy: int, dx: int, dy: int, w: int, h: int)
    ensures
        ({
            let cs = rect_corners(cx, cy, dx, dy, w, h);
            let e1x = cs[1].0 - cs[0].0;
            let e1y = cs[1].1 - cs[0].1;
            let e2x = cs[3].0 - cs[0].0;
            let e2y = cs[3].1 - cs[0].1;
            &&& e1x == cs[2].0 - cs[3].0
            &&& e1y == cs[2].1 - cs[3].1
            &&& e2x == cs[2].0 - cs[1].0
            &&& e2y == cs[2].1 - cs[1].1
            &&& dot(e1x, e1y, e2x, e2y) == 0
            &&& cross(e1x, e1y, e2x, e2y) == -4 * h * w * (dx * dx + dy * dy)
            &&& h > 0 && w > 0 && (dx != 0 || dy != 0) ==> cross(e1x, e1y, e2x, e2y) < 0
        }),
{
    let cs = rect_corners(cx, cy, dx, dy, w, h);
    assert(cs[1].0 - cs[0].0 == 2 * (h * dx));
    assert(cs[1].1 - cs[0].1 == 2 * (h * dy));
    assert(cs[3].0 - cs[0].0 == 2 * (w * dy));
    assert(cs[3].1 - cs[0].1 == -(2 * (w * dx)));
    assert((2 * (h * dx)) * (2 * (w * dy)) + (2 * (h * dy)) * (-(2 * (w * dx))) == 0) by (nonlinear_arith);
    assert((2 * (h * dx)) * (-(2 * (w * dx))) - (2 * (h * dy)) * (2 * (w * dy)) == -4 * h * w * (dx * dx + dy * dy))
        by (nonlinear_arith);
    if h > 0 && w > 0 && (dx != 0 || dy != 0) {
        assert(-4 * h * w * (dx * dx + dy * dy) < 0) by (nonlinear_arith)
            requires
                h > 0,
                w > 0,
                dx != 0 || dy != 0,
        ;
    }
}

} // verus!
