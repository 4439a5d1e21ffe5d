//! Axis-aligned box overlap and the line through two points.

use vstd::prelude::*;

verus! {

/// A point (or a box's full size) on the board, in whole units.
#[derive(Clone, Copy, Debug, PartialEq, Eq, Structural)]
pub struct Point {
    pub x: i32,
    pub y: i32,
}

impl Point {
    pub fn new(x: i32, y: i32) -> (r: Point)
        ensures
            r.x == x,
            r.y == y,
    {
        Point { x, y }
    }
}

/// The side of the second box that the first box struck.
#[derive(Clone, Copy, Debug, PartialEq, Eq, Structural)]
pub enum Side {
    Left,
    Right,
    Top,
    Bottom,
    Inside,
}

/// Low edge of a box along one axis, in doubled coordinates (so that half
/// sizes stay whole).
pub open spec fn low_edge(center: int, size: int) -> int {
    2 * center - size
}

/// High edge of a box along one axis, in doubled coordinates.
pub open spec fn high_edge(center: int, size: int) -> int {
    2 * center + size
}

/// The two boxes' interiors meet.
pub open spec fn boxes_meet(ac: Point, asz: Point, bc: Point, bsz: Point) -> bool {
    &&& low_edge(ac.x as int, asz.x as int) < high_edge(bc.x as int, bsz.x as int)
    &&& high_edge(ac.x as int, asz.x as int) > low_edge(bc.x as int, bsz.x as int)
    &&& low_edge(ac.y as int, asz.y as int) < high_edge(bc.y as int, bsz.y as int)
    &&& high_edge(ac.y as int, asz.y as int) > low_edge(bc.y as int, bsz.y as int)
}

/// Along one axis, the first span enters the second from below it.
pub open spec fn enters_low(a_lo: int, a_hi: int, b_lo: int, b_hi: int) -> bool {
    a_lo < b_lo && a_hi > b_lo && a_hi < b_hi
}

/// Along one axis, the first span enters the second from above it.
pub open spec fn enters_high(a_lo: int, a_hi: int, b_lo: int, b_hi: int) -> bool {
    a_lo > b_lo && a_lo < b_hi && a_hi > b_hi
}

/// Along one axis, the first span neither enters from below nor from above:
/// it lies within the second one or covers it.
pub open spec fn axis_inside(a_lo: int, a_hi: int, b_lo: int, b_hi: int) -> bool {
    !enters_low(a_lo, a_hi, b_lo, b_hi) && !enters_high(a_lo, a_hi, b_lo, b_hi)
}

/// How deep the first span has entered the second (doubled units), where it
/// entered from one side.
pub open spec fn axis_depth(a_lo: int, a_hi: int, b_lo: int, b_hi: int) -> int {
    if enters_low(a_lo, a_hi, b_lo, b_hi) {
        a_hi - b_lo
    } else {
        b_hi - a_lo
    }
}

/// The side struck along one axis: `low` or `high` where the first span
/// entered from that side, `Inside` otherwise.
pub open spec fn axis_side(a_lo: int, a_hi: int, b_lo: int, b_hi: int, low: Side, high: Side) -> Side {
    if enters_low(a_lo, a_hi, b_lo, b_hi) {
        low
    } else if enters_high(a_lo, a_hi, b_lo, b_hi) {
        high
    } else {
        Side::Inside
    }
}

/// Which side of box `b` box `a` struck, if they meet. An axis along which `a`
/// lies inside counts as infinitely deep; the shallower axis is reported, and
/// on equal depth the horizontal one.
pub open spec fn overlap_side(ac: Point, asz: Point, bc: Point, bsz: Point) -> Option<Side> {
    let ax_lo = low_edge(ac.x as int, asz.x as int);
    let ax_hi = high_edge(ac.x as int, asz.x as int);
    let bx_lo = low_edge(bc.x as int, bsz.x as int);
    let bx_hi = high_edge(bc.x as int, bsz.x as int);
    let ay_lo = low_edge(ac.y as int, asz.y as int);
    let ay_hi = high_edge(ac.y as int, asz.y as int);
    let by_lo = low_edge(bc.y as int, bsz.y as int);
    let by_hi = high_edge(bc.y as int, bsz.y as int);
    if !boxes_meet(ac, asz, bc, bsz) {
        None
    } else if !axis_inside(ay_lo, ay_hi, by_lo, by_hi) && (axis_inside(ax_lo, ax_hi, bx_lo, bx_hi)
        || axis_depth(ay_lo, ay_hi, by_lo, by_hi) < axis_depth(ax_lo, ax_hi, bx_lo, bx_hi)) {
        Some(axis_side(ay_lo, ay_hi, by_lo, by_hi, Side::Bottom, Side::Top))
    } else {
        Some(axis_side(ax_lo, ax_hi, bx_lo, bx_hi, Side::Left, Side::Right))
    }
}

/// Overlap of box `a` (center `ac`, full size `asz`) with box `b`: the side of
/// `b` that `a` struck, or `None` where the interiors do not meet.
pub fn overlap(ac: Point, asz: Point, bc: Point, bsz: Point) -> (r: Option<Side>)
    ensures
        r == overlap_side(ac, asz, bc, bsz),
{
    let ax_lo: i64 = 2 * (ac.x as i64) - asz.x as i64;
    let ax_hi: i64 = 2 * (ac.x as i64) + asz.x as i64;
    let bx_lo: i64 = 2 * (bc.x as i64) - bsz.x as i64;
    let bx_hi: i64 = 2 * (bc.x as i64) + bsz.x as i64;
    let ay_lo: i64 = 2 * (ac.y as i64) - asz.y as i64;
    let ay_hi: i64 = 2 * (ac.y as i64) + asz.y as i64;
    let by_lo: i64 = 2 * (bc.y as i64) - bsz.y as i64;
    let by_hi: i64 = 2 * (bc.y as i64) + bsz.y as i64;
    if !(ax_lo < bx_hi && ax_hi > bx_lo && ay_lo < by_hi && ay_hi > by_lo) {
        return None;
    }
    // Horizontal contact: side and depth; no depth means inside.
    let (x_side, x_depth): (Side, Option<i64>) = if ax_lo < bx_lo && ax_hi > bx_lo && ax_hi < bx_hi {
        (Side::Left, Some(ax_hi - bx_lo))
    } else if ax_lo > bx_lo && ax_lo < bx_hi && ax_hi > bx_hi {
        (Side::Right, Some(bx_hi - ax_lo))
    } else {
        (Side::Inside, None)
    };
    let (y_side, y_depth): (Side, Option<i64>) = if ay_lo < by_lo && ay_hi > by_lo && ay_hi < by_hi {
        (Side::Bottom, Some(ay_hi - by_lo))
    } else if ay_lo > by_lo && ay_lo < by_hi && ay_hi > by_hi {
        (Side::Top, Some(by_hi - ay_lo))
    } else {
        (Side::Inside, None)
    };
    let vertical_first = match (y_depth, x_depth) {
        (Some(dy), Some(dx)) => dy < dx,
        (Some(_), None) => true,
        (None, _) => false,
    };
    if vertical_first {
        Some(y_side)
    } else {
        Some(x_side)
    }
}

/// A line `y = m * x + c` with `m = slope_num / denom` and
/// `c = intercept_num / denom`, `denom` positive.
#[derive(Clone, Copy, Debug, PartialEq, Eq, Structural)]
pub struct LinearEquation {
    pub slope_num: i128,
    pub intercept_num: i128,
    pub denom: i128,
}

impl LinearEquation {
    pub open spec fn wf(self) -> bool {
        self.denom > 0
    }

    /// The point lies on the line.
    pub open spec fn passes_through(self, p: Point) -> bool {
        self.slope_num * p.x + self.intercept_num == p.y * self.denom
    }
}

/// Denominator of the line through `a` and `b`: the horizontal distance.
pub open spec fn fit_denom(a: Point, b: Point) -> int {
    if b.x >= a.x {
        b.x - a.x
    } else {
        a.x - b.x
    }
}

/// Slope numerator of the line through `a` and `b`, over `fit_denom`.
pub open spec fn fit_slope(a: Point, b: Point) -> int {
    if b.x >= a.x {
        b.y - a.y
    } else {
        a.y - b.y
    }
}

/// Intercept numerator of the line through `a` and `b`, over `fit_denom`:
/// `b.y - b.x * m`.
pub open spec fn fit_intercept(a: Point, b: Point) -> int {
    b.y * fit_denom(a, b) - b.x * fit_slope(a, b)
}

/// The fitted line's parts stay well inside the range of `i128`.
pub proof fn lemma_fit_bounds(a: Point, b: Point)
    ensures
        0 <= fit_denom(a, b) < 0x1_0000_0000,
        -0x1_0000_0000 < fit_slope(a, b) < 0x1_0000_0000,
        -0x1_0000_0000_0000_0000 < b.y * fit_denom(a, b) < 0x1_0000_0000_0000_0000,
        -0x1_0000_0000_0000_0000 < b.x * fit_slope(a, b) < 0x1_0000_0000_0000_0000,
        -0x2_0000_0000_0000_0000 < fit_intercept(a, b) < 0x2_0000_0000_0000_0000,
{
    let d = fit_denom(a, b);
    let m = fit_slope(a, b);
    let (bx, by) = (b.x as int, b.y as int);
    assert(-0x1_0000_0000_0000_0000 < by * d < 0x1_0000_0000_0000_0000) by (nonlinear_arith)
        requires
            0 <= d < 0x1_0000_0000,
            -0x8000_0000 <= by < 0x8000_0000,
    ;
    assert(-0x1_0000_0000_0000_0000 < bx * m < 0x1_0000_0000_0000_0000) by (nonlinear_arith)
        requires
            -0x1_0000_0000 < m < 0x1_0000_0000,
            -0x8000_0000 <= bx < 0x8000_0000,
    ;
}

/// The line through `a` and `b`; `None` where they share their horizontal
/// coordinate, as the slope would be infinite.
pub fn create_linear_equation(a: Point, b: Point) -> (r: Option<LinearEquation>)
    ensures
        r is None <==> a.x == b.x,
        r matches Some(e) ==> {
            &&& e.denom == fit_denom(a, b)
            &&& e.slope_num == fit_slope(a, b)
            &&& e.intercept_num == fit_intercept(a, b)
            &&& e.wf()
            &&& e.passes_through(a)
            &&& e.passes_through(b)
        },
{
    if a.x == b.x {
        return None;
    }
    let dx: i128 = b.x as i128 - a.x as i128;
    let dy: i128 = b.y as i128 - a.y as i128;
    let (denom, slope_num): (i128, i128) = if dx > 0 {
        (dx, dy)
    } else {
        (-dx, -dy)
    };
    let by: i128 = b.y as i128;
    let bx: i128 = b.x as i128;
    proof {
        lemma_fit_bounds(a, b);
        lemma_fitted_line_through_both(a, b);
    }
    let intercept_num: i128 = by * denom - bx * slope_num;
    Some(LinearEquation { slope_num, intercept_num, denom })
}

/// A line fitted through two points with distinct horizontal coordinates
/// passes through both of them, with a positive denominator.
pub proof fn lemma_fitted_line_through_both(a: Point, b: Point)
    requires
        a.x != b.x,
    ensures
        fit_denom(a, b) > 0,
        fit_slope(a, b) * a.x + fit_intercept(a, b) == a.y * fit_denom(a, b),
        fit_slope(a, b) * b.x + fit_intercept(a, b) == b.y * fit_denom(a, b),
{
    let (ax, ay, bx, by) = (a.x as int, a.y as int, b.x as int, b.y as int);
    if bx >= ax {
        assert((by - ay) * ax + by * (bx - ax) - bx * (by - ay) == ay * (bx - ax)) by (nonlinear_arith);
        assert((by - ay) * bx + by * (bx - ax) - bx * (by - ay) == by * (bx - ax)) by (nonlinear_arith);
    } else {
        assert((ay - by) * ax + by * (ax - bx) - bx * (ay - by) == ay * (ax - bx)) by (nonlinear_arith);
        assert((ay - by) * bx + by * (ax - bx) - bx * (ay - by) == by * (ax - bx)) by (nonlinear_arith);
    }
}


/// A box centered on another box's top edge (in doubled coordinates
/// `2 * a.y == 2 * b.y + b.h`), lying inside it horizontally with a
/// non-negative width, and less than twice its height tall, strikes that
/// box's top.
pub proof fn lemma_centered_on_top_edge(ac: Point, asz: Point, bc: Point, bsz: Point)
    requires
        2 * ac.y == 2 * bc.y + bsz.y,
        0 < asz.y < 2 * bsz.y,
        asz.x >= 0,
        low_edge(bc.x as int, bsz.x as int) < low_edge(ac.x as int, asz.x as int),
        high_edge(ac.x as int, asz.x as int) < high_edge(bc.x as int, bsz.x as int),
    ensures
        overlap_side(ac, asz, bc, bsz) == Some(Side::Top),
{
}

/// A box centered on another box's left edge (`2 * a.x == 2 * b.x - b.w`),
/// lying inside it vertically with a non-negative height, and less than
/// twice its width wide, strikes that box's left side.
pub proof fn lemma_centered_on_left_edge(ac: Point, asz: Point, bc: Point, bsz: Point)
    requires
        2 * ac.x == 2 * bc.x - bsz.x,
        0 < asz.x < 2 * bsz.x,
        asz.y >= 0,
        low_edge(bc.y as int, bsz.y as int) < low_edge(ac.y as int, asz.y as int),
        high_edge(ac.y as int, asz.y as int) < high_edge(bc.y as int, bsz.y as int),
    ensures
        overlap_side(ac, asz, bc, bsz) == Some(Side::Left),
{
}

/// Boxes whose centers lie at least half their summed sizes apart along
/// either axis do not meet.
pub proof fn lemma_apart_no_hit(ac: Point, asz: Point, bc: Point, bsz: Point)
    requires
        2 * ac.x - 2 * bc.x >= asz.x + bsz.x || 2 * bc.x - 2 * ac.x >= asz.x + bsz.x
            || 2 * ac.y - 2 * bc.y >= asz.y + bsz.y || 2 * bc.y - 2 * ac.y >= asz.y + bsz.y,
    ensures
        overlap_side(ac, asz, bc, bsz) is None,
{
}

} // verus!
