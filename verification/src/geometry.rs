//! Points in screen-pixel coordinates and exact distance comparisons.
//!
//! All geometry works on integer pixel coordinates.  Distances are compared
//! through their squares, which integer arithmetic computes exactly, so a
//! comparison such as "within radius r" never suffers rounding.

use vstd::prelude::*;

verus! {

/// A 2D point in screen-pixel coordinates.
#[derive(Clone, Copy, Debug, PartialEq, Eq, Structural)]
pub struct Point {
    pub x: i32,
    pub y: i32,
}

/// A line segment between two points, the editor's basic element.
#[derive(Clone, Copy, Debug, PartialEq, Eq, Structural)]
pub struct Line {
    pub start: Point,
    pub end: Point,
}

/// The tight matching radius under which two positions count as one:
/// a distance strictly below it marks coincident points.  At integer pixel
/// resolution this admits exactly the positions that are equal.
pub const MATCH_EPSILON: i32 = 1;

/// The squared Euclidean distance between two points, as a mathematical integer.
pub open spec fn dist_sq(a: Point, b: Point) -> int {
    (a.x - b.x) * (a.x - b.x) + (a.y - b.y) * (a.y - b.y)
}

/// `b` lies strictly closer to `a` than the radius `r` (so `r <= 0` admits nothing).
pub open spec fn strictly_within(a: Point, b: Point, r: int) -> bool {
    r > 0 && dist_sq(a, b) < r * r
}

/// `b` lies within radius `r` of `a`, boundary included (so `r < 0` admits nothing).
pub open spec fn within(a: Point, b: Point, r: int) -> bool {
    r >= 0 && dist_sq(a, b) <= r * r
}

/// The distance from `a` to `b` strictly exceeds `t` (so any `t < 0` is exceeded).
pub open spec fn beyond(a: Point, b: Point, t: int) -> bool {
    t < 0 || dist_sq(a, b) > t * t
}

/// Two positions coincide: they lie strictly within [`MATCH_EPSILON`] of one
/// another, which at pixel resolution means they are the same point.
pub open spec fn coincident(a: Point, b: Point) -> bool {
    strictly_within(a, b, MATCH_EPSILON as int)
}

/// A square of a value bounded by `m` in magnitude lies between `0` and `m * m`.
pub proof fn lemma_square_in_range(v: int, m: int)
    by (nonlinear_arith)
    requires
        -m <= v <= m,
    ensures
        0 <= v * v <= m * m,
{
}

impl Point {
    pub fn new(x: i32, y: i32) -> (r: Point)
        ensures
            r == (Point { x, y }),
    {
        Point { x, y }
    }

    /// The squared distance to `other`, computed exactly in 128-bit arithmetic.
    pub fn dist_sq_to(&self, other: &Point) -> (r: i128)
        ensures
            r == dist_sq(*self, *other),
    {
        let dx: i128 = self.x as i128 - other.x as i128;
        let dy: i128 = self.y as i128 - other.y as i128;
        proof {
            assert(0 <= dx * dx <= 4294967296i128 * 4294967296i128) by (nonlinear_arith)
                requires
                    -4294967296i128 <= dx <= 4294967296i128,
            ;
            assert(0 <= dy * dy <= 4294967296i128 * 4294967296i128) by (nonlinear_arith)
                requires
                    -4294967296i128 <= dy <= 4294967296i128,
            ;
        }
        dx * dx + dy * dy
    }
}

/// Decides [`strictly_within`] on concrete points.
pub fn is_strictly_within(a: &Point, b: &Point, r: i32) -> (res: bool)
    ensures
        res == strictly_within(*a, *b, r as int),
{
    proof {
        lemma_square_in_range(r as int, 0x80000000);
    }
    r > 0 && a.dist_sq_to(b) < (r as i128) * (r as i128)
}

/// Decides [`within`] on concrete points.
pub fn is_within(a: &Point, b: &Point, r: i32) -> (res: bool)
    ensures
        res == within(*a, *b, r as int),
{
    proof {
        lemma_square_in_range(r as int, 0x80000000);
    }
    r >= 0 && a.dist_sq_to(b) <= (r as i128) * (r as i128)
}

/// Decides [`beyond`] on concrete points; `t` is widened so that callers can
/// hand in doubled radii without overflow.
pub fn is_beyond(a: &Point, b: &Point, t: i64) -> (res: bool)
    ensures
        res == beyond(*a, *b, t as int),
{
    proof {
        lemma_square_in_range(t as int, 0x8000000000000000);
    }
    t < 0 || a.dist_sq_to(b) > (t as i128) * (t as i128)
}

/// The squared distance from a point to a feature position given by raw
/// coordinates (a circle extremum, a rectangle corner).
pub open spec fn dist_sq_xy(p: Point, x: int, y: int) -> int {
    (p.x - x) * (p.x - x) + (p.y - y) * (p.y - y)
}

/// The point lies within radius `r` of the feature at `(x, y)`, boundary
/// included.
pub open spec fn within_xy(p: Point, x: int, y: int, r: int) -> bool {
    r >= 0 && dist_sq_xy(p, x, y) <= r * r
}

/// Decides [`within_xy`] for feature coordinates near the screen (wide
/// enough for any i32 point offset by any i32 radius).
pub fn is_within_xy(p: &Point, x: i64, y: i64, r: i32) -> (res: bool)
    requires
        -8589934592 <= x <= 8589934592,
        -8589934592 <= y <= 8589934592,
    ensures
        res == within_xy(*p, x as int, y as int, r as int),
{
    if r < 0 {
        return false;
    }
    let dx: i128 = p.x as i128 - x as i128;
    let dy: i128 = p.y as i128 - y as i128;
    proof {
        lemma_square_in_range(dx as int, 17179869184);
        lemma_square_in_range(dy as int, 17179869184);
        lemma_square_in_range(r as int, 0x80000000);
    }
    dx * dx + dy * dy <= (r as i128) * (r as i128)
}

/// The squared distance between two pixel points is non-negative and fits
/// comfortably below two times the square of the coordinate span.
pub proof fn lemma_dist_sq_bounds(a: Point, b: Point)
    ensures
        0 <= dist_sq(a, b) <= 36893488147419103232,
{
    let dx = a.x - b.x;
    let dy = a.y - b.y;
    assert(0 <= dx * dx <= 18446744073709551616 && 0 <= dy * dy <= 18446744073709551616)
        by (nonlinear_arith)
        requires
            -4294967296 <= dx <= 4294967296,
            -4294967296 <= dy <= 4294967296,
    ;
}

/// `r` is the floor of the square root of `d`.
pub open spec fn is_floor_sqrt(d: int, r: int) -> bool {
    0 <= r && r * r <= d < (r + 1) * (r + 1)
}

/// The floor of the square root of `d` (meaningful for `d >= 0`).
pub open spec fn floor_sqrt(d: int) -> int {
    choose|r: int| is_floor_sqrt(d, r)
}

/// The floor square root is unique, so any witness pins [`floor_sqrt`].
pub proof fn lemma_floor_sqrt_unique(d: int, r: int)
    requires
        is_floor_sqrt(d, r),
    ensures
        floor_sqrt(d) == r,
{
    assert(exists|x: int| is_floor_sqrt(d, x)) by {
        assert(is_floor_sqrt(d, r));
    }
    let rc = floor_sqrt(d);
    assert(is_floor_sqrt(d, rc));
    assert(rc == r) by (nonlinear_arith)
        requires
            is_floor_sqrt(d, rc),
            is_floor_sqrt(d, r),
    ;
}

/// The floor square root of `d`, by bisection on the invariant
/// `lo * lo <= d < hi * hi`.
pub fn isqrt64(d: u64) -> (r: u64)
    ensures
        is_floor_sqrt(d as int, r as int),
        r as int == floor_sqrt(d as int),
{
    let mut lo: u64 = 0;
    let mut hi: u64 = 4294967296;
    proof {
        assert((4294967296 as int) * (4294967296 as int) == 18446744073709551616);
    }
    while hi - lo > 1
        invariant
            0 <= lo < hi <= 4294967296,
            (lo as int) * (lo as int) <= d as int,
            (d as int) < (hi as int) * (hi as int),
        decreases hi - lo,
    {
        let mid = lo + (hi - lo) / 2;
        proof {
            lemma_square_in_range(mid as int, 4294967296);
        }
        let m2: u128 = (mid as u128) * (mid as u128);
        if m2 <= d as u128 {
            lo = mid;
        } else {
            hi = mid;
        }
    }
    proof {
        assert(is_floor_sqrt(d as int, lo as int));
        lemma_floor_sqrt_unique(d as int, lo as int);
    }
    lo
}

} // verus!
