//! Integer plane geometry for the scene graph: points, vectors, segments,
//! axis-aligned rectangles, and the exact hit-test predicates the shapes
//! rely on.  Coordinates are document units bounded by [`COORD_LIMIT`], so
//! every product and squared distance below fits in `i64`.

use vstd::prelude::*;

verus! {

/// Largest magnitude a scene coordinate may take, in document units.
pub const COORD_LIMIT: i64 = 16384;

/// A coordinate of a scene point.
pub open spec fn coord_in_range(x: int) -> bool {
    -(COORD_LIMIT as int) <= x <= COORD_LIMIT as int
}

/// A coordinate of a free vector (a difference of two scene points).
pub open spec fn delta_in_range(x: int) -> bool {
    -2 * (COORD_LIMIT as int) <= x <= 2 * (COORD_LIMIT as int)
}

/// The wider range the hit-test predicates accept: room for a scene point
/// displaced by a direction vector, with margin.
pub open spec fn ext_coord_in_range(x: int) -> bool {
    -0x2_0000 <= x <= 0x2_0000
}

/// A location in the document plane.
#[derive(Clone, Copy, PartialEq, Eq, Structural, Debug)]
pub struct Point {
    pub x: i64,
    pub y: i64,
}

/// A displacement in the document plane.
#[derive(Clone, Copy, PartialEq, Eq, Structural, Debug)]
pub struct Vector {
    pub x: i64,
    pub y: i64,
}

pub open spec fn point_in_range(p: Point) -> bool {
    coord_in_range(p.x as int) && coord_in_range(p.y as int)
}

pub open spec fn vector_in_range(v: Vector) -> bool {
    coord_in_range(v.x as int) && coord_in_range(v.y as int)
}

pub open spec fn ext_point_in_range(p: Point) -> bool {
    ext_coord_in_range(p.x as int) && ext_coord_in_range(p.y as int)
}

/// A displacement between two in-range points; twice as wide as a point
/// coordinate.
pub open spec fn vector_in_delta_range(v: Vector) -> bool {
    delta_in_range(v.x as int) && delta_in_range(v.y as int)
}

impl Point {
    pub fn new(x: i64, y: i64) -> (r: Point)
        ensures
            r.x == x,
            r.y == y,
    {
        Point { x, y }
    }

    /// The displacement from `other` to `self`.
    pub fn sub(self, other: Point) -> (r: Vector)
        requires
            point_in_range(self),
            point_in_range(other),
        ensures
            r.x == self.x - other.x,
            r.y == self.y - other.y,
            vector_in_delta_range(r),
    {
        Vector { x: self.x - other.x, y: self.y - other.y }
    }

    /// The point displaced by `v`.
    pub fn add_vector(self, v: Vector) -> (r: Point)
        requires
            coord_in_range(self.x + v.x),
            coord_in_range(self.y + v.y),
        ensures
            r.x == self.x + v.x,
            r.y == self.y + v.y,
            point_in_range(r),
    {
        Point { x: self.x + v.x, y: self.y + v.y }
    }
}

impl Vector {
    pub fn new(x: i64, y: i64) -> (r: Vector)
        ensures
            r.x == x,
            r.y == y,
    {
        Vector { x, y }
    }

    /// The opposite displacement.
    pub fn neg(self) -> (r: Vector)
        requires
            vector_in_delta_range(self),
        ensures
            r.x == -self.x,
            r.y == -self.y,
    {
        Vector { x: -self.x, y: -self.y }
    }
}

/// The two endpoints of a shape's stroke.
#[derive(Clone, Copy, PartialEq, Eq, Structural, Debug)]
pub struct Segment {
    pub a: Point,
    pub b: Point,
}

pub open spec fn segment_in_range(s: Segment) -> bool {
    point_in_range(s.a) && point_in_range(s.b)
}

impl Segment {
    pub fn new(a: Point, b: Point) -> (r: Segment)
        ensures
            r.a == a,
            r.b == b,
    {
        Segment { a, b }
    }
}

/// An axis-aligned bounding rectangle, in whichever coordinate space the
/// caller is working in.
#[derive(Clone, Copy, PartialEq, Eq, Structural, Debug)]
pub struct Rectangle {
    pub min_x: i64,
    pub min_y: i64,
    pub max_x: i64,
    pub max_y: i64,
}

pub open spec fn rect_wf(r: Rectangle) -> bool {
    r.min_x <= r.max_x && r.min_y <= r.max_y
}

pub open spec fn min_i64(a: i64, b: i64) -> i64 {
    if a <= b { a } else { b }
}

pub open spec fn max_i64(a: i64, b: i64) -> i64 {
    if a >= b { a } else { b }
}

/// The smallest rectangle containing both arguments.
pub open spec fn merged_spec(r: Rectangle, o: Rectangle) -> Rectangle {
    Rectangle {
        min_x: min_i64(r.min_x, o.min_x),
        min_y: min_i64(r.min_y, o.min_y),
        max_x: max_i64(r.max_x, o.max_x),
        max_y: max_i64(r.max_y, o.max_y),
    }
}

impl Rectangle {
    pub fn new(min_x: i64, min_y: i64, max_x: i64, max_y: i64) -> (r: Rectangle)
        requires
            min_x <= max_x,
            min_y <= max_y,
        ensures
            r == (Rectangle { min_x, min_y, max_x, max_y }),
            rect_wf(r),
    {
        Rectangle { min_x, min_y, max_x, max_y }
    }

    /// The smallest rectangle containing both `self` and `other`.
    pub fn merged(self, other: Rectangle) -> (r: Rectangle)
        ensures
            r == merged_spec(self, other),
    {
        Rectangle {
            min_x: if self.min_x <= other.min_x { self.min_x } else { other.min_x },
            min_y: if self.min_y <= other.min_y { self.min_y } else { other.min_y },
            max_x: if self.max_x >= other.max_x { self.max_x } else { other.max_x },
            max_y: if self.max_y >= other.max_y { self.max_y } else { other.max_y },
        }
    }

    /// The rectangle grown by `margin` on every side.
    pub fn grown(self, margin: i64) -> (r: Rectangle)
        requires
            0 <= margin,
            i64::MIN < self.min_x - margin,
            i64::MIN < self.min_y - margin,
            self.max_x + margin <= i64::MAX,
            self.max_y + margin <= i64::MAX,
        ensures
            r.min_x == self.min_x - margin,
            r.min_y == self.min_y - margin,
            r.max_x == self.max_x + margin,
            r.max_y == self.max_y + margin,
    {
        Rectangle {
            min_x: self.min_x - margin,
            min_y: self.min_y - margin,
            max_x: self.max_x + margin,
            max_y: self.max_y + margin,
        }
    }
}

/// What merging extents means: the merge contains both rectangles (it
/// is their bounding union), and merging well-formed rectangles stays
/// well formed.  The layer and page extents are folds of this merge.
pub proof fn lemma_merged_is_union_bound(r: Rectangle, o: Rectangle)
    ensures
        merged_spec(r, o).min_x <= r.min_x && merged_spec(r, o).min_x <= o.min_x,
        merged_spec(r, o).max_x >= r.max_x && merged_spec(r, o).max_x >= o.max_x,
        merged_spec(r, o).min_y <= r.min_y && merged_spec(r, o).min_y <= o.min_y,
        merged_spec(r, o).max_y >= r.max_y && merged_spec(r, o).max_y >= o.max_y,
        rect_wf(r) && rect_wf(o) ==> rect_wf(merged_spec(r, o)),
{
}

/// Floor division of `x` by a positive divisor `d`: the unique `q` with
/// `d * q <= x < d * (q + 1)`.  Matches the mathematical `/` of the
/// contracts on every sign of `x`.
pub fn floor_div(x: i64, d: u64) -> (r: i64)
    requires
        1 <= d <= 0x10_0000,
        -0x4000_0000_0000_0000 < x,
        x < 0x4000_0000_0000_0000,
    ensures
        r == x as int / d as int,
{
    if x >= 0 {
        let q: u64 = (x as u64) / d;
        proof {
            assert(x as int / d as int == (x as u64) as int / d as int);
            assert(0 <= (x as u64) as int / d as int <= x as int) by (nonlinear_arith)
                requires 0 <= x as int, 1 <= d as int;
        }
        q as i64
    } else {
        let n: u64 = (-x) as u64;
        proof {
            let ni = n as int;
            let di = d as int;
            let qq = ni / di;
            let rr = ni % di;
            vstd::arithmetic::div_mod::lemma_fundamental_div_mod(ni, di);
            vstd::arithmetic::div_mod::lemma_mod_division_less_than_divisor(ni, di);
            assert(0 <= qq <= ni) by (nonlinear_arith)
                requires 0 < ni, 0 < di, di * qq + rr == ni, 0 <= rr < di;
            if rr == 0 {
                // n + d - 1 == q * d + (d - 1), so the rounded-up quotient is q,
                // and -n == (-q) * d exactly.
                assert(ni + di - 1 == qq * di + (di - 1)) by (nonlinear_arith)
                    requires di * qq + rr == ni, rr == 0;
                vstd::arithmetic::div_mod::lemma_fundamental_div_mod_converse_div(
                    ni + di - 1, di, qq, di - 1);
                assert(-ni == (-qq) * di + 0) by (nonlinear_arith)
                    requires di * qq + rr == ni, rr == 0;
                vstd::arithmetic::div_mod::lemma_fundamental_div_mod_converse_div(
                    -ni, di, -qq, 0);
            } else {
                // n + d - 1 == (q + 1) * d + (r - 1), and
                // -n == (-(q + 1)) * d + (d - r) with 0 < d - r < d.
                assert(ni + di - 1 == (qq + 1) * di + (rr - 1)) by (nonlinear_arith)
                    requires di * qq + rr == ni;
                vstd::arithmetic::div_mod::lemma_fundamental_div_mod_converse_div(
                    ni + di - 1, di, qq + 1, rr - 1);
                assert(-ni == (-(qq + 1)) * di + (di - rr)) by (nonlinear_arith)
                    requires di * qq + rr == ni;
                vstd::arithmetic::div_mod::lemma_fundamental_div_mod_converse_div(
                    -ni, di, -(qq + 1), di - rr);
                assert(qq + 1 <= ni) by (nonlinear_arith)
                    requires di * qq + rr == ni, 1 <= rr, 0 <= qq, 1 <= di;
            }
            assert((n + d - 1) as int / d as int <= ni);
        }
        let q: u64 = (n + d - 1) / d;
        -(q as i64)
    }
}

/// The floor of the midpoint of two coordinates.
pub fn mid_coord(u: i64, v: i64) -> (r: i64)
    requires
        coord_in_range(u as int),
        coord_in_range(v as int),
    ensures
        r == (u + v) / 2,
        coord_in_range(r as int),
{
    let r = floor_div(u + v, 2);
    proof {
        assert((u + v) / 2 >= -(COORD_LIMIT as int) && (u + v) / 2 <= COORD_LIMIT as int)
            by (nonlinear_arith)
            requires -2 * (COORD_LIMIT as int) <= u + v <= 2 * (COORD_LIMIT as int);
    }
    r
}

/// A coordinate forced back into the scene range; pointer drags that
/// leave the document are pinned to its edge.
pub open spec fn clamp_coord_spec(x: int) -> int {
    if x < -(COORD_LIMIT as int) {
        -(COORD_LIMIT as int)
    } else if x > COORD_LIMIT as int {
        COORD_LIMIT as int
    } else {
        x
    }
}

pub fn clamp_coord(x: i64) -> (r: i64)
    ensures
        r == clamp_coord_spec(x as int),
        coord_in_range(r as int),
{
    if x < -COORD_LIMIT {
        -COORD_LIMIT
    } else if x > COORD_LIMIT {
        COORD_LIMIT
    } else {
        x
    }
}

/// A quotient is bounded by the bound of its dividend over the divisor.
pub proof fn lemma_div_bounded(x: int, d: int, m: int)
    requires
        1 <= d,
        0 <= m,
        -m * d <= x <= m * d,
    ensures
        -m <= x / d <= m,
{
    vstd::arithmetic::div_mod::lemma_fundamental_div_mod(x, d);
    vstd::arithmetic::div_mod::lemma_mod_division_less_than_divisor(x, d);
    let q = x / d;
    let r = x % d;
    assert(-m <= q <= m) by (nonlinear_arith)
        requires
            x == d * q + r,
            0 <= r < d,
            1 <= d,
            0 <= m,
            -m * d <= x <= m * d;
}

/// The squared distance between two points.
pub open spec fn dist2(p: Point, q: Point) -> int {
    (p.x - q.x) * (p.x - q.x) + (p.y - q.y) * (p.y - q.y)
}

/// Squared distances of in-range points stay small enough for `i64`.
pub proof fn lemma_dist2_bound(p: Point, q: Point)
    requires
        ext_point_in_range(p),
        ext_point_in_range(q),
    ensures
        0 <= dist2(p, q) <= 0x20_0000_0000,
{
    let dx = p.x - q.x;
    let dy = p.y - q.y;
    assert(0 <= dx * dx <= 0x10_0000_0000 && 0 <= dy * dy <= 0x10_0000_0000)
        by (nonlinear_arith)
        requires -0x4_0000 <= dx <= 0x4_0000, -0x4_0000 <= dy <= 0x4_0000;
}

/// The squared distance between two points, exactly.
pub fn dist2_exec(p: Point, q: Point) -> (r: i64)
    requires
        ext_point_in_range(p),
        ext_point_in_range(q),
    ensures
        r == dist2(p, q),
{
    proof { lemma_dist2_bound(p, q); }
    let dx: i64 = p.x - q.x;
    let dy: i64 = p.y - q.y;
    proof {
        assert(dx * dx + dy * dy == dist2(p, q) && -0x4_0000 <= dx <= 0x4_0000
            && -0x4_0000 <= dy <= 0x4_0000);
        assert(0 <= dx * dx <= 0x10_0000_0000 && 0 <= dy * dy <= 0x10_0000_0000)
            by (nonlinear_arith)
            requires -0x4_0000 <= dx <= 0x4_0000, -0x4_0000 <= dy <= 0x4_0000;
    }
    dx * dx + dy * dy
}

/// Whether `pos` lies on or inside the circle of radius `radius` around
/// `center`.  This is the hit region of a round handle drawn with radius
/// `radius`: a click anywhere in the disk grabs the handle.
pub open spec fn circle_hit_spec(pos: Point, center: Point, radius: int) -> bool {
    dist2(pos, center) <= radius * radius
}

pub fn circle_hit(pos: Point, center: Point, radius: i64) -> (r: bool)
    requires
        ext_point_in_range(pos),
        ext_point_in_range(center),
        0 <= radius <= 0x8000,
    ensures
        r == circle_hit_spec(pos, center, radius as int),
{
    let d2 = dist2_exec(pos, center);
    proof {
        assert(0 <= radius * radius <= 0x4000_0000) by (nonlinear_arith)
            requires 0 <= radius <= 0x8000;
    }
    d2 <= radius * radius
}

/// Whether `pos` lies within `half_width` of the segment from `a` to `b`,
/// counting round caps: within the perpendicular band over the segment, or
/// within `half_width` of either endpoint.
pub open spec fn segment_hit_spec(pos: Point, a: Point, b: Point, half_width: int) -> bool {
    let dx = b.x - a.x;
    let dy = b.y - a.y;
    let ex = pos.x - a.x;
    let ey = pos.y - a.y;
    let len2 = dx * dx + dy * dy;
    let t = dx * ex + dy * ey;
    let cross = dx * ey - dy * ex;
    if len2 == 0 {
        dist2(pos, a) <= half_width * half_width
    } else if t < 0 {
        dist2(pos, a) <= half_width * half_width
    } else if t > len2 {
        dist2(pos, b) <= half_width * half_width
    } else {
        cross * cross <= half_width * half_width * len2
    }
}

/// Exact evaluation of [`segment_hit_spec`].  All intermediate products are
/// bounded: deltas are at most `2 * COORD_LIMIT` in magnitude, so `cross`
/// fits in 33 bits and its square in 66 bits of headroom within `i64`
/// after the `half_width` cap of 512.
pub fn segment_hit(pos: Point, a: Point, b: Point, half_width: i64) -> (r: bool)
    requires
        ext_point_in_range(pos),
        ext_point_in_range(a),
        ext_point_in_range(b),
        0 <= half_width <= 512,
    ensures
        r == segment_hit_spec(pos, a, b, half_width as int),
{
    let dx: i64 = b.x - a.x;
    let dy: i64 = b.y - a.y;
    let ex: i64 = pos.x - a.x;
    let ey: i64 = pos.y - a.y;
    proof {
        assert(-0x4_0000 <= dx <= 0x4_0000 && -0x4_0000 <= dy <= 0x4_0000
            && -0x4_0000 <= ex <= 0x4_0000 && -0x4_0000 <= ey <= 0x4_0000);
        assert({
            &&& 0 <= dx * dx <= 0x10_0000_0000
            &&& 0 <= dy * dy <= 0x10_0000_0000
            &&& -0x10_0000_0000 <= dx * ex <= 0x10_0000_0000
            &&& -0x10_0000_0000 <= dy * ey <= 0x10_0000_0000
            &&& -0x10_0000_0000 <= dx * ey <= 0x10_0000_0000
            &&& -0x10_0000_0000 <= dy * ex <= 0x10_0000_0000
        }) by (nonlinear_arith)
            requires
                -0x4_0000 <= dx <= 0x4_0000, -0x4_0000 <= dy <= 0x4_0000,
                -0x4_0000 <= ex <= 0x4_0000, -0x4_0000 <= ey <= 0x4_0000;
        assert(0 <= half_width * half_width <= 0x4_0000) by (nonlinear_arith)
            requires 0 <= half_width <= 512;
    }
    let len2: i64 = dx * dx + dy * dy;
    let t: i64 = dx * ex + dy * ey;
    let cross: i64 = dx * ey - dy * ex;
    let hw2: i64 = half_width * half_width;
    if len2 == 0 {
        let d2 = dist2_exec(pos, a);
        d2 <= hw2
    } else if t < 0 {
        let d2 = dist2_exec(pos, a);
        d2 <= hw2
    } else if t > len2 {
        let d2 = dist2_exec(pos, b);
        d2 <= hw2
    } else {
        proof {
            assert(0 <= hw2 * len2 <= 0x80_0000_0000_0000) by (nonlinear_arith)
                requires
                    0 <= hw2 <= 0x4_0000,
                    0 <= len2 <= 0x20_0000_0000;
        }
        // cross * cross can exceed i64; compare against the bounded right side
        // by early exit on magnitude.
        let cabs: i64 = if cross >= 0 { cross } else { -cross };
        if cabs > 0x2000_0000 {
            // |cross| > 2^29 means cross^2 > 2^58 > hw2 * len2 (at most 2^55).
            proof {
                assert(cross * cross > hw2 * len2) by (nonlinear_arith)
                    requires
                        cabs > 0x2000_0000,
                        cabs == (if cross >= 0 { cross as int } else { -cross as int }),
                        0 <= hw2 <= 0x4_0000,
                        0 <= len2 <= 0x20_0000_0000;
            }
            false
        } else {
            proof {
                assert(0 <= cabs * cabs < 0x4000_0000_0000_0000
                    && cabs * cabs == cross * cross) by (nonlinear_arith)
                    requires
                        0 <= cabs <= 0x2000_0000,
                        cabs == (if cross >= 0 { cross as int } else { -cross as int });
            }
            cabs * cabs <= hw2 * len2
        }
    }
}

/// The cross product of `b - a` with `p - a`; positive when `p` lies to
/// the left of the directed line `a -> b`.
pub open spec fn orient2(a: Point, b: Point, p: Point) -> int {
    (b.x - a.x) * (p.y - a.y) - (b.y - a.y) * (p.x - a.x)
}

pub fn orient2_exec(a: Point, b: Point, p: Point) -> (r: i64)
    requires
        ext_point_in_range(a),
        ext_point_in_range(b),
        ext_point_in_range(p),
    ensures
        r == orient2(a, b, p),
{
    let ux: i64 = b.x - a.x;
    let uy: i64 = b.y - a.y;
    let vx: i64 = p.x - a.x;
    let vy: i64 = p.y - a.y;
    proof {
        assert(-0x10_0000_0000 <= ux * vy <= 0x10_0000_0000
            && -0x10_0000_0000 <= uy * vx <= 0x10_0000_0000) by (nonlinear_arith)
            requires
                -0x4_0000 <= ux <= 0x4_0000, -0x4_0000 <= uy <= 0x4_0000,
                -0x4_0000 <= vx <= 0x4_0000, -0x4_0000 <= vy <= 0x4_0000;
    }
    ux * vy - uy * vx
}

/// Whether `p` lies inside or on the triangle `t0 t1 t2` (either winding).
pub open spec fn triangle_hit_spec(p: Point, t0: Point, t1: Point, t2: Point) -> bool {
    let c0 = orient2(t0, t1, p);
    let c1 = orient2(t1, t2, p);
    let c2 = orient2(t2, t0, p);
    (c0 >= 0 && c1 >= 0 && c2 >= 0) || (c0 <= 0 && c1 <= 0 && c2 <= 0)
}

pub fn triangle_hit(p: Point, t0: Point, t1: Point, t2: Point) -> (r: bool)
    requires
        ext_point_in_range(p),
        ext_point_in_range(t0),
        ext_point_in_range(t1),
        ext_point_in_range(t2),
    ensures
        r == triangle_hit_spec(p, t0, t1, t2),
{
    let c0 = orient2_exec(t0, t1, p);
    let c1 = orient2_exec(t1, t2, p);
    let c2 = orient2_exec(t2, t0, p);
    (c0 >= 0 && c1 >= 0 && c2 >= 0) || (c0 <= 0 && c1 <= 0 && c2 <= 0)
}

/// The integer square root: the largest `r` with `r * r <= n`.
pub fn isqrt(n: i64) -> (r: i64)
    requires
        0 <= n <= 0x20_0000_0000,
    ensures
        0 <= r,
        r * r <= n,
        (r + 1) * (r + 1) > n,
{
    let mut r: i64 = 0;
    loop
        invariant
            0 <= r <= 0x8_0000,
            r * r <= n,
            0 <= n <= 0x20_0000_0000,
        decreases 0x8_0001 - r,
    {
        let next: i64 = r + 1;
        proof {
            assert(0 < next * next <= 0x40_0010_0001) by (nonlinear_arith)
                requires 1 <= next <= 0x8_0001;
        }
        if next * next > n {
            return r;
        }
        proof {
            assert(next * next <= 0x20_0000_0000 ==> next <= 0x8_0000)
                by (nonlinear_arith)
                requires 1 <= next;
        }
        r = next;
    }
}


/// A width and height in document units.
#[derive(Clone, Copy, PartialEq, Eq, Structural, Debug)]
pub struct Size {
    pub width: u32,
    pub height: u32,
}

pub open spec fn size_wf(s: Size) -> bool {
    1 <= s.width <= COORD_LIMIT && 1 <= s.height <= COORD_LIMIT
}

impl Size {
    pub fn new(width: u32, height: u32) -> (r: Size)
        ensures
            r == (Size { width, height }),
    {
        Size { width, height }
    }

    pub fn resize(&mut self, width: u32, height: u32)
        ensures
            *final(self) == (Size { width, height }),
    {
        self.width = width;
        self.height = height;
    }
}

} // verus!
