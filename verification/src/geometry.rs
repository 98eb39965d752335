//! Points, offsets and the elementary geometric tests on them.

use vstd::prelude::*;

verus! {

/// Proximity threshold, in the unit of the coordinates: a control point is
/// grabbed, and a line is hit, from strictly less than this distance.
pub const VERTEX_RADIUS: u16 = 10;

/// A point, or a displacement, of the plane with whole-number components.
/// This is the mathematical model of [`Coordinate`] and of [`Offset`].
pub struct Point {
    pub x: int,
    pub y: int,
}

impl Point {
    /// Component-wise sum.
    pub open spec fn plus(self, d: Point) -> Point {
        Point { x: self.x + d.x, y: self.y + d.y }
    }

    /// Component-wise difference: the displacement that leads from `o` to `self`.
    pub open spec fn minus(self, o: Point) -> Point {
        Point { x: self.x - o.x, y: self.y - o.y }
    }

    /// Scalar product.
    pub open spec fn dot(self, o: Point) -> int {
        self.x * o.x + self.y * o.y
    }

    /// Third component of the vector product.
    pub open spec fn cross(self, o: Point) -> int {
        self.x * o.y - self.y * o.x
    }

    /// Squared Euclidean length.
    pub open spec fn norm_sq(self) -> int {
        self.x * self.x + self.y * self.y
    }

    /// Whether both components can be stored in a [`Coordinate`].
    pub open spec fn representable(self) -> bool {
        &&& i32::MIN <= self.x <= i32::MAX
        &&& i32::MIN <= self.y <= i32::MAX
    }

    /// Whether `self` lies strictly less than [`VERTEX_RADIUS`] away from `o`.
    /// The bounds on the two axes follow from the bound on the distance; they
    /// tell a point far away apart without squaring.
    pub open spec fn near(self, o: Point) -> bool {
        &&& -VERTEX_RADIUS < self.x - o.x < VERTEX_RADIUS
        &&& -VERTEX_RADIUS < self.y - o.y < VERTEX_RADIUS
        &&& self.minus(o).norm_sq() < VERTEX_RADIUS * VERTEX_RADIUS
    }
}

/// A non-negative fraction `num / den` with `den > 0`, used for squared
/// distances, which are rational but in general not whole.
pub struct Fraction {
    pub num: int,
    pub den: int,
}

impl Fraction {
    /// Whether the fraction is strictly below the square of `radius`.
    pub open spec fn below_square_of(self, radius: int) -> bool {
        self.num < radius * radius * self.den
    }
}

/// A position in device pixels.
#[derive(Clone, Copy, Debug, PartialEq, Eq, Structural)]
pub struct Coordinate {
    pub x: i32,
    pub y: i32,
}

impl View for Coordinate {
    type V = Point;

    open spec fn view(&self) -> Point {
        Point { x: self.x as int, y: self.y as int }
    }
}

/// The points that a sequence of coordinates stands for.
pub open spec fn points_of(cs: Seq<Coordinate>) -> Seq<Point> {
    Seq::new(cs.len(), |i: int| cs[i]@)
}

/// A displacement between two positions. The difference of any two
/// coordinates fits.
#[derive(Clone, Copy, Debug, PartialEq, Eq, Structural)]
pub struct Offset {
    pub dx: i64,
    pub dy: i64,
}

impl View for Offset {
    type V = Point;

    open spec fn view(&self) -> Point {
        Point { x: self.dx as int, y: self.dy as int }
    }
}

impl Coordinate {
    /// The position `(x, y)`.
    pub fn new(x: i32, y: i32) -> (c: Coordinate)
        ensures
            c.x == x,
            c.y == y,
    {
        Coordinate { x, y }
    }

    /// The displacement that leads from `origin` to `self`.
    pub fn offset_from(&self, origin: Coordinate) -> (d: Offset)
        ensures
            d@ == self@.minus(origin@),
    {
        let dx: i64 = self.x as i64 - origin.x as i64;
        let dy: i64 = self.y as i64 - origin.y as i64;
        Offset { dx, dy }
    }

    /// Whether `self` displaced by `delta` is still a storable position.
    pub fn can_translate(&self, delta: Offset) -> (fits: bool)
        ensures
            fits == self@.plus(delta@).representable(),
    {
        let x: i128 = self.x as i128 + delta.dx as i128;
        let y: i128 = self.y as i128 + delta.dy as i128;
        let low: i128 = i32::MIN as i128;
        let high: i128 = i32::MAX as i128;
        low <= x && x <= high && low <= y && y <= high
    }

    /// `self` displaced by `delta`.
    pub fn translate(&self, delta: Offset) -> (c: Coordinate)
        requires
            self@.plus(delta@).representable(),
        ensures
            c@ == self@.plus(delta@),
    {
        let x: i128 = self.x as i128 + delta.dx as i128;
        let y: i128 = self.y as i128 + delta.dy as i128;
        Coordinate { x: x as i32, y: y as i32 }
    }

    /// Whether `self` lies strictly less than [`VERTEX_RADIUS`] away from `other`.
    pub fn is_near(&self, other: Coordinate) -> (b: bool)
        ensures
            b == self@.near(other@),
    {
        let dx: i64 = self.x as i64 - other.x as i64;
        let dy: i64 = self.y as i64 - other.y as i64;
        let r: i128 = VERTEX_RADIUS as i128;
        assert(-0x1_0000_0000 < dx < 0x1_0000_0000);
        assert(-0x1_0000_0000 < dy < 0x1_0000_0000);
        assert(0 <= dx * dx <= 0x1_0000_0000 * 0x1_0000_0000) by (nonlinear_arith)
            requires
                -0x1_0000_0000 < dx < 0x1_0000_0000,
        ;
        assert(0 <= dy * dy <= 0x1_0000_0000 * 0x1_0000_0000) by (nonlinear_arith)
            requires
                -0x1_0000_0000 < dy < 0x1_0000_0000,
        ;
        assert(dx * dx + dy * dy < 100 ==> -10 < dx < 10 && -10 < dy < 10) by (nonlinear_arith);
        let sq: i128 = (dx as i128) * (dx as i128) + (dy as i128) * (dy as i128);
        sq < r * r
    }
}

/// The distance from a point to a segment, by the whole numbers that
/// determine it. This is the mathematical model of [`SegmentDistance`].
pub enum Distance {
    /// The nearest point of the segment is one of its ends, at the distance
    /// whose square is `dist_sq`.
    Endpoint { dist_sq: int },
    /// The nearest point lies between the ends, at the distance
    /// `cross / sqrt(len_sq)`, with `len_sq > 0`.
    Interior { cross: int, len_sq: int },
}

impl Distance {
    /// The square of the distance.
    pub open spec fn squared(self) -> Fraction {
        match self {
            Distance::Endpoint { dist_sq } => Fraction { num: dist_sq, den: 1 },
            Distance::Interior { cross, len_sq } => Fraction { num: cross * cross, den: len_sq },
        }
    }
}

/// The distance from `p` to the segment from `a` to `b`: the distance to the
/// nearer end where the foot of the perpendicular from `p` falls outside the
/// segment, else the distance to the line, which is the magnitude of the
/// vector product of `p - a` and `b - a` divided by the length of `b - a`.
pub open spec fn segment_distance(p: Point, a: Point, b: Point) -> Distance {
    let u = p.minus(a);
    let d = b.minus(a);
    if u.dot(d) <= 0 {
        Distance::Endpoint { dist_sq: u.norm_sq() }
    } else if u.dot(d) >= d.norm_sq() {
        Distance::Endpoint { dist_sq: p.minus(b).norm_sq() }
    } else {
        Distance::Interior {
            cross: if u.cross(d) < 0 { -u.cross(d) } else { u.cross(d) },
            len_sq: d.norm_sq(),
        }
    }
}

/// The squared distance from `p` to the segment from `a` to `b`.
pub open spec fn segment_distance_sq(p: Point, a: Point, b: Point) -> Fraction {
    segment_distance(p, a, b).squared()
}

/// The corners of the axis-aligned box spanned by `c0` and `c1`, in the order
/// top left, top right, bottom right, bottom left (`y` grows downwards).
pub open spec fn box_corners(c0: Point, c1: Point) -> Seq<Point> {
    let left = if c0.x <= c1.x { c0.x } else { c1.x };
    let right = if c0.x <= c1.x { c1.x } else { c0.x };
    let top = if c0.y <= c1.y { c0.y } else { c1.y };
    let bottom = if c0.y <= c1.y { c1.y } else { c0.y };
    seq![
        Point { x: left, y: top },
        Point { x: right, y: top },
        Point { x: right, y: bottom },
        Point { x: left, y: bottom },
    ]
}

/// Whether `p` lies in the box with the given corners, borders included.
pub open spec fn in_box(p: Point, top_left: Point, bottom_right: Point) -> bool {
    &&& top_left.x <= p.x <= bottom_right.x
    &&& top_left.y <= p.y <= bottom_right.y
}

/// The exact distance from a point to a segment. Such a distance is the
/// square root of a fraction, so it is kept by the whole numbers that
/// determine it.
#[derive(Clone, Copy, Debug, PartialEq, Eq)]
pub enum SegmentDistance {
    /// The nearest point of the segment is one of its ends, at the distance
    /// whose square is `dist_sq`.
    Endpoint { dist_sq: u128 },
    /// The nearest point lies between the ends, at the distance
    /// `cross / sqrt(len_sq)`.
    Interior { cross: u128, len_sq: u128 },
}

impl View for SegmentDistance {
    type V = Distance;

    open spec fn view(&self) -> Distance {
        match *self {
            SegmentDistance::Endpoint { dist_sq } => Distance::Endpoint { dist_sq: dist_sq as int },
            SegmentDistance::Interior { cross, len_sq } => Distance::Interior {
                cross: cross as int,
                len_sq: len_sq as int,
            },
        }
    }
}

impl SegmentDistance {
    /// The components are as small as the differences of coordinates make
    /// them, and the denominator is positive.
    pub open spec fn wf(self) -> bool {
        match self {
            SegmentDistance::Endpoint { dist_sq } => dist_sq < 0x2_0000_0000_0000_0000,
            SegmentDistance::Interior { cross, len_sq } => {
                &&& cross < 0x2_0000_0000_0000_0000
                &&& 0 < len_sq < 0x2_0000_0000_0000_0000
            },
        }
    }

    /// Whether the distance is strictly less than `radius`.
    pub fn is_below(&self, radius: u16) -> (b: bool)
        requires
            self.wf(),
        ensures
            b == self@.squared().below_square_of(radius as int),
    {
        assert(radius * radius < 0x1_0000_0000) by (nonlinear_arith)
            requires
                0 <= radius < 0x1_0000,
        ;
        let r2: u128 = (radius as u128) * (radius as u128);
        match *self {
            SegmentDistance::Endpoint { dist_sq } => dist_sq < r2,
            SegmentDistance::Interior { cross, len_sq } => {
                assert(r2 * len_sq < 0x1_0000_0000 * 0x2_0000_0000_0000_0000) by (nonlinear_arith)
                    requires
                        r2 < 0x1_0000_0000,
                        len_sq < 0x2_0000_0000_0000_0000,
                ;
                if cross >= 0x4_0000_0000_0000 {
                    assert(cross * cross >= 0x4_0000_0000_0000 * 0x4_0000_0000_0000)
                        by (nonlinear_arith)
                        requires
                            cross >= 0x4_0000_0000_0000,
                    ;
                    false
                } else {
                    assert(cross * cross < 0x4_0000_0000_0000 * 0x4_0000_0000_0000)
                        by (nonlinear_arith)
                        requires
                            cross < 0x4_0000_0000_0000,
                    ;
                    cross * cross < r2 * len_sq
                }
            },
        }
    }
}

/// The product of two numbers of magnitude at most `m` has magnitude at most `m * m`.
proof fn lemma_product_bound(a: int, b: int, m: int)
    by (nonlinear_arith)
    requires
        -m <= a <= m,
        -m <= b <= m,
    ensures
        -(m * m) <= a * b <= m * m,
{
}

/// The distance from `p` to the segment from `a` to `b` (not to the line
/// through them). A segment of length zero is a point.
pub fn distance_point_to_segment(
    p: Coordinate,
    a: Coordinate,
    b: Coordinate,
) -> (d: SegmentDistance)
    ensures
        d.wf(),
        d@ == segment_distance(p@, a@, b@),
{
    let ux: i128 = p.x as i128 - a.x as i128;
    let uy: i128 = p.y as i128 - a.y as i128;
    let dx: i128 = b.x as i128 - a.x as i128;
    let dy: i128 = b.y as i128 - a.y as i128;
    proof {
        let m: int = 0xffff_ffff;
        lemma_product_bound(ux as int, dx as int, m);
        lemma_product_bound(uy as int, dy as int, m);
        lemma_product_bound(dx as int, dx as int, m);
        lemma_product_bound(dy as int, dy as int, m);
        lemma_product_bound(ux as int, ux as int, m);
        lemma_product_bound(uy as int, uy as int, m);
        lemma_product_bound(ux as int, dy as int, m);
        lemma_product_bound(uy as int, dx as int, m);
        assert(ux * ux >= 0 && uy * uy >= 0 && dx * dx >= 0 && dy * dy >= 0) by (nonlinear_arith);
    }
    let t: i128 = ux * dx + uy * dy;
    let len: i128 = dx * dx + dy * dy;
    if t <= 0 {
        SegmentDistance::Endpoint { dist_sq: (ux * ux + uy * uy) as u128 }
    } else if t >= len {
        let vx: i128 = p.x as i128 - b.x as i128;
        let vy: i128 = p.y as i128 - b.y as i128;
        proof {
            let m: int = 0xffff_ffff;
            lemma_product_bound(vx as int, vx as int, m);
            lemma_product_bound(vy as int, vy as int, m);
            assert(vx * vx >= 0 && vy * vy >= 0) by (nonlinear_arith);
        }
        SegmentDistance::Endpoint { dist_sq: (vx * vx + vy * vy) as u128 }
    } else {
        let c: i128 = ux * dy - uy * dx;
        let magnitude: i128 = if c < 0 { -c } else { c };
        SegmentDistance::Interior { cross: magnitude as u128, len_sq: len as u128 }
    }
}

/// Whether `p` lies in the axis-aligned box with the given corners, borders
/// included.
pub fn point_in_box(
    p: Coordinate,
    top_left: Coordinate,
    bottom_right: Coordinate,
) -> (inside: bool)
    ensures
        inside == in_box(p@, top_left@, bottom_right@),
{
    top_left.x <= p.x && p.x <= bottom_right.x && top_left.y <= p.y && p.y <= bottom_right.y
}

/// The four corners of the box spanned by two opposite corners given in any
/// order: top left, top right, bottom right, bottom left. The top left corner
/// has the smaller and the bottom right corner the larger coordinate on each
/// axis, and neighbouring corners share the coordinate of their common side.
pub fn normalize_box(c0: Coordinate, c1: Coordinate) -> (corners: [Coordinate; 4])
    ensures
        points_of(corners@) == box_corners(c0@, c1@),
        forall|i: int| 0 <= i < 4 ==> (#[trigger] corners@[i])@ == box_corners(c0@, c1@)[i],
        corners[0].x <= corners[2].x,
        corners[0].y <= corners[2].y,
        corners[1].x == corners[2].x,
        corners[1].y == corners[0].y,
        corners[3].x == corners[0].x,
        corners[3].y == corners[2].y,
{
    let left: i32 = if c0.x <= c1.x { c0.x } else { c1.x };
    let right: i32 = if c0.x <= c1.x { c1.x } else { c0.x };
    let top: i32 = if c0.y <= c1.y { c0.y } else { c1.y };
    let bottom: i32 = if c0.y <= c1.y { c1.y } else { c0.y };
    let corners: [Coordinate; 4] = [
        Coordinate { x: left, y: top },
        Coordinate { x: right, y: top },
        Coordinate { x: right, y: bottom },
        Coordinate { x: left, y: bottom },
    ];
    assert(points_of(corners@) =~= box_corners(c0@, c1@));
    assert forall|i: int| 0 <= i < 4 implies (#[trigger] corners@[i])@
        == box_corners(c0@, c1@)[i] by {
        assert(points_of(corners@)[i] == corners@[i]@);
    }
    corners
}

} // verus!
