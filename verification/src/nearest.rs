//! Why the distance to a segment is what [`segment_distance`] says: no point
//! of the segment is nearer, and one point is exactly that near.
//!
//! [`segment_distance`]: crate::geometry::segment_distance

use vstd::prelude::*;
use crate::geometry::{segment_distance_sq, Point};

verus! {

/// `n` times the displacement from the point that divides the segment from
/// `a` to `b` in the ratio `k : n - k` to the point `p`. Its squared length
/// is `n * n` times the squared distance between the two points.
pub open spec fn scaled_displacement(p: Point, a: Point, b: Point, k: int, n: int) -> Point {
    Point { x: n * (p.x - a.x) - k * (b.x - a.x), y: n * (p.y - a.y) - k * (b.y - a.y) }
}

/// `(a - b)^2 = a^2 - 2ab + b^2`.
proof fn lemma_square_of_difference(a: int, b: int)
    by (nonlinear_arith)
    ensures
        (a - b) * (a - b) == a * a - 2 * (a * b) + b * b,
{
}

/// `(a + b)^2 = a^2 + 2ab + b^2`.
proof fn lemma_square_of_sum(a: int, b: int)
    by (nonlinear_arith)
    ensures
        (a + b) * (a + b) == a * a + 2 * (a * b) + b * b,
{
}

/// `(ab)(cd) = (ac)(bd)`.
proof fn lemma_regroup(a: int, b: int, c: int, d: int)
    by (nonlinear_arith)
    ensures
        (a * b) * (c * d) == (a * c) * (b * d),
{
}

/// `m(x + y) = mx + my`.
proof fn lemma_distribute(m: int, x: int, y: int)
    by (nonlinear_arith)
    ensures
        m * (x + y) == m * x + m * y,
{
}

/// `(ab)c = a(bc)`.
proof fn lemma_associate(a: int, b: int, c: int)
    by (nonlinear_arith)
    ensures
        (a * b) * c == a * (b * c),
{
}

/// `(a + b)(c + d) = ac + ad + bc + bd`.
proof fn lemma_expand(a: int, b: int, c: int, d: int)
    by (nonlinear_arith)
    ensures
        (a + b) * (c + d) == a * c + a * d + b * c + b * d,
{
}

/// `(x - 2y + z)l = xl - 2(yl) + zl`.
proof fn lemma_expand_three(x: int, y: int, z: int, l: int)
    by (nonlinear_arith)
    ensures
        (x - 2 * y + z) * l == x * l - 2 * (y * l) + z * l,
{
}

/// The squared length of `n * u - k * d`, written out.
proof fn lemma_scaled_norm(ux: int, uy: int, dx: int, dy: int, k: int, n: int)
    ensures
        (n * ux - k * dx) * (n * ux - k * dx) + (n * uy - k * dy) * (n * uy - k * dy)
            == (n * n) * (ux * ux + uy * uy) - 2 * ((n * k) * (ux * dx + uy * dy))
            + (k * k) * (dx * dx + dy * dy),
{
    lemma_square_of_difference(n * ux, k * dx);
    lemma_square_of_difference(n * uy, k * dy);
    lemma_regroup(n, ux, n, ux);
    lemma_regroup(n, ux, k, dx);
    lemma_regroup(k, dx, k, dx);
    lemma_regroup(n, uy, n, uy);
    lemma_regroup(n, uy, k, dy);
    lemma_regroup(k, dy, k, dy);
    lemma_distribute(n * n, ux * ux, uy * uy);
    lemma_distribute(n * k, ux * dx, uy * dy);
    lemma_distribute(k * k, dx * dx, dy * dy);
}

/// The squares of the scalar and of the vector product of two vectors add up
/// to the product of their squared lengths.
proof fn lemma_lagrange(ux: int, uy: int, dx: int, dy: int)
    ensures
        (ux * ux + uy * uy) * (dx * dx + dy * dy)
            == (ux * dx + uy * dy) * (ux * dx + uy * dy)
            + (ux * dy - uy * dx) * (ux * dy - uy * dx),
{
    lemma_expand(ux * ux, uy * uy, dx * dx, dy * dy);
    lemma_square_of_sum(ux * dx, uy * dy);
    lemma_square_of_difference(ux * dy, uy * dx);
    lemma_regroup(ux, dx, ux, dx);
    lemma_regroup(uy, dy, uy, dy);
    lemma_regroup(ux, dy, ux, dy);
    lemma_regroup(uy, dx, uy, dx);
    lemma_regroup(ux, dx, uy, dy);
    lemma_regroup(ux, dy, uy, dx);
    assert((ux * uy) * (dx * dy) == (ux * uy) * (dy * dx)) by (nonlinear_arith);
}

/// The squared length of `u - d`, written out.
proof fn lemma_norm_to_far_end(ux: int, uy: int, dx: int, dy: int)
    ensures
        (ux - dx) * (ux - dx) + (uy - dy) * (uy - dy)
            == (ux * ux + uy * uy) - 2 * (ux * dx + uy * dy) + (dx * dx + dy * dy),
{
    lemma_square_of_difference(ux, dx);
    lemma_square_of_difference(uy, dy);
}

/// A number and its magnitude have the same square.
proof fn lemma_square_of_magnitude(c: int)
    by (nonlinear_arith)
    ensures
        (if c < 0 { -c } else { c }) * (if c < 0 { -c } else { c }) == c * c,
{
}

/// Towards the near end: no point of the segment is nearer than `a` where
/// the scalar product `t` is not positive.
proof fn lemma_least_at_start(nn: int, t: int, l: int, k: int, n: int)
    requires
        0 <= k <= n,
        t <= 0,
        0 <= l,
    ensures
        nn * (n * n) <= (n * n) * nn - 2 * ((n * k) * t) + (k * k) * l,
{
    assert(nn * (n * n) == (n * n) * nn) by (nonlinear_arith);
    assert((n * k) * t <= 0) by (nonlinear_arith)
        requires
            0 <= k <= n,
            t <= 0,
    ;
    assert(0 <= (k * k) * l) by (nonlinear_arith)
        requires
            0 <= l,
    ;
}

/// Towards the far end: no point of the segment is nearer than `b` where
/// the scalar product `t` is at least the squared length `l`.
proof fn lemma_least_at_end(nn: int, t: int, l: int, k: int, n: int)
    requires
        0 <= k <= n,
        0 < n,
        0 <= l <= t,
    ensures
        (nn - 2 * t + l) * (n * n) <= (n * n) * nn - 2 * ((n * k) * t) + (k * k) * l,
{
    lemma_expand_three(nn, t, l, n * n);
    assert(nn * (n * n) == (n * n) * nn) by (nonlinear_arith);
    // What is left to show: 0 <= 2 (nn - nk) t - (nn - kk) l.
    assert((n * n - n * k) * t >= (n * n - n * k) * l) by (nonlinear_arith)
        requires
            0 <= k <= n,
            l <= t,
    ;
    assert((n * n - n * k) * t == t * (n * n) - (n * k) * t) by (nonlinear_arith);
    assert(2 * ((n * n - n * k) * l) - (l * (n * n) - (k * k) * l) >= 0) by (nonlinear_arith)
        requires
            0 <= k <= n,
            0 <= l,
    ;
}

/// In between: no point of the segment is nearer than the line is.
proof fn lemma_least_inside(nn: int, t: int, l: int, c2: int, w: int, k: int, n: int)
    requires
        nn * l == t * t + c2,
        w == (n * n) * nn - 2 * ((n * k) * t) + (k * k) * l,
    ensures
        w * l == c2 * (n * n) + (n * t - k * l) * (n * t - k * l),
        c2 * (n * n) <= w * l,
{
    lemma_expand_three((n * n) * nn, (n * k) * t, (k * k) * l, l);
    lemma_associate(n * n, nn, l);
    lemma_distribute(n * n, t * t, c2);
    lemma_associate(n * k, t, l);
    lemma_associate(k * k, l, l);
    lemma_square_of_difference(n * t, k * l);
    lemma_regroup(n, t, n, t);
    lemma_regroup(n, t, k, l);
    lemma_regroup(k, l, k, l);
    assert((n * n) * c2 == c2 * (n * n)) by (nonlinear_arith);
    assert(0 <= (n * t - k * l) * (n * t - k * l)) by (nonlinear_arith);
}

/// The distance to a segment is the least distance to any of its points: the
/// point that divides the segment in the ratio `k : n - k` is at least as far
/// from `p` as `segment_distance_sq` says.
pub proof fn lemma_segment_distance_is_least(p: Point, a: Point, b: Point, k: int, n: int)
    requires
        0 <= k <= n,
        0 < n,
    ensures
        segment_distance_sq(p, a, b).den > 0,
        segment_distance_sq(p, a, b).num >= 0,
        segment_distance_sq(p, a, b).num * (n * n)
            <= scaled_displacement(p, a, b, k, n).norm_sq() * segment_distance_sq(p, a, b).den,
{
    let u = p.minus(a);
    let d = b.minus(a);
    let f = segment_distance_sq(p, a, b);
    let w = scaled_displacement(p, a, b, k, n).norm_sq();
    lemma_scaled_norm(u.x, u.y, d.x, d.y, k, n);
    assert(w == (n * n) * u.norm_sq() - 2 * ((n * k) * u.dot(d)) + (k * k) * d.norm_sq());
    lemma_lagrange(u.x, u.y, d.x, d.y);
    lemma_square_of_magnitude(u.cross(d));
    assert(u.norm_sq() >= 0 && d.norm_sq() >= 0 && p.minus(b).norm_sq() >= 0
        && u.cross(d) * u.cross(d) >= 0) by (nonlinear_arith);
    if u.dot(d) <= 0 {
        lemma_least_at_start(u.norm_sq(), u.dot(d), d.norm_sq(), k, n);
        assert(f.num * (n * n) <= w * f.den);
    } else if u.dot(d) >= d.norm_sq() {
        lemma_norm_to_far_end(u.x, u.y, d.x, d.y);
        lemma_least_at_end(u.norm_sq(), u.dot(d), d.norm_sq(), k, n);
        assert(f.num * (n * n) <= w * f.den);
    } else {
        lemma_least_inside(
            u.norm_sq(),
            u.dot(d),
            d.norm_sq(),
            u.cross(d) * u.cross(d),
            w,
            k,
            n,
        );
        assert(f.num * (n * n) <= w * f.den);
    }
}

/// The distance to a segment is the distance to one of its points: some
/// point that divides the segment in a ratio `k : n - k` is exactly as far
/// from `p` as `segment_distance_sq` says.
pub proof fn lemma_segment_distance_is_attained(p: Point, a: Point, b: Point) -> (r: (int, int))
    ensures
        0 <= r.0 <= r.1,
        0 < r.1,
        segment_distance_sq(p, a, b).num * (r.1 * r.1)
            == scaled_displacement(p, a, b, r.0, r.1).norm_sq()
            * segment_distance_sq(p, a, b).den,
{
    let u = p.minus(a);
    let d = b.minus(a);
    if u.dot(d) <= 0 {
        lemma_scaled_norm(u.x, u.y, d.x, d.y, 0, 1);
        (0, 1)
    } else if u.dot(d) >= d.norm_sq() {
        lemma_scaled_norm(u.x, u.y, d.x, d.y, 1, 1);
        lemma_norm_to_far_end(u.x, u.y, d.x, d.y);
        (1, 1)
    } else {
        let k = u.dot(d);
        let n = d.norm_sq();
        let w = scaled_displacement(p, a, b, k, n).norm_sq();
        lemma_scaled_norm(u.x, u.y, d.x, d.y, k, n);
        lemma_lagrange(u.x, u.y, d.x, d.y);
        lemma_square_of_magnitude(u.cross(d));
        lemma_least_inside(u.norm_sq(), k, n, u.cross(d) * u.cross(d), w, k, n);
        assert((n * k - k * n) * (n * k - k * n) == 0) by (nonlinear_arith);
        (k, n)
    }
}

} // verus!
