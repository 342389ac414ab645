//! Triangles, and the exact Möller–Trumbore ray–triangle intersection test.
use vstd::prelude::*;
use vstd::arithmetic::mul::{lemma_mul_is_distributive_sub, lemma_mul_unary_negation};
use crate::algebra::{
    combination, lemma_cross_combination, lemma_cyclic, lemma_dot_combination, lemma_dot_difference,
    lemma_orthogonal, lemma_swap,
};
use crate::ray::Ray;
use crate::vector::{
    abs, cross, dot, lemma_mul_bound, minus, wide_cross, wide_diff, wide_dot, widen, Point3,
    Triple, DIRECTION_BOUND, POINT_BOUND,
};

verus! {

/// The tolerance of `intersection`: a determinant of absolute value at most
/// this counts as zero. Arithmetic here is exact, so only a determinant of
/// exactly zero is rejected; `intersection_with_tolerance` takes another.
pub const DEFAULT_TOLERANCE: u128 = 0;

/// A triangle given by its three corners, in order. Any three points form a
/// triangle, collinear ones included.
#[derive(Clone, Copy, Debug, PartialEq, Eq)]
pub struct Triangle<P> {
    pub p0: P,
    pub p1: P,
    pub p2: P,
}

impl<P> Triangle<P> {
    pub fn new(p0: P, p1: P, p2: P) -> (r: Triangle<P>)
        ensures
            r.p0 == p0,
            r.p1 == p1,
            r.p2 == p2,
    {
        Triangle { p0, p1, p2 }
    }
}

impl Triangle<Point3> {
    /// The corners are within the bounds that the intersection test accepts.
    pub open spec fn in_bounds(self) -> bool {
        self.p0.in_bounds() && self.p1.in_bounds() && self.p2.in_bounds()
    }
}

/// The point `(x / den, y / den, z / den)`; `den` is positive.
#[derive(Clone, Copy, Debug, PartialEq, Eq, Structural)]
pub struct RationalPoint3 {
    pub x: i128,
    pub y: i128,
    pub z: i128,
    pub den: i128,
}

impl View for RationalPoint3 {
    type V = (int, int, int, int);

    open spec fn view(&self) -> (int, int, int, int) {
        (self.x as int, self.y as int, self.z as int, self.den as int)
    }
}

pub open spec fn edge1(tri: Triangle<Point3>) -> Triple {
    minus(tri.p1@, tri.p0@)
}

pub open spec fn edge2(tri: Triangle<Point3>) -> Triple {
    minus(tri.p2@, tri.p0@)
}

/// `origin - p0`.
pub open spec fn offset(ray: Ray, tri: Triangle<Point3>) -> Triple {
    minus(ray.origin@, tri.p0@)
}

/// `direction × edge2`.
pub open spec fn pvec(ray: Ray, tri: Triangle<Point3>) -> Triple {
    cross(ray.direction@, edge2(tri))
}

/// `offset × edge1`.
pub open spec fn qvec(ray: Ray, tri: Triangle<Point3>) -> Triple {
    cross(offset(ray, tri), edge1(tri))
}

/// `edge1 · pvec`: zero exactly where the ray is parallel to the
/// triangle's plane or the triangle is degenerate.
pub open spec fn determinant(ray: Ray, tri: Triangle<Point3>) -> int {
    dot(edge1(tri), pvec(ray, tri))
}

/// `u * determinant`, where `u` is the weight of `p1` at the crossing.
pub open spec fn u_scaled(ray: Ray, tri: Triangle<Point3>) -> int {
    dot(offset(ray, tri), pvec(ray, tri))
}

/// `v * determinant`, where `v` is the weight of `p2` at the crossing.
pub open spec fn v_scaled(ray: Ray, tri: Triangle<Point3>) -> int {
    dot(ray.direction@, qvec(ray, tri))
}

/// `t * determinant`, where `t` is the ray parameter of the crossing.
pub open spec fn t_scaled(ray: Ray, tri: Triangle<Point3>) -> int {
    dot(edge2(tri), qvec(ray, tri))
}

/// `x` negated where the determinant is negative: this makes the
/// determinant itself non-negative.
pub open spec fn orient(ray: Ray, tri: Triangle<Point3>, x: int) -> int {
    if determinant(ray, tri) < 0 {
        -x
    } else {
        x
    }
}

/// The line of the ray meets the closed triangle, and the determinant is
/// beyond `tolerance`: `u >= 0`, `u <= 1`, `v >= 0` and `u + v <= 1`,
/// with every quantity scaled by `|determinant|`.
pub open spec fn hits(ray: Ray, tri: Triangle<Point3>, tolerance: int) -> bool {
    let d = orient(ray, tri, determinant(ray, tri));
    let u = orient(ray, tri, u_scaled(ray, tri));
    let v = orient(ray, tri, v_scaled(ray, tri));
    &&& abs(determinant(ray, tri)) > tolerance
    &&& 0 <= u <= d
    &&& 0 <= v
    &&& u + v <= d
}

/// The crossing `origin + direction * t` with `t = t_scaled / determinant`,
/// as numerators over the denominator `|determinant|`.
pub open spec fn crossing(ray: Ray, tri: Triangle<Point3>) -> (int, int, int, int) {
    let d = orient(ray, tri, determinant(ray, tri));
    let t = orient(ray, tri, t_scaled(ray, tri));
    (
        ray.origin.x * d + ray.direction.x * t,
        ray.origin.y * d + ray.direction.y * t,
        ray.origin.z * d + ray.direction.z * t,
        d,
    )
}

/// What the intersection test reports for `ray` and `tri`.
pub open spec fn intersection_spec(ray: Ray, tri: Triangle<Point3>, tolerance: int) -> Option<
    (int, int, int, int),
> {
    if hits(ray, tri, tolerance) {
        Some(crossing(ray, tri))
    } else {
        None
    }
}

pub open spec fn view_hit(r: Option<RationalPoint3>) -> Option<(int, int, int, int)> {
    match r {
        Some(p) => Some(p@),
        None => None,
    }
}

/// `n * p0 + a * edge1 + b * edge2`: `n` times the point of the triangle's
/// plane with weight `a / n` on `p1` and `b / n` on `p2`.
pub open spec fn weighted_point(tri: Triangle<Point3>, a: int, b: int, n: int) -> Triple {
    let p0 = tri.p0@;
    let e1 = edge1(tri);
    let e2 = edge2(tri);
    (n * p0.0 + a * e1.0 + b * e2.0, n * p0.1 + a * e1.1 + b * e2.1, n * p0.2 + a * e1.2 + b * e2.2)
}

/// A ray aimed at a point of the closed triangle reports a hit at that
/// point, unless the determinant is within the tolerance: corners and the
/// points of the edges, their midpoints among them, count as inside. The
/// point has weight `a / n` on `p1` and `b / n` on `p2` (a corner: `a` and
/// `b` in `{0, n}`; an edge midpoint: `2 * a` and `2 * b` in `{0, n}`), and
/// the direction is `n` times the displacement from the origin to it.
pub proof fn aimed_ray_hits(ray: Ray, tri: Triangle<Point3>, a: int, b: int, n: int, tolerance: int)
    requires
        n > 0,
        a >= 0,
        b >= 0,
        a + b <= n,
        tolerance >= 0,
        ray.direction@ == minus(
            weighted_point(tri, a, b, n),
            (n * ray.origin.x, n * ray.origin.y, n * ray.origin.z),
        ),
        abs(determinant(ray, tri)) > tolerance,
    ensures
        hits(ray, tri, tolerance),
        crossing(ray, tri).0 * n == weighted_point(tri, a, b, n).0 * crossing(ray, tri).3,
        crossing(ray, tri).1 * n == weighted_point(tri, a, b, n).1 * crossing(ray, tri).3,
        crossing(ray, tri).2 * n == weighted_point(tri, a, b, n).2 * crossing(ray, tri).3,
{
    let t = offset(ray, tri);
    let e1 = edge1(tri);
    let e2 = edge2(tri);
    let o = ray.origin@;
    let p0 = tri.p0@;
    let dir = ray.direction@;
    let k = dot(t, cross(e1, e2));
    lemma_mul_is_distributive_sub(n, o.0, p0.0);
    lemma_mul_is_distributive_sub(n, o.1, p0.1);
    lemma_mul_is_distributive_sub(n, o.2, p0.2);
    assert(dir == combination(a, b, n, e1, e2, t));
    lemma_cross_combination(a, b, n, e1, e2, t);
    lemma_dot_difference(a, n, e1, cross(e1, e2), cross(t, e2));
    lemma_dot_difference(a, n, t, cross(e1, e2), cross(t, e2));
    lemma_dot_combination(a, b, n, e1, e2, t, cross(t, e1));
    lemma_orthogonal(e1, e2);
    lemma_orthogonal(t, e2);
    lemma_orthogonal(t, e1);
    lemma_swap(t, e1, e2);
    lemma_cyclic(t, e1, e2);
    lemma_mul_unary_negation(n, k);
    let det = determinant(ray, tri);
    assert(det == n * k);
    assert(u_scaled(ray, tri) == a * k);
    assert(v_scaled(ray, tri) == b * k);
    assert(t_scaled(ray, tri) == k);
    let ka = abs(k);
    assert(det < 0 <==> k < 0) by (nonlinear_arith)
        requires
            det == n * k,
            n > 0,
    ;
    assert(orient(ray, tri, det) == n * ka) by (nonlinear_arith)
        requires
            det == n * k,
            ka == abs(k),
            orient(ray, tri, det) == if k < 0 { -det } else { det },
    ;
    assert(orient(ray, tri, u_scaled(ray, tri)) == a * ka) by (nonlinear_arith)
        requires
            u_scaled(ray, tri) == a * k,
            ka == abs(k),
            orient(ray, tri, u_scaled(ray, tri)) == if k < 0 {
                -u_scaled(ray, tri)
            } else {
                u_scaled(ray, tri)
            },
    ;
    assert(orient(ray, tri, v_scaled(ray, tri)) == b * ka) by (nonlinear_arith)
        requires
            v_scaled(ray, tri) == b * k,
            ka == abs(k),
            orient(ray, tri, v_scaled(ray, tri)) == if k < 0 {
                -v_scaled(ray, tri)
            } else {
                v_scaled(ray, tri)
            },
    ;
    assert(0 <= a * ka <= n * ka && 0 <= b * ka && a * ka + b * ka <= n * ka) by (nonlinear_arith)
        requires
            ka >= 0,
            a >= 0,
            b >= 0,
            a + b <= n,
    ;
    assert(orient(ray, tri, t_scaled(ray, tri)) == ka);
    let w = weighted_point(tri, a, b, n);
    assert(crossing(ray, tri).0 * n == w.0 * crossing(ray, tri).3) by (nonlinear_arith)
        requires
            crossing(ray, tri).0 == o.0 * (n * ka) + dir.0 * ka,
            crossing(ray, tri).3 == n * ka,
            dir.0 == w.0 - n * o.0,
    ;
    assert(crossing(ray, tri).1 * n == w.1 * crossing(ray, tri).3) by (nonlinear_arith)
        requires
            crossing(ray, tri).1 == o.1 * (n * ka) + dir.1 * ka,
            crossing(ray, tri).3 == n * ka,
            dir.1 == w.1 - n * o.1,
    ;
    assert(crossing(ray, tri).2 * n == w.2 * crossing(ray, tri).3) by (nonlinear_arith)
        requires
            crossing(ray, tri).2 == o.2 * (n * ka) + dir.2 * ka,
            crossing(ray, tri).3 == n * ka,
            dir.2 == w.2 - n * o.2,
    ;
}

/// `x` with the sign of the orientation applied.
fn oriented(negate: bool, x: i128) -> (r: i128)
    requires
        abs(x as int) <= 6 * (DIRECTION_BOUND * (DIRECTION_BOUND * DIRECTION_BOUND)),
    ensures
        r == if negate { -x } else { x as int },
{
    if negate {
        -x
    } else {
        x
    }
}

/// `o * d + dir * t`: one coordinate of the crossing, over `d`.
fn crossing_coordinate(o: i64, dir: i64, d: i128, t: i128) -> (r: i128)
    requires
        -POINT_BOUND <= o <= POINT_BOUND,
        -DIRECTION_BOUND <= dir <= DIRECTION_BOUND,
        abs(d as int) <= 6 * (DIRECTION_BOUND * (DIRECTION_BOUND * DIRECTION_BOUND)),
        abs(t as int) <= 6 * (DIRECTION_BOUND * (DIRECTION_BOUND * DIRECTION_BOUND)),
    ensures
        r == o * d + dir * t,
{
    proof {
        let k = 6 * (DIRECTION_BOUND * (DIRECTION_BOUND * DIRECTION_BOUND));
        lemma_mul_bound(o as int, d as int, POINT_BOUND as int, k);
        lemma_mul_bound(dir as int, t as int, DIRECTION_BOUND as int, k);
    }
    o as i128 * d + dir as i128 * t
}

/// Where the line of `ray` meets the closed triangle `tri`, as a rational
/// point; `None` where it misses, or where the determinant is at most
/// `tolerance` in absolute value (the ray is parallel to the triangle's
/// plane, or the triangle is degenerate). Points on an edge or a corner
/// count as hits. The crossing may lie behind the origin: the whole line
/// is tested.
pub fn intersection_with_tolerance(ray: &Ray, tri: &Triangle<Point3>, tolerance: u128) -> (r:
    Option<RationalPoint3>)
    requires
        ray.in_bounds(),
        tri.in_bounds(),
    ensures
        view_hit(r) == intersection_spec(*ray, *tri, tolerance as int),
        abs(determinant(*ray, *tri)) <= tolerance ==> r is None,
{
    let edge1 = wide_diff(&tri.p1, &tri.p0);
    let edge2 = wide_diff(&tri.p2, &tri.p0);
    let dir = widen(&ray.direction);
    let pvec = wide_cross(&dir, &edge2);
    let det = wide_dot(&edge1, &pvec);
    let negate = det < 0;
    let d = oriented(negate, det);
    if d as u128 <= tolerance {
        return None;
    }
    let tvec = wide_diff(&ray.origin, &tri.p0);
    let u = oriented(negate, wide_dot(&tvec, &pvec));
    if u < 0 || u > d {
        return None;
    }
    let qvec = wide_cross(&tvec, &edge1);
    let v = oriented(negate, wide_dot(&dir, &qvec));
    if v < 0 || u + v > d {
        return None;
    }
    let t = oriented(negate, wide_dot(&edge2, &qvec));
    Some(
        RationalPoint3 {
            x: crossing_coordinate(ray.origin.x, ray.direction.x, d, t),
            y: crossing_coordinate(ray.origin.y, ray.direction.y, d, t),
            z: crossing_coordinate(ray.origin.z, ray.direction.z, d, t),
            den: d,
        },
    )
}

/// `intersection_with_tolerance` at `DEFAULT_TOLERANCE`, on borrowed values.
pub fn intersection(ray: &Ray, tri: &Triangle<Point3>) -> (r: Option<RationalPoint3>)
    requires
        ray.in_bounds(),
        tri.in_bounds(),
    ensures
        view_hit(r) == intersection_spec(*ray, *tri, DEFAULT_TOLERANCE as int),
{
    intersection_with_tolerance(ray, tri, DEFAULT_TOLERANCE)
}

/// The intersection test on owned values: the same result as `intersection`
/// on references to them.
pub fn intersection_owned(ray: Ray, tri: Triangle<Point3>) -> (r: Option<RationalPoint3>)
    requires
        ray.in_bounds(),
        tri.in_bounds(),
    ensures
        view_hit(r) == intersection_spec(ray, tri, DEFAULT_TOLERANCE as int),
{
    intersection(&ray, &tri)
}

} // verus!
