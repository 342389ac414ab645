//! Points and vectors with integer coordinates, and the vector algebra
//! (difference, dot and cross product) that rays and triangles are built on.
use vstd::prelude::*;

verus! {

/// Largest absolute value of a point coordinate that the intersection test
/// accepts: it keeps every intermediate product exact in 128-bit arithmetic.
pub const POINT_BOUND: i64 = 268_435_456;

/// Largest absolute value of a direction coordinate that the intersection
/// test accepts (twice `POINT_BOUND`, so that the difference of two bounded
/// points is a bounded direction).
pub const DIRECTION_BOUND: i64 = 536_870_912;

/// A triple of mathematical integers: the model of points and vectors.
pub type Triple = (int, int, int);

pub open spec fn minus(a: Triple, b: Triple) -> Triple {
    (a.0 - b.0, a.1 - b.1, a.2 - b.2)
}

pub open spec fn dot(a: Triple, b: Triple) -> int {
    a.0 * b.0 + a.1 * b.1 + a.2 * b.2
}

pub open spec fn cross(a: Triple, b: Triple) -> Triple {
    (a.1 * b.2 - a.2 * b.1, a.2 * b.0 - a.0 * b.2, a.0 * b.1 - a.1 * b.0)
}

/// Every component of `a` lies in `[-k, k]`.
pub open spec fn bounded(a: Triple, k: int) -> bool {
    &&& -k <= a.0 <= k
    &&& -k <= a.1 <= k
    &&& -k <= a.2 <= k
}

pub open spec fn abs(a: int) -> int {
    if a < 0 {
        -a
    } else {
        a
    }
}

/// A point in three-dimensional space.
#[derive(Clone, Copy, Debug, PartialEq, Eq, Structural)]
pub struct Point3 {
    pub x: i64,
    pub y: i64,
    pub z: i64,
}

/// A displacement in three-dimensional space.
#[derive(Clone, Copy, Debug, PartialEq, Eq, Structural)]
pub struct Vector3 {
    pub x: i64,
    pub y: i64,
    pub z: i64,
}

impl View for Point3 {
    type V = Triple;

    open spec fn view(&self) -> Triple {
        (self.x as int, self.y as int, self.z as int)
    }
}

impl View for Vector3 {
    type V = Triple;

    open spec fn view(&self) -> Triple {
        (self.x as int, self.y as int, self.z as int)
    }
}

impl Point3 {
    pub fn new(x: i64, y: i64, z: i64) -> (r: Point3)
        ensures
            r == (Point3 { x, y, z }),
    {
        Point3 { x, y, z }
    }

    /// The point's coordinates are within `POINT_BOUND`.
    pub open spec fn in_bounds(self) -> bool {
        bounded(self@, POINT_BOUND as int)
    }

    /// The displacement `self - other` is representable as a `Vector3`.
    pub open spec fn sub_fits(self, other: Point3) -> bool {
        &&& i64::MIN <= self.x - other.x <= i64::MAX
        &&& i64::MIN <= self.y - other.y <= i64::MAX
        &&& i64::MIN <= self.z - other.z <= i64::MAX
    }

    /// The displacement from `other` to `self`.
    pub open spec fn spec_sub_p(self, other: Point3) -> Vector3 {
        Vector3 {
            x: (self.x - other.x) as i64,
            y: (self.y - other.y) as i64,
            z: (self.z - other.z) as i64,
        }
    }

    /// The displacement from `other` to `self`.
    pub fn sub_p(&self, other: &Point3) -> (r: Vector3)
        requires
            self.sub_fits(*other),
        ensures
            r == self.spec_sub_p(*other),
            r@ == minus(self@, other@),
    {
        Vector3 { x: self.x - other.x, y: self.y - other.y, z: self.z - other.z }
    }
}

impl Vector3 {
    pub fn new(x: i64, y: i64, z: i64) -> (r: Vector3)
        ensures
            r == (Vector3 { x, y, z }),
    {
        Vector3 { x, y, z }
    }

    /// The vector's coordinates are within `DIRECTION_BOUND`.
    pub open spec fn in_bounds(self) -> bool {
        bounded(self@, DIRECTION_BOUND as int)
    }
}

/// A vector held with 128-bit components, wide enough for the products
/// that the intersection test forms.
pub(crate) struct Wide3 {
    pub(crate) x: i128,
    pub(crate) y: i128,
    pub(crate) z: i128,
}

impl View for Wide3 {
    type V = Triple;

    closed spec fn view(&self) -> Triple {
        (self.x as int, self.y as int, self.z as int)
    }
}

pub(crate) proof fn lemma_mul_bound(a: int, b: int, ka: int, kb: int)
    requires
        -ka <= a <= ka,
        -kb <= b <= kb,
    ensures
        -(ka * kb) <= a * b <= ka * kb,
{
    assert(-(ka * kb) <= a * b <= ka * kb) by (nonlinear_arith)
        requires
            -ka <= a <= ka,
            -kb <= b <= kb,
    ;
}

pub(crate) fn widen(v: &Vector3) -> (r: Wide3)
    ensures
        r@ == v@,
{
    Wide3 { x: v.x as i128, y: v.y as i128, z: v.z as i128 }
}

/// `a - b` for two bounded points.
pub(crate) fn wide_diff(a: &Point3, b: &Point3) -> (r: Wide3)
    requires
        a.in_bounds(),
        b.in_bounds(),
    ensures
        r@ == minus(a@, b@),
        bounded(r@, DIRECTION_BOUND as int),
{
    Wide3 {
        x: a.x as i128 - b.x as i128,
        y: a.y as i128 - b.y as i128,
        z: a.z as i128 - b.z as i128,
    }
}

/// The cross product of two vectors bounded by `DIRECTION_BOUND`.
pub(crate) fn wide_cross(a: &Wide3, b: &Wide3) -> (r: Wide3)
    requires
        bounded(a@, DIRECTION_BOUND as int),
        bounded(b@, DIRECTION_BOUND as int),
    ensures
        r@ == cross(a@, b@),
        bounded(r@, 2 * (DIRECTION_BOUND * DIRECTION_BOUND)),
{
    proof {
        let k = DIRECTION_BOUND as int;
        lemma_mul_bound(a.x as int, b.y as int, k, k);
        lemma_mul_bound(a.x as int, b.z as int, k, k);
        lemma_mul_bound(a.y as int, b.x as int, k, k);
        lemma_mul_bound(a.y as int, b.z as int, k, k);
        lemma_mul_bound(a.z as int, b.x as int, k, k);
        lemma_mul_bound(a.z as int, b.y as int, k, k);
    }
    Wide3 {
        x: a.y * b.z - a.z * b.y,
        y: a.z * b.x - a.x * b.z,
        z: a.x * b.y - a.y * b.x,
    }
}

/// The dot product of a vector bounded by `DIRECTION_BOUND` with a cross
/// product of two such vectors.
pub(crate) fn wide_dot(a: &Wide3, b: &Wide3) -> (r: i128)
    requires
        bounded(a@, DIRECTION_BOUND as int),
        bounded(b@, 2 * (DIRECTION_BOUND * DIRECTION_BOUND)),
    ensures
        r == dot(a@, b@),
        abs(r as int) <= 6 * (DIRECTION_BOUND * (DIRECTION_BOUND * DIRECTION_BOUND)),
{
    proof {
        let ka = DIRECTION_BOUND as int;
        let kb = 2 * (DIRECTION_BOUND * DIRECTION_BOUND);
        lemma_mul_bound(a.x as int, b.x as int, ka, kb);
        lemma_mul_bound(a.y as int, b.y as int, ka, kb);
        lemma_mul_bound(a.z as int, b.z as int, ka, kb);
        assert(ka * kb == 2 * (DIRECTION_BOUND * (DIRECTION_BOUND * DIRECTION_BOUND))) by (nonlinear_arith)
            requires
                ka == DIRECTION_BOUND,
                kb == 2 * (DIRECTION_BOUND * DIRECTION_BOUND),
        ;
    }
    a.x * b.x + a.y * b.y + a.z * b.z
}

} // verus!
