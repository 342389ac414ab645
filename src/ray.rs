//! Rays: an origin and a direction, evaluated parametrically as
//! `origin + direction * t`.
use vstd::prelude::*;
use crate::vector::{abs, minus, Point3, Triple, Vector3};

verus! {

/// A ray starting at `origin` and extending infinitely along `direction`.
/// The direction need not have unit length and may be zero.
#[derive(Clone, Copy, Debug, PartialEq, Eq, Structural)]
pub struct Ray {
    pub origin: Point3,
    pub direction: Vector3,
}

/// A ray in three dimensions.
pub type Ray3 = Ray;

/// The rational number `num / den`; `den` is positive.
#[derive(Clone, Copy, Debug, PartialEq, Eq, Structural)]
pub struct Ratio {
    pub num: i128,
    pub den: i128,
}

/// A coordinate axis.
#[derive(Clone, Copy, Debug, PartialEq, Eq, Structural)]
pub enum Axis {
    X,
    Y,
    Z,
}

/// The component of `a` along `axis`.
pub open spec fn component(a: Triple, axis: Axis) -> int {
    match axis {
        Axis::X => a.0,
        Axis::Y => a.1,
        Axis::Z => a.2,
    }
}

/// `q` is the parameter `t` at which `o + d * t == target`, with the
/// denominator `|d|`.
pub open spec fn solves(q: Ratio, o: int, d: int, target: int) -> bool {
    &&& q.den > 0
    &&& q.den == abs(d)
    &&& q.num * d == (target - o) * q.den
    &&& o * q.den + d * q.num == target * q.den
}

/// `o + d * t` is representable as an `i64`.
pub open spec fn fits_i64(v: int) -> bool {
    i64::MIN <= v <= i64::MAX
}

fn solve_axis(o: i64, d: i64, target: i64) -> (r: Option<Ratio>)
    ensures
        r is None <==> d == 0,
        r matches Some(q) ==> solves(q, o as int, d as int, target as int),
{
    if d == 0 {
        None
    } else if d > 0 {
        let q = Ratio { num: target as i128 - o as i128, den: d as i128 };
        assert(o * q.den + d * q.num == target * q.den) by (nonlinear_arith)
            requires
                q.den == d,
                q.num == target - o,
        ;
        Some(q)
    } else {
        let q = Ratio { num: o as i128 - target as i128, den: -(d as i128) };
        assert(q.num * d == (target - o) * q.den && o * q.den + d * q.num == target * q.den)
            by (nonlinear_arith)
            requires
                q.den == -d,
                q.num == o - target,
        ;
        Some(q)
    }
}

proof fn lemma_product_fits(d: int, t: int)
    requires
        fits_i64(d),
        fits_i64(t),
    ensures
        -0x4000_0000_0000_0000_0000_0000_0000_0000 <= d * t <= 0x4000_0000_0000_0000_0000_0000_0000_0000,
{
    assert(-0x4000_0000_0000_0000_0000_0000_0000_0000 <= d * t <= 0x4000_0000_0000_0000_0000_0000_0000_0000)
        by (nonlinear_arith)
        requires
            fits_i64(d),
            fits_i64(t),
    ;
}

/// `o + d * t`, computed without intermediate overflow.
fn axis_at(o: i64, d: i64, t: i64) -> (r: i64)
    requires
        fits_i64(o + d * t),
    ensures
        r == o + d * t,
{
    proof {
        lemma_product_fits(d as int, t as int);
    }
    (o as i128 + d as i128 * t as i128) as i64
}

impl Ray {
    /// The ray with the given origin and direction.
    pub fn new(origin: Point3, direction: Vector3) -> (r: Ray)
        ensures
            r.origin == origin,
            r.direction == direction,
    {
        Ray { origin, direction }
    }

    /// The ray from `p1` through `p2`: its direction is the displacement
    /// `p2 - p1`.
    pub open spec fn spec_from_points(p1: Point3, p2: Point3) -> Ray {
        Ray {
            origin: p1,
            direction: Vector3 {
                x: (p2.x - p1.x) as i64,
                y: (p2.y - p1.y) as i64,
                z: (p2.z - p1.z) as i64,
            },
        }
    }

    /// The ray that starts at `p1` and passes through `p2` at `t = 1`.
    pub fn from_points(p1: Point3, p2: Point3) -> (r: Ray)
        requires
            p2.sub_fits(p1),
        ensures
            r == Ray::spec_from_points(p1, p2),
            r.direction@ == minus(p2@, p1@),
    {
        let direction = p2.sub_p(&p1);
        Ray::new(p1, direction)
    }

    /// The origin and the direction are within the bounds that the
    /// intersection test accepts.
    pub open spec fn in_bounds(self) -> bool {
        self.origin.in_bounds() && self.direction.in_bounds()
    }

    /// The point `origin + direction * t`.
    pub open spec fn point_at(self, t: int) -> Triple {
        (
            self.origin.x + self.direction.x * t,
            self.origin.y + self.direction.y * t,
            self.origin.z + self.direction.z * t,
        )
    }

    /// The point at parameter `t`.
    pub fn at(&self, t: i64) -> (r: Point3)
        requires
            fits_i64(self.point_at(t as int).0),
            fits_i64(self.point_at(t as int).1),
            fits_i64(self.point_at(t as int).2),
        ensures
            r@ == self.point_at(t as int),
    {
        Point3 { x: self.x(t), y: self.y(t), z: self.z(t) }
    }

    /// The x coordinate at parameter `t`.
    pub fn x(&self, t: i64) -> (r: i64)
        requires
            fits_i64(self.point_at(t as int).0),
        ensures
            r == self.point_at(t as int).0,
    {
        axis_at(self.origin.x, self.direction.x, t)
    }

    /// The y coordinate at parameter `t`.
    pub fn y(&self, t: i64) -> (r: i64)
        requires
            fits_i64(self.point_at(t as int).1),
        ensures
            r == self.point_at(t as int).1,
    {
        axis_at(self.origin.y, self.direction.y, t)
    }

    /// The z coordinate at parameter `t`.
    pub fn z(&self, t: i64) -> (r: i64)
        requires
            fits_i64(self.point_at(t as int).2),
        ensures
            r == self.point_at(t as int).2,
    {
        axis_at(self.origin.z, self.direction.z, t)
    }

    /// The parameter at which the ray's coordinate along `axis` equals
    /// `value`; `None` where the direction has no component along `axis`.
    pub fn axis_parameter_where(&self, axis: Axis, value: i64) -> (r: Option<Ratio>)
        ensures
            r is None <==> component(self.direction@, axis) == 0,
            r matches Some(q) ==> solves(
                q,
                component(self.origin@, axis),
                component(self.direction@, axis),
                value as int,
            ),
    {
        match axis {
            Axis::X => solve_axis(self.origin.x, self.direction.x, value),
            Axis::Y => solve_axis(self.origin.y, self.direction.y, value),
            Axis::Z => solve_axis(self.origin.z, self.direction.z, value),
        }
    }

    /// The parameter at which the x coordinate equals `x`.
    pub fn where_x_eq(&self, x: i64) -> (r: Option<Ratio>)
        ensures
            r is None <==> self.direction.x == 0,
            r matches Some(q) ==> solves(q, self.origin.x as int, self.direction.x as int, x as int),
    {
        self.axis_parameter_where(Axis::X, x)
    }

    /// The parameter at which the y coordinate equals `y`.
    pub fn where_y_eq(&self, y: i64) -> (r: Option<Ratio>)
        ensures
            r is None <==> self.direction.y == 0,
            r matches Some(q) ==> solves(q, self.origin.y as int, self.direction.y as int, y as int),
    {
        self.axis_parameter_where(Axis::Y, y)
    }

    /// The parameter at which the z coordinate equals `z`.
    pub fn where_z_eq(&self, z: i64) -> (r: Option<Ratio>)
        ensures
            r is None <==> self.direction.z == 0,
            r matches Some(q) ==> solves(q, self.origin.z as int, self.direction.z as int, z as int),
    {
        self.axis_parameter_where(Axis::Z, z)
    }
}

/// A ray built from two points is the ray whose origin is the first point
/// and whose direction is the displacement from the first to the second.
pub proof fn from_points_is_new_with_displacement(p1: Point3, p2: Point3)
    requires
        p2.sub_fits(p1),
    ensures
        Ray::spec_from_points(p1, p2) == (Ray { origin: p1, direction: p2.spec_sub_p(p1) }),
        Ray::spec_from_points(p1, p2).direction@ == minus(p2@, p1@),
{
}

/// Every ray is at its origin at parameter zero.
pub proof fn point_at_zero_is_origin(ray: Ray)
    ensures
        ray.point_at(0) == ray.origin@,
{
}

/// Along an axis that the direction does not move on, no value is ever
/// reached at any parameter.
pub proof fn flat_axis_has_no_parameter(ray: Ray, axis: Axis, value: int, t: int)
    requires
        component(ray.direction@, axis) == 0,
        value != component(ray.origin@, axis),
    ensures
        component(ray.point_at(t), axis) != value,
{
}

} // verus!
