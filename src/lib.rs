//! Rays and triangles on an integer grid, with an exact ray–triangle
//! intersection test (Möller–Trumbore) whose results are rational points.
pub mod algebra;
pub mod vector;
pub mod ray;
pub mod triangle;

pub use vector::{Point3, Vector3, POINT_BOUND, DIRECTION_BOUND};
pub use ray::{Axis, Ratio, Ray, Ray3};
pub use triangle::{
    intersection, intersection_owned, intersection_with_tolerance, RationalPoint3, Triangle,
    DEFAULT_TOLERANCE,
};

