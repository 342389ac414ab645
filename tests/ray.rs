use cgmath::{Axis, Point3, Ratio, Ray, Ray3, Vector3};

#[test]
fn from_points_equals_new_with_displacement() {
    let p1 = Point3::new(4, -23, 23);
    let p2 = Point3::new(-12, -2, -18);
    assert_eq!(Ray3::from_points(p1, p2), Ray::new(p1, p2.sub_p(&p1)));
    assert_eq!(Ray3::from_points(p1, p2).direction, Vector3::new(-16, 21, -41));
}

#[test]
fn at_zero_is_origin() {
    let ray = Ray::new(Point3::new(7, -3, 2), Vector3::new(5, 1, -9));
    assert_eq!(ray.at(0), ray.origin);
}

#[test]
fn at_follows_direction() {
    let ray = Ray::new(Point3::new(7, -3, 2), Vector3::new(5, 1, -9));
    assert_eq!(ray.at(2), Point3::new(17, -1, -16));
    assert_eq!(ray.at(-1), Point3::new(2, -4, 11));
    assert_eq!(ray.x(3), 22);
    assert_eq!(ray.y(3), 0);
    assert_eq!(ray.z(3), -25);
}

#[test]
fn at_large_parameter_is_exact() {
    let ray = Ray::new(Point3::new(i64::MAX, 0, 0), Vector3::new(-1, 0, 0));
    assert_eq!(ray.x(i64::MAX), 0);
}

#[test]
fn where_eq_solves_each_axis() {
    let ray = Ray::new(Point3::new(1, 2, 3), Vector3::new(2, -4, 3));
    assert_eq!(ray.where_x_eq(6), Some(Ratio { num: 5, den: 2 }));
    assert_eq!(ray.where_y_eq(6), Some(Ratio { num: -4, den: 4 }));
    assert_eq!(ray.where_z_eq(3), Some(Ratio { num: 0, den: 3 }));
}

#[test]
fn where_eq_keeps_denominator_positive() {
    let ray = Ray::new(Point3::new(1, 2, 3), Vector3::new(-2, 4, -3));
    assert_eq!(ray.where_x_eq(6), Some(Ratio { num: -5, den: 2 }));
    assert_eq!(ray.axis_parameter_where(Axis::Z, 0), Some(Ratio { num: 3, den: 3 }));
}

#[test]
fn flat_axis_never_has_parameter() {
    let ray = Ray::new(Point3::new(1, 2, 3), Vector3::new(0, 5, 0));
    for value in [-7, 0, 1, 2, 3, 1000] {
        assert_eq!(ray.where_x_eq(value), None);
        assert_eq!(ray.where_z_eq(value), None);
        assert_eq!(ray.axis_parameter_where(Axis::X, value), None);
    }
    assert!(ray.where_y_eq(2).is_some());
}
