use cgmath::{
    intersection, intersection_owned, intersection_with_tolerance, Point3, RationalPoint3, Ray3,
    Triangle, Vector3,
};

// Coordinates are in tenths: the grid point (4, -18, -15) is (0.4, -1.8, -1.5).
fn reference_triangle() -> Triangle<Point3> {
    Triangle::new(
        Point3::new(4, -18, -15),
        Point3::new(-1, 10, 12),
        Point3::new(-20, -10, -2),
    )
}

fn coordinates(p: &RationalPoint3) -> (f64, f64, f64) {
    let den = p.den as f64;
    (p.x as f64 / den, p.y as f64 / den, p.z as f64 / den)
}

#[test]
fn test_ray_intersection() {
    let tri = reference_triangle();

    let ray = Ray3::from_points(Point3::new(4, -23, 23), Point3::new(-12, -2, -18));

    let inter = intersection(&ray, &tri).unwrap();
    let (x, y, z) = coordinates(&inter);
    assert!((x / 10.0 - (-0.663337)).abs() <= 0.000001);
    assert!((y / 10.0 - (-0.904370)).abs() <= 0.000001);
    assert!((z / 10.0 - (-0.424801)).abs() <= 0.000001);

    let ray = Ray3::new(Point3::new(4, -23, 23), Vector3::new(6, -2, -18));

    let inter = intersection(&ray, &tri);
    assert_eq!(None, inter);
}

#[test]
fn reference_hit_is_exact() {
    let tri = reference_triangle();
    let ray = Ray3::from_points(Point3::new(4, -23, 23), Point3::new(-12, -2, -18));
    let inter = intersection(&ray, &tri).unwrap();
    assert_eq!(
        inter,
        RationalPoint3 { x: -268804, y: -366478, z: -172142, den: 40523 }
    );
}

#[test]
fn scaled_direction_gives_same_point() {
    let tri = reference_triangle();
    let short = Ray3::new(Point3::new(4, -23, 23), Vector3::new(-16, 21, -41));
    let long = Ray3::new(Point3::new(4, -23, 23), Vector3::new(-48, 63, -123));
    let a = coordinates(&intersection(&short, &tri).unwrap());
    let b = coordinates(&intersection(&long, &tri).unwrap());
    assert!((a.0 - b.0).abs() < 1e-12);
    assert!((a.1 - b.1).abs() < 1e-12);
    assert!((a.2 - b.2).abs() < 1e-12);
}

#[test]
fn owned_and_borrowed_agree() {
    let tri = reference_triangle();
    let hit = Ray3::from_points(Point3::new(4, -23, 23), Point3::new(-12, -2, -18));
    let miss = Ray3::new(Point3::new(4, -23, 23), Vector3::new(6, -2, -18));
    assert_eq!(intersection(&hit, &tri), intersection_owned(hit, tri));
    assert_eq!(intersection(&miss, &tri), intersection_owned(miss, tri));
}

fn flat_triangle() -> Triangle<Point3> {
    Triangle::new(Point3::new(0, 0, 0), Point3::new(4, 0, 0), Point3::new(0, 4, 0))
}

#[test]
fn parallel_ray_misses() {
    let ray = Ray3::new(Point3::new(1, 1, 5), Vector3::new(1, 1, 0));
    assert_eq!(intersection(&ray, &flat_triangle()), None);
}

#[test]
fn ray_in_plane_misses() {
    let ray = Ray3::new(Point3::new(-1, 1, 0), Vector3::new(1, 0, 0));
    assert_eq!(intersection(&ray, &flat_triangle()), None);
}

#[test]
fn degenerate_triangle_misses() {
    let tri = Triangle::new(Point3::new(0, 0, 0), Point3::new(2, 2, 0), Point3::new(4, 4, 0));
    let ray = Ray3::from_points(Point3::new(2, 2, 5), Point3::new(2, 2, 0));
    assert_eq!(intersection(&ray, &tri), None);
}

#[test]
fn zero_direction_misses() {
    let ray = Ray3::new(Point3::new(1, 1, 0), Vector3::new(0, 0, 0));
    assert_eq!(intersection(&ray, &flat_triangle()), None);
}

#[test]
fn ray_aimed_at_vertex_hits_it() {
    for corner in [Point3::new(0, 0, 0), Point3::new(4, 0, 0), Point3::new(0, 4, 0)] {
        let ray = Ray3::from_points(Point3::new(1, 1, 5), corner);
        let p = intersection(&ray, &flat_triangle()).unwrap();
        assert!(p.den > 0);
        assert_eq!(p.x, corner.x as i128 * p.den);
        assert_eq!(p.y, corner.y as i128 * p.den);
        assert_eq!(p.z, corner.z as i128 * p.den);
    }
}

#[test]
fn ray_aimed_at_edge_midpoint_hits_it() {
    for mid in [Point3::new(2, 0, 0), Point3::new(2, 2, 0), Point3::new(0, 2, 0)] {
        let ray = Ray3::from_points(Point3::new(1, 1, 5), mid);
        let p = intersection(&ray, &flat_triangle()).unwrap();
        assert_eq!(p.x, mid.x as i128 * p.den);
        assert_eq!(p.y, mid.y as i128 * p.den);
        assert_eq!(p.z, 0);
    }
}

#[test]
fn ray_just_outside_edge_misses() {
    let ray = Ray3::new(Point3::new(3, 3, 5), Vector3::new(0, 0, -1));
    assert_eq!(intersection(&ray, &flat_triangle()), None);
    let ray = Ray3::new(Point3::new(-1, 1, 5), Vector3::new(0, 0, -1));
    assert_eq!(intersection(&ray, &flat_triangle()), None);
}

#[test]
fn crossing_behind_origin_is_reported() {
    let ray = Ray3::new(Point3::new(1, 1, 5), Vector3::new(0, 0, 1));
    let p = intersection(&ray, &flat_triangle()).unwrap();
    assert_eq!((p.x, p.y, p.z), (p.den, p.den, 0));
}

#[test]
fn winding_does_not_change_the_point() {
    let ray = Ray3::new(Point3::new(1, 1, 5), Vector3::new(0, 0, -2));
    let reversed = Triangle::new(Point3::new(0, 0, 0), Point3::new(0, 4, 0), Point3::new(4, 0, 0));
    let a = intersection(&ray, &flat_triangle()).unwrap();
    let b = intersection(&ray, &reversed).unwrap();
    assert!(a.den > 0 && b.den > 0);
    assert_eq!(a, b);
    assert_eq!((a.x, a.y, a.z), (a.den, a.den, 0));
}

#[test]
fn tolerance_rejects_small_determinant() {
    let ray = Ray3::new(Point3::new(1, 1, 5), Vector3::new(0, 0, -1));
    // edge1 = (4, 0, 0), edge2 = (0, 4, 0): the determinant is -16.
    assert!(intersection_with_tolerance(&ray, &flat_triangle(), 15).is_some());
    assert_eq!(intersection_with_tolerance(&ray, &flat_triangle(), 16), None);
}

#[test]
fn ray_aimed_at_interior_point_hits_it() {
    // The point (4/3, 4/3, 0) has weight 1/3 on each of p1 and p2; the
    // direction is 3 times the displacement from the origin to it.
    let ray = Ray3::new(Point3::new(1, 1, 5), Vector3::new(1, 1, -15));
    let p = intersection(&ray, &flat_triangle()).unwrap();
    assert_eq!(p.x * 3, 4 * p.den);
    assert_eq!(p.y * 3, 4 * p.den);
    assert_eq!(p.z, 0);
}
