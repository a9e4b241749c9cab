use edgin_around::coords::Point;
use edgin_around::figures::{icosahedron, sphere};
use edgin_around::fx::{FX_HALF_PI, FX_ONE, FX_PI};
use edgin_around::geometry::{Matrix2D, Vector2D};
use edgin_around::trig::{atan2_fx, cos_fx, sin_fx, sqrt_fx};

const S: f64 = FX_ONE as f64;

fn fx(v: f64) -> i64 {
    (v * S).round() as i64
}

fn rad(turns_of_pi: f64) -> i64 {
    fx(turns_of_pi * std::f64::consts::PI)
}

#[test]
fn trigonometry_hits_the_anchor_values() {
    assert_eq!(sin_fx(0), 0);
    assert_eq!(sin_fx(FX_HALF_PI), FX_ONE);
    assert_eq!(cos_fx(0), FX_ONE);
    assert_eq!(sin_fx(FX_PI), 0);
    assert_eq!(sqrt_fx(4 * FX_ONE), 2 * FX_ONE);
    assert_eq!(atan2_fx(0, 12345), 0);
    // A thirty-degree sine is accurate to about a thousandth.
    let s30 = sin_fx(rad(1.0 / 6.0)) as f64 / S;
    assert!((s30 - 0.5).abs() < 0.002, "sin(pi/6) = {}", s30);
}

#[test]
fn moved_by_zero_distance_stays_at_the_point() {
    let radius = fx(1000.0);
    let samples = [
        (rad(0.5), rad(0.25)),
        (rad(0.3), rad(1.5)),
        (rad(0.7), rad(0.01)),
        (rad(0.45), rad(1.99)),
    ];
    for (theta, phi) in samples {
        let p = Point::new(theta, phi);
        for bearing in [0, rad(0.5), rad(1.0), rad(-0.25)] {
            let q = p.moved_by(0, bearing, radius);
            // The longitude angle is preserved exactly; the polar angle
            // within the tolerance of the inverse trigonometry.
            assert_eq!(q.phi, p.phi, "phi moved at bearing {}", bearing);
            assert!((q.theta - p.theta).abs() < 6000, "theta {} vs {}", q.theta, p.theta);
        }
    }
}

#[test]
fn point_coordinate_round_trip_is_exact() {
    let samples = [
        (rad(0.5), rad(0.25)),
        (rad(0.0), rad(0.0)),
        (rad(1.0), rad(1.75)),
        (rad(0.123), rad(1.001)),
    ];
    for (theta, phi) in samples {
        let p = Point::new(theta, phi);
        let q = p.to_coordinate().to_point();
        assert_eq!(q, p);
    }
}

#[test]
fn distance_of_identical_points_is_zero() {
    let p = Point::new(rad(0.37), rad(1.21));
    assert_eq!(Point::distance(&p, &p, fx(1000.0)), 0);
}

#[test]
fn distance_matches_the_arc_length() {
    let radius = fx(1000.0);
    let a = Point::new(rad(0.5), rad(0.25));
    let b = Point::new(rad(0.5) - fx(0.1), rad(0.25));
    let d = Point::distance(&a, &b, radius) as f64 / S;
    // The quadratic sine and arc-tangent approximations carry a few
    // percent of systematic error at small angles.
    assert!((d - 100.0).abs() < 8.0, "distance = {}", d);
}

#[test]
fn icosahedron_has_twelve_vertices_and_twenty_triangles() {
    let ico = icosahedron();
    assert_eq!(ico.get_vertices().len(), 12);
    assert_eq!(ico.get_triangles().len(), 20);
    for v in ico.get_vertices() {
        let len = v.length() as f64 / S;
        assert!((len - 1.0).abs() < 0.001, "vertex length = {}", len);
    }
}

#[test]
fn sphere_of_quality_zero_is_the_scaled_icosahedron() {
    let radius = fx(10.0);
    let ball = sphere(0, radius);
    assert_eq!(ball.get_vertices().len(), 12);
    assert_eq!(ball.get_triangles().len(), 20);
    for v in ball.get_vertices() {
        let len = v.length() as f64 / S;
        assert!((len - 10.0).abs() < 0.01, "vertex length = {}", len);
    }
}

#[test]
fn sphere_subdivision_multiplies_triangles_by_four_and_shares_vertices() {
    let radius = fx(10.0);
    let one = sphere(1, radius);
    assert_eq!(one.get_triangles().len(), 80);
    // Deduplicated midpoints: 12 + 30 edges, not 12 + 60.
    assert_eq!(one.get_vertices().len(), 42);
    let two = sphere(2, radius);
    assert_eq!(two.get_triangles().len(), 320);
    assert_eq!(two.get_vertices().len(), 162);
    for v in two.get_vertices() {
        let len = v.length() as f64 / S;
        assert!((len - 10.0).abs() < 0.01, "vertex length = {}", len);
    }
}

#[test]
fn rotation_by_zero_is_the_identity_transform() {
    let m = Matrix2D::rotation(0);
    let v = Vector2D::new(fx(3.0), fx(-4.0));
    let r = m.apply(&v);
    assert_eq!(r.get_x(), fx(3.0));
    assert_eq!(r.get_y(), fx(-4.0));
    assert_eq!(r.get_w(), FX_ONE);
}

#[test]
fn translation_offsets_points() {
    let m = Matrix2D::translation((fx(10.0), fx(20.0)));
    let v = Vector2D::new(fx(1.0), fx(2.0));
    let r = m.apply(&v);
    assert_eq!(r.get_x(), fx(11.0));
    assert_eq!(r.get_y(), fx(22.0));
}
