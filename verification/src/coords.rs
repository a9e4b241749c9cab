//! Spherical, geographical and cartesian coordinates.
//!
//! A [`Point`] is a spherical angular position (theta from the north pole,
//! phi around the axis); a [`Coordinate`] is the geographic form (latitude,
//! longitude); a [`Position`] adds a viewing bearing and an altitude.
//! The module converts among the three forms, solves the forward geodesic
//! problem ([`Coordinate::moved_by`]) and measures great-circle distance
//! with a haversine-style formula ([`Point::distance`]).

use vstd::prelude::*;

use crate::fx::{
    fx_add, fx_div, fx_mul, fx_sub, spec_fx_add, spec_fx_div, spec_fx_mul, spec_fx_sub,
    FX_HALF_PI, FX_ONE, FX_PI, FX_TWO_PI,
};
use crate::trig::{
    asin_fx, atan2_fx, cos_fx, sin_fx, spec_asin_fx, spec_atan2_fx, spec_cos_fx, spec_isqrt,
    spec_sin_fx, spec_sqrt_fx, sqrt_fx,
};

verus! {

/// Degrees per radian, in fixed point.
pub const FX_DEG_PER_RAD: i64 = 60078979;

/// Radians per degree, in fixed point.
pub const FX_RAD_PER_DEG: i64 = 18301;

/// The number two, in fixed point.
pub const FX_TWO: i64 = 2097152;

/// Radians to degrees.
pub fn degrees(radian_value: i64) -> (r: i64)
    ensures
        r as int == spec_fx_mul(radian_value as int, FX_DEG_PER_RAD as int),
{
    fx_mul(radian_value, FX_DEG_PER_RAD)
}

/// Degrees to radians.
pub fn radians(degree_value: i64) -> (r: i64)
    ensures
        r as int == spec_fx_mul(degree_value as int, FX_RAD_PER_DEG as int),
{
    fx_mul(degree_value, FX_RAD_PER_DEG)
}

/// The squared length of a three-dimensional vector.
pub open spec fn spec_sq_len(x: int, y: int, z: int) -> int {
    spec_fx_add(spec_fx_add(spec_fx_mul(x, x), spec_fx_mul(y, y)), spec_fx_mul(z, z))
}

/// What the cartesian-to-spherical conversion returns, as
/// `(r, theta, phi)`.  At a degenerate input (`y == 0` or `z == 0`) the
/// respective angle is pi / 2 instead of an undefined arc tangent.
pub open spec fn spec_cartesian_to_spherical(x: int, y: int, z: int) -> (int, int, int) {
    let r = spec_sqrt_fx(spec_sq_len(x, y, z));
    let theta = if y != 0 {
        spec_atan2_fx(
            spec_sqrt_fx(spec_fx_add(spec_fx_mul(x, x), spec_fx_mul(z, z))),
            y,
        )
    } else {
        FX_HALF_PI as int
    };
    let phi = if z != 0 {
        spec_atan2_fx(x, z)
    } else {
        FX_HALF_PI as int
    };
    (r, theta, phi)
}

/// Cartesian coordinates to spherical `(r, theta, phi)`.
pub fn cartesian_to_spherical(x: i64, y: i64, z: i64) -> (res: (i64, i64, i64))
    ensures
        res.0 as int == spec_cartesian_to_spherical(x as int, y as int, z as int).0,
        res.1 as int == spec_cartesian_to_spherical(x as int, y as int, z as int).1,
        res.2 as int == spec_cartesian_to_spherical(x as int, y as int, z as int).2,
{
    proof {
        crate::fx::lemma_fx_square_nonneg(x as int);
        crate::fx::lemma_fx_square_nonneg(y as int);
        crate::fx::lemma_fx_square_nonneg(z as int);
    }
    let xx = fx_mul(x, x);
    let yy = fx_mul(y, y);
    let zz = fx_mul(z, z);
    let r = sqrt_fx(fx_add(fx_add(xx, yy), zz));
    let theta = if y != 0 {
        atan2_fx(sqrt_fx(fx_add(xx, zz)), y)
    } else {
        FX_HALF_PI
    };
    let phi = if z != 0 {
        atan2_fx(x, z)
    } else {
        FX_HALF_PI
    };
    (r, theta, phi)
}

/// What the spherical-to-cartesian conversion returns, as `(x, y, z)`.
pub open spec fn spec_spherical_to_cartesian(r: int, theta: int, phi: int) -> (int, int, int) {
    let st = spec_sin_fx(theta);
    let ct = spec_cos_fx(theta);
    let sp = spec_sin_fx(phi);
    let cp = spec_cos_fx(phi);
    (
        spec_fx_mul(spec_fx_mul(r, st), sp),
        spec_fx_mul(r, ct),
        spec_fx_mul(spec_fx_mul(r, st), cp),
    )
}

/// Spherical coordinates to cartesian `(x, y, z)`.
pub fn spherical_to_cartesian(r: i64, theta: i64, phi: i64) -> (res: (i64, i64, i64))
    ensures
        res.0 as int == spec_spherical_to_cartesian(r as int, theta as int, phi as int).0,
        res.1 as int == spec_spherical_to_cartesian(r as int, theta as int, phi as int).1,
        res.2 as int == spec_spherical_to_cartesian(r as int, theta as int, phi as int).2,
{
    let st = sin_fx(theta);
    let ct = cos_fx(theta);
    let sp = sin_fx(phi);
    let cp = cos_fx(phi);
    let rst = fx_mul(r, st);
    (fx_mul(rst, sp), fx_mul(r, ct), fx_mul(rst, cp))
}

/// What the spherical-to-geographical conversion returns, as `(lat, lon)`.
pub open spec fn spec_to_geographical(theta: int, phi: int) -> (int, int) {
    let lat = spec_fx_sub(FX_HALF_PI as int, theta);
    let lon = if phi <= FX_PI {
        phi
    } else {
        spec_fx_sub(phi, FX_TWO_PI as int)
    };
    (lat, lon)
}

/// Spherical angles to geographical `(r, lat, lon)` in radians.
pub fn spherical_to_geographical_radians(r: i64, theta: i64, phi: i64) -> (res: (i64, i64, i64))
    ensures
        res.0 == r,
        res.1 as int == spec_to_geographical(theta as int, phi as int).0,
        res.2 as int == spec_to_geographical(theta as int, phi as int).1,
{
    let lat = fx_sub(FX_HALF_PI, theta);
    let lon = if phi <= FX_PI {
        phi
    } else {
        fx_sub(phi, FX_TWO_PI)
    };
    (r, lat, lon)
}

/// Spherical angles to geographical `(r, lat, lon)` in degrees.
pub fn spherical_to_geographical_degrees(r: i64, theta: i64, phi: i64) -> (res: (i64, i64, i64))
    ensures
        res.0 == r,
        res.1 as int == spec_fx_mul(
            spec_to_geographical(theta as int, phi as int).0,
            FX_DEG_PER_RAD as int,
        ),
        res.2 as int == spec_fx_mul(
            spec_to_geographical(theta as int, phi as int).1,
            FX_DEG_PER_RAD as int,
        ),
{
    let (r, lat, lon) = spherical_to_geographical_radians(r, theta, phi);
    (r, degrees(lat), degrees(lon))
}

/// What the geographical-to-spherical conversion returns, as
/// `(theta, phi)`.
pub open spec fn spec_to_spherical(lat: int, lon: int) -> (int, int) {
    let theta = spec_fx_sub(FX_HALF_PI as int, lat);
    let phi = if lon >= 0 {
        lon
    } else {
        spec_fx_add(lon, FX_TWO_PI as int)
    };
    (theta, phi)
}

/// Geographical radians to spherical `(r, theta, phi)`.
pub fn geographical_radians_to_spherical(r: i64, lat: i64, lon: i64) -> (res: (i64, i64, i64))
    ensures
        res.0 == r,
        res.1 as int == spec_to_spherical(lat as int, lon as int).0,
        res.2 as int == spec_to_spherical(lat as int, lon as int).1,
{
    let theta = fx_sub(FX_HALF_PI, lat);
    let phi = if lon >= 0 {
        lon
    } else {
        fx_add(lon, FX_TWO_PI)
    };
    (r, theta, phi)
}

/// Geographical degrees to spherical `(r, theta, phi)`.
pub fn geographical_degrees_to_spherical(r: i64, lat: i64, lon: i64) -> (res: (i64, i64, i64))
    ensures
        res.0 == r,
        res.1 as int == spec_to_spherical(
            spec_fx_mul(lat as int, FX_RAD_PER_DEG as int),
            spec_fx_mul(lon as int, FX_RAD_PER_DEG as int),
        ).0,
        res.2 as int == spec_to_spherical(
            spec_fx_mul(lat as int, FX_RAD_PER_DEG as int),
            spec_fx_mul(lon as int, FX_RAD_PER_DEG as int),
        ).1,
{
    geographical_radians_to_spherical(r, radians(lat), radians(lon))
}

/// Cartesian coordinates to geographical `(r, lat, lon)` in radians.
pub fn cartesian_to_geographical_radians(x: i64, y: i64, z: i64) -> (res: (i64, i64, i64))
    ensures
        ({
            let s = spec_cartesian_to_spherical(x as int, y as int, z as int);
            res.0 as int == s.0 && res.1 as int == spec_to_geographical(s.1, s.2).0 && res.2 as int
                == spec_to_geographical(s.1, s.2).1
        }),
{
    let (r, theta, phi) = cartesian_to_spherical(x, y, z);
    spherical_to_geographical_radians(r, theta, phi)
}

/// Cartesian coordinates to geographical `(r, lat, lon)` in degrees.
pub fn cartesian_to_geographical_degrees(x: i64, y: i64, z: i64) -> (res: (i64, i64, i64))
    ensures
        ({
            let s = spec_cartesian_to_spherical(x as int, y as int, z as int);
            res.0 as int == s.0 && res.1 as int == spec_fx_mul(
                spec_to_geographical(s.1, s.2).0,
                FX_DEG_PER_RAD as int,
            ) && res.2 as int == spec_fx_mul(
                spec_to_geographical(s.1, s.2).1,
                FX_DEG_PER_RAD as int,
            )
        }),
{
    let (r, theta, phi) = cartesian_to_spherical(x, y, z);
    spherical_to_geographical_degrees(r, theta, phi)
}

/// Clamp a value to the fixed-point unit interval `[-1, 1]`.
pub open spec fn spec_clamp_unit(v: int) -> int {
    if v > FX_ONE {
        FX_ONE as int
    } else if v < -FX_ONE {
        -FX_ONE as int
    } else {
        v
    }
}

fn clamp_unit(v: i64) -> (r: i64)
    ensures
        r as int == spec_clamp_unit(v as int),
        -FX_ONE <= r <= FX_ONE,
{
    if v > FX_ONE {
        FX_ONE
    } else if v < -FX_ONE {
        -FX_ONE
    } else {
        v
    }
}

/// What the forward geodesic step returns, as `(lat, lon)`: the
/// geographical position reached from `(lat, lon)` after travelling
/// `distance` along the great circle with the given starting `bearing`
/// on a sphere of the given `radius`.
pub open spec fn spec_moved_by(
    lat: int,
    lon: int,
    distance: int,
    bearing: int,
    radius: int,
) -> (int, int)
    recommends
        radius > 0,
{
    let ad = spec_fx_div(distance, radius);
    let cad = spec_cos_fx(ad);
    let sad = spec_sin_fx(ad);
    let cb = spec_cos_fx(bearing);
    let sb = spec_sin_fx(bearing);
    let slat1 = spec_sin_fx(lat);
    let clat1 = spec_cos_fx(lat);
    let arg = spec_clamp_unit(
        spec_fx_add(spec_fx_mul(slat1, cad), spec_fx_mul(spec_fx_mul(clat1, sad), cb)),
    );
    let lat2 = spec_asin_fx(arg);
    let slat2 = spec_sin_fx(lat2);
    let lon2 = spec_fx_add(
        lon,
        spec_atan2_fx(
            spec_fx_mul(spec_fx_mul(sb, sad), clat1),
            spec_fx_sub(cad, spec_fx_mul(slat1, slat2)),
        ),
    );
    (lat2, lon2)
}

/// A position expressed in geographical coordinates, in fixed-point
/// radians.
#[derive(Clone, Copy, Debug, PartialEq, Eq, Structural)]
pub struct Coordinate {
    pub lat: i64,
    pub lon: i64,
}

impl Coordinate {
    /// Pack a latitude and a longitude.
    pub fn new(lat: i64, lon: i64) -> (r: Coordinate)
        ensures
            r.lat == lat,
            r.lon == lon,
    {
        Coordinate { lat, lon }
    }

    /// Solve the forward geodesic problem with spherical trigonometry.
    pub fn moved_by(&self, distance: i64, bearing: i64, radius: i64) -> (r: Coordinate)
        requires
            radius > 0,
        ensures
            r.lat as int == spec_moved_by(
                self.lat as int,
                self.lon as int,
                distance as int,
                bearing as int,
                radius as int,
            ).0,
            r.lon as int == spec_moved_by(
                self.lat as int,
                self.lon as int,
                distance as int,
                bearing as int,
                radius as int,
            ).1,
    {
        let ad = fx_div(distance, radius);
        let cad = cos_fx(ad);
        let sad = sin_fx(ad);
        let cb = cos_fx(bearing);
        let sb = sin_fx(bearing);
        let slat1 = sin_fx(self.lat);
        let clat1 = cos_fx(self.lat);
        let arg = clamp_unit(fx_add(fx_mul(slat1, cad), fx_mul(fx_mul(clat1, sad), cb)));
        let lat2 = asin_fx(arg);
        let slat2 = sin_fx(lat2);
        let lon2 = fx_add(
            self.lon,
            atan2_fx(fx_mul(fx_mul(sb, sad), clat1), fx_sub(cad, fx_mul(slat1, slat2))),
        );
        Coordinate::new(lat2, lon2)
    }

    /// The spherical form of this coordinate.
    pub fn to_point(&self) -> (r: Point)
        ensures
            r.theta as int == spec_to_spherical(self.lat as int, self.lon as int).0,
            r.phi as int == spec_to_spherical(self.lat as int, self.lon as int).1,
    {
        let (_r, theta, phi) = geographical_radians_to_spherical(FX_ONE, self.lat, self.lon);
        Point::new(theta, phi)
    }
}

/// A position expressed in spherical coordinates, in fixed-point radians.
#[derive(Clone, Copy, Debug, PartialEq, Eq, Structural)]
pub struct Point {
    pub theta: i64,
    pub phi: i64,
}

impl Point {
    /// Pack the two spherical angles.
    pub fn new(theta: i64, phi: i64) -> (r: Point)
        ensures
            r.theta == theta,
            r.phi == phi,
    {
        Point { theta, phi }
    }

    /// The geographical form of this point.
    pub fn to_coordinate(&self) -> (r: Coordinate)
        ensures
            r.lat as int == spec_to_geographical(self.theta as int, self.phi as int).0,
            r.lon as int == spec_to_geographical(self.theta as int, self.phi as int).1,
    {
        let (_r, lat, lon) = spherical_to_geographical_radians(FX_ONE, self.theta, self.phi);
        Coordinate::new(lat, lon)
    }

    /// The forward geodesic step, through the geographical form.
    pub fn moved_by(&self, distance: i64, bearing: i64, radius: i64) -> (r: Point)
        requires
            radius > 0,
        ensures
            ({
                let c = spec_to_geographical(self.theta as int, self.phi as int);
                let m = spec_moved_by(c.0, c.1, distance as int, bearing as int, radius as int);
                r.theta as int == spec_to_spherical(m.0, m.1).0 && r.phi as int
                    == spec_to_spherical(m.0, m.1).1
            }),
    {
        self.to_coordinate().moved_by(distance, bearing, radius).to_point()
    }

    /// What the great-circle distance between two points is: a
    /// haversine-style formula over the latitude and longitude
    /// differences, scaled by the radius.
    #[verifier::opaque]
    pub open spec fn spec_distance(
        theta1: int,
        phi1: int,
        theta2: int,
        phi2: int,
        radius: int,
    ) -> int {
        let l1 = spec_fx_sub(FX_HALF_PI as int, theta1);
        let l2 = spec_fx_sub(FX_HALF_PI as int, theta2);
        let sdlat = spec_sin_fx(spec_fx_div(spec_fx_sub(theta2, theta1), FX_TWO as int));
        let sdlon = spec_sin_fx(spec_fx_div(spec_fx_sub(phi2, phi1), FX_TWO as int));
        let h = spec_fx_add(
            spec_fx_mul(sdlat, sdlat),
            spec_fx_mul(
                spec_fx_mul(spec_cos_fx(l1), spec_cos_fx(l2)),
                spec_fx_mul(sdlon, sdlon),
            ),
        );
        let hc = if h > FX_ONE {
            FX_ONE as int
        } else if h < 0 {
            0
        } else {
            h
        };
        spec_fx_mul(
            radius,
            spec_fx_mul(FX_TWO as int, spec_asin_fx(spec_isqrt(hc * FX_ONE))),
        )
    }

    /// Great-circle distance between two points on a sphere of the given
    /// radius.  Identical points are at distance exactly zero.
    pub fn distance(a: &Point, b: &Point, radius: i64) -> (r: i64)
        requires
            radius >= 0,
        ensures
            r as int == Point::spec_distance(
                a.theta as int,
                a.phi as int,
                b.theta as int,
                b.phi as int,
                radius as int,
            ),
            r >= 0,
            a == b ==> r == 0,
    {
        proof {
            reveal(Point::spec_distance);
        }
        let l1 = fx_sub(FX_HALF_PI, a.theta);
        let l2 = fx_sub(FX_HALF_PI, b.theta);
        let sdlat = sin_fx(fx_div(fx_sub(b.theta, a.theta), FX_TWO));
        let sdlon = sin_fx(fx_div(fx_sub(b.phi, a.phi), FX_TWO));
        let h = fx_add(fx_mul(sdlat, sdlat), fx_mul(fx_mul(cos_fx(l1), cos_fx(l2)), fx_mul(sdlon, sdlon)));
        let hc = if h > FX_ONE {
            FX_ONE
        } else if h < 0 {
            0i64
        } else {
            h
        };
        let s = sqrt_fx(hc);
        proof {
            assert(s as int <= FX_ONE) by (nonlinear_arith)
                requires
                    (s as int) * (s as int) <= (hc as int) * FX_ONE,
                    hc as int <= FX_ONE,
                    s as int >= 0,
                    FX_ONE as int == 0x100000,
            ;
        }
        let half = asin_fx(s);
        let r = fx_mul(radius, fx_mul(FX_TWO, half));
        proof {
            crate::fx::lemma_fx_mul_nonneg(FX_TWO as int, half as int);
            crate::fx::lemma_fx_mul_nonneg(radius as int, spec_fx_mul(FX_TWO as int, half as int));
            if a == b {
                assert(spec_fx_sub(b.theta as int, a.theta as int) == 0);
                assert(0 * FX_ONE == 0);
                crate::fx::lemma_fx_tdiv_zero(FX_TWO as int);
                crate::trig::lemma_sin_fx_zero();
                crate::fx::lemma_fx_mul_zero(0);
                crate::fx::lemma_fx_mul_zero(
                    spec_fx_mul(spec_cos_fx(l1 as int), spec_cos_fx(l2 as int)),
                );
                assert(hc == 0);
                crate::trig::lemma_isqrt_unique(0, 0);
                crate::trig::lemma_asin_fx_zero();
                crate::fx::lemma_fx_mul_zero(FX_TWO as int);
                crate::fx::lemma_fx_mul_zero(radius as int);
            }
        }
        r
    }
}

/// A renderable placement: a location, a viewing bearing and a height
/// above the sphere.
#[derive(Clone, Copy, Debug, PartialEq, Eq, Structural)]
pub struct Position {
    pub theta: i64,
    pub phi: i64,
    pub bearing: i64,
    pub altitude: i64,
}

impl Position {
    /// Pack the four components.
    pub fn new(theta: i64, phi: i64, bearing: i64, altitude: i64) -> (r: Position)
        ensures
            r.theta == theta,
            r.phi == phi,
            r.bearing == bearing,
            r.altitude == altitude,
    {
        Position { theta, phi, bearing, altitude }
    }
}

/// What the length of a three-dimensional vector is.
pub open spec fn spec_point3d_length(x: int, y: int, z: int) -> int {
    spec_sqrt_fx(spec_sq_len(x, y, z))
}

/// A cartesian point in three dimensions.
#[derive(Clone, Copy, Debug, PartialEq, Eq, Structural)]
pub struct Point3D {
    pub x: i64,
    pub y: i64,
    pub z: i64,
}

impl Point3D {
    /// Pack the three components.
    pub fn new(x: i64, y: i64, z: i64) -> (r: Point3D)
        ensures
            r.x == x,
            r.y == y,
            r.z == z,
    {
        Point3D { x, y, z }
    }

    /// Scale each component by a factor.
    pub fn stretch(&mut self, multiplier: i64)
        ensures
            final(self).x as int == spec_fx_mul(old(self).x as int, multiplier as int),
            final(self).y as int == spec_fx_mul(old(self).y as int, multiplier as int),
            final(self).z as int == spec_fx_mul(old(self).z as int, multiplier as int),
    {
        self.x = fx_mul(self.x, multiplier);
        self.y = fx_mul(self.y, multiplier);
        self.z = fx_mul(self.z, multiplier);
    }

    /// The euclidean length of the vector.
    pub fn length(&self) -> (r: i64)
        ensures
            r as int == spec_point3d_length(self.x as int, self.y as int, self.z as int),
            r >= 0,
    {
        proof {
            crate::fx::lemma_fx_square_nonneg(self.x as int);
            crate::fx::lemma_fx_square_nonneg(self.y as int);
            crate::fx::lemma_fx_square_nonneg(self.z as int);
        }
        sqrt_fx(fx_add(fx_add(fx_mul(self.x, self.x), fx_mul(self.y, self.y)), fx_mul(self.z, self.z)))
    }

    /// What rescaling to a new length returns: each component multiplied
    /// by `new_length / length`.  A zero-length vector stays unchanged.
    pub open spec fn spec_enlongated(x: int, y: int, z: int, new_length: int) -> (int, int, int) {
        let len = spec_point3d_length(x, y, z);
        if len == 0 {
            (x, y, z)
        } else {
            let f = spec_fx_div(new_length, len);
            (spec_fx_mul(x, f), spec_fx_mul(y, f), spec_fx_mul(z, f))
        }
    }

    /// The same direction rescaled to a new length.
    pub fn enlongated(&self, new_length: i64) -> (r: Point3D)
        ensures
            ({
                let e = Point3D::spec_enlongated(
                    self.x as int,
                    self.y as int,
                    self.z as int,
                    new_length as int,
                );
                r.x as int == e.0 && r.y as int == e.1 && r.z as int == e.2
            }),
    {
        let len = self.length();
        if len == 0 {
            Point3D::new(self.x, self.y, self.z)
        } else {
            let f = fx_div(new_length, len);
            Point3D::new(fx_mul(self.x, f), fx_mul(self.y, f), fx_mul(self.z, f))
        }
    }

    /// Componentwise sum of two vectors.
    pub fn plus(&self, other: &Point3D) -> (r: Point3D)
        ensures
            r.x as int == spec_fx_add(self.x as int, other.x as int),
            r.y as int == spec_fx_add(self.y as int, other.y as int),
            r.z as int == spec_fx_add(self.z as int, other.z as int),
    {
        Point3D::new(fx_add(self.x, other.x), fx_add(self.y, other.y), fx_add(self.z, other.z))
    }
}

/// Law: converting a point to its geographical form and back returns the
/// point exactly, for any point whose longitude angle lies in `[0, 2 pi)`
/// and whose polar angle does not exceed a full turn in magnitude.
pub proof fn lemma_point_round_trip(theta: int, phi: int)
    requires
        -FX_TWO_PI <= theta <= FX_TWO_PI,
        0 <= phi < FX_TWO_PI,
    ensures
        spec_to_spherical(
            spec_to_geographical(theta, phi).0,
            spec_to_geographical(theta, phi).1,
        ).0 == theta,
        spec_to_spherical(
            spec_to_geographical(theta, phi).0,
            spec_to_geographical(theta, phi).1,
        ).1 == phi,
{
}

/// Law: a geodesic step of distance zero keeps the longitude exactly, and
/// returns as latitude the arc sine of the sine of the old latitude,
/// whatever the bearing.
pub proof fn lemma_moved_by_zero_distance(lat: int, lon: int, bearing: int, radius: int)
    requires
        radius > 0,
        i64::MIN as int <= lat <= i64::MAX as int,
        i64::MIN as int <= lon <= i64::MAX as int,
    ensures
        spec_moved_by(lat, lon, 0, bearing, radius).1 == lon,
        spec_moved_by(lat, lon, 0, bearing, radius).0 == spec_asin_fx(spec_sin_fx(lat)),
{
    assert(0 * FX_ONE == 0);
    crate::fx::lemma_fx_tdiv_zero(radius);
    assert(spec_fx_div(0, radius) == 0);
    crate::trig::lemma_sin_fx_zero();
    crate::trig::lemma_cos_fx_zero();
    let sb = spec_sin_fx(bearing);
    let cb = spec_cos_fx(bearing);
    let slat1 = spec_sin_fx(lat);
    let clat1 = spec_cos_fx(lat);
    crate::trig::lemma_sin_fx_range(lat);
    crate::fx::lemma_fx_mul_one(slat1);
    crate::fx::lemma_fx_mul_zero(clat1);
    crate::fx::lemma_fx_mul_zero(cb);
    assert(spec_fx_add(slat1, 0) == slat1);
    assert(spec_clamp_unit(slat1) == slat1);
    let lat2 = spec_asin_fx(slat1);
    let slat2 = spec_sin_fx(lat2);
    crate::trig::lemma_sin_fx_range(lat2);
    crate::fx::lemma_fx_mul_unit_range(slat1, slat2);
    crate::fx::lemma_fx_mul_zero(sb);
    let x0 = spec_fx_sub(FX_ONE as int, spec_fx_mul(slat1, slat2));
    assert(x0 >= 0);
    crate::trig::lemma_atan2_fx_zero(x0);
    assert(spec_fx_add(lon, 0) == lon);
}

} // verus!
