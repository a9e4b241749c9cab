//! A spherical-world model with a skeletal-animation engine.
//!
//! The library models angles, lengths and transform coefficients as
//! 64-bit fixed-point numbers (see [`fx`]), generates geodesic meshes,
//! compiles declarative animation documents into runtime skeletons,
//! interpolates bone poses over time, and answers movement and
//! proximity queries on a sphere.

use vstd::prelude::*;

pub mod coords;
pub mod errors;
pub mod figures;
pub mod fx;
pub mod geometry;
pub mod ids;
pub mod media;
pub mod names;
pub mod saml;
pub mod scene;
pub mod skeleton;
pub mod sprite;
pub mod stock;
pub mod tile;
pub mod trig;

verus! {

/// The crate version, split at the dots.  The literals mirror the
/// version in the package manifest and move with it.
pub fn get_version() -> (r: Vec<&'static str>)
    ensures
        r@.len() == 3,
        r@[0]@ == "0"@,
        r@[1]@ == "1"@,
        r@[2]@ == "0"@,
{
    let mut r: Vec<&'static str> = Vec::new();
    r.push("0");
    r.push("1");
    r.push("0");
    r
}

} // verus!
