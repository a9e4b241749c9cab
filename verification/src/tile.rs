//! Textured quads produced by the animation runtime.
//!
//! A [`Tile`] is one drawn image layer for one frame: a resource
//! reference plus four transformed corner points in local 2D space.

use vstd::prelude::*;

use crate::geometry::{spec_mat2_apply, Matrix2D, Vector2D};
use crate::ids::ResourceId;

verus! {

/// What the four fresh corner points of a tile are, given its origin and
/// size: the corners of the axis-aligned rectangle, counterclockwise from
/// the origin corner.
pub open spec fn spec_tile_corners(x: int, y: int, w: int, h: int) -> Seq<Vector2D> {
    seq![
        Vector2D { x: x as i64, y: y as i64, w: crate::fx::FX_ONE },
        Vector2D {
            x: x as i64,
            y: crate::fx::spec_fx_add(y, h) as i64,
            w: crate::fx::FX_ONE,
        },
        Vector2D {
            x: crate::fx::spec_fx_add(x, w) as i64,
            y: crate::fx::spec_fx_add(y, h) as i64,
            w: crate::fx::FX_ONE,
        },
        Vector2D {
            x: crate::fx::spec_fx_add(x, w) as i64,
            y: y as i64,
            w: crate::fx::FX_ONE,
        },
    ]
}

fn copy_points(v: &Vec<Vector2D>) -> (r: Vec<Vector2D>)
    ensures
        r@ == v@,
{
    let mut r: Vec<Vector2D> = Vec::new();
    let mut i: usize = 0;
    while i < v.len()
        invariant
            0 <= i <= v@.len(),
            r@ =~= v@.subrange(0, i as int),
        decreases v@.len() - i,
    {
        r.push(v[i]);
        i = i + 1;
    }
    proof {
        assert(r@ =~= v@);
    }
    r
}

/// A textured quad: a resource reference and four corner points.
#[derive(Clone, Debug)]
pub struct Tile {
    pub id: ResourceId,
    pub points: Vec<Vector2D>,
}

/// The ghost form of a tile.
#[verifier::ext_equal]
pub struct TileV {
    pub id: ResourceId,
    pub points: Seq<Vector2D>,
}

impl View for Tile {
    type V = TileV;

    open spec fn view(&self) -> TileV {
        TileV { id: self.id, points: self.points@ }
    }
}

impl Tile {
    /// A fresh, untransformed tile at `position` with the given `size`.
    pub fn new(id: ResourceId, position: (i64, i64), size: (i64, i64)) -> (r: Tile)
        ensures
            r.id == id,
            r.points@ == spec_tile_corners(
                position.0 as int,
                position.1 as int,
                size.0 as int,
                size.1 as int,
            ),
    {
        let (x, y) = position;
        let (w, h) = size;
        let xw = crate::fx::fx_add(x, w);
        let yh = crate::fx::fx_add(y, h);
        let mut points: Vec<Vector2D> = Vec::new();
        points.push(Vector2D::new(x, y));
        points.push(Vector2D::new(x, yh));
        points.push(Vector2D::new(xw, yh));
        points.push(Vector2D::new(xw, y));
        proof {
            assert(points@ =~= spec_tile_corners(x as int, y as int, w as int, h as int));
        }
        Tile { id, points }
    }

    /// Apply a transform to every corner point.
    pub fn transform(&mut self, matrix: &Matrix2D)
        ensures
            final(self).id == old(self).id,
            final(self).points@.len() == old(self).points@.len(),
            forall|i: int|
                0 <= i < old(self).points@.len() ==> final(self).points@[i] == spec_mat2_apply(
                    *matrix,
                    old(self).points@[i],
                ),
    {
        let mut i: usize = 0;
        while i < self.points.len()
            invariant
                self.points@.len() == old(self).points@.len(),
                self.id == old(self).id,
                0 <= i <= self.points@.len(),
                forall|j: int|
                    0 <= j < i ==> self.points@[j] == spec_mat2_apply(
                        *matrix,
                        old(self).points@[j],
                    ),
                forall|j: int| i <= j < self.points@.len() ==> self.points@[j] == old(self).points@[j],
            decreases self.points@.len() - i,
        {
            let p = matrix.apply(&self.points[i]);
            self.points.set(i, p);
            i = i + 1;
        }
    }

    /// Translate every corner by a vector.
    pub fn translate(&mut self, vector: (i64, i64))
        ensures
            final(self).id == old(self).id,
            final(self).points@.len() == old(self).points@.len(),
            forall|i: int|
                0 <= i < old(self).points@.len() ==> final(self).points@[i] == spec_mat2_apply(
                    crate::geometry::spec_mat2_translation(vector.0 as int, vector.1 as int),
                    old(self).points@[i],
                ),
    {
        let m = Matrix2D::translation(vector);
        self.transform(&m);
    }

    /// Rotate every corner by an angle.
    pub fn rotate(&mut self, angle: i64)
        ensures
            final(self).id == old(self).id,
            final(self).points@.len() == old(self).points@.len(),
            forall|i: int|
                0 <= i < old(self).points@.len() ==> final(self).points@[i] == spec_mat2_apply(
                    crate::geometry::spec_mat2_rotation(angle as int),
                    old(self).points@[i],
                ),
    {
        let m = Matrix2D::rotation(angle);
        self.transform(&m);
    }

    /// Scale every corner by a pair of factors.
    pub fn scale(&mut self, factors: (i64, i64))
        ensures
            final(self).id == old(self).id,
            final(self).points@.len() == old(self).points@.len(),
            forall|i: int|
                0 <= i < old(self).points@.len() ==> final(self).points@[i] == spec_mat2_apply(
                    crate::geometry::spec_mat2_scale(factors.0 as int, factors.1 as int),
                    old(self).points@[i],
                ),
    {
        let m = Matrix2D::scale(factors);
        self.transform(&m);
    }

    /// A translated copy of this tile.
    pub fn translated(&self, vector: (i64, i64)) -> (r: Tile)
        ensures
            r.id == self.id,
            r.points@.len() == self.points@.len(),
            forall|i: int|
                0 <= i < self.points@.len() ==> r.points@[i] == spec_mat2_apply(
                    crate::geometry::spec_mat2_translation(vector.0 as int, vector.1 as int),
                    self.points@[i],
                ),
    {
        let mut other = Tile { id: self.id, points: copy_points(&self.points) };
        other.translate(vector);
        other
    }

    /// A rotated copy of this tile.
    pub fn rotated(&self, angle: i64) -> (r: Tile)
        ensures
            r.id == self.id,
            r.points@.len() == self.points@.len(),
            forall|i: int|
                0 <= i < self.points@.len() ==> r.points@[i] == spec_mat2_apply(
                    crate::geometry::spec_mat2_rotation(angle as int),
                    self.points@[i],
                ),
    {
        let mut other = Tile { id: self.id, points: copy_points(&self.points) };
        other.rotate(angle);
        other
    }

    /// A scaled copy of this tile.
    pub fn scaled(&self, factors: (i64, i64)) -> (r: Tile)
        ensures
            r.id == self.id,
            r.points@.len() == self.points@.len(),
            forall|i: int|
                0 <= i < self.points@.len() ==> r.points@[i] == spec_mat2_apply(
                    crate::geometry::spec_mat2_scale(factors.0 as int, factors.1 as int),
                    self.points@[i],
                ),
    {
        let mut other = Tile { id: self.id, points: copy_points(&self.points) };
        other.scale(factors);
        other
    }

    /// A transformed copy of this tile.
    pub fn transformed(&self, matrix: &Matrix2D) -> (r: Tile)
        ensures
            r.id == self.id,
            r.points@.len() == self.points@.len(),
            forall|i: int|
                0 <= i < self.points@.len() ==> r.points@[i] == spec_mat2_apply(
                    *matrix,
                    self.points@[i],
                ),
    {
        let mut other = Tile { id: self.id, points: copy_points(&self.points) };
        other.transform(matrix);
        other
    }
}

} // verus!
