//! Homogeneous affine transforms in two and three dimensions.
//!
//! Matrices hold fixed-point entries in row-major named fields.  Every
//! constructor and product is specified exactly: the spec mirrors build
//! the same matrix at the spec level, entry by entry, over the saturating
//! fixed-point operations of [`crate::fx`].

use vstd::prelude::*;

use crate::fx::{
    fx_add, fx_div, fx_mul, fx_neg, fx_sub, spec_fx_add, spec_fx_div, spec_fx_mul, spec_fx_neg,
    spec_fx_sub, FX_ONE,
};
use crate::trig::{cos_fx, sin_fx, spec_cos_fx, spec_sin_fx};

verus! {

/// A saturating fixed-point dot product of three-element rows.
pub open spec fn spec_dot3(a0: int, a1: int, a2: int, b0: int, b1: int, b2: int) -> int {
    spec_fx_add(spec_fx_add(spec_fx_mul(a0, b0), spec_fx_mul(a1, b1)), spec_fx_mul(a2, b2))
}

fn dot3(a0: i64, a1: i64, a2: i64, b0: i64, b1: i64, b2: i64) -> (r: i64)
    ensures
        r as int == spec_dot3(a0 as int, a1 as int, a2 as int, b0 as int, b1 as int, b2 as int),
{
    fx_add(fx_add(fx_mul(a0, b0), fx_mul(a1, b1)), fx_mul(a2, b2))
}

/// A saturating fixed-point dot product of four-element rows.
pub open spec fn spec_dot4(
    a0: int,
    a1: int,
    a2: int,
    a3: int,
    b0: int,
    b1: int,
    b2: int,
    b3: int,
) -> int {
    spec_fx_add(
        spec_fx_add(spec_fx_add(spec_fx_mul(a0, b0), spec_fx_mul(a1, b1)), spec_fx_mul(a2, b2)),
        spec_fx_mul(a3, b3),
    )
}

fn dot4(a0: i64, a1: i64, a2: i64, a3: i64, b0: i64, b1: i64, b2: i64, b3: i64) -> (r: i64)
    ensures
        r as int == spec_dot4(
            a0 as int,
            a1 as int,
            a2 as int,
            a3 as int,
            b0 as int,
            b1 as int,
            b2 as int,
            b3 as int,
        ),
{
    fx_add(fx_add(fx_add(fx_mul(a0, b0), fx_mul(a1, b1)), fx_mul(a2, b2)), fx_mul(a3, b3))
}

/// A homogeneous two-dimensional vector `(x, y, w)`.
#[derive(Clone, Copy, Debug, PartialEq, Eq, Structural)]
pub struct Vector2D {
    pub x: i64,
    pub y: i64,
    pub w: i64,
}

impl Vector2D {
    /// A point vector with unit weight.
    pub fn new(x: i64, y: i64) -> (r: Vector2D)
        ensures
            r.x == x,
            r.y == y,
            r.w == FX_ONE,
    {
        Vector2D { x, y, w: FX_ONE }
    }

    /// The first component.
    pub fn get_x(&self) -> (r: i64)
        ensures
            r == self.x,
    {
        self.x
    }

    /// The second component.
    pub fn get_y(&self) -> (r: i64)
        ensures
            r == self.y,
    {
        self.y
    }

    /// The homogeneous weight.
    pub fn get_w(&self) -> (r: i64)
        ensures
            r == self.w,
    {
        self.w
    }
}

/// A row-major 3 x 3 homogeneous transform.
#[derive(Clone, Copy, Debug, PartialEq, Eq, Structural)]
pub struct Matrix2D {
    pub m00: i64,
    pub m01: i64,
    pub m02: i64,
    pub m10: i64,
    pub m11: i64,
    pub m12: i64,
    pub m20: i64,
    pub m21: i64,
    pub m22: i64,
}

/// What the 2D identity matrix holds.
pub open spec fn spec_mat2_identity() -> Matrix2D {
    Matrix2D {
        m00: FX_ONE,
        m01: 0,
        m02: 0,
        m10: 0,
        m11: FX_ONE,
        m12: 0,
        m20: 0,
        m21: 0,
        m22: FX_ONE,
    }
}

/// What a 2D translation matrix holds.
pub open spec fn spec_mat2_translation(x: int, y: int) -> Matrix2D {
    Matrix2D {
        m00: FX_ONE,
        m01: 0,
        m02: x as i64,
        m10: 0,
        m11: FX_ONE,
        m12: y as i64,
        m20: 0,
        m21: 0,
        m22: FX_ONE,
    }
}

/// What a 2D rotation matrix holds.
pub open spec fn spec_mat2_rotation(angle: int) -> Matrix2D {
    let c = spec_cos_fx(angle) as i64;
    let s = spec_sin_fx(angle) as i64;
    Matrix2D {
        m00: c,
        m01: spec_fx_neg(s as int) as i64,
        m02: 0,
        m10: s,
        m11: c,
        m12: 0,
        m20: 0,
        m21: 0,
        m22: FX_ONE,
    }
}

/// What a 2D scale matrix holds.
pub open spec fn spec_mat2_scale(x: int, y: int) -> Matrix2D {
    Matrix2D {
        m00: x as i64,
        m01: 0,
        m02: 0,
        m10: 0,
        m11: y as i64,
        m12: 0,
        m20: 0,
        m21: 0,
        m22: FX_ONE,
    }
}

/// What the product of two 2D matrices holds.
pub open spec fn spec_mat2_mul(a: Matrix2D, b: Matrix2D) -> Matrix2D {
    Matrix2D {
        m00: spec_dot3(
            a.m00 as int,
            a.m01 as int,
            a.m02 as int,
            b.m00 as int,
            b.m10 as int,
            b.m20 as int,
        ) as i64,
        m01: spec_dot3(
            a.m00 as int,
            a.m01 as int,
            a.m02 as int,
            b.m01 as int,
            b.m11 as int,
            b.m21 as int,
        ) as i64,
        m02: spec_dot3(
            a.m00 as int,
            a.m01 as int,
            a.m02 as int,
            b.m02 as int,
            b.m12 as int,
            b.m22 as int,
        ) as i64,
        m10: spec_dot3(
            a.m10 as int,
            a.m11 as int,
            a.m12 as int,
            b.m00 as int,
            b.m10 as int,
            b.m20 as int,
        ) as i64,
        m11: spec_dot3(
            a.m10 as int,
            a.m11 as int,
            a.m12 as int,
            b.m01 as int,
            b.m11 as int,
            b.m21 as int,
        ) as i64,
        m12: spec_dot3(
            a.m10 as int,
            a.m11 as int,
            a.m12 as int,
            b.m02 as int,
            b.m12 as int,
            b.m22 as int,
        ) as i64,
        m20: spec_dot3(
            a.m20 as int,
            a.m21 as int,
            a.m22 as int,
            b.m00 as int,
            b.m10 as int,
            b.m20 as int,
        ) as i64,
        m21: spec_dot3(
            a.m20 as int,
            a.m21 as int,
            a.m22 as int,
            b.m01 as int,
            b.m11 as int,
            b.m21 as int,
        ) as i64,
        m22: spec_dot3(
            a.m20 as int,
            a.m21 as int,
            a.m22 as int,
            b.m02 as int,
            b.m12 as int,
            b.m22 as int,
        ) as i64,
    }
}

/// What a 2D matrix applied to a vector returns.
pub open spec fn spec_mat2_apply(a: Matrix2D, v: Vector2D) -> Vector2D {
    Vector2D {
        x: spec_dot3(
            a.m00 as int,
            a.m01 as int,
            a.m02 as int,
            v.x as int,
            v.y as int,
            v.w as int,
        ) as i64,
        y: spec_dot3(
            a.m10 as int,
            a.m11 as int,
            a.m12 as int,
            v.x as int,
            v.y as int,
            v.w as int,
        ) as i64,
        w: spec_dot3(
            a.m20 as int,
            a.m21 as int,
            a.m22 as int,
            v.x as int,
            v.y as int,
            v.w as int,
        ) as i64,
    }
}

impl Matrix2D {
    /// The identity transform.
    pub fn identity() -> (r: Matrix2D)
        ensures
            r == spec_mat2_identity(),
    {
        Matrix2D {
            m00: FX_ONE,
            m01: 0,
            m02: 0,
            m10: 0,
            m11: FX_ONE,
            m12: 0,
            m20: 0,
            m21: 0,
            m22: FX_ONE,
        }
    }

    /// A translation by `(x, y)`.
    pub fn translation(vector: (i64, i64)) -> (r: Matrix2D)
        ensures
            r == spec_mat2_translation(vector.0 as int, vector.1 as int),
    {
        Matrix2D {
            m00: FX_ONE,
            m01: 0,
            m02: vector.0,
            m10: 0,
            m11: FX_ONE,
            m12: vector.1,
            m20: 0,
            m21: 0,
            m22: FX_ONE,
        }
    }

    /// A rotation by an angle in fixed-point radians.
    pub fn rotation(angle: i64) -> (r: Matrix2D)
        ensures
            r == spec_mat2_rotation(angle as int),
    {
        let c = cos_fx(angle);
        let s = sin_fx(angle);
        Matrix2D { m00: c, m01: fx_neg(s), m02: 0, m10: s, m11: c, m12: 0, m20: 0, m21: 0, m22: FX_ONE }
    }

    /// A scale by `(x, y)`.
    pub fn scale(factors: (i64, i64)) -> (r: Matrix2D)
        ensures
            r == spec_mat2_scale(factors.0 as int, factors.1 as int),
    {
        Matrix2D {
            m00: factors.0,
            m01: 0,
            m02: 0,
            m10: 0,
            m11: factors.1,
            m12: 0,
            m20: 0,
            m21: 0,
            m22: FX_ONE,
        }
    }

    /// The matrix product `self * other`.
    pub fn times(&self, other: &Matrix2D) -> (r: Matrix2D)
        ensures
            r == spec_mat2_mul(*self, *other),
    {
        Matrix2D {
            m00: dot3(self.m00, self.m01, self.m02, other.m00, other.m10, other.m20),
            m01: dot3(self.m00, self.m01, self.m02, other.m01, other.m11, other.m21),
            m02: dot3(self.m00, self.m01, self.m02, other.m02, other.m12, other.m22),
            m10: dot3(self.m10, self.m11, self.m12, other.m00, other.m10, other.m20),
            m11: dot3(self.m10, self.m11, self.m12, other.m01, other.m11, other.m21),
            m12: dot3(self.m10, self.m11, self.m12, other.m02, other.m12, other.m22),
            m20: dot3(self.m20, self.m21, self.m22, other.m00, other.m10, other.m20),
            m21: dot3(self.m20, self.m21, self.m22, other.m01, other.m11, other.m21),
            m22: dot3(self.m20, self.m21, self.m22, other.m02, other.m12, other.m22),
        }
    }

    /// The matrix applied to a vector.
    pub fn apply(&self, v: &Vector2D) -> (r: Vector2D)
        ensures
            r == spec_mat2_apply(*self, *v),
    {
        Vector2D {
            x: dot3(self.m00, self.m01, self.m02, v.x, v.y, v.w),
            y: dot3(self.m10, self.m11, self.m12, v.x, v.y, v.w),
            w: dot3(self.m20, self.m21, self.m22, v.x, v.y, v.w),
        }
    }
}

/// A homogeneous three-dimensional vector `(x, y, z, w)`.
#[derive(Clone, Copy, Debug, PartialEq, Eq, Structural)]
pub struct Vector3D {
    pub x: i64,
    pub y: i64,
    pub z: i64,
    pub w: i64,
}

impl Vector3D {
    /// A point vector with unit weight.
    pub fn new(x: i64, y: i64, z: i64) -> (r: Vector3D)
        ensures
            r.x == x,
            r.y == y,
            r.z == z,
            r.w == FX_ONE,
    {
        Vector3D { x, y, z, w: FX_ONE }
    }

    /// The first component.
    pub fn get_x(&self) -> (r: i64)
        ensures
            r == self.x,
    {
        self.x
    }

    /// The second component.
    pub fn get_y(&self) -> (r: i64)
        ensures
            r == self.y,
    {
        self.y
    }

    /// The third component.
    pub fn get_z(&self) -> (r: i64)
        ensures
            r == self.z,
    {
        self.z
    }

    /// The homogeneous weight.
    pub fn get_w(&self) -> (r: i64)
        ensures
            r == self.w,
    {
        self.w
    }
}

/// A row-major 4 x 4 homogeneous transform.
#[derive(Clone, Copy, Debug, PartialEq, Eq, Structural)]
pub struct Matrix3D {
    pub m00: i64,
    pub m01: i64,
    pub m02: i64,
    pub m03: i64,
    pub m10: i64,
    pub m11: i64,
    pub m12: i64,
    pub m13: i64,
    pub m20: i64,
    pub m21: i64,
    pub m22: i64,
    pub m23: i64,
    pub m30: i64,
    pub m31: i64,
    pub m32: i64,
    pub m33: i64,
}

/// What the 3D identity matrix holds.
pub open spec fn spec_mat3_identity() -> Matrix3D {
    Matrix3D {
        m00: FX_ONE,
        m01: 0,
        m02: 0,
        m03: 0,
        m10: 0,
        m11: FX_ONE,
        m12: 0,
        m13: 0,
        m20: 0,
        m21: 0,
        m22: FX_ONE,
        m23: 0,
        m30: 0,
        m31: 0,
        m32: 0,
        m33: FX_ONE,
    }
}

impl Matrix3D {
    /// The identity transform.
    pub fn identity() -> (r: Matrix3D)
        ensures
            r == spec_mat3_identity(),
    {
        Matrix3D {
            m00: FX_ONE,
            m01: 0,
            m02: 0,
            m03: 0,
            m10: 0,
            m11: FX_ONE,
            m12: 0,
            m13: 0,
            m20: 0,
            m21: 0,
            m22: FX_ONE,
            m23: 0,
            m30: 0,
            m31: 0,
            m32: 0,
            m33: FX_ONE,
        }
    }

    /// A translation by `(x, y, z)`.
    pub fn translation(vector: (i64, i64, i64)) -> (r: Matrix3D)
        ensures
            r == (Matrix3D {
                m03: vector.0,
                m13: vector.1,
                m23: vector.2,
                ..spec_mat3_identity()
            }),
    {
        Matrix3D {
            m03: vector.0,
            m13: vector.1,
            m23: vector.2,
            ..Matrix3D::identity()
        }
    }

    /// A rotation about the x axis.
    pub fn rotation_x(angle: i64) -> (r: Matrix3D)
        ensures
            r == (Matrix3D {
                m11: spec_cos_fx(angle as int) as i64,
                m12: spec_fx_neg(spec_sin_fx(angle as int)) as i64,
                m21: spec_sin_fx(angle as int) as i64,
                m22: spec_cos_fx(angle as int) as i64,
                ..spec_mat3_identity()
            }),
    {
        let c = cos_fx(angle);
        let s = sin_fx(angle);
        Matrix3D { m11: c, m12: fx_neg(s), m21: s, m22: c, ..Matrix3D::identity() }
    }

    /// A rotation about the y axis.
    pub fn rotation_y(angle: i64) -> (r: Matrix3D)
        ensures
            r == (Matrix3D {
                m00: spec_cos_fx(angle as int) as i64,
                m02: spec_sin_fx(angle as int) as i64,
                m20: spec_fx_neg(spec_sin_fx(angle as int)) as i64,
                m22: spec_cos_fx(angle as int) as i64,
                ..spec_mat3_identity()
            }),
    {
        let c = cos_fx(angle);
        let s = sin_fx(angle);
        Matrix3D { m00: c, m02: s, m20: fx_neg(s), m22: c, ..Matrix3D::identity() }
    }

    /// A rotation about the z axis.
    pub fn rotation_z(angle: i64) -> (r: Matrix3D)
        ensures
            r == (Matrix3D {
                m00: spec_cos_fx(angle as int) as i64,
                m01: spec_fx_neg(spec_sin_fx(angle as int)) as i64,
                m10: spec_sin_fx(angle as int) as i64,
                m11: spec_cos_fx(angle as int) as i64,
                ..spec_mat3_identity()
            }),
    {
        let c = cos_fx(angle);
        let s = sin_fx(angle);
        Matrix3D { m00: c, m01: fx_neg(s), m10: s, m11: c, ..Matrix3D::identity() }
    }

    /// A scale by `(x, y, z)`.
    pub fn scale(factors: (i64, i64, i64)) -> (r: Matrix3D)
        ensures
            r == (Matrix3D {
                m00: factors.0,
                m11: factors.1,
                m22: factors.2,
                ..spec_mat3_identity()
            }),
    {
        Matrix3D { m00: factors.0, m11: factors.1, m22: factors.2, ..Matrix3D::identity() }
    }

    /// A perspective projection.  The vertical field of view must have a
    /// nonzero tangent, the viewport a nonzero width, and the near and far
    /// planes must differ.
    pub fn perspective(fovy: i64, width: i64, height: i64, near: i64, far: i64) -> (r: Matrix3D)
        requires
            width != 0,
            spec_cos_fx(spec_fx_div(fovy as int, crate::coords::FX_TWO as int)) != 0,
            spec_fx_div(
                spec_sin_fx(spec_fx_div(fovy as int, crate::coords::FX_TWO as int)),
                spec_cos_fx(spec_fx_div(fovy as int, crate::coords::FX_TWO as int)),
            ) != 0,
            spec_fx_sub(near as int, far as int) != 0,
        ensures
            ({
                let half = spec_fx_div(fovy as int, crate::coords::FX_TWO as int);
                let t = spec_fx_div(spec_sin_fx(half), spec_cos_fx(half));
                let s = spec_fx_div(FX_ONE as int, t);
                let dz = spec_fx_sub(near as int, far as int);
                r == (Matrix3D {
                    m00: spec_fx_div(spec_fx_mul(s, height as int), width as int) as i64,
                    m11: s as i64,
                    m22: spec_fx_div(spec_fx_add(far as int, near as int), dz) as i64,
                    m23: spec_fx_div(
                        spec_fx_mul(
                            crate::coords::FX_TWO as int,
                            spec_fx_mul(far as int, near as int),
                        ),
                        dz,
                    ) as i64,
                    m32: spec_fx_neg(FX_ONE as int) as i64,
                    m33: 0,
                    ..spec_mat3_identity()
                })
            }),
    {
        let half = fx_div(fovy, crate::coords::FX_TWO);
        let t = fx_div(sin_fx(half), cos_fx(half));
        let s = fx_div(FX_ONE, t);
        let dz = fx_sub(near, far);
        Matrix3D {
            m00: fx_div(fx_mul(s, height), width),
            m11: s,
            m22: fx_div(fx_add(far, near), dz),
            m23: fx_div(fx_mul(crate::coords::FX_TWO, fx_mul(far, near)), dz),
            m32: fx_neg(FX_ONE),
            m33: 0,
            ..Matrix3D::identity()
        }
    }

    /// An orthographic projection.  The three clipping ranges must be
    /// nonempty.
    pub fn orthographic(
        left: i64,
        right: i64,
        bottom: i64,
        top: i64,
        near: i64,
        far: i64,
    ) -> (r: Matrix3D)
        requires
            spec_fx_sub(right as int, left as int) != 0,
            spec_fx_sub(top as int, bottom as int) != 0,
            spec_fx_sub(far as int, near as int) != 0,
        ensures
            ({
                let wr = spec_fx_div(FX_ONE as int, spec_fx_sub(right as int, left as int));
                let hr = spec_fx_div(FX_ONE as int, spec_fx_sub(top as int, bottom as int));
                let dr = spec_fx_div(FX_ONE as int, spec_fx_sub(far as int, near as int));
                r == (Matrix3D {
                    m00: spec_fx_mul(crate::coords::FX_TWO as int, wr) as i64,
                    m03: spec_fx_neg(
                        spec_fx_mul(spec_fx_add(right as int, left as int), wr),
                    ) as i64,
                    m11: spec_fx_mul(crate::coords::FX_TWO as int, hr) as i64,
                    m13: spec_fx_neg(
                        spec_fx_mul(spec_fx_add(top as int, bottom as int), hr),
                    ) as i64,
                    m22: spec_fx_neg(spec_fx_mul(crate::coords::FX_TWO as int, dr)) as i64,
                    m23: spec_fx_neg(
                        spec_fx_mul(spec_fx_add(far as int, near as int), dr),
                    ) as i64,
                    ..spec_mat3_identity()
                })
            }),
    {
        let wr = fx_div(FX_ONE, fx_sub(right, left));
        let hr = fx_div(FX_ONE, fx_sub(top, bottom));
        let dr = fx_div(FX_ONE, fx_sub(far, near));
        Matrix3D {
            m00: fx_mul(crate::coords::FX_TWO, wr),
            m03: fx_neg(fx_mul(fx_add(right, left), wr)),
            m11: fx_mul(crate::coords::FX_TWO, hr),
            m13: fx_neg(fx_mul(fx_add(top, bottom), hr)),
            m22: fx_neg(fx_mul(crate::coords::FX_TWO, dr)),
            m23: fx_neg(fx_mul(fx_add(far, near), dr)),
            ..Matrix3D::identity()
        }
    }

    /// The matrix product `self * other`.
    pub fn times(&self, other: &Matrix3D) -> (r: Matrix3D)
        ensures
            r == spec_mat3_mul(*self, *other),
    {
        Matrix3D {
            m00: dot4(self.m00, self.m01, self.m02, self.m03, other.m00, other.m10, other.m20, other.m30),
            m01: dot4(self.m00, self.m01, self.m02, self.m03, other.m01, other.m11, other.m21, other.m31),
            m02: dot4(self.m00, self.m01, self.m02, self.m03, other.m02, other.m12, other.m22, other.m32),
            m03: dot4(self.m00, self.m01, self.m02, self.m03, other.m03, other.m13, other.m23, other.m33),
            m10: dot4(self.m10, self.m11, self.m12, self.m13, other.m00, other.m10, other.m20, other.m30),
            m11: dot4(self.m10, self.m11, self.m12, self.m13, other.m01, other.m11, other.m21, other.m31),
            m12: dot4(self.m10, self.m11, self.m12, self.m13, other.m02, other.m12, other.m22, other.m32),
            m13: dot4(self.m10, self.m11, self.m12, self.m13, other.m03, other.m13, other.m23, other.m33),
            m20: dot4(self.m20, self.m21, self.m22, self.m23, other.m00, other.m10, other.m20, other.m30),
            m21: dot4(self.m20, self.m21, self.m22, self.m23, other.m01, other.m11, other.m21, other.m31),
            m22: dot4(self.m20, self.m21, self.m22, self.m23, other.m02, other.m12, other.m22, other.m32),
            m23: dot4(self.m20, self.m21, self.m22, self.m23, other.m03, other.m13, other.m23, other.m33),
            m30: dot4(self.m30, self.m31, self.m32, self.m33, other.m00, other.m10, other.m20, other.m30),
            m31: dot4(self.m30, self.m31, self.m32, self.m33, other.m01, other.m11, other.m21, other.m31),
            m32: dot4(self.m30, self.m31, self.m32, self.m33, other.m02, other.m12, other.m22, other.m32),
            m33: dot4(self.m30, self.m31, self.m32, self.m33, other.m03, other.m13, other.m23, other.m33),
        }
    }

    /// The matrix applied to a vector.
    pub fn apply(&self, v: &Vector3D) -> (r: Vector3D)
        ensures
            r == spec_mat3_apply(*self, *v),
    {
        Vector3D {
            x: dot4(self.m00, self.m01, self.m02, self.m03, v.x, v.y, v.z, v.w),
            y: dot4(self.m10, self.m11, self.m12, self.m13, v.x, v.y, v.z, v.w),
            z: dot4(self.m20, self.m21, self.m22, self.m23, v.x, v.y, v.z, v.w),
            w: dot4(self.m30, self.m31, self.m32, self.m33, v.x, v.y, v.z, v.w),
        }
    }
}

/// What the product of two 3D matrices holds.
pub open spec fn spec_mat3_mul(a: Matrix3D, b: Matrix3D) -> Matrix3D {
    Matrix3D {
        m00: spec_dot4(a.m00 as int, a.m01 as int, a.m02 as int, a.m03 as int, b.m00 as int, b.m10 as int, b.m20 as int, b.m30 as int) as i64,
        m01: spec_dot4(a.m00 as int, a.m01 as int, a.m02 as int, a.m03 as int, b.m01 as int, b.m11 as int, b.m21 as int, b.m31 as int) as i64,
        m02: spec_dot4(a.m00 as int, a.m01 as int, a.m02 as int, a.m03 as int, b.m02 as int, b.m12 as int, b.m22 as int, b.m32 as int) as i64,
        m03: spec_dot4(a.m00 as int, a.m01 as int, a.m02 as int, a.m03 as int, b.m03 as int, b.m13 as int, b.m23 as int, b.m33 as int) as i64,
        m10: spec_dot4(a.m10 as int, a.m11 as int, a.m12 as int, a.m13 as int, b.m00 as int, b.m10 as int, b.m20 as int, b.m30 as int) as i64,
        m11: spec_dot4(a.m10 as int, a.m11 as int, a.m12 as int, a.m13 as int, b.m01 as int, b.m11 as int, b.m21 as int, b.m31 as int) as i64,
        m12: spec_dot4(a.m10 as int, a.m11 as int, a.m12 as int, a.m13 as int, b.m02 as int, b.m12 as int, b.m22 as int, b.m32 as int) as i64,
        m13: spec_dot4(a.m10 as int, a.m11 as int, a.m12 as int, a.m13 as int, b.m03 as int, b.m13 as int, b.m23 as int, b.m33 as int) as i64,
        m20: spec_dot4(a.m20 as int, a.m21 as int, a.m22 as int, a.m23 as int, b.m00 as int, b.m10 as int, b.m20 as int, b.m30 as int) as i64,
        m21: spec_dot4(a.m20 as int, a.m21 as int, a.m22 as int, a.m23 as int, b.m01 as int, b.m11 as int, b.m21 as int, b.m31 as int) as i64,
        m22: spec_dot4(a.m20 as int, a.m21 as int, a.m22 as int, a.m23 as int, b.m02 as int, b.m12 as int, b.m22 as int, b.m32 as int) as i64,
        m23: spec_dot4(a.m20 as int, a.m21 as int, a.m22 as int, a.m23 as int, b.m03 as int, b.m13 as int, b.m23 as int, b.m33 as int) as i64,
        m30: spec_dot4(a.m30 as int, a.m31 as int, a.m32 as int, a.m33 as int, b.m00 as int, b.m10 as int, b.m20 as int, b.m30 as int) as i64,
        m31: spec_dot4(a.m30 as int, a.m31 as int, a.m32 as int, a.m33 as int, b.m01 as int, b.m11 as int, b.m21 as int, b.m31 as int) as i64,
        m32: spec_dot4(a.m30 as int, a.m31 as int, a.m32 as int, a.m33 as int, b.m02 as int, b.m12 as int, b.m22 as int, b.m32 as int) as i64,
        m33: spec_dot4(a.m30 as int, a.m31 as int, a.m32 as int, a.m33 as int, b.m03 as int, b.m13 as int, b.m23 as int, b.m33 as int) as i64,
    }
}

/// What a 3D matrix applied to a vector returns.
pub open spec fn spec_mat3_apply(a: Matrix3D, v: Vector3D) -> Vector3D {
    Vector3D {
        x: spec_dot4(a.m00 as int, a.m01 as int, a.m02 as int, a.m03 as int, v.x as int, v.y as int, v.z as int, v.w as int) as i64,
        y: spec_dot4(a.m10 as int, a.m11 as int, a.m12 as int, a.m13 as int, v.x as int, v.y as int, v.z as int, v.w as int) as i64,
        z: spec_dot4(a.m20 as int, a.m21 as int, a.m22 as int, a.m23 as int, v.x as int, v.y as int, v.z as int, v.w as int) as i64,
        w: spec_dot4(a.m30 as int, a.m31 as int, a.m32 as int, a.m33 as int, v.x as int, v.y as int, v.z as int, v.w as int) as i64,
    }
}

} // verus!
