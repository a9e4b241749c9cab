//! Fixed-point trigonometry.
//!
//! The sine uses a rational approximation on `[0, pi]` (a quadratic over a
//! quadratic, rounded to nearest), unfolded over the whole axis by
//! periodicity and sign.  The arc tangent uses a quadratic approximation on
//! `[0, 1]` with octant reduction, and the arc sine goes through
//! `atan2(y, sqrt(1 - y^2))`.  The square root is an exact integer square
//! root.  Every executable function is specified exactly against a spec
//! mirror, so identities such as `sin(0) == 0` and `sin(pi/2) == 1` are
//! provable facts, not approximations.

use vstd::prelude::*;

use crate::fx::{
    fx_add, fx_div, fx_emod, fx_mul, fx_neg, fx_tdiv, spec_fx_add, spec_fx_div, spec_fx_mul,
    spec_fx_neg, FX_HALF_PI, FX_ONE, FX_PI, FX_TWO_PI,
};

verus! {

/// Pi / 4 in fixed-point radians.
pub const FX_QUARTER_PI: i64 = 823550;

/// Coefficient of the quadratic arc-tangent correction term.
pub const ATAN_K: i64 = 286261;

/// The rational sine approximation on `[0, FX_PI]`, rounded to nearest.
pub open spec fn spec_sin_half(x: int) -> int
    recommends
        0 <= x <= FX_PI,
{
    let u = x * (FX_PI - x);
    let den = 5 * FX_PI * FX_PI - 4 * u;
    (16 * u * FX_ONE + den / 2) / den
}

/// What the sine returns, for any fixed-point angle.
pub open spec fn spec_sin_fx(x: int) -> int {
    let y = x % (FX_TWO_PI as int);
    if y <= FX_PI {
        spec_sin_half(y)
    } else {
        -spec_sin_half(y - FX_PI)
    }
}

/// What the cosine returns: the sine a quarter turn ahead.
pub open spec fn spec_cos_fx(x: int) -> int {
    spec_sin_fx(x % (FX_TWO_PI as int) + FX_HALF_PI)
}

proof fn lemma_sin_half_bounds(x: int)
    requires
        0 <= x <= FX_PI,
    ensures
        0 <= x * (FX_PI - x),
        4 * (x * (FX_PI - x)) <= FX_PI * FX_PI - 1,
{
    let t = 2 * x - FX_PI;
    assert(t != 0);
    assert(0 <= x * (FX_PI - x) && 4 * (x * (FX_PI - x)) == FX_PI * FX_PI - t * t && t * t >= 1)
        by (nonlinear_arith)
        requires
            0 <= x <= FX_PI,
            t == 2 * x - FX_PI,
            t != 0,
    ;
}

/// The sine approximation on the first half turn.
fn sin_half(x: i64) -> (r: i64)
    requires
        0 <= x <= FX_PI,
    ensures
        r as int == spec_sin_half(x as int),
        0 <= r <= FX_ONE,
{
    proof {
        lemma_sin_half_bounds(x as int);
    }
    let xu = x as u128;
    let pi = FX_PI as u128;
    let u: u128 = xu * (pi - xu);
    proof {
        assert(u as int == (x as int) * (FX_PI - x as int));
        assert(4 * (u as int) <= FX_PI * FX_PI - 1);
        assert(16 * (u as int) * (FX_ONE as int) <= 0x100000000000000000) by (nonlinear_arith)
            requires
                0 <= u as int,
                4 * (u as int) <= FX_PI * FX_PI - 1,
                FX_PI as int == 3294199,
                FX_ONE as int == 0x100000,
        ;
    }
    let den: u128 = 5 * pi * pi - 4 * u;
    let num: u128 = 16 * u * (FX_ONE as u128) + den / 2;
    let q: u128 = num / den;
    proof {
        let ui = (x as int) * (FX_PI - x as int);
        let deni = 5 * FX_PI * FX_PI - 4 * ui;
        assert(16 * ui * FX_ONE <= deni * FX_ONE) by (nonlinear_arith)
            requires
                16 * ui <= deni,
                FX_ONE as int == 0x100000,
        ;
        vstd::arithmetic::div_mod::lemma_multiply_divide_lt(
            16 * ui * FX_ONE + deni / 2,
            deni,
            FX_ONE as int + 1,
        );
    }
    q as i64
}

/// Sine of a fixed-point angle in radians.
pub fn sin_fx(x: i64) -> (r: i64)
    ensures
        r as int == spec_sin_fx(x as int),
        -FX_ONE <= r <= FX_ONE,
{
    let y = fx_emod(x, FX_TWO_PI);
    if y <= FX_PI {
        sin_half(y)
    } else {
        let s = sin_half(y - FX_PI);
        -s
    }
}

/// Cosine of a fixed-point angle in radians.
pub fn cos_fx(x: i64) -> (r: i64)
    ensures
        r as int == spec_cos_fx(x as int),
        -FX_ONE <= r <= FX_ONE,
{
    let y = fx_emod(x, FX_TWO_PI);
    sin_fx(y + FX_HALF_PI)
}

/// The integer square root: the unique `r >= 0` with
/// `r * r <= n < (r + 1) * (r + 1)`.
pub open spec fn spec_isqrt(n: int) -> int
    recommends
        n >= 0,
{
    choose|r: int| 0 <= r && #[trigger] (r * r) <= n && n < (r + 1) * (r + 1)
}

/// The integer square root is pinned by its defining inequalities.
pub proof fn lemma_isqrt_unique(n: int, r: int)
    requires
        r >= 0,
        r * r <= n,
        n < (r + 1) * (r + 1),
    ensures
        spec_isqrt(n) == r,
{
    assert(0 <= r && #[trigger] (r * r) <= n && n < (r + 1) * (r + 1));
    let s = spec_isqrt(n);
    assert(0 <= s && s * s <= n && n < (s + 1) * (s + 1));
    assert(s == r) by (nonlinear_arith)
        requires
            r >= 0,
            s >= 0,
            r * r <= n,
            n < (r + 1) * (r + 1),
            s * s <= n,
            n < (s + 1) * (s + 1),
    ;
}

/// Integer square root of a wide nonnegative value.
fn isqrt_wide(n: u128) -> (r: u64)
    requires
        n < 0x100000000000000000000000000,
    ensures
        (r as int) * (r as int) <= n as int,
        ((r as int) + 1) * ((r as int) + 1) > n as int,
        r as int == spec_isqrt(n as int),
{
    let mut lo: u128 = 0;
    let mut hi: u128 = 0x10000000000000;
    proof {
        assert((0x10000000000000 as int) * (0x10000000000000 as int) > n as int);
    }
    while hi - lo > 1
        invariant
            0 <= lo < hi <= 0x10000000000000,
            (lo as int) * (lo as int) <= n as int,
            (n as int) < (hi as int) * (hi as int),
        decreases hi - lo,
    {
        let mid = lo + (hi - lo) / 2;
        assert(lo < mid < hi);
        proof {
            assert((mid as int) * (mid as int) <= 0x10000000000000 * 0x10000000000000)
                by (nonlinear_arith)
                requires
                    0 <= mid as int <= 0x10000000000000,
            ;
        }
        if mid * mid <= n {
            lo = mid;
        } else {
            hi = mid;
        }
    }
    proof {
        lemma_isqrt_unique(n as int, lo as int);
    }
    lo as u64
}

/// What the fixed-point square root returns.
pub open spec fn spec_sqrt_fx(a: int) -> int
    recommends
        a >= 0,
{
    spec_isqrt(a * FX_ONE)
}

/// Fixed-point square root, rounded down.
pub fn sqrt_fx(a: i64) -> (r: i64)
    requires
        a >= 0,
    ensures
        r as int == spec_sqrt_fx(a as int),
        r >= 0,
        (r as int) * (r as int) <= (a as int) * FX_ONE,
        ((r as int) + 1) * ((r as int) + 1) > (a as int) * FX_ONE,
{
    proof {
        assert((a as int) * (FX_ONE as int) <= 0x7fffffffffffffff * 0x100000) by (nonlinear_arith)
            requires
                0 <= a as int <= 0x7fffffffffffffff,
                FX_ONE as int == 0x100000,
        ;
    }
    let n: u128 = (a as u128) * (FX_ONE as u128);
    let r = isqrt_wide(n);
    proof {
        assert((r as int) * (r as int) <= n as int);
        assert(((r as int) + 1) * ((r as int) + 1) > n as int);
        assert(r as int <= 0x100000000000000) by (nonlinear_arith)
            requires
                (r as int) * (r as int) <= n as int,
                n as int <= 0x7fffffffffffffff * 0x100000,
                r as int >= 0,
        ;
    }
    r as i64
}

/// The quadratic arc-tangent approximation on `[0, FX_ONE]`.
pub open spec fn spec_atan_unit(z: int) -> int
    recommends
        0 <= z <= FX_ONE,
{
    spec_fx_add(
        spec_fx_mul(FX_QUARTER_PI as int, z),
        spec_fx_mul(spec_fx_mul(ATAN_K as int, z), FX_ONE - z),
    )
}

fn atan_unit(z: i64) -> (r: i64)
    requires
        0 <= z <= FX_ONE,
    ensures
        r as int == spec_atan_unit(z as int),
        0 <= r <= FX_HALF_PI,
{
    let a = fx_mul(FX_QUARTER_PI, z);
    let b = fx_mul(fx_mul(ATAN_K, z), FX_ONE - z);
    proof {
        assert(0 <= fx_tdiv(FX_QUARTER_PI * z, FX_ONE as int) <= FX_QUARTER_PI) by (nonlinear_arith)
            requires
                0 <= z <= FX_ONE,
                FX_QUARTER_PI as int == 823550,
                FX_ONE as int == 0x100000,
        ;
        assert(0 <= fx_tdiv(ATAN_K * z, FX_ONE as int) <= ATAN_K) by (nonlinear_arith)
            requires
                0 <= z <= FX_ONE,
                ATAN_K as int == 286261,
                FX_ONE as int == 0x100000,
        ;
        let kz = fx_tdiv(ATAN_K * z, FX_ONE as int);
        assert(0 <= fx_tdiv(kz * (FX_ONE - z), FX_ONE as int) <= ATAN_K) by (nonlinear_arith)
            requires
                0 <= kz <= ATAN_K,
                0 <= FX_ONE - z <= FX_ONE,
                ATAN_K as int == 286261,
                FX_ONE as int == 0x100000,
        ;
    }
    fx_add(a, b)
}

/// What `atan2` returns: the angle of the vector `(x, y)` in
/// `[-FX_PI, FX_PI]`, zero for the zero vector.
pub open spec fn spec_atan2_fx(y: int, x: int) -> int {
    let ay = if y < 0 {
        spec_fx_neg(y)
    } else {
        y
    };
    let ax = if x < 0 {
        spec_fx_neg(x)
    } else {
        x
    };
    if ay == 0 && ax == 0 {
        0
    } else {
        let t = if ay <= ax {
            spec_atan_unit(spec_fx_div(ay, ax))
        } else {
            FX_HALF_PI - spec_atan_unit(spec_fx_div(ax, ay))
        };
        if x >= 0 {
            if y >= 0 {
                t
            } else {
                -t
            }
        } else {
            if y >= 0 {
                FX_PI - t
            } else {
                -(FX_PI - t)
            }
        }
    }
}

/// Arc tangent of `y / x` using the signs of both arguments.
pub fn atan2_fx(y: i64, x: i64) -> (r: i64)
    ensures
        r as int == spec_atan2_fx(y as int, x as int),
        -FX_PI <= r <= FX_PI,
        y >= 0 && x >= 0 ==> r >= 0,
{
    let ay = if y < 0 {
        fx_neg(y)
    } else {
        y
    };
    let ax = if x < 0 {
        fx_neg(x)
    } else {
        x
    };
    if ay == 0 && ax == 0 {
        return 0;
    }
    let t = if ay <= ax {
        let z = fx_div(ay, ax);
        proof {
            assert(0 <= fx_tdiv(ay as int * FX_ONE, ax as int) <= FX_ONE) by (nonlinear_arith)
                requires
                    0 <= ay as int <= ax as int,
                    ax as int > 0,
                    FX_ONE as int == 0x100000,
            ;
        }
        atan_unit(z)
    } else {
        let z = fx_div(ax, ay);
        proof {
            assert(0 <= fx_tdiv(ax as int * FX_ONE, ay as int) <= FX_ONE) by (nonlinear_arith)
                requires
                    0 <= ax as int,
                    ax as int <= ay as int,
                    ay as int > 0,
                    FX_ONE as int == 0x100000,
            ;
        }
        FX_HALF_PI - atan_unit(z)
    };
    if x >= 0 {
        if y >= 0 {
            t
        } else {
            -t
        }
    } else {
        if y >= 0 {
            FX_PI - t
        } else {
            -(FX_PI - t)
        }
    }
}

/// What the arc sine returns: `atan2(y, sqrt(1 - y^2))`.
pub open spec fn spec_asin_fx(y: int) -> int
    recommends
        -FX_ONE <= y <= FX_ONE,
{
    spec_atan2_fx(y, spec_isqrt((FX_ONE - spec_fx_mul(y, y)) * FX_ONE))
}

/// Arc sine of a fixed-point value in `[-1, 1]`.
pub fn asin_fx(y: i64) -> (r: i64)
    requires
        -FX_ONE <= y <= FX_ONE,
    ensures
        r as int == spec_asin_fx(y as int),
        -FX_PI <= r <= FX_PI,
        y >= 0 ==> r >= 0,
{
    let yy = fx_mul(y, y);
    proof {
        assert(0 <= fx_tdiv((y as int) * (y as int), FX_ONE as int) <= FX_ONE) by (nonlinear_arith)
            requires
                -FX_ONE <= y as int <= FX_ONE,
                FX_ONE as int == 0x100000,
        ;
    }
    let c = FX_ONE - yy;
    let s = sqrt_fx(c);
    atan2_fx(y, s)
}

/// The half-turn sine approximation stays within the unit interval.
pub proof fn lemma_sin_half_range(y: int)
    requires
        0 <= y <= FX_PI,
    ensures
        0 <= spec_sin_half(y) <= FX_ONE,
{
    lemma_sin_half_bounds(y);
    let u = y * (FX_PI - y);
    let den = 5 * FX_PI * FX_PI - 4 * u;
    assert(16 * u * FX_ONE >= 0 && 16 * u * FX_ONE <= den * FX_ONE) by (nonlinear_arith)
        requires
            0 <= u,
            16 * u <= den,
            FX_ONE as int == 0x100000,
    ;
    vstd::arithmetic::div_mod::lemma_div_pos_is_pos(16 * u * FX_ONE + den / 2, den);
    vstd::arithmetic::div_mod::lemma_multiply_divide_lt(
        16 * u * FX_ONE + den / 2,
        den,
        FX_ONE as int + 1,
    );
}

/// The sine stays within the unit interval, at the spec level.
pub proof fn lemma_sin_fx_range(x: int)
    ensures
        -FX_ONE <= spec_sin_fx(x) <= FX_ONE,
{
    vstd::arithmetic::div_mod::lemma_mod_bound(x, FX_TWO_PI as int);
    let y = x % (FX_TWO_PI as int);
    if y <= FX_PI {
        lemma_sin_half_range(y);
    } else {
        lemma_sin_half_range(y - FX_PI);
    }
}

/// The sine of zero is exactly zero.
pub proof fn lemma_sin_fx_zero()
    ensures
        spec_sin_fx(0) == 0,
{
    assert((0 as int) % (FX_TWO_PI as int) == 0);
    assert(spec_sin_half(0) == 0) by {
        let u = 0 * (FX_PI - 0);
        assert(u == 0);
        let den = 5 * FX_PI * FX_PI - 4 * u;
        assert(3294199 * 3294199 == 10851747051601) by (nonlinear_arith);
        assert(den == 54258735258005);
        assert(16 * u * FX_ONE == 0);
        vstd::arithmetic::div_mod::lemma_basic_div(den / 2, den);
    }
}

/// The cosine of zero is exactly one.
pub proof fn lemma_cos_fx_zero()
    ensures
        spec_cos_fx(0) == FX_ONE,
{
    assert((0 as int) % (FX_TWO_PI as int) == 0);
    assert((FX_HALF_PI as int) % (FX_TWO_PI as int) == FX_HALF_PI) by {
        vstd::arithmetic::div_mod::lemma_small_mod(FX_HALF_PI as nat, FX_TWO_PI as nat);
    }
    assert(spec_sin_half(FX_HALF_PI as int) == FX_ONE) by {
        assert(1647099 * (3294199 - 1647099) == 2712936762900) by (nonlinear_arith);
        let u = (FX_HALF_PI as int) * (FX_PI - FX_HALF_PI as int);
        assert(u == 2712936762900);
        assert(3294199 * 3294199 == 10851747051601) by (nonlinear_arith);
        assert(FX_PI * FX_PI == 10851747051601);
        let den = 5 * FX_PI * FX_PI - 4 * u;
        assert(den == 43406988206405);
        assert(16 * 2712936762900 * 1048576 == 45515526065514086400) by (nonlinear_arith);
        let num = 16 * u * FX_ONE + den / 2;
        assert(num == 45515547769008189602);
        assert(1048576 * 43406988206405 == 45515526065519329280) by (nonlinear_arith);
        assert(num == (FX_ONE as int) * den + 21703488860322);
        vstd::arithmetic::div_mod::lemma_fundamental_div_mod_converse_div(
            num,
            den,
            FX_ONE as int,
            21703488860322,
        );
    }
}

/// The quadratic arc tangent of zero is exactly zero.
pub proof fn lemma_atan_unit_zero()
    ensures
        spec_atan_unit(0) == 0,
{
    crate::fx::lemma_fx_mul_zero(FX_QUARTER_PI as int);
    crate::fx::lemma_fx_mul_zero(ATAN_K as int);
    crate::fx::lemma_fx_mul_zero(FX_ONE as int);
}

/// A vector pointing along the nonnegative x axis has angle zero.
pub proof fn lemma_atan2_fx_zero(x: int)
    requires
        x >= 0,
    ensures
        spec_atan2_fx(0, x) == 0,
{
    if x != 0 {
        assert(0 * FX_ONE == 0);
        crate::fx::lemma_fx_tdiv_zero(x);
        assert(spec_fx_div(0, x) == 0);
        lemma_atan_unit_zero();
    }
}

/// The arc sine of zero is exactly zero.
pub proof fn lemma_asin_fx_zero()
    ensures
        spec_asin_fx(0) == 0,
{
    crate::fx::lemma_fx_mul_zero(0);
    assert(spec_fx_mul(0, 0) == 0);
    assert((FX_ONE - spec_fx_mul(0, 0)) * FX_ONE == 0x10000000000);
    lemma_isqrt_unique(0x10000000000, FX_ONE as int);
    lemma_atan2_fx_zero(FX_ONE as int);
}

} // verus!
