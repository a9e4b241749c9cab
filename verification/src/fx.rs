//! Fixed-point scalars.
//!
//! All continuous quantities in this library (angles in radians, lengths,
//! scale factors, moments in time) are `i64` values holding the quantity
//! multiplied by [`FX_ONE`] = 2^20.  Addition, subtraction, multiplication
//! and division saturate at the `i64` bounds; multiplication and division
//! truncate the fractional remainder toward zero.  Every operation is
//! specified exactly, so callers can reason about results bit for bit.

use vstd::prelude::*;

verus! {

/// The fixed-point unit: 2^20.
pub const FX_ONE: i64 = 1048576;

/// Pi in fixed-point radians.
pub const FX_PI: i64 = 3294199;

/// Two pi in fixed-point radians; kept equal to `2 * FX_PI` so that
/// angle identities hold exactly.
pub const FX_TWO_PI: i64 = 6588398;

/// Pi / 2 in fixed-point radians; `FX_PI` is odd, so this is the
/// closest value below the exact half.
pub const FX_HALF_PI: i64 = 1647099;

/// Absolute value of a mathematical integer.
pub open spec fn fx_abs(x: int) -> int {
    if x < 0 {
        -x
    } else {
        x
    }
}

/// Clamp a mathematical integer to the `i64` range.
pub open spec fn fx_sat(x: int) -> int {
    if x > i64::MAX as int {
        i64::MAX as int
    } else if x < i64::MIN as int {
        i64::MIN as int
    } else {
        x
    }
}

/// Division truncating toward zero, on mathematical integers.
pub open spec fn fx_tdiv(p: int, d: int) -> int
    recommends
        d != 0,
{
    if (p < 0) == (d < 0) {
        fx_abs(p) / fx_abs(d)
    } else {
        -(fx_abs(p) / fx_abs(d))
    }
}

/// What fixed-point addition returns.
pub open spec fn spec_fx_add(a: int, b: int) -> int {
    fx_sat(a + b)
}

/// What fixed-point subtraction returns.
pub open spec fn spec_fx_sub(a: int, b: int) -> int {
    fx_sat(a - b)
}

/// What fixed-point negation returns.
pub open spec fn spec_fx_neg(a: int) -> int {
    fx_sat(-a)
}

/// What fixed-point multiplication returns.
pub open spec fn spec_fx_mul(a: int, b: int) -> int {
    fx_sat(fx_tdiv(a * b, FX_ONE as int))
}

/// What fixed-point division returns.
pub open spec fn spec_fx_div(a: int, b: int) -> int
    recommends
        b != 0,
{
    fx_sat(fx_tdiv(a * FX_ONE, b))
}

/// Clamp a wide intermediate result to `i64`.
pub fn fx_from_wide(w: i128) -> (r: i64)
    ensures
        r as int == fx_sat(w as int),
{
    if w > i64::MAX as i128 {
        i64::MAX
    } else if w < i64::MIN as i128 {
        i64::MIN
    } else {
        w as i64
    }
}

/// Division of a wide value truncating toward zero.
fn wide_tdiv(p: i128, d: i128) -> (q: i128)
    requires
        p > i128::MIN,
        d > 0,
    ensures
        q as int == fx_tdiv(p as int, d as int),
{
    if p >= 0 {
        let m: u128 = p as u128;
        let q: u128 = m / (d as u128);
        assert(q <= m);
        q as i128
    } else {
        let m: u128 = (-p) as u128;
        let q: u128 = m / (d as u128);
        assert(q <= m);
        -(q as i128)
    }
}

/// Saturating fixed-point addition.
pub fn fx_add(a: i64, b: i64) -> (r: i64)
    ensures
        r as int == spec_fx_add(a as int, b as int),
{
    fx_from_wide(a as i128 + b as i128)
}

/// Saturating fixed-point subtraction.
pub fn fx_sub(a: i64, b: i64) -> (r: i64)
    ensures
        r as int == spec_fx_sub(a as int, b as int),
{
    fx_from_wide(a as i128 - b as i128)
}

/// Saturating fixed-point negation.
pub fn fx_neg(a: i64) -> (r: i64)
    ensures
        r as int == spec_fx_neg(a as int),
{
    fx_from_wide(-(a as i128))
}

/// Saturating fixed-point multiplication, truncating toward zero.
pub fn fx_mul(a: i64, b: i64) -> (r: i64)
    ensures
        r as int == spec_fx_mul(a as int, b as int),
{
    proof {
        assert(fx_abs((a as int) * (b as int)) <= 0x40000000000000000000000000000000)
            by (nonlinear_arith)
            requires
                -0x8000000000000000 <= a as int <= 0x7fffffffffffffff,
                -0x8000000000000000 <= b as int <= 0x7fffffffffffffff,
        ;
    }
    let p: i128 = (a as i128) * (b as i128);
    let q: i128 = wide_tdiv(p, FX_ONE as i128);
    fx_from_wide(q)
}

/// Saturating fixed-point division, truncating toward zero.
pub fn fx_div(a: i64, b: i64) -> (r: i64)
    requires
        b != 0,
    ensures
        r as int == spec_fx_div(a as int, b as int),
{
    proof {
        assert(fx_abs((a as int) * (FX_ONE as int)) <= 0x80000000000000000000000)
            by (nonlinear_arith)
            requires
                -0x8000000000000000 <= a as int <= 0x7fffffffffffffff,
                FX_ONE as int == 0x100000,
        ;
    }
    let p: i128 = (a as i128) * (FX_ONE as i128);
    if b >= 0 {
        let q: i128 = wide_tdiv(p, b as i128);
        fx_from_wide(q)
    } else {
        let q: i128 = wide_tdiv(p, -(b as i128));
        assert(fx_tdiv(p as int, -(b as int)) == -fx_tdiv(p as int, b as int));
        fx_from_wide(-q)
    }
}

/// Euclidean remainder: the result is in `[0, d)`.
pub fn fx_emod(a: i64, d: i64) -> (r: i64)
    requires
        d > 0,
    ensures
        r as int == (a as int) % (d as int),
        0 <= r < d,
{
    if a >= 0 {
        let m: u64 = (a as u64) % (d as u64);
        m as i64
    } else {
        let m: u128 = ((-(a as i128)) as u128) % (d as u128);
        proof {
            let aa = a as int;
            let dd = d as int;
            vstd::arithmetic::div_mod::lemma_fundamental_div_mod(-aa, dd);
            vstd::arithmetic::div_mod::lemma_mod_bound(-aa, dd);
            let qm = (-aa) / dd;
            let mm = (-aa) % dd;
            assert(m as int == mm);
            if mm == 0 {
                assert(aa == (-qm) * dd + 0) by (nonlinear_arith)
                    requires
                        -aa == dd * qm + mm,
                        mm == 0,
                ;
                vstd::arithmetic::div_mod::lemma_fundamental_div_mod_converse_mod(aa, dd, -qm, 0);
            } else {
                assert(aa == (-qm - 1) * dd + (dd - mm)) by (nonlinear_arith)
                    requires
                        -aa == dd * qm + mm,
                ;
                vstd::arithmetic::div_mod::lemma_fundamental_div_mod_converse_mod(
                    aa,
                    dd,
                    -qm - 1,
                    dd - mm,
                );
            }
        }
        if m == 0 {
            0
        } else {
            d - (m as i64)
        }
    }
}

/// Truncating division of zero is zero.
pub proof fn lemma_fx_tdiv_zero(d: int)
    requires
        d != 0,
    ensures
        fx_tdiv(0, d) == 0,
{
    vstd::arithmetic::div_mod::lemma_div_of0(fx_abs(d));
}

/// Multiplying by zero gives zero.
pub proof fn lemma_fx_mul_zero(a: int)
    ensures
        spec_fx_mul(a, 0) == 0,
        spec_fx_mul(0, a) == 0,
{
    assert(a * 0 == 0) by (nonlinear_arith);
    assert(0 * a == 0) by (nonlinear_arith);
    lemma_fx_tdiv_zero(FX_ONE as int);
}

/// Multiplying an `i64`-ranged value by the unit keeps it unchanged.
pub proof fn lemma_fx_mul_one(a: int)
    requires
        i64::MIN as int <= a <= i64::MAX as int,
    ensures
        spec_fx_mul(a, FX_ONE as int) == a,
{
    if a >= 0 {
        vstd::arithmetic::div_mod::lemma_div_multiples_vanish(a, FX_ONE as int);
        assert(a * FX_ONE == FX_ONE * a) by (nonlinear_arith);
    } else {
        vstd::arithmetic::div_mod::lemma_div_multiples_vanish(-a, FX_ONE as int);
        assert(-(a * FX_ONE) == FX_ONE * (-a)) by (nonlinear_arith);
    }
}

/// A product of unit-bounded factors stays unit-bounded.
pub proof fn lemma_fx_mul_unit_range(a: int, b: int)
    requires
        -FX_ONE <= a <= FX_ONE,
        -FX_ONE <= b <= FX_ONE,
    ensures
        -FX_ONE <= spec_fx_mul(a, b) <= FX_ONE,
{
    assert(fx_abs(a * b) <= FX_ONE * FX_ONE) by (nonlinear_arith)
        requires
            -FX_ONE <= a <= FX_ONE,
            -FX_ONE <= b <= FX_ONE,
    ;
    vstd::arithmetic::div_mod::lemma_div_is_ordered(
        fx_abs(a * b),
        FX_ONE * FX_ONE,
        FX_ONE as int,
    );
    vstd::arithmetic::div_mod::lemma_div_pos_is_pos(fx_abs(a * b), FX_ONE as int);
}

/// A product of nonnegative factors is nonnegative.
pub proof fn lemma_fx_mul_nonneg(a: int, b: int)
    requires
        a >= 0,
        b >= 0,
    ensures
        spec_fx_mul(a, b) >= 0,
{
    assert(a * b >= 0) by (nonlinear_arith)
        requires
            a >= 0,
            b >= 0,
    ;
    vstd::arithmetic::div_mod::lemma_div_pos_is_pos(a * b, FX_ONE as int);
}

/// A square is nonnegative.
pub proof fn lemma_fx_square_nonneg(a: int)
    ensures
        spec_fx_mul(a, a) >= 0,
{
    if a >= 0 {
        lemma_fx_mul_nonneg(a, a);
    } else {
        assert(a * a == (-a) * (-a)) by (nonlinear_arith);
        lemma_fx_mul_nonneg(-a, -a);
    }
}

} // verus!
