//! Fixed-point arithmetic for the simulation core.
//!
//! A quantity of one unit (one pixel of distance, one second of time, one
//! unit of speed) is carried as `FX_ONE` in an `i64`. Multiplication of two
//! such quantities rescales the product back, truncating toward zero as the
//! host's floating-point-to-integer conversions would.

use vstd::prelude::*;

verus! {

/// One whole unit in the fixed-point scale.
pub const FX_ONE: i64 = 1_000_000;

/// Largest magnitude accepted by [`fx_mul`]: the rescaled product of two
/// operands within this bound always fits in an `i64`.
pub const FX_MUL_LIMIT: i64 = 3_000_000_000_000;

/// Division by the fixed-point scale, truncating toward zero.
pub open spec fn fx_scale_down(p: int) -> int {
    if p >= 0 {
        p / (FX_ONE as int)
    } else {
        -((-p) / (FX_ONE as int))
    }
}

/// The product of two fixed-point quantities, rescaled.
pub open spec fn fx_mul_spec(a: int, b: int) -> int {
    fx_scale_down(a * b)
}

/// Fixed-point multiplication: `(a * b) / FX_ONE`, truncating toward zero.
pub fn fx_mul(a: i64, b: i64) -> (r: i64)
    requires
        -FX_MUL_LIMIT <= a <= FX_MUL_LIMIT,
        -FX_MUL_LIMIT <= b <= FX_MUL_LIMIT,
    ensures
        r == fx_mul_spec(a as int, b as int),
{
    proof {
        lemma_fx_mul_spec_bound(a as int, b as int, FX_MUL_LIMIT as int, FX_MUL_LIMIT as int);
    }
    let p: i128 = (a as i128) * (b as i128);
    let q: i128 = p / 1_000_000i128;
    q as i64
}

/// A bound on each operand bounds the rescaled product.
pub proof fn lemma_fx_mul_spec_bound(a: int, b: int, am: int, bm: int)
    requires
        0 <= am,
        0 <= bm,
        -am <= a <= am,
        -bm <= b <= bm,
    ensures
        -(am * bm / (FX_ONE as int)) <= fx_mul_spec(a, b) <= am * bm / (FX_ONE as int),
{
    assert(-(am * bm) <= a * b <= am * bm) by (nonlinear_arith)
        requires
            0 <= am,
            0 <= bm,
            -am <= a <= am,
            -bm <= b <= bm,
    ;
    assert(0 <= am * bm) by (nonlinear_arith)
        requires
            0 <= am,
            0 <= bm,
    ;
    lemma_scale_down_bound(a * b, am * bm);
}

/// A bound on the dividend bounds the truncated quotient.
pub proof fn lemma_scale_down_bound(p: int, m: int)
    requires
        0 <= m,
        -m <= p <= m,
    ensures
        -(m / (FX_ONE as int)) <= fx_scale_down(p) <= m / (FX_ONE as int),
{
    if p >= 0 {
        vstd::arithmetic::div_mod::lemma_div_is_ordered(p, m, FX_ONE as int);
        vstd::arithmetic::div_mod::lemma_div_pos_is_pos(p, FX_ONE as int);
    } else {
        vstd::arithmetic::div_mod::lemma_div_is_ordered(-p, m, FX_ONE as int);
        vstd::arithmetic::div_mod::lemma_div_pos_is_pos(-p, FX_ONE as int);
    }
}

/// Multiplying by one whole unit is the identity, and by minus one whole
/// unit the negation.
pub proof fn lemma_fx_mul_one(a: int)
    ensures
        fx_mul_spec(a, FX_ONE as int) == a,
        fx_mul_spec(a, -(FX_ONE as int)) == -a,
{
    if a >= 0 {
        vstd::arithmetic::div_mod::lemma_div_multiples_vanish(a, FX_ONE as int);
    } else {
        assert(-(a * (FX_ONE as int)) == (-a) * (FX_ONE as int)) by (nonlinear_arith);
        vstd::arithmetic::div_mod::lemma_div_multiples_vanish(-a, FX_ONE as int);
    }
    assert(a * (-(FX_ONE as int)) == -(a * (FX_ONE as int))) by (nonlinear_arith);
}

/// Negating either operand negates the rescaled product.
pub proof fn lemma_fx_mul_neg(a: int, b: int)
    ensures
        fx_mul_spec(-a, b) == -fx_mul_spec(a, b),
        fx_mul_spec(a, -b) == -fx_mul_spec(a, b),
{
    assert((-a) * b == -(a * b)) by (nonlinear_arith);
    assert(a * (-b) == -(a * b)) by (nonlinear_arith);
}

} // verus!
