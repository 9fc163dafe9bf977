//! Fixed-point scalars.
//!
//! Every scalar quantity in this crate — world coordinates, radians, seconds
//! — is carried as an `i64` count of steps of `1 / FX_ONE`.  Multiplication
//! of two such scalars therefore divides by `FX_ONE` once, rounding toward
//! zero as the machine division does.

use vstd::arithmetic::div_mod::lemma_div_is_ordered;
use vstd::arithmetic::div_mod::lemma_div_multiples_vanish;
use vstd::arithmetic::div_mod::lemma_div_pos_is_pos;
use vstd::arithmetic::mul::lemma_mul_inequality;
use vstd::arithmetic::mul::lemma_mul_unary_negation;
use vstd::prelude::*;

verus! {

/// Number of fixed-point steps in one unit (one world unit, one radian, one
/// second).
pub const FX_ONE: i64 = 1_000_000;

/// Division rounding toward zero — the behaviour of `/` on the machine
/// integers, while `/` in specifications alone is Euclidean.
pub open spec fn div_trunc(a: int, b: int) -> int {
    if a >= 0 {
        a / b
    } else {
        -((-a) / b)
    }
}

/// The exact value of a fixed-point product: `a * b` carries the square of
/// the scale, so one division by `FX_ONE` brings it back.
pub open spec fn fx_mul_value(a: int, b: int) -> int {
    div_trunc(a * b, FX_ONE as int)
}

/// Fixed-point multiplication, `(a * b) / FX_ONE` rounded toward zero.
pub fn fx_mul(a: i64, b: i64) -> (r: i64)
    requires
        i64::MIN <= fx_mul_value(a as int, b as int) <= i64::MAX,
    ensures
        r as int == fx_mul_value(a as int, b as int),
{
    proof {
        assert((a as int) * (b as int) <= 0x4000_0000_0000_0000_0000_0000_0000_0000int
            && -0x4000_0000_0000_0000_0000_0000_0000_0000int <= (a as int) * (b as int))
            by (nonlinear_arith)
            requires
                i64::MIN <= a <= i64::MAX,
                i64::MIN <= b <= i64::MAX,
        ;
    }
    let wide: i128 = (a as i128) * (b as i128);
    let q: i128 = wide / (FX_ONE as i128);
    proof {
        assert(q == fx_mul_value(a as int, b as int));
    }
    q as i64
}

/// A factor between zero and `FX_ONE` scales a value toward zero: the product
/// keeps the sign and never grows in magnitude.
pub proof fn lemma_fx_mul_factor_bound(a: int, f: int)
    requires
        0 <= f <= FX_ONE as int,
    ensures
        a >= 0 ==> 0 <= fx_mul_value(a, f) <= a,
        a < 0 ==> a <= fx_mul_value(a, f) <= 0,
{
    let s = FX_ONE as int;
    if a >= 0 {
        lemma_mul_inequality(f, s, a);
        assert(a * f <= a * s);
        lemma_div_is_ordered(a * f, a * s, s);
        lemma_div_multiples_vanish(a, s);
        assert(a * s == s * a);
        assert((a * s) / s == a);
        lemma_div_pos_is_pos(a * f, s);
    } else {
        let n = -a;
        lemma_mul_inequality(f, s, n);
        assert(n * f <= n * s);
        lemma_div_is_ordered(n * f, n * s, s);
        lemma_div_multiples_vanish(n, s);
        assert(n * s == s * n);
        assert((n * s) / s == n);
        lemma_div_pos_is_pos(n * f, s);
        lemma_mul_unary_negation(a, f);
        assert(-(a * f) == n * f);
    }
}

/// Scaling by the full factor `FX_ONE` is exact: the value comes back
/// unchanged.
pub proof fn lemma_fx_mul_one(a: int)
    ensures
        fx_mul_value(a, FX_ONE as int) == a,
{
    let s = FX_ONE as int;
    if a >= 0 {
        lemma_div_multiples_vanish(a, s);
        assert(a * s == s * a);
    } else {
        lemma_div_multiples_vanish(-a, s);
        assert((-a) * s == s * (-a));
        assert(-(a * s) == (-a) * s);
    }
}

/// A zero operand gives an exactly zero product.
pub proof fn lemma_fx_mul_zero(a: int)
    ensures
        fx_mul_value(a, 0) == 0,
        fx_mul_value(0, a) == 0,
{
}

} // verus!
