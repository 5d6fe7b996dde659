//! Rounded integer division: the quantization primitive behind the prescale
//! computation, the duty-cycle conversion and the motion-step arithmetic.
//!
//! `round_div(a, b)` is `a / b` rounded to the nearest integer, halves away
//! from zero, for a positive divisor `b`.

use vstd::arithmetic::div_mod::{
    lemma_div_is_ordered, lemma_div_multiples_vanish_fancy, lemma_div_pos_is_pos,
    lemma_fundamental_div_mod, lemma_mod_division_less_than_divisor,
};
use vstd::math::abs;
use vstd::prelude::*;

verus! {

/// `a / b` rounded to the nearest integer, halves away from zero.
/// Meaningful only for `b > 0`.
pub open spec fn round_div(a: int, b: int) -> int
    recommends
        b > 0,
{
    if a >= 0 {
        (2 * a + b) / (2 * b)
    } else {
        -((2 * (-a) + b) / (2 * b))
    }
}

/// Rounded division of non-negative machine integers.
pub fn round_div_u64(a: u64, b: u64) -> (r: u64)
    requires
        1 <= b,
        2 * b <= u64::MAX,
        2 * a + b <= u64::MAX,
    ensures
        r == round_div(a as int, b as int),
{
    (2 * a + b) / (2 * b)
}

/// Rounded division of a signed dividend by a positive divisor.
pub fn round_div_i64(a: i64, b: i64) -> (r: i64)
    requires
        1 <= b,
        2 * b <= i64::MAX,
        2 * abs(a as int) + b <= i64::MAX,
    ensures
        r == round_div(a as int, b as int),
{
    if a >= 0 {
        (2 * a + b) / (2 * b)
    } else {
        -((2 * (-a) + b) / (2 * b))
    }
}

/// Rounding an exact multiple of the divisor recovers the factor.
pub proof fn lemma_round_div_exact(k: int, b: int)
    requires
        b > 0,
    ensures
        round_div(k * b, b) == k,
{
    if k >= 0 {
        assert(2 * (k * b) + b == (2 * b) * k + b) by (nonlinear_arith);
        lemma_div_multiples_vanish_fancy(k, b, 2 * b);
    } else {
        assert(k * b < 0) by (nonlinear_arith)
            requires k < 0 && b > 0;
        assert(2 * (-(k * b)) + b == (2 * b) * (-k) + b) by (nonlinear_arith);
        lemma_div_multiples_vanish_fancy(-k, b, 2 * b);
    }
}

/// `round_div` is monotone in the dividend.
pub proof fn lemma_round_div_mono(a1: int, a2: int, b: int)
    requires
        b > 0,
        a1 <= a2,
    ensures
        round_div(a1, b) <= round_div(a2, b),
{
    if a1 >= 0 {
        lemma_div_is_ordered(2 * a1 + b, 2 * a2 + b, 2 * b);
    } else if a2 < 0 {
        lemma_div_is_ordered(2 * (-a2) + b, 2 * (-a1) + b, 2 * b);
    } else {
        lemma_div_pos_is_pos(2 * (-a1) + b, 2 * b);
        lemma_div_pos_is_pos(2 * a2 + b, 2 * b);
    }
}

/// The rounding error is at most half the divisor:
/// `|round_div(a, b) * b - a| <= b / 2`, stated without its own division.
pub proof fn lemma_round_div_error(a: int, b: int)
    requires
        b > 0,
    ensures
        2 * abs(round_div(a, b) * b - a) <= b,
{
    if a >= 0 {
        let q = (2 * a + b) / (2 * b);
        let r = (2 * a + b) % (2 * b);
        lemma_fundamental_div_mod(2 * a + b, 2 * b);
        lemma_mod_division_less_than_divisor(2 * a + b, 2 * b);
        assert(2 * (q * b - a) == b - r) by (nonlinear_arith)
            requires 2 * a + b == (2 * b) * q + r;
    } else {
        let a2 = -a;
        let q = (2 * a2 + b) / (2 * b);
        let r = (2 * a2 + b) % (2 * b);
        lemma_fundamental_div_mod(2 * a2 + b, 2 * b);
        lemma_mod_division_less_than_divisor(2 * a2 + b, 2 * b);
        assert(2 * ((-q) * b - a) == -(b - r)) by (nonlinear_arith)
            requires 2 * a2 + b == (2 * b) * q + r && a2 == -a;
    }
}

/// A dividend within `k` multiples of the divisor rounds to within `k`.
pub proof fn lemma_round_div_bound(a: int, b: int, k: int)
    requires
        b > 0,
        k >= 0,
        abs(a) <= k * b,
    ensures
        abs(round_div(a, b)) <= k,
{
    assert(-k * b == -(k * b)) by (nonlinear_arith);
    lemma_round_div_exact(k, b);
    lemma_round_div_exact(-k, b);
    lemma_round_div_mono(a, k * b, b);
    lemma_round_div_mono(-k * b, a, b);
}

/// A non-negative dividend rounds to a non-negative quotient.
pub proof fn lemma_round_div_nonneg(a: int, b: int)
    requires
        b > 0,
        a >= 0,
    ensures
        round_div(a, b) >= 0,
{
    lemma_round_div_zero(b);
    lemma_round_div_mono(0, a, b);
}

/// A dividend smaller than half the divisor rounds to zero.
pub proof fn lemma_round_div_small(a: int, b: int)
    requires
        b > 0,
        0 <= a,
        2 * a < b,
    ensures
        round_div(a, b) == 0,
{
    vstd::arithmetic::div_mod::lemma_basic_div(2 * a + b, 2 * b);
}

/// Zero divides to zero.
pub proof fn lemma_round_div_zero(b: int)
    requires
        b > 0,
    ensures
        round_div(0, b) == 0,
{
    lemma_round_div_exact(0, b);
    assert(0 * b == 0) by (nonlinear_arith);
}

} // verus!
