//! Exact multiply-then-divide on 128-bit amounts.
//!
//! Forwarded amounts are a fraction of a held balance: `amount * atomics / scale`
//! with the fraction given as `atomics / scale`. The product can exceed 128 bits,
//! so the computation splits the amount into 64-bit halves. The result rounds
//! toward zero (floor, as both operands are unsigned).

use vstd::prelude::*;
use vstd::arithmetic::div_mod::{
    lemma_div_is_ordered, lemma_div_multiples_vanish, lemma_fundamental_div_mod,
    lemma_fundamental_div_mod_converse_div, lemma_multiply_divide_lt,
};
use vstd::arithmetic::mul::{
    lemma_mul_inequality, lemma_mul_is_commutative, lemma_mul_upper_bound,
};

verus! {

/// 2^64, the radix used to split a 128-bit operand into halves.
pub const SPLIT_RADIX: u128 = 0x1_0000_0000_0000_0000;

/// The exact quotient `a * b / d`, rounded toward zero.
pub open spec fn muldiv_floor(a: int, b: int, d: int) -> int {
    (a * b) / d
}

/// Computes `a * b / d` rounded toward zero, for `b <= d` (a fraction of `a`
/// no greater than the whole), without overflowing the intermediate product.
pub fn mul_div_floor(a: u128, b: u128, d: u128) -> (r: u128)
    requires
        0 < d < 0x8000_0000_0000_0000_0000_0000_0000_0000u128 / SPLIT_RADIX,
        b <= d,
    ensures
        r == muldiv_floor(a as int, b as int, d as int),
        r <= a,
{
    let ah: u128 = a / SPLIT_RADIX;
    let al: u128 = a % SPLIT_RADIX;
    proof {
        lemma_fundamental_div_mod(a as int, SPLIT_RADIX as int);
        lemma_multiply_divide_lt(a as int, SPLIT_RADIX as int, SPLIT_RADIX as int);
        lemma_mul_upper_bound(ah as int, SPLIT_RADIX - 1, b as int, d as int);
    }
    let hi: u128 = ah * b;
    let q1: u128 = hi / d;
    let r1: u128 = hi % d;
    proof {
        lemma_fundamental_div_mod(hi as int, d as int);
        lemma_mul_upper_bound(r1 as int, d - 1, SPLIT_RADIX as int, SPLIT_RADIX as int);
        lemma_mul_upper_bound(al as int, SPLIT_RADIX - 1, b as int, d as int);
    }
    let lo: u128 = r1 * SPLIT_RADIX + al * b;
    let q2: u128 = lo / d;
    proof {
        lemma_fundamental_div_mod(lo as int, d as int);
        let av = a as int;
        let bv = b as int;
        let dv = d as int;
        let s = SPLIT_RADIX as int;
        let ahv = ah as int;
        let alv = al as int;
        let hiv = hi as int;
        let q1v = q1 as int;
        let r1v = r1 as int;
        let lov = lo as int;
        let q2v = q2 as int;
        let r2v = lov % dv;
        assert(av == s * ahv + alv);
        assert(hiv == dv * q1v + r1v);
        assert(lov == dv * q2v + r2v);
        assert(0 <= r2v < dv);
        assert(av * bv == (s * q1v + q2v) * dv + r2v) by (nonlinear_arith)
            requires
                av == s * ahv + alv,
                hiv == ahv * bv,
                hiv == dv * q1v + r1v,
                lov == r1v * s + alv * bv,
                lov == dv * q2v + r2v;
        lemma_fundamental_div_mod_converse_div(av * bv, dv, s * q1v + q2v, r2v);
        assert(av * bv <= av * dv) by {
            lemma_mul_inequality(bv, dv, av);
            lemma_mul_is_commutative(bv, av);
            lemma_mul_is_commutative(dv, av);
        };
        lemma_div_is_ordered(av * bv, av * dv, dv);
        lemma_div_multiples_vanish(av, dv);
        lemma_mul_is_commutative(av, dv);
        assert((av * bv) / dv <= av);
    }
    q1 * SPLIT_RADIX + q2
}

/// The quotient of a fraction of `a` never exceeds `a` itself.
pub proof fn lemma_muldiv_floor_le(a: int, b: int, d: int)
    requires
        0 <= a,
        0 <= b <= d,
        0 < d,
    ensures
        0 <= muldiv_floor(a, b, d) <= a,
{
    assert(a * b <= a * d) by { lemma_mul_inequality(b, d, a); lemma_mul_is_commutative(b, a); lemma_mul_is_commutative(d, a) };
    assert(0 <= a * b) by (nonlinear_arith)
        requires 0 <= a, 0 <= b;
    lemma_div_is_ordered(a * b, a * d, d);
    lemma_div_multiples_vanish(a, d);
    lemma_mul_is_commutative(a, d);
    assert(0 <= (a * b) / d) by (nonlinear_arith)
        requires 0 <= a * b, 0 < d;
}

} // verus!
