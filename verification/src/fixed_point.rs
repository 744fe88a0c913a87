//! Floor of a product over a divisor, on 64-bit operands through a 128-bit
//! intermediate. Fees, NAV and redemptions are all instances of it.

use vstd::prelude::*;
use vstd::arithmetic::div_mod::{
    lemma_basic_div,
    lemma_div_by_self,
    lemma_div_is_ordered,
    lemma_div_multiples_vanish,
};
use vstd::arithmetic::mul::{lemma_mul_is_commutative, lemma_mul_upper_bound};

verus! {

/// `floor(a * b / d)` over the naturals. Meaningful for `d > 0`.
pub open spec fn mul_div_floor(a: nat, b: nat, d: nat) -> nat {
    (a * b) / d
}

/// The quotient does not decrease when either factor grows.
pub proof fn lemma_mul_div_floor_monotonic(a1: nat, b1: nat, a2: nat, b2: nat, d: nat)
    requires
        a1 <= a2,
        b1 <= b2,
        d > 0,
    ensures
        mul_div_floor(a1, b1, d) <= mul_div_floor(a2, b2, d),
{
    lemma_mul_upper_bound(a1 as int, a2 as int, b1 as int, b2 as int);
    lemma_div_is_ordered((a1 * b1) as int, (a2 * b2) as int, d as int);
}

/// A factor that does not exceed the divisor cannot raise the other factor.
pub proof fn lemma_mul_div_floor_le_factor(a: nat, b: nat, d: nat)
    requires
        b <= d,
        d > 0,
    ensures
        mul_div_floor(a, b, d) <= a,
{
    lemma_mul_upper_bound(a as int, a as int, b as int, d as int);
    lemma_div_is_ordered((a * b) as int, (a * d) as int, d as int);
    lemma_mul_is_commutative(a as int, d as int);
    lemma_div_multiples_vanish(a as int, d as int);
}

/// The quotient is zero exactly when the product stays below the divisor.
pub proof fn lemma_mul_div_floor_is_zero(a: nat, b: nat, d: nat)
    requires
        d > 0,
    ensures
        mul_div_floor(a, b, d) == 0 <==> a * b < d,
{
    if a * b < d {
        lemma_basic_div((a * b) as int, d as int);
    } else {
        lemma_div_by_self(d as int);
        lemma_div_is_ordered(d as int, (a * b) as int, d as int);
    }
}

/// Computes `floor(a * b / d)` without losing the high bits of the product.
/// Gives `None` when the divisor is zero or the quotient does not fit in 64
/// bits.
pub fn mul_div_u64(a: u64, b: u64, d: u64) -> (q: Option<u64>)
    ensures
        q is Some <==> d > 0 && mul_div_floor(a as nat, b as nat, d as nat) <= u64::MAX,
        q matches Some(v) ==> v == mul_div_floor(a as nat, b as nat, d as nat),
{
    if d == 0 {
        return None;
    }
    proof {
        lemma_mul_upper_bound(
            a as int,
            0xffff_ffff_ffff_ffff,
            b as int,
            0xffff_ffff_ffff_ffff,
        );
        assert(0xffff_ffff_ffff_ffff * 0xffff_ffff_ffff_ffff <= u128::MAX) by (nonlinear_arith);
    }
    let product: u128 = (a as u128) * (b as u128);
    let quotient: u128 = product / (d as u128);
    if quotient > u64::MAX as u128 {
        None
    } else {
        Some(quotient as u64)
    }
}

} // verus!
