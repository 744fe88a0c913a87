//! Redemption at NAV: the cash that a number of tokens releases.

use vstd::prelude::*;
use crate::errors::TreasuryError;
use crate::fixed_point::{lemma_mul_div_floor_monotonic, mul_div_floor, mul_div_u64};
use crate::scale::NAV_SCALE;

verus! {

/// The cash released for `token_amount` tokens at `nav_per_token`:
/// `floor(token_amount * nav_per_token / 10^6)`.
pub open spec fn usdc_release_of(token_amount: nat, nav_per_token: nat) -> nat {
    mul_div_floor(token_amount, nav_per_token, NAV_SCALE as nat)
}

/// More tokens, or a higher NAV per token, never release less cash.
pub proof fn lemma_usdc_release_monotonic(
    token_amount: nat,
    nav_per_token: nat,
    more_tokens: nat,
    higher_nav: nat,
)
    requires
        token_amount <= more_tokens,
        nav_per_token <= higher_nav,
    ensures
        usdc_release_of(token_amount, nav_per_token) <= usdc_release_of(more_tokens, higher_nav),
{
    lemma_mul_div_floor_monotonic(
        token_amount,
        nav_per_token,
        more_tokens,
        higher_nav,
        NAV_SCALE as nat,
    );
}

/// Computes the cash released for `token_amount` tokens at `nav_per_token`.
/// Refused with `MathOverflow` exactly when it does not fit in 64 bits.
pub fn compute_usdc_release(
    token_amount: u64,
    nav_per_token: u64,
) -> (result: Result<u64, TreasuryError>)
    ensures
        result is Ok <==> usdc_release_of(token_amount as nat, nav_per_token as nat) <= u64::MAX,
        result matches Ok(usdc_release) ==> usdc_release == usdc_release_of(
            token_amount as nat,
            nav_per_token as nat,
        ),
        result matches Err(e) ==> e == TreasuryError::MathOverflow,
{
    match mul_div_u64(token_amount, nav_per_token, NAV_SCALE) {
        Some(usdc_release) => Ok(usdc_release),
        None => Err(TreasuryError::MathOverflow),
    }
}

} // verus!
