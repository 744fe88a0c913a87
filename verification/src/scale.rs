//! Fixed-point scales shared by the fee, NAV and redemption arithmetic.

use vstd::prelude::*;

verus! {

/// Denominator of a fee rate given in basis points.
pub const FEE_DENOMINATOR: u64 = 10_000;

/// Largest fee rate, in basis points, that a configuration may carry.
pub const MAX_FEE_BPS: u16 = 10_000;

/// Scale of the NAV per token: a NAV of one unit is stored as `NAV_SCALE`.
pub const NAV_SCALE: u64 = 1_000_000;

/// Scale of the backing ratio: full backing is stored as `BACKING_SCALE`.
pub const BACKING_SCALE: u64 = 10_000;

} // verus!
