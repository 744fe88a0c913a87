//! Reasons for which an operation of the engine is refused. A refused
//! operation leaves every record as it was.

use vstd::prelude::*;

verus! {

/// Refusals of the token configuration, fee and NAV operations.
#[derive(Clone, Copy, Debug, PartialEq, Eq, Structural)]
pub enum CustomError {
    /// The configuration has not been initialized.
    NotInitialized,
    /// A result does not fit the 64 bits it is stored in.
    MathOverflow,
    /// The fee rate exceeds 10000 basis points.
    InvalidFeePercentage,
    /// The balance does not cover the amount.
    InsufficientBalance,
}

/// Refusals of the treasury operations.
#[derive(Clone, Copy, Debug, PartialEq, Eq, Structural)]
pub enum TreasuryError {
    /// The treasury has not been initialized.
    NotInitialized,
    /// A result does not fit the 64 bits it is stored in.
    MathOverflow,
    /// The amount is zero.
    ZeroAmount,
    /// The purchase is smaller than the treasury's minimum.
    BelowMinimumPurchase,
    /// The treasury has accumulated less than the purchase costs.
    InsufficientFunds,
    /// The strategy rule does not approve the asset.
    UnapprovedAsset,
}

} // verus!
