//! Holdings: one record per purchase of an exposure asset, revalued as
//! prices arrive.

use vstd::prelude::*;
use crate::ids::AccountId;

verus! {

/// What the treasury holds from one purchase.
#[derive(Clone, Copy, Debug, PartialEq, Eq)]
pub struct TreasuryHolding {
    pub asset: AccountId,
    pub amount_usdc_spent: u64,
    pub current_usdc_value: u64,
    /// Units of the asset; zero until a valuation feed reports them.
    pub asset_amount: u64,
    pub purchase_timestamp: i64,
    pub last_update: i64,
}

/// Model of a holding: amounts as naturals, times as integers.
pub struct TreasuryHoldingView {
    pub asset: AccountId,
    pub amount_usdc_spent: nat,
    pub current_usdc_value: nat,
    pub asset_amount: nat,
    pub purchase_timestamp: int,
    pub last_update: int,
}

impl View for TreasuryHolding {
    type V = TreasuryHoldingView;

    open spec fn view(&self) -> TreasuryHoldingView {
        TreasuryHoldingView {
            asset: self.asset,
            amount_usdc_spent: self.amount_usdc_spent as nat,
            current_usdc_value: self.current_usdc_value as nat,
            asset_amount: self.asset_amount as nat,
            purchase_timestamp: self.purchase_timestamp as int,
            last_update: self.last_update as int,
        }
    }
}

impl TreasuryHoldingView {
    /// The holding that a purchase of `asset` for `amount_usdc` at time `now`
    /// opens: nothing valued and no units reported yet.
    pub open spec fn opened(asset: AccountId, amount_usdc: nat, now: int) -> TreasuryHoldingView {
        TreasuryHoldingView {
            asset,
            amount_usdc_spent: amount_usdc,
            current_usdc_value: 0,
            asset_amount: 0,
            purchase_timestamp: now,
            last_update: 0,
        }
    }

    /// The holding after its value was set to `current_usdc_value` at time
    /// `now`.
    pub open spec fn revalued(self, current_usdc_value: nat, now: int) -> TreasuryHoldingView {
        TreasuryHoldingView { current_usdc_value, last_update: now, ..self }
    }
}

/// Setting the same value again leaves the value as it is; of the whole
/// holding only the time of the last update follows the later call.
pub proof fn lemma_revaluation_is_idempotent(
    holding: TreasuryHoldingView,
    current_usdc_value: nat,
    first: int,
    second: int,
)
    ensures
        holding.revalued(current_usdc_value, first).revalued(
            current_usdc_value,
            second,
        ).current_usdc_value == holding.revalued(current_usdc_value, first).current_usdc_value,
        holding.revalued(current_usdc_value, first).revalued(current_usdc_value, second)
            == holding.revalued(current_usdc_value, second),
        holding.revalued(current_usdc_value, first).revalued(current_usdc_value, first)
            == holding.revalued(current_usdc_value, first),
{
}

/// Record of a revaluation.
#[derive(Clone, Copy, Debug, PartialEq, Eq)]
pub struct HoldingUpdated {
    pub asset: AccountId,
    pub current_usdc_value: u64,
    pub timestamp: i64,
}

/// The holding that a revaluation works on.
#[derive(Clone, Copy, Debug, PartialEq, Eq)]
pub struct UpdateHoldingValue {
    pub holding: TreasuryHolding,
}

/// Sets the value of the holding to `current_usdc_value` and the time of its
/// last update to `now`. Nothing else of the holding changes, and no value is
/// refused.
pub fn update_holding_value(
    ctx: &mut UpdateHoldingValue,
    current_usdc_value: u64,
    now: i64,
) -> (event: HoldingUpdated)
    ensures
        final(ctx).holding@ == old(ctx).holding@.revalued(current_usdc_value as nat, now as int),
        event == (HoldingUpdated {
            asset: old(ctx).holding.asset,
            current_usdc_value,
            timestamp: now,
        }),
{
    ctx.holding.current_usdc_value = current_usdc_value;
    ctx.holding.last_update = now;
    HoldingUpdated { asset: ctx.holding.asset, current_usdc_value, timestamp: now }
}

} // verus!
