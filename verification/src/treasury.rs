//! The treasury ledger: fees flow in, purchases of exposure assets flow out,
//! and redemptions are settled at NAV.
//!
//! Every operation checks all of its conditions before it changes anything,
//! so a refused operation leaves the ledger as it was.

use vstd::prelude::*;
use crate::errors::TreasuryError;
use crate::holdings::{TreasuryHolding, TreasuryHoldingView};
use crate::ids::AccountId;
use crate::redemption::{compute_usdc_release, usdc_release_of};
use crate::strategy_rule::StrategyRule;
use crate::token::{Plan, TokenBurn, TokenRequest, TokenTransfer};

verus! {

/// The treasury: its vault, and the cash that fees have accumulated in it
/// and that purchases have not spent yet.
#[derive(Clone, Copy, Debug, PartialEq, Eq)]
pub struct Treasury {
    pub usdc_vault: AccountId,
    pub vault_authority: AccountId,
    pub total_usdc_accumulated: u64,
    pub rebalance_frequency: u64,
    pub min_purchase_amount: u64,
    pub is_initialized: bool,
}

/// Model of a treasury: the same fields, with amounts as naturals.
pub struct TreasuryView {
    pub usdc_vault: AccountId,
    pub vault_authority: AccountId,
    pub total_usdc_accumulated: nat,
    pub rebalance_frequency: nat,
    pub min_purchase_amount: nat,
    pub is_initialized: bool,
}

impl View for Treasury {
    type V = TreasuryView;

    open spec fn view(&self) -> TreasuryView {
        TreasuryView {
            usdc_vault: self.usdc_vault,
            vault_authority: self.vault_authority,
            total_usdc_accumulated: self.total_usdc_accumulated as nat,
            rebalance_frequency: self.rebalance_frequency as nat,
            min_purchase_amount: self.min_purchase_amount as nat,
            is_initialized: self.is_initialized,
        }
    }
}

impl TreasuryView {
    /// The treasury after `amount` was added to its accumulated cash.
    pub open spec fn credited(self, amount: nat) -> TreasuryView {
        TreasuryView { total_usdc_accumulated: self.total_usdc_accumulated + amount, ..self }
    }

    /// The treasury after `amount` was taken out of its accumulated cash.
    pub open spec fn debited(self, amount: nat) -> TreasuryView
        recommends
            amount <= self.total_usdc_accumulated,
    {
        TreasuryView {
            total_usdc_accumulated: (self.total_usdc_accumulated - amount) as nat,
            ..self
        }
    }
}

/// Record of a treasury that was made.
#[derive(Clone, Copy, Debug, PartialEq, Eq)]
pub struct TreasuryInitialized {
    pub usdc_vault: AccountId,
    pub rebalance_frequency: u64,
    pub min_purchase_amount: u64,
}

/// Record of a deposit of fees.
#[derive(Clone, Copy, Debug, PartialEq, Eq)]
pub struct FeesDeposited {
    pub amount: u64,
    /// The accumulated cash after the deposit.
    pub total_accumulated: u64,
    pub timestamp: i64,
}

/// Record of a purchase of an exposure asset.
#[derive(Clone, Copy, Debug, PartialEq, Eq)]
pub struct StrategyPurchaseExecuted {
    pub exposure_asset: AccountId,
    pub amount_usdc: u64,
    /// The accumulated cash after the purchase.
    pub remaining_usdc: u64,
    pub timestamp: i64,
}

/// Record of a redemption.
#[derive(Clone, Copy, Debug, PartialEq, Eq)]
pub struct TokenRedeemed {
    pub redeemer: AccountId,
    pub token_amount: u64,
    pub usdc_released: u64,
    pub timestamp: i64,
}

/// The vault and its authority, named when a treasury is made.
#[derive(Clone, Copy, Debug, PartialEq, Eq)]
pub struct InitializeTreasury {
    pub usdc_vault: AccountId,
    pub vault_authority: AccountId,
}

/// The treasury and the token accounts of a deposit of fees.
#[derive(Clone, Copy, Debug, PartialEq, Eq)]
pub struct DepositFees {
    pub treasury: Treasury,
    pub from_usdc_account: AccountId,
    pub usdc_vault: AccountId,
    /// The owner of `from_usdc_account`, who signs the transfer.
    pub authority: AccountId,
}

/// The treasury and the strategy rule of a purchase.
#[derive(Clone, Copy, Debug, PartialEq, Eq)]
pub struct ExecuteStrategyPurchase {
    pub treasury: Treasury,
    pub strategy_rule: StrategyRule,
}

/// The treasury and the token accounts of a redemption.
#[derive(Clone, Copy, Debug, PartialEq, Eq)]
pub struct RedeemTokens {
    pub treasury: Treasury,
    pub token_mint: AccountId,
    pub redeemer_token_account: AccountId,
    pub usdc_vault: AccountId,
    pub redeemer_usdc_account: AccountId,
    pub vault_authority: AccountId,
    pub redeemer: AccountId,
}

/// Makes a treasury over the given vault: initialized, with nothing
/// accumulated.
pub fn initialize_treasury(
    ctx: &InitializeTreasury,
    rebalance_frequency: u64,
    min_purchase_amount: u64,
) -> (made: (Treasury, TreasuryInitialized))
    ensures
        made.0@ == (TreasuryView {
            usdc_vault: ctx.usdc_vault,
            vault_authority: ctx.vault_authority,
            total_usdc_accumulated: 0,
            rebalance_frequency: rebalance_frequency as nat,
            min_purchase_amount: min_purchase_amount as nat,
            is_initialized: true,
        }),
        made.1 == (TreasuryInitialized {
            usdc_vault: ctx.usdc_vault,
            rebalance_frequency,
            min_purchase_amount,
        }),
{
    let treasury = Treasury {
        usdc_vault: ctx.usdc_vault,
        vault_authority: ctx.vault_authority,
        total_usdc_accumulated: 0,
        rebalance_frequency,
        min_purchase_amount,
        is_initialized: true,
    };
    let event = TreasuryInitialized {
        usdc_vault: treasury.usdc_vault,
        rebalance_frequency,
        min_purchase_amount,
    };
    (treasury, event)
}

/// Books a deposit of `amount` and asks for the transfer that carries it into
/// the vault.
///
/// Refused with `NotInitialized` on a treasury that is not initialized, else
/// with `ZeroAmount` for an amount of zero, else with `MathOverflow` when the
/// accumulated cash would not fit in 64 bits. A refused deposit changes
/// nothing.
pub fn deposit_fees(
    ctx: &mut DepositFees,
    amount: u64,
    now: i64,
) -> (result: Result<Plan<FeesDeposited>, TreasuryError>)
    ensures
        result is Ok <==> ({
            &&& old(ctx).treasury.is_initialized
            &&& amount > 0
            &&& old(ctx).treasury.total_usdc_accumulated + amount <= u64::MAX
        }),
        result matches Err(e) ==> ({
            &&& *final(ctx) == *old(ctx)
            &&& e == (if !old(ctx).treasury.is_initialized {
                TreasuryError::NotInitialized
            } else if amount == 0 {
                TreasuryError::ZeroAmount
            } else {
                TreasuryError::MathOverflow
            })
        }),
        result matches Ok(plan) ==> ({
            &&& final(ctx).treasury@ == old(ctx).treasury@.credited(amount as nat)
            &&& *final(ctx) == (DepositFees { treasury: final(ctx).treasury, ..*old(ctx) })
            &&& plan.requests@ == seq![
                TokenRequest::Transfer(
                    TokenTransfer {
                        from: old(ctx).from_usdc_account,
                        to: old(ctx).usdc_vault,
                        authority: old(ctx).authority,
                        amount,
                    },
                ),
            ]
            &&& plan.event == (FeesDeposited {
                amount,
                total_accumulated: final(ctx).treasury.total_usdc_accumulated,
                timestamp: now,
            })
        }),
{
    if !ctx.treasury.is_initialized {
        return Err(TreasuryError::NotInitialized);
    }
    if amount == 0 {
        return Err(TreasuryError::ZeroAmount);
    }
    match ctx.treasury.total_usdc_accumulated.checked_add(amount) {
        Some(total_accumulated) => {
            ctx.treasury.total_usdc_accumulated = total_accumulated;
            let mut requests: Vec<TokenRequest> = Vec::new();
            requests.push(
                TokenRequest::Transfer(
                    TokenTransfer {
                        from: ctx.from_usdc_account,
                        to: ctx.usdc_vault,
                        authority: ctx.authority,
                        amount,
                    },
                ),
            );
            Ok(Plan { requests, event: FeesDeposited { amount, total_accumulated, timestamp: now } })
        },
        None => Err(TreasuryError::MathOverflow),
    }
}

/// Spends `amount_usdc` of the accumulated cash on `exposure_asset` and opens
/// the holding that records the purchase.
///
/// Refused with `NotInitialized` on a treasury that is not initialized, else
/// with `BelowMinimumPurchase` below the treasury's minimum, else with
/// `InsufficientFunds` above the accumulated cash, else with
/// `UnapprovedAsset` unless the strategy rule approves the asset. A refused
/// purchase changes nothing.
pub fn execute_strategy_purchase(
    ctx: &mut ExecuteStrategyPurchase,
    exposure_asset: AccountId,
    amount_usdc: u64,
    now: i64,
) -> (result: Result<(TreasuryHolding, StrategyPurchaseExecuted), TreasuryError>)
    ensures
        final(ctx).strategy_rule == old(ctx).strategy_rule,
        result is Ok <==> ({
            &&& old(ctx).treasury.is_initialized
            &&& amount_usdc >= old(ctx).treasury.min_purchase_amount
            &&& amount_usdc <= old(ctx).treasury.total_usdc_accumulated
            &&& old(ctx).strategy_rule@.approves(exposure_asset)
        }),
        result matches Err(e) ==> ({
            &&& *final(ctx) == *old(ctx)
            &&& e == (if !old(ctx).treasury.is_initialized {
                TreasuryError::NotInitialized
            } else if amount_usdc < old(ctx).treasury.min_purchase_amount {
                TreasuryError::BelowMinimumPurchase
            } else if amount_usdc > old(ctx).treasury.total_usdc_accumulated {
                TreasuryError::InsufficientFunds
            } else {
                TreasuryError::UnapprovedAsset
            })
        }),
        result matches Ok((holding, event)) ==> ({
            &&& final(ctx).treasury@ == old(ctx).treasury@.debited(amount_usdc as nat)
            &&& holding@ == TreasuryHoldingView::opened(
                exposure_asset,
                amount_usdc as nat,
                now as int,
            )
            &&& old(ctx).strategy_rule@.approves(holding@.asset)
            &&& event == (StrategyPurchaseExecuted {
                exposure_asset,
                amount_usdc,
                remaining_usdc: final(ctx).treasury.total_usdc_accumulated,
                timestamp: now,
            })
        }),
{
    if !ctx.treasury.is_initialized {
        return Err(TreasuryError::NotInitialized);
    }
    if amount_usdc < ctx.treasury.min_purchase_amount {
        return Err(TreasuryError::BelowMinimumPurchase);
    }
    if ctx.treasury.total_usdc_accumulated < amount_usdc {
        return Err(TreasuryError::InsufficientFunds);
    }
    if !ctx.strategy_rule.is_approved(&exposure_asset) {
        return Err(TreasuryError::UnapprovedAsset);
    }
    let remaining_usdc: u64 = ctx.treasury.total_usdc_accumulated - amount_usdc;
    ctx.treasury.total_usdc_accumulated = remaining_usdc;
    let holding = TreasuryHolding {
        asset: exposure_asset,
        amount_usdc_spent: amount_usdc,
        current_usdc_value: 0,
        asset_amount: 0,
        purchase_timestamp: now,
        last_update: 0,
    };
    let event = StrategyPurchaseExecuted {
        exposure_asset,
        amount_usdc,
        remaining_usdc,
        timestamp: now,
    };
    Ok((holding, event))
}

/// Settles the redemption of `token_amount` tokens at `nav_per_token`: asks
/// for the burn of the tokens, then for the release of their cash value from
/// the vault to the redeemer. The ledger itself books nothing, and whether
/// the vault holds that much is for the token ledger to say.
///
/// Refused with `NotInitialized` on a treasury that is not initialized, else
/// with `ZeroAmount` for no tokens, else with `MathOverflow` exactly when the
/// cash value does not fit in 64 bits.
pub fn redeem_tokens(
    ctx: &RedeemTokens,
    token_amount: u64,
    nav_per_token: u64,
    now: i64,
) -> (result: Result<Plan<TokenRedeemed>, TreasuryError>)
    ensures
        result is Ok <==> ({
            &&& ctx.treasury.is_initialized
            &&& token_amount > 0
            &&& usdc_release_of(token_amount as nat, nav_per_token as nat) <= u64::MAX
        }),
        result matches Err(e) ==> e == (if !ctx.treasury.is_initialized {
            TreasuryError::NotInitialized
        } else if token_amount == 0 {
            TreasuryError::ZeroAmount
        } else {
            TreasuryError::MathOverflow
        }),
        result matches Ok(plan) ==> ({
            &&& plan.event.redeemer == ctx.redeemer
            &&& plan.event.token_amount == token_amount
            &&& plan.event.usdc_released == usdc_release_of(
                token_amount as nat,
                nav_per_token as nat,
            )
            &&& plan.event.timestamp == now
            &&& plan.requests@ == seq![
                TokenRequest::Burn(
                    TokenBurn {
                        mint: ctx.token_mint,
                        from: ctx.redeemer_token_account,
                        authority: ctx.redeemer,
                        amount: token_amount,
                    },
                ),
                TokenRequest::Transfer(
                    TokenTransfer {
                        from: ctx.usdc_vault,
                        to: ctx.redeemer_usdc_account,
                        authority: ctx.vault_authority,
                        amount: plan.event.usdc_released,
                    },
                ),
            ]
        }),
{
    if !ctx.treasury.is_initialized {
        return Err(TreasuryError::NotInitialized);
    }
    if token_amount == 0 {
        return Err(TreasuryError::ZeroAmount);
    }
    match compute_usdc_release(token_amount, nav_per_token) {
        Ok(usdc_released) => {
            let mut requests: Vec<TokenRequest> = Vec::new();
            requests.push(
                TokenRequest::Burn(
                    TokenBurn {
                        mint: ctx.token_mint,
                        from: ctx.redeemer_token_account,
                        authority: ctx.redeemer,
                        amount: token_amount,
                    },
                ),
            );
            requests.push(
                TokenRequest::Transfer(
                    TokenTransfer {
                        from: ctx.usdc_vault,
                        to: ctx.redeemer_usdc_account,
                        authority: ctx.vault_authority,
                        amount: usdc_released,
                    },
                ),
            );
            Ok(
                Plan {
                    requests,
                    event: TokenRedeemed {
                        redeemer: ctx.redeemer,
                        token_amount,
                        usdc_released,
                        timestamp: now,
                    },
                },
            )
        },
        Err(e) => Err(e),
    }
}

} // verus!
