//! Transfer fees: a rate in basis points splits a gross amount into the fee
//! and the net amount that reaches the recipient.

use vstd::prelude::*;
use crate::config::Config;
use crate::errors::CustomError;
use crate::fixed_point::{lemma_mul_div_floor_le_factor, mul_div_floor, mul_div_u64};
use crate::ids::AccountId;
use crate::scale::{FEE_DENOMINATOR, MAX_FEE_BPS};
use crate::token::{Plan, TokenRequest, TokenTransfer};

verus! {

/// The fee on `amount` at `fee_bps` basis points: `floor(amount * fee_bps / 10000)`.
pub open spec fn fee_amount(amount: nat, fee_bps: nat) -> nat {
    mul_div_floor(amount, fee_bps, FEE_DENOMINATOR as nat)
}

/// What is left of `amount` once the fee is taken.
pub open spec fn net_amount(amount: nat, fee_bps: nat) -> int {
    amount - fee_amount(amount, fee_bps)
}

/// At a rate of at most 10000 basis points the fee never exceeds the amount,
/// and fee and net amount add up to the amount exactly.
pub proof fn lemma_fee_split_is_exact(amount: nat, fee_bps: nat)
    requires
        fee_bps <= MAX_FEE_BPS,
    ensures
        fee_amount(amount, fee_bps) <= amount,
        net_amount(amount, fee_bps) >= 0,
        fee_amount(amount, fee_bps) + net_amount(amount, fee_bps) == amount,
{
    lemma_mul_div_floor_le_factor(amount, fee_bps, FEE_DENOMINATOR as nat);
}

/// Splits `amount` into `(fee, net)` at `fee_bps` basis points.
///
/// The split is refused with `MathOverflow` exactly when the fee would exceed
/// the amount, which no rate up to 10000 basis points can cause.
pub fn compute_fee(amount: u64, fee_bps: u16) -> (result: Result<(u64, u64), CustomError>)
    ensures
        result is Ok <==> fee_amount(amount as nat, fee_bps as nat) <= amount,
        fee_bps <= MAX_FEE_BPS ==> result is Ok,
        result matches Ok((fee, net)) ==> ({
            &&& fee == fee_amount(amount as nat, fee_bps as nat)
            &&& net == net_amount(amount as nat, fee_bps as nat)
            &&& fee + net == amount
            &&& fee <= amount
        }),
        result matches Err(e) ==> e == CustomError::MathOverflow,
{
    proof {
        if fee_bps <= MAX_FEE_BPS {
            lemma_fee_split_is_exact(amount as nat, fee_bps as nat);
        }
    }
    match mul_div_u64(amount, fee_bps as u64, FEE_DENOMINATOR) {
        Some(fee) => match amount.checked_sub(fee) {
            Some(net) => Ok((fee, net)),
            None => Err(CustomError::MathOverflow),
        },
        // A fee beyond 64 bits is a fee beyond the amount.
        None => Err(CustomError::MathOverflow),
    }
}

/// Record of a transfer that paid its fee.
#[derive(Clone, Copy, Debug, PartialEq, Eq)]
pub struct FeesCollected {
    /// The gross amount that the sender gave up.
    pub amount: u64,
    pub fee: u64,
    /// The net amount that reached the recipient.
    pub transfer_amount: u64,
    pub timestamp: i64,
}

/// The configuration and the token accounts of a transfer that pays a fee.
#[derive(Clone, Copy, Debug, PartialEq, Eq)]
pub struct TransferWithFee {
    pub config: Config,
    pub sender_token_account: AccountId,
    pub recipient_token_account: AccountId,
    pub treasury_token_account: AccountId,
    /// The owner of the sender's token account, who signs both transfers.
    pub sender: AccountId,
}

/// Splits a transfer of `amount` at the configured rate and asks for two
/// transfers out of the sender's token account: the net amount to the
/// recipient, then the fee to the treasury.
///
/// Refused with `NotInitialized` without an initialized configuration, else
/// with `MathOverflow` exactly when the fee would exceed the amount. Under a
/// well-formed configuration the second cannot happen.
pub fn transfer_with_fee(
    ctx: &TransferWithFee,
    amount: u64,
    now: i64,
) -> (result: Result<Plan<FeesCollected>, CustomError>)
    ensures
        result is Ok <==> ctx.config.is_initialized && fee_amount(
            amount as nat,
            ctx.config.fee_percentage as nat,
        ) <= amount,
        ctx.config.is_initialized && ctx.config.wf() ==> result is Ok,
        result matches Err(e) ==> e == (if !ctx.config.is_initialized {
            CustomError::NotInitialized
        } else {
            CustomError::MathOverflow
        }),
        result matches Ok(plan) ==> ({
            &&& plan.event.amount == amount
            &&& plan.event.fee == fee_amount(amount as nat, ctx.config.fee_percentage as nat)
            &&& plan.event.transfer_amount == net_amount(
                amount as nat,
                ctx.config.fee_percentage as nat,
            )
            &&& plan.event.timestamp == now
            &&& plan.requests@ == seq![
                TokenRequest::Transfer(
                    TokenTransfer {
                        from: ctx.sender_token_account,
                        to: ctx.recipient_token_account,
                        authority: ctx.sender,
                        amount: plan.event.transfer_amount,
                    },
                ),
                TokenRequest::Transfer(
                    TokenTransfer {
                        from: ctx.sender_token_account,
                        to: ctx.treasury_token_account,
                        authority: ctx.sender,
                        amount: plan.event.fee,
                    },
                ),
            ]
        }),
{
    if !ctx.config.is_initialized {
        return Err(CustomError::NotInitialized);
    }
    match compute_fee(amount, ctx.config.fee_percentage) {
        Ok((fee, transfer_amount)) => {
            let mut requests: Vec<TokenRequest> = Vec::new();
            requests.push(
                TokenRequest::Transfer(
                    TokenTransfer {
                        from: ctx.sender_token_account,
                        to: ctx.recipient_token_account,
                        authority: ctx.sender,
                        amount: transfer_amount,
                    },
                ),
            );
            requests.push(
                TokenRequest::Transfer(
                    TokenTransfer {
                        from: ctx.sender_token_account,
                        to: ctx.treasury_token_account,
                        authority: ctx.sender,
                        amount: fee,
                    },
                ),
            );
            Ok(Plan { requests, event: FeesCollected { amount, fee, transfer_amount, timestamp: now } })
        },
        Err(e) => Err(e),
    }
}

} // verus!
