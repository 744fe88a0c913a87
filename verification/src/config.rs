//! The configuration of the strategy token: who mints, who collects fees,
//! how large the supply is and which fee rate transfers pay.

use vstd::prelude::*;
use crate::errors::CustomError;
use crate::ids::AccountId;
use crate::scale::MAX_FEE_BPS;

verus! {

/// Configuration of the strategy token. It is made once, by [`initialize`],
/// and no operation changes it afterwards.
#[derive(Clone, Copy, Debug, PartialEq, Eq)]
pub struct Config {
    pub mint: AccountId,
    pub fee_collector: AccountId,
    pub treasury: AccountId,
    pub total_supply: u64,
    /// Fee rate of transfers, in basis points.
    pub fee_percentage: u16,
    pub is_initialized: bool,
}

/// Model of a configuration: the same fields, with amounts as naturals.
pub struct ConfigView {
    pub mint: AccountId,
    pub fee_collector: AccountId,
    pub treasury: AccountId,
    pub total_supply: nat,
    pub fee_percentage: nat,
    pub is_initialized: bool,
}

impl View for Config {
    type V = ConfigView;

    open spec fn view(&self) -> ConfigView {
        ConfigView {
            mint: self.mint,
            fee_collector: self.fee_collector,
            treasury: self.treasury,
            total_supply: self.total_supply as nat,
            fee_percentage: self.fee_percentage as nat,
            is_initialized: self.is_initialized,
        }
    }
}

impl ConfigView {
    /// The fee rate is at most 10000 basis points.
    pub open spec fn wf(self) -> bool {
        self.fee_percentage <= MAX_FEE_BPS
    }
}

impl Config {
    /// The fee rate is at most 10000 basis points.
    pub open spec fn wf(&self) -> bool {
        self@.wf()
    }
}

/// Record of a configuration that was made.
#[derive(Clone, Copy, Debug, PartialEq, Eq)]
pub struct ConfigInitialized {
    pub mint: AccountId,
    pub total_supply: u64,
    pub fee_percentage: u16,
}

/// The parties named when a configuration is made.
#[derive(Clone, Copy, Debug, PartialEq, Eq)]
pub struct Initialize {
    pub mint: AccountId,
    pub fee_collector: AccountId,
    pub treasury: AccountId,
}

/// Makes the configuration of the strategy token.
///
/// A fee rate above 10000 basis points is refused with
/// `InvalidFeePercentage`; every other input gives an initialized,
/// well-formed configuration and the record of its making.
pub fn initialize(
    ctx: &Initialize,
    total_supply: u64,
    fee_percentage: u16,
) -> (result: Result<(Config, ConfigInitialized), CustomError>)
    ensures
        result is Ok <==> fee_percentage <= MAX_FEE_BPS,
        result matches Err(e) ==> e == CustomError::InvalidFeePercentage,
        result matches Ok((config, event)) ==> ({
            &&& config@ == (ConfigView {
                mint: ctx.mint,
                fee_collector: ctx.fee_collector,
                treasury: ctx.treasury,
                total_supply: total_supply as nat,
                fee_percentage: fee_percentage as nat,
                is_initialized: true,
            })
            &&& config.wf()
            &&& event == (ConfigInitialized { mint: ctx.mint, total_supply, fee_percentage })
        }),
{
    if fee_percentage > MAX_FEE_BPS {
        return Err(CustomError::InvalidFeePercentage);
    }
    let config = Config {
        mint: ctx.mint,
        fee_collector: ctx.fee_collector,
        treasury: ctx.treasury,
        total_supply,
        fee_percentage,
        is_initialized: true,
    };
    let event = ConfigInitialized { mint: config.mint, total_supply, fee_percentage };
    Ok((config, event))
}

} // verus!
