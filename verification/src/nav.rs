//! Net asset value: what one token is backed by, and the backing ratio of
//! the whole supply, both as floor quotients of the treasury value.

use vstd::prelude::*;
use crate::config::Config;
use crate::errors::CustomError;
use crate::fixed_point::{
    lemma_mul_div_floor_is_zero,
    lemma_mul_div_floor_monotonic,
    mul_div_floor,
    mul_div_u64,
};
use crate::scale::{BACKING_SCALE, NAV_SCALE};

verus! {

/// NAV per token, scaled by `NAV_SCALE`:
/// `floor(treasury_value_usd * 10^6 / total_supply)`, and zero without supply.
pub open spec fn nav_per_token_of(treasury_value_usd: nat, total_supply: nat) -> nat {
    if total_supply == 0 {
        0
    } else {
        mul_div_floor(treasury_value_usd, NAV_SCALE as nat, total_supply)
    }
}

/// Backing ratio in basis points:
/// `floor(treasury_value_usd * 10^4 / total_supply)`, and zero without supply.
pub open spec fn backing_ratio_of(treasury_value_usd: nat, total_supply: nat) -> nat {
    if total_supply == 0 {
        0
    } else {
        mul_div_floor(treasury_value_usd, BACKING_SCALE as nat, total_supply)
    }
}

/// The backing ratio never exceeds the NAV per token, so it fits wherever
/// the NAV per token fits.
pub proof fn lemma_backing_ratio_le_nav(treasury_value_usd: nat, total_supply: nat)
    ensures
        backing_ratio_of(treasury_value_usd, total_supply) <= nav_per_token_of(
            treasury_value_usd,
            total_supply,
        ),
{
    if total_supply > 0 {
        lemma_mul_div_floor_monotonic(
            treasury_value_usd,
            BACKING_SCALE as nat,
            treasury_value_usd,
            NAV_SCALE as nat,
            total_supply,
        );
    }
}

/// With a supply, the NAV per token is zero exactly when the scaled treasury
/// value stays below the supply.
pub proof fn lemma_nav_is_zero(treasury_value_usd: nat, total_supply: nat)
    requires
        total_supply > 0,
    ensures
        nav_per_token_of(treasury_value_usd, total_supply) == 0 <==> treasury_value_usd
            * NAV_SCALE < total_supply,
{
    lemma_mul_div_floor_is_zero(treasury_value_usd, NAV_SCALE as nat, total_supply);
}

/// With a supply that the scaled treasury value reaches, the NAV per token is
/// the floor quotient and is zero exactly when the treasury is worth nothing.
pub proof fn lemma_nav_zero_iff_no_value(treasury_value_usd: nat, total_supply: nat)
    requires
        total_supply > 0,
        treasury_value_usd == 0 || total_supply <= treasury_value_usd * NAV_SCALE,
    ensures
        nav_per_token_of(treasury_value_usd, total_supply) == (treasury_value_usd * NAV_SCALE)
            / (total_supply as int),
        nav_per_token_of(treasury_value_usd, total_supply) == 0 <==> treasury_value_usd == 0,
{
    lemma_nav_is_zero(treasury_value_usd, total_supply);
}

/// Computes `(nav_per_token, backing_ratio)` of a treasury worth
/// `treasury_value_usd` behind `total_supply` tokens.
///
/// Without supply both are zero. The computation is refused with
/// `MathOverflow` exactly when the NAV per token does not fit in 64 bits.
pub fn compute_nav(
    treasury_value_usd: u64,
    total_supply: u64,
) -> (result: Result<(u64, u64), CustomError>)
    ensures
        result is Ok <==> nav_per_token_of(treasury_value_usd as nat, total_supply as nat)
            <= u64::MAX,
        result matches Ok((nav_per_token, backing_ratio)) ==> ({
            &&& nav_per_token == nav_per_token_of(treasury_value_usd as nat, total_supply as nat)
            &&& backing_ratio == backing_ratio_of(treasury_value_usd as nat, total_supply as nat)
        }),
        result matches Err(e) ==> e == CustomError::MathOverflow,
        total_supply == 0 ==> result == Ok::<(u64, u64), CustomError>((0u64, 0u64)),
{
    if total_supply == 0 {
        return Ok((0, 0));
    }
    proof {
        lemma_backing_ratio_le_nav(treasury_value_usd as nat, total_supply as nat);
    }
    match mul_div_u64(treasury_value_usd, NAV_SCALE, total_supply) {
        Some(nav_per_token) => match mul_div_u64(treasury_value_usd, BACKING_SCALE, total_supply) {
            Some(backing_ratio) => Ok((nav_per_token, backing_ratio)),
            // Never taken: the backing ratio fits wherever the NAV per token fits.
            None => Err(CustomError::MathOverflow),
        },
        None => Err(CustomError::MathOverflow),
    }
}

/// The last NAV that was computed, and when.
#[derive(Clone, Copy, Debug, PartialEq, Eq)]
pub struct NAVState {
    pub treasury_value_usd: u64,
    /// Scaled by `NAV_SCALE`.
    pub nav_per_token: u64,
    /// In basis points.
    pub backing_ratio: u64,
    pub last_update: i64,
}

/// Model of a NAV state: amounts as naturals, the time as an integer.
pub struct NAVStateView {
    pub treasury_value_usd: nat,
    pub nav_per_token: nat,
    pub backing_ratio: nat,
    pub last_update: int,
}

impl View for NAVState {
    type V = NAVStateView;

    open spec fn view(&self) -> NAVStateView {
        NAVStateView {
            treasury_value_usd: self.treasury_value_usd as nat,
            nav_per_token: self.nav_per_token as nat,
            backing_ratio: self.backing_ratio as nat,
            last_update: self.last_update as int,
        }
    }
}

impl NAVStateView {
    /// The state that an update at time `now` leaves for a treasury worth
    /// `treasury_value_usd` behind `total_supply` tokens.
    pub open spec fn computed(treasury_value_usd: nat, total_supply: nat, now: int) -> NAVStateView {
        NAVStateView {
            treasury_value_usd,
            nav_per_token: nav_per_token_of(treasury_value_usd, total_supply),
            backing_ratio: backing_ratio_of(treasury_value_usd, total_supply),
            last_update: now,
        }
    }
}

/// Record of a NAV update.
#[derive(Clone, Copy, Debug, PartialEq, Eq)]
pub struct NAVUpdated {
    pub treasury_value_usd: u64,
    pub nav_per_token: u64,
    pub backing_ratio: u64,
    pub timestamp: i64,
}

/// Whether an update made the NAV state or replaced an earlier one.
#[derive(Clone, Copy, Debug, PartialEq, Eq, Structural)]
pub enum NavUpsert {
    Created,
    Updated,
}

/// The configuration and the NAV state, if there is one yet, that a NAV
/// update works on.
#[derive(Clone, Copy, Debug, PartialEq, Eq)]
pub struct UpdateNAV {
    pub config: Config,
    pub nav_state: Option<NAVState>,
}

/// Recomputes the NAV for a treasury worth `treasury_value_usd` and stores it
/// with the time `now`, making the NAV state if there was none.
///
/// Refused with `NotInitialized` without an initialized configuration, else
/// with `MathOverflow` exactly when the NAV per token does not fit in 64
/// bits. A refused update changes nothing.
pub fn update_nav(
    ctx: &mut UpdateNAV,
    treasury_value_usd: u64,
    now: i64,
) -> (result: Result<(NavUpsert, NAVUpdated), CustomError>)
    ensures
        final(ctx).config == old(ctx).config,
        result is Ok <==> old(ctx).config.is_initialized && nav_per_token_of(
            treasury_value_usd as nat,
            old(ctx).config.total_supply as nat,
        ) <= u64::MAX,
        result matches Err(e) ==> ({
            &&& *final(ctx) == *old(ctx)
            &&& e == (if !old(ctx).config.is_initialized {
                CustomError::NotInitialized
            } else {
                CustomError::MathOverflow
            })
        }),
        result matches Ok((upsert, event)) ==> ({
            &&& final(ctx).nav_state matches Some(state)
            &&& state@ == NAVStateView::computed(
                treasury_value_usd as nat,
                old(ctx).config.total_supply as nat,
                now as int,
            )
            &&& upsert == (if old(ctx).nav_state is None {
                NavUpsert::Created
            } else {
                NavUpsert::Updated
            })
            &&& event == (NAVUpdated {
                treasury_value_usd,
                nav_per_token: state.nav_per_token,
                backing_ratio: state.backing_ratio,
                timestamp: now,
            })
        }),
{
    if !ctx.config.is_initialized {
        return Err(CustomError::NotInitialized);
    }
    match compute_nav(treasury_value_usd, ctx.config.total_supply) {
        Ok((nav_per_token, backing_ratio)) => {
            let upsert = match ctx.nav_state {
                None => NavUpsert::Created,
                Some(_) => NavUpsert::Updated,
            };
            ctx.nav_state = Some(
                NAVState { treasury_value_usd, nav_per_token, backing_ratio, last_update: now },
            );
            Ok(
                (
                    upsert,
                    NAVUpdated { treasury_value_usd, nav_per_token, backing_ratio, timestamp: now },
                ),
            )
        },
        Err(e) => Err(e),
    }
}

} // verus!
