use nasdaq_strategy::errors::TreasuryError;
use nasdaq_strategy::ids::AccountId;
use nasdaq_strategy::redemption::compute_usdc_release;
use nasdaq_strategy::token::{Settlement, TokenBurn, TokenRequest, TokenTransfer};
use nasdaq_strategy::treasury::{redeem_tokens, RedeemTokens, TokenRedeemed, Treasury};

fn key(tag: u8) -> AccountId {
    AccountId::new([tag; 32])
}

fn redemption_from(treasury: Treasury) -> RedeemTokens {
    RedeemTokens {
        treasury,
        token_mint: key(20),
        redeemer_token_account: key(21),
        usdc_vault: key(22),
        redeemer_usdc_account: key(23),
        vault_authority: key(24),
        redeemer: key(25),
    }
}

fn open_treasury() -> Treasury {
    Treasury {
        usdc_vault: key(22),
        vault_authority: key(24),
        total_usdc_accumulated: 0,
        rebalance_frequency: 86_400,
        min_purchase_amount: 100,
        is_initialized: true,
    }
}

#[test]
fn release_for_500_tokens_at_1_2() {
    assert_eq!(compute_usdc_release(500, 1_200_000), Ok(600));
}

#[test]
fn release_is_rounded_down() {
    assert_eq!(compute_usdc_release(1, 999_999), Ok(0));
    assert_eq!(compute_usdc_release(1, 1_000_000), Ok(1));
    assert_eq!(compute_usdc_release(3, 1_333_333), Ok(3));
    assert_eq!(compute_usdc_release(3, 1_333_334), Ok(4));
    assert_eq!(compute_usdc_release(7, 142_857), Ok(0));
    assert_eq!(compute_usdc_release(7, 142_858), Ok(1));
}

#[test]
fn release_at_no_nav_or_for_no_tokens_is_nothing() {
    assert_eq!(compute_usdc_release(500, 0), Ok(0));
    assert_eq!(compute_usdc_release(0, 1_200_000), Ok(0));
    assert_eq!(compute_usdc_release(u64::MAX, 0), Ok(0));
}

#[test]
fn release_uses_the_wide_product() {
    assert_eq!(compute_usdc_release(u64::MAX, 1_000_000), Ok(u64::MAX));
    assert_eq!(compute_usdc_release(u64::MAX, 500_000), Ok(u64::MAX / 2));
    assert_eq!(compute_usdc_release(1 << 40, 1 << 40), Ok(1_208_925_819_614_629_174));
}

#[test]
fn release_beyond_64_bits_is_math_overflow() {
    assert_eq!(compute_usdc_release(u64::MAX, 1_000_001), Err(TreasuryError::MathOverflow));
    assert_eq!(compute_usdc_release(u64::MAX, u64::MAX), Err(TreasuryError::MathOverflow));
}

#[test]
fn release_does_not_fall_when_tokens_or_nav_rise() {
    let tokens = [0u64, 1, 2, 499, 500, 501, 1 << 20, 1 << 40];
    let navs = [0u64, 1, 999_999, 1_000_000, 1_200_000, 1_200_001, 1 << 23];
    for (i, &token_amount) in tokens.iter().enumerate() {
        for (j, &nav_per_token) in navs.iter().enumerate() {
            let release = compute_usdc_release(token_amount, nav_per_token).unwrap();
            for &more_tokens in &tokens[i..] {
                for &higher_nav in &navs[j..] {
                    assert!(release <= compute_usdc_release(more_tokens, higher_nav).unwrap());
                }
            }
        }
    }
}

#[test]
fn redeem_asks_for_burn_and_release() {
    let ctx = redemption_from(open_treasury());
    let plan = redeem_tokens(&ctx, 500, 1_200_000, 1_700_000_000).unwrap();
    assert_eq!(
        plan.requests,
        vec![
            TokenRequest::Burn(TokenBurn {
                mint: key(20),
                from: key(21),
                authority: key(25),
                amount: 500,
            }),
            TokenRequest::Transfer(TokenTransfer {
                from: key(22),
                to: key(23),
                authority: key(24),
                amount: 600,
            }),
        ]
    );
    assert_eq!(
        plan.event,
        TokenRedeemed {
            redeemer: key(25),
            token_amount: 500,
            usdc_released: 600,
            timestamp: 1_700_000_000,
        }
    );
}

#[test]
fn redeem_does_not_look_at_the_accumulated_cash() {
    let ctx = redemption_from(open_treasury());
    assert_eq!(ctx.treasury.total_usdc_accumulated, 0);
    assert_eq!(redeem_tokens(&ctx, 500, 1_200_000, 0).unwrap().event.usdc_released, 600);
}

#[test]
fn redeem_of_no_tokens_is_zero_amount() {
    let ctx = redemption_from(open_treasury());
    assert_eq!(redeem_tokens(&ctx, 0, 1_200_000, 0), Err(TreasuryError::ZeroAmount));
    assert_eq!(redeem_tokens(&ctx, 0, u64::MAX, 0), Err(TreasuryError::ZeroAmount));
}

#[test]
fn redeem_beyond_64_bits_is_math_overflow() {
    let ctx = redemption_from(open_treasury());
    assert_eq!(redeem_tokens(&ctx, u64::MAX, 1_000_001, 0), Err(TreasuryError::MathOverflow));
}

#[test]
fn redeem_needs_an_initialized_treasury() {
    let mut treasury = open_treasury();
    treasury.is_initialized = false;
    let ctx = redemption_from(treasury);
    assert_eq!(redeem_tokens(&ctx, 500, 1_200_000, 0), Err(TreasuryError::NotInitialized));
    assert_eq!(redeem_tokens(&ctx, 0, 1_200_000, 0), Err(TreasuryError::NotInitialized));
}

#[test]
fn redemption_is_published_only_once_it_is_settled() {
    let ctx = redemption_from(open_treasury());
    let plan = redeem_tokens(&ctx, 500, 1_200_000, 9).unwrap();
    let event = plan.event;
    assert_eq!(plan.clone().close(Settlement::Failed), None);
    assert_eq!(plan.close(Settlement::Settled), Some(event));
}
