use nasdaq_strategy::config::Config;
use nasdaq_strategy::errors::CustomError;
use nasdaq_strategy::ids::AccountId;
use nasdaq_strategy::nav::{compute_nav, update_nav, NAVState, NAVUpdated, NavUpsert, UpdateNAV};
use nasdaq_strategy::scale::{BACKING_SCALE, NAV_SCALE};

fn config_with_supply(total_supply: u64) -> Config {
    Config {
        mint: AccountId::new([1; 32]),
        fee_collector: AccountId::new([2; 32]),
        treasury: AccountId::new([3; 32]),
        total_supply,
        fee_percentage: 250,
        is_initialized: true,
    }
}

#[test]
fn nav_scales_have_their_values() {
    assert_eq!(NAV_SCALE, 1_000_000);
    assert_eq!(BACKING_SCALE, 10_000);
}

#[test]
fn nav_of_1_2_million_behind_1_million_tokens() {
    assert_eq!(compute_nav(1_200_000, 1_000_000), Ok((1_200_000, 12_000)));
}

#[test]
fn nav_is_rounded_down() {
    assert_eq!(compute_nav(7, 3), Ok((2_333_333, 23_333)));
    assert_eq!(compute_nav(1, 3), Ok((333_333, 3_333)));
    assert_eq!(compute_nav(2, 3), Ok((666_666, 6_666)));
}

#[test]
fn nav_without_supply_is_zero_whatever_the_value() {
    assert_eq!(compute_nav(0, 0), Ok((0, 0)));
    assert_eq!(compute_nav(1, 0), Ok((0, 0)));
    assert_eq!(compute_nav(1_200_000, 0), Ok((0, 0)));
    assert_eq!(compute_nav(u64::MAX, 0), Ok((0, 0)));
}

#[test]
fn nav_of_an_empty_treasury_is_zero() {
    assert_eq!(compute_nav(0, 1), Ok((0, 0)));
    assert_eq!(compute_nav(0, 1_000_000), Ok((0, 0)));
    assert_eq!(compute_nav(0, u64::MAX), Ok((0, 0)));
}

#[test]
fn nav_with_value_is_positive_while_the_scaled_value_reaches_the_supply() {
    assert_eq!(compute_nav(1, 1_000_000), Ok((1, 0)));
    assert_eq!(compute_nav(1, 999_999), Ok((1, 0)));
    assert_eq!(compute_nav(5, 5_000_000), Ok((1, 0)));
}

#[test]
fn nav_with_value_is_zero_once_the_supply_exceeds_the_scaled_value() {
    assert_eq!(compute_nav(1, 1_000_001), Ok((0, 0)));
    assert_eq!(compute_nav(5, 5_000_001), Ok((0, 0)));
    assert_eq!(compute_nav(1_000, u64::MAX), Ok((0, 0)));
}

#[test]
fn backing_ratio_is_zero_below_one_basis_point() {
    assert_eq!(compute_nav(1, 10_000), Ok((100, 1)));
    assert_eq!(compute_nav(1, 10_001), Ok((99, 0)));
}

#[test]
fn nav_at_the_edge_of_64_bits() {
    let largest = u64::MAX / NAV_SCALE;
    assert_eq!(largest, 18_446_744_073_709);
    assert_eq!(compute_nav(largest, 1), Ok((largest * NAV_SCALE, largest * BACKING_SCALE)));
    assert_eq!(compute_nav(largest + 1, 1), Err(CustomError::MathOverflow));
    assert_eq!(compute_nav(largest + 1, 2), Ok(((largest + 1) * 500_000, (largest + 1) * 5_000)));
}

#[test]
fn nav_beyond_64_bits_is_math_overflow() {
    assert_eq!(compute_nav(u64::MAX, 1), Err(CustomError::MathOverflow));
    assert_eq!(compute_nav(u64::MAX, 999_999), Err(CustomError::MathOverflow));
    assert_eq!(compute_nav(u64::MAX, 1_000_000), Ok((u64::MAX, u64::MAX / 100)));
}

#[test]
fn update_nav_makes_the_state() {
    let mut ctx = UpdateNAV { config: config_with_supply(1_000_000), nav_state: None };
    let (upsert, event) = update_nav(&mut ctx, 1_200_000, 1_700_000_000).unwrap();
    assert_eq!(upsert, NavUpsert::Created);
    assert_eq!(
        ctx.nav_state,
        Some(NAVState {
            treasury_value_usd: 1_200_000,
            nav_per_token: 1_200_000,
            backing_ratio: 12_000,
            last_update: 1_700_000_000,
        })
    );
    assert_eq!(
        event,
        NAVUpdated {
            treasury_value_usd: 1_200_000,
            nav_per_token: 1_200_000,
            backing_ratio: 12_000,
            timestamp: 1_700_000_000,
        }
    );
    assert_eq!(ctx.config, config_with_supply(1_000_000));
}

#[test]
fn update_nav_replaces_the_state() {
    let mut ctx = UpdateNAV { config: config_with_supply(1_000_000), nav_state: None };
    update_nav(&mut ctx, 1_200_000, 100).unwrap();
    let (upsert, event) = update_nav(&mut ctx, 500_000, 200).unwrap();
    assert_eq!(upsert, NavUpsert::Updated);
    assert_eq!(
        ctx.nav_state,
        Some(NAVState {
            treasury_value_usd: 500_000,
            nav_per_token: 500_000,
            backing_ratio: 5_000,
            last_update: 200,
        })
    );
    assert_eq!(event.timestamp, 200);
    assert_eq!(event.nav_per_token, 500_000);
}

#[test]
fn update_nav_without_supply_stores_zeros() {
    let mut ctx = UpdateNAV { config: config_with_supply(0), nav_state: None };
    let (_, event) = update_nav(&mut ctx, 1_200_000, 7).unwrap();
    assert_eq!(
        ctx.nav_state,
        Some(NAVState {
            treasury_value_usd: 1_200_000,
            nav_per_token: 0,
            backing_ratio: 0,
            last_update: 7,
        })
    );
    assert_eq!(event.nav_per_token, 0);
    assert_eq!(event.backing_ratio, 0);
}

#[test]
fn update_nav_needs_an_initialized_configuration() {
    let mut config = config_with_supply(1_000_000);
    config.is_initialized = false;
    let before = UpdateNAV { config, nav_state: None };
    let mut ctx = before;
    assert_eq!(update_nav(&mut ctx, 1_200_000, 7), Err(CustomError::NotInitialized));
    assert_eq!(ctx, before);
}

#[test]
fn update_nav_beyond_64_bits_changes_nothing() {
    let earlier = NAVState {
        treasury_value_usd: 10,
        nav_per_token: 10_000_000,
        backing_ratio: 100_000,
        last_update: 3,
    };
    let before = UpdateNAV { config: config_with_supply(1), nav_state: Some(earlier) };
    let mut ctx = before;
    assert_eq!(update_nav(&mut ctx, u64::MAX, 7), Err(CustomError::MathOverflow));
    assert_eq!(ctx, before);
}
