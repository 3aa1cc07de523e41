//! Operation-level tests: policy validation, error taxonomy, and the exact
//! bookkeeping of each engine call.

use devotion::engine::{accrue, check_devotion, devote, heresy, initialize, max_reward_for, waver};
use devotion::state::{Devoted, ErrorCode, StakeState, TotalDevoted};

/// A policy counting whole tokens (no decimals), one reward unit per token
/// per day, capped at 180 days.
fn whole_token_policy() -> (StakeState, TotalDevoted) {
    initialize(1, 2, 0, 86_400, 15_552_000).unwrap()
}

#[test]
fn initialize_accepts_valid_policy() {
    let (state, total) = initialize(11, 22, 9, 86_400, 15_552_000).unwrap();
    assert_eq!(state.admin, 11);
    assert_eq!(state.stake_mint, 22);
    assert_eq!(state.decimals, 9);
    assert_eq!(state.interval, 86_400);
    assert_eq!(state.max_devotion_charge, 15_552_000);
    assert_eq!(total.total_tokens, 0);
}

#[test]
fn initialize_rejects_nonpositive_interval() {
    assert_eq!(initialize(1, 2, 9, 0, 15_552_000), Err(ErrorCode::InvalidInterval));
    assert_eq!(initialize(1, 2, 9, -86_400, 15_552_000), Err(ErrorCode::InvalidInterval));
}

#[test]
fn initialize_rejects_nonpositive_charge() {
    assert_eq!(initialize(1, 2, 9, 86_400, 0), Err(ErrorCode::InvalidMaxDevotionCharge));
    assert_eq!(initialize(1, 2, 9, 86_400, -1), Err(ErrorCode::InvalidMaxDevotionCharge));
}

#[test]
fn initialize_rejects_oversized_scale() {
    assert_eq!(initialize(1, 2, 39, 86_400, 15_552_000), Err(ErrorCode::MaxDevotionOverflow));
    assert!(initialize(1, 2, 38, 86_400, 15_552_000).is_ok());
}

#[test]
fn devote_zero_amount_rejected() {
    let (state, mut total) = whole_token_policy();
    let mut entry = Devoted::new(7);
    let before_entry = entry;
    let before_total = total;
    let r = devote(&state, &mut entry, &mut total, 7, 0, 1_000);
    assert_eq!(r, Err(ErrorCode::AmountZero));
    assert_eq!(entry, before_entry);
    assert_eq!(total, before_total);
}

#[test]
fn waver_zero_amount_rejected() {
    let (state, mut total) = whole_token_policy();
    let mut entry = Devoted::new(7);
    devote(&state, &mut entry, &mut total, 7, 100, 0).unwrap();
    let before_entry = entry;
    let before_total = total;
    let r = waver(&state, &mut entry, &mut total, 0, 50);
    assert_eq!(r, Err(ErrorCode::AmountZero));
    assert_eq!(entry, before_entry);
    assert_eq!(total, before_total);
}

#[test]
fn devote_first_stake_binds_user() {
    let (state, mut total) = whole_token_policy();
    let mut entry = Devoted::new(0);
    devote(&state, &mut entry, &mut total, 42, 100, 5).unwrap();
    assert_eq!(entry.user, 42);
    assert_eq!(entry.amount, 100);
    assert_eq!(entry.residual_devotion, 0);
    assert_eq!(entry.last_stake_timestamp, 5);
    assert_eq!(total.total_tokens, 100);
}

#[test]
fn devote_overflow_rejected_without_effect() {
    let (state, _) = whole_token_policy();
    let mut total = TotalDevoted { total_tokens: u64::MAX - 5 };
    let mut entry = Devoted {
        user: 7,
        amount: u64::MAX - 5,
        residual_devotion: 0,
        last_stake_timestamp: 0,
    };
    let before_entry = entry;
    let before_total = total;
    let r = devote(&state, &mut entry, &mut total, 7, 10, 1_000);
    assert_eq!(r, Err(ErrorCode::MathOverflow));
    assert_eq!(entry, before_entry);
    assert_eq!(total, before_total);
}

#[test]
fn waver_underflow_on_aggregate_rejected() {
    let (state, _) = whole_token_policy();
    // An aggregate smaller than the entry's balance cannot arise from the
    // engine's own operations; the guard still refuses to wrap.
    let mut total = TotalDevoted { total_tokens: 50 };
    let mut entry = Devoted {
        user: 7,
        amount: 100,
        residual_devotion: 0,
        last_stake_timestamp: 0,
    };
    let r = waver(&state, &mut entry, &mut total, 80, 1_000);
    assert_eq!(r, Err(ErrorCode::MathUnderflow));
    assert_eq!(entry.amount, 100);
    assert_eq!(total.total_tokens, 50);
}

#[test]
fn heresy_rejects_empty_vault_and_empty_entry() {
    let mut total = TotalDevoted { total_tokens: 100 };
    let mut entry = Devoted {
        user: 7,
        amount: 100,
        residual_devotion: 3,
        last_stake_timestamp: 9,
    };
    assert_eq!(heresy(&mut entry, &mut total, 0), Err(ErrorCode::VaultZero));
    assert_eq!(entry.amount, 100);

    let mut empty = Devoted::new(8);
    assert_eq!(heresy(&mut empty, &mut total, 100), Err(ErrorCode::DevotionZero));
    assert_eq!(total.total_tokens, 100);
}

#[test]
fn heresy_closes_entry_and_discards_residual() {
    let mut total = TotalDevoted { total_tokens: 150 };
    let mut entry = Devoted {
        user: 7,
        amount: 100,
        residual_devotion: 77,
        last_stake_timestamp: 9,
    };
    heresy(&mut entry, &mut total, 100).unwrap();
    assert_eq!(entry.amount, 0);
    assert_eq!(entry.residual_devotion, 0);
    assert_eq!(entry.user, 7);
    assert_eq!(total.total_tokens, 50);
}

#[test]
fn accrue_is_floored_and_clamped() {
    let (state, _) = whole_token_policy();
    // One day on one hundred tokens earns one hundred units.
    assert_eq!(accrue(&state, 100, 0, 86_400), 100);
    // A fraction of a day is floored away.
    assert_eq!(accrue(&state, 1, 0, 86_399), 0);
    // A clock that went backwards earns nothing rather than wrapping.
    assert_eq!(accrue(&state, 100, 1_000_000, 0), 0);
    // Beyond the cap window the reward stops growing.
    assert_eq!(accrue(&state, 100, 0, 15_552_000), accrue(&state, 100, 0, 100_000_000));
}

#[test]
fn residual_is_clamped_to_cap_on_restake() {
    let (state, mut total) = whole_token_policy();
    let mut entry = Devoted::new(7);
    devote(&state, &mut entry, &mut total, 7, 100, 0).unwrap();
    // Far beyond the cap window: folding clamps the carry to the ceiling
    // for the hundred tokens staked during the window.
    devote(&state, &mut entry, &mut total, 7, 1, 1_000_000_000).unwrap();
    assert_eq!(entry.residual_devotion, max_reward_for(&state, 100));
    assert_eq!(entry.residual_devotion, 18_000);
}

#[test]
fn timestamps_follow_the_clock() {
    let (state, mut total) = whole_token_policy();
    let mut entry = Devoted::new(7);
    devote(&state, &mut entry, &mut total, 7, 100, 10).unwrap();
    assert_eq!(entry.last_stake_timestamp, 10);
    devote(&state, &mut entry, &mut total, 7, 100, 500).unwrap();
    assert_eq!(entry.last_stake_timestamp, 500);
    waver(&state, &mut entry, &mut total, 50, 900).unwrap();
    assert_eq!(entry.last_stake_timestamp, 900);
}

#[test]
fn check_devotion_leaves_state_untouched() {
    let (state, mut total) = whole_token_policy();
    let mut entry = Devoted::new(7);
    devote(&state, &mut entry, &mut total, 7, 100, 0).unwrap();
    let before = entry;
    check_devotion(&state, &entry, 86_400).unwrap();
    assert_eq!(entry, before);
}
