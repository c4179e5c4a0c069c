use single_farming::accrual::{update_pool_rewards, update_rewards};
use single_farming::error::ErrorCode;
use single_farming::instructions::{
    activate_farming, claim, close_user, create_user, deposit, deposit_full, initialize_pool,
    rate_by_funding, withdraw, EventClaimReward, EventPendingReward, InitializePool,
};
use single_farming::policy::{validate_admin_address, validate_staking_mint, Policy, MIN_DURATION};
use single_farming::state::{Identity, Pool, User, SCALE};

fn id(n: u8) -> Identity {
    Identity { bytes: [n; 32] }
}

fn accounts() -> InitializePool {
    InitializePool {
        staking_mint: id(2),
        staking_vault: id(3),
        reward_mint: id(4),
        reward_vault: id(5),
        admin: id(1),
    }
}

fn policy() -> Policy {
    Policy::restricted(id(1), id(2))
}

fn pool_with(rate: u64, last: u64, end: u64, stored: u64) -> Pool {
    let mut pool = initialize_pool(&policy(), &accounts(), 7, MIN_DURATION, 0).unwrap();
    pool.reward_rate = rate;
    pool.last_update_time = last;
    pool.reward_end_timestamp = end;
    pool.reward_per_token_stored = stored;
    pool
}

fn user_with(balance: u64, complete: u64, pending: u64) -> User {
    let mut user = create_user(id(9), id(8), 1);
    user.balance_staked = balance;
    user.reward_per_token_complete = complete;
    user.reward_per_token_pending = pending;
    user
}

#[test]
fn end_to_end_scenario() {
    let mut pool = initialize_pool(&policy(), &accounts(), 7, 86400, 864000).unwrap();
    assert_eq!(pool.reward_rate, 10);
    activate_farming(&mut pool, 1000).unwrap();
    assert_eq!(pool.reward_end_timestamp, 87400);
    assert_eq!(pool.last_update_time, 1000);
    let mut user = create_user(id(9), id(8), 1);
    let mut vault: u64 = 0;
    deposit(&mut pool, &mut user, vault, 100, 1000).unwrap();
    vault += 100;
    assert_eq!(user.balance_staked, 100);
    assert_eq!(pool.reward_per_token(vault, 1100), Some(10 * SCALE));
    update_rewards(&mut pool, &mut user, vault, 1100).unwrap();
    assert_eq!(pool.reward_per_token_stored, 10 * SCALE);
    assert_eq!(pool.last_update_time, 1100);
    assert_eq!(user.reward_per_token_pending, 1000);
    assert_eq!(user.reward_per_token_complete, 10 * SCALE);
    assert_eq!(pool.user_earned_amount(&user), Some(1000));
}

#[test]
fn claim_shortfall_pays_vault_balance() {
    let mut pool = pool_with(10, 1000, 87400, 5 * SCALE);
    let mut user = user_with(0, 5 * SCALE, 80);
    let outcome = claim(&mut pool, &mut user, 0, 50, 1200).unwrap();
    assert_eq!(outcome.pending, EventPendingReward { value: 80 });
    assert_eq!(outcome.claimed, Some(EventClaimReward { value: 50 }));
    assert_eq!(user.reward_per_token_pending, 30);
}

#[test]
fn claim_with_full_vault_pays_everything() {
    let mut pool = pool_with(10, 1000, 87400, 0);
    let mut user = user_with(100, 0, 0);
    let outcome = claim(&mut pool, &mut user, 100, 1_000_000, 1100).unwrap();
    assert_eq!(outcome.pending.value, 1000);
    assert_eq!(outcome.claimed, Some(EventClaimReward { value: 1000 }));
    assert_eq!(user.reward_per_token_pending, 0);
}

#[test]
fn claim_with_nothing_pending_pays_nothing() {
    let mut pool = pool_with(10, 1000, 87400, 0);
    let mut user = user_with(0, 0, 0);
    let outcome = claim(&mut pool, &mut user, 0, 500, 1100).unwrap();
    assert_eq!(outcome.pending.value, 0);
    assert_eq!(outcome.claimed, None);
}

#[test]
fn claim_with_empty_vault_keeps_pending() {
    let mut pool = pool_with(10, 1000, 87400, 0);
    let mut user = user_with(0, 0, 80);
    let outcome = claim(&mut pool, &mut user, 0, 0, 1100).unwrap();
    assert_eq!(outcome.pending.value, 80);
    assert_eq!(outcome.claimed, None);
    assert_eq!(user.reward_per_token_pending, 80);
}

#[test]
fn withdrawal_over_balance_is_rejected_unchanged() {
    let mut pool = pool_with(10, 1000, 87400, 0);
    let mut user = user_with(100, 0, 0);
    let pool_before = pool;
    let user_before = user;
    assert_eq!(
        withdraw(&mut pool, &mut user, 100, 101, 1100),
        Err(ErrorCode::InsufficientFundWithdraw)
    );
    assert_eq!(pool, pool_before);
    assert_eq!(user, user_before);
}

#[test]
fn withdraw_settles_then_reduces_stake() {
    let mut pool = pool_with(10, 1000, 87400, 0);
    let mut user = user_with(100, 0, 0);
    withdraw(&mut pool, &mut user, 100, 40, 1100).unwrap();
    assert_eq!(user.balance_staked, 60);
    assert_eq!(user.reward_per_token_pending, 1000);
    assert_eq!(pool.reward_per_token_stored, 10 * SCALE);
}

#[test]
fn zero_amounts_are_rejected() {
    let mut pool = pool_with(10, 1000, 87400, 0);
    let mut user = user_with(100, 0, 0);
    assert_eq!(
        deposit(&mut pool, &mut user, 100, 0, 1100),
        Err(ErrorCode::AmountMustBeGreaterThanZero)
    );
    assert_eq!(
        withdraw(&mut pool, &mut user, 100, 0, 1100),
        Err(ErrorCode::AmountMustBeGreaterThanZero)
    );
    assert_eq!(
        deposit_full(&mut pool, &mut user, 100, 0, 1100),
        Err(ErrorCode::AmountMustBeGreaterThanZero)
    );
    assert_eq!(user.balance_staked, 100);
    assert_eq!(pool.last_update_time, 1000);
}

#[test]
fn deposit_full_moves_whole_account() {
    let mut pool = pool_with(10, 1000, 87400, 0);
    let mut user = user_with(0, 0, 0);
    deposit_full(&mut pool, &mut user, 0, 250, 1000).unwrap();
    assert_eq!(user.balance_staked, 250);
}

#[test]
fn deposit_balance_overflow_is_rejected() {
    let mut pool = pool_with(10, 1000, 87400, 0);
    let mut user = user_with(u64::MAX, 0, 0);
    let pool_before = pool;
    assert_eq!(
        deposit(&mut pool, &mut user, 0, 1, 1000),
        Err(ErrorCode::MathOverFlow)
    );
    assert_eq!(pool, pool_before);
    assert_eq!(user.balance_staked, u64::MAX);
}

#[test]
fn pool_creation_checks_policy_and_duration() {
    let mut wrong_mint = accounts();
    wrong_mint.staking_mint = id(6);
    assert_eq!(
        initialize_pool(&policy(), &wrong_mint, 0, 86400, 1).unwrap_err(),
        ErrorCode::WrongStakingMint
    );
    let mut wrong_admin = accounts();
    wrong_admin.admin = id(6);
    assert_eq!(
        initialize_pool(&policy(), &wrong_admin, 0, 86400, 1).unwrap_err(),
        ErrorCode::InvalidAdminWhenCreatingPool
    );
    assert_eq!(
        initialize_pool(&policy(), &accounts(), 0, 86399, 1).unwrap_err(),
        ErrorCode::DurationTooShort
    );
    let pool = initialize_pool(&Policy::permissive(), &wrong_admin, 3, 1, 5).unwrap();
    assert_eq!(pool.reward_rate, 5);
    assert_eq!(pool.nonce, 3);
    assert_eq!(pool.reward_end_timestamp, 0);
    assert_eq!(pool.reward_per_token_stored, 0);
    let unlimited = Policy { admin: None, staking_mint: None, min_duration: 0 };
    assert_eq!(
        initialize_pool(&unlimited, &accounts(), 0, 0, 5).unwrap_err(),
        ErrorCode::MathOverFlow
    );
}

#[test]
fn rate_is_floor_of_funding_over_duration() {
    assert_eq!(rate_by_funding(864000, 86400), Some(10));
    assert_eq!(rate_by_funding(864001, 86400), Some(10));
    assert_eq!(rate_by_funding(86399, 86400), Some(0));
    assert_eq!(rate_by_funding(5, 0), None);
}

#[test]
fn allow_list_checks() {
    assert!(validate_admin_address(&policy(), &id(1)));
    assert!(!validate_admin_address(&policy(), &id(2)));
    assert!(validate_staking_mint(&policy(), &id(2)));
    let mut near = id(2);
    near.bytes[31] = 3;
    assert!(!validate_staking_mint(&policy(), &near));
    assert!(validate_admin_address(&Policy::permissive(), &id(77)));
    assert!(validate_staking_mint(&Policy::permissive(), &id(77)));
}

#[test]
fn activation_overflow_keeps_pool() {
    let mut pool = pool_with(10, 0, 0, 0);
    let before = pool;
    assert_eq!(activate_farming(&mut pool, u64::MAX - 10), Err(ErrorCode::MathOverFlow));
    assert_eq!(pool, before);
}

#[test]
fn reactivation_restarts_schedule() {
    let mut pool = pool_with(10, 0, 0, 0);
    activate_farming(&mut pool, 1000).unwrap();
    activate_farming(&mut pool, 5000).unwrap();
    assert_eq!(pool.last_update_time, 5000);
    assert_eq!(pool.reward_end_timestamp, 5000 + MIN_DURATION);
}

#[test]
fn applicable_time_is_capped_by_end() {
    let pool = pool_with(10, 1000, 87400, 0);
    assert_eq!(pool.last_time_reward_applicable(2000), 2000);
    assert_eq!(pool.last_time_reward_applicable(90000), 87400);
    let inactive = pool_with(10, 0, 0, 0);
    assert_eq!(inactive.last_time_reward_applicable(2000), 0);
}

#[test]
fn no_stake_no_accrual() {
    let pool = pool_with(10, 1000, 87400, 42);
    assert_eq!(pool.reward_per_token(0, 87400), Some(42));
    assert_eq!(pool.reward_per_token(0, 0), Some(42));
}

#[test]
fn reward_per_token_exact_values() {
    let pool = pool_with(1, 0, 100, 0);
    assert_eq!(pool.reward_per_token(3, 1), Some(333_333_333));
    let wide = pool_with(u64::MAX, 0, 100, 0);
    assert_eq!(wide.reward_per_token(u64::MAX, 1), Some(SCALE));
    assert_eq!(wide.reward_per_token(1u64 << 63, 2), Some(3_999_999_999));
    assert_eq!(wide.reward_per_token(1, 1), None);
    let stored = pool_with(1, 0, 100, u64::MAX);
    assert_eq!(stored.reward_per_token(1, 1), None);
    let later = pool_with(1, 50, 100, 0);
    assert_eq!(later.reward_per_token(1, 40), None);
}

#[test]
fn earned_amount_exact_values() {
    let pool = pool_with(1, 0, 100, 3 * SCALE);
    let user = user_with(7, 3 * SCALE / 2, 5);
    assert_eq!(pool.user_earned_amount(&user), Some(15));
    let ahead = user_with(7, 4 * SCALE, 5);
    assert_eq!(pool.user_earned_amount(&ahead), None);
    let full = user_with(0, 3 * SCALE, u64::MAX);
    assert_eq!(pool.user_earned_amount(&full), Some(u64::MAX));
    let over = user_with(SCALE, 2 * SCALE, u64::MAX);
    assert_eq!(pool.user_earned_amount(&over), None);
}

#[test]
fn settlement_overflow_changes_nothing() {
    let mut pool = pool_with(u64::MAX, 0, 100, 0);
    let mut user = user_with(1, 0, 0);
    let pool_before = pool;
    let user_before = user;
    assert_eq!(update_rewards(&mut pool, &mut user, 1, 10), Err(ErrorCode::MathOverFlow));
    assert_eq!(pool, pool_before);
    assert_eq!(user, user_before);
    assert_eq!(update_pool_rewards(&mut pool, 1, 10), Err(ErrorCode::MathOverFlow));
    assert_eq!(pool, pool_before);
}

#[test]
fn resettlement_is_idempotent() {
    let mut pool = pool_with(10, 1000, 87400, 0);
    let mut user = user_with(100, 0, 7);
    update_rewards(&mut pool, &mut user, 100, 1500).unwrap();
    let pool_once = pool;
    let user_once = user;
    update_rewards(&mut pool, &mut user, 100, 1500).unwrap();
    assert_eq!(pool, pool_once);
    assert_eq!(user, user_once);
    assert_eq!(user.reward_per_token_pending, 5007);
}

#[test]
fn accrual_stops_at_end() {
    let mut at_end = pool_with(10, 1000, 87400, 0);
    let mut after_end = at_end;
    let mut u1 = user_with(100, 0, 0);
    let mut u2 = u1;
    update_rewards(&mut at_end, &mut u1, 100, 87400).unwrap();
    update_rewards(&mut after_end, &mut u2, 100, 1_000_000).unwrap();
    assert_eq!(at_end, after_end);
    assert_eq!(u1, u2);
    assert_eq!(u1.reward_per_token_pending, 864000);
}

#[test]
fn accrual_is_monotonic() {
    let mut pool = pool_with(10, 1000, 87400, 0);
    let mut last = pool.reward_per_token_stored;
    let stakes: [u64; 5] = [100, 0, 3, 1000, 7];
    let times: [u64; 5] = [1100, 1200, 1300, 90000, 90001];
    for k in 0..5 {
        update_pool_rewards(&mut pool, stakes[k], times[k]).unwrap();
        assert!(pool.reward_per_token_stored >= last);
        last = pool.reward_per_token_stored;
    }
    assert!(last > 0);
}

#[test]
fn stakes_sum_to_vault() {
    let mut pool = pool_with(10, 1000, 87400, 0);
    let mut alice = create_user(id(9), id(10), 1);
    let mut bob = create_user(id(9), id(11), 2);
    let mut vault: u64 = 0;
    deposit(&mut pool, &mut alice, vault, 100, 1000).unwrap();
    vault += 100;
    deposit(&mut pool, &mut bob, vault, 300, 1100).unwrap();
    vault += 300;
    assert_eq!(alice.balance_staked + bob.balance_staked, vault);
    withdraw(&mut pool, &mut alice, vault, 60, 1200).unwrap();
    vault -= 60;
    claim(&mut pool, &mut bob, vault, 1_000_000, 1300).unwrap();
    assert_eq!(alice.balance_staked + bob.balance_staked, vault);
    assert!(withdraw(&mut pool, &mut bob, vault, 301, 1400).is_err());
    assert_eq!(alice.balance_staked + bob.balance_staked, vault);
    // Alice alone for 100 s at 10/s, then a quarter share for 100 s.
    assert_eq!(alice.reward_per_token_pending, 1000 + 250);
}

#[test]
fn close_only_empty_records() {
    assert_eq!(close_user(user_with(0, 5, 0)), Ok(()));
    let staked = user_with(1, 0, 0);
    assert_eq!(close_user(staked), Err(staked));
    let owed = user_with(0, 0, 1);
    assert_eq!(close_user(owed), Err(owed));
}

#[test]
fn error_messages() {
    assert_eq!(ErrorCode::MathOverFlow.message(), "MathOverFlow");
    assert_eq!(ErrorCode::InvalidStartDate.message(), "Start time cannot be smaller than current time");
    assert_eq!(
        ErrorCode::CannotWithdrawMoreThanBalance.message(),
        "Cannot withdraw more than deposited amount"
    );
    assert_eq!(ErrorCode::DurationTooShort.message(), "Duration cannot be shorter than one day.");
}
