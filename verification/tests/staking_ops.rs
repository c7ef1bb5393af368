use staking_ledger::errors::ErrorCode;
use staking_ledger::refresh::{update_rewards, update_rewards_with_user};
use staking_ledger::staking::{
    claim, close_pool, close_user, create_user, fund, initialize_main_pool, pause, stake, unstake,
    unpause,
};
use staking_ledger::state::{Pool, User};

fn fresh_pool() -> Pool {
    initialize_main_pool(1, 0, 10, 11, 20, 21, 86400).unwrap()
}

fn fresh_user(pool: &mut Pool, owner: u64) -> User {
    create_user(pool, 100, owner + 1000, owner, 0, 0).unwrap()
}

#[test]
fn initialize_main_pool_rejects_short_duration() {
    assert_eq!(
        initialize_main_pool(1, 0, 10, 11, 20, 21, 0),
        Err(ErrorCode::DurationTooShort)
    );
}

#[test]
fn initialize_main_pool_sets_fields() {
    let pool = fresh_pool();
    assert_eq!(pool.authority, 1);
    assert_eq!(pool.staking_vault, 11);
    assert_eq!(pool.reward_vault, 21);
    assert_eq!(pool.reward_duration, 86400);
    assert!(!pool.paused);
    assert_eq!(pool.reward_rate, 0);
    assert_eq!(pool.reward_per_token_stored, 0);
    assert_eq!(pool.user_stake_count, 0);
    assert!(pool.user_stake_list.is_empty());
}

#[test]
fn create_user_registers_with_pool() {
    let mut pool = fresh_pool();
    let user = fresh_user(&mut pool, 7);
    assert_eq!(pool.user_stake_count, 1);
    assert_eq!(pool.user_stake_list, vec![1007]);
    assert_eq!(user.owner, 7);
    assert_eq!(user.balance_staked, 0);
    assert_eq!(user.balance_self_staked, 0);
}

#[test]
fn pause_and_unpause_toggle() {
    let mut pool = fresh_pool();
    pause(&mut pool, 1);
    assert!(pool.paused);
    unpause(&mut pool);
    assert!(!pool.paused);
}

#[test]
fn stake_rejects_zero_amount() {
    let mut pool = fresh_pool();
    let mut user = fresh_user(&mut pool, 7);
    assert_eq!(
        stake(&mut pool, &mut user, 0, 0, 1, 100),
        Err(ErrorCode::AmountMustBeGreaterThanZero)
    );
}

#[test]
fn stake_rejects_paused_pool() {
    let mut pool = fresh_pool();
    let mut user = fresh_user(&mut pool, 7);
    pause(&mut pool, 1);
    let before_pool = pool.clone();
    let before_user = user.clone();
    assert_eq!(
        stake(&mut pool, &mut user, 5, 0, 2, 100),
        Err(ErrorCode::PoolPaused)
    );
    assert_eq!(pool, before_pool);
    assert_eq!(user, before_user);
}

#[test]
fn stake_updates_balances_and_counters() {
    let mut pool = fresh_pool();
    let mut user = fresh_user(&mut pool, 7);
    stake(&mut pool, &mut user, 250, 0, 5, 100).unwrap();
    assert_eq!(user.balance_staked, 250);
    assert_eq!(user.balance_self_staked, 250);
    assert_eq!(user.staked_count, 1);
    assert_eq!(user.staked_ts, 5);
    assert_eq!(user.first_staked_ts, 5);
    assert_eq!(user.claimed_ts, 5);
    assert_eq!(user.end_ts, 105);
    assert_eq!(pool.last_update_time, 5);
}

#[test]
fn lock_stacking_extends_then_resets() {
    let mut pool = fresh_pool();
    let mut user = fresh_user(&mut pool, 7);
    // First stake at t=0 with a 100-second lock: the lock ends at 100.
    stake(&mut pool, &mut user, 1, 0, 0, 100).unwrap();
    assert_eq!(user.end_ts, 100);
    // A stake at t=50, before expiry, extends additively: 100 + 50 = 150.
    stake(&mut pool, &mut user, 1, 1, 50, 50).unwrap();
    assert_eq!(user.end_ts, 150);
    // A stake at t=200, after the t=150 expiry, resets: 200 + 100 = 300.
    stake(&mut pool, &mut user, 1, 2, 200, 100).unwrap();
    assert_eq!(user.end_ts, 300);
}

#[test]
fn unstake_rejects_zero_amount() {
    let mut pool = fresh_pool();
    let mut user = fresh_user(&mut pool, 7);
    assert_eq!(
        unstake(&mut pool, &mut user, 0, 0, 1),
        Err(ErrorCode::AmountMustBeGreaterThanZero)
    );
}

#[test]
fn unstake_rejects_before_lock_expires() {
    let mut pool = fresh_pool();
    let mut user = fresh_user(&mut pool, 7);
    stake(&mut pool, &mut user, 10, 0, 0, 100).unwrap();
    assert_eq!(
        unstake(&mut pool, &mut user, 5, 10, 50),
        Err(ErrorCode::UnstakingNotOver)
    );
}

#[test]
fn unstake_rejects_more_than_self_staked() {
    let mut pool = fresh_pool();
    let mut user = fresh_user(&mut pool, 7);
    stake(&mut pool, &mut user, 10, 0, 0, 100).unwrap();
    assert_eq!(
        unstake(&mut pool, &mut user, 11, 10, 200),
        Err(ErrorCode::InsufficientFundUnstake)
    );
}

#[test]
fn unstake_returns_tokens() {
    let mut pool = fresh_pool();
    let mut user = fresh_user(&mut pool, 7);
    stake(&mut pool, &mut user, 10, 0, 0, 100).unwrap();
    unstake(&mut pool, &mut user, 4, 10, 200).unwrap();
    assert_eq!(user.balance_staked, 6);
    assert_eq!(user.balance_self_staked, 6);
}

#[test]
fn self_staked_sum_tracks_vault_through_sequence() {
    // With no reward accrual (rate stays 0), the sum of self-funded
    // balances equals the staking vault's balance at every quiescent point.
    let mut pool = fresh_pool();
    let mut alice = fresh_user(&mut pool, 1);
    let mut bob = fresh_user(&mut pool, 2);
    let mut vault: u64 = 0;

    stake(&mut pool, &mut alice, 100, vault, 0, 0).unwrap();
    vault += 100;
    assert_eq!(alice.balance_self_staked + bob.balance_self_staked, vault);

    stake(&mut pool, &mut bob, 40, vault, 1, 0).unwrap();
    vault += 40;
    assert_eq!(alice.balance_self_staked + bob.balance_self_staked, vault);

    unstake(&mut pool, &mut alice, 30, vault, 2).unwrap();
    vault -= 30;
    assert_eq!(alice.balance_self_staked + bob.balance_self_staked, vault);

    stake(&mut pool, &mut alice, 5, vault, 3, 0).unwrap();
    vault += 5;
    assert_eq!(alice.balance_self_staked + bob.balance_self_staked, vault);

    unstake(&mut pool, &mut bob, 40, vault, 4).unwrap();
    vault -= 40;
    assert_eq!(alice.balance_self_staked + bob.balance_self_staked, vault);
    assert_eq!(vault, 75);
}

#[test]
fn refresh_twice_is_a_no_op() {
    let mut pool = fresh_pool();
    let mut user = fresh_user(&mut pool, 7);
    pool.reward_rate = 3;
    stake(&mut pool, &mut user, 50, 0, 10, 0).unwrap();

    update_rewards_with_user(&mut pool, &mut user, 50, 60).unwrap();
    let pool_after_first = pool.clone();
    let user_after_first = user.clone();

    update_rewards_with_user(&mut pool, &mut user, 50, 60).unwrap();
    assert_eq!(pool, pool_after_first);
    assert_eq!(user, user_after_first);
}

#[test]
fn refresh_pool_only_updates_index_and_time() {
    let mut pool = fresh_pool();
    pool.reward_rate = 5;
    update_rewards(&mut pool, 10, 10).unwrap();
    assert_eq!(pool.last_update_time, 10);
    assert_eq!(
        pool.reward_per_token_stored,
        10 * 5 * staking_ledger::accrual::PRECISION / 10
    );
    let snapshot = pool.clone();
    update_rewards(&mut pool, 10, 10).unwrap();
    assert_eq!(pool, snapshot);
}

#[test]
fn claim_with_insufficient_vault_pays_what_is_there() {
    let mut pool = fresh_pool();
    let mut user = fresh_user(&mut pool, 7);
    user.reward_per_token_pending = 100;
    // Vault holds only 40: the whole vault is paid, the shortfall stays
    // pending, and the claim is counted.
    let transferred = claim(&mut pool, &mut user, 0, 40, 9).unwrap();
    assert_eq!(transferred, 40);
    assert_eq!(user.reward_per_token_pending, 60);
    assert_eq!(user.claimed_ts, 9);
    assert_eq!(user.claimed_count, 1);
}

#[test]
fn claim_with_sufficient_vault_pays_everything() {
    let mut pool = fresh_pool();
    let mut user = fresh_user(&mut pool, 7);
    user.reward_per_token_pending = 100;
    let transferred = claim(&mut pool, &mut user, 0, 500, 9).unwrap();
    assert_eq!(transferred, 100);
    assert_eq!(user.reward_per_token_pending, 0);
    assert_eq!(user.claimed_count, 1);
}

#[test]
fn claim_with_empty_vault_pays_nothing_and_keeps_pending() {
    let mut pool = fresh_pool();
    let mut user = fresh_user(&mut pool, 7);
    user.reward_per_token_pending = 100;
    let transferred = claim(&mut pool, &mut user, 0, 0, 9).unwrap();
    assert_eq!(transferred, 0);
    assert_eq!(user.reward_per_token_pending, 100);
    // Nothing was paid, so the claim timestamp and counter do not move.
    assert_eq!(user.claimed_ts, 0);
    assert_eq!(user.claimed_count, 0);
}

#[test]
fn claim_with_nothing_pending_is_quiet() {
    let mut pool = fresh_pool();
    let mut user = fresh_user(&mut pool, 7);
    let transferred = claim(&mut pool, &mut user, 0, 500, 9).unwrap();
    assert_eq!(transferred, 0);
    assert_eq!(user.claimed_count, 0);
}

#[test]
fn claim_accrues_then_pays() {
    let mut pool = fresh_pool();
    let mut user = fresh_user(&mut pool, 7);
    pool.reward_rate = 2;
    stake(&mut pool, &mut user, 10, 0, 0, 0).unwrap();
    // 5 seconds at rate 2 over 10 staked, all of it the user's:
    // earned = 10 * (5 * 2 * PRECISION / 10) / PRECISION = 10 tokens.
    let transferred = claim(&mut pool, &mut user, 10, 1_000_000, 5).unwrap();
    assert_eq!(transferred, 10);
    assert_eq!(user.reward_per_token_pending, 0);
}

#[test]
fn claim_overflow_is_reported_and_state_kept() {
    let mut pool = fresh_pool();
    let mut user = fresh_user(&mut pool, 7);
    pool.reward_per_token_stored = u128::MAX;
    user.balance_staked = u64::MAX;
    user.balance_self_staked = u64::MAX;
    let before_pool = pool.clone();
    let before_user = user.clone();
    assert_eq!(
        claim(&mut pool, &mut user, 0, 0, 1),
        Err(ErrorCode::Overflow)
    );
    assert_eq!(pool, before_pool);
    assert_eq!(user, before_user);
}

#[test]
fn fund_passes_the_amount_through() {
    let pool = fresh_pool();
    assert_eq!(fund(&pool, 12345), 12345);
    assert_eq!(fund(&pool, 0), 0);
}

#[test]
fn close_user_decrements_count() {
    let mut pool = fresh_pool();
    let user = fresh_user(&mut pool, 7);
    assert_eq!(pool.user_stake_count, 1);
    close_user(&mut pool, &user);
    assert_eq!(pool.user_stake_count, 0);
}

#[test]
fn close_pool_sweeps_staking_vault() {
    let mut pool = fresh_pool();
    pause(&mut pool, 5);
    assert_eq!(close_pool(&pool, 777, 6), 777);
}
