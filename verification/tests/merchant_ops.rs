use staking_ledger::accrual::PRECISION;
use staking_ledger::errors::ErrorCode;
use staking_ledger::merchant::{
    claim_reward_for_merchant, create_merchant_user, initialize_merchant_pool, pause_merchant,
    stake_token_to_merchant, unpause_merchant, unstake_token_to_merchant,
};
use staking_ledger::staking::initialize_main_pool;
use staking_ledger::state::{Merchant, MerchantUser, Pool};

fn fresh_pool() -> Pool {
    initialize_main_pool(1, 0, 10, 11, 20, 21, 86400).unwrap()
}

fn fresh_merchant(pool: &mut Pool) -> Merchant {
    initialize_merchant_pool(pool, 100, 200, 5, String::from("shop"), 0, 0).unwrap()
}

fn fresh_merchant_user(pool: &Pool, merchant: &mut Merchant, owner: u64) -> MerchantUser {
    create_merchant_user(pool, merchant, 100, 200, owner + 2000, owner, 0, 0).unwrap()
}

#[test]
fn initialize_merchant_pool_registers_with_pool() {
    let mut pool = fresh_pool();
    let merchant = fresh_merchant(&mut pool);
    assert_eq!(pool.merchant_count, 1);
    assert_eq!(pool.merchant_stake_list, vec![200]);
    assert_eq!(merchant.owner, 5);
    assert_eq!(merchant.merchant_name, "shop");
    assert_eq!(merchant.balance_staked, 0);
    assert!(!merchant.paused);
}

#[test]
fn create_merchant_user_registers_with_merchant() {
    let mut pool = fresh_pool();
    let mut merchant = fresh_merchant(&mut pool);
    let merchant_user = fresh_merchant_user(&pool, &mut merchant, 7);
    assert_eq!(merchant.merchant_user_stake_count, 1);
    assert_eq!(merchant.merchant_user_stake_list, vec![2007]);
    assert_eq!(merchant_user.owner, 7);
    assert_eq!(merchant_user.balance_staked, 0);
}

#[test]
fn merchant_stake_keeps_aggregate_in_step() {
    let mut pool = fresh_pool();
    let mut merchant = fresh_merchant(&mut pool);
    let mut mu = fresh_merchant_user(&pool, &mut merchant, 7);
    stake_token_to_merchant(&mut pool, &mut merchant, &mut mu, 100, 0, 4, 50).unwrap();
    assert_eq!(merchant.balance_staked, 100);
    assert_eq!(mu.balance_staked, 100);
    assert_eq!(mu.staked_count, 1);
    assert_eq!(mu.end_ts, 54);
    // The aggregate rose from zero, so the merchant's update time resets.
    assert_eq!(merchant.last_updated_ts, 4);
}

#[test]
fn merchant_stake_rejects_zero_and_paused() {
    let mut pool = fresh_pool();
    let mut merchant = fresh_merchant(&mut pool);
    let mut mu = fresh_merchant_user(&pool, &mut merchant, 7);
    assert_eq!(
        stake_token_to_merchant(&mut pool, &mut merchant, &mut mu, 0, 0, 1, 10),
        Err(ErrorCode::AmountMustBeGreaterThanZero)
    );
    merchant.paused = true;
    assert_eq!(
        stake_token_to_merchant(&mut pool, &mut merchant, &mut mu, 5, 0, 1, 10),
        Err(ErrorCode::MerchantPaused)
    );
    merchant.paused = false;
    pool.paused = true;
    assert_eq!(
        stake_token_to_merchant(&mut pool, &mut merchant, &mut mu, 5, 0, 1, 10),
        Err(ErrorCode::PoolPaused)
    );
}

#[test]
fn merchant_unstake_keeps_aggregate_in_step() {
    let mut pool = fresh_pool();
    let mut merchant = fresh_merchant(&mut pool);
    let mut mu = fresh_merchant_user(&pool, &mut merchant, 7);
    stake_token_to_merchant(&mut pool, &mut merchant, &mut mu, 100, 0, 0, 10).unwrap();
    unstake_token_to_merchant(&mut pool, &mut merchant, &mut mu, 30, 100, 20).unwrap();
    assert_eq!(merchant.balance_staked, 70);
    assert_eq!(mu.balance_staked, 70);
}

#[test]
fn merchant_unstake_rejects_lock_and_excess() {
    let mut pool = fresh_pool();
    let mut merchant = fresh_merchant(&mut pool);
    let mut mu = fresh_merchant_user(&pool, &mut merchant, 7);
    stake_token_to_merchant(&mut pool, &mut merchant, &mut mu, 100, 0, 0, 50).unwrap();
    assert_eq!(
        unstake_token_to_merchant(&mut pool, &mut merchant, &mut mu, 10, 100, 20),
        Err(ErrorCode::UnstakingNotOver)
    );
    assert_eq!(
        unstake_token_to_merchant(&mut pool, &mut merchant, &mut mu, 101, 100, 60),
        Err(ErrorCode::InsufficientFundUnstake)
    );
}

#[test]
fn pause_merchant_and_unpause_merchant_toggle() {
    let mut pool = fresh_pool();
    let mut merchant = fresh_merchant(&mut pool);
    pause_merchant(&pool, &mut merchant, 1);
    assert!(merchant.paused);
    unpause_merchant(&pool, &mut merchant);
    assert!(!merchant.paused);
}

#[test]
fn merchant_claim_pays_accrued_reward() {
    let mut pool = fresh_pool();
    let mut merchant = fresh_merchant(&mut pool);
    let mut mu = fresh_merchant_user(&pool, &mut merchant, 7);
    pool.reward_rate = 2;
    stake_token_to_merchant(&mut pool, &mut merchant, &mut mu, 10, 0, 0, 0).unwrap();
    // 5 seconds at rate 2 over 10 staked, all held through the merchant:
    // earned = 10 * (5 * 2 * PRECISION / 10) / PRECISION = 10.
    let transferred =
        claim_reward_for_merchant(&mut pool, &mut merchant, 10, 1_000_000, 5).unwrap();
    assert_eq!(transferred, 10);
    assert_eq!(merchant.reward_per_token_pending, 0);
    assert_eq!(merchant.last_updated_ts, 5);
    assert_eq!(merchant.reward_per_token_complete, PRECISION);
}

#[test]
fn merchant_claim_shortfall_stays_pending() {
    let mut pool = fresh_pool();
    let mut merchant = fresh_merchant(&mut pool);
    merchant.reward_per_token_pending = 100;
    // The vault holds 40: the whole vault is paid and 60 stays pending for
    // a future claim.
    let transferred = claim_reward_for_merchant(&mut pool, &mut merchant, 0, 40, 9).unwrap();
    assert_eq!(transferred, 40);
    assert_eq!(merchant.reward_per_token_pending, 60);
    assert_eq!(merchant.last_updated_ts, 9);
}

#[test]
fn merchant_claim_rejects_paused() {
    let mut pool = fresh_pool();
    let mut merchant = fresh_merchant(&mut pool);
    pool.paused = true;
    assert_eq!(
        claim_reward_for_merchant(&mut pool, &mut merchant, 0, 0, 1),
        Err(ErrorCode::PoolPaused)
    );
    pool.paused = false;
    merchant.paused = true;
    assert_eq!(
        claim_reward_for_merchant(&mut pool, &mut merchant, 0, 0, 1),
        Err(ErrorCode::MerchantPaused)
    );
}

#[test]
fn merchant_refresh_twice_is_a_no_op() {
    let mut pool = fresh_pool();
    let mut merchant = fresh_merchant(&mut pool);
    let mut mu = fresh_merchant_user(&pool, &mut merchant, 7);
    pool.reward_rate = 3;
    stake_token_to_merchant(&mut pool, &mut merchant, &mut mu, 50, 0, 10, 0).unwrap();

    staking_ledger::refresh::update_rewards_with_merchant(&mut pool, &mut merchant, 50, 60)
        .unwrap();
    let pool_after_first = pool.clone();
    let merchant_after_first = merchant.clone();

    staking_ledger::refresh::update_rewards_with_merchant(&mut pool, &mut merchant, 50, 60)
        .unwrap();
    assert_eq!(pool, pool_after_first);
    assert_eq!(merchant, merchant_after_first);
}

#[test]
fn merchant_update_ts_resets_only_from_zero_balance() {
    let mut pool = fresh_pool();
    let mut merchant = fresh_merchant(&mut pool);
    let mut mu = fresh_merchant_user(&pool, &mut merchant, 7);
    stake_token_to_merchant(&mut pool, &mut merchant, &mut mu, 10, 0, 3, 0).unwrap();
    assert_eq!(merchant.last_updated_ts, 3);
    // A later stake while the aggregate is non-zero leaves the timestamp.
    stake_token_to_merchant(&mut pool, &mut merchant, &mut mu, 10, 10, 8, 0).unwrap();
    assert_eq!(merchant.last_updated_ts, 3);
    // Draining to zero and staking again resets it.
    unstake_token_to_merchant(&mut pool, &mut merchant, &mut mu, 20, 20, 9).unwrap();
    stake_token_to_merchant(&mut pool, &mut merchant, &mut mu, 5, 0, 12, 0).unwrap();
    assert_eq!(merchant.last_updated_ts, 12);
}
