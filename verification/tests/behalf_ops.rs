use staking_ledger::errors::ErrorCode;
use staking_ledger::staking::{
    create_user, initialize_main_pool, stake_on_behalf, unstake, withdraw,
};
use staking_ledger::state::{Pool, User};

fn fresh_pool() -> Pool {
    initialize_main_pool(1, 0, 10, 11, 20, 21, 86400).unwrap()
}

fn fresh_user(pool: &mut Pool, owner: u64) -> User {
    create_user(pool, 100, owner + 1000, owner, 0, 0).unwrap()
}

#[test]
fn stake_on_behalf_rejects_zero_amount() {
    let mut pool = fresh_pool();
    let mut user = fresh_user(&mut pool, 7);
    assert_eq!(
        stake_on_behalf(&mut pool, &mut user, 1007, 0, 0, 1),
        Err(ErrorCode::AmountMustBeGreaterThanZero)
    );
}

#[test]
fn stake_on_behalf_records_entry_and_total_only() {
    let mut pool = fresh_pool();
    let mut user = fresh_user(&mut pool, 7);
    stake_on_behalf(&mut pool, &mut user, 1007, 100, 0, 3).unwrap();
    // The admin-funded stake raises only the total balance; the self-funded
    // balance stays, so unstake cannot withdraw it.
    assert_eq!(user.balance_staked, 100);
    assert_eq!(user.balance_self_staked, 0);
    assert_eq!(user.staked_count, 1);
    assert_eq!(user.behalf_stakes.len(), 1);
    assert_eq!(user.behalf_stakes[0].staked_ts, 3);
    assert_eq!(user.behalf_stakes[0].amount, 100);
    assert!(!user.behalf_stakes[0].claimed);
    assert_eq!(pool.passive_stakers_list, vec![1007]);
}

#[test]
fn stake_on_behalf_registers_passive_staker_once() {
    let mut pool = fresh_pool();
    let mut user = fresh_user(&mut pool, 7);
    stake_on_behalf(&mut pool, &mut user, 1007, 10, 0, 1).unwrap();
    stake_on_behalf(&mut pool, &mut user, 1007, 20, 10, 2).unwrap();
    assert_eq!(pool.passive_stakers_list, vec![1007]);
    assert_eq!(user.behalf_stakes.len(), 2);
    assert_eq!(user.balance_staked, 30);
}

#[test]
fn behalf_stake_cannot_be_unstaked() {
    let mut pool = fresh_pool();
    let mut user = fresh_user(&mut pool, 7);
    stake_on_behalf(&mut pool, &mut user, 1007, 100, 0, 0).unwrap();
    assert_eq!(
        unstake(&mut pool, &mut user, 1, 100, 50),
        Err(ErrorCode::InsufficientFundUnstake)
    );
}

#[test]
fn withdraw_pays_the_recorded_amount() {
    let mut pool = fresh_pool();
    let mut user = fresh_user(&mut pool, 7);
    stake_on_behalf(&mut pool, &mut user, 1007, 100, 0, 0).unwrap();
    // The behalf lock period is one second; withdrawing at t=5 is allowed.
    let transferred = withdraw(&mut pool, &mut user, 0, 100, 5).unwrap();
    assert_eq!(transferred, 100);
    assert!(user.behalf_stakes[0].claimed);
    assert_eq!(user.balance_staked, 0);
    assert_eq!(user.balance_self_staked, 0);
}

#[test]
fn withdraw_twice_fails_with_already_withdrawn() {
    let mut pool = fresh_pool();
    let mut user = fresh_user(&mut pool, 7);
    stake_on_behalf(&mut pool, &mut user, 1007, 100, 0, 0).unwrap();
    withdraw(&mut pool, &mut user, 0, 100, 5).unwrap();
    let before_pool = pool.clone();
    let before_user = user.clone();
    assert_eq!(
        withdraw(&mut pool, &mut user, 0, 0, 6),
        Err(ErrorCode::AlreadyWithdrawn)
    );
    assert_eq!(pool, before_pool);
    assert_eq!(user, before_user);
}

#[test]
fn withdraw_before_lock_fails() {
    let mut pool = fresh_pool();
    let mut user = fresh_user(&mut pool, 7);
    stake_on_behalf(&mut pool, &mut user, 1007, 100, 0, 10).unwrap();
    // The entry is locked until its timestamp plus the behalf lock period.
    assert_eq!(
        withdraw(&mut pool, &mut user, 0, 100, 10),
        Err(ErrorCode::NotTimeToWithdrawTokens)
    );
    // One second later the lock has passed.
    assert_eq!(withdraw(&mut pool, &mut user, 0, 100, 11).unwrap(), 100);
}

#[test]
fn withdraw_keeps_other_entries_in_place() {
    let mut pool = fresh_pool();
    let mut user = fresh_user(&mut pool, 7);
    stake_on_behalf(&mut pool, &mut user, 1007, 10, 0, 0).unwrap();
    stake_on_behalf(&mut pool, &mut user, 1007, 20, 10, 1).unwrap();
    stake_on_behalf(&mut pool, &mut user, 1007, 30, 30, 2).unwrap();
    let transferred = withdraw(&mut pool, &mut user, 1, 60, 9).unwrap();
    assert_eq!(transferred, 20);
    assert_eq!(user.balance_staked, 40);
    // Entries keep their positions: external callers address them by index.
    assert_eq!(user.behalf_stakes.len(), 3);
    assert!(!user.behalf_stakes[0].claimed);
    assert!(user.behalf_stakes[1].claimed);
    assert!(!user.behalf_stakes[2].claimed);
    assert_eq!(user.behalf_stakes[2].amount, 30);
}

#[test]
fn withdraw_zero_entry_fails_with_no_tokens() {
    let mut pool = fresh_pool();
    let mut user = fresh_user(&mut pool, 7);
    // A zero-amount entry can only exist in a hand-built record.
    user.behalf_stakes.push(staking_ledger::state::BehalfStakeEntry {
        staked_ts: 0,
        amount: 0,
        claimed: false,
    });
    assert_eq!(
        withdraw(&mut pool, &mut user, 0, 0, 5),
        Err(ErrorCode::NoTokensToWithdraw)
    );
}

#[test]
fn withdraw_rejects_paused_pool() {
    let mut pool = fresh_pool();
    let mut user = fresh_user(&mut pool, 7);
    stake_on_behalf(&mut pool, &mut user, 1007, 100, 0, 0).unwrap();
    staking_ledger::staking::pause(&mut pool, 1);
    assert_eq!(
        withdraw(&mut pool, &mut user, 0, 100, 5),
        Err(ErrorCode::PoolPaused)
    );
}

#[test]
fn stake_on_behalf_rejects_paused_pool() {
    let mut pool = fresh_pool();
    let mut user = fresh_user(&mut pool, 7);
    staking_ledger::staking::pause(&mut pool, 1);
    assert_eq!(
        stake_on_behalf(&mut pool, &mut user, 1007, 10, 0, 2),
        Err(ErrorCode::PoolPaused)
    );
}
