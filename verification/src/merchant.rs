use vstd::prelude::*;

use crate::accrual::{earned_checked, refreshed_merchant, refreshed_pool, PoolRewardCalculator};
use crate::errors::ErrorCode;
use crate::refresh::{lemma_accrued_index_monotone, refresh_principal_ok};
use crate::staking::{claim_transfer, next_end_ts};
use crate::state::{AccountId, Merchant, MerchantUser, Pool};

verus! {

/// Creates a merchant sub-pool under the main pool and registers it.
pub fn initialize_merchant_pool(
    pool: &mut Pool,
    pool_key: AccountId,
    merchant_key: AccountId,
    owner: AccountId,
    merchant_name: String,
    merchant_nonce: u8,
    current_ts: i64,
) -> (r: Result<Merchant, ErrorCode>)
    requires
        !old(pool).paused,
    ensures
        old(pool).merchant_count == u32::MAX ==> r == Err::<Merchant, ErrorCode>(
            ErrorCode::Overflow,
        ) && *final(pool) == *old(pool),
        old(pool).merchant_count < u32::MAX ==> {
            &&& r is Ok
            &&& r->Ok_0 == (Merchant {
                pool: pool_key,
                owner,
                reward_per_token_complete: 0,
                reward_per_token_pending: 0,
                self_balance_staked: 0,
                balance_staked: 0,
                merchant_user_stake_count: 0,
                merchant_user_stake_list: r->Ok_0.merchant_user_stake_list,
                merchant_name: r->Ok_0.merchant_name,
                created_at: current_ts,
                last_updated_ts: 0,
                nonce: merchant_nonce,
                paused: false,
            })
            &&& r->Ok_0.merchant_name == merchant_name
            &&& r->Ok_0.merchant_user_stake_list@ == Seq::<AccountId>::empty()
            &&& *final(pool) == (Pool {
                merchant_count: (old(pool).merchant_count + 1) as u32,
                merchant_stake_list: final(pool).merchant_stake_list,
                ..*old(pool)
            })
            &&& final(pool).merchant_stake_list@ == old(pool).merchant_stake_list@.push(
                merchant_key,
            )
        },
{
    let new_count = match pool.merchant_count.checked_add(1) {
        Some(v) => v,
        None => {
            return Err(ErrorCode::Overflow);
        },
    };
    pool.merchant_count = new_count;
    pool.merchant_stake_list.push(merchant_key);
    Ok(
        Merchant {
            pool: pool_key,
            owner,
            reward_per_token_complete: 0,
            reward_per_token_pending: 0,
            self_balance_staked: 0,
            balance_staked: 0,
            merchant_user_stake_count: 0,
            merchant_user_stake_list: Vec::new(),
            merchant_name,
            created_at: current_ts,
            last_updated_ts: 0,
            nonce: merchant_nonce,
            paused: false,
        },
    )
}

/// Opens a sub-user staking account under a merchant and registers it.
pub fn create_merchant_user(
    pool: &Pool,
    merchant: &mut Merchant,
    pool_key: AccountId,
    merchant_key: AccountId,
    merchant_user_key: AccountId,
    owner: AccountId,
    nonce: u8,
    current_ts: i64,
) -> (r: Result<MerchantUser, ErrorCode>)
    requires
        !pool.paused,
        !old(merchant).paused,
    ensures
        old(merchant).merchant_user_stake_count == u32::MAX ==> r == Err::<
            MerchantUser,
            ErrorCode,
        >(ErrorCode::Overflow) && *final(merchant) == *old(merchant),
        old(merchant).merchant_user_stake_count < u32::MAX ==> {
            &&& r is Ok
            &&& r->Ok_0 == (MerchantUser {
                pool: pool_key,
                merchant: merchant_key,
                owner,
                balance_staked: 0,
                registerd_at: current_ts,
                first_staked_ts: 0,
                staked_ts: 0,
                staked_count: 0,
                claimed_ts: 0,
                claimed_count: 0,
                end_ts: 0,
                nonce,
            })
            &&& *final(merchant) == (Merchant {
                merchant_user_stake_count: (old(merchant).merchant_user_stake_count + 1) as u32,
                merchant_user_stake_list: final(merchant).merchant_user_stake_list,
                ..*old(merchant)
            })
            &&& final(merchant).merchant_user_stake_list@ == old(
                merchant,
            ).merchant_user_stake_list@.push(merchant_user_key)
        },
{
    let new_count = match merchant.merchant_user_stake_count.checked_add(1) {
        Some(v) => v,
        None => {
            return Err(ErrorCode::Overflow);
        },
    };
    merchant.merchant_user_stake_count = new_count;
    merchant.merchant_user_stake_list.push(merchant_user_key);
    Ok(
        MerchantUser {
            pool: pool_key,
            merchant: merchant_key,
            owner,
            balance_staked: 0,
            registerd_at: current_ts,
            first_staked_ts: 0,
            staked_ts: 0,
            staked_count: 0,
            claimed_ts: 0,
            claimed_count: 0,
            end_ts: 0,
            nonce,
        },
    )
}

/// Pauses the merchant.  Gated to its owner by the external access-control
/// collaborator; the main pool must be unpaused and its reward period over.
pub fn pause_merchant(pool: &Pool, merchant: &mut Merchant, current_ts: i64)
    requires
        !pool.paused,
        current_ts >= 0,
        pool.reward_duration_end < current_ts as u64,
        !old(merchant).paused,
    ensures
        *final(merchant) == (Merchant { paused: true, ..*old(merchant) }),
{
    merchant.paused = true;
}

/// Unpauses a previously paused merchant.
pub fn unpause_merchant(pool: &Pool, merchant: &mut Merchant)
    requires
        !pool.paused,
        old(merchant).paused,
    ensures
        *final(merchant) == (Merchant { paused: false, ..*old(merchant) }),
{
    merchant.paused = false;
}

/// Whether every checked computation of `stake_token_to_merchant` stays in
/// range.
pub open spec fn merchant_stake_fits(
    p: Pool,
    m: Merchant,
    mu: MerchantUser,
    amount: u64,
    total_staked: u64,
    current_ts: i64,
    locking_period: i64,
) -> bool {
    &&& refresh_principal_ok(
        p,
        m.balance_staked,
        m.reward_per_token_complete,
        m.reward_per_token_pending,
        total_staked,
        current_ts as u64,
    )
    &&& i64::MIN <= next_end_ts(mu.staked_count, mu.end_ts, current_ts, locking_period)
        <= i64::MAX
    &&& m.balance_staked + amount <= u64::MAX
    &&& mu.balance_staked + amount <= u64::MAX
    &&& mu.staked_count + 1 <= u32::MAX
}

/// The merchant record after a sub-user's stake settled against accumulator
/// value `index`: the aggregate balance rises and, when it rises from zero,
/// the merchant's update timestamp resets.
pub open spec fn merchant_staked(m: Merchant, index: u128, amount: u64, current_ts: i64) -> Merchant {
    Merchant {
        balance_staked: (m.balance_staked + amount) as u64,
        last_updated_ts: if m.balance_staked == 0 {
            current_ts
        } else {
            m.last_updated_ts
        },
        ..refreshed_merchant(m, index)
    }
}

/// The sub-user record after its stake: the same balance, timestamp and
/// lock-extension policy as a main-pool stake.
pub open spec fn merchant_user_staked(
    mu: MerchantUser,
    amount: u64,
    current_ts: i64,
    locking_period: i64,
) -> MerchantUser {
    MerchantUser {
        balance_staked: (mu.balance_staked + amount) as u64,
        first_staked_ts: if mu.staked_count == 0 {
            current_ts
        } else {
            mu.first_staked_ts
        },
        claimed_ts: if mu.staked_count == 0 || mu.balance_staked == 0 {
            current_ts
        } else {
            mu.claimed_ts
        },
        staked_ts: current_ts,
        staked_count: (mu.staked_count + 1) as u32,
        end_ts: next_end_ts(mu.staked_count, mu.end_ts, current_ts, locking_period) as i64,
        ..mu
    }
}

/// A sub-user stakes tokens in a merchant sub-pool.  The merchant carries
/// the reward settlement (rewards flow to the merchant, not the sub-user);
/// the merchant's aggregate balance and the sub-user's balance rise in step.
/// On success the environment transfers `amount` from the staker into the
/// staking vault.
pub fn stake_token_to_merchant(
    pool: &mut Pool,
    merchant: &mut Merchant,
    merchant_user: &mut MerchantUser,
    amount: u64,
    total_staked: u64,
    current_ts: i64,
    locking_period: i64,
) -> (r: Result<(), ErrorCode>)
    requires
        current_ts >= 0,
        old(pool).last_update_time <= current_ts as u64,
        old(merchant).reward_per_token_complete <= old(pool).reward_per_token_stored,
    ensures
        amount == 0 ==> r == Err::<(), ErrorCode>(ErrorCode::AmountMustBeGreaterThanZero)
            && *final(pool) == *old(pool) && *final(merchant) == *old(merchant)
            && *final(merchant_user) == *old(merchant_user),
        amount != 0 && old(pool).paused ==> r == Err::<(), ErrorCode>(ErrorCode::PoolPaused)
            && *final(pool) == *old(pool) && *final(merchant) == *old(merchant)
            && *final(merchant_user) == *old(merchant_user),
        amount != 0 && !old(pool).paused && old(merchant).paused ==> r == Err::<(), ErrorCode>(
            ErrorCode::MerchantPaused,
        ) && *final(pool) == *old(pool) && *final(merchant) == *old(merchant)
            && *final(merchant_user) == *old(merchant_user),
        amount != 0 && !old(pool).paused && !old(merchant).paused && !merchant_stake_fits(
            *old(pool),
            *old(merchant),
            *old(merchant_user),
            amount,
            total_staked,
            current_ts,
            locking_period,
        ) ==> r == Err::<(), ErrorCode>(ErrorCode::Overflow) && *final(pool) == *old(pool)
            && *final(merchant) == *old(merchant) && *final(merchant_user) == *old(merchant_user),
        amount != 0 && !old(pool).paused && !old(merchant).paused && merchant_stake_fits(
            *old(pool),
            *old(merchant),
            *old(merchant_user),
            amount,
            total_staked,
            current_ts,
            locking_period,
        ) ==> {
            &&& r == Ok::<(), ErrorCode>(())
            &&& *final(pool) == refreshed_pool(*old(pool), total_staked, current_ts as u64)
            &&& *final(merchant) == merchant_staked(
                *old(merchant),
                refreshed_pool(
                    *old(pool),
                    total_staked,
                    current_ts as u64,
                ).reward_per_token_stored,
                amount,
                current_ts,
            )
            &&& *final(merchant_user) == merchant_user_staked(
                *old(merchant_user),
                amount,
                current_ts,
                locking_period,
            )
        },
{
    if amount == 0 {
        return Err(ErrorCode::AmountMustBeGreaterThanZero);
    }
    if pool.paused {
        return Err(ErrorCode::PoolPaused);
    }
    if merchant.paused {
        return Err(ErrorCode::MerchantPaused);
    }
    let now: u64 = current_ts as u64;
    let calc = PoolRewardCalculator;
    let index = match calc.reward_per_token(pool, total_staked, now) {
        Ok(v) => v,
        Err(e) => {
            return Err(e);
        },
    };
    proof {
        lemma_accrued_index_monotone(*pool, total_staked, now);
    }
    let new_pending = match earned_checked(
        merchant.balance_staked,
        index,
        merchant.reward_per_token_complete,
        merchant.reward_per_token_pending,
    ) {
        Ok(v) => v,
        Err(e) => {
            return Err(e);
        },
    };
    let new_end_ts: i64 = if merchant_user.staked_count == 0 {
        match current_ts.checked_add(locking_period) {
            Some(v) => v,
            None => {
                return Err(ErrorCode::Overflow);
            },
        }
    } else if merchant_user.end_ts > current_ts {
        match merchant_user.end_ts.checked_add(locking_period) {
            Some(v) => v,
            None => {
                return Err(ErrorCode::Overflow);
            },
        }
    } else {
        match current_ts.checked_add(locking_period) {
            Some(v) => v,
            None => {
                return Err(ErrorCode::Overflow);
            },
        }
    };
    let new_merchant_balance = match merchant.balance_staked.checked_add(amount) {
        Some(v) => v,
        None => {
            return Err(ErrorCode::Overflow);
        },
    };
    let new_user_balance = match merchant_user.balance_staked.checked_add(amount) {
        Some(v) => v,
        None => {
            return Err(ErrorCode::Overflow);
        },
    };
    let new_count = match merchant_user.staked_count.checked_add(1) {
        Some(v) => v,
        None => {
            return Err(ErrorCode::Overflow);
        },
    };
    pool.reward_per_token_stored = index;
    pool.last_update_time = now;
    merchant.reward_per_token_pending = new_pending;
    merchant.reward_per_token_complete = index;
    if merchant.balance_staked == 0 {
        merchant.last_updated_ts = current_ts;
    }
    if merchant_user.staked_count == 0 {
        merchant_user.claimed_ts = current_ts;
        merchant_user.first_staked_ts = current_ts;
    }
    if merchant_user.balance_staked == 0 {
        merchant_user.claimed_ts = current_ts;
    }
    merchant.balance_staked = new_merchant_balance;
    merchant_user.end_ts = new_end_ts;
    merchant_user.balance_staked = new_user_balance;
    merchant_user.staked_ts = current_ts;
    merchant_user.staked_count = new_count;
    Ok(())
}

/// A sub-user unstakes tokens from a merchant sub-pool once the lock has
/// expired; the merchant's aggregate balance falls in step.  On success the
/// environment transfers `amount` from the staking vault back to the
/// sub-user.
pub fn unstake_token_to_merchant(
    pool: &mut Pool,
    merchant: &mut Merchant,
    merchant_user: &mut MerchantUser,
    amount: u64,
    total_staked: u64,
    current_ts: i64,
) -> (r: Result<(), ErrorCode>)
    requires
        current_ts >= 0,
        old(pool).last_update_time <= current_ts as u64,
        old(merchant).reward_per_token_complete <= old(pool).reward_per_token_stored,
        old(merchant).balance_staked >= old(merchant_user).balance_staked,
    ensures
        amount == 0 ==> r == Err::<(), ErrorCode>(ErrorCode::AmountMustBeGreaterThanZero)
            && *final(pool) == *old(pool) && *final(merchant) == *old(merchant)
            && *final(merchant_user) == *old(merchant_user),
        amount != 0 && old(merchant_user).end_ts > current_ts ==> r == Err::<(), ErrorCode>(
            ErrorCode::UnstakingNotOver,
        ) && *final(pool) == *old(pool) && *final(merchant) == *old(merchant)
            && *final(merchant_user) == *old(merchant_user),
        amount != 0 && old(merchant_user).end_ts <= current_ts && old(pool).paused ==> r == Err::<
            (),
            ErrorCode,
        >(ErrorCode::PoolPaused) && *final(pool) == *old(pool) && *final(merchant) == *old(merchant)
            && *final(merchant_user) == *old(merchant_user),
        amount != 0 && old(merchant_user).end_ts <= current_ts && !old(pool).paused && old(
            merchant,
        ).paused ==> r == Err::<(), ErrorCode>(ErrorCode::MerchantPaused) && *final(pool) == *old(
            pool,
        ) && *final(merchant) == *old(merchant) && *final(merchant_user) == *old(merchant_user),
        amount != 0 && old(merchant_user).end_ts <= current_ts && !old(pool).paused && !old(
            merchant,
        ).paused && old(merchant_user).balance_staked < amount ==> r == Err::<(), ErrorCode>(
            ErrorCode::InsufficientFundUnstake,
        ) && *final(pool) == *old(pool) && *final(merchant) == *old(merchant)
            && *final(merchant_user) == *old(merchant_user),
        amount != 0 && old(merchant_user).end_ts <= current_ts && !old(pool).paused && !old(
            merchant,
        ).paused && old(merchant_user).balance_staked >= amount && !refresh_principal_ok(
            *old(pool),
            old(merchant).balance_staked,
            old(merchant).reward_per_token_complete,
            old(merchant).reward_per_token_pending,
            total_staked,
            current_ts as u64,
        ) ==> r == Err::<(), ErrorCode>(ErrorCode::Overflow) && *final(pool) == *old(pool)
            && *final(merchant) == *old(merchant) && *final(merchant_user) == *old(merchant_user),
        amount != 0 && old(merchant_user).end_ts <= current_ts && !old(pool).paused && !old(
            merchant,
        ).paused && old(merchant_user).balance_staked >= amount && refresh_principal_ok(
            *old(pool),
            old(merchant).balance_staked,
            old(merchant).reward_per_token_complete,
            old(merchant).reward_per_token_pending,
            total_staked,
            current_ts as u64,
        ) ==> {
            &&& r == Ok::<(), ErrorCode>(())
            &&& *final(pool) == refreshed_pool(*old(pool), total_staked, current_ts as u64)
            &&& *final(merchant) == (Merchant {
                balance_staked: (old(merchant).balance_staked - amount) as u64,
                ..refreshed_merchant(
                    *old(merchant),
                    refreshed_pool(
                        *old(pool),
                        total_staked,
                        current_ts as u64,
                    ).reward_per_token_stored,
                )
            })
            &&& *final(merchant_user) == (MerchantUser {
                balance_staked: (old(merchant_user).balance_staked - amount) as u64,
                ..*old(merchant_user)
            })
        },
{
    if amount == 0 {
        return Err(ErrorCode::AmountMustBeGreaterThanZero);
    }
    if merchant_user.end_ts > current_ts {
        return Err(ErrorCode::UnstakingNotOver);
    }
    if pool.paused {
        return Err(ErrorCode::PoolPaused);
    }
    if merchant.paused {
        return Err(ErrorCode::MerchantPaused);
    }
    if merchant_user.balance_staked < amount {
        return Err(ErrorCode::InsufficientFundUnstake);
    }
    let now: u64 = current_ts as u64;
    let calc = PoolRewardCalculator;
    let index = match calc.reward_per_token(pool, total_staked, now) {
        Ok(v) => v,
        Err(e) => {
            return Err(e);
        },
    };
    proof {
        lemma_accrued_index_monotone(*pool, total_staked, now);
    }
    let new_pending = match earned_checked(
        merchant.balance_staked,
        index,
        merchant.reward_per_token_complete,
        merchant.reward_per_token_pending,
    ) {
        Ok(v) => v,
        Err(e) => {
            return Err(e);
        },
    };
    pool.reward_per_token_stored = index;
    pool.last_update_time = now;
    merchant.reward_per_token_pending = new_pending;
    merchant.reward_per_token_complete = index;
    merchant_user.balance_staked = merchant_user.balance_staked - amount;
    merchant.balance_staked = merchant.balance_staked - amount;
    Ok(())
}

/// The merchant record after a claim settled against accumulator value
/// `index`: the paid part leaves the pending amount, any shortfall stays
/// pending for a future claim, and a paying claim records its time.
pub open spec fn merchant_claimed(
    m: Merchant,
    index: u128,
    reward_vault_balance: u64,
    current_ts: i64,
) -> Merchant {
    let settled = refreshed_merchant(m, index);
    let pending = settled.reward_per_token_pending;
    let paid = claim_transfer(pending, reward_vault_balance);
    if paid > 0 {
        Merchant {
            reward_per_token_pending: (pending - paid) as u64,
            last_updated_ts: current_ts,
            ..settled
        }
    } else {
        settled
    }
}

/// The merchant's owner claims the sub-pool's accrued rewards.  The
/// returned amount is what the environment transfers from the reward vault
/// to the merchant; when the vault holds less than is owed, the whole vault
/// is paid and the shortfall stays pending.
pub fn claim_reward_for_merchant(
    pool: &mut Pool,
    merchant: &mut Merchant,
    total_staked: u64,
    reward_vault_balance: u64,
    current_ts: i64,
) -> (r: Result<u64, ErrorCode>)
    requires
        current_ts >= 0,
        old(pool).last_update_time <= current_ts as u64,
        old(merchant).reward_per_token_complete <= old(pool).reward_per_token_stored,
    ensures
        old(pool).paused ==> r == Err::<u64, ErrorCode>(ErrorCode::PoolPaused) && *final(pool)
            == *old(pool) && *final(merchant) == *old(merchant),
        !old(pool).paused && old(merchant).paused ==> r == Err::<u64, ErrorCode>(
            ErrorCode::MerchantPaused,
        ) && *final(pool) == *old(pool) && *final(merchant) == *old(merchant),
        !old(pool).paused && !old(merchant).paused && !refresh_principal_ok(
            *old(pool),
            old(merchant).balance_staked,
            old(merchant).reward_per_token_complete,
            old(merchant).reward_per_token_pending,
            total_staked,
            current_ts as u64,
        ) ==> r == Err::<u64, ErrorCode>(ErrorCode::Overflow) && *final(pool) == *old(pool)
            && *final(merchant) == *old(merchant),
        !old(pool).paused && !old(merchant).paused && refresh_principal_ok(
            *old(pool),
            old(merchant).balance_staked,
            old(merchant).reward_per_token_complete,
            old(merchant).reward_per_token_pending,
            total_staked,
            current_ts as u64,
        ) ==> {
            &&& *final(pool) == refreshed_pool(*old(pool), total_staked, current_ts as u64)
            &&& *final(merchant) == merchant_claimed(
                *old(merchant),
                refreshed_pool(
                    *old(pool),
                    total_staked,
                    current_ts as u64,
                ).reward_per_token_stored,
                reward_vault_balance,
                current_ts,
            )
            &&& r == Ok::<u64, ErrorCode>(
                claim_transfer(
                    refreshed_merchant(
                        *old(merchant),
                        refreshed_pool(
                            *old(pool),
                            total_staked,
                            current_ts as u64,
                        ).reward_per_token_stored,
                    ).reward_per_token_pending,
                    reward_vault_balance,
                ) as u64,
            )
        },
{
    if pool.paused {
        return Err(ErrorCode::PoolPaused);
    }
    if merchant.paused {
        return Err(ErrorCode::MerchantPaused);
    }
    let now: u64 = current_ts as u64;
    let calc = PoolRewardCalculator;
    let index = match calc.reward_per_token(pool, total_staked, now) {
        Ok(v) => v,
        Err(e) => {
            return Err(e);
        },
    };
    proof {
        lemma_accrued_index_monotone(*pool, total_staked, now);
    }
    let pending = match earned_checked(
        merchant.balance_staked,
        index,
        merchant.reward_per_token_complete,
        merchant.reward_per_token_pending,
    ) {
        Ok(v) => v,
        Err(e) => {
            return Err(e);
        },
    };
    let mut new_pending: u64 = pending;
    let mut transferred: u64 = 0;
    if pending > 0 {
        if reward_vault_balance < pending {
            new_pending = pending - reward_vault_balance;
            transferred = reward_vault_balance;
        } else {
            new_pending = 0;
            transferred = pending;
        }
    }
    pool.reward_per_token_stored = index;
    pool.last_update_time = now;
    merchant.reward_per_token_pending = new_pending;
    merchant.reward_per_token_complete = index;
    if transferred > 0 {
        merchant.last_updated_ts = current_ts;
    }
    Ok(transferred)
}

} // verus!
