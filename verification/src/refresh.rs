use vstd::prelude::*;

use crate::accrual::{
    accrued_index, earned_checked, earned_fits, index_fits, lemma_earned_at_complete,
    refreshed_merchant, refreshed_pool, refreshed_user, PoolRewardCalculator, PRECISION,
};
use crate::errors::ErrorCode;
use crate::state::{Merchant, Pool, User};
use vstd::arithmetic::div_mod::{lemma_div_of0, lemma_div_pos_is_pos};
use vstd::arithmetic::mul::lemma_mul_nonnegative;

verus! {

/// The accumulator never moves backwards: a refresh at a later (or equal)
/// time yields a value at least as large as the stored one.
pub proof fn lemma_accrued_index_monotone(pool: Pool, total_staked: u64, now: u64)
    requires
        pool.last_update_time <= now,
    ensures
        accrued_index(pool, total_staked, now) >= pool.reward_per_token_stored as int,
{
    if total_staked != 0 {
        let elapsed = now as int - pool.last_update_time as int;
        lemma_mul_nonnegative(elapsed, pool.reward_rate as int);
        lemma_mul_nonnegative(elapsed * pool.reward_rate as int, PRECISION as int);
        lemma_div_pos_is_pos(
            elapsed * pool.reward_rate as int * PRECISION as int,
            total_staked as int,
        );
    }
}

/// Whether a refresh that settles a principal with balance `balance_staked`,
/// snapshot `complete` and owed amount `pending` stays within every integer
/// range.
pub open spec fn refresh_principal_ok(
    pool: Pool,
    balance_staked: u64,
    complete: u128,
    pending: u64,
    total_staked: u64,
    now: u64,
) -> bool {
    &&& index_fits(pool, total_staked, now)
    &&& earned_fits(
        balance_staked,
        accrued_index(pool, total_staked, now) as u128,
        complete,
        pending,
    )
}

/// Step 1 and 2 of the refresh protocol: bring the pool's reward-per-token
/// index up to `now` and record the refresh time.  Runs unconditionally
/// before every balance-changing operation.
pub fn update_rewards(pool: &mut Pool, total_staked: u64, now: u64) -> (r: Result<(), ErrorCode>)
    requires
        old(pool).last_update_time <= now,
    ensures
        index_fits(*old(pool), total_staked, now) ==> r == Ok::<(), ErrorCode>(()) && *final(pool)
            == refreshed_pool(*old(pool), total_staked, now),
        !index_fits(*old(pool), total_staked, now) ==> r == Err::<(), ErrorCode>(
            ErrorCode::Overflow,
        ) && *final(pool) == *old(pool),
{
    let calc = PoolRewardCalculator;
    let idx = match calc.reward_per_token(pool, total_staked, now) {
        Ok(v) => v,
        Err(e) => {
            return Err(e);
        },
    };
    pool.reward_per_token_stored = idx;
    pool.last_update_time = now;
    Ok(())
}

/// The full refresh for a user: the pool index advances, the user's owed
/// reward is settled against the new index, and the user's snapshot catches
/// up.  On any overflow nothing changes at all.
pub fn update_rewards_with_user(pool: &mut Pool, user: &mut User, total_staked: u64, now: u64) -> (r:
    Result<(), ErrorCode>)
    requires
        old(pool).last_update_time <= now,
        old(user).reward_per_token_complete <= old(pool).reward_per_token_stored,
    ensures
        refresh_principal_ok(
            *old(pool),
            old(user).balance_staked,
            old(user).reward_per_token_complete,
            old(user).reward_per_token_pending,
            total_staked,
            now,
        ) ==> {
            &&& r == Ok::<(), ErrorCode>(())
            &&& *final(pool) == refreshed_pool(*old(pool), total_staked, now)
            &&& *final(user) == refreshed_user(
                *old(user),
                refreshed_pool(*old(pool), total_staked, now).reward_per_token_stored,
            )
        },
        !refresh_principal_ok(
            *old(pool),
            old(user).balance_staked,
            old(user).reward_per_token_complete,
            old(user).reward_per_token_pending,
            total_staked,
            now,
        ) ==> r == Err::<(), ErrorCode>(ErrorCode::Overflow) && *final(pool) == *old(pool)
            && *final(user) == *old(user),
{
    let calc = PoolRewardCalculator;
    let idx = match calc.reward_per_token(pool, total_staked, now) {
        Ok(v) => v,
        Err(e) => {
            return Err(e);
        },
    };
    proof {
        lemma_accrued_index_monotone(*pool, total_staked, now);
    }
    let pend = match earned_checked(
        user.balance_staked,
        idx,
        user.reward_per_token_complete,
        user.reward_per_token_pending,
    ) {
        Ok(v) => v,
        Err(e) => {
            return Err(e);
        },
    };
    pool.reward_per_token_stored = idx;
    pool.last_update_time = now;
    user.reward_per_token_pending = pend;
    user.reward_per_token_complete = idx;
    Ok(())
}

/// The full refresh for a merchant, symmetric to the user refresh: the main
/// pool and its merchants are siblings sharing one global index.
pub fn update_rewards_with_merchant(
    pool: &mut Pool,
    merchant: &mut Merchant,
    total_staked: u64,
    now: u64,
) -> (r: Result<(), ErrorCode>)
    requires
        old(pool).last_update_time <= now,
        old(merchant).reward_per_token_complete <= old(pool).reward_per_token_stored,
    ensures
        refresh_principal_ok(
            *old(pool),
            old(merchant).balance_staked,
            old(merchant).reward_per_token_complete,
            old(merchant).reward_per_token_pending,
            total_staked,
            now,
        ) ==> {
            &&& r == Ok::<(), ErrorCode>(())
            &&& *final(pool) == refreshed_pool(*old(pool), total_staked, now)
            &&& *final(merchant) == refreshed_merchant(
                *old(merchant),
                refreshed_pool(*old(pool), total_staked, now).reward_per_token_stored,
            )
        },
        !refresh_principal_ok(
            *old(pool),
            old(merchant).balance_staked,
            old(merchant).reward_per_token_complete,
            old(merchant).reward_per_token_pending,
            total_staked,
            now,
        ) ==> r == Err::<(), ErrorCode>(ErrorCode::Overflow) && *final(pool) == *old(pool)
            && *final(merchant) == *old(merchant),
{
    let calc = PoolRewardCalculator;
    let idx = match calc.reward_per_token(pool, total_staked, now) {
        Ok(v) => v,
        Err(e) => {
            return Err(e);
        },
    };
    proof {
        lemma_accrued_index_monotone(*pool, total_staked, now);
    }
    let pend = match earned_checked(
        merchant.balance_staked,
        idx,
        merchant.reward_per_token_complete,
        merchant.reward_per_token_pending,
    ) {
        Ok(v) => v,
        Err(e) => {
            return Err(e);
        },
    };
    pool.reward_per_token_stored = idx;
    pool.last_update_time = now;
    merchant.reward_per_token_pending = pend;
    merchant.reward_per_token_complete = idx;
    Ok(())
}

/// A second refresh at the same time with the same staked total is a no-op:
/// the accumulator, the refresh timestamp, the settled snapshot and the
/// pending reward all stay exactly as the first refresh left them.
pub proof fn lemma_refresh_idempotent(pool: Pool, user: User, total_staked: u64, now: u64)
    requires
        pool.last_update_time <= now,
        user.reward_per_token_complete <= pool.reward_per_token_stored,
        refresh_principal_ok(
            pool,
            user.balance_staked,
            user.reward_per_token_complete,
            user.reward_per_token_pending,
            total_staked,
            now,
        ),
    ensures
        ({
            let pool1 = refreshed_pool(pool, total_staked, now);
            let user1 = refreshed_user(user, pool1.reward_per_token_stored);
            &&& refresh_principal_ok(
                pool1,
                user1.balance_staked,
                user1.reward_per_token_complete,
                user1.reward_per_token_pending,
                total_staked,
                now,
            )
            &&& refreshed_pool(pool1, total_staked, now) == pool1
            &&& refreshed_user(user1, pool1.reward_per_token_stored) == user1
        }),
{
    let pool1 = refreshed_pool(pool, total_staked, now);
    let user1 = refreshed_user(user, pool1.reward_per_token_stored);
    if total_staked != 0 {
        assert((now as int - now as int) * pool1.reward_rate as int * PRECISION as int == 0);
        lemma_div_of0(total_staked as int);
    }
    assert(accrued_index(pool1, total_staked, now) == pool1.reward_per_token_stored as int);
    assert(refreshed_pool(pool1, total_staked, now) == pool1);
    lemma_earned_at_complete(
        user1.balance_staked,
        pool1.reward_per_token_stored,
        user1.reward_per_token_pending,
    );
    assert(user1.balance_staked as int * 0 == 0) by (nonlinear_arith);
    assert(refreshed_user(user1, pool1.reward_per_token_stored) == user1);
}

} // verus!
