use vstd::prelude::*;

use crate::accrual::{earned_checked, refreshed_pool, refreshed_user, PoolRewardCalculator};
use crate::errors::ErrorCode;
use crate::refresh::{lemma_accrued_index_monotone, refresh_principal_ok};
use crate::state::{
    lemma_sum_self_staked_update, lemma_sum_unclaimed_behalf_bound,
    lemma_sum_unclaimed_behalf_claim, lemma_sum_unclaimed_behalf_push, sum_self_staked, user_wf,
    AccountId, BehalfStakeEntry, Pool, User,
};

verus! {

/// Shortest reward duration a pool can be created with, in seconds.
pub const MIN_DURATION: u64 = 1;

/// Lock period of an admin-funded stake entry, in seconds.
pub const LOCKING_PERIOD_OF_STAKING_ON_BEHALF: i64 = 1;

/// Creates the main pool record.  Rejected only when the reward duration is
/// shorter than `MIN_DURATION`.
pub fn initialize_main_pool(
    authority: AccountId,
    pool_nonce: u8,
    staking_mint: AccountId,
    staking_vault: AccountId,
    reward_mint: AccountId,
    reward_vault: AccountId,
    reward_duration: u64,
) -> (r: Result<Pool, ErrorCode>)
    ensures
        reward_duration < MIN_DURATION ==> r == Err::<Pool, ErrorCode>(ErrorCode::DurationTooShort),
        reward_duration >= MIN_DURATION ==> {
            &&& r is Ok
            &&& r->Ok_0 == (Pool {
                authority,
                nonce: pool_nonce,
                paused: false,
                staking_mint,
                staking_vault,
                reward_mint,
                reward_vault,
                reward_duration,
                reward_duration_end: 0,
                last_update_time: 0,
                reward_rate: 0,
                reward_per_token_stored: 0,
                user_stake_count: 0,
                merchant_count: 0,
                user_stake_list: r->Ok_0.user_stake_list,
                merchant_stake_list: r->Ok_0.merchant_stake_list,
                passive_stakers_list: r->Ok_0.passive_stakers_list,
                funders: r->Ok_0.funders,
            })
            &&& r->Ok_0.user_stake_list@ == Seq::<AccountId>::empty()
            &&& r->Ok_0.merchant_stake_list@ == Seq::<AccountId>::empty()
            &&& r->Ok_0.passive_stakers_list@ == Seq::<AccountId>::empty()
            &&& r->Ok_0.funders@ == Seq::<AccountId>::empty()
        },
{
    if reward_duration < MIN_DURATION {
        return Err(ErrorCode::DurationTooShort);
    }
    Ok(
        Pool {
            authority,
            nonce: pool_nonce,
            paused: false,
            staking_mint,
            staking_vault,
            reward_mint,
            reward_vault,
            reward_duration,
            reward_duration_end: 0,
            last_update_time: 0,
            reward_rate: 0,
            reward_per_token_stored: 0,
            user_stake_count: 0,
            merchant_count: 0,
            user_stake_list: Vec::new(),
            merchant_stake_list: Vec::new(),
            passive_stakers_list: Vec::new(),
            funders: Vec::new(),
        },
    )
}

/// Opens a user staking account in the pool and registers it.  The host
/// store guarantees at most one account per (owner, pool) pair.
pub fn create_user(
    pool: &mut Pool,
    pool_key: AccountId,
    user_key: AccountId,
    owner: AccountId,
    nonce: u8,
    current_ts: i64,
) -> (r: Result<User, ErrorCode>)
    requires
        !old(pool).paused,
    ensures
        old(pool).user_stake_count == u32::MAX ==> r == Err::<User, ErrorCode>(ErrorCode::Overflow)
            && *final(pool) == *old(pool),
        old(pool).user_stake_count < u32::MAX ==> {
            &&& r is Ok
            &&& r->Ok_0 == (User {
                pool: pool_key,
                owner,
                reward_per_token_complete: 0,
                reward_per_token_pending: 0,
                balance_staked: 0,
                balance_self_staked: 0,
                registerd_at: current_ts,
                first_staked_ts: 0,
                staked_ts: 0,
                staked_count: 0,
                claimed_ts: 0,
                claimed_count: 0,
                end_ts: 0,
                nonce,
                behalf_stakes: r->Ok_0.behalf_stakes,
            })
            &&& r->Ok_0.behalf_stakes@ == Seq::<BehalfStakeEntry>::empty()
            &&& user_wf(r->Ok_0)
            &&& *final(pool) == (Pool {
                user_stake_count: (old(pool).user_stake_count + 1) as u32,
                user_stake_list: final(pool).user_stake_list,
                ..*old(pool)
            })
            &&& final(pool).user_stake_list@ == old(pool).user_stake_list@.push(user_key)
        },
{
    let new_count = match pool.user_stake_count.checked_add(1) {
        Some(v) => v,
        None => {
            return Err(ErrorCode::Overflow);
        },
    };
    pool.user_stake_count = new_count;
    pool.user_stake_list.push(user_key);
    Ok(
        User {
            pool: pool_key,
            owner,
            reward_per_token_complete: 0,
            reward_per_token_pending: 0,
            balance_staked: 0,
            balance_self_staked: 0,
            registerd_at: current_ts,
            first_staked_ts: 0,
            staked_ts: 0,
            staked_count: 0,
            claimed_ts: 0,
            claimed_count: 0,
            end_ts: 0,
            nonce,
            behalf_stakes: Vec::new(),
        },
    )
}

/// Pauses the pool.  The caller must be the pool authority (verified by the
/// external access-control collaborator); a pool can only be paused once its
/// reward period is over, and pausing blocks new stakes but not unstaking or
/// claiming.
pub fn pause(pool: &mut Pool, current_ts: i64)
    requires
        !old(pool).paused,
        current_ts >= 0,
        old(pool).reward_duration_end < current_ts as u64,
    ensures
        *final(pool) == (Pool { paused: true, ..*old(pool) }),
{
    pool.paused = true;
}

/// Unpauses a previously paused pool.  The caller must be the pool
/// authority (verified externally).
pub fn unpause(pool: &mut Pool)
    requires
        old(pool).paused,
    ensures
        *final(pool) == (Pool { paused: false, ..*old(pool) }),
{
    pool.paused = false;
}

/// The lock-end policy shared by every staking tier: a first stake starts a
/// fresh lock; a stake while the previous lock still runs extends it
/// additively by the new locking period; a stake after expiry starts a fresh
/// lock again.
pub open spec fn next_end_ts(
    staked_count: u32,
    end_ts: i64,
    current_ts: i64,
    locking_period: i64,
) -> int {
    if staked_count == 0 {
        current_ts + locking_period
    } else if end_ts > current_ts {
        end_ts + locking_period
    } else {
        current_ts + locking_period
    }
}

/// The lock end a stake gives the user record.
pub open spec fn stake_end_ts(u: User, current_ts: i64, locking_period: i64) -> int {
    next_end_ts(u.staked_count, u.end_ts, current_ts, locking_period)
}

/// Whether every checked computation of `stake` stays in range.
pub open spec fn stake_fits(
    p: Pool,
    u: User,
    amount: u64,
    total_staked: u64,
    current_ts: i64,
    locking_period: i64,
) -> bool {
    &&& refresh_principal_ok(
        p,
        u.balance_staked,
        u.reward_per_token_complete,
        u.reward_per_token_pending,
        total_staked,
        current_ts as u64,
    )
    &&& i64::MIN <= stake_end_ts(u, current_ts, locking_period) <= i64::MAX
    &&& u.balance_staked + amount <= u64::MAX
    &&& u.balance_self_staked + amount <= u64::MAX
    &&& u.staked_count + 1 <= u32::MAX
}

/// The user record after a successful stake settled against accumulator
/// value `index`.
pub open spec fn staked_user(
    u: User,
    index: u128,
    amount: u64,
    current_ts: i64,
    locking_period: i64,
) -> User {
    User {
        balance_staked: (u.balance_staked + amount) as u64,
        balance_self_staked: (u.balance_self_staked + amount) as u64,
        first_staked_ts: if u.staked_count == 0 {
            current_ts
        } else {
            u.first_staked_ts
        },
        claimed_ts: if u.staked_count == 0 || u.balance_staked == 0 {
            current_ts
        } else {
            u.claimed_ts
        },
        staked_ts: current_ts,
        staked_count: (u.staked_count + 1) as u32,
        end_ts: stake_end_ts(u, current_ts, locking_period) as i64,
        ..refreshed_user(u, index)
    }
}

/// A user stakes `amount` self-funded tokens in the main pool.  On success
/// the environment transfers `amount` from the staker's token account into
/// the staking vault, authorized by the staker; `total_staked` is the
/// staking vault's balance read before that transfer.
pub fn stake(
    pool: &mut Pool,
    user: &mut User,
    amount: u64,
    total_staked: u64,
    current_ts: i64,
    locking_period: i64,
) -> (r: Result<(), ErrorCode>)
    requires
        current_ts >= 0,
        old(pool).last_update_time <= current_ts as u64,
        old(user).reward_per_token_complete <= old(pool).reward_per_token_stored,
        user_wf(*old(user)),
    ensures
        user_wf(*final(user)),
        amount == 0 ==> r == Err::<(), ErrorCode>(ErrorCode::AmountMustBeGreaterThanZero)
            && *final(pool) == *old(pool) && *final(user) == *old(user),
        amount != 0 && old(pool).paused ==> r == Err::<(), ErrorCode>(ErrorCode::PoolPaused)
            && *final(pool) == *old(pool) && *final(user) == *old(user),
        amount != 0 && !old(pool).paused && !stake_fits(
            *old(pool),
            *old(user),
            amount,
            total_staked,
            current_ts,
            locking_period,
        ) ==> r == Err::<(), ErrorCode>(ErrorCode::Overflow) && *final(pool) == *old(pool)
            && *final(user) == *old(user),
        amount != 0 && !old(pool).paused && stake_fits(
            *old(pool),
            *old(user),
            amount,
            total_staked,
            current_ts,
            locking_period,
        ) ==> {
            &&& r == Ok::<(), ErrorCode>(())
            &&& *final(pool) == refreshed_pool(*old(pool), total_staked, current_ts as u64)
            &&& *final(user) == staked_user(
                *old(user),
                refreshed_pool(
                    *old(pool),
                    total_staked,
                    current_ts as u64,
                ).reward_per_token_stored,
                amount,
                current_ts,
                locking_period,
            )
        },
{
    if amount == 0 {
        return Err(ErrorCode::AmountMustBeGreaterThanZero);
    }
    if pool.paused {
        return Err(ErrorCode::PoolPaused);
    }
    let now: u64 = current_ts as u64;
    let calc = PoolRewardCalculator;
    let index = match calc.reward_per_token(pool, total_staked, now) {
        Ok(v) => v,
        Err(e) => {
            return Err(e);
        },
    };
    proof {
        lemma_accrued_index_monotone(*pool, total_staked, now);
    }
    let new_pending = match earned_checked(
        user.balance_staked,
        index,
        user.reward_per_token_complete,
        user.reward_per_token_pending,
    ) {
        Ok(v) => v,
        Err(e) => {
            return Err(e);
        },
    };
    let new_end_ts: i64 = if user.staked_count == 0 {
        match current_ts.checked_add(locking_period) {
            Some(v) => v,
            None => {
                return Err(ErrorCode::Overflow);
            },
        }
    } else if user.end_ts > current_ts {
        match user.end_ts.checked_add(locking_period) {
            Some(v) => v,
            None => {
                return Err(ErrorCode::Overflow);
            },
        }
    } else {
        match current_ts.checked_add(locking_period) {
            Some(v) => v,
            None => {
                return Err(ErrorCode::Overflow);
            },
        }
    };
    let new_balance = match user.balance_staked.checked_add(amount) {
        Some(v) => v,
        None => {
            return Err(ErrorCode::Overflow);
        },
    };
    let new_self = match user.balance_self_staked.checked_add(amount) {
        Some(v) => v,
        None => {
            return Err(ErrorCode::Overflow);
        },
    };
    let new_count = match user.staked_count.checked_add(1) {
        Some(v) => v,
        None => {
            return Err(ErrorCode::Overflow);
        },
    };
    pool.reward_per_token_stored = index;
    pool.last_update_time = now;
    user.reward_per_token_pending = new_pending;
    user.reward_per_token_complete = index;
    if user.staked_count == 0 {
        user.claimed_ts = current_ts;
        user.first_staked_ts = current_ts;
    }
    if user.balance_staked == 0 {
        user.claimed_ts = current_ts;
    }
    user.end_ts = new_end_ts;
    user.balance_staked = new_balance;
    user.balance_self_staked = new_self;
    user.staked_ts = current_ts;
    user.staked_count = new_count;
    Ok(())
}

/// The user record after a successful unstake settled against accumulator
/// value `index`.
pub open spec fn unstaked_user(u: User, index: u128, amount: u64) -> User {
    User {
        balance_staked: (u.balance_staked - amount) as u64,
        balance_self_staked: (u.balance_self_staked - amount) as u64,
        ..refreshed_user(u, index)
    }
}

/// A user unstakes `spt_amount` self-funded tokens, once the lock has
/// expired.  On success the environment transfers `spt_amount` from the
/// staking vault back to the staker, authorized by the pool's derived
/// signer.
pub fn unstake(
    pool: &mut Pool,
    user: &mut User,
    spt_amount: u64,
    total_staked: u64,
    current_ts: i64,
) -> (r: Result<(), ErrorCode>)
    requires
        current_ts >= 0,
        old(pool).last_update_time <= current_ts as u64,
        old(user).reward_per_token_complete <= old(pool).reward_per_token_stored,
        user_wf(*old(user)),
    ensures
        user_wf(*final(user)),
        spt_amount == 0 ==> r == Err::<(), ErrorCode>(ErrorCode::AmountMustBeGreaterThanZero)
            && *final(pool) == *old(pool) && *final(user) == *old(user),
        spt_amount != 0 && old(user).end_ts > current_ts ==> r == Err::<(), ErrorCode>(
            ErrorCode::UnstakingNotOver,
        ) && *final(pool) == *old(pool) && *final(user) == *old(user),
        spt_amount != 0 && old(user).end_ts <= current_ts && old(user).balance_self_staked
            < spt_amount ==> r == Err::<(), ErrorCode>(ErrorCode::InsufficientFundUnstake)
            && *final(pool) == *old(pool) && *final(user) == *old(user),
        spt_amount != 0 && old(user).end_ts <= current_ts && old(user).balance_self_staked
            >= spt_amount && !refresh_principal_ok(
            *old(pool),
            old(user).balance_staked,
            old(user).reward_per_token_complete,
            old(user).reward_per_token_pending,
            total_staked,
            current_ts as u64,
        ) ==> r == Err::<(), ErrorCode>(ErrorCode::Overflow) && *final(pool) == *old(pool)
            && *final(user) == *old(user),
        spt_amount != 0 && old(user).end_ts <= current_ts && old(user).balance_self_staked
            >= spt_amount && refresh_principal_ok(
            *old(pool),
            old(user).balance_staked,
            old(user).reward_per_token_complete,
            old(user).reward_per_token_pending,
            total_staked,
            current_ts as u64,
        ) ==> {
            &&& r == Ok::<(), ErrorCode>(())
            &&& *final(pool) == refreshed_pool(*old(pool), total_staked, current_ts as u64)
            &&& *final(user) == unstaked_user(
                *old(user),
                refreshed_pool(
                    *old(pool),
                    total_staked,
                    current_ts as u64,
                ).reward_per_token_stored,
                spt_amount,
            )
        },
{
    if spt_amount == 0 {
        return Err(ErrorCode::AmountMustBeGreaterThanZero);
    }
    if user.end_ts > current_ts {
        return Err(ErrorCode::UnstakingNotOver);
    }
    if user.balance_self_staked < spt_amount {
        return Err(ErrorCode::InsufficientFundUnstake);
    }
    let now: u64 = current_ts as u64;
    let calc = PoolRewardCalculator;
    let index = match calc.reward_per_token(pool, total_staked, now) {
        Ok(v) => v,
        Err(e) => {
            return Err(e);
        },
    };
    proof {
        lemma_accrued_index_monotone(*pool, total_staked, now);
    }
    let new_pending = match earned_checked(
        user.balance_staked,
        index,
        user.reward_per_token_complete,
        user.reward_per_token_pending,
    ) {
        Ok(v) => v,
        Err(e) => {
            return Err(e);
        },
    };
    pool.reward_per_token_stored = index;
    pool.last_update_time = now;
    user.reward_per_token_pending = new_pending;
    user.reward_per_token_complete = index;
    user.balance_staked = user.balance_staked - spt_amount;
    user.balance_self_staked = user.balance_self_staked - spt_amount;
    Ok(())
}

/// Reward tokens are added to the reward vault.  The returned amount is what
/// the environment transfers from the funder into the reward vault; a zero
/// amount moves nothing.
pub fn fund(pool: &Pool, amount: u64) -> (transfer: u64)
    requires
        !pool.paused,
    ensures
        transfer == amount,
{
    amount
}

/// The payout of a claim: the owed amount, capped by what the reward vault
/// actually holds.
pub open spec fn claim_transfer(pending: u64, reward_vault_balance: u64) -> int {
    if pending > 0 {
        if reward_vault_balance < pending {
            reward_vault_balance as int
        } else {
            pending as int
        }
    } else {
        0
    }
}

/// The user record after a claim settled against accumulator value `index`:
/// the paid part leaves `reward_per_token_pending`; any shortfall stays
/// recorded there for a future claim; the claim timestamp and counter move
/// only when something was actually paid.
pub open spec fn claimed_user(
    u: User,
    index: u128,
    reward_vault_balance: u64,
    current_ts: i64,
) -> User {
    let settled = refreshed_user(u, index);
    let pending = settled.reward_per_token_pending;
    let paid = claim_transfer(pending, reward_vault_balance);
    if paid > 0 {
        User {
            reward_per_token_pending: (pending - paid) as u64,
            claimed_ts: current_ts,
            claimed_count: (u.claimed_count + 1) as u32,
            ..settled
        }
    } else {
        settled
    }
}

/// Whether every checked computation of `claim` stays in range.
pub open spec fn claim_fits(
    p: Pool,
    u: User,
    total_staked: u64,
    reward_vault_balance: u64,
    current_ts: i64,
) -> bool {
    &&& refresh_principal_ok(
        p,
        u.balance_staked,
        u.reward_per_token_complete,
        u.reward_per_token_pending,
        total_staked,
        current_ts as u64,
    )
    &&& (claim_transfer(
        refreshed_user(
            u,
            refreshed_pool(p, total_staked, current_ts as u64).reward_per_token_stored,
        ).reward_per_token_pending,
        reward_vault_balance,
    ) > 0 ==> u.claimed_count + 1 <= u32::MAX)
}

/// A user claims accrued rewards.  The returned amount is what the
/// environment transfers from the reward vault to the user, authorized by
/// the pool's derived signer; when the vault holds less than is owed, the
/// whole vault is paid and the shortfall stays pending.
pub fn claim(
    pool: &mut Pool,
    user: &mut User,
    total_staked: u64,
    reward_vault_balance: u64,
    current_ts: i64,
) -> (r: Result<u64, ErrorCode>)
    requires
        current_ts >= 0,
        old(pool).last_update_time <= current_ts as u64,
        old(user).reward_per_token_complete <= old(pool).reward_per_token_stored,
        user_wf(*old(user)),
    ensures
        user_wf(*final(user)),
        !claim_fits(*old(pool), *old(user), total_staked, reward_vault_balance, current_ts) ==> r
            == Err::<u64, ErrorCode>(ErrorCode::Overflow) && *final(pool) == *old(pool)
            && *final(user) == *old(user),
        claim_fits(*old(pool), *old(user), total_staked, reward_vault_balance, current_ts) ==> {
            &&& *final(pool) == refreshed_pool(*old(pool), total_staked, current_ts as u64)
            &&& *final(user) == claimed_user(
                *old(user),
                refreshed_pool(
                    *old(pool),
                    total_staked,
                    current_ts as u64,
                ).reward_per_token_stored,
                reward_vault_balance,
                current_ts,
            )
            &&& r == Ok::<u64, ErrorCode>(
                claim_transfer(
                    refreshed_user(
                        *old(user),
                        refreshed_pool(
                            *old(pool),
                            total_staked,
                            current_ts as u64,
                        ).reward_per_token_stored,
                    ).reward_per_token_pending,
                    reward_vault_balance,
                ) as u64,
            )
        },
{
    let now: u64 = current_ts as u64;
    let calc = PoolRewardCalculator;
    let index = match calc.reward_per_token(pool, total_staked, now) {
        Ok(v) => v,
        Err(e) => {
            return Err(e);
        },
    };
    proof {
        lemma_accrued_index_monotone(*pool, total_staked, now);
    }
    let pending = match earned_checked(
        user.balance_staked,
        index,
        user.reward_per_token_complete,
        user.reward_per_token_pending,
    ) {
        Ok(v) => v,
        Err(e) => {
            return Err(e);
        },
    };
    let mut new_pending: u64 = pending;
    let mut transferred: u64 = 0;
    if pending > 0 {
        if reward_vault_balance < pending {
            new_pending = pending - reward_vault_balance;
            transferred = reward_vault_balance;
        } else {
            new_pending = 0;
            transferred = pending;
        }
    }
    let mut new_claimed_ts: i64 = user.claimed_ts;
    let mut new_claimed_count: u32 = user.claimed_count;
    if transferred > 0 {
        new_claimed_ts = current_ts;
        new_claimed_count = match user.claimed_count.checked_add(1) {
            Some(v) => v,
            None => {
                return Err(ErrorCode::Overflow);
            },
        };
    }
    pool.reward_per_token_stored = index;
    pool.last_update_time = now;
    user.reward_per_token_pending = new_pending;
    user.reward_per_token_complete = index;
    user.claimed_ts = new_claimed_ts;
    user.claimed_count = new_claimed_count;
    Ok(transferred)
}

/// Closes a user's stake account.  Allowed only when the user has nothing
/// staked; the pool merely forgets one registered user.
pub fn close_user(pool: &mut Pool, user: &User)
    requires
        user.balance_staked == 0,
        old(pool).user_stake_count > 0,
    ensures
        *final(pool) == (Pool {
            user_stake_count: (old(pool).user_stake_count - 1) as u32,
            ..*old(pool)
        }),
{
    pool.user_stake_count = pool.user_stake_count - 1;
}

/// Closes the pool.  Allowed only once the reward period is over, the pool
/// is paused and no user accounts remain.  The returned amount is the
/// staking-vault sweep that the environment transfers to the refund
/// destination; the reward vault is left for separate recovery.
pub fn close_pool(pool: &Pool, staking_vault_balance: u64, current_ts: i64) -> (transfer: u64)
    requires
        pool.paused,
        current_ts >= 0,
        pool.reward_duration_end < current_ts as u64,
        pool.user_stake_count == 0,
    ensures
        transfer == staking_vault_balance,
{
    staking_vault_balance
}

/// Whether `list` holds `id`.
fn contains_id(list: &Vec<AccountId>, id: AccountId) -> (r: bool)
    ensures
        r == list@.contains(id),
{
    let mut i: usize = 0;
    while i < list.len()
        invariant
            i <= list@.len(),
            forall|j: int| 0 <= j < i ==> list@[j] != id,
        decreases list@.len() - i,
    {
        if list[i] == id {
            assert(list@.contains(id)) by {
                assert(list@[i as int] == id);
            }
            return true;
        }
        i = i + 1;
    }
    false
}

/// Whether every checked computation of `stake_on_behalf` stays in range.
pub open spec fn stake_on_behalf_fits(
    p: Pool,
    u: User,
    amount: u64,
    total_staked: u64,
    current_ts: i64,
) -> bool {
    &&& refresh_principal_ok(
        p,
        u.balance_staked,
        u.reward_per_token_complete,
        u.reward_per_token_pending,
        total_staked,
        current_ts as u64,
    )
    &&& u.balance_staked + amount <= u64::MAX
    &&& u.staked_count + 1 <= u32::MAX
}

/// Every field of the user record after a successful stake-on-behalf,
/// except the behalf-stake list itself, which gains one entry.
pub open spec fn behalf_staked_user(u: User, index: u128, amount: u64, current_ts: i64) -> User {
    User {
        balance_staked: (u.balance_staked + amount) as u64,
        first_staked_ts: if u.staked_count == 0 {
            current_ts
        } else {
            u.first_staked_ts
        },
        claimed_ts: if u.staked_count == 0 || u.balance_staked == 0 {
            current_ts
        } else {
            u.claimed_ts
        },
        staked_ts: current_ts,
        staked_count: (u.staked_count + 1) as u32,
        ..refreshed_user(u, index)
    }
}

/// The admin stakes `amount` tokens on a user's behalf.  The entry is
/// appended to the user's behalf-stake list with its own lock; only the
/// total staked balance rises — the self-funded balance stays, so `unstake`
/// can never withdraw funds the user did not deposit.  The user is also
/// registered in the pool's passive-staker list, once.  On success the
/// environment transfers `amount` from the admin's token account into the
/// staking vault.
pub fn stake_on_behalf(
    pool: &mut Pool,
    user: &mut User,
    user_key: AccountId,
    amount: u64,
    total_staked: u64,
    current_ts: i64,
) -> (r: Result<(), ErrorCode>)
    requires
        current_ts >= 0,
        old(pool).last_update_time <= current_ts as u64,
        old(user).reward_per_token_complete <= old(pool).reward_per_token_stored,
        user_wf(*old(user)),
    ensures
        user_wf(*final(user)),
        amount == 0 ==> r == Err::<(), ErrorCode>(ErrorCode::AmountMustBeGreaterThanZero)
            && *final(pool) == *old(pool) && *final(user) == *old(user),
        amount != 0 && old(pool).paused ==> r == Err::<(), ErrorCode>(ErrorCode::PoolPaused)
            && *final(pool) == *old(pool) && *final(user) == *old(user),
        amount != 0 && !old(pool).paused && !stake_on_behalf_fits(
            *old(pool),
            *old(user),
            amount,
            total_staked,
            current_ts,
        ) ==> r == Err::<(), ErrorCode>(ErrorCode::Overflow) && *final(pool) == *old(pool)
            && *final(user) == *old(user),
        amount != 0 && !old(pool).paused && stake_on_behalf_fits(
            *old(pool),
            *old(user),
            amount,
            total_staked,
            current_ts,
        ) ==> {
            &&& r == Ok::<(), ErrorCode>(())
            &&& *final(pool) == (Pool {
                passive_stakers_list: final(pool).passive_stakers_list,
                ..refreshed_pool(*old(pool), total_staked, current_ts as u64)
            })
            &&& final(pool).passive_stakers_list@ == if old(
                pool,
            ).passive_stakers_list@.contains(user_key) {
                old(pool).passive_stakers_list@
            } else {
                old(pool).passive_stakers_list@.push(user_key)
            }
            &&& *final(user) == (User {
                behalf_stakes: final(user).behalf_stakes,
                ..behalf_staked_user(
                    *old(user),
                    refreshed_pool(
                        *old(pool),
                        total_staked,
                        current_ts as u64,
                    ).reward_per_token_stored,
                    amount,
                    current_ts,
                )
            })
            &&& final(user).behalf_stakes@ == old(user).behalf_stakes@.push(
                BehalfStakeEntry { staked_ts: current_ts, amount, claimed: false },
            )
        },
{
    if amount == 0 {
        return Err(ErrorCode::AmountMustBeGreaterThanZero);
    }
    if pool.paused {
        return Err(ErrorCode::PoolPaused);
    }
    let now: u64 = current_ts as u64;
    let calc = PoolRewardCalculator;
    let index = match calc.reward_per_token(pool, total_staked, now) {
        Ok(v) => v,
        Err(e) => {
            return Err(e);
        },
    };
    proof {
        lemma_accrued_index_monotone(*pool, total_staked, now);
    }
    let new_pending = match earned_checked(
        user.balance_staked,
        index,
        user.reward_per_token_complete,
        user.reward_per_token_pending,
    ) {
        Ok(v) => v,
        Err(e) => {
            return Err(e);
        },
    };
    let new_balance = match user.balance_staked.checked_add(amount) {
        Some(v) => v,
        None => {
            return Err(ErrorCode::Overflow);
        },
    };
    let new_count = match user.staked_count.checked_add(1) {
        Some(v) => v,
        None => {
            return Err(ErrorCode::Overflow);
        },
    };
    pool.reward_per_token_stored = index;
    pool.last_update_time = now;
    user.reward_per_token_pending = new_pending;
    user.reward_per_token_complete = index;
    if user.staked_count == 0 {
        user.claimed_ts = current_ts;
        user.first_staked_ts = current_ts;
    }
    if user.balance_staked == 0 {
        user.claimed_ts = current_ts;
    }
    user.behalf_stakes.push(
        BehalfStakeEntry { staked_ts: current_ts, amount, claimed: false },
    );
    user.balance_staked = new_balance;
    user.staked_ts = current_ts;
    user.staked_count = new_count;
    if !contains_id(&pool.passive_stakers_list, user_key) {
        pool.passive_stakers_list.push(user_key);
    }
    proof {
        lemma_sum_unclaimed_behalf_push(
            old(user).behalf_stakes@,
            BehalfStakeEntry { staked_ts: current_ts, amount, claimed: false },
        );
    }
    Ok(())
}

/// A user withdraws one admin-funded stake entry, addressed by its position
/// in the behalf-stake list.  Each entry can be withdrawn at most once and
/// only after its lock period; entries are never removed or reordered.  On
/// success the environment transfers the returned amount from the staking
/// vault to the user.
pub fn withdraw(
    pool: &mut Pool,
    user: &mut User,
    list_index: u32,
    total_staked: u64,
    current_ts: i64,
) -> (r: Result<u64, ErrorCode>)
    requires
        (list_index as int) < old(user).behalf_stakes@.len(),
        current_ts >= 0,
        old(pool).last_update_time <= current_ts as u64,
        old(user).reward_per_token_complete <= old(pool).reward_per_token_stored,
        user_wf(*old(user)),
    ensures
        user_wf(*final(user)),
        ({
            let e = old(user).behalf_stakes@[list_index as int];
            &&& e.claimed ==> r == Err::<u64, ErrorCode>(ErrorCode::AlreadyWithdrawn)
                && *final(pool) == *old(pool) && *final(user) == *old(user)
            &&& !e.claimed && e.amount == 0 ==> r == Err::<u64, ErrorCode>(
                ErrorCode::NoTokensToWithdraw,
            ) && *final(pool) == *old(pool) && *final(user) == *old(user)
            &&& !e.claimed && e.amount > 0 && e.staked_ts + LOCKING_PERIOD_OF_STAKING_ON_BEHALF
                > current_ts ==> r == Err::<u64, ErrorCode>(ErrorCode::NotTimeToWithdrawTokens)
                && *final(pool) == *old(pool) && *final(user) == *old(user)
            &&& !e.claimed && e.amount > 0 && e.staked_ts + LOCKING_PERIOD_OF_STAKING_ON_BEHALF
                <= current_ts && old(pool).paused ==> r == Err::<u64, ErrorCode>(
                ErrorCode::PoolPaused,
            ) && *final(pool) == *old(pool) && *final(user) == *old(user)
            &&& !e.claimed && e.amount > 0 && e.staked_ts + LOCKING_PERIOD_OF_STAKING_ON_BEHALF
                <= current_ts && !old(pool).paused && !refresh_principal_ok(
                *old(pool),
                old(user).balance_staked,
                old(user).reward_per_token_complete,
                old(user).reward_per_token_pending,
                total_staked,
                current_ts as u64,
            ) ==> r == Err::<u64, ErrorCode>(ErrorCode::Overflow) && *final(pool) == *old(pool)
                && *final(user) == *old(user)
            &&& !e.claimed && e.amount > 0 && e.staked_ts + LOCKING_PERIOD_OF_STAKING_ON_BEHALF
                <= current_ts && !old(pool).paused && refresh_principal_ok(
                *old(pool),
                old(user).balance_staked,
                old(user).reward_per_token_complete,
                old(user).reward_per_token_pending,
                total_staked,
                current_ts as u64,
            ) ==> {
                &&& r == Ok::<u64, ErrorCode>(e.amount)
                &&& *final(pool) == refreshed_pool(*old(pool), total_staked, current_ts as u64)
                &&& *final(user) == (User {
                    balance_staked: (old(user).balance_staked - e.amount) as u64,
                    behalf_stakes: final(user).behalf_stakes,
                    ..refreshed_user(
                        *old(user),
                        refreshed_pool(
                            *old(pool),
                            total_staked,
                            current_ts as u64,
                        ).reward_per_token_stored,
                    )
                })
                &&& final(user).behalf_stakes@ == old(user).behalf_stakes@.update(
                    list_index as int,
                    BehalfStakeEntry { claimed: true, ..e },
                )
            }
        }),
{
    let i = list_index as usize;
    let entry = user.behalf_stakes[i];
    if entry.claimed {
        return Err(ErrorCode::AlreadyWithdrawn);
    }
    if entry.amount == 0 {
        return Err(ErrorCode::NoTokensToWithdraw);
    }
    if (entry.staked_ts as i128) + (LOCKING_PERIOD_OF_STAKING_ON_BEHALF as i128) > (
    current_ts as i128) {
        return Err(ErrorCode::NotTimeToWithdrawTokens);
    }
    if pool.paused {
        return Err(ErrorCode::PoolPaused);
    }
    let now: u64 = current_ts as u64;
    let calc = PoolRewardCalculator;
    let index = match calc.reward_per_token(pool, total_staked, now) {
        Ok(v) => v,
        Err(e) => {
            return Err(e);
        },
    };
    proof {
        lemma_accrued_index_monotone(*pool, total_staked, now);
    }
    let new_pending = match earned_checked(
        user.balance_staked,
        index,
        user.reward_per_token_complete,
        user.reward_per_token_pending,
    ) {
        Ok(v) => v,
        Err(e) => {
            return Err(e);
        },
    };
    proof {
        lemma_sum_unclaimed_behalf_bound(user.behalf_stakes@, list_index as int);
        lemma_sum_unclaimed_behalf_claim(
            user.behalf_stakes@,
            list_index as int,
            BehalfStakeEntry { claimed: true, ..entry },
        );
    }
    pool.reward_per_token_stored = index;
    pool.last_update_time = now;
    user.reward_per_token_pending = new_pending;
    user.reward_per_token_complete = index;
    user.behalf_stakes[i] = BehalfStakeEntry { claimed: true, ..entry };
    user.balance_staked = user.balance_staked - entry.amount;
    Ok(entry.amount)
}

/// Conservation of self-funded stake.  Every successful `stake` raises one
/// user's self-funded balance by exactly the amount moved into the staking
/// vault, and every successful `unstake` lowers it by exactly the amount
/// moved out.  So whenever the staking vault's balance equals the sum of all
/// users' self-funded balances, it still does after any such operation —
/// regardless of reward accrual, which never touches balances.
pub proof fn lemma_self_staked_matches_vault(
    users: Seq<User>,
    i: int,
    updated: User,
    vault_before: int,
    vault_after: int,
)
    requires
        0 <= i < users.len(),
        sum_self_staked(users) == vault_before,
        vault_after - vault_before == updated.balance_self_staked
            - users[i].balance_self_staked,
    ensures
        sum_self_staked(users.update(i, updated)) == vault_after,
{
    lemma_sum_self_staked_update(users, i, updated);
}

/// A successful stake deposits `amount` into the staking vault and raises
/// the staker's self-funded balance by the same `amount`: a vault that
/// matched the self-staked sum before matches it after.
pub proof fn lemma_stake_keeps_vault_match(
    users: Seq<User>,
    i: int,
    index: u128,
    amount: u64,
    current_ts: i64,
    locking_period: i64,
    vault_balance: u64,
)
    requires
        0 <= i < users.len(),
        sum_self_staked(users) == vault_balance,
        users[i].balance_self_staked + amount <= u64::MAX,
    ensures
        sum_self_staked(
            users.update(i, staked_user(users[i], index, amount, current_ts, locking_period)),
        ) == vault_balance + amount,
{
    lemma_sum_self_staked_update(
        users,
        i,
        staked_user(users[i], index, amount, current_ts, locking_period),
    );
}

/// A successful unstake pays `amount` out of the staking vault and lowers
/// the staker's self-funded balance by the same `amount`: a vault that
/// matched the self-staked sum before matches it after.
pub proof fn lemma_unstake_keeps_vault_match(
    users: Seq<User>,
    i: int,
    index: u128,
    amount: u64,
    vault_balance: u64,
)
    requires
        0 <= i < users.len(),
        sum_self_staked(users) == vault_balance,
        amount <= users[i].balance_self_staked,
    ensures
        sum_self_staked(users.update(i, unstaked_user(users[i], index, amount))) == vault_balance
            - amount,
{
    lemma_sum_self_staked_update(users, i, unstaked_user(users[i], index, amount));
}

} // verus!
