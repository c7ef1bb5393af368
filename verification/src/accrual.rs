use vstd::prelude::*;

use crate::errors::ErrorCode;
use crate::state::{Merchant, Pool, User};
use vstd::arithmetic::div_mod::{
    lemma_div_is_ordered, lemma_div_of0, lemma_div_pos_is_pos, lemma_fundamental_div_mod,
    lemma_hoist_over_denominator,
};
use vstd::arithmetic::mul::{lemma_mul_inequality, lemma_mul_nonnegative};

verus! {

/// Fixed-point scale of the reward-per-token accumulator: `u64::MAX`.  A
/// u64-range reward rate scaled by it still fits the 128-bit accumulator
/// after division by the staked total.
pub const PRECISION: u128 = 0xffff_ffff_ffff_ffff;

/// Value of the reward-per-token accumulator at time `now`, as an unbounded
/// integer.  With nothing staked the stored value is kept unchanged: no time
/// decay accrues to nobody.  Division is floor division by design; the
/// remainder is never paid.
pub open spec fn accrued_index(pool: Pool, total_staked: u64, now: u64) -> int
    recommends
        pool.last_update_time <= now,
{
    if total_staked == 0 {
        pool.reward_per_token_stored as int
    } else {
        pool.reward_per_token_stored as int + ((now as int - pool.last_update_time as int)
            * pool.reward_rate as int * PRECISION as int) / (total_staked as int)
    }
}

/// Whether the accrued accumulator still fits the 128-bit field.
pub open spec fn index_fits(pool: Pool, total_staked: u64, now: u64) -> bool {
    accrued_index(pool, total_staked, now) <= u128::MAX as int
}

/// The pool after a refresh at time `now`: the accumulator is brought up to
/// date and the refresh time recorded; everything else is untouched.
pub open spec fn refreshed_pool(pool: Pool, total_staked: u64, now: u64) -> Pool {
    Pool {
        reward_per_token_stored: accrued_index(pool, total_staked, now) as u128,
        last_update_time: now,
        ..pool
    }
}

/// Reward owed to a principal: the staked balance times the accumulator
/// advance since the last settlement, scaled back down by `PRECISION`, plus
/// what was already owed.
pub open spec fn earned_amount(balance_staked: u64, index: u128, complete: u128, pending: u64) -> int
    recommends
        complete <= index,
{
    (balance_staked as int * (index as int - complete as int)) / (PRECISION as int)
        + pending as int
}

/// Whether the 128-bit intermediate product of the earned computation fits.
pub open spec fn earned_mul_fits(balance_staked: u64, index: u128, complete: u128) -> bool {
    balance_staked as int * (index as int - complete as int) <= u128::MAX as int
}

/// Whether the earned amount can be computed and narrowed to 64 bits.
pub open spec fn earned_fits(balance_staked: u64, index: u128, complete: u128, pending: u64) -> bool {
    &&& earned_mul_fits(balance_staked, index, complete)
    &&& earned_amount(balance_staked, index, complete, pending) <= u64::MAX as int
}

/// A user record settled against accumulator value `index`: the owed reward
/// becomes pending, and the settlement snapshot advances to `index`.
pub open spec fn refreshed_user(u: User, index: u128) -> User {
    User {
        reward_per_token_pending: earned_amount(
            u.balance_staked,
            index,
            u.reward_per_token_complete,
            u.reward_per_token_pending,
        ) as u64,
        reward_per_token_complete: index,
        ..u
    }
}

/// A merchant record settled against accumulator value `index`.
pub open spec fn refreshed_merchant(m: Merchant, index: u128) -> Merchant {
    Merchant {
        reward_per_token_pending: earned_amount(
            m.balance_staked,
            index,
            m.reward_per_token_complete,
            m.reward_per_token_pending,
        ) as u64,
        reward_per_token_complete: index,
        ..m
    }
}

/// The single reward-accrual strategy: a monotonically advancing
/// reward-per-token index shared by the pool and every principal.
pub struct PoolRewardCalculator;

/// Computes `floor(balance * (index - complete) / PRECISION) + pending`, with
/// the product checked against the 128-bit range and the result checked
/// against the 64-bit range.
pub(crate) fn earned_checked(balance_staked: u64, index: u128, complete: u128, pending: u64) -> (r:
    Result<u64, ErrorCode>)
    requires
        complete <= index,
    ensures
        earned_fits(balance_staked, index, complete, pending) ==> r == Ok::<u64, ErrorCode>(
            earned_amount(balance_staked, index, complete, pending) as u64,
        ),
        !earned_fits(balance_staked, index, complete, pending) ==> r == Err::<u64, ErrorCode>(
            ErrorCode::Overflow,
        ),
{
    let diff: u128 = index - complete;
    let prod: u128 = match (balance_staked as u128).checked_mul(diff) {
        Some(v) => v,
        None => {
            return Err(ErrorCode::Overflow);
        },
    };
    let scaled_down: u128 = prod / PRECISION;
    proof {
        lemma_div_is_ordered(prod as int, u128::MAX as int, PRECISION as int);
    }
    let total: u128 = scaled_down + (pending as u128);
    if total > u64::MAX as u128 {
        return Err(ErrorCode::Overflow);
    }
    Ok(total as u64)
}

impl PoolRewardCalculator {
    /// Current value of the reward-per-token accumulator at time
    /// `last_time_reward_applicable`: the stored value plus the elapsed
    /// time's reward, scaled by `PRECISION` and spread evenly over the staked
    /// total.  The 192-bit-range intermediate `seconds * rate * PRECISION` is
    /// computed exactly; only a result beyond the 128-bit accumulator range
    /// is rejected.
    pub fn reward_per_token(
        &self,
        pool: &Pool,
        total_staked: u64,
        last_time_reward_applicable: u64,
    ) -> (r: Result<u128, ErrorCode>)
        requires
            pool.last_update_time <= last_time_reward_applicable,
        ensures
            index_fits(*pool, total_staked, last_time_reward_applicable) ==> r == Ok::<
                u128,
                ErrorCode,
            >(accrued_index(*pool, total_staked, last_time_reward_applicable) as u128),
            !index_fits(*pool, total_staked, last_time_reward_applicable) ==> r == Err::<
                u128,
                ErrorCode,
            >(ErrorCode::Overflow),
    {
        if total_staked == 0 {
            return Ok(pool.reward_per_token_stored);
        }
        let delta: u64 = last_time_reward_applicable - pool.last_update_time;
        proof {
            assert((delta as int) * (pool.reward_rate as int) <= u128::MAX as int)
                by (nonlinear_arith)
                requires
                    delta as int <= u64::MAX as int,
                    pool.reward_rate as int <= u64::MAX as int,
            ;
        }
        let scaled: u128 = (delta as u128) * (pool.reward_rate as u128);
        let t: u128 = total_staked as u128;
        let q: u128 = scaled / t;
        let rem: u128 = scaled % t;
        proof {
            assert((rem as int) * (PRECISION as int) <= u128::MAX as int) by (nonlinear_arith)
                requires
                    (rem as int) < (t as int),
                    t as int <= u64::MAX as int,
            ;
        }
        let low: u128 = (rem * PRECISION) / t;
        proof {
            let a = scaled as int;
            let p = PRECISION as int;
            let tt = total_staked as int;
            let qq = a / tt;
            let rr = a % tt;
            lemma_fundamental_div_mod(a, tt);
            assert(a * p == rr * p + (qq * p) * tt) by (nonlinear_arith)
                requires
                    a == tt * qq + rr,
            ;
            lemma_hoist_over_denominator(rr * p, qq * p, tt as nat);
            assert((a * p) / tt == qq * p + (rr * p) / tt);
            lemma_mul_nonnegative(rr, p);
            lemma_div_pos_is_pos(rr * p, tt);
        }
        let high: u128 = match q.checked_mul(PRECISION) {
            Some(v) => v,
            None => {
                return Err(ErrorCode::Overflow);
            },
        };
        let addend: u128 = match high.checked_add(low) {
            Some(v) => v,
            None => {
                return Err(ErrorCode::Overflow);
            },
        };
        match pool.reward_per_token_stored.checked_add(addend) {
            Some(v) => Ok(v),
            None => Err(ErrorCode::Overflow),
        }
    }

    /// Reward owed to a user against the pool's already-refreshed
    /// accumulator.
    pub fn user_earned_amount(&self, pool: &Pool, user: &User) -> (r: Result<u64, ErrorCode>)
        requires
            user.reward_per_token_complete <= pool.reward_per_token_stored,
        ensures
            earned_fits(
                user.balance_staked,
                pool.reward_per_token_stored,
                user.reward_per_token_complete,
                user.reward_per_token_pending,
            ) ==> r == Ok::<u64, ErrorCode>(
                earned_amount(
                    user.balance_staked,
                    pool.reward_per_token_stored,
                    user.reward_per_token_complete,
                    user.reward_per_token_pending,
                ) as u64,
            ),
            !earned_fits(
                user.balance_staked,
                pool.reward_per_token_stored,
                user.reward_per_token_complete,
                user.reward_per_token_pending,
            ) ==> r == Err::<u64, ErrorCode>(ErrorCode::Overflow),
    {
        earned_checked(
            user.balance_staked,
            pool.reward_per_token_stored,
            user.reward_per_token_complete,
            user.reward_per_token_pending,
        )
    }

    /// Reward owed to a merchant against the pool's already-refreshed
    /// accumulator.
    pub fn merchant_earned_amount(&self, pool: &Pool, merchant: &Merchant) -> (r: Result<
        u64,
        ErrorCode,
    >)
        requires
            merchant.reward_per_token_complete <= pool.reward_per_token_stored,
        ensures
            earned_fits(
                merchant.balance_staked,
                pool.reward_per_token_stored,
                merchant.reward_per_token_complete,
                merchant.reward_per_token_pending,
            ) ==> r == Ok::<u64, ErrorCode>(
                earned_amount(
                    merchant.balance_staked,
                    pool.reward_per_token_stored,
                    merchant.reward_per_token_complete,
                    merchant.reward_per_token_pending,
                ) as u64,
            ),
            !earned_fits(
                merchant.balance_staked,
                pool.reward_per_token_stored,
                merchant.reward_per_token_complete,
                merchant.reward_per_token_pending,
            ) ==> r == Err::<u64, ErrorCode>(ErrorCode::Overflow),
    {
        earned_checked(
            merchant.balance_staked,
            pool.reward_per_token_stored,
            merchant.reward_per_token_complete,
            merchant.reward_per_token_pending,
        )
    }
}

/// The earned amount is monotonically non-decreasing in the accumulator, for
/// a fixed balance, settlement snapshot and pending amount.
pub proof fn lemma_earned_monotone(
    balance_staked: u64,
    complete: u128,
    pending: u64,
    index1: u128,
    index2: u128,
)
    requires
        complete <= index1,
        index1 <= index2,
    ensures
        earned_amount(balance_staked, index1, complete, pending) <= earned_amount(
            balance_staked,
            index2,
            complete,
            pending,
        ),
{
    let b = balance_staked as int;
    let d1 = index1 as int - complete as int;
    let d2 = index2 as int - complete as int;
    lemma_mul_inequality(d1, d2, b);
    assert(d1 * b == b * d1) by (nonlinear_arith);
    assert(d2 * b == b * d2) by (nonlinear_arith);
    lemma_div_is_ordered(b * d1, b * d2, PRECISION as int);
}

/// When the accumulator equals the settlement snapshot, nothing new has
/// accrued: the earned amount is exactly the pending amount.
pub proof fn lemma_earned_at_complete(balance_staked: u64, complete: u128, pending: u64)
    ensures
        earned_amount(balance_staked, complete, complete, pending) == pending as int,
{
    assert(balance_staked as int * 0 == 0) by (nonlinear_arith);
    lemma_div_of0(PRECISION as int);
}

} // verus!
