use vstd::prelude::*;

verus! {

/// Identity of an account held by the external store (a pool, a vault, a
/// mint, an owner).  The store guarantees existence and uniqueness; the core
/// only records and compares these values.
pub type AccountId = u64;

/// Top-level staking configuration and the shared reward-accrual state for
/// one staking-token / reward-token pair.
#[derive(Clone, Debug, PartialEq, Eq)]
pub struct Pool {
    /// Privileged account.
    pub authority: AccountId,
    /// Nonce used by the host to derive the vault-owning address.
    pub nonce: u8,
    /// Paused state of the pool.
    pub paused: bool,
    /// Mint of the token that can be staked.
    pub staking_mint: AccountId,
    /// Vault that stores staked tokens.
    pub staking_vault: AccountId,
    /// Mint of the reward token.
    pub reward_mint: AccountId,
    /// Vault that stores reward tokens.
    pub reward_vault: AccountId,
    /// The period over which rewards are linearly distributed.
    pub reward_duration: u64,
    /// The timestamp at which the current reward period ends.
    pub reward_duration_end: u64,
    /// The last time the reward state was refreshed.
    pub last_update_time: u64,
    /// Rate of reward distribution.
    pub reward_rate: u64,
    /// Last computed reward per staked token, scaled by `PRECISION`.
    pub reward_per_token_stored: u128,
    /// Number of open user accounts.
    pub user_stake_count: u32,
    /// Number of merchant sub-pools.
    pub merchant_count: u32,
    /// Identities of the users that registered with the pool.
    pub user_stake_list: Vec<AccountId>,
    /// Identities of the merchant sub-pools.
    pub merchant_stake_list: Vec<AccountId>,
    /// Identities of users that received admin-funded stake.
    pub passive_stakers_list: Vec<AccountId>,
    /// Authorized funders.
    pub funders: Vec<AccountId>,
}

/// One admin-funded stake recorded against a user, with its own lock and
/// one-shot claim status.
#[derive(Clone, Copy, Debug, PartialEq, Eq)]
pub struct BehalfStakeEntry {
    /// When the admin staked the tokens.
    pub staked_ts: i64,
    /// How many tokens the admin staked.
    pub amount: u64,
    /// Whether the user has withdrawn this entry.  Never reset.
    pub claimed: bool,
}

/// Per-user staked-balance record of the main pool.
#[derive(Clone, Debug, PartialEq, Eq)]
pub struct User {
    /// Pool this user belongs to.
    pub pool: AccountId,
    /// The owner of this account.
    pub owner: AccountId,
    /// Accumulator snapshot taken at the last settlement.
    pub reward_per_token_complete: u128,
    /// Reward owed but not yet paid out.
    pub reward_per_token_pending: u64,
    /// Total staked balance, admin-funded stake included.
    pub balance_staked: u64,
    /// Self-funded staked balance only.
    pub balance_self_staked: u64,
    /// When the account was created.
    pub registerd_at: i64,
    /// When the user first staked.
    pub first_staked_ts: i64,
    /// When the user last staked.
    pub staked_ts: i64,
    /// How many times the user staked.
    pub staked_count: u32,
    /// When the user last claimed rewards.
    pub claimed_ts: i64,
    /// How many times the user claimed rewards.
    pub claimed_count: u32,
    /// When the lock on the staked balance ends.
    pub end_ts: i64,
    /// Signer nonce.
    pub nonce: u8,
    /// Admin-funded stakes, one entry per admin stake, in order of arrival.
    /// Entries are never removed or reordered, so external callers can
    /// address them by index.
    pub behalf_stakes: Vec<BehalfStakeEntry>,
}

/// A merchant sub-pool: an aggregator with its own sub-users that shares the
/// main pool's reward index.
#[derive(Clone, Debug, PartialEq, Eq)]
pub struct Merchant {
    /// Pool this merchant belongs to.
    pub pool: AccountId,
    /// The owner of this account.
    pub owner: AccountId,
    /// Accumulator snapshot taken at the last settlement.
    pub reward_per_token_complete: u128,
    /// Reward owed but not yet paid out.
    pub reward_per_token_pending: u64,
    /// The amount the merchant staked in the main pool for itself.
    pub self_balance_staked: u64,
    /// Aggregate staked balance of the merchant's sub-users.
    pub balance_staked: u64,
    /// Number of sub-user accounts.
    pub merchant_user_stake_count: u32,
    /// Identities of the sub-users.
    pub merchant_user_stake_list: Vec<AccountId>,
    /// Name of the merchant.
    pub merchant_name: String,
    /// When the merchant was created.
    pub created_at: i64,
    /// Reset when the aggregate balance turns from zero to non-zero, and on
    /// a paying reward claim.
    pub last_updated_ts: i64,
    /// Signer nonce.
    pub nonce: u8,
    /// Paused state of the merchant.
    pub paused: bool,
}

/// Per-sub-user staked-balance record of a merchant sub-pool.  Rewards flow
/// to the merchant, so this record carries no accumulator pair of its own.
#[derive(Clone, Debug, PartialEq, Eq)]
pub struct MerchantUser {
    /// Pool this sub-user belongs to.
    pub pool: AccountId,
    /// Merchant this sub-user belongs to.
    pub merchant: AccountId,
    /// The owner of this account.
    pub owner: AccountId,
    /// The amount staked.
    pub balance_staked: u64,
    /// When the account was created.
    pub registerd_at: i64,
    /// When the sub-user first staked.
    pub first_staked_ts: i64,
    /// When the sub-user last staked.
    pub staked_ts: i64,
    /// How many times the sub-user staked.
    pub staked_count: u32,
    /// When the sub-user last claimed.
    pub claimed_ts: i64,
    /// How many times the sub-user claimed.
    pub claimed_count: u32,
    /// When the lock on the staked balance ends.
    pub end_ts: i64,
    /// Signer nonce.
    pub nonce: u8,
}

/// Sum of the amounts of the entries that have not been withdrawn yet.
pub open spec fn sum_unclaimed_behalf(entries: Seq<BehalfStakeEntry>) -> int
    decreases entries.len(),
{
    if entries.len() == 0 {
        0
    } else {
        sum_unclaimed_behalf(entries.drop_last()) + if entries.last().claimed {
            0
        } else {
            entries.last().amount as int
        }
    }
}

/// Well-formedness of a user record: the total staked balance is exactly the
/// self-funded balance plus the admin-funded stake that has not been
/// withdrawn yet.  Every operation preserves this.
pub open spec fn user_wf(u: User) -> bool {
    &&& u.balance_self_staked <= u.balance_staked
    &&& u.balance_staked == u.balance_self_staked + sum_unclaimed_behalf(u.behalf_stakes@)
}

pub proof fn lemma_sum_unclaimed_behalf_nonneg(entries: Seq<BehalfStakeEntry>)
    ensures
        sum_unclaimed_behalf(entries) >= 0,
    decreases entries.len(),
{
    if entries.len() > 0 {
        lemma_sum_unclaimed_behalf_nonneg(entries.drop_last());
    }
}

/// Appending a not-yet-claimed entry raises the unclaimed sum by its amount.
pub proof fn lemma_sum_unclaimed_behalf_push(entries: Seq<BehalfStakeEntry>, e: BehalfStakeEntry)
    requires
        !e.claimed,
    ensures
        sum_unclaimed_behalf(entries.push(e)) == sum_unclaimed_behalf(entries) + e.amount,
{
    assert(entries.push(e).drop_last() =~= entries);
}

/// Marking an unclaimed entry as claimed lowers the unclaimed sum by exactly
/// that entry's amount.
pub proof fn lemma_sum_unclaimed_behalf_claim(
    entries: Seq<BehalfStakeEntry>,
    i: int,
    e: BehalfStakeEntry,
)
    requires
        0 <= i < entries.len(),
        !entries[i].claimed,
        e == (BehalfStakeEntry { claimed: true, ..entries[i] }),
    ensures
        sum_unclaimed_behalf(entries.update(i, e)) == sum_unclaimed_behalf(entries)
            - entries[i].amount,
    decreases entries.len(),
{
    let updated = entries.update(i, e);
    if i == entries.len() - 1 {
        assert(updated.drop_last() =~= entries.drop_last());
        assert(updated.last() == e);
    } else {
        lemma_sum_unclaimed_behalf_claim(entries.drop_last(), i, e);
        assert(updated.drop_last() =~= entries.drop_last().update(i, e));
        assert(updated.last() == entries.last());
    }
}

/// An unclaimed entry's amount never exceeds the unclaimed sum.
pub proof fn lemma_sum_unclaimed_behalf_bound(entries: Seq<BehalfStakeEntry>, i: int)
    requires
        0 <= i < entries.len(),
        !entries[i].claimed,
    ensures
        entries[i].amount <= sum_unclaimed_behalf(entries),
    decreases entries.len(),
{
    if i == entries.len() - 1 {
        lemma_sum_unclaimed_behalf_nonneg(entries.drop_last());
    } else {
        lemma_sum_unclaimed_behalf_bound(entries.drop_last(), i);
    }
}

/// Sum of the self-funded staked balances of a sequence of user records.
pub open spec fn sum_self_staked(users: Seq<User>) -> int
    decreases users.len(),
{
    if users.len() == 0 {
        0
    } else {
        sum_self_staked(users.drop_last()) + users.last().balance_self_staked
    }
}

/// Replacing one user record changes the self-staked sum by exactly the
/// difference between the new and the old self-funded balance.
pub proof fn lemma_sum_self_staked_update(users: Seq<User>, i: int, u2: User)
    requires
        0 <= i < users.len(),
    ensures
        sum_self_staked(users.update(i, u2)) == sum_self_staked(users)
            - users[i].balance_self_staked + u2.balance_self_staked,
    decreases users.len(),
{
    let updated = users.update(i, u2);
    if i == users.len() - 1 {
        assert(updated.drop_last() =~= users.drop_last());
        assert(updated.last() == u2);
    } else {
        lemma_sum_self_staked_update(users.drop_last(), i, u2);
        assert(updated.drop_last() =~= users.drop_last().update(i, u2));
        assert(updated.last() == users.last());
    }
}

} // verus!
