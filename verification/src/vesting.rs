use vstd::prelude::*;

use crate::errors::LinearVestingError;
use crate::state::AccountId;
use vstd::arithmetic::div_mod::lemma_div_is_ordered;

verus! {

/// Share of the total-ever value released by the one-time upfront tranche,
/// in basis points (1000 = 10%).
pub const UPFRONT_PERCENT: u64 = 1000;

/// Share of the total-ever value released by each periodic withdrawal, in
/// basis points (375 = 3.75%).
pub const WITHDRAW_PERCENT: u64 = 375;

/// Seconds that must pass between two periodic withdrawals.
pub const WITHDRAW_PERIOD: i64 = 1;

/// One vesting schedule: an upfront tranche followed by periodic
/// percentage releases from a dedicated vault.
#[derive(Clone, Debug, PartialEq, Eq)]
pub struct VestingAccount {
    /// The investor who receives the vested tokens.
    pub beneficiary: AccountId,
    /// When the schedule starts.
    pub start_ts: i64,
    /// The last release checkpoint.
    pub withdraw_ts: i64,
    /// When the cliff ends.
    pub cliff_ts: i64,
    /// The duration of the vesting period.
    pub duration: i64,
    /// Whether the owner may revoke the schedule.
    pub revocable: bool,
    /// Owner that can revoke the schedule.
    pub owner: AccountId,
    /// The name of the investor.
    pub name: String,
    /// The mint of the token locked up.
    pub mint: AccountId,
    /// Total amount to be vested.  Revocation subtracts the refunded vault
    /// balance from this.
    pub total_deposited_amount: u64,
    /// Amount that has been paid out.  A pure payout counter: revocation
    /// does not touch it.
    pub released_amount: u64,
    /// How many releases have occurred.
    pub claimed_count: u8,
    /// Whether the schedule was revoked.  One-way.
    pub revoked: bool,
    /// Whether the upfront tranche was released.  One-way.
    pub upfronted: bool,
    /// Whether releases are currently allowed.
    pub approved: bool,
}

/// The registry of beneficiaries that have been granted a vesting account,
/// owned by the investor-registry owner.
#[derive(Clone, Debug, PartialEq, Eq)]
pub struct InvestorAccount {
    /// The beneficiaries that received a vesting account.  Append-only.
    pub investors: Vec<AccountId>,
    /// Owner allowed to create, enable, disable and rename accounts.
    pub owner: AccountId,
}

/// The base of every release computation: the vault's current balance plus
/// everything already paid out — the schedule's original total value, not
/// its remainder.  Repeated fixed-percentage releases against this base
/// drain the vault in a bounded number of steps.
pub open spec fn release_amount_spec(vault_balance: u64, released_amount: u64, percent: u64) -> int {
    ((vault_balance + released_amount) * percent) / 10000
}

/// Computes `floor((vault_balance + released_amount) * percent / 10000)` in
/// 128-bit arithmetic.  With `percent` at most 1000 the result always fits
/// 64 bits.
fn release_amount(vault_balance: u64, released_amount: u64, percent: u64) -> (r: u64)
    requires
        percent <= 1000,
    ensures
        r as int == release_amount_spec(vault_balance, released_amount, percent),
{
    let total: u128 = vault_balance as u128 + released_amount as u128;
    proof {
        assert(total as int * percent as int <= 36893488147419103230000) by (nonlinear_arith)
            requires
                total as int <= 36893488147419103230,
                percent as int <= 1000,
        ;
    }
    let prod: u128 = total * (percent as u128);
    let rel: u128 = prod / 10000;
    proof {
        lemma_div_is_ordered(prod as int, 36893488147419103230000, 10000);
    }
    rel as u64
}

/// Creates the investor registry with its owner and no beneficiaries yet.
pub fn initialize_vesting(owner: AccountId) -> (r: InvestorAccount)
    ensures
        r.owner == owner,
        r.investors@ == Seq::<AccountId>::empty(),
{
    InvestorAccount { investors: Vec::new(), owner }
}

/// Creates a vesting schedule for a beneficiary: the deposit is recorded,
/// the release checkpoint starts at `start_ts`, and the schedule begins
/// approved, not yet upfronted and not revoked.  On success the environment
/// moves `amount` from the owner's token account into the schedule's vault
/// and hands the vault to the derived vault authority.  Only the registry
/// owner may create schedules.
pub fn initialize(
    investor_account: &mut InvestorAccount,
    caller: AccountId,
    beneficiary: AccountId,
    mint: AccountId,
    amount: u64,
    name: String,
    start_ts: i64,
    revocable: bool,
) -> (r: Result<VestingAccount, LinearVestingError>)
    ensures
        caller != old(investor_account).owner ==> r == Err::<VestingAccount, LinearVestingError>(
            LinearVestingError::OwnerNotMatched,
        ) && *final(investor_account) == *old(investor_account),
        caller == old(investor_account).owner ==> {
            &&& r is Ok
            &&& r->Ok_0 == (VestingAccount {
                beneficiary,
                start_ts,
                withdraw_ts: start_ts,
                cliff_ts: 0,
                duration: 0,
                revocable,
                owner: caller,
                name: r->Ok_0.name,
                mint,
                total_deposited_amount: amount,
                released_amount: 0,
                claimed_count: 0,
                revoked: false,
                upfronted: false,
                approved: true,
            })
            &&& r->Ok_0.name == name
            &&& *final(investor_account) == (InvestorAccount {
                investors: final(investor_account).investors,
                ..*old(investor_account)
            })
            &&& final(investor_account).investors@ == old(investor_account).investors@.push(
                beneficiary,
            )
        },
{
    if caller != investor_account.owner {
        return Err(LinearVestingError::OwnerNotMatched);
    }
    investor_account.investors.push(beneficiary);
    Ok(
        VestingAccount {
            beneficiary,
            start_ts,
            withdraw_ts: start_ts,
            cliff_ts: 0,
            duration: 0,
            revocable,
            owner: caller,
            name,
            mint,
            total_deposited_amount: amount,
            released_amount: 0,
            claimed_count: 0,
            revoked: false,
            upfronted: false,
            approved: true,
        },
    )
}

/// Tops the schedule up with `amount` more tokens.  Allowed only before any
/// release has occurred, so an already-partially-paid schedule can never be
/// diluted retroactively.  On success the environment moves `amount` into
/// the vault.
pub fn add_token_to_vesting(vesting_account: &mut VestingAccount, amount: u64) -> (r: Result<
    (),
    LinearVestingError,
>)
    ensures
        old(vesting_account).claimed_count > 0 ==> r == Err::<(), LinearVestingError>(
            LinearVestingError::AddTokenNotAllowed,
        ) && *final(vesting_account) == *old(vesting_account),
        old(vesting_account).claimed_count == 0 && old(vesting_account).total_deposited_amount
            + amount > u64::MAX ==> r == Err::<(), LinearVestingError>(LinearVestingError::Overflow)
            && *final(vesting_account) == *old(vesting_account),
        old(vesting_account).claimed_count == 0 && old(vesting_account).total_deposited_amount
            + amount <= u64::MAX ==> r == Ok::<(), LinearVestingError>(())
            && *final(vesting_account) == (VestingAccount {
            total_deposited_amount: (old(vesting_account).total_deposited_amount + amount) as u64,
            ..*old(vesting_account)
        }),
{
    if vesting_account.claimed_count > 0 {
        return Err(LinearVestingError::AddTokenNotAllowed);
    }
    let new_total = match vesting_account.total_deposited_amount.checked_add(amount) {
        Some(v) => v,
        None => {
            return Err(LinearVestingError::Overflow);
        },
    };
    vesting_account.total_deposited_amount = new_total;
    Ok(())
}

/// Whether the checked computations of a release stay in range.
pub open spec fn release_fits(va: VestingAccount, vault_balance: u64, percent: u64) -> bool {
    &&& va.released_amount + release_amount_spec(vault_balance, va.released_amount, percent)
        <= u64::MAX
    &&& va.claimed_count + 1 <= u8::MAX
}

/// The schedule after a release of `amount` at `current_ts`.
pub open spec fn released_account(va: VestingAccount, amount: int, current_ts: i64, upfronted: bool) -> VestingAccount {
    VestingAccount {
        released_amount: (va.released_amount + amount) as u64,
        claimed_count: (va.claimed_count + 1) as u8,
        upfronted,
        withdraw_ts: current_ts,
        ..va
    }
}

/// Releases the one-time upfront tranche: `UPFRONT_PERCENT` basis points of
/// the schedule's total-ever value.  The returned amount is what the
/// environment transfers from the vault to the beneficiary under the vault
/// authority's signature.
pub fn upfront(vesting_account: &mut VestingAccount, vault_balance: u64, current_ts: i64) -> (r:
    Result<u64, LinearVestingError>)
    ensures
        old(vesting_account).upfronted ==> r == Err::<u64, LinearVestingError>(
            LinearVestingError::AlreadyUpfronted,
        ) && *final(vesting_account) == *old(vesting_account),
        !old(vesting_account).upfronted && !old(vesting_account).approved ==> r == Err::<
            u64,
            LinearVestingError,
        >(LinearVestingError::NotApproved) && *final(vesting_account) == *old(vesting_account),
        !old(vesting_account).upfronted && old(vesting_account).approved && !release_fits(
            *old(vesting_account),
            vault_balance,
            UPFRONT_PERCENT,
        ) ==> r == Err::<u64, LinearVestingError>(LinearVestingError::Overflow)
            && *final(vesting_account) == *old(vesting_account),
        !old(vesting_account).upfronted && old(vesting_account).approved && release_fits(
            *old(vesting_account),
            vault_balance,
            UPFRONT_PERCENT,
        ) ==> {
            &&& r == Ok::<u64, LinearVestingError>(
                release_amount_spec(
                    vault_balance,
                    old(vesting_account).released_amount,
                    UPFRONT_PERCENT,
                ) as u64,
            )
            &&& *final(vesting_account) == released_account(
                *old(vesting_account),
                release_amount_spec(
                    vault_balance,
                    old(vesting_account).released_amount,
                    UPFRONT_PERCENT,
                ),
                current_ts,
                true,
            )
        },
{
    if vesting_account.upfronted {
        return Err(LinearVestingError::AlreadyUpfronted);
    }
    if !vesting_account.approved {
        return Err(LinearVestingError::NotApproved);
    }
    let unreleased_token = release_amount(
        vault_balance,
        vesting_account.released_amount,
        UPFRONT_PERCENT,
    );
    let new_released = match vesting_account.released_amount.checked_add(unreleased_token) {
        Some(v) => v,
        None => {
            return Err(LinearVestingError::Overflow);
        },
    };
    let new_count = match vesting_account.claimed_count.checked_add(1) {
        Some(v) => v,
        None => {
            return Err(LinearVestingError::Overflow);
        },
    };
    vesting_account.released_amount = new_released;
    vesting_account.claimed_count = new_count;
    vesting_account.upfronted = true;
    vesting_account.withdraw_ts = current_ts;
    Ok(unreleased_token)
}

/// Releases one periodic tranche: `WITHDRAW_PERCENT` basis points of the
/// schedule's total-ever value, at most once per `WITHDRAW_PERIOD`.  The
/// returned amount is what the environment transfers from the vault to the
/// beneficiary.
pub fn withdraw(vesting_account: &mut VestingAccount, vault_balance: u64, current_ts: i64) -> (r:
    Result<u64, LinearVestingError>)
    ensures
        !old(vesting_account).upfronted ==> r == Err::<u64, LinearVestingError>(
            LinearVestingError::NotYetUpfronted,
        ) && *final(vesting_account) == *old(vesting_account),
        old(vesting_account).upfronted && !old(vesting_account).approved ==> r == Err::<
            u64,
            LinearVestingError,
        >(LinearVestingError::NotApproved) && *final(vesting_account) == *old(vesting_account),
        old(vesting_account).upfronted && old(vesting_account).approved && old(
            vesting_account,
        ).withdraw_ts + WITHDRAW_PERIOD > current_ts ==> r == Err::<u64, LinearVestingError>(
            LinearVestingError::WaitForWithdrawPeriod,
        ) && *final(vesting_account) == *old(vesting_account),
        old(vesting_account).upfronted && old(vesting_account).approved && old(
            vesting_account,
        ).withdraw_ts + WITHDRAW_PERIOD <= current_ts && vault_balance == 0 ==> r == Err::<
            u64,
            LinearVestingError,
        >(LinearVestingError::NoTokens) && *final(vesting_account) == *old(vesting_account),
        old(vesting_account).upfronted && old(vesting_account).approved && old(
            vesting_account,
        ).withdraw_ts + WITHDRAW_PERIOD <= current_ts && vault_balance > 0 && !release_fits(
            *old(vesting_account),
            vault_balance,
            WITHDRAW_PERCENT,
        ) ==> r == Err::<u64, LinearVestingError>(LinearVestingError::Overflow)
            && *final(vesting_account) == *old(vesting_account),
        old(vesting_account).upfronted && old(vesting_account).approved && old(
            vesting_account,
        ).withdraw_ts + WITHDRAW_PERIOD <= current_ts && vault_balance > 0 && release_fits(
            *old(vesting_account),
            vault_balance,
            WITHDRAW_PERCENT,
        ) ==> {
            &&& r == Ok::<u64, LinearVestingError>(
                release_amount_spec(
                    vault_balance,
                    old(vesting_account).released_amount,
                    WITHDRAW_PERCENT,
                ) as u64,
            )
            &&& *final(vesting_account) == released_account(
                *old(vesting_account),
                release_amount_spec(
                    vault_balance,
                    old(vesting_account).released_amount,
                    WITHDRAW_PERCENT,
                ),
                current_ts,
                true,
            )
        },
{
    if !vesting_account.upfronted {
        return Err(LinearVestingError::NotYetUpfronted);
    }
    if !vesting_account.approved {
        return Err(LinearVestingError::NotApproved);
    }
    if (vesting_account.withdraw_ts as i128) + (WITHDRAW_PERIOD as i128) > (current_ts as i128) {
        return Err(LinearVestingError::WaitForWithdrawPeriod);
    }
    if vault_balance == 0 {
        return Err(LinearVestingError::NoTokens);
    }
    let unreleased_token = release_amount(
        vault_balance,
        vesting_account.released_amount,
        WITHDRAW_PERCENT,
    );
    let new_released = match vesting_account.released_amount.checked_add(unreleased_token) {
        Some(v) => v,
        None => {
            return Err(LinearVestingError::Overflow);
        },
    };
    let new_count = match vesting_account.claimed_count.checked_add(1) {
        Some(v) => v,
        None => {
            return Err(LinearVestingError::Overflow);
        },
    };
    vesting_account.released_amount = new_released;
    vesting_account.claimed_count = new_count;
    vesting_account.withdraw_ts = current_ts;
    Ok(unreleased_token)
}

/// Re-approves a disabled schedule.  Only the registry owner; rejected when
/// the schedule is already enabled.  Revocation is one-way: a revoked
/// schedule stays revoked and unapproved forever, so enabling it is
/// rejected and no further release can ever occur.
pub fn enable_account(
    investor_account: &InvestorAccount,
    vesting_account: &mut VestingAccount,
    caller: AccountId,
) -> (r: Result<(), LinearVestingError>)
    ensures
        caller != investor_account.owner ==> r == Err::<(), LinearVestingError>(
            LinearVestingError::OwnerNotMatched,
        ) && *final(vesting_account) == *old(vesting_account),
        caller == investor_account.owner && old(vesting_account).revoked ==> r == Err::<
            (),
            LinearVestingError,
        >(LinearVestingError::AlreadyRevoked) && *final(vesting_account) == *old(vesting_account),
        caller == investor_account.owner && !old(vesting_account).revoked && old(
            vesting_account,
        ).approved ==> r == Err::<(), LinearVestingError>(LinearVestingError::AlreadyEnabled)
            && *final(vesting_account) == *old(vesting_account),
        caller == investor_account.owner && !old(vesting_account).revoked && !old(
            vesting_account,
        ).approved ==> r == Ok::<(), LinearVestingError>(()) && *final(vesting_account) == (
        VestingAccount { approved: true, ..*old(vesting_account) }),
        final(vesting_account).revoked == old(vesting_account).revoked,
{
    if caller != investor_account.owner {
        return Err(LinearVestingError::OwnerNotMatched);
    }
    if vesting_account.revoked {
        return Err(LinearVestingError::AlreadyRevoked);
    }
    if vesting_account.approved {
        return Err(LinearVestingError::AlreadyEnabled);
    }
    vesting_account.approved = true;
    Ok(())
}

/// Disables an approved schedule.  Only the registry owner; rejected when
/// the schedule is already disabled.
pub fn disable_account(
    investor_account: &InvestorAccount,
    vesting_account: &mut VestingAccount,
    caller: AccountId,
) -> (r: Result<(), LinearVestingError>)
    ensures
        caller != investor_account.owner ==> r == Err::<(), LinearVestingError>(
            LinearVestingError::OwnerNotMatched,
        ) && *final(vesting_account) == *old(vesting_account),
        caller == investor_account.owner && !old(vesting_account).approved ==> r == Err::<
            (),
            LinearVestingError,
        >(LinearVestingError::AlreadyDisabled) && *final(vesting_account) == *old(vesting_account),
        caller == investor_account.owner && old(vesting_account).approved ==> r == Ok::<
            (),
            LinearVestingError,
        >(()) && *final(vesting_account) == (VestingAccount {
            approved: false,
            ..*old(vesting_account)
        }),
{
    if caller != investor_account.owner {
        return Err(LinearVestingError::OwnerNotMatched);
    }
    if !vesting_account.approved {
        return Err(LinearVestingError::AlreadyDisabled);
    }
    vesting_account.approved = false;
    Ok(())
}

/// Renames an approved schedule.  Only the registry owner.
pub fn rename_account(
    investor_account: &InvestorAccount,
    vesting_account: &mut VestingAccount,
    caller: AccountId,
    name: String,
) -> (r: Result<(), LinearVestingError>)
    ensures
        caller != investor_account.owner ==> r == Err::<(), LinearVestingError>(
            LinearVestingError::OwnerNotMatched,
        ) && *final(vesting_account) == *old(vesting_account),
        caller == investor_account.owner && !old(vesting_account).approved ==> r == Err::<
            (),
            LinearVestingError,
        >(LinearVestingError::AlreadyDisabled) && *final(vesting_account) == *old(vesting_account),
        caller == investor_account.owner && old(vesting_account).approved ==> r == Ok::<
            (),
            LinearVestingError,
        >(()) && *final(vesting_account) == (VestingAccount {
            name: final(vesting_account).name,
            ..*old(vesting_account)
        }) && final(vesting_account).name == name,
{
    if caller != investor_account.owner {
        return Err(LinearVestingError::OwnerNotMatched);
    }
    if !vesting_account.approved {
        return Err(LinearVestingError::AlreadyDisabled);
    }
    vesting_account.name = name;
    Ok(())
}

/// Irreversibly terminates a revocable schedule: the whole current vault
/// balance goes back to the owner, the schedule turns revoked and
/// unapproved, and the refund leaves the deposited total while the payout
/// counter stays untouched.  The returned amount is what the environment
/// transfers from the vault to the owner.
pub fn revoke(vesting_account: &mut VestingAccount, caller: AccountId, vault_balance: u64) -> (r:
    Result<u64, LinearVestingError>)
    ensures
        caller != old(vesting_account).owner ==> r == Err::<u64, LinearVestingError>(
            LinearVestingError::NoMatchOwner,
        ) && *final(vesting_account) == *old(vesting_account),
        caller == old(vesting_account).owner && !old(vesting_account).revocable ==> r == Err::<
            u64,
            LinearVestingError,
        >(LinearVestingError::NoRevoke) && *final(vesting_account) == *old(vesting_account),
        caller == old(vesting_account).owner && old(vesting_account).revocable && old(
            vesting_account,
        ).revoked ==> r == Err::<u64, LinearVestingError>(LinearVestingError::AlreadyRevoked)
            && *final(vesting_account) == *old(vesting_account),
        caller == old(vesting_account).owner && old(vesting_account).revocable && !old(
            vesting_account,
        ).revoked && vault_balance > old(vesting_account).total_deposited_amount ==> r == Err::<
            u64,
            LinearVestingError,
        >(LinearVestingError::Overflow) && *final(vesting_account) == *old(vesting_account),
        caller == old(vesting_account).owner && old(vesting_account).revocable && !old(
            vesting_account,
        ).revoked && vault_balance <= old(vesting_account).total_deposited_amount ==> r == Ok::<
            u64,
            LinearVestingError,
        >(vault_balance) && *final(vesting_account) == (VestingAccount {
            revoked: true,
            approved: false,
            total_deposited_amount: (old(vesting_account).total_deposited_amount
                - vault_balance) as u64,
            ..*old(vesting_account)
        }),
{
    if caller != vesting_account.owner {
        return Err(LinearVestingError::NoMatchOwner);
    }
    if !vesting_account.revocable {
        return Err(LinearVestingError::NoRevoke);
    }
    if vesting_account.revoked {
        return Err(LinearVestingError::AlreadyRevoked);
    }
    let refund = vault_balance;
    let new_total = match vesting_account.total_deposited_amount.checked_sub(refund) {
        Some(v) => v,
        None => {
            return Err(LinearVestingError::Overflow);
        },
    };
    vesting_account.revoked = true;
    vesting_account.approved = false;
    vesting_account.total_deposited_amount = new_total;
    Ok(refund)
}

} // verus!
