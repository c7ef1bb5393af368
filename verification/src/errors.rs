use vstd::prelude::*;

verus! {

/// Typed rejection reasons of the staking operations.  Every rejection is
/// surfaced before any state is mutated, so a failed operation leaves every
/// record exactly as it was.
#[derive(Clone, Copy, Debug, PartialEq, Eq)]
pub enum ErrorCode {
    /// Unstake asks for more than the caller's self-funded stake.
    InsufficientFundUnstake,
    /// A stake or unstake of zero tokens.
    AmountMustBeGreaterThanZero,
    /// The pool's secondary reward side cannot be funded.
    SingleStakeTokenBCannotBeFunded,
    /// The pool is paused.
    PoolPaused,
    /// The merchant sub-pool is paused.
    MerchantPaused,
    /// The reward duration is below the minimum.
    DurationTooShort,
    /// The funder is already authorized.
    FunderAlreadyAuthorized,
    /// The funder list is full.
    MaxFunders,
    /// The primary pool authority cannot be deauthorized.
    CannotDeauthorizePoolAuthority,
    /// The authority to deauthorize is not in the funder list.
    CannotDeauthorizeMissingAuthority,
    /// The lock on the staked balance has not expired yet.
    UnstakingNotOver,
    /// The stake-on-behalf entry was already withdrawn.
    AlreadyWithdrawn,
    /// The stake-on-behalf entry holds no tokens.
    NoTokensToWithdraw,
    /// The stake-on-behalf entry is still inside its lock period.
    NotTimeToWithdrawTokens,
    /// A checked computation left the range of its integer type.
    Overflow,
}

/// Typed rejection reasons of the vesting operations.
#[derive(Clone, Copy, Debug, PartialEq, Eq)]
pub enum LinearVestingError {
    /// The vesting vault is empty.
    NoTokens,
    /// The caller is not the vesting account's owner.
    NoMatchOwner,
    /// The vesting account is not revocable.
    NoRevoke,
    /// The vesting account was already revoked.
    AlreadyRevoked,
    /// The upfront tranche was already released.
    AlreadyUpfronted,
    /// The upfront tranche has not been released yet.
    NotYetUpfronted,
    /// The periodic withdrawal window has not opened yet.
    WaitForWithdrawPeriod,
    /// The caller is not the investor registry's owner.
    OwnerNotMatched,
    /// The vesting account is not approved.
    NotApproved,
    /// The vesting account is already disabled.
    AlreadyDisabled,
    /// The vesting account is already enabled.
    AlreadyEnabled,
    /// Tokens cannot be added once a release has occurred.
    AddTokenNotAllowed,
    /// A checked computation left the range of its integer type.
    Overflow,
}

} // verus!
