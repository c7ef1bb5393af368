//! A token-staking ledger with time-weighted reward accrual, a merchant
//! sub-pool tier, an admin-funded stake-on-behalf schedule, and a separate
//! linear vesting engine.
//!
//! The core is a set of deterministic operations over plain account records:
//! every operation takes the affected records, the relevant vault balances and
//! the current time, validates its preconditions, refreshes the pool's
//! reward-per-token index, applies the balance mutation, and reports the token
//! amount that the surrounding environment must move between vaults.  The
//! host ledger (account storage, signature checks, token transfers, the clock)
//! is an external collaborator: it supplies the inputs and executes the
//! returned transfers.

pub mod accrual;
pub mod errors;
pub mod merchant;
pub mod refresh;
pub mod staking;
pub mod state;
pub mod vesting;
