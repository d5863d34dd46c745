//! Stake accounts as the network reports them, and what the pool makes of
//! them: only an account that the pool provably controls is ever counted or
//! merged.

use crate::pubkey::Pubkey;
use crate::state::Lockup;
use vstd::prelude::*;

verus! {

/// Who may act on a stake account, and until when it is locked.
#[derive(Clone, Copy, Debug)]
pub struct StakeMeta {
    pub rent_exempt_reserve: u64,
    /// May delegate and deactivate the stake.
    pub staker: Pubkey,
    /// May withdraw from the account.
    pub withdrawer: Pubkey,
    pub lockup: Lockup,
}

/// A stake's delegation to a validator.
#[derive(Clone, Copy, Debug)]
pub struct Delegation {
    /// Vote account of the validator that the stake is delegated to.
    pub voter_pubkey: Pubkey,
    /// Lamports delegated.
    pub stake: u64,
    /// Epoch in which the stake began to activate.
    pub activation_epoch: u64,
    /// Epoch in which the stake began to deactivate, `u64::MAX` if it has not.
    pub deactivation_epoch: u64,
}

/// The state recorded in a stake account.
#[derive(Clone, Copy, Debug)]
pub enum StakeState {
    /// The account holds no stake data.
    Uninitialized,
    /// The account has its authorities set and delegates nothing.
    Initialized(StakeMeta),
    /// The account delegates stake.
    Stake(StakeMeta, Delegation),
    /// The account belongs to the network's rewards pool.
    RewardsPool,
}

/// A stake account at the time of a query.
#[derive(Clone, Copy, Debug)]
pub struct StakeAccount {
    pub lamports: u64,
    pub state: StakeState,
}

/// The two stake accounts of one validator at the time of a query; `None`
/// stands for an account that does not exist.
#[derive(Clone, Copy, Debug)]
pub struct ValidatorStakeAccounts {
    pub validator_stake: Option<StakeAccount>,
    pub transient_stake: Option<StakeAccount>,
}

/// What the pool makes of a stake account.
#[derive(Clone, Copy, Debug, PartialEq, Eq, Structural)]
pub enum AccountClass {
    /// There is no account, or it holds no stake data. It counts for nothing.
    Missing,
    /// The account is not under the pool's control, or delegates to another
    /// validator. It counts for nothing and is left alone.
    Foreign,
    /// The account is under the pool's control and its stake is inactive: it
    /// may be merged.
    Deactivated,
    /// The account is under the pool's control and delegates to the
    /// validator: its lamports are counted.
    Live,
}

/// Whether the pool controls a stake account with this metadata: both
/// authorities are the pool's withdraw authority and the lockup is the
/// pool's.
pub open spec fn usable_by_pool(meta: StakeMeta, withdraw_authority: Pubkey, lockup: Lockup) -> bool {
    &&& meta.staker == withdraw_authority
    &&& meta.withdrawer == withdraw_authority
    &&& meta.lockup == lockup
}

/// Whether a delegation earns nothing any more in `epoch`: it began to
/// deactivate in an earlier epoch, or was deactivated in the very epoch in
/// which it was made, which is `epoch`.
pub open spec fn inactive_in(delegation: Delegation, epoch: u64) -> bool {
    ||| delegation.deactivation_epoch < epoch
    ||| (delegation.activation_epoch == epoch && delegation.deactivation_epoch == epoch)
}

/// Whether the account's stake has settled as active by `epoch`: it was
/// delegated in an earlier epoch and is not deactivating.
pub open spec fn settled_in(account: Option<StakeAccount>, epoch: u64) -> bool {
    match account {
        Some(a) => match a.state {
            StakeState::Stake(_, delegation) => delegation.activation_epoch < epoch
                && delegation.deactivation_epoch == u64::MAX,
            _ => false,
        },
        None => false,
    }
}

/// The class of a validator's stake account in `epoch`.
pub open spec fn class_of(
    account: Option<StakeAccount>,
    withdraw_authority: Pubkey,
    lockup: Lockup,
    vote_account: Pubkey,
    epoch: u64,
) -> AccountClass {
    match account {
        None => AccountClass::Missing,
        Some(a) => match a.state {
            StakeState::Uninitialized => AccountClass::Missing,
            StakeState::RewardsPool => AccountClass::Foreign,
            StakeState::Initialized(meta) => if usable_by_pool(meta, withdraw_authority, lockup) {
                AccountClass::Deactivated
            } else {
                AccountClass::Foreign
            },
            StakeState::Stake(meta, delegation) => if !usable_by_pool(
                meta,
                withdraw_authority,
                lockup,
            ) || delegation.voter_pubkey != vote_account {
                AccountClass::Foreign
            } else if inactive_in(delegation, epoch) {
                AccountClass::Deactivated
            } else {
                AccountClass::Live
            },
        },
    }
}

/// The lamports of the account that the pool counts as its own.
pub open spec fn counted_lamports(account: Option<StakeAccount>, class: AccountClass) -> u64 {
    match account {
        Some(a) if class == AccountClass::Live || class == AccountClass::Deactivated => a.lamports,
        _ => 0,
    }
}

/// Whether the pool controls a stake account with this metadata.
pub fn stake_is_usable_by_pool(meta: &StakeMeta, withdraw_authority: &Pubkey, lockup: &Lockup) -> (r:
    bool)
    ensures
        r == usable_by_pool(*meta, *withdraw_authority, *lockup),
{
    meta.staker == *withdraw_authority && meta.withdrawer == *withdraw_authority && meta.lockup
        == *lockup
}

/// Whether a delegation earns nothing any more in `epoch`.
pub fn stake_is_inactive(delegation: &Delegation, epoch: u64) -> (r: bool)
    ensures
        r == inactive_in(*delegation, epoch),
{
    delegation.deactivation_epoch < epoch || (delegation.activation_epoch == epoch
        && delegation.deactivation_epoch == epoch)
}

/// Whether the account's stake has settled as active by `epoch`.
pub fn stake_is_settled(account: &Option<StakeAccount>, epoch: u64) -> (r: bool)
    ensures
        r == settled_in(*account, epoch),
{
    match account {
        Some(a) => match &a.state {
            StakeState::Stake(_, delegation) => delegation.activation_epoch < epoch
                && delegation.deactivation_epoch == u64::MAX,
            _ => false,
        },
        None => false,
    }
}

/// Classifies a validator's stake account.
pub fn classify(
    account: &Option<StakeAccount>,
    withdraw_authority: &Pubkey,
    lockup: &Lockup,
    vote_account: &Pubkey,
    epoch: u64,
) -> (class: AccountClass)
    ensures
        class == class_of(*account, *withdraw_authority, *lockup, *vote_account, epoch),
{
    match account {
        None => AccountClass::Missing,
        Some(a) => match &a.state {
            StakeState::Uninitialized => AccountClass::Missing,
            StakeState::RewardsPool => AccountClass::Foreign,
            StakeState::Initialized(meta) => {
                if stake_is_usable_by_pool(meta, withdraw_authority, lockup) {
                    AccountClass::Deactivated
                } else {
                    AccountClass::Foreign
                }
            },
            StakeState::Stake(meta, delegation) => {
                if !stake_is_usable_by_pool(meta, withdraw_authority, lockup)
                    || delegation.voter_pubkey != *vote_account {
                    AccountClass::Foreign
                } else if stake_is_inactive(delegation, epoch) {
                    AccountClass::Deactivated
                } else {
                    AccountClass::Live
                }
            },
        },
    }
}

/// The lamports of the account that the pool counts as its own: all of them
/// if the account is live or deactivated, none otherwise.
pub fn lamports_counted(account: &Option<StakeAccount>, class: AccountClass) -> (r: u64)
    ensures
        r == counted_lamports(*account, class),
{
    match account {
        Some(a) => match class {
            AccountClass::Live | AccountClass::Deactivated => a.lamports,
            _ => 0,
        },
        None => 0,
    }
}

} // verus!
