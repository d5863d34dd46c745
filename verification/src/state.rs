//! The pool's data: fee ratios, the pool record, validator entries and the
//! validator list.

use crate::pubkey::Pubkey;
use vstd::prelude::*;
use vstd::std_specs::cmp::PartialEqSpecImpl;

verus! {

/// A fee as a ratio. A denominator of zero means no fee.
#[derive(Clone, Copy, Debug, PartialEq, Eq, Structural)]
pub struct Fee {
    pub denominator: u64,
    pub numerator: u64,
}

/// Restriction on withdrawing from a stake account.
#[derive(Clone, Copy, Debug, Eq)]
pub struct Lockup {
    pub unix_timestamp: i64,
    pub epoch: u64,
    pub custodian: Pubkey,
}

impl PartialEq for Lockup {
    fn eq(&self, other: &Self) -> (r: bool) {
        self.unix_timestamp == other.unix_timestamp && self.epoch == other.epoch && self.custodian
            == other.custodian
    }
}

impl PartialEqSpecImpl for Lockup {
    open spec fn obeys_eq_spec() -> bool {
        true
    }

    open spec fn eq_spec(&self, other: &Self) -> bool {
        *self == *other
    }
}

/// A fee setting together with its new value.
#[derive(Clone, Copy, Debug, PartialEq, Eq, Structural)]
pub enum FeeType {
    /// Share of the lamport deposit fee that goes to the referrer, in percent.
    SolReferral(u8),
    /// Share of the stake deposit fee that goes to the referrer, in percent.
    StakeReferral(u8),
    /// Fee on the rewards of an epoch.
    Epoch(Fee),
    /// Fee on withdrawing stake.
    StakeWithdrawal(Fee),
    /// Fee on withdrawing lamports from the reserve.
    SolWithdrawal(Fee),
    /// Fee on depositing stake.
    StakeDeposit(Fee),
    /// Fee on depositing lamports.
    SolDeposit(Fee),
}

/// What a program account holds.
#[derive(Clone, Copy, Debug, PartialEq, Eq, Structural)]
pub enum AccountType {
    Uninitialized,
    StakePool,
    ValidatorList,
}

/// Where a validator stands in its life in the pool.
#[derive(Clone, Copy, Debug, PartialEq, Eq, Structural)]
pub enum StakeStatus {
    /// In use: stake may be deposited, increased and decreased.
    Active,
    /// A decrease is under way: the transient stake is deactivating and the
    /// validator goes back to `Active` once it is settled.
    DeactivatingTransient,
    /// The validator is being removed: its active stake is deactivating.
    DeactivatingValidator,
    /// The validator is being removed while a decrease was under way: both
    /// stakes are deactivating.
    DeactivatingAll,
    /// Nothing is left to settle; the entry waits to be deleted.
    ReadyForRemoval,
}

/// Where the stake taken off a validator goes once it has deactivated.
#[derive(Clone, Copy, Debug, PartialEq, Eq, Structural)]
pub enum DecreaseTarget {
    /// Into the pool's reserve.
    Reserve,
    /// Back into the validator's active stake.
    Active,
}

/// Which of the two preferences of the pool is meant.
#[derive(Clone, Copy, Debug, PartialEq, Eq, Structural)]
pub enum PreferredValidatorType {
    Deposit,
    Withdraw,
}

/// The pool's record of one validator.
#[derive(Clone, Copy, Debug)]
pub struct ValidatorStakeInfo {
    pub status: StakeStatus,
    /// The validator's vote account, which identifies it in the list.
    pub vote_account_address: Pubkey,
    /// Lamports in the validator's active stake account.
    pub active_stake_lamports: u64,
    /// Lamports in the validator's transient stake account.
    pub transient_stake_lamports: u64,
    /// Epoch in which the two balances were last reconciled.
    pub last_update_epoch: u64,
    /// Seed of the transient stake account's address.
    pub transient_seed_suffix: u64,
    /// Seed of the active stake account's address.
    pub validator_seed_suffix: u32,
    /// The destination chosen by the decrease that is under way, if one is.
    pub pending_decrease: Option<DecreaseTarget>,
}

/// The pool itself.
#[derive(Clone, Copy, Debug)]
pub struct StakePool {
    pub account_type: AccountType,
    pub manager: Pubkey,
    pub staker: Pubkey,
    pub stake_deposit_authority: Pubkey,
    pub stake_withdraw_bump_seed: u8,
    pub validator_list: Pubkey,
    pub reserve_stake: Pubkey,
    pub pool_mint: Pubkey,
    pub manager_fee_account: Pubkey,
    pub token_program_id: Pubkey,
    /// Lamports under management as of the last update of the pool balance.
    pub total_lamports: u64,
    /// Pool tokens in circulation.
    pub pool_token_supply: u64,
    /// Epoch of the last update of the pool balance.
    pub last_update_epoch: u64,
    pub lockup: Lockup,
    pub epoch_fee: Fee,
    pub preferred_deposit_validator_vote_address: Option<Pubkey>,
    pub preferred_withdraw_validator_vote_address: Option<Pubkey>,
    pub stake_deposit_fee: Fee,
    pub stake_withdrawal_fee: Fee,
    pub stake_referral_fee: u8,
    pub sol_deposit_authority: Option<Pubkey>,
    pub sol_deposit_fee: Fee,
    pub sol_referral_fee: u8,
    pub sol_withdraw_authority: Option<Pubkey>,
    pub sol_withdrawal_fee: Fee,
    pub last_epoch_pool_token_supply: u64,
    pub last_epoch_total_lamports: u64,
}

/// The validators of a pool, in the order in which they were added.
#[derive(Clone, Debug)]
pub struct ValidatorList {
    /// How many validators the list may hold at most.
    pub max_validators: u32,
    pub validators: Vec<ValidatorStakeInfo>,
}

/// The pool's reserve: lamports that are delegated to no validator.
#[derive(Clone, Copy, Debug, PartialEq, Eq, Structural)]
pub struct Reserve {
    /// Lamports in the reserve.
    pub lamports: u64,
    /// Lamports that must stay in the reserve at all times.
    pub minimum_lamports: u64,
}

impl Reserve {
    /// Whether the reserve holds its minimum.
    pub open spec fn wf(&self) -> bool {
        self.lamports >= self.minimum_lamports
    }
}

/// The network's clock as the pool sees it.
#[derive(Clone, Copy, Debug, PartialEq, Eq, Structural)]
pub struct Clock {
    /// The current epoch.
    pub epoch: u64,
    /// Whether the rewards of the last epoch are still being paid out.
    pub epoch_rewards_active: bool,
}

} // verus!
