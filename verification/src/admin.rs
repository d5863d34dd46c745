//! Creating a pool and changing its settings.

use crate::error::StakePoolError;
use crate::pubkey::Pubkey;
use crate::state::{
    AccountType,
    Clock,
    Fee,
    FeeType,
    Lockup,
    Reserve,
    StakePool,
    ValidatorList,
};
use vstd::prelude::*;

verus! {

/// The accounts that a new pool is made of.
#[derive(Clone, Copy, Debug)]
pub struct Initialize {
    pub manager: Pubkey,
    pub staker: Pubkey,
    pub stake_deposit_authority: Pubkey,
    pub stake_withdraw_bump_seed: u8,
    pub validator_list: Pubkey,
    pub reserve_stake: Pubkey,
    pub pool_mint: Pubkey,
    pub manager_fee_account: Pubkey,
    pub token_program: Pubkey,
    /// The lockup that the pool's stake accounts carry.
    pub lockup: Lockup,
}

/// Whether a referral share is at most one hundred percent.
pub open spec fn referral_is_valid(percent: u8) -> bool {
    percent <= 100
}

/// Whether the fee setting is acceptable: a ratio at most one, a referral
/// share at most one hundred percent.
pub open spec fn fee_type_is_valid(fee: FeeType) -> bool {
    match fee {
        FeeType::SolReferral(percent) => referral_is_valid(percent),
        FeeType::StakeReferral(percent) => referral_is_valid(percent),
        FeeType::Epoch(fee) => fee.is_valid(),
        FeeType::StakeWithdrawal(fee) => fee.is_valid(),
        FeeType::SolWithdrawal(fee) => fee.is_valid(),
        FeeType::StakeDeposit(fee) => fee.is_valid(),
        FeeType::SolDeposit(fee) => fee.is_valid(),
    }
}

/// The pool with the fee setting put in.
pub open spec fn with_fee(pool: StakePool, fee: FeeType) -> StakePool {
    match fee {
        FeeType::SolReferral(percent) => StakePool { sol_referral_fee: percent, ..pool },
        FeeType::StakeReferral(percent) => StakePool { stake_referral_fee: percent, ..pool },
        FeeType::Epoch(fee) => StakePool { epoch_fee: fee, ..pool },
        FeeType::StakeWithdrawal(fee) => StakePool { stake_withdrawal_fee: fee, ..pool },
        FeeType::SolWithdrawal(fee) => StakePool { sol_withdrawal_fee: fee, ..pool },
        FeeType::StakeDeposit(fee) => StakePool { stake_deposit_fee: fee, ..pool },
        FeeType::SolDeposit(fee) => StakePool { sol_deposit_fee: fee, ..pool },
    }
}

/// A new pool over a reserve: worth what the reserve holds, with one pool
/// token per lamport, updated in `epoch`, with no preference, and with the
/// same fees on lamports and on stake.
pub open spec fn new_pool(
    accounts: Initialize,
    reserve_lamports: u64,
    epoch: u64,
    fee: Fee,
    withdrawal_fee: Fee,
    deposit_fee: Fee,
    referral_fee: u8,
) -> StakePool {
    StakePool {
        account_type: AccountType::StakePool,
        manager: accounts.manager,
        staker: accounts.staker,
        stake_deposit_authority: accounts.stake_deposit_authority,
        stake_withdraw_bump_seed: accounts.stake_withdraw_bump_seed,
        validator_list: accounts.validator_list,
        reserve_stake: accounts.reserve_stake,
        pool_mint: accounts.pool_mint,
        manager_fee_account: accounts.manager_fee_account,
        token_program_id: accounts.token_program,
        total_lamports: reserve_lamports,
        pool_token_supply: reserve_lamports,
        last_update_epoch: epoch,
        lockup: accounts.lockup,
        epoch_fee: fee,
        preferred_deposit_validator_vote_address: None,
        preferred_withdraw_validator_vote_address: None,
        stake_deposit_fee: deposit_fee,
        stake_withdrawal_fee: withdrawal_fee,
        stake_referral_fee: referral_fee,
        sol_deposit_authority: None,
        sol_deposit_fee: deposit_fee,
        sol_referral_fee: referral_fee,
        sol_withdraw_authority: None,
        sol_withdrawal_fee: withdrawal_fee,
        last_epoch_pool_token_supply: 0,
        last_epoch_total_lamports: 0,
    }
}

/// Whether the fee setting is acceptable.
pub fn check_fee(fee: &FeeType) -> (r: bool)
    ensures
        r == fee_type_is_valid(*fee),
{
    match fee {
        FeeType::SolReferral(percent) => *percent <= 100,
        FeeType::StakeReferral(percent) => *percent <= 100,
        FeeType::Epoch(fee) => fee.check(),
        FeeType::StakeWithdrawal(fee) => fee.check(),
        FeeType::SolWithdrawal(fee) => fee.check(),
        FeeType::StakeDeposit(fee) => fee.check(),
        FeeType::SolDeposit(fee) => fee.check(),
    }
}

/// Creates a pool over the given reserve, with an empty validator list for
/// at most `max_validators` validators. The pool is worth what the reserve
/// holds.
///
/// Fails, with `FeeTooHigh`, exactly when a fee is above one or the
/// referral share above one hundred percent.
pub fn initialize(
    accounts: &Initialize,
    reserve: &Reserve,
    clock: &Clock,
    fee: Fee,
    withdrawal_fee: Fee,
    deposit_fee: Fee,
    referral_fee: u8,
    max_validators: u32,
) -> (r: Result<(StakePool, ValidatorList), StakePoolError>)
    ensures
        r is Err <==> !(fee.is_valid() && withdrawal_fee.is_valid() && deposit_fee.is_valid()
            && referral_is_valid(referral_fee)),
        r matches Err(e) ==> e == StakePoolError::FeeTooHigh,
        r matches Ok((pool, list)) ==> {
            &&& pool == new_pool(
                *accounts,
                reserve.lamports,
                clock.epoch,
                fee,
                withdrawal_fee,
                deposit_fee,
                referral_fee,
            )
            &&& list.max_validators == max_validators
            &&& list.validators@.len() == 0
            &&& list.wf()
        },
{
    if !fee.check() || !withdrawal_fee.check() || !deposit_fee.check() || referral_fee > 100 {
        return Err(StakePoolError::FeeTooHigh);
    }
    let pool = StakePool {
        account_type: AccountType::StakePool,
        manager: accounts.manager,
        staker: accounts.staker,
        stake_deposit_authority: accounts.stake_deposit_authority,
        stake_withdraw_bump_seed: accounts.stake_withdraw_bump_seed,
        validator_list: accounts.validator_list,
        reserve_stake: accounts.reserve_stake,
        pool_mint: accounts.pool_mint,
        manager_fee_account: accounts.manager_fee_account,
        token_program_id: accounts.token_program,
        total_lamports: reserve.lamports,
        pool_token_supply: reserve.lamports,
        last_update_epoch: clock.epoch,
        lockup: accounts.lockup,
        epoch_fee: fee,
        preferred_deposit_validator_vote_address: None,
        preferred_withdraw_validator_vote_address: None,
        stake_deposit_fee: deposit_fee,
        stake_withdrawal_fee: withdrawal_fee,
        stake_referral_fee: referral_fee,
        sol_deposit_authority: None,
        sol_deposit_fee: deposit_fee,
        sol_referral_fee: referral_fee,
        sol_withdraw_authority: None,
        sol_withdrawal_fee: withdrawal_fee,
        last_epoch_pool_token_supply: 0,
        last_epoch_total_lamports: 0,
    };
    Ok((pool, ValidatorList::new(max_validators)))
}

/// Changes one fee setting of the pool, on the manager's word.
///
/// Fails with `WrongManager` if `signer` is not the pool's manager, else
/// with `FeeTooHigh` if the setting is not acceptable.
pub fn set_fee(pool: &mut StakePool, signer: &Pubkey, fee: FeeType) -> (r: Result<
    (),
    StakePoolError,
>)
    ensures
        r is Err <==> *signer != old(pool).manager || !fee_type_is_valid(fee),
        r matches Err(e) ==> {
            &&& *final(pool) == *old(pool)
            &&& e == if *signer != old(pool).manager {
                StakePoolError::WrongManager
            } else {
                StakePoolError::FeeTooHigh
            }
        },
        r is Ok ==> *final(pool) == with_fee(*old(pool), fee),
{
    if *signer != pool.manager {
        return Err(StakePoolError::WrongManager);
    }
    if !check_fee(&fee) {
        return Err(StakePoolError::FeeTooHigh);
    }
    match fee {
        FeeType::SolReferral(percent) => {
            pool.sol_referral_fee = percent;
        },
        FeeType::StakeReferral(percent) => {
            pool.stake_referral_fee = percent;
        },
        FeeType::Epoch(fee) => {
            pool.epoch_fee = fee;
        },
        FeeType::StakeWithdrawal(fee) => {
            pool.stake_withdrawal_fee = fee;
        },
        FeeType::SolWithdrawal(fee) => {
            pool.sol_withdrawal_fee = fee;
        },
        FeeType::StakeDeposit(fee) => {
            pool.stake_deposit_fee = fee;
        },
        FeeType::SolDeposit(fee) => {
            pool.sol_deposit_fee = fee;
        },
    }
    Ok(())
}

/// Hands the pool to a new manager, with the account that takes its fees,
/// on the manager's word.
///
/// Fails, with `WrongManager`, exactly when `signer` is not the pool's
/// manager.
pub fn set_manager(
    pool: &mut StakePool,
    signer: &Pubkey,
    new_manager: &Pubkey,
    new_manager_fee_account: &Pubkey,
) -> (r: Result<(), StakePoolError>)
    ensures
        r is Err <==> *signer != old(pool).manager,
        r matches Err(e) ==> e == StakePoolError::WrongManager && *final(pool) == *old(pool),
        r is Ok ==> *final(pool) == (StakePool {
            manager: *new_manager,
            manager_fee_account: *new_manager_fee_account,
            ..*old(pool)
        }),
{
    if *signer != pool.manager {
        return Err(StakePoolError::WrongManager);
    }
    pool.manager = *new_manager;
    pool.manager_fee_account = *new_manager_fee_account;
    Ok(())
}

/// Names a new staker, on the word of the manager or of the staker.
///
/// Fails, with `WrongStaker`, exactly when `signer` is neither.
pub fn set_staker(pool: &mut StakePool, signer: &Pubkey, new_staker: &Pubkey) -> (r: Result<
    (),
    StakePoolError,
>)
    ensures
        r is Err <==> *signer != old(pool).manager && *signer != old(pool).staker,
        r matches Err(e) ==> e == StakePoolError::WrongStaker && *final(pool) == *old(pool),
        r is Ok ==> *final(pool) == (StakePool { staker: *new_staker, ..*old(pool) }),
{
    if *signer != pool.manager && *signer != pool.staker {
        return Err(StakePoolError::WrongStaker);
    }
    pool.staker = *new_staker;
    Ok(())
}

} // verus!
