//! The life of a validator in the pool: added and funded from the reserve,
//! stake moved to and from it, removed; and the pool's preferred validators.

use crate::coordinator::{kept_preference, pool_value};
use crate::error::StakePoolError;
use crate::pubkey::Pubkey;
use crate::registry::{
    entry_of,
    has_active_validator,
    has_validator,
    index_of,
    keeps_validators,
    lemma_keeps_validators,
    lemma_total_stake_push,
    lemma_total_stake_update,
    total_stake,
};
use crate::state::{
    Clock,
    DecreaseTarget,
    PreferredValidatorType,
    Reserve,
    StakePool,
    StakeStatus,
    ValidatorList,
    ValidatorStakeInfo,
};
use vstd::prelude::*;

verus! {

/// The least that the pool delegates to a validator, whatever the stake
/// program asks for.
pub const MINIMUM_ACTIVE_STAKE: u64 = 1_000_000;

/// The least that the pool delegates to a validator: what the stake program
/// asks for, and `MINIMUM_ACTIVE_STAKE` at least.
pub open spec fn least_delegation(stake_program_minimum_delegation: u64) -> u64 {
    if stake_program_minimum_delegation > MINIMUM_ACTIVE_STAKE {
        stake_program_minimum_delegation
    } else {
        MINIMUM_ACTIVE_STAKE
    }
}

/// The least that a validator's active stake account holds: its rent and
/// the least delegation, and no more than 64 bits hold.
pub open spec fn least_stake_lamports(stake_rent: u64, stake_program_minimum_delegation: u64) -> u64 {
    if stake_rent + least_delegation(stake_program_minimum_delegation) > u64::MAX {
        u64::MAX
    } else {
        (stake_rent + least_delegation(stake_program_minimum_delegation)) as u64
    }
}

/// The least that the pool delegates to a validator.
pub fn minimum_delegation(stake_program_minimum_delegation: u64) -> (r: u64)
    ensures
        r == least_delegation(stake_program_minimum_delegation),
{
    if stake_program_minimum_delegation > MINIMUM_ACTIVE_STAKE {
        stake_program_minimum_delegation
    } else {
        MINIMUM_ACTIVE_STAKE
    }
}

/// The least that a validator's active stake account holds. A new validator
/// is funded with it, and a withdrawal leaves it in the account.
pub fn minimum_stake_lamports(stake_rent: u64, stake_program_minimum_delegation: u64) -> (r: u64)
    ensures
        r == least_stake_lamports(stake_rent, stake_program_minimum_delegation),
{
    stake_rent.saturating_add(minimum_delegation(stake_program_minimum_delegation))
}

/// The entry of a validator that has just been added: in use, with the
/// lamports that its active stake account was funded with, and up to date.
pub open spec fn fresh_entry(
    vote_account: Pubkey,
    seed: u32,
    epoch: u64,
    lamports: u64,
) -> ValidatorStakeInfo {
    ValidatorStakeInfo {
        status: StakeStatus::Active,
        vote_account_address: vote_account,
        active_stake_lamports: lamports,
        transient_stake_lamports: 0,
        last_update_epoch: epoch,
        transient_seed_suffix: 0,
        validator_seed_suffix: seed,
        pending_decrease: None,
    }
}

/// The status that the removal of its validator gives an entry: a validator
/// in use without transient stake begins to deactivate; one whose decrease
/// is under way deactivates altogether. No other entry can be removed: not
/// one whose transient stake is on its way to the validator, which would be
/// left behind, and not one that is leaving already.
pub open spec fn removal_status(entry: ValidatorStakeInfo) -> Option<StakeStatus> {
    match entry.status {
        StakeStatus::Active => if entry.transient_stake_lamports == 0 {
            Some(StakeStatus::DeactivatingValidator)
        } else {
            None
        },
        StakeStatus::DeactivatingTransient => Some(StakeStatus::DeactivatingAll),
        _ => None,
    }
}

/// The pool without any preference for the validator.
pub open spec fn without_preference(pool: StakePool, vote_account: Pubkey) -> StakePool {
    StakePool {
        preferred_deposit_validator_vote_address: if pool.preferred_deposit_validator_vote_address
            == Some(vote_account) {
            None
        } else {
            pool.preferred_deposit_validator_vote_address
        },
        preferred_withdraw_validator_vote_address: if pool.preferred_withdraw_validator_vote_address
            == Some(vote_account) {
            None
        } else {
            pool.preferred_withdraw_validator_vote_address
        },
        ..pool
    }
}

/// The entry after `lamports` from the reserve were sent on their way to
/// the validator.
pub open spec fn increased_entry(entry: ValidatorStakeInfo, lamports: u64, seed: u64) -> ValidatorStakeInfo {
    ValidatorStakeInfo {
        transient_stake_lamports: (entry.transient_stake_lamports + lamports) as u64,
        transient_seed_suffix: seed,
        ..entry
    }
}

/// The entry after `lamports` of its active stake began to deactivate,
/// bound for `target`.
pub open spec fn decreased_entry(
    entry: ValidatorStakeInfo,
    lamports: u64,
    seed: u64,
    target: DecreaseTarget,
) -> ValidatorStakeInfo {
    ValidatorStakeInfo {
        status: StakeStatus::DeactivatingTransient,
        active_stake_lamports: (entry.active_stake_lamports - lamports) as u64,
        transient_stake_lamports: (entry.transient_stake_lamports + lamports) as u64,
        transient_seed_suffix: seed,
        pending_decrease: Some(target),
        ..entry
    }
}

/// Whether each preference of the pool names a validator that has an entry.
pub open spec fn preferences_are_listed(pool: StakePool, entries: Seq<ValidatorStakeInfo>) -> bool {
    &&& pool.preferred_deposit_validator_vote_address matches Some(vote_account)
        ==> has_validator(entries, vote_account)
    &&& pool.preferred_withdraw_validator_vote_address matches Some(vote_account)
        ==> has_validator(entries, vote_account)
}

/// The pool's preference of the given kind.
pub open spec fn preference(pool: StakePool, kind: PreferredValidatorType) -> Option<Pubkey> {
    match kind {
        PreferredValidatorType::Deposit => pool.preferred_deposit_validator_vote_address,
        PreferredValidatorType::Withdraw => pool.preferred_withdraw_validator_vote_address,
    }
}

/// The pool with its preference of the given kind set to `validator`.
pub open spec fn with_preference(
    pool: StakePool,
    kind: PreferredValidatorType,
    validator: Option<Pubkey>,
) -> StakePool {
    match kind {
        PreferredValidatorType::Deposit => StakePool {
            preferred_deposit_validator_vote_address: validator,
            ..pool
        },
        PreferredValidatorType::Withdraw => StakePool {
            preferred_withdraw_validator_vote_address: validator,
            ..pool
        },
    }
}

/// Adds a validator to the pool and funds its active stake account with
/// `lamports` from the reserve: its entry goes to the end of the list, in
/// use, with these lamports as active stake, and up to date for the current
/// epoch. What the pool is worth does not change.
///
/// Fails with `ValidatorListFull` if the list is at its capacity, else with
/// `ValidatorAlreadyAdded` if the validator has an entry, else with
/// `InsufficientFunds` if the reserve would fall under its minimum. On
/// failure nothing has changed.
pub fn add_validator_to_pool(
    list: &mut ValidatorList,
    reserve: &mut Reserve,
    clock: &Clock,
    vote_account: &Pubkey,
    seed: u32,
    lamports: u64,
) -> (r: Result<(), StakePoolError>)
    ensures
        r is Err <==> {
            ||| old(list).validators@.len() >= old(list).max_validators
            ||| has_validator(old(list).validators@, *vote_account)
            ||| old(reserve).lamports - lamports < old(reserve).minimum_lamports
        },
        r matches Err(e) ==> {
            &&& *final(list) == *old(list)
            &&& *final(reserve) == *old(reserve)
            &&& e == if old(list).validators@.len() >= old(list).max_validators {
                StakePoolError::ValidatorListFull
            } else if has_validator(old(list).validators@, *vote_account) {
                StakePoolError::ValidatorAlreadyAdded
            } else {
                StakePoolError::InsufficientFunds
            }
        },
        r is Ok ==> {
            &&& final(list).max_validators == old(list).max_validators
            &&& final(list).validators@ == old(list).validators@.push(
                fresh_entry(*vote_account, seed, clock.epoch, lamports),
            )
            &&& *final(reserve) == (Reserve {
                lamports: (old(reserve).lamports - lamports) as u64,
                ..*old(reserve)
            })
            &&& final(reserve).wf()
            &&& pool_value(*final(reserve), final(list).validators@) == pool_value(
                *old(reserve),
                old(list).validators@,
            )
        },
        keeps_validators(old(list).validators@, final(list).validators@),
        old(list).wf() ==> final(list).wf(),
{
    proof {
        lemma_keeps_validators(list.validators@, list.validators@);
    }
    if list.validators.len() >= list.max_validators as usize {
        return Err(StakePoolError::ValidatorListFull);
    }
    if list.find(vote_account).is_some() {
        return Err(StakePoolError::ValidatorAlreadyAdded);
    }
    if reserve.lamports < lamports || reserve.lamports - lamports < reserve.minimum_lamports {
        return Err(StakePoolError::InsufficientFunds);
    }
    let entry = ValidatorStakeInfo {
        status: StakeStatus::Active,
        vote_account_address: *vote_account,
        active_stake_lamports: lamports,
        transient_stake_lamports: 0,
        last_update_epoch: clock.epoch,
        transient_seed_suffix: 0,
        validator_seed_suffix: seed,
        pending_decrease: None,
    };
    proof {
        lemma_total_stake_push(list.validators@, entry);
        lemma_keeps_validators(list.validators@, list.validators@.push(entry));
    }
    list.validators.push(entry);
    reserve.lamports = reserve.lamports - lamports;
    Ok(())
}

/// Begins the removal of a validator: its entry takes the status that
/// `removal_status` gives it, and the pool drops any preference for it. The
/// entry itself stays until its stake is settled and it is cleaned up.
///
/// Fails with `ValidatorNotFound` if the validator has no entry, else with
/// `WrongStakeState` if its entry cannot be removed.
pub fn remove_validator_from_pool(
    pool: &mut StakePool,
    list: &mut ValidatorList,
    vote_account: &Pubkey,
) -> (r: Result<(), StakePoolError>)
    ensures
        r is Err <==> !has_validator(old(list).validators@, *vote_account) || removal_status(
            entry_of(old(list).validators@, *vote_account),
        ) is None,
        r matches Err(e) ==> {
            &&& *final(list) == *old(list)
            &&& *final(pool) == *old(pool)
            &&& e == if !has_validator(old(list).validators@, *vote_account) {
                StakePoolError::ValidatorNotFound
            } else {
                StakePoolError::WrongStakeState
            }
        },
        r is Ok ==> {
            let entry = entry_of(old(list).validators@, *vote_account);
            &&& final(list).max_validators == old(list).max_validators
            &&& final(list).validators@ == old(list).validators@.update(
                index_of(old(list).validators@, *vote_account),
                ValidatorStakeInfo { status: removal_status(entry).unwrap(), ..entry },
            )
            &&& *final(pool) == without_preference(*old(pool), *vote_account)
        },
        keeps_validators(old(list).validators@, final(list).validators@),
        preferences_are_listed(*old(pool), old(list).validators@) ==> preferences_are_listed(
            *final(pool),
            final(list).validators@,
        ),
        old(list).wf() ==> final(list).wf(),
{
    proof {
        lemma_keeps_validators(list.validators@, list.validators@);
    }
    let i: usize = match list.find(vote_account) {
        Some(i) => i,
        None => {
            return Err(StakePoolError::ValidatorNotFound);
        },
    };
    let entry = list.validators[i];
    let status: StakeStatus = match entry.status {
        StakeStatus::Active => {
            if entry.transient_stake_lamports != 0 {
                return Err(StakePoolError::WrongStakeState);
            }
            StakeStatus::DeactivatingValidator
        },
        StakeStatus::DeactivatingTransient => StakeStatus::DeactivatingAll,
        _ => {
            return Err(StakePoolError::WrongStakeState);
        },
    };
    proof {
        lemma_keeps_validators(
            list.validators@,
            list.validators@.update(i as int, ValidatorStakeInfo { status, ..entry }),
        );
    }
    list.validators[i] = ValidatorStakeInfo { status, ..entry };
    match pool.preferred_deposit_validator_vote_address {
        Some(preferred) => {
            if preferred == *vote_account {
                pool.preferred_deposit_validator_vote_address = None;
            }
        },
        None => {},
    }
    match pool.preferred_withdraw_validator_vote_address {
        Some(preferred) => {
            if preferred == *vote_account {
                pool.preferred_withdraw_validator_vote_address = None;
            }
        },
        None => {},
    }
    Ok(())
}

/// Sends `lamports` from the reserve on their way to a validator: they
/// leave the reserve and are added to the validator's transient stake.
/// `transient_stake_seed` is recorded as the seed of the transient stake
/// account. What the pool is worth does not change.
///
/// Fails with `ValidatorNotFound` if the validator has no entry, else with
/// `WrongStakeState` if it is not in use, else with `InsufficientFunds` if the
/// reserve would fall under its minimum, else with `CalculationFailure` if
/// the transient stake would leave the 64-bit range.
pub fn increase_validator_stake(
    list: &mut ValidatorList,
    reserve: &mut Reserve,
    vote_account: &Pubkey,
    lamports: u64,
    transient_stake_seed: u64,
) -> (r: Result<(), StakePoolError>)
    ensures
        r is Err <==> {
            let entry = entry_of(old(list).validators@, *vote_account);
            ||| !has_validator(old(list).validators@, *vote_account)
            ||| !(entry.status is Active)
            ||| old(reserve).lamports - lamports < old(reserve).minimum_lamports
            ||| entry.transient_stake_lamports + lamports > u64::MAX
        },
        r matches Err(e) ==> {
            let entry = entry_of(old(list).validators@, *vote_account);
            &&& *final(list) == *old(list)
            &&& *final(reserve) == *old(reserve)
            &&& e == if !has_validator(old(list).validators@, *vote_account) {
                StakePoolError::ValidatorNotFound
            } else if !(entry.status is Active) {
                StakePoolError::WrongStakeState
            } else if old(reserve).lamports - lamports < old(reserve).minimum_lamports {
                StakePoolError::InsufficientFunds
            } else {
                StakePoolError::CalculationFailure
            }
        },
        r is Ok ==> {
            let entry = entry_of(old(list).validators@, *vote_account);
            &&& final(list).max_validators == old(list).max_validators
            &&& final(list).validators@ == old(list).validators@.update(
                index_of(old(list).validators@, *vote_account),
                increased_entry(entry, lamports, transient_stake_seed),
            )
            &&& *final(reserve) == (Reserve {
                lamports: (old(reserve).lamports - lamports) as u64,
                ..*old(reserve)
            })
            &&& final(reserve).wf()
            &&& pool_value(*final(reserve), final(list).validators@) == pool_value(
                *old(reserve),
                old(list).validators@,
            )
        },
        keeps_validators(old(list).validators@, final(list).validators@),
        old(list).wf() ==> final(list).wf(),
{
    proof {
        lemma_keeps_validators(list.validators@, list.validators@);
    }
    let i: usize = match list.find(vote_account) {
        Some(i) => i,
        None => {
            return Err(StakePoolError::ValidatorNotFound);
        },
    };
    let entry = list.validators[i];
    if !entry.is_active() {
        return Err(StakePoolError::WrongStakeState);
    }
    if reserve.lamports < lamports || reserve.lamports - lamports < reserve.minimum_lamports {
        return Err(StakePoolError::InsufficientFunds);
    }
    let transient: u64 = match entry.transient_stake_lamports.checked_add(lamports) {
        Some(sum) => sum,
        None => {
            return Err(StakePoolError::CalculationFailure);
        },
    };
    proof {
        lemma_total_stake_update(
            list.validators@,
            i as int,
            increased_entry(entry, lamports, transient_stake_seed),
        );
        lemma_keeps_validators(
            list.validators@,
            list.validators@.update(
                i as int,
                increased_entry(entry, lamports, transient_stake_seed),
            ),
        );
    }
    list.validators[i] = ValidatorStakeInfo {
        transient_stake_lamports: transient,
        transient_seed_suffix: transient_stake_seed,
        ..entry
    };
    reserve.lamports = reserve.lamports - lamports;
    Ok(())
}

/// Takes `lamports` off a validator's active stake: they become transient
/// stake that deactivates, and the entry records where they go once they
/// have: into the reserve or back into the active stake. The stake
/// attributed to the validator does not change.
///
/// Fails with `ValidatorNotFound` if the validator has no entry, else with
/// `WrongStakeState` if it is not in use, else with
/// `InsufficientActiveStake` if `lamports` is more than its active stake,
/// else with `CalculationFailure` if the transient stake would leave the
/// 64-bit range.
pub fn decrease_validator_stake(
    list: &mut ValidatorList,
    vote_account: &Pubkey,
    lamports: u64,
    transient_stake_seed: u64,
    target: DecreaseTarget,
) -> (r: Result<(), StakePoolError>)
    ensures
        r is Err <==> {
            let entry = entry_of(old(list).validators@, *vote_account);
            ||| !has_validator(old(list).validators@, *vote_account)
            ||| !(entry.status is Active)
            ||| lamports > entry.active_stake_lamports
            ||| entry.transient_stake_lamports + lamports > u64::MAX
        },
        r matches Err(e) ==> {
            let entry = entry_of(old(list).validators@, *vote_account);
            &&& *final(list) == *old(list)
            &&& e == if !has_validator(old(list).validators@, *vote_account) {
                StakePoolError::ValidatorNotFound
            } else if !(entry.status is Active) {
                StakePoolError::WrongStakeState
            } else if lamports > entry.active_stake_lamports {
                StakePoolError::InsufficientActiveStake
            } else {
                StakePoolError::CalculationFailure
            }
        },
        r is Ok ==> {
            let entry = entry_of(old(list).validators@, *vote_account);
            &&& final(list).max_validators == old(list).max_validators
            &&& final(list).validators@ == old(list).validators@.update(
                index_of(old(list).validators@, *vote_account),
                decreased_entry(entry, lamports, transient_stake_seed, target),
            )
            &&& total_stake(final(list).validators@) == total_stake(old(list).validators@)
        },
        keeps_validators(old(list).validators@, final(list).validators@),
        old(list).wf() ==> final(list).wf(),
{
    proof {
        lemma_keeps_validators(list.validators@, list.validators@);
    }
    let i: usize = match list.find(vote_account) {
        Some(i) => i,
        None => {
            return Err(StakePoolError::ValidatorNotFound);
        },
    };
    let entry = list.validators[i];
    if !entry.is_active() {
        return Err(StakePoolError::WrongStakeState);
    }
    if lamports > entry.active_stake_lamports {
        return Err(StakePoolError::InsufficientActiveStake);
    }
    let transient: u64 = match entry.transient_stake_lamports.checked_add(lamports) {
        Some(sum) => sum,
        None => {
            return Err(StakePoolError::CalculationFailure);
        },
    };
    proof {
        lemma_total_stake_update(
            list.validators@,
            i as int,
            decreased_entry(entry, lamports, transient_stake_seed, target),
        );
        lemma_keeps_validators(
            list.validators@,
            list.validators@.update(
                i as int,
                decreased_entry(entry, lamports, transient_stake_seed, target),
            ),
        );
    }
    list.validators[i] = ValidatorStakeInfo {
        status: StakeStatus::DeactivatingTransient,
        active_stake_lamports: entry.active_stake_lamports - lamports,
        transient_stake_lamports: transient,
        transient_seed_suffix: transient_stake_seed,
        pending_decrease: Some(target),
        ..entry
    };
    Ok(())
}

/// Sets or clears a preference of the pool. Only a validator in use can be
/// preferred.
///
/// Fails with `ValidatorNotFound` if the validator has no entry, else with
/// `InvalidPreferredValidator` if it is not in use.
pub fn set_preferred_validator(
    pool: &mut StakePool,
    list: &ValidatorList,
    kind: PreferredValidatorType,
    validator: Option<Pubkey>,
) -> (r: Result<(), StakePoolError>)
    ensures
        r is Err <==> (validator matches Some(vote_account) && !has_active_validator(
            list.validators@,
            vote_account,
        )),
        r matches Err(e) ==> {
            &&& *final(pool) == *old(pool)
            &&& e == if !has_validator(list.validators@, validator.unwrap()) {
                StakePoolError::ValidatorNotFound
            } else {
                StakePoolError::InvalidPreferredValidator
            }
        },
        r is Ok ==> *final(pool) == with_preference(*old(pool), kind, validator),
        preferences_are_listed(*old(pool), list.validators@) ==> preferences_are_listed(
            *final(pool),
            list.validators@,
        ),
        preferences_are_listed(*old(pool), list.validators@) ==> (validator matches Some(
            vote_account,
        ) && !has_validator(list.validators@, vote_account) ==> preference(*final(pool), kind)
            != validator),
{
    match validator {
        Some(vote_account) => {
            if !list.has_active(&vote_account) {
                if list.find(&vote_account).is_none() {
                    return Err(StakePoolError::ValidatorNotFound);
                }
                return Err(StakePoolError::InvalidPreferredValidator);
            }
        },
        None => {},
    }
    match kind {
        PreferredValidatorType::Deposit => {
            pool.preferred_deposit_validator_vote_address = validator;
        },
        PreferredValidatorType::Withdraw => {
            pool.preferred_withdraw_validator_vote_address = validator;
        },
    }
    Ok(())
}

/// Reads a preference of the pool for routing a deposit or a withdrawal. A
/// preference that does not name a validator in use counts as none, and is
/// dropped from the pool for good.
pub fn preferred_validator(
    pool: &mut StakePool,
    list: &ValidatorList,
    kind: PreferredValidatorType,
) -> (r: Option<Pubkey>)
    ensures
        r == kept_preference(preference(*old(pool), kind), list.validators@),
        *final(pool) == with_preference(*old(pool), kind, r),
        preferences_are_listed(*old(pool), list.validators@) ==> preferences_are_listed(
            *final(pool),
            list.validators@,
        ),
{
    let current: Option<Pubkey> = match kind {
        PreferredValidatorType::Deposit => pool.preferred_deposit_validator_vote_address,
        PreferredValidatorType::Withdraw => pool.preferred_withdraw_validator_vote_address,
    };
    let kept: Option<Pubkey> = match current {
        Some(vote_account) => if list.has_active(&vote_account) {
            Some(vote_account)
        } else {
            None
        },
        None => None,
    };
    match kind {
        PreferredValidatorType::Deposit => {
            pool.preferred_deposit_validator_vote_address = kept;
        },
        PreferredValidatorType::Withdraw => {
            pool.preferred_withdraw_validator_vote_address = kept;
        },
    }
    kept
}

} // verus!
