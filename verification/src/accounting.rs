//! Reconciliation of one validator entry with its two stake accounts.
//!
//! Once per epoch an entry is brought up to date from what the network
//! reports of its accounts: of its active stake account, and of its
//! transient stake account while it has transient stake. Transient stake
//! that has been activated is merged into the active stake; stake that has
//! deactivated is merged, into the reserve or back into the active stake;
//! what the pool does not provably control is left out and left alone. The
//! merges themselves are carried out by the caller: this module decides them
//! and says what the entry and the reserve look like once they are done.

use crate::client::is_transient_stake_in_use;
use crate::error::StakePoolError;
use crate::pubkey::Pubkey;
use crate::stake_account::{
    class_of,
    classify,
    counted_lamports,
    lamports_counted,
    settled_in,
    stake_is_settled,
    AccountClass,
    StakeAccount,
    ValidatorStakeAccounts,
};
use crate::state::{DecreaseTarget, Lockup, StakeStatus, ValidatorStakeInfo};
use vstd::prelude::*;

verus! {

/// What a reconciliation goes by.
#[derive(Clone, Copy, Debug)]
pub struct ReconcileParams {
    /// The authority that the pool's stake accounts answer to.
    pub withdraw_authority: Pubkey,
    /// The lockup that the pool's stake accounts carry.
    pub lockup: Lockup,
    /// The current epoch.
    pub epoch: u64,
    /// Whether deactivated stake is merged; if not, balances are only read.
    pub merge: bool,
}

/// The merges that a reconciliation asks for.
#[derive(Clone, Copy, Debug, PartialEq, Eq, Structural)]
pub struct Merges {
    /// Where the transient stake account is merged, if anywhere: into the
    /// reserve, or into the validator's active stake account.
    pub transient_stake: Option<DecreaseTarget>,
    /// Whether the active stake account is merged into the reserve.
    pub validator_stake: bool,
}

/// An entry brought up to date.
#[derive(Clone, Copy, Debug)]
pub struct Reconciliation {
    /// The entry as it stands once the merges are done.
    pub entry: ValidatorStakeInfo,
    /// The merges to carry out.
    pub merges: Merges,
    /// Lamports that the merges bring into the reserve.
    pub reserve_credit: u64,
}

/// Whether the entry has yet to be reconciled for `epoch`.
pub open spec fn is_due(entry: ValidatorStakeInfo, epoch: u64) -> bool {
    entry.last_update_epoch < epoch
}

/// Whether the validator is being removed, or waits to be deleted.
pub open spec fn is_leaving(status: StakeStatus) -> bool {
    status is DeactivatingValidator || status is DeactivatingAll || status is ReadyForRemoval
}

/// Where the entry's transient stake goes once it has deactivated: into the
/// reserve if the validator is leaving, else where the pending decrease was
/// told to put it, and into the reserve if no decrease is pending.
pub open spec fn transient_destination(entry: ValidatorStakeInfo) -> DecreaseTarget {
    if !is_leaving(entry.status) && entry.pending_decrease == Some(DecreaseTarget::Active) {
        DecreaseTarget::Active
    } else {
        DecreaseTarget::Reserve
    }
}

/// The entry's transient stake account as the reconciliation sees it: the
/// account is looked at only while the entry has transient stake, and
/// counts as not there otherwise.
pub open spec fn transient_account(
    entry: ValidatorStakeInfo,
    accounts: ValidatorStakeAccounts,
) -> Option<StakeAccount> {
    if entry.transient_stake_lamports > 0 {
        accounts.transient_stake
    } else {
        None
    }
}

/// The class of the entry's active stake account.
pub open spec fn validator_class(
    entry: ValidatorStakeInfo,
    accounts: ValidatorStakeAccounts,
    params: ReconcileParams,
) -> AccountClass {
    class_of(
        accounts.validator_stake,
        params.withdraw_authority,
        params.lockup,
        entry.vote_account_address,
        params.epoch,
    )
}

/// The class of the entry's transient stake account.
pub open spec fn transient_class(
    entry: ValidatorStakeInfo,
    accounts: ValidatorStakeAccounts,
    params: ReconcileParams,
) -> AccountClass {
    class_of(
        transient_account(entry, accounts),
        params.withdraw_authority,
        params.lockup,
        entry.vote_account_address,
        params.epoch,
    )
}

/// Whether the transient stake has been activated and can join the active
/// stake: both accounts are live, and the stake of both has settled as
/// active by the epoch. This is how an increase ends.
pub open spec fn transient_is_activated(
    entry: ValidatorStakeInfo,
    accounts: ValidatorStakeAccounts,
    params: ReconcileParams,
) -> bool {
    &&& transient_class(entry, accounts, params) == AccountClass::Live
    &&& validator_class(entry, accounts, params) == AccountClass::Live
    &&& settled_in(transient_account(entry, accounts), params.epoch)
    &&& settled_in(accounts.validator_stake, params.epoch)
}

/// Where the transient stake account is merged: nowhere unless merging is
/// allowed. A transient stake that has deactivated goes into the reserve, or
/// into the active stake account if that is its destination and that account
/// is live; one bound for an active stake account that is not live stays
/// where it is. A transient stake that has been activated goes into the
/// active stake account.
pub open spec fn transient_merge(
    entry: ValidatorStakeInfo,
    accounts: ValidatorStakeAccounts,
    params: ReconcileParams,
) -> Option<DecreaseTarget> {
    if params.merge && transient_class(entry, accounts, params) == AccountClass::Deactivated {
        if transient_destination(entry) == DecreaseTarget::Reserve {
            Some(DecreaseTarget::Reserve)
        } else if validator_class(entry, accounts, params) == AccountClass::Live {
            Some(DecreaseTarget::Active)
        } else {
            None
        }
    } else if params.merge && transient_is_activated(entry, accounts, params) {
        Some(DecreaseTarget::Active)
    } else {
        None
    }
}

/// Whether the active stake account is merged into the reserve: when
/// merging is allowed and the account has deactivated or was reset.
pub open spec fn validator_merge(
    entry: ValidatorStakeInfo,
    accounts: ValidatorStakeAccounts,
    params: ReconcileParams,
) -> bool {
    params.merge && validator_class(entry, accounts, params) == AccountClass::Deactivated
}

/// The transient balance after the reconciliation.
pub open spec fn new_transient_lamports(
    entry: ValidatorStakeInfo,
    accounts: ValidatorStakeAccounts,
    params: ReconcileParams,
) -> int {
    if transient_merge(entry, accounts, params) is Some {
        0
    } else {
        counted_lamports(
            transient_account(entry, accounts),
            transient_class(entry, accounts, params),
        ) as int
    }
}

/// The active balance after the reconciliation.
pub open spec fn new_active_lamports(
    entry: ValidatorStakeInfo,
    accounts: ValidatorStakeAccounts,
    params: ReconcileParams,
) -> int {
    if validator_merge(entry, accounts, params) {
        0
    } else if transient_merge(entry, accounts, params) == Some(DecreaseTarget::Active) {
        counted_lamports(accounts.validator_stake, validator_class(entry, accounts, params))
            + counted_lamports(
            transient_account(entry, accounts),
            transient_class(entry, accounts, params),
        )
    } else {
        counted_lamports(accounts.validator_stake, validator_class(entry, accounts, params)) as int
    }
}

/// Lamports that the merges bring into the reserve.
pub open spec fn merged_into_reserve(
    entry: ValidatorStakeInfo,
    accounts: ValidatorStakeAccounts,
    params: ReconcileParams,
) -> int {
    (if transient_merge(entry, accounts, params) == Some(DecreaseTarget::Reserve) {
        counted_lamports(
            transient_account(entry, accounts),
            transient_class(entry, accounts, params),
        ) as int
    } else {
        0
    }) + (if validator_merge(entry, accounts, params) {
        counted_lamports(accounts.validator_stake, validator_class(entry, accounts, params)) as int
    } else {
        0
    })
}

/// The status after the reconciliation. Without merging it stays. With
/// merging, a validator in use whose active stake account was found
/// deactivated is made ready for removal; a decrease is over once no
/// transient stake is left; a leaving validator is ready for removal once
/// both balances are zero.
pub open spec fn new_status(
    entry: ValidatorStakeInfo,
    accounts: ValidatorStakeAccounts,
    params: ReconcileParams,
) -> StakeStatus {
    let active = new_active_lamports(entry, accounts, params);
    let transient = new_transient_lamports(entry, accounts, params);
    if !params.merge {
        entry.status
    } else {
        match entry.status {
            StakeStatus::Active => if validator_merge(entry, accounts, params) {
                StakeStatus::ReadyForRemoval
            } else {
                StakeStatus::Active
            },
            StakeStatus::DeactivatingTransient => if validator_merge(entry, accounts, params) {
                StakeStatus::ReadyForRemoval
            } else if transient == 0 {
                StakeStatus::Active
            } else {
                StakeStatus::DeactivatingTransient
            },
            StakeStatus::DeactivatingValidator => if active == 0 && transient == 0 {
                StakeStatus::ReadyForRemoval
            } else {
                StakeStatus::DeactivatingValidator
            },
            StakeStatus::DeactivatingAll => if transient != 0 {
                StakeStatus::DeactivatingAll
            } else if active == 0 {
                StakeStatus::ReadyForRemoval
            } else {
                StakeStatus::DeactivatingValidator
            },
            StakeStatus::ReadyForRemoval => StakeStatus::ReadyForRemoval,
        }
    }
}

/// The pending decrease after the reconciliation: kept while a decrease is
/// still under way, dropped otherwise.
pub open spec fn new_pending_decrease(
    entry: ValidatorStakeInfo,
    accounts: ValidatorStakeAccounts,
    params: ReconcileParams,
) -> Option<DecreaseTarget> {
    let status = new_status(entry, accounts, params);
    if status is DeactivatingTransient || status is DeactivatingAll {
        entry.pending_decrease
    } else {
        None
    }
}

/// Whether reconciling the entry would take a balance out of the 64-bit
/// range.
pub open spec fn reconcile_overflows(
    entry: ValidatorStakeInfo,
    accounts: ValidatorStakeAccounts,
    params: ReconcileParams,
) -> bool {
    is_due(entry, params.epoch) && (new_active_lamports(entry, accounts, params) > u64::MAX
        || merged_into_reserve(entry, accounts, params) > u64::MAX)
}

/// The entry after the reconciliation: untouched if it is not due, else
/// with its new balances and status and marked as reconciled in the epoch.
pub open spec fn reconciled_entry(
    entry: ValidatorStakeInfo,
    accounts: ValidatorStakeAccounts,
    params: ReconcileParams,
) -> ValidatorStakeInfo {
    if !is_due(entry, params.epoch) {
        entry
    } else {
        ValidatorStakeInfo {
            status: new_status(entry, accounts, params),
            active_stake_lamports: new_active_lamports(entry, accounts, params) as u64,
            transient_stake_lamports: new_transient_lamports(entry, accounts, params) as u64,
            last_update_epoch: params.epoch,
            pending_decrease: new_pending_decrease(entry, accounts, params),
            ..entry
        }
    }
}

/// The merges that the reconciliation asks for: none if the entry is not
/// due.
pub open spec fn reconcile_merges(
    entry: ValidatorStakeInfo,
    accounts: ValidatorStakeAccounts,
    params: ReconcileParams,
) -> Merges {
    if !is_due(entry, params.epoch) {
        Merges { transient_stake: None, validator_stake: false }
    } else {
        Merges {
            transient_stake: transient_merge(entry, accounts, params),
            validator_stake: validator_merge(entry, accounts, params),
        }
    }
}

/// Lamports that the reconciliation brings into the reserve: none if the
/// entry is not due.
pub open spec fn reconcile_credit(
    entry: ValidatorStakeInfo,
    accounts: ValidatorStakeAccounts,
    params: ReconcileParams,
) -> int {
    if !is_due(entry, params.epoch) {
        0
    } else {
        merged_into_reserve(entry, accounts, params)
    }
}

/// The status that follows `status` once the balances are `active` and
/// `transient` and the active stake account was merged or not.
fn status_after(status: StakeStatus, validator_merged: bool, active: u64, transient: u64) -> (r:
    StakeStatus)
    ensures
        r == match status {
            StakeStatus::Active => if validator_merged {
                StakeStatus::ReadyForRemoval
            } else {
                StakeStatus::Active
            },
            StakeStatus::DeactivatingTransient => if validator_merged {
                StakeStatus::ReadyForRemoval
            } else if transient == 0 {
                StakeStatus::Active
            } else {
                StakeStatus::DeactivatingTransient
            },
            StakeStatus::DeactivatingValidator => if active == 0 && transient == 0 {
                StakeStatus::ReadyForRemoval
            } else {
                StakeStatus::DeactivatingValidator
            },
            StakeStatus::DeactivatingAll => if transient != 0 {
                StakeStatus::DeactivatingAll
            } else if active == 0 {
                StakeStatus::ReadyForRemoval
            } else {
                StakeStatus::DeactivatingValidator
            },
            StakeStatus::ReadyForRemoval => StakeStatus::ReadyForRemoval,
        },
{
    match status {
        StakeStatus::Active => {
            if validator_merged {
                StakeStatus::ReadyForRemoval
            } else {
                StakeStatus::Active
            }
        },
        StakeStatus::DeactivatingTransient => {
            if validator_merged {
                StakeStatus::ReadyForRemoval
            } else if transient == 0 {
                StakeStatus::Active
            } else {
                StakeStatus::DeactivatingTransient
            }
        },
        StakeStatus::DeactivatingValidator => {
            if active == 0 && transient == 0 {
                StakeStatus::ReadyForRemoval
            } else {
                StakeStatus::DeactivatingValidator
            }
        },
        StakeStatus::DeactivatingAll => {
            if transient != 0 {
                StakeStatus::DeactivatingAll
            } else if active == 0 {
                StakeStatus::ReadyForRemoval
            } else {
                StakeStatus::DeactivatingValidator
            }
        },
        StakeStatus::ReadyForRemoval => StakeStatus::ReadyForRemoval,
    }
}

impl ValidatorStakeInfo {
    /// Where the transient stake goes once it has deactivated.
    pub fn transient_destination(&self) -> (r: DecreaseTarget)
        ensures
            r == transient_destination(*self),
    {
        let leaving: bool = match self.status {
            StakeStatus::DeactivatingValidator
            | StakeStatus::DeactivatingAll
            | StakeStatus::ReadyForRemoval => true,
            _ => false,
        };
        match self.pending_decrease {
            Some(DecreaseTarget::Active) => if leaving {
                DecreaseTarget::Reserve
            } else {
                DecreaseTarget::Active
            },
            _ => DecreaseTarget::Reserve,
        }
    }
}

/// Brings one entry up to date from its two stake accounts.
///
/// An entry that was already reconciled in the epoch comes back as it is,
/// with no merge. Fails, with `CalculationFailure`, exactly when a new
/// balance or the lamports bound for the reserve leave the 64-bit range.
pub fn reconcile_validator(
    entry: &ValidatorStakeInfo,
    accounts: &ValidatorStakeAccounts,
    params: &ReconcileParams,
) -> (r: Result<Reconciliation, StakePoolError>)
    ensures
        r is Err <==> reconcile_overflows(*entry, *accounts, *params),
        r matches Err(e) ==> e == StakePoolError::CalculationFailure,
        r matches Ok(done) ==> {
            &&& done.entry == reconciled_entry(*entry, *accounts, *params)
            &&& done.merges == reconcile_merges(*entry, *accounts, *params)
            &&& done.reserve_credit == reconcile_credit(*entry, *accounts, *params)
        },
{
    if entry.last_update_epoch >= params.epoch {
        return Ok(
            Reconciliation {
                entry: *entry,
                merges: Merges { transient_stake: None, validator_stake: false },
                reserve_credit: 0,
            },
        );
    }
    let validator_class = classify(
        &accounts.validator_stake,
        &params.withdraw_authority,
        &params.lockup,
        &entry.vote_account_address,
        params.epoch,
    );
    let transient_account: Option<StakeAccount> = if is_transient_stake_in_use(entry) {
        accounts.transient_stake
    } else {
        None
    };
    let transient_class = classify(
        &transient_account,
        &params.withdraw_authority,
        &params.lockup,
        &entry.vote_account_address,
        params.epoch,
    );
    let validator_lamports: u64 = lamports_counted(&accounts.validator_stake, validator_class);
    let transient_lamports: u64 = lamports_counted(&transient_account, transient_class);

    let mut transient_stake: Option<DecreaseTarget> = None;
    if params.merge && transient_class == AccountClass::Deactivated {
        match entry.transient_destination() {
            DecreaseTarget::Reserve => {
                transient_stake = Some(DecreaseTarget::Reserve);
            },
            DecreaseTarget::Active => {
                if validator_class == AccountClass::Live {
                    transient_stake = Some(DecreaseTarget::Active);
                }
            },
        }
    } else if params.merge && transient_class == AccountClass::Live && validator_class
        == AccountClass::Live && stake_is_settled(&transient_account, params.epoch)
        && stake_is_settled(&accounts.validator_stake, params.epoch) {
        transient_stake = Some(DecreaseTarget::Active);
    }
    let validator_stake: bool = params.merge && validator_class == AccountClass::Deactivated;

    let mut reserve_credit: u64 = 0;
    let mut active: u64 = validator_lamports;
    let mut transient: u64 = transient_lamports;
    match transient_stake {
        Some(DecreaseTarget::Reserve) => {
            transient = 0;
            reserve_credit = transient_lamports;
        },
        Some(DecreaseTarget::Active) => {
            transient = 0;
            match active.checked_add(transient_lamports) {
                Some(sum) => {
                    active = sum;
                },
                None => {
                    return Err(StakePoolError::CalculationFailure);
                },
            }
        },
        None => {},
    }
    if validator_stake {
        active = 0;
        match reserve_credit.checked_add(validator_lamports) {
            Some(sum) => {
                reserve_credit = sum;
            },
            None => {
                return Err(StakePoolError::CalculationFailure);
            },
        }
    }
    let status: StakeStatus = if params.merge {
        status_after(entry.status, validator_stake, active, transient)
    } else {
        entry.status
    };
    let pending_decrease: Option<DecreaseTarget> = match status {
        StakeStatus::DeactivatingTransient | StakeStatus::DeactivatingAll => entry.pending_decrease,
        _ => None,
    };
    Ok(
        Reconciliation {
            entry: ValidatorStakeInfo {
                status,
                vote_account_address: entry.vote_account_address,
                active_stake_lamports: active,
                transient_stake_lamports: transient,
                last_update_epoch: params.epoch,
                transient_seed_suffix: entry.transient_seed_suffix,
                validator_seed_suffix: entry.validator_seed_suffix,
                pending_decrease,
            },
            merges: Merges { transient_stake, validator_stake },
            reserve_credit,
        },
    )
}

} // verus!
