//! The update of an epoch, in its three steps: reconcile the validator
//! entries, a window of the list at a time; recompute what the pool is
//! worth; delete the entries of validators that have left.

use crate::accounting::{
    reconcile_credit,
    reconcile_merges,
    reconcile_overflows,
    reconcile_validator,
    reconciled_entry,
    Merges,
    ReconcileParams,
};
use crate::error::StakePoolError;
use crate::fee::epoch_fee_amount;
use crate::laws::{law_batches_compose, law_cleanup_keeps_funded_entries};
use crate::pubkey::Pubkey;
use crate::registry::{
    all_updated,
    has_active_validator,
    keeps_validators,
    lemma_keeps_validators,
    lemma_total_stake_push,
    lemma_total_stake_subrange,
    lemma_total_stake_take,
    stake_of,
    total_stake,
};
use crate::stake_account::ValidatorStakeAccounts;
use crate::staking::preferences_are_listed;
use crate::state::{Clock, Reserve, StakePool, ValidatorList, ValidatorStakeInfo};
use vstd::prelude::*;
use vstd::slice::slice_subrange;

verus! {

/// How many validators a full update of the pool reconciles at a time.
pub const MAX_VALIDATORS_TO_UPDATE: usize = 4;

/// What reconciling a window of the validator list comes to.
#[derive(Debug)]
pub struct WindowUpdate {
    /// The merges to carry out, one set per entry of the window, in its
    /// order.
    pub merges: Vec<Merges>,
    /// Lamports that the entries of the window attribute to their
    /// validators, all together, once they are reconciled.
    pub stake_lamports: u64,
}

/// What a full update of the pool asks of the caller.
#[derive(Debug)]
pub struct EpochUpdate {
    /// The merges to carry out, one set per entry of the validator list as
    /// it stood before the update, in its order.
    pub merges: Vec<Merges>,
    /// Pool tokens to mint as the epoch fee.
    pub fee_tokens: u64,
}

/// What a reconciliation of the pool's validators goes by.
pub open spec fn params_of(
    pool: StakePool,
    clock: Clock,
    withdraw_authority: Pubkey,
    no_merge: bool,
) -> ReconcileParams {
    ReconcileParams {
        withdraw_authority,
        lockup: pool.lockup,
        epoch: clock.epoch,
        merge: !no_merge,
    }
}

/// The entries after the window that starts at `start` has been reconciled
/// with `accounts`, one pair of accounts per entry: the entries of the
/// window are reconciled, the others stay.
pub open spec fn reconciled_entries(
    entries: Seq<ValidatorStakeInfo>,
    start: int,
    accounts: Seq<ValidatorStakeAccounts>,
    params: ReconcileParams,
) -> Seq<ValidatorStakeInfo> {
    Seq::new(
        entries.len(),
        |i: int|
            if start <= i < start + accounts.len() {
                reconciled_entry(entries[i], accounts[i - start], params)
            } else {
                entries[i]
            },
    )
}

/// Lamports that reconciling the first `n` entries of the window brings
/// into the reserve.
pub open spec fn window_credit(
    entries: Seq<ValidatorStakeInfo>,
    start: int,
    accounts: Seq<ValidatorStakeAccounts>,
    params: ReconcileParams,
    n: int,
) -> int
    decreases n,
{
    if n <= 0 {
        0
    } else {
        window_credit(entries, start, accounts, params, n - 1) + reconcile_credit(
            entries[start + n - 1],
            accounts[n - 1],
            params,
        )
    }
}

/// Lamports that the `n` entries from `start` on attribute to their
/// validators, all together.
pub open spec fn window_stake(entries: Seq<ValidatorStakeInfo>, start: int, n: int) -> int {
    total_stake(entries.subrange(start, start + n))
}

/// Whether reconciling some entry of the window takes a balance out of the
/// 64-bit range.
pub open spec fn window_overflows(
    entries: Seq<ValidatorStakeInfo>,
    start: int,
    accounts: Seq<ValidatorStakeAccounts>,
    params: ReconcileParams,
) -> bool {
    exists|k: int|
        0 <= k < accounts.len() && #[trigger] reconcile_overflows(
            entries[start + k],
            accounts[k],
            params,
        )
}

/// What the pool is worth: its reserve and the stake of its validators.
pub open spec fn pool_value(reserve: Reserve, entries: Seq<ValidatorStakeInfo>) -> int {
    reserve.lamports + total_stake(entries)
}

/// The preference as it stands against the entries: kept if it names a
/// validator in use, dropped otherwise.
pub open spec fn kept_preference(preference: Option<Pubkey>, entries: Seq<ValidatorStakeInfo>) -> Option<
    Pubkey,
> {
    match preference {
        Some(vote_account) if has_active_validator(entries, vote_account) => preference,
        _ => None,
    }
}

/// The entries that a cleanup keeps: all but those that are ready for
/// removal with no lamports attributed to their validator.
pub open spec fn kept_entries(entries: Seq<ValidatorStakeInfo>) -> Seq<ValidatorStakeInfo> {
    entries.filter(|entry: ValidatorStakeInfo| !entry.removable())
}

/// The pool with each preference kept or dropped as it stands against the
/// entries.
pub open spec fn with_kept_preferences(pool: StakePool, entries: Seq<ValidatorStakeInfo>) -> StakePool {
    StakePool {
        preferred_deposit_validator_vote_address: kept_preference(
            pool.preferred_deposit_validator_vote_address,
            entries,
        ),
        preferred_withdraw_validator_vote_address: kept_preference(
            pool.preferred_withdraw_validator_vote_address,
            entries,
        ),
        ..pool
    }
}

/// Pool tokens to mint as the epoch fee when the pool is found to be worth
/// `value` in `epoch`: the fee on the growth of its value, if this is its
/// first update in the epoch and it has grown; nothing otherwise. `None` if
/// the fee cannot be computed.
pub open spec fn epoch_fee_due(pool: StakePool, value: int, epoch: u64) -> Option<u64> {
    if pool.last_update_epoch < epoch && value > pool.total_lamports {
        epoch_fee_amount(
            pool.epoch_fee,
            pool.total_lamports as int,
            pool.pool_token_supply as int,
            value - pool.total_lamports,
        )
    } else {
        Some(0u64)
    }
}

/// Whether recording that the pool is worth `value` in `epoch` takes an
/// amount out of the 64-bit range: the value itself, the epoch fee, or the
/// token supply with the fee.
pub open spec fn balance_update_overflows(pool: StakePool, value: int, epoch: u64) -> bool {
    ||| value > u64::MAX
    ||| epoch_fee_due(pool, value, epoch) is None
    ||| pool.pool_token_supply + epoch_fee_due(pool, value, epoch).unwrap() > u64::MAX
}

/// The pool once it is recorded that it is worth `value` in `epoch`. On its
/// first update in the epoch the epoch fee is added to the token supply, the
/// totals of the last epoch are kept, and the pool is marked as updated.
pub open spec fn with_balance(pool: StakePool, value: int, epoch: u64) -> StakePool {
    if pool.last_update_epoch < epoch {
        StakePool {
            total_lamports: value as u64,
            pool_token_supply: (pool.pool_token_supply + epoch_fee_due(
                pool,
                value,
                epoch,
            ).unwrap()) as u64,
            last_update_epoch: epoch,
            last_epoch_total_lamports: pool.total_lamports,
            last_epoch_pool_token_supply: pool.pool_token_supply,
            ..pool
        }
    } else {
        StakePool { total_lamports: value as u64, ..pool }
    }
}

/// The credit of a window is not negative and grows with the window.
pub proof fn lemma_window_credit_grows(
    entries: Seq<ValidatorStakeInfo>,
    start: int,
    accounts: Seq<ValidatorStakeAccounts>,
    params: ReconcileParams,
    a: int,
    b: int,
)
    requires
        0 <= a <= b,
    ensures
        0 <= window_credit(entries, start, accounts, params, a) <= window_credit(
            entries,
            start,
            accounts,
            params,
            b,
        ),
    decreases b,
{
    if a < b {
        lemma_window_credit_grows(entries, start, accounts, params, a, b - 1);
    } else if a > 0 {
        lemma_window_credit_grows(entries, start, accounts, params, a - 1, a - 1);
    }
}

/// Reconciles the entries of a window of the list with the stake accounts
/// of their validators.
///
/// The window starts at `start_index` and has one entry for each pair in
/// `accounts`. Each entry that is due is brought up to date as
/// `reconciled_entry` says; the other entries of the list stay. The lamports
/// that the merges bring in are added to the reserve. What comes back are
/// the merges to carry out, one set per entry of the window, and the stake
/// of the window's validators all together, for adding up what the pool is
/// worth.
///
/// Fails with `InvalidValidatorStakeList` if the window reaches past the end
/// of the list, else with `CalculationFailure` if a balance, or the stake of
/// the window all together, leaves the 64-bit range. On failure nothing has
/// changed.
pub fn reconcile_validators(
    list: &mut ValidatorList,
    reserve: &mut Reserve,
    params: &ReconcileParams,
    start_index: usize,
    accounts: &[ValidatorStakeAccounts],
) -> (r: Result<WindowUpdate, StakePoolError>)
    ensures
        r is Err <==> {
            ||| start_index + accounts@.len() > old(list).validators@.len()
            ||| window_overflows(old(list).validators@, start_index as int, accounts@, *params)
            ||| old(reserve).lamports + window_credit(
                old(list).validators@,
                start_index as int,
                accounts@,
                *params,
                accounts@.len() as int,
            ) > u64::MAX
            ||| window_stake(
                reconciled_entries(old(list).validators@, start_index as int, accounts@, *params),
                start_index as int,
                accounts@.len() as int,
            ) > u64::MAX
        },
        r matches Err(e) ==> {
            &&& *final(list) == *old(list)
            &&& *final(reserve) == *old(reserve)
            &&& e == if start_index + accounts@.len() > old(list).validators@.len() {
                StakePoolError::InvalidValidatorStakeList
            } else {
                StakePoolError::CalculationFailure
            }
        },
        r matches Ok(update) ==> {
            &&& final(list).max_validators == old(list).max_validators
            &&& final(list).validators@ == reconciled_entries(
                old(list).validators@,
                start_index as int,
                accounts@,
                *params,
            )
            &&& final(reserve).minimum_lamports == old(reserve).minimum_lamports
            &&& final(reserve).lamports == old(reserve).lamports + window_credit(
                old(list).validators@,
                start_index as int,
                accounts@,
                *params,
                accounts@.len() as int,
            )
            &&& update.merges@.len() == accounts@.len()
            &&& forall|k: int|
                0 <= k < accounts@.len() ==> #[trigger] update.merges@[k] == reconcile_merges(
                    old(list).validators@[start_index + k],
                    accounts@[k],
                    *params,
                )
            &&& update.stake_lamports == window_stake(
                final(list).validators@,
                start_index as int,
                accounts@.len() as int,
            )
        },
        keeps_validators(old(list).validators@, final(list).validators@),
        old(list).wf() ==> final(list).wf(),
        old(reserve).wf() ==> final(reserve).wf(),
{
    let n: usize = list.validators.len();
    let start: usize = start_index;
    let count: usize = accounts.len();
    proof {
        lemma_keeps_validators(list.validators@, list.validators@);
    }
    if start > n || count > n - start {
        return Err(StakePoolError::InvalidValidatorStakeList);
    }
    let ghost before = list.validators@;
    let ghost after = reconciled_entries(before, start as int, accounts@, *params);
    proof {
        lemma_keeps_validators(before, after);
    }
    let ghost window = after.subrange(start as int, start + count);
    let mut entries: Vec<ValidatorStakeInfo> = Vec::new();
    let mut merges: Vec<Merges> = Vec::new();
    let mut credit: u64 = 0;
    let mut staked: u64 = 0;
    let mut i: usize = 0;
    proof {
        assert(window.take(0) =~= Seq::<ValidatorStakeInfo>::empty());
        lemma_total_stake_push(Seq::empty(), before[0]);
    }
    while i < n
        invariant
            *list == *old(list),
            *reserve == *old(reserve),
            start == start_index,
            before == list.validators@,
            after == reconciled_entries(before, start as int, accounts@, *params),
            window == after.subrange(start as int, start + count),
            n == before.len(),
            count == accounts@.len(),
            start + count <= n,
            i <= n,
            entries@ == after.take(i as int),
            merges@.len() == (if i <= start {
                0
            } else if i <= start + count {
                i - start
            } else {
                count as int
            }),
            forall|k: int|
                0 <= k < merges@.len() ==> #[trigger] merges@[k] == reconcile_merges(
                    before[start + k],
                    accounts@[k],
                    *params,
                ),
            forall|k: int|
                0 <= k < merges@.len() ==> !#[trigger] reconcile_overflows(
                    before[start + k],
                    accounts@[k],
                    *params,
                ),
            credit == window_credit(before, start as int, accounts@, *params, merges@.len() as int),
            staked == total_stake(window.take(merges@.len() as int)),
        decreases n - i,
    {
        if start <= i && i - start < count {
            let k: usize = i - start;
            let done = match reconcile_validator(&list.validators[i], &accounts[k], params) {
                Ok(done) => done,
                Err(e) => {
                    assert(reconcile_overflows(before[start + k], accounts@[k as int], *params));
                    return Err(e);
                },
            };
            credit = match credit.checked_add(done.reserve_credit) {
                Some(sum) => sum,
                None => {
                    proof {
                        lemma_window_credit_grows(
                            before,
                            start as int,
                            accounts@,
                            *params,
                            k + 1,
                            count as int,
                        );
                    }
                    return Err(StakePoolError::CalculationFailure);
                },
            };
            proof {
                assert(window[k as int] == done.entry);
                lemma_total_stake_take(window, k as int);
            }
            let stake: Option<u64> = match done.entry.stake_lamports() {
                Some(stake) => staked.checked_add(stake),
                None => None,
            };
            staked = match stake {
                Some(sum) => sum,
                None => {
                    return Err(StakePoolError::CalculationFailure);
                },
            };
            entries.push(done.entry);
            merges.push(done.merges);
        } else {
            entries.push(list.validators[i]);
        }
        proof {
            assert(after.take(i + 1) =~= after.take(i as int).push(after[i as int]));
        }
        i += 1;
    }
    proof {
        assert(after.take(n as int) =~= after);
        assert(window.take(count as int) =~= window);
    }
    let lamports: u64 = match reserve.lamports.checked_add(credit) {
        Some(sum) => sum,
        None => {
            return Err(StakePoolError::CalculationFailure);
        },
    };
    proof {
        if old(list).wf() {
            assert forall|a: int, b: int| 0 <= a < b < after.len() implies (
            #[trigger] after[a]).vote_account_address != (#[trigger] after[b]).vote_account_address by {
                assert(before[a].vote_account_address != before[b].vote_account_address);
            }
        }
    }
    list.validators = entries;
    reserve.lamports = lamports;
    Ok(WindowUpdate { merges, stake_lamports: staked })
}

/// Reconciles a window of the pool's validator list, as
/// `reconcile_validators` does, by the pool's lockup, the given withdraw
/// authority and the clock's epoch; deactivated stake is merged unless
/// `no_merge` is set.
///
/// Fails with `EpochRewardDistributionInProgress` while epoch rewards are
/// being paid out, else as `reconcile_validators` does. On failure nothing
/// has changed.
pub fn update_validator_list_balance(
    pool: &StakePool,
    list: &mut ValidatorList,
    reserve: &mut Reserve,
    clock: &Clock,
    withdraw_authority: &Pubkey,
    start_index: u32,
    accounts: &Vec<ValidatorStakeAccounts>,
    no_merge: bool,
) -> (r: Result<WindowUpdate, StakePoolError>)
    ensures
        r is Err <==> {
            let params = params_of(*pool, *clock, *withdraw_authority, no_merge);
            ||| clock.epoch_rewards_active
            ||| start_index + accounts@.len() > old(list).validators@.len()
            ||| window_overflows(old(list).validators@, start_index as int, accounts@, params)
            ||| old(reserve).lamports + window_credit(
                old(list).validators@,
                start_index as int,
                accounts@,
                params,
                accounts@.len() as int,
            ) > u64::MAX
            ||| window_stake(
                reconciled_entries(old(list).validators@, start_index as int, accounts@, params),
                start_index as int,
                accounts@.len() as int,
            ) > u64::MAX
        },
        r matches Err(e) ==> {
            &&& *final(list) == *old(list)
            &&& *final(reserve) == *old(reserve)
            &&& e == if clock.epoch_rewards_active {
                StakePoolError::EpochRewardDistributionInProgress
            } else if start_index + accounts@.len() > old(list).validators@.len() {
                StakePoolError::InvalidValidatorStakeList
            } else {
                StakePoolError::CalculationFailure
            }
        },
        r matches Ok(update) ==> {
            let params = params_of(*pool, *clock, *withdraw_authority, no_merge);
            &&& final(list).max_validators == old(list).max_validators
            &&& final(list).validators@ == reconciled_entries(
                old(list).validators@,
                start_index as int,
                accounts@,
                params,
            )
            &&& final(reserve).minimum_lamports == old(reserve).minimum_lamports
            &&& final(reserve).lamports == old(reserve).lamports + window_credit(
                old(list).validators@,
                start_index as int,
                accounts@,
                params,
                accounts@.len() as int,
            )
            &&& update.merges@.len() == accounts@.len()
            &&& forall|k: int|
                0 <= k < accounts@.len() ==> #[trigger] update.merges@[k] == reconcile_merges(
                    old(list).validators@[start_index + k],
                    accounts@[k],
                    params,
                )
            &&& update.stake_lamports == window_stake(
                final(list).validators@,
                start_index as int,
                accounts@.len() as int,
            )
        },
        keeps_validators(old(list).validators@, final(list).validators@),
        old(list).wf() ==> final(list).wf(),
        old(reserve).wf() ==> final(reserve).wf(),
{
    proof {
        lemma_keeps_validators(list.validators@, list.validators@);
    }
    if clock.epoch_rewards_active {
        return Err(StakePoolError::EpochRewardDistributionInProgress);
    }
    let params = ReconcileParams {
        withdraw_authority: *withdraw_authority,
        lockup: pool.lockup,
        epoch: clock.epoch,
        merge: !no_merge,
    };
    reconcile_validators(list, reserve, &params, start_index as usize, accounts.as_slice())
}

/// Recomputes what the pool is worth from its reserve and its validator
/// entries, which must all have been reconciled for the current epoch.
///
/// When this is the first update of the pool in a new epoch, the epoch fee
/// is charged first: pool tokens are minted on the growth of the pool's
/// value since its last update, the totals of the last epoch are recorded,
/// and the pool is marked as updated. The tokens minted come back, for the
/// caller to hand to the fee's recipient.
///
/// Fails while epoch rewards are being paid out, if some entry is behind the
/// current epoch, and if an amount leaves the 64-bit range. On failure the
/// pool has not changed.
pub fn update_stake_pool_balance(
    pool: &mut StakePool,
    list: &ValidatorList,
    reserve: &Reserve,
    clock: &Clock,
) -> (r: Result<u64, StakePoolError>)
    ensures
        r is Err <==> {
            ||| clock.epoch_rewards_active
            ||| !all_updated(list.validators@, clock.epoch)
            ||| balance_update_overflows(
                *old(pool),
                pool_value(*reserve, list.validators@),
                clock.epoch,
            )
        },
        r matches Err(e) ==> {
            &&& *final(pool) == *old(pool)
            &&& e == if clock.epoch_rewards_active {
                StakePoolError::EpochRewardDistributionInProgress
            } else if !all_updated(list.validators@, clock.epoch) {
                StakePoolError::StakeListOutOfDate
            } else {
                StakePoolError::CalculationFailure
            }
        },
        r matches Ok(minted) ==> {
            let value = pool_value(*reserve, list.validators@);
            &&& Some(minted) == epoch_fee_due(*old(pool), value, clock.epoch)
            &&& *final(pool) == with_balance(*old(pool), value, clock.epoch)
            &&& final(pool).total_lamports == value
            &&& final(pool).last_update_epoch >= clock.epoch
            &&& old(pool).last_update_epoch <= clock.epoch ==> final(pool).last_update_epoch
                == clock.epoch
        },
{
    if clock.epoch_rewards_active {
        return Err(StakePoolError::EpochRewardDistributionInProgress);
    }
    if !list.is_updated(clock.epoch) {
        return Err(StakePoolError::StakeListOutOfDate);
    }
    proof {
        lemma_total_stake_push(list.validators@, list.validators@[0]);
    }
    let staked: u64 = match list.total_stake_lamports() {
        Some(staked) => staked,
        None => {
            return Err(StakePoolError::CalculationFailure);
        },
    };
    let value: u64 = match reserve.lamports.checked_add(staked) {
        Some(value) => value,
        None => {
            return Err(StakePoolError::CalculationFailure);
        },
    };
    record_value(pool, value, clock.epoch)
}

/// Records that the pool is worth `value` in `epoch`, and charges the epoch
/// fee if this is the pool's first update in the epoch.
fn record_value(pool: &mut StakePool, value: u64, epoch: u64) -> (r: Result<u64, StakePoolError>)
    ensures
        r is Err <==> balance_update_overflows(*old(pool), value as int, epoch),
        r matches Err(e) ==> e == StakePoolError::CalculationFailure && *final(pool) == *old(pool),
        r matches Ok(minted) ==> {
            &&& Some(minted) == epoch_fee_due(*old(pool), value as int, epoch)
            &&& *final(pool) == with_balance(*old(pool), value as int, epoch)
        },
{
    let mut minted: u64 = 0;
    if pool.last_update_epoch < epoch {
        if value > pool.total_lamports {
            minted = match pool.calc_epoch_fee_amount(value - pool.total_lamports) {
                Some(minted) => minted,
                None => {
                    return Err(StakePoolError::CalculationFailure);
                },
            };
        }
        let supply: u64 = match pool.pool_token_supply.checked_add(minted) {
            Some(supply) => supply,
            None => {
                return Err(StakePoolError::CalculationFailure);
            },
        };
        pool.last_epoch_total_lamports = pool.total_lamports;
        pool.last_epoch_pool_token_supply = pool.pool_token_supply;
        pool.pool_token_supply = supply;
        pool.last_update_epoch = epoch;
    }
    pool.total_lamports = value;
    Ok(minted)
}

/// Deletes the entries of the validators that have left: those that are
/// ready for removal and to which no lamports are attributed. An entry with
/// lamports left stays, whatever its status. The other entries keep their
/// order.
///
/// A preference of the pool that, after this, does not name a validator in
/// use is dropped.
pub fn cleanup_removed_validator_entries(pool: &mut StakePool, list: &mut ValidatorList)
    ensures
        final(list).max_validators == old(list).max_validators,
        final(list).validators@ == kept_entries(old(list).validators@),
        *final(pool) == with_kept_preferences(*old(pool), final(list).validators@),
        forall|i: int|
            0 <= i < old(list).validators@.len() && stake_of(#[trigger] old(list).validators@[i])
                != 0 ==> final(list).validators@.contains(old(list).validators@[i]),
        forall|k: int|
            0 <= k < final(list).validators@.len() ==> old(list).validators@.contains(
                #[trigger] final(list).validators@[k],
            ),
        total_stake(final(list).validators@) == total_stake(old(list).validators@),
        preferences_are_listed(*final(pool), final(list).validators@),
        old(list).wf() ==> final(list).wf(),
{
    let ghost before = list.validators@;
    let ghost keep = |entry: ValidatorStakeInfo| !entry.removable();
    let n: usize = list.validators.len();
    let mut kept: Vec<ValidatorStakeInfo> = Vec::new();
    let ghost mut origin: Seq<int> = Seq::empty();
    let mut i: usize = 0;
    proof {
        assert(before.take(0) =~= Seq::<ValidatorStakeInfo>::empty());
        reveal(Seq::filter);
        lemma_total_stake_push(Seq::empty(), before[0]);
    }
    while i < n
        invariant
            *list == *old(list),
            *pool == *old(pool),
            before == list.validators@,
            keep == |entry: ValidatorStakeInfo| !entry.removable(),
            n == before.len(),
            i <= n,
            kept@ == before.take(i as int).filter(keep),
            total_stake(kept@) == total_stake(before.take(i as int)),
            origin.len() == kept@.len(),
            forall|k: int|
                0 <= k < kept@.len() ==> 0 <= #[trigger] origin[k] < i && kept@[k] == before[origin[k]],
            forall|a: int, b: int| 0 <= a < b < origin.len() ==> origin[a] < origin[b],
        decreases n - i,
    {
        let entry = list.validators[i];
        proof {
            assert(before.take(i + 1) =~= before.take(i as int).push(before[i as int]));
            before.take(i as int).lemma_filter_push(before[i as int], keep);
            lemma_total_stake_push(before.take(i as int), before[i as int]);
            lemma_total_stake_push(kept@, before[i as int]);
        }
        if !entry.is_removed() {
            kept.push(entry);
            proof {
                origin = origin.push(i as int);
            }
        }
        i += 1;
    }
    proof {
        assert(before.take(n as int) =~= before);
        assert forall|i: int| 0 <= i < before.len() && stake_of(#[trigger] before[i])
            != 0 implies kept@.contains(before[i]) by {
            law_cleanup_keeps_funded_entries(before, i);
        }
        assert forall|k: int| 0 <= k < kept@.len() implies before.contains(
            #[trigger] kept@[k],
        ) by {
            assert(before[origin[k]] == kept@[k]);
        }
        if old(list).wf() {
            assert forall|a: int, b: int| 0 <= a < b < kept@.len() implies (
            #[trigger] kept@[a]).vote_account_address != (#[trigger] kept@[b]).vote_account_address by {
                assert(origin[a] < origin[b]);
                assert(before[origin[a]].vote_account_address != before[origin[b]].vote_account_address);
            }
        }
    }
    list.validators = kept;
    let deposit: Option<Pubkey> = match pool.preferred_deposit_validator_vote_address {
        Some(vote_account) => if list.has_active(&vote_account) {
            Some(vote_account)
        } else {
            None
        },
        None => None,
    };
    let withdraw: Option<Pubkey> = match pool.preferred_withdraw_validator_vote_address {
        Some(vote_account) => if list.has_active(&vote_account) {
            Some(vote_account)
        } else {
            None
        },
        None => None,
    };
    pool.preferred_deposit_validator_vote_address = deposit;
    pool.preferred_withdraw_validator_vote_address = withdraw;
}

fn copy_entries(entries: &Vec<ValidatorStakeInfo>) -> (copy: Vec<ValidatorStakeInfo>)
    ensures
        copy@ == entries@,
{
    let n: usize = entries.len();
    let mut copy: Vec<ValidatorStakeInfo> = Vec::new();
    let mut i: usize = 0;
    while i < n
        invariant
            n == entries@.len(),
            i <= n,
            copy@ == entries@.take(i as int),
        decreases n - i,
    {
        copy.push(entries[i]);
        proof {
            assert(entries@.take(i + 1) =~= entries@.take(i as int).push(entries@[i as int]));
        }
        i += 1;
    }
    proof {
        assert(entries@.take(n as int) =~= entries@);
    }
    copy
}

/// Updates the pool for the current epoch, from the stake accounts of all
/// its validators: one pair in `accounts` for each entry of the list, in
/// its order.
///
/// The entries are reconciled, a few at a time, and their stake is added
/// up; then the pool's value is recorded as the reserve and that stake
/// together and, on the first update of an epoch, the epoch fee charged;
/// then the entries of validators that have left are deleted and
/// preferences that no longer name a validator in use are dropped. The
/// outcome is that of `update_validator_list_balance` over the whole list,
/// `update_stake_pool_balance` and `cleanup_removed_validator_entries`, one
/// after the other; how the entries are split into batches makes no
/// difference to it.
///
/// Afterwards the pool's value is its reserve and the stake of its
/// validators together, and every entry is up to date.
///
/// Fails with `EpochRewardDistributionInProgress` while epoch rewards are
/// being paid out, else with `InvalidValidatorStakeList` unless there is one
/// pair of accounts per entry, else with `CalculationFailure` if an amount
/// leaves the 64-bit range. On failure nothing has changed.
pub fn update_stake_pool(
    pool: &mut StakePool,
    list: &mut ValidatorList,
    reserve: &mut Reserve,
    clock: &Clock,
    withdraw_authority: &Pubkey,
    accounts: &Vec<ValidatorStakeAccounts>,
    no_merge: bool,
) -> (r: Result<EpochUpdate, StakePoolError>)
    ensures
        r is Err <==> {
            let params = params_of(*old(pool), *clock, *withdraw_authority, no_merge);
            let entries = old(list).validators@;
            let credit = window_credit(entries, 0, accounts@, params, accounts@.len() as int);
            let reconciled = reconciled_entries(entries, 0, accounts@, params);
            ||| clock.epoch_rewards_active
            ||| accounts@.len() != entries.len()
            ||| window_overflows(entries, 0, accounts@, params)
            ||| old(reserve).lamports + credit > u64::MAX
            ||| balance_update_overflows(
                *old(pool),
                old(reserve).lamports + credit + total_stake(reconciled),
                clock.epoch,
            )
        },
        r matches Err(e) ==> {
            &&& *final(pool) == *old(pool)
            &&& *final(list) == *old(list)
            &&& *final(reserve) == *old(reserve)
            &&& e == if clock.epoch_rewards_active {
                StakePoolError::EpochRewardDistributionInProgress
            } else if accounts@.len() != old(list).validators@.len() {
                StakePoolError::InvalidValidatorStakeList
            } else {
                StakePoolError::CalculationFailure
            }
        },
        r matches Ok(update) ==> {
            let params = params_of(*old(pool), *clock, *withdraw_authority, no_merge);
            let entries = old(list).validators@;
            let credit = window_credit(entries, 0, accounts@, params, accounts@.len() as int);
            let reconciled = reconciled_entries(entries, 0, accounts@, params);
            let value = old(reserve).lamports + credit + total_stake(reconciled);
            &&& final(reserve).minimum_lamports == old(reserve).minimum_lamports
            &&& final(reserve).lamports == old(reserve).lamports + credit
            &&& final(list).max_validators == old(list).max_validators
            &&& final(list).validators@ == kept_entries(reconciled)
            &&& Some(update.fee_tokens) == epoch_fee_due(*old(pool), value, clock.epoch)
            &&& *final(pool) == with_kept_preferences(
                with_balance(*old(pool), value, clock.epoch),
                final(list).validators@,
            )
            &&& update.merges@.len() == accounts@.len()
            &&& forall|k: int|
                0 <= k < accounts@.len() ==> #[trigger] update.merges@[k] == reconcile_merges(
                    entries[k],
                    accounts@[k],
                    params,
                )
        },
        r is Ok ==> final(pool).total_lamports == pool_value(
            *final(reserve),
            final(list).validators@,
        ),
        r is Ok ==> all_updated(final(list).validators@, clock.epoch),
        r is Ok ==> preferences_are_listed(*final(pool), final(list).validators@),
        old(list).wf() ==> final(list).wf(),
        old(reserve).wf() ==> final(reserve).wf(),
{
    if clock.epoch_rewards_active {
        return Err(StakePoolError::EpochRewardDistributionInProgress);
    }
    let n: usize = list.validators.len();
    if accounts.len() != n {
        return Err(StakePoolError::InvalidValidatorStakeList);
    }
    let params = ReconcileParams {
        withdraw_authority: *withdraw_authority,
        lockup: pool.lockup,
        epoch: clock.epoch,
        merge: !no_merge,
    };
    let ghost entries = list.validators@;
    let mut work = ValidatorList {
        max_validators: list.max_validators,
        validators: copy_entries(&list.validators),
    };
    let mut held: Reserve = *reserve;
    let mut merges: Vec<Merges> = Vec::new();
    let mut staked: u64 = 0;
    let mut done: usize = 0;
    let ghost all = reconciled_entries(entries, 0, accounts@, params);
    proof {
        assert(reconciled_entries(entries, 0, accounts@.take(0), params) =~= entries);
        assert(entries.take(0) =~= Seq::<ValidatorStakeInfo>::empty());
        lemma_total_stake_push(Seq::empty(), entries[0]);
        lemma_window_credit_grows(entries, 0, accounts@, params, 0, n as int);
    }
    while done < n
        invariant
            *pool == *old(pool),
            *list == *old(list),
            *reserve == *old(reserve),
            !clock.epoch_rewards_active,
            params == params_of(*pool, *clock, *withdraw_authority, no_merge),
            entries == list.validators@,
            all == reconciled_entries(entries, 0, accounts@, params),
            n == entries.len(),
            n == accounts@.len(),
            done <= n,
            work.max_validators == list.max_validators,
            work.validators@ == reconciled_entries(
                entries,
                0,
                accounts@.take(done as int),
                params,
            ),
            held.minimum_lamports == reserve.minimum_lamports,
            held.lamports == reserve.lamports + window_credit(
                entries,
                0,
                accounts@.take(done as int),
                params,
                done as int,
            ),
            !window_overflows(entries, 0, accounts@.take(done as int), params),
            merges@.len() == done,
            forall|k: int|
                0 <= k < done ==> #[trigger] merges@[k] == reconcile_merges(
                    entries[k],
                    accounts@[k],
                    params,
                ),
            staked == total_stake(all.take(done as int)),
            0 <= window_credit(entries, 0, accounts@, params, n as int),
            list.wf() ==> work.wf(),
            reserve.wf() ==> held.wf(),
        decreases n - done,
    {
        let size: usize = if n - done < MAX_VALIDATORS_TO_UPDATE {
            n - done
        } else {
            MAX_VALIDATORS_TO_UPDATE
        };
        let batch = slice_subrange(accounts.as_slice(), done, done + size);
        let ghost first = accounts@.take(done as int);
        let ghost second = accounts@.subrange(done as int, done + size);
        let ghost rest = accounts@.subrange(done + size, n as int);
        let ghost once = work.validators@;
        let ghost next = reconciled_entries(entries, 0, accounts@.take(done + size), params);
        proof {
            assert(first + second =~= accounts@.take(done + size));
            assert(accounts@.take(done + size) + rest =~= accounts@);
            law_batches_compose(entries, 0, first, second, params);
            law_batches_compose(entries, 0, accounts@.take(done + size), rest, params);
            lemma_window_credit_grows(next, done + size, rest, params, 0, rest.len() as int);
            // the entries of this batch are as they will be in the end
            assert(next.subrange(done as int, done + size) =~= all.subrange(
                done as int,
                done + size,
            ));
            lemma_total_stake_subrange(all, done as int, done + size);
            lemma_total_stake_subrange(all, 0, done + size);
            assert(all.subrange(0, done + size) =~= all.take(done + size));
        }
        let part: Option<u64> = match reconcile_validators(
            &mut work,
            &mut held,
            &params,
            done,
            batch,
        ) {
            Ok(mut update) => {
                proof {
                    assert forall|k: int| 0 <= k < size implies #[trigger] update.merges@[k]
                        == reconcile_merges(entries[done + k], accounts@[done + k], params) by {
                        assert(once[done + k] == entries[done + k]);
                        assert(second[k] == accounts@[done + k]);
                    }
                }
                merges.append(&mut update.merges);
                staked.checked_add(update.stake_lamports)
            },
            Err(_) => None,
        };
        staked = match part {
            Some(sum) => sum,
            None => {
                return Err(StakePoolError::CalculationFailure);
            },
        };
        done += size;
    }
    proof {
        assert(accounts@.take(n as int) =~= accounts@);
        assert(all.take(n as int) =~= all);
    }
    let value: u64 = match held.lamports.checked_add(staked) {
        Some(value) => value,
        None => {
            return Err(StakePoolError::CalculationFailure);
        },
    };
    let mut updated: StakePool = *pool;
    let fee_tokens: u64 = match record_value(&mut updated, value, clock.epoch) {
        Ok(fee_tokens) => fee_tokens,
        Err(e) => {
            return Err(e);
        },
    };
    let ghost reconciled = work.validators@;
    cleanup_removed_validator_entries(&mut updated, &mut work);
    proof {
        assert forall|k: int| 0 <= k < work.validators@.len() implies (
        #[trigger] work.validators@[k]).last_update_epoch >= clock.epoch by {
            let entry = work.validators@[k];
            assert(reconciled.contains(entry));
            let i = choose|i: int| 0 <= i < reconciled.len() && reconciled[i] == entry;
            assert(reconciled[i].last_update_epoch >= clock.epoch);
        }
    }
    *pool = updated;
    list.validators = work.validators;
    *reserve = held;
    Ok(EpochUpdate { merges, fee_tokens })
}

} // verus!
