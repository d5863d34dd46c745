//! What holds of the pool's accounting whatever the inputs are.

use crate::accounting::{
    is_due,
    transient_is_activated,
    reconcile_credit,
    reconcile_merges,
    reconcile_overflows,
    reconciled_entry,
    transient_account,
    transient_class,
    validator_class,
    Merges,
    ReconcileParams,
};
use crate::coordinator::{
    balance_update_overflows,
    epoch_fee_due,
    kept_preference,
    reconciled_entries,
    window_credit,
    window_overflows,
    window_stake,
    with_balance,
};
use crate::fee::{
    epoch_fee_tokens,
    fee_on,
    lamports_for_withdraw,
    tokens_for_deposit,
    tokens_for_withdraw,
};
use crate::pubkey::Pubkey;
use crate::registry::{has_active_validator, lemma_total_stake_add, stake_of};
use crate::stake_account::{
    class_of,
    counted_lamports,
    usable_by_pool,
    AccountClass,
    StakeAccount,
    StakeState,
    ValidatorStakeAccounts,
};
use crate::exchange::{
    pool_after_validator_withdrawal,
    validator_withdrawal,
    withdraw_quote,
    withdrawn_entry,
    WithdrawReceipt,
};
use crate::registry::entry_of;
use crate::staking::{removal_status, without_preference};
use crate::state::{DecreaseTarget, Fee, Lockup, StakePool, StakeStatus, ValidatorStakeInfo};
use vstd::prelude::*;

verus! {

/// Reconciling an entry a second time in the same epoch changes nothing,
/// whatever the accounts look like by then and whether merging is allowed:
/// the entry stays as the first reconciliation left it, no merge is asked
/// for, nothing goes to the reserve, and nothing can overflow.
pub proof fn law_reconcile_twice(
    entry: ValidatorStakeInfo,
    first_accounts: ValidatorStakeAccounts,
    first: ReconcileParams,
    second_accounts: ValidatorStakeAccounts,
    second: ReconcileParams,
)
    requires
        first.epoch == second.epoch,
    ensures
        ({
            let once = reconciled_entry(entry, first_accounts, first);
            &&& reconciled_entry(once, second_accounts, second) == once
            &&& reconcile_merges(once, second_accounts, second) == (Merges {
                transient_stake: None,
                validator_stake: false,
            })
            &&& reconcile_credit(once, second_accounts, second) == 0
            &&& !reconcile_overflows(once, second_accounts, second)
        }),
{
}

/// Reconciling the same window of the list a second time in the same epoch
/// changes nothing, whatever the accounts look like by then and whether
/// merging is allowed: every entry stays, nothing goes to the reserve, and
/// nothing can overflow.
pub proof fn law_update_twice(
    entries: Seq<ValidatorStakeInfo>,
    start: int,
    first_accounts: Seq<ValidatorStakeAccounts>,
    first: ReconcileParams,
    second_accounts: Seq<ValidatorStakeAccounts>,
    second: ReconcileParams,
)
    requires
        0 <= start,
        start + first_accounts.len() <= entries.len(),
        second_accounts.len() == first_accounts.len(),
        first.epoch == second.epoch,
    ensures
        ({
            let once = reconciled_entries(entries, start, first_accounts, first);
            &&& reconciled_entries(once, start, second_accounts, second) == once
            &&& window_credit(once, start, second_accounts, second, second_accounts.len() as int)
                == 0
            &&& !window_overflows(once, start, second_accounts, second)
        }),
{
    let once = reconciled_entries(entries, start, first_accounts, first);
    let twice = reconciled_entries(once, start, second_accounts, second);
    assert forall|i: int| 0 <= i < once.len() implies twice[i] == once[i] by {
        if start <= i < start + first_accounts.len() {
            law_reconcile_twice(
                entries[i],
                first_accounts[i - start],
                first,
                second_accounts[i - start],
                second,
            );
        }
    }
    assert(twice =~= once);
    lemma_no_credit_when_current(once, start, second_accounts, second, second_accounts.len() as int);
}

proof fn lemma_window_credit_of_both(
    entries: Seq<ValidatorStakeInfo>,
    start: int,
    first: Seq<ValidatorStakeAccounts>,
    second: Seq<ValidatorStakeAccounts>,
    params: ReconcileParams,
    n: int,
)
    requires
        0 <= start,
        0 <= n <= first.len() + second.len(),
        start + first.len() + second.len() <= entries.len(),
    ensures
        window_credit(entries, start, first + second, params, n) == if n <= first.len() {
            window_credit(entries, start, first, params, n)
        } else {
            window_credit(entries, start, first, params, first.len() as int) + window_credit(
                reconciled_entries(entries, start, first, params),
                start + first.len(),
                second,
                params,
                n - first.len(),
            )
        },
    decreases n,
{
    if n > 0 {
        lemma_window_credit_of_both(entries, start, first, second, params, n - 1);
        let both = first + second;
        let once = reconciled_entries(entries, start, first, params);
        assert(window_credit(entries, start, both, params, n) == window_credit(
            entries,
            start,
            both,
            params,
            n - 1,
        ) + reconcile_credit(entries[start + n - 1], both[n - 1], params));
        if n <= first.len() {
            assert(both[n - 1] == first[n - 1]);
        } else {
            let m = n - first.len();
            assert(both[n - 1] == second[m - 1]);
            assert(once[start + first.len() + m - 1] == entries[start + n - 1]);
            assert(window_credit(once, start + first.len(), second, params, m) == window_credit(
                once,
                start + first.len(),
                second,
                params,
                m - 1,
            ) + reconcile_credit(once[start + first.len() + m - 1], second[m - 1], params));
        }
    }
}

/// Batches do not matter: reconciling a window and then the window that
/// follows it comes to the same as reconciling both at once, in the
/// entries, in what goes to the reserve, in the stake that the windows add
/// up to, and in whether a balance leaves the 64-bit range.
pub proof fn law_batches_compose(
    entries: Seq<ValidatorStakeInfo>,
    start: int,
    first: Seq<ValidatorStakeAccounts>,
    second: Seq<ValidatorStakeAccounts>,
    params: ReconcileParams,
)
    requires
        0 <= start,
        start + first.len() + second.len() <= entries.len(),
    ensures
        ({
            let once = reconciled_entries(entries, start, first, params);
            let both = first + second;
            &&& reconciled_entries(once, start + first.len(), second, params)
                == reconciled_entries(entries, start, both, params)
            &&& window_credit(entries, start, first, params, first.len() as int) + window_credit(
                once,
                start + first.len(),
                second,
                params,
                second.len() as int,
            ) == window_credit(entries, start, both, params, both.len() as int)
            &&& window_stake(once, start, first.len() as int) + window_stake(
                reconciled_entries(once, start + first.len(), second, params),
                start + first.len(),
                second.len() as int,
            ) == window_stake(
                reconciled_entries(entries, start, both, params),
                start,
                both.len() as int,
            )
            &&& window_overflows(entries, start, both, params) <==> window_overflows(
                entries,
                start,
                first,
                params,
            ) || window_overflows(once, start + first.len(), second, params)
        }),
{
    let once = reconciled_entries(entries, start, first, params);
    let both = first + second;
    let twice = reconciled_entries(once, start + first.len(), second, params);
    let at_once = reconciled_entries(entries, start, both, params);
    let middle = start + first.len();
    assert(once.subrange(start, middle) =~= at_once.subrange(start, middle));
    assert(at_once.subrange(start, middle) + at_once.subrange(middle, middle + second.len())
        =~= at_once.subrange(start, start + both.len()));
    lemma_total_stake_add(
        at_once.subrange(start, middle),
        at_once.subrange(middle, middle + second.len()),
    );
    assert forall|i: int| 0 <= i < entries.len() implies twice[i] == at_once[i] by {
        if start <= i < start + first.len() {
            assert(both[i - start] == first[i - start]);
        } else if start + first.len() <= i < start + both.len() {
            assert(both[i - start] == second[i - start - first.len()]);
        }
    }
    assert(twice =~= at_once);
    lemma_window_credit_of_both(entries, start, first, second, params, both.len() as int);
    if first.len() == both.len() {
        assert(second.len() == 0);
    }
    if window_overflows(entries, start, both, params) {
        let k = choose|k: int|
            0 <= k < both.len() && #[trigger] reconcile_overflows(
                entries[start + k],
                both[k],
                params,
            );
        if k < first.len() {
            assert(both[k] == first[k]);
            assert(reconcile_overflows(entries[start + k], first[k], params));
        } else {
            let j = k - first.len();
            assert(both[k] == second[j]);
            assert(once[start + first.len() + j] == entries[start + k]);
            assert(reconcile_overflows(once[start + first.len() + j], second[j], params));
        }
    }
    if window_overflows(entries, start, first, params) {
        let k = choose|k: int|
            0 <= k < first.len() && #[trigger] reconcile_overflows(
                entries[start + k],
                first[k],
                params,
            );
        assert(both[k] == first[k]);
        assert(reconcile_overflows(entries[start + k], both[k], params));
    }
    if window_overflows(once, start + first.len(), second, params) {
        let j = choose|j: int|
            0 <= j < second.len() && #[trigger] reconcile_overflows(
                once[start + first.len() + j],
                second[j],
                params,
            );
        let k = first.len() + j;
        assert(both[k] == second[j]);
        assert(once[start + first.len() + j] == entries[start + k]);
        assert(reconcile_overflows(entries[start + k], both[k], params));
    }
}

/// Recording a second time in the same epoch that the pool is worth what it
/// was found to be worth changes nothing and charges no fee.
pub proof fn law_balance_update_twice(pool: StakePool, value: int, epoch: u64)
    requires
        0 <= value <= u64::MAX,
        !balance_update_overflows(pool, value, epoch),
    ensures
        ({
            let once = with_balance(pool, value, epoch);
            &&& with_balance(once, value, epoch) == once
            &&& epoch_fee_due(once, value, epoch) == Some(0u64)
            &&& !balance_update_overflows(once, value, epoch)
        }),
{
}

/// Recording a value that fits in 64 bits cannot fail for a pool that
/// charges no epoch fee, that was already updated in the epoch, or that has
/// not grown.
pub proof fn law_balance_update_without_fee_succeeds(pool: StakePool, value: int, epoch: u64)
    requires
        0 <= value <= u64::MAX,
        pool.epoch_fee.denominator == 0 || pool.last_update_epoch >= epoch || value
            <= pool.total_lamports,
    ensures
        !balance_update_overflows(pool, value, epoch),
{
    if pool.last_update_epoch < epoch && value > pool.total_lamports {
        let reward = value - pool.total_lamports;
        let supply = pool.pool_token_supply as int;
        assert(supply * 0 == 0);
        assert(0int / (pool.total_lamports + reward) == 0) by (nonlinear_arith)
            requires
                pool.total_lamports + reward > 0,
        ;
    }
}

/// Every entry of a window that was reconciled is up to date for the epoch
/// of the reconciliation.
pub proof fn law_reconciled_window_is_current(
    entries: Seq<ValidatorStakeInfo>,
    start: int,
    accounts: Seq<ValidatorStakeAccounts>,
    params: ReconcileParams,
    i: int,
)
    requires
        0 <= start <= i < start + accounts.len(),
        i < entries.len(),
    ensures
        reconciled_entries(entries, start, accounts, params)[i].last_update_epoch >= params.epoch,
        reconciled_entries(entries, start, accounts, params)[i].vote_account_address
            == entries[i].vote_account_address,
{
}

proof fn lemma_no_credit_when_current(
    entries: Seq<ValidatorStakeInfo>,
    start: int,
    accounts: Seq<ValidatorStakeAccounts>,
    params: ReconcileParams,
    n: int,
)
    requires
        0 <= start,
        0 <= n <= accounts.len(),
        start + accounts.len() <= entries.len(),
        forall|i: int|
            start <= i < start + accounts.len() ==> !is_due(#[trigger] entries[i], params.epoch),
    ensures
        window_credit(entries, start, accounts, params, n) == 0,
    decreases n,
{
    if n > 0 {
        lemma_no_credit_when_current(entries, start, accounts, params, n - 1);
        assert(!is_due(entries[start + n - 1], params.epoch));
    }
}

/// A stake account whose authorities or lockup are not the pool's, or that
/// delegates to another validator, is foreign, whatever it holds.
pub proof fn law_mismatched_account_is_foreign(
    account: StakeAccount,
    withdraw_authority: Pubkey,
    lockup: Lockup,
    vote_account: Pubkey,
    epoch: u64,
)
    requires
        match account.state {
            StakeState::Initialized(meta) => !usable_by_pool(meta, withdraw_authority, lockup),
            StakeState::Stake(meta, delegation) => !usable_by_pool(meta, withdraw_authority, lockup)
                || delegation.voter_pubkey != vote_account,
            StakeState::RewardsPool => true,
            StakeState::Uninitialized => false,
        },
    ensures
        class_of(Some(account), withdraw_authority, lockup, vote_account, epoch)
            == AccountClass::Foreign,
{
}

/// A foreign active stake account is left out of the accounting: the
/// reconciliation of its entry succeeds, records an active balance of zero,
/// asks for no merge of the account, brings none of its lamports into the
/// reserve, and leaves the status of a validator in use as it is.
pub proof fn law_foreign_stake_is_excluded(
    entry: ValidatorStakeInfo,
    accounts: ValidatorStakeAccounts,
    params: ReconcileParams,
)
    requires
        is_due(entry, params.epoch),
        validator_class(entry, accounts, params) == AccountClass::Foreign,
    ensures
        !reconcile_overflows(entry, accounts, params),
        reconciled_entry(entry, accounts, params).active_stake_lamports == 0,
        !reconcile_merges(entry, accounts, params).validator_stake,
        reconcile_merges(entry, accounts, params).transient_stake != Some(DecreaseTarget::Active),
        reconcile_credit(entry, accounts, params) <= counted_lamports(
            transient_account(entry, accounts),
            transient_class(entry, accounts, params),
        ),
        entry.status is Active ==> reconciled_entry(entry, accounts, params).status is Active,
{
}

/// What a reconciliation records and what it sends to the reserve are,
/// together, exactly the lamports that the pool controls in the two
/// accounts.
pub proof fn law_reconcile_counts_only_controlled_lamports(
    entry: ValidatorStakeInfo,
    accounts: ValidatorStakeAccounts,
    params: ReconcileParams,
)
    requires
        is_due(entry, params.epoch),
        !reconcile_overflows(entry, accounts, params),
    ensures
        stake_of(reconciled_entry(entry, accounts, params)) + reconcile_credit(
            entry,
            accounts,
            params,
        ) == counted_lamports(accounts.validator_stake, validator_class(entry, accounts, params))
            + counted_lamports(
            transient_account(entry, accounts),
            transient_class(entry, accounts, params),
        ),
{
}

/// Where a reconciliation can take an entry: a validator in use stays in
/// use or is made ready for removal; a decrease goes on, ends with the
/// validator in use again, or ends with it ready for removal; a leaving
/// validator never comes back into use; and an entry that is ready for
/// removal stays so.
pub proof fn law_reconciliation_follows_the_lifecycle(
    entry: ValidatorStakeInfo,
    accounts: ValidatorStakeAccounts,
    params: ReconcileParams,
)
    ensures
        ({
            let after = reconciled_entry(entry, accounts, params).status;
            match entry.status {
                StakeStatus::Active => after is Active || after is ReadyForRemoval,
                StakeStatus::DeactivatingTransient => after is DeactivatingTransient
                    || after is Active || after is ReadyForRemoval,
                StakeStatus::DeactivatingValidator => after is DeactivatingValidator
                    || after is ReadyForRemoval,
                StakeStatus::DeactivatingAll => after is DeactivatingAll
                    || after is DeactivatingValidator || after is ReadyForRemoval,
                StakeStatus::ReadyForRemoval => after is ReadyForRemoval,
            }
        }),
{
}

/// A leaving validator is made ready for removal exactly when nothing is
/// left on its record.
pub proof fn law_leaving_validator_is_ready_when_settled(
    entry: ValidatorStakeInfo,
    accounts: ValidatorStakeAccounts,
    params: ReconcileParams,
)
    requires
        entry.status is DeactivatingValidator || entry.status is DeactivatingAll,
        is_due(entry, params.epoch),
        params.merge,
        !reconcile_overflows(entry, accounts, params),
    ensures
        reconciled_entry(entry, accounts, params).status is ReadyForRemoval <==> stake_of(
            reconciled_entry(entry, accounts, params),
        ) == 0,
{
}

/// The transient stake account of an entry without transient stake plays no
/// part in its reconciliation.
pub proof fn law_unused_transient_account_is_not_looked_at(
    entry: ValidatorStakeInfo,
    accounts: ValidatorStakeAccounts,
    other: ValidatorStakeAccounts,
    params: ReconcileParams,
)
    requires
        entry.transient_stake_lamports == 0,
        accounts.validator_stake == other.validator_stake,
    ensures
        reconciled_entry(entry, accounts, params) == reconciled_entry(entry, other, params),
        reconcile_merges(entry, accounts, params) == reconcile_merges(entry, other, params),
        reconcile_credit(entry, accounts, params) == reconcile_credit(entry, other, params),
        reconciled_entry(entry, accounts, params).transient_stake_lamports
            == entry.transient_stake_lamports,
{
}

/// How an increase ends: once the transient stake has been activated, with
/// the active stake account live and settled, a reconciliation merges it
/// into the active stake. The entry then has no transient stake, nothing
/// has gone to the reserve, and a validator in use can be removed again.
pub proof fn law_activated_transient_joins_the_active_stake(
    entry: ValidatorStakeInfo,
    accounts: ValidatorStakeAccounts,
    params: ReconcileParams,
)
    requires
        is_due(entry, params.epoch),
        params.merge,
        transient_is_activated(entry, accounts, params),
        !reconcile_overflows(entry, accounts, params),
    ensures
        reconcile_merges(entry, accounts, params) == (Merges {
            transient_stake: Some(DecreaseTarget::Active),
            validator_stake: false,
        }),
        reconcile_credit(entry, accounts, params) == 0,
        reconciled_entry(entry, accounts, params).transient_stake_lamports == 0,
        reconciled_entry(entry, accounts, params).active_stake_lamports == counted_lamports(
            accounts.validator_stake,
            validator_class(entry, accounts, params),
        ) + counted_lamports(
            transient_account(entry, accounts),
            transient_class(entry, accounts, params),
        ),
        entry.status is Active ==> removal_status(reconciled_entry(entry, accounts, params))
            == Some(StakeStatus::DeactivatingValidator),
{
}

/// Without merging, a reconciliation only reads balances: it asks for no
/// merge, sends nothing to the reserve, and leaves the status as it is.
pub proof fn law_no_merge_only_reads(
    entry: ValidatorStakeInfo,
    accounts: ValidatorStakeAccounts,
    params: ReconcileParams,
)
    requires
        !params.merge,
    ensures
        reconcile_merges(entry, accounts, params) == (Merges {
            transient_stake: None,
            validator_stake: false,
        }),
        reconcile_credit(entry, accounts, params) == 0,
        !reconcile_overflows(entry, accounts, params),
        reconciled_entry(entry, accounts, params).status == entry.status,
{
}

/// An entry that attributes lamports to its validator survives a cleanup,
/// whatever its status.
pub proof fn law_cleanup_keeps_funded_entries(entries: Seq<ValidatorStakeInfo>, i: int)
    requires
        0 <= i < entries.len(),
        stake_of(entries[i]) != 0,
    ensures
        entries.filter(|entry: ValidatorStakeInfo| !entry.removable()).contains(entries[i]),
{
    let keep = |entry: ValidatorStakeInfo| !entry.removable();
    assert(keep(entries[i]));
    entries.lemma_filter_contains(keep, i);
}

/// A cleanup deletes an entry only if it is ready for removal and
/// attributes no lamports to its validator.
pub proof fn law_cleanup_deletes_only_settled_entries(
    entries: Seq<ValidatorStakeInfo>,
    entry: ValidatorStakeInfo,
)
    requires
        entries.contains(entry),
        !entries.filter(|entry: ValidatorStakeInfo| !entry.removable()).contains(entry),
    ensures
        entry.status is ReadyForRemoval,
        entry.active_stake_lamports == 0,
        entry.transient_stake_lamports == 0,
{
    let keep = |entry: ValidatorStakeInfo| !entry.removable();
    let i = choose|i: int| 0 <= i < entries.len() && entries[i] == entry;
    if keep(entry) {
        entries.lemma_filter_contains(keep, i);
    }
}

/// Once a validator is removed, neither preference of the pool names it.
pub proof fn law_removed_validator_is_not_preferred(pool: StakePool, vote_account: Pubkey)
    ensures
        without_preference(pool, vote_account).preferred_deposit_validator_vote_address != Some(
            vote_account,
        ),
        without_preference(pool, vote_account).preferred_withdraw_validator_vote_address != Some(
            vote_account,
        ),
{
}

/// A withdrawal that takes the whole active stake of a validator leaves the
/// validator ready for removal, with no active stake, and the pool without
/// any preference for it.
pub proof fn law_complete_withdrawal_removes_the_validator(
    pool: StakePool,
    entries: Seq<ValidatorStakeInfo>,
    vote_account: Pubkey,
    receipt: WithdrawReceipt,
)
    requires
        receipt.lamports == entry_of(entries, vote_account).active_stake_lamports,
    ensures
        ({
            let after = pool_after_validator_withdrawal(pool, entries, vote_account, receipt);
            let left = withdrawn_entry(entry_of(entries, vote_account), receipt.lamports);
            &&& after.preferred_deposit_validator_vote_address != Some(vote_account)
            &&& after.preferred_withdraw_validator_vote_address != Some(vote_account)
            &&& left.status is ReadyForRemoval
            &&& left.active_stake_lamports == 0
        }),
{
}

/// A withdrawal from a validator that succeeds either leaves it at least
/// the minimum stake, or takes all of its active stake while it has no
/// transient stake, and never pays more than the tokens are worth.
pub proof fn law_withdrawal_leaves_the_minimum_or_nothing(
    pool: StakePool,
    entries: Seq<ValidatorStakeInfo>,
    vote_account: Pubkey,
    pool_tokens: u64,
    minimum_stake_lamports: u64,
)
    requires
        validator_withdrawal(pool, entries, vote_account, pool_tokens, minimum_stake_lamports)
            is Ok,
    ensures
        ({
            let entry = entry_of(entries, vote_account);
            let receipt = validator_withdrawal(
                pool,
                entries,
                vote_account,
                pool_tokens,
                minimum_stake_lamports,
            )->Ok_0;
            let quote = withdraw_quote(
                pool.total_lamports,
                pool.pool_token_supply,
                pool.stake_withdrawal_fee,
                pool_tokens,
            )->Ok_0;
            &&& receipt.lamports <= quote.lamports
            &&& receipt.lamports <= entry.active_stake_lamports
            &&& receipt.lamports == entry.active_stake_lamports ==> entry.transient_stake_lamports
                == 0
            &&& receipt.lamports < entry.active_stake_lamports ==> entry.active_stake_lamports
                - receipt.lamports >= minimum_stake_lamports
        }),
{
}

/// A preference that is kept names a validator that is in the list and in
/// use.
pub proof fn law_kept_preference_is_active(
    preference: Option<Pubkey>,
    entries: Seq<ValidatorStakeInfo>,
)
    ensures
        kept_preference(preference, entries) matches Some(vote_account) ==> preference == Some(
            vote_account,
        ) && has_active_validator(entries, vote_account),
{
}

proof fn lemma_quotient_bounds(n: int, d: int)
    by (nonlinear_arith)
    requires
        0 <= n,
        0 < d,
    ensures
        0 <= n / d,
        (n / d) * d <= n < (n / d + 1) * d,
{
}

proof fn lemma_quotient_at_least(n: int, d: int, q: int)
    by (nonlinear_arith)
    requires
        0 < d,
        q * d <= n,
    ensures
        q <= n / d,
{
}

proof fn lemma_quotient_less_than(n: int, d: int, q: int)
    by (nonlinear_arith)
    requires
        0 < d,
        n < q * d,
    ensures
        n / d < q,
{
}

/// A fee at a ratio of at most one is never more than the amount that it is
/// charged on, and nothing is charged on nothing.
pub proof fn law_valid_fee_is_within_the_amount(fee: Fee, amount: int)
    requires
        fee.is_valid(),
        0 <= amount,
    ensures
        0 <= fee_on(fee.numerator as int, fee.denominator as int, amount) <= amount,
        fee_on(fee.numerator as int, fee.denominator as int, 0) == 0,
{
    let n = fee.numerator as int;
    let d = fee.denominator as int;
    crate::fee::lemma_fee_on_nothing(n, d);
    if d != 0 {
        assert(0 <= amount * n <= amount * d) by (nonlinear_arith)
            requires
                0 <= n <= d,
                0 <= amount,
        ;
        lemma_quotient_bounds(amount * n + d - 1, d);
        assert(amount * n + d - 1 < (amount + 1) * d) by (nonlinear_arith)
            requires
                amount * n <= amount * d,
                0 < d,
        ;
        lemma_quotient_less_than(amount * n + d - 1, d, amount + 1);
    }
}

/// A deposit never mints tokens worth more than the lamports deposited: the
/// tokens, at the pool's price before the deposit, come to no more lamports
/// than were paid, and one more token would come to more.
pub proof fn law_deposit_rounds_down(total: int, supply: int, lamports: int)
    requires
        0 < total,
        0 < supply,
        0 <= lamports,
    ensures
        0 <= tokens_for_deposit(total, supply, lamports),
        tokens_for_deposit(total, supply, lamports) * total <= lamports * supply,
        lamports * supply < (tokens_for_deposit(total, supply, lamports) + 1) * total,
{
    assert(0 <= lamports * supply) by (nonlinear_arith)
        requires
            0 <= lamports,
            0 < supply,
    ;
    lemma_quotient_bounds(lamports * supply, total);
}

/// A withdrawal never pays more than the tokens are worth: the lamports
/// paid, at the pool's price, come to no more tokens than were burnt, and
/// one more lamport would come to more.
pub proof fn law_withdraw_rounds_down(total: int, supply: int, tokens: int)
    requires
        0 <= total,
        0 < supply,
        0 <= tokens,
    ensures
        0 <= lamports_for_withdraw(total, supply, tokens),
        lamports_for_withdraw(total, supply, tokens) * supply <= tokens * total,
        tokens * total < (lamports_for_withdraw(total, supply, tokens) + 1) * supply,
{
    assert(0 <= tokens * total) by (nonlinear_arith)
        requires
            0 <= tokens,
            0 <= total,
    ;
    lemma_quotient_bounds(tokens * total, supply);
}

/// The tokens asked for a payout are rounded up: they pay at least the
/// lamports wanted, and no smaller number of tokens does.
pub proof fn law_tokens_for_withdraw_is_least(total: int, supply: int, lamports: int, fewer: int)
    requires
        0 < total,
        0 < supply,
        0 <= lamports,
        0 <= fewer < tokens_for_withdraw(total, supply, lamports),
    ensures
        lamports_for_withdraw(total, supply, tokens_for_withdraw(total, supply, lamports))
            >= lamports,
        lamports_for_withdraw(total, supply, fewer) < lamports,
{
    let needed = tokens_for_withdraw(total, supply, lamports);
    let value = lamports * supply;
    assert(0 <= value) by (nonlinear_arith)
        requires
            0 <= lamports,
            0 < supply,
            value == lamports * supply,
    ;
    lemma_quotient_bounds(value + total - 1, total);
    // needed * total <= value + total - 1 < (needed + 1) * total
    assert(value <= needed * total && (needed - 1) * total < value) by (nonlinear_arith)
        requires
            needed * total <= value + total - 1,
            value + total - 1 < (needed + 1) * total,
    ;
    lemma_quotient_at_least(needed * total, supply, lamports);
    assert(fewer * total < lamports * supply) by (nonlinear_arith)
        requires
            0 <= fewer <= needed - 1,
            0 < total,
            (needed - 1) * total < value,
            value == lamports * supply,
    ;
    lemma_quotient_less_than(fewer * total, supply, lamports);
}

/// Depositing and withdrawing at once gains nothing: the tokens minted for
/// a deposit, withdrawn from the pool as the deposit left it, pay no more
/// than was deposited. This holds of every pool but one that holds lamports
/// against no tokens at all, whose first depositor owns all of it.
pub proof fn law_round_trip_gains_nothing(total: int, supply: int, lamports: int)
    requires
        0 <= total,
        0 <= supply,
        0 <= lamports,
        supply > 0 || total == 0,
    ensures
        lamports_for_withdraw(
            total + lamports,
            supply + tokens_for_deposit(total, supply, lamports),
            tokens_for_deposit(total, supply, lamports),
        ) <= lamports,
{
    let minted = tokens_for_deposit(total, supply, lamports);
    if total == 0 || supply == 0 {
        assert(minted == lamports);
        if supply + minted > 0 {
            assert(minted * (total + lamports) < (lamports + 1) * (supply + minted))
                by (nonlinear_arith)
                requires
                    total == 0,
                    minted == lamports,
                    0 <= supply,
                    0 <= lamports,
                    supply + minted > 0,
            ;
            lemma_quotient_less_than(minted * (total + lamports), supply + minted, lamports + 1);
        }
    } else {
        law_deposit_rounds_down(total, supply, lamports);
        assert(minted * (total + lamports) < (lamports + 1) * (supply + minted))
            by (nonlinear_arith)
            requires
                minted * total <= lamports * supply,
                0 <= minted,
                0 <= lamports,
                0 < supply,
        ;
        lemma_quotient_less_than(minted * (total + lamports), supply + minted, lamports + 1);
    }
}

/// A deposit does not make a pool token worth less: the pool's lamports per
/// token after the deposit are at least what they were before.
pub proof fn law_deposit_does_not_dilute(total: int, supply: int, lamports: int)
    requires
        0 < total,
        0 < supply,
        0 <= lamports,
    ensures
        (total + lamports) * supply >= total * (supply + tokens_for_deposit(
            total,
            supply,
            lamports,
        )),
{
    law_deposit_rounds_down(total, supply, lamports);
    let minted = tokens_for_deposit(total, supply, lamports);
    assert((total + lamports) * supply >= total * (supply + minted)) by (nonlinear_arith)
        requires
            minted * total <= lamports * supply,
    ;
}

/// A withdrawal does not make a pool token worth less: the pool's lamports
/// per token after the withdrawal are at least what they were before.
pub proof fn law_withdraw_does_not_dilute(total: int, supply: int, tokens: int)
    requires
        0 <= total,
        0 < supply,
        0 <= tokens <= supply,
    ensures
        lamports_for_withdraw(total, supply, tokens) <= total,
        (total - lamports_for_withdraw(total, supply, tokens)) * supply >= total * (supply
            - tokens),
{
    law_withdraw_rounds_down(total, supply, tokens);
    let paid = lamports_for_withdraw(total, supply, tokens);
    assert(tokens * total <= supply * total) by (nonlinear_arith)
        requires
            0 <= tokens <= supply,
            0 <= total,
    ;
    assert(tokens * total < (total + 1) * supply) by (nonlinear_arith)
        requires
            tokens * total <= supply * total,
            0 < supply,
    ;
    lemma_quotient_less_than(tokens * total, supply, total + 1);
    assert((total - paid) * supply >= total * (supply - tokens)) by (nonlinear_arith)
        requires
            paid * supply <= tokens * total,
    ;
}

/// The tokens minted as the epoch fee are worth no more than the fee: at
/// the pool's price once they are minted, they come to no more lamports
/// than were charged.
pub proof fn law_epoch_fee_is_worth_the_fee(total: int, supply: int, reward: int, fee_lamports: int)
    requires
        0 <= total,
        0 < supply,
        0 < reward,
        0 <= fee_lamports <= reward,
        fee_lamports < total + reward,
    ensures
        0 <= epoch_fee_tokens(total, supply, reward, fee_lamports),
        lamports_for_withdraw(
            total + reward,
            supply + epoch_fee_tokens(total, supply, reward, fee_lamports),
            epoch_fee_tokens(total, supply, reward, fee_lamports),
        ) <= fee_lamports,
{
    let minted = epoch_fee_tokens(total, supply, reward, fee_lamports);
    let rest = total + reward - fee_lamports;
    assert(0 <= supply * fee_lamports) by (nonlinear_arith)
        requires
            0 < supply,
            0 <= fee_lamports,
    ;
    lemma_quotient_bounds(supply * fee_lamports, rest);
    assert(minted * (total + reward) < (fee_lamports + 1) * (supply + minted))
        by (nonlinear_arith)
        requires
            minted * rest <= supply * fee_lamports,
            rest == total + reward - fee_lamports,
            0 <= minted,
            0 < supply,
    ;
    lemma_quotient_less_than(minted * (total + reward), supply + minted, fee_lamports + 1);
}

} // verus!
