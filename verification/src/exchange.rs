//! Deposits and withdrawals: lamports against pool tokens, at the price that
//! the pool's recorded value and token supply give, less the fees.
//!
//! Lamports are deposited into the reserve and withdrawn from it; stake is
//! deposited to a validator and withdrawn from a validator, or from the
//! reserve once no validator has stake to give. A withdrawal that takes all
//! of a validator's active stake removes the validator.

use crate::coordinator::kept_preference;
use crate::error::StakePoolError;
use crate::fee::{fee_on, lamports_for_withdraw, lamports_per_pool_token, tokens_for_deposit};
use crate::pubkey::Pubkey;
use crate::registry::{
    entry_of,
    has_validator,
    index_of,
    keeps_validators,
    lemma_keeps_validators,
    lemma_total_stake_update,
    total_stake,
};
use crate::staking::{preferences_are_listed, preferred_validator, without_preference};
use crate::state::{
    Fee,
    PreferredValidatorType,
    Reserve,
    StakePool,
    StakeStatus,
    ValidatorList,
    ValidatorStakeInfo,
};
use vstd::prelude::*;

verus! {

/// The pool tokens that a deposit mints.
#[derive(Clone, Copy, Debug, PartialEq, Eq, Structural)]
pub struct DepositReceipt {
    /// Tokens for the depositor.
    pub pool_tokens: u64,
    /// Tokens for the pool's manager, as the fee.
    pub manager_fee_tokens: u64,
    /// Tokens for the referrer, as its share of the fee.
    pub referral_fee_tokens: u64,
}

/// What a withdrawal pays and takes.
#[derive(Clone, Copy, Debug, PartialEq, Eq, Structural)]
pub struct WithdrawReceipt {
    /// Lamports paid out.
    pub lamports: u64,
    /// Tokens burnt.
    pub pool_tokens_burnt: u64,
    /// Tokens handed to the pool's manager, as the fee.
    pub manager_fee_tokens: u64,
}

/// All the tokens that a deposit mints.
pub open spec fn minted_tokens(receipt: DepositReceipt) -> int {
    receipt.pool_tokens + receipt.manager_fee_tokens + receipt.referral_fee_tokens
}

/// The tokens minted for a deposit of `lamports` into a pool that holds
/// `total` lamports against `supply` tokens, and who gets them.
///
/// The lamports buy tokens at the pool's price, rounded down. The fee is
/// taken off them, rounded up, and `referral_fee` percent of the fee,
/// rounded down, go to the referrer. A deposit that leaves the depositor no
/// token is too small.
pub open spec fn deposit_quote(
    total: u64,
    supply: u64,
    fee: Fee,
    referral_fee: u8,
    lamports: u64,
) -> Result<DepositReceipt, StakePoolError> {
    let minted = tokens_for_deposit(total as int, supply as int, lamports as int);
    let fee_tokens = fee_on(fee.numerator as int, fee.denominator as int, minted);
    let referral = fee_tokens * referral_fee / 100;
    if minted > u64::MAX || fee_tokens > minted || referral > fee_tokens {
        Err(StakePoolError::CalculationFailure)
    } else if minted == fee_tokens {
        Err(StakePoolError::DepositTooSmall)
    } else {
        Ok(
            DepositReceipt {
                pool_tokens: (minted - fee_tokens) as u64,
                manager_fee_tokens: (fee_tokens - referral) as u64,
                referral_fee_tokens: referral as u64,
            },
        )
    }
}

/// What the withdrawal of `pool_tokens` pays from a pool that holds `total`
/// lamports against `supply` tokens.
///
/// The fee is taken off the tokens, rounded up; the rest is burnt and paid
/// for at the pool's price, rounded down. A withdrawal that pays nothing is
/// too small.
pub open spec fn withdraw_quote(total: u64, supply: u64, fee: Fee, pool_tokens: u64) -> Result<
    WithdrawReceipt,
    StakePoolError,
> {
    let fee_tokens = fee_on(fee.numerator as int, fee.denominator as int, pool_tokens as int);
    let burnt = pool_tokens - fee_tokens;
    let lamports = lamports_for_withdraw(total as int, supply as int, burnt);
    if fee_tokens > pool_tokens || lamports > u64::MAX {
        Err(StakePoolError::CalculationFailure)
    } else if lamports == 0 {
        Err(StakePoolError::WithdrawalTooSmall)
    } else {
        Ok(
            WithdrawReceipt {
                lamports: lamports as u64,
                pool_tokens_burnt: burnt as u64,
                manager_fee_tokens: fee_tokens as u64,
            },
        )
    }
}

/// What a deposit of lamports into the reserve comes to: the receipt, or
/// why it fails. Beyond the quote, it fails if the pool's value, its token
/// supply or the reserve would leave the 64-bit range.
pub open spec fn sol_deposit(pool: StakePool, reserve: Reserve, lamports: u64) -> Result<
    DepositReceipt,
    StakePoolError,
> {
    match deposit_quote(
        pool.total_lamports,
        pool.pool_token_supply,
        pool.sol_deposit_fee,
        pool.sol_referral_fee,
        lamports,
    ) {
        Err(e) => Err(e),
        Ok(receipt) => if pool.total_lamports + lamports > u64::MAX || pool.pool_token_supply
            + minted_tokens(receipt) > u64::MAX || reserve.lamports + lamports > u64::MAX {
            Err(StakePoolError::CalculationFailure)
        } else {
            Ok(receipt)
        },
    }
}

/// What a deposit of stake to a validator comes to: the receipt, or why it
/// fails. The deposit must go to the preferred deposit validator if the
/// pool has one in use, and to a validator in use in any case.
pub open spec fn stake_deposit(
    pool: StakePool,
    entries: Seq<ValidatorStakeInfo>,
    vote_account: Pubkey,
    lamports: u64,
) -> Result<DepositReceipt, StakePoolError> {
    let preferred = kept_preference(pool.preferred_deposit_validator_vote_address, entries);
    let entry = entry_of(entries, vote_account);
    if preferred is Some && preferred != Some(vote_account) {
        Err(StakePoolError::IncorrectDepositVoteAddress)
    } else if !has_validator(entries, vote_account) {
        Err(StakePoolError::ValidatorNotFound)
    } else if !(entry.status is Active) {
        Err(StakePoolError::WrongStakeState)
    } else {
        match deposit_quote(
            pool.total_lamports,
            pool.pool_token_supply,
            pool.stake_deposit_fee,
            pool.stake_referral_fee,
            lamports,
        ) {
            Err(e) => Err(e),
            Ok(receipt) => if pool.total_lamports + lamports > u64::MAX || pool.pool_token_supply
                + minted_tokens(receipt) > u64::MAX || entry.active_stake_lamports + lamports
                > u64::MAX {
                Err(StakePoolError::CalculationFailure)
            } else {
                Ok(receipt)
            },
        }
    }
}

/// What a withdrawal of lamports from the reserve comes to: the receipt, or
/// why it fails. Beyond the quote, it fails if the reserve would fall under
/// its minimum, and if the pool records fewer lamports or tokens than the
/// withdrawal takes.
pub open spec fn sol_withdrawal(pool: StakePool, reserve: Reserve, pool_tokens: u64) -> Result<
    WithdrawReceipt,
    StakePoolError,
> {
    match withdraw_quote(
        pool.total_lamports,
        pool.pool_token_supply,
        pool.sol_withdrawal_fee,
        pool_tokens,
    ) {
        Err(e) => Err(e),
        Ok(receipt) => if reserve.lamports - receipt.lamports < reserve.minimum_lamports {
            Err(StakePoolError::SolWithdrawalTooLarge)
        } else if receipt.lamports > pool.total_lamports || receipt.pool_tokens_burnt
            > pool.pool_token_supply {
            Err(StakePoolError::CalculationFailure)
        } else {
            Ok(receipt)
        },
    }
}

/// Where a withdrawal of stake comes from.
#[derive(Clone, Copy, Debug)]
pub enum WithdrawSource {
    /// The active stake of the validator with this vote account.
    Validator(Pubkey),
    /// The reserve, which pays only while no validator has stake to give.
    Reserve,
}

/// The active stake above which a validator has stake to give: the minimum
/// stake and what one pool token is worth.
pub open spec fn withdraw_threshold(pool: StakePool, minimum_stake_lamports: u64) -> int {
    minimum_stake_lamports + lamports_per_pool_token(
        pool.total_lamports as int,
        pool.pool_token_supply as int,
    )
}

/// Whether some validator has stake to give: transient stake, or active
/// stake above the threshold.
pub open spec fn has_withdrawable_stake(entries: Seq<ValidatorStakeInfo>, threshold: int) -> bool {
    exists|i: int|
        0 <= i < entries.len() && ((#[trigger] entries[i]).transient_stake_lamports > 0
            || entries[i].active_stake_lamports > threshold)
}

/// What a withdrawal of stake from a validator comes to: the receipt, or
/// why it fails.
///
/// The validator must be in use. While the preferred withdraw validator is
/// in use and has stake to give, the withdrawal must come from it. A
/// withdrawal of less than the active stake must leave at least
/// `minimum_stake_lamports` of it. A withdrawal worth the whole active
/// stake, or up to one pool token's worth more, takes the whole of it and
/// removes the validator: it pays exactly the active stake, and is refused
/// if the validator has transient stake or no active stake at all.
pub open spec fn validator_withdrawal(
    pool: StakePool,
    entries: Seq<ValidatorStakeInfo>,
    vote_account: Pubkey,
    pool_tokens: u64,
    minimum_stake_lamports: u64,
) -> Result<WithdrawReceipt, StakePoolError> {
    let preferred = kept_preference(pool.preferred_withdraw_validator_vote_address, entries);
    let entry = entry_of(entries, vote_account);
    let worth = lamports_per_pool_token(
        pool.total_lamports as int,
        pool.pool_token_supply as int,
    );
    if !has_validator(entries, vote_account) {
        Err(StakePoolError::ValidatorNotFound)
    } else if !(entry.status is Active) {
        Err(StakePoolError::WrongStakeState)
    } else if preferred is Some && preferred != Some(vote_account) && entry_of(
        entries,
        preferred.unwrap(),
    ).active_stake_lamports > withdraw_threshold(pool, minimum_stake_lamports) {
        Err(StakePoolError::IncorrectWithdrawVoteAddress)
    } else {
        match withdraw_quote(
            pool.total_lamports,
            pool.pool_token_supply,
            pool.stake_withdrawal_fee,
            pool_tokens,
        ) {
            Err(e) => Err(e),
            Ok(receipt) => if receipt.lamports >= entry.active_stake_lamports {
                if entry.active_stake_lamports == 0 || entry.transient_stake_lamports != 0
                    || receipt.lamports > entry.active_stake_lamports + worth {
                    Err(StakePoolError::StakeLamportsNotEqualToMinimum)
                } else if entry.active_stake_lamports > pool.total_lamports
                    || receipt.pool_tokens_burnt > pool.pool_token_supply {
                    Err(StakePoolError::CalculationFailure)
                } else {
                    Ok(WithdrawReceipt { lamports: entry.active_stake_lamports, ..receipt })
                }
            } else if entry.active_stake_lamports - receipt.lamports < minimum_stake_lamports {
                Err(StakePoolError::StakeLamportsNotEqualToMinimum)
            } else if receipt.lamports > pool.total_lamports || receipt.pool_tokens_burnt
                > pool.pool_token_supply {
                Err(StakePoolError::CalculationFailure)
            } else {
                Ok(receipt)
            },
        }
    }
}

/// What a withdrawal of stake from the reserve comes to: the receipt, or
/// why it fails. The reserve pays only while no validator has stake to
/// give, and keeps its minimum.
pub open spec fn reserve_withdrawal(
    pool: StakePool,
    entries: Seq<ValidatorStakeInfo>,
    reserve: Reserve,
    pool_tokens: u64,
    minimum_stake_lamports: u64,
) -> Result<WithdrawReceipt, StakePoolError> {
    match withdraw_quote(
        pool.total_lamports,
        pool.pool_token_supply,
        pool.stake_withdrawal_fee,
        pool_tokens,
    ) {
        Err(e) => Err(e),
        Ok(receipt) => if has_withdrawable_stake(
            entries,
            withdraw_threshold(pool, minimum_stake_lamports),
        ) {
            Err(StakePoolError::StakeLamportsNotEqualToMinimum)
        } else if reserve.lamports - receipt.lamports < reserve.minimum_lamports {
            Err(StakePoolError::SolWithdrawalTooLarge)
        } else if receipt.lamports > pool.total_lamports || receipt.pool_tokens_burnt
            > pool.pool_token_supply {
            Err(StakePoolError::CalculationFailure)
        } else {
            Ok(receipt)
        },
    }
}

/// What a withdrawal of stake comes to, from a validator or from the
/// reserve.
pub open spec fn stake_withdrawal(
    pool: StakePool,
    entries: Seq<ValidatorStakeInfo>,
    reserve: Reserve,
    source: WithdrawSource,
    pool_tokens: u64,
    minimum_stake_lamports: u64,
) -> Result<WithdrawReceipt, StakePoolError> {
    match source {
        WithdrawSource::Validator(vote_account) => validator_withdrawal(
            pool,
            entries,
            vote_account,
            pool_tokens,
            minimum_stake_lamports,
        ),
        WithdrawSource::Reserve => reserve_withdrawal(
            pool,
            entries,
            reserve,
            pool_tokens,
            minimum_stake_lamports,
        ),
    }
}

/// The validator's entry after `lamports` of its active stake were
/// withdrawn: with all of it gone, the validator is ready for removal.
pub open spec fn withdrawn_entry(entry: ValidatorStakeInfo, lamports: u64) -> ValidatorStakeInfo {
    if lamports == entry.active_stake_lamports {
        ValidatorStakeInfo {
            active_stake_lamports: 0,
            status: StakeStatus::ReadyForRemoval,
            ..entry
        }
    } else {
        ValidatorStakeInfo {
            active_stake_lamports: (entry.active_stake_lamports - lamports) as u64,
            ..entry
        }
    }
}

/// The pool after a withdrawal of stake from a validator: less the lamports
/// paid and the tokens burnt, without a preferred withdraw validator that is
/// not in use, and, if the withdrawal removed the validator, without any
/// preference for it.
pub open spec fn pool_after_validator_withdrawal(
    pool: StakePool,
    entries: Seq<ValidatorStakeInfo>,
    vote_account: Pubkey,
    receipt: WithdrawReceipt,
) -> StakePool {
    let paid = StakePool {
        total_lamports: (pool.total_lamports - receipt.lamports) as u64,
        pool_token_supply: (pool.pool_token_supply - receipt.pool_tokens_burnt) as u64,
        preferred_withdraw_validator_vote_address: kept_preference(
            pool.preferred_withdraw_validator_vote_address,
            entries,
        ),
        ..pool
    };
    if receipt.lamports == entry_of(entries, vote_account).active_stake_lamports {
        without_preference(paid, vote_account)
    } else {
        paid
    }
}

/// What a withdrawal of lamports that must pay at least
/// `minimum_lamports_out` comes to: `ExceededSlippage` if the tokens are
/// worth less, else what the withdrawal without a least amount comes to.
pub open spec fn sol_withdrawal_with_slippage(
    pool: StakePool,
    reserve: Reserve,
    pool_tokens: u64,
    minimum_lamports_out: u64,
) -> Result<WithdrawReceipt, StakePoolError> {
    match withdraw_quote(
        pool.total_lamports,
        pool.pool_token_supply,
        pool.sol_withdrawal_fee,
        pool_tokens,
    ) {
        Ok(receipt) if receipt.lamports < minimum_lamports_out => Err(
            StakePoolError::ExceededSlippage,
        ),
        _ => sol_withdrawal(pool, reserve, pool_tokens),
    }
}

/// The tokens that the pool mints for a deposit of `lamports` at the given
/// fee, and who gets them, as `deposit_quote` says.
pub fn quote_deposit(pool: &StakePool, fee: &Fee, referral_fee: u8, lamports: u64) -> (r: Result<
    DepositReceipt,
    StakePoolError,
>)
    ensures
        r == deposit_quote(
            pool.total_lamports,
            pool.pool_token_supply,
            *fee,
            referral_fee,
            lamports,
        ),
{
    let minted: u64 = match pool.calc_pool_tokens_for_deposit(lamports) {
        Some(minted) => minted,
        None => {
            return Err(StakePoolError::CalculationFailure);
        },
    };
    let fee_tokens: u128 = fee.apply(minted);
    if fee_tokens > minted as u128 {
        return Err(StakePoolError::CalculationFailure);
    }
    assert(fee_tokens * referral_fee <= u64::MAX * 255) by (nonlinear_arith)
        requires
            fee_tokens <= u64::MAX,
            referral_fee <= 255,
    ;
    let referral: u128 = fee_tokens * (referral_fee as u128) / 100;
    if referral > fee_tokens {
        return Err(StakePoolError::CalculationFailure);
    }
    if minted as u128 == fee_tokens {
        return Err(StakePoolError::DepositTooSmall);
    }
    Ok(
        DepositReceipt {
            pool_tokens: (minted as u128 - fee_tokens) as u64,
            manager_fee_tokens: (fee_tokens - referral) as u64,
            referral_fee_tokens: referral as u64,
        },
    )
}

/// What the pool pays for `pool_tokens` at the given fee, and what it takes,
/// as `withdraw_quote` says.
pub fn quote_withdraw(pool: &StakePool, fee: &Fee, pool_tokens: u64) -> (r: Result<
    WithdrawReceipt,
    StakePoolError,
>)
    ensures
        r == withdraw_quote(pool.total_lamports, pool.pool_token_supply, *fee, pool_tokens),
{
    let fee_tokens: u128 = fee.apply(pool_tokens);
    if fee_tokens > pool_tokens as u128 {
        return Err(StakePoolError::CalculationFailure);
    }
    let burnt: u64 = (pool_tokens as u128 - fee_tokens) as u64;
    let lamports: u64 = match pool.calc_lamports_withdraw_amount(burnt) {
        Some(lamports) => lamports,
        None => {
            return Err(StakePoolError::CalculationFailure);
        },
    };
    if lamports == 0 {
        return Err(StakePoolError::WithdrawalTooSmall);
    }
    Ok(WithdrawReceipt { lamports, pool_tokens_burnt: burnt, manager_fee_tokens: fee_tokens as u64 })
}

/// Deposits `lamports` into the reserve against pool tokens.
///
/// The outcome is what `sol_deposit` says. On success the lamports are
/// added to the reserve and to the pool's value, and the tokens minted to
/// its supply, so that the pool's value stays in step with what it holds.
/// On failure nothing has changed.
pub fn deposit_sol(pool: &mut StakePool, reserve: &mut Reserve, lamports: u64) -> (r: Result<
    DepositReceipt,
    StakePoolError,
>)
    ensures
        r == sol_deposit(*old(pool), *old(reserve), lamports),
        r is Err ==> *final(pool) == *old(pool) && *final(reserve) == *old(reserve),
        r matches Ok(receipt) ==> {
            &&& *final(pool) == (StakePool {
                total_lamports: (old(pool).total_lamports + lamports) as u64,
                pool_token_supply: (old(pool).pool_token_supply + minted_tokens(receipt)) as u64,
                ..*old(pool)
            })
            &&& *final(reserve) == (Reserve {
                lamports: (old(reserve).lamports + lamports) as u64,
                ..*old(reserve)
            })
        },
        final(pool).total_lamports - final(reserve).lamports == old(pool).total_lamports - old(
            reserve,
        ).lamports,
        old(reserve).wf() ==> final(reserve).wf(),
{
    let receipt = match quote_deposit(
        pool,
        &pool.sol_deposit_fee,
        pool.sol_referral_fee,
        lamports,
    ) {
        Ok(receipt) => receipt,
        Err(e) => {
            return Err(e);
        },
    };
    let minted: u128 = receipt.pool_tokens as u128 + receipt.manager_fee_tokens as u128
        + receipt.referral_fee_tokens as u128;
    let total: Option<u64> = pool.total_lamports.checked_add(lamports);
    let held: Option<u64> = reserve.lamports.checked_add(lamports);
    if total.is_none() || held.is_none() || minted > (u64::MAX - pool.pool_token_supply) as u128 {
        return Err(StakePoolError::CalculationFailure);
    }
    pool.total_lamports = total.unwrap();
    pool.pool_token_supply = pool.pool_token_supply + minted as u64;
    reserve.lamports = held.unwrap();
    Ok(receipt)
}

/// Deposits `lamports` of stake to a validator against pool tokens.
///
/// The outcome is what `stake_deposit` says. On success the lamports are
/// added to the validator's active stake and to the pool's value, and the
/// tokens minted to its supply; a preferred deposit validator that is not
/// in use is dropped from the pool. On failure nothing has changed.
pub fn deposit_stake(
    pool: &mut StakePool,
    list: &mut ValidatorList,
    vote_account: &Pubkey,
    lamports: u64,
) -> (r: Result<DepositReceipt, StakePoolError>)
    ensures
        r == stake_deposit(*old(pool), old(list).validators@, *vote_account, lamports),
        r is Err ==> *final(pool) == *old(pool) && *final(list) == *old(list),
        r matches Ok(receipt) ==> {
            let entry = entry_of(old(list).validators@, *vote_account);
            &&& *final(pool) == (StakePool {
                total_lamports: (old(pool).total_lamports + lamports) as u64,
                pool_token_supply: (old(pool).pool_token_supply + minted_tokens(receipt)) as u64,
                preferred_deposit_validator_vote_address: kept_preference(
                    old(pool).preferred_deposit_validator_vote_address,
                    old(list).validators@,
                ),
                ..*old(pool)
            })
            &&& final(list).max_validators == old(list).max_validators
            &&& final(list).validators@ == old(list).validators@.update(
                index_of(old(list).validators@, *vote_account),
                ValidatorStakeInfo {
                    active_stake_lamports: (entry.active_stake_lamports + lamports) as u64,
                    ..entry
                },
            )
            &&& total_stake(final(list).validators@) == total_stake(old(list).validators@)
                + lamports
        },
        final(pool).total_lamports - total_stake(final(list).validators@) == old(
            pool,
        ).total_lamports - total_stake(old(list).validators@),
        keeps_validators(old(list).validators@, final(list).validators@),
        preferences_are_listed(*old(pool), old(list).validators@) ==> preferences_are_listed(
            *final(pool),
            final(list).validators@,
        ),
        old(list).wf() ==> final(list).wf(),
{
    proof {
        lemma_keeps_validators(list.validators@, list.validators@);
    }
    let mut routed: StakePool = *pool;
    let preferred: Option<Pubkey> = preferred_validator(
        &mut routed,
        list,
        PreferredValidatorType::Deposit,
    );
    match preferred {
        Some(p) => {
            if p != *vote_account {
                return Err(StakePoolError::IncorrectDepositVoteAddress);
            }
        },
        None => {},
    }
    let i: usize = match list.find(vote_account) {
        Some(i) => i,
        None => {
            return Err(StakePoolError::ValidatorNotFound);
        },
    };
    let entry = list.validators[i];
    if !entry.is_active() {
        return Err(StakePoolError::WrongStakeState);
    }
    let receipt = match quote_deposit(
        pool,
        &pool.stake_deposit_fee,
        pool.stake_referral_fee,
        lamports,
    ) {
        Ok(receipt) => receipt,
        Err(e) => {
            return Err(e);
        },
    };
    let minted: u128 = receipt.pool_tokens as u128 + receipt.manager_fee_tokens as u128
        + receipt.referral_fee_tokens as u128;
    let total: Option<u64> = pool.total_lamports.checked_add(lamports);
    let active: Option<u64> = entry.active_stake_lamports.checked_add(lamports);
    if total.is_none() || active.is_none() || minted > (u64::MAX - pool.pool_token_supply) as u128 {
        return Err(StakePoolError::CalculationFailure);
    }
    proof {
        lemma_total_stake_update(
            list.validators@,
            i as int,
            ValidatorStakeInfo { active_stake_lamports: active.unwrap(), ..entry },
        );
        lemma_keeps_validators(
            list.validators@,
            list.validators@.update(
                i as int,
                ValidatorStakeInfo { active_stake_lamports: active.unwrap(), ..entry },
            ),
        );
    }
    routed.total_lamports = total.unwrap();
    routed.pool_token_supply = pool.pool_token_supply + minted as u64;
    *pool = routed;
    list.validators[i] = ValidatorStakeInfo { active_stake_lamports: active.unwrap(), ..entry };
    Ok(receipt)
}

/// Withdraws lamports from the reserve against `pool_tokens`.
///
/// The outcome is what `sol_withdrawal` says. On success the lamports
/// leave the reserve and the pool's value, and the tokens burnt leave its
/// supply; the reserve keeps its minimum. On failure nothing has changed.
pub fn withdraw_sol(pool: &mut StakePool, reserve: &mut Reserve, pool_tokens: u64) -> (r: Result<
    WithdrawReceipt,
    StakePoolError,
>)
    ensures
        r == sol_withdrawal(*old(pool), *old(reserve), pool_tokens),
        r is Err ==> *final(pool) == *old(pool) && *final(reserve) == *old(reserve),
        r matches Ok(receipt) ==> {
            &&& *final(pool) == (StakePool {
                total_lamports: (old(pool).total_lamports - receipt.lamports) as u64,
                pool_token_supply: (old(pool).pool_token_supply - receipt.pool_tokens_burnt) as u64,
                ..*old(pool)
            })
            &&& *final(reserve) == (Reserve {
                lamports: (old(reserve).lamports - receipt.lamports) as u64,
                ..*old(reserve)
            })
            &&& final(reserve).wf()
        },
        final(pool).total_lamports - final(reserve).lamports == old(pool).total_lamports - old(
            reserve,
        ).lamports,
{
    let receipt = match quote_withdraw(pool, &pool.sol_withdrawal_fee, pool_tokens) {
        Ok(receipt) => receipt,
        Err(e) => {
            return Err(e);
        },
    };
    if reserve.lamports < receipt.lamports || reserve.lamports - receipt.lamports
        < reserve.minimum_lamports {
        return Err(StakePoolError::SolWithdrawalTooLarge);
    }
    if receipt.lamports > pool.total_lamports || receipt.pool_tokens_burnt > pool.pool_token_supply {
        return Err(StakePoolError::CalculationFailure);
    }
    pool.total_lamports = pool.total_lamports - receipt.lamports;
    pool.pool_token_supply = pool.pool_token_supply - receipt.pool_tokens_burnt;
    reserve.lamports = reserve.lamports - receipt.lamports;
    Ok(receipt)
}

/// Withdraws lamports from the reserve against `pool_tokens`, if they pay
/// at least `minimum_lamports_out`.
///
/// The outcome is what `sol_withdrawal_with_slippage` says: a failure with
/// `ExceededSlippage` if the tokens are worth less than the least amount,
/// else what `withdraw_sol` does. On failure nothing has changed.
pub fn withdraw_sol_with_slippage(
    pool: &mut StakePool,
    reserve: &mut Reserve,
    pool_tokens: u64,
    minimum_lamports_out: u64,
) -> (r: Result<WithdrawReceipt, StakePoolError>)
    ensures
        r == sol_withdrawal_with_slippage(
            *old(pool),
            *old(reserve),
            pool_tokens,
            minimum_lamports_out,
        ),
        r is Err ==> *final(pool) == *old(pool) && *final(reserve) == *old(reserve),
        r matches Ok(receipt) ==> {
            &&& receipt.lamports >= minimum_lamports_out
            &&& *final(pool) == (StakePool {
                total_lamports: (old(pool).total_lamports - receipt.lamports) as u64,
                pool_token_supply: (old(pool).pool_token_supply - receipt.pool_tokens_burnt) as u64,
                ..*old(pool)
            })
            &&& *final(reserve) == (Reserve {
                lamports: (old(reserve).lamports - receipt.lamports) as u64,
                ..*old(reserve)
            })
            &&& final(reserve).wf()
        },
{
    match quote_withdraw(pool, &pool.sol_withdrawal_fee, pool_tokens) {
        Ok(receipt) => {
            if receipt.lamports < minimum_lamports_out {
                return Err(StakePoolError::ExceededSlippage);
            }
        },
        Err(_) => {},
    }
    withdraw_sol(pool, reserve, pool_tokens)
}

/// Whether some validator has stake to give.
fn any_withdrawable_stake(list: &ValidatorList, threshold: u128) -> (r: bool)
    ensures
        r == has_withdrawable_stake(list.validators@, threshold as int),
{
    let n: usize = list.validators.len();
    let mut i: usize = 0;
    while i < n
        invariant
            n == list.validators@.len(),
            i <= n,
            forall|k: int|
                0 <= k < i ==> !((#[trigger] list.validators@[k]).transient_stake_lamports > 0
                    || list.validators@[k].active_stake_lamports > threshold),
        decreases n - i,
    {
        if list.validators[i].transient_stake_lamports > 0
            || list.validators[i].active_stake_lamports as u128 > threshold {
            return true;
        }
        i += 1;
    }
    false
}

/// Withdraws stake against `pool_tokens`, from a validator or from the
/// reserve.
///
/// The outcome is what `stake_withdrawal` says. On success the lamports
/// paid leave the pool's value and the tokens burnt leave its supply. From
/// a validator, the lamports leave its active stake; if that is all of it,
/// the validator is made ready for removal and the pool drops every
/// preference for it; a preferred withdraw validator that is not in use is
/// dropped in any case. From the reserve, the lamports leave the reserve,
/// which keeps its minimum. On failure nothing has changed.
pub fn withdraw_stake(
    pool: &mut StakePool,
    list: &mut ValidatorList,
    reserve: &mut Reserve,
    source: &WithdrawSource,
    pool_tokens: u64,
    minimum_stake_lamports: u64,
) -> (r: Result<WithdrawReceipt, StakePoolError>)
    ensures
        r == stake_withdrawal(
            *old(pool),
            old(list).validators@,
            *old(reserve),
            *source,
            pool_tokens,
            minimum_stake_lamports,
        ),
        r is Err ==> *final(pool) == *old(pool) && *final(list) == *old(list) && *final(reserve)
            == *old(reserve),
        r matches Ok(receipt) ==> match *source {
            WithdrawSource::Validator(vote_account) => {
                let entry = entry_of(old(list).validators@, vote_account);
                &&& *final(pool) == pool_after_validator_withdrawal(
                    *old(pool),
                    old(list).validators@,
                    vote_account,
                    receipt,
                )
                &&& final(list).max_validators == old(list).max_validators
                &&& final(list).validators@ == old(list).validators@.update(
                    index_of(old(list).validators@, vote_account),
                    withdrawn_entry(entry, receipt.lamports),
                )
                &&& *final(reserve) == *old(reserve)
            },
            WithdrawSource::Reserve => {
                &&& *final(pool) == (StakePool {
                    total_lamports: (old(pool).total_lamports - receipt.lamports) as u64,
                    pool_token_supply: (old(pool).pool_token_supply
                        - receipt.pool_tokens_burnt) as u64,
                    ..*old(pool)
                })
                &&& *final(list) == *old(list)
                &&& *final(reserve) == (Reserve {
                    lamports: (old(reserve).lamports - receipt.lamports) as u64,
                    ..*old(reserve)
                })
            },
        },
        final(pool).total_lamports - total_stake(final(list).validators@) - final(reserve).lamports
            == old(pool).total_lamports - total_stake(old(list).validators@) - old(
            reserve,
        ).lamports,
        keeps_validators(old(list).validators@, final(list).validators@),
        preferences_are_listed(*old(pool), old(list).validators@) ==> preferences_are_listed(
            *final(pool),
            final(list).validators@,
        ),
        old(list).wf() ==> final(list).wf(),
        old(reserve).wf() ==> final(reserve).wf(),
{
    proof {
        lemma_keeps_validators(list.validators@, list.validators@);
    }
    let worth: u128 = match pool.get_lamports_per_pool_token() {
        Some(worth) => worth as u128,
        None => 0,
    };
    let threshold: u128 = minimum_stake_lamports as u128 + worth;
    let vote_account: Pubkey = match source {
        WithdrawSource::Validator(vote_account) => *vote_account,
        WithdrawSource::Reserve => {
            let receipt = match quote_withdraw(pool, &pool.stake_withdrawal_fee, pool_tokens) {
                Ok(receipt) => receipt,
                Err(e) => {
                    return Err(e);
                },
            };
            if any_withdrawable_stake(list, threshold) {
                return Err(StakePoolError::StakeLamportsNotEqualToMinimum);
            }
            if reserve.lamports < receipt.lamports || reserve.lamports - receipt.lamports
                < reserve.minimum_lamports {
                return Err(StakePoolError::SolWithdrawalTooLarge);
            }
            if receipt.lamports > pool.total_lamports || receipt.pool_tokens_burnt
                > pool.pool_token_supply {
                return Err(StakePoolError::CalculationFailure);
            }
            pool.total_lamports = pool.total_lamports - receipt.lamports;
            pool.pool_token_supply = pool.pool_token_supply - receipt.pool_tokens_burnt;
            reserve.lamports = reserve.lamports - receipt.lamports;
            return Ok(receipt);
        },
    };
    let i: usize = match list.find(&vote_account) {
        Some(i) => i,
        None => {
            return Err(StakePoolError::ValidatorNotFound);
        },
    };
    let entry = list.validators[i];
    if !entry.is_active() {
        return Err(StakePoolError::WrongStakeState);
    }
    let mut routed: StakePool = *pool;
    let preferred: Option<Pubkey> = preferred_validator(
        &mut routed,
        list,
        PreferredValidatorType::Withdraw,
    );
    match preferred {
        Some(p) => {
            if p != vote_account {
                match list.find(&p) {
                    Some(j) => {
                        if list.validators[j].active_stake_lamports as u128 > threshold {
                            return Err(StakePoolError::IncorrectWithdrawVoteAddress);
                        }
                    },
                    None => {},
                }
            }
        },
        None => {},
    }
    let quote = match quote_withdraw(pool, &pool.stake_withdrawal_fee, pool_tokens) {
        Ok(quote) => quote,
        Err(e) => {
            return Err(e);
        },
    };
    let active: u64 = entry.active_stake_lamports;
    let whole: bool = quote.lamports >= active;
    if whole {
        if active == 0 || entry.transient_stake_lamports != 0 || quote.lamports as u128
            > active as u128 + worth {
            return Err(StakePoolError::StakeLamportsNotEqualToMinimum);
        }
    } else if active - quote.lamports < minimum_stake_lamports {
        return Err(StakePoolError::StakeLamportsNotEqualToMinimum);
    }
    let lamports: u64 = if whole {
        active
    } else {
        quote.lamports
    };
    if lamports > pool.total_lamports || quote.pool_tokens_burnt > pool.pool_token_supply {
        return Err(StakePoolError::CalculationFailure);
    }
    let receipt = WithdrawReceipt { lamports, ..quote };
    let left = if whole {
        ValidatorStakeInfo {
            active_stake_lamports: 0,
            status: StakeStatus::ReadyForRemoval,
            ..entry
        }
    } else {
        ValidatorStakeInfo { active_stake_lamports: active - lamports, ..entry }
    };
    proof {
        lemma_total_stake_update(list.validators@, i as int, left);
        lemma_keeps_validators(list.validators@, list.validators@.update(i as int, left));
    }
    routed.total_lamports = pool.total_lamports - lamports;
    routed.pool_token_supply = pool.pool_token_supply - quote.pool_tokens_burnt;
    if whole {
        match routed.preferred_deposit_validator_vote_address {
            Some(p) => {
                if p == vote_account {
                    routed.preferred_deposit_validator_vote_address = None;
                }
            },
            None => {},
        }
        match routed.preferred_withdraw_validator_vote_address {
            Some(p) => {
                if p == vote_account {
                    routed.preferred_withdraw_validator_vote_address = None;
                }
            },
            None => {},
        }
    }
    *pool = routed;
    list.validators[i] = left;
    Ok(receipt)
}

} // verus!
