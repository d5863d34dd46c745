use stake_pool::admin::{initialize, Initialize};
use stake_pool::error::StakePoolError;
use stake_pool::coordinator::cleanup_removed_validator_entries;
use stake_pool::exchange::{
    deposit_sol, deposit_stake, withdraw_sol, withdraw_sol_with_slippage, withdraw_stake,
    DepositReceipt, WithdrawReceipt, WithdrawSource,
};
use stake_pool::pubkey::Pubkey;
use stake_pool::staking::{
    add_validator_to_pool, increase_validator_stake, minimum_stake_lamports,
    set_preferred_validator,
};
use stake_pool::state::{
    Clock, Fee, Lockup, PreferredValidatorType, Reserve, StakePool, StakeStatus, ValidatorList,
};

const MINIMUM_RESERVE_LAMPORTS: u64 = 1_000;
const TEST_STAKE_AMOUNT: u64 = 1_500_000_000;

fn key(n: u8) -> Pubkey {
    Pubkey::new_from_array([n; 32])
}

/// A pool without fees whose reserve holds `reserve_lamports` and whose
/// `validators` validators hold `TEST_STAKE_AMOUNT` each, with one pool
/// token per lamport.
fn setup(validators: u8, reserve_lamports: u64) -> (StakePool, ValidatorList, Reserve) {
    let accounts = Initialize {
        manager: key(101),
        staker: key(102),
        stake_deposit_authority: key(103),
        stake_withdraw_bump_seed: 255,
        validator_list: key(104),
        reserve_stake: key(105),
        pool_mint: key(106),
        manager_fee_account: key(107),
        token_program: key(108),
        lockup: Lockup { unix_timestamp: 0, epoch: 0, custodian: key(0) },
    };
    let zero = Fee { denominator: 0, numerator: 0 };
    let mut reserve = Reserve::new(
        reserve_lamports + validators as u64 * TEST_STAKE_AMOUNT,
        MINIMUM_RESERVE_LAMPORTS,
    )
    .unwrap();
    let clock = Clock { epoch: 3, epoch_rewards_active: false };
    let (pool, mut list) =
        initialize(&accounts, &reserve, &clock, zero, zero, zero, 0, 10).unwrap();
    for i in 0..validators {
        add_validator_to_pool(&mut list, &mut reserve, &clock, &key(i + 1), 0, TEST_STAKE_AMOUNT)
            .unwrap();
    }
    assert_eq!(reserve.lamports, reserve_lamports);
    (pool, list, reserve)
}

fn held(list: &ValidatorList, reserve: &Reserve) -> u64 {
    reserve.lamports + list.total_stake_lamports().unwrap()
}

#[test]
fn deposit_sol_success() {
    let (mut pool, list, mut reserve) = setup(1, 5_000);
    pool.sol_deposit_fee = Fee { denominator: 100, numerator: 1 };
    pool.sol_referral_fee = 40;
    // two lamports per token
    pool.pool_token_supply = pool.total_lamports / 2;
    let (total, supply) = (pool.total_lamports, pool.pool_token_supply);
    let receipt = deposit_sol(&mut pool, &mut reserve, 1_000).unwrap();
    assert_eq!(
        receipt,
        DepositReceipt { pool_tokens: 495, manager_fee_tokens: 3, referral_fee_tokens: 2 }
    );
    assert_eq!(pool.total_lamports, total + 1_000);
    assert_eq!(pool.pool_token_supply, supply + 500);
    assert_eq!(reserve.lamports, 6_000);
    assert_eq!(pool.total_lamports, held(&list, &reserve));
}

#[test]
fn fail_deposit_sol() {
    let (mut pool, _, mut reserve) = setup(1, 5_000);
    pool.sol_deposit_fee = Fee { denominator: 100, numerator: 1 };
    let (total, supply) = (pool.total_lamports, pool.pool_token_supply);
    assert_eq!(deposit_sol(&mut pool, &mut reserve, 1), Err(StakePoolError::DepositTooSmall));
    assert_eq!(deposit_sol(&mut pool, &mut reserve, 0), Err(StakePoolError::DepositTooSmall));
    assert_eq!(
        deposit_sol(&mut pool, &mut reserve, u64::MAX - total + 1),
        Err(StakePoolError::CalculationFailure)
    );
    assert_eq!((pool.total_lamports, pool.pool_token_supply), (total, supply));
    assert_eq!(reserve.lamports, 5_000);
    // the reserve alone out of range
    let mut big = Reserve { lamports: u64::MAX - 5, minimum_lamports: 0 };
    assert_eq!(deposit_sol(&mut pool, &mut big, 100), Err(StakePoolError::CalculationFailure));
    assert_eq!(big.lamports, u64::MAX - 5);
    // the token supply alone out of range
    pool.total_lamports = 10;
    pool.pool_token_supply = u64::MAX - 10;
    assert_eq!(deposit_sol(&mut pool, &mut reserve, 5), Err(StakePoolError::CalculationFailure));
    assert_eq!((pool.total_lamports, pool.pool_token_supply), (10, u64::MAX - 10));
}

#[test]
fn deposit_stake_success() {
    let (mut pool, mut list, reserve) = setup(2, 5_000);
    pool.stake_deposit_fee = Fee { denominator: 1000, numerator: 5 };
    pool.stake_referral_fee = 50;
    let total = pool.total_lamports;
    let receipt = deposit_stake(&mut pool, &mut list, &key(2), 2_000).unwrap();
    // 0.5% of 2000 tokens are 10, half of them the referrer's
    assert_eq!(
        receipt,
        DepositReceipt { pool_tokens: 1_990, manager_fee_tokens: 5, referral_fee_tokens: 5 }
    );
    assert_eq!(list.validators[1].active_stake_lamports, TEST_STAKE_AMOUNT + 2_000);
    assert_eq!(list.validators[0].active_stake_lamports, TEST_STAKE_AMOUNT);
    assert_eq!(pool.total_lamports, total + 2_000);
    assert_eq!(pool.pool_token_supply, total + 2_000);
    assert_eq!(pool.total_lamports, held(&list, &reserve));
}

#[test]
fn deposit_stake_goes_to_the_preferred_validator() {
    let (mut pool, mut list, _) = setup(2, 5_000);
    pool.preferred_deposit_validator_vote_address = Some(key(1));
    assert_eq!(
        deposit_stake(&mut pool, &mut list, &key(2), 2_000),
        Err(StakePoolError::IncorrectDepositVoteAddress)
    );
    assert_eq!(list.validators[1].active_stake_lamports, TEST_STAKE_AMOUNT);
    deposit_stake(&mut pool, &mut list, &key(1), 2_000).unwrap();
    assert_eq!(pool.preferred_deposit_validator_vote_address, Some(key(1)));
    // a preferred validator that is not in use does not bind, and is dropped
    list.validators[0].status = StakeStatus::DeactivatingValidator;
    deposit_stake(&mut pool, &mut list, &key(2), 2_000).unwrap();
    assert_eq!(pool.preferred_deposit_validator_vote_address, None);
    assert_eq!(list.validators[1].active_stake_lamports, TEST_STAKE_AMOUNT + 2_000);
}

#[test]
fn fail_deposit_stake() {
    let (mut pool, mut list, _) = setup(2, 5_000);
    list.validators[1].status = StakeStatus::DeactivatingTransient;
    pool.preferred_deposit_validator_vote_address = Some(key(9));
    assert_eq!(
        deposit_stake(&mut pool, &mut list, &key(3), 2_000),
        Err(StakePoolError::ValidatorNotFound)
    );
    assert_eq!(
        deposit_stake(&mut pool, &mut list, &key(2), 2_000),
        Err(StakePoolError::WrongStakeState)
    );
    pool.stake_deposit_fee = Fee { denominator: 1, numerator: 1 };
    assert_eq!(
        deposit_stake(&mut pool, &mut list, &key(1), 2_000),
        Err(StakePoolError::DepositTooSmall)
    );
    pool.stake_deposit_fee = Fee { denominator: 0, numerator: 0 };
    list.validators[0].active_stake_lamports = u64::MAX - 1_000;
    pool.total_lamports = 1_000;
    pool.pool_token_supply = 1_000;
    assert_eq!(
        deposit_stake(&mut pool, &mut list, &key(1), 2_000),
        Err(StakePoolError::CalculationFailure)
    );
    // nothing has changed, not even the stale preference
    assert_eq!(pool.preferred_deposit_validator_vote_address, Some(key(9)));
    assert_eq!(list.validators[0].active_stake_lamports, u64::MAX - 1_000);
    assert_eq!((pool.total_lamports, pool.pool_token_supply), (1_000, 1_000));
}

#[test]
fn withdraw_sol_success() {
    let (mut pool, list, mut reserve) = setup(1, TEST_STAKE_AMOUNT);
    pool.sol_withdrawal_fee = Fee { denominator: 1000, numerator: 3 };
    let (total, supply) = (pool.total_lamports, pool.pool_token_supply);
    let pool_tokens = 1_000_000;
    let receipt = withdraw_sol(&mut pool, &mut reserve, pool_tokens).unwrap();
    assert_eq!(
        receipt,
        WithdrawReceipt { lamports: 997_000, pool_tokens_burnt: 997_000, manager_fee_tokens: 3_000 }
    );
    assert_eq!(pool.total_lamports, total - 997_000);
    assert_eq!(pool.pool_token_supply, supply - 997_000);
    assert_eq!(reserve.lamports, TEST_STAKE_AMOUNT - 997_000);
    assert_eq!(pool.total_lamports, held(&list, &reserve));
}

#[test]
fn withdraw_sol_pays_down_to_the_minimum_of_the_reserve() {
    let (mut pool, _, mut reserve) = setup(1, 5_000);
    let (total, supply) = (pool.total_lamports, pool.pool_token_supply);
    // all that the reserve may pay out, and one lamport more
    assert_eq!(
        withdraw_sol(&mut pool, &mut reserve, 5_000 - MINIMUM_RESERVE_LAMPORTS + 1),
        Err(StakePoolError::SolWithdrawalTooLarge)
    );
    assert_eq!(
        withdraw_sol(&mut pool, &mut reserve, TEST_STAKE_AMOUNT),
        Err(StakePoolError::SolWithdrawalTooLarge)
    );
    assert_eq!((pool.total_lamports, pool.pool_token_supply), (total, supply));
    assert_eq!(reserve.lamports, 5_000);
    let receipt =
        withdraw_sol(&mut pool, &mut reserve, 5_000 - MINIMUM_RESERVE_LAMPORTS).unwrap();
    assert_eq!(receipt.lamports, 4_000);
    assert_eq!(reserve.lamports, MINIMUM_RESERVE_LAMPORTS);
}

#[test]
fn fail_withdraw_sol() {
    let (mut pool, _, mut reserve) = setup(1, 5_000);
    pool.sol_withdrawal_fee = Fee { denominator: 1000, numerator: 3 };
    assert_eq!(withdraw_sol(&mut pool, &mut reserve, 0), Err(StakePoolError::WithdrawalTooSmall));
    assert_eq!(withdraw_sol(&mut pool, &mut reserve, 1), Err(StakePoolError::WithdrawalTooSmall));
    // the pool records fewer tokens than are handed in
    pool.sol_withdrawal_fee = Fee { denominator: 0, numerator: 0 };
    pool.total_lamports = 10;
    pool.pool_token_supply = 10;
    assert_eq!(
        withdraw_sol(&mut pool, &mut reserve, 11),
        Err(StakePoolError::CalculationFailure)
    );
    assert_eq!((pool.total_lamports, pool.pool_token_supply), (10, 10));
    assert_eq!(reserve.lamports, 5_000);
}

const STAKE_RENT: u64 = 2_282_880;
const WITHDRAWAL_FEE: Fee = Fee { denominator: 1000, numerator: 3 };

fn from(vote_account: Pubkey) -> WithdrawSource {
    WithdrawSource::Validator(vote_account)
}

/// The least that a validator keeps.
fn minimum() -> u64 {
    minimum_stake_lamports(STAKE_RENT, 1)
}

/// A pool as the withdrawals of the reserve find it: the reserve was created
/// with its rent and its minimum, and `TEST_STAKE_AMOUNT` was deposited into
/// it against as many pool tokens.
fn setup_for_withdraw_sol() -> (StakePool, ValidatorList, Reserve, u64) {
    let (mut pool, list, mut reserve) = setup(0, STAKE_RENT + MINIMUM_RESERVE_LAMPORTS);
    reserve.minimum_lamports = STAKE_RENT + MINIMUM_RESERVE_LAMPORTS;
    pool.sol_withdrawal_fee = WITHDRAWAL_FEE;
    let receipt = deposit_sol(&mut pool, &mut reserve, TEST_STAKE_AMOUNT).unwrap();
    assert_eq!(receipt.pool_tokens, TEST_STAKE_AMOUNT);
    (pool, list, reserve, receipt.pool_tokens)
}

#[test]
fn withdraw_sol_fail_overdraw_reserve() {
    let (mut pool, mut list, mut reserve, _) = setup_for_withdraw_sol();
    let clock = Clock { epoch: 3, epoch_rewards_active: false };
    // add a validator and increase stake to drain the reserve
    reserve.deposit(minimum()).unwrap();
    pool.total_lamports += minimum();
    pool.pool_token_supply += minimum();
    add_validator_to_pool(&mut list, &mut reserve, &clock, &key(1), 0, minimum()).unwrap();
    // the lamports to stake, and the rent of the transient stake account
    increase_validator_stake(
        &mut list,
        &mut reserve,
        &key(1),
        TEST_STAKE_AMOUNT - STAKE_RENT + STAKE_RENT,
        0,
    )
    .unwrap();
    assert_eq!(reserve.lamports, reserve.minimum_lamports);
    let before = (pool.total_lamports, pool.pool_token_supply, reserve);
    // try to withdraw one lamport after fees, will overdraw
    assert_eq!(
        withdraw_sol(&mut pool, &mut reserve, 2),
        Err(StakePoolError::SolWithdrawalTooLarge)
    );
    assert_eq!((pool.total_lamports, pool.pool_token_supply, reserve), before);
}

#[test]
fn success_with_slippage() {
    let (mut pool, _, mut reserve, pool_tokens) = setup_for_withdraw_sol();
    let fee = WITHDRAWAL_FEE.apply(pool_tokens) as u64;
    assert_eq!(fee, 4_500_000);
    let amount_received = pool_tokens - fee;
    let pre_reserve_lamports = reserve.lamports;
    let before = (pool.total_lamports, pool.pool_token_supply);

    assert_eq!(
        withdraw_sol_with_slippage(&mut pool, &mut reserve, pool_tokens, amount_received + 1),
        Err(StakePoolError::ExceededSlippage)
    );
    assert_eq!(reserve.lamports, pre_reserve_lamports);
    assert_eq!((pool.total_lamports, pool.pool_token_supply), before);

    let receipt =
        withdraw_sol_with_slippage(&mut pool, &mut reserve, pool_tokens, amount_received).unwrap();
    assert_eq!(
        receipt,
        WithdrawReceipt {
            lamports: amount_received,
            pool_tokens_burnt: amount_received,
            manager_fee_tokens: fee
        }
    );
    assert_eq!(reserve.lamports, pre_reserve_lamports - amount_received);
}

#[test]
fn slippage_is_checked_before_the_reserve() {
    let (mut pool, _, mut reserve, pool_tokens) = setup_for_withdraw_sol();
    reserve.minimum_lamports = reserve.lamports;
    // the tokens are worth enough, the reserve cannot pay
    assert_eq!(
        withdraw_sol_with_slippage(&mut pool, &mut reserve, pool_tokens, 1),
        Err(StakePoolError::SolWithdrawalTooLarge)
    );
    // the tokens are not worth enough
    assert_eq!(
        withdraw_sol_with_slippage(&mut pool, &mut reserve, pool_tokens, pool_tokens),
        Err(StakePoolError::ExceededSlippage)
    );
    // tokens worth nothing are too few, whatever is asked for
    assert_eq!(
        withdraw_sol_with_slippage(&mut pool, &mut reserve, 0, 0),
        Err(StakePoolError::WithdrawalTooSmall)
    );
    assert_eq!(
        withdraw_sol_with_slippage(&mut pool, &mut reserve, 0, 5),
        Err(StakePoolError::WithdrawalTooSmall)
    );
}

#[test]
fn withdraw_stake_success() {
    let (mut pool, mut list, mut reserve) = setup(2, 5_000);
    pool.stake_withdrawal_fee = WITHDRAWAL_FEE;
    let total = pool.total_lamports;
    let receipt =
        withdraw_stake(&mut pool, &mut list, &mut reserve, &from(key(2)), 1_000_000, minimum())
            .unwrap();
    assert_eq!(
        receipt,
        WithdrawReceipt { lamports: 997_000, pool_tokens_burnt: 997_000, manager_fee_tokens: 3_000 }
    );
    assert_eq!(list.validators[1].active_stake_lamports, TEST_STAKE_AMOUNT - 997_000);
    assert_eq!(list.validators[1].status, StakeStatus::Active);
    assert_eq!(list.validators[0].active_stake_lamports, TEST_STAKE_AMOUNT);
    assert_eq!(pool.total_lamports, total - 997_000);
    assert_eq!(pool.pool_token_supply, total - 997_000);
    assert_eq!(reserve.lamports, 5_000);
    assert_eq!(pool.total_lamports, held(&list, &reserve));
}

#[test]
fn fail_withdraw_stake_below_the_minimum() {
    let (mut pool, mut list, mut reserve) = setup(1, 5_000);
    let minimum = minimum();
    // one lamport under the minimum, and all but one lamport
    for pool_tokens in [TEST_STAKE_AMOUNT - minimum + 1, TEST_STAKE_AMOUNT - 1] {
        assert_eq!(
            withdraw_stake(&mut pool, &mut list, &mut reserve, &from(key(1)), pool_tokens, minimum),
            Err(StakePoolError::StakeLamportsNotEqualToMinimum)
        );
    }
    // more than the stake and what one pool token is worth
    assert_eq!(
        withdraw_stake(
            &mut pool,
            &mut list,
            &mut reserve,
            &from(key(1)),
            TEST_STAKE_AMOUNT + 2,
            minimum
        ),
        Err(StakePoolError::StakeLamportsNotEqualToMinimum)
    );
    assert_eq!(list.validators[0].active_stake_lamports, TEST_STAKE_AMOUNT);
    withdraw_stake(
        &mut pool,
        &mut list,
        &mut reserve,
        &from(key(1)),
        TEST_STAKE_AMOUNT - minimum,
        minimum,
    )
    .unwrap();
    assert_eq!(list.validators[0].active_stake_lamports, minimum);
    assert_eq!(list.validators[0].status, StakeStatus::Active);
}

#[test]
fn fail_remove_validator() {
    let (mut pool, mut list, mut reserve) = setup(1, 5_000);
    pool.stake_withdrawal_fee = WITHDRAWAL_FEE;
    // a little stake was decreased and has settled in the reserve
    let remaining_lamports = TEST_STAKE_AMOUNT / 2;
    list.validators[0].active_stake_lamports = remaining_lamports;
    reserve.deposit(TEST_STAKE_AMOUNT - remaining_lamports).unwrap();
    let before = (pool.total_lamports, pool.pool_token_supply);
    // Withdraw entire account, fail because some stake left: the fee comes
    // off the tokens, so they pay less than the account holds
    assert_eq!(
        withdraw_stake(
            &mut pool,
            &mut list,
            &mut reserve,
            &from(key(1)),
            remaining_lamports,
            minimum()
        ),
        Err(StakePoolError::StakeLamportsNotEqualToMinimum)
    );
    assert_eq!(list.validators[0].active_stake_lamports, remaining_lamports);
    assert_eq!(list.validators[0].status, StakeStatus::Active);
    assert_eq!((pool.total_lamports, pool.pool_token_supply), before);
}

#[test]
fn success_remove_validator() {
    for multiple in [0u64, 5, 11, 29] {
        let (mut pool, mut list, mut reserve) = setup(1, 5_000);
        // make pool tokens very valuable, so it isn't possible to exactly get
        // down to the minimum
        reserve.deposit(TEST_STAKE_AMOUNT * multiple).unwrap();
        pool.total_lamports += TEST_STAKE_AMOUNT * multiple;
        let lamports_per_pool_token = pool.get_lamports_per_pool_token().unwrap();
        assert_eq!(lamports_per_pool_token, multiple + 1);
        // all of the stake was decreased but the minimum and what one pool
        // token is worth, and has settled in the reserve
        let remaining_lamports = minimum() + lamports_per_pool_token;
        reserve.deposit(TEST_STAKE_AMOUNT - remaining_lamports).unwrap();
        list.validators[0].active_stake_lamports = remaining_lamports;
        assert_eq!(pool.total_lamports, held(&list, &reserve));

        let pool_tokens = (remaining_lamports as u128 * pool.pool_token_supply as u128)
            .div_ceil(pool.total_lamports as u128) as u64;
        assert_eq!(pool.calc_pool_tokens_for_withdraw(remaining_lamports), Some(pool_tokens));
        let worth = pool.calc_lamports_withdraw_amount(pool_tokens).unwrap();
        assert!(worth >= remaining_lamports && worth <= remaining_lamports + multiple);
        let (total, supply) = (pool.total_lamports, pool.pool_token_supply);
        let receipt = withdraw_stake(
            &mut pool,
            &mut list,
            &mut reserve,
            &from(key(1)),
            pool_tokens,
            minimum(),
        )
        .unwrap();
        // the whole account is paid out, and no more
        assert_eq!(
            receipt,
            WithdrawReceipt {
                lamports: remaining_lamports,
                pool_tokens_burnt: pool_tokens,
                manager_fee_tokens: 0
            }
        );
        assert_eq!(list.validators[0].status, StakeStatus::ReadyForRemoval);
        assert_eq!(list.validators[0].active_stake_lamports, 0);
        assert_eq!(pool.total_lamports, total - remaining_lamports);
        assert_eq!(pool.pool_token_supply, supply - pool_tokens);
        assert_eq!(pool.total_lamports, held(&list, &reserve));
        // the validator is gone after the cleanup
        cleanup_removed_validator_entries(&mut pool, &mut list);
        assert_eq!(list.find(&key(1)), None);
    }
}

#[test]
fn fail_remove_validator_blocked_by_transient_stake() {
    let (mut pool, mut list, mut reserve) = setup(1, 5_000);
    // a third of the stake is transient
    let decrease_amount = TEST_STAKE_AMOUNT / 3;
    list.validators[0].active_stake_lamports -= decrease_amount;
    list.validators[0].transient_stake_lamports = decrease_amount;
    let active = list.validators[0].active_stake_lamports;
    // everything except rent, and everything
    for pool_tokens in [active - STAKE_RENT, active] {
        let before = list.clone();
        assert_eq!(
            withdraw_stake(&mut pool, &mut list, &mut reserve, &from(key(1)), pool_tokens, minimum()),
            Err(StakePoolError::StakeLamportsNotEqualToMinimum)
        );
        assert_eq!(list.validators[0].status, before.validators[0].status);
        assert_eq!(list.validators[0].active_stake_lamports, active);
        assert_eq!(list.validators[0].transient_stake_lamports, decrease_amount);
    }
    // without the transient stake, everything can go
    list.validators[0].transient_stake_lamports = 0;
    pool.total_lamports -= decrease_amount;
    pool.pool_token_supply -= decrease_amount;
    withdraw_stake(&mut pool, &mut list, &mut reserve, &from(key(1)), active, minimum()).unwrap();
    assert_eq!(list.validators[0].status, StakeStatus::ReadyForRemoval);
}

#[test]
fn success_remove_preferred_validator_resets_preference() {
    let (mut pool, mut list, mut reserve) = setup(1, 5_000);
    pool.stake_withdrawal_fee = WITHDRAWAL_FEE;
    set_preferred_validator(&mut pool, &list, PreferredValidatorType::Withdraw, Some(key(1)))
        .unwrap();
    set_preferred_validator(&mut pool, &list, PreferredValidatorType::Deposit, Some(key(1)))
        .unwrap();
    assert_eq!(pool.preferred_withdraw_validator_vote_address, Some(key(1)));
    assert_eq!(pool.preferred_deposit_validator_vote_address, Some(key(1)));

    // all of the stake except for what one pool token is worth and the
    // minimum was decreased, and has settled in the reserve
    let lamports_per_pool_token = pool.get_lamports_per_pool_token().unwrap();
    let remaining_lamports = minimum() + lamports_per_pool_token;
    reserve.deposit(TEST_STAKE_AMOUNT - remaining_lamports).unwrap();
    list.validators[0].active_stake_lamports = remaining_lamports;
    assert!(remaining_lamports > STAKE_RENT + 1);

    // pool tokens for everything, with the fee on top
    let pool_tokens_post_fee = (remaining_lamports * pool.pool_token_supply)
        .div_ceil(pool.total_lamports);
    let pool_tokens = (pool_tokens_post_fee * 1000).div_ceil(997);
    let receipt = withdraw_stake(
        &mut pool,
        &mut list,
        &mut reserve,
        &from(key(1)),
        pool_tokens,
        minimum(),
    )
    .unwrap();
    assert_eq!(receipt.lamports, remaining_lamports);
    assert_eq!(list.validators[0].status, StakeStatus::ReadyForRemoval);
    assert_eq!(list.validators[0].active_stake_lamports, 0);
    assert_eq!(
        pool.preferred_withdraw_validator_vote_address, None,
        "Preferred withdraw validator should be reset to None"
    );
    assert_eq!(
        pool.preferred_deposit_validator_vote_address, None,
        "Preferred deposit validator should be reset to None"
    );
}

#[test]
fn removal_by_withdrawal_keeps_the_preference_for_another_validator() {
    let (mut pool, mut list, mut reserve) = setup(2, 5_000);
    pool.preferred_deposit_validator_vote_address = Some(key(2));
    pool.preferred_withdraw_validator_vote_address = Some(key(1));
    withdraw_stake(&mut pool, &mut list, &mut reserve, &from(key(1)), TEST_STAKE_AMOUNT, 0)
        .unwrap();
    assert_eq!(list.validators[0].status, StakeStatus::ReadyForRemoval);
    assert_eq!(list.validators[1].status, StakeStatus::Active);
    assert_eq!(pool.preferred_deposit_validator_vote_address, Some(key(2)));
    assert_eq!(pool.preferred_withdraw_validator_vote_address, None);
}

#[test]
fn fail_withdraw_stake() {
    let (mut pool, mut list, mut reserve) = setup(2, 5_000);
    list.validators[1].status = StakeStatus::DeactivatingAll;
    assert_eq!(
        withdraw_stake(&mut pool, &mut list, &mut reserve, &from(key(3)), 1_000, 0),
        Err(StakePoolError::ValidatorNotFound)
    );
    assert_eq!(
        withdraw_stake(&mut pool, &mut list, &mut reserve, &from(key(2)), 1_000, 0),
        Err(StakePoolError::WrongStakeState)
    );
    assert_eq!(
        withdraw_stake(&mut pool, &mut list, &mut reserve, &from(key(1)), 0, 0),
        Err(StakePoolError::WithdrawalTooSmall)
    );
    // a validator without active stake has nothing to take
    list.validators[0].active_stake_lamports = 0;
    assert_eq!(
        withdraw_stake(&mut pool, &mut list, &mut reserve, &from(key(1)), 1, 0),
        Err(StakePoolError::StakeLamportsNotEqualToMinimum)
    );
    list.validators[0].active_stake_lamports = TEST_STAKE_AMOUNT;
    pool.total_lamports = 100;
    pool.pool_token_supply = 100;
    assert_eq!(
        withdraw_stake(&mut pool, &mut list, &mut reserve, &from(key(1)), 101, 0),
        Err(StakePoolError::CalculationFailure)
    );
    assert_eq!(list.validators[0].active_stake_lamports, TEST_STAKE_AMOUNT);
    assert_eq!((pool.total_lamports, pool.pool_token_supply), (100, 100));
}

#[test]
fn success_and_fail_with_preferred_withdraw() {
    let (mut pool, mut list, mut reserve) = setup(2, 5_000);
    pool.preferred_withdraw_validator_vote_address = Some(key(1));
    // preferred is not empty: the withdrawal must come from it
    assert_eq!(
        withdraw_stake(&mut pool, &mut list, &mut reserve, &from(key(2)), 1_000, minimum()),
        Err(StakePoolError::IncorrectWithdrawVoteAddress)
    );
    assert_eq!(list.validators[1].active_stake_lamports, TEST_STAKE_AMOUNT);
    // success from preferred
    withdraw_stake(&mut pool, &mut list, &mut reserve, &from(key(1)), 1_000, minimum()).unwrap();
    assert_eq!(list.validators[0].active_stake_lamports, TEST_STAKE_AMOUNT - 1_000);
    assert_eq!(pool.preferred_withdraw_validator_vote_address, Some(key(1)));
}

#[test]
fn success_with_empty_preferred_withdraw() {
    let (mut pool, mut list, mut reserve) = setup(2, 5_000);
    pool.preferred_withdraw_validator_vote_address = Some(key(1));
    let minimum = minimum();
    // preferred holds no more than the minimum and what one pool token is
    // worth, so another validator will do
    let lamports_per_pool_token = pool.get_lamports_per_pool_token().unwrap();
    assert_eq!(lamports_per_pool_token, 1);
    list.validators[0].active_stake_lamports = minimum + lamports_per_pool_token;
    withdraw_stake(&mut pool, &mut list, &mut reserve, &from(key(2)), 1_000, minimum).unwrap();
    assert_eq!(list.validators[1].active_stake_lamports, TEST_STAKE_AMOUNT - 1_000);
    assert_eq!(pool.preferred_withdraw_validator_vote_address, Some(key(1)));
    // one lamport more and it binds again
    list.validators[0].active_stake_lamports = minimum + lamports_per_pool_token + 1;
    assert_eq!(
        withdraw_stake(&mut pool, &mut list, &mut reserve, &from(key(2)), 1_000, minimum),
        Err(StakePoolError::IncorrectWithdrawVoteAddress)
    );
}

#[test]
fn a_stale_preferred_withdraw_validator_does_not_bind() {
    let (mut pool, mut list, mut reserve) = setup(2, 5_000);
    pool.preferred_withdraw_validator_vote_address = Some(key(9));
    withdraw_stake(&mut pool, &mut list, &mut reserve, &from(key(2)), 1_000, 0).unwrap();
    assert_eq!(pool.preferred_withdraw_validator_vote_address, None);
    pool.preferred_withdraw_validator_vote_address = Some(key(1));
    list.validators[0].status = StakeStatus::DeactivatingTransient;
    withdraw_stake(&mut pool, &mut list, &mut reserve, &from(key(2)), 1_000, 0).unwrap();
    assert_eq!(pool.preferred_withdraw_validator_vote_address, None);
}

#[test]
fn fail_with_reserve() {
    let (mut pool, mut list, mut reserve) = setup(1, 5_000);
    // a little stake was decreased, not all, and has settled in the reserve
    list.validators[0].active_stake_lamports = TEST_STAKE_AMOUNT / 2;
    reserve.deposit(TEST_STAKE_AMOUNT - TEST_STAKE_AMOUNT / 2).unwrap();
    let before = (pool.total_lamports, pool.pool_token_supply, reserve);
    // Withdraw directly from reserve, fail because some stake left
    assert_eq!(
        withdraw_stake(
            &mut pool,
            &mut list,
            &mut reserve,
            &WithdrawSource::Reserve,
            1_000,
            minimum()
        ),
        Err(StakePoolError::StakeLamportsNotEqualToMinimum)
    );
    // transient stake has to be used first, too
    list.validators[0].active_stake_lamports = minimum();
    list.validators[0].transient_stake_lamports = 1;
    assert_eq!(
        withdraw_stake(
            &mut pool,
            &mut list,
            &mut reserve,
            &WithdrawSource::Reserve,
            1_000,
            minimum()
        ),
        Err(StakePoolError::StakeLamportsNotEqualToMinimum)
    );
    assert_eq!((pool.total_lamports, pool.pool_token_supply, reserve), before);
}

#[test]
fn success_with_reserve() {
    let (mut pool, mut list, mut reserve) = setup(1, 5_000);
    pool.stake_withdrawal_fee = WITHDRAWAL_FEE;
    // all of the stake but the minimum was decreased and has settled in the
    // reserve
    list.validators[0].active_stake_lamports = minimum();
    reserve.deposit(TEST_STAKE_AMOUNT - minimum()).unwrap();
    let (total, supply, held_before) = (pool.total_lamports, pool.pool_token_supply, reserve.lamports);
    let receipt = withdraw_stake(
        &mut pool,
        &mut list,
        &mut reserve,
        &WithdrawSource::Reserve,
        1_000_000,
        minimum(),
    )
    .unwrap();
    assert_eq!(
        receipt,
        WithdrawReceipt { lamports: 997_000, pool_tokens_burnt: 997_000, manager_fee_tokens: 3_000 }
    );
    assert_eq!(reserve.lamports, held_before - 997_000);
    assert_eq!(pool.total_lamports, total - 997_000);
    assert_eq!(pool.pool_token_supply, supply - 997_000);
    assert_eq!(list.validators[0].active_stake_lamports, minimum());
    assert_eq!(list.validators[0].status, StakeStatus::Active);
    assert_eq!(pool.total_lamports, held(&list, &reserve));
}

#[test]
fn repeated_small_deposits_and_withdrawals_leak_nothing() {
    let (mut pool, list, mut reserve) = setup(1, 1_000_000);
    // three lamports for two tokens
    pool.pool_token_supply = pool.total_lamports / 3 * 2;
    let mut paid: u64 = 0;
    let mut received: u64 = 0;
    for lamports in 2..200u64 {
        let receipt = deposit_sol(&mut pool, &mut reserve, lamports).unwrap();
        paid += lamports;
        match withdraw_sol(&mut pool, &mut reserve, receipt.pool_tokens) {
            Ok(receipt) => received += receipt.lamports,
            Err(e) => assert_eq!(e, StakePoolError::WithdrawalTooSmall),
        }
        assert_eq!(pool.total_lamports, held(&list, &reserve));
    }
    assert!(received <= paid);
}

#[test]
fn withdraw_edge_cases_fail_overdraw_reserve() {
    // Initialize stake pool with minimal reserve
    let reserve_lamports = STAKE_RENT + MINIMUM_RESERVE_LAMPORTS;
    let (mut pool, mut list, mut reserve) = setup(0, reserve_lamports);
    reserve.minimum_lamports = reserve_lamports;

    // Deposit 5 SOL into the pool (this will mint pool tokens to the user)
    let deposit_amount = 5_000_000_000;
    let user_pool_tokens = deposit_sol(&mut pool, &mut reserve, deposit_amount).unwrap().pool_tokens;

    // Add a validator to the pool
    let clock = Clock { epoch: 3, epoch_rewards_active: false };
    add_validator_to_pool(&mut list, &mut reserve, &clock, &key(1), 0, minimum()).unwrap();

    let withdrawable_amount = reserve.lamports;
    // how many pool tokens we need to withdraw the full withdrawable reserve amount
    let pool_tokens_needed = pool.calc_pool_tokens_for_deposit(withdrawable_amount).unwrap();
    let pool_tokens_to_use = pool_tokens_needed.min(user_pool_tokens);
    let before = (pool.total_lamports, pool.pool_token_supply, reserve);

    assert_eq!(
        withdraw_stake(
            &mut pool,
            &mut list,
            &mut reserve,
            &WithdrawSource::Reserve,
            pool_tokens_to_use,
            minimum()
        ),
        Err(StakePoolError::SolWithdrawalTooLarge)
    );
    assert_eq!((pool.total_lamports, pool.pool_token_supply, reserve), before);
    assert_eq!(list.validators[0].active_stake_lamports, minimum());
}

#[test]
fn success_with_small_preferred_withdraw() {
    let (mut pool, mut list, mut reserve) = setup(1, 5_000);
    let tokens_to_burn = pool.pool_token_supply / 4;
    // make pool tokens very valuable, so it isn't possible to exactly get down
    // to the minimum
    reserve.deposit(pool.total_lamports * 5).unwrap();
    pool.total_lamports *= 6;
    assert_eq!(pool.get_lamports_per_pool_token(), Some(6));

    // a preferred validator with a tiny bit of stake above the minimum, less
    // than lamports per pool token
    let clock = Clock { epoch: 3, epoch_rewards_active: false };
    add_validator_to_pool(&mut list, &mut reserve, &clock, &key(2), 0, minimum()).unwrap();
    set_preferred_validator(&mut pool, &list, PreferredValidatorType::Withdraw, Some(key(2)))
        .unwrap();
    list.validators[1].active_stake_lamports += 1;
    pool.total_lamports += 1;
    assert_eq!(pool.total_lamports, held(&list, &reserve));

    // withdraw from preferred fails
    assert_eq!(
        withdraw_stake(&mut pool, &mut list, &mut reserve, &from(key(2)), 1, minimum()),
        Err(StakePoolError::StakeLamportsNotEqualToMinimum)
    );
    // preferred is empty, withdrawing from non-preferred works
    let receipt = withdraw_stake(
        &mut pool,
        &mut list,
        &mut reserve,
        &from(key(1)),
        tokens_to_burn / 6,
        minimum(),
    )
    .unwrap();
    assert_eq!(receipt.pool_tokens_burnt, tokens_to_burn / 6);
    assert_eq!(list.validators[0].active_stake_lamports, TEST_STAKE_AMOUNT - receipt.lamports);
    assert_eq!(pool.preferred_withdraw_validator_vote_address, Some(key(2)));
    assert_eq!(pool.total_lamports, held(&list, &reserve));
}
