use stake_pool::admin::{initialize, Initialize};
use stake_pool::coordinator::cleanup_removed_validator_entries;
use stake_pool::error::StakePoolError;
use stake_pool::pubkey::Pubkey;
use stake_pool::staking::{
    add_validator_to_pool, decrease_validator_stake, increase_validator_stake, minimum_delegation,
    minimum_stake_lamports, remove_validator_from_pool, MINIMUM_ACTIVE_STAKE,
};
use stake_pool::state::{
    Clock, DecreaseTarget, Fee, Lockup, Reserve, StakePool, StakeStatus, ValidatorList,
    ValidatorStakeInfo,
};

fn key(n: u8) -> Pubkey {
    Pubkey::new_from_array([n; 32])
}

fn clock(epoch: u64) -> Clock {
    Clock { epoch, epoch_rewards_active: false }
}

fn entry(vote: Pubkey, status: StakeStatus, active: u64, transient: u64) -> ValidatorStakeInfo {
    ValidatorStakeInfo {
        status,
        vote_account_address: vote,
        active_stake_lamports: active,
        transient_stake_lamports: transient,
        last_update_epoch: 3,
        transient_seed_suffix: 0,
        validator_seed_suffix: 0,
        pending_decrease: None,
    }
}

fn list_of(entries: Vec<ValidatorStakeInfo>) -> ValidatorList {
    ValidatorList::from_entries(10, entries).unwrap()
}

fn same(a: &ValidatorStakeInfo, b: &ValidatorStakeInfo) -> bool {
    a.status == b.status
        && a.vote_account_address == b.vote_account_address
        && a.active_stake_lamports == b.active_stake_lamports
        && a.transient_stake_lamports == b.transient_stake_lamports
        && a.last_update_epoch == b.last_update_epoch
        && a.transient_seed_suffix == b.transient_seed_suffix
        && a.validator_seed_suffix == b.validator_seed_suffix
        && a.pending_decrease == b.pending_decrease
}

fn same_lists(a: &ValidatorList, b: &ValidatorList) -> bool {
    a.max_validators == b.max_validators
        && a.validators.len() == b.validators.len()
        && a.validators.iter().zip(b.validators.iter()).all(|(x, y)| same(x, y))
}

const STAKE_RENT: u64 = 2_282_880;
const MINIMUM_RESERVE_LAMPORTS: u64 = 0;

/// A reserve that can fund `num_validators` validators and keep its minimum,
/// and the stake that each is funded with.
fn funded(num_validators: u64) -> (Reserve, u64) {
    let current_minimum_delegation = 1;
    let minimum_for_validator = minimum_stake_lamports(STAKE_RENT, current_minimum_delegation);
    assert_eq!(minimum_for_validator, STAKE_RENT + MINIMUM_ACTIVE_STAKE);
    let reserve = Reserve::new(
        STAKE_RENT + MINIMUM_RESERVE_LAMPORTS + num_validators * minimum_for_validator,
        STAKE_RENT + MINIMUM_RESERVE_LAMPORTS,
    )
    .unwrap();
    (reserve, minimum_for_validator)
}

#[test]
fn vsa_add_success() {
    let (mut reserve, minimum_for_validator) = funded(1);
    let before = reserve.lamports;
    let mut list = ValidatorList::new(3);
    add_validator_to_pool(&mut list, &mut reserve, &clock(0), &key(1), 0, minimum_for_validator)
        .unwrap();
    assert_eq!(list.max_validators, 3);
    assert_eq!(list.len(), 1);
    assert!(same(
        &list.validators[0],
        &ValidatorStakeInfo {
            status: StakeStatus::Active,
            vote_account_address: key(1),
            last_update_epoch: 0,
            active_stake_lamports: STAKE_RENT + MINIMUM_ACTIVE_STAKE,
            transient_stake_lamports: 0,
            transient_seed_suffix: 0,
            validator_seed_suffix: 0,
            pending_decrease: None,
        }
    ));
    // the stake came out of the reserve: the pool holds what it held
    assert_eq!(reserve.lamports, before - minimum_for_validator);
    assert_eq!(reserve.lamports + list.total_stake_lamports().unwrap(), before);
    assert_eq!(reserve.lamports, reserve.minimum_lamports);
}

#[test]
fn fail_with_not_enough_reserve_lamports() {
    let (mut reserve, minimum_for_validator) = funded(0);
    let before = reserve;
    let mut list = ValidatorList::new(3);
    let error =
        add_validator_to_pool(&mut list, &mut reserve, &clock(0), &key(1), 0, minimum_for_validator)
            .unwrap_err();
    assert_eq!(error, StakePoolError::InsufficientFunds);
    assert_eq!(list.len(), 0);
    assert_eq!(reserve, before);
}

#[test]
fn fail_with_draining_reserve() {
    // exactly enough for a validator, and nothing for the reserve to keep
    let (_, minimum_for_validator) = funded(0);
    let mut reserve = Reserve::new(
        STAKE_RENT + minimum_delegation(1),
        STAKE_RENT + MINIMUM_RESERVE_LAMPORTS,
    )
    .unwrap();
    let before = reserve;
    let mut list = ValidatorList::new(3);
    let error =
        add_validator_to_pool(&mut list, &mut reserve, &clock(0), &key(1), 0, minimum_for_validator)
            .unwrap_err();
    assert_eq!(error, StakePoolError::InsufficientFunds);
    assert_eq!(list.len(), 0);
    assert_eq!(reserve, before);
    // one lamport short of the minimum is refused, the minimum itself is kept
    let mut reserve = Reserve { lamports: 1_000, minimum_lamports: 400 };
    assert_eq!(
        add_validator_to_pool(&mut list, &mut reserve, &clock(0), &key(1), 0, 601),
        Err(StakePoolError::InsufficientFunds)
    );
    assert_eq!(add_validator_to_pool(&mut list, &mut reserve, &clock(0), &key(1), 0, 600), Ok(()));
    assert_eq!(reserve, Reserve { lamports: 400, minimum_lamports: 400 });
}

#[test]
fn minimum_stake() {
    assert_eq!(MINIMUM_ACTIVE_STAKE, 1_000_000);
    assert_eq!(minimum_delegation(0), 1_000_000);
    assert_eq!(minimum_delegation(1_000_000), 1_000_000);
    assert_eq!(minimum_delegation(1_000_001), 1_000_001);
    assert_eq!(minimum_stake_lamports(2_282_880, 1), 3_282_880);
    assert_eq!(minimum_stake_lamports(2_282_880, 5_000_000), 7_282_880);
    assert_eq!(minimum_stake_lamports(u64::MAX, 1), u64::MAX);
    assert_eq!(minimum_stake_lamports(1, u64::MAX), u64::MAX);
}

#[test]
fn add_validator_creates_an_active_entry() {
    let mut reserve = Reserve { lamports: 900, minimum_lamports: 0 };
    let mut list = ValidatorList::new(3);
    assert_eq!(list.len(), 0);
    assert!(list.is_valid());
    add_validator_to_pool(&mut list, &mut reserve, &clock(7), &key(1), 42, 500).unwrap();
    assert_eq!(list.len(), 1);
    assert!(same(
        &list.validators[0],
        &ValidatorStakeInfo {
            status: StakeStatus::Active,
            vote_account_address: key(1),
            active_stake_lamports: 500,
            transient_stake_lamports: 0,
            last_update_epoch: 7,
            transient_seed_suffix: 0,
            validator_seed_suffix: 42,
            pending_decrease: None,
        }
    ));
    add_validator_to_pool(&mut list, &mut reserve, &clock(8), &key(2), 0, 0).unwrap();
    assert_eq!(reserve.lamports, 400);
    assert_eq!(list.validators[0].vote_account_address, key(1));
    assert_eq!(list.validators[1].vote_account_address, key(2));
    assert_eq!(list.validators[1].last_update_epoch, 8);
    assert_eq!(list.validators[1].active_stake_lamports, 0);
    assert_eq!(list.max_validators, 3);
    assert!(list.is_valid());
    assert!(list.is_updated(7));
    assert!(!list.is_updated(8));
}

#[test]
fn fail_double_add() {
    let mut reserve = Reserve { lamports: 900, minimum_lamports: 0 };
    let mut list = ValidatorList::new(3);
    add_validator_to_pool(&mut list, &mut reserve, &clock(7), &key(1), 0, 100).unwrap();
    add_validator_to_pool(&mut list, &mut reserve, &clock(7), &key(2), 0, 100).unwrap();
    let before = list.clone();
    for vote in [key(1), key(2)] {
        let error =
            add_validator_to_pool(&mut list, &mut reserve, &clock(7), &vote, 1, 100).unwrap_err();
        assert_eq!(error, StakePoolError::ValidatorAlreadyAdded);
        // a validator that is there already is reported before a short reserve
        let error =
            add_validator_to_pool(&mut list, &mut reserve, &clock(7), &vote, 1, 9_000).unwrap_err();
        assert_eq!(error, StakePoolError::ValidatorAlreadyAdded);
    }
    assert!(same_lists(&list, &before));
    assert_eq!(reserve.lamports, 700);
}

#[test]
fn fail_add_too_many_validator_stake_accounts() {
    let mut reserve = Reserve { lamports: 900, minimum_lamports: 0 };
    let mut list = ValidatorList::new(1);
    add_validator_to_pool(&mut list, &mut reserve, &clock(7), &key(1), 0, 100).unwrap();
    let error =
        add_validator_to_pool(&mut list, &mut reserve, &clock(7), &key(2), 0, 100).unwrap_err();
    assert_eq!(error, StakePoolError::ValidatorListFull);
    // a full list is reported before a validator that is there already
    let error =
        add_validator_to_pool(&mut list, &mut reserve, &clock(7), &key(1), 0, 100).unwrap_err();
    assert_eq!(error, StakePoolError::ValidatorListFull);
    assert_eq!(list.len(), 1);
    assert_eq!(reserve.lamports, 800);
    let mut none = ValidatorList::new(0);
    assert_eq!(
        add_validator_to_pool(&mut none, &mut reserve, &clock(7), &key(1), 0, 100),
        Err(StakePoolError::ValidatorListFull)
    );
}

#[test]
fn a_removed_validator_can_be_added_again_after_cleanup() {
    let mut reserve = Reserve { lamports: 900, minimum_lamports: 0 };
    let mut list = list_of(vec![entry(key(1), StakeStatus::ReadyForRemoval, 0, 0)]);
    assert_eq!(
        add_validator_to_pool(&mut list, &mut reserve, &clock(7), &key(1), 0, 100),
        Err(StakePoolError::ValidatorAlreadyAdded)
    );
    let mut pool = pool();
    cleanup_removed_validator_entries(&mut pool, &mut list);
    assert_eq!(list.len(), 0);
    add_validator_to_pool(&mut list, &mut reserve, &clock(7), &key(1), 0, 100).unwrap();
    assert_eq!(list.validators[0].status, StakeStatus::Active);
}

fn pool() -> StakePool {
    let accounts = Initialize {
        manager: key(101),
        staker: key(102),
        stake_deposit_authority: key(103),
        stake_withdraw_bump_seed: 255,
        validator_list: key(104),
        reserve_stake: key(105),
        pool_mint: key(106),
        manager_fee_account: key(107),
        token_program: key(108),
        lockup: Lockup { unix_timestamp: 0, epoch: 0, custodian: key(0) },
    };
    let zero = Fee { denominator: 0, numerator: 0 };
    let reserve = Reserve { lamports: 0, minimum_lamports: 0 };
    initialize(&accounts, &reserve, &clock(3), zero, zero, zero, 0, 10).unwrap().0
}

#[test]
fn from_entries_checks_capacity_and_duplicates() {
    let a = entry(key(1), StakeStatus::Active, 1, 0);
    let b = entry(key(2), StakeStatus::Active, 2, 0);
    let c = entry(key(3), StakeStatus::Active, 3, 0);
    assert!(ValidatorList::from_entries(3, vec![a, b, c]).is_some());
    assert!(ValidatorList::from_entries(2, vec![a, b, c]).is_none());
    assert!(ValidatorList::from_entries(3, vec![a, b, a]).is_none());
    assert!(ValidatorList::from_entries(3, vec![a, a]).is_none());
    assert!(ValidatorList::from_entries(0, vec![]).is_some());
    let twice = ValidatorList { max_validators: 5, validators: vec![b, c, c] };
    assert!(!twice.is_valid());
    let over = ValidatorList { max_validators: 1, validators: vec![b, c] };
    assert!(!over.is_valid());
}

#[test]
fn find_and_totals() {
    let list = list_of(vec![
        entry(key(1), StakeStatus::Active, 10, 1),
        entry(key(2), StakeStatus::DeactivatingTransient, 20, 2),
        entry(key(3), StakeStatus::ReadyForRemoval, 0, 0),
    ]);
    assert_eq!(list.find(&key(1)), Some(0));
    assert_eq!(list.find(&key(3)), Some(2));
    assert_eq!(list.find(&key(4)), None);
    assert!(list.has_active(&key(1)));
    assert!(!list.has_active(&key(2)));
    assert!(!list.has_active(&key(4)));
    assert_eq!(list.total_stake_lamports(), Some(33));
    assert_eq!(ValidatorList::new(4).total_stake_lamports(), Some(0));
    assert_eq!(list.validators[1].stake_lamports(), Some(22));
    assert!(list.validators[0].is_active());
    assert!(!list.validators[1].is_active());
    assert!(list.validators[2].is_removed());
    assert!(!list.validators[0].is_removed());
    assert!(!entry(key(5), StakeStatus::ReadyForRemoval, 0, 1).is_removed());
    assert!(!entry(key(5), StakeStatus::ReadyForRemoval, 1, 0).is_removed());
}

#[test]
fn totals_out_of_range() {
    let list = list_of(vec![
        entry(key(1), StakeStatus::Active, u64::MAX, 0),
        entry(key(2), StakeStatus::Active, 0, 1),
    ]);
    assert_eq!(list.total_stake_lamports(), None);
    assert_eq!(entry(key(1), StakeStatus::Active, u64::MAX, 1).stake_lamports(), None);
    let list = list_of(vec![
        entry(key(1), StakeStatus::Active, u64::MAX - 1, 0),
        entry(key(2), StakeStatus::Active, 0, 1),
    ]);
    assert_eq!(list.total_stake_lamports(), Some(u64::MAX));
}

#[test]
fn remove_validator_begins_deactivation() {
    let mut pool = pool();
    let mut list = list_of(vec![
        entry(key(1), StakeStatus::Active, 10, 0),
        entry(key(2), StakeStatus::DeactivatingTransient, 20, 2),
    ]);
    remove_validator_from_pool(&mut pool, &mut list, &key(1)).unwrap();
    remove_validator_from_pool(&mut pool, &mut list, &key(2)).unwrap();
    assert!(same(&list.validators[0], &entry(key(1), StakeStatus::DeactivatingValidator, 10, 0)));
    assert!(same(&list.validators[1], &entry(key(2), StakeStatus::DeactivatingAll, 20, 2)));
    assert_eq!(list.len(), 2);
}

#[test]
fn fail_remove_validator_with_transient_stake_on_its_way() {
    let mut pool = pool();
    let mut list = list_of(vec![entry(key(1), StakeStatus::Active, 10, 1)]);
    let before = list.clone();
    assert_eq!(
        remove_validator_from_pool(&mut pool, &mut list, &key(1)),
        Err(StakePoolError::WrongStakeState)
    );
    assert!(same_lists(&list, &before));
}

#[test]
fn fail_remove_validator_that_is_leaving_or_unknown() {
    let mut pool = pool();
    pool.preferred_deposit_validator_vote_address = Some(key(1));
    for status in [
        StakeStatus::DeactivatingValidator,
        StakeStatus::DeactivatingAll,
        StakeStatus::ReadyForRemoval,
    ] {
        let mut list = list_of(vec![entry(key(1), status, 10, 0)]);
        assert_eq!(
            remove_validator_from_pool(&mut pool, &mut list, &key(1)),
            Err(StakePoolError::WrongStakeState)
        );
        assert_eq!(list.validators[0].status, status);
        assert_eq!(
            remove_validator_from_pool(&mut pool, &mut list, &key(2)),
            Err(StakePoolError::ValidatorNotFound)
        );
    }
    assert_eq!(pool.preferred_deposit_validator_vote_address, Some(key(1)));
}

#[test]
fn increase_moves_lamports_from_the_reserve_to_the_transient_stake() {
    let mut list = list_of(vec![
        entry(key(1), StakeStatus::Active, 10, 0),
        entry(key(2), StakeStatus::Active, 20, 5),
    ]);
    let mut reserve = Reserve::new(1_000, 100).unwrap();
    increase_validator_stake(&mut list, &mut reserve, &key(2), 300, 77).unwrap();
    assert_eq!(reserve, Reserve { lamports: 700, minimum_lamports: 100 });
    let mut expected = entry(key(2), StakeStatus::Active, 20, 305);
    expected.transient_seed_suffix = 77;
    assert!(same(&list.validators[1], &expected));
    assert!(same(&list.validators[0], &entry(key(1), StakeStatus::Active, 10, 0)));
    // what the pool holds has not changed
    assert_eq!(reserve.lamports + list.total_stake_lamports().unwrap(), 1_000 + 35);
    // down to the minimum, and no further
    increase_validator_stake(&mut list, &mut reserve, &key(1), 600, 1).unwrap();
    assert_eq!(reserve.lamports, 100);
    assert_eq!(reserve.available(), 0);
    assert_eq!(
        increase_validator_stake(&mut list, &mut reserve, &key(1), 1, 1),
        Err(StakePoolError::InsufficientFunds)
    );
}

#[test]
fn fail_increase() {
    let mut list = list_of(vec![
        entry(key(1), StakeStatus::Active, 10, u64::MAX - 5),
        entry(key(2), StakeStatus::DeactivatingTransient, 20, 5),
        entry(key(3), StakeStatus::DeactivatingValidator, 20, 0),
        entry(key(4), StakeStatus::DeactivatingAll, 20, 5),
        entry(key(5), StakeStatus::ReadyForRemoval, 0, 0),
    ]);
    let before = list.clone();
    let mut reserve = Reserve::new(1_000, 100).unwrap();
    assert_eq!(
        increase_validator_stake(&mut list, &mut reserve, &key(9), 1, 0),
        Err(StakePoolError::ValidatorNotFound)
    );
    for vote in [key(2), key(3), key(4), key(5)] {
        assert_eq!(
            increase_validator_stake(&mut list, &mut reserve, &vote, 1, 0),
            Err(StakePoolError::WrongStakeState)
        );
    }
    assert_eq!(
        increase_validator_stake(&mut list, &mut reserve, &key(1), 901, 0),
        Err(StakePoolError::InsufficientFunds)
    );
    assert_eq!(
        increase_validator_stake(&mut list, &mut reserve, &key(1), 6, 0),
        Err(StakePoolError::CalculationFailure)
    );
    // a wrong state is reported before a short reserve
    assert_eq!(
        increase_validator_stake(&mut list, &mut reserve, &key(2), 5_000, 0),
        Err(StakePoolError::WrongStakeState)
    );
    assert!(same_lists(&list, &before));
    assert_eq!(reserve, Reserve { lamports: 1_000, minimum_lamports: 100 });
    increase_validator_stake(&mut list, &mut reserve, &key(1), 5, 0).unwrap();
    assert_eq!(list.validators[0].transient_stake_lamports, u64::MAX);
}

#[test]
fn decrease_moves_active_stake_to_the_transient_stake() {
    let mut list = list_of(vec![
        entry(key(1), StakeStatus::Active, 10, 0),
        entry(key(2), StakeStatus::Active, 20, 5),
    ]);
    decrease_validator_stake(&mut list, &key(1), 4, 9, DecreaseTarget::Reserve).unwrap();
    decrease_validator_stake(&mut list, &key(2), 20, 8, DecreaseTarget::Active).unwrap();
    let mut first = entry(key(1), StakeStatus::DeactivatingTransient, 6, 4);
    first.transient_seed_suffix = 9;
    first.pending_decrease = Some(DecreaseTarget::Reserve);
    let mut second = entry(key(2), StakeStatus::DeactivatingTransient, 0, 25);
    second.transient_seed_suffix = 8;
    second.pending_decrease = Some(DecreaseTarget::Active);
    assert!(same(&list.validators[0], &first));
    assert!(same(&list.validators[1], &second));
    assert_eq!(list.total_stake_lamports(), Some(35));
}

#[test]
fn fail_decrease() {
    let mut list = list_of(vec![
        entry(key(1), StakeStatus::Active, 10, u64::MAX - 5),
        entry(key(2), StakeStatus::DeactivatingTransient, 20, 5),
        entry(key(3), StakeStatus::DeactivatingValidator, 20, 0),
        entry(key(4), StakeStatus::DeactivatingAll, 20, 5),
        entry(key(5), StakeStatus::ReadyForRemoval, 0, 0),
    ]);
    let before = list.clone();
    let target = DecreaseTarget::Reserve;
    assert_eq!(
        decrease_validator_stake(&mut list, &key(9), 1, 0, target),
        Err(StakePoolError::ValidatorNotFound)
    );
    for vote in [key(2), key(3), key(4), key(5)] {
        assert_eq!(
            decrease_validator_stake(&mut list, &vote, 1, 0, target),
            Err(StakePoolError::WrongStakeState)
        );
    }
    assert_eq!(
        decrease_validator_stake(&mut list, &key(1), 11, 0, target),
        Err(StakePoolError::InsufficientActiveStake)
    );
    assert_eq!(
        decrease_validator_stake(&mut list, &key(1), 6, 0, target),
        Err(StakePoolError::CalculationFailure)
    );
    assert!(same_lists(&list, &before));
    // a second decrease has to wait for the first to settle
    decrease_validator_stake(&mut list, &key(1), 5, 0, target).unwrap();
    assert_eq!(
        decrease_validator_stake(&mut list, &key(1), 1, 0, target),
        Err(StakePoolError::WrongStakeState)
    );
}

#[test]
fn reserve_keeps_its_minimum() {
    assert_eq!(Reserve::new(99, 100), None);
    let mut reserve = Reserve::new(100, 100).unwrap();
    assert_eq!(reserve.available(), 0);
    assert_eq!(reserve.withdraw(1), Err(StakePoolError::InsufficientFunds));
    assert_eq!(reserve.withdraw(0), Ok(()));
    reserve.deposit(50).unwrap();
    assert_eq!(reserve.available(), 50);
    assert_eq!(reserve.withdraw(51), Err(StakePoolError::InsufficientFunds));
    assert_eq!(reserve, Reserve { lamports: 150, minimum_lamports: 100 });
    reserve.withdraw(50).unwrap();
    assert_eq!(reserve, Reserve { lamports: 100, minimum_lamports: 100 });
    assert_eq!(reserve.deposit(u64::MAX - 99), Err(StakePoolError::CalculationFailure));
    assert_eq!(reserve.lamports, 100);
    reserve.deposit(u64::MAX - 100).unwrap();
    assert_eq!(reserve.lamports, u64::MAX);
    // a reserve under its minimum lets nothing out, not even nothing
    let mut short = Reserve { lamports: 5, minimum_lamports: 10 };
    assert_eq!(short.available(), 0);
    assert_eq!(short.withdraw(0), Err(StakePoolError::InsufficientFunds));
}
