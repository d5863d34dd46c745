//! The validator list: an ordered collection of entries, at most one per
//! validator, with a fixed capacity.

use crate::pubkey::Pubkey;
use crate::state::{StakeStatus, ValidatorList, ValidatorStakeInfo};
use vstd::prelude::*;

verus! {

/// Lamports that the entry attributes to its validator.
pub open spec fn stake_of(entry: ValidatorStakeInfo) -> int {
    entry.active_stake_lamports + entry.transient_stake_lamports
}

/// Lamports that the entries attribute to their validators, all together.
pub open spec fn total_stake(entries: Seq<ValidatorStakeInfo>) -> int
    decreases entries.len(),
{
    if entries.len() == 0 {
        0
    } else {
        total_stake(entries.drop_last()) + stake_of(entries.last())
    }
}

/// Whether some entry is the validator's.
pub open spec fn has_validator(entries: Seq<ValidatorStakeInfo>, vote_account: Pubkey) -> bool {
    exists|i: int| 0 <= i < entries.len() && (#[trigger] entries[i]).vote_account_address == vote_account
}

/// Whether the entry at `i` is the first of the validator's.
pub open spec fn is_first_entry(entries: Seq<ValidatorStakeInfo>, vote_account: Pubkey, i: int) -> bool {
    &&& 0 <= i < entries.len()
    &&& entries[i].vote_account_address == vote_account
    &&& forall|j: int| 0 <= j < i ==> (#[trigger] entries[j]).vote_account_address != vote_account
}

/// The place of the validator's entry, where there is one: of the first, if
/// a list that is not well formed holds several.
pub open spec fn index_of(entries: Seq<ValidatorStakeInfo>, vote_account: Pubkey) -> int {
    choose|i: int| is_first_entry(entries, vote_account, i)
}

/// The validator's entry, where there is one.
pub open spec fn entry_of(entries: Seq<ValidatorStakeInfo>, vote_account: Pubkey) -> ValidatorStakeInfo {
    entries[index_of(entries, vote_account)]
}

/// Whether every validator with an entry in `before` has one in `after`.
pub open spec fn keeps_validators(
    before: Seq<ValidatorStakeInfo>,
    after: Seq<ValidatorStakeInfo>,
) -> bool {
    forall|vote_account: Pubkey| #[trigger]
        has_validator(before, vote_account) ==> has_validator(after, vote_account)
}

/// Whether no validator has two entries.
pub open spec fn distinct_validators(entries: Seq<ValidatorStakeInfo>) -> bool {
    forall|i: int, j: int|
        0 <= i < j < entries.len() ==> (#[trigger] entries[i]).vote_account_address != (
        #[trigger] entries[j]).vote_account_address
}

/// Whether the validator has an entry and is in use.
pub open spec fn has_active_validator(entries: Seq<ValidatorStakeInfo>, vote_account: Pubkey) -> bool {
    exists|i: int|
        0 <= i < entries.len() && (#[trigger] entries[i]).vote_account_address == vote_account
            && entries[i].status is Active
}

/// Whether every entry has been reconciled for `epoch`.
pub open spec fn all_updated(entries: Seq<ValidatorStakeInfo>, epoch: u64) -> bool {
    forall|i: int| 0 <= i < entries.len() ==> (#[trigger] entries[i]).last_update_epoch >= epoch
}

/// The total of no entries is zero, and a further entry adds its stake.
pub proof fn lemma_total_stake_push(entries: Seq<ValidatorStakeInfo>, entry: ValidatorStakeInfo)
    ensures
        total_stake(Seq::<ValidatorStakeInfo>::empty()) == 0,
        total_stake(entries.push(entry)) == total_stake(entries) + stake_of(entry),
        total_stake(entries) >= 0,
    decreases entries.len(),
{
    assert(entries.push(entry).drop_last() =~= entries);
    if entries.len() > 0 {
        lemma_total_stake_push(entries.drop_last(), entries.last());
    }
}

/// Replacing one entry changes the total by the difference of the two
/// stakes.
pub proof fn lemma_total_stake_update(
    entries: Seq<ValidatorStakeInfo>,
    i: int,
    entry: ValidatorStakeInfo,
)
    requires
        0 <= i < entries.len(),
    ensures
        total_stake(entries.update(i, entry)) == total_stake(entries) - stake_of(entries[i])
            + stake_of(entry),
    decreases entries.len(),
{
    let updated = entries.update(i, entry);
    if i == entries.len() - 1 {
        assert(updated.drop_last() =~= entries.drop_last());
    } else {
        lemma_total_stake_update(entries.drop_last(), i, entry);
        assert(updated.drop_last() =~= entries.drop_last().update(i, entry));
    }
}

/// The total of a prefix grows with the prefix, and every entry's stake is
/// within the total.
pub proof fn lemma_total_stake_take(entries: Seq<ValidatorStakeInfo>, n: int)
    requires
        0 <= n < entries.len(),
    ensures
        total_stake(entries.take(n + 1)) == total_stake(entries.take(n)) + stake_of(entries[n]),
        total_stake(entries.take(n + 1)) <= total_stake(entries),
    decreases entries.len() - n,
{
    assert(entries.take(n + 1).drop_last() =~= entries.take(n));
    if n + 1 < entries.len() {
        lemma_total_stake_take(entries, n + 1);
        lemma_total_stake_push(entries.take(n + 1), entries[n + 1]);
    } else {
        assert(entries.take(n + 1) =~= entries);
    }
}

/// The total of two runs of entries, one after the other, is the sum of
/// their totals.
pub proof fn lemma_total_stake_add(first: Seq<ValidatorStakeInfo>, second: Seq<ValidatorStakeInfo>)
    ensures
        total_stake(first + second) == total_stake(first) + total_stake(second),
        total_stake(first) >= 0,
        total_stake(second) >= 0,
    decreases second.len(),
{
    lemma_total_stake_push(first, first[0]);
    lemma_total_stake_push(second, second[0]);
    if second.len() == 0 {
        assert(first + second =~= first);
    } else {
        lemma_total_stake_add(first, second.drop_last());
        assert((first + second).drop_last() =~= first + second.drop_last());
    }
}

/// The total of a run of entries within others is within the total of all.
pub proof fn lemma_total_stake_subrange(entries: Seq<ValidatorStakeInfo>, from: int, to: int)
    requires
        0 <= from <= to <= entries.len(),
    ensures
        0 <= total_stake(entries.subrange(from, to)) <= total_stake(entries),
        total_stake(entries.take(to)) == total_stake(entries.take(from)) + total_stake(
            entries.subrange(from, to),
        ),
{
    let head = entries.take(from);
    let run = entries.subrange(from, to);
    let tail = entries.subrange(to, entries.len() as int);
    assert(head + run =~= entries.take(to));
    assert(entries.take(to) + tail =~= entries);
    lemma_total_stake_add(head, run);
    lemma_total_stake_add(entries.take(to), tail);
}

/// Entries that keep their places and their validators keep every
/// validator, whatever else changes and whatever is added behind them.
pub proof fn lemma_keeps_validators(
    before: Seq<ValidatorStakeInfo>,
    after: Seq<ValidatorStakeInfo>,
)
    requires
        before.len() <= after.len(),
        forall|i: int|
            0 <= i < before.len() ==> (#[trigger] after[i]).vote_account_address
                == before[i].vote_account_address,
    ensures
        keeps_validators(before, after),
{
    assert forall|vote_account: Pubkey| #[trigger]
        has_validator(before, vote_account) implies has_validator(after, vote_account) by {
        let i = choose|i: int|
            0 <= i < before.len() && (#[trigger] before[i]).vote_account_address == vote_account;
        assert(after[i].vote_account_address == vote_account);
    }
}

/// The first entry of a validator is the one that `index_of` names.
pub proof fn lemma_index_of(entries: Seq<ValidatorStakeInfo>, vote_account: Pubkey, i: int)
    requires
        is_first_entry(entries, vote_account, i),
    ensures
        has_validator(entries, vote_account),
        index_of(entries, vote_account) == i,
{
    let k = index_of(entries, vote_account);
    assert(is_first_entry(entries, vote_account, k));
    if k < i {
        assert(entries[k].vote_account_address != vote_account);
    } else if i < k {
        assert(entries[i].vote_account_address != vote_account);
    }
}

impl ValidatorStakeInfo {
    /// Lamports attributed to the validator, or `None` if they leave the
    /// 64-bit range.
    pub fn stake_lamports(&self) -> (r: Option<u64>)
        ensures
            r == if stake_of(*self) <= u64::MAX {
                Some(stake_of(*self) as u64)
            } else {
                None
            },
    {
        self.active_stake_lamports.checked_add(self.transient_stake_lamports)
    }

    /// Whether the entry may be deleted: it is ready for removal and
    /// attributes no lamports to the validator.
    pub open spec fn removable(&self) -> bool {
        self.status is ReadyForRemoval && self.active_stake_lamports == 0
            && self.transient_stake_lamports == 0
    }

    /// Whether the entry may be deleted. An entry that still attributes
    /// lamports to its validator may not, whatever its status.
    pub fn is_removed(&self) -> (r: bool)
        ensures
            r == self.removable(),
    {
        match self.status {
            StakeStatus::ReadyForRemoval => self.active_stake_lamports == 0
                && self.transient_stake_lamports == 0,
            _ => false,
        }
    }

    /// Whether the validator is in use.
    pub fn is_active(&self) -> (r: bool)
        ensures
            r == (self.status is Active),
    {
        match self.status {
            StakeStatus::Active => true,
            _ => false,
        }
    }
}

impl ValidatorList {
    /// Whether the list is within its capacity and holds no validator twice.
    pub open spec fn wf(&self) -> bool {
        &&& self.validators@.len() <= self.max_validators
        &&& distinct_validators(self.validators@)
    }

    /// An empty list for at most `max_validators` validators.
    pub fn new(max_validators: u32) -> (list: ValidatorList)
        ensures
            list.wf(),
            list.max_validators == max_validators,
            list.validators@.len() == 0,
    {
        ValidatorList { max_validators, validators: Vec::new() }
    }

    /// A list of the given entries, or `None` if they are more than
    /// `max_validators` or name a validator twice.
    pub fn from_entries(max_validators: u32, validators: Vec<ValidatorStakeInfo>) -> (r: Option<
        ValidatorList,
    >)
        ensures
            r is Some <==> validators@.len() <= max_validators && distinct_validators(validators@),
            r matches Some(list) ==> list.max_validators == max_validators && list.validators@
                == validators@,
    {
        let list = ValidatorList { max_validators, validators };
        if list.is_valid() {
            Some(list)
        } else {
            None
        }
    }

    /// Whether the list is within its capacity and holds no validator twice.
    pub fn is_valid(&self) -> (r: bool)
        ensures
            r == self.wf(),
    {
        if self.validators.len() > self.max_validators as usize {
            return false;
        }
        let n: usize = self.validators.len();
        let mut j: usize = 0;
        while j < n
            invariant
                n == self.validators@.len(),
                j <= n,
                distinct_validators(self.validators@.take(j as int)),
            decreases n - j,
        {
            let mut i: usize = 0;
            while i < j
                invariant
                    n == self.validators@.len(),
                    i <= j < n,
                    distinct_validators(self.validators@.take(j as int)),
                    forall|k: int|
                        0 <= k < i ==> (#[trigger] self.validators@[k]).vote_account_address
                            != self.validators@[j as int].vote_account_address,
                decreases j - i,
            {
                if self.validators[i].vote_account_address
                    == self.validators[j].vote_account_address {
                    return false;
                }
                i += 1;
            }
            proof {
                let next = self.validators@.take(j + 1);
                assert forall|a: int, b: int| 0 <= a < b < next.len() implies (
                #[trigger] next[a]).vote_account_address != (
                #[trigger] next[b]).vote_account_address by {
                    if b < j {
                        assert(self.validators@.take(j as int)[a] == next[a]);
                        assert(self.validators@.take(j as int)[b] == next[b]);
                    }
                }
            }
            j += 1;
        }
        proof {
            assert(self.validators@.take(n as int) =~= self.validators@);
        }
        true
    }

    /// How many validators the list holds.
    pub fn len(&self) -> (n: usize)
        ensures
            n == self.validators@.len(),
    {
        self.validators.len()
    }

    /// The place of the validator's entry, or `None` if it has none.
    pub fn find(&self, vote_account: &Pubkey) -> (r: Option<usize>)
        ensures
            r is Some <==> has_validator(self.validators@, *vote_account),
            r matches Some(i) ==> is_first_entry(self.validators@, *vote_account, i as int) && i
                == index_of(self.validators@, *vote_account),
    {
        let n: usize = self.validators.len();
        let mut i: usize = 0;
        while i < n
            invariant
                n == self.validators@.len(),
                i <= n,
                forall|k: int|
                    0 <= k < i ==> (#[trigger] self.validators@[k]).vote_account_address
                        != *vote_account,
            decreases n - i,
        {
            if self.validators[i].vote_account_address == *vote_account {
                proof {
                    lemma_index_of(self.validators@, *vote_account, i as int);
                }
                return Some(i);
            }
            i += 1;
        }
        None
    }

    /// Whether the validator has an entry and is in use.
    pub fn has_active(&self, vote_account: &Pubkey) -> (r: bool)
        ensures
            r == has_active_validator(self.validators@, *vote_account),
    {
        let n: usize = self.validators.len();
        let mut i: usize = 0;
        while i < n
            invariant
                n == self.validators@.len(),
                i <= n,
                forall|k: int|
                    0 <= k < i ==> !((#[trigger] self.validators@[k]).vote_account_address
                        == *vote_account && self.validators@[k].status is Active),
            decreases n - i,
        {
            if self.validators[i].vote_account_address == *vote_account
                && self.validators[i].is_active() {
                return true;
            }
            i += 1;
        }
        false
    }

    /// Lamports that the entries attribute to their validators, all
    /// together, or `None` if they leave the 64-bit range.
    pub fn total_stake_lamports(&self) -> (r: Option<u64>)
        ensures
            r == if total_stake(self.validators@) <= u64::MAX {
                Some(total_stake(self.validators@) as u64)
            } else {
                None
            },
    {
        let n: usize = self.validators.len();
        let mut sum: u64 = 0;
        let mut i: usize = 0;
        proof {
            lemma_total_stake_push(Seq::empty(), self.validators@[0]);
            assert(self.validators@.take(0) =~= Seq::<ValidatorStakeInfo>::empty());
        }
        while i < n
            invariant
                n == self.validators@.len(),
                i <= n,
                sum == total_stake(self.validators@.take(i as int)),
            decreases n - i,
        {
            proof {
                lemma_total_stake_take(self.validators@, i as int);
                lemma_total_stake_push(self.validators@.take(i as int), self.validators@[i as int]);
            }
            let stake: u64 = match self.validators[i].stake_lamports() {
                Some(stake) => stake,
                None => {
                    return None;
                },
            };
            sum = match sum.checked_add(stake) {
                Some(sum) => sum,
                None => {
                    return None;
                },
            };
            i += 1;
        }
        proof {
            assert(self.validators@.take(n as int) =~= self.validators@);
        }
        Some(sum)
    }

    /// Whether every entry has been reconciled for `epoch`.
    pub fn is_updated(&self, epoch: u64) -> (r: bool)
        ensures
            r == all_updated(self.validators@, epoch),
    {
        let n: usize = self.validators.len();
        let mut i: usize = 0;
        while i < n
            invariant
                n == self.validators@.len(),
                i <= n,
                forall|k: int| 0 <= k < i ==> (#[trigger] self.validators@[k]).last_update_epoch >= epoch,
            decreases n - i,
        {
            if self.validators[i].last_update_epoch < epoch {
                return false;
            }
            i += 1;
        }
        true
    }
}

} // verus!
