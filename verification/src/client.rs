//! What a client of the pool decides between its queries to the network.

use crate::pubkey::Pubkey;
use crate::state::ValidatorStakeInfo;
use vstd::prelude::*;

verus! {

/// Why a client gives up.
#[derive(Clone, Copy, Debug, PartialEq, Eq, Structural)]
pub enum ClientError {
    /// A token account belongs to another mint than the pool's.
    InvalidTokenMint,
    /// A simulation reported no compute units.
    NoUnitsConsumed,
    /// A simulation reported more compute units than a limit can hold.
    UnitsConsumedOutOfRange,
}

/// The next step in the search for an unused ephemeral stake seed.
#[derive(Clone, Copy, Debug, PartialEq, Eq, Structural)]
pub enum SeedSearch {
    /// Look up the ephemeral stake account of this seed.
    Probe(u64),
    /// This seed is unused.
    Found(u64),
    /// No seed is left to try.
    Exhausted,
}

/// The compute unit limit that a transaction is simulated with.
pub const MAX_COMPUTE_UNIT_LIMIT: u32 = 1_400_000;

/// Whether every byte is zero.
pub open spec fn all_zero(data: Seq<u8>) -> bool {
    forall|i: int| 0 <= i < data.len() ==> data[i] == 0
}

/// Whether the account that a lookup found, if any, leaves its address
/// free: there is none, or its data are all zero.
pub open spec fn is_unused(account_data: Option<Vec<u8>>) -> bool {
    match account_data {
        Some(data) => all_zero(data@),
        None => true,
    }
}

/// Check if a validator's transient stake account is currently in use.
pub fn is_transient_stake_in_use(validator_stake_info: &ValidatorStakeInfo) -> (r: bool)
    ensures
        r == (validator_stake_info.transient_stake_lamports > 0),
{
    validator_stake_info.transient_stake_lamports > 0
}

/// Checks that a token account belongs to the expected mint.
pub fn check_token_mint(mint: &Pubkey, expected_token_mint: &Pubkey) -> (r: Result<(), ClientError>)
    ensures
        r == if *mint == *expected_token_mint {
            Ok::<(), ClientError>(())
        } else {
            Err(ClientError::InvalidTokenMint)
        },
{
    if *mint != *expected_token_mint {
        Err(ClientError::InvalidTokenMint)
    } else {
        Ok(())
    }
}

/// The compute unit limit to set after a simulation: the units that it
/// consumed.
pub fn compute_unit_limit(units_consumed: Option<u64>) -> (r: Result<u32, ClientError>)
    ensures
        r == match units_consumed {
            None => Err::<u32, ClientError>(ClientError::NoUnitsConsumed),
            Some(units) => if units <= u32::MAX {
                Ok(units as u32)
            } else {
                Err(ClientError::UnitsConsumedOutOfRange)
            },
        },
{
    match units_consumed {
        None => Err(ClientError::NoUnitsConsumed),
        Some(units) => {
            if units <= u32::MAX as u64 {
                Ok(units as u32)
            } else {
                Err(ClientError::UnitsConsumedOutOfRange)
            }
        },
    }
}

/// Whether an account's data are all zero, which is how an account that was
/// never initialized looks.
pub fn is_uninitialized(data: &[u8]) -> (r: bool)
    ensures
        r == all_zero(data@),
{
    let n: usize = data.len();
    let mut i: usize = 0;
    while i < n
        invariant
            n == data@.len(),
            i <= n,
            forall|k: int| 0 <= k < i ==> data@[k] == 0,
        decreases n - i,
    {
        if data[i] != 0 {
            return false;
        }
        i += 1;
    }
    true
}

/// Begins the search for an unused ephemeral stake seed among the seeds
/// below `max_attempts`: with seed zero, if there is any seed to try.
pub fn begin_seed_search(max_attempts: u64) -> (r: SeedSearch)
    ensures
        r == if max_attempts > 0 {
            SeedSearch::Probe(0)
        } else {
            SeedSearch::Exhausted
        },
{
    if max_attempts > 0 {
        SeedSearch::Probe(0)
    } else {
        SeedSearch::Exhausted
    }
}

/// Goes on with the search after the ephemeral stake account of `seed` was
/// looked up. `account_data` holds the data of the account, or `None` if
/// the lookup found no account. An address without an account, or with an
/// account that was never initialized, is free: the seed is found. Else the
/// next seed is tried, as long as it is below `max_attempts`.
pub fn continue_seed_search(seed: u64, max_attempts: u64, account_data: &Option<Vec<u8>>) -> (r:
    SeedSearch)
    ensures
        r == if is_unused(*account_data) {
            SeedSearch::Found(seed)
        } else if seed + 1 < max_attempts {
            SeedSearch::Probe((seed + 1) as u64)
        } else {
            SeedSearch::Exhausted
        },
{
    let unused: bool = match account_data {
        Some(data) => is_uninitialized(data.as_slice()),
        None => true,
    };
    if unused {
        SeedSearch::Found(seed)
    } else if seed < u64::MAX && seed + 1 < max_attempts {
        SeedSearch::Probe(seed + 1)
    } else {
        SeedSearch::Exhausted
    }
}

} // verus!
