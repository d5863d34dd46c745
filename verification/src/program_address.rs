//! Addresses that the pool's program derives for its accounts.

use crate::pubkey::Pubkey;
use vstd::bytes::{spec_u32_to_le_bytes, spec_u64_to_le_bytes, u32_to_le_bytes, u64_to_le_bytes};
use vstd::prelude::*;

verus! {

/// The program-derived address for `seeds` under the program `program_id`,
/// with its bump seed, as `solana_pubkey::Pubkey::try_find_program_address`
/// computes it; `None` where it finds none.
pub uninterp spec fn program_address(seeds: Seq<Seq<u8>>, program_id: Seq<u8>) -> Option<
    (Seq<u8>, u8),
>;

/// The bytes of an address with its bump seed.
pub open spec fn address_bytes(found: Option<(Pubkey, u8)>) -> Option<(Seq<u8>, u8)> {
    match found {
        Some((address, bump_seed)) => Some((address.bytes@, bump_seed)),
        None => None,
    }
}

/// The seed that marks the address of an ephemeral stake account:
/// `ephemeral` in ASCII.
pub open spec fn ephemeral_stake_seed_prefix() -> Seq<u8> {
    seq![101u8, 112u8, 104u8, 101u8, 109u8, 101u8, 114u8, 97u8, 108u8]
}

/// The seed that marks the address of the withdraw authority: `withdraw` in
/// ASCII.
pub open spec fn authority_withdraw_seed() -> Seq<u8> {
    seq![119u8, 105u8, 116u8, 104u8, 100u8, 114u8, 97u8, 119u8]
}

/// The seeds of the address of a pool's ephemeral stake account: the
/// marker, the pool's address, and the account's seed as eight bytes, lowest
/// first.
pub open spec fn ephemeral_stake_seeds(stake_pool_address: Pubkey, seed: u64) -> Seq<Seq<u8>> {
    seq![ephemeral_stake_seed_prefix(), stake_pool_address.bytes@, spec_u64_to_le_bytes(seed)]
}

/// The seeds of the address of a validator's active stake account: the
/// validator's vote account, the pool's address, and the account's seed as
/// four bytes, lowest first, or no bytes for a seed of zero.
pub open spec fn validator_stake_seeds(
    vote_account_address: Pubkey,
    stake_pool_address: Pubkey,
    seed: u32,
) -> Seq<Seq<u8>> {
    seq![
        vote_account_address.bytes@,
        stake_pool_address.bytes@,
        if seed == 0 {
            Seq::<u8>::empty()
        } else {
            spec_u32_to_le_bytes(seed)
        },
    ]
}

/// The seeds of the address of a pool's withdraw authority: the pool's
/// address and the marker.
pub open spec fn withdraw_authority_seeds(stake_pool_address: Pubkey) -> Seq<Seq<u8>> {
    seq![stake_pool_address.bytes@, authority_withdraw_seed()]
}

/// Calls `solana_pubkey::Pubkey::try_find_program_address`, which hashes the
/// seeds, a bump seed and the program's address until the hash is no point
/// of the curve, counting the bump seed down from 255. Its result depends on
/// the seeds and the program's address alone; the contract gives it the name
/// `program_address` and claims nothing else of it.
#[verifier::external_body]
fn try_find_program_address(seeds: &Vec<Vec<u8>>, program_id: &Pubkey) -> (r: Option<(Pubkey, u8)>)
    ensures
        address_bytes(r) == program_address(seeds.deep_view(), program_id.bytes@),
{
    let seeds: Vec<&[u8]> = seeds.iter().map(|seed| seed.as_slice()).collect();
    let program_id = solana_pubkey::Pubkey::new_from_array(program_id.bytes);
    solana_pubkey::Pubkey::try_find_program_address(&seeds, &program_id).map(
        |(address, bump_seed)| (Pubkey { bytes: address.to_bytes() }, bump_seed),
    )
}

/// The address of a pool's ephemeral stake account for `seed`, with its
/// bump seed; `None` if no address can be derived.
pub fn find_ephemeral_stake_program_address(
    program_id: &Pubkey,
    stake_pool_address: &Pubkey,
    seed: u64,
) -> (r: Option<(Pubkey, u8)>)
    ensures
        address_bytes(r) == program_address(
            ephemeral_stake_seeds(*stake_pool_address, seed),
            program_id.bytes@,
        ),
{
    let prefix: Vec<u8> = vec![101u8, 112u8, 104u8, 101u8, 109u8, 101u8, 114u8, 97u8, 108u8];
    let mut seeds: Vec<Vec<u8>> = Vec::new();
    seeds.push(prefix);
    seeds.push(stake_pool_address.to_vec());
    seeds.push(u64_to_le_bytes(seed));
    proof {
        let views = seeds.deep_view();
        assert(views[0] =~= ephemeral_stake_seed_prefix());
        assert(views[1] =~= stake_pool_address.bytes@);
        assert(views[2] =~= spec_u64_to_le_bytes(seed));
        assert(views =~= ephemeral_stake_seeds(*stake_pool_address, seed));
    }
    try_find_program_address(&seeds, program_id)
}

/// The address of a validator's active stake account for `seed`, with its
/// bump seed; `None` if no address can be derived.
pub fn find_stake_program_address(
    program_id: &Pubkey,
    vote_account_address: &Pubkey,
    stake_pool_address: &Pubkey,
    seed: u32,
) -> (r: Option<(Pubkey, u8)>)
    ensures
        address_bytes(r) == program_address(
            validator_stake_seeds(*vote_account_address, *stake_pool_address, seed),
            program_id.bytes@,
        ),
{
    let suffix: Vec<u8> = if seed == 0 {
        Vec::new()
    } else {
        u32_to_le_bytes(seed)
    };
    let mut seeds: Vec<Vec<u8>> = Vec::new();
    seeds.push(vote_account_address.to_vec());
    seeds.push(stake_pool_address.to_vec());
    seeds.push(suffix);
    proof {
        let views = seeds.deep_view();
        assert(views[0] =~= vote_account_address.bytes@);
        assert(views[1] =~= stake_pool_address.bytes@);
        assert(views[2] =~= if seed == 0 {
            Seq::<u8>::empty()
        } else {
            spec_u32_to_le_bytes(seed)
        });
        assert(views =~= validator_stake_seeds(*vote_account_address, *stake_pool_address, seed));
    }
    try_find_program_address(&seeds, program_id)
}

/// The address of a pool's withdraw authority, with its bump seed; `None`
/// if no address can be derived.
pub fn find_withdraw_authority_program_address(
    program_id: &Pubkey,
    stake_pool_address: &Pubkey,
) -> (r: Option<(Pubkey, u8)>)
    ensures
        address_bytes(r) == program_address(
            withdraw_authority_seeds(*stake_pool_address),
            program_id.bytes@,
        ),
{
    let marker: Vec<u8> = vec![119u8, 105u8, 116u8, 104u8, 100u8, 114u8, 97u8, 119u8];
    let mut seeds: Vec<Vec<u8>> = Vec::new();
    seeds.push(stake_pool_address.to_vec());
    seeds.push(marker);
    proof {
        let views = seeds.deep_view();
        assert(views[0] =~= stake_pool_address.bytes@);
        assert(views[1] =~= authority_withdraw_seed());
        assert(views =~= withdraw_authority_seeds(*stake_pool_address));
    }
    try_find_program_address(&seeds, program_id)
}

} // verus!
