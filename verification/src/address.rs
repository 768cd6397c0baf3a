//! Program-derived addresses.
//!
//! The oracle record and its reward vault live at addresses that nobody
//! chooses: each is derived from a list of seeds and the program's own address.
//! A derivation takes the seeds followed by one more seed of a single byte, the
//! bump. The record keeps both bumps, and every crank derives both addresses
//! again and holds the presented accounts against them.
//!
//! The derivation itself (a hash and a curve test) is left to
//! `anchor_lang`'s `Pubkey`. This module names its result and proves the
//! comparisons around it.

use anchor_lang::prelude::Pubkey;
use anchor_lang::solana_program::pubkey::PubkeyError;
use vstd::prelude::*;

verus! {

/// The address of an account or of a program.
pub type Address = [u8; 32];

/// The label of the oracle record: the bytes of `oracle`.
pub const ORACLE_SEED: [u8; 6] = [111, 114, 97, 99, 108, 101];

/// The label of the reward vault: the bytes of `reward_vault`.
pub const REWARD_VAULT_SEED: [u8; 12] = [114, 101, 119, 97, 114, 100, 95, 118, 97, 117, 108, 116];

/// `solana_program::pubkey::PubkeyError`: why a derivation gave no address.
/// Nothing is read from it.
#[verifier::external_type_specification]
#[verifier::external_body]
pub struct ExPubkeyError(PubkeyError);

/// What `Pubkey::create_program_address` gives for `seeds` under
/// `program_id`: the derived address, or `None` where it returns an error.
pub uninterp spec fn program_address(seeds: Seq<Seq<u8>>, program_id: Seq<u8>) -> Option<Seq<u8>>;

/// What `Pubkey::try_find_program_address` gives for `seeds` under
/// `program_id`: an address with the bump it was found under, or `None`.
pub uninterp spec fn found_program_address(seeds: Seq<Seq<u8>>, program_id: Seq<u8>) -> Option<
    (Seq<u8>, u8),
>;

/// The seeds of the oracle record, without a bump.
pub open spec fn oracle_seeds() -> Seq<Seq<u8>> {
    seq![ORACLE_SEED@]
}

/// The seeds of the reward vault that belongs to the record at `oracle_key`,
/// without a bump.
pub open spec fn reward_vault_seeds(oracle_key: Seq<u8>) -> Seq<Seq<u8>> {
    seq![REWARD_VAULT_SEED@, oracle_key]
}

/// `seeds` followed by the bump as a seed of one byte.
pub open spec fn with_bump(seeds: Seq<Seq<u8>>, bump: u8) -> Seq<Seq<u8>> {
    seeds.push(seq![bump])
}

/// `address` is what `seeds` and `bump` derive under `program_id`.
pub open spec fn derives(seeds: Seq<Seq<u8>>, bump: u8, program_id: Seq<u8>, address: Seq<u8>) -> bool {
    program_address(with_bump(seeds, bump), program_id) == Some(address)
}

/// The bump under which the search from `seeds` finds exactly `address`, if it
/// finds that address at all.
pub open spec fn found_bump(seeds: Seq<Seq<u8>>, program_id: Seq<u8>, address: Seq<u8>) -> Option<u8> {
    match found_program_address(seeds, program_id) {
        Some((found, bump)) => if found == address {
            Some(bump)
        } else {
            None
        },
        None => None,
    }
}

/// Calls `Pubkey::create_program_address`. Trusted: the outcome is the named
/// `program_address` of the same seeds and program, an address where the call
/// returns `Ok` and `None` where it returns an error.
#[verifier::external_body]
fn create_program_address(seeds: &Vec<Vec<u8>>, program_id: &Address) -> (derived: Result<
    Address,
    PubkeyError,
>)
    ensures
        match derived {
            Ok(address) => program_address(seeds.deep_view(), program_id@) == Some(address@),
            Err(_) => program_address(seeds.deep_view(), program_id@) is None,
        },
{
    let parts: Vec<&[u8]> = seeds.iter().map(|seed| seed.as_slice()).collect();
    Pubkey::create_program_address(&parts, &Pubkey::new_from_array(*program_id)).map(
        |key| key.to_bytes(),
    )
}

/// Calls `Pubkey::try_find_program_address`. Trusted: the outcome is the named
/// `found_program_address` of the same seeds and program; and an address it
/// returns is the one that `Pubkey::create_program_address` derives from the
/// seeds followed by the returned bump.
#[verifier::external_body]
fn try_find_program_address(seeds: &Vec<Vec<u8>>, program_id: &Address) -> (found: Option<
    (Address, u8),
>)
    ensures
        match found {
            Some((address, bump)) => {
                &&& found_program_address(seeds.deep_view(), program_id@) == Some((address@, bump))
                &&& derives(seeds.deep_view(), bump, program_id@, address@)
            },
            None => found_program_address(seeds.deep_view(), program_id@) is None,
        },
{
    let parts: Vec<&[u8]> = seeds.iter().map(|seed| seed.as_slice()).collect();
    Pubkey::try_find_program_address(&parts, &Pubkey::new_from_array(*program_id)).map(
        |(key, bump)| (key.to_bytes(), bump),
    )
}

/// Whether two addresses hold the same bytes.
pub fn same_address(a: &Address, b: &Address) -> (same: bool)
    ensures
        same == (a@ == b@),
{
    let mut i: usize = 0;
    while i < 32
        invariant
            i <= 32,
            forall|j: int| 0 <= j < i ==> a@[j] == b@[j],
        decreases 32 - i,
    {
        if a[i] != b[i] {
            return false;
        }
        i += 1;
    }
    assert(a@ =~= b@);
    true
}

/// Holds a presented address against the outcome of a derivation: true where
/// the derivation gave an address and it is the presented one.
pub fn is_derived(presented: &Address, derived: &Option<Address>) -> (ok: bool)
    ensures
        ok == (derived matches Some(address) && address@ == presented@),
{
    match derived {
        Some(address) => same_address(address, presented),
        None => false,
    }
}

/// Holds a presented address against the outcome of a search: the bump it was
/// found under where the search gave the presented address, `None` where it
/// gave another address or none.
pub fn bump_of(presented: &Address, found: &Option<(Address, u8)>) -> (bump: Option<u8>)
    ensures
        bump == match found {
            Some((address, b)) => if address@ == presented@ {
                Some(*b)
            } else {
                None
            },
            None => None,
        },
{
    match found {
        Some((address, b)) => if same_address(address, presented) {
            Some(*b)
        } else {
            None
        },
        None => None,
    }
}

/// Whether `presented` is the address that `seeds`, which end in their bump,
/// derive under `program_id`.
pub fn verify_program_address(presented: &Address, seeds: &Vec<Vec<u8>>, program_id: &Address) -> (ok:
    bool)
    ensures
        ok == (program_address(seeds.deep_view(), program_id@) == Some(presented@)),
{
    let derived = match create_program_address(seeds, program_id) {
        Ok(address) => Some(address),
        Err(_) => None,
    };
    is_derived(presented, &derived)
}

/// Searches for the address of `seeds` under `program_id` and returns the bump
/// it was found under, provided that the address found is `presented`. With
/// that bump the seeds derive `presented`.
pub fn find_bump(presented: &Address, seeds: &Vec<Vec<u8>>, program_id: &Address) -> (bump: Option<
    u8,
>)
    ensures
        bump == found_bump(seeds.deep_view(), program_id@, presented@),
        bump matches Some(b) ==> derives(seeds.deep_view(), b, program_id@, presented@),
{
    let found = try_find_program_address(seeds, program_id);
    bump_of(presented, &found)
}

/// The seeds of the oracle record as bytes.
pub fn build_oracle_seeds() -> (seeds: Vec<Vec<u8>>)
    ensures
        seeds.deep_view() == oracle_seeds(),
{
    let mut seeds: Vec<Vec<u8>> = Vec::new();
    seeds.push(vstd::slice::slice_to_vec(ORACLE_SEED.as_slice()));
    assert(seeds.deep_view() =~~= oracle_seeds());
    seeds
}

/// The seeds of the reward vault of the record at `oracle_key` as bytes.
pub fn build_reward_vault_seeds(oracle_key: &Address) -> (seeds: Vec<Vec<u8>>)
    ensures
        seeds.deep_view() == reward_vault_seeds(oracle_key@),
{
    let mut seeds: Vec<Vec<u8>> = Vec::new();
    seeds.push(vstd::slice::slice_to_vec(REWARD_VAULT_SEED.as_slice()));
    seeds.push(vstd::slice::slice_to_vec(oracle_key.as_slice()));
    assert(seeds.deep_view() =~~= reward_vault_seeds(oracle_key@));
    seeds
}

/// Appends the bump to `seeds` as a seed of one byte.
pub fn push_bump(seeds: Vec<Vec<u8>>, bump: u8) -> (bumped: Vec<Vec<u8>>)
    ensures
        bumped.deep_view() == with_bump(seeds.deep_view(), bump),
{
    let mut bumped = seeds;
    bumped.push(vec![bump]);
    assert(bumped.deep_view() =~~= with_bump(seeds.deep_view(), bump));
    bumped
}

} // verus!
