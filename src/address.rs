//! Program-derived addresses: the vault of each owner and the single global
//! state record are stored at addresses hashed from fixed tags.
use vstd::prelude::*;

use crate::pubkey::Pubkey;

verus! {

/// The bytes of the tag `"vault"`.
pub open spec fn vault_tag() -> Seq<u8> {
    seq![0x76u8, 0x61u8, 0x75u8, 0x6cu8, 0x74u8]
}

/// The bytes of the tag `"global-state"`.
pub open spec fn global_state_tag() -> Seq<u8> {
    seq![
        0x67u8, 0x6cu8, 0x6fu8, 0x62u8, 0x61u8, 0x6cu8,
        0x2du8, 0x73u8, 0x74u8, 0x61u8, 0x74u8, 0x65u8,
    ]
}

/// The seeds of the vault owned by `owner`: the tag, then the owner's key.
pub open spec fn vault_seeds(owner: Seq<u8>) -> Seq<Seq<u8>> {
    seq![vault_tag(), owner]
}

/// The seeds of the global state: the tag alone.
pub open spec fn global_state_seeds() -> Seq<Seq<u8>> {
    seq![global_state_tag()]
}

/// What the ledger's address search yields for `seeds` under `program_id`:
/// the first off-curve address found, with its bump seed, if there is one.
pub uninterp spec fn program_address_of(seeds: Seq<Seq<u8>>, program_id: Seq<u8>) -> Option<(Seq<u8>, u8)>;

/// The derived address alone, without the bump seed.
pub open spec fn derived_address(seeds: Seq<Seq<u8>>, program_id: Seq<u8>) -> Option<Seq<u8>> {
    match program_address_of(seeds, program_id) {
        Some((a, _)) => Some(a),
        None => None,
    }
}

/// The byte sequences held by a vector of seeds.
pub open spec fn seeds_view(seeds: Seq<Vec<u8>>) -> Seq<Seq<u8>> {
    seeds.map_values(|s: Vec<u8>| s@)
}

/// The view of an optional key.
pub open spec fn key_option_view(k: Option<Pubkey>) -> Option<Seq<u8>> {
    match k {
        Some(a) => Some(a@),
        None => None,
    }
}

/// Relies on solana_program's `Pubkey::try_find_program_address` (through
/// anchor_lang): the search for a bump seed is a function of the seeds and
/// the program id alone.
#[verifier::external_body]
fn try_find_program_address(seeds: &Vec<Vec<u8>>, program_id: &Pubkey) -> (r: Option<(Pubkey, u8)>)
    ensures
        match r {
            Some((a, bump)) => program_address_of(seeds_view(seeds@), program_id@) == Some((a@, bump)),
            None => program_address_of(seeds_view(seeds@), program_id@) is None,
        },
{
    let parts: Vec<&[u8]> = seeds.iter().map(|s| s.as_slice()).collect();
    let id = anchor_lang::solana_program::pubkey::Pubkey::new_from_array(program_id.bytes);
    anchor_lang::solana_program::pubkey::Pubkey::try_find_program_address(&parts, &id)
        .map(|(a, bump)| (Pubkey { bytes: a.to_bytes() }, bump))
}

/// Searches for the address derived from `seeds` under `program_id`.
pub fn find_address(seeds: &Vec<Vec<u8>>, program_id: &Pubkey) -> (r: Option<Pubkey>)
    ensures
        key_option_view(r) == derived_address(seeds_view(seeds@), program_id@),
{
    match try_find_program_address(seeds, program_id) {
        Some((a, _bump)) => Some(a),
        None => None,
    }
}

/// The address of the vault owned by `owner`.
pub fn vault_address(owner: &Pubkey, program_id: &Pubkey) -> (r: Option<Pubkey>)
    ensures
        key_option_view(r) == derived_address(vault_seeds(owner@), program_id@),
{
    let tag: Vec<u8> = vec![0x76u8, 0x61u8, 0x75u8, 0x6cu8, 0x74u8];
    let seeds: Vec<Vec<u8>> = vec![tag, owner.to_vec()];
    assert(seeds_view(seeds@) =~= vault_seeds(owner@));
    find_address(&seeds, program_id)
}

/// The address of the single global state record.
pub fn global_state_address(program_id: &Pubkey) -> (r: Option<Pubkey>)
    ensures
        key_option_view(r) == derived_address(global_state_seeds(), program_id@),
{
    let tag: Vec<u8> = vec![
        0x67u8, 0x6cu8, 0x6fu8, 0x62u8, 0x61u8, 0x6cu8,
        0x2du8, 0x73u8, 0x74u8, 0x61u8, 0x74u8, 0x65u8,
    ];
    let seeds: Vec<Vec<u8>> = vec![tag];
    assert(seeds_view(seeds@) =~= global_state_seeds());
    find_address(&seeds, program_id)
}

} // verus!
