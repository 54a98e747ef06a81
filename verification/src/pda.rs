//! Program-derived addresses of the protocol.

use vstd::prelude::*;
use vstd::bytes::*;
use crate::accounts::PubkeyBytes;
use crate::constants::{config_seed, config_seed_spec, entropy_signer_seed,
    entropy_signer_seed_spec, provider_seed, provider_seed_spec, provider_vault_seed,
    provider_vault_seed_spec, pyth_fee_vault_seed, pyth_fee_vault_seed_spec, request_seed,
    request_seed_spec, requester_signer_seed, requester_signer_seed_spec};

verus! {

/// The program-derived address that a list of seeds gives under a program
/// id, with its bump seed; `None` where the seeds derive no address.
pub uninterp spec fn derived_address(seeds: Seq<Seq<u8>>, program_id: Seq<u8>) -> Option<
    (Seq<u8>, u8),
>;

/// The seeds as sequences of bytes.
pub open spec fn seeds_view(seeds: Seq<Vec<u8>>) -> Seq<Seq<u8>> {
    Seq::new(seeds.len(), |i: int| seeds[i]@)
}

/// Calls `Pubkey::try_find_program_address` of `solana_program`, which
/// searches the bump seeds from 255 downwards for the first address that
/// the seeds derive off the curve, and returns `None` where there is none
/// or the seeds are too many or too long. The result is taken on trust as
/// a function of the seeds and the program id alone.
#[verifier::external_body]
pub(crate) fn try_find_program_address(seeds: &Vec<Vec<u8>>, program_id: &PubkeyBytes) -> (r:
    Option<(PubkeyBytes, u8)>)
    ensures
        match r {
            Some((address, bump)) => derived_address(seeds_view(seeds@), program_id@) == Some(
                (address@, bump),
            ),
            None => derived_address(seeds_view(seeds@), program_id@).is_none(),
        },
{
    let parts: Vec<&[u8]> = seeds.iter().map(|seed| seed.as_slice()).collect();
    let program = solana_program::pubkey::Pubkey::new_from_array(*program_id);
    solana_program::pubkey::Pubkey::try_find_program_address(&parts, &program).map(
        |(address, bump)| (address.to_bytes(), bump),
    )
}

/// What address derivation gives for one seed.
pub open spec fn pda1(seed: Seq<u8>, program_id: Seq<u8>) -> Option<(Seq<u8>, u8)> {
    derived_address(seq![seed], program_id)
}

/// What address derivation gives for two seeds.
pub open spec fn pda2(first: Seq<u8>, second: Seq<u8>, program_id: Seq<u8>) -> Option<
    (Seq<u8>, u8),
> {
    derived_address(seq![first, second], program_id)
}

/// What address derivation gives for three seeds.
pub open spec fn pda3(first: Seq<u8>, second: Seq<u8>, third: Seq<u8>, program_id: Seq<u8>) -> Option<
    (Seq<u8>, u8),
> {
    derived_address(seq![first, second, third], program_id)
}

/// Whether an exec result of a derivation is the named one.
pub open spec fn pda_is(r: Option<(PubkeyBytes, u8)>, named: Option<(Seq<u8>, u8)>) -> bool {
    match r {
        Some((address, bump)) => named == Some((address@, bump)),
        None => named.is_none(),
    }
}

fn find1(seed: Vec<u8>, program_id: &PubkeyBytes) -> (r: Option<(PubkeyBytes, u8)>)
    ensures
        pda_is(r, pda1(seed@, program_id@)),
{
    let mut seeds: Vec<Vec<u8>> = Vec::new();
    seeds.push(seed);
    assert(seeds_view(seeds@) =~= seq![seed@]);
    try_find_program_address(&seeds, program_id)
}

fn find2(first: Vec<u8>, second: Vec<u8>, program_id: &PubkeyBytes) -> (r: Option<
    (PubkeyBytes, u8),
>)
    ensures
        pda_is(r, pda2(first@, second@, program_id@)),
{
    let mut seeds: Vec<Vec<u8>> = Vec::new();
    seeds.push(first);
    seeds.push(second);
    assert(seeds_view(seeds@) =~= seq![first@, second@]);
    try_find_program_address(&seeds, program_id)
}

/// Address of the configuration record.
pub fn config_pda(program_id: &PubkeyBytes) -> (r: Option<(PubkeyBytes, u8)>)
    ensures
        pda_is(r, pda1(config_seed_spec(), program_id@)),
{
    find1(config_seed(), program_id)
}

/// Address of the record of the provider with the given authority.
pub fn provider_pda(program_id: &PubkeyBytes, provider_authority: &PubkeyBytes) -> (r: Option<
    (PubkeyBytes, u8),
>)
    ensures
        pda_is(r, pda2(provider_seed_spec(), provider_authority@, program_id@)),
{
    find2(provider_seed(), vstd::slice::slice_to_vec(provider_authority.as_slice()), program_id)
}

/// Address of the fee vault of the provider with the given authority.
pub fn provider_vault_pda(program_id: &PubkeyBytes, provider_authority: &PubkeyBytes) -> (r:
    Option<(PubkeyBytes, u8)>)
    ensures
        pda_is(r, pda2(provider_vault_seed_spec(), provider_authority@, program_id@)),
{
    find2(
        provider_vault_seed(),
        vstd::slice::slice_to_vec(provider_authority.as_slice()),
        program_id,
    )
}

/// Address reserved for the request with the given sequence number.
pub fn request_pda(
    program_id: &PubkeyBytes,
    provider_authority: &PubkeyBytes,
    sequence_number: u64,
) -> (r: Option<(PubkeyBytes, u8)>)
    ensures
        pda_is(
            r,
            pda3(
                request_seed_spec(),
                provider_authority@,
                spec_u64_to_le_bytes(sequence_number),
                program_id@,
            ),
        ),
{
    let mut seeds: Vec<Vec<u8>> = Vec::new();
    let first = request_seed();
    let second = vstd::slice::slice_to_vec(provider_authority.as_slice());
    let third = u64_to_le_bytes(sequence_number);
    seeds.push(first);
    seeds.push(second);
    seeds.push(third);
    assert(seeds_view(seeds@) =~= seq![first@, second@, third@]);
    try_find_program_address(&seeds, program_id)
}

/// Address of the protocol's fee vault.
pub fn pyth_fee_vault_pda(program_id: &PubkeyBytes) -> (r: Option<(PubkeyBytes, u8)>)
    ensures
        pda_is(r, pda1(pyth_fee_vault_seed_spec(), program_id@)),
{
    find1(pyth_fee_vault_seed(), program_id)
}

/// Address with which the program signs callbacks.
pub fn entropy_signer_pda(program_id: &PubkeyBytes) -> (r: Option<(PubkeyBytes, u8)>)
    ensures
        pda_is(r, pda1(entropy_signer_seed_spec(), program_id@)),
{
    find1(entropy_signer_seed(), program_id)
}

/// Address with which a requester program signs its requests: derived
/// under the requester program from the seed and this program's id.
pub fn requester_signer_pda(program_id: &PubkeyBytes, requester_program: &PubkeyBytes) -> (r:
    Option<(PubkeyBytes, u8)>)
    ensures
        pda_is(r, pda2(requester_signer_seed_spec(), program_id@, requester_program@)),
{
    find2(
        requester_signer_seed(),
        vstd::slice::slice_to_vec(program_id.as_slice()),
        requester_program,
    )
}

/// Whether `key` is the address that a derivation gave.
pub open spec fn is_address(key: Seq<u8>, named: Option<(Seq<u8>, u8)>) -> bool {
    named matches Some(pair) && pair.0 == key
}

/// The bump seed of a derivation that gave an address, else zero.
pub open spec fn bump_of(named: Option<(Seq<u8>, u8)>) -> u8 {
    match named {
        Some(pair) => pair.1,
        None => 0,
    }
}

/// Whether `key` is the address that a derivation gave; with it the bump
/// seed. A derivation that gave none matches no key.
pub fn matches_pda(key: &PubkeyBytes, derived: &Option<(PubkeyBytes, u8)>) -> (r: Option<u8>)
    ensures
        r.is_some() <==> (derived matches Some(pair) && pair.0@ == key@),
        r matches Some(bump) ==> (derived matches Some(pair) && pair.1 == bump),
{
    match derived {
        Some((address, bump)) => {
            if crate::bytes::array_eq(key, address) {
                Some(*bump)
            } else {
                None
            }
        },
        None => None,
    }
}

} // verus!
