//! Seed digests and program-derived addresses.
use crate::host::{
    associated_program_id, find_program_address, lemma_program_keys, program_address_of,
    seed_views, sha256, sha256_of, token_program_id, ASSOCIATED_PROGRAM_KEY, TOKEN_PROGRAM_KEY,
};
use crate::keys::{append_bytes, Key};
use crate::state::{mint_seed_of, terms_seed_of, ContractData};
use vstd::prelude::*;

verus! {

/// The address and bump of a contract record, derived from its two seeds.
pub open spec fn contract_address_of(program: Key, terms_seed: Key, index_seed: Key) -> Option<(Key, u8)> {
    program_address_of(seq![terms_seed@, index_seed@], program@)
}

/// The address and bump of a position-mint record, derived from the kind tag and the mint seed.
pub open spec fn mint_address_of(program: Key, kind_tag: u8, mint_seed: Key) -> Option<(Key, u8)> {
    program_address_of(seq![seq![kind_tag], mint_seed@], program@)
}

/// The canonical token account of `wallet` for `mint`: the address that the
/// associated-token-account program derives from the seeds wallet, token
/// program, mint; none where no bump gives an address.
pub open spec fn associated_address_of(wallet: Key, mint: Key) -> Option<Key> {
    match program_address_of(seq![wallet@, token_program_id(), mint@], associated_program_id()) {
        Some(found) => Some(found.0),
        None => None,
    }
}

/// A seed holding the given bytes.
fn seed_of(bytes: &[u8]) -> (r: Vec<u8>)
    ensures
        r@ == bytes@,
{
    let mut v: Vec<u8> = Vec::new();
    append_bytes(&mut v, bytes);
    v
}

/// SHA-256 of the 128-byte terms block.
pub fn terms_seed(terms: &ContractData) -> (r: Key)
    ensures
        r == terms_seed_of(*terms),
{
    let block = terms.serialize();
    sha256(block.as_slice())
}

/// SHA-256 of the 41-byte disambiguator: opener identity, kind tag, sequence number.
pub fn index_seed(disambiguator: &[u8; 41]) -> (r: Key)
    ensures
        r == sha256_of(disambiguator@),
{
    sha256(disambiguator.as_slice())
}

/// SHA-256 of the 120-byte terms block without the premium quantity.
pub fn mint_terms_seed(terms: &ContractData) -> (r: Key)
    ensures
        r == mint_seed_of(*terms),
{
    terms.get_seed()
}

/// The contract record's address and bump, or `None` where the search finds no bump.
pub fn contract_address(program: &Key, terms_seed: &Key, index_seed: &Key) -> (r: Option<(Key, u8)>)
    ensures
        r == contract_address_of(*program, *terms_seed, *index_seed),
{
    let seeds = vec![seed_of(terms_seed.as_slice()), seed_of(index_seed.as_slice())];
    assert(seed_views(seeds@) =~= seq![terms_seed@, index_seed@]);
    find_program_address(&seeds, program)
}

/// The position-mint record's address and bump, or `None` where the search finds no bump.
pub fn mint_address(program: &Key, kind_tag: u8, mint_seed: &Key) -> (r: Option<(Key, u8)>)
    ensures
        r == mint_address_of(*program, kind_tag, *mint_seed),
{
    let tag = [kind_tag];
    assert(tag@ =~= seq![kind_tag]);
    let seeds = vec![seed_of(tag.as_slice()), seed_of(mint_seed.as_slice())];
    assert(seed_views(seeds@) =~= seq![seq![kind_tag], mint_seed@]);
    find_program_address(&seeds, program)
}

/// The canonical token account of `wallet` for `mint`, derived as the
/// associated-token-account program derives it, or `None` where the search
/// finds no bump.
pub fn associated_token_address(wallet: &Key, mint: &Key) -> (r: Option<Key>)
    ensures
        r == associated_address_of(*wallet, *mint),
{
    proof {
        lemma_program_keys();
    }
    let seeds = vec![
        seed_of(wallet.as_slice()),
        seed_of(TOKEN_PROGRAM_KEY.as_slice()),
        seed_of(mint.as_slice()),
    ];
    assert(seed_views(seeds@) =~= seq![wallet@, token_program_id(), mint@]);
    match find_program_address(&seeds, &ASSOCIATED_PROGRAM_KEY) {
        Some((k, _bump)) => Some(k),
        None => None,
    }
}

/// Address derivation is a function of the program and the seeds alone: the
/// same inputs give the same address and bump on every call.
pub proof fn lemma_addresses_deterministic(
    program1: Key,
    program2: Key,
    first1: Key,
    first2: Key,
    second1: Key,
    second2: Key,
    tag1: u8,
    tag2: u8,
)
    requires
        program1 == program2,
        first1 == first2,
        second1 == second2,
        tag1 == tag2,
    ensures
        contract_address_of(program1, first1, second1) == contract_address_of(program2, first2, second2),
        mint_address_of(program1, tag1, second1) == mint_address_of(program2, tag2, second2),
{
}

} // verus!
