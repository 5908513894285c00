//! The calls this library makes into outside crates, each with the contract
//! that the rest of the library relies on.
use crate::keys::Key;
use sha2::Digest;
use solana_program::program_error::ProgramError;
use solana_program::program_pack::Pack;
use solana_program::pubkey::Pubkey;
use vstd::bytes::spec_u64_from_le_bytes;
use vstd::prelude::*;

verus! {

/// What SHA-256 yields for a byte string.
pub uninterp spec fn sha256_of(data: Seq<u8>) -> Key;

/// What the ledger's program-address search yields for a list of seeds
/// under a program: the address and bump, or none where no bump gives an address.
pub uninterp spec fn program_address_of(seeds: Seq<Seq<u8>>, program: Seq<u8>) -> Option<(Key, u8)>;

/// The bytes of each seed in a list.
pub open spec fn seed_views(seeds: Seq<Vec<u8>>) -> Seq<Seq<u8>> {
    seeds.map_values(|s: Vec<u8>| s@)
}

/// Relies on sha2's `Sha256::digest`: the digest of the bytes, a function of them alone.
#[verifier::external_body]
pub(crate) fn sha256(data: &[u8]) -> (r: Key)
    ensures
        r == sha256_of(data@),
{
    sha2::Sha256::digest(data).into()
}

/// Relies on solana_program's `Pubkey::try_find_program_address`: a
/// deterministic search that yields the first bump, from 255 down, whose
/// address is valid for the seeds, or `None`; it does not panic.
#[verifier::external_body]
pub(crate) fn find_program_address(seeds: &Vec<Vec<u8>>, program: &Key) -> (r: Option<(Key, u8)>)
    ensures
        r == program_address_of(seed_views(seeds@), program@),
{
    let refs: Vec<&[u8]> = seeds.iter().map(|s| s.as_slice()).collect();
    Pubkey::try_find_program_address(&refs, &Pubkey::new_from_array(*program)).map(
        |(k, b)| (k.to_bytes(), b),
    )
}

/// The token program's identity, `TokenkegQfeZyiNwAJbNbGKPFXCWuBvf9Ss623VQ5DA`, as bytes.
pub open spec fn token_program_id() -> Seq<u8> {
    seq![
        6u8, 221, 246, 225, 215, 101, 161, 147, 217, 203, 225, 70, 206, 235, 121, 172,
        28, 180, 133, 237, 95, 91, 55, 145, 58, 140, 245, 133, 126, 255, 0, 169,
    ]
}

/// The token program's identity as an executable key.
pub const TOKEN_PROGRAM_KEY: Key = [
    6, 221, 246, 225, 215, 101, 161, 147, 217, 203, 225, 70, 206, 235, 121, 172, 28, 180, 133, 237,
    95, 91, 55, 145, 58, 140, 245, 133, 126, 255, 0, 169,
];

/// The associated-token-account program's identity,
/// `ATokenGPvbdGVxr1b2hvZbsiqW5xWH25efTNsLJA8knL`, as bytes.
pub open spec fn associated_program_id() -> Seq<u8> {
    seq![
        140u8, 151, 37, 143, 78, 36, 137, 241, 187, 61, 16, 41, 20, 142, 13, 131,
        11, 90, 19, 153, 218, 255, 16, 132, 4, 142, 123, 216, 219, 233, 248, 89,
    ]
}

/// The associated-token-account program's identity as an executable key.
pub const ASSOCIATED_PROGRAM_KEY: Key = [
    140, 151, 37, 143, 78, 36, 137, 241, 187, 61, 16, 41, 20, 142, 13, 131, 11, 90, 19, 153, 218,
    255, 16, 132, 4, 142, 123, 216, 219, 233, 248, 89,
];

/// The executable program keys hold the stated identities.
pub proof fn lemma_program_keys()
    ensures
        TOKEN_PROGRAM_KEY@ == token_program_id(),
        ASSOCIATED_PROGRAM_KEY@ == associated_program_id(),
{
    assert(TOKEN_PROGRAM_KEY@ =~= token_program_id());
    assert(ASSOCIATED_PROGRAM_KEY@ =~= associated_program_id());
}

/// The system program's identity: 32 zero bytes.
pub open spec fn system_program_id() -> Seq<u8> {
    Seq::new(32, |_i: int| 0u8)
}

/// Relies on spl_token's `check_id`: whether the key is the token program's identity.
#[verifier::external_body]
pub(crate) fn is_token_program(key: &Key) -> (r: bool)
    ensures
        r == (key@ == token_program_id()),
{
    spl_token::check_id(&Pubkey::new_from_array(*key))
}

/// Relies on solana_program's `system_program::check_id`: whether the key is
/// the system program's identity.
#[verifier::external_body]
pub(crate) fn is_system_program(key: &Key) -> (r: bool)
    ensures
        r == (key@ == system_program_id()),
{
    solana_program::system_program::check_id(&Pubkey::new_from_array(*key))
}

#[verifier::external_type_specification]
#[verifier::external_body]
pub struct ExProgramError(ProgramError);

/// The fields of a token account that the protocol reads.
#[derive(Debug, Clone, Copy, PartialEq, Eq)]
pub struct TokenAccountInfo {
    pub mint: Key,
    pub owner: Key,
    pub amount: u64,
}

/// An optional-value tag of the token account layout: four bytes, `0` or `1` little-endian.
pub open spec fn option_tag_ok(t: Seq<u8>) -> bool {
    t == seq![0u8, 0, 0, 0] || t == seq![1u8, 0, 0, 0]
}

/// Whether the first 165 bytes of `d` hold a well-formed token account: valid
/// tags for the delegate, native amount and close authority, and a known state.
pub open spec fn token_layout_ok(d: Seq<u8>) -> bool {
    &&& option_tag_ok(d.subrange(72, 76))
    &&& d[108] < 3
    &&& option_tag_ok(d.subrange(109, 113))
    &&& option_tag_ok(d.subrange(129, 133))
}

/// Whether `a` holds what the layout puts at the start of `d`: the mint at
/// bytes 0..32, the owner at 32..64, the balance little-endian at 64..72.
pub open spec fn token_fields_of(d: Seq<u8>, a: TokenAccountInfo) -> bool {
    &&& a.mint@ == d.subrange(0, 32)
    &&& a.owner@ == d.subrange(32, 64)
    &&& a.amount == spec_u64_from_le_bytes(d.subrange(64, 72))
}

/// Relies on spl_token's `Account::unpack_from_slice`, which reads the first
/// 165 bytes (it panics on fewer) and refuses a bad option tag or state byte.
#[verifier::external_body]
pub(crate) fn unpack_token_account(data: &[u8]) -> (r: Result<TokenAccountInfo, ProgramError>)
    requires
        data@.len() >= 165,
    ensures
        r is Ok <==> token_layout_ok(data@),
        r is Ok ==> token_fields_of(data@, r->Ok_0),
{
    let a = spl_token::state::Account::unpack_from_slice(data)?;
    Ok(TokenAccountInfo { mint: a.mint.to_bytes(), owner: a.owner.to_bytes(), amount: a.amount })
}

} // verus!
