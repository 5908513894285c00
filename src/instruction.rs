//! Instruction decoding: the command byte and the inline offer data.
use crate::error::EscrowError;
use crate::host::sha256_of;
use crate::keys::Key;
use crate::seeds::{contract_address, contract_address_of, index_seed};
use crate::state::{get_seed, key_at, kind_byte, terms_bytes, ContractData, ContractType};
use vstd::prelude::*;
use vstd::slice::slice_subrange;

verus! {

/// The party that opened an offer.
#[derive(Debug, Clone, Copy, PartialEq, Eq)]
pub enum InitParty {
    BUYER,
    WRITER,
}

/// An offer as the decoder hands it to the engine, with its seeds and its
/// derived record address already computed.
#[derive(Debug, Clone, Copy, PartialEq, Eq)]
pub struct OfferData {
    pub contract_data: ContractData,
    pub pda: Key,
    pub bump: u8,
    pub seed: Key,
    pub party: InitParty,
    pub contract_type: ContractType,
    pub index_seed: Key,
}

/// A decoded instruction.
#[derive(Debug, Clone, Copy, PartialEq, Eq)]
pub enum InstructionType {
    /// Open an offer as buyer (command 0).
    Bid { instruction: OfferData },
    /// Open an offer as writer (command 1).
    Ask { instruction: OfferData },
    /// A writer takes an open bid (command 2).
    AcceptBid,
    /// A buyer takes an open ask (command 3).
    AcceptAsk,
    /// The opener withdraws an unmatched offer (command 4).
    CancelOffer,
    /// The buyer exercises (command 5).
    Execute,
    /// The writer reclaims the collateral after expiry (command 6).
    Expire,
    /// Create the position mint for a kind tag and a mint seed (command 7).
    CreateMint { seeds: (u8, Key) },
}

/// Length of an open-offer instruction: command, kind, terms, disambiguator.
pub const OFFER_INSTRUCTION_LEN: usize = 171;

/// Length of a create-position-mint instruction: command, kind tag, mint seed.
pub const CREATE_MINT_INSTRUCTION_LEN: usize = 34;

/// The terms block of an open-offer instruction.
pub open spec fn offer_terms(d: Seq<u8>) -> Seq<u8> {
    d.subrange(2, 130)
}

/// The disambiguator block of an open-offer instruction.
pub open spec fn offer_disambiguator(d: Seq<u8>) -> Seq<u8> {
    d.subrange(130, 171)
}

/// Whether an open-offer instruction decodes: exact length, known kind, and an
/// address for its seeds.
pub open spec fn offer_ok(program: Key, d: Seq<u8>) -> bool {
    &&& d.len() == 171
    &&& d[1] < 2
    &&& contract_address_of(
        program,
        sha256_of(offer_terms(d)),
        sha256_of(offer_disambiguator(d)),
    ) is Some
}

/// Whether `od` is what an open-offer instruction `d` by `party` decodes to.
pub open spec fn offer_matches(program: Key, party: InitParty, d: Seq<u8>, od: OfferData) -> bool {
    &&& od.party == party
    &&& kind_byte(od.contract_type) == d[1]
    &&& terms_bytes(od.contract_data) == offer_terms(d)
    &&& od.seed == sha256_of(offer_terms(d))
    &&& od.index_seed == sha256_of(offer_disambiguator(d))
    &&& contract_address_of(program, od.seed, od.index_seed) == Some((od.pda, od.bump))
}

/// Whether the instruction bytes decode.
pub open spec fn instruction_ok(program: Key, d: Seq<u8>) -> bool {
    &&& d.len() >= 1
    &&& if d[0] == 0 || d[0] == 1 {
        offer_ok(program, d)
    } else if 2 <= d[0] <= 6 {
        d.len() == 1
    } else if d[0] == 7 {
        d.len() == 34
    } else {
        false
    }
}

/// Whether `ins` is what the well-formed instruction bytes `d` decode to.
pub open spec fn instruction_matches(program: Key, d: Seq<u8>, ins: InstructionType) -> bool {
    match ins {
        InstructionType::Bid { instruction } => d[0] == 0 && offer_matches(
            program,
            InitParty::BUYER,
            d,
            instruction,
        ),
        InstructionType::Ask { instruction } => d[0] == 1 && offer_matches(
            program,
            InitParty::WRITER,
            d,
            instruction,
        ),
        InstructionType::AcceptBid => d[0] == 2,
        InstructionType::AcceptAsk => d[0] == 3,
        InstructionType::CancelOffer => d[0] == 4,
        InstructionType::Execute => d[0] == 5,
        InstructionType::Expire => d[0] == 6,
        InstructionType::CreateMint { seeds } => d[0] == 7 && seeds.0 == d[1] && seeds.1@
            == d.subrange(2, 34),
    }
}

/// Decodes instruction bytes. Every refusal is `MalformedInput`.
pub fn decode_instruction(program_id: &Key, instruction_data: &[u8]) -> (r: Result<
    InstructionType,
    EscrowError,
>)
    ensures
        r is Ok <==> instruction_ok(*program_id, instruction_data@),
        r is Ok ==> instruction_matches(*program_id, instruction_data@, r->Ok_0),
        r is Err ==> r == Err::<InstructionType, EscrowError>(EscrowError::MalformedInput),
{
    let d = instruction_data;
    if d.len() == 0 {
        return Err(EscrowError::MalformedInput);
    }
    match d[0] {
        0 => build_offer_data(program_id, InitParty::BUYER, d),
        1 => build_offer_data(program_id, InitParty::WRITER, d),
        2 | 3 | 4 | 5 | 6 => {
            if d.len() != 1 {
                return Err(EscrowError::MalformedInput);
            }
            Ok(
                match d[0] {
                    2 => InstructionType::AcceptBid,
                    3 => InstructionType::AcceptAsk,
                    4 => InstructionType::CancelOffer,
                    5 => InstructionType::Execute,
                    _ => InstructionType::Expire,
                },
            )
        },
        7 => {
            if d.len() != CREATE_MINT_INSTRUCTION_LEN {
                return Err(EscrowError::MalformedInput);
            }
            Ok(InstructionType::CreateMint { seeds: (d[1], key_at(d, 2)) })
        },
        _ => Err(EscrowError::MalformedInput),
    }
}

/// Decodes the payload of an open-offer instruction and derives its seeds and address.
fn build_offer_data(pid: &Key, party: InitParty, instruction_data: &[u8]) -> (r: Result<
    InstructionType,
    EscrowError,
>)
    requires
        instruction_data@.len() >= 1,
        instruction_data@[0] == 0 || instruction_data@[0] == 1,
        party == (if instruction_data@[0] == 0 { InitParty::BUYER } else { InitParty::WRITER }),
    ensures
        r is Ok <==> offer_ok(*pid, instruction_data@),
        r is Ok ==> instruction_matches(*pid, instruction_data@, r->Ok_0),
        r is Err ==> r == Err::<InstructionType, EscrowError>(EscrowError::MalformedInput),
{
    let d = instruction_data;
    if d.len() != OFFER_INSTRUCTION_LEN {
        return Err(EscrowError::MalformedInput);
    }
    let contract_type = match d[1] {
        0 => ContractType::CALL,
        1 => ContractType::PUT,
        _ => {
            return Err(EscrowError::MalformedInput);
        },
    };
    let terms = slice_subrange(d, 2, 130);
    let mut disambiguator = [0u8; 41];
    let mut i: usize = 0;
    while i < 41
        invariant
            0 <= i <= 41,
            d@.len() == 171,
            forall|j: int| 0 <= j < i ==> disambiguator[j] == d@[130 + j],
        decreases 41 - i,
    {
        disambiguator[i] = d[130 + i];
        i += 1;
    }
    assert(disambiguator@ =~= offer_disambiguator(d@));
    let contract_data = ContractData::deserialize(terms);
    let seed = get_seed(terms);
    let index_seed = index_seed(&disambiguator);
    let (pda, bump) = match contract_address(pid, &seed, &index_seed) {
        Some(found) => found,
        None => {
            return Err(EscrowError::MalformedInput);
        },
    };
    let od = OfferData { contract_data, pda, bump, seed, index_seed, party, contract_type };
    match party {
        InitParty::BUYER => Ok(InstructionType::Bid { instruction: od }),
        InitParty::WRITER => Ok(InstructionType::Ask { instruction: od }),
    }
}

} // verus!
