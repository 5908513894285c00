//! The persisted records and their fixed-width byte layouts.
use crate::error::EscrowError;
use crate::host::{sha256, sha256_of};
use crate::instruction::InitParty;
use crate::keys::{append_bytes, copy_bytes, Key};
use vstd::bytes::{
    lemma_auto_spec_u64_to_from_le_bytes, spec_u64_from_le_bytes, spec_u64_to_le_bytes,
    u64_from_le_bytes, u64_to_le_bytes,
};
use vstd::prelude::*;
use vstd::slice::slice_subrange;

verus! {

/// Whether the buyer's claim is to buy the underlying (call) or to sell it (put).
#[derive(Debug, Clone, Copy, PartialEq, Eq)]
pub enum ContractType {
    CALL,
    PUT,
}

/// Lifecycle of a stored contract. A closed contract has no record at all.
#[derive(Debug, Clone, Copy, PartialEq, Eq)]
pub enum ContractState {
    /// The buyer has escrowed the premium and waits for a writer.
    BID,
    /// The writer has escrowed the collateral and waits for a buyer.
    ASK,
    /// Both legs are escrowed; settlement or expiry is pending.
    FINAL,
}

/// The accounts of one party: its identity, its escrow ("temp") account, the
/// account that receives the counter-asset, and its second receive account
/// (the premium for a writer, the position token for a buyer).
#[derive(Debug, Clone, Copy, PartialEq, Eq)]
pub struct PartyData {
    pub party_pub: Key,
    pub temp_pub: Key,
    pub receive_pub: Key,
    pub receive_ata: Key,
}

/// The economic terms of a contract; immutable once an offer exists.
#[derive(Debug, Clone, Copy, PartialEq, Eq)]
pub struct ContractData {
    pub token_type: Key,
    pub token_qty: u64,
    pub expiry_date: i64,
    pub strike_type: Key,
    pub strike_qty: u64,
    pub premium_type: Key,
    pub premium_qty: u64,
}

/// The record stored at a contract's program-derived address.
#[derive(Debug, Clone, Copy, PartialEq, Eq)]
pub struct ContractPDA {
    pub contract_data: ContractData,
    pub contract_state: ContractState,
    pub buyer_data: Option<PartyData>,
    pub writer_data: Option<PartyData>,
    pub is_initialised: bool,
    /// Digest of the 128-byte terms block; not stored, recomputed on decode.
    pub seed: Key,
    pub index_seed: Key,
    pub bump: u8,
    pub init_party: InitParty,
    pub contract_type: ContractType,
}

/// The record stored at a position mint's program-derived address.
#[derive(Debug, Clone, Copy, PartialEq, Eq)]
pub struct MintPDA {
    pub holder_mint: Key,
}

/// The terms block: token type, token quantity, expiry, strike type, strike
/// quantity, premium type, premium quantity; integers little-endian.
pub open spec fn terms_bytes(c: ContractData) -> Seq<u8> {
    c.token_type@ + spec_u64_to_le_bytes(c.token_qty) + spec_u64_to_le_bytes(c.expiry_date as u64)
        + c.strike_type@ + spec_u64_to_le_bytes(c.strike_qty) + c.premium_type@
        + spec_u64_to_le_bytes(c.premium_qty)
}

/// The terms block without the premium quantity, which is its last 8 bytes.
pub open spec fn mint_terms_bytes(c: ContractData) -> Seq<u8> {
    terms_bytes(c).subrange(0, 120)
}

/// The four keys of a party, one after the other.
pub open spec fn party_bytes(p: PartyData) -> Seq<u8> {
    p.party_pub@ + p.temp_pub@ + p.receive_pub@ + p.receive_ata@
}

/// 128 zero bytes: the block of an absent party.
pub open spec fn zero_block() -> Seq<u8> {
    Seq::new(128, |_i: int| 0u8)
}

/// The party block of a record slot.
pub open spec fn party_slot(p: Option<PartyData>) -> Seq<u8> {
    match p {
        Some(p) => party_bytes(p),
        None => zero_block(),
    }
}

pub open spec fn flag_byte(b: bool) -> u8 {
    if b { 1 } else { 0 }
}

pub open spec fn state_byte(s: ContractState) -> u8 {
    match s {
        ContractState::BID => 0,
        ContractState::ASK => 1,
        ContractState::FINAL => 2,
    }
}

pub open spec fn party_byte(p: InitParty) -> u8 {
    match p {
        InitParty::BUYER => 0,
        InitParty::WRITER => 1,
    }
}

pub open spec fn kind_byte(k: ContractType) -> u8 {
    match k {
        ContractType::CALL => 0,
        ContractType::PUT => 1,
    }
}

/// The digest that seeds a contract's address: SHA-256 of the terms block.
pub open spec fn terms_seed_of(c: ContractData) -> Key {
    sha256_of(terms_bytes(c))
}

/// The digest that seeds a position mint's address: SHA-256 of the terms block
/// without the premium quantity.
pub open spec fn mint_seed_of(c: ContractData) -> Key {
    sha256_of(mint_terms_bytes(c))
}

impl ContractPDA {
    /// The record's invariant: exactly one party while an offer is open, both
    /// once it is final, and the seed is the digest of the terms.
    pub open spec fn wf(&self) -> bool {
        &&& match self.contract_state {
            ContractState::BID => self.buyer_data is Some && self.writer_data is None,
            ContractState::ASK => self.buyer_data is None && self.writer_data is Some,
            ContractState::FINAL => self.buyer_data is Some && self.writer_data is Some,
        }
        &&& self.seed == terms_seed_of(self.contract_data)
    }
}

/// The 421 bytes of a contract record: initialised flag, terms, state, buyer
/// block, writer block, bump, opener, kind, index seed.
pub open spec fn record_bytes(r: ContractPDA) -> Seq<u8> {
    seq![flag_byte(r.is_initialised)] + terms_bytes(r.contract_data) + seq![
        state_byte(r.contract_state),
    ] + party_slot(r.buyer_data) + party_slot(r.writer_data) + seq![
        r.bump,
        party_byte(r.init_party),
        kind_byte(r.contract_type),
    ] + r.index_seed@
}

/// Whether the bytes `b` decode to the record `r`. The state byte selects which
/// party blocks are read; the other block is ignored.
pub open spec fn decoded_as(b: Seq<u8>, r: ContractPDA) -> bool {
    &&& b.len() == 421
    &&& r.wf()
    &&& b[0] == flag_byte(r.is_initialised)
    &&& b.subrange(1, 129) == terms_bytes(r.contract_data)
    &&& b[129] == state_byte(r.contract_state)
    &&& (r.buyer_data is Some ==> b.subrange(130, 258) == party_bytes(r.buyer_data->0))
    &&& (r.writer_data is Some ==> b.subrange(258, 386) == party_bytes(r.writer_data->0))
    &&& b[386] == r.bump
    &&& b[387] == party_byte(r.init_party)
    &&& b[388] == kind_byte(r.contract_type)
    &&& b.subrange(389, 421) == r.index_seed@
}

/// The record that the bytes decode to, if any.
pub open spec fn decode_record(b: Seq<u8>) -> Option<ContractPDA> {
    if exists|r: ContractPDA| decoded_as(b, r) {
        Some(choose|r: ContractPDA| decoded_as(b, r))
    } else {
        None
    }
}


/// A key is determined by its bytes.
pub proof fn lemma_key_from_view(a: Key, b: Key)
    requires
        a@ == b@,
    ensures
        a == b,
{
    assert(a =~= b);
}

proof fn lemma_expiry_bits(a: i64, b: i64)
    requires
        a as u64 == b as u64,
    ensures
        a == b,
{
    assert(a as u64 == b as u64 ==> a == b) by (bit_vector);
}

proof fn lemma_expiry_round(x: u64)
    ensures
        ((x as i64) as u64) == x,
{
    assert(((x as i64) as u64) == x) by (bit_vector);
}

/// Lengths and pieces of the terms block.
pub proof fn lemma_terms_layout(c: ContractData)
    ensures
        terms_bytes(c).len() == 128,
        terms_bytes(c).subrange(0, 32) == c.token_type@,
        terms_bytes(c).subrange(32, 40) == spec_u64_to_le_bytes(c.token_qty),
        terms_bytes(c).subrange(40, 48) == spec_u64_to_le_bytes(c.expiry_date as u64),
        terms_bytes(c).subrange(48, 80) == c.strike_type@,
        terms_bytes(c).subrange(80, 88) == spec_u64_to_le_bytes(c.strike_qty),
        terms_bytes(c).subrange(88, 120) == c.premium_type@,
        terms_bytes(c).subrange(120, 128) == spec_u64_to_le_bytes(c.premium_qty),
{
    lemma_auto_spec_u64_to_from_le_bytes();
    let t = terms_bytes(c);
    assert(t.subrange(0, 32) =~= c.token_type@);
    assert(t.subrange(32, 40) =~= spec_u64_to_le_bytes(c.token_qty));
    assert(t.subrange(40, 48) =~= spec_u64_to_le_bytes(c.expiry_date as u64));
    assert(t.subrange(48, 80) =~= c.strike_type@);
    assert(t.subrange(80, 88) =~= spec_u64_to_le_bytes(c.strike_qty));
    assert(t.subrange(88, 120) =~= c.premium_type@);
    assert(t.subrange(120, 128) =~= spec_u64_to_le_bytes(c.premium_qty));
}

/// Distinct terms have distinct blocks.
pub proof fn lemma_terms_injective(c1: ContractData, c2: ContractData)
    requires
        terms_bytes(c1) == terms_bytes(c2),
    ensures
        c1 == c2,
{
    lemma_auto_spec_u64_to_from_le_bytes();
    lemma_terms_layout(c1);
    lemma_terms_layout(c2);
    lemma_key_from_view(c1.token_type, c2.token_type);
    lemma_key_from_view(c1.strike_type, c2.strike_type);
    lemma_key_from_view(c1.premium_type, c2.premium_type);
    assert(spec_u64_from_le_bytes(spec_u64_to_le_bytes(c1.expiry_date as u64)) == c1.expiry_date as u64);
    lemma_expiry_bits(c1.expiry_date, c2.expiry_date);
}

/// Lengths and pieces of a party block.
pub proof fn lemma_party_layout(p: PartyData)
    ensures
        party_bytes(p).len() == 128,
        party_bytes(p).subrange(0, 32) == p.party_pub@,
        party_bytes(p).subrange(32, 64) == p.temp_pub@,
        party_bytes(p).subrange(64, 96) == p.receive_pub@,
        party_bytes(p).subrange(96, 128) == p.receive_ata@,
{
    let t = party_bytes(p);
    assert(t.subrange(0, 32) =~= p.party_pub@);
    assert(t.subrange(32, 64) =~= p.temp_pub@);
    assert(t.subrange(64, 96) =~= p.receive_pub@);
    assert(t.subrange(96, 128) =~= p.receive_ata@);
}

/// Distinct parties have distinct blocks.
pub proof fn lemma_party_injective(left: PartyData, right: PartyData)
    requires
        party_bytes(left) == party_bytes(right),
    ensures
        left == right,
{
    lemma_party_layout(left);
    lemma_party_layout(right);
    lemma_key_from_view(left.party_pub, right.party_pub);
    lemma_key_from_view(left.temp_pub, right.temp_pub);
    lemma_key_from_view(left.receive_pub, right.receive_pub);
    lemma_key_from_view(left.receive_ata, right.receive_ata);
}

/// At most one record decodes from given bytes.
pub proof fn lemma_decode_unique(b: Seq<u8>, r1: ContractPDA, r2: ContractPDA)
    requires
        decoded_as(b, r1),
        decoded_as(b, r2),
    ensures
        r1 == r2,
{
    lemma_terms_injective(r1.contract_data, r2.contract_data);
    if r1.buyer_data is Some {
        lemma_party_injective(r1.buyer_data->0, r2.buyer_data->0);
    }
    if r1.writer_data is Some {
        lemma_party_injective(r1.writer_data->0, r2.writer_data->0);
    }
    lemma_key_from_view(r1.index_seed, r2.index_seed);
}

/// A record that decodes from `b` is the one `decode_record` gives.
pub proof fn lemma_decode_record_is(b: Seq<u8>, r: ContractPDA)
    requires
        decoded_as(b, r),
    ensures
        decode_record(b) == Some(r),
{
    let c = choose|x: ContractPDA| decoded_as(b, x);
    lemma_decode_unique(b, c, r);
}


/// SHA-256 of a byte string: the digest used for every seed.
pub fn get_seed(bytes: &[u8]) -> (r: Key)
    ensures
        r == sha256_of(bytes@),
{
    sha256(bytes)
}

/// The 32 bytes of `b` from `at` on, as a key.
pub fn key_at(b: &[u8], at: usize) -> (k: Key)
    requires
        at + 32 <= b@.len(),
    ensures
        k@ == b@.subrange(at as int, at + 32),
{
    let n = b.len();
    let mut k = [0u8; 32];
    let mut i: usize = 0;
    while i < 32
        invariant
            0 <= i <= 32,
            at + 32 <= b@.len(),
            n == b@.len(),
            forall|j: int| 0 <= j < i ==> k[j] == b@[at + j],
        decreases 32 - i,
    {
        k[i] = b[at + i];
        i += 1;
    }
    assert(k@ =~= b@.subrange(at as int, at + 32));
    k
}

/// The little-endian integer in the 8 bytes of `b` from `at` on.
fn u64_at(b: &[u8], at: usize) -> (x: u64)
    requires
        at + 8 <= b@.len(),
    ensures
        x == spec_u64_from_le_bytes(b@.subrange(at as int, at + 8)),
{
    let n = b.len();
    u64_from_le_bytes(slice_subrange(b, at, at + 8))
}

impl ContractData {
    pub const LEN: usize = 128;

    /// Reads a terms block. Every 128-byte block is the encoding of exactly one set of terms.
    pub fn deserialize(data_array: &[u8]) -> (r: ContractData)
        requires
            data_array@.len() == 128,
        ensures
            terms_bytes(r) == data_array@,
    {
        let b = data_array;
        let token_type = key_at(b, 0);
        let token_qty = u64_at(b, 32);
        let expiry_bits = u64_at(b, 40);
        let strike_type = key_at(b, 48);
        let strike_qty = u64_at(b, 80);
        let premium_type = key_at(b, 88);
        let premium_qty = u64_at(b, 120);
        let r = ContractData {
            token_type,
            token_qty,
            expiry_date: expiry_bits as i64,
            strike_type,
            strike_qty,
            premium_type,
            premium_qty,
        };
        proof {
            lemma_auto_spec_u64_to_from_le_bytes();
            lemma_expiry_round(expiry_bits);
            lemma_terms_layout(r);
            let d = b@;
            assert(d =~= d.subrange(0, 32) + d.subrange(32, 40) + d.subrange(40, 48) + d.subrange(
                48,
                80,
            ) + d.subrange(80, 88) + d.subrange(88, 120) + d.subrange(120, 128));
        }
        r
    }

    /// Writes the terms block.
    pub fn serialize(&self) -> (r: [u8; 128])
        ensures
            r@ == terms_bytes(*self),
    {
        let mut v: Vec<u8> = Vec::new();
        append_bytes(&mut v, self.token_type.as_slice());
        append_bytes(&mut v, u64_to_le_bytes(self.token_qty).as_slice());
        append_bytes(&mut v, u64_to_le_bytes(self.expiry_date as u64).as_slice());
        append_bytes(&mut v, self.strike_type.as_slice());
        append_bytes(&mut v, u64_to_le_bytes(self.strike_qty).as_slice());
        append_bytes(&mut v, self.premium_type.as_slice());
        append_bytes(&mut v, u64_to_le_bytes(self.premium_qty).as_slice());
        proof {
            lemma_terms_layout(*self);
            assert(v@ =~= terms_bytes(*self));
        }
        let mut out = [0u8; 128];
        copy_bytes(&mut out, v.as_slice());
        out
    }

    /// The digest of the terms without the premium quantity, which seeds the position mint's address.
    pub fn get_seed(&self) -> (r: Key)
        ensures
            r == mint_seed_of(*self),
    {
        let t = self.serialize();
        sha256(slice_subrange(t.as_slice(), 0, 120))
    }
}

impl PartyData {
    /// Reads a party block.
    pub fn from_bytes(bytes: &[u8; 128]) -> (r: PartyData)
        ensures
            party_bytes(r) == bytes@,
    {
        let b = bytes.as_slice();
        let r = PartyData {
            party_pub: key_at(b, 0),
            temp_pub: key_at(b, 32),
            receive_pub: key_at(b, 64),
            receive_ata: key_at(b, 96),
        };
        proof {
            let d = bytes@;
            assert(d =~= d.subrange(0, 32) + d.subrange(32, 64) + d.subrange(64, 96) + d.subrange(
                96,
                128,
            ));
        }
        r
    }

    /// Writes a party block.
    pub fn to_bytes(&self) -> (r: [u8; 128])
        ensures
            r@ == party_bytes(*self),
    {
        let mut v: Vec<u8> = Vec::new();
        append_bytes(&mut v, self.party_pub.as_slice());
        append_bytes(&mut v, self.temp_pub.as_slice());
        append_bytes(&mut v, self.receive_pub.as_slice());
        append_bytes(&mut v, self.receive_ata.as_slice());
        proof {
            lemma_party_layout(*self);
            assert(v@ =~= party_bytes(*self));
        }
        let mut out = [0u8; 128];
        copy_bytes(&mut out, v.as_slice());
        out
    }
}


/// Lengths and pieces of a contract record.
pub proof fn lemma_record_layout(r: ContractPDA)
    ensures
        record_bytes(r).len() == 421,
        record_bytes(r)[0] == flag_byte(r.is_initialised),
        record_bytes(r).subrange(1, 129) == terms_bytes(r.contract_data),
        record_bytes(r)[129] == state_byte(r.contract_state),
        record_bytes(r).subrange(130, 258) == party_slot(r.buyer_data),
        record_bytes(r).subrange(258, 386) == party_slot(r.writer_data),
        record_bytes(r)[386] == r.bump,
        record_bytes(r)[387] == party_byte(r.init_party),
        record_bytes(r)[388] == kind_byte(r.contract_type),
        record_bytes(r).subrange(389, 421) == r.index_seed@,
{
    lemma_terms_layout(r.contract_data);
    if r.buyer_data is Some {
        lemma_party_layout(r.buyer_data->0);
    }
    if r.writer_data is Some {
        lemma_party_layout(r.writer_data->0);
    }
    let b = record_bytes(r);
    assert(b.subrange(1, 129) =~= terms_bytes(r.contract_data));
    assert(b.subrange(130, 258) =~= party_slot(r.buyer_data));
    assert(b.subrange(258, 386) =~= party_slot(r.writer_data));
    assert(b.subrange(389, 421) =~= r.index_seed@);
}

/// Decoding the encoding of a well-formed record gives the record back, so a
/// second encoding is byte-identical to the first.
pub proof fn lemma_record_round_trip(r: ContractPDA)
    requires
        r.wf(),
    ensures
        decode_record(record_bytes(r)) == Some(r),
        record_bytes(decode_record(record_bytes(r))->0) == record_bytes(r),
{
    lemma_record_layout(r);
    assert(decoded_as(record_bytes(r), r));
    lemma_decode_record_is(record_bytes(r), r);
}

/// Decoding the encoding of a position-mint record gives it back.
pub proof fn lemma_mint_round_trip(m: MintPDA)
    ensures
        mint_decodes_as(mint_bytes(m), m),
        forall|m2: MintPDA| #[trigger] mint_decodes_as(mint_bytes(m), m2) ==> m2 == m,
{
    assert forall|m2: MintPDA| #[trigger] mint_decodes_as(mint_bytes(m), m2) implies m2 == m by {
        lemma_key_from_view(m2.holder_mint, m.holder_mint);
    }
}

/// The 32 bytes of a position-mint record: the holder mint's key.
pub open spec fn mint_bytes(m: MintPDA) -> Seq<u8> {
    m.holder_mint@
}

/// Whether the bytes `b` decode to the position-mint record `m`.
pub open spec fn mint_decodes_as(b: Seq<u8>, m: MintPDA) -> bool {
    b.len() == 32 && m.holder_mint@ == b
}

/// The block of a record slot: the party's keys, or zeros where it is absent.
fn slot_bytes(p: &Option<PartyData>) -> (r: [u8; 128])
    ensures
        r@ == party_slot(*p),
{
    match p {
        Some(pd) => pd.to_bytes(),
        None => {
            let zeros = [0u8; 128];
            assert(zeros@ =~= zero_block());
            zeros
        },
    }
}

fn state_from_byte(x: u8) -> (r: Option<ContractState>)
    ensures
        match r {
            Some(s) => state_byte(s) == x,
            None => x > 2,
        },
{
    match x {
        0 => Some(ContractState::BID),
        1 => Some(ContractState::ASK),
        2 => Some(ContractState::FINAL),
        _ => None,
    }
}

impl ContractPDA {
    pub const LEN: usize = 421;

    pub fn is_initialized(&self) -> (r: bool)
        ensures
            r == self.is_initialised,
    {
        self.is_initialised
    }

    /// Reads a contract record. It fails on a length other than 421 and on an
    /// unknown flag, opener, kind or state byte; the state byte selects which
    /// party blocks are read.
    pub fn unpack_from_slice(src: &[u8]) -> (r: Result<ContractPDA, EscrowError>)
        ensures
            match decode_record(src@) {
                Some(rec) => r == Ok::<ContractPDA, EscrowError>(rec),
                None => r == Err::<ContractPDA, EscrowError>(EscrowError::MalformedInput),
            },
    {
        if src.len() != 421 {
            return Err(EscrowError::MalformedInput);
        }
        let is_initialised = match src[0] {
            0 => false,
            1 => true,
            _ => {
                return Err(EscrowError::MalformedInput);
            },
        };
        let init_party = match src[387] {
            0 => InitParty::BUYER,
            1 => InitParty::WRITER,
            _ => {
                return Err(EscrowError::MalformedInput);
            },
        };
        let contract_type = match src[388] {
            0 => ContractType::CALL,
            1 => ContractType::PUT,
            _ => {
                return Err(EscrowError::MalformedInput);
            },
        };
        let contract_state = match state_from_byte(src[129]) {
            Some(s) => s,
            None => {
                return Err(EscrowError::MalformedInput);
            },
        };
        let terms = slice_subrange(src, 1, 129);
        let contract_data = ContractData::deserialize(terms);
        let seed = sha256(terms);
        let mut buyer_block = [0u8; 128];
        copy_bytes(&mut buyer_block, slice_subrange(src, 130, 258));
        let mut writer_block = [0u8; 128];
        copy_bytes(&mut writer_block, slice_subrange(src, 258, 386));
        let (buyer_data, writer_data) = match contract_state {
            ContractState::BID => (Some(PartyData::from_bytes(&buyer_block)), None),
            ContractState::ASK => (None, Some(PartyData::from_bytes(&writer_block))),
            ContractState::FINAL => (
                Some(PartyData::from_bytes(&buyer_block)),
                Some(PartyData::from_bytes(&writer_block)),
            ),
        };
        let rec = ContractPDA {
            contract_data,
            contract_state,
            buyer_data,
            writer_data,
            is_initialised,
            seed,
            index_seed: key_at(src, 389),
            bump: src[386],
            init_party,
            contract_type,
        };
        proof {
            assert(decoded_as(src@, rec));
            lemma_decode_record_is(src@, rec);
        }
        Ok(rec)
    }

    /// Writes the record into a buffer of exactly 421 bytes; an absent party's
    /// block is written as zeros.
    pub fn pack_into_slice(&self, dst: &mut [u8])
        requires
            old(dst)@.len() == 421,
        ensures
            final(dst)@ == record_bytes(*self),
    {
        let mut v: Vec<u8> = Vec::new();
        v.push(if self.is_initialised { 1u8 } else { 0u8 });
        assert(v@ =~= seq![flag_byte(self.is_initialised)]);
        append_bytes(&mut v, self.contract_data.serialize().as_slice());
        let ghost head = v@;
        v.push(
            match self.contract_state {
                ContractState::BID => 0u8,
                ContractState::ASK => 1u8,
                ContractState::FINAL => 2u8,
            },
        );
        assert(v@ =~= head + seq![state_byte(self.contract_state)]);
        append_bytes(&mut v, slot_bytes(&self.buyer_data).as_slice());
        append_bytes(&mut v, slot_bytes(&self.writer_data).as_slice());
        let ghost mid = v@;
        v.push(self.bump);
        v.push(
            match self.init_party {
                InitParty::BUYER => 0u8,
                InitParty::WRITER => 1u8,
            },
        );
        v.push(
            match self.contract_type {
                ContractType::CALL => 0u8,
                ContractType::PUT => 1u8,
            },
        );
        assert(v@ =~= mid + seq![
            self.bump,
            party_byte(self.init_party),
            kind_byte(self.contract_type),
        ]);
        append_bytes(&mut v, self.index_seed.as_slice());
        copy_bytes(dst, v.as_slice());
    }
}

impl MintPDA {
    pub const LEN: usize = 32;

    /// Reads a position-mint record: exactly 32 bytes, the holder mint's key.
    pub fn unpack_from_slice(src: &[u8]) -> (r: Result<MintPDA, EscrowError>)
        ensures
            r is Ok <==> src@.len() == 32,
            r is Ok ==> mint_decodes_as(src@, r->Ok_0),
            r is Err ==> r == Err::<MintPDA, EscrowError>(EscrowError::MalformedInput),
    {
        if src.len() != 32 {
            return Err(EscrowError::MalformedInput);
        }
        let m = MintPDA { holder_mint: key_at(src, 0) };
        assert(src@.subrange(0, 32) =~= src@);
        Ok(m)
    }

    /// Writes the record into the first 32 bytes of `dst`.
    pub fn pack_into_slice(&self, dst: &mut [u8])
        requires
            old(dst)@.len() >= 32,
        ensures
            final(dst)@ == mint_bytes(*self) + old(dst)@.subrange(32, old(dst)@.len() as int),
    {
        let mut v: Vec<u8> = Vec::new();
        append_bytes(&mut v, self.holder_mint.as_slice());
        let mut i: usize = 32;
        while i < dst.len()
            invariant
                32 <= i <= dst@.len(),
                dst@ == old(dst)@,
                v@ == mint_bytes(*self) + old(dst)@.subrange(32, i as int),
            decreases dst@.len() - i,
        {
            v.push(dst[i]);
            i += 1;
            assert(old(dst)@.subrange(32, i as int) =~= old(dst)@.subrange(32, i - 1) + seq![
                old(dst)@[i - 1],
            ]);
        }
        copy_bytes(dst, v.as_slice());
    }
}

} // verus!
