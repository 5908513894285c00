//! The validation and settlement rules of each instruction.
//!
//! A handler reads the accounts it was given, in the order the protocol fixes,
//! re-derives every address it relies on, and either refuses the instruction
//! or returns the plan that carries it out. Checks run in a fixed order and
//! the first that fails gives the error.
use crate::error::EscrowError;
use crate::host::{
    is_system_program, is_token_program, system_program_id, token_program_id,
};
use crate::instruction::{InitParty, OfferData};
use crate::keys::{same_key, Key};
use crate::plan::{
    outcome_is, read_token, token_amount, token_mint, token_owner, token_readable, AccountView,
    CustodyOp, PdaSigner, Plan, PlanModel, RecordEffect,
};
use crate::seeds::{
    associated_address_of, associated_token_address, contract_address, contract_address_of,
    mint_address, mint_address_of,
};
use crate::state::{
    decode_record, kind_byte, mint_seed_of, terms_seed_of, ContractData, ContractPDA,
    ContractState, ContractType, MintPDA, PartyData,
};
use vstd::prelude::*;

verus! {

/// The writer's leg, escrowed until settlement: the underlying for a call,
/// the strike asset for a put. Type and quantity.
pub open spec fn escrow_leg(c: ContractData, k: ContractType) -> (Key, u64) {
    match k {
        ContractType::CALL => (c.token_type, c.token_qty),
        ContractType::PUT => (c.strike_type, c.strike_qty),
    }
}

/// The buyer's leg, paid on exercise: the strike asset for a call, the
/// underlying for a put. Type and quantity.
pub open spec fn payment_leg(c: ContractData, k: ContractType) -> (Key, u64) {
    match k {
        ContractType::CALL => (c.strike_type, c.strike_qty),
        ContractType::PUT => (c.token_type, c.token_qty),
    }
}

/// The signing seeds of a contract record.
pub open spec fn contract_signer(r: ContractPDA) -> PdaSigner {
    PdaSigner::Contract { terms_seed: r.seed, index_seed: r.index_seed, bump: r.bump }
}

/// Whether the two collaborator programs are the system and token programs.
pub open spec fn programs_ok(sys: AccountView, tok: AccountView) -> bool {
    sys.key@ == system_program_id() && tok.key@ == token_program_id()
}

/// Whether a record sits at the address, with the bump, that its own seeds derive.
pub open spec fn record_at(program: Key, rec: ContractPDA, address: Key) -> bool {
    contract_address_of(program, rec.seed, rec.index_seed) == Some((address, rec.bump))
}

/// The identity of the party that opened the offer, which gets the record's rent back.
pub open spec fn opener_key(rec: ContractPDA) -> Key {
    match rec.init_party {
        InitParty::BUYER => rec.buyer_data->0.party_pub,
        InitParty::WRITER => rec.writer_data->0.party_pub,
    }
}

/// Checks the position-mint record for the terms and kind: its address must be
/// the canonical one, and it must name the supplied holder mint. Gives the
/// mint record's signing seeds.
pub open spec fn position_mint_check(
    program: Key,
    terms: ContractData,
    kind: ContractType,
    mint_pda: AccountView,
    holder_mint: AccountView,
) -> Result<PdaSigner, EscrowError> {
    match mint_address_of(program, kind_byte(kind), mint_seed_of(terms)) {
        None => Err(EscrowError::IdentityMismatch),
        Some(found) => if mint_pda.key != found.0 {
            Err(EscrowError::IdentityMismatch)
        } else if mint_pda.data@.len() != 32 {
            Err(EscrowError::MalformedInput)
        } else if mint_pda.data@ != holder_mint.key@ {
            Err(EscrowError::IdentityMismatch)
        } else {
            Ok(
                PdaSigner::Mint {
                    kind_tag: kind_byte(kind),
                    mint_seed: mint_seed_of(terms),
                    bump: found.1,
                },
            )
        },
    }
}

impl ContractData {
    /// The writer's escrowed leg for the kind.
    pub fn escrow_leg(&self, k: ContractType) -> (r: (Key, u64))
        ensures
            r == escrow_leg(*self, k),
    {
        match k {
            ContractType::CALL => (self.token_type, self.token_qty),
            ContractType::PUT => (self.strike_type, self.strike_qty),
        }
    }

    /// The buyer's payment leg for the kind.
    pub fn payment_leg(&self, k: ContractType) -> (r: (Key, u64))
        ensures
            r == payment_leg(*self, k),
    {
        match k {
            ContractType::CALL => (self.strike_type, self.strike_qty),
            ContractType::PUT => (self.token_type, self.token_qty),
        }
    }
}

fn kind_tag(k: ContractType) -> (r: u8)
    ensures
        r == kind_byte(k),
{
    match k {
        ContractType::CALL => 0,
        ContractType::PUT => 1,
    }
}

fn check_programs(sys: &AccountView, tok: &AccountView) -> (r: Result<(), EscrowError>)
    ensures
        r is Ok <==> programs_ok(*sys, *tok),
        r is Err ==> r == Err::<(), EscrowError>(EscrowError::IdentityMismatch),
{
    if !is_system_program(&sys.key) || !is_token_program(&tok.key) {
        return Err(EscrowError::IdentityMismatch);
    }
    Ok(())
}

fn check_record_at(program: &Key, rec: &ContractPDA, address: &Key) -> (r: bool)
    ensures
        r == record_at(*program, *rec, *address),
{
    match contract_address(program, &rec.seed, &rec.index_seed) {
        Some((k, b)) => same_key(&k, address) && b == rec.bump,
        None => false,
    }
}

fn check_position_mint(
    program: &Key,
    terms: &ContractData,
    kind: ContractType,
    mint_pda: &AccountView,
    holder_mint: &AccountView,
) -> (r: Result<PdaSigner, EscrowError>)
    ensures
        r == position_mint_check(*program, *terms, kind, *mint_pda, *holder_mint),
{
    let tag = kind_tag(kind);
    let mint_seed = terms.get_seed();
    match mint_address(program, tag, &mint_seed) {
        None => Err(EscrowError::IdentityMismatch),
        Some((k, bump)) => {
            if !same_key(&mint_pda.key, &k) {
                return Err(EscrowError::IdentityMismatch);
            }
            let rec = match MintPDA::unpack_from_slice(mint_pda.data.as_slice()) {
                Ok(m) => m,
                Err(e) => {
                    return Err(e);
                },
            };
            if !same_key(&rec.holder_mint, &holder_mint.key) {
                return Err(EscrowError::IdentityMismatch);
            }
            Ok(PdaSigner::Mint { kind_tag: tag, mint_seed, bump })
        },
    }
}

/// Whether `x` fits in an `i64`.
pub open spec fn in_i64(x: int) -> bool {
    i64::MIN <= x <= i64::MAX
}

/// Converts the ledger clock to milliseconds: slot times 400 plus the unix
/// timestamp times 1000, or `None` where a product or the sum leaves the `i64` range.
pub fn clock_ms(slot: u64, unix_timestamp: i64) -> (r: Option<i64>)
    ensures
        r == (if in_i64(slot * 400) && in_i64(unix_timestamp * 1000) && in_i64(
            slot * 400 + unix_timestamp * 1000,
        ) {
            Some((slot * 400 + unix_timestamp * 1000) as i64)
        } else {
            None::<i64>
        }),
{
    if slot > (i64::MAX as u64) / 400 {
        return None;
    }
    let slot_ms = (slot * 400) as i64;
    match unix_timestamp.checked_mul(1000) {
        None => None,
        Some(unix_ms) => slot_ms.checked_add(unix_ms),
    }
}


/// The outcome of exercise. Accounts: buyer, buyer's payment account, buyer's
/// receive account, buyer's position-token account, position-mint record,
/// holder mint, writer's escrow, contract record, writer, writer's receive
/// account, system program, token program.
pub open spec fn execute_outcome(program: Key, a: Seq<AccountView>, now: i64) -> Result<
    PlanModel,
    EscrowError,
> {
    if a.len() < 12 {
        Err(EscrowError::MalformedInput)
    } else {
        let buyer = a[0];
        let buyer_temp = a[1];
        let buyer_receive = a[2];
        let holder_ata = a[3];
        let mint_pda = a[4];
        let holder_mint = a[5];
        let writer_temp = a[6];
        let data_pda = a[7];
        let writer = a[8];
        let writer_receive = a[9];
        match decode_record(data_pda.data@) {
            None => Err(EscrowError::MalformedInput),
            Some(rec) => {
                let terms = rec.contract_data;
                let pay = payment_leg(terms, rec.contract_type);
                let escrow = escrow_leg(terms, rec.contract_type);
                let wd = rec.writer_data->0;
                if rec.contract_state != ContractState::FINAL {
                    Err(EscrowError::StateViolation)
                } else if now > terms.expiry_date {
                    Err(EscrowError::StateViolation)
                } else if !programs_ok(a[10], a[11]) {
                    Err(EscrowError::IdentityMismatch)
                } else if !record_at(program, rec, data_pda.key) {
                    Err(EscrowError::IdentityMismatch)
                } else if !buyer.is_signer {
                    Err(EscrowError::AuthorizationFailure)
                } else if !token_readable(buyer_temp.data@) || !token_readable(buyer_receive.data@)
                    || !token_readable(holder_ata.data@) {
                    Err(EscrowError::MalformedInput)
                } else if token_mint(buyer_temp.data@) != pay.0@ {
                    Err(EscrowError::IdentityMismatch)
                } else if token_amount(buyer_temp.data@) != pay.1 {
                    Err(EscrowError::BalanceViolation)
                } else if token_mint(buyer_receive.data@) != escrow.0@ {
                    Err(EscrowError::IdentityMismatch)
                } else if writer.key != wd.party_pub || writer_temp.key != wd.temp_pub
                    || writer_receive.key != wd.receive_pub {
                    Err(EscrowError::IdentityMismatch)
                } else {
                    match position_mint_check(program, terms, rec.contract_type, mint_pda, holder_mint) {
                        Err(e) => Err(e),
                        Ok(_) => if token_mint(holder_ata.data@) != holder_mint.key@ || token_owner(
                            holder_ata.data@,
                        ) != buyer.key@ {
                            Err(EscrowError::IdentityMismatch)
                        } else if token_amount(holder_ata.data@) != 1 {
                            Err(EscrowError::BalanceViolation)
                        } else {
                            Ok(
                                (
                                    seq![
                                        CustodyOp::Burn {
                                            account: holder_ata.key,
                                            mint: holder_mint.key,
                                            authority: buyer.key,
                                            amount: 1,
                                        },
                                        CustodyOp::Transfer {
                                            source: buyer_temp.key,
                                            destination: writer_receive.key,
                                            authority: buyer.key,
                                            amount: pay.1,
                                            signer: None,
                                        },
                                        CustodyOp::Transfer {
                                            source: writer_temp.key,
                                            destination: buyer_receive.key,
                                            authority: data_pda.key,
                                            amount: escrow.1,
                                            signer: Some(contract_signer(rec)),
                                        },
                                        CustodyOp::CloseAccount {
                                            account: writer_temp.key,
                                            destination: writer.key,
                                            authority: data_pda.key,
                                            signer: Some(contract_signer(rec)),
                                        },
                                    ],
                                    RecordEffect::Close {
                                        address: data_pda.key,
                                        rent_to: opener_key(rec),
                                    },
                                ),
                            )
                        },
                    }
                }
            },
        }
    }
}

fn opener(init_party: InitParty, bd: &PartyData, wd: &PartyData) -> (r: Key)
    ensures
        r == (match init_party {
            InitParty::BUYER => bd.party_pub,
            InitParty::WRITER => wd.party_pub,
        }),
{
    match init_party {
        InitParty::BUYER => bd.party_pub,
        InitParty::WRITER => wd.party_pub,
    }
}

/// Exercise by the buyer: burns one position token, pays the buyer's leg to
/// the writer, releases the writer's escrow to the buyer, closes the escrow
/// and the record.
pub fn execute_contract(program_id: &Key, accounts: &[AccountView], now: i64) -> (r: Result<
    Plan,
    EscrowError,
>)
    ensures
        outcome_is(r, execute_outcome(*program_id, accounts@, now)),
{
    if accounts.len() < 12 {
        return Err(EscrowError::MalformedInput);
    }
    let buyer = &accounts[0];
    let buyer_temp = &accounts[1];
    let buyer_receive = &accounts[2];
    let holder_ata = &accounts[3];
    let mint_pda = &accounts[4];
    let holder_mint = &accounts[5];
    let writer_temp = &accounts[6];
    let data_pda = &accounts[7];
    let writer = &accounts[8];
    let writer_receive = &accounts[9];
    let rec = match ContractPDA::unpack_from_slice(data_pda.data.as_slice()) {
        Ok(rec) => rec,
        Err(e) => {
            return Err(e);
        },
    };
    let terms = &rec.contract_data;
    let pay = terms.payment_leg(rec.contract_type);
    let escrow = terms.escrow_leg(rec.contract_type);
    let (bd, wd) = match (&rec.contract_state, &rec.buyer_data, &rec.writer_data) {
        (ContractState::FINAL, Some(bd), Some(wd)) => (*bd, *wd),
        _ => {
            return Err(EscrowError::StateViolation);
        },
    };
    if now > terms.expiry_date {
        return Err(EscrowError::StateViolation);
    }
    if let Err(e) = check_programs(&accounts[10], &accounts[11]) {
        return Err(e);
    }
    if !check_record_at(program_id, &rec, &data_pda.key) {
        return Err(EscrowError::IdentityMismatch);
    }
    if !buyer.is_signer {
        return Err(EscrowError::AuthorizationFailure);
    }
    let temp_info = match read_token(&buyer_temp.data) {
        Ok(i) => i,
        Err(e) => {
            return Err(e);
        },
    };
    let receive_info = match read_token(&buyer_receive.data) {
        Ok(i) => i,
        Err(e) => {
            return Err(e);
        },
    };
    let holder_info = match read_token(&holder_ata.data) {
        Ok(i) => i,
        Err(e) => {
            return Err(e);
        },
    };
    if !same_key(&temp_info.mint, &pay.0) {
        return Err(EscrowError::IdentityMismatch);
    }
    if temp_info.amount != pay.1 {
        return Err(EscrowError::BalanceViolation);
    }
    if !same_key(&receive_info.mint, &escrow.0) {
        return Err(EscrowError::IdentityMismatch);
    }
    if !same_key(&writer.key, &wd.party_pub) || !same_key(&writer_temp.key, &wd.temp_pub)
        || !same_key(&writer_receive.key, &wd.receive_pub) {
        return Err(EscrowError::IdentityMismatch);
    }
    if let Err(e) = check_position_mint(program_id, terms, rec.contract_type, mint_pda, holder_mint) {
        return Err(e);
    }
    if !same_key(&holder_info.mint, &holder_mint.key) || !same_key(&holder_info.owner, &buyer.key) {
        return Err(EscrowError::IdentityMismatch);
    }
    if holder_info.amount != 1 {
        return Err(EscrowError::BalanceViolation);
    }
    let signer = PdaSigner::Contract {
        terms_seed: rec.seed,
        index_seed: rec.index_seed,
        bump: rec.bump,
    };
    let ops = vec![
        CustodyOp::Burn {
            account: holder_ata.key,
            mint: holder_mint.key,
            authority: buyer.key,
            amount: 1,
        },
        CustodyOp::Transfer {
            source: buyer_temp.key,
            destination: writer_receive.key,
            authority: buyer.key,
            amount: pay.1,
            signer: None,
        },
        CustodyOp::Transfer {
            source: writer_temp.key,
            destination: buyer_receive.key,
            authority: data_pda.key,
            amount: escrow.1,
            signer: Some(signer),
        },
        CustodyOp::CloseAccount {
            account: writer_temp.key,
            destination: writer.key,
            authority: data_pda.key,
            signer: Some(signer),
        },
    ];
    let rent_to = opener(rec.init_party, &bd, &wd);
    Ok(Plan { ops, effect: RecordEffect::Close { address: data_pda.key, rent_to } })
}


/// The outcome of a writer taking an open bid. Accounts: writer, writer's
/// escrow, writer's receive account, writer's premium-receive account,
/// contract record, buyer's premium escrow, buyer, buyer's position-token
/// account, position-mint record, holder mint, system program, token program.
pub open spec fn accept_bid_outcome(program: Key, a: Seq<AccountView>, now: i64) -> Result<
    PlanModel,
    EscrowError,
> {
    if a.len() < 12 {
        Err(EscrowError::MalformedInput)
    } else {
        let writer = a[0];
        let writer_temp = a[1];
        let writer_receive = a[2];
        let receive_ata = a[3];
        let data_pda = a[4];
        let premium_temp = a[5];
        let buyer = a[6];
        let holder_ata = a[7];
        let mint_pda = a[8];
        let holder_mint = a[9];
        match decode_record(data_pda.data@) {
            None => Err(EscrowError::MalformedInput),
            Some(rec) => {
                let terms = rec.contract_data;
                let pay = payment_leg(terms, rec.contract_type);
                let escrow = escrow_leg(terms, rec.contract_type);
                let bd = rec.buyer_data->0;
                if rec.contract_state != ContractState::BID {
                    Err(EscrowError::StateViolation)
                } else if now > terms.expiry_date {
                    Err(EscrowError::StateViolation)
                } else if !programs_ok(a[10], a[11]) {
                    Err(EscrowError::IdentityMismatch)
                } else if !record_at(program, rec, data_pda.key) {
                    Err(EscrowError::IdentityMismatch)
                } else if !writer.is_signer {
                    Err(EscrowError::AuthorizationFailure)
                } else if !token_readable(writer_temp.data@) || !token_readable(writer_receive.data@)
                    || !token_readable(receive_ata.data@) || !token_readable(premium_temp.data@) {
                    Err(EscrowError::MalformedInput)
                } else if token_mint(writer_temp.data@) != escrow.0@ {
                    Err(EscrowError::IdentityMismatch)
                } else if token_amount(writer_temp.data@) != escrow.1 {
                    Err(EscrowError::BalanceViolation)
                } else if token_mint(writer_receive.data@) != pay.0@ {
                    Err(EscrowError::IdentityMismatch)
                } else if token_mint(receive_ata.data@) != terms.premium_type@ {
                    Err(EscrowError::IdentityMismatch)
                } else if premium_temp.key != bd.temp_pub || buyer.key != bd.party_pub
                    || holder_ata.key != bd.receive_ata {
                    Err(EscrowError::IdentityMismatch)
                } else {
                    match position_mint_check(program, terms, rec.contract_type, mint_pda, holder_mint) {
                        Err(e) => Err(e),
                        Ok(mint_signer) => Ok(
                            (
                                seq![
                                    CustodyOp::SetOwner {
                                        account: writer_temp.key,
                                        new_owner: data_pda.key,
                                        authority: writer.key,
                                        signer: None,
                                    },
                                    CustodyOp::Transfer {
                                        source: premium_temp.key,
                                        destination: receive_ata.key,
                                        authority: data_pda.key,
                                        amount: token_amount(premium_temp.data@),
                                        signer: Some(contract_signer(rec)),
                                    },
                                    CustodyOp::CloseAccount {
                                        account: premium_temp.key,
                                        destination: buyer.key,
                                        authority: data_pda.key,
                                        signer: Some(contract_signer(rec)),
                                    },
                                    CustodyOp::MintTo {
                                        mint: holder_mint.key,
                                        destination: holder_ata.key,
                                        authority: mint_pda.key,
                                        amount: 1,
                                        signer: Some(mint_signer),
                                    },
                                ],
                                RecordEffect::StoreContract {
                                    address: data_pda.key,
                                    record: ContractPDA {
                                        contract_state: ContractState::FINAL,
                                        writer_data: Some(
                                            PartyData {
                                                party_pub: writer.key,
                                                temp_pub: writer_temp.key,
                                                receive_pub: writer_receive.key,
                                                receive_ata: receive_ata.key,
                                            },
                                        ),
                                        ..rec
                                    },
                                },
                            ),
                        ),
                    }
                }
            },
        }
    }
}

/// A writer takes an open bid: the writer's escrow passes to the record, the
/// buyer's premium goes to the writer, the premium escrow is closed, and one
/// position token is minted to the buyer. The record becomes final.
pub fn accept_bid(program_id: &Key, accounts: &[AccountView], now: i64) -> (r: Result<
    Plan,
    EscrowError,
>)
    ensures
        outcome_is(r, accept_bid_outcome(*program_id, accounts@, now)),
{
    if accounts.len() < 12 {
        return Err(EscrowError::MalformedInput);
    }
    let writer = &accounts[0];
    let writer_temp = &accounts[1];
    let writer_receive = &accounts[2];
    let receive_ata = &accounts[3];
    let data_pda = &accounts[4];
    let premium_temp = &accounts[5];
    let buyer = &accounts[6];
    let holder_ata = &accounts[7];
    let mint_pda = &accounts[8];
    let holder_mint = &accounts[9];
    let rec = match ContractPDA::unpack_from_slice(data_pda.data.as_slice()) {
        Ok(rec) => rec,
        Err(e) => {
            return Err(e);
        },
    };
    let terms = &rec.contract_data;
    let pay = terms.payment_leg(rec.contract_type);
    let escrow = terms.escrow_leg(rec.contract_type);
    let bd = match (&rec.contract_state, &rec.buyer_data) {
        (ContractState::BID, Some(bd)) => *bd,
        _ => {
            return Err(EscrowError::StateViolation);
        },
    };
    if now > terms.expiry_date {
        return Err(EscrowError::StateViolation);
    }
    if let Err(e) = check_programs(&accounts[10], &accounts[11]) {
        return Err(e);
    }
    if !check_record_at(program_id, &rec, &data_pda.key) {
        return Err(EscrowError::IdentityMismatch);
    }
    if !writer.is_signer {
        return Err(EscrowError::AuthorizationFailure);
    }
    let temp_info = match read_token(&writer_temp.data) {
        Ok(i) => i,
        Err(e) => {
            return Err(e);
        },
    };
    let receive_info = match read_token(&writer_receive.data) {
        Ok(i) => i,
        Err(e) => {
            return Err(e);
        },
    };
    let premium_receive_info = match read_token(&receive_ata.data) {
        Ok(i) => i,
        Err(e) => {
            return Err(e);
        },
    };
    let premium_info = match read_token(&premium_temp.data) {
        Ok(i) => i,
        Err(e) => {
            return Err(e);
        },
    };
    if !same_key(&temp_info.mint, &escrow.0) {
        return Err(EscrowError::IdentityMismatch);
    }
    if temp_info.amount != escrow.1 {
        return Err(EscrowError::BalanceViolation);
    }
    if !same_key(&receive_info.mint, &pay.0) {
        return Err(EscrowError::IdentityMismatch);
    }
    if !same_key(&premium_receive_info.mint, &terms.premium_type) {
        return Err(EscrowError::IdentityMismatch);
    }
    if !same_key(&premium_temp.key, &bd.temp_pub) || !same_key(&buyer.key, &bd.party_pub)
        || !same_key(&holder_ata.key, &bd.receive_ata) {
        return Err(EscrowError::IdentityMismatch);
    }
    let mint_signer = match check_position_mint(
        program_id,
        terms,
        rec.contract_type,
        mint_pda,
        holder_mint,
    ) {
        Ok(s) => s,
        Err(e) => {
            return Err(e);
        },
    };
    let signer = PdaSigner::Contract {
        terms_seed: rec.seed,
        index_seed: rec.index_seed,
        bump: rec.bump,
    };
    let ops = vec![
        CustodyOp::SetOwner {
            account: writer_temp.key,
            new_owner: data_pda.key,
            authority: writer.key,
            signer: None,
        },
        CustodyOp::Transfer {
            source: premium_temp.key,
            destination: receive_ata.key,
            authority: data_pda.key,
            amount: premium_info.amount,
            signer: Some(signer),
        },
        CustodyOp::CloseAccount {
            account: premium_temp.key,
            destination: buyer.key,
            authority: data_pda.key,
            signer: Some(signer),
        },
        CustodyOp::MintTo {
            mint: holder_mint.key,
            destination: holder_ata.key,
            authority: mint_pda.key,
            amount: 1,
            signer: Some(mint_signer),
        },
    ];
    let record = ContractPDA {
        contract_state: ContractState::FINAL,
        writer_data: Some(
            PartyData {
                party_pub: writer.key,
                temp_pub: writer_temp.key,
                receive_pub: writer_receive.key,
                receive_ata: receive_ata.key,
            },
        ),
        ..rec
    };
    Ok(Plan { ops, effect: RecordEffect::StoreContract { address: data_pda.key, record } })
}


/// The record that opening an offer stores, with the opener's accounts.
pub open spec fn offered_record(od: OfferData, pd: PartyData) -> ContractPDA {
    ContractPDA {
        contract_data: od.contract_data,
        contract_state: match od.party {
            InitParty::BUYER => ContractState::BID,
            InitParty::WRITER => ContractState::ASK,
        },
        buyer_data: match od.party {
            InitParty::BUYER => Some(pd),
            InitParty::WRITER => None,
        },
        writer_data: match od.party {
            InitParty::BUYER => None,
            InitParty::WRITER => Some(pd),
        },
        is_initialised: true,
        seed: od.seed,
        index_seed: od.index_seed,
        bump: od.bump,
        init_party: od.party,
        contract_type: od.contract_type,
    }
}

/// Whether the offer's seed is the digest of its terms and its address and
/// bump are the ones its seeds derive.
pub open spec fn offer_consistent(program: Key, od: OfferData) -> bool {
    &&& od.seed == terms_seed_of(od.contract_data)
    &&& contract_address_of(program, od.seed, od.index_seed) == Some((od.pda, od.bump))
}

/// The outcome of opening an offer. Accounts: opener, opener's escrow,
/// opener's receive account, opener's second receive account (premium for a
/// writer, position token for a buyer), position-mint record, holder mint,
/// contract record, system program, token program.
pub open spec fn initialise_outcome(program: Key, a: Seq<AccountView>, od: OfferData) -> Result<
    PlanModel,
    EscrowError,
> {
    if a.len() < 9 {
        Err(EscrowError::MalformedInput)
    } else {
        let initialiser = a[0];
        let token_temp = a[1];
        let receive_acc = a[2];
        let receive_ata = a[3];
        let mint_pda = a[4];
        let holder_mint = a[5];
        let data_pda = a[6];
        let terms = od.contract_data;
        let escrow = escrow_leg(terms, od.contract_type);
        let pay = payment_leg(terms, od.contract_type);
        let (temp_type, temp_qty, rec_type) = match od.party {
            InitParty::BUYER => (terms.premium_type, terms.premium_qty, escrow.0),
            InitParty::WRITER => (escrow.0, escrow.1, pay.0),
        };
        let pd = PartyData {
            party_pub: initialiser.key,
            temp_pub: token_temp.key,
            receive_pub: receive_acc.key,
            receive_ata: receive_ata.key,
        };
        let plan = (
            seq![
                CustodyOp::CreateAccount {
                    payer: initialiser.key,
                    address: od.pda,
                    space: 421,
                    owner: program,
                    signer: Some(
                        PdaSigner::Contract {
                            terms_seed: od.seed,
                            index_seed: od.index_seed,
                            bump: od.bump,
                        },
                    ),
                },
                CustodyOp::SetOwner {
                    account: token_temp.key,
                    new_owner: od.pda,
                    authority: initialiser.key,
                    signer: None,
                },
            ],
            RecordEffect::StoreContract { address: od.pda, record: offered_record(od, pd) },
        );
        if !programs_ok(a[7], a[8]) {
            Err(EscrowError::IdentityMismatch)
        } else if data_pda.key != od.pda || !offer_consistent(program, od) {
            Err(EscrowError::IdentityMismatch)
        } else if !initialiser.is_signer {
            Err(EscrowError::AuthorizationFailure)
        } else if data_pda.data@.len() != 0 {
            Err(EscrowError::StateViolation)
        } else if !token_readable(token_temp.data@) || !token_readable(receive_acc.data@) {
            Err(EscrowError::MalformedInput)
        } else if token_mint(token_temp.data@) != temp_type@ {
            Err(EscrowError::IdentityMismatch)
        } else if token_amount(token_temp.data@) != temp_qty {
            Err(EscrowError::BalanceViolation)
        } else if token_mint(receive_acc.data@) != rec_type@ {
            Err(EscrowError::IdentityMismatch)
        } else {
            match od.party {
                InitParty::WRITER => if !token_readable(receive_ata.data@) {
                    Err(EscrowError::MalformedInput)
                } else if token_mint(receive_ata.data@) != terms.premium_type@ {
                    Err(EscrowError::IdentityMismatch)
                } else {
                    Ok(plan)
                },
                InitParty::BUYER => match position_mint_check(
                    program,
                    terms,
                    od.contract_type,
                    mint_pda,
                    holder_mint,
                ) {
                    Err(e) => Err(e),
                    Ok(_) => if associated_address_of(initialiser.key, holder_mint.key) != Some(
                        receive_ata.key,
                    ) {
                        Err(EscrowError::IdentityMismatch)
                    } else {
                        Ok(plan)
                    },
                },
            }
        }
    }
}

/// Opens an offer as buyer or writer: creates the record at its derived
/// address, hands the opener's escrow to it, and stores the record in state
/// bid or ask.
pub fn initialise_contract(program_id: &Key, accounts: &[AccountView], instruction: OfferData) -> (r:
    Result<Plan, EscrowError>)
    ensures
        outcome_is(r, initialise_outcome(*program_id, accounts@, instruction)),
{
    let od = instruction;
    if accounts.len() < 9 {
        return Err(EscrowError::MalformedInput);
    }
    let initialiser = &accounts[0];
    let token_temp = &accounts[1];
    let receive_acc = &accounts[2];
    let receive_ata = &accounts[3];
    let mint_pda = &accounts[4];
    let holder_mint = &accounts[5];
    let data_pda = &accounts[6];
    let terms = &od.contract_data;
    let escrow = terms.escrow_leg(od.contract_type);
    let pay = terms.payment_leg(od.contract_type);
    let (temp_type, temp_qty, rec_type) = match od.party {
        InitParty::BUYER => (terms.premium_type, terms.premium_qty, escrow.0),
        InitParty::WRITER => (escrow.0, escrow.1, pay.0),
    };
    if let Err(e) = check_programs(&accounts[7], &accounts[8]) {
        return Err(e);
    }
    if !same_key(&data_pda.key, &od.pda) {
        return Err(EscrowError::IdentityMismatch);
    }
    let seed = crate::seeds::terms_seed(terms);
    if !same_key(&seed, &od.seed) {
        return Err(EscrowError::IdentityMismatch);
    }
    match contract_address(program_id, &od.seed, &od.index_seed) {
        Some((k, b)) => {
            if !same_key(&k, &od.pda) || b != od.bump {
                return Err(EscrowError::IdentityMismatch);
            }
        },
        None => {
            return Err(EscrowError::IdentityMismatch);
        },
    }
    if !initialiser.is_signer {
        return Err(EscrowError::AuthorizationFailure);
    }
    if data_pda.data.len() != 0 {
        return Err(EscrowError::StateViolation);
    }
    let temp_info = match read_token(&token_temp.data) {
        Ok(i) => i,
        Err(e) => {
            return Err(e);
        },
    };
    let receive_info = match read_token(&receive_acc.data) {
        Ok(i) => i,
        Err(e) => {
            return Err(e);
        },
    };
    if !same_key(&temp_info.mint, &temp_type) {
        return Err(EscrowError::IdentityMismatch);
    }
    if temp_info.amount != temp_qty {
        return Err(EscrowError::BalanceViolation);
    }
    if !same_key(&receive_info.mint, &rec_type) {
        return Err(EscrowError::IdentityMismatch);
    }
    match od.party {
        InitParty::WRITER => {
            let premium_info = match read_token(&receive_ata.data) {
                Ok(i) => i,
                Err(e) => {
                    return Err(e);
                },
            };
            if !same_key(&premium_info.mint, &terms.premium_type) {
                return Err(EscrowError::IdentityMismatch);
            }
        },
        InitParty::BUYER => {
            if let Err(e) = check_position_mint(
                program_id,
                terms,
                od.contract_type,
                mint_pda,
                holder_mint,
            ) {
                return Err(e);
            }
            match associated_token_address(&initialiser.key, &holder_mint.key) {
                Some(ata) => {
                    if !same_key(&ata, &receive_ata.key) {
                        return Err(EscrowError::IdentityMismatch);
                    }
                },
                None => {
                    return Err(EscrowError::IdentityMismatch);
                },
            }
        },
    }
    let pd = PartyData {
        party_pub: initialiser.key,
        temp_pub: token_temp.key,
        receive_pub: receive_acc.key,
        receive_ata: receive_ata.key,
    };
    let record = ContractPDA {
        contract_data: od.contract_data,
        contract_state: match od.party {
            InitParty::BUYER => ContractState::BID,
            InitParty::WRITER => ContractState::ASK,
        },
        buyer_data: match od.party {
            InitParty::BUYER => Some(pd),
            InitParty::WRITER => None,
        },
        writer_data: match od.party {
            InitParty::BUYER => None,
            InitParty::WRITER => Some(pd),
        },
        is_initialised: true,
        seed: od.seed,
        index_seed: od.index_seed,
        bump: od.bump,
        init_party: od.party,
        contract_type: od.contract_type,
    };
    let ops = vec![
        CustodyOp::CreateAccount {
            payer: initialiser.key,
            address: od.pda,
            space: ContractPDA::LEN as u64,
            owner: *program_id,
            signer: Some(
                PdaSigner::Contract { terms_seed: od.seed, index_seed: od.index_seed, bump: od.bump },
            ),
        },
        CustodyOp::SetOwner {
            account: token_temp.key,
            new_owner: od.pda,
            authority: initialiser.key,
            signer: None,
        },
    ];
    Ok(Plan { ops, effect: RecordEffect::StoreContract { address: od.pda, record } })
}


/// The outcome of a buyer taking an open ask. Accounts: buyer, buyer's
/// premium account, buyer's receive account, buyer's position-token account,
/// position-mint record, holder mint, contract record, writer's
/// premium-receive account, system program, token program.
pub open spec fn accept_ask_outcome(program: Key, a: Seq<AccountView>, now: i64) -> Result<
    PlanModel,
    EscrowError,
> {
    if a.len() < 10 {
        Err(EscrowError::MalformedInput)
    } else {
        let buyer = a[0];
        let premium_temp = a[1];
        let buyer_receive = a[2];
        let holder_ata = a[3];
        let mint_pda = a[4];
        let holder_mint = a[5];
        let data_pda = a[6];
        let seller_premium = a[7];
        match decode_record(data_pda.data@) {
            None => Err(EscrowError::MalformedInput),
            Some(rec) => {
                let terms = rec.contract_data;
                let escrow = escrow_leg(terms, rec.contract_type);
                let wd = rec.writer_data->0;
                if rec.contract_state != ContractState::ASK {
                    Err(EscrowError::StateViolation)
                } else if now > terms.expiry_date {
                    Err(EscrowError::StateViolation)
                } else if !programs_ok(a[8], a[9]) {
                    Err(EscrowError::IdentityMismatch)
                } else if !record_at(program, rec, data_pda.key) {
                    Err(EscrowError::IdentityMismatch)
                } else if !buyer.is_signer {
                    Err(EscrowError::AuthorizationFailure)
                } else if !token_readable(premium_temp.data@) || !token_readable(buyer_receive.data@) {
                    Err(EscrowError::MalformedInput)
                } else if token_mint(premium_temp.data@) != terms.premium_type@ {
                    Err(EscrowError::IdentityMismatch)
                } else if token_amount(premium_temp.data@) != terms.premium_qty {
                    Err(EscrowError::BalanceViolation)
                } else if token_mint(buyer_receive.data@) != escrow.0@ {
                    Err(EscrowError::IdentityMismatch)
                } else if seller_premium.key != wd.receive_ata {
                    Err(EscrowError::IdentityMismatch)
                } else {
                    match position_mint_check(program, terms, rec.contract_type, mint_pda, holder_mint) {
                        Err(e) => Err(e),
                        Ok(mint_signer) => if associated_address_of(buyer.key, holder_mint.key)
                            != Some(holder_ata.key) {
                            Err(EscrowError::IdentityMismatch)
                        } else {
                            Ok(
                                (
                                    seq![
                                        CustodyOp::Transfer {
                                            source: premium_temp.key,
                                            destination: seller_premium.key,
                                            authority: buyer.key,
                                            amount: terms.premium_qty,
                                            signer: None,
                                        },
                                        CustodyOp::MintTo {
                                            mint: holder_mint.key,
                                            destination: holder_ata.key,
                                            authority: mint_pda.key,
                                            amount: 1,
                                            signer: Some(mint_signer),
                                        },
                                    ],
                                    RecordEffect::StoreContract {
                                        address: data_pda.key,
                                        record: ContractPDA {
                                            contract_state: ContractState::FINAL,
                                            buyer_data: Some(
                                                PartyData {
                                                    party_pub: buyer.key,
                                                    temp_pub: premium_temp.key,
                                                    receive_pub: buyer_receive.key,
                                                    receive_ata: holder_ata.key,
                                                },
                                            ),
                                            ..rec
                                        },
                                    },
                                ),
                            )
                        },
                    }
                }
            },
        }
    }
}

/// A buyer takes an open ask: the premium goes straight to the writer and one
/// position token is minted to the buyer. The record becomes final.
pub fn accept_ask(program_id: &Key, accounts: &[AccountView], now: i64) -> (r: Result<
    Plan,
    EscrowError,
>)
    ensures
        outcome_is(r, accept_ask_outcome(*program_id, accounts@, now)),
{
    if accounts.len() < 10 {
        return Err(EscrowError::MalformedInput);
    }
    let buyer = &accounts[0];
    let premium_temp = &accounts[1];
    let buyer_receive = &accounts[2];
    let holder_ata = &accounts[3];
    let mint_pda = &accounts[4];
    let holder_mint = &accounts[5];
    let data_pda = &accounts[6];
    let seller_premium = &accounts[7];
    let rec = match ContractPDA::unpack_from_slice(data_pda.data.as_slice()) {
        Ok(rec) => rec,
        Err(e) => {
            return Err(e);
        },
    };
    let terms = &rec.contract_data;
    let escrow = terms.escrow_leg(rec.contract_type);
    let wd = match (&rec.contract_state, &rec.writer_data) {
        (ContractState::ASK, Some(wd)) => *wd,
        _ => {
            return Err(EscrowError::StateViolation);
        },
    };
    if now > terms.expiry_date {
        return Err(EscrowError::StateViolation);
    }
    if let Err(e) = check_programs(&accounts[8], &accounts[9]) {
        return Err(e);
    }
    if !check_record_at(program_id, &rec, &data_pda.key) {
        return Err(EscrowError::IdentityMismatch);
    }
    if !buyer.is_signer {
        return Err(EscrowError::AuthorizationFailure);
    }
    let premium_info = match read_token(&premium_temp.data) {
        Ok(i) => i,
        Err(e) => {
            return Err(e);
        },
    };
    let receive_info = match read_token(&buyer_receive.data) {
        Ok(i) => i,
        Err(e) => {
            return Err(e);
        },
    };
    if !same_key(&premium_info.mint, &terms.premium_type) {
        return Err(EscrowError::IdentityMismatch);
    }
    if premium_info.amount != terms.premium_qty {
        return Err(EscrowError::BalanceViolation);
    }
    if !same_key(&receive_info.mint, &escrow.0) {
        return Err(EscrowError::IdentityMismatch);
    }
    if !same_key(&seller_premium.key, &wd.receive_ata) {
        return Err(EscrowError::IdentityMismatch);
    }
    let mint_signer = match check_position_mint(
        program_id,
        terms,
        rec.contract_type,
        mint_pda,
        holder_mint,
    ) {
        Ok(s) => s,
        Err(e) => {
            return Err(e);
        },
    };
    match associated_token_address(&buyer.key, &holder_mint.key) {
        Some(ata) => {
            if !same_key(&ata, &holder_ata.key) {
                return Err(EscrowError::IdentityMismatch);
            }
        },
        None => {
            return Err(EscrowError::IdentityMismatch);
        },
    }
    let ops = vec![
        CustodyOp::Transfer {
            source: premium_temp.key,
            destination: seller_premium.key,
            authority: buyer.key,
            amount: terms.premium_qty,
            signer: None,
        },
        CustodyOp::MintTo {
            mint: holder_mint.key,
            destination: holder_ata.key,
            authority: mint_pda.key,
            amount: 1,
            signer: Some(mint_signer),
        },
    ];
    let record = ContractPDA {
        contract_state: ContractState::FINAL,
        buyer_data: Some(
            PartyData {
                party_pub: buyer.key,
                temp_pub: premium_temp.key,
                receive_pub: buyer_receive.key,
                receive_ata: holder_ata.key,
            },
        ),
        ..rec
    };
    Ok(Plan { ops, effect: RecordEffect::StoreContract { address: data_pda.key, record } })
}

/// The outcome of expiry. Accounts: writer, writer's escrow, contract record,
/// buyer, system program, token program.
pub open spec fn expire_outcome(program: Key, a: Seq<AccountView>, now: i64) -> Result<
    PlanModel,
    EscrowError,
> {
    if a.len() < 6 {
        Err(EscrowError::MalformedInput)
    } else {
        let writer = a[0];
        let writer_temp = a[1];
        let data_pda = a[2];
        let buyer = a[3];
        match decode_record(data_pda.data@) {
            None => Err(EscrowError::MalformedInput),
            Some(rec) => {
                let wd = rec.writer_data->0;
                let bd = rec.buyer_data->0;
                if rec.contract_state != ContractState::FINAL {
                    Err(EscrowError::StateViolation)
                } else if now < rec.contract_data.expiry_date {
                    Err(EscrowError::StateViolation)
                } else if !programs_ok(a[4], a[5]) {
                    Err(EscrowError::IdentityMismatch)
                } else if !record_at(program, rec, data_pda.key) {
                    Err(EscrowError::IdentityMismatch)
                } else if writer.key != wd.party_pub || writer_temp.key != wd.temp_pub || buyer.key
                    != bd.party_pub {
                    Err(EscrowError::IdentityMismatch)
                } else {
                    Ok(
                        (
                            seq![
                                CustodyOp::SetOwner {
                                    account: writer_temp.key,
                                    new_owner: writer.key,
                                    authority: data_pda.key,
                                    signer: Some(contract_signer(rec)),
                                },
                            ],
                            RecordEffect::Close { address: data_pda.key, rent_to: opener_key(rec) },
                        ),
                    )
                }
            },
        }
    }
}

/// Expiry of a final contract at or after its expiry time: the writer's
/// escrow goes back to the writer and the record is closed. The position
/// token is left outstanding.
pub fn expire_contract(program_id: &Key, accounts: &[AccountView], now: i64) -> (r: Result<
    Plan,
    EscrowError,
>)
    ensures
        outcome_is(r, expire_outcome(*program_id, accounts@, now)),
{
    if accounts.len() < 6 {
        return Err(EscrowError::MalformedInput);
    }
    let writer = &accounts[0];
    let writer_temp = &accounts[1];
    let data_pda = &accounts[2];
    let buyer = &accounts[3];
    let rec = match ContractPDA::unpack_from_slice(data_pda.data.as_slice()) {
        Ok(rec) => rec,
        Err(e) => {
            return Err(e);
        },
    };
    let (bd, wd) = match (&rec.contract_state, &rec.buyer_data, &rec.writer_data) {
        (ContractState::FINAL, Some(bd), Some(wd)) => (*bd, *wd),
        _ => {
            return Err(EscrowError::StateViolation);
        },
    };
    if now < rec.contract_data.expiry_date {
        return Err(EscrowError::StateViolation);
    }
    if let Err(e) = check_programs(&accounts[4], &accounts[5]) {
        return Err(e);
    }
    if !check_record_at(program_id, &rec, &data_pda.key) {
        return Err(EscrowError::IdentityMismatch);
    }
    if !same_key(&writer.key, &wd.party_pub) || !same_key(&writer_temp.key, &wd.temp_pub)
        || !same_key(&buyer.key, &bd.party_pub) {
        return Err(EscrowError::IdentityMismatch);
    }
    let signer = PdaSigner::Contract {
        terms_seed: rec.seed,
        index_seed: rec.index_seed,
        bump: rec.bump,
    };
    let mut ops: Vec<CustodyOp> = Vec::new();
    ops.push(
        CustodyOp::SetOwner {
            account: writer_temp.key,
            new_owner: writer.key,
            authority: data_pda.key,
            signer: Some(signer),
        },
    );
    assert(ops@ =~= seq![
        CustodyOp::SetOwner {
            account: writer_temp.key,
            new_owner: writer.key,
            authority: data_pda.key,
            signer: Some(signer),
        },
    ]);
    let rent_to = opener(rec.init_party, &bd, &wd);
    Ok(Plan { ops, effect: RecordEffect::Close { address: data_pda.key, rent_to } })
}

/// The outcome of withdrawing an unmatched offer. Accounts: opener, opener's
/// escrow, contract record, system program, token program.
pub open spec fn cancel_outcome(program: Key, a: Seq<AccountView>) -> Result<PlanModel, EscrowError> {
    if a.len() < 5 {
        Err(EscrowError::MalformedInput)
    } else {
        let initialiser = a[0];
        let token_temp = a[1];
        let data_pda = a[2];
        match decode_record(data_pda.data@) {
            None => Err(EscrowError::MalformedInput),
            Some(rec) => {
                let pd = if rec.contract_state == ContractState::ASK {
                    rec.writer_data->0
                } else {
                    rec.buyer_data->0
                };
                if rec.contract_state == ContractState::FINAL {
                    Err(EscrowError::StateViolation)
                } else if !programs_ok(a[3], a[4]) {
                    Err(EscrowError::IdentityMismatch)
                } else if !record_at(program, rec, data_pda.key) {
                    Err(EscrowError::IdentityMismatch)
                } else if !initialiser.is_signer {
                    Err(EscrowError::AuthorizationFailure)
                } else if initialiser.key != pd.party_pub || token_temp.key != pd.temp_pub {
                    Err(EscrowError::IdentityMismatch)
                } else {
                    Ok(
                        (
                            seq![
                                CustodyOp::SetOwner {
                                    account: token_temp.key,
                                    new_owner: initialiser.key,
                                    authority: data_pda.key,
                                    signer: Some(contract_signer(rec)),
                                },
                            ],
                            RecordEffect::Close { address: data_pda.key, rent_to: initialiser.key },
                        ),
                    )
                }
            },
        }
    }
}

/// The opener withdraws an unmatched bid or ask: the escrow goes back to the
/// opener and the record is closed. No time restriction applies.
pub fn cancel_offer(program_id: &Key, accounts: &[AccountView]) -> (r: Result<Plan, EscrowError>)
    ensures
        outcome_is(r, cancel_outcome(*program_id, accounts@)),
{
    if accounts.len() < 5 {
        return Err(EscrowError::MalformedInput);
    }
    let initialiser = &accounts[0];
    let token_temp = &accounts[1];
    let data_pda = &accounts[2];
    let rec = match ContractPDA::unpack_from_slice(data_pda.data.as_slice()) {
        Ok(rec) => rec,
        Err(e) => {
            return Err(e);
        },
    };
    let pd = match (&rec.contract_state, &rec.buyer_data, &rec.writer_data) {
        (ContractState::ASK, _, Some(wd)) => *wd,
        (ContractState::BID, Some(bd), _) => *bd,
        _ => {
            return Err(EscrowError::StateViolation);
        },
    };
    if let Err(e) = check_programs(&accounts[3], &accounts[4]) {
        return Err(e);
    }
    if !check_record_at(program_id, &rec, &data_pda.key) {
        return Err(EscrowError::IdentityMismatch);
    }
    if !initialiser.is_signer {
        return Err(EscrowError::AuthorizationFailure);
    }
    if !same_key(&initialiser.key, &pd.party_pub) || !same_key(&token_temp.key, &pd.temp_pub) {
        return Err(EscrowError::IdentityMismatch);
    }
    let signer = PdaSigner::Contract {
        terms_seed: rec.seed,
        index_seed: rec.index_seed,
        bump: rec.bump,
    };
    let mut ops: Vec<CustodyOp> = Vec::new();
    ops.push(
        CustodyOp::SetOwner {
            account: token_temp.key,
            new_owner: initialiser.key,
            authority: data_pda.key,
            signer: Some(signer),
        },
    );
    assert(ops@ =~= seq![
        CustodyOp::SetOwner {
            account: token_temp.key,
            new_owner: initialiser.key,
            authority: data_pda.key,
            signer: Some(signer),
        },
    ]);
    Ok(
        Plan {
            ops,
            effect: RecordEffect::Close { address: data_pda.key, rent_to: initialiser.key },
        },
    )
}

/// The outcome of creating a position mint. Accounts: funder, the new holder
/// mint, the position-mint record, system program, token program, rent sysvar.
pub open spec fn create_mint_outcome(program: Key, a: Seq<AccountView>, seeds: (u8, Key)) -> Result<
    PlanModel,
    EscrowError,
> {
    if a.len() < 6 {
        Err(EscrowError::MalformedInput)
    } else {
        let sender = a[0];
        let holder_mint = a[1];
        let mint_pda = a[2];
        if !programs_ok(a[3], a[4]) {
            Err(EscrowError::IdentityMismatch)
        } else if !sender.is_signer || !holder_mint.is_signer {
            Err(EscrowError::AuthorizationFailure)
        } else {
            match mint_address_of(program, seeds.0, seeds.1) {
                None => Err(EscrowError::IdentityMismatch),
                Some(found) => if mint_pda.key != found.0 {
                    Err(EscrowError::IdentityMismatch)
                } else if mint_pda.data@.len() != 0 {
                    Err(EscrowError::StateViolation)
                } else {
                    Ok(
                        (
                            seq![
                                CustodyOp::CreateAccount {
                                    payer: sender.key,
                                    address: mint_pda.key,
                                    space: 32,
                                    owner: program,
                                    signer: Some(
                                        PdaSigner::Mint {
                                            kind_tag: seeds.0,
                                            mint_seed: seeds.1,
                                            bump: found.1,
                                        },
                                    ),
                                },
                                CustodyOp::CreateAccount {
                                    payer: sender.key,
                                    address: holder_mint.key,
                                    space: 82,
                                    owner: a[4].key,
                                    signer: None,
                                },
                                CustodyOp::InitializeMint {
                                    mint: holder_mint.key,
                                    authority: mint_pda.key,
                                    freeze_authority: mint_pda.key,
                                    decimals: 0,
                                },
                            ],
                            RecordEffect::StoreMint {
                                address: mint_pda.key,
                                mint_record: MintPDA { holder_mint: holder_mint.key },
                            },
                        ),
                    )
                },
            }
        }
    }
}

/// Size of a token mint account.
pub const MINT_ACCOUNT_LEN: u64 = 82;

/// Creates the position-mint record for a kind tag and mint seed, and a
/// fungible mint whose mint and freeze authority is that record.
pub fn create_mint(program_id: &Key, accounts: &[AccountView], seeds: (u8, Key)) -> (r: Result<
    Plan,
    EscrowError,
>)
    ensures
        outcome_is(r, create_mint_outcome(*program_id, accounts@, seeds)),
{
    if accounts.len() < 6 {
        return Err(EscrowError::MalformedInput);
    }
    let sender = &accounts[0];
    let holder_mint = &accounts[1];
    let mint_pda = &accounts[2];
    if let Err(e) = check_programs(&accounts[3], &accounts[4]) {
        return Err(e);
    }
    if !sender.is_signer || !holder_mint.is_signer {
        return Err(EscrowError::AuthorizationFailure);
    }
    let bump = match mint_address(program_id, seeds.0, &seeds.1) {
        None => {
            return Err(EscrowError::IdentityMismatch);
        },
        Some((k, bump)) => {
            if !same_key(&mint_pda.key, &k) {
                return Err(EscrowError::IdentityMismatch);
            }
            bump
        },
    };
    if mint_pda.data.len() != 0 {
        return Err(EscrowError::StateViolation);
    }
    let ops = vec![
        CustodyOp::CreateAccount {
            payer: sender.key,
            address: mint_pda.key,
            space: MintPDA::LEN as u64,
            owner: *program_id,
            signer: Some(PdaSigner::Mint { kind_tag: seeds.0, mint_seed: seeds.1, bump }),
        },
        CustodyOp::CreateAccount {
            payer: sender.key,
            address: holder_mint.key,
            space: MINT_ACCOUNT_LEN,
            owner: accounts[4].key,
            signer: None,
        },
        CustodyOp::InitializeMint {
            mint: holder_mint.key,
            authority: mint_pda.key,
            freeze_authority: mint_pda.key,
            decimals: 0,
        },
    ];
    Ok(
        Plan {
            ops,
            effect: RecordEffect::StoreMint {
                address: mint_pda.key,
                mint_record: MintPDA { holder_mint: holder_mint.key },
            },
        },
    )
}

} // verus!
