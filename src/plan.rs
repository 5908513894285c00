//! What a handler sees of its accounts, and the plan it hands back: custody
//! operations to perform in order, then one effect on the handler's record.
use crate::error::EscrowError;
use crate::host::{token_fields_of, token_layout_ok, unpack_token_account, TokenAccountInfo};
use crate::keys::Key;
use crate::state::{ContractPDA, MintPDA};
use vstd::bytes::spec_u64_from_le_bytes;
use vstd::prelude::*;

verus! {

/// A snapshot of one account passed to an instruction.
#[derive(Debug, Clone, PartialEq, Eq)]
pub struct AccountView {
    pub key: Key,
    pub is_signer: bool,
    pub data: Vec<u8>,
}

/// The seeds with which a program-derived address signs.
#[derive(Debug, Clone, Copy, PartialEq, Eq)]
pub enum PdaSigner {
    /// A contract record: terms seed, index seed, bump.
    Contract { terms_seed: Key, index_seed: Key, bump: u8 },
    /// A position-mint record: kind tag, mint seed, bump.
    Mint { kind_tag: u8, mint_seed: Key, bump: u8 },
}

/// One operation of the custody service or of the ledger's account creation.
#[derive(Debug, Clone, Copy, PartialEq, Eq)]
pub enum CustodyOp {
    /// Create an account of `space` bytes at `address`, owned by `owner`, funded by `payer`.
    CreateAccount { payer: Key, address: Key, space: u64, owner: Key, signer: Option<PdaSigner> },
    /// Hand the ownership of a token account from `authority` to `new_owner`.
    SetOwner { account: Key, new_owner: Key, authority: Key, signer: Option<PdaSigner> },
    /// Move `amount` tokens.
    Transfer {
        source: Key,
        destination: Key,
        authority: Key,
        amount: u64,
        signer: Option<PdaSigner>,
    },
    /// Close an empty token account, its rent going to `destination`.
    CloseAccount { account: Key, destination: Key, authority: Key, signer: Option<PdaSigner> },
    /// Mint `amount` tokens of `mint` to `destination`.
    MintTo { mint: Key, destination: Key, authority: Key, amount: u64, signer: Option<PdaSigner> },
    /// Burn `amount` tokens of `mint` held in `account`.
    Burn { account: Key, mint: Key, authority: Key, amount: u64 },
    /// Initialise a mint with a mint and freeze authority.
    InitializeMint { mint: Key, authority: Key, freeze_authority: Key, decimals: u8 },
}

/// What happens to the handler's record once the operations are done.
#[derive(Debug, Clone, Copy, PartialEq, Eq)]
pub enum RecordEffect {
    /// Write the contract record into the account at `address`.
    StoreContract { address: Key, record: ContractPDA },
    /// Write the position-mint record into the account at `address`.
    StoreMint { address: Key, mint_record: MintPDA },
    /// Zero and close the account at `address`, its rent going to `rent_to`.
    Close { address: Key, rent_to: Key },
}

/// The outcome of a handler that accepted its instruction.
#[derive(Debug, Clone, PartialEq, Eq)]
pub struct Plan {
    pub ops: Vec<CustodyOp>,
    pub effect: RecordEffect,
}

/// A plan as a value: the operations in order, then the effect.
pub type PlanModel = (Seq<CustodyOp>, RecordEffect);

impl View for Plan {
    type V = PlanModel;

    open spec fn view(&self) -> PlanModel {
        (self.ops@, self.effect)
    }
}

/// Whether an executable outcome is the stated one.
pub open spec fn outcome_is(r: Result<Plan, EscrowError>, s: Result<PlanModel, EscrowError>) -> bool {
    match s {
        Ok(m) => r is Ok && r->Ok_0@ == m,
        Err(e) => r == Err::<Plan, EscrowError>(e),
    }
}

/// Whether account data holds a well-formed token account.
pub open spec fn token_readable(d: Seq<u8>) -> bool {
    d.len() >= 165 && token_layout_ok(d)
}

/// The mint of a token account.
pub open spec fn token_mint(d: Seq<u8>) -> Seq<u8> {
    d.subrange(0, 32)
}

/// The owner of a token account.
pub open spec fn token_owner(d: Seq<u8>) -> Seq<u8> {
    d.subrange(32, 64)
}

/// The balance of a token account.
pub open spec fn token_amount(d: Seq<u8>) -> u64 {
    spec_u64_from_le_bytes(d.subrange(64, 72))
}

/// Reads the mint, owner and balance of a token account.
pub fn read_token(data: &Vec<u8>) -> (r: Result<TokenAccountInfo, EscrowError>)
    ensures
        r is Ok <==> token_readable(data@),
        r is Ok ==> r->Ok_0.mint@ == token_mint(data@) && r->Ok_0.owner@ == token_owner(data@)
            && r->Ok_0.amount == token_amount(data@),
        r is Err ==> r == Err::<TokenAccountInfo, EscrowError>(EscrowError::MalformedInput),
{
    if data.len() < 165 {
        return Err(EscrowError::MalformedInput);
    }
    match unpack_token_account(data.as_slice()) {
        Ok(info) => Ok(info),
        Err(_) => Err(EscrowError::MalformedInput),
    }
}

/// The net number of tokens that the operations mint into `account`: mints
/// to it count up, burns from it count down.
pub open spec fn net_minted(ops: Seq<CustodyOp>, account: Key) -> int
    decreases ops.len(),
{
    if ops.len() == 0 {
        0
    } else {
        let rest = net_minted(ops.drop_last(), account);
        match ops.last() {
            CustodyOp::MintTo { destination, amount, .. } => if destination == account {
                rest + amount
            } else {
                rest
            },
            CustodyOp::Burn { account: from, amount, .. } => if from == account {
                rest - amount
            } else {
                rest
            },
            _ => rest,
        }
    }
}

} // verus!
