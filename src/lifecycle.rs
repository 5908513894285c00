//! Facts about the handlers taken together: which lifecycle states each one
//! accepts, what happens to position tokens, where expiry falls, that every
//! record a handler stores keeps the record invariant, that every stored
//! record is read only at its derived address, and that offers are opened
//! only into empty storage.
use crate::error::EscrowError;
use crate::keys::Key;
use crate::plan::{net_minted, AccountView, CustodyOp, PlanModel, RecordEffect};
use crate::processor::{
    accept_ask_outcome, accept_bid_outcome, cancel_outcome, execute_outcome, expire_outcome,
    contract_signer, initialise_outcome, offer_consistent, opener_key, programs_ok, record_at,
};
use crate::instruction::{instruction_matches, instruction_ok, InitParty, InstructionType, OfferData};
use crate::state::{decode_record, ContractState};
use vstd::prelude::*;

verus! {

/// The state of the record that account `i` holds, where it decodes.
pub open spec fn state_at(a: Seq<AccountView>, i: int) -> Option<ContractState> {
    match decode_record(a[i].data@) {
        Some(r) => Some(r.contract_state),
        None => None,
    }
}

/// Each handler accepts only its own lifecycle states: taking a bid only from
/// bid, taking an ask only from ask, exercise and expiry only from final,
/// cancellation only from bid or ask. Given a full account list and a record
/// that decodes, any other state is refused with a state violation.
pub proof fn lemma_state_exclusivity(program: Key, a: Seq<AccountView>, now: i64)
    ensures
        accept_bid_outcome(program, a, now) is Ok ==> state_at(a, 4) == Some(ContractState::BID),
        a.len() >= 12 && state_at(a, 4) is Some && state_at(a, 4) != Some(ContractState::BID)
            ==> accept_bid_outcome(program, a, now) == Err::<PlanModel, EscrowError>(
            EscrowError::StateViolation),
        accept_ask_outcome(program, a, now) is Ok ==> state_at(a, 6) == Some(ContractState::ASK),
        a.len() >= 10 && state_at(a, 6) is Some && state_at(a, 6) != Some(ContractState::ASK)
            ==> accept_ask_outcome(program, a, now) == Err::<PlanModel, EscrowError>(
            EscrowError::StateViolation),
        execute_outcome(program, a, now) is Ok ==> state_at(a, 7) == Some(ContractState::FINAL),
        a.len() >= 12 && state_at(a, 7) is Some && state_at(a, 7) != Some(ContractState::FINAL)
            ==> execute_outcome(program, a, now) == Err::<PlanModel, EscrowError>(
            EscrowError::StateViolation),
        expire_outcome(program, a, now) is Ok ==> state_at(a, 2) == Some(ContractState::FINAL),
        a.len() >= 6 && state_at(a, 2) is Some && state_at(a, 2) != Some(ContractState::FINAL)
            ==> expire_outcome(program, a, now) == Err::<PlanModel, EscrowError>(
            EscrowError::StateViolation),
        cancel_outcome(program, a) is Ok ==> state_at(a, 2) == Some(ContractState::BID) || state_at(
            a,
            2,
        ) == Some(ContractState::ASK),
        a.len() >= 5 && state_at(a, 2) == Some(ContractState::FINAL) ==> cancel_outcome(program, a)
            == Err::<PlanModel, EscrowError>(EscrowError::StateViolation),
{
}

/// Taking a bid or an ask mints exactly one position token into the buyer's
/// position-token account; exercise burns exactly one from it and closes the
/// record, after which its (empty) storage no longer decodes.
pub proof fn lemma_position_token_conservation(program: Key, a: Seq<AccountView>, now: i64)
    ensures
        accept_bid_outcome(program, a, now) is Ok ==> net_minted(
            accept_bid_outcome(program, a, now)->Ok_0.0,
            a[7].key,
        ) == 1,
        accept_ask_outcome(program, a, now) is Ok ==> net_minted(
            accept_ask_outcome(program, a, now)->Ok_0.0,
            a[3].key,
        ) == 1,
        execute_outcome(program, a, now) is Ok ==> net_minted(
            execute_outcome(program, a, now)->Ok_0.0,
            a[3].key,
        ) == -1,
        execute_outcome(program, a, now) is Ok ==> (execute_outcome(program, a, now)->Ok_0.1
            matches RecordEffect::Close { address, .. } && address == a[7].key),
        decode_record(Seq::<u8>::empty()) is None,
        cancel_outcome(program, a) is Ok ==> forall|k: Key|
            net_minted(#[trigger] cancel_outcome(program, a)->Ok_0.0, k) == 0,
        expire_outcome(program, a, now) is Ok ==> forall|k: Key|
            net_minted(#[trigger] expire_outcome(program, a, now)->Ok_0.0, k) == 0,
{
    reveal_with_fuel(net_minted, 5);
    if cancel_outcome(program, a) is Ok {
        let ops = cancel_outcome(program, a)->Ok_0.0;
        assert(ops.drop_last() =~= Seq::<CustodyOp>::empty());
    }
    if expire_outcome(program, a, now) is Ok {
        let ops = expire_outcome(program, a, now)->Ok_0.0;
        assert(ops.drop_last() =~= Seq::<CustodyOp>::empty());
    }
    if accept_bid_outcome(program, a, now) is Ok {
        let ops = accept_bid_outcome(program, a, now)->Ok_0.0;
        assert(ops.drop_last().drop_last().drop_last() =~= seq![ops[0]]);
        assert(ops.drop_last().drop_last() =~= seq![ops[0], ops[1]]);
        assert(ops.drop_last() =~= seq![ops[0], ops[1], ops[2]]);
        assert(seq![ops[0]].drop_last() =~= Seq::<CustodyOp>::empty());
    }
    if accept_ask_outcome(program, a, now) is Ok {
        let ops = accept_ask_outcome(program, a, now)->Ok_0.0;
        assert(ops.drop_last() =~= seq![ops[0]]);
        assert(seq![ops[0]].drop_last() =~= Seq::<CustodyOp>::empty());
    }
    if execute_outcome(program, a, now) is Ok {
        let ops = execute_outcome(program, a, now)->Ok_0.0;
        assert(ops.drop_last().drop_last().drop_last() =~= seq![ops[0]]);
        assert(ops.drop_last().drop_last() =~= seq![ops[0], ops[1]]);
        assert(ops.drop_last() =~= seq![ops[0], ops[1], ops[2]]);
        assert(seq![ops[0]].drop_last() =~= Seq::<CustodyOp>::empty());
    }
}

/// Expiry is refused strictly before the expiry time and is available from
/// the expiry time itself on, with the same outcome at any later time.
/// Exercise is available up to and including the expiry time.
pub proof fn lemma_expiry_boundary(program: Key, a: Seq<AccountView>, now: i64)
    ensures
        a.len() >= 6 && state_at(a, 2) == Some(ContractState::FINAL) && now < decode_record(
            a[2].data@,
        )->0.contract_data.expiry_date ==> expire_outcome(program, a, now) == Err::<
            PlanModel,
            EscrowError,
        >(EscrowError::StateViolation),
        a.len() >= 6 && decode_record(a[2].data@) is Some && now >= decode_record(
            a[2].data@,
        )->0.contract_data.expiry_date ==> expire_outcome(program, a, now) == expire_outcome(
            program,
            a,
            decode_record(a[2].data@)->0.contract_data.expiry_date,
        ),
        a.len() >= 12 && decode_record(a[7].data@) is Some && now <= decode_record(
            a[7].data@,
        )->0.contract_data.expiry_date ==> execute_outcome(program, a, now) == execute_outcome(
            program,
            a,
            decode_record(a[7].data@)->0.contract_data.expiry_date,
        ),
{
}

/// Every record that a handler stores keeps the record invariant, and an
/// opened record sits at the address its own seeds derive.
pub proof fn lemma_stored_records_well_formed(
    program: Key,
    a: Seq<AccountView>,
    now: i64,
    od: OfferData,
)
    ensures
        initialise_outcome(program, a, od) is Ok ==> match initialise_outcome(program, a, od)->Ok_0.1 {
            RecordEffect::StoreContract { address, record } => record.wf() && record_at(
                program,
                record,
                address,
            ),
            _ => false,
        },
        accept_bid_outcome(program, a, now) is Ok ==> match accept_bid_outcome(program, a, now)->Ok_0.1 {
            RecordEffect::StoreContract { address, record } => record.wf() && record.contract_state
                == ContractState::FINAL && record_at(program, record, address),
            _ => false,
        },
        accept_ask_outcome(program, a, now) is Ok ==> match accept_ask_outcome(program, a, now)->Ok_0.1 {
            RecordEffect::StoreContract { address, record } => record.wf() && record.contract_state
                == ContractState::FINAL && record_at(program, record, address),
            _ => false,
        },
{
}


/// Every handler that reads a stored contract record accepts it only at the
/// address its own seeds and bump derive.
pub proof fn lemma_record_address_checked(program: Key, a: Seq<AccountView>, now: i64)
    ensures
        accept_bid_outcome(program, a, now) is Ok ==> record_at(
            program,
            decode_record(a[4].data@)->0,
            a[4].key,
        ),
        accept_ask_outcome(program, a, now) is Ok ==> record_at(
            program,
            decode_record(a[6].data@)->0,
            a[6].key,
        ),
        execute_outcome(program, a, now) is Ok ==> record_at(
            program,
            decode_record(a[7].data@)->0,
            a[7].key,
        ),
        expire_outcome(program, a, now) is Ok ==> record_at(
            program,
            decode_record(a[2].data@)->0,
            a[2].key,
        ),
        cancel_outcome(program, a) is Ok ==> record_at(program, decode_record(a[2].data@)->0, a[2].key),
{
}

/// An offer can be opened only into empty storage: once the other checks
/// pass, storage that holds data gives a state violation.
pub proof fn lemma_first_write_wins(program: Key, a: Seq<AccountView>, od: OfferData)
    requires
        a.len() >= 9,
        programs_ok(a[7], a[8]),
        a[6].key == od.pda,
        offer_consistent(program, od),
        a[0].is_signer,
        a[6].data@.len() != 0,
    ensures
        initialise_outcome(program, a, od) == Err::<PlanModel, EscrowError>(
            EscrowError::StateViolation,
        ),
{
}

/// An offer that the decoder produces passes the engine's consistency check:
/// its seed is the digest of its terms, and its address and bump are the ones
/// its seeds derive.
pub proof fn lemma_decoded_offer_consistent(program: Key, d: Seq<u8>, ins: InstructionType)
    requires
        instruction_ok(program, d),
        instruction_matches(program, d, ins),
    ensures
        match ins {
            InstructionType::Bid { instruction } => offer_consistent(program, instruction)
                && instruction.party == InitParty::BUYER,
            InstructionType::Ask { instruction } => offer_consistent(program, instruction)
                && instruction.party == InitParty::WRITER,
            _ => true,
        },
{
}


/// Expiry of a final record at its derived address, with the stored writer,
/// escrow and buyer and the right collaborator programs, succeeds at any time
/// from the expiry time itself on: it hands the writer's escrow back to the
/// writer, signed with the record's seeds, and closes the record.
pub proof fn lemma_expire_succeeds(program: Key, a: Seq<AccountView>, now: i64)
    requires
        a.len() >= 6,
        state_at(a, 2) == Some(ContractState::FINAL),
        now >= decode_record(a[2].data@)->0.contract_data.expiry_date,
        programs_ok(a[4], a[5]),
        record_at(program, decode_record(a[2].data@)->0, a[2].key),
        a[0].key == decode_record(a[2].data@)->0.writer_data->0.party_pub,
        a[1].key == decode_record(a[2].data@)->0.writer_data->0.temp_pub,
        a[3].key == decode_record(a[2].data@)->0.buyer_data->0.party_pub,
    ensures
        expire_outcome(program, a, now) == Ok::<PlanModel, EscrowError>(
            (
                seq![
                    CustodyOp::SetOwner {
                        account: a[1].key,
                        new_owner: a[0].key,
                        authority: a[2].key,
                        signer: Some(contract_signer(decode_record(a[2].data@)->0)),
                    },
                ],
                RecordEffect::Close {
                    address: a[2].key,
                    rent_to: opener_key(decode_record(a[2].data@)->0),
                },
            ),
        ),
{
}

} // verus!
