use sol_options::error::EscrowError;
use sol_options::instruction::{decode_instruction, InitParty, InstructionType};
use sol_options::processor::clock_ms;
use sol_options::seeds::{contract_address, index_seed, mint_address, mint_terms_seed, terms_seed};
use sol_options::state::{
    get_seed, ContractData, ContractPDA, ContractState, ContractType, MintPDA, PartyData,
};
use solana_program::pubkey::Pubkey;

fn k(n: u8) -> [u8; 32] {
    [n; 32]
}

fn terms() -> ContractData {
    ContractData {
        token_type: k(1),
        token_qty: 5,
        expiry_date: -1234567,
        strike_type: k(2),
        strike_qty: 6,
        premium_type: k(3),
        premium_qty: 0x0102030405060708,
    }
}

fn party(n: u8) -> PartyData {
    PartyData { party_pub: k(n), temp_pub: k(n + 1), receive_pub: k(n + 2), receive_ata: k(n + 3) }
}

fn record(state: ContractState) -> ContractPDA {
    let t = terms();
    ContractPDA {
        contract_data: t,
        contract_state: state,
        buyer_data: if state == ContractState::ASK { None } else { Some(party(10)) },
        writer_data: if state == ContractState::BID { None } else { Some(party(20)) },
        is_initialised: true,
        seed: get_seed(&t.serialize()),
        index_seed: k(9),
        bump: 254,
        init_party: InitParty::WRITER,
        contract_type: ContractType::PUT,
    }
}

fn offer_instruction(cmd: u8, kind: u8) -> Vec<u8> {
    let mut d = vec![cmd, kind];
    d.extend_from_slice(&terms().serialize());
    d.extend_from_slice(&k(4));
    d.push(kind);
    d.extend_from_slice(&3u64.to_le_bytes());
    d
}

#[test]
fn test_instruction_serialization() {
    let program = k(200);
    let d = offer_instruction(0, 1);
    let od = match decode_instruction(&program, &d).unwrap() {
        InstructionType::Bid { instruction } => instruction,
        _ => panic!("expected an open-as-buyer instruction"),
    };
    assert_eq!(od.contract_data, terms());
    assert_eq!(od.party, InitParty::BUYER);
    assert_eq!(od.contract_type, ContractType::PUT);
    assert_eq!(od.seed, get_seed(&d[2..130]));
    assert_eq!(od.index_seed, get_seed(&d[130..171]));
    let (pda, bump) = Pubkey::find_program_address(
        &[&od.seed, &od.index_seed],
        &Pubkey::new_from_array(program),
    );
    assert_eq!((od.pda, od.bump), (pda.to_bytes(), bump));
    match decode_instruction(&program, &offer_instruction(1, 0)).unwrap() {
        InstructionType::Ask { instruction } => {
            assert_eq!(instruction.party, InitParty::WRITER);
            assert_eq!(instruction.contract_type, ContractType::CALL);
        }
        _ => panic!("expected an open-as-writer instruction"),
    }
}

#[test]
fn simple_commands_decode() {
    let p = k(200);
    assert_eq!(decode_instruction(&p, &[2]).unwrap(), InstructionType::AcceptBid);
    assert_eq!(decode_instruction(&p, &[3]).unwrap(), InstructionType::AcceptAsk);
    assert_eq!(decode_instruction(&p, &[4]).unwrap(), InstructionType::CancelOffer);
    assert_eq!(decode_instruction(&p, &[5]).unwrap(), InstructionType::Execute);
    assert_eq!(decode_instruction(&p, &[6]).unwrap(), InstructionType::Expire);
    let mut d = vec![7u8, 1];
    d.extend_from_slice(&k(8));
    assert_eq!(
        decode_instruction(&p, &d).unwrap(),
        InstructionType::CreateMint { seeds: (1, k(8)) }
    );
}

#[test]
fn malformed_instructions_are_refused() {
    let p = k(200);
    let bad: Vec<Vec<u8>> = vec![
        vec![],
        vec![8],
        vec![255],
        vec![2, 0],
        vec![6, 1, 2],
        vec![7, 1],
        offer_instruction(0, 2),
        offer_instruction(1, 0)[..170].to_vec(),
        {
            let mut d = offer_instruction(0, 0);
            d.push(0);
            d
        },
    ];
    for d in bad {
        assert_eq!(decode_instruction(&p, &d), Err(EscrowError::MalformedInput));
    }
}

#[test]
fn terms_block_layout() {
    let b = terms().serialize();
    assert_eq!(&b[0..32], &k(1));
    assert_eq!(&b[32..40], &5u64.to_le_bytes());
    assert_eq!(&b[40..48], &(-1234567i64).to_le_bytes());
    assert_eq!(&b[48..80], &k(2));
    assert_eq!(&b[80..88], &6u64.to_le_bytes());
    assert_eq!(&b[88..120], &k(3));
    assert_eq!(&b[120..128], &[8, 7, 6, 5, 4, 3, 2, 1]);
    assert_eq!(ContractData::deserialize(&b), terms());
}

#[test]
fn party_block_round_trip() {
    let p = party(40);
    let b = p.to_bytes();
    assert_eq!(&b[32..64], &k(41));
    assert_eq!(PartyData::from_bytes(&b), p);
}

#[test]
fn record_round_trip_is_byte_identical() {
    for state in [ContractState::BID, ContractState::ASK, ContractState::FINAL] {
        let r = record(state);
        let mut first = vec![0u8; ContractPDA::LEN];
        r.pack_into_slice(&mut first);
        let decoded = ContractPDA::unpack_from_slice(&first).unwrap();
        assert_eq!(decoded, r);
        let mut second = vec![0u8; ContractPDA::LEN];
        decoded.pack_into_slice(&mut second);
        assert_eq!(first, second);
    }
}

#[test]
fn record_layout_offsets() {
    let r = record(ContractState::BID);
    let mut b = vec![0xEEu8; ContractPDA::LEN];
    r.pack_into_slice(&mut b);
    assert_eq!(b[0], 1);
    assert_eq!(&b[1..129], &terms().serialize());
    assert_eq!(b[129], 0);
    assert_eq!(&b[130..258], &party(10).to_bytes());
    assert_eq!(&b[258..386], &[0u8; 128]);
    assert_eq!(b[386], 254);
    assert_eq!(b[387], 1);
    assert_eq!(b[388], 1);
    assert_eq!(&b[389..421], &k(9));
    assert!(r.is_initialized());
}

#[test]
fn unused_party_block_is_ignored() {
    let r = record(ContractState::ASK);
    let mut b = vec![0u8; ContractPDA::LEN];
    r.pack_into_slice(&mut b);
    for x in &mut b[130..258] {
        *x = 0x55;
    }
    assert_eq!(ContractPDA::unpack_from_slice(&b).unwrap(), r);
}

#[test]
fn bad_records_are_refused() {
    let r = record(ContractState::FINAL);
    let mut b = vec![0u8; ContractPDA::LEN];
    r.pack_into_slice(&mut b);
    for (at, v) in [(0usize, 2u8), (129, 3), (387, 2), (388, 2)] {
        let mut c = b.clone();
        c[at] = v;
        assert_eq!(ContractPDA::unpack_from_slice(&c), Err(EscrowError::MalformedInput));
    }
    assert_eq!(ContractPDA::unpack_from_slice(&b[..420]), Err(EscrowError::MalformedInput));
    assert_eq!(ContractPDA::unpack_from_slice(&[]), Err(EscrowError::MalformedInput));
    let mut longer = b.clone();
    longer.push(0);
    assert_eq!(ContractPDA::unpack_from_slice(&longer), Err(EscrowError::MalformedInput));
}

#[test]
fn mint_record_round_trip() {
    let m = MintPDA { holder_mint: k(77) };
    let mut b = vec![0u8; MintPDA::LEN];
    m.pack_into_slice(&mut b);
    assert_eq!(b, k(77).to_vec());
    let back = MintPDA::unpack_from_slice(&b).unwrap();
    assert_eq!(back, m);
    let mut again = vec![0u8; MintPDA::LEN];
    back.pack_into_slice(&mut again);
    assert_eq!(again, b);
    assert_eq!(MintPDA::unpack_from_slice(&b[..31]), Err(EscrowError::MalformedInput));
}

#[test]
fn seed_is_sha256() {
    let d = get_seed(b"abc");
    assert_eq!(
        d[..8],
        [0xba, 0x78, 0x16, 0xbf, 0x8f, 0x01, 0xcf, 0xea]
    );
    assert_eq!(terms_seed(&terms()), get_seed(&terms().serialize()));
    assert_eq!(mint_terms_seed(&terms()), get_seed(&terms().serialize()[..120]));
    assert_eq!(terms().get_seed(), mint_terms_seed(&terms()));
    let mut other = terms();
    other.premium_qty = 1;
    assert_eq!(mint_terms_seed(&other), mint_terms_seed(&terms()));
    assert_ne!(terms_seed(&other), terms_seed(&terms()));
    let dis = [3u8; 41];
    assert_eq!(index_seed(&dis), get_seed(&dis));
}

#[test]
fn addresses_are_deterministic() {
    let p = k(200);
    let a1 = contract_address(&p, &k(1), &k(2)).unwrap();
    let a2 = contract_address(&p, &k(1), &k(2)).unwrap();
    assert_eq!(a1, a2);
    let expected =
        Pubkey::find_program_address(&[&k(1), &k(2)], &Pubkey::new_from_array(p));
    assert_eq!(a1, (expected.0.to_bytes(), expected.1));
    let m1 = mint_address(&p, 1, &k(3)).unwrap();
    assert_eq!(m1, mint_address(&p, 1, &k(3)).unwrap());
    let expected = Pubkey::find_program_address(&[&[1], &k(3)], &Pubkey::new_from_array(p));
    assert_eq!(m1, (expected.0.to_bytes(), expected.1));
    assert_ne!(m1, mint_address(&p, 0, &k(3)).unwrap());
}

#[test]
fn clock_conversion() {
    assert_eq!(clock_ms(10, 5), Some(9000));
    assert_eq!(clock_ms(0, -2), Some(-2000));
    assert_eq!(clock_ms(u64::MAX, 0), None);
    assert_eq!(clock_ms(0, i64::MAX), None);
}

#[test]
fn program_keys_match_outside_ids() {
    assert_eq!(sol_options::host::TOKEN_PROGRAM_KEY, spl_token::id().to_bytes());
    assert_eq!(
        sol_options::host::ASSOCIATED_PROGRAM_KEY,
        spl_associated_token_account::id().to_bytes()
    );
}

#[test]
fn associated_address_matches_outside_derivation() {
    for (w, m) in [(k(21), k(13)), (k(1), k(2)), (k(200), k(0))] {
        let expected = spl_associated_token_account::get_associated_token_address(
            &Pubkey::new_from_array(w),
            &Pubkey::new_from_array(m),
        );
        assert_eq!(
            sol_options::seeds::associated_token_address(&w, &m),
            Some(expected.to_bytes())
        );
    }
    assert_ne!(sol_options::seeds::associated_token_address(&k(21), &k(13)), Some(k(21)));
}
