use sol_options::error::EscrowError;
use sol_options::instruction::{decode_instruction, InitParty, InstructionType, OfferData};
use sol_options::plan::{AccountView, CustodyOp, Plan, RecordEffect};
use sol_options::processor::{
    accept_ask, accept_bid, cancel_offer, create_mint, execute_contract, expire_contract,
    initialise_contract,
};
use sol_options::seeds::{mint_address, mint_terms_seed};
use sol_options::state::{
    get_seed, ContractData, ContractPDA, ContractState, ContractType, MintPDA, PartyData,
};
use solana_program::pubkey::Pubkey;
use std::collections::HashMap;

type Key = [u8; 32];

const SYSTEM: Key = [0; 32];
const START: i64 = 1_000_000;

fn key(n: u8) -> Key {
    let mut k = [n; 32];
    k[0] = 0xA0;
    k
}

fn token_program() -> Key {
    spl_token::id().to_bytes()
}

fn ata(wallet: &Key, mint: &Key) -> Key {
    spl_associated_token_account::get_associated_token_address(
        &Pubkey::new_from_array(*wallet),
        &Pubkey::new_from_array(*mint),
    )
    .to_bytes()
}

#[derive(Clone, Debug)]
struct Tok {
    mint: Key,
    owner: Key,
    amount: u64,
}

fn tok_bytes(t: &Tok) -> Vec<u8> {
    let mut d = vec![0u8; 165];
    d[0..32].copy_from_slice(&t.mint);
    d[32..64].copy_from_slice(&t.owner);
    d[64..72].copy_from_slice(&t.amount.to_le_bytes());
    d[108] = 1;
    d
}

/// A small stand-in for the ledger: token accounts and raw account data.
struct Ledger {
    tokens: HashMap<Key, Tok>,
    data: HashMap<Key, Vec<u8>>,
}

impl Ledger {
    fn view(&self, k: Key, is_signer: bool) -> AccountView {
        let data = match self.tokens.get(&k) {
            Some(t) => tok_bytes(t),
            None => self.data.get(&k).cloned().unwrap_or_default(),
        };
        AccountView { key: k, is_signer, data }
    }

    fn balance(&self, k: &Key) -> u64 {
        self.tokens.get(k).map(|t| t.amount).unwrap_or(0)
    }

    fn owner(&self, k: &Key) -> Key {
        self.tokens.get(k).unwrap().owner
    }

    fn apply(&mut self, plan: &Plan) {
        for op in &plan.ops {
            match *op {
                CustodyOp::CreateAccount { address, space, .. } => {
                    assert!(!self.data.contains_key(&address));
                    self.data.insert(address, vec![0u8; space as usize]);
                }
                CustodyOp::SetOwner { account, new_owner, authority, .. } => {
                    let t = self.tokens.get_mut(&account).unwrap();
                    assert_eq!(t.owner, authority);
                    t.owner = new_owner;
                }
                CustodyOp::Transfer { source, destination, authority, amount, .. } => {
                    let s = self.tokens.get_mut(&source).unwrap();
                    assert_eq!(s.owner, authority);
                    assert!(s.amount >= amount);
                    s.amount -= amount;
                    let mint = s.mint;
                    let d = self.tokens.get_mut(&destination).unwrap();
                    assert_eq!(d.mint, mint);
                    d.amount += amount;
                }
                CustodyOp::CloseAccount { account, authority, .. } => {
                    let t = self.tokens.remove(&account).unwrap();
                    assert_eq!(t.owner, authority);
                    assert_eq!(t.amount, 0);
                }
                CustodyOp::MintTo { mint, destination, amount, .. } => {
                    let d = self.tokens.get_mut(&destination).unwrap();
                    assert_eq!(d.mint, mint);
                    d.amount += amount;
                }
                CustodyOp::Burn { account, mint, authority, amount } => {
                    let t = self.tokens.get_mut(&account).unwrap();
                    assert_eq!(t.mint, mint);
                    assert_eq!(t.owner, authority);
                    t.amount -= amount;
                }
                CustodyOp::InitializeMint { .. } => {}
            }
        }
        match plan.effect {
            RecordEffect::StoreContract { address, record } => {
                let mut buf = vec![0u8; ContractPDA::LEN];
                record.pack_into_slice(&mut buf);
                self.data.insert(address, buf);
            }
            RecordEffect::StoreMint { address, mint_record } => {
                let mut buf = vec![0u8; MintPDA::LEN];
                mint_record.pack_into_slice(&mut buf);
                self.data.insert(address, buf);
            }
            RecordEffect::Close { address, .. } => {
                self.data.remove(&address);
            }
        }
    }
}

#[derive(Clone, Copy, PartialEq)]
enum InitMode {
    BUYER,
    WRITER,
}

struct TestEnv {
    ledger: Ledger,
    program: Key,
    buyer: Key,
    writer: Key,
    mint_1: Key,
    mint_2: Key,
    holder_mint: Key,
    buyer_temp: Key,
    writer_temp: Key,
    buyer_pay: Key,
    terms: ContractData,
    kind: ContractType,
    mint_pda: Key,
    contract: Key,
}

impl TestEnv {
    fn escrow_leg(&self) -> (Key, u64) {
        match self.kind {
            ContractType::CALL => (self.terms.token_type, self.terms.token_qty),
            ContractType::PUT => (self.terms.strike_type, self.terms.strike_qty),
        }
    }

    fn payment_leg(&self) -> (Key, u64) {
        match self.kind {
            ContractType::CALL => (self.terms.strike_type, self.terms.strike_qty),
            ContractType::PUT => (self.terms.token_type, self.terms.token_qty),
        }
    }

    fn record(&self) -> ContractPDA {
        ContractPDA::unpack_from_slice(self.ledger.data.get(&self.contract).unwrap()).unwrap()
    }

    fn sys_tok(&self) -> [AccountView; 2] {
        [self.ledger.view(SYSTEM, false), self.ledger.view(token_program(), false)]
    }
}

impl TestEnv {
    fn buyer_party(&self) -> PartyData {
        PartyData {
            party_pub: self.buyer,
            temp_pub: self.buyer_temp,
            receive_pub: ata(&self.buyer, &self.escrow_leg().0),
            receive_ata: ata(&self.buyer, &self.holder_mint),
        }
    }

    fn writer_party(&self) -> PartyData {
        PartyData {
            party_pub: self.writer,
            temp_pub: self.writer_temp,
            receive_pub: ata(&self.writer, &self.payment_leg().0),
            receive_ata: ata(&self.writer, &self.terms.premium_type),
        }
    }

    fn writer_premium_balance(&self) -> u64 {
        self.ledger.balance(&ata(&self.writer, &self.terms.premium_type))
    }
}

fn kind_tag(kind: ContractType) -> u8 {
    match kind {
        ContractType::CALL => 0,
        ContractType::PUT => 1,
    }
}

fn init_env(kind: ContractType, expire_time: i64) -> TestEnv {
    let program = key(200);
    let buyer = key(21);
    let writer = key(22);
    let mint_1 = key(11);
    let mint_2 = key(12);
    let holder_mint = key(13);
    let (token_type, strike_type, premium_type) = match kind {
        ContractType::CALL => (mint_1, mint_2, mint_2),
        ContractType::PUT => (mint_2, mint_1, mint_2),
    };
    let terms = ContractData {
        token_type,
        token_qty: 5,
        strike_type,
        strike_qty: 5,
        premium_type,
        premium_qty: 5,
        expiry_date: START + expire_time,
    };
    let mut ledger = Ledger { tokens: HashMap::new(), data: HashMap::new() };
    for party in [buyer, writer] {
        for mint in [mint_1, mint_2, holder_mint] {
            ledger.tokens.insert(ata(&party, &mint), Tok { mint, owner: party, amount: 0 });
        }
    }
    let mint_seed = mint_terms_seed(&terms);
    let (mint_pda, _) = mint_address(&program, kind_tag(kind), &mint_seed).unwrap();
    let mut env = TestEnv {
        ledger,
        program,
        buyer,
        writer,
        mint_1,
        mint_2,
        holder_mint,
        buyer_temp: key(31),
        writer_temp: key(32),
        buyer_pay: key(33),
        terms,
        kind,
        mint_pda,
        contract: [0; 32],
    };
    let accounts = vec![
        env.ledger.view(buyer, true),
        env.ledger.view(holder_mint, true),
        env.ledger.view(mint_pda, false),
        env.ledger.view(SYSTEM, false),
        env.ledger.view(token_program(), false),
        env.ledger.view(key(90), false),
    ];
    let plan = create_mint(&program, &accounts, (kind_tag(kind), mint_seed)).unwrap();
    env.ledger.apply(&plan);
    env
}

fn offer_bytes(env: &TestEnv, mode: InitMode) -> Vec<u8> {
    let opener = if mode == InitMode::BUYER { env.buyer } else { env.writer };
    let mut d = vec![if mode == InitMode::BUYER { 0u8 } else { 1u8 }, kind_tag(env.kind)];
    d.extend_from_slice(&env.terms.serialize());
    d.extend_from_slice(&opener);
    d.push(kind_tag(env.kind));
    d.extend_from_slice(&7u64.to_le_bytes());
    d
}

fn decode_offer(env: &TestEnv, mode: InitMode) -> OfferData {
    match decode_instruction(&env.program, &offer_bytes(env, mode)).unwrap() {
        InstructionType::Bid { instruction } => {
            assert!(mode == InitMode::BUYER);
            instruction
        }
        InstructionType::Ask { instruction } => {
            assert!(mode == InitMode::WRITER);
            instruction
        }
        _ => panic!("not an offer"),
    }
}

fn open_accounts(env: &TestEnv, mode: InitMode, od: &OfferData, signer: bool) -> Vec<AccountView> {
    let l = &env.ledger;
    let [sys, tok] = env.sys_tok();
    match mode {
        InitMode::BUYER => vec![
            l.view(env.buyer, signer),
            l.view(env.buyer_temp, false),
            l.view(ata(&env.buyer, &env.escrow_leg().0), false),
            l.view(ata(&env.buyer, &env.holder_mint), false),
            l.view(env.mint_pda, false),
            l.view(env.holder_mint, false),
            l.view(od.pda, false),
            sys,
            tok,
        ],
        InitMode::WRITER => vec![
            l.view(env.writer, signer),
            l.view(env.writer_temp, false),
            l.view(ata(&env.writer, &env.payment_leg().0), false),
            l.view(ata(&env.writer, &env.terms.premium_type), false),
            l.view(env.mint_pda, false),
            l.view(env.holder_mint, false),
            l.view(od.pda, false),
            sys,
            tok,
        ],
    }
}

fn fund(ledger: &mut Ledger, account: Key, owner: Key, leg: (Key, u64)) {
    ledger.tokens.insert(account, Tok { mint: leg.0, owner, amount: leg.1 });
}

fn init_contract(env: &mut TestEnv, mode: InitMode) {
    let od = decode_offer(env, mode);
    match mode {
        InitMode::BUYER => {
            let premium = (env.terms.premium_type, env.terms.premium_qty);
            fund(&mut env.ledger, env.buyer_temp, env.buyer, premium);
        }
        InitMode::WRITER => {
            let leg = env.escrow_leg();
            fund(&mut env.ledger, env.writer_temp, env.writer, leg);
        }
    }
    let accounts = open_accounts(env, mode, &od, true);
    let plan = initialise_contract(&env.program, &accounts, od).unwrap();
    env.ledger.apply(&plan);
    env.contract = od.pda;
    let opener = if mode == InitMode::BUYER { env.buyer } else { env.writer };
    let mut disambiguator = opener.to_vec();
    disambiguator.push(kind_tag(env.kind));
    disambiguator.extend_from_slice(&7u64.to_le_bytes());
    let seed = get_seed(&env.terms.serialize());
    let index_seed = get_seed(&disambiguator);
    let (pda, bump) = Pubkey::find_program_address(
        &[&seed, &index_seed],
        &Pubkey::new_from_array(env.program),
    );
    assert_eq!(od.pda, pda.to_bytes());
    let expected = ContractPDA {
        contract_data: env.terms,
        contract_state: if mode == InitMode::BUYER { ContractState::BID } else { ContractState::ASK },
        buyer_data: if mode == InitMode::BUYER { Some(env.buyer_party()) } else { None },
        writer_data: if mode == InitMode::WRITER { Some(env.writer_party()) } else { None },
        is_initialised: true,
        seed,
        index_seed,
        bump,
        init_party: if mode == InitMode::BUYER { InitParty::BUYER } else { InitParty::WRITER },
        contract_type: env.kind,
    };
    assert_eq!(env.record(), expected);
    let temp = if mode == InitMode::BUYER { env.buyer_temp } else { env.writer_temp };
    assert_eq!(env.ledger.owner(&temp), env.contract);
}

fn accept_bid_accounts(env: &TestEnv, signer: bool) -> Vec<AccountView> {
    let l = &env.ledger;
    let [sys, tok] = env.sys_tok();
    vec![
        l.view(env.writer, signer),
        l.view(env.writer_temp, false),
        l.view(ata(&env.writer, &env.payment_leg().0), false),
        l.view(ata(&env.writer, &env.terms.premium_type), false),
        l.view(env.contract, false),
        l.view(env.buyer_temp, false),
        l.view(env.buyer, false),
        l.view(ata(&env.buyer, &env.holder_mint), false),
        l.view(env.mint_pda, false),
        l.view(env.holder_mint, false),
        sys,
        tok,
    ]
}

fn do_accept_bid(env: &mut TestEnv, now: i64) -> Result<Plan, EscrowError> {
    let leg = env.escrow_leg();
    fund(&mut env.ledger, env.writer_temp, env.writer, leg);
    let accounts = accept_bid_accounts(env, true);
    let before = env.record();
    let premium_before = env.writer_premium_balance();
    let holder_before = holder_balance(env);
    let plan = accept_bid(&env.program, &accounts, now)?;
    env.ledger.apply(&plan);
    let expected = ContractPDA {
        contract_state: ContractState::FINAL,
        writer_data: Some(env.writer_party()),
        ..before
    };
    assert_eq!(env.record(), expected);
    assert_eq!(env.writer_premium_balance(), premium_before + env.terms.premium_qty);
    assert_eq!(holder_balance(env), holder_before + 1);
    assert_eq!(holder_balance(env), 1);
    Ok(plan)
}

fn accept_ask_accounts(env: &TestEnv) -> Vec<AccountView> {
    let l = &env.ledger;
    let [sys, tok] = env.sys_tok();
    vec![
        l.view(env.buyer, true),
        l.view(env.buyer_temp, false),
        l.view(ata(&env.buyer, &env.escrow_leg().0), false),
        l.view(ata(&env.buyer, &env.holder_mint), false),
        l.view(env.mint_pda, false),
        l.view(env.holder_mint, false),
        l.view(env.contract, false),
        l.view(ata(&env.writer, &env.terms.premium_type), false),
        sys,
        tok,
    ]
}

fn do_accept_ask(env: &mut TestEnv, now: i64) -> Result<Plan, EscrowError> {
    let premium = (env.terms.premium_type, env.terms.premium_qty);
    fund(&mut env.ledger, env.buyer_temp, env.buyer, premium);
    let accounts = accept_ask_accounts(env);
    let before = env.record();
    let premium_before = env.writer_premium_balance();
    let plan = accept_ask(&env.program, &accounts, now)?;
    env.ledger.apply(&plan);
    let expected = ContractPDA {
        contract_state: ContractState::FINAL,
        buyer_data: Some(env.buyer_party()),
        ..before
    };
    assert_eq!(env.record(), expected);
    assert_eq!(env.writer_premium_balance(), premium_before + env.terms.premium_qty);
    assert_eq!(holder_balance(env), 1);
    Ok(plan)
}

fn execute_accounts(env: &TestEnv) -> Vec<AccountView> {
    let l = &env.ledger;
    let [sys, tok] = env.sys_tok();
    vec![
        l.view(env.buyer, true),
        l.view(env.buyer_pay, false),
        l.view(ata(&env.buyer, &env.escrow_leg().0), false),
        l.view(ata(&env.buyer, &env.holder_mint), false),
        l.view(env.mint_pda, false),
        l.view(env.holder_mint, false),
        l.view(env.writer_temp, false),
        l.view(env.contract, false),
        l.view(env.writer, false),
        l.view(ata(&env.writer, &env.payment_leg().0), false),
        sys,
        tok,
    ]
}

fn do_execute(env: &mut TestEnv, now: i64) -> Result<Plan, EscrowError> {
    let leg = env.payment_leg();
    fund(&mut env.ledger, env.buyer_pay, env.buyer, leg);
    let accounts = execute_accounts(env);
    let plan = execute_contract(&env.program, &accounts, now)?;
    env.ledger.apply(&plan);
    Ok(plan)
}

fn do_cancel(env: &mut TestEnv, mode: InitMode) -> Result<Plan, EscrowError> {
    let (opener, temp) = match mode {
        InitMode::BUYER => (env.buyer, env.buyer_temp),
        InitMode::WRITER => (env.writer, env.writer_temp),
    };
    let [sys, tok] = env.sys_tok();
    let accounts = vec![
        env.ledger.view(opener, true),
        env.ledger.view(temp, false),
        env.ledger.view(env.contract, false),
        sys,
        tok,
    ];
    let plan = cancel_offer(&env.program, &accounts)?;
    env.ledger.apply(&plan);
    Ok(plan)
}

fn do_expire(env: &mut TestEnv, now: i64) -> Result<Plan, EscrowError> {
    let [sys, tok] = env.sys_tok();
    let accounts = vec![
        env.ledger.view(env.writer, true),
        env.ledger.view(env.writer_temp, false),
        env.ledger.view(env.contract, false),
        env.ledger.view(env.buyer, false),
        sys,
        tok,
    ];
    let plan = expire_contract(&env.program, &accounts, now)?;
    env.ledger.apply(&plan);
    Ok(plan)
}

fn holder_balance(env: &TestEnv) -> u64 {
    env.ledger.balance(&ata(&env.buyer, &env.holder_mint))
}

fn run_execute(kind: ContractType, mode: InitMode) {
    let mut env = init_env(kind, 10000);
    init_contract(&mut env, mode);
    match mode {
        InitMode::BUYER => do_accept_bid(&mut env, START).unwrap(),
        InitMode::WRITER => do_accept_ask(&mut env, START).unwrap(),
    };
    assert_eq!(env.record().contract_state, ContractState::FINAL);
    assert_eq!(holder_balance(&env), 1);
    let writer_receive = ata(&env.writer, &env.payment_leg().0);
    let buyer_receive = ata(&env.buyer, &env.escrow_leg().0);
    let w0 = env.ledger.balance(&writer_receive);
    let b0 = env.ledger.balance(&buyer_receive);
    do_execute(&mut env, START + 1).unwrap();
    assert_eq!(env.ledger.balance(&writer_receive), w0 + 5);
    assert_eq!(env.ledger.balance(&buyer_receive), b0 + 5);
    assert_eq!(holder_balance(&env), 0);
    assert!(!env.ledger.data.contains_key(&env.contract));
    assert!(!env.ledger.tokens.contains_key(&env.writer_temp));
}

fn run_cancel(kind: ContractType, mode: InitMode) {
    let mut env = init_env(kind, 10000);
    init_contract(&mut env, mode);
    do_cancel(&mut env, mode).unwrap();
    let (opener, temp) = match mode {
        InitMode::BUYER => (env.buyer, env.buyer_temp),
        InitMode::WRITER => (env.writer, env.writer_temp),
    };
    assert_eq!(env.ledger.owner(&temp), opener);
    assert!(!env.ledger.data.contains_key(&env.contract));
    assert_eq!(holder_balance(&env), 0);
}

fn run_expire(kind: ContractType, mode: InitMode) {
    let mut env = init_env(kind, 1000);
    init_contract(&mut env, mode);
    match mode {
        InitMode::BUYER => do_accept_bid(&mut env, START).unwrap(),
        InitMode::WRITER => do_accept_ask(&mut env, START).unwrap(),
    };
    assert_eq!(env.record().contract_state, ContractState::FINAL);
    assert_eq!(holder_balance(&env), 1);
    let later = START + 10 * 400;
    do_expire(&mut env, later).unwrap();
    assert_eq!(env.ledger.owner(&env.writer_temp), env.writer);
    assert!(!env.ledger.data.contains_key(&env.contract));
}

#[test]
fn call_bid_execute() {
    run_execute(ContractType::CALL, InitMode::BUYER);
}

#[test]
fn call_ask_execute() {
    run_execute(ContractType::CALL, InitMode::WRITER);
}

#[test]
fn call_bid_cancel() {
    run_cancel(ContractType::CALL, InitMode::BUYER);
}

#[test]
fn call_ask_cancel() {
    run_cancel(ContractType::CALL, InitMode::WRITER);
}

#[test]
fn call_bid_expire() {
    run_expire(ContractType::CALL, InitMode::BUYER);
}

#[test]
fn call_ask_expire() {
    run_expire(ContractType::CALL, InitMode::WRITER);
}

#[test]
fn put_bid_execute() {
    run_execute(ContractType::PUT, InitMode::BUYER);
}

#[test]
fn put_ask_execute() {
    run_execute(ContractType::PUT, InitMode::WRITER);
}

#[test]
fn put_bid_cancel() {
    run_cancel(ContractType::PUT, InitMode::BUYER);
}

#[test]
fn put_ask_cancel() {
    run_cancel(ContractType::PUT, InitMode::WRITER);
}

#[test]
fn put_bid_expire() {
    run_expire(ContractType::PUT, InitMode::BUYER);
}

#[test]
fn put_ask_expire() {
    run_expire(ContractType::PUT, InitMode::WRITER);
}

#[test]
fn scenario_bid_then_accept() {
    let mut env = init_env(ContractType::CALL, 10000);
    init_contract(&mut env, InitMode::BUYER);
    let premium_receive = ata(&env.writer, &env.terms.premium_type);
    let before = env.ledger.balance(&premium_receive);
    do_accept_bid(&mut env, START).unwrap();
    assert_eq!(env.record().contract_state, ContractState::FINAL);
    assert_eq!(holder_balance(&env), 1);
    assert_eq!(env.ledger.balance(&premium_receive), before + 5);
    assert!(!env.ledger.tokens.contains_key(&env.buyer_temp));
    assert_eq!(env.ledger.owner(&env.writer_temp), env.contract);
}

#[test]
fn scenario_bid_accept_execute() {
    run_execute(ContractType::CALL, InitMode::BUYER);
}

#[test]
fn scenario_ask_then_cancel() {
    let mut env = init_env(ContractType::CALL, 10000);
    init_contract(&mut env, InitMode::WRITER);
    assert_eq!(env.ledger.owner(&env.writer_temp), env.contract);
    let plan = do_cancel(&mut env, InitMode::WRITER).unwrap();
    assert_eq!(env.ledger.owner(&env.writer_temp), env.writer);
    assert!(!env.ledger.data.contains_key(&env.contract));
    assert!(!plan.ops.iter().any(|op| matches!(op, CustodyOp::MintTo { .. })));
    assert_eq!(holder_balance(&env), 0);
}

#[test]
fn scenario_expire_before_and_after() {
    let mut env = init_env(ContractType::CALL, 10000);
    init_contract(&mut env, InitMode::BUYER);
    do_accept_bid(&mut env, START).unwrap();
    let expiry = env.terms.expiry_date;
    assert_eq!(do_expire(&mut env, expiry - 1).unwrap_err(), EscrowError::StateViolation);
    assert_eq!(env.ledger.owner(&env.writer_temp), env.contract);
    do_expire(&mut env, expiry + 500).unwrap();
    assert_eq!(env.ledger.owner(&env.writer_temp), env.writer);
    assert!(!env.ledger.data.contains_key(&env.contract));
    assert_eq!(holder_balance(&env), 1);
}

#[test]
fn expire_at_exact_expiry_succeeds() {
    let mut env = init_env(ContractType::PUT, 1000);
    init_contract(&mut env, InitMode::WRITER);
    do_accept_ask(&mut env, START).unwrap();
    let expiry = env.terms.expiry_date;
    let plan = do_expire(&mut env, expiry).unwrap();
    assert_eq!(plan.effect, RecordEffect::Close { address: env.contract, rent_to: env.writer });
}

#[test]
fn execute_at_exact_expiry_succeeds_and_after_fails() {
    let mut env = init_env(ContractType::CALL, 1000);
    init_contract(&mut env, InitMode::BUYER);
    do_accept_bid(&mut env, START).unwrap();
    let expiry = env.terms.expiry_date;
    assert_eq!(do_execute(&mut env, expiry + 1).unwrap_err(), EscrowError::StateViolation);
    do_execute(&mut env, expiry).unwrap();
}

#[test]
fn accept_after_expiry_fails() {
    let mut env = init_env(ContractType::CALL, 1000);
    init_contract(&mut env, InitMode::BUYER);
    let expiry = env.terms.expiry_date;
    assert_eq!(do_accept_bid(&mut env, expiry + 1).unwrap_err(), EscrowError::StateViolation);
}

#[test]
fn wrong_state_is_state_violation() {
    let mut env = init_env(ContractType::CALL, 10000);
    init_contract(&mut env, InitMode::BUYER);
    let ask_accounts = accept_ask_accounts(&env);
    assert_eq!(
        accept_ask(&env.program, &ask_accounts, START).unwrap_err(),
        EscrowError::StateViolation
    );
    assert_eq!(do_execute(&mut env, START).unwrap_err(), EscrowError::StateViolation);
    assert_eq!(do_expire(&mut env, START + 20000).unwrap_err(), EscrowError::StateViolation);
    do_accept_bid(&mut env, START).unwrap();
    assert_eq!(do_accept_bid(&mut env, START).unwrap_err(), EscrowError::StateViolation);
    assert_eq!(do_cancel(&mut env, InitMode::BUYER).unwrap_err(), EscrowError::StateViolation);
}

#[test]
fn open_twice_is_state_violation() {
    let mut env = init_env(ContractType::CALL, 10000);
    init_contract(&mut env, InitMode::WRITER);
    let od = decode_offer(&env, InitMode::WRITER);
    let accounts = open_accounts(&env, InitMode::WRITER, &od, true);
    assert_eq!(
        initialise_contract(&env.program, &accounts, od).unwrap_err(),
        EscrowError::StateViolation
    );
}

#[test]
fn open_without_signature_fails() {
    let mut env = init_env(ContractType::CALL, 10000);
    let od = decode_offer(&env, InitMode::WRITER);
    let leg = env.escrow_leg();
    fund(&mut env.ledger, env.writer_temp, env.writer, leg);
    let accounts = open_accounts(&env, InitMode::WRITER, &od, false);
    assert_eq!(
        initialise_contract(&env.program, &accounts, od).unwrap_err(),
        EscrowError::AuthorizationFailure
    );
}

#[test]
fn open_with_wrong_escrow_balance_fails() {
    let mut env = init_env(ContractType::CALL, 10000);
    let od = decode_offer(&env, InitMode::BUYER);
    fund(&mut env.ledger, env.buyer_temp, env.buyer, (env.terms.premium_type, 4));
    let accounts = open_accounts(&env, InitMode::BUYER, &od, true);
    assert_eq!(
        initialise_contract(&env.program, &accounts, od).unwrap_err(),
        EscrowError::BalanceViolation
    );
}

#[test]
fn open_with_wrong_escrow_type_fails() {
    let mut env = init_env(ContractType::CALL, 10000);
    let od = decode_offer(&env, InitMode::BUYER);
    fund(&mut env.ledger, env.buyer_temp, env.buyer, (env.mint_1, 5));
    let accounts = open_accounts(&env, InitMode::BUYER, &od, true);
    assert_eq!(
        initialise_contract(&env.program, &accounts, od).unwrap_err(),
        EscrowError::IdentityMismatch
    );
}

#[test]
fn open_as_buyer_needs_canonical_holder_account() {
    let mut env = init_env(ContractType::CALL, 10000);
    let od = decode_offer(&env, InitMode::BUYER);
    let premium = (env.terms.premium_type, env.terms.premium_qty);
    fund(&mut env.ledger, env.buyer_temp, env.buyer, premium);
    let mut accounts = open_accounts(&env, InitMode::BUYER, &od, true);
    accounts[3] = env.ledger.view(ata(&env.buyer, &env.mint_1), false);
    assert_eq!(
        initialise_contract(&env.program, &accounts, od).unwrap_err(),
        EscrowError::IdentityMismatch
    );
    accounts[3] = env.ledger.view(ata(&env.holder_mint, &env.buyer), false);
    assert_eq!(
        initialise_contract(&env.program, &accounts, od).unwrap_err(),
        EscrowError::IdentityMismatch
    );
}

#[test]
fn open_as_buyer_needs_position_mint() {
    let mut env = init_env(ContractType::CALL, 10000);
    env.ledger.data.remove(&env.mint_pda);
    let od = decode_offer(&env, InitMode::BUYER);
    let premium = (env.terms.premium_type, env.terms.premium_qty);
    fund(&mut env.ledger, env.buyer_temp, env.buyer, premium);
    let accounts = open_accounts(&env, InitMode::BUYER, &od, true);
    assert_eq!(
        initialise_contract(&env.program, &accounts, od).unwrap_err(),
        EscrowError::MalformedInput
    );
}

#[test]
fn wrong_token_program_is_identity_mismatch() {
    let mut env = init_env(ContractType::CALL, 10000);
    init_contract(&mut env, InitMode::BUYER);
    let leg = env.escrow_leg();
    fund(&mut env.ledger, env.writer_temp, env.writer, leg);
    let mut accounts = accept_bid_accounts(&env, true);
    accounts[11] = env.ledger.view(key(77), false);
    assert_eq!(
        accept_bid(&env.program, &accounts, START).unwrap_err(),
        EscrowError::IdentityMismatch
    );
    accounts[11] = env.ledger.view(token_program(), false);
    accounts[10] = env.ledger.view(key(78), false);
    assert_eq!(
        accept_bid(&env.program, &accounts, START).unwrap_err(),
        EscrowError::IdentityMismatch
    );
}

#[test]
fn accept_bid_without_writer_signature_fails() {
    let mut env = init_env(ContractType::CALL, 10000);
    init_contract(&mut env, InitMode::BUYER);
    let leg = env.escrow_leg();
    fund(&mut env.ledger, env.writer_temp, env.writer, leg);
    let accounts = accept_bid_accounts(&env, false);
    assert_eq!(
        accept_bid(&env.program, &accounts, START).unwrap_err(),
        EscrowError::AuthorizationFailure
    );
}

#[test]
fn record_under_another_program_is_identity_mismatch() {
    let mut env = init_env(ContractType::CALL, 10000);
    init_contract(&mut env, InitMode::BUYER);
    let leg = env.escrow_leg();
    fund(&mut env.ledger, env.writer_temp, env.writer, leg);
    let accounts = accept_bid_accounts(&env, true);
    assert_eq!(accept_bid(&key(201), &accounts, START).unwrap_err(), EscrowError::IdentityMismatch);
}

#[test]
fn too_few_accounts_is_malformed() {
    let mut env = init_env(ContractType::CALL, 10000);
    init_contract(&mut env, InitMode::BUYER);
    let mut accounts = accept_bid_accounts(&env, true);
    accounts.pop();
    assert_eq!(accept_bid(&env.program, &accounts, START).unwrap_err(), EscrowError::MalformedInput);
}

#[test]
fn cancel_by_another_party_fails() {
    let mut env = init_env(ContractType::CALL, 10000);
    init_contract(&mut env, InitMode::WRITER);
    let [sys, tok] = env.sys_tok();
    let accounts = vec![
        env.ledger.view(env.buyer, true),
        env.ledger.view(env.writer_temp, false),
        env.ledger.view(env.contract, false),
        sys,
        tok,
    ];
    assert_eq!(cancel_offer(&env.program, &accounts).unwrap_err(), EscrowError::IdentityMismatch);
}

#[test]
fn execute_without_position_token_fails() {
    let mut env = init_env(ContractType::CALL, 10000);
    init_contract(&mut env, InitMode::BUYER);
    do_accept_bid(&mut env, START).unwrap();
    let holder = ata(&env.buyer, &env.holder_mint);
    env.ledger.tokens.get_mut(&holder).unwrap().amount = 0;
    assert_eq!(do_execute(&mut env, START).unwrap_err(), EscrowError::BalanceViolation);
}

#[test]
fn execute_with_short_payment_fails() {
    let mut env = init_env(ContractType::PUT, 10000);
    init_contract(&mut env, InitMode::WRITER);
    do_accept_ask(&mut env, START).unwrap();
    let leg = env.payment_leg();
    fund(&mut env.ledger, env.buyer_pay, env.buyer, (leg.0, leg.1 - 1));
    let accounts = execute_accounts(&env);
    assert_eq!(
        execute_contract(&env.program, &accounts, START).unwrap_err(),
        EscrowError::BalanceViolation
    );
}

#[test]
fn create_mint_twice_is_state_violation() {
    let env = init_env(ContractType::CALL, 10000);
    let accounts = vec![
        env.ledger.view(env.buyer, true),
        env.ledger.view(env.holder_mint, true),
        env.ledger.view(env.mint_pda, false),
        env.ledger.view(SYSTEM, false),
        env.ledger.view(token_program(), false),
        env.ledger.view(key(90), false),
    ];
    let seeds = (0u8, mint_terms_seed(&env.terms));
    assert_eq!(create_mint(&env.program, &accounts, seeds).unwrap_err(), EscrowError::StateViolation);
    let mut unsigned = accounts.clone();
    unsigned[1].is_signer = false;
    assert_eq!(
        create_mint(&env.program, &unsigned, seeds).unwrap_err(),
        EscrowError::AuthorizationFailure
    );
    let wrong = (1u8, mint_terms_seed(&env.terms));
    assert_eq!(create_mint(&env.program, &accounts, wrong).unwrap_err(), EscrowError::IdentityMismatch);
}

#[test]
fn mint_record_names_holder_mint() {
    let env = init_env(ContractType::PUT, 10000);
    let rec = MintPDA::unpack_from_slice(env.ledger.data.get(&env.mint_pda).unwrap()).unwrap();
    assert_eq!(rec.holder_mint, env.holder_mint);
    assert_ne!(env.mint_1, env.mint_2);
}

#[test]
fn execute_with_overpayment_fails() {
    let mut env = init_env(ContractType::CALL, 10000);
    init_contract(&mut env, InitMode::BUYER);
    do_accept_bid(&mut env, START).unwrap();
    let leg = env.payment_leg();
    fund(&mut env.ledger, env.buyer_pay, env.buyer, (leg.0, leg.1 + 1));
    let accounts = execute_accounts(&env);
    assert_eq!(
        execute_contract(&env.program, &accounts, START).unwrap_err(),
        EscrowError::BalanceViolation
    );
}
