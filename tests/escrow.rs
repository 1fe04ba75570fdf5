use anchor_escrow::address::Address;
use anchor_escrow::authority::escrow_authority;
use anchor_escrow::escrow::{
    exchange, exchange_with_authority, init_escrow, init_escrow_with_authority, Escrow,
    EscrowError, Exchange, InitEscrow, ProgramError,
};
use anchor_escrow::ledger::{Ledger, TokenAccount, TokenError};

fn addr(b: u8) -> Address {
    Address::new([b; 32])
}

fn program_id() -> Address {
    addr(200)
}

const INITIALIZER: u8 = 1;
const TAKER: u8 = 2;
const MINT_A: u8 = 10;
const MINT_X: u8 = 11;
const HOLDING: u8 = 20;
const PAYOUT: u8 = 21;
const TAKER_SOURCE: u8 = 22;
const TAKER_DEST: u8 = 23;

fn account(key: u8, mint: u8, owner: u8, amount: u64) -> TokenAccount {
    TokenAccount { key: addr(key), mint: addr(mint), owner: addr(owner), amount }
}

fn ledger(taker_funds: u64) -> Ledger {
    Ledger::new(vec![
        account(HOLDING, MINT_A, INITIALIZER, 100),
        account(PAYOUT, MINT_X, INITIALIZER, 0),
        account(TAKER_SOURCE, MINT_X, TAKER, taker_funds),
        account(TAKER_DEST, MINT_A, TAKER, 0),
    ])
}

fn init_ctx(lamports: u64) -> InitEscrow {
    InitEscrow {
        initializer: addr(INITIALIZER),
        temp_token_account: addr(HOLDING),
        token_to_receive_account: addr(PAYOUT),
        escrow_lamports: lamports,
        rent_exempt_minimum: 1_000,
    }
}

fn exchange_ctx(record: Escrow) -> Exchange {
    Exchange {
        taker: addr(TAKER),
        takers_sending_token_account: addr(TAKER_SOURCE),
        takers_token_to_receive_account: addr(TAKER_DEST),
        pdas_temp_token_account: addr(HOLDING),
        initializer: addr(INITIALIZER),
        initializers_token_to_receive_account: addr(PAYOUT),
        escrow_account: record,
        pda_account: escrow_authority(&program_id()).unwrap().address,
    }
}

fn bal(l: &Ledger, k: u8) -> u64 {
    l.balance(&addr(k)).unwrap()
}

fn balances(l: &Ledger) -> [u64; 4] {
    [bal(l, HOLDING), bal(l, PAYOUT), bal(l, TAKER_SOURCE), bal(l, TAKER_DEST)]
}

fn opened(taker_funds: u64) -> (Ledger, Escrow) {
    let mut l = ledger(taker_funds);
    let mut record = Escrow::default();
    assert_eq!(init_escrow(&mut l, &init_ctx(5_000), &mut record, &program_id(), 50), Ok(()));
    (l, record)
}

#[test]
fn init_writes_terms_and_hands_over_holding() {
    let (l, record) = opened(60);
    assert!(record.initializer_pubkey.same(&addr(INITIALIZER)));
    assert!(record.temp_token_account_pubkey.same(&addr(HOLDING)));
    assert!(record.initializer_token_to_receive_account_pubkey.same(&addr(PAYOUT)));
    assert_eq!(record.expected_amount, 50);
    let holding = l.get(&addr(HOLDING)).unwrap();
    assert_eq!(holding.amount, 100);
    let pda = escrow_authority(&program_id()).unwrap();
    assert!(holding.owner.same(&pda.address));
    assert!(!holding.owner.same(&addr(INITIALIZER)));
}

#[test]
fn init_not_rent_exempt_changes_nothing() {
    let mut l = ledger(60);
    let mut record = Escrow::default();
    let r = init_escrow(&mut l, &init_ctx(999), &mut record, &program_id(), 50);
    assert_eq!(r, Err(ProgramError::Custom(1)));
    assert_eq!(r, Err(ProgramError::from(EscrowError::NotRentExempt)));
    assert!(l.get(&addr(HOLDING)).unwrap().owner.same(&addr(INITIALIZER)));
    assert_eq!(record.expected_amount, 0);
    assert!(record.initializer_pubkey.same(&addr(0)));
}

#[test]
fn init_at_rent_minimum_succeeds() {
    let mut l = ledger(60);
    let mut record = Escrow::default();
    let r = init_escrow(&mut l, &init_ctx(1_000), &mut record, &program_id(), 7);
    assert_eq!(r, Ok(()));
    assert_eq!(record.expected_amount, 7);
}

#[test]
fn init_by_non_owner_fails() {
    let mut l = ledger(60);
    let mut record = Escrow::default();
    let mut ctx = init_ctx(5_000);
    ctx.initializer = addr(TAKER);
    let r = init_escrow(&mut l, &ctx, &mut record, &program_id(), 50);
    assert_eq!(r, Err(ProgramError::Token(TokenError::OwnerMismatch)));
    assert!(l.get(&addr(HOLDING)).unwrap().owner.same(&addr(INITIALIZER)));
    assert_eq!(record.expected_amount, 0);
}

#[test]
fn init_without_authority_fails() {
    let mut l = ledger(60);
    let mut record = Escrow::default();
    let r = init_escrow_with_authority(&mut l, &init_ctx(5_000), &mut record, None, 50);
    assert_eq!(r, Err(ProgramError::InvalidSeeds));
    assert!(l.get(&addr(HOLDING)).unwrap().owner.same(&addr(INITIALIZER)));
}

#[test]
fn exchange_hundred_for_fifty() {
    let (mut l, record) = opened(60);
    let r = exchange(&mut l, &exchange_ctx(record), &program_id(), 100);
    assert_eq!(r, Ok(()));
    assert_eq!(balances(&l), [0, 50, 10, 100]);
}

#[test]
fn exchange_releases_whole_holding_balance() {
    let (mut l, record) = opened(60);
    let mut record = record;
    record.expected_amount = 5;
    let r = exchange(&mut l, &exchange_ctx(record), &program_id(), 1);
    assert_eq!(r, Ok(()));
    assert_eq!(balances(&l), [0, 5, 55, 100]);
}

#[test]
fn exchange_wrong_holding_fails() {
    let (mut l, record) = opened(60);
    let mut ctx = exchange_ctx(record);
    ctx.pdas_temp_token_account = addr(TAKER_DEST);
    let r = exchange(&mut l, &ctx, &program_id(), 100);
    assert_eq!(r, Err(ProgramError::ConstraintRaw));
    assert_eq!(balances(&l), [100, 0, 60, 0]);
}

#[test]
fn exchange_wrong_initializer_fails() {
    let (mut l, record) = opened(60);
    let mut ctx = exchange_ctx(record);
    ctx.initializer = addr(TAKER);
    assert_eq!(exchange(&mut l, &ctx, &program_id(), 100), Err(ProgramError::ConstraintRaw));
    assert_eq!(balances(&l), [100, 0, 60, 0]);
}

#[test]
fn exchange_wrong_payout_fails() {
    let (mut l, record) = opened(60);
    let mut ctx = exchange_ctx(record);
    ctx.initializers_token_to_receive_account = addr(TAKER_SOURCE);
    assert_eq!(exchange(&mut l, &ctx, &program_id(), 100), Err(ProgramError::ConstraintRaw));
    assert_eq!(balances(&l), [100, 0, 60, 0]);
}

#[test]
fn exchange_taker_short_of_funds_fails() {
    let (mut l, record) = opened(49);
    let r = exchange(&mut l, &exchange_ctx(record), &program_id(), 100);
    assert_eq!(r, Err(ProgramError::Token(TokenError::InsufficientFunds)));
    assert_eq!(balances(&l), [100, 0, 49, 0]);
}

#[test]
fn exchange_wrong_authority_account_rolls_back() {
    let (mut l, record) = opened(60);
    let mut ctx = exchange_ctx(record);
    ctx.pda_account = addr(INITIALIZER);
    let r = exchange(&mut l, &ctx, &program_id(), 100);
    assert_eq!(r, Err(ProgramError::MissingRequiredSignature));
    assert_eq!(balances(&l), [100, 0, 60, 0]);
}

#[test]
fn exchange_release_failure_rolls_back_payment() {
    let (mut l, record) = opened(60);
    let mut ctx = exchange_ctx(record);
    ctx.takers_token_to_receive_account = addr(PAYOUT);
    let r = exchange(&mut l, &ctx, &program_id(), 100);
    assert_eq!(r, Err(ProgramError::Token(TokenError::MintMismatch)));
    assert_eq!(balances(&l), [100, 0, 60, 0]);
}

#[test]
fn exchange_without_authority_rolls_back() {
    let (mut l, record) = opened(60);
    let r = exchange_with_authority(&mut l, &exchange_ctx(record), None);
    assert_eq!(r, Err(ProgramError::InvalidSeeds));
    assert_eq!(balances(&l), [100, 0, 60, 0]);
}

#[test]
fn replay_fails_when_taker_cannot_pay_again() {
    let (mut l, record) = opened(60);
    let ctx = exchange_ctx(record);
    assert_eq!(exchange(&mut l, &ctx, &program_id(), 100), Ok(()));
    let r = exchange(&mut l, &ctx, &program_id(), 100);
    assert_eq!(r, Err(ProgramError::Token(TokenError::InsufficientFunds)));
    assert_eq!(balances(&l), [0, 50, 10, 100]);
}

#[test]
fn replay_releases_nothing_more() {
    let (mut l, record) = opened(200);
    let ctx = exchange_ctx(record);
    assert_eq!(exchange(&mut l, &ctx, &program_id(), 100), Ok(()));
    assert_eq!(balances(&l), [0, 50, 150, 100]);
    let _ = exchange(&mut l, &ctx, &program_id(), 100);
    assert_eq!(bal(&l, HOLDING), 0);
    assert_eq!(bal(&l, TAKER_DEST), 100);
}

#[test]
fn authority_is_deterministic_and_not_the_program() {
    let a = escrow_authority(&program_id()).unwrap();
    let b = escrow_authority(&program_id()).unwrap();
    assert!(a.address.same(&b.address));
    assert_eq!(a.bump, b.bump);
    assert!(!a.address.same(&program_id()));
    let c = escrow_authority(&addr(201)).unwrap();
    assert!(!a.address.same(&c.address));
}

#[test]
fn escrow_error_codes() {
    assert_eq!(ProgramError::from(EscrowError::InvalidInstruction), ProgramError::Custom(0));
    assert_eq!(ProgramError::from(EscrowError::NotRentExempt), ProgramError::Custom(1));
}

#[test]
fn transfer_errors() {
    let mut l = ledger(60);
    let s = addr(TAKER_SOURCE);
    assert_eq!(l.transfer(&addr(99), &addr(PAYOUT), 1, &addr(TAKER)), Err(TokenError::AccountNotFound));
    assert_eq!(l.transfer(&s, &addr(99), 1, &addr(TAKER)), Err(TokenError::AccountNotFound));
    assert_eq!(l.transfer(&s, &addr(PAYOUT), 61, &addr(TAKER)), Err(TokenError::InsufficientFunds));
    assert_eq!(l.transfer(&s, &addr(HOLDING), 1, &addr(TAKER)), Err(TokenError::MintMismatch));
    assert_eq!(l.transfer(&s, &addr(PAYOUT), 1, &addr(INITIALIZER)), Err(TokenError::OwnerMismatch));
    assert_eq!(balances(&l), [100, 0, 60, 0]);
    let mut big = Ledger::new(vec![account(1, 5, 7, 10), account(2, 5, 7, u64::MAX)]);
    assert_eq!(big.transfer(&addr(1), &addr(2), 1, &addr(7)), Err(TokenError::Overflow));
    assert_eq!(big.transfer(&addr(1), &addr(1), 10, &addr(7)), Ok(()));
    assert_eq!(big.balance(&addr(1)), Some(10));
}

#[test]
fn transfer_moves_tokens() {
    let mut l = ledger(60);
    assert_eq!(l.transfer(&addr(TAKER_SOURCE), &addr(PAYOUT), 25, &addr(TAKER)), Ok(()));
    assert_eq!(balances(&l), [100, 25, 35, 0]);
}

#[test]
fn set_authority_errors_and_effect() {
    let mut l = ledger(60);
    assert_eq!(l.set_authority(&addr(99), &addr(INITIALIZER), &addr(3)), Err(TokenError::AccountNotFound));
    assert_eq!(l.set_authority(&addr(HOLDING), &addr(TAKER), &addr(3)), Err(TokenError::OwnerMismatch));
    assert_eq!(l.set_authority(&addr(HOLDING), &addr(INITIALIZER), &addr(3)), Ok(()));
    assert!(l.get(&addr(HOLDING)).unwrap().owner.same(&addr(3)));
}

#[test]
fn first_account_of_a_key_counts() {
    let l = Ledger::new(vec![account(1, 5, 7, 10), account(1, 5, 7, 20)]);
    assert_eq!(l.balance(&addr(1)), Some(10));
    assert_eq!(l.find(&addr(1)), Some(0));
    assert_eq!(l.find(&addr(2)), None);
}

#[test]
fn address_comparison() {
    let mut b = [4u8; 32];
    assert!(Address::new(b).same(&Address::new(b)));
    b[31] = 5;
    assert!(!Address::new(b).same(&addr(4)));
}
