use vstd::prelude::*;

use crate::address::Address;
use crate::authority::{
    authority_view, escrow_authority, escrow_seed, program_address_of, DerivedAuthority,
};
use crate::ledger::{set_authority_result, transfer_result, Ledger, TokenError};

verus! {

/// The terms of one open escrow.
#[derive(Clone, Copy, Debug)]
pub struct Escrow {
    pub initializer_pubkey: Address,
    pub temp_token_account_pubkey: Address,
    pub initializer_token_to_receive_account_pubkey: Address,
    pub expected_amount: u64,
}

impl Default for Escrow {
    fn default() -> (r: Escrow)
        ensures
            r.initializer_pubkey@ == Seq::new(32, |i: int| 0u8),
            r.temp_token_account_pubkey@ == Seq::new(32, |i: int| 0u8),
            r.initializer_token_to_receive_account_pubkey@ == Seq::new(32, |i: int| 0u8),
            r.expected_amount == 0,
    {
        let zero = Address { bytes: [0u8; 32] };
        assert(zero@ =~= Seq::new(32, |i: int| 0u8));
        Escrow {
            initializer_pubkey: zero,
            temp_token_account_pubkey: zero,
            initializer_token_to_receive_account_pubkey: zero,
            expected_amount: 0,
        }
    }
}

/// Errors of the escrow program itself.
#[derive(Clone, Copy, Debug, PartialEq, Eq, Structural)]
pub enum EscrowError {
    /// Malformed instruction.
    InvalidInstruction,
    /// The record's storage does not hold enough to be rent exempt.
    NotRentExempt,
}

/// Why a transaction is rejected.
#[derive(Clone, Copy, Debug, PartialEq, Eq, Structural)]
pub enum ProgramError {
    /// An error of the escrow program, by its code.
    Custom(u32),
    /// An account does not match the escrow record.
    ConstraintRaw,
    /// The seeds do not yield a program address.
    InvalidSeeds,
    /// The authority account named for the release is not the one the
    /// program can sign for.
    MissingRequiredSignature,
    /// The token program refused a step.
    Token(TokenError),
}

pub open spec fn error_code(e: EscrowError) -> u32 {
    match e {
        EscrowError::InvalidInstruction => 0,
        EscrowError::NotRentExempt => 1,
    }
}

impl From<EscrowError> for ProgramError {
    fn from(e: EscrowError) -> (r: ProgramError)
        ensures
            r == ProgramError::Custom(error_code(e)),
    {
        match e {
            EscrowError::InvalidInstruction => ProgramError::Custom(0),
            EscrowError::NotRentExempt => ProgramError::Custom(1),
        }
    }
}

impl vstd::std_specs::convert::FromSpecImpl<EscrowError> for ProgramError {
    open spec fn obeys_from_spec() -> bool {
        true
    }

    open spec fn from_spec(e: EscrowError) -> ProgramError {
        ProgramError::Custom(error_code(e))
    }
}

/// The accounts of an escrow initiation.
#[derive(Clone, Copy, Debug)]
pub struct InitEscrow {
    /// The depositing party, who signs.
    pub initializer: Address,
    /// The holding account, funded by the initializer.
    pub temp_token_account: Address,
    /// Where the initializer wants to be paid.
    pub token_to_receive_account: Address,
    /// Lamports held by the new record's storage.
    pub escrow_lamports: u64,
    /// Least balance at which storage of the record's size is rent exempt.
    pub rent_exempt_minimum: u64,
}

/// The accounts of an exchange.
#[derive(Clone, Copy, Debug)]
pub struct Exchange {
    /// The taker, who signs.
    pub taker: Address,
    /// The taker's account that pays the initializer.
    pub takers_sending_token_account: Address,
    /// The taker's account that receives the held tokens.
    pub takers_token_to_receive_account: Address,
    /// The holding account.
    pub pdas_temp_token_account: Address,
    /// The initializer.
    pub initializer: Address,
    /// The initializer's payout account.
    pub initializers_token_to_receive_account: Address,
    /// The escrow record.
    pub escrow_account: Escrow,
    /// The program-derived authority over the holding account.
    pub pda_account: Address,
}

pub open spec fn not_rent_exempt(ctx: InitEscrow) -> bool {
    ctx.escrow_lamports < ctx.rent_exempt_minimum
}

/// The record an initiation writes.
pub open spec fn record_of(ctx: InitEscrow, amount: u64) -> Escrow {
    Escrow {
        initializer_pubkey: ctx.initializer,
        temp_token_account_pubkey: ctx.temp_token_account,
        initializer_token_to_receive_account_pubkey: ctx.token_to_receive_account,
        expected_amount: amount,
    }
}

/// What an initiation does to the token accounts and the record, given the
/// escrow authority `pda`, or the error it fails with.
pub open spec fn init_result(
    m: Map<Seq<u8>, crate::ledger::TokenAccount>,
    ctx: InitEscrow,
    pda: Option<DerivedAuthority>,
    amount: u64,
) -> Result<(Map<Seq<u8>, crate::ledger::TokenAccount>, Escrow), ProgramError> {
    if not_rent_exempt(ctx) {
        Err(ProgramError::Custom(error_code(EscrowError::NotRentExempt)))
    } else {
        match pda {
            None => Err(ProgramError::InvalidSeeds),
            Some(d) => match set_authority_result(
                m,
                ctx.temp_token_account@,
                ctx.initializer@,
                d.address,
            ) {
                Ok(m1) => Ok((m1, record_of(ctx, amount))),
                Err(e) => Err(ProgramError::Token(e)),
            },
        }
    }
}

/// The three links between the record and the accounts of an exchange.
pub open spec fn linked(ctx: Exchange) -> bool {
    &&& ctx.escrow_account.temp_token_account_pubkey@ == ctx.pdas_temp_token_account@
    &&& ctx.escrow_account.initializer_pubkey@ == ctx.initializer@
    &&& ctx.escrow_account.initializer_token_to_receive_account_pubkey@
        == ctx.initializers_token_to_receive_account@
}

/// What an exchange does to the token accounts, given the escrow authority
/// `pda`, or the error it fails with.
pub open spec fn exchange_result(
    m: Map<Seq<u8>, crate::ledger::TokenAccount>,
    ctx: Exchange,
    pda: Option<DerivedAuthority>,
) -> Result<Map<Seq<u8>, crate::ledger::TokenAccount>, ProgramError> {
    let holding = ctx.pdas_temp_token_account@;
    if !linked(ctx) {
        Err(ProgramError::ConstraintRaw)
    } else if !m.contains_key(holding) {
        Err(ProgramError::Token(TokenError::AccountNotFound))
    } else {
        match transfer_result(
            m,
            ctx.takers_sending_token_account@,
            ctx.initializers_token_to_receive_account@,
            ctx.escrow_account.expected_amount,
            ctx.taker@,
        ) {
            Err(e) => Err(ProgramError::Token(e)),
            Ok(m1) => match pda {
                None => Err(ProgramError::InvalidSeeds),
                Some(d) => if d.address@ != ctx.pda_account@ {
                    Err(ProgramError::MissingRequiredSignature)
                } else {
                    match transfer_result(
                        m1,
                        holding,
                        ctx.takers_token_to_receive_account@,
                        m[holding].amount,
                        ctx.pda_account@,
                    ) {
                        Err(e) => Err(ProgramError::Token(e)),
                        Ok(m2) => Ok(m2),
                    }
                },
            },
        }
    }
}

fn snapshot(ledger: &Ledger) -> (r: Vec<crate::ledger::TokenAccount>)
    ensures
        r@ == ledger.accounts@,
{
    let mut r: Vec<crate::ledger::TokenAccount> = Vec::new();
    let mut i: usize = 0;
    while i < ledger.accounts.len()
        invariant
            0 <= i <= ledger.accounts@.len(),
            r@ == ledger.accounts@.subrange(0, i as int),
        decreases ledger.accounts@.len() - i,
    {
        r.push(ledger.accounts[i]);
        i = i + 1;
        assert(r@ =~= ledger.accounts@.subrange(0, i as int));
    }
    assert(r@ =~= ledger.accounts@);
    r
}

fn same_terms(ctx: &Exchange) -> (r: bool)
    ensures
        r == linked(*ctx),
{
    let e = &ctx.escrow_account;
    e.temp_token_account_pubkey.same(&ctx.pdas_temp_token_account) && e.initializer_pubkey.same(
        &ctx.initializer,
    ) && e.initializer_token_to_receive_account_pubkey.same(
        &ctx.initializers_token_to_receive_account,
    )
}

/// Initiation once the escrow authority is known: checks the record's rent
/// exemption, hands the holding account to `pda` and writes the record.
/// Nothing changes when it fails.
pub fn init_escrow_with_authority(
    ledger: &mut Ledger,
    ctx: &InitEscrow,
    escrow_account: &mut Escrow,
    pda: Option<DerivedAuthority>,
    amount: u64,
) -> (r: Result<(), ProgramError>)
    ensures
        match init_result(old(ledger)@, *ctx, pda, amount) {
            Ok((m, e)) => r is Ok && final(ledger)@ == m && *final(escrow_account) == e,
            Err(err) => r == Err::<(), ProgramError>(err) && final(ledger)@ == old(ledger)@
                && *final(escrow_account) == *old(escrow_account),
        },
{
    if ctx.escrow_lamports < ctx.rent_exempt_minimum {
        return Err(ProgramError::from(EscrowError::NotRentExempt));
    }
    let d = match pda {
        Some(d) => d,
        None => return Err(ProgramError::InvalidSeeds),
    };
    match ledger.set_authority(&ctx.temp_token_account, &ctx.initializer, &d.address) {
        Ok(()) => {},
        Err(e) => return Err(ProgramError::Token(e)),
    }
    *escrow_account = Escrow {
        initializer_pubkey: ctx.initializer,
        temp_token_account_pubkey: ctx.temp_token_account,
        initializer_token_to_receive_account_pubkey: ctx.token_to_receive_account,
        expected_amount: amount,
    };
    Ok(())
}

/// Opens an escrow: the holding account passes to the authority derived
/// from the fixed seed and `program_id`, and the record takes the terms.
/// Nothing changes when it fails.
pub fn init_escrow(
    ledger: &mut Ledger,
    ctx: &InitEscrow,
    escrow_account: &mut Escrow,
    program_id: &Address,
    amount: u64,
) -> (r: Result<(), ProgramError>)
    ensures
        exists|pda: Option<DerivedAuthority>|
            {
                &&& authority_view(pda) == program_address_of(escrow_seed(), program_id@)
                &&& match init_result(old(ledger)@, *ctx, pda, amount) {
                    Ok((m, e)) => r is Ok && final(ledger)@ == m && *final(escrow_account) == e,
                    Err(err) => r == Err::<(), ProgramError>(err) && final(ledger)@
                        == old(ledger)@ && *final(escrow_account) == *old(escrow_account),
                }
            },
{
    let pda = escrow_authority(program_id);
    init_escrow_with_authority(ledger, ctx, escrow_account, pda, amount)
}

/// Exchange once the escrow authority is known: the taker pays the record's
/// amount to the initializer, and the whole holding balance is released to
/// the taker. Nothing changes when it fails.
pub fn exchange_with_authority(
    ledger: &mut Ledger,
    ctx: &Exchange,
    pda: Option<DerivedAuthority>,
) -> (r: Result<(), ProgramError>)
    ensures
        match exchange_result(old(ledger)@, *ctx, pda) {
            Ok(m) => r is Ok && final(ledger)@ == m,
            Err(err) => r == Err::<(), ProgramError>(err) && final(ledger)@ == old(ledger)@,
        },
{
    if !same_terms(ctx) {
        return Err(ProgramError::ConstraintRaw);
    }
    let held = match ledger.balance(&ctx.pdas_temp_token_account) {
        Some(a) => a,
        None => return Err(ProgramError::Token(TokenError::AccountNotFound)),
    };
    let saved = snapshot(ledger);
    match ledger.transfer(
        &ctx.takers_sending_token_account,
        &ctx.initializers_token_to_receive_account,
        ctx.escrow_account.expected_amount,
        &ctx.taker,
    ) {
        Ok(()) => {},
        Err(e) => return Err(ProgramError::Token(e)),
    }
    let d = match pda {
        Some(d) => d,
        None => {
            ledger.accounts = saved;
            return Err(ProgramError::InvalidSeeds);
        },
    };
    if !d.address.same(&ctx.pda_account) {
        ledger.accounts = saved;
        return Err(ProgramError::MissingRequiredSignature);
    }
    match ledger.transfer(
        &ctx.pdas_temp_token_account,
        &ctx.takers_token_to_receive_account,
        held,
        &ctx.pda_account,
    ) {
        Ok(()) => Ok(()),
        Err(e) => {
            ledger.accounts = saved;
            Err(ProgramError::Token(e))
        },
    }
}

/// Completes an escrow: the taker pays the record's amount to the
/// initializer and receives the whole balance of the holding account, which
/// the program releases as the authority derived from the fixed seed and
/// `program_id`. `amount_expected_by_taker` is not checked against anything.
/// Nothing changes when it fails.
#[allow(unused_variables)]
pub fn exchange(
    ledger: &mut Ledger,
    ctx: &Exchange,
    program_id: &Address,
    amount_expected_by_taker: u64,
) -> (r: Result<(), ProgramError>)
    ensures
        exists|pda: Option<DerivedAuthority>|
            {
                &&& authority_view(pda) == program_address_of(escrow_seed(), program_id@)
                &&& match exchange_result(old(ledger)@, *ctx, pda) {
                    Ok(m) => r is Ok && final(ledger)@ == m,
                    Err(err) => r == Err::<(), ProgramError>(err) && final(ledger)@
                        == old(ledger)@,
                }
            },
{
    let pda = escrow_authority(program_id);
    exchange_with_authority(ledger, ctx, pda)
}

} // verus!
