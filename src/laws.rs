use vstd::prelude::*;

use crate::authority::{authority_view, escrow_seed, program_address_of, DerivedAuthority};
use crate::escrow::{
    error_code, exchange_result, init_result, linked, not_rent_exempt, EscrowError, Exchange,
    InitEscrow, ProgramError,
};
use crate::ledger::TokenAccount;

verus! {

/// The four token accounts of an exchange are pairwise different.
pub open spec fn distinct_accounts(ctx: Exchange) -> bool {
    let a = ctx.takers_sending_token_account@;
    let b = ctx.initializers_token_to_receive_account@;
    let c = ctx.pdas_temp_token_account@;
    let d = ctx.takers_token_to_receive_account@;
    a != b && a != c && a != d && b != c && b != d && c != d
}

/// A successful initiation writes exactly the supplied terms into the
/// record, leaves the holding balance as it was, and makes the authority
/// derived from the fixed seed and the program id the holding account's
/// owner; no other account changes.
pub proof fn lemma_init_post_state(
    m: Map<Seq<u8>, TokenAccount>,
    ctx: InitEscrow,
    pda: Option<DerivedAuthority>,
    program_id: Seq<u8>,
    amount: u64,
)
    requires
        authority_view(pda) == program_address_of(escrow_seed(), program_id),
        init_result(m, ctx, pda, amount) is Ok,
    ensures
        ({
            let (m1, e) = init_result(m, ctx, pda, amount)->Ok_0;
            let holding = ctx.temp_token_account@;
            &&& e.initializer_pubkey == ctx.initializer
            &&& e.temp_token_account_pubkey == ctx.temp_token_account
            &&& e.initializer_token_to_receive_account_pubkey == ctx.token_to_receive_account
            &&& e.expected_amount == amount
            &&& m.contains_key(holding) && m1.contains_key(holding)
            &&& m1[holding].amount == m[holding].amount
            &&& program_address_of(escrow_seed(), program_id) is Some
            &&& m1[holding].owner@ == program_address_of(escrow_seed(), program_id)->Some_0.0
            &&& forall|k: Seq<u8>| k != holding ==> m1.contains_key(k) == m.contains_key(k) && (
            m.contains_key(k) ==> m1[k] == m[k])
        }),
{
}

/// An initiation whose record storage is not rent exempt fails with
/// `NotRentExempt`, whatever else holds.
pub proof fn lemma_init_not_rent_exempt(
    m: Map<Seq<u8>, TokenAccount>,
    ctx: InitEscrow,
    pda: Option<DerivedAuthority>,
    amount: u64,
)
    requires
        not_rent_exempt(ctx),
    ensures
        init_result(m, ctx, pda, amount) == Err::<(Map<Seq<u8>, TokenAccount>, crate::escrow::Escrow), ProgramError>(
            ProgramError::Custom(error_code(EscrowError::NotRentExempt)),
        ),
{
}

/// A successful exchange over four different accounts debits the taker's
/// source by the record's amount, credits the initializer's payout account
/// by it, empties the holding account and credits the taker's destination
/// with the holding account's former balance.
pub proof fn lemma_exchange_balances(
    m: Map<Seq<u8>, TokenAccount>,
    ctx: Exchange,
    pda: Option<DerivedAuthority>,
)
    requires
        distinct_accounts(ctx),
        exchange_result(m, ctx, pda) is Ok,
    ensures
        ({
            let m2 = exchange_result(m, ctx, pda)->Ok_0;
            let a = ctx.takers_sending_token_account@;
            let b = ctx.initializers_token_to_receive_account@;
            let c = ctx.pdas_temp_token_account@;
            let d = ctx.takers_token_to_receive_account@;
            let x = ctx.escrow_account.expected_amount;
            &&& m.contains_key(a) && m.contains_key(b) && m.contains_key(c) && m.contains_key(d)
            &&& m2.contains_key(a) && m2.contains_key(b) && m2.contains_key(c) && m2.contains_key(d)
            &&& m2[a].amount == m[a].amount - x
            &&& m2[b].amount == m[b].amount + x
            &&& m2[c].amount == 0
            &&& m2[d].amount == m[d].amount + m[c].amount
        }),
{
}

/// An exchange whose accounts break any of the three links to the record
/// fails before any transfer.
pub proof fn lemma_exchange_unlinked(
    m: Map<Seq<u8>, TokenAccount>,
    ctx: Exchange,
    pda: Option<DerivedAuthority>,
)
    requires
        !linked(ctx),
    ensures
        exchange_result(m, ctx, pda) == Err::<Map<Seq<u8>, TokenAccount>, ProgramError>(
            ProgramError::ConstraintRaw,
        ),
{
}

/// After a successful exchange, replaying it releases nothing: the holding
/// account is empty, a replay that succeeds leaves it empty and gives the
/// taker's destination nothing, and a replay fails outright when the
/// taker's source can no longer pay the record's amount.
pub proof fn lemma_exchange_no_replay(
    m: Map<Seq<u8>, TokenAccount>,
    ctx: Exchange,
    pda: Option<DerivedAuthority>,
)
    requires
        distinct_accounts(ctx),
        exchange_result(m, ctx, pda) is Ok,
    ensures
        ({
            let m1 = exchange_result(m, ctx, pda)->Ok_0;
            let a = ctx.takers_sending_token_account@;
            let c = ctx.pdas_temp_token_account@;
            let d = ctx.takers_token_to_receive_account@;
            &&& m1[c].amount == 0
            &&& exchange_result(m1, ctx, pda) is Ok ==> {
                let m2 = exchange_result(m1, ctx, pda)->Ok_0;
                &&& m2[c].amount == 0
                &&& m2[d].amount == m1[d].amount
            }
            &&& m1[a].amount < ctx.escrow_account.expected_amount ==> exchange_result(
                m1,
                ctx,
                pda,
            ) is Err
        }),
{
    lemma_exchange_balances(m, ctx, pda);
    let m1 = exchange_result(m, ctx, pda)->Ok_0;
    if exchange_result(m1, ctx, pda) is Ok {
        lemma_exchange_balances(m1, ctx, pda);
    }
}

} // verus!
