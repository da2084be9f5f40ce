use vstd::prelude::*;

use crate::escrow::{
    crank_error, crank_post, crank_swap_handler, defund_offered_error, defund_offered_escrow_handler,
    defund_offered_post, defund_requested_error, defund_requested_escrow_handler,
    defund_requested_post, fund_offered_error, fund_offered_escrow_handler, fund_offered_post,
    fund_requested_error, fund_requested_escrow_handler, fund_requested_post, init_error,
    init_escrow_handler, init_post, CrankSwap, DefundOfferedEscrow, DefundRequestedEscrow,
    FundOfferedEscrow, FundRequestedEscrow, InitEscrow,
};
use crate::pda::escrow_signs;
use crate::state::{EscrowError, Pubkey};

verus! {

/// Entry point: creates an escrow between the signer and `requested_pubkey`.
pub fn init_escrow(ctx: &mut InitEscrow, requested_pubkey: Pubkey) -> (r: Result<(), EscrowError>)
    ensures
        match init_error(*old(ctx), requested_pubkey) {
            Some(e) => r == Err::<(), EscrowError>(EscrowError::Program(e)) && *final(ctx)
                == *old(ctx),
            None => r is Ok && *final(ctx) == init_post(*old(ctx), requested_pubkey),
        },
{
    init_escrow_handler(ctx, requested_pubkey)
}

/// Entry point: funds the offered side.
pub fn fund_offered_escrow(ctx: &mut FundOfferedEscrow) -> (r: Result<(), EscrowError>)
    ensures
        match fund_offered_error(*old(ctx)) {
            Some(e) => r == Err::<(), EscrowError>(e) && *final(ctx) == *old(ctx),
            None => r is Ok && *final(ctx) == fund_offered_post(*old(ctx)),
        },
{
    fund_offered_escrow_handler(ctx)
}

/// Entry point: withdraws the offered side.
pub fn defund_offered_escrow(ctx: &mut DefundOfferedEscrow, escrow_bump: u8) -> (r: Result<
    (),
    EscrowError,
>)
    ensures
        ({
            let signed = escrow_signs(
                old(ctx).escrow.key,
                old(ctx).offered_holder_token_account.key,
                old(ctx).requested_holder_token_account.key,
                escrow_bump,
                old(ctx).program_id,
            );
            match defund_offered_error(*old(ctx), signed) {
                Some(e) => r == Err::<(), EscrowError>(e) && *final(ctx) == *old(ctx),
                None => r is Ok && *final(ctx) == defund_offered_post(*old(ctx)),
            }
        }),
{
    defund_offered_escrow_handler(ctx, escrow_bump)
}

/// Entry point: funds the requested side.
pub fn fund_requested_escrow(ctx: &mut FundRequestedEscrow) -> (r: Result<(), EscrowError>)
    ensures
        match fund_requested_error(*old(ctx)) {
            Some(e) => r == Err::<(), EscrowError>(e) && *final(ctx) == *old(ctx),
            None => r is Ok && *final(ctx) == fund_requested_post(*old(ctx)),
        },
{
    fund_requested_escrow_handler(ctx)
}

/// Entry point: withdraws the requested side.
pub fn defund_requested_escrow(ctx: &mut DefundRequestedEscrow, escrow_bump: u8) -> (r: Result<
    (),
    EscrowError,
>)
    ensures
        ({
            let signed = escrow_signs(
                old(ctx).escrow.key,
                old(ctx).offered_holder_token_account.key,
                old(ctx).requested_holder_token_account.key,
                escrow_bump,
                old(ctx).program_id,
            );
            match defund_requested_error(*old(ctx), signed) {
                Some(e) => r == Err::<(), EscrowError>(e) && *final(ctx) == *old(ctx),
                None => r is Ok && *final(ctx) == defund_requested_post(*old(ctx)),
            }
        }),
{
    defund_requested_escrow_handler(ctx, escrow_bump)
}

/// Entry point: settles the swap.
pub fn crank_swap(ctx: &mut CrankSwap, escrow_bump: u8) -> (r: Result<(), EscrowError>)
    ensures
        ({
            let signed = escrow_signs(
                old(ctx).escrow.key,
                old(ctx).offered_holder_token_account.key,
                old(ctx).requested_holder_token_account.key,
                escrow_bump,
                old(ctx).program_id,
            );
            match crank_error(*old(ctx), signed) {
                Some(e) => r == Err::<(), EscrowError>(e) && *final(ctx) == *old(ctx),
                None => r is Ok && *final(ctx) == crank_post(*old(ctx)),
            }
        }),
{
    crank_swap_handler(ctx, escrow_bump)
}

} // verus!
