use vstd::prelude::*;

use crate::ledger::{credited, debited, transfer, transfer_error};
use crate::pda::{escrow_can_sign, escrow_signs};
use crate::state::{EscrowAccount, Escrow, EscrowError, ProgramError, Pubkey, TokenAccount, TokenError};

verus! {

/// The accounts that creating an escrow works on.
#[derive(Clone, Copy, Debug)]
pub struct InitEscrow {
    pub offerer_signer: Pubkey,
    pub offered_token_mint: Pubkey,
    pub requested_token_mint: Pubkey,
    pub offered_holder_token_account: TokenAccount,
    pub requested_holder_token_account: TokenAccount,
    pub escrow: EscrowAccount,
    pub new_offered_token_account: TokenAccount,
    pub new_requested_token_account: TokenAccount,
}

/// The accounts that funding the offered side works on.
#[derive(Clone, Copy, Debug)]
pub struct FundOfferedEscrow {
    pub offerer_signer: Pubkey,
    pub escrow: EscrowAccount,
    pub offered_holder_token_account: TokenAccount,
    pub new_offered_token_account: TokenAccount,
}

/// The accounts that funding the requested side works on.
#[derive(Clone, Copy, Debug)]
pub struct FundRequestedEscrow {
    pub requested_signer: Pubkey,
    pub escrow: EscrowAccount,
    pub requested_holder_token_account: TokenAccount,
    pub new_requested_token_account: TokenAccount,
}

/// A refused transfer as a failure of the operation.
pub open spec fn token_failure(e: Option<TokenError>) -> Option<EscrowError> {
    match e {
        Some(t) => Some(EscrowError::Token(t)),
        None => None,
    }
}

fn lift_token_error(r: Result<(), TokenError>) -> (out: Result<(), EscrowError>)
    ensures
        match r {
            Ok(()) => out is Ok,
            Err(t) => out == Err::<(), EscrowError>(EscrowError::Token(t)),
        },
{
    match r {
        Ok(()) => Ok(()),
        Err(t) => Err(EscrowError::Token(t)),
    }
}

// ---------------------------------------------------------------- creation

/// Why creating an escrow for `requested_pubkey` fails; `None` when it succeeds.
pub open spec fn init_error(c: InitEscrow, requested_pubkey: Pubkey) -> Option<ProgramError> {
    if c.offerer_signer@ != c.offered_holder_token_account.owner@ {
        Some(ProgramError::E000)
    } else if requested_pubkey@ != c.requested_holder_token_account.owner@ {
        Some(ProgramError::E001)
    } else if c.offered_holder_token_account.amount != 1 {
        Some(ProgramError::E002)
    } else if c.requested_holder_token_account.amount != 1 {
        Some(ProgramError::E003)
    } else {
        None
    }
}

/// The accounts after a successful creation: the record names both parties,
/// both asset types and both custody accounts, and each custody account is
/// empty, holds its side's asset and is controlled by the escrow.
pub open spec fn init_post(c: InitEscrow, requested_pubkey: Pubkey) -> InitEscrow {
    InitEscrow {
        escrow: EscrowAccount {
            key: c.escrow.key,
            data: Escrow {
                offered_pubkey: c.offerer_signer,
                requested_pubkey: requested_pubkey,
                offered_token_mint_pubkey: c.offered_token_mint,
                requested_token_mint_pubkey: c.requested_token_mint,
                offered_token_account_pubkey: c.new_offered_token_account.key,
                requested_token_account_pubkey: c.new_requested_token_account.key,
            },
        },
        new_offered_token_account: TokenAccount {
            key: c.new_offered_token_account.key,
            mint: c.offered_token_mint,
            owner: c.escrow.key,
            amount: 0,
        },
        new_requested_token_account: TokenAccount {
            key: c.new_requested_token_account.key,
            mint: c.requested_token_mint,
            owner: c.escrow.key,
            amount: 0,
        },
        ..c
    }
}

/// Creates the escrow record between the signer and `requested_pubkey`,
/// and sets up its two empty custody accounts.
pub fn init_escrow_handler(ctx: &mut InitEscrow, requested_pubkey: Pubkey) -> (r: Result<
    (),
    EscrowError,
>)
    ensures
        match init_error(*old(ctx), requested_pubkey) {
            Some(e) => r == Err::<(), EscrowError>(EscrowError::Program(e)) && *final(ctx)
                == *old(ctx),
            None => r is Ok && *final(ctx) == init_post(*old(ctx), requested_pubkey),
        },
{
    if ctx.offerer_signer != ctx.offered_holder_token_account.owner {
        return Err(EscrowError::Program(ProgramError::E000));
    }
    if requested_pubkey != ctx.requested_holder_token_account.owner {
        return Err(EscrowError::Program(ProgramError::E001));
    }
    if ctx.offered_holder_token_account.amount != 1 {
        return Err(EscrowError::Program(ProgramError::E002));
    }
    if ctx.requested_holder_token_account.amount != 1 {
        return Err(EscrowError::Program(ProgramError::E003));
    }
    ctx.escrow.data = Escrow {
        offered_pubkey: ctx.offerer_signer,
        requested_pubkey: requested_pubkey,
        offered_token_mint_pubkey: ctx.offered_token_mint,
        requested_token_mint_pubkey: ctx.requested_token_mint,
        offered_token_account_pubkey: ctx.new_offered_token_account.key,
        requested_token_account_pubkey: ctx.new_requested_token_account.key,
    };
    ctx.new_offered_token_account = TokenAccount {
        key: ctx.new_offered_token_account.key,
        mint: ctx.offered_token_mint,
        owner: ctx.escrow.key,
        amount: 0,
    };
    ctx.new_requested_token_account = TokenAccount {
        key: ctx.new_requested_token_account.key,
        mint: ctx.requested_token_mint,
        owner: ctx.escrow.key,
        amount: 0,
    };
    Ok(())
}

// ----------------------------------------------------------------- funding

/// Why funding the offered side fails; `None` when it succeeds.
pub open spec fn fund_offered_error(c: FundOfferedEscrow) -> Option<EscrowError> {
    if c.escrow.data.offered_pubkey@ != c.offerer_signer@ {
        Some(EscrowError::Program(ProgramError::E004))
    } else if c.escrow.data.offered_token_account_pubkey@ != c.new_offered_token_account.key@ {
        Some(EscrowError::Program(ProgramError::E005))
    } else if c.new_offered_token_account.owner@ != c.escrow.key@ {
        Some(EscrowError::Program(ProgramError::E006))
    } else {
        token_failure(
            transfer_error(
                c.offered_holder_token_account,
                c.new_offered_token_account,
                c.offerer_signer,
                true,
                1,
            ),
        )
    }
}

/// The accounts after the offered side is funded: one unit has moved from
/// the holding account into custody.
pub open spec fn fund_offered_post(c: FundOfferedEscrow) -> FundOfferedEscrow {
    FundOfferedEscrow {
        offered_holder_token_account: debited(c.offered_holder_token_account, 1),
        new_offered_token_account: credited(c.new_offered_token_account, 1),
        ..c
    }
}

/// Moves the offering party's unit into the offered custody account.
pub fn fund_offered_escrow_handler(ctx: &mut FundOfferedEscrow) -> (r: Result<(), EscrowError>)
    ensures
        match fund_offered_error(*old(ctx)) {
            Some(e) => r == Err::<(), EscrowError>(e) && *final(ctx) == *old(ctx),
            None => r is Ok && *final(ctx) == fund_offered_post(*old(ctx)),
        },
{
    if ctx.escrow.data.offered_pubkey != ctx.offerer_signer {
        return Err(EscrowError::Program(ProgramError::E004));
    }
    if ctx.escrow.data.offered_token_account_pubkey != ctx.new_offered_token_account.key {
        return Err(EscrowError::Program(ProgramError::E005));
    }
    if ctx.new_offered_token_account.owner != ctx.escrow.key {
        return Err(EscrowError::Program(ProgramError::E006));
    }
    let mut from = ctx.offered_holder_token_account;
    let mut to = ctx.new_offered_token_account;
    let moved = transfer(&mut from, &mut to, &ctx.offerer_signer, true, 1);
    let r = lift_token_error(moved);
    ctx.offered_holder_token_account = from;
    ctx.new_offered_token_account = to;
    r
}

/// Why funding the requested side fails; `None` when it succeeds.
pub open spec fn fund_requested_error(c: FundRequestedEscrow) -> Option<EscrowError> {
    if c.escrow.data.requested_pubkey@ != c.requested_signer@ {
        Some(EscrowError::Program(ProgramError::E007))
    } else if c.escrow.data.requested_token_account_pubkey@ != c.new_requested_token_account.key@ {
        Some(EscrowError::Program(ProgramError::E005))
    } else if c.new_requested_token_account.owner@ != c.escrow.key@ {
        Some(EscrowError::Program(ProgramError::E008))
    } else {
        token_failure(
            transfer_error(
                c.requested_holder_token_account,
                c.new_requested_token_account,
                c.requested_signer,
                true,
                1,
            ),
        )
    }
}

/// The accounts after the requested side is funded.
pub open spec fn fund_requested_post(c: FundRequestedEscrow) -> FundRequestedEscrow {
    FundRequestedEscrow {
        requested_holder_token_account: debited(c.requested_holder_token_account, 1),
        new_requested_token_account: credited(c.new_requested_token_account, 1),
        ..c
    }
}

/// Moves the requesting party's unit into the requested custody account.
pub fn fund_requested_escrow_handler(ctx: &mut FundRequestedEscrow) -> (r: Result<
    (),
    EscrowError,
>)
    ensures
        match fund_requested_error(*old(ctx)) {
            Some(e) => r == Err::<(), EscrowError>(e) && *final(ctx) == *old(ctx),
            None => r is Ok && *final(ctx) == fund_requested_post(*old(ctx)),
        },
{
    if ctx.escrow.data.requested_pubkey != ctx.requested_signer {
        return Err(EscrowError::Program(ProgramError::E007));
    }
    if ctx.escrow.data.requested_token_account_pubkey != ctx.new_requested_token_account.key {
        return Err(EscrowError::Program(ProgramError::E005));
    }
    if ctx.new_requested_token_account.owner != ctx.escrow.key {
        return Err(EscrowError::Program(ProgramError::E008));
    }
    let mut from = ctx.requested_holder_token_account;
    let mut to = ctx.new_requested_token_account;
    let moved = transfer(&mut from, &mut to, &ctx.requested_signer, true, 1);
    let r = lift_token_error(moved);
    ctx.requested_holder_token_account = from;
    ctx.new_requested_token_account = to;
    r
}

// --------------------------------------------------------------- defunding

/// The accounts that withdrawing the offered side works on.
#[derive(Clone, Copy, Debug)]
pub struct DefundOfferedEscrow {
    pub offered_signer: Pubkey,
    pub escrow: EscrowAccount,
    pub offered_holder_token_account: TokenAccount,
    pub requested_holder_token_account: TokenAccount,
    pub new_offered_token_account: TokenAccount,
    pub program_id: Pubkey,
}

/// The accounts that withdrawing the requested side works on.
#[derive(Clone, Copy, Debug)]
pub struct DefundRequestedEscrow {
    pub requested_signer: Pubkey,
    pub escrow: EscrowAccount,
    pub offered_holder_token_account: TokenAccount,
    pub requested_holder_token_account: TokenAccount,
    pub new_requested_token_account: TokenAccount,
    pub program_id: Pubkey,
}

/// Why withdrawing the offered side fails, where `escrow_signed` tells
/// whether the escrow's authority was re-derived; `None` when it succeeds.
pub open spec fn defund_offered_error(c: DefundOfferedEscrow, escrow_signed: bool) -> Option<
    EscrowError,
> {
    if c.offered_signer@ != c.escrow.data.offered_pubkey@ {
        Some(EscrowError::Program(ProgramError::E004))
    } else if c.escrow.data.offered_token_account_pubkey@ != c.new_offered_token_account.key@ {
        Some(EscrowError::Program(ProgramError::E005))
    } else {
        token_failure(
            transfer_error(
                c.new_offered_token_account,
                c.offered_holder_token_account,
                c.escrow.key,
                escrow_signed,
                1,
            ),
        )
    }
}

/// The accounts after the offered unit went back to its holding account.
pub open spec fn defund_offered_post(c: DefundOfferedEscrow) -> DefundOfferedEscrow {
    DefundOfferedEscrow {
        new_offered_token_account: debited(c.new_offered_token_account, 1),
        offered_holder_token_account: credited(c.offered_holder_token_account, 1),
        ..c
    }
}

/// Returns the offered unit from custody to the offering party's holding
/// account, given whether the escrow's signing authority was re-derived.
pub fn defund_offered_escrow_with_authority(
    ctx: &mut DefundOfferedEscrow,
    escrow_signed: bool,
) -> (r: Result<(), EscrowError>)
    ensures
        match defund_offered_error(*old(ctx), escrow_signed) {
            Some(e) => r == Err::<(), EscrowError>(e) && *final(ctx) == *old(ctx),
            None => r is Ok && *final(ctx) == defund_offered_post(*old(ctx)),
        },
{
    if ctx.offered_signer != ctx.escrow.data.offered_pubkey {
        return Err(EscrowError::Program(ProgramError::E004));
    }
    if ctx.escrow.data.offered_token_account_pubkey != ctx.new_offered_token_account.key {
        return Err(EscrowError::Program(ProgramError::E005));
    }
    let mut from = ctx.new_offered_token_account;
    let mut to = ctx.offered_holder_token_account;
    let moved = transfer(&mut from, &mut to, &ctx.escrow.key, escrow_signed, 1);
    let r = lift_token_error(moved);
    ctx.new_offered_token_account = from;
    ctx.offered_holder_token_account = to;
    r
}

/// Returns the offered unit to its holding account, with the escrow signing
/// by the authority re-derived from the holding accounts and `escrow_bump`.
pub fn defund_offered_escrow_handler(ctx: &mut DefundOfferedEscrow, escrow_bump: u8) -> (r: Result<
    (),
    EscrowError,
>)
    ensures
        ({
            let signed = escrow_signs(
                old(ctx).escrow.key,
                old(ctx).offered_holder_token_account.key,
                old(ctx).requested_holder_token_account.key,
                escrow_bump,
                old(ctx).program_id,
            );
            match defund_offered_error(*old(ctx), signed) {
                Some(e) => r == Err::<(), EscrowError>(e) && *final(ctx) == *old(ctx),
                None => r is Ok && *final(ctx) == defund_offered_post(*old(ctx)),
            }
        }),
{
    let signed = escrow_can_sign(
        &ctx.escrow.key,
        &ctx.offered_holder_token_account.key,
        &ctx.requested_holder_token_account.key,
        escrow_bump,
        &ctx.program_id,
    );
    defund_offered_escrow_with_authority(ctx, signed)
}

/// Why withdrawing the requested side fails, where `escrow_signed` tells
/// whether the escrow's authority was re-derived; `None` when it succeeds.
pub open spec fn defund_requested_error(c: DefundRequestedEscrow, escrow_signed: bool) -> Option<
    EscrowError,
> {
    if c.escrow.data.requested_pubkey@ != c.requested_signer@ {
        Some(EscrowError::Program(ProgramError::E007))
    } else if c.escrow.data.requested_token_account_pubkey@ != c.new_requested_token_account.key@ {
        Some(EscrowError::Program(ProgramError::E005))
    } else if c.requested_holder_token_account.owner@ != c.escrow.data.requested_pubkey@ {
        Some(EscrowError::Program(ProgramError::E009))
    } else if c.offered_holder_token_account.owner@ != c.escrow.data.offered_pubkey@ {
        Some(EscrowError::Program(ProgramError::E010))
    } else {
        token_failure(
            transfer_error(
                c.new_requested_token_account,
                c.requested_holder_token_account,
                c.escrow.key,
                escrow_signed,
                1,
            ),
        )
    }
}

/// The accounts after the requested unit went back to its holding account.
pub open spec fn defund_requested_post(c: DefundRequestedEscrow) -> DefundRequestedEscrow {
    DefundRequestedEscrow {
        new_requested_token_account: debited(c.new_requested_token_account, 1),
        requested_holder_token_account: credited(c.requested_holder_token_account, 1),
        ..c
    }
}

/// Returns the requested unit from custody to the requesting party's
/// holding account, given whether the escrow's signing authority was
/// re-derived.
pub fn defund_requested_escrow_with_authority(
    ctx: &mut DefundRequestedEscrow,
    escrow_signed: bool,
) -> (r: Result<(), EscrowError>)
    ensures
        match defund_requested_error(*old(ctx), escrow_signed) {
            Some(e) => r == Err::<(), EscrowError>(e) && *final(ctx) == *old(ctx),
            None => r is Ok && *final(ctx) == defund_requested_post(*old(ctx)),
        },
{
    if ctx.escrow.data.requested_pubkey != ctx.requested_signer {
        return Err(EscrowError::Program(ProgramError::E007));
    }
    if ctx.escrow.data.requested_token_account_pubkey != ctx.new_requested_token_account.key {
        return Err(EscrowError::Program(ProgramError::E005));
    }
    if ctx.requested_holder_token_account.owner != ctx.escrow.data.requested_pubkey {
        return Err(EscrowError::Program(ProgramError::E009));
    }
    if ctx.offered_holder_token_account.owner != ctx.escrow.data.offered_pubkey {
        return Err(EscrowError::Program(ProgramError::E010));
    }
    let mut from = ctx.new_requested_token_account;
    let mut to = ctx.requested_holder_token_account;
    let moved = transfer(&mut from, &mut to, &ctx.escrow.key, escrow_signed, 1);
    let r = lift_token_error(moved);
    ctx.new_requested_token_account = from;
    ctx.requested_holder_token_account = to;
    r
}

/// Returns the requested unit to its holding account, with the escrow
/// signing by the authority re-derived from the holding accounts and
/// `escrow_bump`.
pub fn defund_requested_escrow_handler(ctx: &mut DefundRequestedEscrow, escrow_bump: u8) -> (r:
    Result<(), EscrowError>)
    ensures
        ({
            let signed = escrow_signs(
                old(ctx).escrow.key,
                old(ctx).offered_holder_token_account.key,
                old(ctx).requested_holder_token_account.key,
                escrow_bump,
                old(ctx).program_id,
            );
            match defund_requested_error(*old(ctx), signed) {
                Some(e) => r == Err::<(), EscrowError>(e) && *final(ctx) == *old(ctx),
                None => r is Ok && *final(ctx) == defund_requested_post(*old(ctx)),
            }
        }),
{
    let signed = escrow_can_sign(
        &ctx.escrow.key,
        &ctx.offered_holder_token_account.key,
        &ctx.requested_holder_token_account.key,
        escrow_bump,
        &ctx.program_id,
    );
    defund_requested_escrow_with_authority(ctx, signed)
}

// -------------------------------------------------------------- settlement

/// The accounts that settling the swap works on.
#[derive(Clone, Copy, Debug)]
pub struct CrankSwap {
    pub escrow: EscrowAccount,
    pub offered_holder_token_account: TokenAccount,
    pub requested_holder_token_account: TokenAccount,
    pub new_offered_token_account: TokenAccount,
    pub new_requested_token_account: TokenAccount,
    pub final_offered_token_account: TokenAccount,
    pub final_requested_token_account: TokenAccount,
    pub program_id: Pubkey,
}

/// Why settlement fails, where `escrow_signed` tells whether the escrow's
/// authority was re-derived; `None` when it succeeds. Both sides must be
/// funded before anything else is looked at.
pub open spec fn crank_error(c: CrankSwap, escrow_signed: bool) -> Option<EscrowError> {
    if c.new_offered_token_account.amount != 1 {
        Some(EscrowError::Program(ProgramError::E014))
    } else if c.new_requested_token_account.amount != 1 {
        Some(EscrowError::Program(ProgramError::E015))
    } else if c.offered_holder_token_account.owner@ != c.final_requested_token_account.owner@ {
        Some(EscrowError::Program(ProgramError::E011))
    } else if c.requested_holder_token_account.owner@ != c.final_offered_token_account.owner@ {
        Some(EscrowError::Program(ProgramError::E011))
    } else if c.final_offered_token_account.owner@ != c.escrow.data.requested_pubkey@ {
        Some(EscrowError::Program(ProgramError::E012))
    } else if c.final_requested_token_account.owner@ != c.escrow.data.offered_pubkey@ {
        Some(EscrowError::Program(ProgramError::E013))
    } else if transfer_error(
        c.new_requested_token_account,
        c.final_requested_token_account,
        c.escrow.key,
        escrow_signed,
        1,
    ) is Some {
        token_failure(
            transfer_error(
                c.new_requested_token_account,
                c.final_requested_token_account,
                c.escrow.key,
                escrow_signed,
                1,
            ),
        )
    } else {
        token_failure(
            transfer_error(
                c.new_offered_token_account,
                c.final_offered_token_account,
                c.escrow.key,
                escrow_signed,
                1,
            ),
        )
    }
}

/// The accounts after settlement: each custody account has handed its unit
/// to the destination owned by the other party.
pub open spec fn crank_post(c: CrankSwap) -> CrankSwap {
    CrankSwap {
        new_requested_token_account: debited(c.new_requested_token_account, 1),
        final_requested_token_account: credited(c.final_requested_token_account, 1),
        new_offered_token_account: debited(c.new_offered_token_account, 1),
        final_offered_token_account: credited(c.final_offered_token_account, 1),
        ..c
    }
}

/// Settles the swap, given whether the escrow's signing authority was
/// re-derived: both units move to their new owners, or nothing changes.
pub fn crank_swap_with_authority(ctx: &mut CrankSwap, escrow_signed: bool) -> (r: Result<
    (),
    EscrowError,
>)
    ensures
        match crank_error(*old(ctx), escrow_signed) {
            Some(e) => r == Err::<(), EscrowError>(e) && *final(ctx) == *old(ctx),
            None => r is Ok && *final(ctx) == crank_post(*old(ctx)),
        },
{
    if ctx.new_offered_token_account.amount != 1 {
        return Err(EscrowError::Program(ProgramError::E014));
    }
    if ctx.new_requested_token_account.amount != 1 {
        return Err(EscrowError::Program(ProgramError::E015));
    }
    if ctx.offered_holder_token_account.owner != ctx.final_requested_token_account.owner {
        return Err(EscrowError::Program(ProgramError::E011));
    }
    if ctx.requested_holder_token_account.owner != ctx.final_offered_token_account.owner {
        return Err(EscrowError::Program(ProgramError::E011));
    }
    if ctx.final_offered_token_account.owner != ctx.escrow.data.requested_pubkey {
        return Err(EscrowError::Program(ProgramError::E012));
    }
    if ctx.final_requested_token_account.owner != ctx.escrow.data.offered_pubkey {
        return Err(EscrowError::Program(ProgramError::E013));
    }
    let mut requested_custody = ctx.new_requested_token_account;
    let mut requested_dest = ctx.final_requested_token_account;
    let first = transfer(&mut requested_custody, &mut requested_dest, &ctx.escrow.key, escrow_signed, 1);
    if first.is_err() {
        return lift_token_error(first);
    }
    let mut offered_custody = ctx.new_offered_token_account;
    let mut offered_dest = ctx.final_offered_token_account;
    let second = transfer(&mut offered_custody, &mut offered_dest, &ctx.escrow.key, escrow_signed, 1);
    if second.is_err() {
        return lift_token_error(second);
    }
    ctx.new_requested_token_account = requested_custody;
    ctx.final_requested_token_account = requested_dest;
    ctx.new_offered_token_account = offered_custody;
    ctx.final_offered_token_account = offered_dest;
    Ok(())
}

/// Settles the swap, with the escrow signing by the authority re-derived
/// from the holding accounts and `escrow_bump`.
pub fn crank_swap_handler(ctx: &mut CrankSwap, escrow_bump: u8) -> (r: Result<(), EscrowError>)
    ensures
        ({
            let signed = escrow_signs(
                old(ctx).escrow.key,
                old(ctx).offered_holder_token_account.key,
                old(ctx).requested_holder_token_account.key,
                escrow_bump,
                old(ctx).program_id,
            );
            match crank_error(*old(ctx), signed) {
                Some(e) => r == Err::<(), EscrowError>(e) && *final(ctx) == *old(ctx),
                None => r is Ok && *final(ctx) == crank_post(*old(ctx)),
            }
        }),
{
    let signed = escrow_can_sign(
        &ctx.escrow.key,
        &ctx.offered_holder_token_account.key,
        &ctx.requested_holder_token_account.key,
        escrow_bump,
        &ctx.program_id,
    );
    crank_swap_with_authority(ctx, signed)
}

} // verus!
