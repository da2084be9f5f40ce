use vstd::prelude::*;

use crate::escrow::{
    crank_error, crank_post, defund_offered_error, defund_offered_post, defund_requested_error,
    defund_requested_post, fund_offered_error, fund_offered_post, fund_requested_error,
    fund_requested_post, CrankSwap, DefundOfferedEscrow, DefundRequestedEscrow, FundOfferedEscrow,
    FundRequestedEscrow,
};
use crate::ledger::transfer_error;
use crate::state::{kind_of, ErrorKind, EscrowError, TokenError};

verus! {

/// Funding the offered side twice in a row fails the second time: once the
/// one unit of the offered item is in custody, custody holds exactly one and
/// the holding account has nothing left to give.
pub proof fn lemma_fund_offered_twice_fails(c: FundOfferedEscrow)
    requires
        fund_offered_error(c) is None,
        c.offered_holder_token_account.amount + c.new_offered_token_account.amount <= 1,
    ensures
        fund_offered_post(c).new_offered_token_account.amount == 1,
        fund_offered_error(fund_offered_post(c)) == Some(
            EscrowError::Token(TokenError::InsufficientFunds),
        ),
{
}

/// Funding the requested side twice in a row fails the second time, and
/// custody never holds more than the one unit of the requested item.
pub proof fn lemma_fund_requested_twice_fails(c: FundRequestedEscrow)
    requires
        fund_requested_error(c) is None,
        c.requested_holder_token_account.amount + c.new_requested_token_account.amount <= 1,
    ensures
        fund_requested_post(c).new_requested_token_account.amount == 1,
        fund_requested_error(fund_requested_post(c)) == Some(
            EscrowError::Token(TokenError::InsufficientFunds),
        ),
{
}

/// Every operation moves units between the accounts it works on without
/// creating any: where the accounts that hold an item hold at most one unit
/// of it together, each of them, custody included, still holds at most one
/// after the operation.
pub proof fn lemma_custody_holds_at_most_one(
    f: FundOfferedEscrow,
    g: FundRequestedEscrow,
    d: DefundOfferedEscrow,
    e: DefundRequestedEscrow,
    s: CrankSwap,
    signed: bool,
)
    requires
        f.offered_holder_token_account.amount + f.new_offered_token_account.amount <= 1,
        g.requested_holder_token_account.amount + g.new_requested_token_account.amount <= 1,
        d.offered_holder_token_account.amount + d.new_offered_token_account.amount <= 1,
        e.requested_holder_token_account.amount + e.new_requested_token_account.amount <= 1,
        s.new_offered_token_account.amount + s.final_offered_token_account.amount <= 1,
        s.new_requested_token_account.amount + s.final_requested_token_account.amount <= 1,
    ensures
        fund_offered_error(f) is None ==> fund_offered_post(f).new_offered_token_account.amount
            <= 1,
        fund_requested_error(g) is None ==> fund_requested_post(
            g,
        ).new_requested_token_account.amount <= 1,
        defund_offered_error(d, signed) is None ==> defund_offered_post(
            d,
        ).new_offered_token_account.amount == 0 && defund_offered_post(
            d,
        ).offered_holder_token_account.amount == 1,
        defund_requested_error(e, signed) is None ==> defund_requested_post(
            e,
        ).new_requested_token_account.amount == 0 && defund_requested_post(
            e,
        ).requested_holder_token_account.amount == 1,
        crank_error(s, signed) is None ==> crank_post(s).new_offered_token_account.amount == 0
            && crank_post(s).new_requested_token_account.amount == 0 && crank_post(
            s,
        ).final_offered_token_account.amount == 1 && crank_post(
            s,
        ).final_requested_token_account.amount == 1,
{
}

/// After creation the escrow record never changes, and no operation hands a
/// custody account to another authority or asset: funding, withdrawing and
/// settling change balances alone.
pub proof fn lemma_record_and_custody_authority_fixed(
    f: FundOfferedEscrow,
    g: FundRequestedEscrow,
    d: DefundOfferedEscrow,
    e: DefundRequestedEscrow,
    s: CrankSwap,
)
    ensures
        fund_offered_post(f).escrow == f.escrow,
        fund_offered_post(f).new_offered_token_account.owner == f.new_offered_token_account.owner,
        fund_offered_post(f).new_offered_token_account.mint == f.new_offered_token_account.mint,
        fund_requested_post(g).escrow == g.escrow,
        fund_requested_post(g).new_requested_token_account.owner
            == g.new_requested_token_account.owner,
        fund_requested_post(g).new_requested_token_account.mint
            == g.new_requested_token_account.mint,
        defund_offered_post(d).escrow == d.escrow,
        defund_offered_post(d).new_offered_token_account.owner
            == d.new_offered_token_account.owner,
        defund_requested_post(e).escrow == e.escrow,
        defund_requested_post(e).new_requested_token_account.owner
            == e.new_requested_token_account.owner,
        crank_post(s).escrow == s.escrow,
        crank_post(s).new_offered_token_account.owner == s.new_offered_token_account.owner,
        crank_post(s).new_requested_token_account.owner == s.new_requested_token_account.owner,
{
}

/// Withdrawing the offered side and funding it again at once restores the
/// holding and custody accounts exactly, while the holding account is still
/// the offering party's.
pub proof fn lemma_defund_then_fund_offered(d: DefundOfferedEscrow, signed: bool)
    requires
        defund_offered_error(d, signed) is None,
        d.offered_holder_token_account.owner@ == d.offered_signer@,
    ensures
        ({
            let w = defund_offered_post(d);
            let f = FundOfferedEscrow {
                offerer_signer: d.offered_signer,
                escrow: w.escrow,
                offered_holder_token_account: w.offered_holder_token_account,
                new_offered_token_account: w.new_offered_token_account,
            };
            &&& fund_offered_error(f) is None
            &&& fund_offered_post(f).offered_holder_token_account
                == d.offered_holder_token_account
            &&& fund_offered_post(f).new_offered_token_account == d.new_offered_token_account
            &&& fund_offered_post(f).escrow == d.escrow
        }),
{
}

/// Withdrawing the requested side and funding it again at once restores the
/// holding and custody accounts exactly.
pub proof fn lemma_defund_then_fund_requested(e: DefundRequestedEscrow, signed: bool)
    requires
        defund_requested_error(e, signed) is None,
    ensures
        ({
            let w = defund_requested_post(e);
            let g = FundRequestedEscrow {
                requested_signer: e.requested_signer,
                escrow: w.escrow,
                requested_holder_token_account: w.requested_holder_token_account,
                new_requested_token_account: w.new_requested_token_account,
            };
            &&& fund_requested_error(g) is None
            &&& fund_requested_post(g).requested_holder_token_account
                == e.requested_holder_token_account
            &&& fund_requested_post(g).new_requested_token_account
                == e.new_requested_token_account
            &&& fund_requested_post(g).escrow == e.escrow
        }),
{
}

/// Settlement fails with a supply violation whenever either custody account
/// is empty.
pub proof fn lemma_no_settlement_without_full_funding(s: CrankSwap, signed: bool)
    requires
        s.new_offered_token_account.amount == 0 || s.new_requested_token_account.amount == 0,
    ensures
        crank_error(s, signed) matches Some(EscrowError::Program(p)) && kind_of(p)
            == ErrorKind::SupplyInvariantViolation,
{
}

/// Settlement is all or nothing: where either of its two transfers would be
/// refused, settlement fails as a whole (and a failed settlement leaves
/// every account as it was, as its contract states).
pub proof fn lemma_settlement_atomic(s: CrankSwap, signed: bool)
    requires
        transfer_error(
            s.new_requested_token_account,
            s.final_requested_token_account,
            s.escrow.key,
            signed,
            1,
        ) is Some || transfer_error(
            s.new_offered_token_account,
            s.final_offered_token_account,
            s.escrow.key,
            signed,
            1,
        ) is Some,
    ensures
        crank_error(s, signed) is Some,
{
}

} // verus!
