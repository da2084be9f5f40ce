use seahorseswap::pda::escrow_can_sign;
use seahorseswap::{
    crank_swap, crank_swap_with_authority, defund_offered_escrow,
    defund_offered_escrow_with_authority, defund_requested_escrow,
    defund_requested_escrow_with_authority, fund_offered_escrow, fund_requested_escrow,
    init_escrow, CrankSwap, DefundOfferedEscrow, DefundRequestedEscrow, ErrorKind, Escrow,
    EscrowAccount, EscrowError, FundOfferedEscrow, FundRequestedEscrow, InitEscrow, ProgramError,
    Pubkey, TokenAccount, TokenError,
};

fn key(n: u8) -> Pubkey {
    Pubkey::new_from_array([n; 32])
}

const A: u8 = 1;
const B: u8 = 2;
const MINT_X: u8 = 3;
const MINT_Y: u8 = 4;
const HOLD_A: u8 = 5;
const HOLD_B: u8 = 6;
const CUSTODY_X: u8 = 7;
const CUSTODY_Y: u8 = 8;
const PROGRAM: u8 = 9;
const DEST_X: u8 = 10;
const DEST_Y: u8 = 11;
const STRANGER: u8 = 12;

fn account(k: u8, mint: u8, owner: u8, amount: u64) -> TokenAccount {
    TokenAccount { key: key(k), mint: key(mint), owner: key(owner), amount }
}

/// The escrow's address and bump, derived as the runtime does.
fn escrow_address() -> (Pubkey, u8) {
    let pid = anchor_lang::prelude::Pubkey::new_from_array(key(PROGRAM).to_bytes());
    let a = key(HOLD_A).to_bytes();
    let b = key(HOLD_B).to_bytes();
    let (k, bump) = anchor_lang::prelude::Pubkey::find_program_address(&[b"escrow", &a, &b], &pid);
    (Pubkey::new_from_array(k.to_bytes()), bump)
}

fn blank_escrow(k: Pubkey) -> EscrowAccount {
    EscrowAccount {
        key: k,
        data: Escrow {
            offered_pubkey: key(0),
            requested_pubkey: key(0),
            offered_token_mint_pubkey: key(0),
            requested_token_mint_pubkey: key(0),
            offered_token_account_pubkey: key(0),
            requested_token_account_pubkey: key(0),
        },
    }
}

fn init_ctx() -> InitEscrow {
    let (ek, _) = escrow_address();
    InitEscrow {
        offerer_signer: key(A),
        offered_token_mint: key(MINT_X),
        requested_token_mint: key(MINT_Y),
        offered_holder_token_account: account(HOLD_A, MINT_X, A, 1),
        requested_holder_token_account: account(HOLD_B, MINT_Y, B, 1),
        escrow: blank_escrow(ek),
        new_offered_token_account: account(CUSTODY_X, 0, 0, 0),
        new_requested_token_account: account(CUSTODY_Y, 0, 0, 0),
    }
}

fn initialised() -> InitEscrow {
    let mut ctx = init_ctx();
    assert!(init_escrow(&mut ctx, key(B)).is_ok());
    ctx
}

fn fund_offered_ctx(i: &InitEscrow, signer: u8) -> FundOfferedEscrow {
    FundOfferedEscrow {
        offerer_signer: key(signer),
        escrow: i.escrow,
        offered_holder_token_account: i.offered_holder_token_account,
        new_offered_token_account: i.new_offered_token_account,
    }
}

fn fund_requested_ctx(i: &InitEscrow, signer: u8) -> FundRequestedEscrow {
    FundRequestedEscrow {
        requested_signer: key(signer),
        escrow: i.escrow,
        requested_holder_token_account: i.requested_holder_token_account,
        new_requested_token_account: i.new_requested_token_account,
    }
}

fn crank_ctx(
    escrow: EscrowAccount,
    hold_a: TokenAccount,
    hold_b: TokenAccount,
    custody_x: TokenAccount,
    custody_y: TokenAccount,
) -> CrankSwap {
    CrankSwap {
        escrow,
        offered_holder_token_account: hold_a,
        requested_holder_token_account: hold_b,
        new_offered_token_account: custody_x,
        new_requested_token_account: custody_y,
        final_offered_token_account: account(DEST_X, MINT_X, B, 0),
        final_requested_token_account: account(DEST_Y, MINT_Y, A, 0),
        program_id: key(PROGRAM),
    }
}

fn err(r: Result<(), EscrowError>) -> EscrowError {
    match r {
        Err(e) => e,
        Ok(()) => panic!("expected a failure"),
    }
}

#[test]
fn init_records_parties_assets_and_custody() {
    let i = initialised();
    let (ek, _) = escrow_address();
    assert_eq!(i.escrow.data.offered_pubkey, key(A));
    assert_eq!(i.escrow.data.requested_pubkey, key(B));
    assert_eq!(i.escrow.data.offered_token_mint_pubkey, key(MINT_X));
    assert_eq!(i.escrow.data.requested_token_mint_pubkey, key(MINT_Y));
    assert_eq!(i.escrow.data.offered_token_account_pubkey, key(CUSTODY_X));
    assert_eq!(i.escrow.data.requested_token_account_pubkey, key(CUSTODY_Y));
    assert_eq!(i.new_offered_token_account.owner, ek);
    assert_eq!(i.new_offered_token_account.mint, key(MINT_X));
    assert_eq!(i.new_offered_token_account.amount, 0);
    assert_eq!(i.new_requested_token_account.owner, ek);
    assert_eq!(i.new_requested_token_account.mint, key(MINT_Y));
    assert_eq!(i.new_requested_token_account.amount, 0);
    assert_eq!(i.offered_holder_token_account.amount, 1);
}

#[test]
fn init_rejects_each_bad_input() {
    let mut c = init_ctx();
    c.offered_holder_token_account.owner = key(STRANGER);
    assert_eq!(err(init_escrow(&mut c, key(B))), EscrowError::Program(ProgramError::E000));
    assert_eq!(c.escrow.data.offered_pubkey, key(0));

    let mut c = init_ctx();
    assert_eq!(err(init_escrow(&mut c, key(STRANGER))), EscrowError::Program(ProgramError::E001));

    let mut c = init_ctx();
    c.offered_holder_token_account.amount = 2;
    assert_eq!(err(init_escrow(&mut c, key(B))), EscrowError::Program(ProgramError::E002));

    let mut c = init_ctx();
    c.requested_holder_token_account.amount = 0;
    assert_eq!(err(init_escrow(&mut c, key(B))), EscrowError::Program(ProgramError::E003));
}

#[test]
fn happy_path_swaps_both_items() {
    let i = initialised();
    let mut fo = fund_offered_ctx(&i, A);
    assert!(fund_offered_escrow(&mut fo).is_ok());
    let mut fr = fund_requested_ctx(&i, B);
    assert!(fund_requested_escrow(&mut fr).is_ok());
    assert_eq!(fo.new_offered_token_account.amount, 1);
    assert_eq!(fr.new_requested_token_account.amount, 1);

    let (_, bump) = escrow_address();
    let mut s = crank_ctx(
        i.escrow,
        fo.offered_holder_token_account,
        fr.requested_holder_token_account,
        fo.new_offered_token_account,
        fr.new_requested_token_account,
    );
    assert!(crank_swap(&mut s, bump).is_ok());
    assert_eq!(s.new_offered_token_account.amount, 0);
    assert_eq!(s.new_requested_token_account.amount, 0);
    assert_eq!(s.final_requested_token_account.amount, 1);
    assert_eq!(s.final_requested_token_account.mint, key(MINT_Y));
    assert_eq!(s.final_requested_token_account.owner, key(A));
    assert_eq!(s.final_offered_token_account.amount, 1);
    assert_eq!(s.final_offered_token_account.mint, key(MINT_X));
    assert_eq!(s.final_offered_token_account.owner, key(B));

    // Settlement is terminal: a second run finds the custody accounts empty.
    assert_eq!(err(crank_swap(&mut s, bump)), EscrowError::Program(ProgramError::E014));
}

#[test]
fn unilateral_withdrawal_restores_the_holding() {
    let i = initialised();
    let mut fo = fund_offered_ctx(&i, A);
    assert!(fund_offered_escrow(&mut fo).is_ok());
    assert_eq!(fo.offered_holder_token_account.amount, 0);

    let (_, bump) = escrow_address();
    let mut d = DefundOfferedEscrow {
        offered_signer: key(A),
        escrow: fo.escrow,
        offered_holder_token_account: fo.offered_holder_token_account,
        requested_holder_token_account: i.requested_holder_token_account,
        new_offered_token_account: fo.new_offered_token_account,
        program_id: key(PROGRAM),
    };
    assert!(defund_offered_escrow(&mut d, bump).is_ok());
    assert_eq!(d.new_offered_token_account.amount, 0);
    assert_eq!(d.offered_holder_token_account.amount, 1);
    assert_eq!(d.escrow.data.offered_pubkey, key(A));
    assert_eq!(d.escrow.data.requested_pubkey, key(B));
    assert_eq!(d.escrow.data.offered_token_mint_pubkey, key(MINT_X));
    assert_eq!(d.escrow.data.requested_token_mint_pubkey, key(MINT_Y));
    assert_eq!(d.escrow.data.offered_token_account_pubkey, key(CUSTODY_X));
    assert_eq!(d.escrow.data.requested_token_account_pubkey, key(CUSTODY_Y));
    assert_eq!(d.escrow.key, i.escrow.key);
}

#[test]
fn unauthorized_funding_is_refused() {
    let i = initialised();
    let mut fo = fund_offered_ctx(&i, STRANGER);
    let e = err(fund_offered_escrow(&mut fo));
    assert_eq!(e, EscrowError::Program(ProgramError::E004));
    match e {
        EscrowError::Program(p) => assert_eq!(p.kind(), ErrorKind::AuthorizationMismatch),
        EscrowError::Token(_) => panic!("expected a validation failure"),
    }
    assert_eq!(fo.offered_holder_token_account.amount, 1);
    assert_eq!(fo.new_offered_token_account.amount, 0);

    let mut fr = fund_requested_ctx(&i, STRANGER);
    assert_eq!(err(fund_requested_escrow(&mut fr)), EscrowError::Program(ProgramError::E007));
    assert_eq!(fr.requested_holder_token_account.amount, 1);
}

#[test]
fn funding_twice_fails() {
    let i = initialised();
    let mut fo = fund_offered_ctx(&i, A);
    assert!(fund_offered_escrow(&mut fo).is_ok());
    assert_eq!(err(fund_offered_escrow(&mut fo)), EscrowError::Token(TokenError::InsufficientFunds));
    assert_eq!(fo.new_offered_token_account.amount, 1);

    let mut fr = fund_requested_ctx(&i, B);
    assert!(fund_requested_escrow(&mut fr).is_ok());
    assert_eq!(err(fund_requested_escrow(&mut fr)), EscrowError::Token(TokenError::InsufficientFunds));
    assert_eq!(fr.new_requested_token_account.amount, 1);
}

#[test]
fn funding_checks_the_custody_account() {
    let i = initialised();
    let mut fo = fund_offered_ctx(&i, A);
    fo.new_offered_token_account.key = key(STRANGER);
    assert_eq!(err(fund_offered_escrow(&mut fo)), EscrowError::Program(ProgramError::E005));

    let mut fo = fund_offered_ctx(&i, A);
    fo.new_offered_token_account.owner = key(A);
    assert_eq!(err(fund_offered_escrow(&mut fo)), EscrowError::Program(ProgramError::E006));

    let mut fr = fund_requested_ctx(&i, B);
    fr.new_requested_token_account.key = key(STRANGER);
    assert_eq!(err(fund_requested_escrow(&mut fr)), EscrowError::Program(ProgramError::E005));

    let mut fr = fund_requested_ctx(&i, B);
    fr.new_requested_token_account.owner = key(B);
    assert_eq!(err(fund_requested_escrow(&mut fr)), EscrowError::Program(ProgramError::E008));
}

#[test]
fn defund_then_fund_round_trip() {
    let i = initialised();
    let (_, bump) = escrow_address();
    let mut fr = fund_requested_ctx(&i, B);
    assert!(fund_requested_escrow(&mut fr).is_ok());
    let mut d = DefundRequestedEscrow {
        requested_signer: key(B),
        escrow: fr.escrow,
        offered_holder_token_account: i.offered_holder_token_account,
        requested_holder_token_account: fr.requested_holder_token_account,
        new_requested_token_account: fr.new_requested_token_account,
        program_id: key(PROGRAM),
    };
    assert!(defund_requested_escrow(&mut d, bump).is_ok());
    assert_eq!(d.new_requested_token_account.amount, 0);
    assert_eq!(d.requested_holder_token_account.amount, 1);
    let mut again = FundRequestedEscrow {
        requested_signer: key(B),
        escrow: d.escrow,
        requested_holder_token_account: d.requested_holder_token_account,
        new_requested_token_account: d.new_requested_token_account,
    };
    assert!(fund_requested_escrow(&mut again).is_ok());
    assert_eq!(again.new_requested_token_account.amount, fr.new_requested_token_account.amount);
    assert_eq!(
        again.requested_holder_token_account.amount,
        fr.requested_holder_token_account.amount
    );
}

#[test]
fn defund_offered_checks() {
    let i = initialised();
    let mut fo = fund_offered_ctx(&i, A);
    assert!(fund_offered_escrow(&mut fo).is_ok());
    let base = DefundOfferedEscrow {
        offered_signer: key(A),
        escrow: fo.escrow,
        offered_holder_token_account: fo.offered_holder_token_account,
        requested_holder_token_account: i.requested_holder_token_account,
        new_offered_token_account: fo.new_offered_token_account,
        program_id: key(PROGRAM),
    };
    let mut d = base;
    d.offered_signer = key(B);
    assert_eq!(err(defund_offered_escrow_with_authority(&mut d, true)), EscrowError::Program(ProgramError::E004));

    let mut d = base;
    d.new_offered_token_account.key = key(STRANGER);
    assert_eq!(err(defund_offered_escrow_with_authority(&mut d, true)), EscrowError::Program(ProgramError::E005));

    let mut d = base;
    assert_eq!(err(defund_offered_escrow_with_authority(&mut d, false)), EscrowError::Token(TokenError::MissingSignature));
    assert_eq!(d.new_offered_token_account.amount, 1);

    let mut d = base;
    assert!(defund_offered_escrow_with_authority(&mut d, true).is_ok());
    assert_eq!(d.offered_holder_token_account.amount, 1);

    // A bump that does not re-derive the escrow's address cannot sign.
    let (_, bump) = escrow_address();
    let mut d = base;
    assert_eq!(err(defund_offered_escrow(&mut d, bump.wrapping_sub(1))), EscrowError::Token(TokenError::MissingSignature));
    assert_eq!(d.new_offered_token_account.amount, 1);
}

#[test]
fn defund_requested_checks() {
    let i = initialised();
    let mut fr = fund_requested_ctx(&i, B);
    assert!(fund_requested_escrow(&mut fr).is_ok());
    let base = DefundRequestedEscrow {
        requested_signer: key(B),
        escrow: fr.escrow,
        offered_holder_token_account: i.offered_holder_token_account,
        requested_holder_token_account: fr.requested_holder_token_account,
        new_requested_token_account: fr.new_requested_token_account,
        program_id: key(PROGRAM),
    };
    let mut d = base;
    d.requested_signer = key(A);
    assert_eq!(err(defund_requested_escrow_with_authority(&mut d, true)), EscrowError::Program(ProgramError::E007));

    let mut d = base;
    d.new_requested_token_account.key = key(STRANGER);
    assert_eq!(err(defund_requested_escrow_with_authority(&mut d, true)), EscrowError::Program(ProgramError::E005));

    let mut d = base;
    d.requested_holder_token_account.owner = key(STRANGER);
    assert_eq!(err(defund_requested_escrow_with_authority(&mut d, true)), EscrowError::Program(ProgramError::E009));

    let mut d = base;
    d.offered_holder_token_account.owner = key(STRANGER);
    assert_eq!(err(defund_requested_escrow_with_authority(&mut d, true)), EscrowError::Program(ProgramError::E010));
    assert_eq!(ProgramError::E010.kind(), ErrorKind::OwnershipMismatch);

    let mut d = base;
    assert!(defund_requested_escrow_with_authority(&mut d, true).is_ok());
    assert_eq!(d.requested_holder_token_account.amount, 1);
    assert_eq!(d.new_requested_token_account.amount, 0);
}

#[test]
fn no_settlement_without_full_funding() {
    let i = initialised();
    let (_, bump) = escrow_address();
    let mut fo = fund_offered_ctx(&i, A);
    assert!(fund_offered_escrow(&mut fo).is_ok());
    let mut s = crank_ctx(
        i.escrow,
        fo.offered_holder_token_account,
        i.requested_holder_token_account,
        fo.new_offered_token_account,
        i.new_requested_token_account,
    );
    let e = err(crank_swap(&mut s, bump));
    assert_eq!(e, EscrowError::Program(ProgramError::E015));
    assert_eq!(ProgramError::E015.kind(), ErrorKind::SupplyInvariantViolation);
    assert_eq!(s.new_offered_token_account.amount, 1);

    let mut s = crank_ctx(
        i.escrow,
        i.offered_holder_token_account,
        i.requested_holder_token_account,
        i.new_offered_token_account,
        i.new_requested_token_account,
    );
    // Even with a wrong destination, the missing funding is what is reported.
    s.final_offered_token_account.owner = key(STRANGER);
    assert_eq!(err(crank_swap(&mut s, bump)), EscrowError::Program(ProgramError::E014));
}

fn funded_crank() -> CrankSwap {
    let i = initialised();
    let mut fo = fund_offered_ctx(&i, A);
    assert!(fund_offered_escrow(&mut fo).is_ok());
    let mut fr = fund_requested_ctx(&i, B);
    assert!(fund_requested_escrow(&mut fr).is_ok());
    crank_ctx(
        i.escrow,
        fo.offered_holder_token_account,
        fr.requested_holder_token_account,
        fo.new_offered_token_account,
        fr.new_requested_token_account,
    )
}

#[test]
fn settlement_checks_ownership() {
    let base = funded_crank();
    let mut s = base;
    s.final_requested_token_account.owner = key(STRANGER);
    assert_eq!(err(crank_swap_with_authority(&mut s, true)), EscrowError::Program(ProgramError::E011));

    let mut s = base;
    s.final_offered_token_account.owner = key(STRANGER);
    assert_eq!(err(crank_swap_with_authority(&mut s, true)), EscrowError::Program(ProgramError::E011));

    let mut s = base;
    s.final_offered_token_account.owner = key(STRANGER);
    s.requested_holder_token_account.owner = key(STRANGER);
    assert_eq!(err(crank_swap_with_authority(&mut s, true)), EscrowError::Program(ProgramError::E012));

    let mut s = base;
    s.final_requested_token_account.owner = key(STRANGER);
    s.offered_holder_token_account.owner = key(STRANGER);
    assert_eq!(err(crank_swap_with_authority(&mut s, true)), EscrowError::Program(ProgramError::E013));
    assert_eq!(s.new_offered_token_account.amount, 1);
    assert_eq!(s.new_requested_token_account.amount, 1);
}

#[test]
fn settlement_is_atomic() {
    // The second transfer is refused (wrong asset at the destination): the
    // first one must not stay done either.
    let mut s = funded_crank();
    s.final_offered_token_account.mint = key(MINT_Y);
    assert_eq!(err(crank_swap_with_authority(&mut s, true)), EscrowError::Token(TokenError::MintMismatch));
    assert_eq!(s.new_offered_token_account.amount, 1);
    assert_eq!(s.new_requested_token_account.amount, 1);
    assert_eq!(s.final_requested_token_account.amount, 0);
    assert_eq!(s.final_offered_token_account.amount, 0);

    let mut s = funded_crank();
    assert_eq!(err(crank_swap_with_authority(&mut s, false)), EscrowError::Token(TokenError::MissingSignature));
    assert_eq!(s.new_requested_token_account.amount, 1);

    let mut s = funded_crank();
    assert!(crank_swap_with_authority(&mut s, true).is_ok());
    assert_eq!(s.final_offered_token_account.amount, 1);
    assert_eq!(s.final_requested_token_account.amount, 1);
}

#[test]
fn escrow_authority_is_rederived() {
    let (ek, bump) = escrow_address();
    assert!(escrow_can_sign(&ek, &key(HOLD_A), &key(HOLD_B), bump, &key(PROGRAM)));
    assert!(!escrow_can_sign(&ek, &key(HOLD_B), &key(HOLD_A), bump, &key(PROGRAM)));
    assert!(!escrow_can_sign(&ek, &key(HOLD_A), &key(HOLD_B), bump, &key(STRANGER)));
    assert!(!escrow_can_sign(&key(PROGRAM), &key(HOLD_A), &key(HOLD_B), bump, &key(PROGRAM)));
}

#[test]
fn error_kinds() {
    assert_eq!(ProgramError::E000.kind(), ErrorKind::AuthorizationMismatch);
    assert_eq!(ProgramError::E005.kind(), ErrorKind::AccountIdentityMismatch);
    assert_eq!(ProgramError::E002.kind(), ErrorKind::SupplyInvariantViolation);
    assert_eq!(ProgramError::E014.kind(), ErrorKind::SupplyInvariantViolation);
    assert_eq!(ProgramError::E011.kind(), ErrorKind::OwnershipMismatch);
    assert_eq!(ProgramError::E006.kind(), ErrorKind::OwnershipMismatch);
}
