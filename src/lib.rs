pub mod escrow;
pub mod laws;
pub mod ledger;
pub mod pda;
pub mod program;
pub mod state;

pub use escrow::{
    crank_swap_handler, crank_swap_with_authority, defund_offered_escrow_handler,
    defund_offered_escrow_with_authority, defund_requested_escrow_handler,
    defund_requested_escrow_with_authority, fund_offered_escrow_handler,
    fund_requested_escrow_handler, init_escrow_handler, CrankSwap, DefundOfferedEscrow,
    DefundRequestedEscrow, FundOfferedEscrow, FundRequestedEscrow, InitEscrow,
};
pub use program::{
    crank_swap, defund_offered_escrow, defund_requested_escrow, fund_offered_escrow,
    fund_requested_escrow, init_escrow,
};
pub use state::{
    ErrorKind, Escrow, EscrowAccount, EscrowError, ProgramError, Pubkey, TokenAccount, TokenError,
};
