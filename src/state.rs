use vstd::prelude::*;

verus! {

/// A 32-byte account address or identity key.
#[derive(Clone, Copy, Debug)]
pub struct Pubkey {
    pub bytes: [u8; 32],
}

impl View for Pubkey {
    type V = Seq<u8>;

    open spec fn view(&self) -> Seq<u8> {
        self.bytes@
    }
}

impl Pubkey {
    /// The key made of these 32 bytes.
    pub fn new_from_array(bytes: [u8; 32]) -> (r: Pubkey)
        ensures
            r@ == bytes@,
    {
        Pubkey { bytes }
    }

    /// The key's 32 bytes.
    pub fn to_bytes(&self) -> (r: [u8; 32])
        ensures
            r@ == self@,
    {
        self.bytes
    }
}

impl PartialEq for Pubkey {
    fn eq(&self, o: &Pubkey) -> (r: bool) {
        let mut i: usize = 0;
        while i < 32
            invariant
                0 <= i <= 32,
                self@.len() == 32,
                o@.len() == 32,
                forall|j: int| 0 <= j < i ==> self@[j] == o@[j],
            decreases 32 - i,
        {
            if self.bytes[i] != o.bytes[i] {
                return false;
            }
            i = i + 1;
        }
        assert(self@ =~= o@);
        true
    }
}

impl vstd::std_specs::cmp::PartialEqSpecImpl for Pubkey {
    open spec fn obeys_eq_spec() -> bool {
        true
    }

    open spec fn eq_spec(&self, o: &Pubkey) -> bool {
        self@ == o@
    }
}

impl Eq for Pubkey {
}

/// A token account: which asset it holds (`mint`), which identity controls
/// it (`owner`), and how many units it holds.
#[derive(Clone, Copy, Debug)]
pub struct TokenAccount {
    pub key: Pubkey,
    pub mint: Pubkey,
    pub owner: Pubkey,
    pub amount: u64,
}

/// The escrow record: the two parties, the two asset types, and the
/// addresses of the two custody accounts.
#[derive(Clone, Copy, Debug)]
pub struct Escrow {
    pub offered_pubkey: Pubkey,
    pub requested_pubkey: Pubkey,
    pub offered_token_mint_pubkey: Pubkey,
    pub requested_token_mint_pubkey: Pubkey,
    pub offered_token_account_pubkey: Pubkey,
    pub requested_token_account_pubkey: Pubkey,
}

/// An escrow record together with the address it is stored at.
#[derive(Clone, Copy, Debug)]
pub struct EscrowAccount {
    pub key: Pubkey,
    pub data: Escrow,
}

/// The validation failures of the escrow operations.
#[derive(Clone, Copy, Debug, PartialEq, Eq, Structural)]
pub enum ProgramError {
    /// The initiator does not control the offered holding account.
    E000,
    /// The named counterparty does not control the requested holding account.
    E001,
    /// The offered holding account does not hold exactly one unit.
    E002,
    /// The requested holding account does not hold exactly one unit.
    E003,
    /// The caller is not the offering party.
    E004,
    /// A custody account is not the one recorded on the escrow.
    E005,
    /// The offered custody account is not controlled by the escrow.
    E006,
    /// The caller is not the requesting party.
    E007,
    /// The requested custody account is not controlled by the escrow.
    E008,
    /// The requested holding account is no longer controlled by the requesting party.
    E009,
    /// The offered holding account is no longer controlled by the offering party.
    E010,
    /// A destination is not controlled by the holder of the matching side.
    E011,
    /// The offered asset's destination is not controlled by the requesting party.
    E012,
    /// The requested asset's destination is not controlled by the offering party.
    E013,
    /// The offered custody account does not hold the offered asset.
    E014,
    /// The requested custody account does not hold the requested asset.
    E015,
}

/// The four classes of validation failure.
#[derive(Clone, Copy, Debug, PartialEq, Eq, Structural)]
pub enum ErrorKind {
    AuthorizationMismatch,
    AccountIdentityMismatch,
    SupplyInvariantViolation,
    OwnershipMismatch,
}

/// The class of each validation failure.
pub open spec fn kind_of(e: ProgramError) -> ErrorKind {
    match e {
        ProgramError::E000 | ProgramError::E001 | ProgramError::E004 | ProgramError::E007 => {
            ErrorKind::AuthorizationMismatch
        },
        ProgramError::E005 => ErrorKind::AccountIdentityMismatch,
        ProgramError::E002 | ProgramError::E003 | ProgramError::E014 | ProgramError::E015 => {
            ErrorKind::SupplyInvariantViolation
        },
        _ => ErrorKind::OwnershipMismatch,
    }
}

impl ProgramError {
    /// The class this failure belongs to.
    pub fn kind(&self) -> (r: ErrorKind)
        ensures
            r == kind_of(*self),
    {
        match self {
            ProgramError::E000 | ProgramError::E001 | ProgramError::E004 | ProgramError::E007 => {
                ErrorKind::AuthorizationMismatch
            },
            ProgramError::E005 => ErrorKind::AccountIdentityMismatch,
            ProgramError::E002 | ProgramError::E003 | ProgramError::E014 | ProgramError::E015 => {
                ErrorKind::SupplyInvariantViolation
            },
            _ => ErrorKind::OwnershipMismatch,
        }
    }
}

/// Why the token ledger refused a transfer.
#[derive(Clone, Copy, Debug, PartialEq, Eq, Structural)]
pub enum TokenError {
    /// The source holds fewer units than asked for.
    InsufficientFunds,
    /// Source and destination hold different assets.
    MintMismatch,
    /// The authority is not the source account's owner.
    OwnerMismatch,
    /// The authority did not sign.
    MissingSignature,
    /// The destination's balance would overflow.
    Overflow,
}

/// The failure of an escrow operation: a validation failure of its own, or
/// a refused transfer.
#[derive(Clone, Copy, Debug, PartialEq, Eq, Structural)]
pub enum EscrowError {
    Program(ProgramError),
    Token(TokenError),
}

} // verus!
