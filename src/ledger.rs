use vstd::prelude::*;

use crate::state::{Pubkey, TokenAccount, TokenError};

verus! {

/// Why a transfer of `amount` units from `from` to `to`, authorised by
/// `authority`, is refused; `None` when it goes through.
pub open spec fn transfer_error(
    from: TokenAccount,
    to: TokenAccount,
    authority: Pubkey,
    signed: bool,
    amount: u64,
) -> Option<TokenError> {
    if from.amount < amount {
        Some(TokenError::InsufficientFunds)
    } else if from.mint@ != to.mint@ {
        Some(TokenError::MintMismatch)
    } else if from.owner@ != authority@ {
        Some(TokenError::OwnerMismatch)
    } else if !signed {
        Some(TokenError::MissingSignature)
    } else if to.amount + amount > u64::MAX {
        Some(TokenError::Overflow)
    } else {
        None
    }
}

/// `a` with `amount` units taken out.
pub open spec fn debited(a: TokenAccount, amount: u64) -> TokenAccount {
    TokenAccount { amount: (a.amount - amount) as u64, ..a }
}

/// `a` with `amount` units put in.
pub open spec fn credited(a: TokenAccount, amount: u64) -> TokenAccount {
    TokenAccount { amount: (a.amount + amount) as u64, ..a }
}

/// Moves `amount` units from `from` to `to` when `authority` controls
/// `from` and has signed; otherwise changes nothing.
pub fn transfer(
    from: &mut TokenAccount,
    to: &mut TokenAccount,
    authority: &Pubkey,
    signed: bool,
    amount: u64,
) -> (r: Result<(), TokenError>)
    ensures
        match transfer_error(*old(from), *old(to), *authority, signed, amount) {
            Some(e) => r == Err::<(), TokenError>(e) && *final(from) == *old(from) && *final(to)
                == *old(to),
            None => r is Ok && *final(from) == debited(*old(from), amount) && *final(to)
                == credited(*old(to), amount),
        },
{
    if from.amount < amount {
        return Err(TokenError::InsufficientFunds);
    }
    if from.mint != to.mint {
        return Err(TokenError::MintMismatch);
    }
    if from.owner != *authority {
        return Err(TokenError::OwnerMismatch);
    }
    if !signed {
        return Err(TokenError::MissingSignature);
    }
    if to.amount > u64::MAX - amount {
        return Err(TokenError::Overflow);
    }
    from.amount = from.amount - amount;
    to.amount = to.amount + amount;
    Ok(())
}

} // verus!
