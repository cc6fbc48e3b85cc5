//! A model of the vote-escrow subsystem the vault deposits into: lockers,
//! escrow positions, and the `lock` call that moves tokens into an escrow
//! for a duration.

use vstd::prelude::*;

use crate::ErrorCode;
use crate::token::{Key, TokenAccount};

verus! {

/// One vote-escrow locker: the registry all escrows of one electorate
/// belong to.
#[derive(Clone, Copy, Debug, PartialEq, Eq, Structural)]
pub struct Locker {
    /// Identity of the locker itself.
    pub address: Key,
    /// Total tokens locked across all escrows of this locker.
    pub locked_supply: u64,
}

/// One escrow position: a holder's locked tokens within a locker.
#[derive(Clone, Copy, Debug, PartialEq, Eq, Structural)]
pub struct Escrow {
    /// Identity of the escrow itself.
    pub address: Key,
    /// The locker this escrow belongs to.
    pub locker: Key,
    /// The holder this escrow belongs to.
    pub owner: Key,
    /// The token account held by this escrow.
    pub tokens: Key,
    /// Tokens currently locked in this escrow.
    pub amount: u64,
    /// The duration recorded for the latest deposit, in the escrow
    /// subsystem's signed time units.
    pub duration: i64,
}

/// The outcome the escrow subsystem's `lock` call commits: the checks it
/// makes, in order, and the accounts it rewrites on success.
pub open spec fn spec_lock(
    locker: Locker,
    escrow: Escrow,
    escrow_tokens: TokenAccount,
    escrow_owner: Key,
    source_tokens: TokenAccount,
    amount: u64,
    duration: i64,
) -> Result<(Locker, Escrow, TokenAccount, TokenAccount), ErrorCode> {
    if escrow.locker != locker.address {
        Err(ErrorCode::LockerMismatch)
    } else if escrow.owner != escrow_owner || escrow.tokens != escrow_tokens.address {
        Err(ErrorCode::KeysMismatch)
    } else if source_tokens.owner != escrow_owner {
        Err(ErrorCode::AuthorityMismatch)
    } else if source_tokens.mint != escrow_tokens.mint {
        Err(ErrorCode::MintMismatch)
    } else if source_tokens.amount < amount {
        Err(ErrorCode::InsufficientFunds)
    } else if escrow_tokens.amount + amount > u64::MAX
        || escrow.amount + amount > u64::MAX
        || locker.locked_supply + amount > u64::MAX {
        Err(ErrorCode::IntegerOverflow)
    } else {
        Ok((
            Locker { locked_supply: (locker.locked_supply + amount) as u64, ..locker },
            Escrow { amount: (escrow.amount + amount) as u64, duration, ..escrow },
            TokenAccount { amount: (escrow_tokens.amount + amount) as u64, ..escrow_tokens },
            TokenAccount { amount: (source_tokens.amount - amount) as u64, ..source_tokens },
        ))
    }
}

/// Deposits `amount` tokens from `source_tokens` into `escrow` for
/// `duration` time units. The escrow must belong to `locker` and to
/// `escrow_owner`, who must also own the source account. The escrow
/// records the deposit's duration. Fails, changing nothing, if any
/// identity, authority or balance check fails.
pub fn lock(
    locker: &mut Locker,
    escrow: &mut Escrow,
    escrow_tokens: &mut TokenAccount,
    escrow_owner: &Key,
    source_tokens: &mut TokenAccount,
    amount: u64,
    duration: i64,
) -> (r: Result<(), ErrorCode>)
    ensures
        r is Ok <==> spec_lock(
            *old(locker),
            *old(escrow),
            *old(escrow_tokens),
            *escrow_owner,
            *old(source_tokens),
            amount,
            duration,
        ) is Ok,
        spec_lock(
            *old(locker),
            *old(escrow),
            *old(escrow_tokens),
            *escrow_owner,
            *old(source_tokens),
            amount,
            duration,
        ) matches Ok(updated) ==> *final(locker) == updated.0
            && *final(escrow) == updated.1
            && *final(escrow_tokens) == updated.2
            && *final(source_tokens) == updated.3,
        spec_lock(
            *old(locker),
            *old(escrow),
            *old(escrow_tokens),
            *escrow_owner,
            *old(source_tokens),
            amount,
            duration,
        ) matches Err(e) ==> r == Err::<(), ErrorCode>(e),
        r is Err ==> *final(locker) == *old(locker)
            && *final(escrow) == *old(escrow)
            && *final(escrow_tokens) == *old(escrow_tokens)
            && *final(source_tokens) == *old(source_tokens),
{
    if escrow.locker != locker.address {
        return Err(ErrorCode::LockerMismatch);
    }
    if escrow.owner != *escrow_owner || escrow.tokens != escrow_tokens.address {
        return Err(ErrorCode::KeysMismatch);
    }
    if source_tokens.owner != *escrow_owner {
        return Err(ErrorCode::AuthorityMismatch);
    }
    if source_tokens.mint != escrow_tokens.mint {
        return Err(ErrorCode::MintMismatch);
    }
    if source_tokens.amount < amount {
        return Err(ErrorCode::InsufficientFunds);
    }
    if amount > u64::MAX - escrow_tokens.amount
        || amount > u64::MAX - escrow.amount
        || amount > u64::MAX - locker.locked_supply {
        return Err(ErrorCode::IntegerOverflow);
    }
    locker.locked_supply = locker.locked_supply + amount;
    escrow.amount = escrow.amount + amount;
    escrow.duration = duration;
    escrow_tokens.amount = escrow_tokens.amount + amount;
    source_tokens.amount = source_tokens.amount - amount;
    Ok(())
}

} // verus!
