//! A model of the fungible-token ledger the vault composes with: mints,
//! token accounts, and the `mint_to`, `burn` and `transfer` primitives.
//!
//! The vault never owns these accounts; it drives them through the ledger's
//! primitives and relies only on the contracts stated here, which mirror the
//! ledger's documented behaviour: an operation either moves exactly the
//! requested amount under the required authority, or fails and changes
//! nothing.

use vstd::prelude::*;

use crate::ErrorCode;

verus! {

/// An account identity. The ledger and the vault compare identities only
/// for equality; no other structure is read from them.
#[derive(Clone, Copy, Debug, PartialEq, Eq, Structural, Hash)]
pub struct Key(pub u64);

/// The state of one token mint: its identity, the authorities allowed to
/// mint and freeze, the outstanding supply, and the decimal scale.
#[derive(Clone, Copy, Debug, PartialEq, Eq)]
pub struct MintAccount {
    /// Identity of the mint itself.
    pub address: Key,
    /// The identity allowed to mint new tokens, if any.
    pub mint_authority: Option<Key>,
    /// The identity allowed to freeze token accounts, if any.
    pub freeze_authority: Option<Key>,
    /// Tokens currently outstanding.
    pub supply: u64,
    /// Decimal scale of the token.
    pub decimals: u8,
}

/// The state of one token account: which mint it belongs to, who owns it,
/// and its balance.
#[derive(Clone, Copy, Debug, PartialEq, Eq)]
pub struct TokenAccount {
    /// Identity of this account.
    pub address: Key,
    /// The mint this account holds tokens of.
    pub mint: Key,
    /// The identity that must sign to move tokens out of this account.
    pub owner: Key,
    /// Current balance.
    pub amount: u64,
}

/// The outcome `mint_to` commits: the checks it makes, in order, and the
/// two accounts it rewrites on success.
pub open spec fn spec_mint_to(
    mint: MintAccount,
    destination: TokenAccount,
    authority: Key,
    amount: u64,
) -> Result<(MintAccount, TokenAccount), ErrorCode> {
    if mint.mint_authority != Some(authority) {
        Err(ErrorCode::AuthorityMismatch)
    } else if destination.mint != mint.address {
        Err(ErrorCode::MintMismatch)
    } else if mint.supply + amount > u64::MAX || destination.amount + amount > u64::MAX {
        Err(ErrorCode::IntegerOverflow)
    } else {
        Ok((
            MintAccount { supply: (mint.supply + amount) as u64, ..mint },
            TokenAccount { amount: (destination.amount + amount) as u64, ..destination },
        ))
    }
}

/// Mints `amount` new tokens of `mint` into `destination`, authorized by
/// `authority`. Fails, changing nothing, unless `authority` is the mint
/// authority, `destination` belongs to `mint`, and neither the supply nor
/// the destination balance would overflow.
pub fn mint_to(
    mint: &mut MintAccount,
    destination: &mut TokenAccount,
    authority: &Key,
    amount: u64,
) -> (r: Result<(), ErrorCode>)
    ensures
        r is Ok <==> spec_mint_to(*old(mint), *old(destination), *authority, amount) is Ok,
        spec_mint_to(*old(mint), *old(destination), *authority, amount) matches Ok(updated)
            ==> *final(mint) == updated.0 && *final(destination) == updated.1,
        spec_mint_to(*old(mint), *old(destination), *authority, amount) matches Err(e)
            ==> r == Err::<(), ErrorCode>(e),
        r is Err ==> *final(mint) == *old(mint) && *final(destination) == *old(destination),
{
    let authorized: bool = match mint.mint_authority {
        Some(k) => k == *authority,
        None => false,
    };
    if !authorized {
        return Err(ErrorCode::AuthorityMismatch);
    }
    if destination.mint != mint.address {
        return Err(ErrorCode::MintMismatch);
    }
    if amount > u64::MAX - mint.supply || amount > u64::MAX - destination.amount {
        return Err(ErrorCode::IntegerOverflow);
    }
    mint.supply = mint.supply + amount;
    destination.amount = destination.amount + amount;
    Ok(())
}

/// The outcome `burn` commits.
pub open spec fn spec_burn(
    mint: MintAccount,
    source: TokenAccount,
    authority: Key,
    amount: u64,
) -> Result<(MintAccount, TokenAccount), ErrorCode> {
    if source.owner != authority {
        Err(ErrorCode::AuthorityMismatch)
    } else if source.mint != mint.address {
        Err(ErrorCode::MintMismatch)
    } else if source.amount < amount {
        Err(ErrorCode::InsufficientFunds)
    } else if mint.supply < amount {
        Err(ErrorCode::IntegerOverflow)
    } else {
        Ok((
            MintAccount { supply: (mint.supply - amount) as u64, ..mint },
            TokenAccount { amount: (source.amount - amount) as u64, ..source },
        ))
    }
}

/// Burns `amount` tokens of `mint` out of `source`, authorized by the
/// account's owner. Fails, changing nothing, unless `authority` owns
/// `source`, `source` belongs to `mint`, and both the balance and the
/// supply cover `amount`.
pub fn burn(
    mint: &mut MintAccount,
    source: &mut TokenAccount,
    authority: &Key,
    amount: u64,
) -> (r: Result<(), ErrorCode>)
    ensures
        r is Ok <==> spec_burn(*old(mint), *old(source), *authority, amount) is Ok,
        spec_burn(*old(mint), *old(source), *authority, amount) matches Ok(updated)
            ==> *final(mint) == updated.0 && *final(source) == updated.1,
        spec_burn(*old(mint), *old(source), *authority, amount) matches Err(e)
            ==> r == Err::<(), ErrorCode>(e),
        r is Err ==> *final(mint) == *old(mint) && *final(source) == *old(source),
{
    if source.owner != *authority {
        return Err(ErrorCode::AuthorityMismatch);
    }
    if source.mint != mint.address {
        return Err(ErrorCode::MintMismatch);
    }
    if source.amount < amount {
        return Err(ErrorCode::InsufficientFunds);
    }
    if mint.supply < amount {
        return Err(ErrorCode::IntegerOverflow);
    }
    mint.supply = mint.supply - amount;
    source.amount = source.amount - amount;
    Ok(())
}

/// The outcome `transfer` commits.
pub open spec fn spec_transfer(
    source: TokenAccount,
    destination: TokenAccount,
    authority: Key,
    amount: u64,
) -> Result<(TokenAccount, TokenAccount), ErrorCode> {
    if source.owner != authority {
        Err(ErrorCode::AuthorityMismatch)
    } else if source.mint != destination.mint {
        Err(ErrorCode::MintMismatch)
    } else if source.amount < amount {
        Err(ErrorCode::InsufficientFunds)
    } else if destination.amount + amount > u64::MAX {
        Err(ErrorCode::IntegerOverflow)
    } else {
        Ok((
            TokenAccount { amount: (source.amount - amount) as u64, ..source },
            TokenAccount { amount: (destination.amount + amount) as u64, ..destination },
        ))
    }
}

/// Moves `amount` tokens from `source` to `destination`, authorized by the
/// source's owner. Fails, changing nothing, unless `authority` owns
/// `source`, both accounts hold the same mint, the balance covers `amount`,
/// and the destination balance would not overflow.
pub fn transfer(
    source: &mut TokenAccount,
    destination: &mut TokenAccount,
    authority: &Key,
    amount: u64,
) -> (r: Result<(), ErrorCode>)
    ensures
        r is Ok <==> spec_transfer(*old(source), *old(destination), *authority, amount) is Ok,
        spec_transfer(*old(source), *old(destination), *authority, amount) matches Ok(updated)
            ==> *final(source) == updated.0 && *final(destination) == updated.1,
        spec_transfer(*old(source), *old(destination), *authority, amount) matches Err(e)
            ==> r == Err::<(), ErrorCode>(e),
        r is Err ==> *final(source) == *old(source) && *final(destination) == *old(destination),
{
    if source.owner != *authority {
        return Err(ErrorCode::AuthorityMismatch);
    }
    if source.mint != destination.mint {
        return Err(ErrorCode::MintMismatch);
    }
    if source.amount < amount {
        return Err(ErrorCode::InsufficientFunds);
    }
    if amount > u64::MAX - destination.amount {
        return Err(ErrorCode::IntegerOverflow);
    }
    source.amount = source.amount - amount;
    destination.amount = destination.amount + amount;
    Ok(())
}

} // verus!
