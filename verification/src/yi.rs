//! A model of the staking subsystem the vault composes with: a pool that
//! converts between its share token and an underlying token.
//!
//! The pool's conversion rate is its own business: the vault never
//! predicts how many tokens a stake or unstake call will credit. The
//! `shares_out` and `payout` parameters below stand for the amount the
//! pool itself decides to credit on a given call, and the contracts state
//! what holds of the accounts whatever that amount is. The vault's own
//! handlers measure the credited amount by a before/after balance
//! comparison rather than trusting any nominal figure.

use vstd::prelude::*;

use crate::ErrorCode;
use crate::token::{Key, MintAccount, TokenAccount};

verus! {

/// One staking-pool instance: the share token it issues, the underlying
/// token it holds, and its fee schedule.
#[derive(Clone, Copy, Debug, PartialEq, Eq, Structural)]
pub struct YiToken {
    /// Identity of the pool itself.
    pub address: Key,
    /// Mint of the share token the pool issues.
    pub mint: Key,
    /// Mint of the underlying token the pool holds.
    pub underlying_token_mint: Key,
    /// The pool-owned account holding the underlying tokens.
    pub underlying_tokens: Key,
    /// Fee charged on staking, in milli-basis-points.
    pub stake_fee_millibps: u64,
    /// Fee charged on unstaking, in milli-basis-points.
    pub unstake_fee_millibps: u64,
}

/// The outcome `unstake` commits, given that the pool credits `payout`
/// underlying tokens for the `amount` share tokens burned.
pub open spec fn spec_unstake(
    yi_token: YiToken,
    yi_mint: MintAccount,
    source_yi_tokens: TokenAccount,
    source_authority: Key,
    yi_underlying_tokens: TokenAccount,
    destination_underlying_tokens: TokenAccount,
    amount: u64,
    payout: u64,
) -> Result<(MintAccount, TokenAccount, TokenAccount, TokenAccount), ErrorCode> {
    if yi_mint.address != yi_token.mint || source_yi_tokens.mint != yi_token.mint {
        Err(ErrorCode::MintMismatch)
    } else if yi_underlying_tokens.address != yi_token.underlying_tokens {
        Err(ErrorCode::KeysMismatch)
    } else if destination_underlying_tokens.mint != yi_token.underlying_token_mint {
        Err(ErrorCode::MintMismatch)
    } else if source_yi_tokens.owner != source_authority {
        Err(ErrorCode::AuthorityMismatch)
    } else if source_yi_tokens.amount < amount || yi_underlying_tokens.amount < payout {
        Err(ErrorCode::InsufficientFunds)
    } else if yi_mint.supply < amount {
        Err(ErrorCode::IntegerOverflow)
    } else if destination_underlying_tokens.amount + payout > u64::MAX {
        Err(ErrorCode::IntegerOverflow)
    } else {
        Ok((
            MintAccount { supply: (yi_mint.supply - amount) as u64, ..yi_mint },
            TokenAccount { amount: (source_yi_tokens.amount - amount) as u64, ..source_yi_tokens },
            TokenAccount {
                amount: (yi_underlying_tokens.amount - payout) as u64,
                ..yi_underlying_tokens
            },
            TokenAccount {
                amount: (destination_underlying_tokens.amount + payout) as u64,
                ..destination_underlying_tokens
            },
        ))
    }
}

/// Burns `amount` share tokens out of `source_yi_tokens` under the
/// source owner's authority and credits `payout` underlying tokens from
/// the pool's holdings to `destination_underlying_tokens`. `payout` is
/// the amount the pool itself computes for this call; the contract holds
/// for every value of it. Fails, changing nothing, if any identity,
/// authority or balance check fails.
pub fn unstake(
    yi_token: &YiToken,
    yi_mint: &mut MintAccount,
    source_yi_tokens: &mut TokenAccount,
    source_authority: &Key,
    yi_underlying_tokens: &mut TokenAccount,
    destination_underlying_tokens: &mut TokenAccount,
    amount: u64,
    payout: u64,
) -> (r: Result<(), ErrorCode>)
    ensures
        r is Ok <==> spec_unstake(
            *yi_token,
            *old(yi_mint),
            *old(source_yi_tokens),
            *source_authority,
            *old(yi_underlying_tokens),
            *old(destination_underlying_tokens),
            amount,
            payout,
        ) is Ok,
        spec_unstake(
            *yi_token,
            *old(yi_mint),
            *old(source_yi_tokens),
            *source_authority,
            *old(yi_underlying_tokens),
            *old(destination_underlying_tokens),
            amount,
            payout,
        ) matches Ok(updated) ==> *final(yi_mint) == updated.0
            && *final(source_yi_tokens) == updated.1
            && *final(yi_underlying_tokens) == updated.2
            && *final(destination_underlying_tokens) == updated.3,
        spec_unstake(
            *yi_token,
            *old(yi_mint),
            *old(source_yi_tokens),
            *source_authority,
            *old(yi_underlying_tokens),
            *old(destination_underlying_tokens),
            amount,
            payout,
        ) matches Err(e) ==> r == Err::<(), ErrorCode>(e),
        r is Err ==> *final(yi_mint) == *old(yi_mint)
            && *final(source_yi_tokens) == *old(source_yi_tokens)
            && *final(yi_underlying_tokens) == *old(yi_underlying_tokens)
            && *final(destination_underlying_tokens) == *old(destination_underlying_tokens),
{
    if yi_mint.address != yi_token.mint || source_yi_tokens.mint != yi_token.mint {
        return Err(ErrorCode::MintMismatch);
    }
    if yi_underlying_tokens.address != yi_token.underlying_tokens {
        return Err(ErrorCode::KeysMismatch);
    }
    if destination_underlying_tokens.mint != yi_token.underlying_token_mint {
        return Err(ErrorCode::MintMismatch);
    }
    if source_yi_tokens.owner != *source_authority {
        return Err(ErrorCode::AuthorityMismatch);
    }
    if source_yi_tokens.amount < amount || yi_underlying_tokens.amount < payout {
        return Err(ErrorCode::InsufficientFunds);
    }
    if yi_mint.supply < amount {
        return Err(ErrorCode::IntegerOverflow);
    }
    if payout > u64::MAX - destination_underlying_tokens.amount {
        return Err(ErrorCode::IntegerOverflow);
    }
    yi_mint.supply = yi_mint.supply - amount;
    source_yi_tokens.amount = source_yi_tokens.amount - amount;
    yi_underlying_tokens.amount = yi_underlying_tokens.amount - payout;
    destination_underlying_tokens.amount = destination_underlying_tokens.amount + payout;
    Ok(())
}

/// The outcome `stake` commits, given that the pool credits `shares_out`
/// share tokens for the `amount` underlying tokens deposited.
pub open spec fn spec_stake(
    yi_token: YiToken,
    yi_mint: MintAccount,
    source_underlying_tokens: TokenAccount,
    source_authority: Key,
    yi_underlying_tokens: TokenAccount,
    destination_yi_tokens: TokenAccount,
    amount: u64,
    shares_out: u64,
) -> Result<(MintAccount, TokenAccount, TokenAccount, TokenAccount), ErrorCode> {
    if yi_mint.address != yi_token.mint || destination_yi_tokens.mint != yi_token.mint {
        Err(ErrorCode::MintMismatch)
    } else if yi_underlying_tokens.address != yi_token.underlying_tokens {
        Err(ErrorCode::KeysMismatch)
    } else if source_underlying_tokens.mint != yi_token.underlying_token_mint {
        Err(ErrorCode::MintMismatch)
    } else if source_underlying_tokens.owner != source_authority {
        Err(ErrorCode::AuthorityMismatch)
    } else if source_underlying_tokens.amount < amount {
        Err(ErrorCode::InsufficientFunds)
    } else if yi_underlying_tokens.amount + amount > u64::MAX
        || yi_mint.supply + shares_out > u64::MAX
        || destination_yi_tokens.amount + shares_out > u64::MAX {
        Err(ErrorCode::IntegerOverflow)
    } else {
        Ok((
            MintAccount { supply: (yi_mint.supply + shares_out) as u64, ..yi_mint },
            TokenAccount {
                amount: (source_underlying_tokens.amount - amount) as u64,
                ..source_underlying_tokens
            },
            TokenAccount {
                amount: (yi_underlying_tokens.amount + amount) as u64,
                ..yi_underlying_tokens
            },
            TokenAccount {
                amount: (destination_yi_tokens.amount + shares_out) as u64,
                ..destination_yi_tokens
            },
        ))
    }
}

/// Deposits `amount` underlying tokens from `source_underlying_tokens`
/// into the pool's holdings and mints `shares_out` share tokens to
/// `destination_yi_tokens`. `shares_out` is the amount the pool itself
/// computes for this call; the contract holds for every value of it.
/// Fails, changing nothing, if any identity, authority or balance check
/// fails.
pub fn stake(
    yi_token: &YiToken,
    yi_mint: &mut MintAccount,
    source_underlying_tokens: &mut TokenAccount,
    source_authority: &Key,
    yi_underlying_tokens: &mut TokenAccount,
    destination_yi_tokens: &mut TokenAccount,
    amount: u64,
    shares_out: u64,
) -> (r: Result<(), ErrorCode>)
    ensures
        r is Ok <==> spec_stake(
            *yi_token,
            *old(yi_mint),
            *old(source_underlying_tokens),
            *source_authority,
            *old(yi_underlying_tokens),
            *old(destination_yi_tokens),
            amount,
            shares_out,
        ) is Ok,
        spec_stake(
            *yi_token,
            *old(yi_mint),
            *old(source_underlying_tokens),
            *source_authority,
            *old(yi_underlying_tokens),
            *old(destination_yi_tokens),
            amount,
            shares_out,
        ) matches Ok(updated) ==> *final(yi_mint) == updated.0
            && *final(source_underlying_tokens) == updated.1
            && *final(yi_underlying_tokens) == updated.2
            && *final(destination_yi_tokens) == updated.3,
        spec_stake(
            *yi_token,
            *old(yi_mint),
            *old(source_underlying_tokens),
            *source_authority,
            *old(yi_underlying_tokens),
            *old(destination_yi_tokens),
            amount,
            shares_out,
        ) matches Err(e) ==> r == Err::<(), ErrorCode>(e),
        r is Err ==> *final(yi_mint) == *old(yi_mint)
            && *final(source_underlying_tokens) == *old(source_underlying_tokens)
            && *final(yi_underlying_tokens) == *old(yi_underlying_tokens)
            && *final(destination_yi_tokens) == *old(destination_yi_tokens),
{
    if yi_mint.address != yi_token.mint || destination_yi_tokens.mint != yi_token.mint {
        return Err(ErrorCode::MintMismatch);
    }
    if yi_underlying_tokens.address != yi_token.underlying_tokens {
        return Err(ErrorCode::KeysMismatch);
    }
    if source_underlying_tokens.mint != yi_token.underlying_token_mint {
        return Err(ErrorCode::MintMismatch);
    }
    if source_underlying_tokens.owner != *source_authority {
        return Err(ErrorCode::AuthorityMismatch);
    }
    if source_underlying_tokens.amount < amount {
        return Err(ErrorCode::InsufficientFunds);
    }
    if amount > u64::MAX - yi_underlying_tokens.amount
        || shares_out > u64::MAX - yi_mint.supply
        || shares_out > u64::MAX - destination_yi_tokens.amount {
        return Err(ErrorCode::IntegerOverflow);
    }
    yi_mint.supply = yi_mint.supply + shares_out;
    source_underlying_tokens.amount = source_underlying_tokens.amount - amount;
    yi_underlying_tokens.amount = yi_underlying_tokens.amount + amount;
    destination_yi_tokens.amount = destination_yi_tokens.amount + shares_out;
    Ok(())
}

} // verus!
