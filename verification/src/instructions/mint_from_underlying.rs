//! The mint-from-underlying operation: the caller's underlying tokens are
//! staked through the share pool into the vault's custody, and the vault
//! mints vault tokens equal to the share amount actually received —
//! measured by a before/after custody-balance comparison, so any rounding
//! the pool applies is absorbed rather than passed on.

use vstd::prelude::*;

use crate::ErrorCode;
use crate::common::MintToCommon;
use crate::token::{Key, MintAccount, TokenAccount};
use crate::yi;
use crate::yi::YiToken;

verus! {

/// The staking-pool accounts the deposit is staked through.
#[derive(Clone, Copy, Debug, PartialEq, Eq)]
pub struct YiStake {
    /// The pool to stake into.
    pub yi_token: YiToken,
    /// Mint of the pool's share token.
    pub yi_mint: MintAccount,
    /// The pool-owned account holding the underlying tokens.
    pub yi_underlying_tokens: TokenAccount,
}

impl YiStake {
    /// The supplied mint and underlying account are the ones the pool
    /// itself designates.
    pub open spec fn spec_valid(self) -> bool {
        &&& self.yi_token.mint == self.yi_mint.address
        &&& self.yi_token.underlying_tokens == self.yi_underlying_tokens.address
    }

    /// Checks that the pool accounts are internally consistent.
    /// Succeeds if and only if they are; nothing is mutated.
    pub fn validate(&self) -> (r: Result<(), ErrorCode>)
        ensures
            r is Ok <==> self.spec_valid(),
            r is Err ==> r == Err::<(), ErrorCode>(ErrorCode::KeysMismatch),
    {
        if self.yi_token.mint != self.yi_mint.address {
            return Err(ErrorCode::KeysMismatch);
        }
        if self.yi_token.underlying_tokens != self.yi_underlying_tokens.address {
            return Err(ErrorCode::KeysMismatch);
        }
        Ok(())
    }
}

/// Accounts for the mint-from-underlying operation.
#[derive(Clone, Copy, Debug, PartialEq, Eq)]
pub struct MintFromUnderlying {
    /// The vault record, its mint, its custody, and the account
    /// receiving the newly minted vault tokens.
    pub common: MintToCommon,
    /// The staking-pool accounts.
    pub yi: YiStake,
    /// The caller's underlying-token account the deposit comes from.
    pub user_underlying_tokens: TokenAccount,
    /// The caller depositing the underlying tokens.
    pub user_authority: Key,
}

impl MintFromUnderlying {
    /// The common minting accounts match the record, the pool accounts
    /// are internally consistent and are the record's own, and the
    /// source account is the caller's and holds the record's underlying
    /// mint.
    pub open spec fn spec_valid(self) -> bool {
        &&& self.common.spec_valid()
        &&& self.yi.spec_valid()
        &&& self.yi.yi_token.address == self.common.SVE.yi
        &&& self.yi.yi_mint.address == self.common.SVE.yi_mint
        &&& self.common.SVE_yi_tokens.mint == self.common.SVE.yi_mint
        &&& self.user_underlying_tokens.owner == self.user_authority
        &&& self.user_underlying_tokens.mint == self.common.SVE.underlying_mint
    }

    /// The error `validate` reports: the first precondition violated,
    /// in checking order.
    pub open spec fn spec_validate(self) -> Result<(), ErrorCode> {
        if !self.common.spec_valid() {
            Err(ErrorCode::KeysMismatch)
        } else if !self.yi.spec_valid() {
            Err(ErrorCode::KeysMismatch)
        } else if self.yi.yi_token.address != self.common.SVE.yi
            || self.yi.yi_mint.address != self.common.SVE.yi_mint {
            Err(ErrorCode::KeysMismatch)
        } else if self.common.SVE_yi_tokens.mint != self.common.SVE.yi_mint {
            Err(ErrorCode::KeysMismatch)
        } else if self.user_underlying_tokens.owner != self.user_authority
            || self.user_underlying_tokens.mint != self.common.SVE.underlying_mint {
            Err(ErrorCode::KeysMismatch)
        } else {
            Ok(())
        }
    }

    /// Checks that every referenced account matches the vault record and
    /// the caller. Succeeds if and only if they all do; nothing is
    /// mutated either way.
    pub fn validate(&self) -> (r: Result<(), ErrorCode>)
        ensures
            r == self.spec_validate(),
            r is Ok <==> self.spec_valid(),
    {
        self.common.validate()?;
        self.yi.validate()?;
        if self.yi.yi_token.address != self.common.SVE.yi
            || self.yi.yi_mint.address != self.common.SVE.yi_mint {
            return Err(ErrorCode::KeysMismatch);
        }
        if self.common.SVE_yi_tokens.mint != self.common.SVE.yi_mint {
            return Err(ErrorCode::KeysMismatch);
        }
        if self.user_underlying_tokens.owner != self.user_authority
            || self.user_underlying_tokens.mint != self.common.SVE.underlying_mint {
            return Err(ErrorCode::KeysMismatch);
        }
        Ok(())
    }

    /// The outcome of staking the caller's deposit into the vault's
    /// custody, with the pool crediting `shares_out` share tokens.
    pub open spec fn spec_stake(self, underlying_amount: u64, shares_out: u64) -> Result<
        MintFromUnderlying,
        ErrorCode,
    > {
        match yi::spec_stake(
            self.yi.yi_token,
            self.yi.yi_mint,
            self.user_underlying_tokens,
            self.user_authority,
            self.yi.yi_underlying_tokens,
            self.common.SVE_yi_tokens,
            underlying_amount,
            shares_out,
        ) {
            Err(e) => Err(e),
            Ok(updated) => Ok(
                MintFromUnderlying {
                    yi: YiStake {
                        yi_mint: updated.0,
                        yi_underlying_tokens: updated.2,
                        ..self.yi
                    },
                    user_underlying_tokens: updated.1,
                    common: MintToCommon { SVE_yi_tokens: updated.3, ..self.common },
                    ..self
                },
            ),
        }
    }

    /// The outcome of the whole mint-from-underlying sequence on
    /// validated accounts: the positive-amount gate, the stake with the
    /// custody-balance difference measured around it, and the mint of
    /// exactly that difference.
    pub open spec fn spec_handler(self, underlying_amount: u64, shares_out: u64) -> Result<
        MintFromUnderlying,
        ErrorCode,
    > {
        if underlying_amount == 0 {
            Err(ErrorCode::ZeroAmount)
        } else {
            let start_shares = self.common.SVE_yi_tokens.amount;
            match self.spec_stake(underlying_amount, shares_out) {
                Err(e) => Err(e),
                Ok(staked) => {
                    let end_shares = staked.common.SVE_yi_tokens.amount;
                    if end_shares < start_shares {
                        Err(ErrorCode::IntegerOverflow)
                    } else {
                        match staked.common.spec_mint_SVE((end_shares - start_shares) as u64) {
                            Err(e) => Err(e),
                            Ok(minted) => Ok(MintFromUnderlying { common: minted, ..staked }),
                        }
                    }
                },
            }
        }
    }

    /// Stakes `underlying_amount` of the caller's deposit through the
    /// pool into the vault's custody. `shares_out` is the share amount
    /// the pool credits for this call.
    fn stake(&mut self, underlying_amount: u64, shares_out: u64) -> (r: Result<(), ErrorCode>)
        ensures
            r is Ok <==> old(self).spec_stake(underlying_amount, shares_out) is Ok,
            old(self).spec_stake(underlying_amount, shares_out) matches Ok(updated)
                ==> *final(self) == updated,
            old(self).spec_stake(underlying_amount, shares_out) matches Err(e)
                ==> r == Err::<(), ErrorCode>(e),
            r is Err ==> *final(self) == *old(self),
    {
        yi::stake(
            &self.yi.yi_token,
            &mut self.yi.yi_mint,
            &mut self.user_underlying_tokens,
            &self.user_authority,
            &mut self.yi.yi_underlying_tokens,
            &mut self.common.SVE_yi_tokens,
            underlying_amount,
            shares_out,
        )
    }
}

/// Runs the mint-from-underlying sequence as one atomic unit of work:
/// the caller's `underlying_amount` tokens are staked through the pool,
/// the custody receives whatever share amount the pool credits, and
/// exactly that received amount of vault tokens is minted to the
/// receiving account — or nothing changes at all. A zero amount is
/// refused outright.
pub fn handler(ctx: &mut MintFromUnderlying, underlying_amount: u64, shares_out: u64) -> (r:
    Result<(), ErrorCode>)
    ensures
        r is Ok <==> old(ctx).spec_handler(underlying_amount, shares_out) is Ok,
        old(ctx).spec_handler(underlying_amount, shares_out) matches Ok(committed)
            ==> *final(ctx) == committed,
        old(ctx).spec_handler(underlying_amount, shares_out) matches Err(e)
            ==> r == Err::<(), ErrorCode>(e),
        r is Err ==> *final(ctx) == *old(ctx),
        underlying_amount == 0 ==> r == Err::<(), ErrorCode>(ErrorCode::ZeroAmount),
        r is Ok ==> final(ctx).common.SVE_mint.supply == old(ctx).common.SVE_mint.supply
            + shares_out,
        r is Ok ==> final(ctx).common.SVE_yi_tokens.amount == old(ctx).common.SVE_yi_tokens.amount
            + shares_out,
        r is Ok ==> final(ctx).user_underlying_tokens.amount
            == old(ctx).user_underlying_tokens.amount - underlying_amount,
        r is Ok ==> final(ctx).common.to.amount == old(ctx).common.to.amount + shares_out,
{
    if underlying_amount == 0 {
        return Err(ErrorCode::ZeroAmount);
    }
    let mut staged: MintFromUnderlying = *ctx;
    let start_shares: u64 = staged.common.SVE_yi_tokens.amount;
    staged.stake(underlying_amount, shares_out)?;
    let end_shares: u64 = staged.common.SVE_yi_tokens.amount;
    if end_shares < start_shares {
        return Err(ErrorCode::IntegerOverflow);
    }
    let minted_amount: u64 = end_shares - start_shares;
    staged.common.mint_SVE(minted_amount)?;
    *ctx = staged;
    Ok(())
}

} // verus!
