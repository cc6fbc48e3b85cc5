//! The create operation: validates a share-token position and a locker,
//! and initializes a new vault record bound to them. No tokens move.

use vstd::prelude::*;

use crate::ErrorCode;
use crate::escrow::Locker;
use crate::state::{SVE, spec_derive_authority};
use crate::token::{MintAccount, TokenAccount};
use crate::yi::YiToken;

verus! {

/// Accounts for the create operation.
#[derive(Clone, Copy, Debug, PartialEq, Eq)]
pub struct CreateSVE {
    /// Mint of the vault token to be issued.
    pub SVE_mint: MintAccount,
    /// Bump seed under which the vault's authority is derived from
    /// `SVE_mint`.
    pub bump: u8,
    /// The staking-pool instance whose share token the vault custodies.
    pub yi: YiToken,
    /// Mint of that share token.
    pub yi_mint: MintAccount,
    /// Token account that will custody the vault's share tokens.
    pub yi_tokens: TokenAccount,
    /// The vote-escrow locker redemptions must deposit into.
    pub locker: Locker,
}

impl CreateSVE {
    /// Every creation precondition holds: the vault's derived authority
    /// is sole mint and freeze authority of a zero-supply vault mint,
    /// the pool charges no fees, the share mint is empty and matches the
    /// vault mint's decimals, and the custody account is empty, holds
    /// the share mint, and is owned by the derived authority.
    pub open spec fn spec_valid(self) -> bool {
        let authority = spec_derive_authority(self.SVE_mint.address, self.bump);
        &&& self.SVE_mint.mint_authority == Some(authority)
        &&& self.SVE_mint.freeze_authority == Some(authority)
        &&& self.SVE_mint.supply == 0
        &&& self.yi.stake_fee_millibps == 0
        &&& self.yi.unstake_fee_millibps == 0
        &&& self.yi.mint == self.yi_mint.address
        &&& self.yi_mint.supply == 0
        &&& self.SVE_mint.decimals == self.yi_mint.decimals
        &&& self.yi_tokens.owner == authority
        &&& self.yi_tokens.mint == self.yi_mint.address
        &&& self.yi_tokens.amount == 0
    }

    /// The error `validate` reports: the first creation precondition
    /// violated, in checking order.
    pub open spec fn spec_validate(self) -> Result<(), ErrorCode> {
        let authority = spec_derive_authority(self.SVE_mint.address, self.bump);
        if self.SVE_mint.mint_authority != Some(authority) {
            Err(ErrorCode::KeysMismatch)
        } else if self.SVE_mint.freeze_authority != Some(authority) {
            Err(ErrorCode::KeysMismatch)
        } else if self.SVE_mint.supply != 0 {
            Err(ErrorCode::NonZeroSupply)
        } else if self.yi.stake_fee_millibps != 0 || self.yi.unstake_fee_millibps != 0 {
            Err(ErrorCode::NonZeroFee)
        } else if self.yi.mint != self.yi_mint.address {
            Err(ErrorCode::KeysMismatch)
        } else if self.yi_mint.supply != 0 {
            Err(ErrorCode::NonZeroSupply)
        } else if self.SVE_mint.decimals != self.yi_mint.decimals {
            Err(ErrorCode::DecimalMismatch)
        } else if self.yi_tokens.owner != authority {
            Err(ErrorCode::KeysMismatch)
        } else if self.yi_tokens.mint != self.yi_mint.address {
            Err(ErrorCode::KeysMismatch)
        } else if self.yi_tokens.amount != 0 {
            Err(ErrorCode::NonZeroBalance)
        } else {
            Ok(())
        }
    }

    /// Checks every creation precondition. Succeeds if and only if all
    /// of them hold; otherwise reports the first violated one as a
    /// distinct validation error. Nothing is mutated either way.
    pub fn validate(&self) -> (r: Result<(), ErrorCode>)
        ensures
            r == self.spec_validate(),
            r is Ok <==> self.spec_valid(),
    {
        let authority = crate::state::derive_authority(&self.SVE_mint.address, self.bump);
        let mint_authority_ok: bool = match self.SVE_mint.mint_authority {
            Some(k) => k == authority,
            None => false,
        };
        if !mint_authority_ok {
            return Err(ErrorCode::KeysMismatch);
        }
        let freeze_authority_ok: bool = match self.SVE_mint.freeze_authority {
            Some(k) => k == authority,
            None => false,
        };
        if !freeze_authority_ok {
            return Err(ErrorCode::KeysMismatch);
        }
        if self.SVE_mint.supply != 0 {
            return Err(ErrorCode::NonZeroSupply);
        }
        if self.yi.stake_fee_millibps != 0 || self.yi.unstake_fee_millibps != 0 {
            return Err(ErrorCode::NonZeroFee);
        }
        if self.yi.mint != self.yi_mint.address {
            return Err(ErrorCode::KeysMismatch);
        }
        if self.yi_mint.supply != 0 {
            return Err(ErrorCode::NonZeroSupply);
        }
        if self.SVE_mint.decimals != self.yi_mint.decimals {
            return Err(ErrorCode::DecimalMismatch);
        }
        if self.yi_tokens.owner != authority {
            return Err(ErrorCode::KeysMismatch);
        }
        if self.yi_tokens.mint != self.yi_mint.address {
            return Err(ErrorCode::KeysMismatch);
        }
        if self.yi_tokens.amount != 0 {
            return Err(ErrorCode::NonZeroBalance);
        }
        Ok(())
    }

    /// The record `init_SVE` builds: the validated identities and the
    /// caller-supplied minimum lock duration.
    pub open spec fn spec_init_SVE(self, min_lock_duration: u64) -> SVE {
        SVE {
            mint: self.SVE_mint.address,
            bump: self.bump,
            min_lock_duration,
            underlying_mint: self.yi.underlying_token_mint,
            yi_mint: self.yi.mint,
            yi: self.yi.address,
            yi_tokens: self.yi_tokens.address,
            locker: self.locker.address,
        }
    }

    /// Builds the vault record from the referenced accounts, copying
    /// their identities and the caller-supplied `min_lock_duration`.
    fn init_SVE(&self, min_lock_duration: u64) -> (record: SVE)
        ensures
            record == self.spec_init_SVE(min_lock_duration),
    {
        SVE {
            mint: self.SVE_mint.address,
            bump: self.bump,
            min_lock_duration,
            underlying_mint: self.yi.underlying_token_mint,
            yi_mint: self.yi.mint,
            yi: self.yi.address,
            yi_tokens: self.yi_tokens.address,
            locker: self.locker.address,
        }
    }

    /// The outcome of the whole create operation: validation in checking
    /// order, then the new record.
    pub open spec fn spec_create(self, min_lock_duration: u64) -> Result<SVE, ErrorCode> {
        match self.spec_validate() {
            Ok(_) => Ok(self.spec_init_SVE(min_lock_duration)),
            Err(e) => Err(e),
        }
    }
}

/// Initializes the vault record once validation has passed.
pub fn handler(ctx: &CreateSVE, min_lock_duration: u64) -> (record: SVE)
    ensures
        record == ctx.spec_init_SVE(min_lock_duration),
{
    ctx.init_SVE(min_lock_duration)
}

} // verus!
