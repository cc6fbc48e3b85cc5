//! The lock/redeem operation: burns a holder's vault tokens, unwinds the
//! corresponding custodied share tokens back into underlying tokens, and
//! deposits the underlying amount actually received into the vote-escrow
//! subsystem for a caller-chosen duration at or above the vault's minimum.
//!
//! The deposited amount is measured as the difference between the
//! caller's underlying balance after and before unstaking, so it equals
//! what the staking subsystem actually credited rather than any nominal
//! figure.

use vstd::prelude::*;

use crate::ErrorCode;
use crate::escrow;
use crate::escrow::{Escrow, Locker};
use crate::state::SVE;
use crate::token;
use crate::token::{Key, MintAccount, TokenAccount};
use crate::yi;
use crate::yi::YiToken;

verus! {

/// The vote-escrow accounts the deposit goes into.
#[derive(Clone, Copy, Debug, PartialEq, Eq)]
pub struct LockedVoterLock {
    /// The locker receiving the deposit.
    pub locker: Locker,
    /// The caller's escrow position within that locker.
    pub escrow: Escrow,
    /// Token account held by the escrow.
    pub escrow_tokens: TokenAccount,
}

impl LockedVoterLock {
    /// The escrow belongs to the locker and its token account is the one
    /// supplied.
    pub open spec fn spec_valid(self) -> bool {
        &&& self.escrow.locker == self.locker.address
        &&& self.escrow_tokens.address == self.escrow.tokens
    }

    /// Checks that the escrow accounts are internally consistent.
    /// Succeeds if and only if they are; nothing is mutated.
    pub fn validate(&self) -> (r: Result<(), ErrorCode>)
        ensures
            r is Ok <==> self.spec_valid(),
            r is Err ==> r == Err::<(), ErrorCode>(ErrorCode::KeysMismatch),
    {
        if self.escrow.locker != self.locker.address {
            return Err(ErrorCode::KeysMismatch);
        }
        if self.escrow_tokens.address != self.escrow.tokens {
            return Err(ErrorCode::KeysMismatch);
        }
        Ok(())
    }
}

/// The staking-pool accounts the share tokens are unwound through.
#[derive(Clone, Copy, Debug, PartialEq, Eq)]
pub struct YiUnstake {
    /// The pool to unstake from.
    pub yi_token: YiToken,
    /// Mint of the pool's share token.
    pub yi_mint: MintAccount,
    /// The pool-owned account holding the underlying tokens.
    pub yi_underlying_tokens: TokenAccount,
}

impl YiUnstake {
    /// The supplied mint and underlying account are the ones the pool
    /// itself designates.
    pub open spec fn spec_valid(self) -> bool {
        &&& self.yi_token.mint == self.yi_mint.address
        &&& self.yi_token.underlying_tokens == self.yi_underlying_tokens.address
    }

    /// Checks that the pool accounts are internally consistent.
    /// Succeeds if and only if they are; nothing is mutated.
    pub fn validate(&self) -> (r: Result<(), ErrorCode>)
        ensures
            r is Ok <==> self.spec_valid(),
            r is Err ==> r == Err::<(), ErrorCode>(ErrorCode::KeysMismatch),
    {
        if self.yi_token.mint != self.yi_mint.address {
            return Err(ErrorCode::KeysMismatch);
        }
        if self.yi_token.underlying_tokens != self.yi_underlying_tokens.address {
            return Err(ErrorCode::KeysMismatch);
        }
        Ok(())
    }
}

/// Accounts for the lock/redeem operation.
#[derive(Clone, Copy, Debug, PartialEq, Eq)]
pub struct Lock {
    /// The vault record.
    pub SVE: SVE,
    /// Mint of the vault token; tokens are burned from it.
    pub SVE_mint: MintAccount,
    /// The vault's share-token custody account; share tokens leave it.
    pub SVE_yi_tokens: TokenAccount,
    /// The caller's vault-token account.
    pub user_SVE_tokens: TokenAccount,
    /// The caller's underlying-token account, which receives the
    /// unstaked tokens and immediately sources the escrow deposit.
    pub user_underlying_tokens: TokenAccount,
    /// The vote-escrow accounts.
    pub lock: LockedVoterLock,
    /// The staking-pool accounts.
    pub yi: YiUnstake,
    /// The caller redeeming the vault tokens.
    pub user_authority: Key,
}

/// Converts a duration to the escrow subsystem's signed representation,
/// if it fits.
fn to_i64(v: u64) -> (r: Option<i64>)
    ensures
        v <= i64::MAX ==> r == Some(v as i64),
        v > i64::MAX ==> r is None,
{
    if v <= i64::MAX as u64 {
        Some(v as i64)
    } else {
        None
    }
}

impl Lock {
    /// Every linked account matches the vault record and the caller: the
    /// escrow and pool accounts are internally consistent, the mint and
    /// custody are the record's own, both user accounts belong to the
    /// caller and hold the right mints, the locker is the record's
    /// designated one, the escrow is the caller's, and the pool is the
    /// record's.
    pub open spec fn spec_valid(self) -> bool {
        &&& self.lock.spec_valid()
        &&& self.yi.spec_valid()
        &&& self.SVE_mint.address == self.SVE.mint
        &&& self.SVE_yi_tokens.address == self.SVE.yi_tokens
        &&& self.user_SVE_tokens.owner == self.user_authority
        &&& self.user_SVE_tokens.mint == self.SVE.mint
        &&& self.user_underlying_tokens.owner == self.user_authority
        &&& self.user_underlying_tokens.mint == self.SVE.underlying_mint
        &&& self.lock.locker.address == self.SVE.locker
        &&& self.lock.escrow.owner == self.user_authority
        &&& self.yi.yi_token.address == self.SVE.yi
        &&& self.yi.yi_mint.address == self.SVE.yi_mint
    }

    /// The error `validate` reports: the first linked-account
    /// precondition violated, in checking order. A locker other than the
    /// record's designated one is the distinct `LockerMismatch` error.
    pub open spec fn spec_validate(self) -> Result<(), ErrorCode> {
        if !self.lock.spec_valid() {
            Err(ErrorCode::KeysMismatch)
        } else if !self.yi.spec_valid() {
            Err(ErrorCode::KeysMismatch)
        } else if self.SVE_mint.address != self.SVE.mint {
            Err(ErrorCode::KeysMismatch)
        } else if self.SVE_yi_tokens.address != self.SVE.yi_tokens {
            Err(ErrorCode::KeysMismatch)
        } else if self.user_SVE_tokens.owner != self.user_authority
            || self.user_SVE_tokens.mint != self.SVE.mint {
            Err(ErrorCode::KeysMismatch)
        } else if self.user_underlying_tokens.owner != self.user_authority
            || self.user_underlying_tokens.mint != self.SVE.underlying_mint {
            Err(ErrorCode::KeysMismatch)
        } else if self.lock.locker.address != self.SVE.locker {
            Err(ErrorCode::LockerMismatch)
        } else if self.lock.escrow.owner != self.user_authority {
            Err(ErrorCode::KeysMismatch)
        } else if self.yi.yi_token.address != self.SVE.yi
            || self.yi.yi_mint.address != self.SVE.yi_mint {
            Err(ErrorCode::KeysMismatch)
        } else {
            Ok(())
        }
    }

    /// Checks every linked-account precondition. Succeeds if and only if
    /// all of them hold; otherwise reports the first violated one, with
    /// `LockerMismatch` for a locker other than the record's. Nothing is
    /// mutated either way.
    pub fn validate(&self) -> (r: Result<(), ErrorCode>)
        ensures
            r == self.spec_validate(),
            r is Ok <==> self.spec_valid(),
    {
        self.lock.validate()?;
        self.yi.validate()?;
        if self.SVE_mint.address != self.SVE.mint {
            return Err(ErrorCode::KeysMismatch);
        }
        if self.SVE_yi_tokens.address != self.SVE.yi_tokens {
            return Err(ErrorCode::KeysMismatch);
        }
        if self.user_SVE_tokens.owner != self.user_authority
            || self.user_SVE_tokens.mint != self.SVE.mint {
            return Err(ErrorCode::KeysMismatch);
        }
        if self.user_underlying_tokens.owner != self.user_authority
            || self.user_underlying_tokens.mint != self.SVE.underlying_mint {
            return Err(ErrorCode::KeysMismatch);
        }
        if self.lock.locker.address != self.SVE.locker {
            return Err(ErrorCode::LockerMismatch);
        }
        if self.lock.escrow.owner != self.user_authority {
            return Err(ErrorCode::KeysMismatch);
        }
        if self.yi.yi_token.address != self.SVE.yi
            || self.yi.yi_mint.address != self.SVE.yi_mint {
            return Err(ErrorCode::KeysMismatch);
        }
        Ok(())
    }

    /// The outcome of burning `amount` vault tokens from the caller's
    /// account under the caller's own authority.
    pub open spec fn spec_burn_SVE_tokens(self, amount: u64) -> Result<Lock, ErrorCode> {
        match token::spec_burn(self.SVE_mint, self.user_SVE_tokens, self.user_authority, amount) {
            Ok(updated) => Ok(Lock { SVE_mint: updated.0, user_SVE_tokens: updated.1, ..self }),
            Err(e) => Err(e),
        }
    }

    /// Burns `amount` vault tokens from the caller's account.
    fn burn_SVE_tokens(&mut self, amount: u64) -> (r: Result<(), ErrorCode>)
        ensures
            r is Ok <==> old(self).spec_burn_SVE_tokens(amount) is Ok,
            old(self).spec_burn_SVE_tokens(amount) matches Ok(updated)
                ==> *final(self) == updated,
            old(self).spec_burn_SVE_tokens(amount) matches Err(e)
                ==> r == Err::<(), ErrorCode>(e),
            r is Err ==> *final(self) == *old(self),
    {
        token::burn(&mut self.SVE_mint, &mut self.user_SVE_tokens, &self.user_authority, amount)
    }

    /// The outcome of unstaking `amount` share tokens from the vault's
    /// custody, signed with the vault's derived authority, with the
    /// resulting `payout` underlying tokens credited to the caller.
    pub open spec fn spec_yi_unstake(self, amount: u64, payout: u64) -> Result<Lock, ErrorCode> {
        match yi::spec_unstake(
            self.yi.yi_token,
            self.yi.yi_mint,
            self.SVE_yi_tokens,
            self.SVE.spec_authority(),
            self.yi.yi_underlying_tokens,
            self.user_underlying_tokens,
            amount,
            payout,
        ) {
            Ok(updated) => Ok(
                Lock {
                    SVE_yi_tokens: updated.1,
                    user_underlying_tokens: updated.3,
                    yi: YiUnstake {
                        yi_mint: updated.0,
                        yi_underlying_tokens: updated.2,
                        ..self.yi
                    },
                    ..self
                },
            ),
            Err(e) => Err(e),
        }
    }

    /// Unstakes `amount` share tokens from the vault's custody to the
    /// caller's underlying account, signing with the vault's derived
    /// authority, which is recomputed from the record's seeds at call
    /// time. `payout` is the amount the pool credits for this call.
    fn yi_unstake(&mut self, amount: u64, payout: u64) -> (r: Result<(), ErrorCode>)
        ensures
            r is Ok <==> old(self).spec_yi_unstake(amount, payout) is Ok,
            old(self).spec_yi_unstake(amount, payout) matches Ok(updated)
                ==> *final(self) == updated,
            old(self).spec_yi_unstake(amount, payout) matches Err(e)
                ==> r == Err::<(), ErrorCode>(e),
            r is Err ==> *final(self) == *old(self),
    {
        let authority = self.SVE.authority();
        yi::unstake(
            &self.yi.yi_token,
            &mut self.yi.yi_mint,
            &mut self.SVE_yi_tokens,
            &authority,
            &mut self.yi.yi_underlying_tokens,
            &mut self.user_underlying_tokens,
            amount,
            payout,
        )
    }

    /// The outcome of depositing `amount` underlying tokens from the
    /// caller's account into the caller's escrow for `duration`, after
    /// the checked conversion of `duration` to the escrow subsystem's
    /// signed representation.
    pub open spec fn spec_ve_lock(self, amount: u64, duration: u64) -> Result<Lock, ErrorCode> {
        if duration > i64::MAX {
            Err(ErrorCode::IntegerOverflow)
        } else {
            match escrow::spec_lock(
                self.lock.locker,
                self.lock.escrow,
                self.lock.escrow_tokens,
                self.user_authority,
                self.user_underlying_tokens,
                amount,
                duration as i64,
            ) {
                Ok(updated) => Ok(
                    Lock {
                        lock: LockedVoterLock {
                            locker: updated.0,
                            escrow: updated.1,
                            escrow_tokens: updated.2,
                        },
                        user_underlying_tokens: updated.3,
                        ..self
                    },
                ),
                Err(e) => Err(e),
            }
        }
    }

    /// Deposits `amount` underlying tokens from the caller's account
    /// into the caller's escrow position for `duration` time units,
    /// converting the duration to the escrow subsystem's representation
    /// with a checked range test.
    fn ve_lock(&mut self, amount: u64, duration: u64) -> (r: Result<(), ErrorCode>)
        ensures
            r is Ok <==> old(self).spec_ve_lock(amount, duration) is Ok,
            old(self).spec_ve_lock(amount, duration) matches Ok(updated)
                ==> *final(self) == updated,
            old(self).spec_ve_lock(amount, duration) matches Err(e)
                ==> r == Err::<(), ErrorCode>(e),
            r is Err ==> *final(self) == *old(self),
    {
        let signed_duration: i64 = match to_i64(duration) {
            Some(d) => d,
            None => {
                return Err(ErrorCode::IntegerOverflow);
            },
        };
        escrow::lock(
            &mut self.lock.locker,
            &mut self.lock.escrow,
            &mut self.lock.escrow_tokens,
            &self.user_authority,
            &mut self.user_underlying_tokens,
            amount,
            signed_duration,
        )
    }

    /// The outcome of the whole redeem sequence on validated accounts:
    /// the duration gate, the burn, the unstake with the balance
    /// difference measured around it, and the escrow deposit of exactly
    /// that difference.
    pub open spec fn spec_handler(
        self,
        amount: u64,
        duration: u64,
        unstake_payout: u64,
    ) -> Result<Lock, ErrorCode> {
        if duration < self.SVE.min_lock_duration {
            Err(ErrorCode::DurationExceeded)
        } else {
            match self.spec_burn_SVE_tokens(amount) {
                Err(e) => Err(e),
                Ok(burned) => {
                    let start_underlying = burned.user_underlying_tokens.amount;
                    match burned.spec_yi_unstake(amount, unstake_payout) {
                        Err(e) => Err(e),
                        Ok(unstaked) => {
                            let end_underlying = unstaked.user_underlying_tokens.amount;
                            if end_underlying < start_underlying {
                                Err(ErrorCode::IntegerOverflow)
                            } else {
                                unstaked.spec_ve_lock(
                                    (end_underlying - start_underlying) as u64,
                                    duration,
                                )
                            }
                        },
                    }
                },
            }
        }
    }
}

/// Runs the redeem sequence as one atomic unit of work: all mutations are
/// staged on a copy of the accounts and committed only if every step
/// succeeds, so any failure leaves every account exactly as it was.
///
/// On success the caller's vault-token balance and the vault-token supply
/// fall by exactly `amount`, the custody loses exactly `amount` share
/// tokens, and the escrow receives exactly the underlying-token balance
/// difference observed on the caller's account during unstaking — which
/// is `unstake_payout`, whatever the pool chose it to be — leaving the
/// caller's underlying balance unchanged. A `duration` below the vault's
/// minimum is refused outright with the duration-policy error, before any
/// burn.
pub fn handler(ctx: &mut Lock, amount: u64, duration: u64, unstake_payout: u64) -> (r: Result<
    (),
    ErrorCode,
>)
    ensures
        r is Ok <==> old(ctx).spec_handler(amount, duration, unstake_payout) is Ok,
        old(ctx).spec_handler(amount, duration, unstake_payout) matches Ok(committed)
            ==> *final(ctx) == committed,
        old(ctx).spec_handler(amount, duration, unstake_payout) matches Err(e)
            ==> r == Err::<(), ErrorCode>(e),
        r is Err ==> *final(ctx) == *old(ctx),
        duration < old(ctx).SVE.min_lock_duration
            ==> r == Err::<(), ErrorCode>(ErrorCode::DurationExceeded),
        r is Ok ==> final(ctx).SVE_mint.supply == old(ctx).SVE_mint.supply - amount,
        r is Ok ==> final(ctx).user_SVE_tokens.amount == old(ctx).user_SVE_tokens.amount - amount,
        r is Ok ==> final(ctx).SVE_yi_tokens.amount == old(ctx).SVE_yi_tokens.amount - amount,
        r is Ok ==> final(ctx).lock.escrow.amount == old(ctx).lock.escrow.amount + unstake_payout,
        r is Ok ==> final(ctx).lock.escrow.duration == duration as i64,
        r is Ok ==> final(ctx).lock.escrow_tokens.amount == old(ctx).lock.escrow_tokens.amount
            + unstake_payout,
        r is Ok ==> final(ctx).user_underlying_tokens.amount
            == old(ctx).user_underlying_tokens.amount,
{
    let mut staged: Lock = *ctx;
    if duration < staged.SVE.min_lock_duration {
        return Err(ErrorCode::DurationExceeded);
    }
    staged.burn_SVE_tokens(amount)?;
    let start_underlying: u64 = staged.user_underlying_tokens.amount;
    staged.yi_unstake(amount, unstake_payout)?;
    let end_underlying: u64 = staged.user_underlying_tokens.amount;
    if end_underlying < start_underlying {
        return Err(ErrorCode::IntegerOverflow);
    }
    let lock_amount: u64 = end_underlying - start_underlying;
    staged.ve_lock(lock_amount, duration)?;
    *ctx = staged;
    Ok(())
}

} // verus!
