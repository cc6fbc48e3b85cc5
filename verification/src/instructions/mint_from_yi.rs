//! The mint-from-share operation: the caller transfers share tokens into
//! the vault's custody and receives the same amount of vault tokens.

use vstd::prelude::*;

use crate::ErrorCode;
use crate::common::MintToCommon;
use crate::token;
use crate::token::{Key, TokenAccount};

verus! {

/// Accounts for the mint-from-share operation.
#[derive(Clone, Copy, Debug, PartialEq, Eq)]
pub struct MintFromYi {
    /// The vault record, its mint, its custody, and the account
    /// receiving the newly minted vault tokens.
    pub common: MintToCommon,
    /// The caller's share-token account the deposit comes from.
    pub source_yi_tokens: TokenAccount,
    /// The caller depositing the share tokens.
    pub user_authority: Key,
}

impl MintFromYi {
    /// The common minting accounts match the record, and the source
    /// account is the caller's and holds the record's share mint.
    pub open spec fn spec_valid(self) -> bool {
        &&& self.common.spec_valid()
        &&& self.source_yi_tokens.owner == self.user_authority
        &&& self.source_yi_tokens.mint == self.common.SVE.yi_mint
    }

    /// The error `validate` reports: the first precondition violated,
    /// in checking order.
    pub open spec fn spec_validate(self) -> Result<(), ErrorCode> {
        if !self.common.spec_valid() {
            Err(ErrorCode::KeysMismatch)
        } else if self.source_yi_tokens.owner != self.user_authority
            || self.source_yi_tokens.mint != self.common.SVE.yi_mint {
            Err(ErrorCode::KeysMismatch)
        } else {
            Ok(())
        }
    }

    /// Checks that every referenced account matches the vault record and
    /// the caller. Succeeds if and only if they all do; nothing is
    /// mutated either way.
    pub fn validate(&self) -> (r: Result<(), ErrorCode>)
        ensures
            r == self.spec_validate(),
            r is Ok <==> self.spec_valid(),
    {
        self.common.validate()?;
        if self.source_yi_tokens.owner != self.user_authority
            || self.source_yi_tokens.mint != self.common.SVE.yi_mint {
            return Err(ErrorCode::KeysMismatch);
        }
        Ok(())
    }

    /// The outcome of the whole mint-from-share sequence on validated
    /// accounts: the positive-amount gate, the custody transfer, and the
    /// one-for-one mint.
    pub open spec fn spec_handler(self, yi_amount: u64) -> Result<MintFromYi, ErrorCode> {
        if yi_amount == 0 {
            Err(ErrorCode::ZeroAmount)
        } else {
            match token::spec_transfer(
                self.source_yi_tokens,
                self.common.SVE_yi_tokens,
                self.user_authority,
                yi_amount,
            ) {
                Err(e) => Err(e),
                Ok(moved) => {
                    let custodied = MintFromYi {
                        source_yi_tokens: moved.0,
                        common: MintToCommon { SVE_yi_tokens: moved.1, ..self.common },
                        ..self
                    };
                    match custodied.common.spec_mint_SVE(yi_amount) {
                        Err(e) => Err(e),
                        Ok(minted) => Ok(MintFromYi { common: minted, ..custodied }),
                    }
                },
            }
        }
    }
}

/// Runs the mint-from-share sequence as one atomic unit of work: the
/// caller's `yi_amount` share tokens move into the vault's custody and
/// exactly `yi_amount` vault tokens are minted to the receiving account,
/// or nothing changes at all. A zero amount is refused outright.
pub fn handler(ctx: &mut MintFromYi, yi_amount: u64) -> (r: Result<(), ErrorCode>)
    ensures
        r is Ok <==> old(ctx).spec_handler(yi_amount) is Ok,
        old(ctx).spec_handler(yi_amount) matches Ok(committed) ==> *final(ctx) == committed,
        old(ctx).spec_handler(yi_amount) matches Err(e) ==> r == Err::<(), ErrorCode>(e),
        r is Err ==> *final(ctx) == *old(ctx),
        yi_amount == 0 ==> r == Err::<(), ErrorCode>(ErrorCode::ZeroAmount),
        r is Ok ==> final(ctx).common.SVE_mint.supply == old(ctx).common.SVE_mint.supply
            + yi_amount,
        r is Ok ==> final(ctx).common.SVE_yi_tokens.amount == old(ctx).common.SVE_yi_tokens.amount
            + yi_amount,
        r is Ok ==> final(ctx).source_yi_tokens.amount == old(ctx).source_yi_tokens.amount
            - yi_amount,
        r is Ok ==> final(ctx).common.to.amount == old(ctx).common.to.amount + yi_amount,
{
    if yi_amount == 0 {
        return Err(ErrorCode::ZeroAmount);
    }
    let mut staged: MintFromYi = *ctx;
    token::transfer(
        &mut staged.source_yi_tokens,
        &mut staged.common.SVE_yi_tokens,
        &staged.user_authority,
        yi_amount,
    )?;
    staged.common.mint_SVE(yi_amount)?;
    *ctx = staged;
    Ok(())
}

} // verus!
