//! Shared accounts and logic for minting vault tokens.

use vstd::prelude::*;

use crate::ErrorCode;
use crate::state::SVE;
use crate::token;
use crate::token::{MintAccount, TokenAccount};

verus! {

/// Common accounts for minting vault tokens: the vault record, its mint,
/// its share-token custody account, and the account receiving the newly
/// minted tokens.
#[derive(Clone, Copy, Debug, PartialEq, Eq)]
pub struct MintToCommon {
    /// The vault record.
    pub SVE: SVE,
    /// Mint of the vault token.
    pub SVE_mint: MintAccount,
    /// The vault's share-token custody account.
    pub SVE_yi_tokens: TokenAccount,
    /// Token account receiving the newly minted vault tokens.
    pub to: TokenAccount,
}

impl MintToCommon {
    /// The referenced accounts match the vault record's stored
    /// identities exactly.
    pub open spec fn spec_valid(self) -> bool {
        &&& self.SVE_mint.address == self.SVE.mint
        &&& self.SVE_yi_tokens.address == self.SVE.yi_tokens
        &&& self.to.mint == self.SVE.mint
    }

    /// Checks that the referenced accounts match the vault record.
    /// Succeeds if and only if they all do; any mismatch is a
    /// `KeysMismatch` validation error, and nothing is mutated.
    pub fn validate(&self) -> (r: Result<(), ErrorCode>)
        ensures
            r is Ok <==> self.spec_valid(),
            r is Err ==> r == Err::<(), ErrorCode>(ErrorCode::KeysMismatch),
    {
        if self.SVE_mint.address != self.SVE.mint {
            return Err(ErrorCode::KeysMismatch);
        }
        if self.SVE_yi_tokens.address != self.SVE.yi_tokens {
            return Err(ErrorCode::KeysMismatch);
        }
        if self.to.mint != self.SVE.mint {
            return Err(ErrorCode::KeysMismatch);
        }
        Ok(())
    }

    /// The outcome `mint_SVE` commits: the ledger's `mint_to`, signed
    /// with this vault's derived authority.
    pub open spec fn spec_mint_SVE(self, amount: u64) -> Result<MintToCommon, ErrorCode> {
        match token::spec_mint_to(self.SVE_mint, self.to, self.SVE.spec_authority(), amount) {
            Ok(updated) => Ok(MintToCommon { SVE_mint: updated.0, to: updated.1, ..self }),
            Err(e) => Err(e),
        }
    }

    /// Mints `amount` vault tokens to `to`, authorized by the vault's
    /// derived authority, which is recomputed from the record's seeds at
    /// call time. Succeeds, increasing the vault-token supply and the
    /// destination balance by exactly `amount`, if and only if the mint
    /// designates that authority and neither balance overflows; fails
    /// atomically otherwise.
    pub(crate) fn mint_SVE(&mut self, amount: u64) -> (r: Result<(), ErrorCode>)
        ensures
            r is Ok <==> old(self).spec_mint_SVE(amount) is Ok,
            old(self).spec_mint_SVE(amount) matches Ok(updated) ==> *final(self) == updated,
            old(self).spec_mint_SVE(amount) matches Err(e) ==> r == Err::<(), ErrorCode>(e),
            r is Err ==> *final(self) == *old(self),
    {
        let authority = self.SVE.authority();
        token::mint_to(&mut self.SVE_mint, &mut self.to, &authority, amount)
    }
}

} // verus!
