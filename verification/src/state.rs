//! The persistent vault record and the vault's derived signing authority.

use vstd::prelude::*;

use crate::token::Key;

verus! {

/// A class of tokens that must be vote-escrow locked for a minimum
/// duration.
///
/// One record exists per vault-token mint. When a vault is created, one
/// vault token is issued for every share token custodied under it. All
/// scalar fields are fixed at creation; only the balances of the linked
/// external accounts change afterwards.
#[derive(Clone, Copy, Debug, PartialEq, Eq, Structural)]
pub struct SVE {
    /// The mint of the vault token.
    pub mint: Key,
    /// Bump seed used to re-derive the vault's keyless authority.
    pub bump: u8,
    /// The minimum duration that redeemed tokens must be locked for.
    pub min_lock_duration: u64,
    /// The mint of the underlying token ultimately locked up.
    pub underlying_mint: Key,
    /// Mint of the share token.
    pub yi_mint: Key,
    /// The staking-subsystem instance the share token belongs to.
    pub yi: Key,
    /// Token account custodying this vault's share tokens.
    pub yi_tokens: Key,
    /// The vote-escrow locker this vault's redemptions must deposit into.
    pub locker: Key,
}

/// The vault's derived, keyless signing authority: a deterministic
/// function of the vault-token mint and the stored bump seed, so anyone
/// can recompute it from public identities and no secret is stored.
/// Only determinism matters to the vault's logic; the mixing below is the
/// model's stand-in for the platform's seeded address derivation.
pub open spec fn spec_derive_authority(mint: Key, bump: u8) -> Key {
    Key(mint.0 ^ (bump as u64))
}

/// Recomputes the vault's derived authority from its seeds.
pub fn derive_authority(mint: &Key, bump: u8) -> (r: Key)
    ensures
        r == spec_derive_authority(*mint, bump),
{
    Key(mint.0 ^ (bump as u64))
}

impl SVE {
    /// The identity this vault signs privileged calls with.
    pub open spec fn spec_authority(self) -> Key {
        spec_derive_authority(self.mint, self.bump)
    }

    /// Recomputes this vault's signing authority.
    pub fn authority(&self) -> (r: Key)
        ensures
            r == self.spec_authority(),
    {
        derive_authority(&self.mint, self.bump)
    }
}

} // verus!
