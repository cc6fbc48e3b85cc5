//! A token-custody vault that issues a derivative token ("vault token")
//! one-for-one against a locked position in a yield-bearing share token,
//! and enforces a minimum holding duration before a holder may exit into
//! a longer-term vote-escrow lock.
//!
//! The library is a verified model of the vault's account state and of the
//! collaborating subsystems it composes: a fungible-token ledger
//! ([`token`]), a staking subsystem that converts between share tokens and
//! underlying tokens ([`yi`]), and a vote-escrow subsystem ([`escrow`]).
//! Every operation is a single atomic unit of work: it stages all mutations
//! on a copy of the accounts and commits only if every internal call
//! succeeds, so a failure anywhere leaves every account unchanged.
#![allow(non_snake_case)]

use vstd::prelude::*;

pub mod common;
pub mod escrow;
pub mod instructions;
pub mod state;
pub mod token;
pub mod yi;

use crate::instructions::create_SVE::CreateSVE;
use crate::instructions::lock::Lock;
use crate::instructions::mint_from_underlying::MintFromUnderlying;
use crate::instructions::mint_from_yi::MintFromYi;
use crate::state::SVE;

verus! {

/// Errors surfaced to callers.
///
/// `DurationExceeded` and `LockerMismatch` are the vault's own policy
/// errors; the remaining variants are the validation-failure family
/// (identity, supply, fee, decimal and balance preconditions), the
/// arithmetic-failure family (`IntegerOverflow`), and the errors the
/// collaborating subsystems surface from their own checks.
#[derive(Clone, Copy, Debug, PartialEq, Eq, Structural)]
pub enum ErrorCode {
    /// The requested lock duration is below the vault's minimum.
    DurationExceeded,
    /// Tokens may only be locked in the vault's designated locker.
    LockerMismatch,
    /// Two identities that must coincide do not.
    KeysMismatch,
    /// A mint that must have zero supply does not.
    NonZeroSupply,
    /// The staking subsystem charges a stake or unstake fee.
    NonZeroFee,
    /// The vault-token mint and the share mint disagree on decimals.
    DecimalMismatch,
    /// A token account that must be empty holds a balance.
    NonZeroBalance,
    /// A mint or transfer amount must be strictly positive.
    ZeroAmount,
    /// A privileged call was not signed by the required authority.
    AuthorityMismatch,
    /// A token account does not belong to the expected mint.
    MintMismatch,
    /// An account holds less than the amount to be moved.
    InsufficientFunds,
    /// A checked conversion or checked arithmetic step failed.
    IntegerOverflow,
}

/// The outcome of the whole lock operation: linked-account validation in
/// checking order, then the redeem sequence.
pub open spec fn spec_lock(ctx: Lock, amount: u64, duration: u64, unstake_payout: u64) -> Result<
    Lock,
    ErrorCode,
> {
    match ctx.spec_validate() {
        Err(e) => Err(e),
        Ok(_) => ctx.spec_handler(amount, duration, unstake_payout),
    }
}

/// The outcome of the whole mint-from-share operation: validation in
/// checking order, then the custody transfer and the one-for-one mint.
pub open spec fn spec_mint_from_yi(ctx: MintFromYi, yi_amount: u64) -> Result<
    MintFromYi,
    ErrorCode,
> {
    match ctx.spec_validate() {
        Err(e) => Err(e),
        Ok(_) => ctx.spec_handler(yi_amount),
    }
}

/// The outcome of the whole mint-from-underlying operation: validation
/// in checking order, then the stake and the mint of the measured share
/// amount received.
pub open spec fn spec_mint_from_underlying(
    ctx: MintFromUnderlying,
    underlying_amount: u64,
    shares_out: u64,
) -> Result<MintFromUnderlying, ErrorCode> {
    match ctx.spec_validate() {
        Err(e) => Err(e),
        Ok(_) => ctx.spec_handler(underlying_amount, shares_out),
    }
}

/// One-for-one backing at birth: a vault can only be created over a
/// zero-supply vault mint and an empty custody account, so every vault
/// starts with its vault-token supply equal to its custodied share
/// balance.
pub proof fn lemma_create_establishes_backing(ctx: CreateSVE, min_lock_duration: u64)
    requires
        ctx.spec_create(min_lock_duration) is Ok,
    ensures
        ctx.SVE_mint.supply == ctx.yi_tokens.amount,
{
}

/// One-for-one backing under mint-from-share: a successful operation
/// raises the vault-token supply and the custodied share balance by the
/// same amount, so their equality is preserved.
pub proof fn lemma_mint_from_yi_preserves_backing(
    pre: MintFromYi,
    post: MintFromYi,
    yi_amount: u64,
)
    requires
        pre.common.SVE_mint.supply == pre.common.SVE_yi_tokens.amount,
        spec_mint_from_yi(pre, yi_amount) == Ok::<MintFromYi, ErrorCode>(post),
    ensures
        post.common.SVE_mint.supply == post.common.SVE_yi_tokens.amount,
{
}

/// One-for-one backing under mint-from-underlying: whatever share amount
/// the pool credits, the operation mints exactly that many vault tokens,
/// so the supply-to-custody equality is preserved.
pub proof fn lemma_mint_from_underlying_preserves_backing(
    pre: MintFromUnderlying,
    post: MintFromUnderlying,
    underlying_amount: u64,
    shares_out: u64,
)
    requires
        pre.common.SVE_mint.supply == pre.common.SVE_yi_tokens.amount,
        spec_mint_from_underlying(pre, underlying_amount, shares_out) == Ok::<
            MintFromUnderlying,
            ErrorCode,
        >(post),
    ensures
        post.common.SVE_mint.supply == post.common.SVE_yi_tokens.amount,
{
}

/// One-for-one backing under lock: a successful redemption burns exactly
/// as many vault tokens as it removes share tokens from custody, so the
/// supply-to-custody equality is preserved.
pub proof fn lemma_lock_preserves_backing(
    pre: Lock,
    post: Lock,
    amount: u64,
    duration: u64,
    unstake_payout: u64,
)
    requires
        pre.SVE_mint.supply == pre.SVE_yi_tokens.amount,
        spec_lock(pre, amount, duration, unstake_payout) == Ok::<Lock, ErrorCode>(post),
    ensures
        post.SVE_mint.supply == post.SVE_yi_tokens.amount,
{
}

/// Creates a new vault bound to a share-token position and a vote-escrow
/// locker.
///
/// Succeeds, returning the record to persist, if and only if every
/// creation precondition holds; no record exists on failure, and no
/// tokens move either way. In particular creation is refused whenever
/// the vault mint's supply is not zero, the pool charges any stake or
/// unstake fee, the two mints disagree on decimals, or the custody
/// account is not empty.
pub fn create_SVE(ctx: &CreateSVE, min_lock_duration: u64) -> (r: Result<SVE, ErrorCode>)
    ensures
        r == ctx.spec_create(min_lock_duration),
        r is Ok <==> ctx.spec_valid(),
        r matches Ok(record) ==> record == ctx.spec_init_SVE(min_lock_duration),
        ctx.SVE_mint.supply != 0 ==> r is Err,
        ctx.yi.stake_fee_millibps != 0 || ctx.yi.unstake_fee_millibps != 0 ==> r is Err,
        ctx.SVE_mint.decimals != ctx.yi_mint.decimals ==> r is Err,
        ctx.yi_tokens.amount != 0 ==> r is Err,
{
    ctx.validate()?;
    Ok(instructions::create_SVE::handler(ctx, min_lock_duration))
}

/// Redeems vault tokens: burns `amount` of them from the caller, unwinds
/// `amount` custodied share tokens into underlying tokens credited to
/// the caller, and deposits the underlying amount actually received —
/// the caller's observed balance difference, which is `unstake_payout`,
/// whatever the pool chose it to be — into the caller's escrow for
/// `duration`.
///
/// The operation is atomic: on any failure every account is left exactly
/// as it was, so in particular no burn survives a later failure. A
/// `duration` below the vault's minimum is refused with the
/// duration-policy error before anything is burned.
pub fn lock(ctx: &mut Lock, amount: u64, duration: u64, unstake_payout: u64) -> (r: Result<
    (),
    ErrorCode,
>)
    ensures
        r is Ok <==> spec_lock(*old(ctx), amount, duration, unstake_payout) is Ok,
        spec_lock(*old(ctx), amount, duration, unstake_payout) matches Ok(committed)
            ==> *final(ctx) == committed,
        spec_lock(*old(ctx), amount, duration, unstake_payout) matches Err(e)
            ==> r == Err::<(), ErrorCode>(e),
        r is Err ==> *final(ctx) == *old(ctx),
        duration < old(ctx).SVE.min_lock_duration ==> r is Err,
        old(ctx).spec_valid() && duration < old(ctx).SVE.min_lock_duration
            ==> r == Err::<(), ErrorCode>(ErrorCode::DurationExceeded),
        r is Ok ==> final(ctx).SVE_mint.supply == old(ctx).SVE_mint.supply - amount,
        r is Ok ==> final(ctx).user_SVE_tokens.amount == old(ctx).user_SVE_tokens.amount - amount,
        r is Ok ==> final(ctx).SVE_yi_tokens.amount == old(ctx).SVE_yi_tokens.amount - amount,
        r is Ok ==> final(ctx).lock.escrow.amount == old(ctx).lock.escrow.amount + unstake_payout,
        r is Ok ==> final(ctx).lock.escrow.duration == duration as i64,
        r is Ok ==> final(ctx).lock.escrow_tokens.amount == old(ctx).lock.escrow_tokens.amount
            + unstake_payout,
        r is Ok ==> final(ctx).user_underlying_tokens.amount
            == old(ctx).user_underlying_tokens.amount,
{
    ctx.validate()?;
    instructions::lock::handler(ctx, amount, duration, unstake_payout)
}

/// Mints vault tokens by custodying share tokens: moves `yi_amount`
/// share tokens from the caller into the vault's custody and mints
/// exactly `yi_amount` vault tokens to the receiving account.
///
/// The operation is atomic: on any failure every account is left exactly
/// as it was. A zero amount is refused.
pub fn mint_from_yi(ctx: &mut MintFromYi, yi_amount: u64) -> (r: Result<(), ErrorCode>)
    ensures
        r is Ok <==> spec_mint_from_yi(*old(ctx), yi_amount) is Ok,
        spec_mint_from_yi(*old(ctx), yi_amount) matches Ok(committed) ==> *final(ctx) == committed,
        spec_mint_from_yi(*old(ctx), yi_amount) matches Err(e) ==> r == Err::<(), ErrorCode>(e),
        r is Err ==> *final(ctx) == *old(ctx),
        yi_amount == 0 ==> r is Err,
        r is Ok ==> final(ctx).common.SVE_mint.supply == old(ctx).common.SVE_mint.supply
            + yi_amount,
        r is Ok ==> final(ctx).common.SVE_yi_tokens.amount == old(ctx).common.SVE_yi_tokens.amount
            + yi_amount,
        r is Ok ==> final(ctx).source_yi_tokens.amount == old(ctx).source_yi_tokens.amount
            - yi_amount,
        r is Ok ==> final(ctx).common.to.amount == old(ctx).common.to.amount + yi_amount,
{
    ctx.validate()?;
    instructions::mint_from_yi::handler(ctx, yi_amount)
}

/// Mints vault tokens by staking underlying tokens: stakes
/// `underlying_amount` of the caller's tokens through the pool, measures
/// the share amount the custody actually received — `shares_out`,
/// whatever the pool chose it to be — and mints exactly that amount of
/// vault tokens to the receiving account.
///
/// The operation is atomic: on any failure every account is left exactly
/// as it was. A zero amount is refused.
pub fn mint_from_underlying(
    ctx: &mut MintFromUnderlying,
    underlying_amount: u64,
    shares_out: u64,
) -> (r: Result<(), ErrorCode>)
    ensures
        r is Ok <==> spec_mint_from_underlying(*old(ctx), underlying_amount, shares_out) is Ok,
        spec_mint_from_underlying(*old(ctx), underlying_amount, shares_out) matches Ok(committed)
            ==> *final(ctx) == committed,
        spec_mint_from_underlying(*old(ctx), underlying_amount, shares_out) matches Err(e)
            ==> r == Err::<(), ErrorCode>(e),
        r is Err ==> *final(ctx) == *old(ctx),
        underlying_amount == 0 ==> r is Err,
        r is Ok ==> final(ctx).common.SVE_mint.supply == old(ctx).common.SVE_mint.supply
            + shares_out,
        r is Ok ==> final(ctx).common.SVE_yi_tokens.amount == old(ctx).common.SVE_yi_tokens.amount
            + shares_out,
        r is Ok ==> final(ctx).user_underlying_tokens.amount
            == old(ctx).user_underlying_tokens.amount - underlying_amount,
        r is Ok ==> final(ctx).common.to.amount == old(ctx).common.to.amount + shares_out,
{
    ctx.validate()?;
    instructions::mint_from_underlying::handler(ctx, underlying_amount, shares_out)
}

} // verus!
