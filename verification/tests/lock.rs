//! Tests for the lock/redeem operation: the duration gate, exact value
//! conservation via the balance-difference technique, atomicity on
//! subsystem failures, and the end-to-end scenario.

use sve_token::ErrorCode;
use sve_token::escrow::{Escrow, Locker};
use sve_token::instructions::lock::{Lock, LockedVoterLock, YiUnstake};
use sve_token::instructions::mint_from_yi::MintFromYi;
use sve_token::common::MintToCommon;
use sve_token::state::{SVE, derive_authority};
use sve_token::token::{Key, MintAccount, TokenAccount};
use sve_token::yi::YiToken;
use sve_token::{create_SVE, lock, mint_from_yi};
use sve_token::instructions::create_SVE::CreateSVE;

fn vault_record() -> SVE {
    SVE {
        mint: Key(100),
        bump: 7,
        min_lock_duration: 100,
        underlying_mint: Key(30),
        yi_mint: Key(20),
        yi: Key(10),
        yi_tokens: Key(50),
        locker: Key(60),
    }
}

/// A world where the caller already holds `user_vault` vault tokens
/// backed one-for-one by custodied shares, and the pool holds enough
/// underlying to pay out.
fn lock_accounts(user_vault: u64) -> Lock {
    let authority = derive_authority(&Key(100), 7);
    Lock {
        SVE: vault_record(),
        SVE_mint: MintAccount {
            address: Key(100),
            mint_authority: Some(authority),
            freeze_authority: Some(authority),
            supply: user_vault,
            decimals: 6,
        },
        SVE_yi_tokens: TokenAccount {
            address: Key(50),
            mint: Key(20),
            owner: authority,
            amount: user_vault,
        },
        user_SVE_tokens: TokenAccount {
            address: Key(70),
            mint: Key(100),
            owner: Key(1),
            amount: user_vault,
        },
        user_underlying_tokens: TokenAccount {
            address: Key(71),
            mint: Key(30),
            owner: Key(1),
            amount: 5,
        },
        lock: LockedVoterLock {
            locker: Locker { address: Key(60), locked_supply: 0 },
            escrow: Escrow {
                address: Key(80),
                locker: Key(60),
                owner: Key(1),
                tokens: Key(81),
                amount: 0,
                duration: 0,
            },
            escrow_tokens: TokenAccount {
                address: Key(81),
                mint: Key(30),
                owner: Key(80),
                amount: 0,
            },
        },
        yi: YiUnstake {
            yi_token: YiToken {
                address: Key(10),
                mint: Key(20),
                underlying_token_mint: Key(30),
                underlying_tokens: Key(40),
                stake_fee_millibps: 0,
                unstake_fee_millibps: 0,
            },
            yi_mint: MintAccount {
                address: Key(20),
                mint_authority: Some(Key(10)),
                freeze_authority: None,
                supply: user_vault,
                decimals: 6,
            },
            yi_underlying_tokens: TokenAccount {
                address: Key(40),
                mint: Key(30),
                owner: Key(10),
                amount: 2000,
            },
        },
        user_authority: Key(1),
    }
}

#[test]
fn lock_rejects_short_duration_without_burning() {
    let mut ctx = lock_accounts(1000);
    let before = ctx;
    assert_eq!(lock(&mut ctx, 1000, 50, 1000), Err(ErrorCode::DurationExceeded));
    assert_eq!(ctx, before);
}

#[test]
fn lock_rejects_short_duration_regardless_of_amount() {
    let mut ctx = lock_accounts(1000);
    let before = ctx;
    assert_eq!(lock(&mut ctx, 0, 99, 0), Err(ErrorCode::DurationExceeded));
    assert_eq!(ctx, before);
}

#[test]
fn lock_accepts_duration_equal_to_minimum() {
    let mut ctx = lock_accounts(1000);
    lock(&mut ctx, 1000, 100, 1000).expect("the minimum duration itself is allowed");
}

#[test]
fn lock_deposits_observed_delta_not_nominal_amount() {
    let mut ctx = lock_accounts(1000);
    // The pool credits 997 underlying for the 1000 shares unstaked; the
    // escrow must receive exactly the observed difference, 997.
    lock(&mut ctx, 1000, 150, 997).expect("locking should succeed");
    assert_eq!(ctx.lock.escrow.amount, 997);
    assert_eq!(ctx.lock.escrow_tokens.amount, 997);
    assert_eq!(ctx.lock.locker.locked_supply, 997);
    assert_eq!(ctx.lock.escrow.duration, 150);
    assert_eq!(ctx.user_SVE_tokens.amount, 0);
    assert_eq!(ctx.SVE_mint.supply, 0);
    assert_eq!(ctx.SVE_yi_tokens.amount, 0);
    // Whatever was credited to the caller was deposited in full.
    assert_eq!(ctx.user_underlying_tokens.amount, 5);
}

#[test]
fn lock_rejects_foreign_locker() {
    let mut ctx = lock_accounts(1000);
    ctx.lock.locker.address = Key(61);
    ctx.lock.escrow.locker = Key(61);
    let before = ctx;
    assert_eq!(lock(&mut ctx, 1000, 150, 1000), Err(ErrorCode::LockerMismatch));
    assert_eq!(ctx, before);
}

#[test]
fn lock_rejects_escrow_owned_by_someone_else() {
    let mut ctx = lock_accounts(1000);
    ctx.lock.escrow.owner = Key(2);
    let before = ctx;
    assert_eq!(lock(&mut ctx, 1000, 150, 1000), Err(ErrorCode::KeysMismatch));
    assert_eq!(ctx, before);
}

#[test]
fn lock_is_atomic_on_staking_failure() {
    let mut ctx = lock_accounts(1000);
    // The pool cannot credit more than it holds: the unstake step fails
    // after the burn step, and the burn must not survive.
    let before = ctx;
    assert_eq!(lock(&mut ctx, 1000, 150, 2001), Err(ErrorCode::InsufficientFunds));
    assert_eq!(ctx, before);
    assert_eq!(ctx.user_SVE_tokens.amount, 1000);
    assert_eq!(ctx.SVE_yi_tokens.amount, 1000);
}

#[test]
fn lock_is_atomic_on_escrow_failure() {
    let mut ctx = lock_accounts(1000);
    // The escrow balance would overflow: the deposit step fails after
    // both the burn and the unstake, and neither must survive.
    ctx.lock.escrow.amount = u64::MAX;
    let before = ctx;
    assert_eq!(lock(&mut ctx, 1000, 150, 1000), Err(ErrorCode::IntegerOverflow));
    assert_eq!(ctx, before);
    assert_eq!(ctx.user_SVE_tokens.amount, 1000);
    assert_eq!(ctx.SVE_yi_tokens.amount, 1000);
}

#[test]
fn lock_is_atomic_on_custody_authority_mismatch() {
    let mut ctx = lock_accounts(1000);
    // A custody account owned by someone other than the derived
    // authority cannot be unstaked from; the burn must not survive.
    ctx.SVE_yi_tokens.owner = Key(2);
    let before = ctx;
    assert_eq!(lock(&mut ctx, 1000, 150, 1000), Err(ErrorCode::AuthorityMismatch));
    assert_eq!(ctx, before);
}

#[test]
fn lock_rejects_duration_beyond_signed_range() {
    let mut ctx = lock_accounts(1000);
    let before = ctx;
    assert_eq!(
        lock(&mut ctx, 1000, u64::MAX, 1000),
        Err(ErrorCode::IntegerOverflow)
    );
    assert_eq!(ctx, before);
}

#[test]
fn lock_rejects_insufficient_vault_tokens() {
    let mut ctx = lock_accounts(1000);
    ctx.user_SVE_tokens.amount = 999;
    let before = ctx;
    assert_eq!(lock(&mut ctx, 1000, 150, 1000), Err(ErrorCode::InsufficientFunds));
    assert_eq!(ctx, before);
}

/// The end-to-end scenario: create a vault with a minimum duration of
/// 100, mint 1000 vault tokens from shares, fail to lock for 50, then
/// lock for 150.
#[test]
fn scenario_create_mint_then_lock() {
    let authority = derive_authority(&Key(100), 7);
    let create_ctx = CreateSVE {
        SVE_mint: MintAccount {
            address: Key(100),
            mint_authority: Some(authority),
            freeze_authority: Some(authority),
            supply: 0,
            decimals: 6,
        },
        bump: 7,
        yi: YiToken {
            address: Key(10),
            mint: Key(20),
            underlying_token_mint: Key(30),
            underlying_tokens: Key(40),
            stake_fee_millibps: 0,
            unstake_fee_millibps: 0,
        },
        yi_mint: MintAccount {
            address: Key(20),
            mint_authority: Some(Key(10)),
            freeze_authority: None,
            supply: 0,
            decimals: 6,
        },
        yi_tokens: TokenAccount {
            address: Key(50),
            mint: Key(20),
            owner: authority,
            amount: 0,
        },
        locker: Locker { address: Key(60), locked_supply: 0 },
    };
    let record = create_SVE(&create_ctx, 100).expect("creation should succeed");

    // The caller deposits 1000 share tokens for 1000 vault tokens.
    let mut mint_ctx = MintFromYi {
        common: MintToCommon {
            SVE: record,
            SVE_mint: create_ctx.SVE_mint,
            SVE_yi_tokens: create_ctx.yi_tokens,
            to: TokenAccount { address: Key(70), mint: Key(100), owner: Key(1), amount: 0 },
        },
        source_yi_tokens: TokenAccount {
            address: Key(72),
            mint: Key(20),
            owner: Key(1),
            amount: 1000,
        },
        user_authority: Key(1),
    };
    mint_from_yi(&mut mint_ctx, 1000).expect("minting from shares should succeed");
    assert_eq!(mint_ctx.common.SVE_mint.supply, 1000);
    assert_eq!(mint_ctx.common.SVE_yi_tokens.amount, 1000);

    let mut lock_ctx = Lock {
        SVE: record,
        SVE_mint: mint_ctx.common.SVE_mint,
        SVE_yi_tokens: mint_ctx.common.SVE_yi_tokens,
        user_SVE_tokens: mint_ctx.common.to,
        user_underlying_tokens: TokenAccount {
            address: Key(71),
            mint: Key(30),
            owner: Key(1),
            amount: 0,
        },
        lock: LockedVoterLock {
            locker: Locker { address: Key(60), locked_supply: 0 },
            escrow: Escrow {
                address: Key(80),
                locker: Key(60),
                owner: Key(1),
                tokens: Key(81),
                amount: 0,
                duration: 0,
            },
            escrow_tokens: TokenAccount {
                address: Key(81),
                mint: Key(30),
                owner: Key(80),
                amount: 0,
            },
        },
        yi: YiUnstake {
            yi_token: create_ctx.yi,
            yi_mint: MintAccount {
                address: Key(20),
                mint_authority: Some(Key(10)),
                freeze_authority: None,
                supply: 1000,
                decimals: 6,
            },
            yi_underlying_tokens: TokenAccount {
                address: Key(40),
                mint: Key(30),
                owner: Key(10),
                amount: 1000,
            },
        },
        user_authority: Key(1),
    };

    // Locking for 50 violates the minimum of 100 and changes nothing.
    let before = lock_ctx;
    assert_eq!(lock(&mut lock_ctx, 1000, 50, 1000), Err(ErrorCode::DurationExceeded));
    assert_eq!(lock_ctx, before);

    // Locking for 150 succeeds: with zero fees the pool credits 1000
    // underlying for the 1000 shares, all of which is escrowed.
    lock(&mut lock_ctx, 1000, 150, 1000).expect("locking should succeed");
    assert_eq!(lock_ctx.lock.escrow.duration, 150);
    assert_eq!(lock_ctx.SVE_mint.supply, 0);
    assert_eq!(lock_ctx.SVE_yi_tokens.amount, 0);
    assert_eq!(lock_ctx.lock.escrow.amount, 1000);
    assert_eq!(lock_ctx.user_SVE_tokens.amount, 0);
}
