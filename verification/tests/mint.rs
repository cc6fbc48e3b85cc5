//! Tests for the two mint paths: conservation, gating, and atomicity.

use sve_token::ErrorCode;
use sve_token::common::MintToCommon;
use sve_token::instructions::mint_from_underlying::{MintFromUnderlying, YiStake};
use sve_token::instructions::mint_from_yi::MintFromYi;
use sve_token::state::{SVE, derive_authority};
use sve_token::token::{Key, MintAccount, TokenAccount};
use sve_token::yi::YiToken;
use sve_token::{mint_from_underlying, mint_from_yi};

fn vault_record() -> SVE {
    SVE {
        mint: Key(100),
        bump: 7,
        min_lock_duration: 100,
        underlying_mint: Key(30),
        yi_mint: Key(20),
        yi: Key(10),
        yi_tokens: Key(50),
        locker: Key(60),
    }
}

fn common_accounts(vault_supply: u64, custody_amount: u64) -> MintToCommon {
    let authority = derive_authority(&Key(100), 7);
    MintToCommon {
        SVE: vault_record(),
        SVE_mint: MintAccount {
            address: Key(100),
            mint_authority: Some(authority),
            freeze_authority: Some(authority),
            supply: vault_supply,
            decimals: 6,
        },
        SVE_yi_tokens: TokenAccount {
            address: Key(50),
            mint: Key(20),
            owner: authority,
            amount: custody_amount,
        },
        to: TokenAccount {
            address: Key(70),
            mint: Key(100),
            owner: Key(1),
            amount: 0,
        },
    }
}

fn mint_from_yi_accounts(user_shares: u64) -> MintFromYi {
    MintFromYi {
        common: common_accounts(0, 0),
        source_yi_tokens: TokenAccount {
            address: Key(72),
            mint: Key(20),
            owner: Key(1),
            amount: user_shares,
        },
        user_authority: Key(1),
    }
}

fn pool() -> YiToken {
    YiToken {
        address: Key(10),
        mint: Key(20),
        underlying_token_mint: Key(30),
        underlying_tokens: Key(40),
        stake_fee_millibps: 0,
        unstake_fee_millibps: 0,
    }
}

fn mint_from_underlying_accounts(user_underlying: u64) -> MintFromUnderlying {
    MintFromUnderlying {
        common: common_accounts(0, 0),
        yi: YiStake {
            yi_token: pool(),
            yi_mint: MintAccount {
                address: Key(20),
                mint_authority: Some(Key(10)),
                freeze_authority: None,
                supply: 0,
                decimals: 6,
            },
            yi_underlying_tokens: TokenAccount {
                address: Key(40),
                mint: Key(30),
                owner: Key(10),
                amount: 0,
            },
        },
        user_underlying_tokens: TokenAccount {
            address: Key(71),
            mint: Key(30),
            owner: Key(1),
            amount: user_underlying,
        },
        user_authority: Key(1),
    }
}

#[test]
fn mint_from_yi_conserves_value() {
    let mut ctx = mint_from_yi_accounts(1500);
    mint_from_yi(&mut ctx, 1000).expect("minting from shares should succeed");
    assert_eq!(ctx.common.SVE_mint.supply, 1000);
    assert_eq!(ctx.common.SVE_yi_tokens.amount, 1000);
    assert_eq!(ctx.source_yi_tokens.amount, 500);
    assert_eq!(ctx.common.to.amount, 1000);
}

#[test]
fn mint_from_yi_rejects_zero_amount() {
    let mut ctx = mint_from_yi_accounts(1500);
    let before = ctx;
    assert_eq!(mint_from_yi(&mut ctx, 0), Err(ErrorCode::ZeroAmount));
    assert_eq!(ctx, before);
}

#[test]
fn mint_from_yi_is_atomic_on_insufficient_balance() {
    let mut ctx = mint_from_yi_accounts(999);
    let before = ctx;
    assert_eq!(mint_from_yi(&mut ctx, 1000), Err(ErrorCode::InsufficientFunds));
    assert_eq!(ctx, before);
}

#[test]
fn mint_from_yi_is_atomic_on_custody_mint_mismatch() {
    let mut ctx = mint_from_yi_accounts(1500);
    ctx.common.SVE_yi_tokens.mint = Key(21);
    let before = ctx;
    assert_eq!(mint_from_yi(&mut ctx, 1000), Err(ErrorCode::MintMismatch));
    assert_eq!(ctx, before);
}

#[test]
fn mint_from_yi_rejects_foreign_source_account() {
    let mut ctx = mint_from_yi_accounts(1500);
    ctx.source_yi_tokens.owner = Key(2);
    assert_eq!(mint_from_yi(&mut ctx, 1000), Err(ErrorCode::KeysMismatch));
}

#[test]
fn mint_from_underlying_mints_shares_received() {
    let mut ctx = mint_from_underlying_accounts(800);
    // The pool credits 499 shares for the 500 deposited underlying
    // tokens; the vault must mint the received amount, not the deposit.
    mint_from_underlying(&mut ctx, 500, 499).expect("minting from underlying should succeed");
    assert_eq!(ctx.common.SVE_mint.supply, 499);
    assert_eq!(ctx.common.SVE_yi_tokens.amount, 499);
    assert_eq!(ctx.common.to.amount, 499);
    assert_eq!(ctx.user_underlying_tokens.amount, 300);
    assert_eq!(ctx.yi.yi_underlying_tokens.amount, 500);
    assert_eq!(ctx.yi.yi_mint.supply, 499);
}

#[test]
fn mint_from_underlying_rejects_zero_amount() {
    let mut ctx = mint_from_underlying_accounts(800);
    let before = ctx;
    assert_eq!(mint_from_underlying(&mut ctx, 0, 0), Err(ErrorCode::ZeroAmount));
    assert_eq!(ctx, before);
}

#[test]
fn mint_from_underlying_is_atomic_on_insufficient_deposit() {
    let mut ctx = mint_from_underlying_accounts(400);
    let before = ctx;
    assert_eq!(
        mint_from_underlying(&mut ctx, 500, 500),
        Err(ErrorCode::InsufficientFunds)
    );
    assert_eq!(ctx, before);
}
