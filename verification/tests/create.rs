//! Tests for vault creation and its gating preconditions.

use sve_token::ErrorCode;
use sve_token::create_SVE;
use sve_token::escrow::Locker;
use sve_token::instructions::create_SVE::CreateSVE;
use sve_token::state::derive_authority;
use sve_token::token::{Key, MintAccount, TokenAccount};
use sve_token::yi::YiToken;

fn valid_create_accounts() -> CreateSVE {
    let authority = derive_authority(&Key(100), 7);
    CreateSVE {
        SVE_mint: MintAccount {
            address: Key(100),
            mint_authority: Some(authority),
            freeze_authority: Some(authority),
            supply: 0,
            decimals: 6,
        },
        bump: 7,
        yi: YiToken {
            address: Key(10),
            mint: Key(20),
            underlying_token_mint: Key(30),
            underlying_tokens: Key(40),
            stake_fee_millibps: 0,
            unstake_fee_millibps: 0,
        },
        yi_mint: MintAccount {
            address: Key(20),
            mint_authority: Some(Key(10)),
            freeze_authority: None,
            supply: 0,
            decimals: 6,
        },
        yi_tokens: TokenAccount {
            address: Key(50),
            mint: Key(20),
            owner: authority,
            amount: 0,
        },
        locker: Locker {
            address: Key(60),
            locked_supply: 0,
        },
    }
}

#[test]
fn create_succeeds_and_copies_identities() {
    let ctx = valid_create_accounts();
    let record = create_SVE(&ctx, 100).expect("creation should succeed");
    assert_eq!(record.mint, Key(100));
    assert_eq!(record.bump, 7);
    assert_eq!(record.min_lock_duration, 100);
    assert_eq!(record.underlying_mint, Key(30));
    assert_eq!(record.yi_mint, Key(20));
    assert_eq!(record.yi, Key(10));
    assert_eq!(record.yi_tokens, Key(50));
    assert_eq!(record.locker, Key(60));
}

#[test]
fn create_allows_zero_minimum_duration() {
    let ctx = valid_create_accounts();
    let record = create_SVE(&ctx, 0).expect("zero minimum duration is allowed");
    assert_eq!(record.min_lock_duration, 0);
}

#[test]
fn create_fails_on_nonzero_vault_supply() {
    let mut ctx = valid_create_accounts();
    ctx.SVE_mint.supply = 1;
    assert_eq!(create_SVE(&ctx, 100), Err(ErrorCode::NonZeroSupply));
}

#[test]
fn create_fails_on_nonzero_share_supply() {
    let mut ctx = valid_create_accounts();
    ctx.yi_mint.supply = 5;
    assert_eq!(create_SVE(&ctx, 100), Err(ErrorCode::NonZeroSupply));
}

#[test]
fn create_fails_on_stake_fee() {
    let mut ctx = valid_create_accounts();
    ctx.yi.stake_fee_millibps = 1;
    assert_eq!(create_SVE(&ctx, 100), Err(ErrorCode::NonZeroFee));
}

#[test]
fn create_fails_on_unstake_fee() {
    let mut ctx = valid_create_accounts();
    ctx.yi.unstake_fee_millibps = 3;
    assert_eq!(create_SVE(&ctx, 100), Err(ErrorCode::NonZeroFee));
}

#[test]
fn create_fails_on_decimal_mismatch() {
    let mut ctx = valid_create_accounts();
    ctx.yi_mint.decimals = 9;
    assert_eq!(create_SVE(&ctx, 100), Err(ErrorCode::DecimalMismatch));
}

#[test]
fn create_fails_on_nonzero_custody_balance() {
    let mut ctx = valid_create_accounts();
    ctx.yi_tokens.amount = 1;
    assert_eq!(create_SVE(&ctx, 100), Err(ErrorCode::NonZeroBalance));
}

#[test]
fn create_fails_on_foreign_mint_authority() {
    let mut ctx = valid_create_accounts();
    ctx.SVE_mint.mint_authority = Some(Key(999));
    assert_eq!(create_SVE(&ctx, 100), Err(ErrorCode::KeysMismatch));
}

#[test]
fn create_fails_on_missing_freeze_authority() {
    let mut ctx = valid_create_accounts();
    ctx.SVE_mint.freeze_authority = None;
    assert_eq!(create_SVE(&ctx, 100), Err(ErrorCode::KeysMismatch));
}

#[test]
fn create_fails_on_custody_owned_elsewhere() {
    let mut ctx = valid_create_accounts();
    ctx.yi_tokens.owner = Key(999);
    assert_eq!(create_SVE(&ctx, 100), Err(ErrorCode::KeysMismatch));
}

#[test]
fn derived_authority_is_deterministic() {
    let a = derive_authority(&Key(100), 7);
    let b = derive_authority(&Key(100), 7);
    assert_eq!(a, b);
    let c = derive_authority(&Key(101), 7);
    assert_ne!(a, c);
}
