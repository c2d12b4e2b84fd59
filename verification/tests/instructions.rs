use automated_market_makers::automated_market_makers as program;
use automated_market_makers::cpi::{AccountRef, ConfigSeeds, TokenCpi};
use automated_market_makers::curve::{DepositQuote, LiquidityPair, SwapAmounts, SwapQuote, XYAmounts};
use automated_market_makers::errors::{AmmError, CurveErrorKind};
use automated_market_makers::states::{Config, MintInfo, Pubkey, TokenAccountInfo};
use automated_market_makers::{Deposit, Initialize, InitializeBumps, Swap, Withdraw};

fn key(b: u8) -> Pubkey {
    Pubkey([b; 32])
}

fn mint(k: u8, supply: u64, decimals: u8) -> MintInfo {
    MintInfo { key: key(k), supply, decimals }
}

fn account(k: u8, m: u8, owner: u8, amount: u64) -> TokenAccountInfo {
    TokenAccountInfo { key: key(k), mint: key(m), owner: key(owner), amount }
}

fn config() -> Config {
    Config { authority: None, mint_a: key(1), mint_b: key(2), mint_lp: key(3), fee: 30, config_bump: 254, lp_bump: 253 }
}

fn seeds() -> ConfigSeeds {
    ConfigSeeds { mint_a: key(1), mint_b: key(2), bump: 254 }
}

fn deposit_accounts(vault_a: u64, vault_b: u64, supply: u64) -> Deposit {
    Deposit {
        user: key(9),
        mint_a: mint(1, 1_000_000, 6),
        mint_b: mint(2, 1_000_000, 9),
        config: config(),
        mint_lp: mint(3, supply, 6),
        vault_a: account(4, 1, 10, vault_a),
        vault_b: account(5, 2, 10, vault_b),
        user_token_account_a: account(6, 1, 9, 500),
        user_token_account_b: account(7, 2, 9, 500),
        user_token_account_lp: account(8, 3, 9, 0),
    }
}

fn withdraw_accounts(vault_a: u64, vault_b: u64, supply: u64) -> Withdraw {
    let d = deposit_accounts(vault_a, vault_b, supply);
    Withdraw {
        signer: d.user,
        mint_a: d.mint_a,
        mint_b: d.mint_b,
        config: d.config,
        mint_lp: d.mint_lp,
        vault_a: d.vault_a,
        vault_b: d.vault_b,
        user_token_account_a: d.user_token_account_a,
        user_token_account_b: d.user_token_account_b,
        user_token_account_lp: d.user_token_account_lp,
    }
}

fn swap_accounts(vault_a: u64, vault_b: u64, supply: u64) -> Swap {
    let d = deposit_accounts(vault_a, vault_b, supply);
    Swap {
        user: d.user,
        mint_a: d.mint_a,
        mint_b: d.mint_b,
        config: d.config,
        mint_lp: d.mint_lp,
        vault_a: d.vault_a,
        vault_b: d.vault_b,
        user_token_account_a: d.user_token_account_a,
        user_token_account_b: d.user_token_account_b,
    }
}

fn transfer(from: AccountRef, to: AccountRef, mint: AccountRef, authority: AccountRef, amount: u64, decimals: u8, signer: Option<ConfigSeeds>) -> TokenCpi {
    TokenCpi::TransferChecked { from, to, mint, authority, amount, decimals, signer }
}

#[test]
fn error_messages() {
    assert_eq!(AmmError::InvalidAmount.message(), "Invalid amount provided");
    assert_eq!(AmmError::SlippageExceeded.message(), "Slippage tolerance exceeded");
    assert_eq!(AmmError::InvalidLiquidity.message(), "Insufficient liquidity pool");
    assert_eq!(AmmError::InvalidAuthority.message(), "Invalid authority");
    assert_eq!(AmmError::FeeExceeded.message(), "Fee Exceeded");
    assert_eq!(AmmError::InsufficientLiquidity.message(), "Insufficient liquidity");
}

#[test]
fn curve_errors_map_to_pool_errors() {
    assert_eq!(AmmError::from(CurveErrorKind::SlippageLimitExceeded), AmmError::SlippageExceeded);
    assert_eq!(AmmError::from(CurveErrorKind::InsufficientBalance), AmmError::InsufficientLiquidity);
    assert_eq!(AmmError::from(CurveErrorKind::Other), AmmError::InvalidAmount);
}

#[test]
fn config_seed_bytes() {
    let s = ConfigSeeds { mint_a: key(1), mint_b: key(2), bump: 7 };
    let bytes = s.seed_bytes();
    assert_eq!(bytes.len(), 4);
    assert_eq!(bytes[0], b"config".to_vec());
    assert_eq!(bytes[1], vec![1u8; 32]);
    assert_eq!(bytes[2], vec![2u8; 32]);
    assert_eq!(bytes[3], vec![7u8]);
}

#[test]
fn initialize_records_config() {
    let mut accounts = Initialize {
        owner: key(9),
        mint_a: mint(1, 0, 6),
        mint_b: mint(2, 0, 9),
        config: Config { authority: None, mint_a: key(0), mint_b: key(0), mint_lp: key(0), fee: 0, config_bump: 0, lp_bump: 0 },
        mint_lp: mint(3, 0, 6),
        vault_a: account(4, 1, 10, 0),
        vault_b: account(5, 2, 10, 0),
    };
    let before = accounts;
    let bumps = InitializeBumps { config: 250, mint_lp: 251 };
    assert_eq!(accounts.initialize(500, Some(key(11)), &bumps), Ok(()));
    assert_eq!(
        accounts.config,
        Config { authority: Some(key(11)), mint_a: key(1), mint_b: key(2), mint_lp: key(3), fee: 500, config_bump: 250, lp_bump: 251 }
    );
    assert_eq!(accounts.owner, before.owner);
    assert_eq!(accounts.vault_a, before.vault_a);
    assert_eq!(accounts.mint_lp, before.mint_lp);
}

#[test]
fn initialize_keeps_any_fee() {
    let mut accounts = Initialize {
        owner: key(9),
        mint_a: mint(1, 0, 6),
        mint_b: mint(2, 0, 9),
        config: config(),
        mint_lp: mint(3, 0, 6),
        vault_a: account(4, 1, 10, 0),
        vault_b: account(5, 2, 10, 0),
    };
    let bumps = InitializeBumps { config: 1, mint_lp: 2 };
    assert_eq!(program::initialize(&mut accounts, &bumps, u16::MAX, None), Ok(()));
    assert_eq!(accounts.config.fee, u16::MAX);
    assert_eq!(accounts.config.authority, None);
    assert_eq!(accounts.config.config_bump, 1);
    assert_eq!(accounts.config.lp_bump, 2);
    assert_eq!(accounts.config.mint_lp, key(3));
}

#[test]
fn deposit_quote_only_when_lp_exists() {
    assert_eq!(deposit_accounts(0, 0, 0).deposit_quote(100), None);
    assert_eq!(
        deposit_accounts(1000, 2000, 50).deposit_quote(10),
        Some(DepositQuote { x: 1000, y: 2000, l: 50, a: 10, precision: 6 })
    );
}

#[test]
fn first_deposit_takes_caps() {
    let d = deposit_accounts(0, 0, 0);
    let plan = d.deposit(100, 40, 70, None).unwrap();
    assert_eq!(
        plan,
        vec![
            transfer(AccountRef::UserTokenAccountA, AccountRef::VaultA, AccountRef::MintA, AccountRef::User, 40, 6, None),
            transfer(AccountRef::UserTokenAccountB, AccountRef::VaultB, AccountRef::MintB, AccountRef::User, 70, 9, None),
            TokenCpi::MintTo { mint: AccountRef::MintLp, to: AccountRef::UserTokenAccountLp, authority: AccountRef::Config, amount: 100, signer: Some(seeds()) },
        ]
    );
    // The curve's answer is not read while no LP token exists.
    assert_eq!(d.deposit(100, 40, 70, Some(XYAmounts { x: 999, y: 999 })).unwrap(), plan);
}

#[test]
fn deposit_uses_quote_within_caps() {
    let d = deposit_accounts(1000, 2000, 50);
    let plan = program::deposit(&d, 10, 200, 400, Some(XYAmounts { x: 200, y: 400 })).unwrap();
    assert_eq!(plan.len(), 3);
    assert_eq!(plan[0], d.deposit_token_a(200));
    assert_eq!(plan[1], d.deposit_token_b(400));
    assert_eq!(plan[2], d.mint_lp_tokens(10));
}

#[test]
fn deposit_over_cap_a_is_slippage() {
    let d = deposit_accounts(1000, 2000, 50);
    assert_eq!(d.deposit(10, 199, 400, Some(XYAmounts { x: 200, y: 400 })), Err(AmmError::SlippageExceeded));
}

#[test]
fn deposit_over_cap_b_is_slippage() {
    let d = deposit_accounts(1000, 2000, 50);
    assert_eq!(d.deposit(10, 200, 399, Some(XYAmounts { x: 200, y: 400 })), Err(AmmError::SlippageExceeded));
}

#[test]
fn deposit_token_calls() {
    let d = deposit_accounts(1, 1, 1);
    assert_eq!(
        d.deposit_token_a(5),
        transfer(AccountRef::UserTokenAccountA, AccountRef::VaultA, AccountRef::MintA, AccountRef::User, 5, 6, None)
    );
    assert_eq!(
        d.deposit_token_b(6),
        transfer(AccountRef::UserTokenAccountB, AccountRef::VaultB, AccountRef::MintB, AccountRef::User, 6, 9, None)
    );
    assert_eq!(
        d.mint_lp_tokens(7),
        TokenCpi::MintTo { mint: AccountRef::MintLp, to: AccountRef::UserTokenAccountLp, authority: AccountRef::Config, amount: 7, signer: Some(seeds()) }
    );
}

#[test]
fn withdraw_zero_is_invalid() {
    let w = withdraw_accounts(1000, 2000, 50);
    assert_eq!(w.withdraw_quote(0), Err(AmmError::InvalidAmount));
    assert_eq!(w.withdraw(0, 0, 0, Some(XYAmounts { x: 1, y: 1 })), Err(AmmError::InvalidAmount));
    assert_eq!(program::withdraw(&w, 0, 0, 0, None), Err(AmmError::InvalidAmount));
}

#[test]
fn withdraw_quote_cases() {
    assert_eq!(withdraw_accounts(0, 0, 0).withdraw_quote(5), Ok(None));
    assert_eq!(
        withdraw_accounts(0, 3, 0).withdraw_quote(5),
        Ok(Some(DepositQuote { x: 0, y: 3, l: 0, a: 5, precision: 6 }))
    );
    assert_eq!(
        withdraw_accounts(1000, 2000, 50).withdraw_quote(5),
        Ok(Some(DepositQuote { x: 1000, y: 2000, l: 50, a: 5, precision: 6 }))
    );
}

#[test]
fn withdraw_pays_quote() {
    let w = withdraw_accounts(1000, 2000, 50);
    let plan = w.withdraw(10, 150, 300, Some(XYAmounts { x: 200, y: 400 })).unwrap();
    assert_eq!(
        plan,
        vec![
            TokenCpi::Burn { mint: AccountRef::MintLp, from: AccountRef::UserTokenAccountLp, authority: AccountRef::User, amount: 10, signer: Some(seeds()) },
            transfer(AccountRef::VaultA, AccountRef::UserTokenAccountA, AccountRef::MintA, AccountRef::Config, 200, 6, Some(seeds())),
            transfer(AccountRef::VaultB, AccountRef::UserTokenAccountB, AccountRef::MintB, AccountRef::Config, 400, 9, Some(seeds())),
        ]
    );
    assert_eq!(plan[0], w.burn_lp(10));
    assert_eq!(plan[1], w.withdraw_token_a(200));
    assert_eq!(plan[2], w.withdraw_token_b(400));
}

#[test]
fn withdraw_below_minimum_is_slippage() {
    let w = withdraw_accounts(1000, 2000, 50);
    assert_eq!(w.withdraw(10, 201, 300, Some(XYAmounts { x: 200, y: 400 })), Err(AmmError::SlippageExceeded));
    assert_eq!(w.withdraw(10, 200, 401, Some(XYAmounts { x: 200, y: 400 })), Err(AmmError::SlippageExceeded));
}

#[test]
fn withdraw_from_empty_pool_pays_minimums() {
    let w = withdraw_accounts(0, 0, 0);
    let plan = w.withdraw(10, 3, 4, None).unwrap();
    assert_eq!(plan, vec![w.burn_lp(10), w.withdraw_token_a(3), w.withdraw_token_b(4)]);
}

#[test]
fn swap_quote_cases() {
    let s = swap_accounts(1000, 2000, 50);
    assert_eq!(s.swap_quote(true, 0, 1), Err(AmmError::InvalidAmount));
    assert_eq!(
        s.swap_quote(true, 10, 5),
        Ok(SwapQuote { x: 1000, y: 2000, l: 50, fee: 30, pair: LiquidityPair::X, amount_in: 10, min_amount_out: 5 })
    );
    assert_eq!(s.swap_quote(false, 10, 5).unwrap().pair, LiquidityPair::Y);
}

#[test]
fn swap_refusals_are_invalid_amount() {
    let s = swap_accounts(1000, 2000, 50);
    let ok = Some(SwapAmounts { deposit: 10, withdraw: 19 });
    assert_eq!(s.swap(true, 0, 1, ok), Err(AmmError::InvalidAmount));
    assert_eq!(s.swap(true, 10, 1, None), Err(AmmError::InvalidAmount));
    assert_eq!(s.swap(true, 10, 1, Some(SwapAmounts { deposit: 0, withdraw: 19 })), Err(AmmError::InvalidAmount));
    assert_eq!(s.swap(true, 10, 1, Some(SwapAmounts { deposit: 10, withdraw: 0 })), Err(AmmError::InvalidAmount));
}

#[test]
fn swap_into_x() {
    let s = swap_accounts(1000, 2000, 50);
    let plan = program::swap(&s, true, 10, 1, Some(SwapAmounts { deposit: 10, withdraw: 19 })).unwrap();
    assert_eq!(
        plan,
        vec![
            transfer(AccountRef::UserTokenAccountA, AccountRef::VaultA, AccountRef::MintA, AccountRef::User, 10, 6, None),
            transfer(AccountRef::VaultB, AccountRef::UserTokenAccountA, AccountRef::MintB, AccountRef::Config, 19, 9, Some(seeds())),
        ]
    );
}

#[test]
fn swap_into_y() {
    let s = swap_accounts(1000, 2000, 50);
    let plan = s.swap(false, 20, 1, Some(SwapAmounts { deposit: 20, withdraw: 9 })).unwrap();
    assert_eq!(plan, vec![s.deposit_token(false, 20), s.withdraw_token(true, 9)]);
    assert_eq!(
        plan[1],
        transfer(AccountRef::VaultA, AccountRef::UserTokenAccountA, AccountRef::MintA, AccountRef::Config, 9, 6, Some(seeds()))
    );
    assert_eq!(
        plan[0],
        transfer(AccountRef::UserTokenAccountB, AccountRef::VaultB, AccountRef::MintB, AccountRef::User, 20, 9, None)
    );
}

#[test]
fn withdraw_prices_as_deposit() {
    let d = deposit_accounts(1000, 2000, 50);
    let w = withdraw_accounts(1000, 2000, 50);
    assert_eq!(w.withdraw_quote(10), Ok(d.deposit_quote(10)));
    let quote = Some(XYAmounts { x: 200, y: 400 });
    let dp = d.deposit(10, 200, 400, quote).unwrap();
    let wp = w.withdraw(10, 200, 400, quote).unwrap();
    let amount_of = |c: &TokenCpi| match *c {
        TokenCpi::TransferChecked { amount, .. } | TokenCpi::MintTo { amount, .. } | TokenCpi::Burn { amount, .. } => amount,
    };
    assert_eq!(amount_of(&dp[0]), amount_of(&wp[1]));
    assert_eq!(amount_of(&dp[1]), amount_of(&wp[2]));
    assert_eq!(amount_of(&dp[2]), amount_of(&wp[0]));
}
