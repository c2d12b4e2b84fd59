//! The program's entry points, one per instruction.
use vstd::prelude::*;

use crate::cpi::TokenCpi;
use crate::curve::{SwapAmounts, XYAmounts};
use crate::errors::AmmError;
use crate::instructions::deposit::Deposit;
use crate::instructions::initialize::{Initialize, InitializeBumps};
use crate::instructions::swap::Swap;
use crate::instructions::withdraw::Withdraw;
use crate::states::Pubkey;

verus! {

/// Sets up a pool; see `Initialize::initialize`.
pub fn initialize(
    accounts: &mut Initialize,
    bumps: &InitializeBumps,
    fee: u16,
    authority: Option<Pubkey>,
) -> (res: Result<(), AmmError>)
    ensures
        res is Ok,
        final(accounts).config.mint_lp == old(accounts).mint_lp.key,
        *final(accounts) == (Initialize {
            config: old(accounts).initial_config(fee, authority, *bumps),
            ..*old(accounts)
        }),
{
    accounts.initialize(fee, authority, bumps)
}

/// Decides a deposit; see `Deposit::deposit`.
pub fn deposit(accounts: &Deposit, amount: u64, max_a: u64, max_b: u64, quote: Option<XYAmounts>) -> (res:
    Result<Vec<TokenCpi>, AmmError>)
    requires
        accounts.mint_lp.supply != 0 ==> quote is Some,
    ensures
        res is Err <==> accounts.deposit_outcome(amount, max_a, max_b, quote) is Err,
        res matches Ok(plan) ==> accounts.deposit_outcome(amount, max_a, max_b, quote) == Ok::<
            Seq<TokenCpi>,
            AmmError,
        >(plan@),
        res matches Err(e) ==> e == AmmError::SlippageExceeded,
{
    accounts.deposit(amount, max_a, max_b, quote)
}

/// Decides a swap; see `Swap::swap`.
pub fn swap(
    accounts: &Swap,
    is_x: bool,
    amount_in: u64,
    min_amount_out: u64,
    curve_result: Option<SwapAmounts>,
) -> (res: Result<Vec<TokenCpi>, AmmError>)
    ensures
        res is Err <==> accounts.swap_outcome(is_x, amount_in, min_amount_out, curve_result) is Err,
        res matches Ok(plan) ==> accounts.swap_outcome(
            is_x,
            amount_in,
            min_amount_out,
            curve_result,
        ) == Ok::<Seq<TokenCpi>, AmmError>(plan@),
        res matches Err(e) ==> e == AmmError::InvalidAmount,
{
    accounts.swap(is_x, amount_in, min_amount_out, curve_result)
}

/// Decides a withdrawal; see `Withdraw::withdraw`.
pub fn withdraw(accounts: &Withdraw, amount: u64, min_a: u64, min_b: u64, quote: Option<XYAmounts>) -> (res:
    Result<Vec<TokenCpi>, AmmError>)
    requires
        amount != 0 && !accounts.pool_is_empty() ==> quote is Some,
    ensures
        res is Err <==> accounts.withdraw_outcome(amount, min_a, min_b, quote) is Err,
        res matches Ok(plan) ==> accounts.withdraw_outcome(amount, min_a, min_b, quote) == Ok::<
            Seq<TokenCpi>,
            AmmError,
        >(plan@),
        res matches Err(e) ==> accounts.withdraw_outcome(amount, min_a, min_b, quote) == Err::<
            Seq<TokenCpi>,
            AmmError,
        >(e),
{
    accounts.withdraw(amount, min_a, min_b, quote)
}

} // verus!
