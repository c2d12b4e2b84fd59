//! Removing liquidity: the user burns LP tokens and receives both tokens
//! from the vaults.
use vstd::prelude::*;

use crate::cpi::{inflow, lemma_flows_of_three, outflow, respects_custody, AccountRef, ConfigSeeds, TokenCpi};
use crate::instructions::deposit::Deposit;
use crate::curve::{DepositQuote, XYAmounts, LP_PRECISION};
use crate::errors::AmmError;
use crate::states::{Config, MintInfo, Pubkey, TokenAccountInfo};

verus! {

/// The accounts of a withdrawal, as far as its decisions read them.
#[derive(Debug, Clone, Copy, PartialEq, Eq)]
pub struct Withdraw {
    pub signer: Pubkey,
    pub mint_a: MintInfo,
    pub mint_b: MintInfo,
    pub config: Config,
    pub mint_lp: MintInfo,
    pub vault_a: TokenAccountInfo,
    pub vault_b: TokenAccountInfo,
    pub user_token_account_a: TokenAccountInfo,
    pub user_token_account_b: TokenAccountInfo,
    pub user_token_account_lp: TokenAccountInfo,
}

impl Withdraw {
    /// The seeds with which the config signs.
    pub open spec fn config_seeds(self) -> ConfigSeeds {
        ConfigSeeds { mint_a: self.mint_a.key, mint_b: self.mint_b.key, bump: self.config.config_bump }
    }

    /// Whether the pool holds nothing and has issued no LP token.
    pub open spec fn pool_is_empty(self) -> bool {
        self.mint_lp.supply == 0 && self.vault_a.amount == 0 && self.vault_b.amount == 0
    }

    /// The burn of `amount` of the user's LP tokens, by the user, passed
    /// the config's seeds.
    pub open spec fn lp_burn(self, amount: u64) -> TokenCpi {
        TokenCpi::Burn {
            mint: AccountRef::MintLp,
            from: AccountRef::UserTokenAccountLp,
            authority: AccountRef::User,
            amount,
            signer: Some(self.config_seeds()),
        }
    }

    /// The transfer of `amount` of token A from the vault to the user,
    /// signed by the config.
    pub open spec fn token_a_payout(self, amount: u64) -> TokenCpi {
        TokenCpi::TransferChecked {
            from: AccountRef::VaultA,
            to: AccountRef::UserTokenAccountA,
            mint: AccountRef::MintA,
            authority: AccountRef::Config,
            amount,
            decimals: self.mint_a.decimals,
            signer: Some(self.config_seeds()),
        }
    }

    /// The transfer of `amount` of token B from the vault to the user,
    /// signed by the config.
    pub open spec fn token_b_payout(self, amount: u64) -> TokenCpi {
        TokenCpi::TransferChecked {
            from: AccountRef::VaultB,
            to: AccountRef::UserTokenAccountB,
            mint: AccountRef::MintB,
            authority: AccountRef::Config,
            amount,
            decimals: self.mint_b.decimals,
            signer: Some(self.config_seeds()),
        }
    }

    /// The amounts of both tokens that a withdrawal pays out: the user's
    /// minimums from an empty pool, else the curve's answer.
    pub open spec fn withdraw_amounts(self, min_a: u64, min_b: u64, quote: Option<XYAmounts>) -> (
        u64,
        u64,
    ) {
        if self.pool_is_empty() {
            (min_a, min_b)
        } else {
            (quote.unwrap().x, quote.unwrap().y)
        }
    }

    /// What a withdrawal of `amount` LP tokens with minimums `min_a` and
    /// `min_b` decides, given the curve's answer `quote`.
    pub open spec fn withdraw_outcome(
        self,
        amount: u64,
        min_a: u64,
        min_b: u64,
        quote: Option<XYAmounts>,
    ) -> Result<Seq<TokenCpi>, AmmError> {
        if amount == 0 {
            Err(AmmError::InvalidAmount)
        } else {
            let (a, b) = self.withdraw_amounts(min_a, min_b, quote);
            if a >= min_a && b >= min_b {
                Ok(seq![self.lp_burn(amount), self.token_a_payout(a), self.token_b_payout(b)])
            } else {
                Err(AmmError::SlippageExceeded)
            }
        }
    }

    /// The question that a withdrawal of `amount` LP tokens puts to the
    /// curve: `InvalidAmount` for a zero amount, none for an empty pool,
    /// else the amounts of both tokens that `amount` LP tokens stand for.
    pub open spec fn withdraw_query(self, amount: u64) -> Result<Option<DepositQuote>, AmmError> {
        if amount == 0 {
            Err(AmmError::InvalidAmount)
        } else if self.pool_is_empty() {
            Ok(None)
        } else {
            Ok(
                Some(
                    DepositQuote {
                        x: self.vault_a.amount,
                        y: self.vault_b.amount,
                        l: self.mint_lp.supply,
                        a: amount,
                        precision: LP_PRECISION,
                    },
                ),
            )
        }
    }

    /// Computes `withdraw_query(amount)`.
    pub fn withdraw_quote(&self, amount: u64) -> (res: Result<Option<DepositQuote>, AmmError>)
        ensures
            res == self.withdraw_query(amount),
            res matches Ok(Some(q)) ==> q.x == self.vault_a.amount && q.y == self.vault_b.amount
                && q.l == self.mint_lp.supply && q.a == amount,
    {
        if amount == 0 {
            return Err(AmmError::InvalidAmount);
        }
        if self.mint_lp.supply == 0 && self.vault_a.amount == 0 && self.vault_b.amount == 0 {
            Ok(None)
        } else {
            Ok(
                Some(
                    DepositQuote {
                        x: self.vault_a.amount,
                        y: self.vault_b.amount,
                        l: self.mint_lp.supply,
                        a: amount,
                        precision: LP_PRECISION,
                    },
                ),
            )
        }
    }

    /// Decides a withdrawal of `amount` LP tokens that pays out at least
    /// `min_a` of token A and `min_b` of token B. `quote` is the curve's
    /// answer to `withdraw_quote(amount)`; it is read only where the amount
    /// is not zero and the pool is not empty. Answers the token-program
    /// calls that carry the withdrawal out, `InvalidAmount` for a zero
    /// amount, or `SlippageExceeded` where a payout falls short.
    pub fn withdraw(&self, amount: u64, min_a: u64, min_b: u64, quote: Option<XYAmounts>) -> (res:
        Result<Vec<TokenCpi>, AmmError>)
        requires
            amount != 0 && !self.pool_is_empty() ==> quote is Some,
        ensures
            res is Err <==> self.withdraw_outcome(amount, min_a, min_b, quote) is Err,
            res matches Ok(plan) ==> self.withdraw_outcome(amount, min_a, min_b, quote) == Ok::<
                Seq<TokenCpi>,
                AmmError,
            >(plan@),
            res matches Err(e) ==> self.withdraw_outcome(amount, min_a, min_b, quote) == Err::<
                Seq<TokenCpi>,
                AmmError,
            >(e),
    {
        if amount == 0 {
            return Err(AmmError::InvalidAmount);
        }
        let (a, b) = if self.mint_lp.supply == 0 && self.vault_a.amount == 0 && self.vault_b.amount
            == 0 {
            (min_a, min_b)
        } else {
            let amounts = quote.unwrap();
            (amounts.x, amounts.y)
        };
        if !(a >= min_a && b >= min_b) {
            return Err(AmmError::SlippageExceeded);
        }
        let mut plan: Vec<TokenCpi> = Vec::new();
        plan.push(self.burn_lp(amount));
        plan.push(self.withdraw_token_a(a));
        plan.push(self.withdraw_token_b(b));
        assert(plan@ =~= seq![self.lp_burn(amount), self.token_a_payout(a), self.token_b_payout(b)]);
        Ok(plan)
    }

    fn seeds(&self) -> (res: ConfigSeeds)
        ensures
            res == self.config_seeds(),
    {
        ConfigSeeds { mint_a: self.mint_a.key, mint_b: self.mint_b.key, bump: self.config.config_bump }
    }

    /// The burn of `amount` of the user's LP tokens.
    pub fn burn_lp(&self, amount: u64) -> (res: TokenCpi)
        ensures
            res == self.lp_burn(amount),
    {
        TokenCpi::Burn {
            mint: AccountRef::MintLp,
            from: AccountRef::UserTokenAccountLp,
            authority: AccountRef::User,
            amount,
            signer: Some(self.seeds()),
        }
    }

    /// The transfer of `amount` of token A from vault A to the user.
    pub fn withdraw_token_a(&self, amount: u64) -> (res: TokenCpi)
        ensures
            res == self.token_a_payout(amount),
    {
        TokenCpi::TransferChecked {
            from: AccountRef::VaultA,
            to: AccountRef::UserTokenAccountA,
            mint: AccountRef::MintA,
            authority: AccountRef::Config,
            amount,
            decimals: self.mint_a.decimals,
            signer: Some(self.seeds()),
        }
    }

    /// The transfer of `amount` of token B from vault B to the user.
    pub fn withdraw_token_b(&self, amount: u64) -> (res: TokenCpi)
        ensures
            res == self.token_b_payout(amount),
    {
        TokenCpi::TransferChecked {
            from: AccountRef::VaultB,
            to: AccountRef::UserTokenAccountB,
            mint: AccountRef::MintB,
            authority: AccountRef::Config,
            amount,
            decimals: self.mint_b.decimals,
            signer: Some(self.seeds()),
        }
    }
}

/// A withdrawal that goes through burns exactly the LP tokens named, a
/// number that is not zero, pays the user at least the minimum of each
/// token, takes out of each vault exactly what it pays, and keeps the pool's
/// custody rule.
pub proof fn lemma_withdraw_meets_minimums(
    w: Withdraw,
    amount: u64,
    min_a: u64,
    min_b: u64,
    quote: Option<XYAmounts>,
)
    requires
        w.withdraw_outcome(amount, min_a, min_b, quote) is Ok,
    ensures
        ({
            let plan = w.withdraw_outcome(amount, min_a, min_b, quote).unwrap();
            &&& amount != 0
            &&& outflow(plan, AccountRef::UserTokenAccountLp) == amount
            &&& inflow(plan, AccountRef::UserTokenAccountA) >= min_a
            &&& inflow(plan, AccountRef::UserTokenAccountB) >= min_b
            &&& outflow(plan, AccountRef::VaultA) == inflow(plan, AccountRef::UserTokenAccountA)
            &&& outflow(plan, AccountRef::VaultB) == inflow(plan, AccountRef::UserTokenAccountB)
            &&& inflow(plan, AccountRef::VaultA) == 0
            &&& inflow(plan, AccountRef::VaultB) == 0
            &&& respects_custody(plan)
        }),
{
    let plan = w.withdraw_outcome(amount, min_a, min_b, quote).unwrap();
    lemma_flows_of_three(plan);
}

/// A withdrawal of a non-zero amount from a pool that holds nothing and has
/// issued no LP token goes through whatever the curve would answer, and
/// pays out of the vaults exactly the user's minimums.
pub proof fn lemma_withdraw_from_empty_pool(
    w: Withdraw,
    amount: u64,
    min_a: u64,
    min_b: u64,
    quote: Option<XYAmounts>,
)
    requires
        amount != 0,
        w.pool_is_empty(),
    ensures
        w.withdraw_outcome(amount, min_a, min_b, quote) == w.withdraw_outcome(
            amount,
            min_a,
            min_b,
            None,
        ),
        w.withdraw_outcome(amount, min_a, min_b, quote) is Ok,
        ({
            let plan = w.withdraw_outcome(amount, min_a, min_b, quote).unwrap();
            &&& outflow(plan, AccountRef::VaultA) == min_a
            &&& outflow(plan, AccountRef::VaultB) == min_b
        }),
{
    let plan = w.withdraw_outcome(amount, min_a, min_b, quote).unwrap();
    lemma_flows_of_three(plan);
}

/// Whether a deposit and a withdrawal look at the same pool: the same
/// vault balances and the same LP supply.
pub open spec fn same_pool(d: Deposit, w: Withdraw) -> bool {
    &&& d.vault_a.amount == w.vault_a.amount
    &&& d.vault_b.amount == w.vault_b.amount
    &&& d.mint_lp.supply == w.mint_lp.supply
}

/// In a pool that has issued LP tokens, a withdrawal of a non-zero number of
/// LP tokens asks the curve the very question that a deposit of as many LP
/// tokens asks, and, given the same answer, when both go through, pays out
/// of each vault exactly what the deposit would pay into it, while the
/// deposit issues exactly the LP tokens that the withdrawal burns.
pub proof fn lemma_withdraw_prices_as_deposit(
    d: Deposit,
    w: Withdraw,
    amount: u64,
    max_a: u64,
    max_b: u64,
    min_a: u64,
    min_b: u64,
    quote: Option<XYAmounts>,
)
    requires
        same_pool(d, w),
        d.mint_lp.supply != 0,
        amount != 0,
    ensures
        w.withdraw_query(amount) == Ok::<Option<DepositQuote>, AmmError>(d.deposit_query(amount)),
        d.deposit_outcome(amount, max_a, max_b, quote) is Ok && w.withdraw_outcome(
            amount,
            min_a,
            min_b,
            quote,
        ) is Ok ==> ({
            let dp = d.deposit_outcome(amount, max_a, max_b, quote).unwrap();
            let wp = w.withdraw_outcome(amount, min_a, min_b, quote).unwrap();
            &&& outflow(wp, AccountRef::VaultA) == inflow(dp, AccountRef::VaultA)
            &&& outflow(wp, AccountRef::VaultB) == inflow(dp, AccountRef::VaultB)
            &&& outflow(wp, AccountRef::UserTokenAccountLp) == inflow(
                dp,
                AccountRef::UserTokenAccountLp,
            )
        }),
{
    if d.deposit_outcome(amount, max_a, max_b, quote) is Ok && w.withdraw_outcome(
        amount,
        min_a,
        min_b,
        quote,
    ) is Ok {
        lemma_flows_of_three(d.deposit_outcome(amount, max_a, max_b, quote).unwrap());
        lemma_flows_of_three(w.withdraw_outcome(amount, min_a, min_b, quote).unwrap());
    }
}

/// A withdrawal's question to the curve, for a non-zero amount from a pool
/// that is not empty, is over the pool as it stands: `x` is vault A's
/// balance, `y` vault B's, `l` the LP supply, `a` the amount to burn, at the
/// LP mint's precision. A zero amount is refused with `InvalidAmount`, and
/// an empty pool asks nothing.
pub proof fn lemma_withdraw_query_reads_pool(w: Withdraw, amount: u64)
    ensures
        amount == 0 ==> w.withdraw_query(amount) == Err::<Option<DepositQuote>, AmmError>(
            AmmError::InvalidAmount,
        ),
        amount != 0 && w.mint_lp.supply == 0 && w.vault_a.amount == 0 && w.vault_b.amount == 0
            ==> w.withdraw_query(amount) == Ok::<Option<DepositQuote>, AmmError>(None),
        amount != 0 && !(w.mint_lp.supply == 0 && w.vault_a.amount == 0 && w.vault_b.amount == 0)
            ==> ({
            let r = w.withdraw_query(amount);
            &&& r is Ok
            &&& r.unwrap() is Some
            &&& r.unwrap().unwrap().x == w.vault_a.amount
            &&& r.unwrap().unwrap().y == w.vault_b.amount
            &&& r.unwrap().unwrap().l == w.mint_lp.supply
            &&& r.unwrap().unwrap().a == amount
            &&& r.unwrap().unwrap().precision == 6
        }),
{
}

/// A withdrawal of a non-zero amount from a pool that is not empty goes
/// through exactly when the curve's amounts meet both minimums, and then
/// burns the amount and pays the curve's amounts, A from vault A and B from
/// vault B, to the user; otherwise it is refused with `SlippageExceeded`. A
/// zero amount is always refused with `InvalidAmount`.
pub proof fn lemma_withdraw_goes_through_iff(
    w: Withdraw,
    amount: u64,
    min_a: u64,
    min_b: u64,
    q: XYAmounts,
)
    ensures
        amount == 0 ==> w.withdraw_outcome(amount, min_a, min_b, Some(q)) == Err::<
            Seq<TokenCpi>,
            AmmError,
        >(AmmError::InvalidAmount),
        amount != 0 && !(w.mint_lp.supply == 0 && w.vault_a.amount == 0 && w.vault_b.amount == 0)
            ==> {
            &&& (w.withdraw_outcome(amount, min_a, min_b, Some(q)) is Ok <==> (q.x >= min_a && q.y
                >= min_b))
            &&& (!(q.x >= min_a && q.y >= min_b) ==> w.withdraw_outcome(amount, min_a, min_b, Some(q))
                == Err::<Seq<TokenCpi>, AmmError>(AmmError::SlippageExceeded))
            &&& (q.x >= min_a && q.y >= min_b ==> {
                let plan = w.withdraw_outcome(amount, min_a, min_b, Some(q)).unwrap();
                &&& outflow(plan, AccountRef::UserTokenAccountLp) == amount
                &&& outflow(plan, AccountRef::VaultA) == q.x
                &&& inflow(plan, AccountRef::UserTokenAccountA) == q.x
                &&& outflow(plan, AccountRef::VaultB) == q.y
                &&& inflow(plan, AccountRef::UserTokenAccountB) == q.y
            })
        },
{
    if w.withdraw_outcome(amount, min_a, min_b, Some(q)) is Ok {
        lemma_flows_of_three(w.withdraw_outcome(amount, min_a, min_b, Some(q)).unwrap());
    }
}

} // verus!
