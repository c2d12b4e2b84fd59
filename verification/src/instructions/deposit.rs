//! Adding liquidity: the user pays both tokens into the vaults and receives
//! LP tokens.
use vstd::prelude::*;

use crate::cpi::{
    inflow, lemma_flows_of_three, outflow, respects_custody, AccountRef, ConfigSeeds, TokenCpi,
};
use crate::curve::{DepositQuote, XYAmounts, LP_PRECISION};
use crate::errors::AmmError;
use crate::states::{Config, MintInfo, Pubkey, TokenAccountInfo};

verus! {

/// The accounts of a deposit, as far as its decisions read them.
#[derive(Debug, Clone, Copy, PartialEq, Eq)]
pub struct Deposit {
    pub user: Pubkey,
    pub mint_a: MintInfo,
    pub mint_b: MintInfo,
    pub config: Config,
    pub mint_lp: MintInfo,
    pub vault_a: TokenAccountInfo,
    pub vault_b: TokenAccountInfo,
    pub user_token_account_a: TokenAccountInfo,
    pub user_token_account_b: TokenAccountInfo,
    pub user_token_account_lp: TokenAccountInfo,
}

impl Deposit {
    /// The seeds with which the config signs.
    pub open spec fn config_seeds(self) -> ConfigSeeds {
        ConfigSeeds { mint_a: self.mint_a.key, mint_b: self.mint_b.key, bump: self.config.config_bump }
    }

    /// The transfer of `amount` of token A from the user into the vault.
    pub open spec fn token_a_transfer(self, amount: u64) -> TokenCpi {
        TokenCpi::TransferChecked {
            from: AccountRef::UserTokenAccountA,
            to: AccountRef::VaultA,
            mint: AccountRef::MintA,
            authority: AccountRef::User,
            amount,
            decimals: self.mint_a.decimals,
            signer: None,
        }
    }

    /// The transfer of `amount` of token B from the user into the vault.
    pub open spec fn token_b_transfer(self, amount: u64) -> TokenCpi {
        TokenCpi::TransferChecked {
            from: AccountRef::UserTokenAccountB,
            to: AccountRef::VaultB,
            mint: AccountRef::MintB,
            authority: AccountRef::User,
            amount,
            decimals: self.mint_b.decimals,
            signer: None,
        }
    }

    /// The issue of `amount` LP tokens to the user, signed by the config.
    pub open spec fn lp_mint(self, amount: u64) -> TokenCpi {
        TokenCpi::MintTo {
            mint: AccountRef::MintLp,
            to: AccountRef::UserTokenAccountLp,
            authority: AccountRef::Config,
            amount,
            signer: Some(self.config_seeds()),
        }
    }

    /// The amounts of both tokens that a deposit asks for: the user's caps
    /// while no LP token exists, else the curve's answer.
    pub open spec fn deposit_amounts(self, max_a: u64, max_b: u64, quote: Option<XYAmounts>) -> (
        u64,
        u64,
    ) {
        if self.mint_lp.supply == 0 {
            (max_a, max_b)
        } else {
            (quote.unwrap().x, quote.unwrap().y)
        }
    }

    /// What a deposit of `amount` LP tokens with caps `max_a` and `max_b`
    /// decides, given the curve's answer `quote`.
    pub open spec fn deposit_outcome(
        self,
        amount: u64,
        max_a: u64,
        max_b: u64,
        quote: Option<XYAmounts>,
    ) -> Result<Seq<TokenCpi>, AmmError> {
        let (a, b) = self.deposit_amounts(max_a, max_b, quote);
        if a <= max_a && b <= max_b {
            Ok(seq![self.token_a_transfer(a), self.token_b_transfer(b), self.lp_mint(amount)])
        } else {
            Err(AmmError::SlippageExceeded)
        }
    }

    /// The question that a deposit of `amount` LP tokens puts to the curve:
    /// none while no LP token exists, else the amounts of both tokens that
    /// `amount` LP tokens stand for in the current pool.
    pub open spec fn deposit_query(self, amount: u64) -> Option<DepositQuote> {
        if self.mint_lp.supply == 0 {
            None
        } else {
            Some(
                DepositQuote {
                    x: self.vault_a.amount,
                    y: self.vault_b.amount,
                    l: self.mint_lp.supply,
                    a: amount,
                    precision: LP_PRECISION,
                },
            )
        }
    }

    /// Computes `deposit_query(amount)`.
    pub fn deposit_quote(&self, amount: u64) -> (res: Option<DepositQuote>)
        ensures
            res == self.deposit_query(amount),
            res matches Some(q) ==> q.x == self.vault_a.amount && q.y == self.vault_b.amount && q.l
                == self.mint_lp.supply && q.a == amount,
            res is Some <==> self.mint_lp.supply != 0,
    {
        if self.mint_lp.supply == 0 {
            None
        } else {
            Some(
                DepositQuote {
                    x: self.vault_a.amount,
                    y: self.vault_b.amount,
                    l: self.mint_lp.supply,
                    a: amount,
                    precision: LP_PRECISION,
                },
            )
        }
    }

    /// Decides a deposit of `amount` LP tokens, paying at most `max_a` of
    /// token A and `max_b` of token B. `quote` is the curve's answer to
    /// `deposit_quote(amount)`; it is read only where LP tokens exist.
    /// Answers the token-program calls that carry the deposit out, or
    /// `SlippageExceeded` where the amounts exceed the caps.
    pub fn deposit(&self, amount: u64, max_a: u64, max_b: u64, quote: Option<XYAmounts>) -> (res:
        Result<Vec<TokenCpi>, AmmError>)
        requires
            self.mint_lp.supply != 0 ==> quote is Some,
        ensures
            res is Err <==> self.deposit_outcome(amount, max_a, max_b, quote) is Err,
            res matches Ok(plan) ==> self.deposit_outcome(amount, max_a, max_b, quote) == Ok::<
                Seq<TokenCpi>,
                AmmError,
            >(plan@),
            res matches Err(e) ==> e == AmmError::SlippageExceeded,
    {
        let (a, b) = if self.mint_lp.supply == 0 {
            (max_a, max_b)
        } else {
            let amounts = quote.unwrap();
            (amounts.x, amounts.y)
        };
        if !(a <= max_a && b <= max_b) {
            return Err(AmmError::SlippageExceeded);
        }
        let mut plan: Vec<TokenCpi> = Vec::new();
        plan.push(self.deposit_token_a(a));
        plan.push(self.deposit_token_b(b));
        plan.push(self.mint_lp_tokens(amount));
        assert(plan@ =~= seq![self.token_a_transfer(a), self.token_b_transfer(b), self.lp_mint(amount)]);
        Ok(plan)
    }

    /// The transfer of `amount` of token A from the user into vault A.
    pub fn deposit_token_a(&self, amount: u64) -> (res: TokenCpi)
        ensures
            res == self.token_a_transfer(amount),
    {
        TokenCpi::TransferChecked {
            from: AccountRef::UserTokenAccountA,
            to: AccountRef::VaultA,
            mint: AccountRef::MintA,
            authority: AccountRef::User,
            amount,
            decimals: self.mint_a.decimals,
            signer: None,
        }
    }

    /// The transfer of `amount` of token B from the user into vault B.
    pub fn deposit_token_b(&self, amount: u64) -> (res: TokenCpi)
        ensures
            res == self.token_b_transfer(amount),
    {
        TokenCpi::TransferChecked {
            from: AccountRef::UserTokenAccountB,
            to: AccountRef::VaultB,
            mint: AccountRef::MintB,
            authority: AccountRef::User,
            amount,
            decimals: self.mint_b.decimals,
            signer: None,
        }
    }

    /// The issue of `amount` LP tokens into the user's LP account, by the
    /// config, which signs with its seeds.
    pub fn mint_lp_tokens(&self, amount: u64) -> (res: TokenCpi)
        ensures
            res == self.lp_mint(amount),
    {
        TokenCpi::MintTo {
            mint: AccountRef::MintLp,
            to: AccountRef::UserTokenAccountLp,
            authority: AccountRef::Config,
            amount,
            signer: Some(
                ConfigSeeds {
                    mint_a: self.mint_a.key,
                    mint_b: self.mint_b.key,
                    bump: self.config.config_bump,
                },
            ),
        }
    }
}

/// A deposit that goes through takes from the user no more of each token
/// than the user's cap, puts into each vault exactly what it takes from the
/// user, issues exactly the LP tokens asked for, and keeps the pool's
/// custody rule.
pub proof fn lemma_deposit_within_caps(
    d: Deposit,
    amount: u64,
    max_a: u64,
    max_b: u64,
    quote: Option<XYAmounts>,
)
    requires
        d.deposit_outcome(amount, max_a, max_b, quote) is Ok,
    ensures
        ({
            let plan = d.deposit_outcome(amount, max_a, max_b, quote).unwrap();
            &&& outflow(plan, AccountRef::UserTokenAccountA) <= max_a
            &&& outflow(plan, AccountRef::UserTokenAccountB) <= max_b
            &&& inflow(plan, AccountRef::VaultA) == outflow(plan, AccountRef::UserTokenAccountA)
            &&& inflow(plan, AccountRef::VaultB) == outflow(plan, AccountRef::UserTokenAccountB)
            &&& inflow(plan, AccountRef::UserTokenAccountLp) == amount
            &&& outflow(plan, AccountRef::VaultA) == 0
            &&& outflow(plan, AccountRef::VaultB) == 0
            &&& respects_custody(plan)
        }),
{
    let plan = d.deposit_outcome(amount, max_a, max_b, quote).unwrap();
    lemma_flows_of_three(plan);
}

/// The first deposit into a pool with no LP tokens always goes through and
/// takes exactly the user's caps, whatever the curve would answer.
pub proof fn lemma_first_deposit_takes_caps(
    d: Deposit,
    amount: u64,
    max_a: u64,
    max_b: u64,
    quote: Option<XYAmounts>,
)
    requires
        d.mint_lp.supply == 0,
    ensures
        d.deposit_outcome(amount, max_a, max_b, quote) is Ok,
        ({
            let plan = d.deposit_outcome(amount, max_a, max_b, quote).unwrap();
            &&& inflow(plan, AccountRef::VaultA) == max_a
            &&& inflow(plan, AccountRef::VaultB) == max_b
            &&& inflow(plan, AccountRef::UserTokenAccountLp) == amount
        }),
        d.deposit_outcome(amount, max_a, max_b, quote) == d.deposit_outcome(
            amount,
            max_a,
            max_b,
            None,
        ),
{
    let plan = d.deposit_outcome(amount, max_a, max_b, quote).unwrap();
    lemma_flows_of_three(plan);
}

/// Where LP tokens exist, a deposit's question to the curve is over the
/// pool as it stands: `x` is vault A's balance, `y` vault B's, `l` the LP
/// supply, `a` the LP amount asked for, at the LP mint's precision; while
/// none exist it asks nothing.
pub proof fn lemma_deposit_query_reads_pool(d: Deposit, amount: u64)
    ensures
        d.mint_lp.supply == 0 ==> d.deposit_query(amount) is None,
        d.mint_lp.supply != 0 ==> ({
            let q = d.deposit_query(amount);
            &&& q is Some
            &&& q.unwrap().x == d.vault_a.amount
            &&& q.unwrap().y == d.vault_b.amount
            &&& q.unwrap().l == d.mint_lp.supply
            &&& q.unwrap().a == amount
            &&& q.unwrap().precision == 6
        }),
{
}

/// Where LP tokens exist, a deposit goes through exactly when the curve's
/// amounts are within both caps, and then takes those amounts, A into vault
/// A and B into vault B, and issues the LP amount asked for; otherwise it is
/// refused with `SlippageExceeded`.
pub proof fn lemma_deposit_goes_through_iff(
    d: Deposit,
    amount: u64,
    max_a: u64,
    max_b: u64,
    q: XYAmounts,
)
    requires
        d.mint_lp.supply != 0,
    ensures
        d.deposit_outcome(amount, max_a, max_b, Some(q)) is Ok <==> (q.x <= max_a && q.y <= max_b),
        !(q.x <= max_a && q.y <= max_b) ==> d.deposit_outcome(amount, max_a, max_b, Some(q)) == Err::<
            Seq<TokenCpi>,
            AmmError,
        >(AmmError::SlippageExceeded),
        q.x <= max_a && q.y <= max_b ==> ({
            let plan = d.deposit_outcome(amount, max_a, max_b, Some(q)).unwrap();
            &&& inflow(plan, AccountRef::VaultA) == q.x
            &&& outflow(plan, AccountRef::UserTokenAccountA) == q.x
            &&& inflow(plan, AccountRef::VaultB) == q.y
            &&& outflow(plan, AccountRef::UserTokenAccountB) == q.y
            &&& inflow(plan, AccountRef::UserTokenAccountLp) == amount
        }),
{
    if d.deposit_outcome(amount, max_a, max_b, Some(q)) is Ok {
        lemma_flows_of_three(d.deposit_outcome(amount, max_a, max_b, Some(q)).unwrap());
    }
}

} // verus!
