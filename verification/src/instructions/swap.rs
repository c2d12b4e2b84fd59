//! Swapping: the user pays one token into its vault and receives the other
//! token from the other vault, at the curve's price.
use vstd::prelude::*;

use crate::cpi::{inflow, lemma_flows_of_two, outflow, respects_custody, AccountRef, ConfigSeeds, TokenCpi};
use crate::curve::{LiquidityPair, SwapAmounts, SwapQuote};
use crate::errors::AmmError;
use crate::states::{Config, MintInfo, Pubkey, TokenAccountInfo};

verus! {

/// The accounts of a swap, as far as its decisions read them.
#[derive(Debug, Clone, Copy, PartialEq, Eq)]
pub struct Swap {
    pub user: Pubkey,
    pub mint_a: MintInfo,
    pub mint_b: MintInfo,
    pub config: Config,
    pub mint_lp: MintInfo,
    pub vault_a: TokenAccountInfo,
    pub vault_b: TokenAccountInfo,
    pub user_token_account_a: TokenAccountInfo,
    pub user_token_account_b: TokenAccountInfo,
}

impl Swap {
    /// The seeds with which the config signs.
    pub open spec fn config_seeds(self) -> ConfigSeeds {
        ConfigSeeds { mint_a: self.mint_a.key, mint_b: self.mint_b.key, bump: self.config.config_bump }
    }

    /// The user's payment of `amount` into the vault of token A (`is_a`) or
    /// of token B, authorized by the user.
    pub open spec fn pay_in(self, is_a: bool, amount: u64) -> TokenCpi {
        if is_a {
            TokenCpi::TransferChecked {
                from: AccountRef::UserTokenAccountA,
                to: AccountRef::VaultA,
                mint: AccountRef::MintA,
                authority: AccountRef::User,
                amount,
                decimals: self.mint_a.decimals,
                signer: None,
            }
        } else {
            TokenCpi::TransferChecked {
                from: AccountRef::UserTokenAccountB,
                to: AccountRef::VaultB,
                mint: AccountRef::MintB,
                authority: AccountRef::User,
                amount,
                decimals: self.mint_b.decimals,
                signer: None,
            }
        }
    }

    /// The pool's payment of `amount` out of the vault of token A (`is_x`)
    /// or of token B, signed by the config. Both go to the user's account
    /// for token A.
    pub open spec fn pay_out(self, is_x: bool, amount: u64) -> TokenCpi {
        if is_x {
            TokenCpi::TransferChecked {
                from: AccountRef::VaultA,
                to: AccountRef::UserTokenAccountA,
                mint: AccountRef::MintA,
                authority: AccountRef::Config,
                amount,
                decimals: self.mint_a.decimals,
                signer: Some(self.config_seeds()),
            }
        } else {
            TokenCpi::TransferChecked {
                from: AccountRef::VaultB,
                to: AccountRef::UserTokenAccountA,
                mint: AccountRef::MintB,
                authority: AccountRef::Config,
                amount,
                decimals: self.mint_b.decimals,
                signer: Some(self.config_seeds()),
            }
        }
    }

    /// The curve question of a swap of `amount_in` into side X (`is_x`)
    /// or Y, with the least acceptable output `min_amount_out`.
    pub open spec fn quote_for(self, is_x: bool, amount_in: u64, min_amount_out: u64) -> SwapQuote {
        SwapQuote {
            x: self.vault_a.amount,
            y: self.vault_b.amount,
            l: self.mint_lp.supply,
            fee: self.config.fee,
            pair: if is_x { LiquidityPair::X } else { LiquidityPair::Y },
            amount_in,
            min_amount_out,
        }
    }

    /// What a swap decides, given the curve's answer: `None` where the
    /// curve refused to be built or to swap.
    pub open spec fn swap_outcome(
        self,
        is_x: bool,
        amount_in: u64,
        min_amount_out: u64,
        curve_result: Option<SwapAmounts>,
    ) -> Result<Seq<TokenCpi>, AmmError> {
        if amount_in == 0 {
            Err(AmmError::InvalidAmount)
        } else {
            match curve_result {
                None => Err(AmmError::InvalidAmount),
                Some(r) => if r.deposit == 0 || r.withdraw == 0 {
                    Err(AmmError::InvalidAmount)
                } else {
                    Ok(seq![self.pay_in(is_x, r.deposit), self.pay_out(!is_x, r.withdraw)])
                },
            }
        }
    }

    /// The question that a swap puts to the curve: `InvalidAmount` for a
    /// zero input, else a curve over the current pool and its fee, asked to
    /// swap `amount_in` into side X (`is_x`) or Y with the least acceptable
    /// output `min_amount_out`.
    pub fn swap_quote(&self, is_x: bool, amount_in: u64, min_amount_out: u64) -> (res: Result<
        SwapQuote,
        AmmError,
    >)
        ensures
            amount_in == 0 ==> res == Err::<SwapQuote, AmmError>(AmmError::InvalidAmount),
            amount_in != 0 ==> res == Ok::<SwapQuote, AmmError>(
                self.quote_for(is_x, amount_in, min_amount_out),
            ),
            res matches Ok(q) ==> q.x == self.vault_a.amount && q.y == self.vault_b.amount && q.l
                == self.mint_lp.supply && q.fee == self.config.fee && (q.pair == LiquidityPair::X)
                == is_x,
    {
        if amount_in == 0 {
            return Err(AmmError::InvalidAmount);
        }
        let pair = if is_x {
            LiquidityPair::X
        } else {
            LiquidityPair::Y
        };
        Ok(
            SwapQuote {
                x: self.vault_a.amount,
                y: self.vault_b.amount,
                l: self.mint_lp.supply,
                fee: self.config.fee,
                pair,
                amount_in,
                min_amount_out,
            },
        )
    }

    /// Decides a swap of `amount_in` into side X (`is_x`) or Y, given the
    /// curve's answer to `swap_quote` (`None` where the curve refused).
    /// Answers the user's payment and the pool's payout, or `InvalidAmount`
    /// for a zero input, a refusal of the curve, or a zero amount in its
    /// answer.
    pub fn swap(
        &self,
        is_x: bool,
        amount_in: u64,
        min_amount_out: u64,
        curve_result: Option<SwapAmounts>,
    ) -> (res: Result<Vec<TokenCpi>, AmmError>)
        ensures
            res is Err <==> self.swap_outcome(is_x, amount_in, min_amount_out, curve_result) is Err,
            res matches Ok(plan) ==> self.swap_outcome(
                is_x,
                amount_in,
                min_amount_out,
                curve_result,
            ) == Ok::<Seq<TokenCpi>, AmmError>(plan@),
            res matches Err(e) ==> e == AmmError::InvalidAmount,
    {
        if amount_in == 0 {
            return Err(AmmError::InvalidAmount);
        }
        let swap_result = match curve_result {
            Some(r) => r,
            None => return Err(AmmError::InvalidAmount),
        };
        if swap_result.deposit == 0 {
            return Err(AmmError::InvalidAmount);
        }
        if swap_result.withdraw == 0 {
            return Err(AmmError::InvalidAmount);
        }
        let mut plan: Vec<TokenCpi> = Vec::new();
        plan.push(self.deposit_token(is_x, swap_result.deposit));
        plan.push(self.withdraw_token(!is_x, swap_result.withdraw));
        assert(plan@ =~= seq![
            self.pay_in(is_x, swap_result.deposit),
            self.pay_out(!is_x, swap_result.withdraw),
        ]);
        Ok(plan)
    }

    /// The user's payment of `amount` into vault A (`is_a`) or vault B.
    pub fn deposit_token(&self, is_a: bool, amount: u64) -> (res: TokenCpi)
        ensures
            res == self.pay_in(is_a, amount),
    {
        if is_a {
            TokenCpi::TransferChecked {
                from: AccountRef::UserTokenAccountA,
                to: AccountRef::VaultA,
                mint: AccountRef::MintA,
                authority: AccountRef::User,
                amount,
                decimals: self.mint_a.decimals,
                signer: None,
            }
        } else {
            TokenCpi::TransferChecked {
                from: AccountRef::UserTokenAccountB,
                to: AccountRef::VaultB,
                mint: AccountRef::MintB,
                authority: AccountRef::User,
                amount,
                decimals: self.mint_b.decimals,
                signer: None,
            }
        }
    }

    /// The pool's payout of `amount` from vault A (`is_x`) or vault B, both
    /// into the user's account for token A.
    pub fn withdraw_token(&self, is_x: bool, amount: u64) -> (res: TokenCpi)
        ensures
            res == self.pay_out(is_x, amount),
    {
        let seeds = ConfigSeeds {
            mint_a: self.mint_a.key,
            mint_b: self.mint_b.key,
            bump: self.config.config_bump,
        };
        if is_x {
            TokenCpi::TransferChecked {
                from: AccountRef::VaultA,
                to: AccountRef::UserTokenAccountA,
                mint: AccountRef::MintA,
                authority: AccountRef::Config,
                amount,
                decimals: self.mint_a.decimals,
                signer: Some(seeds),
            }
        } else {
            TokenCpi::TransferChecked {
                from: AccountRef::VaultB,
                to: AccountRef::UserTokenAccountA,
                mint: AccountRef::MintB,
                authority: AccountRef::Config,
                amount,
                decimals: self.mint_b.decimals,
                signer: Some(seeds),
            }
        }
    }
}

/// A swap that goes through takes from the user exactly the curve's input,
/// not zero, into the vault of the side paid into, and pays out exactly the
/// curve's output, not zero, from the other vault only; the paid-into vault
/// loses nothing, and the pool's custody rule holds.
pub proof fn lemma_swap_moves_both_sides(
    s: Swap,
    is_x: bool,
    amount_in: u64,
    min_amount_out: u64,
    curve_result: Option<SwapAmounts>,
)
    requires
        s.swap_outcome(is_x, amount_in, min_amount_out, curve_result) is Ok,
    ensures
        ({
            let plan = s.swap_outcome(is_x, amount_in, min_amount_out, curve_result).unwrap();
            let r = curve_result.unwrap();
            let (vault_in, user_in, vault_out) = if is_x {
                (AccountRef::VaultA, AccountRef::UserTokenAccountA, AccountRef::VaultB)
            } else {
                (AccountRef::VaultB, AccountRef::UserTokenAccountB, AccountRef::VaultA)
            };
            &&& amount_in != 0
            &&& curve_result is Some
            &&& 0 < r.deposit && 0 < r.withdraw
            &&& inflow(plan, vault_in) == r.deposit
            &&& outflow(plan, user_in) == r.deposit
            &&& outflow(plan, vault_in) == 0
            &&& outflow(plan, vault_out) == r.withdraw
            &&& inflow(plan, vault_out) == 0
            &&& respects_custody(plan)
        }),
{
    let plan = s.swap_outcome(is_x, amount_in, min_amount_out, curve_result).unwrap();
    lemma_flows_of_two(plan);
}

/// A swap into side Y that goes through pays the curve's output, token A,
/// into the user's account for token A. (A swap into side X pays its output,
/// token B, into the user's account for token A too, so this is stated of
/// side Y only.)
pub proof fn lemma_swap_y_pays_user_a(
    s: Swap,
    amount_in: u64,
    min_amount_out: u64,
    curve_result: Option<SwapAmounts>,
)
    requires
        s.swap_outcome(false, amount_in, min_amount_out, curve_result) is Ok,
    ensures
        ({
            let plan = s.swap_outcome(false, amount_in, min_amount_out, curve_result).unwrap();
            &&& inflow(plan, AccountRef::UserTokenAccountA) == curve_result.unwrap().withdraw
            &&& outflow(plan, AccountRef::VaultA) == curve_result.unwrap().withdraw
        }),
{
    let plan = s.swap_outcome(false, amount_in, min_amount_out, curve_result).unwrap();
    lemma_flows_of_two(plan);
}

/// A swap's question to the curve is always over the pool as it stands,
/// whichever side is paid into: `x` is vault A's balance, `y` vault B's, `l`
/// the LP supply and `fee` the config's fee; the side is X exactly when
/// `is_x`, and the input and least output are the caller's.
pub proof fn lemma_swap_quote_reads_pool(s: Swap, is_x: bool, amount_in: u64, min_amount_out: u64)
    ensures
        ({
            let q = s.quote_for(is_x, amount_in, min_amount_out);
            &&& q.x == s.vault_a.amount
            &&& q.y == s.vault_b.amount
            &&& q.l == s.mint_lp.supply
            &&& q.fee == s.config.fee
            &&& (q.pair == LiquidityPair::X) == is_x
            &&& (q.pair == LiquidityPair::Y) == !is_x
            &&& q.amount_in == amount_in
            &&& q.min_amount_out == min_amount_out
        }),
{
}

/// A swap goes through exactly when the input is not zero and the curve
/// answered with a non-zero input and a non-zero output; it then takes the
/// curve's input from the user and pays the curve's output from the other
/// vault. Every refusal is `InvalidAmount`.
pub proof fn lemma_swap_goes_through_iff(
    s: Swap,
    is_x: bool,
    amount_in: u64,
    min_amount_out: u64,
    curve_result: Option<SwapAmounts>,
)
    ensures
        s.swap_outcome(is_x, amount_in, min_amount_out, curve_result) is Ok <==> (amount_in != 0
            && curve_result is Some && curve_result.unwrap().deposit != 0
            && curve_result.unwrap().withdraw != 0),
        s.swap_outcome(is_x, amount_in, min_amount_out, curve_result) is Err ==> s.swap_outcome(
            is_x,
            amount_in,
            min_amount_out,
            curve_result,
        ) == Err::<Seq<TokenCpi>, AmmError>(AmmError::InvalidAmount),
        s.swap_outcome(is_x, amount_in, min_amount_out, curve_result) is Ok ==> ({
            let plan = s.swap_outcome(is_x, amount_in, min_amount_out, curve_result).unwrap();
            let r = curve_result.unwrap();
            &&& outflow(plan, if is_x { AccountRef::UserTokenAccountA } else { AccountRef::UserTokenAccountB }) == r.deposit
            &&& inflow(plan, if is_x { AccountRef::VaultA } else { AccountRef::VaultB }) == r.deposit
            &&& outflow(plan, if is_x { AccountRef::VaultB } else { AccountRef::VaultA }) == r.withdraw
        }),
{
    if s.swap_outcome(is_x, amount_in, min_amount_out, curve_result) is Ok {
        lemma_flows_of_two(s.swap_outcome(is_x, amount_in, min_amount_out, curve_result).unwrap());
    }
}

} // verus!
