//! The token-program calls that the instructions decide on, described as
//! plain values: which account of the instruction each role is played by,
//! how much moves, and whether the pool's config signs.
use vstd::prelude::*;

use crate::states::Pubkey;

verus! {

/// An account of an instruction, named by the part that it plays there.
#[derive(Debug, Clone, Copy, PartialEq, Eq)]
pub enum AccountRef {
    /// The user who signs the instruction.
    User,
    MintA,
    MintB,
    MintLp,
    /// The pool's config account, the authority of its vaults and LP mint.
    Config,
    VaultA,
    VaultB,
    UserTokenAccountA,
    UserTokenAccountB,
    UserTokenAccountLp,
}

/// The seeds with which the config account signs: the tag `config`, the
/// keys of both mints and the config's bump.
#[derive(Debug, Clone, Copy, PartialEq, Eq)]
pub struct ConfigSeeds {
    pub mint_a: Pubkey,
    pub mint_b: Pubkey,
    pub bump: u8,
}

/// The bytes of the ASCII text `config`.
pub open spec fn config_seed_tag() -> Seq<u8> {
    seq![99u8, 111u8, 110u8, 102u8, 105u8, 103u8]
}

/// The seed list that `seeds` stands for.
pub open spec fn config_seed_list(seeds: ConfigSeeds) -> Seq<Seq<u8>> {
    seq![config_seed_tag(), seeds.mint_a.0@, seeds.mint_b.0@, seq![seeds.bump]]
}

fn key_bytes(key: &Pubkey) -> (res: Vec<u8>)
    ensures
        res@ == key.0@,
{
    let mut v: Vec<u8> = Vec::new();
    for i in 0..32
        invariant
            v@ == key.0@.subrange(0, i as int),
    {
        v.push(key.0[i]);
        assert(v@ =~= key.0@.subrange(0, i + 1));
    }
    assert(key.0@.subrange(0, 32) =~= key.0@);
    v
}

impl ConfigSeeds {
    /// The seeds as byte strings, in the order in which the config's
    /// address is derived from them.
    pub fn seed_bytes(&self) -> (res: Vec<Vec<u8>>)
        ensures
            res@.len() == 4,
            forall|i: int| 0 <= i < 4 ==> #[trigger] res@[i]@ == config_seed_list(*self)[i],
    {
        let tag: Vec<u8> = vec![99u8, 111u8, 110u8, 102u8, 105u8, 103u8];
        let a = key_bytes(&self.mint_a);
        let b = key_bytes(&self.mint_b);
        let bump: Vec<u8> = vec![self.bump];
        let res = vec![tag, a, b, bump];
        assert(res@[0]@ =~= config_seed_tag());
        assert(res@[3]@ =~= seq![self.bump]);
        res
    }
}

/// A call of the token program.
#[derive(Debug, Clone, Copy, PartialEq, Eq)]
pub enum TokenCpi {
    /// Move `amount` of `mint`'s tokens from `from` to `to`, checked against
    /// the mint's `decimals`.
    TransferChecked {
        from: AccountRef,
        to: AccountRef,
        mint: AccountRef,
        authority: AccountRef,
        amount: u64,
        decimals: u8,
        signer: Option<ConfigSeeds>,
    },
    /// Issue `amount` new tokens of `mint` into `to`.
    MintTo {
        mint: AccountRef,
        to: AccountRef,
        authority: AccountRef,
        amount: u64,
        signer: Option<ConfigSeeds>,
    },
    /// Destroy `amount` tokens of `mint` held in `from`.
    Burn {
        mint: AccountRef,
        from: AccountRef,
        authority: AccountRef,
        amount: u64,
        signer: Option<ConfigSeeds>,
    },
}

/// How many tokens one call puts into `account`.
pub open spec fn cpi_inflow(c: TokenCpi, account: AccountRef) -> nat {
    match c {
        TokenCpi::TransferChecked { to, amount, .. } => if to == account { amount as nat } else { 0 },
        TokenCpi::MintTo { to, amount, .. } => if to == account { amount as nat } else { 0 },
        TokenCpi::Burn { .. } => 0,
    }
}

/// How many tokens one call takes out of `account`.
pub open spec fn cpi_outflow(c: TokenCpi, account: AccountRef) -> nat {
    match c {
        TokenCpi::TransferChecked { from, amount, .. } => if from == account { amount as nat } else { 0 },
        TokenCpi::MintTo { .. } => 0,
        TokenCpi::Burn { from, amount, .. } => if from == account { amount as nat } else { 0 },
    }
}

/// How many tokens a list of calls puts into `account`, in all.
pub open spec fn inflow(plan: Seq<TokenCpi>, account: AccountRef) -> nat
    decreases plan.len(),
{
    if plan.len() == 0 {
        0
    } else {
        inflow(plan.drop_last(), account) + cpi_inflow(plan.last(), account)
    }
}

/// How many tokens a list of calls takes out of `account`, in all.
pub open spec fn outflow(plan: Seq<TokenCpi>, account: AccountRef) -> nat
    decreases plan.len(),
{
    if plan.len() == 0 {
        0
    } else {
        outflow(plan.drop_last(), account) + cpi_outflow(plan.last(), account)
    }
}

/// The account that a call takes tokens out of, if it takes any.
pub open spec fn cpi_source(c: TokenCpi) -> Option<AccountRef> {
    match c {
        TokenCpi::TransferChecked { from, .. } => Some(from),
        TokenCpi::MintTo { .. } => None,
        TokenCpi::Burn { from, .. } => Some(from),
    }
}

/// Whether the pool's config authorizes and signs a call.
pub open spec fn signed_by_config(c: TokenCpi) -> bool {
    match c {
        TokenCpi::TransferChecked { authority, signer, .. } => authority == AccountRef::Config
            && signer is Some,
        TokenCpi::MintTo { authority, signer, .. } => authority == AccountRef::Config
            && signer is Some,
        TokenCpi::Burn { authority, signer, .. } => authority == AccountRef::Config
            && signer is Some,
    }
}

/// The account that authorizes a call.
pub open spec fn cpi_authority(c: TokenCpi) -> AccountRef {
    match c {
        TokenCpi::TransferChecked { authority, .. } => authority,
        TokenCpi::MintTo { authority, .. } => authority,
        TokenCpi::Burn { authority, .. } => authority,
    }
}

/// The pool's custody rule for a list of calls: whatever leaves a vault,
/// and every issue of LP tokens, is authorized and signed by the config;
/// whatever leaves an account of the user is authorized by the user.
pub open spec fn respects_custody(plan: Seq<TokenCpi>) -> bool {
    forall|i: int|
        0 <= i < plan.len() ==> {
            &&& (cpi_source(#[trigger] plan[i]) == Some(AccountRef::VaultA) || cpi_source(plan[i])
                == Some(AccountRef::VaultB) || plan[i] is MintTo) ==> signed_by_config(plan[i])
            &&& (cpi_source(plan[i]) == Some(AccountRef::UserTokenAccountA) || cpi_source(plan[i])
                == Some(AccountRef::UserTokenAccountB) || cpi_source(plan[i]) == Some(
                AccountRef::UserTokenAccountLp,
            )) ==> cpi_authority(plan[i]) == AccountRef::User
        }
}

/// The flows of a list of three calls are the sums of the calls' flows.
pub proof fn lemma_flows_of_three(plan: Seq<TokenCpi>)
    requires
        plan.len() == 3,
    ensures
        forall|acct: AccountRef|
            #[trigger] inflow(plan, acct) == cpi_inflow(plan[0], acct) + cpi_inflow(plan[1], acct)
                + cpi_inflow(plan[2], acct),
        forall|acct: AccountRef|
            #[trigger] outflow(plan, acct) == cpi_outflow(plan[0], acct) + cpi_outflow(plan[1], acct)
                + cpi_outflow(plan[2], acct),
{
    assert(plan.drop_last().drop_last().drop_last().len() == 0);
    assert forall|acct: AccountRef|
        #[trigger] inflow(plan, acct) == cpi_inflow(plan[0], acct) + cpi_inflow(plan[1], acct)
            + cpi_inflow(plan[2], acct) by {
        reveal_with_fuel(inflow, 4);
    }
    assert forall|acct: AccountRef|
        #[trigger] outflow(plan, acct) == cpi_outflow(plan[0], acct) + cpi_outflow(plan[1], acct)
            + cpi_outflow(plan[2], acct) by {
        reveal_with_fuel(outflow, 4);
    }
}

/// The flows of a list of two calls are the sums of the calls' flows.
pub proof fn lemma_flows_of_two(plan: Seq<TokenCpi>)
    requires
        plan.len() == 2,
    ensures
        forall|acct: AccountRef|
            #[trigger] inflow(plan, acct) == cpi_inflow(plan[0], acct) + cpi_inflow(plan[1], acct),
        forall|acct: AccountRef|
            #[trigger] outflow(plan, acct) == cpi_outflow(plan[0], acct) + cpi_outflow(plan[1], acct),
{
    assert(plan.drop_last().drop_last().len() == 0);
    assert forall|acct: AccountRef|
        #[trigger] inflow(plan, acct) == cpi_inflow(plan[0], acct) + cpi_inflow(plan[1], acct) by {
        reveal_with_fuel(inflow, 3);
    }
    assert forall|acct: AccountRef|
        #[trigger] outflow(plan, acct) == cpi_outflow(plan[0], acct) + cpi_outflow(plan[1], acct) by {
        reveal_with_fuel(outflow, 3);
    }
}

} // verus!
