//! Setting up a pool: recording its mints, fee, authority and bumps in the
//! config account.
use vstd::prelude::*;

use crate::errors::AmmError;
use crate::states::{Config, MintInfo, Pubkey, TokenAccountInfo};

verus! {

/// The bumps found for the addresses of the config and the LP mint.
#[derive(Debug, Clone, Copy, PartialEq, Eq)]
pub struct InitializeBumps {
    pub config: u8,
    pub mint_lp: u8,
}

/// The accounts of a pool's set-up, as far as its decisions read them.
#[derive(Debug, Clone, Copy, PartialEq, Eq)]
pub struct Initialize {
    pub owner: Pubkey,
    pub mint_a: MintInfo,
    pub mint_b: MintInfo,
    pub config: Config,
    pub mint_lp: MintInfo,
    pub vault_a: TokenAccountInfo,
    pub vault_b: TokenAccountInfo,
}

impl Initialize {
    /// The configuration that a set-up with `fee`, `authority` and `bumps`
    /// records.
    pub open spec fn initial_config(
        self,
        fee: u16,
        authority: Option<Pubkey>,
        bumps: InitializeBumps,
    ) -> Config {
        Config {
            authority,
            mint_a: self.mint_a.key,
            mint_b: self.mint_b.key,
            mint_lp: self.mint_lp.key,
            fee,
            config_bump: bumps.config,
            lp_bump: bumps.mint_lp,
        }
    }

    /// Records the pool's configuration: the keys of both token mints and of
    /// the LP mint, `fee` and
    /// `authority` as given, and the bumps found for the config and the LP
    /// mint. Always succeeds; no other account changes.
    pub fn initialize(&mut self, fee: u16, authority: Option<Pubkey>, bumps: &InitializeBumps) -> (res:
        Result<(), AmmError>)
        ensures
            res is Ok,
            final(self).config.mint_lp == old(self).mint_lp.key,
            final(self).config.mint_a == old(self).mint_a.key,
            final(self).config.mint_b == old(self).mint_b.key,
            *final(self) == (Initialize {
                config: old(self).initial_config(fee, authority, *bumps),
                ..*old(self)
            }),
    {
        self.config =
        Config {
            authority,
            mint_a: self.mint_a.key,
            mint_b: self.mint_b.key,
            mint_lp: self.mint_lp.key,
            config_bump: bumps.config,
            lp_bump: bumps.mint_lp,
            fee,
        };
        Ok(())
    }
}

/// A set-up records each mint under its own name: `mint_a` is the key of
/// the mint passed as token A, `mint_b` that of the mint passed as token B,
/// `mint_lp` that of the LP mint; the fee and authority are the caller's and
/// the bumps are those found for the config and the LP mint.
pub proof fn lemma_initialize_records_each_mint(
    i: Initialize,
    fee: u16,
    authority: Option<Pubkey>,
    bumps: InitializeBumps,
)
    ensures
        ({
            let c = i.initial_config(fee, authority, bumps);
            &&& c.mint_a == i.mint_a.key
            &&& c.mint_b == i.mint_b.key
            &&& c.mint_lp == i.mint_lp.key
            &&& c.fee == fee
            &&& c.authority == authority
            &&& c.config_bump == bumps.config
            &&& c.lp_bump == bumps.mint_lp
        }),
{
}

} // verus!
