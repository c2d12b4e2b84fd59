//! The pool's configuration and the account data that its instructions read.
use vstd::prelude::*;

verus! {

/// An account address: the 32 bytes of a public key.
#[derive(Debug, Clone, Copy, PartialEq, Eq)]
pub struct Pubkey(pub [u8; 32]);

/// The pool's configuration, kept in its config account.
#[derive(Debug, Clone, Copy, PartialEq, Eq)]
pub struct Config {
    pub authority: Option<Pubkey>,
    pub mint_a: Pubkey,
    pub mint_b: Pubkey,
    pub mint_lp: Pubkey,
    pub fee: u16,
    pub config_bump: u8,
    pub lp_bump: u8,
}

/// What the instructions read of a token mint.
#[derive(Debug, Clone, Copy, PartialEq, Eq)]
pub struct MintInfo {
    pub key: Pubkey,
    pub supply: u64,
    pub decimals: u8,
}

/// What the instructions read of a token account.
#[derive(Debug, Clone, Copy, PartialEq, Eq)]
pub struct TokenAccountInfo {
    pub key: Pubkey,
    pub mint: Pubkey,
    pub owner: Pubkey,
    pub amount: u64,
}

} // verus!
