//! The questions that the pool puts to the constant-product curve, and the
//! answers that it reads back.
use vstd::prelude::*;

verus! {

/// The precision with which the pool asks the curve for deposit amounts:
/// that of the LP mint's decimals.
pub const LP_PRECISION: u32 = 6;

/// A request for the amounts of both tokens that correspond to `a` LP
/// tokens in a pool that holds `x` and `y` and has issued `l` LP tokens.
#[derive(Debug, Clone, Copy, PartialEq, Eq)]
pub struct DepositQuote {
    pub x: u64,
    pub y: u64,
    pub l: u64,
    pub a: u64,
    pub precision: u32,
}

/// The curve's answer to a `DepositQuote`.
#[derive(Debug, Clone, Copy, PartialEq, Eq)]
pub struct XYAmounts {
    pub x: u64,
    pub y: u64,
}

/// The side of the pool that a swap pays into.
#[derive(Debug, Clone, Copy, PartialEq, Eq)]
pub enum LiquidityPair {
    X,
    Y,
}

/// A request to the curve: build a curve over a pool that holds `x` and `y`,
/// has issued `l` LP tokens and charges `fee`, with no precision given, and
/// swap `amount_in` into side `pair`, refusing an output under
/// `min_amount_out`.
#[derive(Debug, Clone, Copy, PartialEq, Eq)]
pub struct SwapQuote {
    pub x: u64,
    pub y: u64,
    pub l: u64,
    pub fee: u16,
    pub pair: LiquidityPair,
    pub amount_in: u64,
    pub min_amount_out: u64,
}

/// What the pool reads of the curve's answer to a `SwapQuote`: the amount
/// that the user pays in and the amount that the pool pays out.
#[derive(Debug, Clone, Copy, PartialEq, Eq)]
pub struct SwapAmounts {
    pub deposit: u64,
    pub withdraw: u64,
}

} // verus!
