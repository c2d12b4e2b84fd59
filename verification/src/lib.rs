//! A constant-product automated market maker: the decisions that each
//! instruction of the pool program takes, stated and proved.
//!
//! The program keeps two token vaults and an LP mint. Each instruction
//! reads the pool's state, asks the constant-product curve for a quote where
//! it needs one, checks the caller's limits, and answers with the list of
//! token-program calls that carry out its decision.

pub mod automated_market_makers;
pub mod cpi;
pub mod curve;
pub mod errors;
pub mod instructions;
pub mod states;

pub use errors::AmmError;
pub use instructions::deposit::Deposit;
pub use instructions::initialize::{Initialize, InitializeBumps};
pub use instructions::swap::Swap;
pub use instructions::withdraw::Withdraw;
pub use states::Config;
