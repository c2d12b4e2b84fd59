//! The pool's instructions.
pub mod deposit;
pub mod initialize;
pub mod swap;
pub mod withdraw;
