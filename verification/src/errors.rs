//! The errors that the pool's instructions report.
use vstd::prelude::*;

verus! {

/// Why an instruction of the pool refused a request.
#[derive(Debug, Clone, Copy, PartialEq, Eq, Structural)]
pub enum AmmError {
    InvalidAmount,
    SlippageExceeded,
    InvalidLiquidity,
    InvalidAuthority,
    FeeExceeded,
    InsufficientLiquidity,
}

/// What the pool reads of an error that the constant-product curve
/// reports: whether it is the curve's slippage error, its
/// insufficient-balance error, or any other of its errors.
#[derive(Debug, Clone, Copy, PartialEq, Eq, Structural)]
pub enum CurveErrorKind {
    SlippageLimitExceeded,
    InsufficientBalance,
    Other,
}

/// The pool error that stands for a curve error.
pub open spec fn amm_error_of_curve(e: CurveErrorKind) -> AmmError {
    match e {
        CurveErrorKind::SlippageLimitExceeded => AmmError::SlippageExceeded,
        CurveErrorKind::InsufficientBalance => AmmError::InsufficientLiquidity,
        CurveErrorKind::Other => AmmError::InvalidAmount,
    }
}

impl From<CurveErrorKind> for AmmError {
    fn from(error: CurveErrorKind) -> (res: AmmError) {
        match error {
            CurveErrorKind::SlippageLimitExceeded => AmmError::SlippageExceeded,
            CurveErrorKind::InsufficientBalance => AmmError::InsufficientLiquidity,
            CurveErrorKind::Other => AmmError::InvalidAmount,
        }
    }
}

impl vstd::std_specs::convert::FromSpecImpl<CurveErrorKind> for AmmError {
    open spec fn obeys_from_spec() -> bool {
        true
    }

    open spec fn from_spec(v: CurveErrorKind) -> AmmError {
        amm_error_of_curve(v)
    }
}

impl AmmError {
    /// The message that the program reports with the error.
    pub fn message(&self) -> (res: &'static str)
        ensures
            res@ == error_message(*self)@,
    {
        match self {
            AmmError::InvalidAmount => "Invalid amount provided",
            AmmError::SlippageExceeded => "Slippage tolerance exceeded",
            AmmError::InvalidLiquidity => "Insufficient liquidity pool",
            AmmError::InvalidAuthority => "Invalid authority",
            AmmError::FeeExceeded => "Fee Exceeded",
            AmmError::InsufficientLiquidity => "Insufficient liquidity",
        }
    }
}

/// The message of each error.
pub open spec fn error_message(e: AmmError) -> &'static str {
    match e {
        AmmError::InvalidAmount => "Invalid amount provided",
        AmmError::SlippageExceeded => "Slippage tolerance exceeded",
        AmmError::InvalidLiquidity => "Insufficient liquidity pool",
        AmmError::InvalidAuthority => "Invalid authority",
        AmmError::FeeExceeded => "Fee Exceeded",
        AmmError::InsufficientLiquidity => "Insufficient liquidity",
    }
}

} // verus!
