//! Reasons for which a call on the pool is rejected.

use vstd::prelude::*;

verus! {

/// The four families of failure. Input and slippage failures are the caller's
/// to mend; an invariant violation means the pool or its host is inconsistent.
#[derive(Clone, Copy, Debug, PartialEq, Eq, Structural)]
pub enum ErrorKind {
    InputValidation,
    Slippage,
    InvariantViolation,
    Reinitialization,
}

/// Why a call was rejected. A rejected call leaves the pool untouched.
#[derive(Clone, Copy, Debug, PartialEq, Eq, Structural)]
pub enum PoolError {
    /// The caller's cap on the paired asset is zero.
    ZeroMaxTokens,
    /// No native payment is attached to the call.
    ZeroPayment,
    /// A deposit into a live pool names zero as the least acceptable issuance.
    ZeroMinLiquidity,
    /// The paired-asset cost of the deposit is above the caller's cap.
    TokenAmountAboveMax,
    /// Fewer shares would be issued than the caller accepts.
    MintedBelowMin,
    /// Shares are outstanding while the native reserve is empty.
    ZeroReserve,
    /// A quantity left the range of the integer type that holds it.
    ArithmeticOverflow,
    /// The pool was set up before.
    AlreadyInitialized,
}

impl PoolError {
    pub open spec fn spec_kind(self) -> ErrorKind {
        match self {
            PoolError::ZeroMaxTokens | PoolError::ZeroPayment | PoolError::ZeroMinLiquidity =>
                ErrorKind::InputValidation,
            PoolError::TokenAmountAboveMax | PoolError::MintedBelowMin => ErrorKind::Slippage,
            PoolError::ZeroReserve | PoolError::ArithmeticOverflow => ErrorKind::InvariantViolation,
            PoolError::AlreadyInitialized => ErrorKind::Reinitialization,
        }
    }

    pub open spec fn spec_message(self) -> Seq<char> {
        match self {
            PoolError::ZeroMaxTokens => "Maximum tokens should be greater than zero"@,
            PoolError::ZeroPayment => "Deposit must be greater than zero"@,
            PoolError::ZeroMinLiquidity => "Minimum liquidity must be greater than zero"@,
            PoolError::TokenAmountAboveMax => "max_tokens must be greater than token amount"@,
            PoolError::MintedBelowMin =>
                "liquidity minted should be greater or equal to min_liquidity"@,
            PoolError::ZeroReserve => "Native reserve is empty while shares are outstanding"@,
            PoolError::ArithmeticOverflow => "Arithmetic overflow"@,
            PoolError::AlreadyInitialized => "ERR_CONTRACT_IS_INITIALIZED"@,
        }
    }

    /// The family this failure belongs to.
    pub fn kind(&self) -> (k: ErrorKind)
        ensures
            k == self.spec_kind(),
    {
        match self {
            PoolError::ZeroMaxTokens => ErrorKind::InputValidation,
            PoolError::ZeroPayment => ErrorKind::InputValidation,
            PoolError::ZeroMinLiquidity => ErrorKind::InputValidation,
            PoolError::TokenAmountAboveMax => ErrorKind::Slippage,
            PoolError::MintedBelowMin => ErrorKind::Slippage,
            PoolError::ZeroReserve => ErrorKind::InvariantViolation,
            PoolError::ArithmeticOverflow => ErrorKind::InvariantViolation,
            PoolError::AlreadyInitialized => ErrorKind::Reinitialization,
        }
    }

    /// The text with which a host aborts the call.
    pub fn message(&self) -> (s: &'static str)
        ensures
            s@ == self.spec_message(),
    {
        match self {
            PoolError::ZeroMaxTokens => "Maximum tokens should be greater than zero",
            PoolError::ZeroPayment => "Deposit must be greater than zero",
            PoolError::ZeroMinLiquidity => "Minimum liquidity must be greater than zero",
            PoolError::TokenAmountAboveMax => "max_tokens must be greater than token amount",
            PoolError::MintedBelowMin =>
                "liquidity minted should be greater or equal to min_liquidity",
            PoolError::ZeroReserve => "Native reserve is empty while shares are outstanding",
            PoolError::ArithmeticOverflow => "Arithmetic overflow",
            PoolError::AlreadyInitialized => "ERR_CONTRACT_IS_INITIALIZED",
        }
    }
}

} // verus!
