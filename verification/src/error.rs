//! The ways in which an operation on the pool is rejected.

use vstd::prelude::*;

verus! {

/// Why an operation was rejected. A rejected operation leaves the ledger
/// exactly as it was.
#[derive(Clone, Copy, Debug, PartialEq, Eq, Structural)]
pub enum ErrorCode {
    /// An amount of zero where a positive one is needed.
    InvalidAmount,
    /// A deposit below the minimum deposit.
    MinimumDeposit,
    /// More protocol fees asked for than have accrued.
    InsufficientFunds,
    /// More asked of the liquid reserve than it holds.
    InsufficientLiquidity,
    /// A privileged operation by someone other than the pool authority.
    Unauthorized,
    /// An exchange rate below one. No operation of this library returns it.
    InvalidExchangeRate,
    /// An allocation percentage above one hundred.
    InvalidAllocation,
    /// The validator registry is full.
    TooManyValidators,
    /// The receipt-token mint is not the pool's. It is for whoever checks
    /// the token accounts before an operation: no operation of this library
    /// returns it.
    InvalidMint,
    /// The receipt-token account does not belong to the mint. It is for
    /// whoever checks the token accounts before an operation: no operation
    /// of this library returns it.
    InvalidTokenAccount,
    /// A validator index at or beyond the number of registered validators.
    InvalidValidatorIndex,
    /// The targeted validator has been deactivated.
    ValidatorInactive,
    /// A sum or product that does not fit in 64 bits, or a division by zero.
    ArithmeticOverflow,
    /// A difference below zero.
    ArithmeticUnderflow,
}

} // verus!
