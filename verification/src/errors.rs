//! The error taxonomy of the pool.
//!
//! Every failure is detected at a validation or commit boundary and rejected
//! outright: an operation that returns one of these errors has no effect on
//! pool state. None of them is fatal to the pool as a whole.

use vstd::prelude::*;

verus! {

/// Everything a pool operation can refuse with.
#[derive(Clone, Copy, PartialEq, Eq, Structural, Debug)]
pub enum AmmError {
    /// A second initialization of an already-initialized pool.
    AlreadyInitialized,
    /// The token identity handed to a swap matches neither side of the pool.
    InvalidToken,
    /// A swap with a zero input amount.
    ZeroAmount,
    /// The caller is not allowed to perform this operation: a non-owner
    /// adding liquidity, or a reconciliation callback invoked by anyone
    /// other than the pool itself.
    Unauthorized,
    /// Decimal scaling, the pricing formula, or the invariant product
    /// exceeds the representable range.
    Overflow,
    /// The computed output amount would exceed the current reserve.
    Underflow,
    /// Pricing against a zero reserve (pool uninitialized or drained).
    DivisionByZero,
    /// Pricing attempted before both tokens' decimals are confirmed.
    DecimalsUnknown,
    /// The external custody collaborator reported a failed transfer leg;
    /// the pending reserve delta is discarded.
    TransferFailed,
}

} // verus!
