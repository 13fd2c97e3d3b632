//! The error taxonomy shared by every engine operation.

use vstd::prelude::*;

verus! {

/// Every way an engine operation can fail. A failure aborts the whole
/// operation: no partial state mutation is ever observable.
#[derive(Clone, Copy, Debug, PartialEq, Eq, Structural)]
pub enum AmmError {
    /// Catch-all for failures with no more specific variant.
    DefaultError,
    /// The caller-supplied deadline lies in the past.
    OfferExpired,
    /// The pool's lock flag is set; deposit, withdraw and swap are rejected.
    PoolLocked,
    /// A quoted amount fell outside the caller's slippage bounds.
    SlippageExceeded,
    /// An arithmetic result would exceed its 64-bit width.
    Overflow,
    /// An arithmetic result would fall below zero.
    Underflow,
    /// An asset identifier did not match the pool.
    InvalidToken,
    /// A withdraw quote fell short of the caller's minimum.
    LiquidityLessThanMinimum,
    /// The pool is empty, so the operation has nothing to draw on.
    NoLiquidityInPool,
    /// A derived-address bookkeeping failure in the hosting environment.
    BumpError,
    /// Catch-all surfaced by the curve computation.
    CurveError,
    /// The configured fee exceeds 10000 basis points (100%).
    InvalidFee,
    /// The caller is not the pool's configured authority.
    InvalidAuthority,
    /// The pool was created without an authority; its lock can never change.
    NoAuthoritySet,
    /// A computed amount was zero where a positive amount is required.
    InvalidAmount,
    /// A precision parameter was out of range.
    InvalidPrecision,
    /// A balance is too small to cover the requested movement.
    InsufficientBalance,
    /// A required input amount or balance was zero.
    ZeroBalance,
}

} // verus!
