//! A constant-product liquidity-pool accounting engine.
//!
//! Given a pool's reserves and a requested operation (deposit, withdraw or
//! swap), the engine derives the exact token amounts to move and validates
//! them against caller-supplied bounds and pool state. All multiplications of
//! 64-bit quantities go through 128-bit intermediates, every rounding
//! direction is pinned down in the contracts, and overflow aborts the whole
//! operation with an explicit error. Custody of funds, signatures, and
//! durable storage are the caller's business: the engine only computes.

pub mod curve;
pub mod errors;
pub mod fees;
pub mod math;
pub mod pool;
