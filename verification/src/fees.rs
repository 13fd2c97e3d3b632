//! Basis-point fee application.
//!
//! The fee is charged on swap inputs only and rounds down, so the pool keeps
//! every fractional basis point. Deposits and withdrawals are fee-free.

use crate::math::{lemma_bps_share_le_whole, wide_mul};
use vstd::prelude::*;

verus! {

/// The number of basis points that make up the whole: 10000 bps = 100%.
pub const BPS_DENOMINATOR: u64 = 10000;

/// `floor(gross * fee_bps / 10000)`: the part of a gross swap input that the
/// pool retains as its fee.
pub open spec fn spec_fee_amount(gross: int, fee_bps: int) -> int {
    gross * fee_bps / 10000
}

/// What is left of a gross swap input once the fee is taken.
pub open spec fn spec_net_input(gross: int, fee_bps: int) -> int {
    gross - spec_fee_amount(gross, fee_bps)
}

/// Splits a gross swap input into the retained fee and the net amount that
/// reaches the curve. The fee rounds down and never exceeds the gross input,
/// so the split is exact: fee + net == gross.
pub fn apply_fee(amount_in_gross: u64, fee_bps: u16) -> (r: (u64, u64))
    requires
        fee_bps <= 10000,
    ensures
        r.0 == spec_fee_amount(amount_in_gross as int, fee_bps as int),
        r.1 == spec_net_input(amount_in_gross as int, fee_bps as int),
        r.0 + r.1 == amount_in_gross,
{
    let prod: u128 = wide_mul(amount_in_gross, fee_bps as u64);
    let fee_wide: u128 = prod / (BPS_DENOMINATOR as u128);
    proof {
        lemma_bps_share_le_whole(amount_in_gross as int, fee_bps as int);
    }
    let fee_amount: u64 = fee_wide as u64;
    (fee_amount, amount_in_gross - fee_amount)
}

} // verus!
