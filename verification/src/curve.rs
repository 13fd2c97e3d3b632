//! Constant-product curve quotes.
//!
//! Stateless functions that compute deposit, withdraw and swap quotes from
//! reserve state. Deposit shares round up and withdraw shares round down, so
//! repeated deposit/withdraw cycles can never extract more value than was put
//! in; a swap holds the product of the reserves constant modulo fee retention
//! and can never empty the output reserve.

use crate::errors::AmmError;
use crate::fees::{apply_fee, spec_fee_amount, spec_net_input};
use crate::math::{ceil_div, mul_div_ceil, mul_div_floor, wide_mul};
use vstd::arithmetic::div_mod::{
    lemma_div_by_multiple, lemma_div_is_ordered, lemma_div_is_ordered_by_denominator,
    lemma_div_multiples_vanish_fancy, lemma_fundamental_div_mod,
    lemma_mod_division_less_than_divisor,
};
use vstd::arithmetic::mul::{lemma_mul_inequality, lemma_mul_is_commutative, lemma_mul_nonnegative};
use vstd::prelude::*;

verus! {

/// The two token amounts a depositor must supply for a requested number of
/// liquidity shares.
#[derive(Clone, Copy, Debug, PartialEq, Eq, Structural)]
pub struct DepositQuote {
    pub amount_x: u64,
    pub amount_y: u64,
}

/// The two token amounts a withdrawer receives for burning liquidity shares.
#[derive(Clone, Copy, Debug, PartialEq, Eq, Structural)]
pub struct WithdrawQuote {
    pub amount_x: u64,
    pub amount_y: u64,
}

/// The outcome of a swap: the net input after the fee, the output owed to
/// the trader, and the retained fee.
#[derive(Clone, Copy, Debug, PartialEq, Eq, Structural)]
pub struct SwapQuote {
    pub amount_in_net: u64,
    pub amount_out: u64,
    pub fee_amount: u64,
}

/// A depositor's share of one reserve, rounded up: the pool never loses
/// value to rounding on deposit.
pub open spec fn spec_share_ceil(lp_amount: int, reserve: int, lp_supply: int) -> int {
    ceil_div(lp_amount * reserve, lp_supply)
}

/// A withdrawer's share of one reserve, rounded down: the pool never pays
/// out more than the shares are worth.
pub open spec fn spec_share_floor(lp_amount: int, reserve: int, lp_supply: int) -> int {
    lp_amount * reserve / lp_supply
}

/// The output-side reserve after a swap: `floor(k / (reserve_in + net))`
/// where `k` is the constant product of the reserves.
pub open spec fn spec_new_reserve_out(reserve_in: int, reserve_out: int, net: int) -> int {
    (reserve_in * reserve_out) / (reserve_in + net)
}

/// The amount a swap pays out: what the output reserve loses.
pub open spec fn spec_swap_output(reserve_in: int, reserve_out: int, net: int) -> int {
    reserve_out - spec_new_reserve_out(reserve_in, reserve_out, net)
}

/// Quotes the token amounts for minting `lp_amount` liquidity shares.
///
/// On an empty pool the caller-chosen bounds define the initial price ratio
/// and are returned as the deposit amounts; otherwise each amount is the
/// share of the matching reserve rounded up, rejected with `Overflow` when
/// it exceeds 64 bits and with `SlippageExceeded` when it exceeds the
/// caller's bound.
pub fn deposit_quote(
    reserve_x: u64,
    reserve_y: u64,
    lp_supply: u64,
    lp_amount: u64,
    max_x: u64,
    max_y: u64,
) -> (r: Result<DepositQuote, AmmError>)
    ensures
        lp_supply == 0 ==> r is Ok && r->Ok_0 == (DepositQuote {
            amount_x: max_x,
            amount_y: max_y,
        }),
        lp_supply > 0 && (spec_share_ceil(lp_amount as int, reserve_x as int, lp_supply as int)
            > u64::MAX || spec_share_ceil(
            lp_amount as int,
            reserve_y as int,
            lp_supply as int,
        ) > u64::MAX) ==> r is Err && r->Err_0 == AmmError::Overflow,
        lp_supply > 0 && spec_share_ceil(lp_amount as int, reserve_x as int, lp_supply as int)
            <= u64::MAX && spec_share_ceil(lp_amount as int, reserve_y as int, lp_supply as int)
            <= u64::MAX ==> {
            &&& (spec_share_ceil(lp_amount as int, reserve_x as int, lp_supply as int) > max_x
                || spec_share_ceil(lp_amount as int, reserve_y as int, lp_supply as int) > max_y)
                ==> r is Err && r->Err_0 == AmmError::SlippageExceeded
            &&& (spec_share_ceil(lp_amount as int, reserve_x as int, lp_supply as int) <= max_x
                && spec_share_ceil(lp_amount as int, reserve_y as int, lp_supply as int) <= max_y)
                ==> r is Ok && r->Ok_0.amount_x == spec_share_ceil(
                lp_amount as int,
                reserve_x as int,
                lp_supply as int,
            ) && r->Ok_0.amount_y == spec_share_ceil(
                lp_amount as int,
                reserve_y as int,
                lp_supply as int,
            )
        },
{
    if lp_supply == 0 {
        return Ok(DepositQuote { amount_x: max_x, amount_y: max_y });
    }
    let amount_x = match mul_div_ceil(lp_amount, reserve_x, lp_supply) {
        Ok(v) => v,
        Err(e) => { return Err(e) },
    };
    let amount_y = match mul_div_ceil(lp_amount, reserve_y, lp_supply) {
        Ok(v) => v,
        Err(e) => { return Err(e) },
    };
    if amount_x > max_x || amount_y > max_y {
        return Err(AmmError::SlippageExceeded);
    }
    Ok(DepositQuote { amount_x, amount_y })
}

/// Quotes the token amounts paid out for burning `lp_amount` liquidity
/// shares.
///
/// Fails `NoLiquidityInPool` on an empty pool; otherwise each amount is the
/// share of the matching reserve rounded down, rejected with `Overflow` when
/// it exceeds 64 bits and with `LiquidityLessThanMinimum` when it falls
/// short of the caller's minimum.
pub fn withdraw_quote(
    reserve_x: u64,
    reserve_y: u64,
    lp_supply: u64,
    lp_amount: u64,
    min_x: u64,
    min_y: u64,
) -> (r: Result<WithdrawQuote, AmmError>)
    ensures
        lp_supply == 0 ==> r is Err && r->Err_0 == AmmError::NoLiquidityInPool,
        lp_supply > 0 && (spec_share_floor(lp_amount as int, reserve_x as int, lp_supply as int)
            > u64::MAX || spec_share_floor(
            lp_amount as int,
            reserve_y as int,
            lp_supply as int,
        ) > u64::MAX) ==> r is Err && r->Err_0 == AmmError::Overflow,
        lp_supply > 0 && spec_share_floor(lp_amount as int, reserve_x as int, lp_supply as int)
            <= u64::MAX && spec_share_floor(lp_amount as int, reserve_y as int, lp_supply as int)
            <= u64::MAX ==> {
            &&& (spec_share_floor(lp_amount as int, reserve_x as int, lp_supply as int) < min_x
                || spec_share_floor(lp_amount as int, reserve_y as int, lp_supply as int) < min_y)
                ==> r is Err && r->Err_0 == AmmError::LiquidityLessThanMinimum
            &&& (spec_share_floor(lp_amount as int, reserve_x as int, lp_supply as int) >= min_x
                && spec_share_floor(lp_amount as int, reserve_y as int, lp_supply as int) >= min_y)
                ==> r is Ok && r->Ok_0.amount_x == spec_share_floor(
                lp_amount as int,
                reserve_x as int,
                lp_supply as int,
            ) && r->Ok_0.amount_y == spec_share_floor(
                lp_amount as int,
                reserve_y as int,
                lp_supply as int,
            )
        },
{
    if lp_supply == 0 {
        return Err(AmmError::NoLiquidityInPool);
    }
    let amount_x = match mul_div_floor(lp_amount, reserve_x, lp_supply) {
        Ok(v) => v,
        Err(e) => { return Err(e) },
    };
    let amount_y = match mul_div_floor(lp_amount, reserve_y, lp_supply) {
        Ok(v) => v,
        Err(e) => { return Err(e) },
    };
    if amount_x < min_x || amount_y < min_y {
        return Err(AmmError::LiquidityLessThanMinimum);
    }
    Ok(WithdrawQuote { amount_x, amount_y })
}

/// Quotes a swap of `amount_in_gross` of the input-side token against the
/// pool.
///
/// The fee comes off the gross input first; the net input then moves along
/// the constant-product curve `k = reserve_in * reserve_out`. The output is
/// always strictly positive and strictly below `reserve_out`: a swap that
/// would drain the output reserve fails `InsufficientBalance`, and one that
/// would pay nothing fails `InvalidAmount`, before the caller's `min_out`
/// bound is checked.
pub fn swap_quote(
    reserve_in: u64,
    reserve_out: u64,
    amount_in_gross: u64,
    fee_bps: u16,
    min_out: u64,
) -> (r: Result<SwapQuote, AmmError>)
    requires
        fee_bps <= 10000,
    ensures
        (reserve_in == 0 || reserve_out == 0) ==> r is Err && r->Err_0
            == AmmError::NoLiquidityInPool,
        reserve_in > 0 && reserve_out > 0 && amount_in_gross == 0 ==> r is Err && r->Err_0
            == AmmError::ZeroBalance,
        reserve_in > 0 && reserve_out > 0 && amount_in_gross > 0 ==> {
            &&& spec_new_reserve_out(
                reserve_in as int,
                reserve_out as int,
                spec_net_input(amount_in_gross as int, fee_bps as int),
            ) == 0 ==> r is Err && r->Err_0 == AmmError::InsufficientBalance
            &&& spec_new_reserve_out(
                reserve_in as int,
                reserve_out as int,
                spec_net_input(amount_in_gross as int, fee_bps as int),
            ) > 0 ==> {
                let out = spec_swap_output(
                    reserve_in as int,
                    reserve_out as int,
                    spec_net_input(amount_in_gross as int, fee_bps as int),
                );
                &&& out == 0 ==> r is Err && r->Err_0 == AmmError::InvalidAmount
                &&& out > 0 && out < min_out ==> r is Err && r->Err_0
                    == AmmError::SlippageExceeded
                &&& out > 0 && out >= min_out ==> r is Ok && r->Ok_0.amount_out == out
                    && r->Ok_0.amount_in_net == spec_net_input(
                    amount_in_gross as int,
                    fee_bps as int,
                ) && r->Ok_0.fee_amount == spec_fee_amount(amount_in_gross as int, fee_bps as int)
            }
        },
        r is Ok ==> 0 < r->Ok_0.amount_out < reserve_out,
        r is Ok ==> r->Ok_0.fee_amount + r->Ok_0.amount_in_net == amount_in_gross,
        reserve_in > 0 && reserve_out > 0 && amount_in_gross > 0 && fee_bps == 10000 ==> r is Err
            && r->Err_0 == AmmError::InvalidAmount,
{
    if reserve_in == 0 || reserve_out == 0 {
        return Err(AmmError::NoLiquidityInPool);
    }
    if amount_in_gross == 0 {
        return Err(AmmError::ZeroBalance);
    }
    let (fee_amount, amount_in_net) = apply_fee(amount_in_gross, fee_bps);
    proof {
        if fee_bps == 10000 {
            lemma_full_fee_zero_net(amount_in_gross as int);
        }
    }
    let k: u128 = wide_mul(reserve_in, reserve_out);
    let new_reserve_in: u128 = reserve_in as u128 + amount_in_net as u128;
    let new_reserve_out_wide: u128 = k / new_reserve_in;
    proof {
        lemma_div_is_ordered_by_denominator(
            k as int,
            reserve_in as int,
            reserve_in + amount_in_net,
        );
        lemma_mul_is_commutative(reserve_in as int, reserve_out as int);
        lemma_div_by_multiple(reserve_out as int, reserve_in as int);
    }
    let new_reserve_out: u64 = new_reserve_out_wide as u64;
    if new_reserve_out == 0 {
        return Err(AmmError::InsufficientBalance);
    }
    let amount_out: u64 = reserve_out - new_reserve_out;
    if amount_out == 0 {
        return Err(AmmError::InvalidAmount);
    }
    if amount_out < min_out {
        return Err(AmmError::SlippageExceeded);
    }
    Ok(SwapQuote { amount_in_net, amount_out, fee_amount })
}

/// Deposit rounding rounds up and withdraw rounding rounds down: against
/// unchanged reserves and supply, the amount a depositor pays in for some
/// number of shares is never less than the amount a withdrawer gets back for
/// the same number of shares.
pub proof fn lemma_deposit_ge_withdraw(lp_amount: int, reserve: int, lp_supply: int)
    requires
        0 <= lp_amount,
        0 <= reserve,
        0 < lp_supply,
    ensures
        spec_share_ceil(lp_amount, reserve, lp_supply) >= spec_share_floor(
            lp_amount,
            reserve,
            lp_supply,
        ),
{
    lemma_mul_nonnegative(lp_amount, reserve);
    lemma_div_is_ordered(
        lp_amount * reserve,
        lp_amount * reserve + lp_supply - 1,
        lp_supply,
    );
}

/// The net input equals `ceil(gross * (10000 - fee_bps) / 10000)`.
proof fn lemma_net_input_as_ceil(gross: int, fee_bps: int)
    requires
        0 <= gross,
        0 <= fee_bps <= 10000,
    ensures
        spec_net_input(gross, fee_bps) == ceil_div(gross * (10000 - fee_bps), 10000),
{
    let q = gross * fee_bps / 10000;
    let m = gross * fee_bps % 10000;
    lemma_fundamental_div_mod(gross * fee_bps, 10000);
    lemma_mod_division_less_than_divisor(gross * fee_bps, 10000);
    assert(gross * (10000 - fee_bps) + 10000 - 1 == 10000 * (gross - q) + (9999 - m))
        by (nonlinear_arith)
        requires
            gross * fee_bps == 10000 * q + m,
    ;
    lemma_div_multiples_vanish_fancy(gross - q, 9999 - m, 10000);
}

/// For a fixed fee, a larger gross input never yields a smaller net input.
proof fn lemma_net_input_monotone(gross_1: int, gross_2: int, fee_bps: int)
    requires
        0 <= gross_1 <= gross_2,
        0 <= fee_bps <= 10000,
    ensures
        spec_net_input(gross_1, fee_bps) <= spec_net_input(gross_2, fee_bps),
{
    lemma_net_input_as_ceil(gross_1, fee_bps);
    lemma_net_input_as_ceil(gross_2, fee_bps);
    lemma_mul_inequality(gross_1, gross_2, 10000 - fee_bps);
    lemma_div_is_ordered(
        gross_1 * (10000 - fee_bps) + 10000 - 1,
        gross_2 * (10000 - fee_bps) + 10000 - 1,
        10000,
    );
}

/// For fixed reserves, the swap output is monotone in the net input.
proof fn lemma_swap_output_monotone_in_net(reserve_in: int, reserve_out: int, net_1: int, net_2: int)
    requires
        0 < reserve_in,
        0 <= reserve_out,
        0 <= net_1 <= net_2,
    ensures
        spec_swap_output(reserve_in, reserve_out, net_1) <= spec_swap_output(
            reserve_in,
            reserve_out,
            net_2,
        ),
{
    lemma_mul_nonnegative(reserve_in, reserve_out);
    lemma_div_is_ordered_by_denominator(
        reserve_in * reserve_out,
        reserve_in + net_1,
        reserve_in + net_2,
    );
}

/// For fixed reserves and fee, increasing the gross input never decreases
/// the swap output.
pub proof fn lemma_swap_output_monotone(
    reserve_in: int,
    reserve_out: int,
    fee_bps: int,
    gross_1: int,
    gross_2: int,
)
    requires
        0 < reserve_in,
        0 <= reserve_out,
        0 <= fee_bps <= 10000,
        0 <= gross_1 <= gross_2,
    ensures
        spec_swap_output(reserve_in, reserve_out, spec_net_input(gross_1, fee_bps))
            <= spec_swap_output(reserve_in, reserve_out, spec_net_input(gross_2, fee_bps)),
{
    lemma_net_input_monotone(gross_1, gross_2, fee_bps);
    crate::math::lemma_bps_share_le_whole(gross_1, fee_bps);
    lemma_swap_output_monotone_in_net(
        reserve_in,
        reserve_out,
        spec_net_input(gross_1, fee_bps),
        spec_net_input(gross_2, fee_bps),
    );
}

/// A 100% fee consumes the whole gross input: nothing reaches the curve.
pub proof fn lemma_full_fee_zero_net(gross: int)
    requires
        0 <= gross,
    ensures
        spec_net_input(gross, 10000) == 0,
{
    lemma_div_by_multiple(gross, 10000);
}

} // verus!
