use amm_2023::curve::{deposit_quote, swap_quote, withdraw_quote, DepositQuote, SwapQuote};
use amm_2023::errors::AmmError;
use amm_2023::fees::apply_fee;

#[test]
fn swap_scenario_even_pool_thirty_bps() {
    // fee = floor(1000 * 30 / 10000) = 3, net = 997,
    // new_reserve_out = floor(1_000_000 / 1997) = 500, out = 1000 - 500 = 500
    let r = swap_quote(1000, 1000, 1000, 30, 0);
    assert_eq!(
        r,
        Ok(SwapQuote { amount_in_net: 997, amount_out: 500, fee_amount: 3 })
    );
}

#[test]
fn swap_slippage_bound_enforced() {
    assert_eq!(
        swap_quote(1000, 1000, 1000, 30, 501),
        Err(AmmError::SlippageExceeded)
    );
    assert!(swap_quote(1000, 1000, 1000, 30, 500).is_ok());
}

#[test]
fn swap_zero_input_fails() {
    assert_eq!(swap_quote(1000, 1000, 0, 30, 0), Err(AmmError::ZeroBalance));
    assert_eq!(swap_quote(1000, 1000, 0, 0, 0), Err(AmmError::ZeroBalance));
}

#[test]
fn swap_empty_pool_fails() {
    assert_eq!(swap_quote(0, 0, 10, 30, 0), Err(AmmError::NoLiquidityInPool));
    assert_eq!(swap_quote(0, 1000, 10, 30, 0), Err(AmmError::NoLiquidityInPool));
    assert_eq!(swap_quote(1000, 0, 10, 30, 0), Err(AmmError::NoLiquidityInPool));
}

#[test]
fn swap_full_fee_leaves_no_net_input() {
    // fee_bps = 10000 consumes the whole gross input: no free swap.
    assert_eq!(swap_quote(1000, 1000, 50, 10000, 0), Err(AmmError::InvalidAmount));
    assert_eq!(
        swap_quote(1000, 1000, u64::MAX, 10000, 0),
        Err(AmmError::InvalidAmount)
    );
}

#[test]
fn swap_never_drains_output_reserve() {
    // A huge input asymptotes towards the whole reserve but never reaches it.
    let r = swap_quote(1000, 1000, 500_000, 0, 0).unwrap();
    assert!(r.amount_out < 1000);
    assert_eq!(r.amount_out, 999);
    // An input so large the curve would round the output reserve to zero is refused.
    assert_eq!(swap_quote(1, 1, 2, 0, 0), Err(AmmError::InsufficientBalance));
    assert_eq!(
        swap_quote(1000, 1000, u64::MAX, 0, 0),
        Err(AmmError::InsufficientBalance)
    );
}

#[test]
fn swap_output_monotone_in_input() {
    let fees: [u16; 3] = [0, 30, 9999];
    for fee in fees {
        let mut last: u64 = 0;
        let grosses: [u64; 6] = [1, 2, 10, 100, 500, 900];
        for g in grosses {
            match swap_quote(1000, 1000, g, fee, 0) {
                Ok(q) => {
                    assert!(q.amount_out >= last);
                    last = q.amount_out;
                }
                Err(e) => assert_eq!(e, AmmError::InvalidAmount),
            }
        }
    }
}

#[test]
fn deposit_scenario_uneven_pool() {
    // amount_x = ceil(100 * 1000 / 1000) = 100, amount_y = ceil(100 * 2000 / 1000) = 200
    let r = deposit_quote(1000, 2000, 1000, 100, 1000, 2000);
    assert_eq!(r, Ok(DepositQuote { amount_x: 100, amount_y: 200 }));
    assert_eq!(
        deposit_quote(1000, 2000, 1000, 100, 99, 2000),
        Err(AmmError::SlippageExceeded)
    );
}

#[test]
fn deposit_empty_pool_takes_caller_bounds() {
    let r = deposit_quote(0, 0, 0, 55, 123, 456);
    assert_eq!(r, Ok(DepositQuote { amount_x: 123, amount_y: 456 }));
}

#[test]
fn deposit_rounds_up() {
    // ceil(1 * 1000 / 3) = 334
    let r = deposit_quote(1000, 1000, 3, 1, u64::MAX, u64::MAX).unwrap();
    assert_eq!(r.amount_x, 334);
    assert_eq!(r.amount_y, 334);
}

#[test]
fn deposit_overflow_detected() {
    assert_eq!(
        deposit_quote(u64::MAX, 1, 1, 2, u64::MAX, u64::MAX),
        Err(AmmError::Overflow)
    );
}

#[test]
fn withdraw_scenario_uneven_pool() {
    // amount_x = floor(100 * 1000 / 1000) = 100, amount_y = floor(100 * 2000 / 1000) = 200
    let r = withdraw_quote(1000, 2000, 1000, 100, 0, 0).unwrap();
    assert_eq!(r.amount_x, 100);
    assert_eq!(r.amount_y, 200);
    assert_eq!(
        withdraw_quote(1000, 2000, 1000, 100, 0, 201),
        Err(AmmError::LiquidityLessThanMinimum)
    );
}

#[test]
fn withdraw_empty_pool_fails() {
    assert_eq!(
        withdraw_quote(0, 0, 0, 10, 0, 0),
        Err(AmmError::NoLiquidityInPool)
    );
}

#[test]
fn withdraw_rounds_down() {
    // floor(1 * 1000 / 3) = 333
    let r = withdraw_quote(1000, 1000, 3, 1, 0, 0).unwrap();
    assert_eq!(r.amount_x, 333);
    assert_eq!(r.amount_y, 333);
}

#[test]
fn deposit_quote_never_below_withdraw_quote() {
    // Same shares against the same pool: paying in costs at least what
    // cashing out returns, for every rounding remainder.
    let supplies: [u64; 4] = [3, 7, 1000, 999];
    for s in supplies {
        let lps: [u64; 4] = [1, 2, s / 2 + 1, s];
        for lp in lps {
            let d = deposit_quote(1000, 2000, s, lp, u64::MAX, u64::MAX).unwrap();
            let w = withdraw_quote(1000, 2000, s, lp, 0, 0).unwrap();
            assert!(d.amount_x >= w.amount_x);
            assert!(d.amount_y >= w.amount_y);
        }
    }
}

#[test]
fn fee_splits_exactly() {
    assert_eq!(apply_fee(1000, 30), (3, 997));
    assert_eq!(apply_fee(999, 30), (2, 997));
    assert_eq!(apply_fee(0, 30), (0, 0));
    assert_eq!(apply_fee(12345, 0), (0, 12345));
    assert_eq!(apply_fee(7, 10000), (7, 0));
    assert_eq!(apply_fee(u64::MAX, 10000), (u64::MAX, 0));
    // 10001 * 9999 = 99_999_999; divided by 10000 that is 9999 remainder 9999,
    // so one basis point under a full fee still leaves a net input of 2.
    assert_eq!(apply_fee(10001, 9999), (9999, 2));
}
