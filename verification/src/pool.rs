//! The pool record and its lifecycle operations.
//!
//! A `PoolState` is owned by the caller's storage layer; every operation
//! takes it by explicit reference, validates lock, deadline and authority
//! gates, computes a quote through the curve, and applies the quote
//! atomically: on any failure the state is left exactly as it was.

use crate::curve::{
    deposit_quote, spec_new_reserve_out, spec_share_ceil, spec_share_floor, spec_swap_output,
    swap_quote, withdraw_quote, DepositQuote, SwapQuote, WithdrawQuote,
};
use crate::errors::AmmError;
use crate::fees::{spec_fee_amount, spec_net_input};
use crate::math::{checked_add_u64, checked_sub_u64};
use vstd::arithmetic::div_mod::{
    lemma_div_by_multiple, lemma_div_is_ordered, lemma_multiply_divide_lt,
};
use vstd::arithmetic::mul::{lemma_mul_inequality, lemma_mul_is_commutative,
    lemma_mul_strict_inequality};
use vstd::prelude::*;

verus! {

/// One pool's record: reserves, liquidity-share supply, fee, lock flag and
/// optional lock authority. Created once with everything at zero and never
/// deleted; an empty pool remains a valid, re-fundable record.
#[derive(Clone, Copy, Debug, PartialEq, Eq)]
pub struct PoolState {
    /// Opaque value distinguishing pools over the same asset pair.
    pub seed: u64,
    /// The identity permitted to lock and unlock the pool; `None` means no
    /// one may ever change the lock state.
    pub authority: Option<u64>,
    /// Identifier of the first pooled asset; immutable after creation.
    pub asset_x_id: u64,
    /// Identifier of the second pooled asset; immutable after creation.
    pub asset_y_id: u64,
    /// Custody balance of asset X held on the pool's behalf.
    pub reserve_x: u64,
    /// Custody balance of asset Y held on the pool's behalf.
    pub reserve_y: u64,
    /// Total outstanding liquidity-share units.
    pub lp_supply: u64,
    /// Swap fee in basis points; at most 10000.
    pub fee_bps: u16,
    /// While set, deposit, withdraw and swap are rejected.
    pub locked: bool,
}

impl PoolState {
    /// The pool invariant: the fee stays within 100%, and the pool is
    /// either fully empty or fully funded — each reserve is zero exactly
    /// when the share supply is.
    pub open spec fn wf(self) -> bool {
        &&& self.fee_bps <= 10000
        &&& (self.reserve_x == 0 <==> self.lp_supply == 0)
        &&& (self.reserve_y == 0 <==> self.lp_supply == 0)
    }

    /// The two states agree on everything but the balances: seed, authority,
    /// asset pair, fee and lock flag.
    pub open spec fn same_config(self, other: PoolState) -> bool {
        &&& self.seed == other.seed
        &&& self.authority == other.authority
        &&& self.asset_x_id == other.asset_x_id
        &&& self.asset_y_id == other.asset_y_id
        &&& self.fee_bps == other.fee_bps
        &&& self.locked == other.locked
    }

    /// The two states agree on everything but the lock flag.
    pub open spec fn same_except_lock(self, other: PoolState) -> bool {
        &&& self.seed == other.seed
        &&& self.authority == other.authority
        &&& self.asset_x_id == other.asset_x_id
        &&& self.asset_y_id == other.asset_y_id
        &&& self.reserve_x == other.reserve_x
        &&& self.reserve_y == other.reserve_y
        &&& self.lp_supply == other.lp_supply
        &&& self.fee_bps == other.fee_bps
    }

    /// The reserve a swap on the given side pays into.
    pub open spec fn spec_reserve_in(self, is_x: bool) -> int {
        if is_x {
            self.reserve_x as int
        } else {
            self.reserve_y as int
        }
    }

    /// The reserve a swap on the given side pays out of.
    pub open spec fn spec_reserve_out(self, is_x: bool) -> int {
        if is_x {
            self.reserve_y as int
        } else {
            self.reserve_x as int
        }
    }

    /// Creates a pool record with all balances at zero and the lock open.
    /// Fails `InvalidFee` when the configured fee exceeds 100%.
    pub fn init(
        seed: u64,
        asset_x_id: u64,
        asset_y_id: u64,
        fee_bps: u16,
        authority: Option<u64>,
    ) -> (r: Result<PoolState, AmmError>)
        ensures
            fee_bps > 10000 ==> r is Err && r->Err_0 == AmmError::InvalidFee,
            fee_bps <= 10000 ==> r is Ok && r->Ok_0 == (PoolState {
                seed,
                authority,
                asset_x_id,
                asset_y_id,
                reserve_x: 0,
                reserve_y: 0,
                lp_supply: 0,
                fee_bps,
                locked: false,
            }),
            r is Ok ==> r->Ok_0.wf(),
    {
        if fee_bps > 10000 {
            return Err(AmmError::InvalidFee);
        }
        Ok(
            PoolState {
                seed,
                authority,
                asset_x_id,
                asset_y_id,
                reserve_x: 0,
                reserve_y: 0,
                lp_supply: 0,
                fee_bps,
                locked: false,
            },
        )
    }

    /// Sets the lock flag. Only the configured authority may do so: fails
    /// `NoAuthoritySet` when the pool has none and `InvalidAuthority` when
    /// the caller is anyone else.
    pub fn lock(&mut self, caller: u64) -> (r: Result<(), AmmError>)
        ensures
            old(self).authority is None ==> r is Err && r->Err_0 == AmmError::NoAuthoritySet
                && *final(self) == *old(self),
            old(self).authority is Some && old(self).authority != Some(caller) ==> r is Err
                && r->Err_0 == AmmError::InvalidAuthority && *final(self) == *old(self),
            old(self).authority == Some(caller) ==> r is Ok && final(self).locked
                && final(self).same_except_lock(*old(self)),
            old(self).wf() ==> final(self).wf(),
    {
        match self.authority {
            None => Err(AmmError::NoAuthoritySet),
            Some(a) => {
                if a != caller {
                    Err(AmmError::InvalidAuthority)
                } else {
                    self.locked = true;
                    Ok(())
                }
            },
        }
    }

    /// Clears the lock flag, under the same authority gate as `lock`.
    pub fn unlock(&mut self, caller: u64) -> (r: Result<(), AmmError>)
        ensures
            old(self).authority is None ==> r is Err && r->Err_0 == AmmError::NoAuthoritySet
                && *final(self) == *old(self),
            old(self).authority is Some && old(self).authority != Some(caller) ==> r is Err
                && r->Err_0 == AmmError::InvalidAuthority && *final(self) == *old(self),
            old(self).authority == Some(caller) ==> r is Ok && !final(self).locked
                && final(self).same_except_lock(*old(self)),
            old(self).wf() ==> final(self).wf(),
    {
        match self.authority {
            None => Err(AmmError::NoAuthoritySet),
            Some(a) => {
                if a != caller {
                    Err(AmmError::InvalidAuthority)
                } else {
                    self.locked = false;
                    Ok(())
                }
            },
        }
    }

    /// Deposits liquidity: quotes the token amounts owed for `lp_amount`
    /// new shares, and on success moves the reserves and the share supply
    /// up together.
    ///
    /// The first deposit into an empty pool takes the caller's bounds as
    /// the deposit amounts — they define the initial price ratio — and
    /// rejects zero values, which would leave the pool half-funded. On a
    /// funded pool the amounts are the rounded-up reserve shares, checked
    /// against the caller's bounds.
    pub fn deposit(
        &mut self,
        lp_amount: u64,
        max_x: u64,
        max_y: u64,
        now: i64,
        deadline: i64,
    ) -> (r: Result<DepositQuote, AmmError>)
        requires
            old(self).wf(),
        ensures
            final(self).wf(),
            r is Err ==> *final(self) == *old(self),
            r is Ok ==> final(self).same_config(*old(self)),
            old(self).locked ==> r is Err && r->Err_0 == AmmError::PoolLocked,
            !old(self).locked && now > deadline ==> r is Err && r->Err_0 == AmmError::OfferExpired,
            !old(self).locked && now <= deadline && old(self).lp_supply == 0 ==> {
                &&& (lp_amount == 0 || max_x == 0 || max_y == 0) ==> r is Err && r->Err_0
                    == AmmError::ZeroBalance
                &&& lp_amount > 0 && max_x > 0 && max_y > 0 ==> r is Ok && r->Ok_0
                    == (DepositQuote { amount_x: max_x, amount_y: max_y })
                    && final(self).reserve_x == max_x && final(self).reserve_y == max_y
                    && final(self).lp_supply == lp_amount
            },
            !old(self).locked && now <= deadline && old(self).lp_supply > 0 ==> {
                let ax = spec_share_ceil(
                    lp_amount as int,
                    old(self).reserve_x as int,
                    old(self).lp_supply as int,
                );
                let ay = spec_share_ceil(
                    lp_amount as int,
                    old(self).reserve_y as int,
                    old(self).lp_supply as int,
                );
                &&& (ax > u64::MAX || ay > u64::MAX) ==> r is Err && r->Err_0 == AmmError::Overflow
                &&& ax <= u64::MAX && ay <= u64::MAX ==> {
                    &&& (ax > max_x || ay > max_y) ==> r is Err && r->Err_0
                        == AmmError::SlippageExceeded
                    &&& ax <= max_x && ay <= max_y ==> {
                        &&& (old(self).reserve_x + ax > u64::MAX || old(self).reserve_y + ay
                            > u64::MAX || old(self).lp_supply + lp_amount > u64::MAX) ==> r is Err
                            && r->Err_0 == AmmError::Overflow
                        &&& old(self).reserve_x + ax <= u64::MAX && old(self).reserve_y + ay
                            <= u64::MAX && old(self).lp_supply + lp_amount <= u64::MAX ==> r is Ok
                            && r->Ok_0.amount_x == ax && r->Ok_0.amount_y == ay
                            && final(self).reserve_x == old(self).reserve_x + ax
                            && final(self).reserve_y == old(self).reserve_y + ay
                            && final(self).lp_supply == old(self).lp_supply + lp_amount
                    }
                }
            },
    {
        if self.locked {
            return Err(AmmError::PoolLocked);
        }
        if now > deadline {
            return Err(AmmError::OfferExpired);
        }
        if self.lp_supply == 0 {
            if lp_amount == 0 || max_x == 0 || max_y == 0 {
                return Err(AmmError::ZeroBalance);
            }
            self.reserve_x = max_x;
            self.reserve_y = max_y;
            self.lp_supply = lp_amount;
            return Ok(DepositQuote { amount_x: max_x, amount_y: max_y });
        }
        let quote = match deposit_quote(
            self.reserve_x,
            self.reserve_y,
            self.lp_supply,
            lp_amount,
            max_x,
            max_y,
        ) {
            Ok(q) => q,
            Err(e) => { return Err(e) },
        };
        let new_reserve_x = match checked_add_u64(self.reserve_x, quote.amount_x) {
            Ok(v) => v,
            Err(e) => { return Err(e) },
        };
        let new_reserve_y = match checked_add_u64(self.reserve_y, quote.amount_y) {
            Ok(v) => v,
            Err(e) => { return Err(e) },
        };
        let new_supply = match checked_add_u64(self.lp_supply, lp_amount) {
            Ok(v) => v,
            Err(e) => { return Err(e) },
        };
        self.reserve_x = new_reserve_x;
        self.reserve_y = new_reserve_y;
        self.lp_supply = new_supply;
        Ok(quote)
    }

    /// Withdraws liquidity: quotes the token amounts owed for burning
    /// `lp_amount` shares, and on success moves the reserves and the share
    /// supply down together. Burning more shares than exist fails
    /// `Underflow`; burning every share empties the pool exactly.
    pub fn withdraw(
        &mut self,
        lp_amount: u64,
        min_x: u64,
        min_y: u64,
        now: i64,
        deadline: i64,
    ) -> (r: Result<WithdrawQuote, AmmError>)
        requires
            old(self).wf(),
        ensures
            final(self).wf(),
            r is Err ==> *final(self) == *old(self),
            r is Ok ==> final(self).same_config(*old(self)),
            old(self).locked ==> r is Err && r->Err_0 == AmmError::PoolLocked,
            !old(self).locked && now > deadline ==> r is Err && r->Err_0 == AmmError::OfferExpired,
            !old(self).locked && now <= deadline && old(self).lp_supply == 0 ==> r is Err
                && r->Err_0 == AmmError::NoLiquidityInPool,
            !old(self).locked && now <= deadline && old(self).lp_supply > 0 ==> {
                let ax = spec_share_floor(
                    lp_amount as int,
                    old(self).reserve_x as int,
                    old(self).lp_supply as int,
                );
                let ay = spec_share_floor(
                    lp_amount as int,
                    old(self).reserve_y as int,
                    old(self).lp_supply as int,
                );
                &&& (ax > u64::MAX || ay > u64::MAX) ==> r is Err && r->Err_0 == AmmError::Overflow
                &&& ax <= u64::MAX && ay <= u64::MAX ==> {
                    &&& (ax < min_x || ay < min_y) ==> r is Err && r->Err_0
                        == AmmError::LiquidityLessThanMinimum
                    &&& ax >= min_x && ay >= min_y ==> {
                        &&& lp_amount > old(self).lp_supply ==> r is Err && r->Err_0
                            == AmmError::Underflow
                        &&& lp_amount <= old(self).lp_supply ==> r is Ok && r->Ok_0.amount_x == ax
                            && r->Ok_0.amount_y == ay && final(self).reserve_x
                            == old(self).reserve_x - ax && final(self).reserve_y
                            == old(self).reserve_y - ay && final(self).lp_supply
                            == old(self).lp_supply - lp_amount
                    }
                }
            },
    {
        if self.locked {
            return Err(AmmError::PoolLocked);
        }
        if now > deadline {
            return Err(AmmError::OfferExpired);
        }
        let quote = match withdraw_quote(
            self.reserve_x,
            self.reserve_y,
            self.lp_supply,
            lp_amount,
            min_x,
            min_y,
        ) {
            Ok(q) => q,
            Err(e) => { return Err(e) },
        };
        let new_supply = match checked_sub_u64(self.lp_supply, lp_amount) {
            Ok(v) => v,
            Err(e) => { return Err(e) },
        };
        proof {
            lemma_share_floor_le_reserve(
                lp_amount as int,
                self.reserve_x as int,
                self.lp_supply as int,
            );
            lemma_share_floor_le_reserve(
                lp_amount as int,
                self.reserve_y as int,
                self.lp_supply as int,
            );
            if lp_amount < self.lp_supply {
                lemma_share_floor_lt_reserve(
                    lp_amount as int,
                    self.reserve_x as int,
                    self.lp_supply as int,
                );
                lemma_share_floor_lt_reserve(
                    lp_amount as int,
                    self.reserve_y as int,
                    self.lp_supply as int,
                );
            } else {
                lemma_share_floor_whole_supply(self.reserve_x as int, self.lp_supply as int);
                lemma_share_floor_whole_supply(self.reserve_y as int, self.lp_supply as int);
            }
        }
        self.reserve_x = self.reserve_x - quote.amount_x;
        self.reserve_y = self.reserve_y - quote.amount_y;
        self.lp_supply = new_supply;
        Ok(quote)
    }

    /// Swaps `amount_in` of one side's token against the pool: quotes the
    /// output through the constant-product curve, and on success adds the
    /// whole gross input (fee included) to the input-side reserve and takes
    /// the output from the other. The share supply never changes on a swap,
    /// and the output reserve is never emptied.
    pub fn swap(
        &mut self,
        is_x: bool,
        amount_in: u64,
        min_out: u64,
        now: i64,
        deadline: i64,
    ) -> (r: Result<SwapQuote, AmmError>)
        requires
            old(self).wf(),
        ensures
            final(self).wf(),
            r is Err ==> *final(self) == *old(self),
            r is Ok ==> final(self).same_config(*old(self)),
            r is Ok ==> final(self).lp_supply == old(self).lp_supply,
            r is Ok ==> 0 < r->Ok_0.amount_out < old(self).spec_reserve_out(is_x),
            old(self).locked ==> r is Err && r->Err_0 == AmmError::PoolLocked,
            !old(self).locked && now > deadline ==> r is Err && r->Err_0 == AmmError::OfferExpired,
            !old(self).locked && now <= deadline ==> {
                let rin = old(self).spec_reserve_in(is_x);
                let rout = old(self).spec_reserve_out(is_x);
                &&& (rin == 0 || rout == 0) ==> r is Err && r->Err_0 == AmmError::NoLiquidityInPool
                &&& rin > 0 && rout > 0 && amount_in == 0 ==> r is Err && r->Err_0
                    == AmmError::ZeroBalance
                &&& rin > 0 && rout > 0 && amount_in > 0 ==> {
                    let net = spec_net_input(amount_in as int, old(self).fee_bps as int);
                    let nro = spec_new_reserve_out(rin, rout, net);
                    let out = spec_swap_output(rin, rout, net);
                    &&& nro == 0 ==> r is Err && r->Err_0 == AmmError::InsufficientBalance
                    &&& nro > 0 && out == 0 ==> r is Err && r->Err_0 == AmmError::InvalidAmount
                    &&& nro > 0 && out > 0 && out < min_out ==> r is Err && r->Err_0
                        == AmmError::SlippageExceeded
                    &&& nro > 0 && out > 0 && out >= min_out ==> {
                        &&& rin + amount_in > u64::MAX ==> r is Err && r->Err_0
                            == AmmError::Overflow
                        &&& rin + amount_in <= u64::MAX ==> r is Ok && r->Ok_0.amount_out == out
                            && r->Ok_0.amount_in_net == net && r->Ok_0.fee_amount
                            == spec_fee_amount(amount_in as int, old(self).fee_bps as int)
                            && final(self).spec_reserve_in(is_x) == rin + amount_in
                            && final(self).spec_reserve_out(is_x) == rout - out
                    }
                }
            },
    {
        if self.locked {
            return Err(AmmError::PoolLocked);
        }
        if now > deadline {
            return Err(AmmError::OfferExpired);
        }
        let reserve_in = if is_x {
            self.reserve_x
        } else {
            self.reserve_y
        };
        let reserve_out = if is_x {
            self.reserve_y
        } else {
            self.reserve_x
        };
        let quote = match swap_quote(reserve_in, reserve_out, amount_in, self.fee_bps, min_out) {
            Ok(q) => q,
            Err(e) => { return Err(e) },
        };
        let new_reserve_in = match checked_add_u64(reserve_in, amount_in) {
            Ok(v) => v,
            Err(e) => { return Err(e) },
        };
        let new_reserve_out = reserve_out - quote.amount_out;
        if is_x {
            self.reserve_x = new_reserve_in;
            self.reserve_y = new_reserve_out;
        } else {
            self.reserve_y = new_reserve_in;
            self.reserve_x = new_reserve_out;
        }
        Ok(quote)
    }
}

/// Creates a pool record; the free-standing form of `PoolState::init`.
pub fn initialize(
    seed: u64,
    asset_x_id: u64,
    asset_y_id: u64,
    fee_bps: u16,
    authority: Option<u64>,
) -> (r: Result<PoolState, AmmError>)
    ensures
        fee_bps > 10000 ==> r is Err && r->Err_0 == AmmError::InvalidFee,
        fee_bps <= 10000 ==> r is Ok && r->Ok_0 == (PoolState {
            seed,
            authority,
            asset_x_id,
            asset_y_id,
            reserve_x: 0,
            reserve_y: 0,
            lp_supply: 0,
            fee_bps,
            locked: false,
        }),
        r is Ok ==> r->Ok_0.wf(),
{
    PoolState::init(seed, asset_x_id, asset_y_id, fee_bps, authority)
}

/// A rounded-down reserve share for at most the whole supply never exceeds
/// the reserve.
proof fn lemma_share_floor_le_reserve(lp_amount: int, reserve: int, lp_supply: int)
    requires
        0 <= lp_amount <= lp_supply,
        0 < lp_supply,
        0 <= reserve,
    ensures
        spec_share_floor(lp_amount, reserve, lp_supply) <= reserve,
{
    lemma_mul_inequality(lp_amount, lp_supply, reserve);
    lemma_mul_is_commutative(lp_supply, reserve);
    lemma_div_is_ordered(lp_amount * reserve, lp_supply * reserve, lp_supply);
    lemma_div_by_multiple(reserve, lp_supply);
}

/// A rounded-down reserve share for strictly less than the whole supply
/// leaves part of a positive reserve behind.
proof fn lemma_share_floor_lt_reserve(lp_amount: int, reserve: int, lp_supply: int)
    requires
        0 <= lp_amount < lp_supply,
        0 < reserve,
    ensures
        spec_share_floor(lp_amount, reserve, lp_supply) < reserve,
{
    lemma_mul_strict_inequality(lp_amount, lp_supply, reserve);
    lemma_mul_is_commutative(lp_supply, reserve);
    lemma_multiply_divide_lt(lp_amount * reserve, lp_supply, reserve);
}

/// Burning the whole supply pays out the whole reserve.
proof fn lemma_share_floor_whole_supply(reserve: int, lp_supply: int)
    requires
        0 < lp_supply,
        0 <= reserve,
    ensures
        spec_share_floor(lp_supply, reserve, lp_supply) == reserve,
{
    lemma_mul_is_commutative(lp_supply, reserve);
    lemma_div_by_multiple(reserve, lp_supply);
}

} // verus!
