//! The off-chain estimate of yield accrued on an earning balance since its
//! last sync with the chain: linear in balance, APY and elapsed time.

use vstd::prelude::*;
use crate::clock::{div_toward_zero, moment_nanos, moment_wf, seconds_between, seconds_since, Moment};
use crate::compliance::{saturating_add_i64, saturating_sum};

verus! {

/// Seconds in a (non-leap) year.
pub const SECONDS_PER_YEAR: i64 = 31_536_000;

/// The APY, in basis points, when none is known.
pub const DEFAULT_APY_BPS: i32 = 500;

#[derive(Debug, Clone, Copy, PartialEq, Eq, Structural)]
pub struct YieldEstimate {
    /// Interest accrued since the last sync, in micro-units.
    pub accrued_interest: i64,
    /// The earning balance with that interest added.
    pub total_earning_balance: i64,
}

/// A user's yield balances and when they were last synced with the chain.
#[derive(Debug, Clone)]
pub struct UserYieldBalance {
    pub user_id: String,
    pub available_balance: i64,
    pub earning_balance: i64,
    pub last_yield_sync_at: Moment,
    pub updated_at: Moment,
}

/// `a * b`, clamped to the range of `i64`.
pub open spec fn saturating_product(a: i64, b: i64) -> i64 {
    if a * b > i64::MAX {
        i64::MAX
    } else if a * b < i64::MIN {
        i64::MIN
    } else {
        (a * b) as i64
    }
}

/// `a * b`, clamped to the range of `i64` (`i64::saturating_mul`).
pub fn saturating_mul_i64(a: i64, b: i64) -> (r: i64)
    ensures
        r == saturating_product(a, b),
{
    match a.checked_mul(b) {
        Some(p) => p,
        None => {
            if (a < 0) == (b < 0) {
                proof {
                    assert(a * b >= 0) by (nonlinear_arith)
                        requires
                            (a < 0) == (b < 0),
                    ;
                }
                i64::MAX
            } else {
                proof {
                    assert(a * b <= 0) by (nonlinear_arith)
                        requires
                            (a < 0) != (b < 0),
                    ;
                }
                i64::MIN
            }
        },
    }
}

/// The estimate: nothing accrues on a non-positive balance or APY;
/// otherwise balance × APY × elapsed seconds (each product clamped to
/// `i64`, the elapsed time never negative) over 10 000 × a year's seconds.
pub open spec fn estimate_spec(earning_balance: i64, apy_bps: i32, elapsed: int) -> YieldEstimate {
    if earning_balance <= 0 || apy_bps <= 0 {
        YieldEstimate { accrued_interest: 0, total_earning_balance: if earning_balance > 0 {
            earning_balance
        } else {
            0
        } }
    } else {
        let e: i64 = if elapsed > 0 {
            elapsed as i64
        } else {
            0
        };
        let accrued = saturating_product(saturating_product(earning_balance, apy_bps as i64), e) / (10_000
            * SECONDS_PER_YEAR) as i64;
        YieldEstimate {
            accrued_interest: accrued as i64,
            total_earning_balance: saturating_sum(earning_balance, accrued as i64),
        }
    }
}

/// The yield accrued on `earning_balance` at `apy_bps` between
/// `last_sync_at` and `now`.
pub fn estimate_accrued_yield(earning_balance: i64, apy_bps: i32, last_sync_at: Moment, now: Moment) -> (r:
    YieldEstimate)
    requires
        moment_wf(last_sync_at),
        moment_wf(now),
    ensures
        r == estimate_spec(earning_balance, apy_bps, seconds_between(now, last_sync_at)),
{
    if earning_balance <= 0 || apy_bps <= 0 {
        return YieldEstimate {
            accrued_interest: 0,
            total_earning_balance: if earning_balance > 0 {
                earning_balance
            } else {
                0
            },
        };
    }
    let s = seconds_since(now, last_sync_at);
    let elapsed: i64 = if s > 0 {
        s
    } else {
        0
    };
    let product = saturating_mul_i64(saturating_mul_i64(earning_balance, apy_bps as i64), elapsed);
    let accrued = product / (10_000 * SECONDS_PER_YEAR);
    YieldEstimate { accrued_interest: accrued, total_earning_balance: saturating_add_i64(earning_balance, accrued) }
}

/// The estimate for a stored balance at `now`, at `apy_bps` or the default
/// APY when none is given.
pub fn estimate_for_balance(balance: &UserYieldBalance, apy_bps: Option<i32>, now: Moment) -> (r: YieldEstimate)
    requires
        moment_wf(balance.last_yield_sync_at),
        moment_wf(now),
    ensures
        r == estimate_spec(
            balance.earning_balance,
            match apy_bps {
                Some(a) => a,
                None => DEFAULT_APY_BPS,
            },
            seconds_between(now, balance.last_yield_sync_at),
        ),
{
    let apy = match apy_bps {
        Some(a) => a,
        None => DEFAULT_APY_BPS,
    };
    estimate_accrued_yield(balance.earning_balance, apy, balance.last_yield_sync_at, now)
}

/// The estimate never accrues negative interest and never lowers the
/// balance below itself (or zero); and it grows with the elapsed time.
pub proof fn law_yield_never_negative(earning_balance: i64, apy_bps: i32, elapsed: int, later: int)
    requires
        elapsed <= later,
        later <= i64::MAX,
    ensures
        estimate_spec(earning_balance, apy_bps, elapsed).accrued_interest >= 0,
        estimate_spec(earning_balance, apy_bps, elapsed).total_earning_balance >= earning_balance,
        estimate_spec(earning_balance, apy_bps, elapsed).total_earning_balance >= 0,
        estimate_spec(earning_balance, apy_bps, elapsed).accrued_interest <= estimate_spec(
            earning_balance,
            apy_bps,
            later,
        ).accrued_interest,
{
    if earning_balance > 0 && apy_bps > 0 {
        let p = saturating_product(earning_balance, apy_bps as i64);
        assert(earning_balance * apy_bps > 0) by (nonlinear_arith)
            requires
                earning_balance > 0,
                apy_bps > 0,
        ;
        assert(p > 0);
        let e1: i64 = if elapsed > 0 {
            elapsed as i64
        } else {
            0
        };
        let e2: i64 = if later > 0 {
            later as i64
        } else {
            0
        };
        assert(e1 <= e2);
        assert(p * e1 >= 0 && p * e1 <= p * e2) by (nonlinear_arith)
            requires
                p > 0,
                0 <= e1 <= e2,
        ;
        let q1 = saturating_product(p, e1);
        let q2 = saturating_product(p, e2);
        assert(0 <= q1 <= q2);
        assert(q1 / 315_360_000_000 <= q2 / 315_360_000_000) by (nonlinear_arith)
            requires
                0 <= q1 <= q2,
        ;
        assert(q1 / 315_360_000_000 >= 0) by (nonlinear_arith)
            requires
                0 <= q1,
        ;
    }
}

proof fn lemma_saturating_product_monotone(a1: i64, a2: i64, b1: i64, b2: i64)
    requires
        0 <= a1 <= a2,
        0 <= b1 <= b2,
    ensures
        0 <= saturating_product(a1, b1) <= saturating_product(a2, b2),
{
    assert(0 <= a1 * b1 <= a2 * b2) by (nonlinear_arith)
        requires
            0 <= a1 <= a2,
            0 <= b1 <= b2,
    ;
}

proof fn lemma_div_toward_zero_monotone(x: int, y: int, d: int)
    requires
        x <= y,
        d > 0,
    ensures
        div_toward_zero(x, d) <= div_toward_zero(y, d),
{
    if x >= 0 {
        assert(x / d <= y / d) by (nonlinear_arith)
            requires
                0 <= x <= y,
                d > 0,
        ;
    } else if y >= 0 {
        assert(-((-x) / d) <= 0) by (nonlinear_arith)
            requires
                x < 0,
                d > 0,
        ;
        assert(y / d >= 0) by (nonlinear_arith)
            requires
                y >= 0,
                d > 0,
        ;
    } else {
        assert((-y) / d <= (-x) / d) by (nonlinear_arith)
            requires
                0 < -y <= -x,
                d > 0,
        ;
    }
}

/// The estimated interest never decreases as time passes, nor as the
/// (non-negative) balance or APY grow.
pub proof fn law_yield_grows(
    balance: i64,
    more_balance: i64,
    apy_bps: i32,
    more_apy_bps: i32,
    last_sync_at: Moment,
    now: Moment,
    later: Moment,
)
    requires
        0 <= balance <= more_balance,
        0 <= apy_bps <= more_apy_bps,
        moment_wf(last_sync_at),
        moment_wf(now),
        moment_wf(later),
        moment_nanos(now) <= moment_nanos(later),
    ensures
        estimate_spec(balance, apy_bps, seconds_between(now, last_sync_at)).accrued_interest <= estimate_spec(
            more_balance,
            more_apy_bps,
            seconds_between(later, last_sync_at),
        ).accrued_interest,
{
    let e1 = seconds_between(now, last_sync_at);
    let e2 = seconds_between(later, last_sync_at);
    lemma_div_toward_zero_monotone(
        moment_nanos(now) - moment_nanos(last_sync_at),
        moment_nanos(later) - moment_nanos(last_sync_at),
        1_000_000_000,
    );
    assert(e2 <= i64::MAX) by {
        lemma_div_toward_zero_monotone(
            moment_nanos(later) - moment_nanos(last_sync_at),
            17_000_000_000_000_000_000_000int,
            1_000_000_000,
        );
    }
    law_yield_never_negative(more_balance, more_apy_bps, e2, e2);
    if balance > 0 && apy_bps > 0 {
        let x1: i64 = if e1 > 0 {
            e1 as i64
        } else {
            0
        };
        let x2: i64 = if e2 > 0 {
            e2 as i64
        } else {
            0
        };
        lemma_saturating_product_monotone(balance, more_balance, apy_bps as i64, more_apy_bps as i64);
        let p1 = saturating_product(balance, apy_bps as i64);
        let p2 = saturating_product(more_balance, more_apy_bps as i64);
        lemma_saturating_product_monotone(p1, p2, x1, x2);
        let q1 = saturating_product(p1, x1);
        let q2 = saturating_product(p2, x2);
        assert(q1 / 315_360_000_000 <= q2 / 315_360_000_000) by (nonlinear_arith)
            requires
                0 <= q1 <= q2,
        ;
    }
}

} // verus!
