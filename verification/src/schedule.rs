//! The vesting schedule: how much of a grant is unlockable at a given time.
//!
//! A grant vests in periods of `interval_sec` seconds, counted from its issue
//! time. Nothing vests before the issue time or before the end of the initial
//! cliff; everything has vested once `duration_sec` seconds have passed.

use crate::error::GrantError;
use vstd::arithmetic::div_mod::{lemma_div_is_ordered, lemma_fundamental_div_mod};
use vstd::arithmetic::mul::{lemma_mul_inequality, lemma_mul_is_commutative};
use vstd::prelude::*;

verus! {

/// The number of vesting periods of a schedule: its duration divided by its
/// interval, rounded up.
pub open spec fn periods_total(duration_sec: int, interval_sec: int) -> int {
    if duration_sec % interval_sec == 0 {
        duration_sec / interval_sec
    } else {
        duration_sec / interval_sec + 1
    }
}

/// The amount that vests with each full period: the total divided by the
/// number of periods, rounded down.
pub open spec fn amount_per_period(amount_total: int, duration_sec: int, interval_sec: int) -> int {
    amount_total / periods_total(duration_sec, interval_sec)
}

/// The number of full periods that have passed at `now`, at most the number
/// of periods of the schedule.
pub open spec fn periods_elapsed(
    now: int,
    issue_ts: int,
    duration_sec: int,
    interval_sec: int,
) -> int {
    let full = (now - issue_ts) / interval_sec;
    let total = periods_total(duration_sec, interval_sec);
    if full <= total {
        full
    } else {
        total
    }
}

/// The amount of a grant that is unlockable at `now`, or the reason for which
/// nothing is.
pub open spec fn vested(
    now: int,
    issue_ts: int,
    duration_sec: int,
    cliff_sec: int,
    interval_sec: int,
    amount_total: int,
) -> Result<int, GrantError> {
    if now < issue_ts {
        Err(GrantError::ScheduleNotStarted)
    } else if cliff_sec > 0 && now < issue_ts + cliff_sec {
        Err(GrantError::CliffNotReached)
    } else if now >= issue_ts + duration_sec {
        Ok(amount_total)
    } else if interval_sec == 0 {
        Err(GrantError::ArithmeticOverflow)
    } else {
        Ok(
            amount_per_period(amount_total, duration_sec, interval_sec) * periods_elapsed(
                now,
                issue_ts,
                duration_sec,
                interval_sec,
            ),
        )
    }
}

/// The mathematical reading of a computed amount.
pub open spec fn as_amount(r: Result<u64, GrantError>) -> Result<int, GrantError> {
    match r {
        Ok(amount) => Ok(amount as int),
        Err(e) => Err(e),
    }
}

/// A whole number of periods never vests more than the total.
proof fn lemma_periods_within_total(amount_total: int, periods: int, counted: int)
    requires
        0 <= amount_total,
        0 < periods,
        0 <= counted <= periods,
    ensures
        0 <= (amount_total / periods) * counted <= amount_total,
{
    let per = amount_total / periods;
    lemma_fundamental_div_mod(amount_total, periods);
    lemma_mul_is_commutative(periods, per);
    assert(0 <= per) by (nonlinear_arith)
        requires
            0 <= amount_total,
            0 < periods,
            per == amount_total / periods,
    ;
    assert(0 <= amount_total % periods) by (nonlinear_arith)
        requires
            0 < periods,
    ;
    lemma_mul_inequality(counted, periods, per);
    lemma_mul_is_commutative(counted, per);
    assert(0 <= per * counted) by (nonlinear_arith)
        requires
            0 <= per,
            0 <= counted,
    ;
}

/// An unlockable amount lies between nothing and the grant's total.
pub proof fn lemma_vested_bounded(
    now: int,
    issue_ts: int,
    duration_sec: int,
    cliff_sec: int,
    interval_sec: int,
    amount_total: int,
)
    requires
        0 <= duration_sec,
        0 <= interval_sec,
        0 <= amount_total,
    ensures
        vested(now, issue_ts, duration_sec, cliff_sec, interval_sec, amount_total) matches Ok(
            amount,
        ) ==> 0 <= amount <= amount_total,
{
    if vested(now, issue_ts, duration_sec, cliff_sec, interval_sec, amount_total) is Ok && now
        < issue_ts + duration_sec {
        let total = periods_total(duration_sec, interval_sec);
        let counted = periods_elapsed(now, issue_ts, duration_sec, interval_sec);
        lemma_periods_positive(duration_sec, interval_sec);
        assert(0 <= (now - issue_ts) / interval_sec) by (nonlinear_arith)
            requires
                0 <= now - issue_ts,
                0 < interval_sec,
        ;
        lemma_periods_within_total(amount_total, total, counted);
    }
}

/// A schedule that lasts at all has at least one period.
proof fn lemma_periods_positive(duration_sec: int, interval_sec: int)
    requires
        0 < duration_sec,
        0 < interval_sec,
    ensures
        0 < periods_total(duration_sec, interval_sec),
        duration_sec / interval_sec <= duration_sec,
        duration_sec % interval_sec != 0 ==> duration_sec / interval_sec < duration_sec,
{
    lemma_fundamental_div_mod(duration_sec, interval_sec);
    let q = duration_sec / interval_sec;
    let m = duration_sec % interval_sec;
    assert(0 <= m < interval_sec) by (nonlinear_arith)
        requires
            0 < interval_sec,
            m == duration_sec % interval_sec,
    ;
    assert(0 <= q) by (nonlinear_arith)
        requires
            0 < duration_sec,
            0 < interval_sec,
            q == duration_sec / interval_sec,
    ;
    assert(q <= interval_sec * q) by (nonlinear_arith)
        requires
            0 <= q,
            1 <= interval_sec,
    ;
    if m == 0 {
        assert(q != 0) by (nonlinear_arith)
            requires
                duration_sec == interval_sec * q + m,
                m == 0,
                0 < duration_sec,
        ;
    }
}

/// As time passes, the unlockable amount never shrinks, and a schedule that
/// has unlocked something once does not fail later.
pub proof fn lemma_vested_monotonic(
    earlier: int,
    later: int,
    issue_ts: int,
    duration_sec: int,
    cliff_sec: int,
    interval_sec: int,
    amount_total: int,
)
    requires
        earlier <= later,
        0 <= duration_sec,
        0 <= interval_sec,
        0 <= amount_total,
        vested(earlier, issue_ts, duration_sec, cliff_sec, interval_sec, amount_total) is Ok,
    ensures
        vested(later, issue_ts, duration_sec, cliff_sec, interval_sec, amount_total) is Ok,
        vested(earlier, issue_ts, duration_sec, cliff_sec, interval_sec, amount_total)->Ok_0
            <= vested(later, issue_ts, duration_sec, cliff_sec, interval_sec, amount_total)->Ok_0,
{
    lemma_vested_bounded(earlier, issue_ts, duration_sec, cliff_sec, interval_sec, amount_total);
    if later < issue_ts + duration_sec {
        let total = periods_total(duration_sec, interval_sec);
        let per = amount_per_period(amount_total, duration_sec, interval_sec);
        let before = periods_elapsed(earlier, issue_ts, duration_sec, interval_sec);
        let after = periods_elapsed(later, issue_ts, duration_sec, interval_sec);
        lemma_periods_positive(duration_sec, interval_sec);
        lemma_div_is_ordered(earlier - issue_ts, later - issue_ts, interval_sec);
        assert(before <= after);
        assert(0 <= per) by (nonlinear_arith)
            requires
                0 <= amount_total,
                0 < total,
                per == amount_total / total,
        ;
        lemma_mul_inequality(before, after, per);
        lemma_mul_is_commutative(before, per);
        lemma_mul_is_commutative(after, per);
    }
}

/// Once the duration has passed, and the cliff with it, the whole grant is
/// unlockable, whatever the division into periods leaves over.
pub proof fn lemma_vested_in_full(
    now: int,
    issue_ts: int,
    duration_sec: int,
    cliff_sec: int,
    interval_sec: int,
    amount_total: int,
)
    requires
        0 <= duration_sec,
        0 <= cliff_sec,
        issue_ts + duration_sec <= now,
        issue_ts + cliff_sec <= now,
    ensures
        vested(now, issue_ts, duration_sec, cliff_sec, interval_sec, amount_total) == Ok::<
            int,
            GrantError,
        >(amount_total),
{
}

/// Before the end of the cliff nothing is unlockable; at its end, and with a
/// positive interval, the schedule answers with an amount.
pub proof fn lemma_vested_at_cliff(
    now: int,
    issue_ts: int,
    duration_sec: int,
    cliff_sec: int,
    interval_sec: int,
    amount_total: int,
)
    requires
        0 < cliff_sec,
        0 < interval_sec,
        issue_ts <= now,
    ensures
        now < issue_ts + cliff_sec ==> vested(
            now,
            issue_ts,
            duration_sec,
            cliff_sec,
            interval_sec,
            amount_total,
        ) == Err::<int, GrantError>(GrantError::CliffNotReached),
        vested(
            issue_ts + cliff_sec,
            issue_ts,
            duration_sec,
            cliff_sec,
            interval_sec,
            amount_total,
        ) is Ok,
{
}

/// Between issue and full vesting the cap on the elapsed periods is never
/// reached: the amount is the per-period amount times the full periods passed.
pub proof fn lemma_vested_by_periods(
    now: int,
    issue_ts: int,
    duration_sec: int,
    interval_sec: int,
)
    requires
        0 < interval_sec,
        issue_ts <= now < issue_ts + duration_sec,
    ensures
        periods_elapsed(now, issue_ts, duration_sec, interval_sec) == (now - issue_ts)
            / interval_sec,
{
    lemma_div_is_ordered(now - issue_ts, duration_sec, interval_sec);
}

/// Computes the amount of a grant that is unlockable at `now`.
///
/// Fails with `ScheduleNotStarted` before the issue time and with
/// `CliffNotReached` before the end of a cliff. From the end of the duration
/// on the answer is the whole `amount_total`. Before that it is the amount per
/// period times the full periods elapsed; a zero interval has no periods to
/// count, which is `ArithmeticOverflow`.
pub fn unlockable(
    now: i64,
    issue_ts: i64,
    duration_sec: u64,
    cliff_sec: u64,
    interval_sec: u64,
    amount_total: u64,
) -> (r: Result<u64, GrantError>)
    ensures
        as_amount(r) == vested(
            now as int,
            issue_ts as int,
            duration_sec as int,
            cliff_sec as int,
            interval_sec as int,
            amount_total as int,
        ),
        r matches Ok(amount) ==> amount <= amount_total,
{
    if now < issue_ts {
        return Err(GrantError::ScheduleNotStarted);
    }
    let since_issue: u64 = (now as i128 - issue_ts as i128) as u64;
    if cliff_sec > 0 && since_issue < cliff_sec {
        return Err(GrantError::CliffNotReached);
    }
    if since_issue >= duration_sec {
        return Ok(amount_total);
    }
    if interval_sec == 0 {
        return Err(GrantError::ArithmeticOverflow);
    }
    proof {
        lemma_periods_positive(duration_sec as int, interval_sec as int);
    }
    let whole: u64 = duration_sec / interval_sec;
    let total: u64 = if duration_sec % interval_sec == 0 {
        whole
    } else {
        whole + 1
    };
    let per_period: u64 = amount_total / total;
    let full: u64 = since_issue / interval_sec;
    let counted: u64 = if full <= total {
        full
    } else {
        total
    };
    proof {
        lemma_periods_within_total(amount_total as int, total as int, counted as int);
    }
    Ok(per_period * counted)
}

} // verus!
