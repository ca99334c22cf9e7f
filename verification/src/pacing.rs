//! Pacing: the delay before a worker's next iteration, which shapes the
//! throughput into a repeating wave of four phases (rise, peak, fall, trough).
//!
//! Rates are iterations per second, the period is in seconds, and times are
//! in nanoseconds. A rate inside a ramp is a fraction; it is kept exact as a
//! numerator over the length of a quarter period.

use vstd::arithmetic::div_mod::{
    lemma_div_is_ordered_by_denominator, lemma_div_multiples_vanish_quotient,
};
use vstd::prelude::*;

verus! {

pub const NANOS_PER_SECOND: u128 = 1_000_000_000;

pub const NANOS_PER_QUARTER_SECOND: u128 = 250_000_000;

pub const NANOS_PER_MILLI: u64 = 1_000_000;

/// The longest target delay, reached at one iteration per second.
pub const MAX_DELAY_MILLIS: u64 = 1000;

/// The wave is followed only if both rates and the period are positive;
/// otherwise the rate is constant.
pub open spec fn wave_enabled(rate_min: int, rate_max: int, rate_period: int) -> bool {
    rate_min > 0 && rate_max > 0 && rate_period > 0
}

/// Length of one quarter of the period.
pub open spec fn quarter_nanos(rate_period: int) -> int {
    rate_period * NANOS_PER_QUARTER_SECOND as int
}

/// Time since the start of the current period.
pub open spec fn position_nanos(rate_period: int, elapsed_nanos: int) -> int {
    elapsed_nanos % (rate_period * NANOS_PER_SECOND as int)
}

/// The target delay at a constant rate: a thousand milliseconds over the
/// rate, in whole milliseconds and at least one; none at rate zero.
pub open spec fn constant_delay_millis(rate: int) -> int {
    if rate <= 0 {
        0
    } else if 1000int / rate < 1 {
        1
    } else {
        1000int / rate
    }
}

/// `quarter` times the rate at `into` nanoseconds of a ramp that leads from
/// the rate `from` to the rate `to` over `quarter` nanoseconds: the rate is
/// `from + (to - from) * (into / quarter)`.
pub open spec fn ramp_rate_times_quarter(from: int, to: int, into: int, quarter: int) -> int {
    from * quarter + (to - from) * into
}

/// The target delay inside a ramp: a thousand milliseconds over the rate, in
/// whole milliseconds and at least one.
pub open spec fn ramp_delay_millis(from: int, to: int, into: int, quarter: int) -> int {
    let whole = (1000 * quarter) / ramp_rate_times_quarter(from, to, into, quarter);
    if whole < 1 {
        1
    } else {
        whole
    }
}

/// The target delay between two iterations, in milliseconds, `elapsed_nanos`
/// after the worker started.
pub open spec fn target_delay_millis(
    rate_min: int,
    rate_max: int,
    rate_period: int,
    elapsed_nanos: int,
) -> int {
    if wave_enabled(rate_min, rate_max, rate_period) {
        let quarter = quarter_nanos(rate_period);
        let t = position_nanos(rate_period, elapsed_nanos);
        if t < quarter {
            ramp_delay_millis(rate_min, rate_max, t, quarter)
        } else if t < 2 * quarter {
            constant_delay_millis(rate_max)
        } else if t < 3 * quarter {
            ramp_delay_millis(rate_max, rate_min, t - 2 * quarter, quarter)
        } else {
            constant_delay_millis(rate_min)
        }
    } else {
        constant_delay_millis(rate_max)
    }
}

/// What is left of a target delay after the operation itself took
/// `spent_nanos`: the difference, or nothing where the operation took longer.
pub open spec fn remaining_nanos(target_millis: int, spent_nanos: int) -> int {
    if target_millis * NANOS_PER_MILLI as int > spent_nanos {
        target_millis * NANOS_PER_MILLI as int - spent_nanos
    } else {
        0
    }
}

/// Inside a ramp between two positive rates the rate stays positive: its
/// numerator is a mix of the two rates and at least the quarter.
pub proof fn lemma_ramp_rate_mix(from: int, to: int, into: int, quarter: int)
    requires
        from >= 1,
        to >= 1,
        0 <= into <= quarter,
    ensures
        ramp_rate_times_quarter(from, to, into, quarter) == from * (quarter - into) + to * into,
        ramp_rate_times_quarter(from, to, into, quarter) >= quarter,
{
    assert(from * quarter + (to - from) * into == from * (quarter - into) + to * into)
        by (nonlinear_arith);
    assert(from * (quarter - into) >= quarter - into) by (nonlinear_arith)
        requires
            from >= 1,
            quarter - into >= 0,
    ;
    assert(to * into >= into) by (nonlinear_arith)
        requires
            to >= 1,
            into >= 0,
    ;
}

/// A target delay inside a ramp between two positive rates is between one
/// millisecond and a thousand.
pub proof fn lemma_ramp_delay_bounds(from: int, to: int, into: int, quarter: int)
    requires
        from >= 1,
        to >= 1,
        0 <= into <= quarter,
        quarter > 0,
    ensures
        1 <= ramp_delay_millis(from, to, into, quarter) <= MAX_DELAY_MILLIS,
{
    lemma_ramp_rate_mix(from, to, into, quarter);
    let n = ramp_rate_times_quarter(from, to, into, quarter);
    assert((1000 * quarter) / n <= 1000) by (nonlinear_arith)
        requires
            n >= quarter,
            quarter > 0,
    ;
}

/// A ramp starts at the delay of its first rate.
pub proof fn lemma_ramp_starts_at_first_rate(from: int, to: int, quarter: int)
    requires
        from >= 1,
        quarter > 0,
    ensures
        ramp_delay_millis(from, to, 0, quarter) == constant_delay_millis(from),
{
    assert((to - from) * 0 == 0) by (nonlinear_arith);
    assert(1000 * quarter == quarter * 1000 && from * quarter == quarter * from)
        by (nonlinear_arith);
    lemma_div_multiples_vanish_quotient(quarter, 1000, from);
}

/// Inside a ramp the delay lies between the delays of the ramp's two rates:
/// never below that of the higher rate, never above that of the lower.
pub proof fn lemma_ramp_delay_between_ends(from: int, to: int, into: int, quarter: int)
    requires
        from >= 1,
        to >= 1,
        0 <= into <= quarter,
        quarter > 0,
    ensures
        from <= to ==> constant_delay_millis(to) <= ramp_delay_millis(from, to, into, quarter)
            <= constant_delay_millis(from),
        to <= from ==> constant_delay_millis(from) <= ramp_delay_millis(from, to, into, quarter)
            <= constant_delay_millis(to),
{
    let low = if from <= to {
        from
    } else {
        to
    };
    let high = if from <= to {
        to
    } else {
        from
    };
    let n = ramp_rate_times_quarter(from, to, into, quarter);
    lemma_ramp_rate_mix(from, to, into, quarter);
    assert(low * quarter <= n <= high * quarter) by (nonlinear_arith)
        requires
            n == from * (quarter - into) + to * into,
            low <= from <= high,
            low <= to <= high,
            0 <= into <= quarter,
    ;
    assert(1000 * quarter == quarter * 1000 && low * quarter == quarter * low && high * quarter
        == quarter * high) by (nonlinear_arith);
    lemma_div_multiples_vanish_quotient(quarter, 1000, low);
    lemma_div_multiples_vanish_quotient(quarter, 1000, high);
    assert(1000 * quarter >= 0 && low * quarter >= 1) by (nonlinear_arith)
        requires
            quarter >= 1,
            low >= 1,
    ;
    lemma_div_is_ordered_by_denominator(1000 * quarter, low * quarter, n);
    lemma_div_is_ordered_by_denominator(1000 * quarter, n, high * quarter);
}

/// The target delay is never more than a thousand milliseconds, and it is
/// zero exactly where the pace is not limited: at a constant rate of zero.
pub proof fn lemma_target_delay_bounds(
    rate_min: int,
    rate_max: int,
    rate_period: int,
    elapsed_nanos: int,
)
    requires
        rate_min >= 0,
        rate_max >= 0,
        rate_period >= 0,
        elapsed_nanos >= 0,
    ensures
        0 <= target_delay_millis(rate_min, rate_max, rate_period, elapsed_nanos)
            <= MAX_DELAY_MILLIS,
        target_delay_millis(rate_min, rate_max, rate_period, elapsed_nanos) == 0 <==> rate_max
            == 0,
{
    lemma_constant_delay_bounds(rate_max);
    lemma_constant_delay_bounds(rate_min);
    if wave_enabled(rate_min, rate_max, rate_period) {
        let quarter = quarter_nanos(rate_period);
        let t = position_nanos(rate_period, elapsed_nanos);
        assert(rate_period * NANOS_PER_SECOND as int == 4 * quarter);
        assert(0 <= t < 4 * quarter);
        if t < quarter {
            lemma_ramp_delay_bounds(rate_min, rate_max, t, quarter);
        } else if 2 * quarter <= t < 3 * quarter {
            lemma_ramp_delay_bounds(rate_max, rate_min, t - 2 * quarter, quarter);
        }
    }
}

/// At a constant positive rate the target delay is between one millisecond
/// and a thousand; at rate zero there is none.
pub proof fn lemma_constant_delay_bounds(rate: int)
    requires
        rate >= 0,
    ensures
        0 <= constant_delay_millis(rate) <= MAX_DELAY_MILLIS,
        constant_delay_millis(rate) == 0 <==> rate == 0,
{
    if rate > 0 {
        assert(0 <= 1000int / rate <= 1000) by (nonlinear_arith)
            requires
                rate >= 1,
        ;
    }
}

/// Without a period there is no wave and nothing is divided by the period:
/// the target delay is that of the constant highest rate, at any time.
pub proof fn lemma_zero_period_is_constant(rate_min: int, rate_max: int, elapsed_nanos: int)
    ensures
        target_delay_millis(rate_min, rate_max, 0, elapsed_nanos) == constant_delay_millis(
            rate_max,
        ),
{
}

/// The wave repeats: one whole period later the target delay is the same.
pub proof fn lemma_target_delay_is_periodic(
    rate_min: int,
    rate_max: int,
    rate_period: int,
    elapsed_nanos: int,
)
    requires
        rate_period > 0,
        elapsed_nanos >= 0,
    ensures
        target_delay_millis(
            rate_min,
            rate_max,
            rate_period,
            elapsed_nanos + rate_period * NANOS_PER_SECOND as int,
        ) == target_delay_millis(rate_min, rate_max, rate_period, elapsed_nanos),
{
    let p = rate_period * NANOS_PER_SECOND as int;
    assert((elapsed_nanos + p) % p == elapsed_nanos % p) by (nonlinear_arith)
        requires
            p > 0,
    ;
}

/// Target delay at a constant rate, in milliseconds.
pub fn constant_delay(rate: u64) -> (millis: u64)
    ensures
        millis == constant_delay_millis(rate as int),
        millis <= MAX_DELAY_MILLIS,
{
    proof {
        lemma_constant_delay_bounds(rate as int);
    }
    if rate == 0 {
        0
    } else {
        let whole: u64 = 1000 / rate;
        if whole < 1 {
            1
        } else {
            whole
        }
    }
}

/// Target delay, in milliseconds, `into` nanoseconds inside a ramp from the
/// rate `from` to the rate `to` that takes `quarter` nanoseconds.
pub fn ramp_delay(from: u64, to: u64, into: u128, quarter: u128) -> (millis: u64)
    requires
        from > 0,
        to > 0,
        into < quarter,
        quarter <= u64::MAX * NANOS_PER_QUARTER_SECOND,
    ensures
        millis == ramp_delay_millis(from as int, to as int, into as int, quarter as int),
        1 <= millis <= MAX_DELAY_MILLIS,
{
    proof {
        lemma_ramp_rate_mix(from as int, to as int, into as int, quarter as int);
        lemma_ramp_delay_bounds(from as int, to as int, into as int, quarter as int);
    }
    let ghost n = ramp_rate_times_quarter(from as int, to as int, into as int, quarter as int);
    let thousand_quarters: u128 = 1000 * quarter;
    let rising = (from as u128).checked_mul(quarter - into);
    let falling = (to as u128).checked_mul(into);
    let scaled_rate: Option<u128> = match (rising, falling) {
        (Some(a), Some(b)) => a.checked_add(b),
        _ => None,
    };
    proof {
        let a = from as int * (quarter - into);
        let b = to as int * into as int;
        assert(a >= 0 && b >= 0) by (nonlinear_arith)
            requires
                a == from as int * (quarter - into),
                b == to as int * into as int,
                from >= 0,
                to >= 0,
                into >= 0,
                quarter - into >= 0,
        ;
        assert(n == a + b);
        assert(scaled_rate matches Some(v) ==> v == n);
        assert(scaled_rate is None ==> n > u128::MAX);
    }
    match scaled_rate {
        Some(rate) => {
            let whole: u128 = thousand_quarters / rate;
            if whole < 1 {
                1
            } else {
                whole as u64
            }
        },
        None => {
            proof {
                assert((1000 * quarter) / n == 0) by (nonlinear_arith)
                    requires
                        0 <= 1000 * quarter < n,
                ;
            }
            1
        },
    }
}

/// The target delay between two iterations, in milliseconds, for a worker
/// that started `elapsed_nanos` ago.
pub fn calculate_pacing(rate_min: u64, rate_max: u64, rate_period: u64, elapsed_nanos: u128) -> (millis:
    u64)
    ensures
        millis == target_delay_millis(
            rate_min as int,
            rate_max as int,
            rate_period as int,
            elapsed_nanos as int,
        ),
        millis <= MAX_DELAY_MILLIS,
        millis == 0 <==> rate_max == 0,
{
    proof {
        lemma_target_delay_bounds(
            rate_min as int,
            rate_max as int,
            rate_period as int,
            elapsed_nanos as int,
        );
    }
    if rate_min > 0 && rate_max > 0 && rate_period > 0 {
        let quarter: u128 = rate_period as u128 * NANOS_PER_QUARTER_SECOND;
        let period: u128 = rate_period as u128 * NANOS_PER_SECOND;
        let t: u128 = elapsed_nanos % period;
        assert(period == 4 * quarter);
        if t < quarter {
            ramp_delay(rate_min, rate_max, t, quarter)
        } else if t < 2 * quarter {
            constant_delay(rate_max)
        } else if t < 3 * quarter {
            ramp_delay(rate_max, rate_min, t - 2 * quarter, quarter)
        } else {
            constant_delay(rate_min)
        }
    } else {
        constant_delay(rate_max)
    }
}

/// The time to sleep before the next iteration, in nanoseconds: the target
/// delay less the `spent_nanos` that the operation itself took, and nothing
/// where the operation took longer than the target.
pub fn next_delay(
    rate_min: u64,
    rate_max: u64,
    rate_period: u64,
    elapsed_nanos: u128,
    spent_nanos: u128,
) -> (nanos: u64)
    ensures
        nanos == remaining_nanos(
            target_delay_millis(
                rate_min as int,
                rate_max as int,
                rate_period as int,
                elapsed_nanos as int,
            ),
            spent_nanos as int,
        ),
        nanos <= MAX_DELAY_MILLIS * NANOS_PER_MILLI,
        rate_max == 0 ==> nanos == 0,
{
    let target_millis: u64 = calculate_pacing(rate_min, rate_max, rate_period, elapsed_nanos);
    let target_nanos: u64 = target_millis * NANOS_PER_MILLI;
    if target_nanos as u128 > spent_nanos {
        target_nanos - spent_nanos as u64
    } else {
        0
    }
}

} // verus!
