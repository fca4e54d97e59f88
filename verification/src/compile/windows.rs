//! What the ranges of date/time predicates hold: exactly the instants that
//! satisfy the predicate.

use vstd::prelude::*;
use crate::ast::{CmpOp, TimeUnit};
use crate::calendar::{
    date_round_trip, day_at, day_number, day_of, day_round_trip, extracted, month_length, month_of,
    new_year, new_year_grows, unit_end, unit_start, unit_truncates, year_of, year_of_unique,
    MICROS_PER_DAY, MICROS_PER_SECOND,
};
use crate::compile::bind::ScalarV;
use crate::compile::plan::{Bound, OwnedScalarFilterV};
use crate::compile::ranges::{
    compare_range, empty_range, extract_window, instants_within, trunc_between, trunc_range,
    window_range,
};
use crate::compile::row::saturating;
use crate::instant::{following, truncated_to};

verus! {

/// How two whole numbers compare.
pub open spec fn compares(op: CmpOp, a: int, b: int) -> bool {
    match op {
        CmpOp::Eq => a == b,
        CmpOp::Ne => a != b,
        CmpOp::Lt => a < b,
        CmpOp::Le => a <= b,
        CmpOp::Gt => a > b,
        CmpOp::Ge => a >= b,
    }
}

/// Whether a stored instant lies above a lower bound.
pub open spec fn above(b: Bound<ScalarV>, t: i64) -> bool {
    match b {
        Bound::Unbounded => true,
        Bound::Included(ScalarV::I64(v)) => v <= t,
        Bound::Excluded(ScalarV::I64(v)) => v < t,
        _ => false,
    }
}

/// Whether a stored instant lies below an upper bound.
pub open spec fn below(b: Bound<ScalarV>, t: i64) -> bool {
    match b {
        Bound::Unbounded => true,
        Bound::Included(ScalarV::I64(v)) => t <= v,
        Bound::Excluded(ScalarV::I64(v)) => t < v,
        _ => false,
    }
}

/// Whether a stored instant lies in a range.
pub open spec fn in_range(f: OwnedScalarFilterV, t: i64) -> bool {
    match f {
        OwnedScalarFilterV::Range { lower, upper } => above(lower, t) && below(upper, t),
        _ => false,
    }
}

/// The range of a comparison with an instant holds exactly the instants that
/// compare so.
pub proof fn compare_range_exact(op: CmpOp, at: i64, what: Seq<char>, t: i64)
    requires
        op != CmpOp::Ne,
    ensures
        compare_range(op, at, what) is Ok,
        in_range(compare_range(op, at, what)->Ok_0, t) <==> compares(op, t as int, at as int),
{
}

/// The empty range holds nothing.
pub proof fn empty_range_is_empty(t: i64)
    ensures
        !in_range(empty_range(), t),
{
}

// ── years ────────────────────────────────────────────────────────────────

proof fn year_between(lo: int, hi: int, z: int) -> (y: int)
    requires
        new_year(lo) <= z < new_year(hi),
        lo < hi,
    ensures
        new_year(y) <= z < new_year(y + 1),
    decreases hi - lo,
{
    if z < new_year(lo + 1) {
        lo
    } else {
        year_between(lo + 1, hi, z)
    }
}

/// Every day lies in its year.
pub proof fn year_holds(z: int)
    ensures
        new_year(year_of(z)) <= z < new_year(year_of(z) + 1),
{
    assert(new_year(1970) == 0);
    let y = if z >= 0 {
        new_year_grows(1970, 1971 + z);
        year_between(1970, 1971 + z, z)
    } else {
        new_year_grows(1970 + z, 1970);
        year_between(1970 + z, 1970, z)
    };
    assert(new_year(y) <= z < new_year(y + 1));
}

/// A day lies before a year exactly when it lies before its first day.
pub proof fn year_before(z: int, n: int)
    ensures
        year_of(z) < n <==> z < new_year(n),
{
    year_holds(z);
    if year_of(z) < n {
        new_year_grows(year_of(z) + 1, n);
    } else {
        new_year_grows(n, year_of(z));
    }
}

proof fn before_days(t: int, days: int)
    ensures
        t < days * MICROS_PER_DAY <==> day_at(t) < days,
{
    let m = MICROS_PER_DAY as int;
    assert(t == m * (t / m) + t % m && 0 <= t % m < m) by (nonlinear_arith)
        requires
            m == 86_400_000_000,
    ;
    let q = t / m;
    if q < days {
        assert(m * q + m <= days * m) by (nonlinear_arith)
            requires
                q + 1 <= days,
                m > 0,
        ;
    } else {
        assert(days * m <= m * q) by (nonlinear_arith)
            requires
                days <= q,
                m > 0,
        ;
    }
}

proof fn before_seconds(t: int, n: int)
    ensures
        t < n * MICROS_PER_SECOND <==> t / 1_000_000 < n,
{
}

/// A bound of whole seconds that was cut to what can be stored: the last
/// instant stands for one beyond it, and before that nothing is cut off.
proof fn cut_bound(x: int, t: i64)
    requires
        x % 1_000_000 == 0,
    ensures
        saturating(x) == i64::MAX <==> x > i64::MAX,
        saturating(x) != i64::MAX ==> (t < saturating(x) <==> t < x),
        saturating(x) == i64::MAX ==> t < x,
{
}

proof fn whole_seconds(days: int)
    ensures
        (days * MICROS_PER_DAY) % 1_000_000 == 0,
{
    assert(days * 86_400_000_000 == 1_000_000 * (days * 86_400)) by (nonlinear_arith);
}

/// Whether the value of a unit is below `n`, by the start of the window.
proof fn below_window(unit: TimeUnit, n: int, t: i64)
    requires
        unit == TimeUnit::Year || unit == TimeUnit::Epoch,
    ensures
        extracted(unit, t as int) < n <==> t < if unit == TimeUnit::Year {
            new_year(n) * MICROS_PER_DAY
        } else {
            n * MICROS_PER_SECOND
        },
{
    if unit == TimeUnit::Year {
        year_before(day_at(t as int), n);
        before_days(t as int, new_year(n));
    } else {
        before_seconds(t as int, n);
    }
}

proof fn large_year(n: int)
    requires
        n >= i64::MAX,
    ensures
        new_year(n) * MICROS_PER_DAY > i64::MAX,
{
    assert(new_year(1970) == 0);
    new_year_grows(1970, n);
    assert(new_year(n) * 86_400_000_000 >= new_year(n)) by (nonlinear_arith)
        requires
            new_year(n) >= 0,
    ;
}

/// Whether an instant lies before a bound, where the last instant that can be
/// stored stands for one beyond it.
pub open spec fn before(bound: i64, t: i64) -> bool {
    bound == i64::MAX || t < bound
}

/// The window in which a year or the epoch has a value: the instants before it
/// have a lower value, and those before its end have at most that value.
proof fn window_edges(unit: TimeUnit, n: i64, what: Seq<char>, t: i64)
    requires
        unit == TimeUnit::Year || unit == TimeUnit::Epoch,
    ensures
        extract_window(unit, n, what) is Ok,
        before(extract_window(unit, n, what)->Ok_0.0, t) <==> extracted(unit, t as int) < n,
        before(extract_window(unit, n, what)->Ok_0.1, t) <==> extracted(unit, t as int) <= n,
{
    below_window(unit, n as int, t);
    below_window(unit, n + 1, t);
    if unit == TimeUnit::Year {
        whole_seconds(new_year(n as int));
        whole_seconds(new_year(n + 1));
        cut_bound(new_year(n as int) * MICROS_PER_DAY, t);
        cut_bound(new_year(n + 1) * MICROS_PER_DAY, t);
        if n == i64::MAX {
            large_year(n as int);
            large_year(n + 1);
        }
    } else {
        cut_bound(n * MICROS_PER_SECOND, t);
        cut_bound((n + 1) * MICROS_PER_SECOND, t);
    }
}

/// The range of an `EXTRACT` of a year or the epoch holds exactly the instants
/// whose field compares so: a year above what can be stored is one that no
/// instant reaches, and one below it is one that every instant is past.
pub proof fn extract_range_exact(unit: TimeUnit, op: CmpOp, n: i64, what: Seq<char>, t: i64)
    requires
        unit == TimeUnit::Year || unit == TimeUnit::Epoch,
        op != CmpOp::Ne,
    ensures
        ({
            let w = extract_window(unit, n, what)->Ok_0;
            &&& extract_window(unit, n, what) is Ok
            &&& window_range(op, w.0, w.1, what) is Ok
            &&& in_range(window_range(op, w.0, w.1, what)->Ok_0, t) <==> compares(
                op,
                extracted(unit, t as int),
                n as int,
            )
        }),
{
    window_edges(unit, n, what, t);
}

/// The range of an `EXTRACT ... BETWEEN` holds exactly the instants whose field
/// lies between.
pub proof fn extract_between_exact(unit: TimeUnit, low: i64, high: i64, what: Seq<char>, t: i64)
    requires
        unit == TimeUnit::Year || unit == TimeUnit::Epoch,
    ensures
        in_range(
            instants_within(
                extract_window(unit, low, what)->Ok_0.0,
                extract_window(unit, high, what)->Ok_0.1,
            ),
            t,
        ) <==> low <= extracted(unit, t as int) <= high,
{
    window_edges(unit, low, what, t);
    window_edges(unit, high, what, t);
}

// ── units ────────────────────────────────────────────────────────────────

proof fn day_span(t: int, first: int, days: int)
    requires
        first <= day_at(t) < first + days,
    ensures
        first * MICROS_PER_DAY <= t < (first + days) * MICROS_PER_DAY,
{
    before_days(t, first);
    before_days(t, first + days);
}

proof fn day_inside(t: int, first: int, days: int)
    requires
        first * MICROS_PER_DAY <= t < (first + days) * MICROS_PER_DAY,
    ensures
        first <= day_at(t) < first + days,
{
    before_days(t, first);
    before_days(t, first + days);
}

/// The first day of the month that a day lies in.
pub open spec fn month_first(z: int) -> int {
    z - (day_of(z) - 1)
}

proof fn month_holds(z: int)
    ensures
        month_first(z) == day_number(year_of(z), month_of(z), 1),
        month_first(z) <= z < month_first(z) + month_length(year_of(z), month_of(z)),
{
    year_holds(z);
    day_round_trip(z);
}

proof fn month_same(z: int, w: int)
    requires
        month_first(z) <= w < month_first(z) + month_length(year_of(z), month_of(z)),
    ensures
        year_of(w) == year_of(z),
        month_of(w) == month_of(z),
        month_first(w) == month_first(z),
{
    year_holds(z);
    day_round_trip(z);
    let d = w - month_first(z) + 1;
    date_round_trip(year_of(z), month_of(z), d);
    assert(day_number(year_of(z), month_of(z), d) == w);
}

proof fn part_holds(t: int, m: int)
    requires
        m > 0,
    ensures
        t - t % m <= t < t - t % m + m,
{
    assert(0 <= t % m < m) by (nonlinear_arith)
        requires
            m > 0,
    ;
}

proof fn part_same(t: int, u: int, m: int)
    requires
        m > 0,
        t - t % m <= u < t - t % m + m,
    ensures
        u - u % m == t - t % m,
{
    let q = t / m;
    assert(t == m * q + t % m) by (nonlinear_arith)
        requires
            m > 0,
            q == t / m,
    ;
    let r = u - m * q;
    assert(0 <= r < m);
    assert(u / m == q && u % m == r) by (nonlinear_arith)
        requires
            u == m * q + r,
            0 <= r < m,
    ;
}

/// An instant lies in its unit.
pub proof fn unit_holds(unit: TimeUnit, t: int)
    requires
        unit_truncates(unit),
    ensures
        unit_start(unit, t) <= t < unit_end(unit, t),
{
    let z = day_at(t);
    match unit {
        TimeUnit::Year => {
            year_holds(z);
            day_span(t, new_year(year_of(z)), new_year(year_of(z) + 1) - new_year(year_of(z)));
        },
        TimeUnit::Month => {
            month_holds(z);
            day_span(t, month_first(z), month_length(year_of(z), month_of(z)));
        },
        TimeUnit::Day => {
            day_span(t, z, 1);
        },
        TimeUnit::Hour => {
            part_holds(t, 3_600_000_000);
        },
        TimeUnit::Minute => {
            part_holds(t, 60_000_000);
        },
        _ => {
            part_holds(t, 1_000_000);
        },
    }
}

/// Every instant of a unit has the same unit.
pub proof fn unit_same(unit: TimeUnit, t: int, u: int)
    requires
        unit_truncates(unit),
        unit_start(unit, t) <= u < unit_end(unit, t),
    ensures
        unit_start(unit, u) == unit_start(unit, t),
        unit_end(unit, u) == unit_end(unit, t),
{
    let z = day_at(t);
    let w = day_at(u);
    match unit {
        TimeUnit::Year => {
            day_inside(u, new_year(year_of(z)), new_year(year_of(z) + 1) - new_year(year_of(z)));
            year_of_unique(w, year_of(z));
        },
        TimeUnit::Month => {
            day_inside(u, month_first(z), month_length(year_of(z), month_of(z)));
            month_same(z, w);
        },
        TimeUnit::Day => {
            day_inside(u, z, 1);
        },
        TimeUnit::Hour => {
            part_same(t, u, 3_600_000_000);
        },
        TimeUnit::Minute => {
            part_same(t, u, 60_000_000);
        },
        _ => {
            part_same(t, u, 1_000_000);
        },
    }
}

/// Truncating twice truncates once.
pub proof fn truncation_is_idempotent(unit: TimeUnit, t: int)
    requires
        unit_truncates(unit),
    ensures
        unit_start(unit, unit_start(unit, t)) == unit_start(unit, t),
{
    unit_holds(unit, t);
    unit_same(unit, t, unit_start(unit, t));
}

/// Truncating keeps the order.
pub proof fn truncation_is_monotone(unit: TimeUnit, t: int, u: int)
    requires
        unit_truncates(unit),
        t <= u,
    ensures
        unit_start(unit, t) <= unit_start(unit, u),
{
    unit_holds(unit, t);
    unit_holds(unit, u);
    if unit_start(unit, u) < unit_start(unit, t) {
        unit_same(unit, u, t);
    }
}

/// An instant is cut to at most a start exactly when it lies before the end of
/// that unit.
proof fn cut_at_most(unit: TimeUnit, at: int, t: int)
    requires
        unit_truncates(unit),
    ensures
        unit_start(unit, t) <= unit_start(unit, at) <==> t < unit_end(unit, at),
{
    let start = unit_start(unit, at);
    unit_holds(unit, at);
    unit_holds(unit, t);
    unit_same(unit, at, start);
    if t < unit_end(unit, at) {
        if t >= start {
            unit_same(unit, at, t);
        }
    } else if unit_start(unit, t) <= start {
        unit_same(unit, t, start);
    }
}

/// An instant is cut to below a start exactly when it lies before that start.
proof fn cut_below(unit: TimeUnit, at: int, t: int)
    requires
        unit_truncates(unit),
    ensures
        unit_start(unit, t) < unit_start(unit, at) <==> t < unit_start(unit, at),
{
    let start = unit_start(unit, at);
    unit_holds(unit, at);
    unit_holds(unit, t);
    unit_same(unit, at, start);
    if unit_start(unit, t) < start && t >= start {
        unit_same(unit, t, start);
    }
}

/// A unit begins and ends at a whole second.
proof fn unit_is_whole(unit: TimeUnit, t: int)
    requires
        unit_truncates(unit),
    ensures
        unit_start(unit, t) != i64::MAX,
        unit_end(unit, t) != i64::MAX,
{
    let z = day_at(t);
    match unit {
        TimeUnit::Year => {
            whole_seconds(new_year(year_of(z)));
            whole_seconds(new_year(year_of(z) + 1));
        },
        TimeUnit::Month => {
            whole_seconds(month_first(z));
            whole_seconds(month_first(z) + month_length(year_of(z), month_of(z)));
        },
        TimeUnit::Day => {
            whole_seconds(z);
            whole_seconds(z + 1);
        },
        _ => {},
    }
}

/// The range of a `date_trunc` holds exactly the instants whose truncation
/// compares so.
pub proof fn trunc_range_exact(unit: TimeUnit, op: CmpOp, at: i64, what: Seq<char>, t: i64)
    requires
        op != CmpOp::Ne,
        trunc_range(unit, op, at, what) is Ok,
    ensures
        in_range(trunc_range(unit, op, at, what)->Ok_0, t) <==> compares(
            op,
            unit_start(unit, t as int),
            at as int,
        ),
{
    let start = unit_start(unit, at as int);
    let end = unit_end(unit, at as int);
    unit_holds(unit, at as int);
    unit_same(unit, at as int, start);
    cut_at_most(unit, at as int, t as int);
    cut_below(unit, at as int, t as int);
    unit_is_whole(unit, at as int);
    assert(truncated_to(unit, at) == Ok::<i64, crate::error::SqlErrorV>(start as i64));
    assert(following(unit, start as i64) == Ok::<i64, crate::error::SqlErrorV>(end as i64));
    if start != at {
        let s = unit_start(unit, t as int);
        truncation_is_idempotent(unit, t as int);
        if start < s < end {
            unit_same(unit, at as int, s);
        }
    }
}

/// The range of a `date_trunc ... BETWEEN` holds exactly the instants whose
/// truncation lies between.
pub proof fn trunc_between_exact(unit: TimeUnit, low: i64, high: i64, t: i64)
    requires
        trunc_between(unit, low, high) is Ok,
    ensures
        in_range(trunc_between(unit, low, high)->Ok_0, t) <==> low <= unit_start(
            unit,
            t as int,
        ) <= high,
{
    let a = unit_start(unit, low as int);
    let b = unit_start(unit, high as int);
    let s = unit_start(unit, t as int);
    unit_holds(unit, low as int);
    unit_holds(unit, high as int);
    unit_same(unit, low as int, a);
    unit_same(unit, high as int, b);
    cut_at_most(unit, low as int, t as int);
    cut_below(unit, low as int, t as int);
    cut_at_most(unit, high as int, t as int);
    truncation_is_idempotent(unit, t as int);
    unit_holds(unit, t as int);
    if a < s < unit_end(unit, low as int) {
        unit_same(unit, low as int, s);
    }
    if b < s < unit_end(unit, high as int) {
        unit_same(unit, high as int, s);
    }
}

} // verus!
