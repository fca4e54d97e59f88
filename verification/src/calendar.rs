//! The calendar: days, months and years of the proleptic Gregorian calendar,
//! over stored UTC microseconds.

use vstd::prelude::*;
use crate::ast::TimeUnit;

verus! {

pub const MICROS_PER_SECOND: i64 = 1_000_000;

pub const MICROS_PER_DAY: i64 = 86_400_000_000;

// ── division ─────────────────────────────────────────────────────────────

/// Division that rounds down.
pub fn floor_div(a: i64, b: i64) -> (r: i64)
    requires
        b > 0,
    ensures
        r == a as int / b as int,
{
    if a >= 0 {
        let q: u64 = (a as u64) / (b as u64);
        proof {
            let x = a as int;
            let y = b as int;
            assert(0 <= x / y <= x) by (nonlinear_arith)
                requires
                    x >= 0,
                    y > 0,
            ;
        }
        q as i64
    } else {
        let up: i64 = -1 - a;
        let q: u64 = (up as u64) / (b as u64);
        proof {
            let x = up as int;
            let y = b as int;
            assert(0 <= x / y <= x) by (nonlinear_arith)
                requires
                    x >= 0,
                    y > 0,
            ;
            assert((-1 - x) / y == -1 - x / y) by (nonlinear_arith)
                requires
                    x >= 0,
                    y > 0,
            ;
        }
        -1 - (q as i64)
    }
}

/// The remainder of [`floor_div`], never negative.
pub fn floor_mod(a: i64, b: i64) -> (r: i64)
    requires
        b > 0,
    ensures
        r == a as int % b as int,
        0 <= r < b,
{
    let q = floor_div(a, b);
    proof {
        let x = a as int;
        let y = b as int;
        assert(x == y * (x / y) + x % y && 0 <= x % y < y) by (nonlinear_arith)
            requires
                y > 0,
        ;
        assert(q * y == y * q) by (nonlinear_arith);
        if a < 0 {
            assert(y * (x / y) <= 0) by (nonlinear_arith)
                requires
                    x / y <= 0,
                    y > 0,
            ;
            assert(x / y <= 0) by (nonlinear_arith)
                requires
                    x < 0,
                    y > 0,
            ;
        }
    }
    let down: i128 = (q as i128) * (b as i128);
    ((a as i128) - down) as i64
}

// ── years ────────────────────────────────────────────────────────────────

/// How many leap days lie between the year 1 and 1 January of `y`.
pub open spec fn leaps(y: int) -> int {
    (y - 1) / 4 - (y - 1) / 100 + (y - 1) / 400
}

pub open spec fn is_leap(y: int) -> bool {
    y % 4 == 0 && (y % 100 != 0 || y % 400 == 0)
}

/// The number of 1 January of `y`, counted in days from 1 January 1970.
pub open spec fn new_year(y: int) -> int {
    365 * (y - 1970) + leaps(y) - 477
}

/// A year has 365 days, a leap year one more.
pub proof fn year_length(y: int)
    ensures
        new_year(y + 1) == new_year(y) + if is_leap(y) {
            366int
        } else {
            365int
        },
{
    assert(y / 4 == (y - 1) / 4 + if y % 4 == 0 {
        1int
    } else {
        0int
    });
    assert(y / 100 == (y - 1) / 100 + if y % 100 == 0 {
        1int
    } else {
        0int
    });
    assert(y / 400 == (y - 1) / 400 + if y % 400 == 0 {
        1int
    } else {
        0int
    });
}

/// A later year begins later, by 365 days for each year at least.
pub proof fn new_year_grows(a: int, b: int)
    requires
        a <= b,
    ensures
        new_year(a) + 365 * (b - a) <= new_year(b),
    decreases b - a,
{
    if a < b {
        new_year_grows(a, b - 1);
        year_length(b - 1);
    }
}

/// The year that day `z` lies in.
pub open spec fn year_of(z: int) -> int {
    choose|y: int| new_year(y) <= z < #[trigger] new_year(y + 1)
}

/// A day lies in one year and no other.
pub proof fn year_of_unique(z: int, y: int)
    requires
        new_year(y) <= z < new_year(y + 1),
    ensures
        year_of(z) == y,
{
    let other = year_of(z);
    assert(new_year(other) <= z < new_year(other + 1));
    if other < y {
        new_year_grows(other + 1, y);
    } else if other > y {
        new_year_grows(y + 1, other);
    }
}

fn leaps_of(y: i64) -> (r: i64)
    requires
        -1_000_000 <= y <= 1_000_000,
    ensures
        r == leaps(y as int),
{
    floor_div(y - 1, 4) - floor_div(y - 1, 100) + floor_div(y - 1, 400)
}

fn new_year_of(y: i64) -> (r: i64)
    requires
        -1_000_000 <= y <= 1_000_000,
    ensures
        r == new_year(y as int),
{
    365 * (y - 1970) + leaps_of(y) - 477
}

fn leap(y: i64) -> (r: bool)
    requires
        -1_000_000 <= y <= 1_000_000,
    ensures
        r == is_leap(y as int),
{
    floor_mod(y, 4) == 0 && (floor_mod(y, 100) != 0 || floor_mod(y, 400) == 0)
}

fn year_at(z: i64) -> (r: i64)
    requires
        -110_000_000 <= z <= 110_000_000,
    ensures
        r == year_of(z as int),
        new_year(r as int) <= z < new_year(r + 1),
        -400_000 <= r <= 400_000,
{
    let mut y: i64 = 1970 + floor_div(z, 366);
    while new_year_of(y) > z
        invariant
            -110_000_000 <= z <= 110_000_000,
            -400_000 <= y <= 400_000,
        decreases y + 400_000,
    {
        y = y - 1;
    }
    while new_year_of(y + 1) <= z
        invariant
            -110_000_000 <= z <= 110_000_000,
            -400_000 <= y <= 400_000,
            new_year(y as int) <= z,
        decreases 400_000 - y,
    {
        y = y + 1;
    }
    proof {
        year_of_unique(z as int, y as int);
    }
    y
}

// ── months ───────────────────────────────────────────────────────────────

/// The days of a year before month `m`.
pub open spec fn days_before(m: int, leap: bool) -> int {
    let extra: int = if leap && m > 2 {
        1
    } else {
        0
    };
    extra + if m <= 1 {
        0int
    } else if m == 2 {
        31
    } else if m == 3 {
        59
    } else if m == 4 {
        90
    } else if m == 5 {
        120
    } else if m == 6 {
        151
    } else if m == 7 {
        181
    } else if m == 8 {
        212
    } else if m == 9 {
        243
    } else if m == 10 {
        273
    } else if m == 11 {
        304
    } else if m == 12 {
        334
    } else {
        365
    }
}

fn before(m: i64, is_leap_year: bool) -> (r: i64)
    requires
        1 <= m <= 13,
    ensures
        r == days_before(m as int, is_leap_year),
        0 <= r <= 366,
{
    let extra: i64 = if is_leap_year && m > 2 {
        1
    } else {
        0
    };
    extra + if m <= 1 {
        0
    } else if m == 2 {
        31
    } else if m == 3 {
        59
    } else if m == 4 {
        90
    } else if m == 5 {
        120
    } else if m == 6 {
        151
    } else if m == 7 {
        181
    } else if m == 8 {
        212
    } else if m == 9 {
        243
    } else if m == 10 {
        273
    } else if m == 11 {
        304
    } else if m == 12 {
        334
    } else {
        365
    }
}

/// How many days month `m` of year `y` has.
pub open spec fn month_length(y: int, m: int) -> int {
    days_before(m + 1, is_leap(y)) - days_before(m, is_leap(y))
}

/// A month has between 28 and 31 days.
pub proof fn month_length_range(y: int, m: int)
    requires
        1 <= m <= 12,
    ensures
        28 <= month_length(y, m) <= 31,
{
}

/// The number of a date, counted in days from 1 January 1970.
pub open spec fn day_number(y: int, m: int, d: int) -> int {
    new_year(y) + days_before(m, is_leap(y)) + d - 1
}

/// The month, 1 to 12, that day `day` (from zero) of a year lies in.
pub open spec fn month_in(day: int, leap: bool) -> int {
    if day < days_before(2, leap) {
        1
    } else if day < days_before(3, leap) {
        2
    } else if day < days_before(4, leap) {
        3
    } else if day < days_before(5, leap) {
        4
    } else if day < days_before(6, leap) {
        5
    } else if day < days_before(7, leap) {
        6
    } else if day < days_before(8, leap) {
        7
    } else if day < days_before(9, leap) {
        8
    } else if day < days_before(10, leap) {
        9
    } else if day < days_before(11, leap) {
        10
    } else if day < days_before(12, leap) {
        11
    } else {
        12
    }
}

pub open spec fn month_of(z: int) -> int {
    month_in(z - new_year(year_of(z)), is_leap(year_of(z)))
}

/// The day of its month, from one.
pub open spec fn day_of(z: int) -> int {
    z - new_year(year_of(z)) - days_before(month_of(z), is_leap(year_of(z))) + 1
}

/// A date, given back by its day number.
pub proof fn date_round_trip(y: int, m: int, d: int)
    requires
        1 <= m <= 12,
        1 <= d <= month_length(y, m),
    ensures
        year_of(day_number(y, m, d)) == y,
        month_of(day_number(y, m, d)) == m,
        day_of(day_number(y, m, d)) == d,
{
    year_length(y);
    year_of_unique(day_number(y, m, d), y);
}

/// A day number, given back by its date.
pub proof fn day_round_trip(z: int)
    requires
        new_year(year_of(z)) <= z < new_year(year_of(z) + 1),
    ensures
        1 <= month_of(z) <= 12,
        1 <= day_of(z) <= month_length(year_of(z), month_of(z)),
        day_number(year_of(z), month_of(z), day_of(z)) == z,
{
    year_length(year_of(z));
}

/// A calendar date.
#[derive(Clone, Copy, Debug, PartialEq, Eq, Structural)]
pub struct Date {
    pub year: i64,
    pub month: i64,
    pub day: i64,
}

/// The date of day `z`.
pub fn date_of(z: i64) -> (r: Date)
    requires
        -110_000_000 <= z <= 110_000_000,
    ensures
        r.year == year_of(z as int),
        r.month == month_of(z as int),
        r.day == day_of(z as int),
        day_number(r.year as int, r.month as int, r.day as int) == z,
        1 <= r.month <= 12,
        1 <= r.day <= 31,
        -400_000 <= r.year <= 400_000,
{
    let year = year_at(z);
    let is_leap_year = leap(year);
    let day = z - new_year_of(year);
    proof {
        year_length(year as int);
    }
    let mut month: i64 = 1;
    while month < 12 && day >= before(month + 1, is_leap_year)
        invariant
            1 <= month <= 12,
            0 <= day <= 365,
            days_before(month as int, is_leap_year) <= day,
        decreases 12 - month,
    {
        month = month + 1;
    }
    assert(month == month_in(day as int, is_leap_year));
    Date { year, month, day: day - before(month, is_leap_year) + 1 }
}

/// The day number of a date.
pub fn days_from_civil(year: i64, month: i64, day: i64) -> (r: i64)
    requires
        -400_001 <= year <= 400_001,
        1 <= month <= 12,
        1 <= day <= 31,
    ensures
        r == day_number(year as int, month as int, day as int),
        -147_000_000 <= r <= 147_000_000,
{
    new_year_of(year) + before(month, leap(year)) + day - 1
}

// ── instants ─────────────────────────────────────────────────────────────

/// The day that instant `t` lies in.
pub open spec fn day_at(t: int) -> int {
    t / MICROS_PER_DAY as int
}

/// The microseconds of `t` since midnight.
pub open spec fn within_day(t: int) -> int {
    t % MICROS_PER_DAY as int
}

/// One field of an instant. The day of the week counts from Sunday, and the
/// epoch is in whole seconds, rounded down.
pub open spec fn extracted(unit: TimeUnit, t: int) -> int {
    match unit {
        TimeUnit::Year => year_of(day_at(t)),
        TimeUnit::Month => month_of(day_at(t)),
        TimeUnit::Day => day_of(day_at(t)),
        TimeUnit::Dow => (day_at(t) + 4) % 7,
        TimeUnit::Hour => within_day(t) / 3_600_000_000,
        TimeUnit::Minute => (within_day(t) / 60_000_000) % 60,
        TimeUnit::Second => (within_day(t) / 1_000_000) % 60,
        TimeUnit::Epoch => t / 1_000_000,
    }
}

fn day_index(t: i64) -> (r: i64)
    ensures
        r == day_at(t as int),
        -110_000_000 <= r <= 110_000_000,
{
    floor_div(t, MICROS_PER_DAY)
}

fn day_rest(t: i64) -> (r: i64)
    ensures
        r == within_day(t as int),
        0 <= r < MICROS_PER_DAY,
{
    floor_mod(t, MICROS_PER_DAY)
}

/// `EXTRACT(unit FROM t)`.
pub fn extract(unit: TimeUnit, t: i64) -> (r: i64)
    ensures
        r == extracted(unit, t as int),
{
    match unit {
        TimeUnit::Year => date_of(day_index(t)).year,
        TimeUnit::Month => date_of(day_index(t)).month,
        TimeUnit::Day => date_of(day_index(t)).day,
        TimeUnit::Dow => floor_mod(day_index(t) + 4, 7),
        TimeUnit::Hour => floor_div(day_rest(t), 3_600_000_000),
        TimeUnit::Minute => floor_mod(floor_div(day_rest(t), 60_000_000), 60),
        TimeUnit::Second => floor_mod(floor_div(day_rest(t), 1_000_000), 60),
        TimeUnit::Epoch => floor_div(t, 1_000_000),
    }
}

/// Whether `date_trunc` has the unit.
pub open spec fn unit_truncates(unit: TimeUnit) -> bool {
    unit != TimeUnit::Dow && unit != TimeUnit::Epoch
}

/// The start of the unit that instant `t` lies in.
pub open spec fn unit_start(unit: TimeUnit, t: int) -> int {
    match unit {
        TimeUnit::Year => new_year(year_of(day_at(t))) * MICROS_PER_DAY,
        TimeUnit::Month => (day_at(t) - (day_of(day_at(t)) - 1)) * MICROS_PER_DAY,
        TimeUnit::Day => day_at(t) * MICROS_PER_DAY,
        TimeUnit::Hour => t - t % 3_600_000_000,
        TimeUnit::Minute => t - t % 60_000_000,
        TimeUnit::Second => t - t % 1_000_000,
        _ => t,
    }
}

/// The start of the unit after the one that `t` lies in.
pub open spec fn unit_end(unit: TimeUnit, t: int) -> int {
    match unit {
        TimeUnit::Year => new_year(year_of(day_at(t)) + 1) * MICROS_PER_DAY,
        TimeUnit::Month => (day_at(t) - (day_of(day_at(t)) - 1) + month_length(
            year_of(day_at(t)),
            month_of(day_at(t)),
        )) * MICROS_PER_DAY,
        TimeUnit::Day => (day_at(t) + 1) * MICROS_PER_DAY,
        TimeUnit::Hour => t - t % 3_600_000_000 + 3_600_000_000,
        TimeUnit::Minute => t - t % 60_000_000 + 60_000_000,
        TimeUnit::Second => t - t % 1_000_000 + 1_000_000,
        _ => t,
    }
}

pub open spec fn fits(t: int) -> bool {
    i64::MIN <= t <= i64::MAX
}

fn scaled(days: i64) -> (r: Option<i64>)
    requires
        -200_000_000 <= days <= 200_000_000,
    ensures
        match r {
            Some(t) => t == days * MICROS_PER_DAY,
            None => !fits(days * MICROS_PER_DAY),
        },
{
    let t: i128 = (days as i128) * 86_400_000_000;
    if t < -9223372036854775808 || t > 9223372036854775807 {
        None
    } else {
        Some(t as i64)
    }
}

fn moved(t: i64, by: i64) -> (r: Option<i64>)
    ensures
        match r {
            Some(s) => s == t + by,
            None => !fits(t + by),
        },
{
    t.checked_add(by)
}

/// The start of the unit `t` lies in, where it can be stored.
pub fn start_of(unit: TimeUnit, t: i64) -> (r: Option<i64>)
    requires
        unit_truncates(unit),
    ensures
        match r {
            Some(s) => s == unit_start(unit, t as int),
            None => !fits(unit_start(unit, t as int)),
        },
{
    match unit {
        TimeUnit::Year => scaled(new_year_of(date_of(day_index(t)).year)),
        TimeUnit::Month => {
            let z = day_index(t);
            scaled(z - (date_of(z).day - 1))
        },
        TimeUnit::Day => scaled(day_index(t)),
        TimeUnit::Hour => moved(t, 0 - floor_mod(t, 3_600_000_000)),
        TimeUnit::Minute => moved(t, 0 - floor_mod(t, 60_000_000)),
        _ => moved(t, 0 - floor_mod(t, 1_000_000)),
    }
}

/// The start of the unit after the one `t` lies in, where it can be stored.
pub fn end_of(unit: TimeUnit, t: i64) -> (r: Option<i64>)
    requires
        unit_truncates(unit),
    ensures
        match r {
            Some(s) => s == unit_end(unit, t as int),
            None => !fits(unit_end(unit, t as int)),
        },
{
    match unit {
        TimeUnit::Year => scaled(new_year_of(date_of(day_index(t)).year + 1)),
        TimeUnit::Month => {
            let z = day_index(t);
            let date = date_of(z);
            let is_leap_year = leap(date.year);
            let length = before(date.month + 1, is_leap_year) - before(date.month, is_leap_year);
            proof {
                month_length_range(date.year as int, date.month as int);
            }
            scaled(z - (date.day - 1) + length)
        },
        TimeUnit::Day => scaled(day_index(t) + 1),
        TimeUnit::Hour => moved(t, 3_600_000_000 - floor_mod(t, 3_600_000_000)),
        TimeUnit::Minute => moved(t, 60_000_000 - floor_mod(t, 60_000_000)),
        _ => moved(t, 1_000_000 - floor_mod(t, 1_000_000)),
    }
}

} // verus!
