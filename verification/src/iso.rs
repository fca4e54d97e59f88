//! An instant that is written is read back.

use vstd::prelude::*;
use crate::ast::TimeUnit;
use crate::calendar::{
    day_at, day_of, day_round_trip, extracted, month_length_range, month_of, within_day, year_of,
    MICROS_PER_DAY,
};
use crate::compile::windows::year_holds;
use crate::error::SqlErrorV;
use crate::instant::{clock_text, date_text, fraction_text, padded, timestamp_text};
use crate::scan::{all_digits, digits_value, is_digit, trimmed};
use crate::text::{decimal_nat, digit, white_space};
use crate::timestamp::{
    clock_part, date_part, field, instant_of, instant_part, mark, run, ten, zone_part,
};

verus! {

/// A digit is what it writes.
proof fn digit_reads(d: nat)
    requires
        d < 10,
    ensures
        is_digit(digit(d)),
        digit(d) as int - '0' as int == d,
{
}

proof fn decimal_reads(n: nat, width: nat)
    requires
        n < ten(width),
        width > 0,
    ensures
        all_digits(decimal_nat(n)),
        digits_value(decimal_nat(n)) == n,
        1 <= decimal_nat(n).len() <= width,
    decreases n,
{
    if n < 10 {
        digit_reads(n);
        let s = seq![digit(n)];
        assert(s.drop_last() =~= Seq::<char>::empty());
        assert(digits_value(s.drop_last()) == 0);
    } else {
        assert(ten(1) == 10 * ten(0));
        assert(width > 1) by {
            if width == 1 {
                assert(ten(width) == 10 * ten(0));
            }
        }
        decimal_reads(n / 10, (width - 1) as nat);
        digit_reads(n % 10);
        let s = decimal_nat(n);
        assert(s.drop_last() =~= decimal_nat(n / 10));
        assert(s.last() == digit(n % 10));
    }
}

proof fn zeros_add_nothing(zeros: Seq<char>, s: Seq<char>)
    requires
        forall|i: int| 0 <= i < zeros.len() ==> #[trigger] zeros[i] == '0',
    ensures
        digits_value(zeros + s) == digits_value(s),
    decreases zeros.len() + s.len(),
{
    let all = zeros + s;
    if s.len() > 0 {
        assert(all.drop_last() =~= zeros + s.drop_last());
        zeros_add_nothing(zeros, s.drop_last());
    } else if zeros.len() > 0 {
        assert(all =~= zeros);
        assert(all.drop_last() =~= zeros.drop_last() + s);
        zeros_add_nothing(zeros.drop_last(), s);
        assert(digits_value(s) == 0);
        assert(all.last() == '0');
    }
}

/// A padded number is as wide as it is said to be, and writes itself.
proof fn padded_reads(n: nat, width: nat)
    requires
        n < ten(width),
        width > 0,
    ensures
        padded(n, width).len() == width,
        all_digits(padded(n, width)),
        digits_value(padded(n, width)) == n,
{
    decimal_reads(n, width);
    let digits = decimal_nat(n);
    if digits.len() < width {
        let zeros = Seq::new((width - digits.len()) as nat, |i: int| '0');
        zeros_add_nothing(zeros, digits);
        assert forall|i: int| 0 <= i < padded(n, width).len() implies is_digit(
            #[trigger] padded(n, width)[i],
        ) by {
            if i >= zeros.len() {
                assert(padded(n, width)[i] == digits[i - zeros.len()]);
            }
        }
    }
}

/// A padded number that stands in a text is a field of it.
proof fn field_reads(s: Seq<char>, i: int, n: nat, width: nat)
    requires
        n < ten(width),
        width > 0,
        0 <= i,
        i + width <= s.len(),
        s.subrange(i, i + width) == padded(n, width),
    ensures
        field(s, i, width as int) == Some(n as int),
{
    padded_reads(n, width);
}

proof fn tens()
    ensures
        ten(0) == 1,
        ten(2) == 100,
        ten(4) == 10_000,
        ten(6) == 1_000_000,
{
    reveal_with_fuel(ten, 7);
}

/// The date of an instant, at the front of a text.
#[verifier::rlimit(40)]
proof fn date_reads(t: int, s: Seq<char>)
    requires
        0 <= year_of(day_at(t)) <= 9_999,
        s.len() >= 10,
        s.subrange(0, 10) == date_text(t),
    ensures
        date_part(s) == Some(day_at(t)),
        date_text(t).len() == 10,
        is_digit(s[0]),
        is_digit(s[9]),
{
    let z = day_at(t);
    let y = year_of(z);
    let m = month_of(z);
    let d = day_of(z);
    year_holds(z);
    day_round_trip(z);
    month_length_range(y, m);
    tens();
    padded_reads(y as nat, 4);
    padded_reads(m as nat, 2);
    padded_reads(d as nat, 2);
    reveal_strlit("-");
    let a = padded(y as nat, 4);
    let b = padded(m as nat, 2);
    let c = padded(d as nat, 2);
    let text = date_text(t);
    assert(text == a + "-"@ + b + "-"@ + c);
    assert forall|k: int| 0 <= k < 10 implies s[k] == #[trigger] text[k] by {
        assert(s.subrange(0, 10)[k] == s[k]);
    }
    assert(s.subrange(0, 4) =~= a) by {
        assert forall|k: int| 0 <= k < 4 implies s[k] == #[trigger] a[k] by {
            assert(text[k] == a[k]);
        }
    }
    assert(s.subrange(5, 7) =~= b) by {
        assert forall|k: int| 0 <= k < 2 implies s[5 + k] == #[trigger] b[k] by {
            assert(text[5 + k] == b[k]);
        }
    }
    assert(s.subrange(8, 10) =~= c) by {
        assert forall|k: int| 0 <= k < 2 implies s[8 + k] == #[trigger] c[k] by {
            assert(text[8 + k] == c[k]);
        }
    }
    assert(text[4] == '-');
    assert(text[7] == '-');
    assert(s[4] == text[4]);
    assert(s[7] == text[7]);
    field_reads(s, 0, y as nat, 4);
    field_reads(s, 5, m as nat, 2);
    field_reads(s, 8, d as nat, 2);
    assert(s[0] == text[0] && text[0] == a[0]);
    assert(s[9] == text[9] && text[9] == c[1]);
}

/// The hour, the minute and the second of an instant, in a text.
#[verifier::rlimit(40)]
proof fn clock_reads(t: int, s: Seq<char>)
    requires
        s.len() >= 19,
        s.subrange(11, 19) == clock_text(t),
    ensures
        field(s, 11, 2) == Some(extracted(TimeUnit::Hour, t)),
        field(s, 14, 2) == Some(extracted(TimeUnit::Minute, t)),
        field(s, 17, 2) == Some(extracted(TimeUnit::Second, t)),
        mark(s, 13, ':'),
        mark(s, 16, ':'),
{
    let h = extracted(TimeUnit::Hour, t);
    let m = extracted(TimeUnit::Minute, t);
    let sec = extracted(TimeUnit::Second, t);
    assert(0 <= within_day(t) < MICROS_PER_DAY);
    assert(0 <= h < 24 && 0 <= m < 60 && 0 <= sec < 60);
    tens();
    padded_reads(h as nat, 2);
    padded_reads(m as nat, 2);
    padded_reads(sec as nat, 2);
    reveal_strlit(":");
    let a = padded(h as nat, 2);
    let b = padded(m as nat, 2);
    let c = padded(sec as nat, 2);
    let text = clock_text(t);
    assert(text == a + ":"@ + b + ":"@ + c);
    assert forall|k: int| 0 <= k < 8 implies s[11 + k] == #[trigger] text[k] by {
        assert(s.subrange(11, 19)[k] == s[11 + k]);
    }
    assert(s.subrange(11, 13) =~= a) by {
        assert forall|k: int| 0 <= k < 2 implies s[11 + k] == #[trigger] a[k] by {
            assert(text[k] == a[k]);
        }
    }
    assert(s.subrange(14, 16) =~= b) by {
        assert forall|k: int| 0 <= k < 2 implies s[14 + k] == #[trigger] b[k] by {
            assert(text[3 + k] == b[k]);
        }
    }
    assert(s.subrange(17, 19) =~= c) by {
        assert forall|k: int| 0 <= k < 2 implies s[17 + k] == #[trigger] c[k] by {
            assert(text[6 + k] == c[k]);
        }
    }
    assert(text[2] == ':' && text[5] == ':');
    field_reads(s, 11, h as nat, 2);
    field_reads(s, 14, m as nat, 2);
    field_reads(s, 17, sec as nat, 2);
}

proof fn six_digits(s: Seq<char>, i: int)
    requires
        0 <= i,
        i + 6 < s.len(),
        forall|k: int| i <= k < i + 6 ==> is_digit(#[trigger] s[k]),
        !is_digit(s[i + 6]),
    ensures
        run(s, i) == 6,
{
    assert(run(s, i + 6) == 0);
    assert(run(s, i + 5) == 1);
    assert(run(s, i + 4) == 2);
    assert(run(s, i + 3) == 3);
    assert(run(s, i + 2) == 4);
    assert(run(s, i + 1) == 5);
}

proof fn seconds_are_minutes(w: int)
    requires
        0 <= w,
    ensures
        w / 60_000_000 == (w / 1_000_000) / 60,
        w / 3_600_000_000 == (w / 60_000_000) / 60,
{
    vstd::arithmetic::div_mod::lemma_div_denominator(w, 1_000_000, 60);
    vstd::arithmetic::div_mod::lemma_div_denominator(w, 60_000_000, 60);
}

proof fn day_is_its_fields(w: int)
    requires
        0 <= w,
    ensures
        w / 3_600_000_000 * 3_600_000_000 + (w / 60_000_000) % 60 * 60_000_000 + (w / 1_000_000) % 60
            * 1_000_000 + w % 1_000_000 == w,
{
    seconds_are_minutes(w);
    let s = w / 1_000_000;
    let m = w / 60_000_000;
    assert(w == s * 1_000_000 + w % 1_000_000);
    assert(s == m * 60 + s % 60);
    assert(m == m / 60 * 60 + m % 60);
}

/// An instant is its day, hour, minute and second, and what is left of the second.
pub proof fn instant_is_its_fields(t: int)
    ensures
        day_at(t) * MICROS_PER_DAY + extracted(TimeUnit::Hour, t) * 3_600_000_000 + extracted(
            TimeUnit::Minute,
            t,
        ) * 60_000_000 + extracted(TimeUnit::Second, t) * 1_000_000 + t % 1_000_000 == t,
{
    let w = within_day(t);
    let z = day_at(t);
    assert(t == z * 86_400_000_000 + w && 0 <= w);
    assert(t % 1_000_000 == w % 1_000_000) by {
        vstd::arithmetic::div_mod::lemma_mod_multiples_vanish(z * 86_400, w, 1_000_000);
    }
    day_is_its_fields(w);
}

proof fn not_trimmed(s: Seq<char>)
    requires
        s.len() > 0,
        !white_space(s[0]),
        !white_space(s.last()),
    ensures
        trimmed(s) == s,
{
}

/// The time of day of an instant, behind its date, reads to the end.
#[verifier::rlimit(40)]
proof fn rest_reads(t: int, s: Seq<char>)
    requires
        s == timestamp_text(t),
        date_text(t).len() == 10,
    ensures
        s.len() >= 20,
        s[10] == 'T',
        s.last() == 'Z',
        s.subrange(0, 10) == date_text(t),
        clock_part(s, 11) is Some,
        (clock_part(s, 11)->0).0 == extracted(TimeUnit::Hour, t) * 3_600_000_000 + extracted(
            TimeUnit::Minute,
            t,
        ) * 60_000_000 + extracted(TimeUnit::Second, t) * 1_000_000 + t % 1_000_000,
        zone_part(s, (clock_part(s, 11)->0).1) == Some(0int),
{
    let date = date_text(t);
    let clock = clock_text(t);
    let fraction = fraction_text(t);
    let f = t % 1_000_000;
    let h = extracted(TimeUnit::Hour, t);
    let m = extracted(TimeUnit::Minute, t);
    let sec = extracted(TimeUnit::Second, t);
    assert(0 <= within_day(t) < MICROS_PER_DAY);
    assert(0 <= h < 24 && 0 <= m < 60 && 0 <= sec < 60);
    tens();
    reveal_strlit("T");
    reveal_strlit("Z");
    reveal_strlit(".");
    reveal_strlit("");
    reveal_strlit(":");
    padded_reads(h as nat, 2);
    padded_reads(m as nat, 2);
    padded_reads(sec as nat, 2);
    assert(clock.len() == 8);
    assert(s == date + "T"@ + clock + fraction + "Z"@);
    assert(s.subrange(0, 10) =~= date);
    assert(s.subrange(11, 19) =~= clock);
    assert(s[10] == 'T');
    clock_reads(t, s);
    if f == 0 {
        assert(fraction.len() == 0);
        assert(s.len() == 20);
        assert(s[19] == 'Z');
    } else {
        padded_reads(f as nat, 6);
        let p = padded(f as nat, 6);
        assert(fraction == "."@ + p);
        assert(fraction.len() == 7);
        assert(s.len() == 27);
        assert(s[19] == fraction[0] && fraction[0] == '.');
        assert(s.subrange(20, 26) =~= p) by {
            assert forall|k: int| 0 <= k < 6 implies s[20 + k] == #[trigger] p[k] by {
                assert(s[20 + k] == fraction[1 + k]);
            }
        }
        assert forall|k: int| 20 <= k < 26 implies is_digit(#[trigger] s[k]) by {
            assert(s[k] == s.subrange(20, 26)[k - 20]);
        }
        assert(s[26] == 'Z');
        six_digits(s, 20);
        let n = run(s, 20);
        assert(s.subrange(20, 20 + n) =~= p);
        assert(ten((6 - n) as nat) == 1);
        assert(digits_value(s.subrange(20, 20 + n)) * ten((6 - n) as nat) == f) by (nonlinear_arith)
            requires
                digits_value(s.subrange(20, 20 + n)) == f,
                ten((6 - n) as nat) == 1,
        ;
    }
}

/// The time of day of an instant, behind its date, reads up to what stands
/// behind it.
#[verifier::rlimit(60)]
proof fn clock_reads_up_to(t: int, s: Seq<char>, tail: Seq<char>)
    requires
        s == date_text(t) + "T"@ + clock_text(t) + fraction_text(t) + tail,
        date_text(t).len() == 10,
        tail.len() > 0,
        !is_digit(tail[0]),
        tail[0] != '.',
    ensures
        s.len() >= 19 + tail.len(),
        s[10] == 'T',
        s.subrange(0, 10) == date_text(t),
        s.subrange(s.len() - tail.len(), s.len() as int) == tail,
        clock_part(s, 11) is Some,
        (clock_part(s, 11)->0).0 == extracted(TimeUnit::Hour, t) * 3_600_000_000 + extracted(
            TimeUnit::Minute,
            t,
        ) * 60_000_000 + extracted(TimeUnit::Second, t) * 1_000_000 + t % 1_000_000,
        (clock_part(s, 11)->0).1 == s.len() - tail.len(),
{
    let date = date_text(t);
    let clock = clock_text(t);
    let fraction = fraction_text(t);
    let f = t % 1_000_000;
    let h = extracted(TimeUnit::Hour, t);
    let m = extracted(TimeUnit::Minute, t);
    let sec = extracted(TimeUnit::Second, t);
    assert(0 <= within_day(t) < MICROS_PER_DAY);
    assert(0 <= h < 24 && 0 <= m < 60 && 0 <= sec < 60);
    tens();
    reveal_strlit("T");
    reveal_strlit(".");
    reveal_strlit("");
    reveal_strlit(":");
    padded_reads(h as nat, 2);
    padded_reads(m as nat, 2);
    padded_reads(sec as nat, 2);
    assert(clock.len() == 8);
    assert(s.subrange(0, 10) =~= date);
    assert(s.subrange(11, 19) =~= clock);
    assert(s[10] == 'T');
    assert(s.subrange(s.len() - tail.len(), s.len() as int) =~= tail);
    assert(s[s.len() - tail.len()] == tail[0]);
    clock_reads(t, s);
    if f == 0 {
        assert(fraction.len() == 0);
        assert(s[19] == tail[0]);
    } else {
        padded_reads(f as nat, 6);
        let p = padded(f as nat, 6);
        assert(fraction == "."@ + p);
        assert(fraction.len() == 7);
        assert(s[19] == fraction[0] && fraction[0] == '.');
        assert(s.subrange(20, 26) =~= p) by {
            assert forall|k: int| 0 <= k < 6 implies s[20 + k] == #[trigger] p[k] by {
                assert(s[20 + k] == fraction[1 + k]);
            }
        }
        assert forall|k: int| 20 <= k < 26 implies is_digit(#[trigger] s[k]) by {
            assert(s[k] == s.subrange(20, 26)[k - 20]);
        }
        assert(s[26] == tail[0]);
        six_digits(s, 20);
        let n = run(s, 20);
        assert(s.subrange(20, 20 + n) =~= p);
        assert(ten((6 - n) as nat) == 1);
        assert(digits_value(s.subrange(20, 20 + n)) * ten((6 - n) as nat) == f) by (nonlinear_arith)
            requires
                digits_value(s.subrange(20, 20 + n)) == f,
                ten((6 - n) as nat) == 1,
        ;
    }
}

/// A zone that is east or west of UTC by some hours and minutes.
pub open spec fn zone_text(east: bool, h: nat, m: nat) -> Seq<char> {
    seq![
        if east {
            '+'
        } else {
            '-'
        },
    ] + padded(h, 2) + ":"@ + padded(m, 2)
}

proof fn zone_reads(s: Seq<char>, i: int, east: bool, h: nat, m: nat)
    requires
        0 <= i,
        i + 6 == s.len(),
        s.subrange(i, i + 6) == zone_text(east, h, m),
        h < 24,
        m < 60,
    ensures
        zone_part(s, i) == Some(
            if east {
                h as int * 3_600_000_000 + m as int * 60_000_000
            } else {
                -(h * 3_600_000_000 + m * 60_000_000)
            },
        ),
{
    let z = zone_text(east, h, m);
    tens();
    reveal_strlit(":");
    padded_reads(h, 2);
    padded_reads(m, 2);
    assert(z.len() == 6);
    assert forall|k: int| 0 <= k < 6 implies s[i + k] == #[trigger] z[k] by {
        assert(s.subrange(i, i + 6)[k] == s[i + k]);
    }
    assert(s[i + 0] == z[0]);
    assert(s[i + 3] == z[3] && z[3] == ':');
    let a = padded(h, 2);
    let b = padded(m, 2);
    assert(s.subrange(i + 1, i + 3) =~= a) by {
        assert(s[i + 1] == z[1] && z[1] == a[0]);
        assert(s[i + 2] == z[2] && z[2] == a[1]);
    }
    assert(s.subrange(i + 4, i + 6) =~= b) by {
        assert(s[i + 4] == z[4] && z[4] == b[0]);
        assert(s[i + 5] == z[5] && z[5] == b[1]);
    }
    field_reads(s, i + 1, h, 2);
    field_reads(s, i + 4, m, 2);
}

/// A time that is written with a zone is earlier by as much as the zone is east
/// of UTC, and later by as much as it is west.
#[verifier::rlimit(40)]
pub proof fn zone_is_taken_off(t: i64, east: bool, h: nat, m: nat)
    requires
        0 <= year_of(day_at(t as int)) <= 9_999,
        h < 24,
        m < 60,
        i64::MIN <= t - (h * 3_600_000_000 + m * 60_000_000),
        t + (h * 3_600_000_000 + m * 60_000_000) <= i64::MAX,
    ensures
        ({
            let text = date_text(t as int) + "T"@ + clock_text(t as int) + fraction_text(t as int)
                + zone_text(east, h, m);
            let away = h * 3_600_000_000 + m * 60_000_000;
            instant_of(text) == Ok::<i64, SqlErrorV>(
                if east {
                    (t - away) as i64
                } else {
                    (t + away) as i64
                },
            )
        }),
{
    let zone = zone_text(east, h, m);
    let s = date_text(t as int) + "T"@ + clock_text(t as int) + fraction_text(t as int) + zone;
    tens();
    padded_reads(h, 2);
    padded_reads(m, 2);
    reveal_strlit(":");
    assert(zone.len() == 6);
    assert(zone[0] == '+' || zone[0] == '-');
    date_length(t as int);
    clock_reads_up_to(t as int, s, zone);
    date_reads(t as int, s);
    instant_is_its_fields(t as int);
    let i = s.len() - 6;
    zone_reads(s, i, east, h, m);
    assert(zone.last() == padded(m, 2)[1]);
    assert(s.last() == zone.last());
    assert(is_digit(s.last()));
    not_trimmed(s);
}

proof fn parts_read(t: int, s: Seq<char>, time: int, end: int)
    requires
        date_part(s) == Some(day_at(t)),
        s.len() > 10,
        s[10] == 'T',
        clock_part(s, 11) == Some((time, end)),
        zone_part(s, end) == Some(0int),
        day_at(t) * MICROS_PER_DAY + time == t,
    ensures
        instant_part(s) == Some(t),
{
}

/// An instant of the years 0 to 9999 that is written in ISO-8601 is read back.
pub proof fn timestamp_reads_back(t: i64)
    requires
        0 <= year_of(day_at(t as int)) <= 9_999,
    ensures
        instant_of(timestamp_text(t as int)) == Ok::<i64, SqlErrorV>(t),
{
    let s = timestamp_text(t as int);
    let (time, end) = clock_part(s, 11)->0;
    date_length(t as int);
    rest_reads(t as int, s);
    date_reads(t as int, s);
    instant_is_its_fields(t as int);
    parts_read(t as int, s, time, end);
    whole_reads(t, s);
}

proof fn whole_reads(t: i64, s: Seq<char>)
    requires
        s.len() > 0,
        is_digit(s[0]),
        s.last() == 'Z',
        instant_part(s) == Some(t as int),
    ensures
        instant_of(s) == Ok::<i64, SqlErrorV>(t),
{
    not_trimmed(s);
}

proof fn date_length(t: int)
    requires
        0 <= year_of(day_at(t)) <= 9_999,
    ensures
        date_text(t).len() == 10,
{
    let z = day_at(t);
    year_holds(z);
    day_round_trip(z);
    month_length_range(year_of(z), month_of(z));
    tens();
    padded_reads(year_of(z) as nat, 4);
    padded_reads(month_of(z) as nat, 2);
    padded_reads(day_of(z) as nat, 2);
    reveal_strlit("-");
}

/// A date that is written is read as its midnight.
pub proof fn date_reads_back(t: i64)
    requires
        0 <= year_of(day_at(t as int)) <= 9_999,
    ensures
        instant_of(date_text(t as int)) == Ok::<i64, SqlErrorV>(
            (day_at(t as int) * MICROS_PER_DAY) as i64,
        ),
{
    let s = date_text(t as int);
    date_length(t as int);
    assert(s.subrange(0, 10) =~= s);
    date_reads(t as int, s);
    not_trimmed(s);
}

} // verus!
