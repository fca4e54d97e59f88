//! Reading date/time literals and intervals.

use vstd::prelude::*;
use crate::calendar::{day_number, days_from_civil, floor_mod, month_length, MICROS_PER_DAY};
use crate::error::{gives, SqlError, SqlErrorV};
use crate::scan::{
    all_digits, digits_value, i64_text, is_digit, parse_i64, pieces, split, trim, trimmed,
};
use crate::text::{ascii_lower, cat3, chars_of, lower, same, texts};

verus! {

// ── fields ───────────────────────────────────────────────────────────────

/// The number that the `n` digits at `i` write.
pub open spec fn field(s: Seq<char>, i: int, n: int) -> Option<int> {
    if i + n <= s.len() && all_digits(s.subrange(i, i + n)) {
        Some(digits_value(s.subrange(i, i + n)) as int)
    } else {
        None
    }
}

/// Whether `c` stands at `i`.
pub open spec fn mark(s: Seq<char>, i: int, c: char) -> bool {
    0 <= i < s.len() && s[i] == c
}

/// The power of ten with `n` zeros.
pub open spec fn ten(n: nat) -> nat
    decreases n,
{
    if n == 0 {
        1
    } else {
        10 * ten((n - 1) as nat)
    }
}

/// How many digits stand in `s` from `i` on.
pub open spec fn run(s: Seq<char>, i: int) -> int
    decreases s.len() - i,
{
    if 0 <= i < s.len() && is_digit(s[i]) {
        1 + run(s, i + 1)
    } else {
        0
    }
}

proof fn ten_values()
    ensures
        ten(0) == 1,
        ten(1) == 10,
        ten(2) == 100,
        ten(3) == 1000,
        ten(4) == 10_000,
        ten(5) == 100_000,
        ten(6) == 1_000_000,
{
    reveal_with_fuel(ten, 8);
}

proof fn fraction_scale(n: nat, scale: int)
    requires
        1 <= n <= 6,
        n == 1 ==> scale == 100_000,
        n == 2 ==> scale == 10_000,
        n == 3 ==> scale == 1_000,
        n == 4 ==> scale == 100,
        n == 5 ==> scale == 10,
        n == 6 ==> scale == 1,
    ensures
        ten(n) * scale == 1_000_000,
        scale == ten((6 - n) as nat),
{
    ten_values();
    if n == 1 {
    } else if n == 2 {
    } else if n == 3 {
    } else if n == 4 {
    } else if n == 5 {
    } else {
    }
}

fn number_at(s: &Vec<char>, i: usize, n: usize) -> (r: Option<i64>)
    requires
        i <= s@.len(),
        1 <= n <= 6,
    ensures
        match r {
            Some(v) => field(s@, i as int, n as int) == Some(v as int) && 0 <= v < ten(n as nat),
            None => field(s@, i as int, n as int) is None,
        },
{
    if s.len() - i < n {
        return None;
    }
    let ghost part = s@.subrange(i as int, i + n);
    let mut value: i64 = 0;
    let mut k: usize = 0;
    assert(part.take(0) =~= Seq::<char>::empty());
    while k < n
        invariant
            1 <= n <= 6,
            k <= n,
            i + n <= s@.len(),
            s@.len() <= usize::MAX,
            part == s@.subrange(i as int, i + n),
            0 <= value < ten(k as nat),
            ten(k as nat) <= 1_000_000,
            value == digits_value(part.take(k as int)),
            forall|j: int| 0 <= j < k ==> is_digit(#[trigger] part[j]),
        decreases n - k,
    {
        let c = s[i + k];
        assert(c == part[k as int]);
        if c < '0' || c > '9' {
            assert(!is_digit(part[k as int]));
            return None;
        }
        proof {
            ten_values();
            assert(part.take(k as int + 1).drop_last() =~= part.take(k as int));
        }
        value = value * 10 + (((c as u32) - 48) as i64);
        k = k + 1;
    }
    assert(part.take(n as int) =~= part);
    Some(value)
}

fn at(s: &Vec<char>, i: usize, c: char) -> (r: bool)
    ensures
        r == mark(s@, i as int, c),
{
    i < s.len() && s[i] == c
}

// ── a date, a time of day, a zone ────────────────────────────────────────

/// The day that `YYYY-MM-DD` at the front of `s` names.
pub open spec fn date_part(s: Seq<char>) -> Option<int> {
    match (field(s, 0, 4), field(s, 5, 2), field(s, 8, 2)) {
        (Some(y), Some(m), Some(d)) => if mark(s, 4, '-') && mark(s, 7, '-') && 1 <= m <= 12 && 1
            <= d <= month_length(y, m) {
            Some(day_number(y, m, d))
        } else {
            None
        },
        _ => None,
    }
}

fn month_days(y: i64, m: i64) -> (r: i64)
    requires
        0 <= y <= 9999,
        1 <= m <= 12,
    ensures
        r == month_length(y as int, m as int),
        r <= 31,
{
    let is_leap_year = floor_mod(y, 4) == 0 && (floor_mod(y, 100) != 0 || floor_mod(y, 400) == 0);
    if m == 2 {
        if is_leap_year {
            29
        } else {
            28
        }
    } else if m == 4 || m == 6 || m == 9 || m == 11 {
        30
    } else {
        31
    }
}

fn read_date(s: &Vec<char>) -> (r: Option<i64>)
    ensures
        match r {
            Some(z) => date_part(s@) == Some(z as int) && -800_000 <= z <= 3_000_000,
            None => date_part(s@) is None,
        },
{
    if s.len() < 10 {
        return None;
    }
    match (number_at(s, 0, 4), number_at(s, 5, 2), number_at(s, 8, 2)) {
        (Some(y), Some(m), Some(d)) => {
            proof {
                ten_values();
            }
            if at(s, 4, '-') && at(s, 7, '-') && 1 <= m && m <= 12 && 1 <= d && d <= month_days(
                y,
                m,
            ) {
                Some(days_from_civil(y, m, d))
            } else {
                None
            }
        },
        _ => None,
    }
}

/// `HH:MM[:SS[.ffffff]]` at `i`: the microseconds since midnight and the
/// position behind it.
pub open spec fn clock_part(s: Seq<char>, i: int) -> Option<(int, int)> {
    match (field(s, i, 2), field(s, i + 3, 2)) {
        (Some(h), Some(m)) => if !mark(s, i + 2, ':') || h > 23 || m > 59 {
            None
        } else if !mark(s, i + 5, ':') {
            Some((h * 3_600_000_000 + m * 60_000_000, i + 5))
        } else {
            match field(s, i + 6, 2) {
                Some(sec) => if sec > 59 {
                    None
                } else if !mark(s, i + 8, '.') {
                    Some((h * 3_600_000_000 + m * 60_000_000 + sec * 1_000_000, i + 8))
                } else if 1 <= run(s, i + 9) <= 6 {
                    let n = run(s, i + 9);
                    let f = digits_value(s.subrange(i + 9, i + 9 + n)) * ten((6 - n) as nat);
                    Some((h * 3_600_000_000 + m * 60_000_000 + sec * 1_000_000 + f, i + 9 + n))
                } else {
                    None
                },
                None => None,
            }
        },
        _ => None,
    }
}

proof fn run_bounds(s: Seq<char>, i: int)
    requires
        0 <= i <= s.len(),
    ensures
        0 <= run(s, i) <= s.len() - i,
        all_digits(s.subrange(i, i + run(s, i))),
    decreases s.len() - i,
{
    if i < s.len() && is_digit(s[i]) {
        run_bounds(s, i + 1);
        let whole = s.subrange(i, i + run(s, i));
        let rest = s.subrange(i + 1, i + 1 + run(s, i + 1));
        assert forall|k: int| 0 <= k < whole.len() implies is_digit(#[trigger] whole[k]) by {
            if k > 0 {
                assert(whole[k] == rest[k - 1]);
            }
        }
    }
}

pub fn run_length(s: &Vec<char>, i: usize) -> (r: usize)
    requires
        i <= s@.len(),
    ensures
        r == run(s@, i as int),
        i + r <= s@.len(),
        all_digits(s@.subrange(i as int, i + r)),
{
    let mut k: usize = i;
    while k < s.len() && '0' <= s[k] && s[k] <= '9'
        invariant
            i <= k <= s@.len(),
            run(s@, i as int) == (k - i) + run(s@, k as int),
        decreases s@.len() - k,
    {
        k = k + 1;
    }
    proof {
        run_bounds(s@, i as int);
    }
    k - i
}

fn read_clock(s: &Vec<char>, i: usize) -> (r: Option<(i64, usize)>)
    requires
        i <= s@.len(),
        s@.len() <= usize::MAX - 20,
    ensures
        match r {
            Some((t, next)) => clock_part(s@, i as int) == Some((t as int, next as int)) && 0 <= t
                < MICROS_PER_DAY && next <= s@.len(),
            None => clock_part(s@, i as int) is None,
        },
{
    if s.len() - i < 5 {
        return None;
    }
    proof {
        ten_values();
    }
    match (number_at(s, i, 2), number_at(s, i + 3, 2)) {
        (Some(h), Some(m)) => {
            if !at(s, i + 2, ':') || h > 23 || m > 59 {
                return None;
            }
            let base: i64 = h * 3_600_000_000 + m * 60_000_000;
            if !at(s, i + 5, ':') {
                return Some((base, i + 5));
            }
            match number_at(s, i + 6, 2) {
                Some(sec) => {
                    if sec > 59 {
                        return None;
                    }
                    let whole: i64 = base + sec * 1_000_000;
                    if !at(s, i + 8, '.') {
                        return Some((whole, i + 8));
                    }
                    let n = run_length(s, i + 9);
                    if n < 1 || n > 6 {
                        return None;
                    }
                    match number_at(s, i + 9, n) {
                        Some(f) => {
                            let scale: i64 = if n == 1 {
                                100_000
                            } else if n == 2 {
                                10_000
                            } else if n == 3 {
                                1_000
                            } else if n == 4 {
                                100
                            } else if n == 5 {
                                10
                            } else {
                                1
                            };
                            proof {
                                fraction_scale(n as nat, scale as int);
                                assert(0 <= f * scale < 1_000_000) by (nonlinear_arith)
                                    requires
                                        0 <= f < ten(n as nat),
                                        ten(n as nat) * scale == 1_000_000,
                                        scale >= 1,
                                ;
                            }
                            Some((whole + f * scale, i + 9 + n))
                        },
                        None => None,
                    }
                },
                None => None,
            }
        },
        _ => None,
    }
}

/// The zone at `i`, to the end of the text: nothing, `Z`, or `+HH`, `+HHMM`,
/// `+HH:MM` and the same with `-`; in microseconds east of UTC.
pub open spec fn zone_part(s: Seq<char>, i: int) -> Option<int> {
    let left = s.len() - i;
    if left == 0 {
        Some(0)
    } else if left == 1 && (s[i] == 'Z' || s[i] == 'z') {
        Some(0)
    } else if left >= 3 && (s[i] == '+' || s[i] == '-') {
        let minutes = if left == 3 {
            Some(0)
        } else if left == 5 {
            field(s, i + 3, 2)
        } else if left == 6 && s[i + 3] == ':' {
            field(s, i + 4, 2)
        } else {
            None
        };
        match (field(s, i + 1, 2), minutes) {
            (Some(h), Some(m)) => if h > 23 || m > 59 {
                None
            } else if s[i] == '-' {
                Some(-(h * 3_600_000_000 + m * 60_000_000))
            } else {
                Some(h * 3_600_000_000 + m * 60_000_000)
            },
            _ => None,
        }
    } else {
        None
    }
}

fn read_zone(s: &Vec<char>, i: usize) -> (r: Option<i64>)
    requires
        i <= s@.len(),
        s@.len() <= usize::MAX - 20,
    ensures
        match r {
            Some(t) => zone_part(s@, i as int) == Some(t as int) && -MICROS_PER_DAY < t
                < MICROS_PER_DAY,
            None => zone_part(s@, i as int) is None,
        },
{
    let left: usize = s.len() - i;
    if left == 0 {
        return Some(0);
    }
    if left == 1 {
        return if s[i] == 'Z' || s[i] == 'z' {
            Some(0)
        } else {
            None
        };
    }
    if left < 3 || (s[i] != '+' && s[i] != '-') {
        return None;
    }
    proof {
        ten_values();
    }
    let minutes: Option<i64> = if left == 3 {
        Some(0)
    } else if left == 5 {
        number_at(s, i + 3, 2)
    } else if left == 6 && s[i + 3] == ':' {
        number_at(s, i + 4, 2)
    } else {
        None
    };
    match (number_at(s, i + 1, 2), minutes) {
        (Some(h), Some(m)) => {
            if h > 23 || m > 59 {
                None
            } else if s[i] == '-' {
                Some(0 - (h * 3_600_000_000 + m * 60_000_000))
            } else {
                Some(h * 3_600_000_000 + m * 60_000_000)
            }
        },
        _ => None,
    }
}

/// The instant a literal names: a date, or a date and a time of day, with an
/// optional zone behind the time.
pub open spec fn instant_part(s: Seq<char>) -> Option<int> {
    match date_part(s) {
        None => None,
        Some(z) => if s.len() == 10 {
            Some(z * MICROS_PER_DAY)
        } else if s[10] != 'T' && s[10] != 't' && s[10] != ' ' {
            None
        } else {
            match clock_part(s, 11) {
                None => None,
                Some((t, next)) => match zone_part(s, next) {
                    None => None,
                    Some(east) => Some(z * MICROS_PER_DAY + t - east),
                },
            }
        },
    }
}

/// A date/time literal, read to stored microseconds.
pub open spec fn instant_of(text: Seq<char>) -> Result<i64, SqlErrorV> {
    match instant_part(trimmed(text)) {
        Some(t) => Ok(t as i64),
        None => Err(
            SqlErrorV::Parameter(
                "`"@ + text
                    + "` is not a date/time literal: YYYY-MM-DD, with an optional time of day and zone"@,
            ),
        ),
    }
}

fn read_instant(s: &Vec<char>) -> (r: Option<i64>)
    requires
        s@.len() <= usize::MAX - 20,
    ensures
        match r {
            Some(t) => instant_part(s@) == Some(t as int),
            None => instant_part(s@) is None,
        },
{
    match read_date(s) {
        None => None,
        Some(z) => {
            if s.len() == 10 {
                return Some(z * MICROS_PER_DAY);
            }
            if s[10] != 'T' && s[10] != 't' && s[10] != ' ' {
                return None;
            }
            match read_clock(s, 11) {
                None => None,
                Some((t, next)) => match read_zone(s, next) {
                    None => None,
                    Some(east) => Some(z * MICROS_PER_DAY + t - east),
                },
            }
        },
    }
}

/// Reads a date/time literal to stored microseconds.
pub fn parse_timestamp(text: &str) -> (r: Result<i64, SqlError>)
    ensures
        gives(r, instant_of(text@)),
{
    let cut = trim(text);
    let s = chars_of(cut.as_str());
    if s.len() <= 40 {
        if let Some(t) = read_instant(&s) {
            return Ok(t);
        }
    } else {
        proof {
            long_literal(s@);
        }
    }
    Err(
        SqlError::Parameter(
            cat3(
                "`",
                text,
                "` is not a date/time literal: YYYY-MM-DD, with an optional time of day and zone",
            ),
        ),
    )
}

/// No literal is longer than its longest form.
proof fn long_literal(s: Seq<char>)
    requires
        s.len() > 40,
    ensures
        instant_part(s) is None,
{
    if let Some((t, next)) = clock_part(s, 11) {
        assert(next <= 26);
    }
}

// ── intervals ────────────────────────────────────────────────────────────

/// The microseconds of an interval's unit.
pub open spec fn unit_micros(word: Seq<char>) -> Option<int> {
    let w = lower(word);
    if w == "microsecond"@ || w == "microseconds"@ {
        Some(1)
    } else if w == "millisecond"@ || w == "milliseconds"@ {
        Some(1_000)
    } else if w == "second"@ || w == "seconds"@ {
        Some(1_000_000)
    } else if w == "minute"@ || w == "minutes"@ {
        Some(60_000_000)
    } else if w == "hour"@ || w == "hours"@ {
        Some(3_600_000_000)
    } else if w == "day"@ || w == "days"@ {
        Some(86_400_000_000)
    } else if w == "week"@ || w == "weeks"@ {
        Some(604_800_000_000)
    } else {
        None
    }
}

fn unit_scale(word: &str) -> (r: Option<i64>)
    ensures
        match r {
            Some(n) => unit_micros(word@) == Some(n as int) && 1 <= n <= 604_800_000_000,
            None => unit_micros(word@) is None,
        },
{
    let w = ascii_lower(word);
    let w = w.as_str();
    if same(w, "microsecond") || same(w, "microseconds") {
        Some(1)
    } else if same(w, "millisecond") || same(w, "milliseconds") {
        Some(1_000)
    } else if same(w, "second") || same(w, "seconds") {
        Some(1_000_000)
    } else if same(w, "minute") || same(w, "minutes") {
        Some(60_000_000)
    } else if same(w, "hour") || same(w, "hours") {
        Some(3_600_000_000)
    } else if same(w, "day") || same(w, "days") {
        Some(86_400_000_000)
    } else if same(w, "week") || same(w, "weeks") {
        Some(604_800_000_000)
    } else {
        None
    }
}

/// The microseconds of `<n> <unit>`, where they and their negation can be
/// stored.
pub open spec fn interval_part(text: Seq<char>) -> Option<int> {
    let parts = pieces(trimmed(text), ' ');
    if parts.len() != 2 {
        None
    } else {
        match (i64_text(parts[0]), unit_micros(parts[1])) {
            (Some(n), Some(scale)) => if -i64::MAX <= n * scale <= i64::MAX {
                Some(n * scale)
            } else {
                None
            },
            _ => None,
        }
    }
}

/// An interval, read to microseconds.
pub open spec fn interval_of(text: Seq<char>) -> Result<i64, SqlErrorV> {
    match interval_part(text) {
        Some(n) => Ok(n as i64),
        None => Err(
            SqlErrorV::Unsupported(
                "interval '"@ + text
                    + "': an interval is '<n> <unit>' with a unit from microsecond to week; a month and a year have no fixed length"@,
            ),
        ),
    }
}

/// Reads an interval to microseconds.
pub fn parse_interval(text: &str) -> (r: Result<i64, SqlError>)
    ensures
        gives(r, interval_of(text@)),
{
    let cut = trim(text);
    let parts = split(cut.as_str(), ' ');
    let ghost want = pieces(trimmed(text@), ' ');
    assert(texts(parts@).len() == want.len());
    if parts.len() == 2 {
        assert(parts@[0]@ == want[0]) by {
            assert(texts(parts@)[0] == parts@[0]@);
        }
        assert(parts@[1]@ == want[1]) by {
            assert(texts(parts@)[1] == parts@[1]@);
        }
        match (parse_i64(parts[0].as_str()), unit_scale(parts[1].as_str())) {
            (Some(n), Some(scale)) => {
                proof {
                    assert(-0x8000_0000_0000_0000 * 604_800_000_000 <= n * scale
                        <= 0x8000_0000_0000_0000 * 604_800_000_000) by (nonlinear_arith)
                        requires
                            -0x8000_0000_0000_0000 <= n <= 0x8000_0000_0000_0000,
                            1 <= scale <= 604_800_000_000,
                    ;
                }
                let product: i128 = (n as i128) * (scale as i128);
                if -9223372036854775807 <= product && product <= 9223372036854775807 {
                    return Ok(product as i64);
                }
            },
            _ => {},
        }
    }
    Err(
        SqlError::Unsupported(
            cat3(
                "interval '",
                text,
                "': an interval is '<n> <unit>' with a unit from microsecond to week; a month and a year have no fixed length",
            ),
        ),
    )
}

} // verus!
