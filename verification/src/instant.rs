//! Instants as text: reading and printing stored UTC microseconds.

use vstd::prelude::*;
use crate::ast::{unit_text, TimeUnit};
use crate::calendar::{
    date_of, day_at, day_of, end_of, extract, extracted, fits, floor_div, floor_mod, month_of,
    start_of, unit_end, unit_start, unit_truncates, year_of, MICROS_PER_DAY,
};
use crate::error::{gives, SqlError, SqlErrorV};
use crate::scan::stands_at;
use crate::text::{
    ascii_lower, cat2, cat3, cat5, chars_of, decimal_i64, decimal_nat, lower, owned, same, text_of,
};

verus! {

// ── units ────────────────────────────────────────────────────────────────

/// The unit a word names, in either case.
pub open spec fn unit_named(word: Seq<char>) -> Option<TimeUnit> {
    let w = lower(word);
    if w == "year"@ {
        Some(TimeUnit::Year)
    } else if w == "month"@ {
        Some(TimeUnit::Month)
    } else if w == "day"@ {
        Some(TimeUnit::Day)
    } else if w == "dow"@ {
        Some(TimeUnit::Dow)
    } else if w == "hour"@ {
        Some(TimeUnit::Hour)
    } else if w == "minute"@ {
        Some(TimeUnit::Minute)
    } else if w == "second"@ {
        Some(TimeUnit::Second)
    } else if w == "epoch"@ {
        Some(TimeUnit::Epoch)
    } else {
        None
    }
}

impl TimeUnit {
    pub fn parse(word: &str) -> (r: Option<TimeUnit>)
        ensures
            r == unit_named(word@),
    {
        let w = ascii_lower(word);
        let w = w.as_str();
        if same(w, "year") {
            Some(TimeUnit::Year)
        } else if same(w, "month") {
            Some(TimeUnit::Month)
        } else if same(w, "day") {
            Some(TimeUnit::Day)
        } else if same(w, "dow") {
            Some(TimeUnit::Dow)
        } else if same(w, "hour") {
            Some(TimeUnit::Hour)
        } else if same(w, "minute") {
            Some(TimeUnit::Minute)
        } else if same(w, "second") {
            Some(TimeUnit::Second)
        } else if same(w, "epoch") {
            Some(TimeUnit::Epoch)
        } else {
            None
        }
    }

    /// Whether `date_trunc` has the unit.
    pub fn truncates(self) -> (r: bool)
        ensures
            r == unit_truncates(self),
    {
        self != TimeUnit::Dow && self != TimeUnit::Epoch
    }
}

/// Whether a declared type holds instants.
pub open spec fn time_type(declared: Seq<char>) -> bool {
    declared == "TIMESTAMPTZ"@ || declared == "TIMESTAMP"@ || declared == "DATE"@
}

pub fn is_time_type(declared: &str) -> (r: bool)
    ensures
        r == time_type(declared@),
{
    same(declared, "TIMESTAMPTZ") || same(declared, "TIMESTAMP") || same(declared, "DATE")
}

// ── truncation ───────────────────────────────────────────────────────────

pub open spec fn no_such_unit(unit: TimeUnit) -> SqlErrorV {
    SqlErrorV::Unsupported(
        "date_trunc('"@ + unit_text(unit)
            + "', t): QL_CONTRACT §4.2 names year, month, day, hour, minute and second"@,
    )
}

pub open spec fn out_of_range() -> SqlErrorV {
    SqlErrorV::Unsupported("the truncated instant leaves i64 microseconds"@)
}

/// The start of the unit that an instant lies in.
pub open spec fn truncated_to(unit: TimeUnit, t: i64) -> Result<i64, SqlErrorV> {
    if !unit_truncates(unit) {
        Err(no_such_unit(unit))
    } else if !fits(unit_start(unit, t as int)) {
        Err(out_of_range())
    } else {
        Ok(unit_start(unit, t as int) as i64)
    }
}

/// The start of the next unit.
pub open spec fn following(unit: TimeUnit, t: i64) -> Result<i64, SqlErrorV> {
    if !unit_truncates(unit) {
        Err(no_such_unit(unit))
    } else if !fits(unit_end(unit, t as int)) {
        Err(out_of_range())
    } else {
        Ok(unit_end(unit, t as int) as i64)
    }
}

fn unit_error(unit: TimeUnit) -> (r: SqlError)
    ensures
        r.deep_view() == no_such_unit(unit),
{
    SqlError::Unsupported(
        cat3(
            "date_trunc('",
            unit.written(),
            "', t): QL_CONTRACT §4.2 names year, month, day, hour, minute and second",
        ),
    )
}

/// `date_trunc(unit, t)`.
pub fn date_trunc(unit: TimeUnit, t: i64) -> (r: Result<i64, SqlError>)
    ensures
        gives(r, truncated_to(unit, t)),
{
    if !unit.truncates() {
        return Err(unit_error(unit));
    }
    match start_of(unit, t) {
        Some(s) => Ok(s),
        None => Err(SqlError::unsupported("the truncated instant leaves i64 microseconds")),
    }
}

/// The start of the unit after the one `t` lies in.
pub fn next_unit(unit: TimeUnit, t: i64) -> (r: Result<i64, SqlError>)
    ensures
        gives(r, following(unit, t)),
{
    if !unit.truncates() {
        return Err(unit_error(unit));
    }
    match end_of(unit, t) {
        Some(s) => Ok(s),
        None => Err(SqlError::unsupported("the truncated instant leaves i64 microseconds")),
    }
}

// ── printing ─────────────────────────────────────────────────────────────

/// A number in decimal, with zeros before it to fill `width` places.
pub open spec fn padded(n: nat, width: nat) -> Seq<char> {
    let digits = decimal_nat(n);
    if digits.len() >= width {
        digits
    } else {
        Seq::new((width - digits.len()) as nat, |i: int| '0') + digits
    }
}

fn pad(n: i64, width: usize) -> (r: String)
    requires
        n >= 0,
    ensures
        r@ == padded(n as nat, width as nat),
{
    let digits = decimal_i64(n);
    let length = digits.as_str().unicode_len();
    if length >= width {
        return digits;
    }
    let fill: usize = width - length;
    let mut zeros: Vec<char> = Vec::new();
    let mut i: usize = 0;
    while i < fill
        invariant
            i <= fill,
            zeros@.len() == i,
            forall|k: int| 0 <= k < i ==> zeros@[k] == '0',
        decreases fill - i,
    {
        zeros.push('0');
        i = i + 1;
    }
    assert(zeros@ =~= Seq::new((width - length) as nat, |i: int| '0'));
    cat2(text_of(&zeros).as_str(), digits.as_str())
}

/// A year in at least four places.
pub open spec fn year_text(y: int) -> Seq<char> {
    if y < 0 {
        "-"@ + padded((-y) as nat, 4)
    } else {
        padded(y as nat, 4)
    }
}

/// `YYYY-MM-DD`.
pub open spec fn date_text(t: int) -> Seq<char> {
    let z = day_at(t);
    year_text(year_of(z)) + "-"@ + padded(month_of(z) as nat, 2) + "-"@ + padded(
        day_of(z) as nat,
        2,
    )
}

/// `HH:MM:SS`.
pub open spec fn clock_text(t: int) -> Seq<char> {
    padded(extracted(TimeUnit::Hour, t) as nat, 2) + ":"@ + padded(
        extracted(TimeUnit::Minute, t) as nat,
        2,
    ) + ":"@ + padded(extracted(TimeUnit::Second, t) as nat, 2)
}

/// The fraction of a second, where there is one.
pub open spec fn fraction_text(t: int) -> Seq<char> {
    let f = t % 1_000_000;
    if f == 0 {
        ""@
    } else {
        "."@ + padded(f as nat, 6)
    }
}

/// ISO-8601 in UTC.
pub open spec fn timestamp_text(t: int) -> Seq<char> {
    date_text(t) + "T"@ + clock_text(t) + fraction_text(t) + "Z"@
}

fn year_shown(y: i64) -> (r: String)
    requires
        -400_000 <= y <= 400_000,
    ensures
        r@ == year_text(y as int),
{
    if y < 0 {
        cat2("-", pad(0 - y, 4).as_str())
    } else {
        pad(y, 4)
    }
}

/// The date of an instant, `YYYY-MM-DD`.
pub fn format_date(t: i64) -> (r: String)
    ensures
        r@ == date_text(t as int),
{
    let z = floor_div(t, MICROS_PER_DAY);
    let date = date_of(z);
    cat5(
        year_shown(date.year).as_str(),
        "-",
        pad(date.month, 2).as_str(),
        "-",
        pad(date.day, 2).as_str(),
    )
}

proof fn fields_not_negative(t: i64)
    ensures
        extracted(TimeUnit::Hour, t as int) >= 0,
        extracted(TimeUnit::Minute, t as int) >= 0,
        extracted(TimeUnit::Second, t as int) >= 0,
{
}

/// An instant in ISO-8601, UTC.
pub fn format_timestamp(t: i64) -> (r: String)
    ensures
        r@ == timestamp_text(t as int),
{
    proof {
        fields_not_negative(t);
    }
    let clock = cat5(
        pad(extract(TimeUnit::Hour, t), 2).as_str(),
        ":",
        pad(extract(TimeUnit::Minute, t), 2).as_str(),
        ":",
        pad(extract(TimeUnit::Second, t), 2).as_str(),
    );
    let f = floor_mod(t, 1_000_000);
    let fraction = if f == 0 {
        owned("")
    } else {
        cat2(".", pad(f, 6).as_str())
    };
    cat5(format_date(t).as_str(), "T", clock.as_str(), fraction.as_str(), "Z")
}

// ── templates ────────────────────────────────────────────────────────────

pub open spec fn is_letter(c: char) -> bool {
    'a' <= c <= 'z' || 'A' <= c <= 'Z'
}

/// The instant under a template from position `i` on: the fields `YYYY`, `MM`,
/// `DD`, `HH24`, `MI` and `SS`, and every character that is no letter as it
/// stands. Any other letter has no meaning.
pub open spec fn template_text(t: int, f: Seq<char>, i: nat) -> Option<Seq<char>>
    decreases f.len() - i,
{
    let z = day_at(t);
    if i >= f.len() {
        Some(Seq::empty())
    } else if stands_at(f, seq!['Y', 'Y', 'Y', 'Y'], i as int) {
        after(year_text(year_of(z)), template_text(t, f, i + 4))
    } else if stands_at(f, seq!['H', 'H', '2', '4'], i as int) {
        after(padded(extracted(TimeUnit::Hour, t) as nat, 2), template_text(t, f, i + 4))
    } else if stands_at(f, seq!['M', 'M'], i as int) {
        after(padded(month_of(z) as nat, 2), template_text(t, f, i + 2))
    } else if stands_at(f, seq!['D', 'D'], i as int) {
        after(padded(day_of(z) as nat, 2), template_text(t, f, i + 2))
    } else if stands_at(f, seq!['M', 'I'], i as int) {
        after(padded(extracted(TimeUnit::Minute, t) as nat, 2), template_text(t, f, i + 2))
    } else if stands_at(f, seq!['S', 'S'], i as int) {
        after(padded(extracted(TimeUnit::Second, t) as nat, 2), template_text(t, f, i + 2))
    } else if is_letter(f[i as int]) {
        None
    } else {
        after(seq![f[i as int]], template_text(t, f, i + 1))
    }
}

pub open spec fn after(front: Seq<char>, rest: Option<Seq<char>>) -> Option<Seq<char>> {
    match rest {
        Some(rest) => Some(front + rest),
        None => None,
    }
}

pub open spec fn no_such_template(f: Seq<char>) -> SqlErrorV {
    SqlErrorV::Unsupported(
        "to_char(t, '"@ + f + "'): the template fields are YYYY, MM, DD, HH24, MI and SS"@,
    )
}

pub open spec fn shaped(t: i64, f: Seq<char>) -> Result<Seq<char>, SqlErrorV> {
    match template_text(t as int, f, 0) {
        Some(text) => Ok(text),
        None => Err(no_such_template(f)),
    }
}

fn field_at(f: &Vec<char>, i: usize, a: char, b: char) -> (r: bool)
    requires
        i < f@.len(),
    ensures
        r == stands_at(f@, seq![a, b], i as int),
{
    if f.len() - i < 2 {
        return false;
    }
    let r = f[i] == a && f[i + 1] == b;
    proof {
        let part = f@.subrange(i as int, i + 2);
        if r {
            assert(part =~= seq![a, b]);
        } else {
            assert(part[0] != a || part[1] != b);
            assert(seq![a, b][0] == a && seq![a, b][1] == b);
        }
    }
    r
}

fn long_field_at(f: &Vec<char>, i: usize, a: char, b: char, c: char, d: char) -> (r: bool)
    requires
        i < f@.len(),
    ensures
        r == stands_at(f@, seq![a, b, c, d], i as int),
{
    if f.len() - i < 4 {
        return false;
    }
    let r = f[i] == a && f[i + 1] == b && f[i + 2] == c && f[i + 3] == d;
    proof {
        let part = f@.subrange(i as int, i + 4);
        let want = seq![a, b, c, d];
        if r {
            assert(part =~= want);
        } else {
            assert(part[0] != a || part[1] != b || part[2] != c || part[3] != d);
            assert(want[0] == a && want[1] == b && want[2] == c && want[3] == d);
        }
    }
    r
}

/// `to_char(t, format)`.
pub fn to_char(t: i64, format: &str) -> (r: Result<String, SqlError>)
    ensures
        gives(r, shaped(t, format@)),
{
    let f = chars_of(format);
    let date = date_of(floor_div(t, MICROS_PER_DAY));
    proof {
        fields_not_negative(t);
    }
    let mut out = String::new();
    let mut i: usize = 0;
    assert(after(out@, template_text(t as int, f@, 0)) == template_text(t as int, f@, 0)) by {
        match template_text(t as int, f@, 0) {
            Some(text) => assert(out@ + text =~= text),
            None => {},
        }
    }
    while i < f.len()
        invariant
            f@ == format@,
            i <= f@.len(),
            after(out@, template_text(t as int, f@, i as nat)) == template_text(t as int, f@, 0),
            date.year == year_of(day_at(t as int)),
            date.month == month_of(day_at(t as int)),
            date.day == day_of(day_at(t as int)),
            -400_000 <= date.year <= 400_000,
            1 <= date.month <= 12,
            1 <= date.day <= 31,
            extracted(TimeUnit::Hour, t as int) >= 0,
            extracted(TimeUnit::Minute, t as int) >= 0,
            extracted(TimeUnit::Second, t as int) >= 0,
        decreases f@.len() - i,
    {
        let ghost done = out@;
        let ghost start = i;
        let piece: String;
        let step: usize;
        if long_field_at(&f, i, 'Y', 'Y', 'Y', 'Y') {
            piece = year_shown(date.year);
            step = 4;
        } else if long_field_at(&f, i, 'H', 'H', '2', '4') {
            piece = pad(extract(TimeUnit::Hour, t), 2);
            step = 4;
        } else if field_at(&f, i, 'M', 'M') {
            piece = pad(date.month, 2);
            step = 2;
        } else if field_at(&f, i, 'D', 'D') {
            piece = pad(date.day, 2);
            step = 2;
        } else if field_at(&f, i, 'M', 'I') {
            piece = pad(extract(TimeUnit::Minute, t), 2);
            step = 2;
        } else if field_at(&f, i, 'S', 'S') {
            piece = pad(extract(TimeUnit::Second, t), 2);
            step = 2;
        } else if ('a' <= f[i] && f[i] <= 'z') || ('A' <= f[i] && f[i] <= 'Z') {
            return Err(
                SqlError::Unsupported(
                    cat3(
                        "to_char(t, '",
                        format,
                        "'): the template fields are YYYY, MM, DD, HH24, MI and SS",
                    ),
                ),
            );
        } else {
            let mut one = String::new();
            one.push(f[i]);
            assert(one@ =~= seq![f@[i as int]]);
            piece = one;
            step = 1;
        }
        out.append(piece.as_str());
        i = i + step;
        proof {
            match template_text(t as int, f@, i as nat) {
                Some(text) => assert(out@ + text =~= done + (piece@ + text)),
                None => {},
            }
        }
    }
    assert(out@ + Seq::<char>::empty() =~= out@);
    Ok(out)
}

} // verus!
