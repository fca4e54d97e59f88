//! The decimal numbers that a text can write.

use vstd::prelude::*;
use crate::text::{chars_of, lower, same_letters, text_between};
use crate::timestamp::{run, run_length};

verus! {

/// Whether an exponent, or nothing, stands from `i` to the end.
pub open spec fn ends_number(s: Seq<char>, i: int) -> bool {
    if i == s.len() {
        true
    } else if s[i] != 'e' && s[i] != 'E' {
        false
    } else {
        let from = if i + 1 < s.len() && is_sign(s[i + 1]) {
            i + 2
        } else {
            i + 1
        };
        run(s, from) > 0 && from + run(s, from) == s.len()
    }
}

pub open spec fn is_sign(c: char) -> bool {
    c == '-' || c == '+'
}

/// Whether a text without a sign writes a number: digits with at most one point
/// among them, and an exponent behind them where there is one.
pub open spec fn writes_digits(s: Seq<char>) -> bool {
    let whole = run(s, 0);
    if whole < s.len() && s[whole] == '.' {
        let fraction = run(s, whole + 1);
        whole + fraction > 0 && ends_number(s, whole + 1 + fraction)
    } else {
        whole > 0 && ends_number(s, whole)
    }
}

/// A text without the sign before it.
pub open spec fn unsigned(s: Seq<char>) -> Seq<char> {
    if s.len() > 0 && is_sign(s[0]) {
        s.drop_first()
    } else {
        s
    }
}

/// Whether a text writes a floating-point number: digits, an infinity or a
/// not-a-number, with at most one sign before it.
pub open spec fn writes_float(s: Seq<char>) -> bool {
    let u = unsigned(s);
    lower(u) == lower("inf"@) || lower(u) == lower("infinity"@) || lower(u) == lower("nan"@)
        || writes_digits(u)
}

fn number_ends(s: &Vec<char>, i: usize) -> (r: bool)
    requires
        i <= s@.len(),
    ensures
        r == ends_number(s@, i as int),
{
    if i == s.len() {
        return true;
    }
    if s[i] != 'e' && s[i] != 'E' {
        return false;
    }
    let mut from: usize = i + 1;
    if from < s.len() && (s[from] == '-' || s[from] == '+') {
        from = from + 1;
    }
    let n = run_length(s, from);
    n > 0 && from + n == s.len()
}

fn digits_written(s: &Vec<char>) -> (r: bool)
    ensures
        r == writes_digits(s@),
{
    let whole = run_length(s, 0);
    if whole < s.len() && s[whole] == '.' {
        let fraction = run_length(s, whole + 1);
        (whole > 0 || fraction > 0) && number_ends(s, whole + 1 + fraction)
    } else {
        whole > 0 && number_ends(s, whole)
    }
}

/// Whether a text writes a floating-point number.
pub fn is_float(text: &str) -> (r: bool)
    ensures
        r == writes_float(text@),
{
    let s = chars_of(text);
    let from: usize = if s.len() > 0 && (s[0] == '-' || s[0] == '+') {
        1
    } else {
        0
    };
    let rest = text_between(&s, from, s.len());
    assert(rest@ =~= unsigned(text@));
    same_letters(rest.as_str(), "inf") || same_letters(rest.as_str(), "infinity") || same_letters(
        rest.as_str(),
        "nan",
    ) || digits_written(&chars_of(rest.as_str()))
}

} // verus!
