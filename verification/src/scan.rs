//! Searching, splitting, trimming and reading text.

use vstd::prelude::*;
use crate::text::{chars_of, is_white, text_between, texts, white_space};

verus! {

// ── order ────────────────────────────────────────────────────────────────

/// The outcome of a comparison.
#[derive(Clone, Copy, Debug, PartialEq, Eq, Structural)]
pub enum Order {
    Less,
    Equal,
    Greater,
}

impl Order {
    /// The comparison with its two sides exchanged.
    pub open spec fn flipped(self) -> Order {
        match self {
            Order::Less => Order::Greater,
            Order::Equal => Order::Equal,
            Order::Greater => Order::Less,
        }
    }
}

/// The order of two whole numbers.
pub open spec fn int_order(a: int, b: int) -> Order {
    if a < b {
        Order::Less
    } else if a == b {
        Order::Equal
    } else {
        Order::Greater
    }
}

pub fn order_i64(a: i64, b: i64) -> (r: Order)
    ensures
        r == int_order(a as int, b as int),
{
    if a < b {
        Order::Less
    } else if a == b {
        Order::Equal
    } else {
        Order::Greater
    }
}

pub fn order_u64(a: u64, b: u64) -> (r: Order)
    ensures
        r == int_order(a as int, b as int),
{
    if a < b {
        Order::Less
    } else if a == b {
        Order::Equal
    } else {
        Order::Greater
    }
}

/// The lexicographic order of two texts from position `i` on, by code point.
pub open spec fn text_order_from(a: Seq<char>, b: Seq<char>, i: nat) -> Order
    decreases a.len() - i,
{
    if i >= a.len() {
        if i >= b.len() {
            Order::Equal
        } else {
            Order::Less
        }
    } else if i >= b.len() {
        Order::Greater
    } else if a[i as int] == b[i as int] {
        text_order_from(a, b, i + 1)
    } else {
        int_order(a[i as int] as int, b[i as int] as int)
    }
}

/// The lexicographic order of two texts, by code point.
pub open spec fn text_order(a: Seq<char>, b: Seq<char>) -> Order {
    text_order_from(a, b, 0)
}

pub fn order_text(a: &str, b: &str) -> (r: Order)
    ensures
        r == text_order(a@, b@),
{
    let x = chars_of(a);
    let y = chars_of(b);
    let mut i: usize = 0;
    while i < x.len() && i < y.len() && x[i] == y[i]
        invariant
            x@ == a@,
            y@ == b@,
            i <= x@.len(),
            i <= y@.len(),
            text_order_from(a@, b@, i as nat) == text_order(a@, b@),
        decreases x@.len() - i,
    {
        i = i + 1;
    }
    if i >= x.len() {
        if i >= y.len() {
            Order::Equal
        } else {
            Order::Less
        }
    } else if i >= y.len() {
        Order::Greater
    } else if x[i] < y[i] {
        Order::Less
    } else {
        Order::Greater
    }
}

/// A text stands nowhere before or after itself.
pub proof fn text_order_reflexive(a: Seq<char>)
    ensures
        text_order(a, a) == Order::Equal,
{
    text_order_self(a, 0);
}

proof fn text_order_self(a: Seq<char>, i: nat)
    ensures
        text_order_from(a, a, i) == Order::Equal,
    decreases a.len() - i,
{
    if i < a.len() {
        text_order_self(a, i + 1);
    }
}

/// Exchanging the sides exchanges `Less` and `Greater`.
pub proof fn text_order_antisymmetric(a: Seq<char>, b: Seq<char>)
    ensures
        text_order(b, a) == text_order(a, b).flipped(),
{
    text_order_flip(a, b, 0);
}

proof fn text_order_flip(a: Seq<char>, b: Seq<char>, i: nat)
    ensures
        text_order_from(b, a, i) == text_order_from(a, b, i).flipped(),
    decreases a.len() - i,
{
    if i < a.len() && i < b.len() && a[i as int] == b[i as int] {
        text_order_flip(a, b, i + 1);
    }
}

/// Only equal texts compare equal.
pub proof fn text_order_exact(a: Seq<char>, b: Seq<char>)
    ensures
        text_order(a, b) == Order::Equal <==> a == b,
{
    text_order_equal(a, b, 0);
    if a == b {
        text_order_reflexive(a);
    }
    if text_order(a, b) == Order::Equal {
        assert(a =~= b);
    }
}

proof fn text_order_equal(a: Seq<char>, b: Seq<char>, i: nat)
    ensures
        text_order_from(a, b, i) == Order::Equal && i <= a.len() && i <= b.len() ==> a.len()
            == b.len() && forall|k: int| i <= k < a.len() ==> a[k] == b[k],
    decreases a.len() - i,
{
    if i < a.len() && i < b.len() && a[i as int] == b[i as int] {
        text_order_equal(a, b, i + 1);
    }
}

// ── searching ────────────────────────────────────────────────────────────

/// Whether `p` stands in `s` at position `i`.
pub open spec fn stands_at(s: Seq<char>, p: Seq<char>, i: int) -> bool {
    &&& 0 <= i
    &&& i + p.len() <= s.len()
    &&& s.subrange(i, i + p.len()) == p
}

/// The first position at or after `from` at which `p` stands in `s`.
pub open spec fn find_from(s: Seq<char>, p: Seq<char>, from: nat) -> Option<nat>
    decreases s.len() - from,
{
    if from + p.len() > s.len() {
        None
    } else if stands_at(s, p, from as int) {
        Some(from)
    } else if from >= s.len() {
        None
    } else {
        find_from(s, p, from + 1)
    }
}

fn stands(s: &Vec<char>, p: &Vec<char>, at: usize) -> (r: bool)
    requires
        at <= s@.len(),
    ensures
        r == stands_at(s@, p@, at as int),
{
    if p.len() > s.len() - at {
        return false;
    }
    let n: usize = s.len();
    let mut k: usize = 0;
    while k < p.len()
        invariant
            n == s@.len(),
            k <= p@.len(),
            at + p@.len() <= s@.len(),
            forall|j: int| 0 <= j < k ==> s@[at + j] == p@[j],
        decreases p@.len() - k,
    {
        if s[at + k] != p[k] {
            assert(s@.subrange(at as int, at + p@.len())[k as int] != p@[k as int]);
            return false;
        }
        k = k + 1;
    }
    assert(s@.subrange(at as int, at + p@.len()) =~= p@);
    true
}

/// Where `p` first stands in `s` at or after `from`.
pub fn find(s: &Vec<char>, p: &Vec<char>, from: usize) -> (r: Option<usize>)
    requires
        from <= s@.len(),
    ensures
        match r {
            Some(at) => find_from(s@, p@, from as nat) == Some(at as nat) && at + p@.len()
                <= s@.len() && from <= at,
            None => find_from(s@, p@, from as nat) is None,
        },
{
    let mut i: usize = from;
    loop
        invariant
            from <= i <= s@.len(),
            find_from(s@, p@, i as nat) == find_from(s@, p@, from as nat),
        decreases s@.len() - i,
    {
        if p.len() > s.len() - i {
            return None;
        }
        if stands(s, p, i) {
            return Some(i);
        }
        if i >= s.len() {
            return None;
        }
        i = i + 1;
    }
}

/// Whether `s` begins with `p`.
pub fn begins(s: &str, p: &str) -> (r: bool)
    ensures
        r == stands_at(s@, p@, 0),
{
    let x = chars_of(s);
    let y = chars_of(p);
    stands(&x, &y, 0)
}

/// Whether the character `c` occurs in `s`.
pub fn holds_char(s: &str, c: char) -> (r: bool)
    ensures
        r == s@.contains(c),
{
    let chars = chars_of(s);
    let mut i: usize = 0;
    while i < chars.len()
        invariant
            chars@ == s@,
            i <= chars@.len(),
            forall|k: int| 0 <= k < i ==> s@[k] != c,
        decreases chars@.len() - i,
    {
        if chars[i] == c {
            return true;
        }
        i = i + 1;
    }
    false
}

/// Whether `p` occurs in `s`.
pub fn holds_text(s: &str, p: &str) -> (r: bool)
    ensures
        r == (find_from(s@, p@, 0) is Some),
{
    let x = chars_of(s);
    let y = chars_of(p);
    find(&x, &y, 0).is_some()
}

// ── trimming ─────────────────────────────────────────────────────────────

/// The text without the white space at its front.
pub open spec fn trim_front(s: Seq<char>) -> Seq<char>
    decreases s.len(),
{
    if s.len() > 0 && white_space(s[0]) {
        trim_front(s.drop_first())
    } else {
        s
    }
}

/// The text without the white space at its end.
pub open spec fn trim_back(s: Seq<char>) -> Seq<char>
    decreases s.len(),
{
    if s.len() > 0 && white_space(s.last()) {
        trim_back(s.drop_last())
    } else {
        s
    }
}

/// The text without white space at either end.
pub open spec fn trimmed(s: Seq<char>) -> Seq<char> {
    trim_back(trim_front(s))
}

/// The text without the `c` at its front.
pub open spec fn strip_front(s: Seq<char>, c: char) -> Seq<char>
    decreases s.len(),
{
    if s.len() > 0 && s[0] == c {
        strip_front(s.drop_first(), c)
    } else {
        s
    }
}

/// The text without the `c` at its end.
pub open spec fn strip_back(s: Seq<char>, c: char) -> Seq<char>
    decreases s.len(),
{
    if s.len() > 0 && s.last() == c {
        strip_back(s.drop_last(), c)
    } else {
        s
    }
}

/// The text without white space at either end.
pub fn trim(s: &str) -> (r: String)
    ensures
        r@ == trimmed(s@),
{
    let chars = chars_of(s);
    let mut from: usize = 0;
    assert(chars@.subrange(0, chars@.len() as int) =~= s@);
    while from < chars.len() && is_white(chars[from])
        invariant
            chars@ == s@,
            from <= chars@.len(),
            trim_front(chars@.subrange(from as int, chars@.len() as int)) == trim_front(s@),
        decreases chars@.len() - from,
    {
        assert(chars@.subrange(from as int, chars@.len() as int).drop_first() =~= chars@.subrange(
            from as int + 1,
            chars@.len() as int,
        ));
        from = from + 1;
    }
    let ghost front = chars@.subrange(from as int, chars@.len() as int);
    assert(front == trim_front(s@));
    let mut to: usize = chars.len();
    while to > from && is_white(chars[to - 1])
        invariant
            from <= to <= chars@.len(),
            trim_back(chars@.subrange(from as int, to as int)) == trim_back(front),
        decreases to,
    {
        assert(chars@.subrange(from as int, to as int).drop_last() =~= chars@.subrange(
            from as int,
            to as int - 1,
        ));
        to = to - 1;
    }
    text_between(&chars, from, to)
}

/// The text without the `c` at its front.
pub fn strip_first(s: &str, c: char) -> (r: String)
    ensures
        r@ == strip_front(s@, c),
{
    let chars = chars_of(s);
    let mut from: usize = 0;
    assert(chars@.subrange(0, chars@.len() as int) =~= s@);
    while from < chars.len() && chars[from] == c
        invariant
            from <= chars@.len(),
            strip_front(chars@.subrange(from as int, chars@.len() as int), c) == strip_front(
                s@,
                c,
            ),
        decreases chars@.len() - from,
    {
        assert(chars@.subrange(from as int, chars@.len() as int).drop_first() =~= chars@.subrange(
            from as int + 1,
            chars@.len() as int,
        ));
        from = from + 1;
    }
    text_between(&chars, from, chars.len())
}

/// The text without the `c` at either end.
pub fn strip_both(s: &str, c: char) -> (r: String)
    ensures
        r@ == strip_back(strip_front(s@, c), c),
{
    let front = strip_first(s, c);
    let chars = chars_of(front.as_str());
    let mut to: usize = chars.len();
    assert(chars@.subrange(0, chars@.len() as int) =~= chars@);
    while to > 0 && chars[to - 1] == c
        invariant
            to <= chars@.len(),
            strip_back(chars@.subrange(0, to as int), c) == strip_back(chars@, c),
        decreases to,
    {
        assert(chars@.subrange(0, to as int).drop_last() =~= chars@.subrange(0, to as int - 1));
        to = to - 1;
    }
    text_between(&chars, 0, to)
}

// ── splitting ────────────────────────────────────────────────────────────

/// The pieces of `s` between the `c`s from position `i` on, the piece that is
/// being read having begun at `start`.
pub open spec fn pieces_from(s: Seq<char>, c: char, start: int, i: int) -> Seq<Seq<char>>
    decreases s.len() - i,
{
    if i >= s.len() {
        seq![s.subrange(start, s.len() as int)]
    } else if s[i] == c {
        seq![s.subrange(start, i)] + pieces_from(s, c, i + 1, i + 1)
    } else {
        pieces_from(s, c, start, i + 1)
    }
}

/// The pieces of `s` between the `c`s, empty ones kept.
pub open spec fn pieces(s: Seq<char>, c: char) -> Seq<Seq<char>> {
    pieces_from(s, c, 0, 0)
}

/// Splits `s` at every `c`.
pub fn split(s: &str, c: char) -> (r: Vec<String>)
    ensures
        texts(r@) == pieces(s@, c),
{
    let chars = chars_of(s);
    let mut out: Vec<String> = Vec::new();
    let mut start: usize = 0;
    let mut i: usize = 0;
    assert(texts(out@) + pieces_from(s@, c, 0, 0) =~= pieces(s@, c));
    while i < chars.len()
        invariant
            chars@ == s@,
            start <= i <= chars@.len(),
            texts(out@) + pieces_from(s@, c, start as int, i as int) == pieces(s@, c),
        decreases chars@.len() - i,
    {
        if chars[i] == c {
            let ghost before = out@;
            let piece = text_between(&chars, start, i);
            out.push(piece);
            proof {
                let rest = pieces_from(s@, c, i + 1, i + 1);
                assert(texts(out@) + rest =~= texts(before) + (seq![
                    s@.subrange(start as int, i as int),
                ] + rest));
            }
            start = i + 1;
        }
        i = i + 1;
    }
    let ghost before = out@;
    let piece = text_between(&chars, start, chars.len());
    out.push(piece);
    assert(texts(out@) =~= texts(before) + seq![s@.subrange(start as int, s@.len() as int)]);
    out
}

/// How many runs of characters that are not white space `s` has from `i` on;
/// `inside` says whether the character before `i` belongs to such a run.
pub open spec fn words_from(s: Seq<char>, i: nat, inside: bool) -> nat
    decreases s.len() - i,
{
    if i >= s.len() {
        0
    } else if white_space(s[i as int]) {
        words_from(s, i + 1, false)
    } else if inside {
        words_from(s, i + 1, true)
    } else {
        1 + words_from(s, i + 1, true)
    }
}

/// How many words `s` has.
pub fn word_count(s: &str) -> (r: usize)
    ensures
        r == words_from(s@, 0, false),
{
    let chars = chars_of(s);
    let mut count: usize = 0;
    let mut inside = false;
    let mut i: usize = 0;
    while i < chars.len()
        invariant
            chars@ == s@,
            i <= chars@.len(),
            count <= i,
            count + words_from(s@, i as nat, inside) == words_from(s@, 0, false),
        decreases chars@.len() - i,
    {
        if is_white(chars[i]) {
            inside = false;
        } else {
            if !inside {
                count = count + 1;
            }
            inside = true;
        }
        i = i + 1;
    }
    count
}

// ── reading a whole number ───────────────────────────────────────────────

pub open spec fn is_digit(c: char) -> bool {
    '0' <= c <= '9'
}

pub open spec fn all_digits(s: Seq<char>) -> bool {
    forall|i: int| 0 <= i < s.len() ==> is_digit(#[trigger] s[i])
}

/// The number that a run of digits writes.
pub open spec fn digits_value(s: Seq<char>) -> nat
    decreases s.len(),
{
    if s.len() == 0 {
        0
    } else {
        digits_value(s.drop_last()) * 10 + ((s.last() as int - '0' as int) as nat)
    }
}

/// The whole number that `s` writes: digits, with at most one sign before
/// them, and nothing else.
pub open spec fn whole_number(s: Seq<char>) -> Option<int> {
    let signed = s.len() > 0 && (s[0] == '-' || s[0] == '+');
    let digits = if signed {
        s.drop_first()
    } else {
        s
    };
    if digits.len() == 0 || !all_digits(digits) {
        None
    } else if signed && s[0] == '-' {
        Some(-(digits_value(digits) as int))
    } else {
        Some(digits_value(digits) as int)
    }
}

/// The number that `s` writes, where it fits the stored integer.
pub open spec fn i64_text(s: Seq<char>) -> Option<i64> {
    match whole_number(s) {
        Some(n) => if i64::MIN <= n <= i64::MAX {
            Some(n as i64)
        } else {
            None
        },
        None => None,
    }
}

proof fn digits_value_grows(s: Seq<char>, i: int)
    requires
        0 <= i <= s.len(),
        all_digits(s),
    ensures
        digits_value(s.take(i)) <= digits_value(s),
    decreases s.len() - i,
{
    if i < s.len() {
        digits_value_grows(s, i + 1);
        assert(s.take(i + 1).drop_last() =~= s.take(i));
        assert(is_digit(s[i]));
    } else {
        assert(s.take(i) =~= s);
    }
}

/// Reads a whole number, as `str::parse::<i64>` does.
#[verifier::loop_isolation(false)]
pub fn parse_i64(s: &str) -> (r: Option<i64>)
    ensures
        r == i64_text(s@),
{
    let chars = chars_of(s);
    let signed = chars.len() > 0 && (chars[0] == '-' || chars[0] == '+');
    let negative = signed && chars[0] == '-';
    let from: usize = if signed {
        1
    } else {
        0
    };
    let ghost digits = if signed {
        s@.drop_first()
    } else {
        s@
    };
    assert(digits =~= chars@.subrange(from as int, chars@.len() as int));
    if from == chars.len() {
        return None;
    }
    let mut i: usize = from;
    while i < chars.len()
        invariant
            from <= i <= chars@.len(),
            digits == chars@.subrange(from as int, chars@.len() as int),
            forall|k: int| 0 <= k < i - from ==> is_digit(#[trigger] digits[k]),
        decreases chars@.len() - i,
    {
        let c = chars[i];
        if c < '0' || c > '9' {
            assert(!is_digit(digits[i - from]));
            return None;
        }
        i = i + 1;
    }
    assert(all_digits(digits));
    let mut value: i128 = 0;
    let mut j: usize = from;
    assert(digits.take(0).len() == 0);
    while j < chars.len()
        invariant
            from <= j <= chars@.len(),
            digits == chars@.subrange(from as int, chars@.len() as int),
            all_digits(digits),
            0 <= value <= 9223372036854775808,
            value == digits_value(digits.take(j - from)),
        decreases chars@.len() - j,
    {
        let c = chars[j];
        assert(is_digit(digits[j - from]));
        assert(digits.take(j - from + 1).drop_last() =~= digits.take(j - from));
        value = value * 10 + (((c as u32) - 48) as i128);
        if value > 9223372036854775808 {
            proof {
                digits_value_grows(digits, j - from + 1);
            }
            return None;
        }
        j = j + 1;
    }
    assert(digits.take(j - from) =~= digits);
    if negative {
        Some((0 - value) as i64)
    } else if value > 9223372036854775807 {
        None
    } else {
        Some(value as i64)
    }
}

} // verus!
