//! The string functions of the language, over characters.

use vstd::prelude::*;
use crate::error::{gives, SqlError, SqlErrorV};
use crate::scan::{find, find_from, text_order, text_order_from, stands_at, Order};
use crate::text::{chars_of, owned, text_between, texts};

verus! {

// ── length, substring, left, right ───────────────────────────────────────

/// A count as a stored integer.
pub open spec fn stored_count(n: int) -> i64 {
    if n > i64::MAX {
        i64::MAX
    } else {
        n as i64
    }
}

pub fn count_of(n: usize) -> (r: i64)
    ensures
        r == stored_count(n as int),
{
    if n as u64 > 9223372036854775807 {
        9223372036854775807
    } else {
        n as i64
    }
}

/// The number of characters.
pub fn length(s: &str) -> (r: i64)
    ensures
        r == stored_count(s@.len() as int),
{
    count_of(s.unicode_len())
}

/// `n`, moved into `0..=max`.
pub open spec fn clamped(n: int, max: int) -> int {
    if n < 0 {
        0
    } else if n > max {
        max
    } else {
        n
    }
}

fn clamp_to(n: i128, max: usize) -> (r: usize)
    ensures
        r == clamped(n as int, max as int),
{
    if n < 0 {
        0
    } else if n > max as i128 {
        max
    } else {
        n as usize
    }
}

/// `substring(s, from, count)`: the characters from position `from`, counted
/// from one, up to `count` of them or to the end. Positions before the text
/// count, and hold nothing.
pub open spec fn substring_of(s: Seq<char>, from: i64, count: Option<i64>) -> Result<
    Seq<char>,
    SqlErrorV,
> {
    let start = clamped(from - 1, s.len() as int);
    match count {
        None => Ok(s.subrange(start, s.len() as int)),
        Some(n) => if n < 0 {
            Err(SqlErrorV::Parameter("substring(): a negative length"@))
        } else {
            let end = clamped(from - 1 + n, s.len() as int);
            Ok(s.subrange(start, end))
        },
    }
}

pub fn substring(s: &str, from: i64, count: Option<i64>) -> (r: Result<String, SqlError>)
    ensures
        gives(r, substring_of(s@, from, count)),
{
    let chars = chars_of(s);
    let start = clamp_to((from as i128) - 1, chars.len());
    match count {
        None => Ok(text_between(&chars, start, chars.len())),
        Some(n) => {
            if n < 0 {
                return Err(SqlError::parameter("substring(): a negative length"));
            }
            let end = clamp_to((from as i128) - 1 + (n as i128), chars.len());
            Ok(text_between(&chars, start, end))
        },
    }
}

/// `left(s, n)`: the first `n` characters; with a negative `n`, all but the
/// last `-n`.
pub open spec fn left_of(s: Seq<char>, n: i64) -> Seq<char> {
    if n >= 0 {
        s.take(clamped(n as int, s.len() as int))
    } else {
        s.take(clamped(s.len() + n, s.len() as int))
    }
}

pub fn left(s: &str, n: i64) -> (r: String)
    ensures
        r@ == left_of(s@, n),
{
    let chars = chars_of(s);
    let end = if n >= 0 {
        clamp_to(n as i128, chars.len())
    } else {
        clamp_to((chars.len() as i128) + (n as i128), chars.len())
    };
    assert(chars@.subrange(0, end as int) =~= s@.take(end as int));
    text_between(&chars, 0, end)
}

/// `right(s, n)`: the last `n` characters; with a negative `n`, all but the
/// first `-n`.
pub open spec fn right_of(s: Seq<char>, n: i64) -> Seq<char> {
    if n >= 0 {
        s.skip(clamped(s.len() - n, s.len() as int))
    } else {
        s.skip(clamped(-n, s.len() as int))
    }
}

pub fn right(s: &str, n: i64) -> (r: String)
    ensures
        r@ == right_of(s@, n),
{
    let chars = chars_of(s);
    let start = if n >= 0 {
        clamp_to((chars.len() as i128) - (n as i128), chars.len())
    } else {
        clamp_to(0 - (n as i128), chars.len())
    };
    assert(chars@.subrange(start as int, chars@.len() as int) =~= s@.skip(start as int));
    text_between(&chars, start, chars.len())
}

// ── position, replace, split_part ────────────────────────────────────────

/// `position(part IN s)`: where `part` first stands, counted from one, or zero.
pub open spec fn position_of(s: Seq<char>, part: Seq<char>) -> i64 {
    match find_from(s, part, 0) {
        Some(at) => stored_count(at as int + 1),
        None => 0,
    }
}

pub fn position(s: &str, part: &str) -> (r: i64)
    ensures
        r == position_of(s@, part@),
{
    let p = chars_of(part);
    let x = chars_of(s);
    match find(&x, &p, 0) {
        Some(at) => if at as u64 >= 9223372036854775807 {
            9223372036854775807
        } else {
            at as i64 + 1
        },
        None => 0,
    }
}

/// `s` from `start` on with every `part`, from the left and without overlap,
/// replaced by `with`.
pub open spec fn replaced_from(
    s: Seq<char>,
    part: Seq<char>,
    with: Seq<char>,
    start: nat,
) -> Seq<char>
    decreases s.len() - start,
{
    match find_from(s, part, start) {
        Some(at) => if part.len() > 0 && at >= start && at + part.len() <= s.len() {
            s.subrange(start as int, at as int) + with + replaced_from(
                s,
                part,
                with,
                at + part.len(),
            )
        } else {
            s.skip(start as int)
        },
        None => s.skip(start as int),
    }
}

/// `with` before every character of `s` from `i` on, and at the end.
pub open spec fn spread(s: Seq<char>, with: Seq<char>, i: int) -> Seq<char>
    decreases s.len() - i,
{
    if 0 <= i < s.len() {
        with.push(s[i]) + spread(s, with, i + 1)
    } else {
        with
    }
}

/// `replace(s, part, with)`.
pub open spec fn replaced(s: Seq<char>, part: Seq<char>, with: Seq<char>) -> Seq<char> {
    if part.len() == 0 {
        spread(s, with, 0)
    } else {
        replaced_from(s, part, with, 0)
    }
}

pub fn replace(s: &str, part: &str, with: &str) -> (r: String)
    ensures
        r@ == replaced(s@, part@, with@),
{
    let x = chars_of(s);
    let p = chars_of(part);
    let mut out = String::new();
    if p.len() == 0 {
        let mut i: usize = 0;
        assert(out@ + spread(s@, with@, 0) =~= spread(s@, with@, 0));
        while i < x.len()
            invariant
                x@ == s@,
                i <= x@.len(),
                out@ + spread(s@, with@, i as int) == spread(s@, with@, 0),
            decreases x@.len() - i,
        {
            let ghost before = out@;
            out.append(with);
            out.push(x[i]);
            i = i + 1;
            assert(out@ + spread(s@, with@, i as int) =~= before + (with@.push(s@[i - 1]) + spread(
                s@,
                with@,
                i as int,
            )));
        }
        out.append(with);
        return out;
    }
    let n: usize = x.len();
    let mut start: usize = 0;
    assert(out@ + replaced_from(s@, part@, with@, 0) =~= replaced_from(s@, part@, with@, 0));
    loop
        invariant
            x@ == s@,
            p@ == part@,
            p@.len() > 0,
            start <= x@.len(),
            n == x@.len(),
            out@ + replaced_from(s@, part@, with@, start as nat) == replaced_from(
                s@,
                part@,
                with@,
                0,
            ),
        decreases x@.len() - start,
    {
        match find(&x, &p, start) {
            Some(at) => {
                let ghost before = out@;
                let piece = text_between(&x, start, at);
                out.append(piece.as_str());
                out.append(with);
                let ghost rest = replaced_from(s@, part@, with@, (at + p@.len()) as nat);
                assert(out@ + rest =~= before + (piece@ + with@ + rest));
                start = at + p.len();
            },
            None => {
                let piece = text_between(&x, start, x.len());
                assert(s@.skip(start as int) =~= piece@);
                out.append(piece.as_str());
                return out;
            },
        }
    }
}

/// The fields of `s` between the `mark`s, from `start` on.
pub open spec fn fields_from(s: Seq<char>, mark: Seq<char>, start: nat) -> Seq<Seq<char>>
    decreases s.len() - start,
{
    match find_from(s, mark, start) {
        Some(at) => if mark.len() > 0 && at >= start && at + mark.len() <= s.len() {
            seq![s.subrange(start as int, at as int)] + fields_from(s, mark, at + mark.len())
        } else {
            seq![s.skip(start as int)]
        },
        None => seq![s.skip(start as int)],
    }
}

/// The fields of `s` between the `mark`s; an empty mark leaves `s` whole.
pub open spec fn fields_of(s: Seq<char>, mark: Seq<char>) -> Seq<Seq<char>> {
    if mark.len() == 0 {
        seq![s]
    } else {
        fields_from(s, mark, 0)
    }
}

fn fields(s: &str, mark: &str) -> (r: Vec<String>)
    ensures
        texts(r@) == fields_of(s@, mark@),
{
    let x = chars_of(s);
    let p = chars_of(mark);
    let mut out: Vec<String> = Vec::new();
    if p.len() == 0 {
        out.push(owned(s));
        assert(texts(out@) =~= seq![s@]);
        return out;
    }
    let n: usize = x.len();
    let mut start: usize = 0;
    assert(texts(out@) + fields_from(s@, mark@, 0) =~= fields_from(s@, mark@, 0));
    loop
        invariant
            x@ == s@,
            p@ == mark@,
            p@.len() > 0,
            start <= x@.len(),
            n == x@.len(),
            texts(out@) + fields_from(s@, mark@, start as nat) == fields_from(s@, mark@, 0),
        decreases x@.len() - start,
    {
        let ghost before = out@;
        match find(&x, &p, start) {
            Some(at) => {
                out.push(text_between(&x, start, at));
                let ghost rest = fields_from(s@, mark@, (at + p@.len()) as nat);
                assert(texts(out@) + rest =~= texts(before) + (seq![
                    s@.subrange(start as int, at as int),
                ] + rest));
                start = at + p.len();
            },
            None => {
                let last = text_between(&x, start, x.len());
                assert(s@.skip(start as int) =~= last@);
                out.push(last);
                assert(texts(out@) =~= texts(before) + seq![s@.skip(start as int)]);
                return out;
            },
        }
    }
}

/// `split_part(s, mark, n)`: the `n`-th field, counted from one, from the end
/// where `n` is negative; nothing where there is no such field.
pub open spec fn split_part_of(s: Seq<char>, mark: Seq<char>, n: i64) -> Result<
    Seq<char>,
    SqlErrorV,
> {
    let f = fields_of(s, mark);
    let at = if n > 0 {
        n - 1
    } else {
        f.len() + n
    };
    if n == 0 {
        Err(SqlErrorV::Parameter("split_part(): the field position counts from one"@))
    } else if 0 <= at < f.len() {
        Ok(f[at])
    } else {
        Ok(""@)
    }
}

pub fn split_part(s: &str, mark: &str, n: i64) -> (r: Result<String, SqlError>)
    ensures
        gives(r, split_part_of(s@, mark@, n)),
{
    if n == 0 {
        return Err(SqlError::parameter("split_part(): the field position counts from one"));
    }
    let f = fields(s, mark);
    let at: i128 = if n > 0 {
        (n as i128) - 1
    } else {
        (f.len() as i128) + (n as i128)
    };
    assert(texts(f@).len() == f@.len());
    if 0 <= at && at < f.len() as i128 {
        assert(texts(f@)[at as int] == f@[at as int]@);
        Ok(f[at as usize].clone())
    } else {
        Ok(owned(""))
    }
}

// ── prefixes ─────────────────────────────────────────────────────────────

/// The fixed prefix of a `LIKE` pattern: the pattern is that prefix and one
/// `%` behind it, and holds no other wildcard and no escape.
pub open spec fn like_prefix_of(pattern: Seq<char>) -> Option<Seq<char>> {
    if pattern.len() > 0 && pattern.last() == '%' && forall|i: int|
        0 <= i < pattern.len() - 1 ==> #[trigger] pattern[i] != '%' && pattern[i] != '_'
            && pattern[i] != '\\' {
        Some(pattern.drop_last())
    } else {
        None
    }
}

pub fn like_prefix(pattern: &str) -> (r: Option<String>)
    ensures
        match r {
            Some(p) => like_prefix_of(pattern@) == Some(p@),
            None => like_prefix_of(pattern@) is None,
        },
{
    let x = chars_of(pattern);
    if x.len() == 0 || x[x.len() - 1] != '%' {
        return None;
    }
    let mut i: usize = 0;
    while i < x.len() - 1
        invariant
            x@ == pattern@,
            x@.len() > 0,
            i <= x@.len() - 1,
            forall|k: int|
                0 <= k < i ==> #[trigger] pattern@[k] != '%' && pattern@[k] != '_' && pattern@[k]
                    != '\\',
        decreases x@.len() - i,
    {
        if x[i] == '%' || x[i] == '_' || x[i] == '\\' {
            return None;
        }
        i = i + 1;
    }
    assert(pattern@.drop_last() =~= x@.subrange(0, x@.len() - 1));
    Some(text_between(&x, 0, x.len() - 1))
}

/// The end of the range of texts that begin with a prefix.
#[derive(Debug)]
pub enum PrefixSuccessor {
    /// The first text behind the range.
    Bound(String),
    /// Every text is in the range.
    Unbounded,
    /// Adding one to the last byte of the prefix leaves UTF-8.
    NotUtf8,
}

pub enum PrefixSuccessorV {
    Bound(Seq<char>),
    Unbounded,
    NotUtf8,
}

impl DeepView for PrefixSuccessor {
    type V = PrefixSuccessorV;

    open spec fn deep_view(&self) -> PrefixSuccessorV {
        match *self {
            PrefixSuccessor::Bound(s) => PrefixSuccessorV::Bound(s@),
            PrefixSuccessor::Unbounded => PrefixSuccessorV::Unbounded,
            PrefixSuccessor::NotUtf8 => PrefixSuccessorV::NotUtf8,
        }
    }
}

/// Whether adding one to the last byte of `c` in UTF-8 gives the next
/// character: an ASCII character below DEL, or one whose last six bits are not
/// all set.
pub open spec fn has_next(c: char) -> bool {
    if (c as u32) < 0x80 {
        (c as u32) < 0x7f
    } else {
        (c as u32) % 64 != 63
    }
}

/// The character behind `c`.
pub open spec fn next_char(c: char) -> char {
    ((c as u32 + 1) as u32) as char
}

/// The character behind `c` is the next code point, where `c` has a next one.
pub proof fn next_char_value(c: char)
    requires
        has_next(c),
    ensures
        next_char(c) as int == c as int + 1,
        c as int + 1 < 0xd800 || 0xe000 <= c as int + 1 <= 0x10ffff,
{
}

/// The prefix with one added to the last byte of its UTF-8 form.
pub open spec fn successor_of(prefix: Seq<char>) -> PrefixSuccessorV {
    if prefix.len() == 0 {
        PrefixSuccessorV::Unbounded
    } else if has_next(prefix.last()) {
        PrefixSuccessorV::Bound(
            prefix.drop_last().push(next_char(prefix.last())),
        )
    } else {
        PrefixSuccessorV::NotUtf8
    }
}

fn code_point(c: char) -> (r: u32)
    ensures
        r as int == c as int,
        r == c as u32,
        r < 0xd800 || 0xe000 <= r <= 0x10ffff,
{
    c as u32
}

/// Calls `char::from_u32`: the character of a code point that is none of the
/// surrogates and no larger than the last one.
#[verifier::external_body]
fn char_at(n: u32) -> (r: char)
    requires
        n < 0xd800 || 0xe000 <= n <= 0x10ffff,
    ensures
        r as u32 == n,
{
    char::from_u32(n).unwrap()
}

pub fn prefix_successor(prefix: &str) -> (r: PrefixSuccessor)
    ensures
        r.deep_view() == successor_of(prefix@),
{
    let x = chars_of(prefix);
    if x.len() == 0 {
        return PrefixSuccessor::Unbounded;
    }
    let c: char = x[x.len() - 1];
    let last: u32 = code_point(c);
    let next = if last < 0x80 {
        last < 0x7f
    } else {
        last % 64 != 63
    };
    if !next {
        return PrefixSuccessor::NotUtf8;
    }
    let mut out = text_between(&x, 0, x.len() - 1);
    assert(prefix@.drop_last() =~= x@.subrange(0, x@.len() - 1));
    proof {
        next_char_value(c);
    }
    out.push(char_at(last + 1));
    PrefixSuccessor::Bound(out)
}

proof fn order_below(p: Seq<char>, s: Seq<char>, i: nat)
    requires
        i <= p.len(),
        i <= s.len(),
        stands_at(s, p, 0),
    ensures
        text_order_from(p, s, i) != Order::Greater,
    decreases p.len() - i,
{
    if i < p.len() {
        assert(s.subrange(0, p.len() as int)[i as int] == s[i as int]);
        order_below(p, s, i + 1);
    }
}

proof fn order_shared(a: Seq<char>, b: Seq<char>, i: nat, n: nat)
    requires
        i <= n,
        n <= a.len(),
        n <= b.len(),
        forall|k: int| i <= k < n ==> a[k] == b[k],
    ensures
        text_order_from(a, b, i) == text_order_from(a, b, n),
    decreases n - i,
{
    if i < n {
        order_shared(a, b, i + 1, n);
    }
}

/// Whether `a` and `b` first differ at `k`, where `a` ends or has the smaller
/// character.
spec fn smaller_at(a: Seq<char>, b: Seq<char>, i: int, k: int) -> bool {
    &&& i <= k <= a.len()
    &&& k < b.len()
    &&& forall|j: int| i <= j < k ==> #[trigger] a[j] == b[j]
    &&& k == a.len() || (a[k] as int) < b[k] as int
}

proof fn order_first_difference(a: Seq<char>, b: Seq<char>, i: nat) -> (k: int)
    requires
        i <= a.len(),
        i <= b.len(),
        text_order_from(a, b, i) == Order::Less,
    ensures
        smaller_at(a, b, i as int, k),
    decreases a.len() - i,
{
    if i < a.len() && i < b.len() && a[i as int] == b[i as int] {
        order_first_difference(a, b, i + 1)
    } else {
        i as int
    }
}

/// The range of a prefix is its texts and no others: a text begins with the
/// prefix exactly when it is not below the prefix and is below its successor.
pub proof fn prefix_range(prefix: Seq<char>, s: Seq<char>)
    requires
        successor_of(prefix) is Bound,
    ensures
        stands_at(s, prefix, 0) <==> text_order(prefix, s) != Order::Greater && text_order(
            s,
            successor_of(prefix)->Bound_0,
        ) == Order::Less,
{
    let next = successor_of(prefix)->Bound_0;
    let n = (prefix.len() - 1) as nat;
    next_char_value(prefix.last());
    assert(next[n as int] as int == prefix.last() as int + 1);
    assert(forall|j: int| 0 <= j < n ==> next[j] == prefix[j]);
    if stands_at(s, prefix, 0) {
        order_below(prefix, s, 0);
        assert forall|k: int| 0 <= k < prefix.len() implies s[k] == prefix[k] by {
            assert(s.subrange(0, prefix.len() as int)[k] == s[k]);
        }
        order_shared(s, next, 0, n);
        assert(s[n as int] == prefix.last());
    }
    if text_order(prefix, s) != Order::Greater && text_order(s, next) == Order::Less {
        let k = order_first_difference(s, next, 0);
        assert forall|j: int| 0 <= j < k implies s[j] == prefix[j] by {
            assert(s[j] == next[j]);
        }
        order_shared(prefix, s, 0, k as nat);
        if k == s.len() {
            assert(text_order_from(prefix, s, k as nat) == Order::Greater);
        } else if k < n {
            assert((s[k] as int) < prefix[k] as int);
            assert(text_order_from(prefix, s, k as nat) == Order::Greater);
        } else {
            assert(k == n);
            assert(s[k] as int <= prefix[k] as int);
            if (s[k] as int) < prefix[k] as int {
                assert(text_order_from(prefix, s, k as nat) == Order::Greater);
            }
            assert(s.subrange(0, prefix.len() as int) =~= prefix);
        }
    }
}

} // verus!
