//! What written values, units and lists are worth.

use vstd::prelude::*;
use crate::ast::{unit_text, LiteralV, TimeUnit, TimeValueV};
use crate::calendar::{day_at, extracted, fits, MICROS_PER_DAY};
use crate::compile::bind::{
    edge_value, scalar_of, terms_of, tsquery_text, value_of, vector_parts, BinderV, NumberV,
    ScalarV,
};
use crate::compile::env::{kind_from, kind_of, CollectionV};
use crate::compile::log::{EnvV, LogV};
use crate::compile::ranges::{time_value, whole_literal};
use crate::error::SqlErrorV;
use crate::instant::{after, padded, template_text, timestamp_text, unit_named, year_text};
use crate::iso::timestamp_reads_back;
use crate::meaning::catalogs::turned;
use crate::meaning::texts::joined as put_together;
use crate::meaning::writes::in_calendar;
use crate::number::{is_nan, negated, rank, real_order, RealV};
use crate::parser::cursor::{is_sym, next};
use crate::parser::value::{clock_offset, interval_micros, minus};
use crate::scan::{pieces, pieces_from, stands_at, trimmed};
use crate::text::lower;
use crate::timestamp::unit_micros;
use crate::token::{Sym, TokenV};
use crate::value::{Kind, ValueV};

verus! {

// ── values that are compared ─────────────────────────────────────────────

/// Whether a value of an index is the value that is written.
pub open spec fn is_value(x: ScalarV, v: ValueV) -> bool {
    match v {
        ValueV::Int(n) => x == ScalarV::I64(n) || x == ScalarV::F64(NumberV::Int(n)),
        ValueV::Real(n) => x == ScalarV::F64(NumberV::Real(n)),
        ValueV::Text(s) => x == ScalarV::Text(s),
        ValueV::Bool(b) => x == ScalarV::Bool(b),
        _ => false,
    }
}

/// What a column is compared with is the value that is written, as a value of
/// the column's kind; a value of another kind is refused.
pub proof fn compared_value_is_kept(b: BinderV, kind: Kind, l: LiteralV, column: Seq<char>)
    requires
        value_of(b, l) is Ok,
    ensures
        ({
            let v = value_of(b, l)->Ok_0;
            let r = scalar_of(b, kind, l, column);
            &&& r is Ok <==> match kind {
                Kind::Int => v is Int,
                Kind::Real => v is Int || v is Real,
                Kind::Text => v is Text,
                Kind::Bool => v is Bool,
                _ => false,
            }
            &&& r is Ok ==> is_value(r->Ok_0, v)
            &&& r is Ok && kind is Int ==> r->Ok_0 is I64
            &&& r is Ok && kind is Real ==> r->Ok_0 is F64
        }),
{
}

/// What a property of an edge is compared with is the value that is written.
pub proof fn edge_value_is_kept(b: BinderV, l: LiteralV, property: Seq<char>)
    requires
        value_of(b, l) is Ok,
    ensures
        ({
            let v = value_of(b, l)->Ok_0;
            let r = edge_value(b, l, property);
            &&& r is Ok <==> v is Int || v is Real || v is Text || v is Bool
            &&& r is Ok ==> is_value(r->Ok_0, v)
            &&& v is Int ==> r->Ok_0 is I64
        }),
{
}

/// An instant that is written as text, as a number of microseconds or by the
/// clock is that instant: `current_date` is the midnight of the clock's day, and
/// the intervals beside the clock are added to it.
pub proof fn instant_is_kept(env: EnvV, v: TimeValueV, column: Seq<char>, log: LogV, t: i64)
    ensures
        in_calendar(t) && v == TimeValueV::Lit(LiteralV::Str(timestamp_text(t as int)))
            ==> time_value(env, v, column, log) is Ok && time_value(env, v, column, log)->Ok_0.0 == t,
        v is Lit && value_of(env.binder, v->Lit_0) == Ok::<ValueV, SqlErrorV>(ValueV::Int(t))
            ==> time_value(env, v, column, log) is Ok && time_value(env, v, column, log)->Ok_0.0 == t,
        v is Clock && !v->date_only ==> (time_value(env, v, column, log) is Ok <==> fits(
            env.clock + v->offset,
        )),
        v is Clock && !v->date_only && time_value(env, v, column, log) is Ok ==> time_value(
            env,
            v,
            column,
            log,
        )->Ok_0.0 == env.clock + v->offset,
        v is Clock && v->date_only && time_value(env, v, column, log) is Ok ==> ({
            let midnight = time_value(env, v, column, log)->Ok_0.0 - v->offset;
            &&& midnight % 86_400_000_000 == 0
            &&& midnight <= env.clock < midnight + 86_400_000_000
        }),
{
    if in_calendar(t) {
        timestamp_reads_back(t);
    }
    let day = day_at(env.clock as int);
    assert(day * 86_400_000_000 <= env.clock < day * 86_400_000_000 + 86_400_000_000);
    assert((day * 86_400_000_000) % 86_400_000_000 == 0);
}

/// A number beside an `EXTRACT` is the number that is written.
pub proof fn whole_number_is_kept(env: EnvV, l: LiteralV, what: Seq<char>, log: LogV)
    requires
        value_of(env.binder, l) is Ok,
    ensures
        whole_literal(env, l, what, log) is Ok <==> value_of(env.binder, l)->Ok_0 is Int,
        whole_literal(env, l, what, log) is Ok ==> whole_literal(env, l, what, log)->Ok_0.0
            == value_of(env.binder, l)->Ok_0->Int_0,
{
}

/// A minus before a number turns it round: of two numbers the smaller one
/// becomes the larger.
pub proof fn minus_turns_the_order(a: RealV, b: RealV, exact: bool)
    ensures
        ({
            let x = minus(LiteralV::Num(a, exact));
            let y = minus(LiteralV::Num(b, exact));
            &&& x is Ok && x->Ok_0 is Num && x->Ok_0->Num_1 == exact
            &&& y is Ok && y->Ok_0 is Num
            &&& real_order(x->Ok_0->Num_0.bits, y->Ok_0->Num_0.bits) == turned(
                real_order(a.bits, b.bits),
            )
        }),
{
    negation_turns(a);
    negation_turns(b);
}

proof fn negation_turns(a: RealV)
    ensures
        rank(negated(a).bits) == -rank(a.bits),
        is_nan(negated(a).bits) == is_nan(a.bits),
{
    let n = a.bits as int;
    let m = negated(a).bits as int;
    assert(m == n + 0x8000_0000_0000_0000 || m == n - 0x8000_0000_0000_0000);
    assert(m % 0x10_0000_0000_0000 == n % 0x10_0000_0000_0000);
    assert((m / 0x10_0000_0000_0000) % 2048 == (n / 0x10_0000_0000_0000) % 2048);
}

// ── units ────────────────────────────────────────────────────────────────

/// A word is the name of a unit in either case, and of no other unit.
pub proof fn units_are_called_so(w: Seq<char>, u: TimeUnit)
    ensures
        unit_named(w) == Some(u) <==> lower(w) == unit_text(u),
{
    reveal_strlit("year");
    reveal_strlit("month");
    reveal_strlit("day");
    reveal_strlit("dow");
    reveal_strlit("hour");
    reveal_strlit("minute");
    reveal_strlit("second");
    reveal_strlit("epoch");
    assert("year"@.len() == 4 && "hour"@.len() == 4 && "year"@[0] != "hour"@[0]);
    assert("month"@.len() == 5 && "epoch"@.len() == 5 && "month"@[0] != "epoch"@[0]);
    assert("day"@.len() == 3 && "dow"@.len() == 3 && "day"@[1] != "dow"@[1]);
    assert("minute"@.len() == 6 && "second"@.len() == 6 && "minute"@[0] != "second"@[0]);
}

/// The day of the week goes on by one each midnight and comes round after seven
/// days; the day of instant zero is a Thursday, and Sunday is zero.
pub proof fn weekdays_go_round(t: int)
    ensures
        0 <= extracted(TimeUnit::Dow, t) < 7,
        extracted(TimeUnit::Dow, t + MICROS_PER_DAY) == (extracted(TimeUnit::Dow, t) + 1) % 7,
        extracted(TimeUnit::Dow, 0) == 4,
        forall|u: int|
            day_at(u) == day_at(t) ==> #[trigger] extracted(TimeUnit::Dow, u) == extracted(
                TimeUnit::Dow,
                t,
            ),
{
    assert(day_at(t + MICROS_PER_DAY) == day_at(t) + 1);
}

/// The epoch of an instant is its whole seconds.
pub proof fn epoch_counts_seconds(t: int)
    ensures
        extracted(TimeUnit::Epoch, t) * 1_000_000 <= t,
        t < extracted(TimeUnit::Epoch, t) * 1_000_000 + 1_000_000,
{
}

proof fn stands_two(f: Seq<char>, a: char, b: char, i: int)
    requires
        0 <= i,
        i + 2 <= f.len(),
    ensures
        stands_at(f, seq![a, b], i) <==> f[i] == a && f[i + 1] == b,
{
    let part = f.subrange(i, i + 2);
    if f[i] == a && f[i + 1] == b {
        assert(part =~= seq![a, b]);
    } else {
        assert(part[0] == f[i] && part[1] == f[i + 1]);
        assert(seq![a, b][0] == a && seq![a, b][1] == b);
    }
}

proof fn stands_four(f: Seq<char>, a: char, b: char, c: char, d: char, i: int)
    requires
        0 <= i,
        i + 4 <= f.len(),
    ensures
        stands_at(f, seq![a, b, c, d], i) <==> f[i] == a && f[i + 1] == b && f[i + 2] == c && f[i + 3]
            == d,
{
    let part = f.subrange(i, i + 4);
    let want = seq![a, b, c, d];
    if f[i] == a && f[i + 1] == b && f[i + 2] == c && f[i + 3] == d {
        assert(part =~= want);
    } else {
        assert(part[0] == f[i] && part[1] == f[i + 1] && part[2] == f[i + 2] && part[3] == f[i + 3]);
        assert(want[0] == a && want[1] == b && want[2] == c && want[3] == d);
    }
}

/// A field of a template is the field of the instant, with two digits, or four
/// for the year; a mark is itself, and what follows is shaped in the same way.
pub proof fn template_keeps_its_fields(t: int, f: Seq<char>, i: nat)
    requires
        i < f.len(),
    ensures
        i + 4 <= f.len() && f.subrange(i as int, i as int + 4) == seq!['Y', 'Y', 'Y', 'Y'] ==> template_text(t, f, i)
            == after(year_text(extracted(TimeUnit::Year, t)), template_text(t, f, i + 4)),
        i + 4 <= f.len() && f.subrange(i as int, i as int + 4) == seq!['H', 'H', '2', '4'] ==> template_text(t, f, i)
            == after(padded(extracted(TimeUnit::Hour, t) as nat, 2), template_text(t, f, i + 4)),
        i + 2 <= f.len() && f[i as int] == 'M' && f[i as int + 1] == 'M' ==> template_text(t, f, i) == after(
            padded(extracted(TimeUnit::Month, t) as nat, 2),
            template_text(t, f, i + 2),
        ),
        i + 2 <= f.len() && f[i as int] == 'D' && f[i as int + 1] == 'D' ==> template_text(t, f, i) == after(
            padded(extracted(TimeUnit::Day, t) as nat, 2),
            template_text(t, f, i + 2),
        ),
        i + 2 <= f.len() && f[i as int] == 'M' && f[i as int + 1] == 'I' ==> template_text(t, f, i) == after(
            padded(extracted(TimeUnit::Minute, t) as nat, 2),
            template_text(t, f, i + 2),
        ),
        i + 2 <= f.len() && f[i as int] == 'S' && f[i as int + 1] == 'S' ==> template_text(t, f, i) == after(
            padded(extracted(TimeUnit::Second, t) as nat, 2),
            template_text(t, f, i + 2),
        ),
        f[i as int] == '-' || f[i as int] == ':' || f[i as int] == ' ' || f[i as int] == '/'
            ==> template_text(t, f, i) == after(seq![f[i as int]], template_text(t, f, i + 1)),
{
    let k = i as int;
    if k + 2 <= f.len() {
        stands_two(f, 'M', 'M', k);
        stands_two(f, 'D', 'D', k);
        stands_two(f, 'M', 'I', k);
        stands_two(f, 'S', 'S', k);
    }
    if k + 4 <= f.len() {
        stands_four(f, 'Y', 'Y', 'Y', 'Y', k);
        stands_four(f, 'H', 'H', '2', '4', k);
    }
}

/// The units of an interval make up one another.
pub proof fn units_make_up_one_another()
    ensures
        unit_micros("microsecond"@) == Some(1int),
        unit_micros("millisecond"@) == Some(1000 * unit_micros("microsecond"@)->0),
        unit_micros("second"@) == Some(1000 * unit_micros("millisecond"@)->0),
        unit_micros("minute"@) == Some(60 * unit_micros("second"@)->0),
        unit_micros("hour"@) == Some(60 * unit_micros("minute"@)->0),
        unit_micros("day"@) == Some(24 * unit_micros("hour"@)->0),
        unit_micros("day"@) == Some(MICROS_PER_DAY as int),
        unit_micros("week"@) == Some(7 * unit_micros("day"@)->0),
{
    reveal_strlit("microsecond");
    reveal_strlit("microseconds");
    reveal_strlit("millisecond");
    reveal_strlit("milliseconds");
    reveal_strlit("second");
    reveal_strlit("seconds");
    reveal_strlit("minute");
    reveal_strlit("minutes");
    reveal_strlit("hour");
    reveal_strlit("hours");
    reveal_strlit("day");
    reveal_strlit("days");
    reveal_strlit("week");
    reveal_strlit("weeks");
    assert(lower("microsecond"@) =~= "microsecond"@);
    assert(lower("millisecond"@) =~= "millisecond"@);
    assert(lower("second"@) =~= "second"@);
    assert(lower("minute"@) =~= "minute"@);
    assert(lower("hour"@) =~= "hour"@);
    assert(lower("day"@) =~= "day"@);
    assert(lower("week"@) =~= "week"@);
    assert("microsecond"@.len() == 11 && "millisecond"@.len() == 11);
    assert("microseconds"@.len() == 12 && "milliseconds"@.len() == 12);
    assert("microsecond"@[2] == 'c' && "millisecond"@[2] == 'l');
    assert("second"@.len() == 6 && "minute"@.len() == 6 && "second"@[0] == 's' && "minute"@[0] == 'm');
    assert("seconds"@.len() == 7 && "minutes"@.len() == 7);
    assert("hour"@.len() == 4 && "week"@.len() == 4 && "days"@.len() == 4 && "day"@.len() == 3);
    assert("hour"@[0] == 'h' && "week"@[0] == 'w' && "days"@[0] == 'd');
    assert("hours"@.len() == 5 && "weeks"@.len() == 5);
}

/// An interval behind a plus is added to the clock, and one behind a minus is
/// taken from it.
pub proof fn intervals_add_up(t: Seq<TokenV>, s: int, sum: int)
    requires
        -i64::MAX <= sum <= i64::MAX,
        clock_offset(t, s, sum) is Ok,
    ensures
        !is_sym(t, s, Sym::Plus) && !is_sym(t, s, Sym::Minus) ==> clock_offset(t, s, sum)->Ok_0.0
            == sum,
        is_sym(t, s, Sym::Plus) || is_sym(t, s, Sym::Minus) ==> interval_micros(t, next(t, s)) is Ok
            && ({
            let (n, end) = interval_micros(t, next(t, s))->Ok_0;
            let now = if is_sym(t, s, Sym::Plus) {
                sum + n
            } else {
                sum - n
            };
            if s < end <= t.len() {
                clock_offset(t, s, sum) == clock_offset(t, end, now)
            } else {
                clock_offset(t, s, sum)->Ok_0.0 == now
            }
        }),
{
}

// ── lists ────────────────────────────────────────────────────────────────

proof fn pieces_join(s: Seq<char>, c: char, start: int, i: int)
    requires
        0 <= start <= i <= s.len(),
        forall|k: int| start <= k < i ==> #[trigger] s[k] != c,
    ensures
        pieces_from(s, c, start, i).len() > 0,
        put_together(pieces_from(s, c, start, i), seq![c]) == s.skip(start),
        forall|k: int|
            0 <= k < pieces_from(s, c, start, i).len() ==> !(#[trigger] pieces_from(
                s,
                c,
                start,
                i,
            )[k]).contains(c),
    decreases s.len() - i,
{
    let all = pieces_from(s, c, start, i);
    if i >= s.len() {
        assert(all[0] =~= s.skip(start));
    } else if s[i] == c {
        pieces_join(s, c, i + 1, i + 1);
        let rest = pieces_from(s, c, i + 1, i + 1);
        let first = s.subrange(start, i);
        assert(all.drop_first() =~= rest);
        assert(all[0] == first);
        assert(first + seq![c] + s.skip(i + 1) =~= s.skip(start));
        assert forall|k: int| 0 <= k < all.len() implies !(#[trigger] all[k]).contains(c) by {
            if k > 0 {
                assert(all[k] == rest[k - 1]);
            } else if first.contains(c) {
                let j = choose|j: int| 0 <= j < first.len() && first[j] == c;
                assert(s[start + j] == c);
            }
        }
    } else {
        pieces_join(s, c, start, i + 1);
    }
}

/// A text is its pieces with the mark between them, and no piece holds the mark.
pub proof fn pieces_make_up_the_text(s: Seq<char>, c: char)
    ensures
        put_together(pieces(s, c), seq![c]) == s,
        forall|k: int| 0 <= k < pieces(s, c).len() ==> !(#[trigger] pieces(s, c)[k]).contains(c),
{
    pieces_join(s, c, 0, 0);
    assert(s.skip(0) =~= s);
}

/// A vector is written in brackets, with a comma between each two numbers: its
/// parts are those between the commas, without the white space round them.
pub proof fn vector_is_its_parts(text: Seq<char>)
    requires
        vector_parts(text) is Ok,
        vector_parts(text)->Ok_0.len() > 0,
    ensures
        ({
            let t = trimmed(text);
            let parts = vector_parts(text)->Ok_0;
            &&& t.len() >= 2 && t[0] == '[' && t.last() == ']'
            &&& exists|list: Seq<Seq<char>>|
                {
                    &&& put_together(list, seq![',']) == t.subrange(1, t.len() - 1)
                    &&& (#[trigger] list.len()) == parts.len()
                    &&& forall|k: int| 0 <= k < list.len() ==> !(#[trigger] list[k]).contains(',')
                    &&& forall|k: int| 0 <= k < list.len() ==> parts[k] == trimmed(#[trigger] list[k])
                }
        }),
{
    let t = trimmed(text);
    let inner = t.subrange(1, t.len() - 1);
    pieces_make_up_the_text(inner, ',');
    let list = pieces(inner, ',');
    assert(list.len() == vector_parts(text)->Ok_0.len());
}

/// A tsquery of terms with `|` between them asks for any of them, one with `&`
/// between them for all; one in double quotes asks for the phrase inside.
pub proof fn tsquery_keeps_its_meaning(text: Seq<char>)
    requires
        tsquery_text(text) is Ok,
    ensures
        ({
            let t = trimmed(text);
            let (query, matching) = tsquery_text(text)->Ok_0;
            let quoted = t.len() >= 2 && t[0] == '"' && t.last() == '"';
            let terms = terms_of(pieces(t, if t.contains('|') { '|' } else { '&' }));
            &&& quoted ==> matching is Phrase && query == trimmed(t.subrange(1, t.len() - 1))
            &&& !quoted && !t.contains('\'') ==> {
                &&& !t.contains('!')
                &&& !(t.contains('|') && t.contains('&'))
                &&& query == crate::text::joined(terms, " "@)
                &&& t.contains('|') ==> matching is Any
                &&& !t.contains('|') && terms.len() != 1 ==> matching is All
            }
        }),
{
}

// ── columns ──────────────────────────────────────────────────────────────

proof fn kind_is_first(fields: Seq<(Seq<char>, Kind)>, name: Seq<char>, i: nat)
    ensures
        match kind_from(fields, name, i) {
            Some(kind) => exists|k: int|
                i <= k < fields.len() && (#[trigger] fields[k]) == (name, kind) && forall|j: int|
                    i <= j < k ==> (#[trigger] fields[j]).0 != name,
            None => forall|k: int| i <= k < fields.len() ==> (#[trigger] fields[k]).0 != name,
        },
    decreases fields.len() - i,
{
    if i < fields.len() {
        if fields[i as int].0 == name {
            assert(fields[i as int] == (name, fields[i as int].1));
        } else {
            kind_is_first(fields, name, i + 1);
            if kind_from(fields, name, i + 1) is Some {
                let kind = kind_from(fields, name, i + 1)->0;
                let k = choose|k: int|
                    i + 1 <= k < fields.len() && (#[trigger] fields[k]) == (name, kind) && forall|
                        j: int,
                    |
                        i + 1 <= j < k ==> (#[trigger] fields[j]).0 != name;
                assert(fields[k] == (name, kind));
            }
        }
    }
}

/// The kind of a column is the one that is declared for its name.
pub proof fn kind_is_declared(c: CollectionV, name: Seq<char>)
    ensures
        kind_of(c, name) is Ok <==> exists|k: int|
            0 <= k < c.fields.len() && (#[trigger] c.fields[k]).0 == name,
        kind_of(c, name) is Ok ==> exists|k: int|
            0 <= k < c.fields.len() && (#[trigger] c.fields[k]) == (name, kind_of(c, name)->Ok_0)
                && forall|j: int| 0 <= j < k ==> (#[trigger] c.fields[j]).0 != name,
{
    kind_is_first(c.fields, name, 0);
    if kind_of(c, name) is Ok {
        let k = choose|k: int|
            0 <= k < c.fields.len() && (#[trigger] c.fields[k]) == (name, kind_of(c, name)->Ok_0)
                && forall|j: int| 0 <= j < k ==> (#[trigger] c.fields[j]).0 != name;
        assert(c.fields[k].0 == name);
    }
}

} // verus!
