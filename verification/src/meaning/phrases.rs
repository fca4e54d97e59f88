//! What a written row expression is worth.

use vstd::prelude::*;
use crate::ast::{RowExprV, StrFunc, TimeUnit};
use crate::calendar::{extracted, fits, unit_start, unit_truncates};
use crate::compile::env::CollectionV;
use crate::compile::log::EnvV;
use crate::compile::row::{is_nullish, string_result};
use crate::meaning::expressions::{begun, spelled, stored_number, worth, worths};
use crate::parser::cursor::{is_sym, is_word, next, tok, want, want_word};
use crate::parser::row::{
    age_call, cast_row, clock_row, extract_call, extract_unit, position_call, row_atom, row_expr,
    row_tail, strpos_call, substring_call, trunc_call, trunc_unit,
};
use crate::token::{Sym, TokV, TokenV};
use crate::value::SqlValueV;

verus! {

/// Whether an expression is worth a whole number.
pub open spec fn is_number(
    env: EnvV,
    c: CollectionV,
    cell: spec_fn(Seq<char>) -> SqlValueV,
    e: RowExprV,
    n: int,
) -> bool {
    i64::MIN <= n <= i64::MAX && worth(env, c, cell, e) == Some(SqlValueV::Int(n as i64))
}

/// What an expression is worth to a function of texts.
pub open spec fn text_worth(
    env: EnvV,
    c: CollectionV,
    cell: spec_fn(Seq<char>) -> SqlValueV,
    e: RowExprV,
) -> Option<SqlValueV> {
    match worth(env, c, cell, e) {
        Some(v) => spelled(c, e, v),
        None => None,
    }
}

/// Whether an expression is there for a function of texts, as a value.
pub open spec fn reads_as(
    env: EnvV,
    c: CollectionV,
    cell: spec_fn(Seq<char>) -> SqlValueV,
    e: RowExprV,
    v: SqlValueV,
) -> bool {
    text_worth(env, c, cell, e) == Some(v) && !is_nullish(v)
}

// ── signs ────────────────────────────────────────────────────────────────

/// A plus, a minus or a `||` between two row expressions is the sum, the
/// difference or the one text behind the other, with the left one first; what
/// follows takes the result on its left.
pub proof fn row_signs_keep_their_meaning(
    env: EnvV,
    c: CollectionV,
    cell: spec_fn(Seq<char>) -> SqlValueV,
    t: Seq<TokenV>,
    s: int,
    d: nat,
    x: Sym,
    left: RowExprV,
)
    requires
        x is Plus || x is Minus || x is Concat,
        tok(t, s) == TokV::Sym(x),
        row_tail(t, s, d, left) is Ok,
    ensures
        row_atom(t, next(t, s), d) is Ok,
        ({
            let (right, end) = row_atom(t, next(t, s), d)->Ok_0;
            exists|node: RowExprV|
                {
                    &&& s < end <= t.len() ==> row_tail(t, s, d, left) == row_tail(t, end, d, node)
                    &&& !(s < end <= t.len()) ==> row_tail(t, s, d, left)->Ok_0.0 == node
                    &&& forall|a: int, b: int|
                        x is Plus && is_number(env, c, cell, left, a) && is_number(
                            env,
                            c,
                            cell,
                            right,
                            b,
                        ) ==> #[trigger] worth(env, c, cell, node) == Some(#[trigger] stored_number(a + b))
                    &&& forall|a: int, b: int|
                        x is Minus && is_number(env, c, cell, left, a) && is_number(
                            env,
                            c,
                            cell,
                            right,
                            b,
                        ) ==> worth(env, c, cell, node) == Some(#[trigger] stored_number(a - b))
                    &&& forall|a: Seq<char>, b: Seq<char>|
                        x is Concat && reads_as(env, c, cell, left, SqlValueV::Text(a)) && reads_as(
                            env,
                            c,
                            cell,
                            right,
                            SqlValueV::Text(b),
                        ) ==> worth(env, c, cell, node) == Some(SqlValueV::Text(#[trigger] (a + b)))
                }
        }),
{
    let (right, end) = row_atom(t, next(t, s), d)->Ok_0;
    let node = crate::parser::row::row_joined(tok(t, s), left, right)->0;
    let v = worth(env, c, cell, node);
    assert forall|a: int, b: int|
        x is Plus && is_number(env, c, cell, left, a) && is_number(env, c, cell, right, b) implies v
        == Some(#[trigger] stored_number(a + b)) by {}
    assert forall|a: int, b: int|
        x is Minus && is_number(env, c, cell, left, a) && is_number(env, c, cell, right, b) implies v
        == Some(#[trigger] stored_number(a - b)) by {}
    assert forall|a: Seq<char>, b: Seq<char>|
        x is Concat && reads_as(env, c, cell, left, SqlValueV::Text(a)) && reads_as(
            env,
            c,
            cell,
            right,
            SqlValueV::Text(b),
        ) implies v == Some(SqlValueV::Text(#[trigger] (a + b))) by {}
}

/// The clock is the instant of the statement, or the midnight of its day, with
/// the intervals beside it added.
pub proof fn clock_keeps_its_meaning(
    env: EnvV,
    c: CollectionV,
    cell: spec_fn(Seq<char>) -> SqlValueV,
    offset: i64,
)
    ensures
        worth(env, c, cell, clock_row(false, offset)) == Some(stored_number(env.clock + offset)),
        fits(unit_start(TimeUnit::Day, env.clock as int)) ==> worth(
            env,
            c,
            cell,
            clock_row(true, offset),
        ) == Some(stored_number(unit_start(TimeUnit::Day, env.clock as int) + offset)),
{
    let now = RowExprV::Now;
    let today = RowExprV::CurrentDate;
    let more = RowExprV::Interval(offset);
    assert(worth(env, c, cell, now) == Some(SqlValueV::Int(env.clock)));
    assert(worth(env, c, cell, more) == Some(SqlValueV::Int(offset)));
    assert(worth(env, c, cell, today) == begun(TimeUnit::Day, Some(env.clock as int)));
    assert(unit_truncates(TimeUnit::Day));
    assert(worth(env, c, cell, clock_row(false, offset)) == Some(
        stored_number(env.clock + offset),
    ));
}

/// A cast to a date is the midnight of the day, a cast to text the text of the
/// value, and any other cast the value itself.
pub proof fn casts_keep_their_meaning(
    env: EnvV,
    c: CollectionV,
    cell: spec_fn(Seq<char>) -> SqlValueV,
    w: Seq<char>,
    e: RowExprV,
    t: int,
)
    requires
        cast_row(w, e) is Some,
        is_number(env, c, cell, e, t),
    ensures
        w == "DATE"@ && fits(unit_start(TimeUnit::Day, t)) ==> is_number(
            env,
            c,
            cell,
            cast_row(w, e)->0,
            unit_start(TimeUnit::Day, t),
        ),
        (w == "TEXT"@ || w == "VARCHAR"@) && !(e is Column) ==> worth(env, c, cell, cast_row(w, e)->0)
            == Some(SqlValueV::Text(crate::text::decimal(t))),
        w != "DATE"@ && w != "TEXT"@ && w != "VARCHAR"@ ==> is_number(
            env,
            c,
            cell,
            cast_row(w, e)->0,
            t,
        ),
{
    reveal_strlit("DATE");
    reveal_strlit("TEXT");
    reveal_strlit("VARCHAR");
    assert("DATE"@[0] != "TEXT"@[0] && "DATE"@.len() == 4 && "TEXT"@.len() == 4);
    assert("VARCHAR"@.len() == 7);
    assert(unit_truncates(TimeUnit::Day));
    let cast = cast_row(w, e)->0;
    let v = worth(env, c, cell, cast);
    if w == "DATE"@ {
        assert(cast == RowExprV::CastDate(Box::new(e)));
    } else if w == "TEXT"@ || w == "VARCHAR"@ {
        assert(cast == RowExprV::CastText(Box::new(e)));
    } else {
        assert(cast == e);
    }
}

// ── calls ────────────────────────────────────────────────────────────────

/// `age(a, b)` is how long after `b` the instant `a` is, and `age(a)` how long
/// ago.
pub proof fn age_keeps_its_meaning(
    env: EnvV,
    c: CollectionV,
    cell: spec_fn(Seq<char>) -> SqlValueV,
    t: Seq<TokenV>,
    s: int,
    d: nat,
    a: int,
    b: int,
)
    requires
        age_call(t, s, d) is Ok,
        ({
            let (left, s1) = row_expr(t, want(t, s, Sym::LParen)->Ok_0, d)->Ok_0;
            &&& is_number(env, c, cell, left, a)
            &&& is_sym(t, s1, Sym::Comma) ==> is_number(
                env,
                c,
                cell,
                row_expr(t, next(t, s1), d)->Ok_0.0,
                b,
            )
        }),
    ensures
        ({
            let (left, s1) = row_expr(t, want(t, s, Sym::LParen)->Ok_0, d)->Ok_0;
            let v = worth(env, c, cell, age_call(t, s, d)->Ok_0.0);
            if is_sym(t, s1, Sym::Comma) {
                v == Some(stored_number(a - b))
            } else {
                v == Some(stored_number(env.clock - a))
            }
        }),
{
}

/// `EXTRACT(unit FROM e)` is that field of the instant, and `date_trunc` the
/// start of the unit that the instant lies in.
pub proof fn time_calls_keep_their_meaning(
    env: EnvV,
    c: CollectionV,
    cell: spec_fn(Seq<char>) -> SqlValueV,
    t: Seq<TokenV>,
    s: int,
    d: nat,
    a: int,
)
    ensures
        extract_call(t, s, d) is Ok ==> ({
            let (unit, s1) = extract_unit(t, want(t, s, Sym::LParen)->Ok_0)->Ok_0;
            let arg = row_expr(t, want_word(t, s1, "FROM"@)->Ok_0, d)->Ok_0.0;
            is_number(env, c, cell, arg, a) ==> worth(env, c, cell, extract_call(t, s, d)->Ok_0.0)
                == Some(SqlValueV::Int(extracted(unit, a) as i64))
        }),
        trunc_call(t, s, d) is Ok ==> ({
            let (unit, s1) = trunc_unit(t, want(t, s, Sym::LParen)->Ok_0)->Ok_0;
            let arg = row_expr(t, want(t, s1, Sym::Comma)->Ok_0, d)->Ok_0.0;
            is_number(env, c, cell, arg, a) && fits(unit_start(unit, a)) ==> is_number(
                env,
                c,
                cell,
                trunc_call(t, s, d)->Ok_0.0,
                unit_start(unit, a),
            )
        }),
{
    if extract_call(t, s, d) is Ok {
        let (unit, s1) = extract_unit(t, want(t, s, Sym::LParen)->Ok_0)->Ok_0;
        let arg = row_expr(t, want_word(t, s1, "FROM"@)->Ok_0, d)->Ok_0.0;
        assert(extract_call(t, s, d)->Ok_0.0 == (RowExprV::Extract { unit, arg: Box::new(arg) }));
    }
    if trunc_call(t, s, d) is Ok {
        let (unit, s1) = trunc_unit(t, want(t, s, Sym::LParen)->Ok_0)->Ok_0;
        let arg = row_expr(t, want(t, s1, Sym::Comma)->Ok_0, d)->Ok_0.0;
        assert(trunc_call(t, s, d)->Ok_0.0 == (RowExprV::Trunc { unit, arg: Box::new(arg) }));
    }
}

proof fn list_worth(
    env: EnvV,
    c: CollectionV,
    cell: spec_fn(Seq<char>) -> SqlValueV,
    func: StrFunc,
    args: Seq<RowExprV>,
    values: Seq<SqlValueV>,
)
    requires
        args.len() == values.len(),
        forall|i: int| 0 <= i < args.len() ==> reads_as(env, c, cell, #[trigger] args[i], values[i]),
    ensures
        worths(env, c, cell, func, args) == Some(Some(values)),
    decreases args.len(),
{
    if args.len() == 0 {
        assert(values =~= Seq::empty());
    } else {
        let init = args.drop_last();
        let rest = values.drop_last();
        assert forall|i: int| 0 <= i < init.len() implies reads_as(
            env,
            c,
            cell,
            #[trigger] init[i],
            rest[i],
        ) by {
            assert(args[i] == init[i]);
        }
        list_worth(env, c, cell, func, init, rest);
        let n = args.len() - 1;
        assert(reads_as(env, c, cell, args[n], values[n]));
        assert(rest.push(values.last()) =~= values);
    }
}

/// A string function of expressions is that function of what they are worth.
pub proof fn string_call_keeps_its_meaning(
    env: EnvV,
    c: CollectionV,
    cell: spec_fn(Seq<char>) -> SqlValueV,
    func: StrFunc,
    args: Seq<RowExprV>,
    values: Seq<SqlValueV>,
)
    requires
        args.len() == values.len(),
        forall|i: int| 0 <= i < args.len() ==> reads_as(env, c, cell, #[trigger] args[i], values[i]),
        string_result(func, values) is Ok,
    ensures
        worth(env, c, cell, RowExprV::Str { func, args }) == Some(string_result(func, values)->Ok_0),
{
    list_worth(env, c, cell, func, args, values);
}

/// `position(part IN text)` and `strpos(text, part)` ask for the same place: that
/// of the part in the text.
pub proof fn position_keeps_its_meaning(t: Seq<TokenV>, s: int, d: nat)
    ensures
        position_call(t, s, d) is Ok ==> ({
            let (part, s1) = row_expr(t, want(t, s, Sym::LParen)->Ok_0, d)->Ok_0;
            let text = row_expr(t, want_word(t, s1, "IN"@)->Ok_0, d)->Ok_0.0;
            position_call(t, s, d)->Ok_0.0 == (RowExprV::Str {
                func: StrFunc::Position,
                args: seq![text, part],
            })
        }),
        strpos_call(t, s, d) is Ok ==> ({
            let (text, s1) = row_expr(t, want(t, s, Sym::LParen)->Ok_0, d)->Ok_0;
            let part = row_expr(t, want(t, s1, Sym::Comma)->Ok_0, d)->Ok_0.0;
            strpos_call(t, s, d)->Ok_0.0 == (RowExprV::Str {
                func: StrFunc::Position,
                args: seq![text, part],
            })
        }),
{
}

/// `substring(text FROM start FOR count)` and `substring(text, start, count)` ask
/// for the same part of the text.
pub proof fn substring_keeps_its_meaning(t: Seq<TokenV>, s: int, d: nat)
    requires
        substring_call(t, s, d) is Ok,
    ensures
        ({
            let (text, s1) = row_expr(t, want(t, s, Sym::LParen)->Ok_0, d)->Ok_0;
            let worded = is_word(t, s1, "FROM"@);
            let s2 = if worded {
                next(t, s1)
            } else {
                want(t, s1, Sym::Comma)->Ok_0
            };
            let (from, s3) = row_expr(t, s2, d)->Ok_0;
            let more = if worded {
                is_word(t, s3, "FOR"@)
            } else {
                is_sym(t, s3, Sym::Comma)
            };
            let count = row_expr(t, next(t, s3), d)->Ok_0.0;
            substring_call(t, s, d)->Ok_0.0 == (RowExprV::Str {
                func: StrFunc::Substring,
                args: if more {
                    seq![text, from, count]
                } else {
                    seq![text, from]
                },
            })
        }),
{
}

} // verus!
