//! What a row expression is worth over a row, and that the expression it is
//! compiled to is worth the same.

use vstd::prelude::*;
use crate::ast::{RowExprV, StrFunc, TimeUnit};
use crate::calendar::{extracted, fits, unit_start, unit_truncates};
use crate::compile::bind::value_of;
use crate::compile::env::{time_column, CollectionV};
use crate::compile::log::{EnvV, LogV};
use crate::compile::project::{as_text, iso_text, name_from, placed, row_function, row_functions};
use crate::compile::ranges::CLOCK;
use crate::compile::row::{
    arguments, evaluated, int_wanted, is_nullish, string_result, text_wanted, CompiledRowV,
};
use crate::instant::{date_text, shaped, timestamp_text};
use crate::timestamp::instant_of;
use crate::value::{row_value, SqlValueV};

verus! {

// ── values ───────────────────────────────────────────────────────────────

/// The whole number that a value is.
pub open spec fn as_number(v: SqlValueV) -> Option<int> {
    match int_wanted(v, Seq::empty()) {
        Ok(n) => Some(n as int),
        Err(_) => None,
    }
}

/// The text that a value is.
pub open spec fn in_words(v: SqlValueV) -> Option<Seq<char>> {
    match text_wanted(v, Seq::empty()) {
        Ok(text) => Some(text),
        Err(_) => None,
    }
}

/// The instant that a value is: a number of microseconds, or a text of one.
pub open spec fn as_instant(v: SqlValueV) -> Option<int> {
    match v {
        SqlValueV::Text(text) => match instant_of(text) {
            Ok(t) => Some(t as int),
            Err(_) => None,
        },
        _ => as_number(v),
    }
}

/// A number, kept within what is stored.
pub open spec fn stored_number(n: int) -> SqlValueV {
    SqlValueV::Int(
        if n > i64::MAX {
            i64::MAX
        } else if n < i64::MIN {
            i64::MIN
        } else {
            n as i64
        },
    )
}

/// The start of the unit that an instant lies in.
pub open spec fn begun(unit: TimeUnit, t: Option<int>) -> Option<SqlValueV> {
    match t {
        Some(t) => if unit_truncates(unit) && fits(unit_start(unit, t)) {
            Some(SqlValueV::Int(unit_start(unit, t) as i64))
        } else {
            None
        },
        None => None,
    }
}

/// What a value is under a function of one argument: nothing for an absent one.
pub open spec fn under(e: RowExprV, v: SqlValueV) -> Option<SqlValueV> {
    if is_nullish(v) {
        Some(SqlValueV::Null)
    } else {
        match e {
            RowExprV::Extract { unit, .. } => match as_number(v) {
                Some(t) => Some(SqlValueV::Int(extracted(unit, t) as i64)),
                None => None,
            },
            RowExprV::Trunc { unit, .. } => begun(unit, as_number(v)),
            RowExprV::ToDate(_) | RowExprV::CastDate(_) => begun(TimeUnit::Day, as_instant(v)),
            RowExprV::ToChar { format, .. } => match as_number(v) {
                Some(t) => match shaped(t as i64, format) {
                    Ok(text) => Some(SqlValueV::Text(text)),
                    Err(_) => None,
                },
                None => None,
            },
            RowExprV::ToTimestamp(_) => match v {
                SqlValueV::Text(_) => match as_instant(v) {
                    Some(t) => Some(SqlValueV::Int(t as i64)),
                    None => None,
                },
                _ => match as_number(v) {
                    Some(n) => Some(stored_number(n * 1_000_000)),
                    None => None,
                },
            },
            RowExprV::CastText(_) => match in_words(v) {
                Some(text) => Some(SqlValueV::Text(text)),
                None => None,
            },
            _ => None,
        }
    }
}

/// What two values are under an operator: nothing where one is absent.
pub open spec fn between(e: RowExprV, x: SqlValueV, y: SqlValueV) -> Option<SqlValueV> {
    if is_nullish(x) || is_nullish(y) {
        Some(SqlValueV::Null)
    } else {
        match e {
            RowExprV::Concat(..) => match (in_words(x), in_words(y)) {
                (Some(a), Some(b)) => Some(SqlValueV::Text(a + b)),
                _ => None,
            },
            RowExprV::Add(..) => match (as_number(x), as_number(y)) {
                (Some(a), Some(b)) => Some(stored_number(a + b)),
                _ => None,
            },
            _ => match (as_number(x), as_number(y)) {
                (Some(a), Some(b)) => Some(stored_number(a - b)),
                _ => None,
            },
        }
    }
}

/// A value as a text reads it: a declared instant is its ISO text.
pub open spec fn spelled(c: CollectionV, e: RowExprV, v: SqlValueV) -> Option<SqlValueV> {
    match e {
        RowExprV::Column(name) => match time_column(c, name) {
            Ok(Some(declared)) => if is_nullish(v) {
                Some(SqlValueV::Null)
            } else {
                match as_number(v) {
                    None => None,
                    Some(t) => Some(
                        SqlValueV::Text(
                            if declared == "DATE"@ {
                                date_text(t)
                            } else {
                                timestamp_text(t)
                            },
                        ),
                    ),
                }
            },
            _ => Some(v),
        },
        _ => Some(v),
    }
}

/// What an expression is worth over a row; nothing where it has no value.
pub open spec fn worth(
    env: EnvV,
    c: CollectionV,
    cell: spec_fn(Seq<char>) -> SqlValueV,
    e: RowExprV,
) -> Option<SqlValueV>
    decreases e,
{
    match e {
        RowExprV::Column(name) => Some(cell(name)),
        RowExprV::Lit(l) => match value_of(env.binder, l) {
            Ok(v) => Some(row_value(v)),
            Err(_) => None,
        },
        RowExprV::Now => Some(SqlValueV::Int(env.clock)),
        RowExprV::CurrentDate => begun(TimeUnit::Day, Some(env.clock as int)),
        RowExprV::Interval(n) => Some(SqlValueV::Int(n)),
        RowExprV::CastText(arg) => match worth(env, c, cell, *arg) {
            None => None,
            Some(v) => match spelled(c, *arg, v) {
                None => None,
                Some(v) => under(e, v),
            },
        },
        RowExprV::Extract { arg, .. }
        | RowExprV::Trunc { arg, .. }
        | RowExprV::ToChar { arg, .. }
        | RowExprV::ToTimestamp(arg)
        | RowExprV::ToDate(arg)
        | RowExprV::CastDate(arg) => match worth(env, c, cell, *arg) {
            None => None,
            Some(v) => under(e, v),
        },
        RowExprV::Age { left, right: None } => match worth(env, c, cell, *left) {
            None => None,
            Some(x) => between(e, SqlValueV::Int(env.clock), x),
        },
        RowExprV::Age { left, right: Some(right) } => match (
            worth(env, c, cell, *left),
            worth(env, c, cell, *right),
        ) {
            (Some(x), Some(y)) => between(e, x, y),
            _ => None,
        },
        RowExprV::Add(left, right) | RowExprV::Sub(left, right) => match (
            worth(env, c, cell, *left),
            worth(env, c, cell, *right),
        ) {
            (Some(x), Some(y)) => between(e, x, y),
            _ => None,
        },
        RowExprV::Concat(left, right) => match (
            worth(env, c, cell, *left),
            worth(env, c, cell, *right),
        ) {
            (Some(x), Some(y)) => match (spelled(c, *left, x), spelled(c, *right, y)) {
                (Some(x), Some(y)) => between(e, x, y),
                _ => None,
            },
            _ => None,
        },
        RowExprV::Str { func, args } => match worths(env, c, cell, func, args) {
            None => None,
            Some(None) => Some(SqlValueV::Null),
            Some(Some(list)) => match string_result(func, list) {
                Ok(v) => Some(v),
                Err(_) => None,
            },
        },
    }
}

/// What the arguments of a function are worth, up to the first absent one;
/// `concat` passes those over.
pub open spec fn worths(
    env: EnvV,
    c: CollectionV,
    cell: spec_fn(Seq<char>) -> SqlValueV,
    func: StrFunc,
    args: Seq<RowExprV>,
) -> Option<Option<Seq<SqlValueV>>>
    decreases args,
{
    if args.len() == 0 {
        Some(Some(Seq::empty()))
    } else {
        match worths(env, c, cell, func, args.drop_last()) {
            None => None,
            Some(None) => Some(None),
            Some(Some(done)) => match worth(env, c, cell, args.last()) {
                None => None,
                Some(v) => match spelled(c, args.last(), v) {
                    None => None,
                    Some(v) => if is_nullish(v) && func != StrFunc::Concat {
                        Some(None)
                    } else {
                        Some(Some(done.push(v)))
                    },
                },
            },
        }
    }
}

// ── compiled ─────────────────────────────────────────────────────────────

/// What a compiled expression is worth.
pub open spec fn value(e: CompiledRowV, values: Seq<SqlValueV>) -> Option<SqlValueV> {
    match evaluated(e, values) {
        Ok(v) => Some(v),
        Err(_) => None,
    }
}

/// Whether a list of values is what a row holds in a list of fields.
pub open spec fn row_holds(
    cell: spec_fn(Seq<char>) -> SqlValueV,
    fields: Seq<Seq<char>>,
    values: Seq<SqlValueV>,
) -> bool {
    &&& fields.len() <= values.len()
    &&& fields.len() <= usize::MAX
    &&& forall|i: int| 0 <= i < fields.len() ==> values[i] == cell(#[trigger] fields[i])
}

/// Whether a list begins with another.
pub open spec fn begins_with(more: Seq<Seq<char>>, fields: Seq<Seq<char>>) -> bool {
    fields.len() <= more.len() && forall|i: int|
        0 <= i < fields.len() ==> #[trigger] more[i] == fields[i]
}

proof fn name_is_there(list: Seq<Seq<char>>, name: Seq<char>, i: nat)
    requires
        name_from(list, name, i) is Some,
    ensures
        ({
            let k = name_from(list, name, i)->0;
            k < list.len() && list[k as int] == name
        }),
    decreases list.len() - i,
{
    if list[i as int] != name {
        name_is_there(list, name, i + 1);
    }
}

/// A field stands where it was placed, and those before it stay.
pub proof fn placed_is_there(fields: Seq<Seq<char>>, name: Seq<char>)
    requires
        placed(fields, name).1.len() <= usize::MAX,
    ensures
        begins_with(placed(fields, name).1, fields),
        placed(fields, name).0 < placed(fields, name).1.len(),
        placed(fields, name).1[placed(fields, name).0 as int] == name,
{
    if name_from(fields, name, 0) is Some {
        name_is_there(fields, name, 0);
    }
}

/// An expression keeps the fields that were read before it.
pub proof fn fields_grow(
    env: EnvV,
    c: CollectionV,
    e: RowExprV,
    fields: Seq<Seq<char>>,
    log: LogV,
)
    requires
        row_function(env, c, e, fields, log) is Ok,
    ensures
        begins_with(row_function(env, c, e, fields, log)->Ok_0.1, fields),
    decreases e,
{
    match e {
        RowExprV::Column(name) => {},
        RowExprV::Extract { arg, .. }
        | RowExprV::Trunc { arg, .. }
        | RowExprV::ToChar { arg, .. }
        | RowExprV::ToTimestamp(arg)
        | RowExprV::ToDate(arg)
        | RowExprV::CastDate(arg)
        | RowExprV::CastText(arg) => {
            fields_grow(env, c, *arg, fields, log);
        },
        RowExprV::Age { left, right: None } => {
            fields_grow(env, c, *left, fields, log.refused(CLOCK@));
        },
        RowExprV::Age { left, right: Some(right) } => {
            fields_grow(env, c, *left, fields, log);
            let (_, f, l) = row_function(env, c, *left, fields, log)->Ok_0;
            fields_grow(env, c, *right, f, l);
        },
        RowExprV::Add(left, right) | RowExprV::Sub(left, right) | RowExprV::Concat(left, right) => {
            fields_grow(env, c, *left, fields, log);
            let (_, f, l) = row_function(env, c, *left, fields, log)->Ok_0;
            fields_grow(env, c, *right, f, l);
        },
        RowExprV::Str { args, .. } => {
            lists_grow(env, c, args, fields, log);
        },
        _ => {},
    }
}

proof fn lists_grow(
    env: EnvV,
    c: CollectionV,
    args: Seq<RowExprV>,
    fields: Seq<Seq<char>>,
    log: LogV,
)
    requires
        row_functions(env, c, args, fields, log) is Ok,
    ensures
        begins_with(row_functions(env, c, args, fields, log)->Ok_0.1, fields),
    decreases args,
{
    if args.len() > 0 {
        lists_grow(env, c, args.drop_last(), fields, log);
        let (_, f, l) = row_functions(env, c, args.drop_last(), fields, log)->Ok_0;
        fields_grow(env, c, args.last(), f, l);
    }
}

/// A row that holds some fields holds the first of them.
pub proof fn fewer_fields(
    cell: spec_fn(Seq<char>) -> SqlValueV,
    fields: Seq<Seq<char>>,
    more: Seq<Seq<char>>,
    values: Seq<SqlValueV>,
)
    requires
        begins_with(more, fields),
        row_holds(cell, more, values),
    ensures
        row_holds(cell, fields, values),
{
    assert forall|i: int| 0 <= i < fields.len() implies values[i] == cell(#[trigger] fields[i]) by {
        assert(more[i] == fields[i]);
    }
}

/// An error is one whatever it says.
proof fn wanted_whatever(v: SqlValueV, what: Seq<char>)
    ensures
        int_wanted(v, what) is Ok <==> as_number(v) is Some,
        int_wanted(v, what) is Ok ==> int_wanted(v, what)->Ok_0 == as_number(v)->0,
        text_wanted(v, what) is Ok <==> in_words(v) is Some,
        text_wanted(v, what) is Ok ==> text_wanted(v, what)->Ok_0 == in_words(v)->0,
{
}

proof fn one_argument(e: RowExprV, x: CompiledRowV, values: Seq<SqlValueV>)
    requires
        e is Extract || e is Trunc || e is ToChar || e is ToTimestamp || e is ToDate || e is CastDate
            || e is CastText,
    ensures
        value(
            match e {
                RowExprV::Extract { unit, .. } => CompiledRowV::Extract { unit, arg: Box::new(x) },
                RowExprV::Trunc { unit, .. } => CompiledRowV::Trunc { unit, arg: Box::new(x) },
                RowExprV::ToChar { format, .. } => CompiledRowV::ToChar {
                    arg: Box::new(x),
                    format,
                },
                RowExprV::ToTimestamp(_) => CompiledRowV::ToTimestamp(Box::new(x)),
                RowExprV::ToDate(_) => CompiledRowV::ToDate(Box::new(x)),
                RowExprV::CastDate(_) => CompiledRowV::CastDate(Box::new(x)),
                _ => CompiledRowV::CastText(Box::new(x)),
            },
            values,
        ) == match value(x, values) {
            None => None,
            Some(v) => under(e, v),
        },
{
    if value(x, values) is Some {
        let v = value(x, values)->0;
        wanted_whatever(v, "EXTRACT(... FROM t)"@);
        wanted_whatever(v, "date_trunc(u, t)"@);
        wanted_whatever(v, "to_char(t, f)"@);
        wanted_whatever(v, "to_timestamp(seconds)"@);
        wanted_whatever(v, "to_date(t)"@);
        wanted_whatever(v, "::text"@);
    }
}

/// A declared instant is printed as the text of its instant.
pub proof fn iso_value(x: CompiledRowV, date_only: bool, values: Seq<SqlValueV>)
    ensures
        value((CompiledRowV::Iso { arg: Box::new(x), date_only }), values) == match value(x, values) {
            None => None,
            Some(v) => if is_nullish(v) {
                Some(SqlValueV::Null)
            } else {
                match as_number(v) {
                    None => None,
                    Some(t) => Some(
                        SqlValueV::Text(
                            if date_only {
                                date_text(t)
                            } else {
                                timestamp_text(t)
                            },
                        ),
                    ),
                }
            },
        },
{
    if value(x, values) is Some {
        wanted_whatever(value(x, values)->0, "a declared timestamp"@);
    }
}

proof fn two_arguments(
    e: RowExprV,
    x: CompiledRowV,
    y: CompiledRowV,
    values: Seq<SqlValueV>,
)
    requires
        e is Age || e is Add || e is Sub || e is Concat,
    ensures
        value(
            match e {
                RowExprV::Age { .. } => CompiledRowV::Age { left: Box::new(x), right: Box::new(y) },
                RowExprV::Add(..) => CompiledRowV::Add(Box::new(x), Box::new(y)),
                RowExprV::Sub(..) => CompiledRowV::Sub(Box::new(x), Box::new(y)),
                _ => CompiledRowV::Concat(Box::new(x), Box::new(y)),
            },
            values,
        ) == match (value(x, values), value(y, values)) {
            (Some(a), Some(b)) => between(e, a, b),
            _ => None,
        },
{
    if value(x, values) is Some && value(y, values) is Some {
        let a = value(x, values)->0;
        let b = value(y, values)->0;
        wanted_whatever(a, "||"@);
        wanted_whatever(b, "||"@);
        wanted_whatever(a, "age(a, b)"@);
        wanted_whatever(b, "age(a, b)"@);
        wanted_whatever(a, "date arithmetic"@);
        wanted_whatever(b, "date arithmetic"@);
    }
}

proof fn text_value(
    c: CollectionV,
    e: RowExprV,
    x: CompiledRowV,
    values: Seq<SqlValueV>,
)
    ensures
        value(as_text(c, e, x), values) == match value(x, values) {
            None => None,
            Some(v) => spelled(c, e, v),
        },
{
    if iso_text(c, e) is Some {
        iso_value(x, iso_text(c, e)->0, values);
    }
}

/// What a field, a constant and an instant are worth.
pub proof fn leaf_value(x: CompiledRowV, values: Seq<SqlValueV>)
    ensures
        match x {
            CompiledRowV::Field { at, .. } => at < values.len() ==> value(x, values) == Some(
                values[at as int],
            ),
            CompiledRowV::Lit(v) => value(x, values) == Some(v),
            CompiledRowV::Micros(n) => value(x, values) == Some(SqlValueV::Int(n)),
            _ => true,
        },
{
}

/// Compiling a row expression keeps what it is worth over every row.
pub proof fn row_expression_keeps_its_meaning(
    env: EnvV,
    c: CollectionV,
    cell: spec_fn(Seq<char>) -> SqlValueV,
    e: RowExprV,
    fields: Seq<Seq<char>>,
    log: LogV,
    values: Seq<SqlValueV>,
)
    requires
        row_function(env, c, e, fields, log) is Ok,
        row_holds(cell, row_function(env, c, e, fields, log)->Ok_0.1, values),
    ensures
        value(row_function(env, c, e, fields, log)->Ok_0.0, values) == worth(env, c, cell, e),
    decreases e,
{
    let (x, out, _) = row_function(env, c, e, fields, log)->Ok_0;
    leaf_value(x, values);
    match e {
        RowExprV::Column(name) => {
            placed_is_there(fields, name);
        },
        RowExprV::Extract { arg, .. }
        | RowExprV::Trunc { arg, .. }
        | RowExprV::ToChar { arg, .. }
        | RowExprV::ToTimestamp(arg)
        | RowExprV::ToDate(arg)
        | RowExprV::CastDate(arg) => {
            row_expression_keeps_its_meaning(env, c, cell, *arg, fields, log, values);
            one_argument(e, row_function(env, c, *arg, fields, log)->Ok_0.0, values);
        },
        RowExprV::CastText(arg) => {
            row_expression_keeps_its_meaning(env, c, cell, *arg, fields, log, values);
            let inner = row_function(env, c, *arg, fields, log)->Ok_0.0;
            one_argument(e, inner, values);
            text_value(c, *arg, inner, values);
        },
        RowExprV::Age { left, right: None } => {
            let noted = log.refused(CLOCK@);
            row_expression_keeps_its_meaning(env, c, cell, *left, fields, noted, values);
            leaf_value(CompiledRowV::Micros(env.clock), values);
            two_arguments(
                e,
                CompiledRowV::Micros(env.clock),
                row_function(env, c, *left, fields, noted)->Ok_0.0,
                values,
            );
        },
        RowExprV::Age { left, right: Some(right) } => {
            let (a, f, l) = row_function(env, c, *left, fields, log)->Ok_0;
            left_holds(env, c, cell, *right, f, l, values);
            row_expression_keeps_its_meaning(env, c, cell, *left, fields, log, values);
            row_expression_keeps_its_meaning(env, c, cell, *right, f, l, values);
            two_arguments(e, a, row_function(env, c, *right, f, l)->Ok_0.0, values);
        },
        RowExprV::Add(left, right) | RowExprV::Sub(left, right) => {
            let (a, f, l) = row_function(env, c, *left, fields, log)->Ok_0;
            left_holds(env, c, cell, *right, f, l, values);
            row_expression_keeps_its_meaning(env, c, cell, *left, fields, log, values);
            row_expression_keeps_its_meaning(env, c, cell, *right, f, l, values);
            two_arguments(e, a, row_function(env, c, *right, f, l)->Ok_0.0, values);
        },
        RowExprV::Concat(left, right) => {
            let (a, f, l) = row_function(env, c, *left, fields, log)->Ok_0;
            left_holds(env, c, cell, *right, f, l, values);
            row_expression_keeps_its_meaning(env, c, cell, *left, fields, log, values);
            row_expression_keeps_its_meaning(env, c, cell, *right, f, l, values);
            let b = row_function(env, c, *right, f, l)->Ok_0.0;
            text_value(c, *left, a, values);
            text_value(c, *right, b, values);
            two_arguments(
                e,
                as_text(c, *left, a),
                as_text(c, *right, b),
                values,
            );
        },
        RowExprV::Str { func, args } => {
            lists_keep(env, c, cell, func, args, fields, log, values);
        },
        _ => {},
    }
}

/// What holds of the fields of both sides holds of those of the left one.
proof fn left_holds(
    env: EnvV,
    c: CollectionV,
    cell: spec_fn(Seq<char>) -> SqlValueV,
    right: RowExprV,
    fields: Seq<Seq<char>>,
    log: LogV,
    values: Seq<SqlValueV>,
)
    requires
        row_function(env, c, right, fields, log) is Ok,
        row_holds(cell, row_function(env, c, right, fields, log)->Ok_0.1, values),
    ensures
        row_holds(cell, fields, values),
{
    fields_grow(env, c, right, fields, log);
    fewer_fields(cell, fields, row_function(env, c, right, fields, log)->Ok_0.1, values);
}

proof fn lists_keep(
    env: EnvV,
    c: CollectionV,
    cell: spec_fn(Seq<char>) -> SqlValueV,
    func: StrFunc,
    args: Seq<RowExprV>,
    fields: Seq<Seq<char>>,
    log: LogV,
    values: Seq<SqlValueV>,
)
    requires
        row_functions(env, c, args, fields, log) is Ok,
        row_holds(cell, row_functions(env, c, args, fields, log)->Ok_0.1, values),
    ensures
        match arguments(func, row_functions(env, c, args, fields, log)->Ok_0.0, values) {
            Ok(list) => worths(env, c, cell, func, args) == Some(list),
            Err(_) => worths(env, c, cell, func, args) is None,
        },
    decreases args,
{
    if args.len() > 0 {
        let init = args.drop_last();
        let (done, f, l) = row_functions(env, c, init, fields, log)->Ok_0;
        let (x, out, _) = row_function(env, c, args.last(), f, l)->Ok_0;
        left_holds(env, c, cell, args.last(), f, l, values);
        lists_keep(env, c, cell, func, init, fields, log, values);
        row_expression_keeps_its_meaning(env, c, cell, args.last(), f, l, values);
        text_value(c, args.last(), x, values);
        let all = row_functions(env, c, args, fields, log)->Ok_0.0;
        assert(all.drop_last() =~= done);
        assert(all.last() == as_text(c, args.last(), x));
    }
}

} // verus!
