//! Row expressions of a select list: names resolved to projected fields,
//! constants folded.

use vstd::prelude::*;
use crate::ast::{row_expr_view_args, RowExpr, RowExprV, TimeUnit};
use crate::compile::bind::value_of;
use crate::compile::env::{time_column, Collection, CollectionV};
use crate::compile::log::{Env, EnvV, Log, LogV};
use crate::compile::ranges::CLOCK;
use crate::compile::row::{compiled_view_args, CompiledRow, CompiledRowV};
use crate::error::{SqlError, SqlErrorV};
use crate::instant::{date_trunc, shaped, to_char, truncated_to};
use crate::lists::{mapped_push, take_all, take_next};
use crate::text::{owned, same, texts};
use crate::value::row_value;

verus! {

/// Where a name first stands in a list, from position `i` on.
pub open spec fn name_from(list: Seq<Seq<char>>, name: Seq<char>, i: nat) -> Option<nat>
    decreases list.len() - i,
{
    if i >= list.len() {
        None
    } else if list[i as int] == name {
        Some(i)
    } else {
        name_from(list, name, i + 1)
    }
}

/// The position of a name in a list of fields, and the list with the name at
/// its end where it was not there.
pub open spec fn placed(fields: Seq<Seq<char>>, name: Seq<char>) -> (usize, Seq<Seq<char>>) {
    match name_from(fields, name, 0) {
        Some(at) => (at as usize, fields),
        None => (fields.len() as usize, fields.push(name)),
    }
}

pub fn name_at(list: &Vec<String>, name: &str) -> (r: Option<usize>)
    ensures
        match r {
            Some(at) => name_from(texts(list@), name@, 0) == Some(at as nat) && at < list@.len(),
            None => name_from(texts(list@), name@, 0) is None,
        },
{
    let mut i: usize = 0;
    while i < list.len()
        invariant
            i <= list@.len(),
            name_from(texts(list@), name@, i as nat) == name_from(texts(list@), name@, 0),
        decreases list@.len() - i,
    {
        assert(texts(list@)[i as int] == list@[i as int]@);
        if same(list[i].as_str(), name) {
            return Some(i);
        }
        i = i + 1;
    }
    None
}

pub fn place(fields: &mut Vec<String>, name: &str) -> (r: usize)
    ensures
        (r, texts(final(fields)@)) == placed(texts(old(fields)@), name@),
{
    match name_at(fields, name) {
        Some(at) => at,
        None => {
            let at: usize = fields.len();
            let copy = owned(name);
            proof {
                mapped_push(fields@, copy, |s: String| s@);
            }
            fields.push(copy);
            at
        },
    }
}

/// Whether an expression is a bare column that is a declared instant, and then
/// whether it is a date.
pub open spec fn iso_text(c: CollectionV, e: RowExprV) -> Option<bool> {
    match e {
        RowExprV::Column(name) => match time_column(c, name) {
            Ok(Some(declared)) => Some(declared == "DATE"@),
            _ => None,
        },
        _ => None,
    }
}

/// A compiled expression as a string function reads it: a declared instant is
/// its ISO text.
pub open spec fn as_text(c: CollectionV, e: RowExprV, compiled: CompiledRowV) -> CompiledRowV {
    match iso_text(c, e) {
        Some(date_only) => CompiledRowV::Iso { arg: Box::new(compiled), date_only },
        None => compiled,
    }
}

/// What a value that a row function holds is folded into.
pub const ROW_FUNCTION: &'static str = "a row function";

/// A row expression over collection `c`, with the fields it reads and the log
/// after it.
pub open spec fn row_function(
    env: EnvV,
    c: CollectionV,
    e: RowExprV,
    fields: Seq<Seq<char>>,
    log: LogV,
) -> Result<(CompiledRowV, Seq<Seq<char>>, LogV), SqlErrorV>
    decreases e,
{
    match e {
        RowExprV::Column(name) => match time_column(c, name) {
            Err(e) => Err(e),
            Ok(declared) => {
                let (at, fields) = placed(fields, name);
                Ok((CompiledRowV::Field { at, time: declared is Some }, fields, log))
            },
        },
        RowExprV::Lit(l) => match value_of(env.binder, l) {
            Err(e) => Err(e),
            Ok(v) => Ok((CompiledRowV::Lit(row_value(v)), fields, log.folded(l, ROW_FUNCTION@))),
        },
        RowExprV::Now => Ok((CompiledRowV::Micros(env.clock), fields, log.refused(CLOCK@))),
        RowExprV::CurrentDate => match truncated_to(TimeUnit::Day, env.clock) {
            Err(e) => Err(e),
            Ok(t) => Ok((CompiledRowV::Micros(t), fields, log.refused(CLOCK@))),
        },
        RowExprV::Interval(n) => Ok((CompiledRowV::Micros(n), fields, log)),
        RowExprV::Extract { unit, arg } => match row_function(env, c, *arg, fields, log) {
            Err(e) => Err(e),
            Ok((x, fields, log)) => Ok(
                (CompiledRowV::Extract { unit, arg: Box::new(x) }, fields, log),
            ),
        },
        RowExprV::Trunc { unit, arg } => match row_function(env, c, *arg, fields, log) {
            Err(e) => Err(e),
            Ok((x, fields, log)) => Ok(
                (CompiledRowV::Trunc { unit, arg: Box::new(x) }, fields, log),
            ),
        },
        RowExprV::Age { left, right } => match right {
            None => match row_function(env, c, *left, fields, log.refused(CLOCK@)) {
                Err(e) => Err(e),
                Ok((x, fields, log)) => Ok(
                    (
                        CompiledRowV::Age {
                            left: Box::new(CompiledRowV::Micros(env.clock)),
                            right: Box::new(x),
                        },
                        fields,
                        log,
                    ),
                ),
            },
            Some(right) => match row_function(env, c, *left, fields, log) {
                Err(e) => Err(e),
                Ok((x, fields, log)) => match row_function(env, c, *right, fields, log) {
                    Err(e) => Err(e),
                    Ok((y, fields, log)) => Ok(
                        (
                            CompiledRowV::Age { left: Box::new(x), right: Box::new(y) },
                            fields,
                            log,
                        ),
                    ),
                },
            },
        },
        RowExprV::ToChar { arg, format } => match shaped(0, format) {
            Err(e) => Err(e),
            Ok(_) => match row_function(env, c, *arg, fields, log) {
                Err(e) => Err(e),
                Ok((x, fields, log)) => Ok(
                    (CompiledRowV::ToChar { arg: Box::new(x), format }, fields, log),
                ),
            },
        },
        RowExprV::ToTimestamp(arg) => match row_function(env, c, *arg, fields, log) {
            Err(e) => Err(e),
            Ok((x, fields, log)) => Ok((CompiledRowV::ToTimestamp(Box::new(x)), fields, log)),
        },
        RowExprV::ToDate(arg) => match row_function(env, c, *arg, fields, log) {
            Err(e) => Err(e),
            Ok((x, fields, log)) => Ok((CompiledRowV::ToDate(Box::new(x)), fields, log)),
        },
        RowExprV::CastDate(arg) => match row_function(env, c, *arg, fields, log) {
            Err(e) => Err(e),
            Ok((x, fields, log)) => Ok((CompiledRowV::CastDate(Box::new(x)), fields, log)),
        },
        RowExprV::CastText(arg) => match row_function(env, c, *arg, fields, log) {
            Err(e) => Err(e),
            Ok((x, fields, log)) => Ok(
                (
                    match iso_text(c, *arg) {
                        Some(date_only) => CompiledRowV::Iso { arg: Box::new(x), date_only },
                        None => CompiledRowV::CastText(Box::new(x)),
                    },
                    fields,
                    log,
                ),
            ),
        },
        RowExprV::Str { func, args } => match row_functions(env, c, args, fields, log) {
            Err(e) => Err(e),
            Ok((args, fields, log)) => Ok((CompiledRowV::Str { func, args }, fields, log)),
        },
        RowExprV::Add(a, b) => match row_function(env, c, *a, fields, log) {
            Err(e) => Err(e),
            Ok((x, fields, log)) => match row_function(env, c, *b, fields, log) {
                Err(e) => Err(e),
                Ok((y, fields, log)) => Ok(
                    (CompiledRowV::Add(Box::new(x), Box::new(y)), fields, log),
                ),
            },
        },
        RowExprV::Sub(a, b) => match row_function(env, c, *a, fields, log) {
            Err(e) => Err(e),
            Ok((x, fields, log)) => match row_function(env, c, *b, fields, log) {
                Err(e) => Err(e),
                Ok((y, fields, log)) => Ok(
                    (CompiledRowV::Sub(Box::new(x), Box::new(y)), fields, log),
                ),
            },
        },
        RowExprV::Concat(a, b) => match row_function(env, c, *a, fields, log) {
            Err(e) => Err(e),
            Ok((x, fields, log)) => match row_function(env, c, *b, fields, log) {
                Err(e) => Err(e),
                Ok((y, fields, log)) => Ok(
                    (
                        CompiledRowV::Concat(
                            Box::new(as_text(c, *a, x)),
                            Box::new(as_text(c, *b, y)),
                        ),
                        fields,
                        log,
                    ),
                ),
            },
        },
    }
}

/// The arguments of a string function, each as the function reads it.
pub open spec fn row_functions(
    env: EnvV,
    c: CollectionV,
    args: Seq<RowExprV>,
    fields: Seq<Seq<char>>,
    log: LogV,
) -> Result<(Seq<CompiledRowV>, Seq<Seq<char>>, LogV), SqlErrorV>
    decreases args,
{
    if args.len() == 0 {
        Ok((Seq::empty(), fields, log))
    } else {
        match row_functions(env, c, args.drop_last(), fields, log) {
            Err(e) => Err(e),
            Ok((done, fields, log)) => match row_function(env, c, args.last(), fields, log) {
                Err(e) => Err(e),
                Ok((x, fields, log)) => Ok((done.push(as_text(c, args.last(), x)), fields, log)),
            },
        }
    }
}

proof fn row_functions_stop(
    env: EnvV,
    c: CollectionV,
    args: Seq<RowExprV>,
    fields: Seq<Seq<char>>,
    log: LogV,
    n: int,
)
    requires
        0 <= n <= args.len(),
        row_functions(env, c, args.take(n), fields, log) is Err,
    ensures
        row_functions(env, c, args, fields, log) == row_functions(
            env,
            c,
            args.take(n),
            fields,
            log,
        ),
    decreases args.len() - n,
{
    if n < args.len() {
        take_next(args, n);
        row_functions_stop(env, c, args, fields, log, n + 1);
    } else {
        take_all(args);
    }
}

/// Whether `r`, the fields and the log are the outcome `want`.
pub open spec fn projects(
    r: Result<CompiledRow, SqlError>,
    fields: Seq<String>,
    log: Log,
    want: Result<(CompiledRowV, Seq<Seq<char>>, LogV), SqlErrorV>,
) -> bool {
    match want {
        Ok((v, f, l)) => r is Ok && r->Ok_0.deep_view() == v && texts(fields) == f
            && log.deep_view() == l,
        Err(e) => r is Err && r->Err_0.deep_view() == e,
    }
}

fn iso_of(c: &Collection, expr: &RowExpr) -> (r: Option<bool>)
    ensures
        r == iso_text(c.deep_view(), expr.deep_view()),
{
    match expr {
        RowExpr::Column(name) => match c.time_column(name.as_str()) {
            Ok(Some(declared)) => Some(same(declared.as_str(), "DATE")),
            _ => None,
        },
        _ => None,
    }
}

fn iso(arg: CompiledRow, date_only: bool) -> (r: CompiledRow)
    ensures
        r.deep_view() == (CompiledRowV::Iso { arg: Box::new(arg.deep_view()), date_only }),
{
    CompiledRow::Iso { arg: Box::new(arg), date_only }
}

fn read_as_text(c: &Collection, expr: &RowExpr, compiled: CompiledRow) -> (r: CompiledRow)
    ensures
        r.deep_view() == as_text(c.deep_view(), expr.deep_view(), compiled.deep_view()),
{
    match iso_of(c, expr) {
        Some(date_only) => iso(compiled, date_only),
        None => compiled,
    }
}

impl<'a> Env<'a> {
    /// A row expression with every column resolved to a projected field and
    /// every constant folded. A column that is not projected yet is added.
    pub fn row_function(
        &self,
        c: &Collection,
        expr: &RowExpr,
        fields: &mut Vec<String>,
        log: &mut Log,
    ) -> (r: Result<CompiledRow, SqlError>)
        ensures
            projects(
                r,
                final(fields)@,
                *final(log),
                row_function(
                    self.deep_view(),
                    c.deep_view(),
                    expr.deep_view(),
                    texts(old(fields)@),
                    old(log).deep_view(),
                ),
            ),
        decreases expr,
    {
        match expr {
            RowExpr::Column(name) => {
                let declared = c.time_column(name.as_str())?;
                let at = place(fields, name.as_str());
                Ok(CompiledRow::Field { at, time: declared.is_some() })
            },
            RowExpr::Lit(literal) => {
                let value = self.binder.value_of(literal)?;
                log.folds(literal, ROW_FUNCTION);
                Ok(CompiledRow::Lit(value.into_row()))
            },
            RowExpr::Now => {
                log.folds_reason(owned(CLOCK));
                Ok(CompiledRow::Micros(self.clock))
            },
            RowExpr::CurrentDate => {
                let t = date_trunc(TimeUnit::Day, self.clock)?;
                log.folds_reason(owned(CLOCK));
                Ok(CompiledRow::Micros(t))
            },
            RowExpr::Interval(n) => Ok(CompiledRow::Micros(*n)),
            RowExpr::Extract { unit, arg } => {
                let x = self.row_function(c, arg, fields, log)?;
                Ok(CompiledRow::Extract { unit: *unit, arg: Box::new(x) })
            },
            RowExpr::Trunc { unit, arg } => {
                let x = self.row_function(c, arg, fields, log)?;
                Ok(CompiledRow::Trunc { unit: *unit, arg: Box::new(x) })
            },
            RowExpr::Age { left, right } => match right {
                None => {
                    log.folds_reason(owned(CLOCK));
                    let x = self.row_function(c, left, fields, log)?;
                    let clock = CompiledRow::Micros(self.clock);
                    assert(clock.deep_view() == CompiledRowV::Micros(self.clock));
                    Ok(CompiledRow::Age { left: Box::new(clock), right: Box::new(x) })
                },
                Some(right) => {
                    let x = self.row_function(c, left, fields, log)?;
                    let y = self.row_function(c, right, fields, log)?;
                    Ok(CompiledRow::Age { left: Box::new(x), right: Box::new(y) })
                },
            },
            RowExpr::ToChar { arg, format } => {
                let _sample = to_char(0, format.as_str())?;
                let x = self.row_function(c, arg, fields, log)?;
                Ok(CompiledRow::ToChar { arg: Box::new(x), format: format.clone() })
            },
            RowExpr::ToTimestamp(arg) => {
                let x = self.row_function(c, arg, fields, log)?;
                Ok(CompiledRow::ToTimestamp(Box::new(x)))
            },
            RowExpr::ToDate(arg) => {
                let x = self.row_function(c, arg, fields, log)?;
                Ok(CompiledRow::ToDate(Box::new(x)))
            },
            RowExpr::CastDate(arg) => {
                let x = self.row_function(c, arg, fields, log)?;
                Ok(CompiledRow::CastDate(Box::new(x)))
            },
            RowExpr::CastText(arg) => {
                let x = self.row_function(c, arg, fields, log)?;
                match iso_of(c, arg) {
                    Some(date_only) => Ok(iso(x, date_only)),
                    None => Ok(CompiledRow::CastText(Box::new(x))),
                }
            },
            RowExpr::Str { func, args } => {
                let ghost all = args.deep_view();
                let ghost start_fields = texts(fields@);
                let ghost start = log.deep_view();
                proof {
                    row_expr_view_args(*func, *args);
                    assert(all.take(0) =~= Seq::<RowExprV>::empty());
                }
                let mut list: Vec<CompiledRow> = Vec::new();
                let mut i: usize = 0;
                assert(list.deep_view() =~= Seq::<CompiledRowV>::empty());
                while i < args.len()
                    invariant
                        i <= args@.len(),
                        all == args.deep_view(),
                        expr matches RowExpr::Str { args: a, .. } && a == *args,
                        expr.deep_view() == (RowExprV::Str { func: *func, args: all }),
                        start_fields == texts(old(fields)@),
                        start == old(log).deep_view(),
                        row_functions(
                            self.deep_view(),
                            c.deep_view(),
                            all.take(i as int),
                            start_fields,
                            start,
                        ) == Ok::<(Seq<CompiledRowV>, Seq<Seq<char>>, LogV), SqlErrorV>(
                            (list.deep_view(), texts(fields@), log.deep_view()),
                        ),
                    decreases args@.len() - i,
                {
                    proof {
                        take_next(all, i as int);
                        assert(all[i as int] == args@[i as int].deep_view());
                    }
                    match self.row_function(c, &args[i], fields, log) {
                        Err(e) => {
                            proof {
                                row_functions_stop(
                                    self.deep_view(),
                                    c.deep_view(),
                                    all,
                                    start_fields,
                                    start,
                                    i as int + 1,
                                );
                            }
                            return Err(e);
                        },
                        Ok(x) => {
                            let x = read_as_text(c, &args[i], x);
                            let ghost before = list.deep_view();
                            list.push(x);
                            assert(list.deep_view() =~= before.push(x.deep_view()));
                        },
                    }
                    i = i + 1;
                }
                proof {
                    take_all(all);
                    compiled_view_args(*func, list);
                }
                Ok(CompiledRow::Str { func: *func, args: list })
            },
            RowExpr::Add(a, b) => {
                let x = self.row_function(c, a, fields, log)?;
                let y = self.row_function(c, b, fields, log)?;
                Ok(CompiledRow::Add(Box::new(x), Box::new(y)))
            },
            RowExpr::Sub(a, b) => {
                let x = self.row_function(c, a, fields, log)?;
                let y = self.row_function(c, b, fields, log)?;
                Ok(CompiledRow::Sub(Box::new(x), Box::new(y)))
            },
            RowExpr::Concat(a, b) => {
                let x = self.row_function(c, a, fields, log)?;
                let y = self.row_function(c, b, fields, log)?;
                let left = read_as_text(c, a, x);
                let right = read_as_text(c, b, y);
                Ok(CompiledRow::Concat(Box::new(left), Box::new(right)))
            },
        }
    }
}

} // verus!
