//! Row expressions: their compiled form and their value over one row.

use vstd::prelude::*;
use crate::ast::{str_func_text, StrFunc, TimeUnit};
use crate::calendar::{extract, extracted, MICROS_PER_SECOND};
use crate::error::{gives, SqlError, SqlErrorV};
use crate::instant::{
    date_text, date_trunc, format_date, format_timestamp, shaped, timestamp_text, to_char,
    truncated_to,
};
use crate::lists::{take_all, take_next};
use crate::number::{is_whole, saturated, to_i64, whole};
use crate::scan::{begins, stands_at, trim, trimmed};
use crate::strings::{
    left, left_of, length, position, position_of, replace, replaced, right, right_of, split_part,
    split_part_of, stored_count, substring, substring_of,
};
use crate::text::{
    cat2, cat3, cat7, decimal, decimal_i64, decimal_u64, decimal_usize, debug_quoted,
    lowercase, owned, quoted, to_lower, to_upper, uppercase,
};
use crate::timestamp::{instant_of, parse_timestamp};
use crate::value::{row_view, SqlValue, SqlValueV};

verus! {

/// A row expression with every name resolved and every constant folded.
#[derive(Debug)]
pub enum CompiledRow {
    /// The `at`-th projected field; `time` when it is a declared instant.
    Field { at: usize, time: bool },
    Lit(SqlValue),
    /// An instant or a span, folded while the statement was compiled.
    Micros(i64),
    Extract { unit: TimeUnit, arg: Box<CompiledRow> },
    Trunc { unit: TimeUnit, arg: Box<CompiledRow> },
    Age { left: Box<CompiledRow>, right: Box<CompiledRow> },
    ToChar { arg: Box<CompiledRow>, format: String },
    ToTimestamp(Box<CompiledRow>),
    ToDate(Box<CompiledRow>),
    CastDate(Box<CompiledRow>),
    CastText(Box<CompiledRow>),
    /// A declared instant printed as ISO-8601 text.
    Iso { arg: Box<CompiledRow>, date_only: bool },
    Str { func: StrFunc, args: Vec<CompiledRow> },
    Add(Box<CompiledRow>, Box<CompiledRow>),
    Sub(Box<CompiledRow>, Box<CompiledRow>),
    Concat(Box<CompiledRow>, Box<CompiledRow>),
}

/// The mathematical view of a [`CompiledRow`].
pub enum CompiledRowV {
    Field { at: usize, time: bool },
    Lit(SqlValueV),
    Micros(i64),
    Extract { unit: TimeUnit, arg: Box<CompiledRowV> },
    Trunc { unit: TimeUnit, arg: Box<CompiledRowV> },
    Age { left: Box<CompiledRowV>, right: Box<CompiledRowV> },
    ToChar { arg: Box<CompiledRowV>, format: Seq<char> },
    ToTimestamp(Box<CompiledRowV>),
    ToDate(Box<CompiledRowV>),
    CastDate(Box<CompiledRowV>),
    CastText(Box<CompiledRowV>),
    Iso { arg: Box<CompiledRowV>, date_only: bool },
    Str { func: StrFunc, args: Seq<CompiledRowV> },
    Add(Box<CompiledRowV>, Box<CompiledRowV>),
    Sub(Box<CompiledRowV>, Box<CompiledRowV>),
    Concat(Box<CompiledRowV>, Box<CompiledRowV>),
}

pub open spec fn compiled_view(e: CompiledRow) -> CompiledRowV
    decreases e,
{
    match e {
        CompiledRow::Field { at, time } => CompiledRowV::Field { at, time },
        CompiledRow::Lit(v) => CompiledRowV::Lit(v.deep_view()),
        CompiledRow::Micros(n) => CompiledRowV::Micros(n),
        CompiledRow::Extract { unit, arg } => CompiledRowV::Extract {
            unit,
            arg: Box::new(compiled_view(*arg)),
        },
        CompiledRow::Trunc { unit, arg } => CompiledRowV::Trunc {
            unit,
            arg: Box::new(compiled_view(*arg)),
        },
        CompiledRow::Age { left, right } => CompiledRowV::Age {
            left: Box::new(compiled_view(*left)),
            right: Box::new(compiled_view(*right)),
        },
        CompiledRow::ToChar { arg, format } => CompiledRowV::ToChar {
            arg: Box::new(compiled_view(*arg)),
            format: format@,
        },
        CompiledRow::ToTimestamp(arg) => CompiledRowV::ToTimestamp(Box::new(compiled_view(*arg))),
        CompiledRow::ToDate(arg) => CompiledRowV::ToDate(Box::new(compiled_view(*arg))),
        CompiledRow::CastDate(arg) => CompiledRowV::CastDate(Box::new(compiled_view(*arg))),
        CompiledRow::CastText(arg) => CompiledRowV::CastText(Box::new(compiled_view(*arg))),
        CompiledRow::Iso { arg, date_only } => CompiledRowV::Iso {
            arg: Box::new(compiled_view(*arg)),
            date_only,
        },
        CompiledRow::Str { func, args } => CompiledRowV::Str {
            func,
            args: Seq::new(
                args@.len(),
                |i: int|
                    if 0 <= i < args@.len() {
                        compiled_view(args@[i])
                    } else {
                        arbitrary()
                    },
            ),
        },
        CompiledRow::Add(a, b) => CompiledRowV::Add(
            Box::new(compiled_view(*a)),
            Box::new(compiled_view(*b)),
        ),
        CompiledRow::Sub(a, b) => CompiledRowV::Sub(
            Box::new(compiled_view(*a)),
            Box::new(compiled_view(*b)),
        ),
        CompiledRow::Concat(a, b) => CompiledRowV::Concat(
            Box::new(compiled_view(*a)),
            Box::new(compiled_view(*b)),
        ),
    }
}

impl DeepView for CompiledRow {
    type V = CompiledRowV;

    open spec fn deep_view(&self) -> CompiledRowV {
        compiled_view(*self)
    }
}

/// The view of a call is that of its arguments.
pub proof fn compiled_view_args(func: StrFunc, args: Vec<CompiledRow>)
    ensures
        compiled_view(CompiledRow::Str { func, args }) == (CompiledRowV::Str {
            func,
            args: args.deep_view(),
        }),
{
    assert(compiled_view(CompiledRow::Str { func, args })->args =~= args.deep_view());
}

// ── reading one value ────────────────────────────────────────────────────

/// Whether a value is absent: `NULL` and a missing field alike.
pub open spec fn is_nullish(v: SqlValueV) -> bool {
    v is Null || v is Missing
}

pub fn nullish(value: &SqlValue) -> (r: bool)
    ensures
        r == is_nullish(value.deep_view()),
{
    match value {
        SqlValue::Null => true,
        SqlValue::Missing => true,
        _ => false,
    }
}

/// A value as an error shows it.
pub open spec fn debug_text(v: SqlValueV) -> Seq<char> {
    match v {
        SqlValueV::Missing => "Missing"@,
        SqlValueV::Null => "Null"@,
        SqlValueV::Bool(b) => if b {
            "Bool(true)"@
        } else {
            "Bool(false)"@
        },
        SqlValueV::Int(n) => "Int("@ + decimal(n as int) + ")"@,
        SqlValueV::Float(n) => "Float("@ + n.json + ")"@,
        SqlValueV::Text(s) => "Text("@ + debug_quoted(s) + ")"@,
        SqlValueV::Json(j) => "Json("@ + j.text + ")"@,
        SqlValueV::Id(id) => "Id(EntityId { collection: CollectionId("@ + decimal(
            id.collection as int,
        ) + "), sequence: "@ + decimal(id.sequence as int) + " })"@,
    }
}

fn debug_shown(value: &SqlValue) -> (r: String)
    ensures
        r@ == debug_text(value.deep_view()),
{
    match value {
        SqlValue::Missing => owned("Missing"),
        SqlValue::Null => owned("Null"),
        SqlValue::Bool(b) => owned(if *b {
            "Bool(true)"
        } else {
            "Bool(false)"
        }),
        SqlValue::Int(n) => cat3("Int(", decimal_i64(*n).as_str(), ")"),
        SqlValue::Float(n) => cat3("Float(", n.json.as_str(), ")"),
        SqlValue::Text(s) => cat3("Text(", quoted(s.as_str()).as_str(), ")"),
        SqlValue::Json(j) => cat3("Json(", j.text.as_str(), ")"),
        SqlValue::Id(id) => {
            let head = cat3(
                "Id(EntityId { collection: CollectionId(",
                decimal_u64(id.collection).as_str(),
                "), sequence: ",
            );
            cat3(head.as_str(), decimal_u64(id.sequence).as_str(), " })")
        },
    }
}

/// A whole number: an integer, or a float without a fraction.
pub open spec fn int_wanted(v: SqlValueV, what: Seq<char>) -> Result<i64, SqlErrorV> {
    match v {
        SqlValueV::Int(n) => Ok(n),
        SqlValueV::Float(n) if is_whole(n.bits) => Ok(saturated(n.bits) as i64),
        _ => Err(
            SqlErrorV::Parameter(
                what + " takes a whole number and the row holds "@ + debug_text(v),
            ),
        ),
    }
}

fn want_int(value: &SqlValue, what: &str) -> (r: Result<i64, SqlError>)
    ensures
        gives(r, int_wanted(value.deep_view(), what@)),
{
    match value {
        SqlValue::Int(n) => return Ok(*n),
        SqlValue::Float(n) => {
            if whole(n.bits) {
                return Ok(to_i64(n.bits));
            }
        },
        _ => {},
    }
    Err(
        SqlError::Parameter(
            cat3(what, " takes a whole number and the row holds ", debug_shown(value).as_str()),
        ),
    )
}

/// Text: a string, or the text of a number or a truth value.
pub open spec fn text_wanted(v: SqlValueV, what: Seq<char>) -> Result<Seq<char>, SqlErrorV> {
    match v {
        SqlValueV::Text(s) => Ok(s),
        SqlValueV::Int(n) => Ok(decimal(n as int)),
        SqlValueV::Float(n) => Ok(n.shown),
        SqlValueV::Bool(b) => Ok(
            if b {
                "true"@
            } else {
                "false"@
            },
        ),
        _ => Err(SqlErrorV::Parameter(what + " takes text and the row holds "@ + debug_text(v))),
    }
}

fn want_text(value: &SqlValue, what: &str) -> (r: Result<String, SqlError>)
    ensures
        gives(r, text_wanted(value.deep_view(), what@)),
{
    match value {
        SqlValue::Text(s) => Ok(s.clone()),
        SqlValue::Int(n) => Ok(decimal_i64(*n)),
        SqlValue::Float(n) => Ok(n.shown.clone()),
        SqlValue::Bool(b) => Ok(
            owned(
                if *b {
                    "true"
                } else {
                    "false"
                },
            ),
        ),
        _ => Err(
            SqlError::Parameter(
                cat3(what, " takes text and the row holds ", debug_shown(value).as_str()),
            ),
        ),
    }
}

// ── string functions ─────────────────────────────────────────────────────

pub open spec fn arity_error(func: StrFunc, low: int, high: int, given: int) -> SqlErrorV {
    SqlErrorV::Unsupported(
        str_func_text(func) + "() takes "@ + decimal(low) + "..="@ + decimal(high)
            + " arguments and was given "@ + decimal(given),
    )
}

fn arity(func: StrFunc, low: usize, high: usize, given: usize) -> (r: Result<(), SqlError>)
    ensures
        low <= given <= high ==> r is Ok,
        !(low <= given <= high) ==> r is Err && r->Err_0.deep_view() == arity_error(
            func,
            low as int,
            high as int,
            given as int,
        ),
{
    if low <= given && given <= high {
        Ok(())
    } else {
        Err(
            SqlError::Unsupported(
                cat7(
                    func.written(),
                    "() takes ",
                    decimal_usize(low).as_str(),
                    "..=",
                    decimal_usize(high).as_str(),
                    " arguments and was given ",
                    decimal_usize(given).as_str(),
                ),
            ),
        )
    }
}

/// `concat` of the first `n` arguments: the absent ones are passed over.
pub open spec fn concat_of(args: Seq<SqlValueV>, n: nat) -> Result<Seq<char>, SqlErrorV>
    decreases n,
{
    if n == 0 {
        Ok(Seq::empty())
    } else {
        match concat_of(args, (n - 1) as nat) {
            Err(e) => Err(e),
            Ok(done) => if is_nullish(args[n - 1]) {
                Ok(done)
            } else {
                match text_wanted(args[n - 1], "concat"@) {
                    Ok(text) => Ok(done + text),
                    Err(_) => Err(
                        SqlErrorV::Parameter("concat() argument "@ + decimal(n as int) + " is not text"@),
                    ),
                }
            },
        }
    }
}

proof fn concat_stops(args: Seq<SqlValueV>, n: nat, m: nat)
    requires
        n <= m,
        concat_of(args, n) is Err,
    ensures
        concat_of(args, m) == concat_of(args, n),
    decreases m - n,
{
    if n < m {
        concat_stops(args, n, (m - 1) as nat);
    }
}

fn concat(args: &Vec<SqlValue>) -> (r: Result<String, SqlError>)
    ensures
        gives(r, concat_of(row_view(args@), args@.len())),
{
    let mut out = String::new();
    let mut i: usize = 0;
    while i < args.len()
        invariant
            i <= args@.len(),
            concat_of(row_view(args@), i as nat) == Ok::<Seq<char>, SqlErrorV>(out@),
        decreases args@.len() - i,
    {
        let n: usize = i + 1;
        if !nullish(&args[i]) {
            match want_text(&args[i], "concat") {
                Ok(text) => {
                    out.append(text.as_str());
                },
                Err(_) => {
                    proof {
                        concat_stops(row_view(args@), n as nat, args@.len());
                    }
                    return Err(
                        SqlError::Parameter(
                            cat3("concat() argument ", decimal_usize(n).as_str(), " is not text"),
                        ),
                    );
                },
            }
        }
        i = n;
    }
    Ok(out)
}

/// One text argument of a string function.
pub open spec fn text_arg(func: StrFunc, args: Seq<SqlValueV>, i: int) -> Result<
    Seq<char>,
    SqlErrorV,
> {
    text_wanted(args[i], str_func_text(func))
}

/// One whole-number argument of a string function.
pub open spec fn int_arg(func: StrFunc, args: Seq<SqlValueV>, i: int) -> Result<i64, SqlErrorV> {
    int_wanted(args[i], str_func_text(func))
}

pub open spec fn text_result(r: Result<Seq<char>, SqlErrorV>) -> Result<SqlValueV, SqlErrorV> {
    match r {
        Ok(text) => Ok(SqlValueV::Text(text)),
        Err(e) => Err(e),
    }
}

pub open spec fn substring_args(func: StrFunc, args: Seq<SqlValueV>, count: Option<i64>) -> Result<
    SqlValueV,
    SqlErrorV,
> {
    match text_arg(func, args, 0) {
        Err(e) => Err(e),
        Ok(text) => match int_arg(func, args, 1) {
            Err(e) => Err(e),
            Ok(from) => text_result(substring_of(text, from, count)),
        },
    }
}

/// A string function over values that are all there.
pub open spec fn string_result(func: StrFunc, args: Seq<SqlValueV>) -> Result<
    SqlValueV,
    SqlErrorV,
> {
    let n = args.len() as int;
    let (low, high) = match func {
        StrFunc::Lower | StrFunc::Upper | StrFunc::Length | StrFunc::Trim => (1int, 1int),
        StrFunc::Concat => (0, n),
        StrFunc::Substring => (2, 3),
        StrFunc::Left | StrFunc::Right | StrFunc::Position | StrFunc::StartsWith => (2, 2),
        StrFunc::SplitPart | StrFunc::Replace => (3, 3),
    };
    if !(low <= n <= high) {
        Err(arity_error(func, low, high, n))
    } else {
        match func {
            StrFunc::Concat => text_result(concat_of(args, args.len())),
            StrFunc::Substring => if n == 3 {
                match int_arg(func, args, 2) {
                    Err(e) => Err(e),
                    Ok(count) => substring_args(func, args, Some(count)),
                }
            } else {
                substring_args(func, args, None)
            },
            _ => match text_arg(func, args, 0) {
                Err(e) => Err(e),
                Ok(text) => match func {
                    StrFunc::Lower => Ok(SqlValueV::Text(lowercase(text))),
                    StrFunc::Upper => Ok(SqlValueV::Text(uppercase(text))),
                    StrFunc::Length => Ok(SqlValueV::Int(stored_count(text.len() as int))),
                    StrFunc::Trim => Ok(SqlValueV::Text(trimmed(text))),
                    StrFunc::Left => match int_arg(func, args, 1) {
                        Err(e) => Err(e),
                        Ok(k) => Ok(SqlValueV::Text(left_of(text, k))),
                    },
                    StrFunc::Right => match int_arg(func, args, 1) {
                        Err(e) => Err(e),
                        Ok(k) => Ok(SqlValueV::Text(right_of(text, k))),
                    },
                    _ => match text_arg(func, args, 1) {
                        Err(e) => Err(e),
                        Ok(second) => match func {
                            StrFunc::Position => Ok(SqlValueV::Int(position_of(text, second))),
                            StrFunc::StartsWith => Ok(
                                SqlValueV::Bool(stands_at(text, second, 0)),
                            ),
                            StrFunc::Replace => match text_arg(func, args, 2) {
                                Err(e) => Err(e),
                                Ok(with) => Ok(SqlValueV::Text(replaced(text, second, with))),
                            },
                            _ => match int_arg(func, args, 2) {
                                Err(e) => Err(e),
                                Ok(k) => text_result(split_part_of(text, second, k)),
                            },
                        },
                    },
                },
            },
        }
    }
}

/// The string functions, over already evaluated arguments.
pub fn string_function(func: StrFunc, args: &Vec<SqlValue>) -> (r: Result<SqlValue, SqlError>)
    ensures
        gives(r, string_result(func, row_view(args@))),
{
    let name = func.written();
    let n: usize = args.len();
    match func {
        StrFunc::Lower => {
            arity(func, 1, 1, n)?;
            let text = want_text(&args[0], name)?;
            Ok(SqlValue::Text(to_lower(text.as_str())))
        },
        StrFunc::Upper => {
            arity(func, 1, 1, n)?;
            let text = want_text(&args[0], name)?;
            Ok(SqlValue::Text(to_upper(text.as_str())))
        },
        StrFunc::Length => {
            arity(func, 1, 1, n)?;
            let text = want_text(&args[0], name)?;
            Ok(SqlValue::Int(length(text.as_str())))
        },
        StrFunc::Trim => {
            arity(func, 1, 1, n)?;
            let text = want_text(&args[0], name)?;
            Ok(SqlValue::Text(trim(text.as_str())))
        },
        StrFunc::Concat => Ok(SqlValue::Text(concat(args)?)),
        StrFunc::Substring => {
            arity(func, 2, 3, n)?;
            let count = if n == 3 {
                Some(want_int(&args[2], name)?)
            } else {
                None
            };
            let text = want_text(&args[0], name)?;
            let from = want_int(&args[1], name)?;
            Ok(SqlValue::Text(substring(text.as_str(), from, count)?))
        },
        StrFunc::Left => {
            arity(func, 2, 2, n)?;
            let text = want_text(&args[0], name)?;
            let k = want_int(&args[1], name)?;
            Ok(SqlValue::Text(left(text.as_str(), k)))
        },
        StrFunc::Right => {
            arity(func, 2, 2, n)?;
            let text = want_text(&args[0], name)?;
            let k = want_int(&args[1], name)?;
            Ok(SqlValue::Text(right(text.as_str(), k)))
        },
        StrFunc::SplitPart => {
            arity(func, 3, 3, n)?;
            let text = want_text(&args[0], name)?;
            let mark = want_text(&args[1], name)?;
            let k = want_int(&args[2], name)?;
            Ok(SqlValue::Text(split_part(text.as_str(), mark.as_str(), k)?))
        },
        StrFunc::Replace => {
            arity(func, 3, 3, n)?;
            let text = want_text(&args[0], name)?;
            let part = want_text(&args[1], name)?;
            let with = want_text(&args[2], name)?;
            Ok(SqlValue::Text(replace(text.as_str(), part.as_str(), with.as_str())))
        },
        StrFunc::Position => {
            arity(func, 2, 2, n)?;
            let text = want_text(&args[0], name)?;
            let part = want_text(&args[1], name)?;
            Ok(SqlValue::Int(position(text.as_str(), part.as_str())))
        },
        StrFunc::StartsWith => {
            arity(func, 2, 2, n)?;
            let text = want_text(&args[0], name)?;
            let part = want_text(&args[1], name)?;
            Ok(SqlValue::Bool(begins(text.as_str(), part.as_str())))
        },
    }
}

// ── evaluation ───────────────────────────────────────────────────────────

pub open spec fn saturating(n: int) -> i64 {
    if n > i64::MAX {
        i64::MAX
    } else if n < i64::MIN {
        i64::MIN
    } else {
        n as i64
    }
}

fn saturate(n: i128) -> (r: i64)
    ensures
        r == saturating(n as int),
{
    if n > 9223372036854775807 {
        9223372036854775807
    } else if n < -9223372036854775808 {
        -9223372036854775808
    } else {
        n as i64
    }
}

/// `TIMESTAMP`/`DATE` from text, or from an already stored integer.
pub open spec fn micros_of(v: SqlValueV, what: Seq<char>) -> Result<i64, SqlErrorV> {
    match v {
        SqlValueV::Text(text) => instant_of(text),
        _ => int_wanted(v, what),
    }
}

/// What one function makes of one value that is there.
pub open spec fn applied(e: CompiledRowV, v: SqlValueV) -> Result<SqlValueV, SqlErrorV> {
    match e {
        CompiledRowV::Extract { unit, .. } => match int_wanted(v, "EXTRACT(... FROM t)"@) {
            Err(e) => Err(e),
            Ok(t) => Ok(SqlValueV::Int(extracted(unit, t as int) as i64)),
        },
        CompiledRowV::Trunc { unit, .. } => match int_wanted(v, "date_trunc(u, t)"@) {
            Err(e) => Err(e),
            Ok(t) => match truncated_to(unit, t) {
                Err(e) => Err(e),
                Ok(start) => Ok(SqlValueV::Int(start)),
            },
        },
        CompiledRowV::ToChar { format, .. } => match int_wanted(v, "to_char(t, f)"@) {
            Err(e) => Err(e),
            Ok(t) => text_result(shaped(t, format)),
        },
        CompiledRowV::ToTimestamp(_) => match v {
            SqlValueV::Text(text) => match instant_of(text) {
                Err(e) => Err(e),
                Ok(t) => Ok(SqlValueV::Int(t)),
            },
            _ => match int_wanted(v, "to_timestamp(seconds)"@) {
                Err(e) => Err(e),
                Ok(n) => Ok(SqlValueV::Int(saturating(n * MICROS_PER_SECOND))),
            },
        },
        CompiledRowV::ToDate(_) | CompiledRowV::CastDate(_) => match micros_of(v, "to_date(t)"@) {
            Err(e) => Err(e),
            Ok(t) => match truncated_to(TimeUnit::Day, t) {
                Err(e) => Err(e),
                Ok(start) => Ok(SqlValueV::Int(start)),
            },
        },
        CompiledRowV::CastText(_) => text_result(text_wanted(v, "::text"@)),
        CompiledRowV::Iso { date_only, .. } => match int_wanted(v, "a declared timestamp"@) {
            Err(e) => Err(e),
            Ok(t) => Ok(
                SqlValueV::Text(
                    if date_only {
                        date_text(t as int)
                    } else {
                        timestamp_text(t as int)
                    },
                ),
            ),
        },
        _ => Ok(v),
    }
}

/// What one operator makes of two values that are there.
pub open spec fn combined(e: CompiledRowV, x: SqlValueV, y: SqlValueV) -> Result<
    SqlValueV,
    SqlErrorV,
> {
    match e {
        CompiledRowV::Concat(..) => match text_wanted(x, "||"@) {
            Err(e) => Err(e),
            Ok(a) => match text_wanted(y, "||"@) {
                Err(e) => Err(e),
                Ok(b) => Ok(SqlValueV::Text(a + b)),
            },
        },
        _ => {
            let what = if e is Age {
                "age(a, b)"@
            } else {
                "date arithmetic"@
            };
            match int_wanted(x, what) {
                Err(e) => Err(e),
                Ok(a) => match int_wanted(y, what) {
                    Err(e) => Err(e),
                    Ok(b) => Ok(
                        SqlValueV::Int(
                            if e is Add {
                                saturating(a + b)
                            } else {
                                saturating(a - b)
                            },
                        ),
                    ),
                },
            }
        },
    }
}

/// The value of a row expression over one row's values. An absent value makes
/// the whole expression `NULL`, except inside `concat`.
pub open spec fn evaluated(e: CompiledRowV, values: Seq<SqlValueV>) -> Result<SqlValueV, SqlErrorV>
    decreases e,
{
    match e {
        CompiledRowV::Field { at, .. } => Ok(
            if at < values.len() {
                values[at as int]
            } else {
                SqlValueV::Missing
            },
        ),
        CompiledRowV::Lit(v) => Ok(v),
        CompiledRowV::Micros(n) => Ok(SqlValueV::Int(n)),
        CompiledRowV::Extract { arg, .. }
        | CompiledRowV::Trunc { arg, .. }
        | CompiledRowV::ToChar { arg, .. }
        | CompiledRowV::ToTimestamp(arg)
        | CompiledRowV::ToDate(arg)
        | CompiledRowV::CastDate(arg)
        | CompiledRowV::CastText(arg)
        | CompiledRowV::Iso { arg, .. } => match evaluated(*arg, values) {
            Err(e) => Err(e),
            Ok(v) => if is_nullish(v) {
                Ok(SqlValueV::Null)
            } else {
                applied(e, v)
            },
        },
        CompiledRowV::Age { left, right }
        | CompiledRowV::Add(left, right)
        | CompiledRowV::Sub(left, right)
        | CompiledRowV::Concat(left, right) => match evaluated(*left, values) {
            Err(e) => Err(e),
            Ok(x) => match evaluated(*right, values) {
                Err(e) => Err(e),
                Ok(y) => if is_nullish(x) || is_nullish(y) {
                    Ok(SqlValueV::Null)
                } else {
                    combined(e, x, y)
                },
            },
        },
        CompiledRowV::Str { func, args } => match arguments(func, args, values) {
            Err(e) => Err(e),
            Ok(None) => Ok(SqlValueV::Null),
            Ok(Some(list)) => string_result(func, list),
        },
    }
}

/// The values of a function's arguments, from the left; nothing once one is
/// absent, unless the function passes absent values over.
pub open spec fn arguments(
    func: StrFunc,
    args: Seq<CompiledRowV>,
    values: Seq<SqlValueV>,
) -> Result<Option<Seq<SqlValueV>>, SqlErrorV>
    decreases args,
{
    if args.len() == 0 {
        Ok(Some(Seq::empty()))
    } else {
        match arguments(func, args.drop_last(), values) {
            Err(e) => Err(e),
            Ok(None) => Ok(None),
            Ok(Some(done)) => match evaluated(args.last(), values) {
                Err(e) => Err(e),
                Ok(v) => if is_nullish(v) && func != StrFunc::Concat {
                    Ok(None)
                } else {
                    Ok(Some(done.push(v)))
                },
            },
        }
    }
}

proof fn arguments_stop(func: StrFunc, args: Seq<CompiledRowV>, values: Seq<SqlValueV>, n: int)
    requires
        0 <= n <= args.len(),
        !(arguments(func, args.take(n), values) matches Ok(Some(_))),
    ensures
        arguments(func, args, values) == arguments(func, args.take(n), values),
    decreases args.len() - n,
{
    if n < args.len() {
        take_next(args, n);
        arguments_stop(func, args, values, n + 1);
    } else {
        take_all(args);
    }
}

impl CompiledRow {
    /// What this function makes of one value that is there.
    fn apply(&self, value: SqlValue) -> (r: Result<SqlValue, SqlError>)
        ensures
            gives(r, applied(self.deep_view(), value.deep_view())),
    {
        match self {
            CompiledRow::Extract { unit, .. } => {
                let t = want_int(&value, "EXTRACT(... FROM t)")?;
                Ok(SqlValue::Int(extract(*unit, t)))
            },
            CompiledRow::Trunc { unit, .. } => {
                let t = want_int(&value, "date_trunc(u, t)")?;
                Ok(SqlValue::Int(date_trunc(*unit, t)?))
            },
            CompiledRow::ToChar { format, .. } => {
                let t = want_int(&value, "to_char(t, f)")?;
                Ok(SqlValue::Text(to_char(t, format.as_str())?))
            },
            CompiledRow::ToTimestamp(_) => match &value {
                SqlValue::Text(text) => Ok(SqlValue::Int(parse_timestamp(text.as_str())?)),
                _ => {
                    let n = want_int(&value, "to_timestamp(seconds)")?;
                    Ok(SqlValue::Int(saturate((n as i128) * 1_000_000)))
                },
            },
            CompiledRow::ToDate(_) | CompiledRow::CastDate(_) => {
                let t = micros(&value)?;
                Ok(SqlValue::Int(date_trunc(TimeUnit::Day, t)?))
            },
            CompiledRow::CastText(_) => Ok(SqlValue::Text(want_text(&value, "::text")?)),
            CompiledRow::Iso { date_only, .. } => {
                let t = want_int(&value, "a declared timestamp")?;
                let text = if *date_only {
                    format_date(t)
                } else {
                    format_timestamp(t)
                };
                Ok(SqlValue::Text(text))
            },
            _ => Ok(value),
        }
    }

    /// What this operator makes of two values that are there.
    fn combine(&self, x: &SqlValue, y: &SqlValue) -> (r: Result<SqlValue, SqlError>)
        ensures
            gives(r, combined(self.deep_view(), x.deep_view(), y.deep_view())),
    {
        match self {
            CompiledRow::Concat(..) => {
                let a = want_text(x, "||")?;
                let b = want_text(y, "||")?;
                Ok(SqlValue::Text(cat2(a.as_str(), b.as_str())))
            },
            CompiledRow::Age { .. } => {
                let a = want_int(x, "age(a, b)")?;
                let b = want_int(y, "age(a, b)")?;
                Ok(SqlValue::Int(saturate((a as i128) - (b as i128))))
            },
            CompiledRow::Add(..) => {
                let a = want_int(x, "date arithmetic")?;
                let b = want_int(y, "date arithmetic")?;
                Ok(SqlValue::Int(saturate((a as i128) + (b as i128))))
            },
            _ => {
                let a = want_int(x, "date arithmetic")?;
                let b = want_int(y, "date arithmetic")?;
                Ok(SqlValue::Int(saturate((a as i128) - (b as i128))))
            },
        }
    }

    /// One value, from one row's projected values. Reads no other row.
    pub fn eval(&self, values: &Vec<SqlValue>) -> (r: Result<SqlValue, SqlError>)
        ensures
            gives(r, evaluated(self.deep_view(), row_view(values@))),
        decreases self,
    {
        match self {
            CompiledRow::Field { at, .. } => {
                if *at < values.len() {
                    Ok(values[*at].dup())
                } else {
                    Ok(SqlValue::Missing)
                }
            },
            CompiledRow::Lit(value) => Ok(value.dup()),
            CompiledRow::Micros(n) => Ok(SqlValue::Int(*n)),
            CompiledRow::Extract { arg, .. }
            | CompiledRow::Trunc { arg, .. }
            | CompiledRow::ToChar { arg, .. }
            | CompiledRow::ToTimestamp(arg)
            | CompiledRow::ToDate(arg)
            | CompiledRow::CastDate(arg)
            | CompiledRow::CastText(arg)
            | CompiledRow::Iso { arg, .. } => {
                let value = arg.eval(values)?;
                if nullish(&value) {
                    return Ok(SqlValue::Null);
                }
                self.apply(value)
            },
            CompiledRow::Age { left, right }
            | CompiledRow::Add(left, right)
            | CompiledRow::Sub(left, right)
            | CompiledRow::Concat(left, right) => {
                let x = left.eval(values)?;
                let y = right.eval(values)?;
                if nullish(&x) || nullish(&y) {
                    return Ok(SqlValue::Null);
                }
                self.combine(&x, &y)
            },
            CompiledRow::Str { func, args } => {
                let ghost all = args.deep_view();
                proof {
                    compiled_view_args(*func, *args);
                    assert(all.take(0) =~= Seq::<CompiledRowV>::empty());
                }
                let mut list: Vec<SqlValue> = Vec::new();
                let mut i: usize = 0;
                assert(row_view(list@) =~= Seq::<SqlValueV>::empty());
                while i < args.len()
                    invariant
                        i <= args@.len(),
                        all == args.deep_view(),
                        self matches CompiledRow::Str { func: f, args: a } && a == *args && f
                            == *func,
                        self.deep_view() == (CompiledRowV::Str { func: *func, args: all }),
                        arguments(*func, all.take(i as int), row_view(values@)) == Ok::<
                            Option<Seq<SqlValueV>>,
                            SqlErrorV,
                        >(Some(row_view(list@))),
                    decreases args@.len() - i,
                {
                    proof {
                        take_next(all, i as int);
                    }
                    match args[i].eval(values) {
                        Err(e) => {
                            proof {
                                arguments_stop(*func, all, row_view(values@), i as int + 1);
                            }
                            return Err(e);
                        },
                        Ok(value) => {
                            if nullish(&value) && *func != StrFunc::Concat {
                                proof {
                                    arguments_stop(*func, all, row_view(values@), i as int + 1);
                                }
                                return Ok(SqlValue::Null);
                            }
                            let ghost before = list@;
                            list.push(value);
                            assert(row_view(list@) =~= row_view(before).push(value.deep_view()));
                        },
                    }
                    i = i + 1;
                }
                proof {
                    take_all(all);
                }
                string_function(*func, &list)
            },
        }
    }
}

fn micros(value: &SqlValue) -> (r: Result<i64, SqlError>)
    ensures
        gives(r, micros_of(value.deep_view(), "to_date(t)"@)),
{
    match value {
        SqlValue::Text(text) => parse_timestamp(text.as_str()),
        _ => want_int(value, "to_date(t)"),
    }
}

} // verus!
