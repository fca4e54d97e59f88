//! Functions of a column folded into one range of its index.

use vstd::prelude::*;
use crate::ast::{
    text_shape_text, time_shape_ok, time_shape_text, CmpOp, Literal, LiteralV, PrefixForm,
    TextShape, TextShapeV, TimeShape, TimeShapeV, TimeUnit, TimeValue, TimeValueV,
};
use crate::calendar::{days_from_civil, fits, new_year, MICROS_PER_DAY, MICROS_PER_SECOND};
use crate::compile::bind::{text_of, value_of, Scalar, ScalarV};
use crate::compile::env::{
    index_for, index_for_expression, kind_of, time_column, Collection, CollectionV, IndexExpr,
    IndexExprV, IndexFamily,
};
use crate::compile::log::{logged, Env, EnvV, Log, LogV};
use crate::compile::plan::{
    no_slots, Bound, OwnedFilter, OwnedFilterV, OwnedScalarFilter, OwnedScalarFilterV, ScalarFillV,
};
use crate::compile::row::saturating;
use crate::error::{gives, SqlError, SqlErrorV, Tier};
use crate::instant::{date_trunc, following, next_unit, truncated_to};
use crate::refuse::{multi_range, multi_range_refusal};
use crate::scan::holds_char;
use crate::strings::{
    like_prefix, like_prefix_of, prefix_successor, successor_of, PrefixSuccessor, PrefixSuccessorV,
};
use crate::text::{cat2, cat3, cat4, cat5, cat6, lowercase, owned, to_lower};
use crate::timestamp::{instant_of, parse_timestamp};
use crate::value::{json_text, Kind, Value, ValueV};

verus! {

/// Why a `LIKE` that is no prefix is refused.
pub const LIKE_NOT_A_PREFIX: &'static str = "QL_CONTRACT §3: `LIKE 'abc%'` is a text-key PREFIX range and is accepted; any other pattern (`'%abc%'`, `'a_c'`, an interior `%`) needs the trigram index family (pg_trgm-compatible) under a new feature bit, which is not built. Without that index the only way to answer it is a scan, and §6 does not allow one to be taken silently.";

// ── ranges of instants ───────────────────────────────────────────────────

/// The half-open range `[lower, upper)` of stored instants.
pub open spec fn micro_range(lower: Option<i64>, upper: Option<i64>) -> OwnedScalarFilterV {
    OwnedScalarFilterV::Range {
        lower: match lower {
            Some(v) => Bound::Included(ScalarV::I64(v)),
            None => Bound::Unbounded,
        },
        upper: match upper {
            Some(v) => Bound::Excluded(ScalarV::I64(v)),
            None => Bound::Unbounded,
        },
    }
}

/// A range that holds nothing.
pub open spec fn empty_range() -> OwnedScalarFilterV {
    OwnedScalarFilterV::Range {
        lower: Bound::Excluded(ScalarV::I64(i64::MAX)),
        upper: Bound::Excluded(ScalarV::I64(i64::MAX)),
    }
}

/// The instant after `at`, where it can be stored.
pub open spec fn next_micro(at: i64) -> Option<i64> {
    if at == i64::MAX {
        None
    } else {
        Some((at + 1) as i64)
    }
}

/// The instants that compare so with one instant.
pub open spec fn compare_range(op: CmpOp, at: i64, what: Seq<char>) -> Result<
    OwnedScalarFilterV,
    SqlErrorV,
> {
    match op {
        CmpOp::Eq => Ok(micro_range(Some(at), next_micro(at))),
        CmpOp::Lt => Ok(micro_range(None, Some(at))),
        CmpOp::Le => Ok(micro_range(None, next_micro(at))),
        CmpOp::Gt => Ok(
            OwnedScalarFilterV::Range {
                lower: Bound::Excluded(ScalarV::I64(at)),
                upper: Bound::Unbounded,
            },
        ),
        CmpOp::Ge => Ok(micro_range(Some(at), None)),
        CmpOp::Ne => Err(multi_range_refusal(what)),
    }
}

/// The instants from `at` on; the last one that can be stored stands for one
/// beyond it, which no instant reaches.
pub open spec fn instants_from(at: i64) -> OwnedScalarFilterV {
    if at == i64::MAX {
        empty_range()
    } else {
        micro_range(Some(at), None)
    }
}

/// The instants before `at`; every instant is before one beyond the last.
pub open spec fn instants_before(at: i64) -> OwnedScalarFilterV {
    micro_range(None, cut_end(at))
}

/// The instants from `start` on and before `end`.
pub open spec fn instants_within(start: i64, end: i64) -> OwnedScalarFilterV {
    if start == i64::MAX {
        empty_range()
    } else {
        micro_range(Some(start), cut_end(end))
    }
}

/// An end that is one; the last instant that can be stored stands for none.
pub open spec fn cut_end(at: i64) -> Option<i64> {
    if at == i64::MAX {
        None
    } else {
        Some(at)
    }
}

/// The instants whose window compares so with `[start, end)`. A bound that is
/// the last instant that can be stored lies beyond it: no window of whole
/// seconds begins or ends there.
pub open spec fn window_range(op: CmpOp, start: i64, end: i64, what: Seq<char>) -> Result<
    OwnedScalarFilterV,
    SqlErrorV,
> {
    match op {
        CmpOp::Eq => Ok(instants_within(start, end)),
        CmpOp::Lt => Ok(instants_before(start)),
        CmpOp::Le => Ok(instants_before(end)),
        CmpOp::Gt => Ok(instants_from(end)),
        CmpOp::Ge => Ok(instants_from(start)),
        CmpOp::Ne => Err(multi_range_refusal(what)),
    }
}

/// The instants whose window compares so with an instant inside a window that
/// ends at `end`.
pub open spec fn offset_window_range(op: CmpOp, end: i64, what: Seq<char>) -> Result<
    OwnedScalarFilterV,
    SqlErrorV,
> {
    match op {
        CmpOp::Eq => Ok(empty_range()),
        CmpOp::Lt | CmpOp::Le => Ok(micro_range(None, Some(end))),
        CmpOp::Gt | CmpOp::Ge => Ok(micro_range(Some(end), None)),
        CmpOp::Ne => Err(multi_range_refusal(what)),
    }
}

/// 1 January of a year as a stored instant, or the nearer end of the range.
pub open spec fn year_start(year: i64) -> i64 {
    saturating(new_year(year as int) * MICROS_PER_DAY)
}

/// The window `[start, end)` in which a unit has the value `n`; only a year
/// and the epoch have one window.
pub open spec fn extract_window(unit: TimeUnit, n: i64, what: Seq<char>) -> Result<
    (i64, i64),
    SqlErrorV,
> {
    match unit {
        TimeUnit::Year => Ok((year_start(n), year_start(saturating(n + 1)))),
        TimeUnit::Epoch => Ok(
            (
                saturating(n * MICROS_PER_SECOND),
                saturating(saturating(n + 1) * MICROS_PER_SECOND),
            ),
        ),
        _ => Err(multi_range_refusal(what)),
    }
}

fn micros_between(lower: Option<i64>, upper: Option<i64>) -> (r: OwnedScalarFilter)
    ensures
        r.deep_view() == micro_range(lower, upper),
{
    OwnedScalarFilter::Range {
        lower: match lower {
            Some(v) => Bound::Included(Scalar::I64(v)),
            None => Bound::Unbounded,
        },
        upper: match upper {
            Some(v) => Bound::Excluded(Scalar::I64(v)),
            None => Bound::Unbounded,
        },
    }
}

fn nothing() -> (r: OwnedScalarFilter)
    ensures
        r.deep_view() == empty_range(),
{
    OwnedScalarFilter::Range {
        lower: Bound::Excluded(Scalar::I64(i64::MAX)),
        upper: Bound::Excluded(Scalar::I64(i64::MAX)),
    }
}

fn end_of_range(at: i64) -> (r: Option<i64>)
    ensures
        r == cut_end(at),
{
    if at == i64::MAX {
        None
    } else {
        Some(at)
    }
}

fn micros_from(at: i64) -> (r: OwnedScalarFilter)
    ensures
        r.deep_view() == instants_from(at),
{
    if at == i64::MAX {
        nothing()
    } else {
        micros_between(Some(at), None)
    }
}

fn micros_before(at: i64) -> (r: OwnedScalarFilter)
    ensures
        r.deep_view() == instants_before(at),
{
    micros_between(None, end_of_range(at))
}

fn micros_within(start: i64, end: i64) -> (r: OwnedScalarFilter)
    ensures
        r.deep_view() == instants_within(start, end),
{
    if start == i64::MAX {
        nothing()
    } else {
        micros_between(Some(start), end_of_range(end))
    }
}

fn compare_with(op: CmpOp, at: i64, what: &str) -> (r: Result<OwnedScalarFilter, SqlError>)
    ensures
        gives(r, compare_range(op, at, what@)),
{
    match op {
        CmpOp::Eq => Ok(micros_between(Some(at), at.checked_add(1))),
        CmpOp::Lt => Ok(micros_between(None, Some(at))),
        CmpOp::Le => Ok(micros_between(None, at.checked_add(1))),
        CmpOp::Gt => Ok(
            OwnedScalarFilter::Range {
                lower: Bound::Excluded(Scalar::I64(at)),
                upper: Bound::Unbounded,
            },
        ),
        CmpOp::Ge => Ok(micros_between(Some(at), None)),
        CmpOp::Ne => Err(multi_range(what)),
    }
}

fn window_with(op: CmpOp, start: i64, end: i64, what: &str) -> (r: Result<
    OwnedScalarFilter,
    SqlError,
>)
    ensures
        gives(r, window_range(op, start, end, what@)),
{
    match op {
        CmpOp::Eq => Ok(micros_within(start, end)),
        CmpOp::Lt => Ok(micros_before(start)),
        CmpOp::Le => Ok(micros_before(end)),
        CmpOp::Gt => Ok(micros_from(end)),
        CmpOp::Ge => Ok(micros_from(start)),
        CmpOp::Ne => Err(multi_range(what)),
    }
}

fn offset_window_with(op: CmpOp, end: i64, what: &str) -> (r: Result<OwnedScalarFilter, SqlError>)
    ensures
        gives(r, offset_window_range(op, end, what@)),
{
    match op {
        CmpOp::Eq => Ok(nothing()),
        CmpOp::Lt => Ok(micros_between(None, Some(end))),
        CmpOp::Le => Ok(micros_between(None, Some(end))),
        CmpOp::Gt => Ok(micros_between(Some(end), None)),
        CmpOp::Ge => Ok(micros_between(Some(end), None)),
        CmpOp::Ne => Err(multi_range(what)),
    }
}

fn saturated_product(a: i64, b: i64) -> (r: i64)
    ensures
        r == saturating(a * b),
{
    proof {
        assert(-0x8000_0000_0000_0000 * 0x8000_0000_0000_0000 <= a * b <= 0x8000_0000_0000_0000
            * 0x8000_0000_0000_0000) by (nonlinear_arith)
            requires
                -0x8000_0000_0000_0000 <= a <= 0x8000_0000_0000_0000,
                -0x8000_0000_0000_0000 <= b <= 0x8000_0000_0000_0000,
        ;
    }
    let t: i128 = (a as i128) * (b as i128);
    if t > 9223372036854775807 {
        9223372036854775807
    } else if t < -9223372036854775808 {
        -9223372036854775808
    } else {
        t as i64
    }
}

fn saturated_next(a: i64) -> (r: i64)
    ensures
        r == saturating(a + 1),
{
    if a == 9223372036854775807 {
        a
    } else {
        a + 1
    }
}

fn year_begin(year: i64) -> (r: i64)
    ensures
        r == year_start(year),
{
    if year > 400_000 {
        9223372036854775807
    } else if year < -400_000 {
        -9223372036854775808
    } else {
        saturated_product(days_from_civil(year, 1, 1), MICROS_PER_DAY)
    }
}

fn window_of(unit: TimeUnit, n: i64, what: &str) -> (r: Result<(i64, i64), SqlError>)
    ensures
        gives(r, extract_window(unit, n, what@)),
{
    match unit {
        TimeUnit::Year => Ok((year_begin(n), year_begin(saturated_next(n)))),
        TimeUnit::Epoch => Ok(
            (
                saturated_product(n, MICROS_PER_SECOND),
                saturated_product(saturated_next(n), MICROS_PER_SECOND),
            ),
        ),
        _ => Err(multi_range(what)),
    }
}

// ── values ───────────────────────────────────────────────────────────────

/// What a value that a range is computed from is folded into.
pub const RANGE: &'static str = "an index range";

/// A literal read as a stored instant.
pub open spec fn time_literal(env: EnvV, l: LiteralV, column: Seq<char>, log: LogV) -> Result<
    (i64, LogV),
    SqlErrorV,
> {
    match value_of(env.binder, l) {
        Err(e) => Err(e),
        Ok(ValueV::Text(text)) => match instant_of(text) {
            Err(e) => Err(e),
            Ok(t) => Ok((t, log.folded(l, RANGE@))),
        },
        Ok(ValueV::Int(n)) => Ok((n, log.folded(l, RANGE@))),
        Ok(ValueV::Real(n)) => Err(
            SqlErrorV::Parameter(
                "`"@ + column + "` stores whole microseconds and "@ + n.json
                    + " is not a whole number"@,
            ),
        ),
        Ok(other) => Err(
            SqlErrorV::Parameter(
                "`"@ + column + "` is a declared timestamp and "@ + json_text(other)
                    + " is neither a date/time literal nor a whole number of microseconds"@,
            ),
        ),
    }
}

/// A whole number written beside an `EXTRACT`.
pub open spec fn whole_literal(env: EnvV, l: LiteralV, what: Seq<char>, log: LogV) -> Result<
    (i64, LogV),
    SqlErrorV,
> {
    match value_of(env.binder, l) {
        Err(e) => Err(e),
        Ok(ValueV::Int(n)) => Ok((n, log.folded(l, RANGE@))),
        Ok(other) => Err(
            SqlErrorV::Parameter(
                what + " compares against a whole number, not "@ + json_text(other),
            ),
        ),
    }
}

/// Why a plan that holds the clock cannot be bound again.
pub const CLOCK: &'static str = "now()/current_date is folded at prepare, and a rebind takes a NEW clock";

/// A value that a time column is compared with, as a stored instant.
pub open spec fn time_value(env: EnvV, v: TimeValueV, column: Seq<char>, log: LogV) -> Result<
    (i64, LogV),
    SqlErrorV,
> {
    match v {
        TimeValueV::Lit(l) => time_literal(env, l, column, log),
        TimeValueV::Clock { date_only, offset } => match if date_only {
            truncated_to(TimeUnit::Day, env.clock)
        } else {
            Ok(env.clock)
        } {
            Err(e) => Err(e),
            Ok(base) => if fits(base + offset) {
                Ok(((base + offset) as i64, log.refused(CLOCK@)))
            } else {
                Err(
                    SqlErrorV::Unsupported(
                        "the folded clock arithmetic overflows i64 microseconds"@,
                    ),
                )
            },
        },
    }
}

impl<'a> Env<'a> {
    pub fn time_literal(&self, literal: &Literal, column: &str, log: &mut Log) -> (r: Result<
        i64,
        SqlError,
    >)
        ensures
            logged(
                r,
                *final(log),
                time_literal(
                    self.deep_view(),
                    literal.deep_view(),
                    column@,
                    old(log).deep_view(),
                ),
            ),
    {
        match self.binder.value_of(literal)? {
            Value::Text(text) => {
                let t = parse_timestamp(text.as_str())?;
                log.folds(literal, RANGE);
                Ok(t)
            },
            Value::Int(n) => {
                log.folds(literal, RANGE);
                Ok(n)
            },
            Value::Real(n) => Err(
                SqlError::Parameter(
                    cat5(
                        "`",
                        column,
                        "` stores whole microseconds and ",
                        n.json.as_str(),
                        " is not a whole number",
                    ),
                ),
            ),
            other => Err(
                SqlError::Parameter(
                    cat5(
                        "`",
                        column,
                        "` is a declared timestamp and ",
                        other.json().as_str(),
                        " is neither a date/time literal nor a whole number of microseconds",
                    ),
                ),
            ),
        }
    }

    fn whole(&self, literal: &Literal, what: &str, log: &mut Log) -> (r: Result<i64, SqlError>)
        ensures
            logged(
                r,
                *final(log),
                whole_literal(
                    self.deep_view(),
                    literal.deep_view(),
                    what@,
                    old(log).deep_view(),
                ),
            ),
    {
        match self.binder.value_of(literal)? {
            Value::Int(n) => {
                log.folds(literal, RANGE);
                Ok(n)
            },
            other => Err(
                SqlError::Parameter(
                    cat3(what, " compares against a whole number, not ", other.json().as_str()),
                ),
            ),
        }
    }

    fn time_value(&self, value: &TimeValue, column: &str, log: &mut Log) -> (r: Result<
        i64,
        SqlError,
    >)
        ensures
            logged(
                r,
                *final(log),
                time_value(self.deep_view(), value.deep_view(), column@, old(log).deep_view()),
            ),
    {
        match value {
            TimeValue::Lit(literal) => self.time_literal(literal, column, log),
            TimeValue::Clock { date_only, offset } => {
                let base = if *date_only {
                    date_trunc(TimeUnit::Day, self.clock)?
                } else {
                    self.clock
                };
                log.folds_reason(owned(CLOCK));
                match base.checked_add(*offset) {
                    Some(t) => Ok(t),
                    None => Err(
                        SqlError::unsupported(
                            "the folded clock arithmetic overflows i64 microseconds",
                        ),
                    ),
                }
            },
        }
    }
}

// ── date/time functions ──────────────────────────────────────────────────

/// A truncated instant against a literal: the window of the literal's own
/// unit where the literal starts it, and everything on one side of the
/// window's end where it does not.
pub open spec fn trunc_range(unit: TimeUnit, op: CmpOp, at: i64, what: Seq<char>) -> Result<
    OwnedScalarFilterV,
    SqlErrorV,
> {
    match truncated_to(unit, at) {
        Err(e) => Err(e),
        Ok(start) => match following(unit, start) {
            Err(e) => Err(e),
            Ok(end) => if start == at {
                window_range(op, start, end, what)
            } else {
                offset_window_range(op, end, what)
            },
        },
    }
}

/// A truncated instant between two literals.
pub open spec fn trunc_between(unit: TimeUnit, low_at: i64, high_at: i64) -> Result<
    OwnedScalarFilterV,
    SqlErrorV,
> {
    match truncated_to(unit, low_at) {
        Err(e) => Err(e),
        Ok(low) => match truncated_to(unit, high_at) {
            Err(e) => Err(e),
            Ok(high) => match if low == low_at {
                Ok(low)
            } else {
                following(unit, low)
            } {
                Err(e) => Err(e),
                Ok(start) => match following(unit, high) {
                    Err(e) => Err(e),
                    Ok(end) => Ok(
                        if end <= start {
                            empty_range()
                        } else {
                            micro_range(Some(start), Some(end))
                        },
                    ),
                },
            },
        },
    }
}

fn trunc_with(unit: TimeUnit, op: CmpOp, at: i64, what: &str) -> (r: Result<
    OwnedScalarFilter,
    SqlError,
>)
    ensures
        gives(r, trunc_range(unit, op, at, what@)),
{
    let start = date_trunc(unit, at)?;
    let end = next_unit(unit, start)?;
    if start == at {
        window_with(op, start, end, what)
    } else {
        offset_window_with(op, end, what)
    }
}

fn trunc_inside(unit: TimeUnit, low_at: i64, high_at: i64) -> (r: Result<
    OwnedScalarFilter,
    SqlError,
>)
    ensures
        gives(r, trunc_between(unit, low_at, high_at)),
{
    let low = date_trunc(unit, low_at)?;
    let high = date_trunc(unit, high_at)?;
    let start = if low == low_at {
        low
    } else {
        next_unit(unit, low)?
    };
    let end = next_unit(unit, high)?;
    if end <= start {
        Ok(nothing())
    } else {
        Ok(micros_between(Some(start), Some(end)))
    }
}

/// The range that a date/time shape is.
pub open spec fn time_range(
    env: EnvV,
    column: Seq<char>,
    shape: TimeShapeV,
    what: Seq<char>,
    log: LogV,
) -> Result<(OwnedScalarFilterV, LogV), SqlErrorV> {
    match shape {
        TimeShapeV::Extract { unit, op, value } => match whole_literal(env, value, what, log) {
            Err(e) => Err(e),
            Ok((n, log)) => match extract_window(unit, n, what) {
                Err(e) => Err(e),
                Ok((start, end)) => match window_range(op, start, end, what) {
                    Err(e) => Err(e),
                    Ok(range) => Ok((range, log)),
                },
            },
        },
        TimeShapeV::ExtractBetween { unit, lower, upper } => match whole_literal(
            env,
            lower,
            what,
            log,
        ) {
            Err(e) => Err(e),
            Ok((low, log)) => match whole_literal(env, upper, what, log) {
                Err(e) => Err(e),
                Ok((high, log)) => if high < low {
                    Ok((empty_range(), log))
                } else {
                    match extract_window(unit, low, what) {
                        Err(e) => Err(e),
                        Ok((start, _)) => match extract_window(unit, high, what) {
                            Err(e) => Err(e),
                            Ok((_, end)) => Ok((instants_within(start, end), log)),
                        },
                    }
                },
            },
        },
        TimeShapeV::Trunc { unit, op, value } => match time_literal(env, value, column, log) {
            Err(e) => Err(e),
            Ok((at, log)) => match trunc_range(unit, op, at, what) {
                Err(e) => Err(e),
                Ok(range) => Ok((range, log)),
            },
        },
        TimeShapeV::TruncBetween { unit, lower, upper } => match time_literal(
            env,
            lower,
            column,
            log,
        ) {
            Err(e) => Err(e),
            Ok((low, log)) => match time_literal(env, upper, column, log) {
                Err(e) => Err(e),
                Ok((high, log)) => match trunc_between(unit, low, high) {
                    Err(e) => Err(e),
                    Ok(range) => Ok((range, log)),
                },
            },
        },
        TimeShapeV::CastDate { op, value } => match time_literal(env, value, column, log) {
            Err(e) => Err(e),
            Ok((at, log)) => match trunc_range(TimeUnit::Day, op, at, what) {
                Err(e) => Err(e),
                Ok(range) => Ok((range, log)),
            },
        },
        TimeShapeV::Clock { op, value } => match time_value(env, value, column, log) {
            Err(e) => Err(e),
            Ok((at, log)) => match compare_range(op, at, what) {
                Err(e) => Err(e),
                Ok(range) => Ok((range, log)),
            },
        },
        TimeShapeV::ClockBetween { lower, upper } => match time_value(env, lower, column, log) {
            Err(e) => Err(e),
            Ok((low, log)) => match time_value(env, upper, column, log) {
                Err(e) => Err(e),
                Ok((high, log)) => Ok(
                    (
                        if high < low {
                            empty_range()
                        } else {
                            micro_range(Some(low), next_micro(high))
                        },
                        log,
                    ),
                ),
            },
        },
    }
}

/// A filter that is one range of a scalar index, with no slot.
pub open spec fn folded_range(index: u64, predicate: OwnedScalarFilterV) -> OwnedFilterV {
    OwnedFilterV::Scalar { index, predicate, fills: Seq::<ScalarFillV>::empty() }
}

/// A date/time predicate, folded into one range of the column's index.
pub open spec fn time_filter(
    env: EnvV,
    c: CollectionV,
    column: Seq<char>,
    shape: TimeShapeV,
    log: LogV,
) -> Result<(OwnedFilterV, LogV), SqlErrorV> {
    let what = time_shape_text(shape, column);
    match time_column(c, column) {
        Err(e) => Err(e),
        Ok(None) => Err(
            SqlErrorV::Unsupported(
                what + ": `"@ + column
                    + "` is not a declared TIMESTAMPTZ or DATE. QL_CONTRACT §4.2 folds a date/time function over a column whose declared type says it holds UTC microseconds; over an untyped Int there is nothing to fold"@,
            ),
        ),
        Ok(Some(_)) => match index_for(c, column, IndexFamily::Scalar, "a scalar index"@) {
            Err(e) => Err(e),
            Ok(index) => match time_range(env, column, shape, what, log) {
                Err(e) => Err(e),
                Ok((range, log)) => Ok(
                    (
                        folded_range(index, range),
                        log.rewrote(
                            what + " -> scalar range on `"@ + column
                                + "` (index-side; the function is folded at prepare and never evaluated per candidate)"@,
                        ),
                    ),
                ),
            },
        },
    }
}

impl<'a> Env<'a> {
    fn time_range(&self, column: &str, shape: &TimeShape, what: &str, log: &mut Log) -> (r: Result<
        OwnedScalarFilter,
        SqlError,
    >)
        ensures
            logged(
                r,
                *final(log),
                time_range(
                    self.deep_view(),
                    column@,
                    shape.deep_view(),
                    what@,
                    old(log).deep_view(),
                ),
            ),
    {
        match shape {
            TimeShape::Extract { unit, op, value } => {
                let n = self.whole(value, what, log)?;
                let (start, end) = window_of(*unit, n, what)?;
                window_with(*op, start, end, what)
            },
            TimeShape::ExtractBetween { unit, lower, upper } => {
                let low = self.whole(lower, what, log)?;
                let high = self.whole(upper, what, log)?;
                if high < low {
                    return Ok(nothing());
                }
                let (start, _) = window_of(*unit, low, what)?;
                let (_, end) = window_of(*unit, high, what)?;
                Ok(micros_within(start, end))
            },
            TimeShape::Trunc { unit, op, value } => {
                let at = self.time_literal(value, column, log)?;
                trunc_with(*unit, *op, at, what)
            },
            TimeShape::TruncBetween { unit, lower, upper } => {
                let low = self.time_literal(lower, column, log)?;
                let high = self.time_literal(upper, column, log)?;
                trunc_inside(*unit, low, high)
            },
            TimeShape::CastDate { op, value } => {
                let at = self.time_literal(value, column, log)?;
                trunc_with(TimeUnit::Day, *op, at, what)
            },
            TimeShape::Clock { op, value } => {
                let at = self.time_value(value, column, log)?;
                compare_with(*op, at, what)
            },
            TimeShape::ClockBetween { lower, upper } => {
                let low = self.time_value(lower, column, log)?;
                let high = self.time_value(upper, column, log)?;
                if high < low {
                    Ok(nothing())
                } else {
                    Ok(micros_between(Some(low), high.checked_add(1)))
                }
            },
        }
    }

    /// A date/time predicate, folded into one range of the column's index.
    pub fn time_filter(&self, c: &Collection, column: &str, shape: &TimeShape, log: &mut Log) -> (r:
        Result<OwnedFilter, SqlError>)
        requires
            time_shape_ok(shape.deep_view()),
        ensures
            logged(
                r,
                *final(log),
                time_filter(
                    self.deep_view(),
                    c.deep_view(),
                    column@,
                    shape.deep_view(),
                    old(log).deep_view(),
                ),
            ),
    {
        let what = shape.written(column);
        if c.time_column(column)?.is_none() {
            return Err(
                SqlError::Unsupported(
                    cat4(
                        what.as_str(),
                        ": `",
                        column,
                        "` is not a declared TIMESTAMPTZ or DATE. QL_CONTRACT §4.2 folds a date/time function over a column whose declared type says it holds UTC microseconds; over an untyped Int there is nothing to fold",
                    ),
                ),
            );
        }
        let index = c.index_for(column, IndexFamily::Scalar, "a scalar index")?;
        let predicate = self.time_range(column, shape, what.as_str(), log)?;
        log.rewrite(
            cat4(
                what.as_str(),
                " -> scalar range on `",
                column,
                "` (index-side; the function is folded at prepare and never evaluated per candidate)",
            ),
        );
        Ok(OwnedFilter::Scalar { index, predicate, fills: no_slots() })
    }
}

// ── text functions ───────────────────────────────────────────────────────

/// Whether a shape reads the index over `lower(col)`.
pub open spec fn is_lowered(shape: TextShapeV) -> bool {
    shape is LowerEq || shape is LowerPrefix
}

/// A literal as the index stores it: folded where the index is.
pub open spec fn stored_text(env: EnvV, l: LiteralV, lowered: bool) -> Result<
    Seq<char>,
    SqlErrorV,
> {
    match text_of(env.binder, l) {
        Err(e) => Err(e),
        Ok(text) => Ok(
            if lowered {
                lowercase(text)
            } else {
                text
            },
        ),
    }
}

/// The prefix that a written text means.
pub open spec fn prefix_meant(raw: Seq<char>, form: PrefixForm) -> Result<Seq<char>, SqlErrorV> {
    match form {
        PrefixForm::Like => match like_prefix_of(raw) {
            Some(prefix) => Ok(prefix),
            None => Err(
                SqlErrorV::Refused {
                    keyword: "LIKE"@,
                    tier: Tier::Two,
                    reason: LIKE_NOT_A_PREFIX@,
                },
            ),
        },
        PrefixForm::StartsWith => Ok(raw),
    }
}

/// The range of the texts that begin with a prefix.
pub open spec fn prefix_bounds(prefix: Seq<char>, what: Seq<char>) -> Result<
    OwnedScalarFilterV,
    SqlErrorV,
> {
    if prefix.len() == 0 {
        Err(
            SqlErrorV::Unsupported(
                what
                    + ": an empty prefix admits every row, which is a scan, and §6 does not allow one to be taken silently"@,
            ),
        )
    } else if prefix.contains('\0') {
        Err(
            SqlErrorV::Unsupported(
                what
                    + ": a NUL inside a prefix has no successor in the escaped text key encoding (`src/store/scalar_key.rs`)"@,
            ),
        )
    } else {
        let lower = Bound::Included(ScalarV::Text(prefix));
        match successor_of(prefix) {
            PrefixSuccessorV::Bound(next) => Ok(
                OwnedScalarFilterV::Range { lower, upper: Bound::Excluded(ScalarV::Text(next)) },
            ),
            PrefixSuccessorV::Unbounded => Ok(
                OwnedScalarFilterV::Range { lower, upper: Bound::Unbounded },
            ),
            PrefixSuccessorV::NotUtf8 => Err(
                SqlErrorV::Unsupported(
                    what
                        + ": this prefix's upper bound is a byte string that is not valid UTF-8 (incrementing the last byte of `"@
                        + prefix
                        + "` leaves one), and a text range bound is text. QL_CONTRACT §3: there is no byte-valued text bound in this slice, so the prefix is refused rather than answered from a wider range than the one asked for"@,
                ),
            ),
        }
    }
}

/// The equality or range that a text shape is.
pub open spec fn text_range(env: EnvV, shape: TextShapeV, what: Seq<char>) -> Result<
    OwnedScalarFilterV,
    SqlErrorV,
> {
    match shape {
        TextShapeV::JsonEq { value, .. } => match text_of(env.binder, value) {
            Err(e) => Err(e),
            Ok(text) => Ok(OwnedScalarFilterV::Eq(ScalarV::Text(text))),
        },
        TextShapeV::LowerEq { value } => match stored_text(env, value, true) {
            Err(e) => Err(e),
            Ok(text) => Ok(OwnedScalarFilterV::Eq(ScalarV::Text(text))),
        },
        TextShapeV::LowerPrefix { value, written } => match stored_text(env, value, true) {
            Err(e) => Err(e),
            Ok(raw) => match prefix_meant(raw, written) {
                Err(e) => Err(e),
                Ok(prefix) => prefix_bounds(prefix, what),
            },
        },
        TextShapeV::Prefix { value, written } => match stored_text(env, value, false) {
            Err(e) => Err(e),
            Ok(raw) => match prefix_meant(raw, written) {
                Err(e) => Err(e),
                Ok(prefix) => prefix_bounds(prefix, what),
            },
        },
    }
}

pub open spec fn shape_value(shape: TextShapeV) -> LiteralV {
    match shape {
        TextShapeV::JsonEq { value, .. } => value,
        TextShapeV::LowerEq { value } => value,
        TextShapeV::LowerPrefix { value, .. } => value,
        TextShapeV::Prefix { value, .. } => value,
    }
}

/// The line that says what a text function became.
pub open spec fn text_rewrite(
    what: Seq<char>,
    column: Seq<char>,
    range: OwnedScalarFilterV,
    lowered: bool,
) -> Seq<char> {
    what + " -> "@ + if range is Eq {
        "scalar equality"@
    } else {
        "text-key prefix range"@
    } + " on `"@ + column + if lowered {
        "` through the expression index over lower(col) (index-side)"@
    } else {
        "` (index-side)"@
    }
}

/// A text predicate, folded into one range or one equality of an index.
pub open spec fn text_filter(
    env: EnvV,
    c: CollectionV,
    column: Seq<char>,
    shape: TextShapeV,
    log: LogV,
) -> Result<(OwnedFilterV, LogV), SqlErrorV> {
    let what = text_shape_text(shape, column);
    let lowered = is_lowered(shape);
    match kind_of(c, column) {
        Err(e) => Err(e),
        Ok(kind) => match shape {
            TextShapeV::JsonEq { member, value } => if kind != Kind::Json {
                Err(
                    SqlErrorV::Unsupported(
                        what + ": `->>` extracts from a JSONB column, and `"@ + column
                            + "` is not one"@,
                    ),
                )
            } else {
                match index_for_expression(
                    c,
                    column,
                    IndexFamily::Scalar,
                    Some(IndexExprV::JsonText(member)),
                    "an expression index `CREATE INDEX ... ON t (("@ + column + "->>'"@ + member
                        + "'))`"@,
                ) {
                    Err(e) => Err(e),
                    Ok(index) => match text_range(env, shape, what) {
                        Err(e) => Err(e),
                        Ok(range) => Ok(
                            (
                                folded_range(index, range),
                                log.folded(value, RANGE@).rewrote(
                                    what
                                        + " -> scalar equality on the expression index over `"@
                                        + column + "->>'"@ + member + "'` (index-side)"@,
                                ),
                            ),
                        ),
                    },
                }
            },
            _ => if kind != Kind::Text {
                Err(
                    SqlErrorV::Unsupported(
                        what + ": `"@ + column
                            + "` is not a TEXT column, and a text-key range is over text keys"@,
                    ),
                )
            } else {
                match if lowered {
                    index_for_expression(
                        c,
                        column,
                        IndexFamily::Scalar,
                        Some(IndexExprV::Lower),
                        "an expression index `CREATE INDEX ... ON t (lower(col))`"@,
                    )
                } else {
                    index_for(c, column, IndexFamily::Scalar, "a scalar index"@)
                } {
                    Err(e) => Err(e),
                    Ok(index) => match text_range(env, shape, what) {
                        Err(e) => Err(e),
                        Ok(range) => Ok(
                            (
                                folded_range(index, range),
                                log.folded(shape_value(shape), RANGE@).rewrote(
                                    text_rewrite(what, column, range, lowered),
                                ),
                            ),
                        ),
                    },
                }
            },
        },
    }
}

fn prefix_of(raw: String, form: PrefixForm) -> (r: Result<String, SqlError>)
    ensures
        gives(r, prefix_meant(raw@, form)),
{
    match form {
        PrefixForm::Like => match like_prefix(raw.as_str()) {
            Some(prefix) => Ok(prefix),
            None => Err(SqlError::refused("LIKE", Tier::Two, LIKE_NOT_A_PREFIX)),
        },
        PrefixForm::StartsWith => Ok(raw),
    }
}

fn bounds_of_prefix(prefix: String, what: &str) -> (r: Result<OwnedScalarFilter, SqlError>)
    ensures
        gives(r, prefix_bounds(prefix@, what@)),
{
    if prefix.as_str().unicode_len() == 0 {
        return Err(
            SqlError::Unsupported(
                cat2(
                    what,
                    ": an empty prefix admits every row, which is a scan, and §6 does not allow one to be taken silently",
                ),
            ),
        );
    }
    if holds_char(prefix.as_str(), '\0') {
        return Err(
            SqlError::Unsupported(
                cat2(
                    what,
                    ": a NUL inside a prefix has no successor in the escaped text key encoding (`src/store/scalar_key.rs`)",
                ),
            ),
        );
    }
    let upper = match prefix_successor(prefix.as_str()) {
        PrefixSuccessor::Bound(next) => Bound::Excluded(Scalar::Text(next)),
        PrefixSuccessor::Unbounded => Bound::Unbounded,
        PrefixSuccessor::NotUtf8 => {
            return Err(
                SqlError::Unsupported(
                    cat4(
                        what,
                        ": this prefix's upper bound is a byte string that is not valid UTF-8 (incrementing the last byte of `",
                        prefix.as_str(),
                        "` leaves one), and a text range bound is text. QL_CONTRACT §3: there is no byte-valued text bound in this slice, so the prefix is refused rather than answered from a wider range than the one asked for",
                    ),
                ),
            );
        },
    };
    Ok(OwnedScalarFilter::Range { lower: Bound::Included(Scalar::Text(prefix)), upper })
}

impl<'a> Env<'a> {
    fn stored_text(&self, literal: &Literal, lowered: bool) -> (r: Result<String, SqlError>)
        ensures
            gives(r, stored_text(self.deep_view(), literal.deep_view(), lowered)),
    {
        let text = self.binder.text_of(literal)?;
        if lowered {
            Ok(to_lower(text.as_str()))
        } else {
            Ok(text)
        }
    }

    fn text_range(&self, shape: &TextShape, what: &str) -> (r: Result<OwnedScalarFilter, SqlError>)
        ensures
            gives(r, text_range(self.deep_view(), shape.deep_view(), what@)),
    {
        match shape {
            TextShape::JsonEq { value, .. } => Ok(
                OwnedScalarFilter::Eq(Scalar::Text(self.binder.text_of(value)?)),
            ),
            TextShape::LowerEq { value } => Ok(
                OwnedScalarFilter::Eq(Scalar::Text(self.stored_text(value, true)?)),
            ),
            TextShape::LowerPrefix { value, written } => {
                let raw = self.stored_text(value, true)?;
                let prefix = prefix_of(raw, *written)?;
                bounds_of_prefix(prefix, what)
            },
            TextShape::Prefix { value, written } => {
                let raw = self.stored_text(value, false)?;
                let prefix = prefix_of(raw, *written)?;
                bounds_of_prefix(prefix, what)
            },
        }
    }

    /// A text predicate, folded into one range or one equality of an index.
    pub fn text_filter(&self, c: &Collection, column: &str, shape: &TextShape, log: &mut Log) -> (r:
        Result<OwnedFilter, SqlError>)
        ensures
            logged(
                r,
                *final(log),
                text_filter(
                    self.deep_view(),
                    c.deep_view(),
                    column@,
                    shape.deep_view(),
                    old(log).deep_view(),
                ),
            ),
    {
        let what = shape.written(column);
        let kind = c.kind_of(column)?;
        if let TextShape::JsonEq { member, value } = shape {
            if kind != Kind::Json {
                return Err(
                    SqlError::Unsupported(
                        cat4(
                            what.as_str(),
                            ": `->>` extracts from a JSONB column, and `",
                            column,
                            "` is not one",
                        ),
                    ),
                );
            }
            let label = cat5(
                "an expression index `CREATE INDEX ... ON t ((",
                column,
                "->>'",
                member.as_str(),
                "'))`",
            );
            let index = c.index_for_expression(
                column,
                IndexFamily::Scalar,
                Some(IndexExpr::JsonText(member.clone())),
                label.as_str(),
            )?;
            let predicate = self.text_range(shape, what.as_str())?;
            log.folds(value, RANGE);
            log.rewrite(
                cat6(
                    what.as_str(),
                    " -> scalar equality on the expression index over `",
                    column,
                    "->>'",
                    member.as_str(),
                    "'` (index-side)",
                ),
            );
            return Ok(OwnedFilter::Scalar { index, predicate, fills: no_slots() });
        }
        if kind != Kind::Text {
            return Err(
                SqlError::Unsupported(
                    cat4(
                        what.as_str(),
                        ": `",
                        column,
                        "` is not a TEXT column, and a text-key range is over text keys",
                    ),
                ),
            );
        }
        let (lowered, value) = match shape {
            TextShape::LowerEq { value } => (true, value),
            TextShape::LowerPrefix { value, .. } => (true, value),
            TextShape::Prefix { value, .. } => (false, value),
            TextShape::JsonEq { value, .. } => (false, value),
        };
        let index = if lowered {
            c.index_for_expression(
                column,
                IndexFamily::Scalar,
                Some(IndexExpr::Lower),
                "an expression index `CREATE INDEX ... ON t (lower(col))`",
            )?
        } else {
            c.index_for(column, IndexFamily::Scalar, "a scalar index")?
        };
        let predicate = self.text_range(shape, what.as_str())?;
        let how = match &predicate {
            OwnedScalarFilter::Eq(_) => "scalar equality",
            _ => "text-key prefix range",
        };
        log.folds(value, RANGE);
        log.rewrite(
            cat6(
                what.as_str(),
                " -> ",
                how,
                " on `",
                column,
                if lowered {
                    "` through the expression index over lower(col) (index-side)"
                } else {
                    "` (index-side)"
                },
            ),
        );
        Ok(OwnedFilter::Scalar { index, predicate, fills: no_slots() })
    }
}

} // verus!
