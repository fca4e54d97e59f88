//! The parsed statement.
//!
//! Each type has a mathematical view, the type of the same name with a `V`
//! behind it, in which a string is the sequence of its characters and a list
//! the sequence of its items' views.

use vstd::prelude::*;
use crate::lists::{mapped_push, take_all, take_next};
use crate::number::{saturated, to_i64, Real, RealV};
use crate::text::{
    cat2, cat3, cat4, cat5, cat7, decimal, decimal_i64, decimal_usize, join, joined, owned, texts,
};

verus! {

// ── operators and functions ──────────────────────────────────────────────

#[derive(Clone, Copy, Debug, PartialEq, Eq, Structural)]
pub enum CmpOp {
    Eq,
    Ne,
    Lt,
    Le,
    Gt,
    Ge,
}

impl DeepView for CmpOp {
    type V = CmpOp;

    open spec fn deep_view(&self) -> CmpOp {
        *self
    }
}

pub open spec fn op_text(op: CmpOp) -> Seq<char> {
    match op {
        CmpOp::Eq => "="@,
        CmpOp::Ne => "<>"@,
        CmpOp::Lt => "<"@,
        CmpOp::Le => "<="@,
        CmpOp::Gt => ">"@,
        CmpOp::Ge => ">="@,
    }
}

impl CmpOp {
    pub fn written(self) -> (r: &'static str)
        ensures
            r@ == op_text(self),
    {
        match self {
            CmpOp::Eq => "=",
            CmpOp::Ne => "<>",
            CmpOp::Lt => "<",
            CmpOp::Le => "<=",
            CmpOp::Gt => ">",
            CmpOp::Ge => ">=",
        }
    }
}

#[derive(Clone, Copy, Debug, PartialEq, Eq, Structural)]
pub enum TimeUnit {
    Year,
    Month,
    Day,
    Dow,
    Hour,
    Minute,
    Second,
    Epoch,
}

impl DeepView for TimeUnit {
    type V = TimeUnit;

    open spec fn deep_view(&self) -> TimeUnit {
        *self
    }
}

pub open spec fn unit_text(unit: TimeUnit) -> Seq<char> {
    match unit {
        TimeUnit::Year => "year"@,
        TimeUnit::Month => "month"@,
        TimeUnit::Day => "day"@,
        TimeUnit::Dow => "dow"@,
        TimeUnit::Hour => "hour"@,
        TimeUnit::Minute => "minute"@,
        TimeUnit::Second => "second"@,
        TimeUnit::Epoch => "epoch"@,
    }
}

impl TimeUnit {
    pub fn written(self) -> (r: &'static str)
        ensures
            r@ == unit_text(self),
    {
        match self {
            TimeUnit::Year => "year",
            TimeUnit::Month => "month",
            TimeUnit::Day => "day",
            TimeUnit::Dow => "dow",
            TimeUnit::Hour => "hour",
            TimeUnit::Minute => "minute",
            TimeUnit::Second => "second",
            TimeUnit::Epoch => "epoch",
        }
    }
}

#[derive(Clone, Copy, Debug, PartialEq, Eq, Structural)]
pub enum StrFunc {
    Lower,
    Upper,
    Length,
    Concat,
    Substring,
    Left,
    Right,
    Trim,
    SplitPart,
    Replace,
    Position,
    StartsWith,
}

pub open spec fn str_func_text(func: StrFunc) -> Seq<char> {
    match func {
        StrFunc::Lower => "lower"@,
        StrFunc::Upper => "upper"@,
        StrFunc::Length => "length"@,
        StrFunc::Concat => "concat"@,
        StrFunc::Substring => "substring"@,
        StrFunc::Left => "left"@,
        StrFunc::Right => "right"@,
        StrFunc::Trim => "trim"@,
        StrFunc::SplitPart => "split_part"@,
        StrFunc::Replace => "replace"@,
        StrFunc::Position => "position"@,
        StrFunc::StartsWith => "starts_with"@,
    }
}

impl StrFunc {
    pub fn written(self) -> (r: &'static str)
        ensures
            r@ == str_func_text(self),
    {
        match self {
            StrFunc::Lower => "lower",
            StrFunc::Upper => "upper",
            StrFunc::Length => "length",
            StrFunc::Concat => "concat",
            StrFunc::Substring => "substring",
            StrFunc::Left => "left",
            StrFunc::Right => "right",
            StrFunc::Trim => "trim",
            StrFunc::SplitPart => "split_part",
            StrFunc::Replace => "replace",
            StrFunc::Position => "position",
            StrFunc::StartsWith => "starts_with",
        }
    }
}

#[derive(Clone, Copy, Debug, PartialEq, Eq, Structural)]
pub enum AggFunc {
    Count,
    Sum,
    Min,
    Max,
    Avg,
}

impl DeepView for AggFunc {
    type V = AggFunc;

    open spec fn deep_view(&self) -> AggFunc {
        *self
    }
}

pub open spec fn agg_func_text(func: AggFunc) -> Seq<char> {
    match func {
        AggFunc::Count => "count"@,
        AggFunc::Sum => "sum"@,
        AggFunc::Min => "min"@,
        AggFunc::Max => "max"@,
        AggFunc::Avg => "avg"@,
    }
}

impl AggFunc {
    pub fn written(self) -> (r: &'static str)
        ensures
            r@ == agg_func_text(self),
    {
        match self {
            AggFunc::Count => "count",
            AggFunc::Sum => "sum",
            AggFunc::Min => "min",
            AggFunc::Max => "max",
            AggFunc::Avg => "avg",
        }
    }
}

#[derive(Clone, Copy, Debug, PartialEq, Eq, Structural)]
pub enum VecOp {
    Cosine,
    L2,
    NegativeDot,
}

#[derive(Clone, Copy, Debug, PartialEq, Eq, Structural)]
pub enum SpatialPredicate {
    DWithin,
    Intersects,
    Within,
    Contains,
}

#[derive(Clone, Copy, Debug, PartialEq, Eq, Structural)]
pub enum GraphDirection {
    Outgoing,
    Incoming,
    Both,
}

impl DeepView for GraphDirection {
    type V = GraphDirection;

    open spec fn deep_view(&self) -> GraphDirection {
        *self
    }
}

/// How a text prefix was written.
#[derive(Clone, Copy, Debug, PartialEq, Eq, Structural)]
pub enum PrefixForm {
    Like,
    StartsWith,
}

pub open spec fn prefix_form_text(form: PrefixForm) -> Seq<char> {
    match form {
        PrefixForm::Like => "LIKE"@,
        PrefixForm::StartsWith => "starts_with"@,
    }
}

impl PrefixForm {
    pub fn written(self) -> (r: &'static str)
        ensures
            r@ == prefix_form_text(self),
    {
        match self {
            PrefixForm::Like => "LIKE",
            PrefixForm::StartsWith => "starts_with",
        }
    }
}

// ── values as written ────────────────────────────────────────────────────

/// A value in the text of a statement.
#[derive(Debug)]
pub enum Literal {
    Null,
    Bool(bool),
    /// A number, and whether it was written as a whole one.
    Num(Real, bool),
    Str(String),
    /// `$n`, counted from one.
    Param(usize),
    /// `(SELECT column FROM table WHERE _key = key)`.
    Subquery(Box<ScalarSubquery>),
}

#[derive(Debug)]
pub struct ScalarSubquery {
    pub column: String,
    pub table: String,
    pub key: Literal,
}

pub enum LiteralV {
    Null,
    Bool(bool),
    Num(RealV, bool),
    Str(Seq<char>),
    Param(usize),
    Subquery(Box<ScalarSubqueryV>),
}

pub struct ScalarSubqueryV {
    pub column: Seq<char>,
    pub table: Seq<char>,
    pub key: LiteralV,
}

pub open spec fn literal_view(l: Literal) -> LiteralV
    decreases l,
{
    match l {
        Literal::Null => LiteralV::Null,
        Literal::Bool(b) => LiteralV::Bool(b),
        Literal::Num(n, exact) => LiteralV::Num(n.deep_view(), exact),
        Literal::Str(s) => LiteralV::Str(s@),
        Literal::Param(n) => LiteralV::Param(n),
        Literal::Subquery(q) => LiteralV::Subquery(
            Box::new(
                ScalarSubqueryV { column: q.column@, table: q.table@, key: literal_view(q.key) },
            ),
        ),
    }
}

impl DeepView for ScalarSubquery {
    type V = ScalarSubqueryV;

    open spec fn deep_view(&self) -> ScalarSubqueryV {
        ScalarSubqueryV {
            column: self.column@,
            table: self.table@,
            key: literal_view(self.key),
        }
    }
}

impl DeepView for Literal {
    type V = LiteralV;

    open spec fn deep_view(&self) -> LiteralV {
        literal_view(*self)
    }
}

/// The literal as a statement would write it.
pub open spec fn literal_text(l: LiteralV) -> Seq<char> {
    match l {
        LiteralV::Null => "NULL"@,
        LiteralV::Bool(b) => if b {
            "TRUE"@
        } else {
            "FALSE"@
        },
        LiteralV::Num(n, exact) => if exact {
            decimal(saturated(n.bits))
        } else {
            n.shown
        },
        LiteralV::Str(s) => "'"@ + s + "'"@,
        LiteralV::Param(n) => "$"@ + decimal(n as int),
        LiteralV::Subquery(_) => "(SELECT ...)"@,
    }
}

impl Literal {
    pub fn written(&self) -> (r: String)
        ensures
            r@ == literal_text(self.deep_view()),
    {
        match self {
            Literal::Null => owned("NULL"),
            Literal::Bool(b) => owned(if *b {
                "TRUE"
            } else {
                "FALSE"
            }),
            Literal::Num(n, exact) => if *exact {
                decimal_i64(to_i64(n.bits))
            } else {
                n.shown.clone()
            },
            Literal::Str(s) => cat3("'", s.as_str(), "'"),
            Literal::Param(n) => cat2("$", decimal_usize(*n).as_str()),
            Literal::Subquery(_) => owned("(SELECT ...)"),
        }
    }

    pub fn dup(&self) -> (r: Literal)
        ensures
            r.deep_view() == self.deep_view(),
        decreases self,
    {
        match self {
            Literal::Null => Literal::Null,
            Literal::Bool(b) => Literal::Bool(*b),
            Literal::Num(n, exact) => Literal::Num(n.dup(), *exact),
            Literal::Str(s) => Literal::Str(s.clone()),
            Literal::Param(n) => Literal::Param(*n),
            Literal::Subquery(q) => Literal::Subquery(
                Box::new(
                    ScalarSubquery {
                        column: q.column.clone(),
                        table: q.table.clone(),
                        key: q.key.dup(),
                    },
                ),
            ),
        }
    }
}

/// `ST_MakePoint(lon, lat)`.
#[derive(Debug)]
pub struct PointArg {
    pub lon: Literal,
    pub lat: Literal,
}

pub struct PointArgV {
    pub lon: LiteralV,
    pub lat: LiteralV,
}

impl DeepView for PointArg {
    type V = PointArgV;

    open spec fn deep_view(&self) -> PointArgV {
        PointArgV { lon: self.lon.deep_view(), lat: self.lat.deep_view() }
    }
}

impl PointArg {
    pub fn dup(&self) -> (r: PointArg)
        ensures
            r.deep_view() == self.deep_view(),
    {
        PointArg { lon: self.lon.dup(), lat: self.lat.dup() }
    }
}

/// The geometry a spatial predicate compares against.
#[derive(Debug)]
pub enum GeoArg {
    Point(PointArg),
    Envelope { minlon: Literal, minlat: Literal, maxlon: Literal, maxlat: Literal },
    GeoJson(Literal),
}

pub enum GeoArgV {
    Point(PointArgV),
    Envelope { minlon: LiteralV, minlat: LiteralV, maxlon: LiteralV, maxlat: LiteralV },
    GeoJson(LiteralV),
}

impl DeepView for GeoArg {
    type V = GeoArgV;

    open spec fn deep_view(&self) -> GeoArgV {
        match *self {
            GeoArg::Point(p) => GeoArgV::Point(p.deep_view()),
            GeoArg::Envelope { minlon, minlat, maxlon, maxlat } => GeoArgV::Envelope {
                minlon: minlon.deep_view(),
                minlat: minlat.deep_view(),
                maxlon: maxlon.deep_view(),
                maxlat: maxlat.deep_view(),
            },
            GeoArg::GeoJson(l) => GeoArgV::GeoJson(l.deep_view()),
        }
    }
}

impl GeoArg {
    pub fn dup(&self) -> (r: GeoArg)
        ensures
            r.deep_view() == self.deep_view(),
    {
        match self {
            GeoArg::Point(p) => GeoArg::Point(p.dup()),
            GeoArg::Envelope { minlon, minlat, maxlon, maxlat } => GeoArg::Envelope {
                minlon: minlon.dup(),
                minlat: minlat.dup(),
                maxlon: maxlon.dup(),
                maxlat: maxlat.dup(),
            },
            GeoArg::GeoJson(l) => GeoArg::GeoJson(l.dup()),
        }
    }
}

/// A text query: its source, whether it is in tsquery syntax, and whether it
/// is the fuzzy `search()`.
#[derive(Debug)]
pub struct TsQuery {
    pub source: Literal,
    pub tsquery_syntax: bool,
    pub fuzzy: bool,
}

pub struct TsQueryV {
    pub source: LiteralV,
    pub tsquery_syntax: bool,
    pub fuzzy: bool,
}

impl DeepView for TsQuery {
    type V = TsQueryV;

    open spec fn deep_view(&self) -> TsQueryV {
        TsQueryV {
            source: self.source.deep_view(),
            tsquery_syntax: self.tsquery_syntax,
            fuzzy: self.fuzzy,
        }
    }
}

impl TsQuery {
    pub fn dup(&self) -> (r: TsQuery)
        ensures
            r.deep_view() == self.deep_view(),
    {
        TsQuery {
            source: self.source.dup(),
            tsquery_syntax: self.tsquery_syntax,
            fuzzy: self.fuzzy,
        }
    }
}

// ── date/time and text shapes ────────────────────────────────────────────

/// A value a time column is compared with.
#[derive(Debug)]
pub enum TimeValue {
    Lit(Literal),
    /// `now()` or `current_date`, moved by `offset` microseconds.
    Clock { date_only: bool, offset: i64 },
}

pub enum TimeValueV {
    Lit(LiteralV),
    Clock { date_only: bool, offset: i64 },
}

impl DeepView for TimeValue {
    type V = TimeValueV;

    open spec fn deep_view(&self) -> TimeValueV {
        match *self {
            TimeValue::Lit(l) => TimeValueV::Lit(l.deep_view()),
            TimeValue::Clock { date_only, offset } => TimeValueV::Clock { date_only, offset },
        }
    }
}

pub open spec fn time_value_text(v: TimeValueV) -> Seq<char> {
    match v {
        TimeValueV::Lit(l) => literal_text(l),
        TimeValueV::Clock { date_only, offset } => {
            let clock = if date_only {
                "current_date"@
            } else {
                "now()"@
            };
            if offset == 0 {
                clock
            } else if offset < 0 {
                clock + " - interval "@ + decimal(-offset) + "us"@
            } else {
                clock + " + interval "@ + decimal(offset as int) + "us"@
            }
        },
    }
}

impl TimeValue {
    pub fn written(&self) -> (r: String)
        requires
            !(self matches TimeValue::Clock { offset, .. } && offset == i64::MIN),
        ensures
            r@ == time_value_text(self.deep_view()),
    {
        match self {
            TimeValue::Lit(l) => l.written(),
            TimeValue::Clock { date_only, offset } => {
                let clock = if *date_only {
                    "current_date"
                } else {
                    "now()"
                };
                if *offset == 0 {
                    owned(clock)
                } else if *offset < 0 {
                    cat4(clock, " - interval ", decimal_i64(0 - *offset).as_str(), "us")
                } else {
                    cat4(clock, " + interval ", decimal_i64(*offset).as_str(), "us")
                }
            },
        }
    }
}

/// A comparison whose left side is a date/time function of a column, or whose
/// right side is the clock.
#[allow(inconsistent_fields)]
#[derive(Debug)]
pub enum TimeShape {
    Extract { unit: TimeUnit, op: CmpOp, value: Literal },
    ExtractBetween { unit: TimeUnit, lower: Literal, upper: Literal },
    Trunc { unit: TimeUnit, op: CmpOp, value: Literal },
    TruncBetween { unit: TimeUnit, lower: Literal, upper: Literal },
    CastDate { op: CmpOp, value: Literal },
    Clock { op: CmpOp, value: TimeValue },
    ClockBetween { lower: TimeValue, upper: TimeValue },
}

#[allow(inconsistent_fields)]
pub enum TimeShapeV {
    Extract { unit: TimeUnit, op: CmpOp, value: LiteralV },
    ExtractBetween { unit: TimeUnit, lower: LiteralV, upper: LiteralV },
    Trunc { unit: TimeUnit, op: CmpOp, value: LiteralV },
    TruncBetween { unit: TimeUnit, lower: LiteralV, upper: LiteralV },
    CastDate { op: CmpOp, value: LiteralV },
    Clock { op: CmpOp, value: TimeValueV },
    ClockBetween { lower: TimeValueV, upper: TimeValueV },
}

impl DeepView for TimeShape {
    type V = TimeShapeV;

    open spec fn deep_view(&self) -> TimeShapeV {
        match *self {
            TimeShape::Extract { unit, op, value } => TimeShapeV::Extract {
                unit,
                op,
                value: value.deep_view(),
            },
            TimeShape::ExtractBetween { unit, lower, upper } => TimeShapeV::ExtractBetween {
                unit,
                lower: lower.deep_view(),
                upper: upper.deep_view(),
            },
            TimeShape::Trunc { unit, op, value } => TimeShapeV::Trunc {
                unit,
                op,
                value: value.deep_view(),
            },
            TimeShape::TruncBetween { unit, lower, upper } => TimeShapeV::TruncBetween {
                unit,
                lower: lower.deep_view(),
                upper: upper.deep_view(),
            },
            TimeShape::CastDate { op, value } => TimeShapeV::CastDate {
                op,
                value: value.deep_view(),
            },
            TimeShape::Clock { op, value } => TimeShapeV::Clock { op, value: value.deep_view() },
            TimeShape::ClockBetween { lower, upper } => TimeShapeV::ClockBetween {
                lower: lower.deep_view(),
                upper: upper.deep_view(),
            },
        }
    }
}

pub open spec fn time_shape_text(shape: TimeShapeV, column: Seq<char>) -> Seq<char> {
    match shape {
        TimeShapeV::Extract { unit, op, value } => "EXTRACT("@ + unit_text(unit) + " FROM "@
            + column + ") "@ + op_text(op) + (" "@ + literal_text(value)),
        TimeShapeV::ExtractBetween { unit, lower, upper } => "EXTRACT("@ + unit_text(unit)
            + " FROM "@ + column + ") BETWEEN "@ + literal_text(lower) + (" AND "@ + literal_text(
            upper,
        )),
        TimeShapeV::Trunc { unit, op, value } => "date_trunc('"@ + unit_text(unit) + "', "@ + column
            + ") "@ + op_text(op) + (" "@ + literal_text(value)),
        TimeShapeV::TruncBetween { unit, lower, upper } => "date_trunc('"@ + unit_text(unit)
            + "', "@ + column + ") BETWEEN "@ + literal_text(lower) + (" AND "@ + literal_text(
            upper,
        )),
        TimeShapeV::CastDate { op, value } => column + "::date "@ + op_text(op) + " "@
            + literal_text(value),
        TimeShapeV::Clock { op, value } => column + " "@ + op_text(op) + " "@ + time_value_text(
            value,
        ),
        TimeShapeV::ClockBetween { lower, upper } => column + " BETWEEN "@ + time_value_text(lower)
            + " AND "@ + time_value_text(upper),
    }
}

/// Every clock offset of the shape can be negated.
pub open spec fn time_value_ok(v: TimeValueV) -> bool {
    !(v matches TimeValueV::Clock { offset, .. } && offset == i64::MIN)
}

pub open spec fn time_shape_ok(shape: TimeShapeV) -> bool {
    match shape {
        TimeShapeV::Clock { value, .. } => time_value_ok(value),
        TimeShapeV::ClockBetween { lower, upper } => time_value_ok(lower) && time_value_ok(upper),
        _ => true,
    }
}

impl TimeShape {
    pub fn written(&self, column: &str) -> (r: String)
        requires
            time_shape_ok(self.deep_view()),
        ensures
            r@ == time_shape_text(self.deep_view(), column@),
    {
        match self {
            TimeShape::Extract { unit, op, value } => cat7(
                "EXTRACT(",
                unit.written(),
                " FROM ",
                column,
                ") ",
                op.written(),
                cat2(" ", value.written().as_str()).as_str(),
            ),
            TimeShape::ExtractBetween { unit, lower, upper } => cat7(
                "EXTRACT(",
                unit.written(),
                " FROM ",
                column,
                ") BETWEEN ",
                lower.written().as_str(),
                cat2(" AND ", upper.written().as_str()).as_str(),
            ),
            TimeShape::Trunc { unit, op, value } => cat7(
                "date_trunc('",
                unit.written(),
                "', ",
                column,
                ") ",
                op.written(),
                cat2(" ", value.written().as_str()).as_str(),
            ),
            TimeShape::TruncBetween { unit, lower, upper } => cat7(
                "date_trunc('",
                unit.written(),
                "', ",
                column,
                ") BETWEEN ",
                lower.written().as_str(),
                cat2(" AND ", upper.written().as_str()).as_str(),
            ),
            TimeShape::CastDate { op, value } => cat5(
                column,
                "::date ",
                op.written(),
                " ",
                value.written().as_str(),
            ),
            TimeShape::Clock { op, value } => cat5(
                column,
                " ",
                op.written(),
                " ",
                value.written().as_str(),
            ),
            TimeShape::ClockBetween { lower, upper } => cat5(
                column,
                " BETWEEN ",
                lower.written().as_str(),
                " AND ",
                upper.written().as_str(),
            ),
        }
    }
}

/// A text predicate that is a range of text keys, or an equality on an
/// expression index.
#[derive(Debug)]
pub enum TextShape {
    /// `lower(col) = value`.
    LowerEq { value: Literal },
    /// A prefix of `lower(col)`.
    LowerPrefix { value: Literal, written: PrefixForm },
    /// A prefix of `col`.
    Prefix { value: Literal, written: PrefixForm },
    /// `col->>'member' = value`.
    JsonEq { member: String, value: Literal },
}

pub enum TextShapeV {
    LowerEq { value: LiteralV },
    LowerPrefix { value: LiteralV, written: PrefixForm },
    Prefix { value: LiteralV, written: PrefixForm },
    JsonEq { member: Seq<char>, value: LiteralV },
}

impl DeepView for TextShape {
    type V = TextShapeV;

    open spec fn deep_view(&self) -> TextShapeV {
        match *self {
            TextShape::LowerEq { value } => TextShapeV::LowerEq { value: value.deep_view() },
            TextShape::LowerPrefix { value, written } => TextShapeV::LowerPrefix {
                value: value.deep_view(),
                written,
            },
            TextShape::Prefix { value, written } => TextShapeV::Prefix {
                value: value.deep_view(),
                written,
            },
            TextShape::JsonEq { member, value } => TextShapeV::JsonEq {
                member: member@,
                value: value.deep_view(),
            },
        }
    }
}

pub open spec fn text_shape_text(shape: TextShapeV, column: Seq<char>) -> Seq<char> {
    match shape {
        TextShapeV::LowerEq { value } => "lower("@ + column + ") = "@ + literal_text(value),
        TextShapeV::LowerPrefix { value, written } => prefix_form_text(written) + " over lower("@
            + column + "), prefix "@ + literal_text(value),
        TextShapeV::Prefix { value, written } => prefix_form_text(written) + " over "@ + column
            + ", prefix "@ + literal_text(value),
        TextShapeV::JsonEq { member, value } => column + "->>'"@ + member + "' = "@ + literal_text(
            value,
        ),
    }
}

impl TextShape {
    pub fn written(&self, column: &str) -> (r: String)
        ensures
            r@ == text_shape_text(self.deep_view(), column@),
    {
        match self {
            TextShape::LowerEq { value } => cat4(
                "lower(",
                column,
                ") = ",
                value.written().as_str(),
            ),
            TextShape::LowerPrefix { value, written } => cat5(
                written.written(),
                " over lower(",
                column,
                "), prefix ",
                value.written().as_str(),
            ),
            TextShape::Prefix { value, written } => cat5(
                written.written(),
                " over ",
                column,
                ", prefix ",
                value.written().as_str(),
            ),
            TextShape::JsonEq { member, value } => cat5(
                column,
                "->>'",
                member.as_str(),
                "' = ",
                value.written().as_str(),
            ),
        }
    }
}

// ── predicates ───────────────────────────────────────────────────────────

#[allow(inconsistent_fields)]
#[derive(Debug)]
pub enum Predicate {
    /// A comparison of two constants, already decided.
    Constant(bool),
    Compare { column: String, op: CmpOp, value: Literal },
    Between { column: String, lower: Literal, upper: Literal },
    IsNull { column: String, negated: bool },
    IsMissing { column: String },
    KeyCompare { op: CmpOp, value: Literal },
    KeyBetween { lower: Literal, upper: Literal },
    Text { column: String, query: TsQuery },
    Spatial {
        predicate: SpatialPredicate,
        column: String,
        argument: GeoArg,
        metres: Option<Literal>,
    },
    InList { column: String, values: Vec<Literal> },
    KeyInList { values: Vec<Literal> },
    /// `IN (SELECT column FROM table)`, or the `EXISTS` that means it.
    Semi { table: String, column: String },
    Time { column: String, shape: TimeShape },
    TextFn { column: String, shape: TextShape },
}

#[allow(inconsistent_fields)]
pub enum PredicateV {
    Constant(bool),
    Compare { column: Seq<char>, op: CmpOp, value: LiteralV },
    Between { column: Seq<char>, lower: LiteralV, upper: LiteralV },
    IsNull { column: Seq<char>, negated: bool },
    IsMissing { column: Seq<char> },
    KeyCompare { op: CmpOp, value: LiteralV },
    KeyBetween { lower: LiteralV, upper: LiteralV },
    Text { column: Seq<char>, query: TsQueryV },
    Spatial {
        predicate: SpatialPredicate,
        column: Seq<char>,
        argument: GeoArgV,
        metres: Option<LiteralV>,
    },
    InList { column: Seq<char>, values: Seq<LiteralV> },
    KeyInList { values: Seq<LiteralV> },
    Semi { table: Seq<char>, column: Seq<char> },
    Time { column: Seq<char>, shape: TimeShapeV },
    TextFn { column: Seq<char>, shape: TextShapeV },
}

impl DeepView for Predicate {
    type V = PredicateV;

    open spec fn deep_view(&self) -> PredicateV {
        match *self {
            Predicate::Constant(b) => PredicateV::Constant(b),
            Predicate::Compare { column, op, value } => PredicateV::Compare {
                column: column@,
                op,
                value: value.deep_view(),
            },
            Predicate::Between { column, lower, upper } => PredicateV::Between {
                column: column@,
                lower: lower.deep_view(),
                upper: upper.deep_view(),
            },
            Predicate::IsNull { column, negated } => PredicateV::IsNull {
                column: column@,
                negated,
            },
            Predicate::IsMissing { column } => PredicateV::IsMissing { column: column@ },
            Predicate::KeyCompare { op, value } => PredicateV::KeyCompare {
                op,
                value: value.deep_view(),
            },
            Predicate::KeyBetween { lower, upper } => PredicateV::KeyBetween {
                lower: lower.deep_view(),
                upper: upper.deep_view(),
            },
            Predicate::Text { column, query } => PredicateV::Text {
                column: column@,
                query: query.deep_view(),
            },
            Predicate::Spatial { predicate, column, argument, metres } => PredicateV::Spatial {
                predicate,
                column: column@,
                argument: argument.deep_view(),
                metres: metres.deep_view(),
            },
            Predicate::InList { column, values } => PredicateV::InList {
                column: column@,
                values: values.deep_view(),
            },
            Predicate::KeyInList { values } => PredicateV::KeyInList {
                values: values.deep_view(),
            },
            Predicate::Semi { table, column } => PredicateV::Semi {
                table: table@,
                column: column@,
            },
            Predicate::Time { column, shape } => PredicateV::Time {
                column: column@,
                shape: shape.deep_view(),
            },
            Predicate::TextFn { column, shape } => PredicateV::TextFn {
                column: column@,
                shape: shape.deep_view(),
            },
        }
    }
}

/// A boolean expression over predicates.
#[derive(Debug)]
pub enum Expr {
    Leaf(Predicate),
    Not(Box<Expr>),
    And(Vec<Expr>),
    Or(Vec<Expr>),
}

pub enum ExprV {
    Leaf(PredicateV),
    Not(Box<ExprV>),
    And(Seq<ExprV>),
    Or(Seq<ExprV>),
}

pub open spec fn expr_view(e: Expr) -> ExprV
    decreases e,
{
    match e {
        Expr::Leaf(p) => ExprV::Leaf(p.deep_view()),
        Expr::Not(inner) => ExprV::Not(Box::new(expr_view(*inner))),
        Expr::And(parts) => ExprV::And(
            Seq::new(
                parts@.len(),
                |i: int|
                    if 0 <= i < parts@.len() {
                        expr_view(parts@[i])
                    } else {
                        arbitrary()
                    },
            ),
        ),
        Expr::Or(parts) => ExprV::Or(
            Seq::new(
                parts@.len(),
                |i: int|
                    if 0 <= i < parts@.len() {
                        expr_view(parts@[i])
                    } else {
                        arbitrary()
                    },
            ),
        ),
    }
}

impl DeepView for Expr {
    type V = ExprV;

    open spec fn deep_view(&self) -> ExprV {
        expr_view(*self)
    }
}

/// The view of a conjunction or disjunction is that of its parts.
pub proof fn expr_view_parts(parts: Vec<Expr>)
    ensures
        expr_view(Expr::And(parts)) == ExprV::And(parts.deep_view()),
        expr_view(Expr::Or(parts)) == ExprV::Or(parts.deep_view()),
{
    assert(expr_view(Expr::And(parts))->And_0 =~= parts.deep_view());
    assert(expr_view(Expr::Or(parts))->Or_0 =~= parts.deep_view());
}

// ── row expressions ──────────────────────────────────────────────────────

/// An expression over the values of one row.
#[derive(Debug)]
pub enum RowExpr {
    Column(String),
    Lit(Literal),
    Now,
    CurrentDate,
    Interval(i64),
    Extract { unit: TimeUnit, arg: Box<RowExpr> },
    Trunc { unit: TimeUnit, arg: Box<RowExpr> },
    Age { left: Box<RowExpr>, right: Option<Box<RowExpr>> },
    ToChar { arg: Box<RowExpr>, format: String },
    ToTimestamp(Box<RowExpr>),
    ToDate(Box<RowExpr>),
    CastDate(Box<RowExpr>),
    CastText(Box<RowExpr>),
    Str { func: StrFunc, args: Vec<RowExpr> },
    Add(Box<RowExpr>, Box<RowExpr>),
    Sub(Box<RowExpr>, Box<RowExpr>),
    Concat(Box<RowExpr>, Box<RowExpr>),
}

pub enum RowExprV {
    Column(Seq<char>),
    Lit(LiteralV),
    Now,
    CurrentDate,
    Interval(i64),
    Extract { unit: TimeUnit, arg: Box<RowExprV> },
    Trunc { unit: TimeUnit, arg: Box<RowExprV> },
    Age { left: Box<RowExprV>, right: Option<Box<RowExprV>> },
    ToChar { arg: Box<RowExprV>, format: Seq<char> },
    ToTimestamp(Box<RowExprV>),
    ToDate(Box<RowExprV>),
    CastDate(Box<RowExprV>),
    CastText(Box<RowExprV>),
    Str { func: StrFunc, args: Seq<RowExprV> },
    Add(Box<RowExprV>, Box<RowExprV>),
    Sub(Box<RowExprV>, Box<RowExprV>),
    Concat(Box<RowExprV>, Box<RowExprV>),
}

pub open spec fn row_expr_view(e: RowExpr) -> RowExprV
    decreases e,
{
    match e {
        RowExpr::Column(name) => RowExprV::Column(name@),
        RowExpr::Lit(l) => RowExprV::Lit(l.deep_view()),
        RowExpr::Now => RowExprV::Now,
        RowExpr::CurrentDate => RowExprV::CurrentDate,
        RowExpr::Interval(n) => RowExprV::Interval(n),
        RowExpr::Extract { unit, arg } => RowExprV::Extract {
            unit,
            arg: Box::new(row_expr_view(*arg)),
        },
        RowExpr::Trunc { unit, arg } => RowExprV::Trunc {
            unit,
            arg: Box::new(row_expr_view(*arg)),
        },
        RowExpr::Age { left, right } => RowExprV::Age {
            left: Box::new(row_expr_view(*left)),
            right: match right {
                Some(right) => Some(Box::new(row_expr_view(*right))),
                None => None,
            },
        },
        RowExpr::ToChar { arg, format } => RowExprV::ToChar {
            arg: Box::new(row_expr_view(*arg)),
            format: format@,
        },
        RowExpr::ToTimestamp(arg) => RowExprV::ToTimestamp(Box::new(row_expr_view(*arg))),
        RowExpr::ToDate(arg) => RowExprV::ToDate(Box::new(row_expr_view(*arg))),
        RowExpr::CastDate(arg) => RowExprV::CastDate(Box::new(row_expr_view(*arg))),
        RowExpr::CastText(arg) => RowExprV::CastText(Box::new(row_expr_view(*arg))),
        RowExpr::Str { func, args } => RowExprV::Str {
            func,
            args: Seq::new(
                args@.len(),
                |i: int|
                    if 0 <= i < args@.len() {
                        row_expr_view(args@[i])
                    } else {
                        arbitrary()
                    },
            ),
        },
        RowExpr::Add(a, b) => RowExprV::Add(
            Box::new(row_expr_view(*a)),
            Box::new(row_expr_view(*b)),
        ),
        RowExpr::Sub(a, b) => RowExprV::Sub(
            Box::new(row_expr_view(*a)),
            Box::new(row_expr_view(*b)),
        ),
        RowExpr::Concat(a, b) => RowExprV::Concat(
            Box::new(row_expr_view(*a)),
            Box::new(row_expr_view(*b)),
        ),
    }
}

impl DeepView for RowExpr {
    type V = RowExprV;

    open spec fn deep_view(&self) -> RowExprV {
        row_expr_view(*self)
    }
}

/// The view of a call is that of its arguments.
pub proof fn row_expr_view_args(func: StrFunc, args: Vec<RowExpr>)
    ensures
        row_expr_view(RowExpr::Str { func, args }) == (RowExprV::Str {
            func,
            args: args.deep_view(),
        }),
{
    assert(row_expr_view(RowExpr::Str { func, args })->args =~= args.deep_view());
}

/// The expression as a statement would write it.
pub open spec fn row_expr_text(e: RowExprV) -> Seq<char>
    decreases e,
{
    match e {
        RowExprV::Column(name) => name,
        RowExprV::Lit(l) => literal_text(l),
        RowExprV::Now => "now()"@,
        RowExprV::CurrentDate => "current_date"@,
        RowExprV::Interval(n) => "interval "@ + decimal(n as int) + "us"@,
        RowExprV::Extract { unit, arg } => "EXTRACT("@ + unit_text(unit) + " FROM "@
            + row_expr_text(*arg) + ")"@,
        RowExprV::Trunc { unit, arg } => "date_trunc('"@ + unit_text(unit) + "', "@ + row_expr_text(
            *arg,
        ) + ")"@,
        RowExprV::Age { left, right } => match right {
            None => "age("@ + row_expr_text(*left) + ")"@,
            Some(right) => "age("@ + row_expr_text(*left) + ", "@ + row_expr_text(*right) + ")"@,
        },
        RowExprV::ToChar { arg, format } => "to_char("@ + row_expr_text(*arg) + ", '"@ + format
            + "')"@,
        RowExprV::ToTimestamp(arg) => "to_timestamp("@ + row_expr_text(*arg) + ")"@,
        RowExprV::ToDate(arg) => "to_date("@ + row_expr_text(*arg) + ")"@,
        RowExprV::CastDate(arg) => row_expr_text(*arg) + "::date"@,
        RowExprV::CastText(arg) => row_expr_text(*arg) + "::text"@,
        RowExprV::Str { func, args } => str_func_text(func) + "("@ + joined(
            row_expr_texts(args),
            ", "@,
        ) + ")"@,
        RowExprV::Add(a, b) => "("@ + row_expr_text(*a) + " + "@ + row_expr_text(*b) + ")"@,
        RowExprV::Sub(a, b) => "("@ + row_expr_text(*a) + " - "@ + row_expr_text(*b) + ")"@,
        RowExprV::Concat(a, b) => "("@ + row_expr_text(*a) + " || "@ + row_expr_text(*b) + ")"@,
    }
}

/// The expressions of a list as a statement would write them.
pub open spec fn row_expr_texts(args: Seq<RowExprV>) -> Seq<Seq<char>>
    decreases args,
{
    if args.len() == 0 {
        Seq::empty()
    } else {
        row_expr_texts(args.drop_last()).push(row_expr_text(args.last()))
    }
}

impl RowExpr {
    pub fn written(&self) -> (r: String)
        ensures
            r@ == row_expr_text(self.deep_view()),
        decreases self,
    {
        match self {
            RowExpr::Column(name) => name.clone(),
            RowExpr::Lit(l) => l.written(),
            RowExpr::Now => owned("now()"),
            RowExpr::CurrentDate => owned("current_date"),
            RowExpr::Interval(n) => cat3("interval ", decimal_i64(*n).as_str(), "us"),
            RowExpr::Extract { unit, arg } => cat5(
                "EXTRACT(",
                unit.written(),
                " FROM ",
                arg.written().as_str(),
                ")",
            ),
            RowExpr::Trunc { unit, arg } => cat5(
                "date_trunc('",
                unit.written(),
                "', ",
                arg.written().as_str(),
                ")",
            ),
            RowExpr::Age { left, right } => match right {
                None => cat3("age(", left.written().as_str(), ")"),
                Some(right) => cat5(
                    "age(",
                    left.written().as_str(),
                    ", ",
                    right.written().as_str(),
                    ")",
                ),
            },
            RowExpr::ToChar { arg, format } => cat5(
                "to_char(",
                arg.written().as_str(),
                ", '",
                format.as_str(),
                "')",
            ),
            RowExpr::ToTimestamp(arg) => cat3("to_timestamp(", arg.written().as_str(), ")"),
            RowExpr::ToDate(arg) => cat3("to_date(", arg.written().as_str(), ")"),
            RowExpr::CastDate(arg) => cat2(arg.written().as_str(), "::date"),
            RowExpr::CastText(arg) => cat2(arg.written().as_str(), "::text"),
            RowExpr::Str { func, args } => {
                let mut parts: Vec<String> = Vec::new();
                let mut i: usize = 0;
                let ghost all = args.deep_view();
                assert(texts(parts@) =~= row_expr_texts(all.take(0)));
                while i < args.len()
                    invariant
                        i <= args@.len(),
                        all == args.deep_view(),
                        self matches RowExpr::Str { args: a, .. } && a == *args,
                        texts(parts@) == row_expr_texts(all.take(i as int)),
                    decreases args@.len() - i,
                {
                    let ghost before = parts@;
                    parts.push(args[i].written());
                    proof {
                        take_next(all, i as int);
                        mapped_push(before, parts@.last(), |s: String| s@);
                    }
                    i = i + 1;
                }
                proof {
                    row_expr_view_args(*func, *args);
                    take_all(all);
                }
                cat4(func.written(), "(", join(&parts, ", ").as_str(), ")")
            },
            RowExpr::Add(a, b) => cat5(
                "(",
                a.written().as_str(),
                " + ",
                b.written().as_str(),
                ")",
            ),
            RowExpr::Sub(a, b) => cat5(
                "(",
                a.written().as_str(),
                " - ",
                b.written().as_str(),
                ")",
            ),
            RowExpr::Concat(a, b) => cat5(
                "(",
                a.written().as_str(),
                " || ",
                b.written().as_str(),
                ")",
            ),
        }
    }
}

} // verus!
