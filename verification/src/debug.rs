//! The literal form of a parsed predicate, for the refusals that print one.

use vstd::prelude::*;
use crate::ast::{
    CmpOp, GeoArg, GeoArgV, Literal, LiteralV, PointArg, PointArgV, Predicate, PredicateV,
    PrefixForm, ScalarSubquery, ScalarSubqueryV, SpatialPredicate, TextShape, TextShapeV, TimeShape,
    TimeShapeV, TimeUnit, TimeValue, TimeValueV, TsQuery, TsQueryV, VecOp,
};
use crate::number::{finite, is_finite, Real, RealV};
use crate::text::{
    cat3, cat5, cat7, debug_quoted, decimal, decimal_i64, decimal_usize, join, joined, owned,
    quoted, texts,
};

verus! {

/// A truth value, in small letters.
pub open spec fn bool_word(b: bool) -> Seq<char> {
    if b {
        "true"@
    } else {
        "false"@
    }
}

pub fn word_of(b: bool) -> (r: &'static str)
    ensures
        r@ == bool_word(b),
{
    if b {
        "true"
    } else {
        "false"
    }
}

/// A real number, in its JSON spelling where it has one.
pub open spec fn real_debug(n: RealV) -> Seq<char> {
    if finite(n.bits) {
        n.json
    } else {
        n.shown
    }
}

pub fn debug_real(n: &Real) -> (r: String)
    ensures
        r@ == real_debug(n.deep_view()),
{
    if is_finite(n.bits) {
        owned(n.json.as_str())
    } else {
        owned(n.shown.as_str())
    }
}

/// The name of a `CmpOp`.
pub open spec fn cmp_op_debug(x: CmpOp) -> Seq<char> {
    match x {
        CmpOp::Eq => "Eq"@,
        CmpOp::Ne => "Ne"@,
        CmpOp::Lt => "Lt"@,
        CmpOp::Le => "Le"@,
        CmpOp::Gt => "Gt"@,
        CmpOp::Ge => "Ge"@,
    }
}

pub fn debug_cmp_op(x: CmpOp) -> (r: &'static str)
    ensures
        r@ == cmp_op_debug(x),
{
    match x {
        CmpOp::Eq => "Eq",
        CmpOp::Ne => "Ne",
        CmpOp::Lt => "Lt",
        CmpOp::Le => "Le",
        CmpOp::Gt => "Gt",
        CmpOp::Ge => "Ge",
    }
}

/// The name of a `TimeUnit`.
pub open spec fn time_unit_debug(x: TimeUnit) -> Seq<char> {
    match x {
        TimeUnit::Year => "Year"@,
        TimeUnit::Month => "Month"@,
        TimeUnit::Day => "Day"@,
        TimeUnit::Dow => "Dow"@,
        TimeUnit::Hour => "Hour"@,
        TimeUnit::Minute => "Minute"@,
        TimeUnit::Second => "Second"@,
        TimeUnit::Epoch => "Epoch"@,
    }
}

pub fn debug_time_unit(x: TimeUnit) -> (r: &'static str)
    ensures
        r@ == time_unit_debug(x),
{
    match x {
        TimeUnit::Year => "Year",
        TimeUnit::Month => "Month",
        TimeUnit::Day => "Day",
        TimeUnit::Dow => "Dow",
        TimeUnit::Hour => "Hour",
        TimeUnit::Minute => "Minute",
        TimeUnit::Second => "Second",
        TimeUnit::Epoch => "Epoch",
    }
}

/// The name of a `SpatialPredicate`.
pub open spec fn spatial_predicate_debug(x: SpatialPredicate) -> Seq<char> {
    match x {
        SpatialPredicate::DWithin => "DWithin"@,
        SpatialPredicate::Intersects => "Intersects"@,
        SpatialPredicate::Within => "Within"@,
        SpatialPredicate::Contains => "Contains"@,
    }
}

pub fn debug_spatial_predicate(x: SpatialPredicate) -> (r: &'static str)
    ensures
        r@ == spatial_predicate_debug(x),
{
    match x {
        SpatialPredicate::DWithin => "DWithin",
        SpatialPredicate::Intersects => "Intersects",
        SpatialPredicate::Within => "Within",
        SpatialPredicate::Contains => "Contains",
    }
}

/// The name of a `PrefixForm`.
pub open spec fn prefix_form_debug(x: PrefixForm) -> Seq<char> {
    match x {
        PrefixForm::Like => "Like"@,
        PrefixForm::StartsWith => "StartsWith"@,
    }
}

pub fn debug_prefix_form(x: PrefixForm) -> (r: &'static str)
    ensures
        r@ == prefix_form_debug(x),
{
    match x {
        PrefixForm::Like => "Like",
        PrefixForm::StartsWith => "StartsWith",
    }
}

/// The name of a `VecOp`.
pub open spec fn vec_op_debug(x: VecOp) -> Seq<char> {
    match x {
        VecOp::Cosine => "Cosine"@,
        VecOp::L2 => "L2"@,
        VecOp::NegativeDot => "NegativeDot"@,
    }
}

pub fn debug_vec_op(x: VecOp) -> (r: &'static str)
    ensures
        r@ == vec_op_debug(x),
{
    match x {
        VecOp::Cosine => "Cosine",
        VecOp::L2 => "L2",
        VecOp::NegativeDot => "NegativeDot",
    }
}

/// The literal form of a `ScalarSubquery`.
pub open spec fn scalar_subquery_debug(x: ScalarSubqueryV) -> Seq<char>
    decreases x,
{
    "ScalarSubquery { column: "@ + debug_quoted(x.column) + ", table: "@ + debug_quoted(x.table) + ", key: "@ + literal_debug(x.key) + " }"@
}

pub fn debug_scalar_subquery(x: &ScalarSubquery) -> (r: String)
    ensures
        r@ == scalar_subquery_debug(x.deep_view()),
    decreases x,
{
    cat7("ScalarSubquery { column: ", quoted(x.column.as_str()).as_str(), ", table: ", quoted(x.table.as_str()).as_str(), ", key: ", debug_literal(&x.key).as_str(), " }")
}

/// The literal form of a `Literal`.
pub open spec fn literal_debug(x: LiteralV) -> Seq<char>
    decreases x,
{
    match x {
        LiteralV::Null => "Null"@,
        LiteralV::Bool(a) => "Bool("@ + bool_word(a) + ")"@,
        LiteralV::Num(a, b) => "Num("@ + real_debug(a) + ", "@ + bool_word(b) + ")"@,
        LiteralV::Str(a) => "Str("@ + debug_quoted(a) + ")"@,
        LiteralV::Param(a) => "Param("@ + decimal(a as int) + ")"@,
        LiteralV::Subquery(a) => "Subquery("@ + scalar_subquery_debug(*a) + ")"@,
    }
}

pub fn debug_literal(x: &Literal) -> (r: String)
    ensures
        r@ == literal_debug(x.deep_view()),
    decreases x,
{
    match x {
        Literal::Null => owned("Null"),
        Literal::Bool(a) => cat3("Bool(", word_of(*a), ")"),
        Literal::Num(a, b) => cat5("Num(", debug_real(a).as_str(), ", ", word_of(*b), ")"),
        Literal::Str(a) => cat3("Str(", quoted(a.as_str()).as_str(), ")"),
        Literal::Param(a) => cat3("Param(", decimal_usize(*a).as_str(), ")"),
        Literal::Subquery(a) => cat3("Subquery(", debug_scalar_subquery(a).as_str(), ")"),
    }
}

/// The literal form of a value that may be absent.
pub open spec fn optional_debug(x: Option<LiteralV>) -> Seq<char> {
    match x {
        Some(l) => "Some("@ + literal_debug(l) + ")"@,
        None => "None"@,
    }
}

pub fn debug_optional(x: &Option<Literal>) -> (r: String)
    ensures
        r@ == optional_debug(x.deep_view()),
{
    match x {
        Some(l) => cat3("Some(", debug_literal(l).as_str(), ")"),
        None => owned("None"),
    }
}

/// The literal form of a list of values.
pub open spec fn literals_debug(x: Seq<LiteralV>) -> Seq<char> {
    "["@ + joined(x.map_values(|l: LiteralV| literal_debug(l)), ", "@) + "]"@
}

pub fn debug_literals(x: &Vec<Literal>) -> (r: String)
    ensures
        r@ == literals_debug(x.deep_view()),
{
    let ghost all = x.deep_view();
    let mut out: Vec<String> = Vec::new();
    let mut i: usize = 0;
    while i < x.len()
        invariant
            i <= x@.len(),
            all == x.deep_view(),
            out@.len() == i,
            forall|k: int| 0 <= k < i ==> (#[trigger] out@[k])@ == literal_debug(all[k]),
        decreases x@.len() - i,
    {
        assert(all[i as int] == x@[i as int].deep_view());
        out.push(debug_literal(&x[i]));
        i = i + 1;
    }
    assert(texts(out@) =~= all.map_values(|l: LiteralV| literal_debug(l)));
    cat3("[", join(&out, ", ").as_str(), "]")
}

/// The literal form of a `PointArg`.
pub open spec fn point_arg_debug(x: PointArgV) -> Seq<char>
{
    "PointArg { lon: "@ + literal_debug(x.lon) + ", lat: "@ + literal_debug(x.lat) + " }"@
}

pub fn debug_point_arg(x: &PointArg) -> (r: String)
    ensures
        r@ == point_arg_debug(x.deep_view()),
{
    cat5("PointArg { lon: ", debug_literal(&x.lon).as_str(), ", lat: ", debug_literal(&x.lat).as_str(), " }")
}

/// The literal form of a `GeoArg`.
pub open spec fn geo_arg_debug(x: GeoArgV) -> Seq<char>
{
    match x {
        GeoArgV::Point(a) => "Point("@ + point_arg_debug(a) + ")"@,
        GeoArgV::Envelope { minlon, minlat, maxlon, maxlat } => "Envelope { minlon: "@ + literal_debug(minlon) + ", minlat: "@ + literal_debug(minlat) + ", maxlon: "@ + literal_debug(maxlon) + ", maxlat: "@ + literal_debug(maxlat) + " }"@,
        GeoArgV::GeoJson(a) => "GeoJson("@ + literal_debug(a) + ")"@,
    }
}

pub fn debug_geo_arg(x: &GeoArg) -> (r: String)
    ensures
        r@ == geo_arg_debug(x.deep_view()),
{
    match x {
        GeoArg::Point(a) => cat3("Point(", debug_point_arg(a).as_str(), ")"),
        GeoArg::Envelope { minlon, minlat, maxlon, maxlat } => cat3(cat7("Envelope { minlon: ", debug_literal(minlon).as_str(), ", minlat: ", debug_literal(minlat).as_str(), ", maxlon: ", debug_literal(maxlon).as_str(), ", maxlat: ").as_str(), debug_literal(maxlat).as_str(), " }"),
        GeoArg::GeoJson(a) => cat3("GeoJson(", debug_literal(a).as_str(), ")"),
    }
}

/// The literal form of a `TsQuery`.
pub open spec fn ts_query_debug(x: TsQueryV) -> Seq<char>
{
    "TsQuery { source: "@ + literal_debug(x.source) + ", tsquery_syntax: "@ + bool_word(x.tsquery_syntax) + ", fuzzy: "@ + bool_word(x.fuzzy) + " }"@
}

pub fn debug_ts_query(x: &TsQuery) -> (r: String)
    ensures
        r@ == ts_query_debug(x.deep_view()),
{
    cat7("TsQuery { source: ", debug_literal(&x.source).as_str(), ", tsquery_syntax: ", word_of(x.tsquery_syntax), ", fuzzy: ", word_of(x.fuzzy), " }")
}

/// The literal form of a `TimeValue`.
pub open spec fn time_value_debug(x: TimeValueV) -> Seq<char>
{
    match x {
        TimeValueV::Lit(a) => "Lit("@ + literal_debug(a) + ")"@,
        TimeValueV::Clock { date_only, offset } => "Clock { date_only: "@ + bool_word(date_only) + ", offset: "@ + decimal(offset as int) + " }"@,
    }
}

pub fn debug_time_value(x: &TimeValue) -> (r: String)
    ensures
        r@ == time_value_debug(x.deep_view()),
{
    match x {
        TimeValue::Lit(a) => cat3("Lit(", debug_literal(a).as_str(), ")"),
        TimeValue::Clock { date_only, offset } => cat5("Clock { date_only: ", word_of(*date_only), ", offset: ", decimal_i64(*offset).as_str(), " }"),
    }
}

/// The literal form of a `TimeShape`.
pub open spec fn time_shape_debug(x: TimeShapeV) -> Seq<char>
{
    match x {
        TimeShapeV::Extract { unit, op, value } => "Extract { unit: "@ + time_unit_debug(unit) + ", op: "@ + cmp_op_debug(op) + ", value: "@ + literal_debug(value) + " }"@,
        TimeShapeV::ExtractBetween { unit, lower, upper } => "ExtractBetween { unit: "@ + time_unit_debug(unit) + ", lower: "@ + literal_debug(lower) + ", upper: "@ + literal_debug(upper) + " }"@,
        TimeShapeV::Trunc { unit, op, value } => "Trunc { unit: "@ + time_unit_debug(unit) + ", op: "@ + cmp_op_debug(op) + ", value: "@ + literal_debug(value) + " }"@,
        TimeShapeV::TruncBetween { unit, lower, upper } => "TruncBetween { unit: "@ + time_unit_debug(unit) + ", lower: "@ + literal_debug(lower) + ", upper: "@ + literal_debug(upper) + " }"@,
        TimeShapeV::CastDate { op, value } => "CastDate { op: "@ + cmp_op_debug(op) + ", value: "@ + literal_debug(value) + " }"@,
        TimeShapeV::Clock { op, value } => "Clock { op: "@ + cmp_op_debug(op) + ", value: "@ + time_value_debug(value) + " }"@,
        TimeShapeV::ClockBetween { lower, upper } => "ClockBetween { lower: "@ + time_value_debug(lower) + ", upper: "@ + time_value_debug(upper) + " }"@,
    }
}

pub fn debug_time_shape(x: &TimeShape) -> (r: String)
    ensures
        r@ == time_shape_debug(x.deep_view()),
{
    match x {
        TimeShape::Extract { unit, op, value } => cat7("Extract { unit: ", debug_time_unit(*unit), ", op: ", debug_cmp_op(*op), ", value: ", debug_literal(value).as_str(), " }"),
        TimeShape::ExtractBetween { unit, lower, upper } => cat7("ExtractBetween { unit: ", debug_time_unit(*unit), ", lower: ", debug_literal(lower).as_str(), ", upper: ", debug_literal(upper).as_str(), " }"),
        TimeShape::Trunc { unit, op, value } => cat7("Trunc { unit: ", debug_time_unit(*unit), ", op: ", debug_cmp_op(*op), ", value: ", debug_literal(value).as_str(), " }"),
        TimeShape::TruncBetween { unit, lower, upper } => cat7("TruncBetween { unit: ", debug_time_unit(*unit), ", lower: ", debug_literal(lower).as_str(), ", upper: ", debug_literal(upper).as_str(), " }"),
        TimeShape::CastDate { op, value } => cat5("CastDate { op: ", debug_cmp_op(*op), ", value: ", debug_literal(value).as_str(), " }"),
        TimeShape::Clock { op, value } => cat5("Clock { op: ", debug_cmp_op(*op), ", value: ", debug_time_value(value).as_str(), " }"),
        TimeShape::ClockBetween { lower, upper } => cat5("ClockBetween { lower: ", debug_time_value(lower).as_str(), ", upper: ", debug_time_value(upper).as_str(), " }"),
    }
}

/// The literal form of a `TextShape`.
pub open spec fn text_shape_debug(x: TextShapeV) -> Seq<char>
{
    match x {
        TextShapeV::LowerEq { value } => "LowerEq { value: "@ + literal_debug(value) + " }"@,
        TextShapeV::LowerPrefix { value, written } => "LowerPrefix { value: "@ + literal_debug(value) + ", written: "@ + prefix_form_debug(written) + " }"@,
        TextShapeV::Prefix { value, written } => "Prefix { value: "@ + literal_debug(value) + ", written: "@ + prefix_form_debug(written) + " }"@,
        TextShapeV::JsonEq { member, value } => "JsonEq { member: "@ + debug_quoted(member) + ", value: "@ + literal_debug(value) + " }"@,
    }
}

pub fn debug_text_shape(x: &TextShape) -> (r: String)
    ensures
        r@ == text_shape_debug(x.deep_view()),
{
    match x {
        TextShape::LowerEq { value } => cat3("LowerEq { value: ", debug_literal(value).as_str(), " }"),
        TextShape::LowerPrefix { value, written } => cat5("LowerPrefix { value: ", debug_literal(value).as_str(), ", written: ", debug_prefix_form(*written), " }"),
        TextShape::Prefix { value, written } => cat5("Prefix { value: ", debug_literal(value).as_str(), ", written: ", debug_prefix_form(*written), " }"),
        TextShape::JsonEq { member, value } => cat5("JsonEq { member: ", quoted(member.as_str()).as_str(), ", value: ", debug_literal(value).as_str(), " }"),
    }
}

/// The literal form of a `Predicate`.
pub open spec fn predicate_debug(x: PredicateV) -> Seq<char>
{
    match x {
        PredicateV::Constant(a) => "Constant("@ + bool_word(a) + ")"@,
        PredicateV::Compare { column, op, value } => "Compare { column: "@ + debug_quoted(column) + ", op: "@ + cmp_op_debug(op) + ", value: "@ + literal_debug(value) + " }"@,
        PredicateV::Between { column, lower, upper } => "Between { column: "@ + debug_quoted(column) + ", lower: "@ + literal_debug(lower) + ", upper: "@ + literal_debug(upper) + " }"@,
        PredicateV::IsNull { column, negated } => "IsNull { column: "@ + debug_quoted(column) + ", negated: "@ + bool_word(negated) + " }"@,
        PredicateV::IsMissing { column } => "IsMissing { column: "@ + debug_quoted(column) + " }"@,
        PredicateV::KeyCompare { op, value } => "KeyCompare { op: "@ + cmp_op_debug(op) + ", value: "@ + literal_debug(value) + " }"@,
        PredicateV::KeyBetween { lower, upper } => "KeyBetween { lower: "@ + literal_debug(lower) + ", upper: "@ + literal_debug(upper) + " }"@,
        PredicateV::Text { column, query } => "Text { column: "@ + debug_quoted(column) + ", query: "@ + ts_query_debug(query) + " }"@,
        PredicateV::Spatial { predicate, column, argument, metres } => "Spatial { predicate: "@ + spatial_predicate_debug(predicate) + ", column: "@ + debug_quoted(column) + ", argument: "@ + geo_arg_debug(argument) + ", metres: "@ + optional_debug(metres) + " }"@,
        PredicateV::InList { column, values } => "InList { column: "@ + debug_quoted(column) + ", values: "@ + literals_debug(values) + " }"@,
        PredicateV::KeyInList { values } => "KeyInList { values: "@ + literals_debug(values) + " }"@,
        PredicateV::Semi { table, column } => "Semi { table: "@ + debug_quoted(table) + ", column: "@ + debug_quoted(column) + " }"@,
        PredicateV::Time { column, shape } => "Time { column: "@ + debug_quoted(column) + ", shape: "@ + time_shape_debug(shape) + " }"@,
        PredicateV::TextFn { column, shape } => "TextFn { column: "@ + debug_quoted(column) + ", shape: "@ + text_shape_debug(shape) + " }"@,
    }
}

pub fn debug_predicate(x: &Predicate) -> (r: String)
    ensures
        r@ == predicate_debug(x.deep_view()),
{
    match x {
        Predicate::Constant(a) => cat3("Constant(", word_of(*a), ")"),
        Predicate::Compare { column, op, value } => cat7("Compare { column: ", quoted(column.as_str()).as_str(), ", op: ", debug_cmp_op(*op), ", value: ", debug_literal(value).as_str(), " }"),
        Predicate::Between { column, lower, upper } => cat7("Between { column: ", quoted(column.as_str()).as_str(), ", lower: ", debug_literal(lower).as_str(), ", upper: ", debug_literal(upper).as_str(), " }"),
        Predicate::IsNull { column, negated } => cat5("IsNull { column: ", quoted(column.as_str()).as_str(), ", negated: ", word_of(*negated), " }"),
        Predicate::IsMissing { column } => cat3("IsMissing { column: ", quoted(column.as_str()).as_str(), " }"),
        Predicate::KeyCompare { op, value } => cat5("KeyCompare { op: ", debug_cmp_op(*op), ", value: ", debug_literal(value).as_str(), " }"),
        Predicate::KeyBetween { lower, upper } => cat5("KeyBetween { lower: ", debug_literal(lower).as_str(), ", upper: ", debug_literal(upper).as_str(), " }"),
        Predicate::Text { column, query } => cat5("Text { column: ", quoted(column.as_str()).as_str(), ", query: ", debug_ts_query(query).as_str(), " }"),
        Predicate::Spatial { predicate, column, argument, metres } => cat3(cat7("Spatial { predicate: ", debug_spatial_predicate(*predicate), ", column: ", quoted(column.as_str()).as_str(), ", argument: ", debug_geo_arg(argument).as_str(), ", metres: ").as_str(), debug_optional(metres).as_str(), " }"),
        Predicate::InList { column, values } => cat5("InList { column: ", quoted(column.as_str()).as_str(), ", values: ", debug_literals(values).as_str(), " }"),
        Predicate::KeyInList { values } => cat3("KeyInList { values: ", debug_literals(values).as_str(), " }"),
        Predicate::Semi { table, column } => cat5("Semi { table: ", quoted(table.as_str()).as_str(), ", column: ", quoted(column.as_str()).as_str(), " }"),
        Predicate::Time { column, shape } => cat5("Time { column: ", quoted(column.as_str()).as_str(), ", shape: ", debug_time_shape(shape).as_str(), " }"),
        Predicate::TextFn { column, shape } => cat5("TextFn { column: ", quoted(column.as_str()).as_str(), ", shape: ", debug_text_shape(shape).as_str(), " }"),
    }
}

} // verus!
