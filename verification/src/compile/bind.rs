//! Reading written values: a literal, a bound parameter or a scalar subquery,
//! as the typed value that a plan holds.
//!
//! The same readers serve a statement that is compiled and a compiled
//! statement that is bound again to new parameters.

use vstd::prelude::*;
use crate::ast::{
    GeoArg, GeoArgV, Literal, LiteralV, PointArg, PointArgV, TsQuery, TsQueryV,
};
use crate::compile::env::{
    collection_of, member, member_from, row_at, Catalog, CatalogV, Param, ParamV, RefusedBounds,
    RefusedBoundsV, RefusedPoint, RefusedPointV, KEY_COLUMN,
};
use crate::compile::geometry::{fault_in, position_fault};
use crate::decimal::{is_float, writes_float};
use crate::error::{gives, SqlError, SqlErrorV, Tier};
use crate::json::{json_node, json_tree, read_node, read_tree, Json, JsonNode, JsonNodeV, JsonV};
use crate::number::{
    exact_whole, finite, int_bits, is_finite, nearest_bits, whole_i64, Real, RealV,
};
use crate::scan::{
    find_from, holds_char, holds_text, pieces, split, strip_back, strip_both, strip_front, trim,
    trimmed, word_count, words_from,
};
use crate::text::{
    cat2, cat3, cat5, cat6, chars_of, decimal, decimal_usize, join, joined, same, text_between, texts,
};
use crate::value::{dup_bits, json_text, kind_name, JsonDoc, JsonDocV, Kind, Value, ValueV};

verus! {

/// A number as it was read; a floating-point column widens a whole one.
#[derive(Debug)]
pub enum Number {
    Int(i64),
    Real(Real),
}

pub enum NumberV {
    Int(i64),
    Real(RealV),
}

impl DeepView for Number {
    type V = NumberV;

    open spec fn deep_view(&self) -> NumberV {
        match *self {
            Number::Int(n) => NumberV::Int(n),
            Number::Real(n) => NumberV::Real(n.deep_view()),
        }
    }
}

/// A value in the domain of a scalar index.
#[derive(Debug)]
pub enum Scalar {
    Bool(bool),
    I64(i64),
    F64(Number),
    Text(String),
}

pub enum ScalarV {
    Bool(bool),
    I64(i64),
    F64(NumberV),
    Text(Seq<char>),
}

impl DeepView for Scalar {
    type V = ScalarV;

    open spec fn deep_view(&self) -> ScalarV {
        match *self {
            Scalar::Bool(b) => ScalarV::Bool(b),
            Scalar::I64(n) => ScalarV::I64(n),
            Scalar::F64(n) => ScalarV::F64(n.deep_view()),
            Scalar::Text(s) => ScalarV::Text(s@),
        }
    }
}

/// A query vector: its binary32 bits, or the parts of its written form.
#[derive(Debug)]
pub enum VectorArg {
    Bits(Vec<u32>),
    Written(Vec<String>),
}

pub enum VectorArgV {
    Bits(Seq<u32>),
    Written(Seq<Seq<char>>),
}

impl DeepView for VectorArg {
    type V = VectorArgV;

    open spec fn deep_view(&self) -> VectorArgV {
        match *self {
            VectorArg::Bits(v) => VectorArgV::Bits(v@),
            VectorArg::Written(v) => VectorArgV::Written(texts(v@)),
        }
    }
}

/// A point, west to east and south to north.
#[derive(Debug)]
pub struct PointValue {
    pub lon: Number,
    pub lat: Number,
}

pub struct PointValueV {
    pub lon: NumberV,
    pub lat: NumberV,
}

impl DeepView for PointValue {
    type V = PointValueV;

    open spec fn deep_view(&self) -> PointValueV {
        PointValueV { lon: self.lon.deep_view(), lat: self.lat.deep_view() }
    }
}

/// A rectangle of longitudes and latitudes.
#[derive(Debug)]
pub struct BoundsValue {
    pub west: Number,
    pub south: Number,
    pub east: Number,
    pub north: Number,
}

pub struct BoundsValueV {
    pub west: NumberV,
    pub south: NumberV,
    pub east: NumberV,
    pub north: NumberV,
}

impl DeepView for BoundsValue {
    type V = BoundsValueV;

    open spec fn deep_view(&self) -> BoundsValueV {
        BoundsValueV {
            west: self.west.deep_view(),
            south: self.south.deep_view(),
            east: self.east.deep_view(),
            north: self.north.deep_view(),
        }
    }
}

/// The stored kinds of geometry.
#[derive(Clone, Copy, Debug, PartialEq, Eq, Structural)]
pub enum GeomKind {
    Point,
    LineString,
    Polygon,
    MultiPoint,
    MultiLineString,
    MultiPolygon,
}

/// A geometry: a point, a rectangle, or a GeoJSON geometry with its
/// coordinates as JSON text.
#[derive(Debug)]
pub enum GeomValue {
    Point(PointValue),
    Envelope(BoundsValue),
    Json { kind: GeomKind, coordinates: String },
}

pub enum GeomValueV {
    Point(PointValueV),
    Envelope(BoundsValueV),
    Json { kind: GeomKind, coordinates: Seq<char> },
}

impl DeepView for GeomValue {
    type V = GeomValueV;

    open spec fn deep_view(&self) -> GeomValueV {
        match *self {
            GeomValue::Point(p) => GeomValueV::Point(p.deep_view()),
            GeomValue::Envelope(b) => GeomValueV::Envelope(b.deep_view()),
            GeomValue::Json { kind, coordinates } => GeomValueV::Json {
                kind,
                coordinates: coordinates@,
            },
        }
    }
}

/// How the terms of a text query are combined.
#[derive(Clone, Copy, Debug, PartialEq, Eq, Structural)]
pub enum TextMatch {
    Any,
    All,
    Phrase,
    Search,
}

impl DeepView for TextMatch {
    type V = TextMatch;

    open spec fn deep_view(&self) -> TextMatch {
        *self
    }
}

/// What written values are read from.
pub struct Binder<'a> {
    pub catalog: &'a Catalog,
    pub params: &'a Vec<Param>,
}

pub struct BinderV {
    pub catalog: CatalogV,
    pub params: Seq<ParamV>,
}

impl<'a> DeepView for Binder<'a> {
    type V = BinderV;

    open spec fn deep_view(&self) -> BinderV {
        BinderV { catalog: self.catalog.deep_view(), params: self.params.deep_view() }
    }
}

// ── a value ──────────────────────────────────────────────────────────────

/// A floating-point number as a JSON value; JSON has none that is not finite.
pub open spec fn real_value(n: RealV) -> ValueV {
    if finite(n.bits) {
        ValueV::Real(n)
    } else {
        ValueV::Null
    }
}

/// The parameter `$n`.
pub open spec fn param_of(b: BinderV, n: usize) -> Result<ParamV, SqlErrorV> {
    if 1 <= n <= b.params.len() {
        Ok(b.params[n - 1])
    } else {
        Err(
            SqlErrorV::Parameter(
                "$"@ + decimal(n as int) + " is not bound; "@ + decimal(b.params.len() as int)
                    + " parameter(s) were given"@,
            ),
        )
    }
}

pub open spec fn param_value(p: ParamV) -> ValueV {
    match p {
        ParamV::Null => ValueV::Null,
        ParamV::Bool(b) => ValueV::Bool(b),
        ParamV::Int(n) => ValueV::Int(n),
        ParamV::Float(n) => real_value(n),
        ParamV::Text(s) => ValueV::Text(s),
        ParamV::Vector { bits, text } => ValueV::Json(
            JsonDocV { text, array: true, numbers: Some(bits) },
        ),
        ParamV::Json(v) => v,
    }
}

/// What a literal stands for.
pub open spec fn value_of(b: BinderV, l: LiteralV) -> Result<ValueV, SqlErrorV>
    decreases l,
{
    match l {
        LiteralV::Null => Ok(ValueV::Null),
        LiteralV::Bool(x) => Ok(ValueV::Bool(x)),
        LiteralV::Num(n, exact) => match (exact, exact_whole(n.bits)) {
            (true, Some(k)) => Ok(ValueV::Int(k)),
            _ => Ok(real_value(n)),
        },
        LiteralV::Str(s) => Ok(ValueV::Text(s)),
        LiteralV::Param(n) => match param_of(b, n) {
            Ok(p) => Ok(param_value(p)),
            Err(e) => Err(e),
        },
        LiteralV::Subquery(q) => match collection_of(b.catalog, q.table) {
            Err(e) => Err(e),
            Ok(c) => match value_of(b, q.key) {
                Err(e) => Err(e),
                Ok(key) => match key {
                    ValueV::Text(key) => match row_at(b.catalog, c.id, key) {
                        None => Err(
                            SqlErrorV::Engine(
                                "scalar subquery: `"@ + q.table + "` has no row at key `"@ + key
                                    + "`"@,
                            ),
                        ),
                        Some(row) => if q.column == KEY_COLUMN@ {
                            Ok(ValueV::Text(row.key))
                        } else {
                            match member_from(row.document, q.column, 0) {
                                Some(v) => Ok(v),
                                None => Ok(ValueV::Null),
                            }
                        },
                    },
                    _ => Err(SqlErrorV::Parameter("expected text, found "@ + json_text(key))),
                },
            },
        },
    }
}

/// A literal read as text.
pub open spec fn text_of(b: BinderV, l: LiteralV) -> Result<Seq<char>, SqlErrorV> {
    match value_of(b, l) {
        Err(e) => Err(e),
        Ok(ValueV::Text(s)) => Ok(s),
        Ok(other) => Err(SqlErrorV::Parameter("expected text, found "@ + json_text(other))),
    }
}

/// A literal read as a number.
pub open spec fn number_of(b: BinderV, l: LiteralV) -> Result<NumberV, SqlErrorV> {
    match value_of(b, l) {
        Err(e) => Err(e),
        Ok(ValueV::Int(n)) => Ok(NumberV::Int(n)),
        Ok(ValueV::Real(n)) => Ok(NumberV::Real(n)),
        Ok(other) => Err(SqlErrorV::Parameter("expected a number, found "@ + json_text(other))),
    }
}

/// A literal read as a whole number.
pub open spec fn i64_of(b: BinderV, l: LiteralV) -> Result<i64, SqlErrorV> {
    match value_of(b, l) {
        Err(e) => Err(e),
        Ok(ValueV::Int(n)) => Ok(n),
        Ok(ValueV::Real(_)) => Err(SqlErrorV::Parameter("expected a whole number"@)),
        Ok(other) => Err(
            SqlErrorV::Parameter("expected a whole number, found "@ + json_text(other)),
        ),
    }
}

impl<'a> Binder<'a> {
    pub fn new(catalog: &'a Catalog, params: &'a Vec<Param>) -> (r: Binder<'a>)
        ensures
            r.deep_view() == (BinderV {
                catalog: catalog.deep_view(),
                params: params.deep_view(),
            }),
    {
        Binder { catalog, params }
    }

    pub fn param(&self, n: usize) -> (r: Result<&'a Param, SqlError>)
        ensures
            match param_of(self.deep_view(), n) {
                Ok(p) => r is Ok && r->Ok_0.deep_view() == p,
                Err(e) => r is Err && r->Err_0.deep_view() == e,
            },
    {
        if 1 <= n && n <= self.params.len() {
            Ok(&self.params[n - 1])
        } else {
            Err(
                SqlError::Parameter(
                    cat5(
                        "$",
                        decimal_usize(n).as_str(),
                        " is not bound; ",
                        decimal_usize(self.params.len()).as_str(),
                        " parameter(s) were given",
                    ),
                ),
            )
        }
    }

    /// What a literal stands for. A subquery is one point read, so what it
    /// stands for is the database's.
    pub fn value_of(&self, literal: &Literal) -> (r: Result<Value, SqlError>)
        ensures
            gives(r, value_of(self.deep_view(), literal.deep_view())),
        decreases literal,
    {
        match literal {
            Literal::Null => Ok(Value::Null),
            Literal::Bool(b) => Ok(Value::Bool(*b)),
            Literal::Num(n, exact) => {
                if *exact {
                    if let Some(k) = whole_i64(n.bits) {
                        return Ok(Value::Int(k));
                    }
                }
                if is_finite(n.bits) {
                    Ok(Value::Real(n.dup()))
                } else {
                    Ok(Value::Null)
                }
            },
            Literal::Str(s) => Ok(Value::Text(s.clone())),
            Literal::Param(n) => {
                let p = self.param(*n)?;
                Ok(
                    match p {
                        Param::Null => Value::Null,
                        Param::Bool(b) => Value::Bool(*b),
                        Param::Int(n) => Value::Int(*n),
                        Param::Float(n) => if is_finite(n.bits) {
                            Value::Real(n.dup())
                        } else {
                            Value::Null
                        },
                        Param::Text(s) => Value::Text(s.clone()),
                        Param::Vector { bits, text } => Value::Json(
                            JsonDoc {
                                text: text.clone(),
                                array: true,
                                numbers: Some(dup_bits(bits)),
                            },
                        ),
                        Param::Json(v) => v.dup(),
                    },
                )
            },
            Literal::Subquery(q) => {
                let c = self.catalog.collection(q.table.as_str())?;
                let key = match self.value_of(&q.key)? {
                    Value::Text(key) => key,
                    other => {
                        return Err(
                            SqlError::Parameter(
                                cat2("expected text, found ", other.json().as_str()),
                            ),
                        );
                    },
                };
                match self.catalog.row(c.id, key.as_str()) {
                    None => Err(
                        SqlError::Engine(
                            cat5(
                                "scalar subquery: `",
                                q.table.as_str(),
                                "` has no row at key `",
                                key.as_str(),
                                "`",
                            ),
                        ),
                    ),
                    Some(row) => {
                        if same(q.column.as_str(), KEY_COLUMN) {
                            Ok(Value::Text(row.key.clone()))
                        } else {
                            match member(&row.document, q.column.as_str()) {
                                Some(v) => Ok(v.dup()),
                                None => Ok(Value::Null),
                            }
                        }
                    },
                }
            },
        }
    }

    pub fn text_of(&self, literal: &Literal) -> (r: Result<String, SqlError>)
        ensures
            gives(r, text_of(self.deep_view(), literal.deep_view())),
    {
        match self.value_of(literal)? {
            Value::Text(s) => Ok(s),
            other => Err(
                SqlError::Parameter(cat2("expected text, found ", other.json().as_str())),
            ),
        }
    }

    pub fn f64_of(&self, literal: &Literal) -> (r: Result<Number, SqlError>)
        ensures
            gives(r, number_of(self.deep_view(), literal.deep_view())),
    {
        match self.value_of(literal)? {
            Value::Int(n) => Ok(Number::Int(n)),
            Value::Real(n) => Ok(Number::Real(n)),
            other => Err(
                SqlError::Parameter(cat2("expected a number, found ", other.json().as_str())),
            ),
        }
    }

    pub fn i64_of(&self, literal: &Literal) -> (r: Result<i64, SqlError>)
        ensures
            gives(r, i64_of(self.deep_view(), literal.deep_view())),
    {
        match self.value_of(literal)? {
            Value::Int(n) => Ok(n),
            Value::Real(_) => Err(SqlError::parameter("expected a whole number")),
            other => Err(
                SqlError::Parameter(cat2("expected a whole number, found ", other.json().as_str())),
            ),
        }
    }
}

// ── a vector ─────────────────────────────────────────────────────────────

/// The parts of a list, each without white space at its ends.
pub open spec fn trimmed_parts(parts: Seq<Seq<char>>) -> Seq<Seq<char>> {
    parts.map_values(|p: Seq<char>| trimmed(p))
}

/// Why a text is no number; nothing where it is one.
pub open spec fn number_fault(s: Seq<char>) -> Option<Seq<char>> {
    if s.len() == 0 {
        Some("cannot parse float from empty string"@)
    } else if !writes_float(s) {
        Some("invalid float literal"@)
    } else {
        None
    }
}

/// Why the first part from `i` on that is no number is none.
pub open spec fn part_fault(parts: Seq<Seq<char>>, i: nat) -> Option<Seq<char>>
    decreases parts.len() - i,
{
    if i >= parts.len() {
        None
    } else {
        match number_fault(parts[i as int]) {
            Some(fault) => Some(fault),
            None => part_fault(parts, i + 1),
        }
    }
}

/// The parts of `[a, b, c]`, each of which writes a number.
pub open spec fn vector_parts(text: Seq<char>) -> Result<Seq<Seq<char>>, SqlErrorV> {
    let t = trimmed(text);
    if t.len() >= 2 && t[0] == '[' && t.last() == ']' {
        let inner = t.subrange(1, t.len() - 1);
        if trimmed(inner).len() == 0 {
            Ok(Seq::empty())
        } else {
            let parts = trimmed_parts(pieces(inner, ','));
            match part_fault(parts, 0) {
                Some(fault) => Err(SqlErrorV::Parameter("vector literal: "@ + fault)),
                None => Ok(parts),
            }
        }
    } else {
        Err(
            SqlErrorV::Parameter(
                "a vector literal is written `[a,b,c]`, as pgvector writes it"@,
            ),
        )
    }
}

fn fault_of_number(s: &str) -> (r: Option<&'static str>)
    ensures
        match r {
            Some(fault) => number_fault(s@) == Some(fault@),
            None => number_fault(s@) is None,
        },
{
    if s.unicode_len() == 0 {
        Some("cannot parse float from empty string")
    } else if !is_float(s) {
        Some("invalid float literal")
    } else {
        None
    }
}

/// The parts of a written vector.
pub fn parse_vector_literal(text: &str) -> (r: Result<Vec<String>, SqlError>)
    ensures
        match vector_parts(text@) {
            Ok(parts) => r is Ok && texts(r->Ok_0@) == parts,
            Err(e) => r is Err && r->Err_0.deep_view() == e,
        },
{
    let t = trim(text);
    let chars = chars_of(t.as_str());
    if chars.len() < 2 || chars[0] != '[' || chars[chars.len() - 1] != ']' {
        return Err(
            SqlError::parameter("a vector literal is written `[a,b,c]`, as pgvector writes it"),
        );
    }
    let inner = text_between(&chars, 1, chars.len() - 1);
    let mut out: Vec<String> = Vec::new();
    if trim(inner.as_str()).as_str().unicode_len() == 0 {
        assert(texts(out@) =~= Seq::<Seq<char>>::empty());
        return Ok(out);
    }
    let parts = split(inner.as_str(), ',');
    let ghost want = trimmed_parts(pieces(inner@, ','));
    let mut i: usize = 0;
    assert(parts@.len() == want.len());
    while i < parts.len()
        invariant
            i <= parts@.len(),
            want == trimmed_parts(texts(parts@)),
            out@.len() == i,
            part_fault(want, i as nat) == part_fault(want, 0),
            vector_parts(text@) == match part_fault(want, 0) {
                Some(fault) => Err::<Seq<Seq<char>>, SqlErrorV>(
                    SqlErrorV::Parameter("vector literal: "@ + fault),
                ),
                None => Ok(want),
            },
            forall|k: int| 0 <= k < i ==> #[trigger] out@[k]@ == want[k],
        decreases parts@.len() - i,
    {
        assert(want[i as int] == trimmed(parts@[i as int]@));
        let part = trim(parts[i].as_str());
        if let Some(fault) = fault_of_number(part.as_str()) {
            return Err(SqlError::Parameter(cat2("vector literal: ", fault)));
        }
        out.push(part);
        i = i + 1;
    }
    assert(texts(out@) =~= want);
    Ok(out)
}

/// A literal read as a vector: the written form, a JSON array of numbers, or a
/// bound vector.
pub open spec fn vector_of(b: BinderV, l: LiteralV) -> Result<VectorArgV, SqlErrorV> {
    match value_of(b, l) {
        Err(e) => Err(e),
        Ok(ValueV::Text(text)) => match vector_parts(text) {
            Ok(parts) => Ok(VectorArgV::Written(parts)),
            Err(e) => Err(e),
        },
        Ok(ValueV::Json(doc)) if doc.array => match doc.numbers {
            Some(bits) => Ok(VectorArgV::Bits(bits)),
            None => Err(SqlErrorV::Parameter("vector holds a non-number"@)),
        },
        Ok(other) => Err(
            SqlErrorV::Parameter("expected a vector literal, found "@ + json_text(other)),
        ),
    }
}

impl<'a> Binder<'a> {
    pub fn vector_of(&self, literal: &Literal) -> (r: Result<VectorArg, SqlError>)
        ensures
            gives(r, vector_of(self.deep_view(), literal.deep_view())),
    {
        match self.value_of(literal)? {
            Value::Text(text) => {
                let parts = parse_vector_literal(text.as_str())?;
                Ok(VectorArg::Written(parts))
            },
            Value::Json(doc) => {
                if doc.array {
                    match doc.numbers {
                        Some(bits) => Ok(VectorArg::Bits(bits)),
                        None => Err(SqlError::parameter("vector holds a non-number")),
                    }
                } else {
                    Err(
                        SqlError::Parameter(
                            cat2("expected a vector literal, found ", doc.text.as_str()),
                        ),
                    )
                }
            },
            other => Err(
                SqlError::Parameter(
                    cat2("expected a vector literal, found ", other.json().as_str()),
                ),
            ),
        }
    }
}

// ── geometry ─────────────────────────────────────────────────────────────

/// The bits of a number as a floating-point one.
pub open spec fn number_bits(n: NumberV) -> int {
    match n {
        NumberV::Int(n) => nearest_bits(n as int),
        NumberV::Real(n) => n.bits as int,
    }
}

fn bits_of(n: &Number) -> (r: u64)
    ensures
        r == number_bits(n.deep_view()),
{
    match n {
        Number::Int(n) => int_bits(*n),
        Number::Real(n) => n.bits,
    }
}

/// The refusal of a point, where the engine refuses it: the first in the list,
/// from position `i` on.
pub open spec fn point_refusal(list: Seq<RefusedPointV>, p: PointValueV, i: nat) -> Option<
    RefusedPointV,
>
    decreases list.len() - i,
{
    if i >= list.len() {
        None
    } else if list[i as int].lon.bits == number_bits(p.lon) && list[i as int].lat.bits
        == number_bits(p.lat) {
        Some(list[i as int])
    } else {
        point_refusal(list, p, i + 1)
    }
}

/// The refusal of a rectangle, where the engine refuses it.
pub open spec fn bounds_refusal(list: Seq<RefusedBoundsV>, r: BoundsValueV, i: nat) -> Option<
    RefusedBoundsV,
>
    decreases list.len() - i,
{
    if i >= list.len() {
        None
    } else if list[i as int].west == number_bits(r.west) && list[i as int].south == number_bits(
        r.south,
    ) && list[i as int].east == number_bits(r.east) && list[i as int].north == number_bits(
        r.north,
    ) {
        Some(list[i as int])
    } else {
        bounds_refusal(list, r, i + 1)
    }
}

/// What a point is read as, by what the engine says of it.
pub open spec fn made_point(p: PointValueV, refusal: Option<RefusedPointV>) -> Result<
    PointValueV,
    SqlErrorV,
> {
    match refusal {
        Some(no) => Err(
            SqlErrorV::Engine(
                "ST_MakePoint("@ + no.lon.shown + ", "@ + no.lat.shown + "): "@ + no.reason,
            ),
        ),
        None => Ok(p),
    }
}

/// What a rectangle is read as, by what the engine says of it.
pub open spec fn made_bounds(r: BoundsValueV, refusal: Option<RefusedBoundsV>) -> Result<
    BoundsValueV,
    SqlErrorV,
> {
    match refusal {
        Some(no) => Err(SqlErrorV::Engine("ST_MakeEnvelope: "@ + no.reason)),
        None => Ok(r),
    }
}

/// The two numbers of a point.
pub open spec fn point_numbers(b: BinderV, p: PointArgV) -> Result<PointValueV, SqlErrorV> {
    match number_of(b, p.lon) {
        Err(e) => Err(e),
        Ok(lon) => match number_of(b, p.lat) {
            Err(e) => Err(e),
            Ok(lat) => Ok(PointValueV { lon, lat }),
        },
    }
}

/// The four numbers of a rectangle.
pub open spec fn rectangle_of(
    b: BinderV,
    minlon: LiteralV,
    minlat: LiteralV,
    maxlon: LiteralV,
    maxlat: LiteralV,
) -> Result<BoundsValueV, SqlErrorV> {
    match number_of(b, minlon) {
        Err(e) => Err(e),
        Ok(west) => match number_of(b, minlat) {
            Err(e) => Err(e),
            Ok(south) => match number_of(b, maxlon) {
                Err(e) => Err(e),
                Ok(east) => match number_of(b, maxlat) {
                    Err(e) => Err(e),
                    Ok(north) => Ok(BoundsValueV { west, south, east, north }),
                },
            },
        },
    }
}

/// A point that the engine accepts.
pub open spec fn point_of(b: BinderV, p: PointArgV) -> Result<PointValueV, SqlErrorV> {
    match point_numbers(b, p) {
        Err(e) => Err(e),
        Ok(v) => made_point(v, point_refusal(b.catalog.refused_points, v, 0)),
    }
}

/// The kind of geometry that a GeoJSON type names.
pub open spec fn geom_kind(name: Seq<char>) -> Option<GeomKind> {
    if name == "Point"@ {
        Some(GeomKind::Point)
    } else if name == "LineString"@ {
        Some(GeomKind::LineString)
    } else if name == "Polygon"@ {
        Some(GeomKind::Polygon)
    } else if name == "MultiPoint"@ {
        Some(GeomKind::MultiPoint)
    } else if name == "MultiLineString"@ {
        Some(GeomKind::MultiLineString)
    } else if name == "MultiPolygon"@ {
        Some(GeomKind::MultiPolygon)
    } else {
        None
    }
}

/// How many arrays stand around the positions of a kind of geometry.
pub open spec fn position_depth(kind: GeomKind) -> nat {
    match kind {
        GeomKind::Point => 0,
        GeomKind::LineString | GeomKind::MultiPoint => 1,
        GeomKind::Polygon | GeomKind::MultiLineString => 2,
        GeomKind::MultiPolygon => 3,
    }
}

fn depth_of(kind: GeomKind) -> (r: usize)
    ensures
        r == position_depth(kind),
{
    match kind {
        GeomKind::Point => 0,
        GeomKind::LineString => 1,
        GeomKind::MultiPoint => 1,
        GeomKind::Polygon => 2,
        GeomKind::MultiLineString => 2,
        GeomKind::MultiPolygon => 3,
    }
}

/// How deep the coordinates of a geometry are read: three arrays around the
/// positions, and the position itself.
pub const COORDINATE_DEPTH: usize = 4;

/// The coordinates of a geometry: their JSON text, and the value it writes.
#[derive(Debug)]
pub struct Coordinates {
    pub text: String,
    pub value: Json,
}

pub struct CoordinatesV {
    pub text: Seq<char>,
    pub value: JsonV,
}

impl DeepView for Coordinates {
    type V = CoordinatesV;

    open spec fn deep_view(&self) -> CoordinatesV {
        CoordinatesV { text: self.text@, value: self.value.deep_view() }
    }
}

/// A geometry from the `type` and the `coordinates` of its JSON object. A
/// position is two numbers, and each kind has its own nesting of positions.
pub open spec fn geom_from_members(
    kind: Option<Seq<char>>,
    coordinates: Option<CoordinatesV>,
) -> Result<GeomValueV, SqlErrorV> {
    match kind {
        None => Err(SqlErrorV::Parameter("GeoJSON has no `type`"@)),
        Some(name) => match coordinates {
            None => Err(SqlErrorV::Parameter("GeoJSON has no `coordinates`"@)),
            Some(coordinates) => match geom_kind(name) {
                Some(kind) => match position_fault(coordinates.value, position_depth(kind)) {
                    Some(fault) => Err(SqlErrorV::Parameter("GeoJSON coordinates: "@ + fault)),
                    None => Ok(GeomValueV::Json { kind, coordinates: coordinates.text }),
                },
                None => Err(
                    SqlErrorV::Unsupported(
                        "GeoJSON type `"@ + name
                            + "`: the stored geometries are Point, LineString, Polygon and their Multi forms (docs/core/SPATIAL_FUNCTIONS.md)"@,
                    ),
                ),
            },
        },
    }
}

/// A geometry from the `type` and the `coordinates` of its JSON object. The
/// coordinates are kept as JSON text: the numbers in them are read where they
/// are used.
pub fn geom_from_parts(kind: Option<String>, coordinates: Option<Coordinates>) -> (r: Result<
    GeomValue,
    SqlError,
>)
    ensures
        gives(r, geom_from_members(kind.deep_view(), coordinates.deep_view())),
{
    match kind {
        None => Err(SqlError::parameter("GeoJSON has no `type`")),
        Some(name) => match coordinates {
            None => Err(SqlError::parameter("GeoJSON has no `coordinates`")),
            Some(coordinates) => {
                let n = name.as_str();
                let kind = if same(n, "Point") {
                    GeomKind::Point
                } else if same(n, "LineString") {
                    GeomKind::LineString
                } else if same(n, "Polygon") {
                    GeomKind::Polygon
                } else if same(n, "MultiPoint") {
                    GeomKind::MultiPoint
                } else if same(n, "MultiLineString") {
                    GeomKind::MultiLineString
                } else if same(n, "MultiPolygon") {
                    GeomKind::MultiPolygon
                } else {
                    return Err(
                        SqlError::Unsupported(
                            cat3(
                                "GeoJSON type `",
                                n,
                                "`: the stored geometries are Point, LineString, Polygon and their Multi forms (docs/core/SPATIAL_FUNCTIONS.md)",
                            ),
                        ),
                    );
                };
                match fault_in(&coordinates.value, depth_of(kind)) {
                    Some(fault) => Err(
                        SqlError::Parameter(cat2("GeoJSON coordinates: ", fault.as_str())),
                    ),
                    None => Ok(GeomValue::Json { kind, coordinates: coordinates.text }),
                }
            },
        },
    }
}

/// The string that a member of an object holds; one that holds no string
/// counts as absent.
pub open spec fn string_member(node: JsonNodeV, name: Seq<char>) -> Option<Seq<char>> {
    match node.member(name) {
        None => None,
        Some(text) => match json_node(text) {
            Ok(JsonNodeV::Text(s)) => Some(s),
            _ => None,
        },
    }
}

/// The coordinates that a member of an object holds.
pub open spec fn coordinates_member(node: JsonNodeV, name: Seq<char>) -> Result<
    Option<CoordinatesV>,
    Seq<char>,
> {
    match node.member(name) {
        None => Ok(None),
        Some(text) => match json_tree(text, COORDINATE_DEPTH as nat) {
            Err(e) => Err(e),
            Ok(value) => Ok(Some(CoordinatesV { text, value })),
        },
    }
}

/// A geometry from GeoJSON text; `label` stands before the reader's own error.
pub open spec fn geom_from_text(text: Seq<char>, label: Seq<char>) -> Result<
    GeomValueV,
    SqlErrorV,
> {
    match json_node(text) {
        Err(e) => Err(SqlErrorV::Parameter(label + e)),
        Ok(node) => match coordinates_member(node, "coordinates"@) {
            Err(e) => Err(SqlErrorV::Parameter(label + e)),
            Ok(coordinates) => geom_from_members(string_member(node, "type"@), coordinates),
        },
    }
}

fn read_string_member(node: &JsonNode, name: &str) -> (r: Option<String>)
    ensures
        r.deep_view() == string_member(node.deep_view(), name@),
{
    match node.member(name) {
        None => None,
        Some(text) => match read_node(text.as_str()) {
            Ok(JsonNode::Text(s)) => Some(s),
            _ => None,
        },
    }
}

fn read_coordinates(node: &JsonNode, name: &str) -> (r: Result<Option<Coordinates>, String>)
    ensures
        match coordinates_member(node.deep_view(), name@) {
            Ok(c) => r is Ok && r->Ok_0.deep_view() == c,
            Err(e) => r is Err && r->Err_0@ == e,
        },
{
    match node.member(name) {
        None => Ok(None),
        Some(text) => {
            let value = read_tree(text.as_str(), COORDINATE_DEPTH)?;
            Ok(Some(Coordinates { text, value }))
        },
    }
}

pub fn geom_from_json(text: &str, label: &str) -> (r: Result<GeomValue, SqlError>)
    ensures
        gives(r, geom_from_text(text@, label@)),
{
    match read_node(text) {
        Err(e) => Err(SqlError::Parameter(cat2(label, e.as_str()))),
        Ok(node) => match read_coordinates(&node, "coordinates") {
            Err(e) => Err(SqlError::Parameter(cat2(label, e.as_str()))),
            Ok(coordinates) => geom_from_parts(read_string_member(&node, "type"), coordinates),
        },
    }
}

/// The GeoJSON text of a value: a string holds it, anything else is it.
pub open spec fn geojson_text(v: ValueV) -> Seq<char> {
    match v {
        ValueV::Text(text) => text,
        _ => json_text(v),
    }
}

pub fn geojson_of(v: &Value) -> (r: String)
    ensures
        r@ == geojson_text(v.deep_view()),
{
    match v {
        Value::Text(text) => text.clone(),
        _ => v.json(),
    }
}

/// The geometry a spatial predicate compares against.
pub open spec fn geom_of(b: BinderV, g: GeoArgV) -> Result<GeomValueV, SqlErrorV> {
    match g {
        GeoArgV::Point(p) => match point_of(b, p) {
            Err(e) => Err(e),
            Ok(p) => Ok(GeomValueV::Point(p)),
        },
        GeoArgV::Envelope { minlon, minlat, maxlon, maxlat } => match rectangle_of(
            b,
            minlon,
            minlat,
            maxlon,
            maxlat,
        ) {
            Err(e) => Err(e),
            Ok(r) => Ok(GeomValueV::Envelope(r)),
        },
        GeoArgV::GeoJson(l) => match value_of(b, l) {
            Err(e) => Err(e),
            Ok(v) => geom_from_text(geojson_text(v), "GeoJSON: "@),
        },
    }
}

/// The rectangle a point column is compared against, where the engine accepts
/// it.
pub open spec fn bounds_of(b: BinderV, g: GeoArgV) -> Result<BoundsValueV, SqlErrorV> {
    match g {
        GeoArgV::Envelope { minlon, minlat, maxlon, maxlat } => match rectangle_of(
            b,
            minlon,
            minlat,
            maxlon,
            maxlat,
        ) {
            Err(e) => Err(e),
            Ok(r) => made_bounds(r, bounds_refusal(b.catalog.refused_bounds, r, 0)),
        },
        _ => Err(
            SqlErrorV::Unsupported(
                "a rectangle over a Point column is ST_Within(col, ST_MakeEnvelope(...)): PointFilter::Bbox is a lon/lat rectangle and has no other shape"@,
            ),
        ),
    }
}

/// The refusal of a point, where the engine refuses it.
fn refused_point<'c>(list: &'c Vec<RefusedPoint>, p: &PointValue) -> (r: Option<&'c RefusedPoint>)
    ensures
        match r {
            Some(no) => point_refusal(list.deep_view(), p.deep_view(), 0) == Some(no.deep_view()),
            None => point_refusal(list.deep_view(), p.deep_view(), 0) is None,
        },
{
    let ghost all = list.deep_view();
    let lon = bits_of(&p.lon);
    let lat = bits_of(&p.lat);
    let mut i: usize = 0;
    while i < list.len()
        invariant
            i <= list@.len(),
            all == list.deep_view(),
            lon == number_bits(p.deep_view().lon),
            lat == number_bits(p.deep_view().lat),
            point_refusal(all, p.deep_view(), i as nat) == point_refusal(all, p.deep_view(), 0),
        decreases list@.len() - i,
    {
        assert(all[i as int] == list@[i as int].deep_view());
        if list[i].lon.bits == lon && list[i].lat.bits == lat {
            return Some(&list[i]);
        }
        i = i + 1;
    }
    None
}

/// The refusal of a rectangle, where the engine refuses it.
fn refused_bounds<'c>(list: &'c Vec<RefusedBounds>, v: &BoundsValue) -> (r: Option<
    &'c RefusedBounds,
>)
    ensures
        match r {
            Some(no) => bounds_refusal(list.deep_view(), v.deep_view(), 0) == Some(no.deep_view()),
            None => bounds_refusal(list.deep_view(), v.deep_view(), 0) is None,
        },
{
    let ghost all = list.deep_view();
    let west = bits_of(&v.west);
    let south = bits_of(&v.south);
    let east = bits_of(&v.east);
    let north = bits_of(&v.north);
    let mut i: usize = 0;
    while i < list.len()
        invariant
            i <= list@.len(),
            all == list.deep_view(),
            west == number_bits(v.deep_view().west),
            south == number_bits(v.deep_view().south),
            east == number_bits(v.deep_view().east),
            north == number_bits(v.deep_view().north),
            bounds_refusal(all, v.deep_view(), i as nat) == bounds_refusal(all, v.deep_view(), 0),
        decreases list@.len() - i,
    {
        assert(all[i as int] == list@[i as int].deep_view());
        if list[i].west == west && list[i].south == south && list[i].east == east && list[i].north
            == north {
            return Some(&list[i]);
        }
        i = i + 1;
    }
    None
}

/// What a point is read as, by what the engine says of it.
pub fn make_point(p: PointValue, refusal: Option<&RefusedPoint>) -> (r: Result<
    PointValue,
    SqlError,
>)
    ensures
        gives(
            r,
            made_point(
                p.deep_view(),
                match refusal {
                    Some(no) => Some(no.deep_view()),
                    None => None,
                },
            ),
        ),
{
    match refusal {
        Some(no) => Err(
            SqlError::Engine(
                cat6(
                    "ST_MakePoint(",
                    no.lon.shown.as_str(),
                    ", ",
                    no.lat.shown.as_str(),
                    "): ",
                    no.reason.as_str(),
                ),
            ),
        ),
        None => Ok(p),
    }
}

/// What a rectangle is read as, by what the engine says of it.
pub fn make_bounds(v: BoundsValue, refusal: Option<&RefusedBounds>) -> (r: Result<
    BoundsValue,
    SqlError,
>)
    ensures
        gives(
            r,
            made_bounds(
                v.deep_view(),
                match refusal {
                    Some(no) => Some(no.deep_view()),
                    None => None,
                },
            ),
        ),
{
    match refusal {
        Some(no) => Err(SqlError::Engine(cat2("ST_MakeEnvelope: ", no.reason.as_str()))),
        None => Ok(v),
    }
}

impl<'a> Binder<'a> {
    /// The two numbers of a point.
    pub fn point_numbers(&self, point: &PointArg) -> (r: Result<PointValue, SqlError>)
        ensures
            gives(r, point_numbers(self.deep_view(), point.deep_view())),
    {
        let lon = self.f64_of(&point.lon)?;
        let lat = self.f64_of(&point.lat)?;
        Ok(PointValue { lon, lat })
    }

    /// A point that the engine accepts.
    pub fn point_of(&self, point: &PointArg) -> (r: Result<PointValue, SqlError>)
        ensures
            gives(r, point_of(self.deep_view(), point.deep_view())),
    {
        let p = self.point_numbers(point)?;
        let refusal = refused_point(&self.catalog.refused_points, &p);
        make_point(p, refusal)
    }

    /// The four numbers of a rectangle.
    pub fn rectangle(
        &self,
        minlon: &Literal,
        minlat: &Literal,
        maxlon: &Literal,
        maxlat: &Literal,
    ) -> (r: Result<BoundsValue, SqlError>)
        ensures
            gives(
                r,
                rectangle_of(
                    self.deep_view(),
                    minlon.deep_view(),
                    minlat.deep_view(),
                    maxlon.deep_view(),
                    maxlat.deep_view(),
                ),
            ),
    {
        let west = self.f64_of(minlon)?;
        let south = self.f64_of(minlat)?;
        let east = self.f64_of(maxlon)?;
        let north = self.f64_of(maxlat)?;
        Ok(BoundsValue { west, south, east, north })
    }

    pub fn geom_of(&self, argument: &GeoArg) -> (r: Result<GeomValue, SqlError>)
        ensures
            gives(r, geom_of(self.deep_view(), argument.deep_view())),
    {
        match argument {
            GeoArg::Point(p) => Ok(GeomValue::Point(self.point_of(p)?)),
            GeoArg::Envelope { minlon, minlat, maxlon, maxlat } => Ok(
                GeomValue::Envelope(self.rectangle(minlon, minlat, maxlon, maxlat)?),
            ),
            GeoArg::GeoJson(l) => {
                let v = self.value_of(l)?;
                geom_from_json(geojson_of(&v).as_str(), "GeoJSON: ")
            },
        }
    }

    pub fn bounds_of(&self, argument: &GeoArg) -> (r: Result<BoundsValue, SqlError>)
        ensures
            gives(r, bounds_of(self.deep_view(), argument.deep_view())),
    {
        match argument {
            GeoArg::Envelope { minlon, minlat, maxlon, maxlat } => {
                let r = self.rectangle(minlon, minlat, maxlon, maxlat)?;
                let refusal = refused_bounds(&self.catalog.refused_bounds, &r);
                make_bounds(r, refusal)
            },
            _ => Err(
                SqlError::unsupported(
                    "a rectangle over a Point column is ST_Within(col, ST_MakeEnvelope(...)): PointFilter::Bbox is a lon/lat rectangle and has no other shape",
                ),
            ),
        }
    }
}

// ── scalars ──────────────────────────────────────────────────────────────

/// One value inside the declared domain of a column; nothing is coerced.
pub open spec fn scalar_of(b: BinderV, kind: Kind, l: LiteralV, column: Seq<char>) -> Result<
    ScalarV,
    SqlErrorV,
> {
    match value_of(b, l) {
        Err(e) => Err(e),
        Ok(value) => match (kind, value) {
            (Kind::Int, ValueV::Int(n)) => Ok(ScalarV::I64(n)),
            (Kind::Int, ValueV::Real(n)) => Err(
                SqlErrorV::Parameter(
                    "`"@ + column + "` is INT and "@ + n.json + " is not a whole number"@,
                ),
            ),
            (Kind::Real, ValueV::Int(n)) => Ok(ScalarV::F64(NumberV::Int(n))),
            (Kind::Real, ValueV::Real(n)) => Ok(ScalarV::F64(NumberV::Real(n))),
            (Kind::Text, ValueV::Text(s)) => Ok(ScalarV::Text(s)),
            (Kind::Bool, ValueV::Bool(x)) => Ok(ScalarV::Bool(x)),
            _ => Err(
                SqlErrorV::Parameter(
                    "`"@ + column + "` is declared "@ + kind_name(kind) + " and the value is "@
                        + json_text(value)
                        + "; a scalar predicate stays inside the index's declared domain rather than coercing (`ScalarFilter`, src/query/mod.rs)"@,
                ),
            ),
        },
    }
}

/// The value of an edge property, typed by the literal: an edge's properties
/// have no declared kind.
pub open spec fn edge_value(b: BinderV, l: LiteralV, property: Seq<char>) -> Result<
    ScalarV,
    SqlErrorV,
> {
    match value_of(b, l) {
        Err(e) => Err(e),
        Ok(ValueV::Bool(x)) => Ok(ScalarV::Bool(x)),
        Ok(ValueV::Text(s)) => Ok(ScalarV::Text(s)),
        Ok(ValueV::Int(n)) => Ok(ScalarV::I64(n)),
        Ok(ValueV::Real(n)) => Ok(ScalarV::F64(NumberV::Real(n))),
        Ok(ValueV::Null) => Err(
            SqlErrorV::Unsupported(
                "`"@ + property
                    + " = NULL` on an edge element: an absent or null property satisfies no comparison, so the predicate would refuse every edge"@,
            ),
        ),
        Ok(other) => Err(
            SqlErrorV::Unsupported(
                "an edge property compares against a scalar literal, found "@ + json_text(other),
            ),
        ),
    }
}

impl<'a> Binder<'a> {
    pub fn scalar(&self, kind: Kind, literal: &Literal, column: &str) -> (r: Result<
        Scalar,
        SqlError,
    >)
        ensures
            gives(r, scalar_of(self.deep_view(), kind, literal.deep_view(), column@)),
    {
        let value = self.value_of(literal)?;
        match (kind, value) {
            (Kind::Int, Value::Int(n)) => Ok(Scalar::I64(n)),
            (Kind::Int, Value::Real(n)) => Err(
                SqlError::Parameter(
                    cat5("`", column, "` is INT and ", n.json.as_str(), " is not a whole number"),
                ),
            ),
            (Kind::Real, Value::Int(n)) => Ok(Scalar::F64(Number::Int(n))),
            (Kind::Real, Value::Real(n)) => Ok(Scalar::F64(Number::Real(n))),
            (Kind::Text, Value::Text(s)) => Ok(Scalar::Text(s)),
            (Kind::Bool, Value::Bool(x)) => Ok(Scalar::Bool(x)),
            (kind, value) => {
                let head = cat5(
                    "`",
                    column,
                    "` is declared ",
                    kind.named().as_str(),
                    " and the value is ",
                );
                Err(
                    SqlError::Parameter(
                        cat3(
                            head.as_str(),
                            value.json().as_str(),
                            "; a scalar predicate stays inside the index's declared domain rather than coercing (`ScalarFilter`, src/query/mod.rs)",
                        ),
                    ),
                )
            },
        }
    }

    pub fn edge_value(&self, literal: &Literal, property: &str) -> (r: Result<Scalar, SqlError>)
        ensures
            gives(r, edge_value(self.deep_view(), literal.deep_view(), property@)),
    {
        match self.value_of(literal)? {
            Value::Bool(x) => Ok(Scalar::Bool(x)),
            Value::Text(s) => Ok(Scalar::Text(s)),
            Value::Int(n) => Ok(Scalar::I64(n)),
            Value::Real(n) => Ok(Scalar::F64(Number::Real(n))),
            Value::Null => Err(
                SqlError::Unsupported(
                    cat3(
                        "`",
                        property,
                        " = NULL` on an edge element: an absent or null property satisfies no comparison, so the predicate would refuse every edge",
                    ),
                ),
            ),
            other => Err(
                SqlError::Unsupported(
                    cat2(
                        "an edge property compares against a scalar literal, found ",
                        other.json().as_str(),
                    ),
                ),
            ),
        }
    }
}

// ── text queries ─────────────────────────────────────────────────────────

/// The parts of a list that are not empty once trimmed.
pub open spec fn terms_of(parts: Seq<Seq<char>>) -> Seq<Seq<char>>
    decreases parts.len(),
{
    if parts.len() == 0 {
        Seq::empty()
    } else {
        let done = terms_of(parts.drop_last());
        let last = trimmed(parts.last());
        if last.len() == 0 {
            done
        } else {
            done.push(last)
        }
    }
}

pub open spec fn any_holds(parts: Seq<Seq<char>>, c: char) -> bool {
    exists|k: int| 0 <= k < parts.len() && (#[trigger] parts[k]).contains(c)
}

/// A tsquery, as its terms and how they are combined. One operator, a phrase
/// or one term; a tree of operators is refused.
pub open spec fn tsquery_text(text: Seq<char>) -> Result<(Seq<char>, TextMatch), SqlErrorV> {
    let t = trimmed(text);
    let inner = trimmed(strip_back(strip_front(t, '\''), '\''));
    let has_or = t.contains('|');
    let has_and = t.contains('&');
    let terms = terms_of(
        pieces(
            t,
            if has_or {
                '|'
            } else {
                '&'
            },
        ),
    );
    if t.len() >= 2 && t[0] == '"' && t.last() == '"' {
        Ok((trimmed(t.subrange(1, t.len() - 1)), TextMatch::Phrase))
    } else if t.contains('\'') && words_from(inner, 0, false) > 1 {
        Ok((inner, TextMatch::Phrase))
    } else if has_or && has_and {
        Err(
            SqlErrorV::Refused {
                keyword: "tsquery & |"@,
                tier: Tier::Two,
                reason: "QL_CONTRACT §4.6: a tsquery that mixes `&` and `|` is a boolean TREE inside one index's postings; the Tier-1 tsquery is one operator, and a union ACROSS predicates is written with SQL's own OR."@,
            },
        )
    } else if t.contains('!') {
        Err(
            SqlErrorV::Refused {
                keyword: "tsquery !"@,
                tier: Tier::Two,
                reason: "QL_CONTRACT §4.6: a tsquery `!` inside a larger tsquery is a boolean TREE over one index's postings; the Tier-1 spelling is `!term` alone, which is NOT over the text set."@,
            },
        )
    } else if find_from(t, "<->"@, 0) is Some {
        Err(
            SqlErrorV::Refused {
                keyword: "tsquery <->"@,
                tier: Tier::Two,
                reason: "QL_CONTRACT §4.6: a tsquery distance operator is a positional constraint; the Tier-1 phrase atomic is a quoted phrase (TextMatch::Phrase)."@,
            },
        )
    } else if any_holds(terms, ':') {
        Err(
            SqlErrorV::Refused {
                keyword: "tsquery weight"@,
                tier: Tier::Three,
                reason: "QL_CONTRACT §4.6: tsvector weights have no atomic; analyzer v1 stores one weight per token."@,
            },
        )
    } else {
        Ok(
            (
                joined(terms, " "@),
                if has_or || terms.len() == 1 {
                    TextMatch::Any
                } else {
                    TextMatch::All
                },
            ),
        )
    }
}

/// A text query, as its terms and how they are combined.
pub open spec fn tsquery_of(b: BinderV, q: TsQueryV) -> Result<(Seq<char>, TextMatch), SqlErrorV> {
    match text_of(b, q.source) {
        Err(e) => Err(e),
        Ok(text) => if q.fuzzy {
            Ok((text, TextMatch::Search))
        } else if !q.tsquery_syntax {
            Ok((text, TextMatch::Any))
        } else {
            tsquery_text(text)
        },
    }
}

fn terms(parts: &Vec<String>) -> (r: Vec<String>)
    ensures
        texts(r@) == terms_of(texts(parts@)),
{
    let mut out: Vec<String> = Vec::new();
    let ghost all = texts(parts@);
    let mut i: usize = 0;
    assert(texts(out@) =~= terms_of(all.take(0)));
    while i < parts.len()
        invariant
            i <= parts@.len(),
            all == texts(parts@),
            texts(out@) == terms_of(all.take(i as int)),
        decreases parts@.len() - i,
    {
        assert(all.take(i as int + 1).drop_last() =~= all.take(i as int));
        assert(all[i as int] == parts@[i as int]@);
        let term = trim(parts[i].as_str());
        if term.as_str().unicode_len() > 0 {
            let ghost before = out@;
            out.push(term);
            assert(texts(out@) =~= texts(before).push(term@));
        }
        i = i + 1;
    }
    assert(all.take(i as int) =~= all);
    out
}

fn any_with(parts: &Vec<String>, c: char) -> (r: bool)
    ensures
        r == any_holds(texts(parts@), c),
{
    let mut i: usize = 0;
    while i < parts.len()
        invariant
            i <= parts@.len(),
            forall|k: int| 0 <= k < i ==> !(#[trigger] texts(parts@)[k]).contains(c),
        decreases parts@.len() - i,
    {
        assert(texts(parts@)[i as int] == parts@[i as int]@);
        if holds_char(parts[i].as_str(), c) {
            return true;
        }
        i = i + 1;
    }
    false
}

/// Reads a tsquery.
pub fn parse_tsquery(text: &str) -> (r: Result<(String, TextMatch), SqlError>)
    ensures
        gives(r, tsquery_text(text@)),
{
    let t = trim(text);
    let chars = chars_of(t.as_str());
    if chars.len() >= 2 && chars[0] == '"' && chars[chars.len() - 1] == '"' {
        let inner = text_between(&chars, 1, chars.len() - 1);
        return Ok((trim(inner.as_str()), TextMatch::Phrase));
    }
    if holds_char(t.as_str(), '\'') {
        let inner = trim(strip_both(t.as_str(), '\'').as_str());
        if word_count(inner.as_str()) > 1 {
            return Ok((inner, TextMatch::Phrase));
        }
    }
    let has_or = holds_char(t.as_str(), '|');
    let has_and = holds_char(t.as_str(), '&');
    if has_or && has_and {
        return Err(
            SqlError::refused(
                "tsquery & |",
                Tier::Two,
                "QL_CONTRACT §4.6: a tsquery that mixes `&` and `|` is a boolean TREE inside one index's postings; the Tier-1 tsquery is one operator, and a union ACROSS predicates is written with SQL's own OR.",
            ),
        );
    }
    if holds_char(t.as_str(), '!') {
        return Err(
            SqlError::refused(
                "tsquery !",
                Tier::Two,
                "QL_CONTRACT §4.6: a tsquery `!` inside a larger tsquery is a boolean TREE over one index's postings; the Tier-1 spelling is `!term` alone, which is NOT over the text set.",
            ),
        );
    }
    if holds_text(t.as_str(), "<->") {
        return Err(
            SqlError::refused(
                "tsquery <->",
                Tier::Two,
                "QL_CONTRACT §4.6: a tsquery distance operator is a positional constraint; the Tier-1 phrase atomic is a quoted phrase (TextMatch::Phrase).",
            ),
        );
    }
    let parts = split(
        t.as_str(),
        if has_or {
            '|'
        } else {
            '&'
        },
    );
    let list = terms(&parts);
    if any_with(&list, ':') {
        return Err(
            SqlError::refused(
                "tsquery weight",
                Tier::Three,
                "QL_CONTRACT §4.6: tsvector weights have no atomic; analyzer v1 stores one weight per token.",
            ),
        );
    }
    assert(texts(list@).len() == list@.len());
    let matching = if has_or || list.len() == 1 {
        TextMatch::Any
    } else {
        TextMatch::All
    };
    Ok((join(&list, " "), matching))
}

impl<'a> Binder<'a> {
    pub fn tsquery(&self, query: &TsQuery) -> (r: Result<(String, TextMatch), SqlError>)
        ensures
            gives(r, tsquery_of(self.deep_view(), query.deep_view())),
    {
        let text = self.text_of(&query.source)?;
        if query.fuzzy {
            return Ok((text, TextMatch::Search));
        }
        if !query.tsquery_syntax {
            return Ok((text, TextMatch::Any));
        }
        parse_tsquery(text.as_str())
    }
}

// ── slots ────────────────────────────────────────────────────────────────

/// Whether a written value can change from one bind to the next: a parameter,
/// or a subquery, whose value is the database's.
pub open spec fn is_bound(l: LiteralV) -> bool {
    l is Param || l is Subquery
}

pub open spec fn point_bound(p: PointArgV) -> bool {
    is_bound(p.lon) || is_bound(p.lat)
}

pub open spec fn geo_bound(g: GeoArgV) -> bool {
    match g {
        GeoArgV::Point(p) => point_bound(p),
        GeoArgV::Envelope { minlon, minlat, maxlon, maxlat } => is_bound(minlon) || is_bound(minlat)
            || is_bound(maxlon) || is_bound(maxlat),
        GeoArgV::GeoJson(l) => is_bound(l),
    }
}

pub fn literal_is_bound(literal: &Literal) -> (r: bool)
    ensures
        r == is_bound(literal.deep_view()),
{
    match literal {
        Literal::Param(_) => true,
        Literal::Subquery(_) => true,
        _ => false,
    }
}

pub fn point_is_bound(point: &PointArg) -> (r: bool)
    ensures
        r == point_bound(point.deep_view()),
{
    literal_is_bound(&point.lon) || literal_is_bound(&point.lat)
}

pub fn geo_is_bound(argument: &GeoArg) -> (r: bool)
    ensures
        r == geo_bound(argument.deep_view()),
{
    match argument {
        GeoArg::Point(p) => point_is_bound(p),
        GeoArg::Envelope { minlon, minlat, maxlon, maxlat } => literal_is_bound(minlon)
            || literal_is_bound(minlat) || literal_is_bound(maxlon) || literal_is_bound(maxlat),
        GeoArg::GeoJson(l) => literal_is_bound(l),
    }
}

/// A literal without a slot stands for the same value under every binding.
pub proof fn constants_do_not_rebind(a: BinderV, b: BinderV, l: LiteralV)
    requires
        !is_bound(l),
    ensures
        value_of(a, l) == value_of(b, l),
{
}

} // verus!
