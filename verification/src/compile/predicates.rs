//! Predicates: each conjunct of a `WHERE` as a filter that names an index.

use vstd::prelude::*;
use crate::ast::{
    expr_view_parts, time_shape_ok, CmpOp, Expr, ExprV, GeoArg, GeoArgV, Literal, LiteralV,
    Predicate, PredicateV, SpatialPredicate, TimeShape, TimeShapeV, TimeValue, TimeValueV, TsQuery,
    TsQueryV,
};
use crate::compile::bind::{
    bounds_of, geo_bound, geo_is_bound, geom_of, is_bound, literal_is_bound, number_of, point_bound,
    point_is_bound, point_of, scalar_of, text_of, tsquery_of, value_of, Scalar, ScalarV,
};
use crate::compile::env::{
    index_for, kind_of, time_column, Collection, CollectionV, IndexFamily,
};
use crate::compile::log::{logged, Env, EnvV, Log, LogV};
use crate::compile::plan::{
    filter_view_parts, no_slots, Bound, GeomFill, GeomFillV, GeometryFilter, GeometryFilterV, KeyAt,
    KeyFill, KeyFillV, OwnedFilter, OwnedFilterV, OwnedScalarFilter, OwnedScalarFilterV, PointFill,
    PointFillV, PointFilter, PointFilterV, ScalarAt, ScalarFill, ScalarFillV,
};
use crate::compile::ranges::{text_filter, time_filter};
use crate::compile::semi::semi_join;
use crate::error::{gives, SqlError, SqlErrorV};
use crate::lists::{take_all, take_next};
use crate::scan::{find_from, holds_char, holds_text, strip_first, strip_front, trim, trimmed};
use crate::text::{cat2, cat5, chars_of, owned};
use crate::value::{kind_name, Kind, Value};

verus! {

// ── slots ────────────────────────────────────────────────────────────────

/// The slot of a scalar value, where its literal is one.
pub open spec fn scalar_fills(kind: Kind, l: LiteralV, column: Seq<char>, at: ScalarAt) -> Seq<
    ScalarFillV,
> {
    if is_bound(l) {
        seq![ScalarFillV { at, literal: l, kind, column }]
    } else {
        Seq::empty()
    }
}

fn scalar_slot(kind: Kind, literal: &Literal, column: &str, at: ScalarAt) -> (r: Vec<ScalarFill>)
    ensures
        r.deep_view() == scalar_fills(kind, literal.deep_view(), column@, at),
{
    let mut r: Vec<ScalarFill> = Vec::new();
    if literal_is_bound(literal) {
        r.push(ScalarFill { at, literal: literal.dup(), kind, column: owned(column) });
    }
    assert(r.deep_view() =~= scalar_fills(kind, literal.deep_view(), column@, at));
    r
}

/// The slot of a key, where its literal is one.
pub open spec fn key_fills(l: LiteralV, at: KeyAt) -> Seq<KeyFillV> {
    if is_bound(l) {
        seq![KeyFillV { at, literal: l }]
    } else {
        Seq::empty()
    }
}

fn key_slot(literal: &Literal, at: KeyAt) -> (r: Vec<KeyFill>)
    ensures
        r.deep_view() == key_fills(literal.deep_view(), at),
{
    let mut r: Vec<KeyFill> = Vec::new();
    if literal_is_bound(literal) {
        r.push(KeyFill { at, literal: literal.dup() });
    }
    assert(r.deep_view() =~= key_fills(literal.deep_view(), at));
    r
}

fn key_slots(first: &Literal, first_at: KeyAt, second: &Literal, second_at: KeyAt) -> (r: Vec<
    KeyFill,
>)
    ensures
        r.deep_view() == key_fills(first.deep_view(), first_at) + key_fills(
            second.deep_view(),
            second_at,
        ),
{
    let mut r = key_slot(first, first_at);
    let mut more = key_slot(second, second_at);
    let ghost a = r.deep_view();
    let ghost b = more.deep_view();
    r.append(&mut more);
    assert(r.deep_view() =~= a + b);
    r
}

/// The slot of a text query, where its source is one.
pub open spec fn tsquery_fill(q: TsQueryV) -> Option<TsQueryV> {
    if is_bound(q.source) {
        Some(q)
    } else {
        None
    }
}

pub fn tsquery_slot(query: &TsQuery) -> (r: Option<TsQuery>)
    ensures
        r.deep_view() == tsquery_fill(query.deep_view()),
{
    if literal_is_bound(&query.source) {
        Some(query.dup())
    } else {
        None
    }
}

// ── comparisons ──────────────────────────────────────────────────────────

/// Which half of a compiled predicate a comparison's value fills.
pub open spec fn slot_at(op: CmpOp) -> ScalarAt {
    match op {
        CmpOp::Eq | CmpOp::Ne => ScalarAt::Eq,
        CmpOp::Lt | CmpOp::Le => ScalarAt::Upper,
        CmpOp::Gt | CmpOp::Ge => ScalarAt::Lower,
    }
}

fn slot_of(op: CmpOp) -> (r: ScalarAt)
    ensures
        r == slot_at(op),
{
    match op {
        CmpOp::Eq => ScalarAt::Eq,
        CmpOp::Ne => ScalarAt::Eq,
        CmpOp::Lt => ScalarAt::Upper,
        CmpOp::Le => ScalarAt::Upper,
        CmpOp::Gt => ScalarAt::Lower,
        CmpOp::Ge => ScalarAt::Lower,
    }
}

/// What a comparison asks of an index; `<>` is the complement of what `=`
/// asks.
pub open spec fn compared(op: CmpOp, v: ScalarV) -> OwnedScalarFilterV {
    match op {
        CmpOp::Eq | CmpOp::Ne => OwnedScalarFilterV::Eq(v),
        CmpOp::Lt => OwnedScalarFilterV::Range {
            lower: Bound::Unbounded,
            upper: Bound::Excluded(v),
        },
        CmpOp::Le => OwnedScalarFilterV::Range {
            lower: Bound::Unbounded,
            upper: Bound::Included(v),
        },
        CmpOp::Gt => OwnedScalarFilterV::Range {
            lower: Bound::Excluded(v),
            upper: Bound::Unbounded,
        },
        CmpOp::Ge => OwnedScalarFilterV::Range {
            lower: Bound::Included(v),
            upper: Bound::Unbounded,
        },
    }
}

fn comparison(op: CmpOp, v: Scalar) -> (r: OwnedScalarFilter)
    ensures
        r.deep_view() == compared(op, v.deep_view()),
{
    match op {
        CmpOp::Eq => OwnedScalarFilter::Eq(v),
        CmpOp::Ne => OwnedScalarFilter::Eq(v),
        CmpOp::Lt => OwnedScalarFilter::Range {
            lower: Bound::Unbounded,
            upper: Bound::Excluded(v),
        },
        CmpOp::Le => OwnedScalarFilter::Range {
            lower: Bound::Unbounded,
            upper: Bound::Included(v),
        },
        CmpOp::Gt => OwnedScalarFilter::Range {
            lower: Bound::Excluded(v),
            upper: Bound::Unbounded,
        },
        CmpOp::Ge => OwnedScalarFilter::Range {
            lower: Bound::Included(v),
            upper: Bound::Unbounded,
        },
    }
}

/// `column op value`.
pub open spec fn compare_filter(
    env: EnvV,
    c: CollectionV,
    column: Seq<char>,
    op: CmpOp,
    value: LiteralV,
) -> Result<OwnedFilterV, SqlErrorV> {
    match kind_of(c, column) {
        Err(e) => Err(e),
        Ok(kind) => match index_for(c, column, IndexFamily::Scalar, "a scalar index"@) {
            Err(e) => Err(e),
            Ok(index) => match scalar_of(env.binder, kind, value, column) {
                Err(e) => Err(e),
                Ok(v) => {
                    let leaf = OwnedFilterV::Scalar {
                        index,
                        predicate: compared(op, v),
                        fills: scalar_fills(kind, value, column, slot_at(op)),
                    };
                    Ok(
                        if op == CmpOp::Ne {
                            OwnedFilterV::Not(Box::new(leaf))
                        } else {
                            leaf
                        },
                    )
                },
            },
        },
    }
}

/// `column BETWEEN lower AND upper`.
pub open spec fn between_filter(
    env: EnvV,
    c: CollectionV,
    column: Seq<char>,
    lower: LiteralV,
    upper: LiteralV,
) -> Result<OwnedFilterV, SqlErrorV> {
    match kind_of(c, column) {
        Err(e) => Err(e),
        Ok(kind) => match index_for(c, column, IndexFamily::Scalar, "a scalar index"@) {
            Err(e) => Err(e),
            Ok(index) => match scalar_of(env.binder, kind, lower, column) {
                Err(e) => Err(e),
                Ok(low) => match scalar_of(env.binder, kind, upper, column) {
                    Err(e) => Err(e),
                    Ok(high) => Ok(
                        OwnedFilterV::Scalar {
                            index,
                            predicate: OwnedScalarFilterV::Range {
                                lower: Bound::Included(low),
                                upper: Bound::Included(high),
                            },
                            fills: scalar_fills(kind, lower, column, ScalarAt::Lower)
                                + scalar_fills(kind, upper, column, ScalarAt::Upper),
                        },
                    ),
                },
            },
        },
    }
}

/// `IS NULL` and `IS MISSING`, and the complement of the first.
pub open spec fn null_filter(c: CollectionV, column: Seq<char>, missing: bool, negated: bool) -> Result<
    OwnedFilterV,
    SqlErrorV,
> {
    match index_for(c, column, IndexFamily::Scalar, "a scalar index"@) {
        Err(e) => Err(e),
        Ok(index) => {
            let leaf = OwnedFilterV::Scalar {
                index,
                predicate: if missing {
                    OwnedScalarFilterV::IsMissing
                } else {
                    OwnedScalarFilterV::IsNull
                },
                fills: Seq::empty(),
            };
            Ok(
                if negated {
                    OwnedFilterV::Not(Box::new(leaf))
                } else {
                    leaf
                },
            )
        },
    }
}

/// The one-key range, filled at both ends from one literal.
pub open spec fn one_key(key: Seq<char>, fills: Seq<KeyFillV>) -> OwnedFilterV {
    OwnedFilterV::Key { lower: Bound::Included(key), upper: Bound::Included(key), fills }
}

/// A comparison of the external key.
pub open spec fn key_filter(env: EnvV, op: CmpOp, value: LiteralV) -> Result<
    OwnedFilterV,
    SqlErrorV,
> {
    match text_of(env.binder, value) {
        Err(e) => Err(e),
        Ok(key) => Ok(
            match op {
                CmpOp::Eq => one_key(
                    key,
                    key_fills(value, KeyAt::Lower) + key_fills(value, KeyAt::Upper),
                ),
                CmpOp::Ne => OwnedFilterV::Not(
                    Box::new(
                        one_key(
                            key,
                            key_fills(value, KeyAt::Lower) + key_fills(value, KeyAt::Upper),
                        ),
                    ),
                ),
                CmpOp::Lt => OwnedFilterV::Key {
                    lower: Bound::Unbounded,
                    upper: Bound::Excluded(key),
                    fills: key_fills(value, KeyAt::Upper),
                },
                CmpOp::Le => OwnedFilterV::Key {
                    lower: Bound::Unbounded,
                    upper: Bound::Included(key),
                    fills: key_fills(value, KeyAt::Upper),
                },
                CmpOp::Gt => OwnedFilterV::Key {
                    lower: Bound::Excluded(key),
                    upper: Bound::Unbounded,
                    fills: key_fills(value, KeyAt::Lower),
                },
                CmpOp::Ge => OwnedFilterV::Key {
                    lower: Bound::Included(key),
                    upper: Bound::Unbounded,
                    fills: key_fills(value, KeyAt::Lower),
                },
            },
        ),
    }
}

pub open spec fn key_between_filter(env: EnvV, lower: LiteralV, upper: LiteralV) -> Result<
    OwnedFilterV,
    SqlErrorV,
> {
    match text_of(env.binder, lower) {
        Err(e) => Err(e),
        Ok(low) => match text_of(env.binder, upper) {
            Err(e) => Err(e),
            Ok(high) => Ok(
                OwnedFilterV::Key {
                    lower: Bound::Included(low),
                    upper: Bound::Included(high),
                    fills: key_fills(lower, KeyAt::Lower) + key_fills(upper, KeyAt::Upper),
                },
            ),
        },
    }
}

// ── lists ────────────────────────────────────────────────────────────────

/// One equality for each value of a list.
pub open spec fn in_leaves(
    env: EnvV,
    kind: Kind,
    index: u64,
    column: Seq<char>,
    values: Seq<LiteralV>,
) -> Result<Seq<OwnedFilterV>, SqlErrorV>
    decreases values.len(),
{
    if values.len() == 0 {
        Ok(Seq::empty())
    } else {
        match in_leaves(env, kind, index, column, values.drop_last()) {
            Err(e) => Err(e),
            Ok(done) => match scalar_of(env.binder, kind, values.last(), column) {
                Err(e) => Err(e),
                Ok(v) => Ok(
                    done.push(
                        OwnedFilterV::Scalar {
                            index,
                            predicate: OwnedScalarFilterV::Eq(v),
                            fills: scalar_fills(kind, values.last(), column, ScalarAt::Eq),
                        },
                    ),
                ),
            },
        }
    }
}

/// One one-key range for each value of a list.
pub open spec fn key_leaves(env: EnvV, values: Seq<LiteralV>) -> Result<
    Seq<OwnedFilterV>,
    SqlErrorV,
>
    decreases values.len(),
{
    if values.len() == 0 {
        Ok(Seq::empty())
    } else {
        match key_leaves(env, values.drop_last()) {
            Err(e) => Err(e),
            Ok(done) => match text_of(env.binder, values.last()) {
                Err(e) => Err(e),
                Ok(key) => Ok(
                    done.push(
                        one_key(
                            key,
                            key_fills(values.last(), KeyAt::Upper) + key_fills(
                                values.last(),
                                KeyAt::Lower,
                            ),
                        ),
                    ),
                ),
            },
        }
    }
}

/// A union of leaves; one leaf is itself.
pub open spec fn union_of(leaves: Seq<OwnedFilterV>) -> OwnedFilterV {
    if leaves.len() == 1 {
        leaves[0]
    } else {
        OwnedFilterV::Any(leaves)
    }
}

proof fn in_leaves_stop(
    env: EnvV,
    kind: Kind,
    index: u64,
    column: Seq<char>,
    values: Seq<LiteralV>,
    n: int,
)
    requires
        0 <= n <= values.len(),
        in_leaves(env, kind, index, column, values.take(n)) is Err,
    ensures
        in_leaves(env, kind, index, column, values) == in_leaves(
            env,
            kind,
            index,
            column,
            values.take(n),
        ),
    decreases values.len() - n,
{
    if n < values.len() {
        take_next(values, n);
        in_leaves_stop(env, kind, index, column, values, n + 1);
    } else {
        take_all(values);
    }
}

proof fn key_leaves_stop(env: EnvV, values: Seq<LiteralV>, n: int)
    requires
        0 <= n <= values.len(),
        key_leaves(env, values.take(n)) is Err,
    ensures
        key_leaves(env, values) == key_leaves(env, values.take(n)),
    decreases values.len() - n,
{
    if n < values.len() {
        take_next(values, n);
        key_leaves_stop(env, values, n + 1);
    } else {
        take_all(values);
    }
}

/// A list of filters.
#[derive(Debug)]
pub struct Filters {
    pub list: Vec<OwnedFilter>,
}

impl DeepView for Filters {
    type V = Seq<OwnedFilterV>;

    open spec fn deep_view(&self) -> Seq<OwnedFilterV> {
        self.list.deep_view()
    }
}

fn complement(f: OwnedFilter) -> (r: OwnedFilter)
    ensures
        r.deep_view() == OwnedFilterV::Not(Box::new(f.deep_view())),
{
    OwnedFilter::Not(Box::new(f))
}

fn union(leaves: Filters) -> (r: OwnedFilter)
    ensures
        r.deep_view() == union_of(leaves.deep_view()),
{
    let mut list = leaves.list;
    if list.len() == 1 {
        assert(list@[0].deep_view() == leaves.deep_view()[0]);
        return list.swap_remove(0);
    }
    proof {
        filter_view_parts(list);
    }
    OwnedFilter::Any(list)
}

// ── text ─────────────────────────────────────────────────────────────────

/// Whether a tsquery is a bare `!term`: one `!`, at its front, and no other
/// operator.
pub open spec fn is_negated(text: Seq<char>) -> bool {
    let t = trimmed(text);
    t.len() > 0 && t[0] == '!' && !t.drop_first().contains('!') && !t.contains('|')
        && !t.contains('&') && find_from(t, "<->"@, 0) is None
}

fn negated_text(text: &str) -> (r: bool)
    ensures
        r == is_negated(text@),
{
    let t = trim(text);
    let chars = chars_of(t.as_str());
    if chars.len() == 0 || chars[0] != '!' {
        return false;
    }
    let rest = crate::text::text_between(&chars, 1, chars.len());
    assert(rest@ =~= t@.drop_first());
    !holds_char(rest.as_str(), '!') && !holds_char(t.as_str(), '|') && !holds_char(
        t.as_str(),
        '&',
    ) && !holds_text(t.as_str(), "<->")
}

/// What a `!term` names behind its `!`.
pub open spec fn negated_term(text: Seq<char>) -> Seq<char> {
    trimmed(strip_front(trimmed(text), '!'))
}

/// One text query as a leaf. The words of a `search()` are also what
/// `search_score()` scores, so they are folded and not a slot.
pub open spec fn text_leaf(
    env: EnvV,
    c: CollectionV,
    column: Seq<char>,
    q: TsQueryV,
    log: LogV,
) -> Result<(OwnedFilterV, LogV), SqlErrorV> {
    match index_for(c, column, IndexFamily::Text, "a text index"@) {
        Err(e) => Err(e),
        Ok(index) => match tsquery_of(env.binder, q) {
            Err(e) => Err(e),
            Ok((query, matching)) => if q.fuzzy {
                Ok(
                    (
                        OwnedFilterV::Text { index, query, matching, fill: None },
                        log.folded(
                            q.source,
                            "a search(), whose words search_score() scores"@,
                        ).searched(index, query),
                    ),
                )
            } else {
                Ok((OwnedFilterV::Text { index, query, matching, fill: tsquery_fill(q) }, log))
            },
        },
    }
}

/// A text predicate: a leaf, or the complement of one.
pub open spec fn text_predicate(
    env: EnvV,
    c: CollectionV,
    column: Seq<char>,
    q: TsQueryV,
    log: LogV,
) -> Result<(OwnedFilterV, LogV), SqlErrorV> {
    if !q.tsquery_syntax {
        text_leaf(env, c, column, q, log)
    } else {
        match text_of(env.binder, q.source) {
            Err(e) => Err(e),
            Ok(text) => if is_negated(text) {
                match text_leaf(
                    env,
                    c,
                    column,
                    TsQueryV {
                        source: LiteralV::Str(negated_term(text)),
                        tsquery_syntax: q.tsquery_syntax,
                        fuzzy: q.fuzzy,
                    },
                    log.folded(
                        q.source,
                        "a `!term` tsquery, whose complement shape is decided by the value"@,
                    ),
                ) {
                    Err(e) => Err(e),
                    Ok((leaf, log)) => Ok((OwnedFilterV::Not(Box::new(leaf)), log)),
                }
            } else {
                text_leaf(env, c, column, q, log)
            },
        }
    }
}

// ── geometry ─────────────────────────────────────────────────────────────

pub open spec fn spatial_name(p: SpatialPredicate) -> Seq<char> {
    match p {
        SpatialPredicate::DWithin => "DWithin"@,
        SpatialPredicate::Intersects => "Intersects"@,
        SpatialPredicate::Within => "Within"@,
        SpatialPredicate::Contains => "Contains"@,
    }
}

fn spatial_named(p: SpatialPredicate) -> (r: &'static str)
    ensures
        r@ == spatial_name(p),
{
    match p {
        SpatialPredicate::DWithin => "DWithin",
        SpatialPredicate::Intersects => "Intersects",
        SpatialPredicate::Within => "Within",
        SpatialPredicate::Contains => "Contains",
    }
}

/// A spatial predicate over a point column: a radius or a rectangle.
pub open spec fn point_predicate(
    env: EnvV,
    c: CollectionV,
    predicate: SpatialPredicate,
    column: Seq<char>,
    argument: GeoArgV,
    metres: Option<LiteralV>,
) -> Result<OwnedFilterV, SqlErrorV> {
    match index_for(c, column, IndexFamily::SpatialPoint, "a point index"@) {
        Err(e) => Err(e),
        Ok(index) => match predicate {
            SpatialPredicate::DWithin => match argument {
                GeoArgV::Point(point) => match metres {
                    None => Err(
                        SqlErrorV::Syntax { message: "ST_DWithin needs a distance"@, at: 0 },
                    ),
                    Some(metres) => match point_of(env.binder, point) {
                        Err(e) => Err(e),
                        Ok(center) => match number_of(env.binder, metres) {
                            Err(e) => Err(e),
                            Ok(radius_metres) => Ok(
                                OwnedFilterV::Point {
                                    index,
                                    predicate: PointFilterV::Radius { center, radius_metres },
                                    fill: if point_bound(point) || is_bound(metres) {
                                        Some(PointFillV::Radius { center: point, metres })
                                    } else {
                                        None
                                    },
                                },
                            ),
                        },
                    },
                },
                _ => Err(
                    SqlErrorV::Unsupported(
                        "ST_DWithin on a Point column takes a point: PointFilter::Radius is a centre and a radius"@,
                    ),
                ),
            },
            SpatialPredicate::Within => match bounds_of(env.binder, argument) {
                Err(e) => Err(e),
                Ok(bounds) => Ok(
                    OwnedFilterV::Point {
                        index,
                        predicate: PointFilterV::Bbox(bounds),
                        fill: if geo_bound(argument) {
                            Some(PointFillV::Bbox(argument))
                        } else {
                            None
                        },
                    },
                ),
            },
            other => Err(
                SqlErrorV::Unsupported(
                    spatial_name(other)
                        + " on a Point column: the point atomics are PointFilter::Bbox (ST_Within against an envelope) and PointFilter::Radius (ST_DWithin)"@,
                ),
            ),
        },
    }
}

/// A spatial predicate over a geometry column.
pub open spec fn geometry_predicate(
    env: EnvV,
    c: CollectionV,
    predicate: SpatialPredicate,
    column: Seq<char>,
    argument: GeoArgV,
    metres: Option<LiteralV>,
) -> Result<OwnedFilterV, SqlErrorV> {
    match index_for(c, column, IndexFamily::SpatialGeometry, "a geometry index"@) {
        Err(e) => Err(e),
        Ok(index) => match geom_of(env.binder, argument) {
            Err(e) => Err(e),
            Ok(geometry) => {
                let compiled: Result<GeometryFilterV, SqlErrorV> = match predicate {
                    SpatialPredicate::DWithin => match metres {
                        None => Err(
                            SqlErrorV::Syntax { message: "ST_DWithin needs a distance"@, at: 0 },
                        ),
                        Some(m) => match number_of(env.binder, m) {
                            Err(e) => Err(e),
                            Ok(metres) => Ok(GeometryFilterV::DWithin { geometry, metres }),
                        },
                    },
                    SpatialPredicate::Intersects => Ok(GeometryFilterV::Intersects(geometry)),
                    SpatialPredicate::Within => Ok(GeometryFilterV::Within(geometry)),
                    SpatialPredicate::Contains => Ok(GeometryFilterV::Contains(geometry)),
                };
                let bound = geo_bound(argument) || (predicate == SpatialPredicate::DWithin
                    && metres is Some && is_bound(metres->0));
                match compiled {
                    Err(e) => Err(e),
                    Ok(compiled) => Ok(
                        OwnedFilterV::Geometry {
                            index,
                            predicate: compiled,
                            fill: if bound {
                                Some(GeomFillV { predicate, argument, metres })
                            } else {
                                None
                            },
                        },
                    ),
                }
            },
        },
    }
}

pub open spec fn spatial_filter(
    env: EnvV,
    c: CollectionV,
    predicate: SpatialPredicate,
    column: Seq<char>,
    argument: GeoArgV,
    metres: Option<LiteralV>,
) -> Result<OwnedFilterV, SqlErrorV> {
    match kind_of(c, column) {
        Err(e) => Err(e),
        Ok(Kind::Point) => point_predicate(env, c, predicate, column, argument, metres),
        Ok(Kind::Geo) => geometry_predicate(env, c, predicate, column, argument, metres),
        Ok(other) => Err(
            SqlErrorV::Unsupported(
                "`"@ + column + "` is declared "@ + kind_name(other)
                    + "; a spatial predicate needs a Point or a Geo column"@,
            ),
        ),
    }
}

// ── one predicate ────────────────────────────────────────────────────────

/// The outcome of a step that says nothing on the side.
pub open spec fn quiet(r: Result<OwnedFilterV, SqlErrorV>, log: LogV) -> Result<
    (OwnedFilterV, LogV),
    SqlErrorV,
> {
    match r {
        Ok(f) => Ok((f, log)),
        Err(e) => Err(e),
    }
}

/// Whether a comparison with `l` over `column` is one of instants: the column
/// is a declared instant and the value is text.
pub open spec fn is_time_literal(
    env: EnvV,
    c: CollectionV,
    column: Seq<char>,
    l: LiteralV,
) -> Result<bool, SqlErrorV> {
    match time_column(c, column) {
        Err(e) => Err(e),
        Ok(None) => Ok(false),
        Ok(Some(_)) => match value_of(env.binder, l) {
            Err(e) => Err(e),
            Ok(v) => Ok(v is Text),
        },
    }
}

pub open spec fn constant_error() -> SqlErrorV {
    SqlErrorV::Unsupported(
        "a constant predicate inside OR or NOT: it names no index, so there is no membership set to combine; at the top of the WHERE it is folded"@,
    )
}

/// One predicate as a filter over collection `c`.
#[verifier::opaque]
pub open spec fn filter_of(env: EnvV, c: CollectionV, p: PredicateV, log: LogV) -> Result<
    (OwnedFilterV, LogV),
    SqlErrorV,
> {
    match p {
        PredicateV::Constant(_) => Err(constant_error()),
        PredicateV::Compare { column, op, value } => match is_time_literal(env, c, column, value) {
            Err(e) => Err(e),
            Ok(true) => time_filter(
                env,
                c,
                column,
                TimeShapeV::Clock { op, value: TimeValueV::Lit(value) },
                log,
            ),
            Ok(false) => quiet(compare_filter(env, c, column, op, value), log),
        },
        PredicateV::Between { column, lower, upper } => match is_time_literal(
            env,
            c,
            column,
            lower,
        ) {
            Err(e) => Err(e),
            Ok(true) => time_filter(
                env,
                c,
                column,
                TimeShapeV::ClockBetween {
                    lower: TimeValueV::Lit(lower),
                    upper: TimeValueV::Lit(upper),
                },
                log,
            ),
            Ok(false) => quiet(between_filter(env, c, column, lower, upper), log),
        },
        PredicateV::IsNull { column, negated } => quiet(
            null_filter(c, column, false, negated),
            log,
        ),
        PredicateV::IsMissing { column } => quiet(null_filter(c, column, true, false), log),
        PredicateV::KeyCompare { op, value } => quiet(key_filter(env, op, value), log),
        PredicateV::KeyBetween { lower, upper } => quiet(key_between_filter(env, lower, upper), log),
        PredicateV::InList { column, values } => match kind_of(c, column) {
            Err(e) => Err(e),
            Ok(kind) => match index_for(c, column, IndexFamily::Scalar, "a scalar index"@) {
                Err(e) => Err(e),
                Ok(index) => match in_leaves(env, kind, index, column, values) {
                    Err(e) => Err(e),
                    Ok(leaves) => Ok((union_of(leaves), log)),
                },
            },
        },
        PredicateV::KeyInList { values } => match key_leaves(env, values) {
            Err(e) => Err(e),
            Ok(leaves) => Ok((union_of(leaves), log)),
        },
        PredicateV::Semi { table, column } => match semi_join(env, c, table, column, log) {
            Err(e) => Err(e),
            Ok((ids, log)) => Ok((OwnedFilterV::Ids(ids), log)),
        },
        PredicateV::Text { column, query } => text_predicate(env, c, column, query, log),
        PredicateV::Spatial { predicate, column, argument, metres } => quiet(
            spatial_filter(env, c, predicate, column, argument, metres),
            log,
        ),
        PredicateV::Time { column, shape } => time_filter(env, c, column, shape, log),
        PredicateV::TextFn { column, shape } => text_filter(env, c, column, shape, log),
    }
}

/// Every clock offset of a predicate can be negated.
pub open spec fn predicate_ok(p: PredicateV) -> bool {
    match p {
        PredicateV::Time { shape, .. } => time_shape_ok(shape),
        _ => true,
    }
}

impl<'a> Env<'a> {
    fn compare_filter(&self, c: &Collection, column: &str, op: CmpOp, value: &Literal) -> (r:
        Result<OwnedFilter, SqlError>)
        ensures
            gives(
                r,
                compare_filter(self.deep_view(), c.deep_view(), column@, op, value.deep_view()),
            ),
    {
        let kind = c.kind_of(column)?;
        let index = c.index_for(column, IndexFamily::Scalar, "a scalar index")?;
        let v = self.binder.scalar(kind, value, column)?;
        let leaf = OwnedFilter::Scalar {
            index,
            predicate: comparison(op, v),
            fills: scalar_slot(kind, value, column, slot_of(op)),
        };
        if op == CmpOp::Ne {
            Ok(complement(leaf))
        } else {
            Ok(leaf)
        }
    }

    fn between_filter(&self, c: &Collection, column: &str, lower: &Literal, upper: &Literal) -> (r:
        Result<OwnedFilter, SqlError>)
        ensures
            gives(
                r,
                between_filter(
                    self.deep_view(),
                    c.deep_view(),
                    column@,
                    lower.deep_view(),
                    upper.deep_view(),
                ),
            ),
    {
        let kind = c.kind_of(column)?;
        let index = c.index_for(column, IndexFamily::Scalar, "a scalar index")?;
        let low = self.binder.scalar(kind, lower, column)?;
        let high = self.binder.scalar(kind, upper, column)?;
        let mut fills = scalar_slot(kind, lower, column, ScalarAt::Lower);
        let mut more = scalar_slot(kind, upper, column, ScalarAt::Upper);
        let ghost a = fills.deep_view();
        let ghost b = more.deep_view();
        fills.append(&mut more);
        assert(fills.deep_view() =~= a + b);
        Ok(
            OwnedFilter::Scalar {
                index,
                predicate: OwnedScalarFilter::Range {
                    lower: Bound::Included(low),
                    upper: Bound::Included(high),
                },
                fills,
            },
        )
    }

    fn null_filter(&self, c: &Collection, column: &str, missing: bool, negated: bool) -> (r: Result<
        OwnedFilter,
        SqlError,
    >)
        ensures
            gives(r, null_filter(c.deep_view(), column@, missing, negated)),
    {
        let index = c.index_for(column, IndexFamily::Scalar, "a scalar index")?;
        let leaf = OwnedFilter::Scalar {
            index,
            predicate: if missing {
                OwnedScalarFilter::IsMissing
            } else {
                OwnedScalarFilter::IsNull
            },
            fills: no_slots(),
        };
        if negated {
            Ok(complement(leaf))
        } else {
            Ok(leaf)
        }
    }

    fn key_filter(&self, op: CmpOp, value: &Literal) -> (r: Result<OwnedFilter, SqlError>)
        ensures
            gives(r, key_filter(self.deep_view(), op, value.deep_view())),
    {
        let key = self.binder.text_of(value)?;
        Ok(
            match op {
                CmpOp::Eq => OwnedFilter::Key {
                    lower: Bound::Included(key.clone()),
                    upper: Bound::Included(key),
                    fills: key_slots(value, KeyAt::Lower, value, KeyAt::Upper),
                },
                CmpOp::Ne => complement(
                    OwnedFilter::Key {
                        lower: Bound::Included(key.clone()),
                        upper: Bound::Included(key),
                        fills: key_slots(value, KeyAt::Lower, value, KeyAt::Upper),
                    },
                ),
                CmpOp::Lt => OwnedFilter::Key {
                    lower: Bound::Unbounded,
                    upper: Bound::Excluded(key),
                    fills: key_slot(value, KeyAt::Upper),
                },
                CmpOp::Le => OwnedFilter::Key {
                    lower: Bound::Unbounded,
                    upper: Bound::Included(key),
                    fills: key_slot(value, KeyAt::Upper),
                },
                CmpOp::Gt => OwnedFilter::Key {
                    lower: Bound::Excluded(key),
                    upper: Bound::Unbounded,
                    fills: key_slot(value, KeyAt::Lower),
                },
                CmpOp::Ge => OwnedFilter::Key {
                    lower: Bound::Included(key),
                    upper: Bound::Unbounded,
                    fills: key_slot(value, KeyAt::Lower),
                },
            },
        )
    }

    fn key_between_filter(&self, lower: &Literal, upper: &Literal) -> (r: Result<
        OwnedFilter,
        SqlError,
    >)
        ensures
            gives(r, key_between_filter(self.deep_view(), lower.deep_view(), upper.deep_view())),
    {
        let low = self.binder.text_of(lower)?;
        let high = self.binder.text_of(upper)?;
        Ok(
            OwnedFilter::Key {
                lower: Bound::Included(low),
                upper: Bound::Included(high),
                fills: key_slots(lower, KeyAt::Lower, upper, KeyAt::Upper),
            },
        )
    }

    fn in_leaves(&self, kind: Kind, index: u64, column: &str, values: &Vec<Literal>) -> (r: Result<
        Filters,
        SqlError,
    >)
        ensures
            gives(r, in_leaves(self.deep_view(), kind, index, column@, values.deep_view())),
    {
        let ghost all = values.deep_view();
        let mut list: Vec<OwnedFilter> = Vec::new();
        let mut i: usize = 0;
        assert(all.take(0) =~= Seq::<LiteralV>::empty());
        assert(list.deep_view() =~= Seq::<OwnedFilterV>::empty());
        while i < values.len()
            invariant
                i <= values@.len(),
                all == values.deep_view(),
                in_leaves(self.deep_view(), kind, index, column@, all.take(i as int)) == Ok::<
                    Seq<OwnedFilterV>,
                    SqlErrorV,
                >(list.deep_view()),
            decreases values@.len() - i,
        {
            proof {
                take_next(all, i as int);
            }
            match self.binder.scalar(kind, &values[i], column) {
                Err(e) => {
                    proof {
                        in_leaves_stop(self.deep_view(), kind, index, column@, all, i as int + 1);
                    }
                    return Err(e);
                },
                Ok(v) => {
                    let leaf = OwnedFilter::Scalar {
                        index,
                        predicate: OwnedScalarFilter::Eq(v),
                        fills: scalar_slot(kind, &values[i], column, ScalarAt::Eq),
                    };
                    let ghost before = list.deep_view();
                    list.push(leaf);
                    assert(list.deep_view() =~= before.push(leaf.deep_view()));
                },
            }
            i = i + 1;
        }
        proof {
            take_all(all);
        }
        Ok(Filters { list })
    }

    fn key_leaves(&self, values: &Vec<Literal>) -> (r: Result<Filters, SqlError>)
        ensures
            gives(r, key_leaves(self.deep_view(), values.deep_view())),
    {
        let ghost all = values.deep_view();
        let mut list: Vec<OwnedFilter> = Vec::new();
        let mut i: usize = 0;
        assert(all.take(0) =~= Seq::<LiteralV>::empty());
        assert(list.deep_view() =~= Seq::<OwnedFilterV>::empty());
        while i < values.len()
            invariant
                i <= values@.len(),
                all == values.deep_view(),
                key_leaves(self.deep_view(), all.take(i as int)) == Ok::<
                    Seq<OwnedFilterV>,
                    SqlErrorV,
                >(list.deep_view()),
            decreases values@.len() - i,
        {
            proof {
                take_next(all, i as int);
            }
            match self.binder.text_of(&values[i]) {
                Err(e) => {
                    proof {
                        key_leaves_stop(self.deep_view(), all, i as int + 1);
                    }
                    return Err(e);
                },
                Ok(key) => {
                    let leaf = OwnedFilter::Key {
                        lower: Bound::Included(key.clone()),
                        upper: Bound::Included(key),
                        fills: key_slots(&values[i], KeyAt::Upper, &values[i], KeyAt::Lower),
                    };
                    let ghost before = list.deep_view();
                    list.push(leaf);
                    assert(list.deep_view() =~= before.push(leaf.deep_view()));
                },
            }
            i = i + 1;
        }
        proof {
            take_all(all);
        }
        Ok(Filters { list })
    }

    fn text_leaf(&self, c: &Collection, column: &str, query: &TsQuery, log: &mut Log) -> (r: Result<
        OwnedFilter,
        SqlError,
    >)
        ensures
            logged(
                r,
                *final(log),
                text_leaf(
                    self.deep_view(),
                    c.deep_view(),
                    column@,
                    query.deep_view(),
                    old(log).deep_view(),
                ),
            ),
    {
        let index = c.index_for(column, IndexFamily::Text, "a text index")?;
        let (text, matching) = self.binder.tsquery(query)?;
        if query.fuzzy {
            log.folds(&query.source, "a search(), whose words search_score() scores");
            log.searched(index, text.as_str());
            Ok(OwnedFilter::Text { index, query: text, matching, fill: None })
        } else {
            Ok(OwnedFilter::Text { index, query: text, matching, fill: tsquery_slot(query) })
        }
    }

    fn text_predicate(&self, c: &Collection, column: &str, query: &TsQuery, log: &mut Log) -> (r:
        Result<OwnedFilter, SqlError>)
        ensures
            logged(
                r,
                *final(log),
                text_predicate(
                    self.deep_view(),
                    c.deep_view(),
                    column@,
                    query.deep_view(),
                    old(log).deep_view(),
                ),
            ),
    {
        if !query.tsquery_syntax {
            return self.text_leaf(c, column, query, log);
        }
        let text = self.binder.text_of(&query.source)?;
        if !negated_text(text.as_str()) {
            return self.text_leaf(c, column, query, log);
        }
        log.folds(
            &query.source,
            "a `!term` tsquery, whose complement shape is decided by the value",
        );
        let term = trim(strip_first(trim(text.as_str()).as_str(), '!').as_str());
        let stripped = TsQuery {
            source: Literal::Str(term),
            tsquery_syntax: query.tsquery_syntax,
            fuzzy: query.fuzzy,
        };
        let leaf = self.text_leaf(c, column, &stripped, log)?;
        Ok(complement(leaf))
    }

    fn point_predicate(
        &self,
        c: &Collection,
        predicate: SpatialPredicate,
        column: &str,
        argument: &GeoArg,
        metres: &Option<Literal>,
    ) -> (r: Result<OwnedFilter, SqlError>)
        ensures
            gives(
                r,
                point_predicate(
                    self.deep_view(),
                    c.deep_view(),
                    predicate,
                    column@,
                    argument.deep_view(),
                    metres.deep_view(),
                ),
            ),
    {
        let index = c.index_for(column, IndexFamily::SpatialPoint, "a point index")?;
        match predicate {
            SpatialPredicate::DWithin => match argument {
                GeoArg::Point(point) => match metres {
                    None => Err(SqlError::syntax("ST_DWithin needs a distance", 0)),
                    Some(metres) => {
                        let center = self.binder.point_of(point)?;
                        let radius_metres = self.binder.f64_of(metres)?;
                        let fill = if point_is_bound(point) || literal_is_bound(metres) {
                            Some(PointFill::Radius { center: point.dup(), metres: metres.dup() })
                        } else {
                            None
                        };
                        Ok(
                            OwnedFilter::Point {
                                index,
                                predicate: PointFilter::Radius { center, radius_metres },
                                fill,
                            },
                        )
                    },
                },
                _ => Err(
                    SqlError::unsupported(
                        "ST_DWithin on a Point column takes a point: PointFilter::Radius is a centre and a radius",
                    ),
                ),
            },
            SpatialPredicate::Within => {
                let bounds = self.binder.bounds_of(argument)?;
                let fill = if geo_is_bound(argument) {
                    Some(PointFill::Bbox(argument.dup()))
                } else {
                    None
                };
                Ok(OwnedFilter::Point { index, predicate: PointFilter::Bbox(bounds), fill })
            },
            other => Err(
                SqlError::Unsupported(
                    cat2(
                        spatial_named(other),
                        " on a Point column: the point atomics are PointFilter::Bbox (ST_Within against an envelope) and PointFilter::Radius (ST_DWithin)",
                    ),
                ),
            ),
        }
    }

    fn geometry_predicate(
        &self,
        c: &Collection,
        predicate: SpatialPredicate,
        column: &str,
        argument: &GeoArg,
        metres: &Option<Literal>,
    ) -> (r: Result<OwnedFilter, SqlError>)
        ensures
            gives(
                r,
                geometry_predicate(
                    self.deep_view(),
                    c.deep_view(),
                    predicate,
                    column@,
                    argument.deep_view(),
                    metres.deep_view(),
                ),
            ),
    {
        let index = c.index_for(column, IndexFamily::SpatialGeometry, "a geometry index")?;
        let geometry = self.binder.geom_of(argument)?;
        let mut bound = geo_is_bound(argument);
        let compiled = match predicate {
            SpatialPredicate::DWithin => match metres {
                None => return Err(SqlError::syntax("ST_DWithin needs a distance", 0)),
                Some(m) => {
                    bound = bound || literal_is_bound(m);
                    GeometryFilter::DWithin { geometry, metres: self.binder.f64_of(m)? }
                },
            },
            SpatialPredicate::Intersects => GeometryFilter::Intersects(geometry),
            SpatialPredicate::Within => GeometryFilter::Within(geometry),
            SpatialPredicate::Contains => GeometryFilter::Contains(geometry),
        };
        let fill = if bound {
            let written = match metres {
                Some(m) => Some(m.dup()),
                None => None,
            };
            Some(GeomFill { predicate, argument: argument.dup(), metres: written })
        } else {
            None
        };
        Ok(OwnedFilter::Geometry { index, predicate: compiled, fill })
    }

    fn spatial(
        &self,
        c: &Collection,
        predicate: SpatialPredicate,
        column: &str,
        argument: &GeoArg,
        metres: &Option<Literal>,
    ) -> (r: Result<OwnedFilter, SqlError>)
        ensures
            gives(
                r,
                spatial_filter(
                    self.deep_view(),
                    c.deep_view(),
                    predicate,
                    column@,
                    argument.deep_view(),
                    metres.deep_view(),
                ),
            ),
    {
        match c.kind_of(column)? {
            Kind::Point => self.point_predicate(c, predicate, column, argument, metres),
            Kind::Geo => self.geometry_predicate(c, predicate, column, argument, metres),
            other => Err(
                SqlError::Unsupported(
                    cat5(
                        "`",
                        column,
                        "` is declared ",
                        other.named().as_str(),
                        "; a spatial predicate needs a Point or a Geo column",
                    ),
                ),
            ),
        }
    }

    fn is_time_literal(&self, c: &Collection, column: &str, literal: &Literal) -> (r: Result<
        bool,
        SqlError,
    >)
        ensures
            gives(
                r,
                is_time_literal(self.deep_view(), c.deep_view(), column@, literal.deep_view()),
            ),
    {
        match c.time_column(column)? {
            None => Ok(false),
            Some(_) => match self.binder.value_of(literal)? {
                Value::Text(_) => Ok(true),
                _ => Ok(false),
            },
        }
    }

    /// One predicate as a filter over collection `c`.
    pub fn filter(&self, c: &Collection, predicate: &Predicate, log: &mut Log) -> (r: Result<
        OwnedFilter,
        SqlError,
    >)
        requires
            predicate_ok(predicate.deep_view()),
        ensures
            logged(
                r,
                *final(log),
                filter_of(
                    self.deep_view(),
                    c.deep_view(),
                    predicate.deep_view(),
                    old(log).deep_view(),
                ),
            ),
    {
        reveal(filter_of);
        match predicate {
            Predicate::Constant(_) => Err(
                SqlError::unsupported(
                    "a constant predicate inside OR or NOT: it names no index, so there is no membership set to combine; at the top of the WHERE it is folded",
                ),
            ),
            Predicate::Compare { column, op, value } => {
                if self.is_time_literal(c, column.as_str(), value)? {
                    let shape = TimeShape::Clock { op: *op, value: TimeValue::Lit(value.dup()) };
                    self.time_filter(c, column.as_str(), &shape, log)
                } else {
                    self.compare_filter(c, column.as_str(), *op, value)
                }
            },
            Predicate::Between { column, lower, upper } => {
                if self.is_time_literal(c, column.as_str(), lower)? {
                    let shape = TimeShape::ClockBetween {
                        lower: TimeValue::Lit(lower.dup()),
                        upper: TimeValue::Lit(upper.dup()),
                    };
                    self.time_filter(c, column.as_str(), &shape, log)
                } else {
                    self.between_filter(c, column.as_str(), lower, upper)
                }
            },
            Predicate::IsNull { column, negated } => self.null_filter(
                c,
                column.as_str(),
                false,
                *negated,
            ),
            Predicate::IsMissing { column } => self.null_filter(c, column.as_str(), true, false),
            Predicate::KeyCompare { op, value } => self.key_filter(*op, value),
            Predicate::KeyBetween { lower, upper } => self.key_between_filter(lower, upper),
            Predicate::InList { column, values } => {
                let kind = c.kind_of(column.as_str())?;
                let index = c.index_for(column.as_str(), IndexFamily::Scalar, "a scalar index")?;
                let leaves = self.in_leaves(kind, index, column.as_str(), values)?;
                Ok(union(leaves))
            },
            Predicate::KeyInList { values } => {
                let leaves = self.key_leaves(values)?;
                Ok(union(leaves))
            },
            Predicate::Semi { table, column } => {
                let rows = self.semi_join(c, table.as_str(), column.as_str(), log)?;
                Ok(OwnedFilter::Ids(rows.ids))
            },
            Predicate::Text { column, query } => self.text_predicate(
                c,
                column.as_str(),
                query,
                log,
            ),
            Predicate::Spatial { predicate, column, argument, metres } => self.spatial(
                c,
                *predicate,
                column.as_str(),
                argument,
                metres,
            ),
            Predicate::Time { column, shape } => self.time_filter(c, column.as_str(), shape, log),
            Predicate::TextFn { column, shape } => self.text_filter(
                c,
                column.as_str(),
                shape,
                log,
            ),
        }
    }
}

// ── boolean expressions ──────────────────────────────────────────────────

/// One conjunct of a `WHERE` as a filter: a union for `OR`, an intersection
/// for `AND`, a complement for `NOT`.
pub open spec fn where_filter(env: EnvV, c: CollectionV, e: ExprV, log: LogV) -> Result<
    (OwnedFilterV, LogV),
    SqlErrorV,
>
    decreases e,
{
    match e {
        ExprV::Leaf(p) => filter_of(env, c, p, log),
        ExprV::Not(inner) => match where_filter(env, c, *inner, log) {
            Err(e) => Err(e),
            Ok((f, log)) => Ok((OwnedFilterV::Not(Box::new(f)), log)),
        },
        ExprV::Or(parts) => match where_filters(env, c, parts, log) {
            Err(e) => Err(e),
            Ok((list, log)) => Ok((OwnedFilterV::Any(list), log)),
        },
        ExprV::And(parts) => match where_filters(env, c, parts, log) {
            Err(e) => Err(e),
            Ok((list, log)) => Ok((OwnedFilterV::All(list), log)),
        },
    }
}

/// The filters of a list of expressions, from the left.
pub open spec fn where_filters(env: EnvV, c: CollectionV, parts: Seq<ExprV>, log: LogV) -> Result<
    (Seq<OwnedFilterV>, LogV),
    SqlErrorV,
>
    decreases parts,
{
    if parts.len() == 0 {
        Ok((Seq::empty(), log))
    } else {
        match where_filters(env, c, parts.drop_last(), log) {
            Err(e) => Err(e),
            Ok((done, log)) => match where_filter(env, c, parts.last(), log) {
                Err(e) => Err(e),
                Ok((f, log)) => Ok((done.push(f), log)),
            },
        }
    }
}

proof fn where_filters_stop(env: EnvV, c: CollectionV, parts: Seq<ExprV>, log: LogV, n: int)
    requires
        0 <= n <= parts.len(),
        where_filters(env, c, parts.take(n), log) is Err,
    ensures
        where_filters(env, c, parts, log) == where_filters(env, c, parts.take(n), log),
    decreases parts.len() - n,
{
    if n < parts.len() {
        take_next(parts, n);
        where_filters_stop(env, c, parts, log, n + 1);
    } else {
        take_all(parts);
    }
}

/// Every clock offset of an expression can be negated.
pub open spec fn expr_ok(e: ExprV) -> bool
    decreases e,
{
    match e {
        ExprV::Leaf(p) => predicate_ok(p),
        ExprV::Not(inner) => expr_ok(*inner),
        ExprV::And(parts) => exprs_ok(parts),
        ExprV::Or(parts) => exprs_ok(parts),
    }
}

pub open spec fn exprs_ok(parts: Seq<ExprV>) -> bool
    decreases parts,
{
    if parts.len() == 0 {
        true
    } else {
        exprs_ok(parts.drop_last()) && expr_ok(parts.last())
    }
}

pub proof fn exprs_ok_each(parts: Seq<ExprV>, i: int)
    requires
        exprs_ok(parts),
        0 <= i < parts.len(),
    ensures
        expr_ok(parts[i]),
    decreases parts.len(),
{
    if i < parts.len() - 1 {
        exprs_ok_each(parts.drop_last(), i);
    }
}

impl<'a> Env<'a> {
    /// One conjunct of a `WHERE` as a filter.
    pub fn where_filter(&self, c: &Collection, expr: &Expr, log: &mut Log) -> (r: Result<
        OwnedFilter,
        SqlError,
    >)
        requires
            expr_ok(expr.deep_view()),
        ensures
            logged(
                r,
                *final(log),
                where_filter(
                    self.deep_view(),
                    c.deep_view(),
                    expr.deep_view(),
                    old(log).deep_view(),
                ),
            ),
        decreases expr, 0nat,
    {
        match expr {
            Expr::Leaf(p) => self.filter(c, p, log),
            Expr::Not(inner) => {
                let f = self.where_filter(c, inner, log)?;
                Ok(complement(f))
            },
            Expr::Or(parts) => {
                proof {
                    expr_view_parts(*parts);
                }
                let list = self.where_filters(c, parts, log)?;
                proof {
                    filter_view_parts(list.list);
                }
                Ok(OwnedFilter::Any(list.list))
            },
            Expr::And(parts) => {
                proof {
                    expr_view_parts(*parts);
                }
                let list = self.where_filters(c, parts, log)?;
                proof {
                    filter_view_parts(list.list);
                }
                Ok(OwnedFilter::All(list.list))
            },
        }
    }

    /// The filters of a list of expressions.
    pub fn where_filters(&self, c: &Collection, parts: &Vec<Expr>, log: &mut Log) -> (r: Result<
        Filters,
        SqlError,
    >)
        requires
            exprs_ok(parts.deep_view()),
        ensures
            logged(
                r,
                *final(log),
                where_filters(
                    self.deep_view(),
                    c.deep_view(),
                    parts.deep_view(),
                    old(log).deep_view(),
                ),
            ),
        decreases parts, 1nat,
    {
        let ghost all = parts.deep_view();
        let ghost start = log.deep_view();
        let mut list: Vec<OwnedFilter> = Vec::new();
        let mut i: usize = 0;
        assert(all.take(0) =~= Seq::<ExprV>::empty());
        assert(list.deep_view() =~= Seq::<OwnedFilterV>::empty());
        while i < parts.len()
            invariant
                i <= parts@.len(),
                all == parts.deep_view(),
                exprs_ok(all),
                start == old(log).deep_view(),
                where_filters(self.deep_view(), c.deep_view(), all.take(i as int), start) == Ok::<
                    (Seq<OwnedFilterV>, LogV),
                    SqlErrorV,
                >((list.deep_view(), log.deep_view())),
            decreases parts@.len() - i,
        {
            proof {
                take_next(all, i as int);
                exprs_ok_each(all, i as int);
                assert(all[i as int] == parts@[i as int].deep_view());
            }
            match self.where_filter(c, &parts[i], log) {
                Err(e) => {
                    proof {
                        where_filters_stop(
                            self.deep_view(),
                            c.deep_view(),
                            all,
                            start,
                            i as int + 1,
                        );
                    }
                    return Err(e);
                },
                Ok(f) => {
                    let ghost before = list.deep_view();
                    list.push(f);
                    assert(list.deep_view() =~= before.push(f.deep_view()));
                },
            }
            i = i + 1;
        }
        proof {
            take_all(all);
        }
        Ok(Filters { list })
    }
}

} // verus!
