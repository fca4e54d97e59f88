//! Binding a plan again and compiling its statement again are one.
//!
//! A plan holds its bound values in slots. Where compiling refuses nothing --
//! no bound value was folded into the plan -- filling the slots from a new
//! parameter list gives the plan that compiling with that list would give.

use vstd::prelude::*;
use crate::ast::{
    text_shape_text, time_shape_text, CmpOp, ExprV, GeoArgV, LiteralV, PointArgV, PredicateV,
    RowExprV, SpatialPredicate, TextShapeV, TimeShapeV, TimeValueV, TsQueryV,
};
use crate::compile::bind::{
    bounds_of, constants_do_not_rebind, edge_value, geo_bound, geom_of, is_bound, number_of,
    point_bound, point_of, scalar_of, text_of, vector_of, BinderV, ScalarV,
};
use crate::compile::env::{collection_of, index_for, kind_of, CollectionV, IndexFamily};
use crate::compile::graph::{edge_wheres, node_wheres, pattern_log};
use crate::compile::log::{EnvV, LogV, SearchLeafV};
use crate::compile::order::score_of;
use crate::compile::plan::{
    Bound, KeyAt, KeyFillV, OwnedFilterV, OwnedOrderV, OwnedScalarFilterV, ScalarAt, ScalarFillV,
    SelectPlanV,
};
use crate::compile::predicates::{
    between_filter, compare_filter, compared, filter_of, in_leaves, is_negated, is_time_literal,
    key_between_filter, key_fills, key_filter, key_leaves, negated_term, null_filter, one_key,
    scalar_fills, slot_at, spatial_filter, text_leaf, text_predicate, union_of, where_filter,
    where_filters,
};
use crate::compile::project::{row_function, row_functions};
use crate::compile::ranges::{
    shape_value, text_filter, text_range, time_filter, time_literal, time_range, time_value,
    whole_literal, CLOCK,
};
use crate::compile::rebind::{
    fill_edges, fill_keys, fill_scalar, fill_scalars, no_position, rebound, rebound_all,
    rebound_order, rebound_score, rebound_select, refilled,
};
use crate::compile::select::{
    any_graph_filter, any_key_filter, graph_items, has_false, is_constant, pattern_columns,
    select_filters, select_item, select_items, select_of, source_of, star_items, statement_order,
    SelectListV,
};
use crate::error::SqlErrorV;
use crate::stmt::{
    EdgePredicateV, GraphColumnV, OrderKeyV, ScoreNodeV, SelectItemV, SelectStmtV, SourceV,
};
use crate::value::Kind;

verus! {

/// Two environments that differ in the parameters alone, as far as a plan that
/// refuses nothing can tell.
pub open spec fn twins(a: EnvV, b: EnvV) -> bool {
    a.binder.catalog == b.binder.catalog && a.ef_search == b.ef_search
}

/// Whether nothing was refused between two logs.
pub open spec fn refuses_nothing(before: LogV, after: LogV) -> bool {
    after.refusals.len() == before.refusals.len()
}

// ── slots ────────────────────────────────────────────────────────────────

proof fn no_fills(b: BinderV, p: OwnedScalarFilterV, lower: Bound<Seq<char>>, upper: Bound<Seq<char>>)
    ensures
        fill_scalars(b, p, Seq::empty()) == Ok::<OwnedScalarFilterV, SqlErrorV>(p),
        fill_keys(b, lower, upper, Seq::empty()) == Ok::<
            (Bound<Seq<char>>, Bound<Seq<char>>),
            SqlErrorV,
        >((lower, upper)),
{
}

proof fn one_fill(b: BinderV, p: OwnedScalarFilterV, f: ScalarFillV)
    ensures
        fill_scalars(b, p, seq![f]) == fill_scalar(b, p, f),
{
    assert(seq![f].drop_last() =~= Seq::<ScalarFillV>::empty());
    assert(fill_scalars(b, p, seq![f].drop_last()) == Ok::<OwnedScalarFilterV, SqlErrorV>(p));
}

proof fn two_fills(b: BinderV, p: OwnedScalarFilterV, x: Seq<ScalarFillV>, f: ScalarFillV)
    ensures
        fill_scalars(b, p, x + seq![f]) == match fill_scalars(b, p, x) {
            Err(e) => Err(e),
            Ok(p) => fill_scalar(b, p, f),
        },
{
    assert((x + seq![f]).drop_last() =~= x);
}

proof fn scalar_same(a: BinderV, b: BinderV, kind: Kind, l: LiteralV, column: Seq<char>)
    requires
        !is_bound(l),
    ensures
        scalar_of(a, kind, l, column) == scalar_of(b, kind, l, column),
        text_of(a, l) == text_of(b, l),
        number_of(a, l) == number_of(b, l),
        vector_of(a, l) == vector_of(b, l),
        edge_value(a, l, column) == edge_value(b, l, column),
{
    constants_do_not_rebind(a, b, l);
}

proof fn leaf_same(
    a: BinderV,
    b: BinderV,
    kind: Kind,
    l: LiteralV,
    column: Seq<char>,
    at: ScalarAt,
    index: u64,
    f: spec_fn(ScalarV) -> OwnedScalarFilterV,
)
    requires
        scalar_of(a, kind, l, column) is Ok,
        scalar_of(b, kind, l, column) is Ok,
        forall|v: ScalarV, w: ScalarV|
            #![trigger f(v), f(w)]
            fill_position(f(v), at, w) == Ok::<OwnedScalarFilterV, SqlErrorV>(f(w)),
    ensures
        rebound(
            b,
            OwnedFilterV::Scalar {
                index,
                predicate: f(scalar_of(a, kind, l, column)->Ok_0),
                fills: scalar_fills(kind, l, column, at),
            },
        ) == Ok::<OwnedFilterV, SqlErrorV>(
            OwnedFilterV::Scalar {
                index,
                predicate: f(scalar_of(b, kind, l, column)->Ok_0),
                fills: scalar_fills(kind, l, column, at),
            },
        ),
{
    let v = scalar_of(a, kind, l, column)->Ok_0;
    let w = scalar_of(b, kind, l, column)->Ok_0;
    if is_bound(l) {
        let fill = ScalarFillV { at, kind, literal: l, column };
        assert(scalar_fills(kind, l, column, at) == seq![fill]);
        one_fill(b, f(v), fill);
        assert(fill_scalar(b, f(v), fill) == fill_position(f(v), at, w));
        assert(fill_position(f(v), at, w) == Ok::<OwnedScalarFilterV, SqlErrorV>(f(w)));
    } else {
        scalar_same(a, b, kind, l, column);
        assert(scalar_fills(kind, l, column, at) =~= Seq::<ScalarFillV>::empty());
        no_fills(b, f(v), Bound::Unbounded, Bound::Unbounded);
    }
}

/// A value written into a position of a predicate.
pub open spec fn fill_position(p: OwnedScalarFilterV, at: ScalarAt, value: ScalarV) -> Result<
    OwnedScalarFilterV,
    SqlErrorV,
> {
    match (p, at) {
        (OwnedScalarFilterV::Eq(_), ScalarAt::Eq) => Ok(OwnedScalarFilterV::Eq(value)),
        (OwnedScalarFilterV::Range { lower, upper }, ScalarAt::Lower) => Ok(
            OwnedScalarFilterV::Range {
                lower: refilled(lower, value),
                upper,
            },
        ),
        (OwnedScalarFilterV::Range { lower, upper }, ScalarAt::Upper) => Ok(
            OwnedScalarFilterV::Range {
                lower,
                upper: refilled(upper, value),
            },
        ),
        _ => Err(no_position()),
    }
}

proof fn compare_same(a: EnvV, b: EnvV, c: CollectionV, column: Seq<char>, op: CmpOp, l: LiteralV)
    requires
        compare_filter(a, c, column, op, l) is Ok,
        compare_filter(b, c, column, op, l) is Ok,
    ensures
        rebound(b.binder, compare_filter(a, c, column, op, l)->Ok_0) == compare_filter(
            b,
            c,
            column,
            op,
            l,
        ),
{
    let kind = kind_of(c, column)->Ok_0;
    let index = index_for(
        c,
        column,
        IndexFamily::Scalar,
        "a scalar index"@,
    )->Ok_0;
    let f = |v: ScalarV| compared(op, v);
    assert forall|v: ScalarV, w: ScalarV|
        #![trigger f(v), f(w)]
        fill_position(f(v), slot_at(op), w) == Ok::<OwnedScalarFilterV, SqlErrorV>(f(w)) by {}
    leaf_same(a.binder, b.binder, kind, l, column, slot_at(op), index, f);
    if op == CmpOp::Ne {
        let x = compare_filter(a, c, column, op, l)->Ok_0;
        assert(rebound(b.binder, x) is Ok);
    }
}

proof fn between_same(
    a: EnvV,
    b: EnvV,
    c: CollectionV,
    column: Seq<char>,
    lower: LiteralV,
    upper: LiteralV,
)
    requires
        between_filter(a, c, column, lower, upper) is Ok,
        between_filter(b, c, column, lower, upper) is Ok,
    ensures
        rebound(b.binder, between_filter(a, c, column, lower, upper)->Ok_0) == between_filter(
            b,
            c,
            column,
            lower,
            upper,
        ),
{
    let kind = kind_of(c, column)->Ok_0;
    let low = scalar_of(a.binder, kind, lower, column)->Ok_0;
    let high = scalar_of(a.binder, kind, upper, column)->Ok_0;
    let low2 = scalar_of(b.binder, kind, lower, column)->Ok_0;
    let p = OwnedScalarFilterV::Range {
        lower: Bound::Included(low),
        upper: Bound::Included(high),
    };
    let p2 = OwnedScalarFilterV::Range {
        lower: Bound::Included(low2),
        upper: Bound::Included(high),
    };
    let x = scalar_fills(kind, lower, column, ScalarAt::Lower);
    let y = scalar_fills(kind, upper, column, ScalarAt::Upper);
    if is_bound(lower) {
        one_fill(b.binder, p, x[0]);
        assert(x == seq![x[0]]);
    } else {
        scalar_same(a.binder, b.binder, kind, lower, column);
        no_fills(b.binder, p, Bound::Unbounded, Bound::Unbounded);
    }
    assert(fill_scalars(b.binder, p, x) == Ok::<OwnedScalarFilterV, SqlErrorV>(p2));
    if is_bound(upper) {
        assert(y == seq![y[0]]);
        two_fills(b.binder, p, x, y[0]);
    } else {
        scalar_same(a.binder, b.binder, kind, upper, column);
        assert(x + y =~= x);
    }
}

proof fn key_fill_same(a: BinderV, b: BinderV, l: LiteralV, at: KeyAt, lower: Bound<Seq<char>>, upper: Bound<Seq<char>>, before: Seq<KeyFillV>)
    requires
        text_of(b, l) is Ok,
        fill_keys(b, lower, upper, before) is Ok,
        is_bound(l),
    ensures
        ({
            let (x, y) = fill_keys(b, lower, upper, before)->Ok_0;
            let key = text_of(b, l)->Ok_0;
            fill_keys(b, lower, upper, before + key_fills(l, at)) == Ok::<
                (Bound<Seq<char>>, Bound<Seq<char>>),
                SqlErrorV,
            >(
                match at {
                    KeyAt::Lower => (refilled(x, key), y),
                    KeyAt::Upper => (x, refilled(y, key)),
                },
            )
        }),
{
    let f = KeyFillV { at, literal: l };
    assert((before + seq![f]).drop_last() =~= before);
    assert((before + seq![f]).last() == f);
}

proof fn key_same(a: EnvV, b: EnvV, op: CmpOp, l: LiteralV)
    requires
        key_filter(a, op, l) is Ok,
        key_filter(b, op, l) is Ok,
    ensures
        rebound(b.binder, key_filter(a, op, l)->Ok_0) == key_filter(b, op, l),
{
    key_leaf_same(a, b, l, KeyAt::Lower, KeyAt::Upper);
    let k = text_of(a.binder, l)->Ok_0;
    let k2 = text_of(b.binder, l)->Ok_0;
    let none = Seq::<KeyFillV>::empty();
    if is_bound(l) {
        assert(none + key_fills(l, KeyAt::Upper) =~= key_fills(l, KeyAt::Upper));
        assert(none + key_fills(l, KeyAt::Lower) =~= key_fills(l, KeyAt::Lower));
        key_fill_same(a.binder, b.binder, l, KeyAt::Upper, Bound::Unbounded, Bound::Excluded(k), none);
        key_fill_same(a.binder, b.binder, l, KeyAt::Upper, Bound::Unbounded, Bound::Included(k), none);
        key_fill_same(a.binder, b.binder, l, KeyAt::Lower, Bound::Excluded(k), Bound::Unbounded, none);
        key_fill_same(a.binder, b.binder, l, KeyAt::Lower, Bound::Included(k), Bound::Unbounded, none);
    } else {
        scalar_same(a.binder, b.binder, Kind::Text, l, ""@);
        assert(key_fills(l, KeyAt::Upper) =~= none);
        assert(key_fills(l, KeyAt::Lower) =~= none);
    }
    if op == CmpOp::Ne {
        assert(rebound(b.binder, key_filter(a, op, l)->Ok_0) is Ok);
    }
}

proof fn key_leaf_same(a: EnvV, b: EnvV, l: LiteralV, first: KeyAt, second: KeyAt)
    requires
        text_of(a.binder, l) is Ok,
        text_of(b.binder, l) is Ok,
        first != second,
    ensures
        rebound(
            b.binder,
            one_key(text_of(a.binder, l)->Ok_0, key_fills(l, first) + key_fills(l, second)),
        ) == Ok::<OwnedFilterV, SqlErrorV>(
            one_key(text_of(b.binder, l)->Ok_0, key_fills(l, first) + key_fills(l, second)),
        ),
{
    let k = text_of(a.binder, l)->Ok_0;
    let none = Seq::<KeyFillV>::empty();
    if is_bound(l) {
        key_fill_same(a.binder, b.binder, l, first, Bound::Included(k), Bound::Included(k), none);
        assert(none + key_fills(l, first) =~= key_fills(l, first));
        key_fill_same(
            a.binder,
            b.binder,
            l,
            second,
            Bound::Included(k),
            Bound::Included(k),
            key_fills(l, first),
        );
    } else {
        scalar_same(a.binder, b.binder, Kind::Text, l, ""@);
        assert(key_fills(l, first) + key_fills(l, second) =~= none);
    }
}

proof fn key_between_same(a: EnvV, b: EnvV, lower: LiteralV, upper: LiteralV)
    requires
        key_between_filter(a, lower, upper) is Ok,
        key_between_filter(b, lower, upper) is Ok,
    ensures
        rebound(b.binder, key_between_filter(a, lower, upper)->Ok_0) == key_between_filter(
            b,
            lower,
            upper,
        ),
{
    let low = text_of(a.binder, lower)->Ok_0;
    let high = text_of(a.binder, upper)->Ok_0;
    let none = Seq::<KeyFillV>::empty();
    let x = key_fills(lower, KeyAt::Lower);
    let y = key_fills(upper, KeyAt::Upper);
    assert(none + x =~= x);
    if is_bound(lower) {
        key_fill_same(
            a.binder,
            b.binder,
            lower,
            KeyAt::Lower,
            Bound::Included(low),
            Bound::Included(high),
            none,
        );
    } else {
        scalar_same(a.binder, b.binder, Kind::Text, lower, ""@);
        assert(x =~= none);
    }
    if is_bound(upper) {
        key_fill_same(
            a.binder,
            b.binder,
            upper,
            KeyAt::Upper,
            Bound::Included(low),
            Bound::Included(high),
            x,
        );
    } else {
        scalar_same(a.binder, b.binder, Kind::Text, upper, ""@);
        assert(x + y =~= x);
    }
}

// ── lists ────────────────────────────────────────────────────────────────

proof fn in_same(
    a: EnvV,
    b: EnvV,
    kind: Kind,
    index: u64,
    column: Seq<char>,
    values: Seq<LiteralV>,
)
    requires
        in_leaves(a, kind, index, column, values) is Ok,
        in_leaves(b, kind, index, column, values) is Ok,
    ensures
        rebound_all(b.binder, in_leaves(a, kind, index, column, values)->Ok_0) == in_leaves(
            b,
            kind,
            index,
            column,
            values,
        ),
    decreases values.len(),
{
    if values.len() > 0 {
        in_same(a, b, kind, index, column, values.drop_last());
        let f = |v: ScalarV| OwnedScalarFilterV::Eq(v);
        assert forall|v: ScalarV, w: ScalarV|
            #![trigger f(v), f(w)]
            fill_position(f(v), ScalarAt::Eq, w) == Ok::<OwnedScalarFilterV, SqlErrorV>(f(w)) by {}
        leaf_same(a.binder, b.binder, kind, values.last(), column, ScalarAt::Eq, index, f);
        let list = in_leaves(a, kind, index, column, values)->Ok_0;
        assert(list.drop_last() =~= in_leaves(a, kind, index, column, values.drop_last())->Ok_0);
    }
}

proof fn keys_same(a: EnvV, b: EnvV, values: Seq<LiteralV>)
    requires
        key_leaves(a, values) is Ok,
        key_leaves(b, values) is Ok,
    ensures
        rebound_all(b.binder, key_leaves(a, values)->Ok_0) == key_leaves(b, values),
    decreases values.len(),
{
    if values.len() > 0 {
        keys_same(a, b, values.drop_last());
        key_leaf_same(a, b, values.last(), KeyAt::Upper, KeyAt::Lower);
        let list = key_leaves(a, values)->Ok_0;
        assert(list.drop_last() =~= key_leaves(a, values.drop_last())->Ok_0);
    }
}

proof fn union_same(b: BinderV, x: Seq<OwnedFilterV>, y: Seq<OwnedFilterV>)
    requires
        rebound_all(b, x) == Ok::<Seq<OwnedFilterV>, SqlErrorV>(y),
    ensures
        rebound(b, union_of(x)) == Ok::<OwnedFilterV, SqlErrorV>(union_of(y)),
        x.len() == y.len(),
    decreases x.len(),
{
    all_length(b, x);
    if x.len() == 1 {
        assert(x.drop_last() =~= Seq::<OwnedFilterV>::empty());
        assert(rebound_all(b, x.drop_last()) == Ok::<Seq<OwnedFilterV>, SqlErrorV>(Seq::empty()));
        assert(y =~= Seq::<OwnedFilterV>::empty().push(rebound(b, x[0])->Ok_0));
    }
}

proof fn all_length(b: BinderV, x: Seq<OwnedFilterV>)
    requires
        rebound_all(b, x) is Ok,
    ensures
        rebound_all(b, x)->Ok_0.len() == x.len(),
    decreases x.len(),
{
    if x.len() > 0 {
        all_length(b, x.drop_last());
    }
}

// ── text and geometry ────────────────────────────────────────────────────

proof fn text_leaf_same(a: EnvV, b: EnvV, c: CollectionV, column: Seq<char>, q: TsQueryV, log: LogV)
    requires
        text_leaf(a, c, column, q, log) is Ok,
        text_leaf(b, c, column, q, log) is Ok,
        refuses_nothing(log, text_leaf(a, c, column, q, log)->Ok_0.1),
    ensures
        rebound(b.binder, text_leaf(a, c, column, q, log)->Ok_0.0) == Ok::<
            OwnedFilterV,
            SqlErrorV,
        >(text_leaf(b, c, column, q, log)->Ok_0.0),
        text_leaf(a, c, column, q, log)->Ok_0.1 == text_leaf(b, c, column, q, log)->Ok_0.1,
{
    if !is_bound(q.source) {
        scalar_same(a.binder, b.binder, Kind::Text, q.source, column);
    }
}

proof fn text_same(a: EnvV, b: EnvV, c: CollectionV, column: Seq<char>, q: TsQueryV, log: LogV)
    requires
        text_predicate(a, c, column, q, log) is Ok,
        text_predicate(b, c, column, q, log) is Ok,
        refuses_nothing(log, text_predicate(a, c, column, q, log)->Ok_0.1),
        refuses_nothing(log, text_predicate(b, c, column, q, log)->Ok_0.1),
    ensures
        rebound(b.binder, text_predicate(a, c, column, q, log)->Ok_0.0) == Ok::<
            OwnedFilterV,
            SqlErrorV,
        >(text_predicate(b, c, column, q, log)->Ok_0.0),
        text_predicate(a, c, column, q, log)->Ok_0.1 == text_predicate(b, c, column, q, log)->Ok_0.1,
{
    if !q.tsquery_syntax {
        text_leaf_same(a, b, c, column, q, log);
    } else if is_bound(q.source) {
        text_leaf_same(a, b, c, column, q, log);
    } else {
        scalar_same(a.binder, b.binder, Kind::Text, q.source, column);
        let text = text_of(a.binder, q.source)->Ok_0;
        if is_negated(text) {
            let q2 = TsQueryV {
                source: LiteralV::Str(negated_term(text)),
                tsquery_syntax: q.tsquery_syntax,
                fuzzy: q.fuzzy,
            };
            text_leaf_same(a, b, c, column, q2, log);
            let leaf = text_leaf(a, c, column, q2, log)->Ok_0.0;
            assert(rebound(b.binder, leaf) is Ok);
        } else {
            text_leaf_same(a, b, c, column, q, log);
        }
    }
}

proof fn point_same(a: BinderV, b: BinderV, p: PointArgV)
    requires
        a.catalog == b.catalog,
        !point_bound(p),
    ensures
        point_of(a, p) == point_of(b, p),
{
    constants_do_not_rebind(a, b, p.lon);
    constants_do_not_rebind(a, b, p.lat);
}

proof fn geo_same(a: BinderV, b: BinderV, g: GeoArgV)
    requires
        a.catalog == b.catalog,
        !geo_bound(g),
    ensures
        geom_of(a, g) == geom_of(b, g),
        bounds_of(a, g) == bounds_of(b, g),
{
    match g {
        GeoArgV::Point(p) => {
            point_same(a, b, p);
        },
        GeoArgV::Envelope { minlon, minlat, maxlon, maxlat } => {
            constants_do_not_rebind(a, b, minlon);
            constants_do_not_rebind(a, b, minlat);
            constants_do_not_rebind(a, b, maxlon);
            constants_do_not_rebind(a, b, maxlat);
        },
        GeoArgV::GeoJson(l) => {
            constants_do_not_rebind(a, b, l);
        },
    }
}

proof fn spatial_same(
    a: EnvV,
    b: EnvV,
    c: CollectionV,
    predicate: SpatialPredicate,
    column: Seq<char>,
    g: GeoArgV,
    metres: Option<LiteralV>,
)
    requires
        a.binder.catalog == b.binder.catalog,
        spatial_filter(a, c, predicate, column, g, metres) is Ok,
        spatial_filter(b, c, predicate, column, g, metres) is Ok,
    ensures
        rebound(b.binder, spatial_filter(a, c, predicate, column, g, metres)->Ok_0)
            == spatial_filter(b, c, predicate, column, g, metres),
{
    if !geo_bound(g) {
        geo_same(a.binder, b.binder, g);
        if let GeoArgV::Point(p) = g {
            point_same(a.binder, b.binder, p);
        }
    }
    if metres is Some && !is_bound(metres->0) {
        constants_do_not_rebind(a.binder, b.binder, metres->0);
    }
}

// ── ranges ───────────────────────────────────────────────────────────────

proof fn time_value_same(a: EnvV, b: EnvV, v: TimeValueV, column: Seq<char>, log: LogV)
    requires
        time_value(a, v, column, log) is Ok,
        time_value(b, v, column, log) is Ok,
    ensures
        refuses_nothing(log, time_value(a, v, column, log)->Ok_0.1) ==> time_value(a, v, column, log)
            == time_value(b, v, column, log),
        time_value(a, v, column, log)->Ok_0.1.refusals.len() >= log.refusals.len(),
{
    if let TimeValueV::Lit(l) = v {
        if !is_bound(l) {
            constants_do_not_rebind(a.binder, b.binder, l);
        }
    }
}

proof fn literal_same(a: EnvV, b: EnvV, l: LiteralV, column: Seq<char>, log: LogV)
    requires
        time_literal(a, l, column, log) is Ok,
        time_literal(b, l, column, log) is Ok,
    ensures
        refuses_nothing(log, time_literal(a, l, column, log)->Ok_0.1) ==> time_literal(
            a,
            l,
            column,
            log,
        ) == time_literal(b, l, column, log),
        time_literal(a, l, column, log)->Ok_0.1.refusals.len() >= log.refusals.len(),
{
    if !is_bound(l) {
        constants_do_not_rebind(a.binder, b.binder, l);
    }
}

proof fn whole_same(a: EnvV, b: EnvV, l: LiteralV, what: Seq<char>, log: LogV)
    requires
        whole_literal(a, l, what, log) is Ok,
        whole_literal(b, l, what, log) is Ok,
    ensures
        refuses_nothing(log, whole_literal(a, l, what, log)->Ok_0.1) ==> whole_literal(
            a,
            l,
            what,
            log,
        ) == whole_literal(b, l, what, log),
        whole_literal(a, l, what, log)->Ok_0.1.refusals.len() >= log.refusals.len(),
{
    if !is_bound(l) {
        constants_do_not_rebind(a.binder, b.binder, l);
    }
}

proof fn range_same(a: EnvV, b: EnvV, column: Seq<char>, shape: TimeShapeV, what: Seq<char>, log: LogV)
    requires
        time_range(a, column, shape, what, log) is Ok,
        time_range(b, column, shape, what, log) is Ok,
    ensures
        refuses_nothing(log, time_range(a, column, shape, what, log)->Ok_0.1) ==> time_range(
            a,
            column,
            shape,
            what,
            log,
        ) == time_range(b, column, shape, what, log),
        time_range(a, column, shape, what, log)->Ok_0.1.refusals.len() >= log.refusals.len(),
{
    match shape {
        TimeShapeV::Extract { value, .. } => {
            whole_same(a, b, value, what, log);
        },
        TimeShapeV::ExtractBetween { lower, upper, .. } => {
            whole_same(a, b, lower, what, log);
            let l1 = whole_literal(a, lower, what, log)->Ok_0.1;
            let l2 = whole_literal(b, lower, what, log)->Ok_0.1;
            if l1 == l2 {
                whole_same(a, b, upper, what, l1);
            } else {
                assert(l1.refusals.len() > log.refusals.len());
            }
        },
        TimeShapeV::Trunc { value, .. } | TimeShapeV::CastDate { value, .. } => {
            literal_same(a, b, value, column, log);
        },
        TimeShapeV::TruncBetween { lower, upper, .. } => {
            literal_same(a, b, lower, column, log);
            let l1 = time_literal(a, lower, column, log)->Ok_0.1;
            let l2 = time_literal(b, lower, column, log)->Ok_0.1;
            if l1 == l2 {
                literal_same(a, b, upper, column, l1);
            } else {
                assert(l1.refusals.len() > log.refusals.len());
            }
        },
        TimeShapeV::Clock { value, .. } => {
            time_value_same(a, b, value, column, log);
        },
        TimeShapeV::ClockBetween { lower, upper } => {
            time_value_same(a, b, lower, column, log);
            let l1 = time_value(a, lower, column, log)->Ok_0.1;
            let l2 = time_value(b, lower, column, log)->Ok_0.1;
            if l1 == l2 {
                time_value_same(a, b, upper, column, l1);
            } else {
                assert(l1.refusals.len() > log.refusals.len());
            }
        },
    }
}

proof fn time_same(a: EnvV, b: EnvV, c: CollectionV, column: Seq<char>, shape: TimeShapeV, log: LogV)
    requires
        time_filter(a, c, column, shape, log) is Ok,
        time_filter(b, c, column, shape, log) is Ok,
        refuses_nothing(log, time_filter(a, c, column, shape, log)->Ok_0.1),
    ensures
        rebound(b.binder, time_filter(a, c, column, shape, log)->Ok_0.0) == Ok::<
            OwnedFilterV,
            SqlErrorV,
        >(time_filter(b, c, column, shape, log)->Ok_0.0),
        time_filter(a, c, column, shape, log)->Ok_0.1 == time_filter(b, c, column, shape, log)->Ok_0.1,
{
    let what = time_shape_text(shape, column);
    range_same(a, b, column, shape, what, log);
}

proof fn text_fn_same(a: EnvV, b: EnvV, c: CollectionV, column: Seq<char>, shape: TextShapeV, log: LogV)
    requires
        text_filter(a, c, column, shape, log) is Ok,
        text_filter(b, c, column, shape, log) is Ok,
        refuses_nothing(log, text_filter(a, c, column, shape, log)->Ok_0.1),
    ensures
        rebound(b.binder, text_filter(a, c, column, shape, log)->Ok_0.0) == Ok::<
            OwnedFilterV,
            SqlErrorV,
        >(text_filter(b, c, column, shape, log)->Ok_0.0),
        text_filter(a, c, column, shape, log)->Ok_0.1 == text_filter(b, c, column, shape, log)->Ok_0.1,
{
    let l = shape_value(shape);
    if !is_bound(l) {
        constants_do_not_rebind(a.binder, b.binder, l);
        let what = text_shape_text(shape, column);
        assert(text_range(a, shape, what) == text_range(b, shape, what));
    }
}


// ── filters ──────────────────────────────────────────────────────────────

/// Logs only grow in refusals.
proof fn range_grows(env: EnvV, column: Seq<char>, shape: TimeShapeV, what: Seq<char>, log: LogV)
    requires
        time_range(env, column, shape, what, log) is Ok,
    ensures
        time_range(env, column, shape, what, log)->Ok_0.1.refusals.len() >= log.refusals.len(),
        shape matches TimeShapeV::Clock { value: TimeValueV::Lit(l), .. } && is_bound(l)
            ==> time_range(env, column, shape, what, log)->Ok_0.1.refusals.len()
            > log.refusals.len(),
        shape matches TimeShapeV::ClockBetween { lower: TimeValueV::Lit(l), .. } && is_bound(l)
            ==> time_range(env, column, shape, what, log)->Ok_0.1.refusals.len()
            > log.refusals.len(),
{
    range_same(env, env, column, shape, what, log);
    if let TimeShapeV::ClockBetween { lower, upper } = shape {
        let l1 = time_value(env, lower, column, log)->Ok_0.1;
        time_value_same(env, env, upper, column, l1);
    }
}

proof fn filter_grows(env: EnvV, c: CollectionV, p: PredicateV, log: LogV)
    requires
        filter_of(env, c, p, log) is Ok,
    ensures
        filter_of(env, c, p, log)->Ok_0.1.refusals.len() >= log.refusals.len(),
{
    reveal(filter_of);
    match p {
        PredicateV::Compare { column, op, value } => {
            let shape = TimeShapeV::Clock { op, value: TimeValueV::Lit(value) };
            if is_time_literal(env, c, column, value) == Ok::<bool, SqlErrorV>(true) {
                range_grows(env, column, shape, time_shape_text(shape, column), log);
            }
        },
        PredicateV::Between { column, lower, upper } => {
            let shape = TimeShapeV::ClockBetween {
                lower: TimeValueV::Lit(lower),
                upper: TimeValueV::Lit(upper),
            };
            if is_time_literal(env, c, column, lower) == Ok::<bool, SqlErrorV>(true) {
                range_grows(env, column, shape, time_shape_text(shape, column), log);
            }
        },
        PredicateV::Time { column, shape } => {
            range_grows(env, column, shape, time_shape_text(shape, column), log);
        },
        _ => {},
    }
}

proof fn filter_same(a: EnvV, b: EnvV, c: CollectionV, p: PredicateV, log: LogV)
    requires
        twins(a, b),
        filter_of(a, c, p, log) is Ok,
        filter_of(b, c, p, log) is Ok,
        refuses_nothing(log, filter_of(a, c, p, log)->Ok_0.1),
        refuses_nothing(log, filter_of(b, c, p, log)->Ok_0.1),
    ensures
        rebound(b.binder, filter_of(a, c, p, log)->Ok_0.0) == Ok::<OwnedFilterV, SqlErrorV>(
            filter_of(b, c, p, log)->Ok_0.0,
        ),
        filter_of(a, c, p, log)->Ok_0.1 == filter_of(b, c, p, log)->Ok_0.1,
{
    reveal(filter_of);
    match p {
        PredicateV::Compare { column, op, value } => {
            let shape = TimeShapeV::Clock { op, value: TimeValueV::Lit(value) };
            let what = time_shape_text(shape, column);
            let x = is_time_literal(a, c, column, value);
            let y = is_time_literal(b, c, column, value);
            if x == Ok::<bool, SqlErrorV>(true) {
                range_grows(a, column, shape, what, log);
            }
            if y == Ok::<bool, SqlErrorV>(true) {
                range_grows(b, column, shape, what, log);
            }
            if !is_bound(value) {
                constants_do_not_rebind(a.binder, b.binder, value);
            }
            assert(x == y);
            if x == Ok::<bool, SqlErrorV>(true) {
                time_same(a, b, c, column, shape, log);
            } else {
                compare_same(a, b, c, column, op, value);
            }
        },
        PredicateV::Between { column, lower, upper } => {
            let shape = TimeShapeV::ClockBetween {
                lower: TimeValueV::Lit(lower),
                upper: TimeValueV::Lit(upper),
            };
            let what = time_shape_text(shape, column);
            let x = is_time_literal(a, c, column, lower);
            let y = is_time_literal(b, c, column, lower);
            if x == Ok::<bool, SqlErrorV>(true) {
                range_grows(a, column, shape, what, log);
            }
            if y == Ok::<bool, SqlErrorV>(true) {
                range_grows(b, column, shape, what, log);
            }
            if !is_bound(lower) {
                constants_do_not_rebind(a.binder, b.binder, lower);
            }
            assert(x == y);
            if x == Ok::<bool, SqlErrorV>(true) {
                time_same(a, b, c, column, shape, log);
            } else {
                between_same(a, b, c, column, lower, upper);
            }
        },
        PredicateV::IsNull { column, negated } => {
            null_same(b.binder, c, column, false, negated);
        },
        PredicateV::IsMissing { column } => {
            null_same(b.binder, c, column, true, false);
        },
        PredicateV::KeyCompare { op, value } => {
            key_same(a, b, op, value);
        },
        PredicateV::KeyBetween { lower, upper } => {
            key_between_same(a, b, lower, upper);
        },
        PredicateV::InList { column, values } => {
            let kind = kind_of(c, column)->Ok_0;
            let index = index_for(c, column, IndexFamily::Scalar, "a scalar index"@)->Ok_0;
            in_same(a, b, kind, index, column, values);
            union_same(
                b.binder,
                in_leaves(a, kind, index, column, values)->Ok_0,
                in_leaves(b, kind, index, column, values)->Ok_0,
            );
        },
        PredicateV::KeyInList { values } => {
            keys_same(a, b, values);
            union_same(b.binder, key_leaves(a, values)->Ok_0, key_leaves(b, values)->Ok_0);
        },
        PredicateV::Text { column, query } => {
            text_same(a, b, c, column, query, log);
        },
        PredicateV::Spatial { predicate, column, argument, metres } => {
            spatial_same(a, b, c, predicate, column, argument, metres);
        },
        PredicateV::Time { column, shape } => {
            time_same(a, b, c, column, shape, log);
        },
        PredicateV::TextFn { column, shape } => {
            text_fn_same(a, b, c, column, shape, log);
        },
        _ => {},
    }
}

proof fn null_same(b: BinderV, c: CollectionV, column: Seq<char>, missing: bool, negated: bool)
    requires
        null_filter(c, column, missing, negated) is Ok,
    ensures
        rebound(b, null_filter(c, column, missing, negated)->Ok_0) == null_filter(
            c,
            column,
            missing,
            negated,
        ),
{
    let f = null_filter(c, column, missing, negated)->Ok_0;
    if let OwnedFilterV::Not(inner) = f {
        assert(rebound(b, *inner) == Ok::<OwnedFilterV, SqlErrorV>(*inner));
    }
}

proof fn where_grows(env: EnvV, c: CollectionV, e: ExprV, log: LogV)
    requires
        where_filter(env, c, e, log) is Ok,
    ensures
        where_filter(env, c, e, log)->Ok_0.1.refusals.len() >= log.refusals.len(),
    decreases e,
{
    match e {
        ExprV::Leaf(p) => {
            filter_grows(env, c, p, log);
        },
        ExprV::Not(inner) => {
            where_grows(env, c, *inner, log);
        },
        ExprV::And(parts) | ExprV::Or(parts) => {
            wheres_grow(env, c, parts, log);
        },
    }
}

proof fn wheres_grow(env: EnvV, c: CollectionV, parts: Seq<ExprV>, log: LogV)
    requires
        where_filters(env, c, parts, log) is Ok,
    ensures
        where_filters(env, c, parts, log)->Ok_0.1.refusals.len() >= log.refusals.len(),
    decreases parts,
{
    if parts.len() > 0 {
        wheres_grow(env, c, parts.drop_last(), log);
        let next = where_filters(env, c, parts.drop_last(), log)->Ok_0.1;
        where_grows(env, c, parts.last(), next);
    }
}

proof fn where_same(a: EnvV, b: EnvV, c: CollectionV, e: ExprV, log: LogV)
    requires
        twins(a, b),
        where_filter(a, c, e, log) is Ok,
        where_filter(b, c, e, log) is Ok,
        refuses_nothing(log, where_filter(a, c, e, log)->Ok_0.1),
        refuses_nothing(log, where_filter(b, c, e, log)->Ok_0.1),
    ensures
        rebound(b.binder, where_filter(a, c, e, log)->Ok_0.0) == Ok::<OwnedFilterV, SqlErrorV>(
            where_filter(b, c, e, log)->Ok_0.0,
        ),
        where_filter(a, c, e, log)->Ok_0.1 == where_filter(b, c, e, log)->Ok_0.1,
    decreases e,
{
    match e {
        ExprV::Leaf(p) => {
            filter_same(a, b, c, p, log);
        },
        ExprV::Not(inner) => {
            where_same(a, b, c, *inner, log);
        },
        ExprV::And(parts) | ExprV::Or(parts) => {
            wheres_same(a, b, c, parts, log);
        },
    }
}

proof fn wheres_same(a: EnvV, b: EnvV, c: CollectionV, parts: Seq<ExprV>, log: LogV)
    requires
        twins(a, b),
        where_filters(a, c, parts, log) is Ok,
        where_filters(b, c, parts, log) is Ok,
        refuses_nothing(log, where_filters(a, c, parts, log)->Ok_0.1),
        refuses_nothing(log, where_filters(b, c, parts, log)->Ok_0.1),
    ensures
        rebound_all(b.binder, where_filters(a, c, parts, log)->Ok_0.0) == Ok::<
            Seq<OwnedFilterV>,
            SqlErrorV,
        >(where_filters(b, c, parts, log)->Ok_0.0),
        where_filters(a, c, parts, log)->Ok_0.1 == where_filters(b, c, parts, log)->Ok_0.1,
    decreases parts,
{
    if parts.len() > 0 {
        let x = where_filters(a, c, parts.drop_last(), log)->Ok_0;
        let y = where_filters(b, c, parts.drop_last(), log)->Ok_0;
        wheres_grow(a, c, parts.drop_last(), log);
        wheres_grow(b, c, parts.drop_last(), log);
        where_grows(a, c, parts.last(), x.1);
        where_grows(b, c, parts.last(), y.1);
        wheres_same(a, b, c, parts.drop_last(), log);
        where_same(a, b, c, parts.last(), x.1);
        assert(where_filters(a, c, parts, log)->Ok_0.0.drop_last() =~= x.0);
    }
}

// ── patterns ─────────────────────────────────────────────────────────────

proof fn edges_same(a: EnvV, b: EnvV, list: Seq<EdgePredicateV>)
    requires
        edge_wheres(a, list) is Ok,
        edge_wheres(b, list) is Ok,
    ensures
        fill_edges(b.binder, edge_wheres(a, list)->Ok_0) == edge_wheres(b, list),
    decreases list.len(),
{
    if list.len() > 0 {
        edges_same(a, b, list.drop_last());
        if !is_bound(list.last().value) {
            constants_do_not_rebind(a.binder, b.binder, list.last().value);
        }
        assert(edge_wheres(a, list)->Ok_0.drop_last() =~= edge_wheres(a, list.drop_last())->Ok_0);
    }
}

proof fn nodes_grow(env: EnvV, c: CollectionV, list: Seq<PredicateV>, log: LogV)
    requires
        node_wheres(env, c, list, log) is Ok,
    ensures
        node_wheres(env, c, list, log)->Ok_0.1.refusals.len() >= log.refusals.len(),
    decreases list.len(),
{
    if list.len() > 0 {
        nodes_grow(env, c, list.drop_last(), log);
        filter_grows(env, c, list.last(), node_wheres(env, c, list.drop_last(), log)->Ok_0.1);
    }
}

proof fn nodes_same(a: EnvV, b: EnvV, c: CollectionV, list: Seq<PredicateV>, log: LogV)
    requires
        twins(a, b),
        node_wheres(a, c, list, log) is Ok,
        node_wheres(b, c, list, log) is Ok,
        refuses_nothing(log, node_wheres(a, c, list, log)->Ok_0.1),
        refuses_nothing(log, node_wheres(b, c, list, log)->Ok_0.1),
    ensures
        rebound_all(b.binder, node_wheres(a, c, list, log)->Ok_0.0) == Ok::<
            Seq<OwnedFilterV>,
            SqlErrorV,
        >(node_wheres(b, c, list, log)->Ok_0.0),
        node_wheres(a, c, list, log)->Ok_0.1 == node_wheres(b, c, list, log)->Ok_0.1,
    decreases list.len(),
{
    if list.len() > 0 {
        let x = node_wheres(a, c, list.drop_last(), log)->Ok_0;
        let y = node_wheres(b, c, list.drop_last(), log)->Ok_0;
        nodes_grow(a, c, list.drop_last(), log);
        nodes_grow(b, c, list.drop_last(), log);
        filter_grows(a, c, list.last(), x.1);
        filter_grows(b, c, list.last(), y.1);
        nodes_same(a, b, c, list.drop_last(), log);
        filter_same(a, b, c, list.last(), x.1);
        assert(node_wheres(a, c, list, log)->Ok_0.0.drop_last() =~= x.0);
    }
}

proof fn source_grows(env: EnvV, source: SourceV, log: LogV)
    requires
        source_of(env, source, log) is Ok,
    ensures
        source_of(env, source, log)->Ok_0.2.refusals.len() >= log.refusals.len(),
{
    if let SourceV::Graph(g) = source {
        let from = collection_of(env.binder.catalog, g.seed_collection)->Ok_0;
        let to = collection_of(env.binder.catalog, g.target_collection)->Ok_0;
        nodes_grow(env, to, g.node_predicates, pattern_log(*g, to.id != from.id, log));
    }
}

proof fn source_same(a: EnvV, b: EnvV, source: SourceV, log: LogV)
    requires
        twins(a, b),
        source_of(a, source, log) is Ok,
        source_of(b, source, log) is Ok,
        refuses_nothing(log, source_of(a, source, log)->Ok_0.2),
        refuses_nothing(log, source_of(b, source, log)->Ok_0.2),
    ensures
        source_of(a, source, log)->Ok_0.0 == source_of(b, source, log)->Ok_0.0,
        rebound_all(b.binder, source_of(a, source, log)->Ok_0.1) == Ok::<
            Seq<OwnedFilterV>,
            SqlErrorV,
        >(source_of(b, source, log)->Ok_0.1),
        source_of(a, source, log)->Ok_0.2 == source_of(b, source, log)->Ok_0.2,
{
    if let SourceV::Graph(g) = source {
        let from = collection_of(a.binder.catalog, g.seed_collection)->Ok_0;
        let to = collection_of(a.binder.catalog, g.target_collection)->Ok_0;
        nodes_same(a, b, to, g.node_predicates, pattern_log(*g, to.id != from.id, log));
        edges_same(a, b, g.hop.predicates);
        let f = source_of(a, source, log)->Ok_0.1;
        let f2 = source_of(b, source, log)->Ok_0.1;
        assert(rebound(b.binder, f[0]) == Ok::<OwnedFilterV, SqlErrorV>(f2[0]));
        assert(f.drop_last() =~= Seq::<OwnedFilterV>::empty());
        assert(rebound_all(b.binder, f.drop_last()) == Ok::<Seq<OwnedFilterV>, SqlErrorV>(
            Seq::empty(),
        ));
        assert(f2 =~= Seq::<OwnedFilterV>::empty().push(f2[0]));
    }
}

// ── the clauses of a select ──────────────────────────────────────────────

proof fn filters_grow(env: EnvV, c: CollectionV, parts: Seq<ExprV>, first: Seq<OwnedFilterV>, log: LogV)
    requires
        select_filters(env, c, parts, first, log) is Ok,
    ensures
        select_filters(env, c, parts, first, log)->Ok_0.1.refusals.len() >= log.refusals.len(),
    decreases parts.len(),
{
    if parts.len() > 0 {
        filters_grow(env, c, parts.drop_last(), first, log);
        if !is_constant(parts.last()) {
            let next = select_filters(env, c, parts.drop_last(), first, log)->Ok_0.1;
            where_grows(env, c, parts.last(), next);
        }
    }
}

proof fn filters_same(
    a: EnvV,
    b: EnvV,
    c: CollectionV,
    parts: Seq<ExprV>,
    first: Seq<OwnedFilterV>,
    first2: Seq<OwnedFilterV>,
    log: LogV,
)
    requires
        twins(a, b),
        rebound_all(b.binder, first) == Ok::<Seq<OwnedFilterV>, SqlErrorV>(first2),
        select_filters(a, c, parts, first, log) is Ok,
        select_filters(b, c, parts, first2, log) is Ok,
        refuses_nothing(log, select_filters(a, c, parts, first, log)->Ok_0.1),
        refuses_nothing(log, select_filters(b, c, parts, first2, log)->Ok_0.1),
    ensures
        rebound_all(b.binder, select_filters(a, c, parts, first, log)->Ok_0.0) == Ok::<
            Seq<OwnedFilterV>,
            SqlErrorV,
        >(select_filters(b, c, parts, first2, log)->Ok_0.0),
        select_filters(a, c, parts, first, log)->Ok_0.1 == select_filters(
            b,
            c,
            parts,
            first2,
            log,
        )->Ok_0.1,
    decreases parts.len(),
{
    if parts.len() > 0 {
        let x = select_filters(a, c, parts.drop_last(), first, log)->Ok_0;
        let y = select_filters(b, c, parts.drop_last(), first2, log)->Ok_0;
        filters_grow(a, c, parts.drop_last(), first, log);
        filters_grow(b, c, parts.drop_last(), first2, log);
        if is_constant(parts.last()) {
            filters_same(a, b, c, parts.drop_last(), first, first2, log);
        } else {
            where_grows(a, c, parts.last(), x.1);
            where_grows(b, c, parts.last(), y.1);
            filters_same(a, b, c, parts.drop_last(), first, first2, log);
            where_same(a, b, c, parts.last(), x.1);
            assert(select_filters(a, c, parts, first, log)->Ok_0.0.drop_last() =~= x.0);
        }
    }
}

proof fn score_same(a: EnvV, b: EnvV, c: CollectionV, node: ScoreNodeV, search: SearchLeafV)
    requires
        a.binder.catalog == b.binder.catalog,
        score_of(a, c, node, search) is Ok,
        score_of(b, c, node, search) is Ok,
    ensures
        rebound_score(b.binder, score_of(a, c, node, search)->Ok_0) == score_of(b, c, node, search),
    decreases node,
{
    match node {
        ScoreNodeV::Bm25 { column, query } => {
            if !is_bound(query.source) {
                constants_do_not_rebind(a.binder, b.binder, query.source);
            }
        },
        ScoreNodeV::VecDistance { column, query, op } => {
            if !is_bound(query) {
                constants_do_not_rebind(a.binder, b.binder, query);
            }
        },
        ScoreNodeV::Distance { column, point } => {
            if !point_bound(point) {
                point_same(a.binder, b.binder, point);
            }
        },
        ScoreNodeV::Add(x, y) | ScoreNodeV::Sub(x, y) | ScoreNodeV::Mul(x, y) | ScoreNodeV::Div(
            x,
            y,
        ) => {
            score_same(a, b, c, *x, search);
            score_same(a, b, c, *y, search);
        },
        ScoreNodeV::Neg(x) => {
            score_same(a, b, c, *x, search);
        },
        _ => {},
    }
}

proof fn order_same(a: EnvV, b: EnvV, c: CollectionV, s: SelectStmtV, log: LogV)
    requires
        twins(a, b),
        statement_order(a, c, s, log) is Ok,
        statement_order(b, c, s, log) is Ok,
    ensures
        rebound_order(b.binder, statement_order(a, c, s, log)->Ok_0.0) == Ok::<
            OwnedOrderV,
            SqlErrorV,
        >(statement_order(b, c, s, log)->Ok_0.0),
        statement_order(a, c, s, log)->Ok_0.1 == statement_order(b, c, s, log)->Ok_0.1,
        statement_order(a, c, s, log)->Ok_0.0 is Edge == statement_order(
            b,
            c,
            s,
            log,
        )->Ok_0.0 is Edge,
        refuses_nothing(log, statement_order(a, c, s, log)->Ok_0.1),
{
    if let Some(key) = s.order {
        match key {
            OrderKeyV::Distance { column, point, descending } => {
                if !point_bound(point) {
                    point_same(a.binder, b.binder, point);
                }
            },
            OrderKeyV::Vector { column, query, op, descending } => {
                if !is_bound(query) {
                    constants_do_not_rebind(a.binder, b.binder, query);
                }
            },
            OrderKeyV::Bm25 { column, query, descending } => {
                if !is_bound(query.source) {
                    constants_do_not_rebind(a.binder, b.binder, query.source);
                }
            },
            OrderKeyV::Score { expr, descending } => {
                score_same(a, b, c, expr, log.search);
            },
            _ => {},
        }
    }
}

proof fn row_grows(env: EnvV, c: CollectionV, e: RowExprV, fields: Seq<Seq<char>>, log: LogV)
    requires
        row_function(env, c, e, fields, log) is Ok,
    ensures
        row_function(env, c, e, fields, log)->Ok_0.2.refusals.len() >= log.refusals.len(),
    decreases e,
{
    match e {
        RowExprV::Extract { arg, .. } | RowExprV::Trunc { arg, .. } | RowExprV::ToChar { arg, .. }
        | RowExprV::ToTimestamp(arg) | RowExprV::ToDate(arg) | RowExprV::CastDate(arg)
        | RowExprV::CastText(arg) => {
            row_grows(env, c, *arg, fields, log);
        },
        RowExprV::Age { left, right } => {
            match right {
                None => {
                    row_grows(env, c, *left, fields, log.refused(CLOCK@));
                },
                Some(right) => {
                    row_grows(env, c, *left, fields, log);
                    let x = row_function(env, c, *left, fields, log)->Ok_0;
                    row_grows(env, c, *right, x.1, x.2);
                },
            }
        },
        RowExprV::Str { func, args } => {
            rows_grow(env, c, args, fields, log);
        },
        RowExprV::Add(l, r) | RowExprV::Sub(l, r) | RowExprV::Concat(l, r) => {
            row_grows(env, c, *l, fields, log);
            let x = row_function(env, c, *l, fields, log)->Ok_0;
            row_grows(env, c, *r, x.1, x.2);
        },
        _ => {},
    }
}

proof fn rows_grow(env: EnvV, c: CollectionV, args: Seq<RowExprV>, fields: Seq<Seq<char>>, log: LogV)
    requires
        row_functions(env, c, args, fields, log) is Ok,
    ensures
        row_functions(env, c, args, fields, log)->Ok_0.2.refusals.len() >= log.refusals.len(),
    decreases args,
{
    if args.len() > 0 {
        rows_grow(env, c, args.drop_last(), fields, log);
        let x = row_functions(env, c, args.drop_last(), fields, log)->Ok_0;
        row_grows(env, c, args.last(), x.1, x.2);
    }
}

proof fn row_same(a: EnvV, b: EnvV, c: CollectionV, e: RowExprV, fields: Seq<Seq<char>>, log: LogV)
    requires
        row_function(a, c, e, fields, log) is Ok,
        row_function(b, c, e, fields, log) is Ok,
        refuses_nothing(log, row_function(a, c, e, fields, log)->Ok_0.2),
    ensures
        row_function(a, c, e, fields, log) == row_function(b, c, e, fields, log),
    decreases e,
{
    match e {
        RowExprV::Lit(l) => {
            if !is_bound(l) {
                constants_do_not_rebind(a.binder, b.binder, l);
            }
        },
        RowExprV::Extract { arg, .. } | RowExprV::Trunc { arg, .. } | RowExprV::ToChar { arg, .. }
        | RowExprV::ToTimestamp(arg) | RowExprV::ToDate(arg) | RowExprV::CastDate(arg)
        | RowExprV::CastText(arg) => {
            row_same(a, b, c, *arg, fields, log);
        },
        RowExprV::Age { left, right } => {
            match right {
                None => {
                    row_grows(a, c, *left, fields, log.refused(CLOCK@));
                },
                Some(right) => {
                    row_grows(a, c, *left, fields, log);
                    let x = row_function(a, c, *left, fields, log)->Ok_0;
                    row_grows(a, c, *right, x.1, x.2);
                    row_same(a, b, c, *left, fields, log);
                    row_same(a, b, c, *right, x.1, x.2);
                },
            }
        },
        RowExprV::Str { func, args } => {
            rows_same(a, b, c, args, fields, log);
        },
        RowExprV::Add(l, r) | RowExprV::Sub(l, r) | RowExprV::Concat(l, r) => {
            row_grows(a, c, *l, fields, log);
            let x = row_function(a, c, *l, fields, log)->Ok_0;
            row_grows(a, c, *r, x.1, x.2);
            row_same(a, b, c, *l, fields, log);
            row_same(a, b, c, *r, x.1, x.2);
        },
        _ => {},
    }
}

proof fn rows_same(
    a: EnvV,
    b: EnvV,
    c: CollectionV,
    args: Seq<RowExprV>,
    fields: Seq<Seq<char>>,
    log: LogV,
)
    requires
        row_functions(a, c, args, fields, log) is Ok,
        row_functions(b, c, args, fields, log) is Ok,
        refuses_nothing(log, row_functions(a, c, args, fields, log)->Ok_0.2),
    ensures
        row_functions(a, c, args, fields, log) == row_functions(b, c, args, fields, log),
    decreases args,
{
    if args.len() > 0 {
        rows_grow(a, c, args.drop_last(), fields, log);
        let x = row_functions(a, c, args.drop_last(), fields, log)->Ok_0;
        row_grows(a, c, args.last(), x.1, x.2);
        rows_same(a, b, c, args.drop_last(), fields, log);
        row_same(a, b, c, args.last(), x.1, x.2);
    }
}

proof fn star_grows(c: CollectionV, fields: Seq<(Seq<char>, Kind)>, list: SelectListV, log: LogV)
    requires
        star_items(c, fields, list, log) is Ok,
    ensures
        refuses_nothing(log, star_items(c, fields, list, log)->Ok_0.1),
    decreases fields.len(),
{
    if fields.len() > 0 {
        star_grows(c, fields.drop_last(), list, log);
    }
}

proof fn item_grows(
    env: EnvV,
    c: CollectionV,
    ranked: bool,
    item: SelectItemV,
    alias: Option<Seq<char>>,
    list: SelectListV,
    log: LogV,
)
    requires
        select_item(env, c, ranked, item, alias, list, log) is Ok,
    ensures
        select_item(env, c, ranked, item, alias, list, log)->Ok_0.1.refusals.len()
            >= log.refusals.len(),
{
    match item {
        SelectItemV::Star => {
            star_grows(c, c.fields, list, log);
        },
        SelectItemV::Function(e) => {
            row_grows(env, c, *e, list.fields, log);
        },
        _ => {},
    }
}

proof fn item_same(
    a: EnvV,
    b: EnvV,
    c: CollectionV,
    ranked: bool,
    item: SelectItemV,
    alias: Option<Seq<char>>,
    list: SelectListV,
    log: LogV,
)
    requires
        select_item(a, c, ranked, item, alias, list, log) is Ok,
        select_item(b, c, ranked, item, alias, list, log) is Ok,
        refuses_nothing(log, select_item(a, c, ranked, item, alias, list, log)->Ok_0.1),
    ensures
        select_item(a, c, ranked, item, alias, list, log) == select_item(
            b,
            c,
            ranked,
            item,
            alias,
            list,
            log,
        ),
{
    if let SelectItemV::Function(e) = item {
        row_same(a, b, c, *e, list.fields, log);
    }
}

proof fn items_grow(
    env: EnvV,
    c: CollectionV,
    ranked: bool,
    items: Seq<(SelectItemV, Option<Seq<char>>)>,
    list: SelectListV,
    log: LogV,
)
    requires
        select_items(env, c, ranked, items, list, log) is Ok,
    ensures
        select_items(env, c, ranked, items, list, log)->Ok_0.1.refusals.len()
            >= log.refusals.len(),
    decreases items.len(),
{
    if items.len() > 0 {
        items_grow(env, c, ranked, items.drop_last(), list, log);
        let x = select_items(env, c, ranked, items.drop_last(), list, log)->Ok_0;
        item_grows(env, c, ranked, items.last().0, items.last().1, x.0, x.1);
    }
}

proof fn items_same(
    a: EnvV,
    b: EnvV,
    c: CollectionV,
    ranked: bool,
    items: Seq<(SelectItemV, Option<Seq<char>>)>,
    list: SelectListV,
    log: LogV,
)
    requires
        select_items(a, c, ranked, items, list, log) is Ok,
        select_items(b, c, ranked, items, list, log) is Ok,
        refuses_nothing(log, select_items(a, c, ranked, items, list, log)->Ok_0.1),
    ensures
        select_items(a, c, ranked, items, list, log) == select_items(b, c, ranked, items, list, log),
    decreases items.len(),
{
    if items.len() > 0 {
        let x = select_items(a, c, ranked, items.drop_last(), list, log)->Ok_0;
        items_grow(a, c, ranked, items.drop_last(), list, log);
        item_grows(a, c, ranked, items.last().0, items.last().1, x.0, x.1);
        items_same(a, b, c, ranked, items.drop_last(), list, log);
        item_same(a, b, c, ranked, items.last().0, items.last().1, x.0, x.1);
    }
}

proof fn columns_grow(
    env: EnvV,
    c: CollectionV,
    ranked: bool,
    items: Seq<(GraphColumnV, Seq<char>)>,
    list: SelectListV,
    log: LogV,
)
    requires
        graph_items(env, c, ranked, items, list, log) is Ok,
    ensures
        graph_items(env, c, ranked, items, list, log)->Ok_0.1.refusals.len() >= log.refusals.len(),
    decreases items.len(),
{
    if items.len() > 0 {
        columns_grow(env, c, ranked, items.drop_last(), list, log);
        let x = graph_items(env, c, ranked, items.drop_last(), list, log)->Ok_0;
        if let GraphColumnV::Node(item) = items.last().0 {
            item_grows(env, c, ranked, item, Some(items.last().1), x.0, x.1);
        }
    }
}

proof fn columns_same(
    a: EnvV,
    b: EnvV,
    c: CollectionV,
    ranked: bool,
    items: Seq<(GraphColumnV, Seq<char>)>,
    list: SelectListV,
    log: LogV,
)
    requires
        graph_items(a, c, ranked, items, list, log) is Ok,
        graph_items(b, c, ranked, items, list, log) is Ok,
        refuses_nothing(log, graph_items(a, c, ranked, items, list, log)->Ok_0.1),
    ensures
        graph_items(a, c, ranked, items, list, log) == graph_items(b, c, ranked, items, list, log),
    decreases items.len(),
{
    if items.len() > 0 {
        let x = graph_items(a, c, ranked, items.drop_last(), list, log)->Ok_0;
        columns_grow(a, c, ranked, items.drop_last(), list, log);
        if let GraphColumnV::Node(item) = items.last().0 {
            item_grows(a, c, ranked, item, Some(items.last().1), x.0, x.1);
            columns_same(a, b, c, ranked, items.drop_last(), list, log);
            item_same(a, b, c, ranked, item, Some(items.last().1), x.0, x.1);
        } else {
            columns_same(a, b, c, ranked, items.drop_last(), list, log);
        }
    }
}

// ── the driver ───────────────────────────────────────────────────────────

proof fn kind_kept(b: BinderV, f: OwnedFilterV)
    requires
        rebound(b, f) is Ok,
    ensures
        f is Key == rebound(b, f)->Ok_0 is Key,
        f is Graph == rebound(b, f)->Ok_0 is Graph,
{
}

/// Binding keeps the kind of every filter.
proof fn kinds_kept(b: BinderV, x: Seq<OwnedFilterV>)
    requires
        rebound_all(b, x) is Ok,
    ensures
        rebound_all(b, x)->Ok_0.len() == x.len(),
        forall|i: int|
            #![trigger x[i]]
            #![trigger rebound_all(b, x)->Ok_0[i]]
            0 <= i < x.len() ==> (x[i] is Key == rebound_all(b, x)->Ok_0[i] is Key) && (x[i] is Graph
                == rebound_all(b, x)->Ok_0[i] is Graph),
    decreases x.len(),
{
    if x.len() > 0 {
        kinds_kept(b, x.drop_last());
        let done = rebound_all(b, x.drop_last())->Ok_0;
        let y = rebound_all(b, x)->Ok_0;
        assert forall|i: int|
            #![trigger x[i]]
            #![trigger y[i]]
            0 <= i < x.len() implies (x[i] is Key == y[i] is Key) && (x[i] is Graph
            == y[i] is Graph) by {
            if i < x.len() - 1 {
                assert(x[i] == x.drop_last()[i]);
                assert(y[i] == done[i]);
            } else {
                assert(rebound(b, x[i]) == Ok::<OwnedFilterV, SqlErrorV>(y[i]));
                kind_kept(b, x[i]);
            }
        }
    }
}

proof fn driver_kept(b: BinderV, x: Seq<OwnedFilterV>)
    requires
        rebound_all(b, x) is Ok,
    ensures
        any_key_filter(rebound_all(b, x)->Ok_0) == any_key_filter(x),
        any_graph_filter(rebound_all(b, x)->Ok_0) == any_graph_filter(x),
{
    kinds_kept(b, x);
    let y = rebound_all(b, x)->Ok_0;
    if any_key_filter(x) {
        let i = choose|i: int| 0 <= i < x.len() && #[trigger] x[i] is Key;
        assert(y[i] is Key);
    }
    if any_key_filter(y) {
        let i = choose|i: int| 0 <= i < y.len() && #[trigger] y[i] is Key;
        assert(x[i] is Key);
    }
    if any_graph_filter(x) {
        let i = choose|i: int| 0 <= i < x.len() && #[trigger] x[i] is Graph;
        assert(y[i] is Graph);
    }
    if any_graph_filter(y) {
        let i = choose|i: int| 0 <= i < y.len() && #[trigger] y[i] is Graph;
        assert(x[i] is Graph);
    }
}

/// Binding a plan to new parameters gives the plan, and leaves the log, that
/// compiling its statement with those parameters gives, wherever both
/// compilations succeed and neither folded a value in.
pub proof fn rebinding_is_recompiling(a: EnvV, b: EnvV, s: SelectStmtV, log: LogV)
    requires
        twins(a, b),
        select_of(a, s, log) is Ok,
        select_of(b, s, log) is Ok,
        refuses_nothing(log, select_of(a, s, log)->Ok_0.1),
        refuses_nothing(log, select_of(b, s, log)->Ok_0.1),
    ensures
        rebound_select(b.binder, select_of(a, s, log)->Ok_0.0) == Ok::<SelectPlanV, SqlErrorV>(
            select_of(b, s, log)->Ok_0.0,
        ),
        select_of(a, s, log)->Ok_0.1 == select_of(b, s, log)->Ok_0.1,
{
    let start = if has_false(s.predicates) {
        log.noted(
            "a constant FALSE predicate: the statement returns no rows, so it compiles to LIMIT 0 -- no driver is stepped and no row is read"@,
        )
    } else {
        log
    };
    let x = source_of(a, s.source, start)->Ok_0;
    let y = source_of(b, s.source, start)->Ok_0;
    let f = select_filters(a, x.0, s.predicates, x.1, x.2)->Ok_0;
    let g = select_filters(b, y.0, s.predicates, y.1, y.2)->Ok_0;
    let o = statement_order(a, x.0, s, f.1)->Ok_0;
    let p = statement_order(b, y.0, s, g.1)->Ok_0;
    let empty = SelectListV {
        columns: Seq::empty(),
        outputs: Seq::empty(),
        fields: Seq::empty(),
        functions: Seq::empty(),
    };
    let ranked = s.order is Some;
    let columns = pattern_columns(s.source);
    source_grows(a, s.source, start);
    source_grows(b, s.source, start);
    filters_grow(a, x.0, s.predicates, x.1, x.2);
    filters_grow(b, y.0, s.predicates, y.1, y.2);
    order_same(a, a, x.0, s, f.1);
    order_same(b, b, y.0, s, g.1);
    if s.source is Graph {
        columns_grow(a, x.0, ranked, columns, empty, o.1);
        columns_grow(b, y.0, ranked, columns, empty, p.1);
    } else {
        items_grow(a, x.0, ranked, s.items, empty, o.1);
        items_grow(b, y.0, ranked, s.items, empty, p.1);
    }
    source_same(a, b, s.source, start);
    filters_same(a, b, x.0, s.predicates, x.1, y.1, x.2);
    order_same(a, b, x.0, s, f.1);
    if s.source is Graph {
        columns_same(a, b, x.0, ranked, columns, empty, o.1);
    } else {
        items_same(a, b, x.0, ranked, s.items, empty, o.1);
    }
    driver_kept(b.binder, f.0);
}

} // verus!
