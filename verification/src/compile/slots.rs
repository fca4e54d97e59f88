//! Binding a plan again keeps its shape: it writes values into the slots that
//! were marked when the statement was compiled, and changes nothing else.

use vstd::prelude::*;
use crate::ast::{CmpOp, ExprV, GeoArgV, LiteralV, PredicateV, SpatialPredicate, TsQueryV};
use crate::compile::bind::BinderV;
use crate::compile::env::{collection_of, index_for, kind_of, CollectionV, IndexFamily};
use crate::compile::graph::{node_wheres, pattern_log};
use crate::compile::log::{EnvV, LogV};
use crate::compile::plan::{
    Bound, GeometryFilterV, KeyAt, KeyFillV, OwnedEdgePredicateV, OwnedFilterV, OwnedOrderV,
    OwnedScalarFilterV, OwnedScoreV, PointFillV, ScalarAt, ScalarFillV, SelectPlanV,
};
use crate::compile::predicates::{
    between_filter, compare_filter, filter_of, in_leaves, key_filter, key_leaves, null_filter,
    scalar_fills, spatial_filter, text_predicate, union_of, where_filter, where_filters,
};
use crate::compile::rebind::{
    fill_edges, fill_keys, fill_scalars, rebound, rebound_all, rebound_score, rebound_select,
};
use crate::compile::select::{has_false, is_constant, select_filters, select_of, source_of};
use crate::error::SqlErrorV;
use crate::stmt::{SelectStmtV, SourceV};
use crate::value::Kind;

verus! {

// ── the shape of a filter ────────────────────────────────────────────────

/// Whether a slot of a scalar filter is at a position.
pub open spec fn slot_at(fills: Seq<ScalarFillV>, at: ScalarAt) -> bool {
    exists|k: int| 0 <= k < fills.len() && (#[trigger] fills[k]).at == at
}

/// Whether a slot of a key filter is at a position.
pub open spec fn key_slot_at(fills: Seq<KeyFillV>, at: KeyAt) -> bool {
    exists|k: int| 0 <= k < fills.len() && (#[trigger] fills[k]).at == at
}

/// Whether two bounds are both inclusive, both exclusive or both none.
pub open spec fn same_end<T>(a: Bound<T>, b: Bound<T>) -> bool {
    match (a, b) {
        (Bound::Included(_), Bound::Included(_)) => true,
        (Bound::Excluded(_), Bound::Excluded(_)) => true,
        (Bound::Unbounded, Bound::Unbounded) => true,
        _ => false,
    }
}

/// Whether an end is kept: its kind in any case, and its value where it has no
/// slot.
pub open spec fn end_kept<T>(a: Bound<T>, b: Bound<T>, slot: bool) -> bool {
    same_end(a, b) && (!slot ==> a == b)
}

/// Whether a scalar predicate is kept, but for the values of its slots.
pub open spec fn scalar_kept(
    p: OwnedScalarFilterV,
    q: OwnedScalarFilterV,
    fills: Seq<ScalarFillV>,
) -> bool {
    match (p, q) {
        (OwnedScalarFilterV::Eq(v), OwnedScalarFilterV::Eq(w)) => !slot_at(fills, ScalarAt::Eq)
            ==> v == w,
        (
            OwnedScalarFilterV::Range { lower: a, upper: b },
            OwnedScalarFilterV::Range { lower: c, upper: d },
        ) => end_kept(a, c, slot_at(fills, ScalarAt::Lower)) && end_kept(
            b,
            d,
            slot_at(fills, ScalarAt::Upper),
        ),
        (OwnedScalarFilterV::IsNull, OwnedScalarFilterV::IsNull) => true,
        (OwnedScalarFilterV::IsMissing, OwnedScalarFilterV::IsMissing) => true,
        _ => false,
    }
}

/// Whether two geometry predicates test the same relation.
pub open spec fn same_test(p: GeometryFilterV, q: GeometryFilterV) -> bool {
    match (p, q) {
        (GeometryFilterV::Intersects(_), GeometryFilterV::Intersects(_)) => true,
        (GeometryFilterV::Within(_), GeometryFilterV::Within(_)) => true,
        (GeometryFilterV::Contains(_), GeometryFilterV::Contains(_)) => true,
        (GeometryFilterV::DWithin { .. }, GeometryFilterV::DWithin { .. }) => true,
        _ => false,
    }
}

/// Whether the tests of a traversal's edges are kept, but for the values of
/// their slots.
pub open spec fn edges_kept(a: Seq<OwnedEdgePredicateV>, b: Seq<OwnedEdgePredicateV>) -> bool {
    &&& a.len() == b.len()
    &&& forall|k: int|
        #![trigger a[k]]
        #![trigger b[k]]
        0 <= k < a.len() ==> a[k].property == b[k].property && a[k].op == b[k].op && a[k].fill
            == b[k].fill && (a[k].fill is None ==> a[k].value == b[k].value)
}

/// Whether a filter is kept, but for the values of its slots: the tree, the
/// indexes, the slots themselves and the kind of every bound are the same, and
/// so is every value that has no slot.
pub open spec fn kept(f: OwnedFilterV, g: OwnedFilterV) -> bool
    decreases f,
{
    match (f, g) {
        (
            OwnedFilterV::Scalar { index: i, predicate: p, fills },
            OwnedFilterV::Scalar { index: j, predicate: q, fills: same },
        ) => i == j && fills == same && scalar_kept(p, q, fills),
        (
            OwnedFilterV::Key { lower: a, upper: b, fills },
            OwnedFilterV::Key { lower: c, upper: d, fills: same },
        ) => fills == same && end_kept(a, c, key_slot_at(fills, KeyAt::Lower)) && end_kept(
            b,
            d,
            key_slot_at(fills, KeyAt::Upper),
        ),
        (
            OwnedFilterV::Text { index: i, query: p, matching: m, fill },
            OwnedFilterV::Text { index: j, query: q, matching: n, fill: same },
        ) => i == j && fill == same && (fill is None ==> p == q && m == n),
        (
            OwnedFilterV::Point { index: i, predicate: p, fill },
            OwnedFilterV::Point { index: j, predicate: q, fill: same },
        ) => i == j && fill == same && (p is Radius == q is Radius) && (fill is None ==> p == q),
        (
            OwnedFilterV::Geometry { index: i, predicate: p, fill },
            OwnedFilterV::Geometry { index: j, predicate: q, fill: same },
        ) => i == j && fill == same && same_test(p, q) && (fill is None ==> p == q),
        (OwnedFilterV::Graph(x), OwnedFilterV::Graph(y)) => {
            &&& x.seed_fill == y.seed_fill
            &&& x.seed_fill is None ==> x.seed == y.seed
            &&& x.direction == y.direction
            &&& x.context == y.context
            &&& x.edge_type == y.edge_type
            &&& x.min_depth == y.min_depth
            &&& x.max_depth == y.max_depth
            &&& edges_kept(x.edge_where, y.edge_where)
            &&& all_kept(x.node_where, y.node_where)
        },
        (OwnedFilterV::Any(x), OwnedFilterV::Any(y)) => all_kept(x, y),
        (OwnedFilterV::All(x), OwnedFilterV::All(y)) => all_kept(x, y),
        (OwnedFilterV::Not(x), OwnedFilterV::Not(y)) => kept(*x, *y),
        (OwnedFilterV::Ids(x), OwnedFilterV::Ids(y)) => x == y,
        _ => false,
    }
}

pub open spec fn all_kept(x: Seq<OwnedFilterV>, y: Seq<OwnedFilterV>) -> bool
    decreases x,
{
    if x.len() != y.len() {
        false
    } else if x.len() == 0 {
        true
    } else {
        all_kept(x.drop_last(), y.drop_last()) && kept(x.last(), y.last())
    }
}

/// Whether every slot of a filter is at a position that the filter has.
pub open spec fn slots_fit(f: OwnedFilterV) -> bool
    decreases f,
{
    match f {
        OwnedFilterV::Scalar { predicate, fills, .. } => {
            &&& slot_at(fills, ScalarAt::Eq) ==> predicate is Eq
            &&& slot_at(fills, ScalarAt::Lower) ==> predicate is Range && !(predicate->lower
                is Unbounded)
            &&& slot_at(fills, ScalarAt::Upper) ==> predicate is Range && !(predicate->upper
                is Unbounded)
        },
        OwnedFilterV::Key { lower, upper, fills } => {
            &&& key_slot_at(fills, KeyAt::Lower) ==> !(lower is Unbounded)
            &&& key_slot_at(fills, KeyAt::Upper) ==> !(upper is Unbounded)
        },
        OwnedFilterV::Point { predicate, fill, .. } => match fill {
            Some(PointFillV::Radius { .. }) => predicate is Radius,
            Some(PointFillV::Bbox(_)) => !(predicate is Radius),
            None => true,
        },
        OwnedFilterV::Geometry { predicate, fill, .. } => match fill {
            Some(fill) => match fill.predicate {
                SpatialPredicate::Intersects => predicate is Intersects,
                SpatialPredicate::Within => predicate is Within,
                SpatialPredicate::Contains => predicate is Contains,
                SpatialPredicate::DWithin => predicate is DWithin,
            },
            None => true,
        },
        OwnedFilterV::Graph(g) => all_slots_fit(g.node_where),
        OwnedFilterV::Any(parts) => all_slots_fit(parts),
        OwnedFilterV::All(parts) => all_slots_fit(parts),
        OwnedFilterV::Not(inner) => slots_fit(*inner),
        OwnedFilterV::Text { .. } => true,
        OwnedFilterV::Ids(_) => true,
    }
}

pub open spec fn all_slots_fit(parts: Seq<OwnedFilterV>) -> bool
    decreases parts,
{
    if parts.len() == 0 {
        true
    } else {
        all_slots_fit(parts.drop_last()) && slots_fit(parts.last())
    }
}

// ── the shape is kept ────────────────────────────────────────────────────

proof fn slot_last(fills: Seq<ScalarFillV>, at: ScalarAt)
    requires
        fills.len() > 0,
    ensures
        slot_at(fills, at) <==> slot_at(fills.drop_last(), at) || fills.last().at == at,
{
    if slot_at(fills.drop_last(), at) {
        let k = choose|k: int|
            0 <= k < fills.drop_last().len() && (#[trigger] fills.drop_last()[k]).at == at;
        assert(fills[k].at == at);
    }
    if slot_at(fills, at) {
        let k = choose|k: int| 0 <= k < fills.len() && (#[trigger] fills[k]).at == at;
        if k < fills.len() - 1 {
            assert(fills.drop_last()[k].at == at);
        }
    }
    if fills.last().at == at {
        assert(fills[fills.len() - 1].at == at);
    }
}

proof fn key_slot_last(fills: Seq<KeyFillV>, at: KeyAt)
    requires
        fills.len() > 0,
    ensures
        key_slot_at(fills, at) <==> key_slot_at(fills.drop_last(), at) || fills.last().at == at,
{
    if key_slot_at(fills.drop_last(), at) {
        let k = choose|k: int|
            0 <= k < fills.drop_last().len() && (#[trigger] fills.drop_last()[k]).at == at;
        assert(fills[k].at == at);
    }
    if key_slot_at(fills, at) {
        let k = choose|k: int| 0 <= k < fills.len() && (#[trigger] fills[k]).at == at;
        if k < fills.len() - 1 {
            assert(fills.drop_last()[k].at == at);
        }
    }
    if fills.last().at == at {
        assert(fills[fills.len() - 1].at == at);
    }
}

proof fn scalars_kept(b: BinderV, p: OwnedScalarFilterV, fills: Seq<ScalarFillV>)
    requires
        fill_scalars(b, p, fills) is Ok,
        slot_at(fills, ScalarAt::Lower) ==> p is Range && !(p->lower is Unbounded),
        slot_at(fills, ScalarAt::Upper) ==> p is Range && !(p->upper is Unbounded),
    ensures
        scalar_kept(p, fill_scalars(b, p, fills)->Ok_0, fills),
    decreases fills.len(),
{
    if fills.len() > 0 {
        slot_last(fills, ScalarAt::Eq);
        slot_last(fills, ScalarAt::Lower);
        slot_last(fills, ScalarAt::Upper);
        scalars_kept(b, p, fills.drop_last());
    }
}

proof fn keys_kept(
    b: BinderV,
    lower: Bound<Seq<char>>,
    upper: Bound<Seq<char>>,
    fills: Seq<KeyFillV>,
)
    requires
        fill_keys(b, lower, upper, fills) is Ok,
        key_slot_at(fills, KeyAt::Lower) ==> !(lower is Unbounded),
        key_slot_at(fills, KeyAt::Upper) ==> !(upper is Unbounded),
    ensures
        end_kept(lower, fill_keys(b, lower, upper, fills)->Ok_0.0, key_slot_at(fills, KeyAt::Lower)),
        end_kept(upper, fill_keys(b, lower, upper, fills)->Ok_0.1, key_slot_at(fills, KeyAt::Upper)),
    decreases fills.len(),
{
    if fills.len() > 0 {
        key_slot_last(fills, KeyAt::Lower);
        key_slot_last(fills, KeyAt::Upper);
        keys_kept(b, lower, upper, fills.drop_last());
    }
}

proof fn filled_edges_kept(b: BinderV, list: Seq<OwnedEdgePredicateV>)
    requires
        fill_edges(b, list) is Ok,
    ensures
        edges_kept(list, fill_edges(b, list)->Ok_0),
    decreases list.len(),
{
    if list.len() > 0 {
        filled_edges_kept(b, list.drop_last());
        let done = fill_edges(b, list.drop_last())->Ok_0;
        let all = fill_edges(b, list)->Ok_0;
        assert forall|k: int|
            #![trigger list[k]]
            #![trigger all[k]]
            0 <= k < list.len() implies list[k].property == all[k].property && list[k].op
            == all[k].op && list[k].fill == all[k].fill && (list[k].fill is None ==> list[k].value
            == all[k].value) by {
            if k < list.len() - 1 {
                assert(list[k] == list.drop_last()[k]);
                assert(all[k] == done[k]);
            }
        }
    }
}

/// Binding a filter again keeps it, but for the values of its slots: the tree,
/// the indexes, the slots and the kind of every bound stay, and so does every
/// value that has no slot.
pub proof fn rebinding_keeps_the_shape(b: BinderV, f: OwnedFilterV)
    requires
        slots_fit(f),
        rebound(b, f) is Ok,
    ensures
        kept(f, rebound(b, f)->Ok_0),
        slots_fit(rebound(b, f)->Ok_0),
    decreases f,
{
    match f {
        OwnedFilterV::Scalar { predicate, fills, .. } => {
            scalars_kept(b, predicate, fills);
        },
        OwnedFilterV::Key { lower, upper, fills } => {
            keys_kept(b, lower, upper, fills);
        },
        OwnedFilterV::Graph(g) => {
            filled_edges_kept(b, g.edge_where);
            all_keep_the_shape(b, g.node_where);
        },
        OwnedFilterV::Any(parts) | OwnedFilterV::All(parts) => {
            all_keep_the_shape(b, parts);
        },
        OwnedFilterV::Not(inner) => {
            rebinding_keeps_the_shape(b, *inner);
        },
        _ => {},
    }
}

proof fn all_keep_the_shape(b: BinderV, parts: Seq<OwnedFilterV>)
    requires
        all_slots_fit(parts),
        rebound_all(b, parts) is Ok,
    ensures
        all_kept(parts, rebound_all(b, parts)->Ok_0),
        all_slots_fit(rebound_all(b, parts)->Ok_0),
    decreases parts,
{
    if parts.len() > 0 {
        all_keep_the_shape(b, parts.drop_last());
        rebinding_keeps_the_shape(b, parts.last());
        let done = rebound_all(b, parts.drop_last())->Ok_0;
        let all = rebound_all(b, parts)->Ok_0;
        assert(all.drop_last() =~= done);
        all_kept_length(parts.drop_last(), done);
    }
}

proof fn all_kept_length(x: Seq<OwnedFilterV>, y: Seq<OwnedFilterV>)
    requires
        all_kept(x, y),
    ensures
        x.len() == y.len(),
{
}

// ── a second time ────────────────────────────────────────────────────────

/// Whether an end takes a value in the same way.
spec fn same_take<T>(a: Bound<T>, b: Bound<T>) -> bool {
    a is Excluded == b is Excluded
}

/// Whether two predicates agree but for the values at some positions.
spec fn agree(
    p: OwnedScalarFilterV,
    q: OwnedScalarFilterV,
    eq: bool,
    low: bool,
    high: bool,
) -> bool {
    match (p, q) {
        (OwnedScalarFilterV::Eq(v), OwnedScalarFilterV::Eq(w)) => eq ==> v == w,
        (
            OwnedScalarFilterV::Range { lower: a, upper: b },
            OwnedScalarFilterV::Range { lower: c, upper: d },
        ) => same_take(a, c) && same_take(b, d) && (low ==> a == c) && (high ==> b == d),
        (OwnedScalarFilterV::IsNull, OwnedScalarFilterV::IsNull) => true,
        (OwnedScalarFilterV::IsMissing, OwnedScalarFilterV::IsMissing) => true,
        _ => false,
    }
}

/// Filling predicates that agree gives predicates that agree, and they agree
/// at every position that was filled.
proof fn fills_agree(
    b: BinderV,
    p: OwnedScalarFilterV,
    q: OwnedScalarFilterV,
    fills: Seq<ScalarFillV>,
    eq: bool,
    low: bool,
    high: bool,
)
    requires
        agree(p, q, eq, low, high),
        fill_scalars(b, p, fills) is Ok,
    ensures
        fill_scalars(b, q, fills) is Ok,
        agree(
            fill_scalars(b, p, fills)->Ok_0,
            fill_scalars(b, q, fills)->Ok_0,
            eq || slot_at(fills, ScalarAt::Eq),
            low || slot_at(fills, ScalarAt::Lower),
            high || slot_at(fills, ScalarAt::Upper),
        ),
    decreases fills.len(),
{
    if fills.len() > 0 {
        slot_last(fills, ScalarAt::Eq);
        slot_last(fills, ScalarAt::Lower);
        slot_last(fills, ScalarAt::Upper);
        fills_agree(b, p, q, fills.drop_last(), eq, low, high);
    }
}

/// Filling a predicate leaves what has no slot.
proof fn filled_agrees(b: BinderV, p: OwnedScalarFilterV, fills: Seq<ScalarFillV>)
    requires
        fill_scalars(b, p, fills) is Ok,
    ensures
        agree(
            p,
            fill_scalars(b, p, fills)->Ok_0,
            !slot_at(fills, ScalarAt::Eq),
            !slot_at(fills, ScalarAt::Lower),
            !slot_at(fills, ScalarAt::Upper),
        ),
    decreases fills.len(),
{
    if fills.len() > 0 {
        slot_last(fills, ScalarAt::Eq);
        slot_last(fills, ScalarAt::Lower);
        slot_last(fills, ScalarAt::Upper);
        filled_agrees(b, p, fills.drop_last());
    }
}

proof fn scalars_twice(b: BinderV, p: OwnedScalarFilterV, fills: Seq<ScalarFillV>)
    requires
        fill_scalars(b, p, fills) is Ok,
    ensures
        fill_scalars(b, fill_scalars(b, p, fills)->Ok_0, fills) == fill_scalars(b, p, fills),
{
    let q = fill_scalars(b, p, fills)->Ok_0;
    filled_agrees(b, p, fills);
    fills_agree(
        b,
        p,
        q,
        fills,
        !slot_at(fills, ScalarAt::Eq),
        !slot_at(fills, ScalarAt::Lower),
        !slot_at(fills, ScalarAt::Upper),
    );
}

proof fn keys_agree(
    b: BinderV,
    p: (Bound<Seq<char>>, Bound<Seq<char>>),
    q: (Bound<Seq<char>>, Bound<Seq<char>>),
    fills: Seq<KeyFillV>,
    low: bool,
    high: bool,
)
    requires
        same_take(p.0, q.0),
        same_take(p.1, q.1),
        low ==> p.0 == q.0,
        high ==> p.1 == q.1,
        fill_keys(b, p.0, p.1, fills) is Ok,
    ensures
        fill_keys(b, q.0, q.1, fills) is Ok,
        ({
            let x = fill_keys(b, p.0, p.1, fills)->Ok_0;
            let y = fill_keys(b, q.0, q.1, fills)->Ok_0;
            &&& same_take(x.0, y.0)
            &&& same_take(x.1, y.1)
            &&& low || key_slot_at(fills, KeyAt::Lower) ==> x.0 == y.0
            &&& high || key_slot_at(fills, KeyAt::Upper) ==> x.1 == y.1
        }),
    decreases fills.len(),
{
    if fills.len() > 0 {
        key_slot_last(fills, KeyAt::Lower);
        key_slot_last(fills, KeyAt::Upper);
        keys_agree(b, p, q, fills.drop_last(), low, high);
    }
}

proof fn filled_keys_agree(
    b: BinderV,
    lower: Bound<Seq<char>>,
    upper: Bound<Seq<char>>,
    fills: Seq<KeyFillV>,
)
    requires
        fill_keys(b, lower, upper, fills) is Ok,
    ensures
        ({
            let x = fill_keys(b, lower, upper, fills)->Ok_0;
            &&& same_take(lower, x.0)
            &&& same_take(upper, x.1)
            &&& !key_slot_at(fills, KeyAt::Lower) ==> lower == x.0
            &&& !key_slot_at(fills, KeyAt::Upper) ==> upper == x.1
        }),
    decreases fills.len(),
{
    if fills.len() > 0 {
        key_slot_last(fills, KeyAt::Lower);
        key_slot_last(fills, KeyAt::Upper);
        filled_keys_agree(b, lower, upper, fills.drop_last());
    }
}

proof fn edges_twice(b: BinderV, list: Seq<OwnedEdgePredicateV>)
    requires
        fill_edges(b, list) is Ok,
    ensures
        fill_edges(b, fill_edges(b, list)->Ok_0) == fill_edges(b, list),
    decreases list.len(),
{
    if list.len() > 0 {
        edges_twice(b, list.drop_last());
        let done = fill_edges(b, list.drop_last())->Ok_0;
        assert(fill_edges(b, list)->Ok_0.drop_last() =~= done);
    }
}

/// Binding a filter a second time to the same parameters changes nothing.
pub proof fn rebinding_twice_is_once(b: BinderV, f: OwnedFilterV)
    requires
        rebound(b, f) is Ok,
    ensures
        rebound(b, rebound(b, f)->Ok_0) == rebound(b, f),
    decreases f,
{
    match f {
        OwnedFilterV::Scalar { predicate, fills, .. } => {
            scalars_twice(b, predicate, fills);
        },
        OwnedFilterV::Key { lower, upper, fills } => {
            let x = fill_keys(b, lower, upper, fills)->Ok_0;
            filled_keys_agree(b, lower, upper, fills);
            keys_agree(
                b,
                (lower, upper),
                x,
                fills,
                !key_slot_at(fills, KeyAt::Lower),
                !key_slot_at(fills, KeyAt::Upper),
            );
        },
        OwnedFilterV::Graph(g) => {
            edges_twice(b, g.edge_where);
            all_twice(b, g.node_where);
        },
        OwnedFilterV::Any(parts) | OwnedFilterV::All(parts) => {
            all_twice(b, parts);
        },
        OwnedFilterV::Not(inner) => {
            rebinding_twice_is_once(b, *inner);
        },
        _ => {},
    }
}

proof fn all_twice(b: BinderV, parts: Seq<OwnedFilterV>)
    requires
        rebound_all(b, parts) is Ok,
    ensures
        rebound_all(b, rebound_all(b, parts)->Ok_0) == rebound_all(b, parts),
    decreases parts,
{
    if parts.len() > 0 {
        all_twice(b, parts.drop_last());
        rebinding_twice_is_once(b, parts.last());
        let done = rebound_all(b, parts.drop_last())->Ok_0;
        assert(rebound_all(b, parts)->Ok_0.drop_last() =~= done);
    }
}

proof fn score_twice(b: BinderV, s: OwnedScoreV)
    requires
        rebound_score(b, s) is Ok,
    ensures
        rebound_score(b, rebound_score(b, s)->Ok_0) == rebound_score(b, s),
    decreases s,
{
    match s {
        OwnedScoreV::Add(x, y) | OwnedScoreV::Sub(x, y) | OwnedScoreV::Mul(x, y)
        | OwnedScoreV::Div(x, y) => {
            score_twice(b, *x);
            score_twice(b, *y);
        },
        OwnedScoreV::Neg(x) => {
            score_twice(b, *x);
        },
        _ => {},
    }
}

/// Binding a whole `SELECT` a second time to the same parameters changes
/// nothing.
pub proof fn rebinding_a_plan_twice_is_once(b: BinderV, p: SelectPlanV)
    requires
        rebound_select(b, p) is Ok,
    ensures
        rebound_select(b, rebound_select(b, p)->Ok_0) == rebound_select(b, p),
{
    all_twice(b, p.filters);
    if let OwnedOrderV::Score { expr, .. } = p.order {
        score_twice(b, expr);
    }
}

// ── no slots ─────────────────────────────────────────────────────────────

/// Whether a filter has no slot.
pub open spec fn slotless(f: OwnedFilterV) -> bool
    decreases f,
{
    match f {
        OwnedFilterV::Scalar { fills, .. } => fills.len() == 0,
        OwnedFilterV::Key { fills, .. } => fills.len() == 0,
        OwnedFilterV::Text { fill, .. } => fill is None,
        OwnedFilterV::Point { fill, .. } => fill is None,
        OwnedFilterV::Geometry { fill, .. } => fill is None,
        OwnedFilterV::Graph(g) => {
            &&& g.seed_fill is None
            &&& forall|k: int| 0 <= k < g.edge_where.len() ==> (#[trigger] g.edge_where[k]).fill
                is None
            &&& all_slotless(g.node_where)
        },
        OwnedFilterV::Any(parts) => all_slotless(parts),
        OwnedFilterV::All(parts) => all_slotless(parts),
        OwnedFilterV::Not(inner) => slotless(*inner),
        OwnedFilterV::Ids(_) => true,
    }
}

pub open spec fn all_slotless(parts: Seq<OwnedFilterV>) -> bool
    decreases parts,
{
    if parts.len() == 0 {
        true
    } else {
        all_slotless(parts.drop_last()) && slotless(parts.last())
    }
}

proof fn edges_unchanged(b: BinderV, list: Seq<OwnedEdgePredicateV>)
    requires
        forall|k: int| 0 <= k < list.len() ==> (#[trigger] list[k]).fill is None,
    ensures
        fill_edges(b, list) == Ok::<Seq<OwnedEdgePredicateV>, SqlErrorV>(list),
    decreases list.len(),
{
    if list.len() > 0 {
        assert forall|k: int| 0 <= k < list.drop_last().len() implies (
        #[trigger] list.drop_last()[k]).fill is None by {
            assert(list[k].fill is None);
        }
        assert(list[list.len() - 1].fill is None);
        edges_unchanged(b, list.drop_last());
        assert(list.drop_last().push(list.last()) =~= list);
    } else {
        assert(list =~= Seq::empty());
    }
}

/// A filter without slots is left as it is, whatever the parameters are.
pub proof fn slotless_is_unchanged(b: BinderV, f: OwnedFilterV)
    requires
        slotless(f),
    ensures
        rebound(b, f) == Ok::<OwnedFilterV, SqlErrorV>(f),
    decreases f,
{
    match f {
        OwnedFilterV::Scalar { fills, .. } => {
            assert(fills =~= Seq::empty());
        },
        OwnedFilterV::Key { fills, .. } => {
            assert(fills =~= Seq::empty());
        },
        OwnedFilterV::Graph(g) => {
            edges_unchanged(b, g.edge_where);
            all_unchanged(b, g.node_where);
        },
        OwnedFilterV::Any(parts) | OwnedFilterV::All(parts) => {
            all_unchanged(b, parts);
        },
        OwnedFilterV::Not(inner) => {
            slotless_is_unchanged(b, *inner);
        },
        _ => {},
    }
}

proof fn all_unchanged(b: BinderV, parts: Seq<OwnedFilterV>)
    requires
        all_slotless(parts),
    ensures
        rebound_all(b, parts) == Ok::<Seq<OwnedFilterV>, SqlErrorV>(parts),
    decreases parts,
{
    if parts.len() > 0 {
        all_unchanged(b, parts.drop_last());
        slotless_is_unchanged(b, parts.last());
        assert(parts.drop_last().push(parts.last()) =~= parts);
    } else {
        assert(parts =~= Seq::empty());
    }
}

// ── what is compiled ─────────────────────────────────────────────────────

proof fn one_slot(kind: Kind, l: LiteralV, column: Seq<char>, at: ScalarAt)
    ensures
        forall|other: ScalarAt| slot_at(scalar_fills(kind, l, column, at), other) ==> other == at,
{
}

proof fn two_slots(x: Seq<ScalarFillV>, y: Seq<ScalarFillV>, at: ScalarAt)
    ensures
        slot_at(x + y, at) ==> slot_at(x, at) || slot_at(y, at),
{
    if slot_at(x + y, at) {
        let k = choose|k: int| 0 <= k < (x + y).len() && (#[trigger] (x + y)[k]).at == at;
        if k < x.len() {
            assert(x[k].at == at);
        } else {
            assert(y[k - x.len()].at == at);
        }
    }
}

proof fn compare_fits(env: EnvV, c: CollectionV, column: Seq<char>, op: CmpOp, l: LiteralV)
    ensures
        compare_filter(env, c, column, op, l) is Ok ==> slots_fit(
            compare_filter(env, c, column, op, l)->Ok_0,
        ),
{
    if let Ok(kind) = kind_of(c, column) {
        one_slot(kind, l, column, crate::compile::predicates::slot_at(op));
    }
    if compare_filter(env, c, column, op, l) is Ok {
        if let OwnedFilterV::Not(inner) = compare_filter(env, c, column, op, l)->Ok_0 {
            assert(slots_fit(*inner));
        }
    }
}

proof fn between_fits(env: EnvV, c: CollectionV, column: Seq<char>, lower: LiteralV, upper: LiteralV)
    ensures
        between_filter(env, c, column, lower, upper) is Ok ==> slots_fit(
            between_filter(env, c, column, lower, upper)->Ok_0,
        ),
{
    if let Ok(kind) = kind_of(c, column) {
        let x = scalar_fills(kind, lower, column, ScalarAt::Lower);
        let y = scalar_fills(kind, upper, column, ScalarAt::Upper);
        one_slot(kind, lower, column, ScalarAt::Lower);
        one_slot(kind, upper, column, ScalarAt::Upper);
        two_slots(x, y, ScalarAt::Eq);
    }
}

proof fn key_fits(env: EnvV, op: CmpOp, l: LiteralV)
    ensures
        key_filter(env, op, l) is Ok ==> slots_fit(key_filter(env, op, l)->Ok_0),
{
    if key_filter(env, op, l) is Ok {
        if let OwnedFilterV::Not(inner) = key_filter(env, op, l)->Ok_0 {
            assert(slots_fit(*inner));
        }
    }
}

proof fn null_fits(c: CollectionV, column: Seq<char>, missing: bool, negated: bool)
    ensures
        null_filter(c, column, missing, negated) is Ok ==> slots_fit(
            null_filter(c, column, missing, negated)->Ok_0,
        ),
{
    if null_filter(c, column, missing, negated) is Ok {
        if let OwnedFilterV::Not(inner) = null_filter(c, column, missing, negated)->Ok_0 {
            assert(slots_fit(*inner));
        }
    }
}

proof fn text_fits(env: EnvV, c: CollectionV, column: Seq<char>, q: TsQueryV, log: LogV)
    ensures
        text_predicate(env, c, column, q, log) is Ok ==> slots_fit(
            text_predicate(env, c, column, q, log)->Ok_0.0,
        ),
{
    if text_predicate(env, c, column, q, log) is Ok {
        if let OwnedFilterV::Not(inner) = text_predicate(env, c, column, q, log)->Ok_0.0 {
            assert(slots_fit(*inner));
        }
    }
}

proof fn spatial_fits(
    env: EnvV,
    c: CollectionV,
    predicate: SpatialPredicate,
    column: Seq<char>,
    g: GeoArgV,
    metres: Option<LiteralV>,
)
    ensures
        spatial_filter(env, c, predicate, column, g, metres) is Ok ==> slots_fit(
            spatial_filter(env, c, predicate, column, g, metres)->Ok_0,
        ),
{
}

proof fn leaves_fit(
    env: EnvV,
    kind: Kind,
    index: u64,
    column: Seq<char>,
    values: Seq<LiteralV>,
)
    requires
        in_leaves(env, kind, index, column, values) is Ok,
    ensures
        all_slots_fit(in_leaves(env, kind, index, column, values)->Ok_0),
    decreases values.len(),
{
    if values.len() > 0 {
        leaves_fit(env, kind, index, column, values.drop_last());
        one_slot(kind, values.last(), column, ScalarAt::Eq);
        let list = in_leaves(env, kind, index, column, values)->Ok_0;
        assert(list.drop_last() =~= in_leaves(env, kind, index, column, values.drop_last())->Ok_0);
        assert(slots_fit(list.last()));
    }
}

proof fn keys_fit(env: EnvV, values: Seq<LiteralV>)
    requires
        key_leaves(env, values) is Ok,
    ensures
        all_slots_fit(key_leaves(env, values)->Ok_0),
    decreases values.len(),
{
    if values.len() > 0 {
        keys_fit(env, values.drop_last());
        let list = key_leaves(env, values)->Ok_0;
        assert(list.drop_last() =~= key_leaves(env, values.drop_last())->Ok_0);
        assert(slots_fit(list.last()));
    }
}

proof fn union_fits(leaves: Seq<OwnedFilterV>)
    requires
        all_slots_fit(leaves),
    ensures
        slots_fit(union_of(leaves)),
{
    if leaves.len() == 1 {
        assert(leaves.last() == leaves[0]);
    }
}

proof fn predicate_slots_fit(env: EnvV, c: CollectionV, p: PredicateV, log: LogV)
    requires
        filter_of(env, c, p, log) is Ok,
    ensures
        slots_fit(filter_of(env, c, p, log)->Ok_0.0),
{
    reveal(filter_of);
    match p {
        PredicateV::Compare { column, op, value } => {
            compare_fits(env, c, column, op, value);
        },
        PredicateV::Between { column, lower, upper } => {
            between_fits(env, c, column, lower, upper);
        },
        PredicateV::IsNull { column, negated } => {
            null_fits(c, column, false, negated);
        },
        PredicateV::IsMissing { column } => {
            null_fits(c, column, true, false);
        },
        PredicateV::KeyCompare { op, value } => {
            key_fits(env, op, value);
        },
        PredicateV::InList { column, values } => {
            let kind = kind_of(c, column)->Ok_0;
            let index = index_for(c, column, IndexFamily::Scalar, "a scalar index"@)->Ok_0;
            leaves_fit(env, kind, index, column, values);
            union_fits(in_leaves(env, kind, index, column, values)->Ok_0);
        },
        PredicateV::KeyInList { values } => {
            keys_fit(env, values);
            union_fits(key_leaves(env, values)->Ok_0);
        },
        PredicateV::Text { column, query } => {
            text_fits(env, c, column, query, log);
        },
        PredicateV::Spatial { predicate, column, argument, metres } => {
            spatial_fits(env, c, predicate, column, argument, metres);
        },
        _ => {},
    }
}

/// Every slot of a compiled condition is at a position that its filter has.
pub proof fn compiled_slots_fit(env: EnvV, c: CollectionV, e: ExprV, log: LogV)
    requires
        where_filter(env, c, e, log) is Ok,
    ensures
        slots_fit(where_filter(env, c, e, log)->Ok_0.0),
    decreases e,
{
    match e {
        ExprV::Leaf(p) => {
            predicate_slots_fit(env, c, p, log);
        },
        ExprV::Not(inner) => {
            compiled_slots_fit(env, c, *inner, log);
        },
        ExprV::And(parts) | ExprV::Or(parts) => {
            all_compiled_fit(env, c, parts, log);
        },
    }
}

proof fn all_compiled_fit(env: EnvV, c: CollectionV, parts: Seq<ExprV>, log: LogV)
    requires
        where_filters(env, c, parts, log) is Ok,
    ensures
        all_slots_fit(where_filters(env, c, parts, log)->Ok_0.0),
    decreases parts,
{
    if parts.len() > 0 {
        all_compiled_fit(env, c, parts.drop_last(), log);
        let (done, next) = where_filters(env, c, parts.drop_last(), log)->Ok_0;
        compiled_slots_fit(env, c, parts.last(), next);
        assert(where_filters(env, c, parts, log)->Ok_0.0.drop_last() =~= done);
    }
}

proof fn nodes_fit(env: EnvV, c: CollectionV, list: Seq<PredicateV>, log: LogV)
    requires
        node_wheres(env, c, list, log) is Ok,
    ensures
        all_slots_fit(node_wheres(env, c, list, log)->Ok_0.0),
    decreases list.len(),
{
    if list.len() > 0 {
        nodes_fit(env, c, list.drop_last(), log);
        let (done, next) = node_wheres(env, c, list.drop_last(), log)->Ok_0;
        predicate_slots_fit(env, c, list.last(), next);
        assert(node_wheres(env, c, list, log)->Ok_0.0.drop_last() =~= done);
    }
}

proof fn source_fits(env: EnvV, source: SourceV, log: LogV)
    requires
        source_of(env, source, log) is Ok,
    ensures
        all_slots_fit(source_of(env, source, log)->Ok_0.1),
{
    if let SourceV::Graph(g) = source {
        let from = collection_of(env.binder.catalog, g.seed_collection)->Ok_0;
        let to = collection_of(env.binder.catalog, g.target_collection)->Ok_0;
        nodes_fit(env, to, g.node_predicates, pattern_log(*g, to.id != from.id, log));
        let f = source_of(env, source, log)->Ok_0.1;
        assert(f.drop_last() =~= Seq::<OwnedFilterV>::empty());
        assert(all_slots_fit(f.drop_last()));
        assert(slots_fit(f.last()));
    }
}

proof fn filters_fit(
    env: EnvV,
    c: CollectionV,
    parts: Seq<ExprV>,
    first: Seq<OwnedFilterV>,
    log: LogV,
)
    requires
        select_filters(env, c, parts, first, log) is Ok,
        all_slots_fit(first),
    ensures
        all_slots_fit(select_filters(env, c, parts, first, log)->Ok_0.0),
    decreases parts.len(),
{
    if parts.len() > 0 {
        filters_fit(env, c, parts.drop_last(), first, log);
        if !is_constant(parts.last()) {
            let (done, next) = select_filters(env, c, parts.drop_last(), first, log)->Ok_0;
            compiled_slots_fit(env, c, parts.last(), next);
            assert(select_filters(env, c, parts, first, log)->Ok_0.0.drop_last() =~= done);
        }
    }
}

/// Binding the plan of a `SELECT` again keeps each of its filters, but for the
/// values of the slots, and everything but the filters and the order.
pub proof fn rebound_select_is_kept(env: EnvV, s: SelectStmtV, log: LogV, b: BinderV)
    requires
        select_of(env, s, log) is Ok,
        rebound_select(b, select_of(env, s, log)->Ok_0.0) is Ok,
    ensures
        ({
            let p = select_of(env, s, log)->Ok_0.0;
            let q = rebound_select(b, p)->Ok_0;
            &&& all_kept(p.filters, q.filters)
            &&& q == SelectPlanV { filters: q.filters, order: q.order, ..p }
        }),
{
    let start = if has_false(s.predicates) {
        log.noted(
            "a constant FALSE predicate: the statement returns no rows, so it compiles to LIMIT 0 -- no driver is stepped and no row is read"@,
        )
    } else {
        log
    };
    let (c, first, next) = source_of(env, s.source, start)->Ok_0;
    source_fits(env, s.source, start);
    filters_fit(env, c, s.predicates, first, next);
    all_keep_the_shape(b, select_of(env, s, log)->Ok_0.0.filters);
}

} // verus!
