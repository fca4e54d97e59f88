//! Every filter of a plan is answered from an index that is there.

use vstd::prelude::*;
use crate::ast::{
    CmpOp, ExprV, GeoArgV, LiteralV, PredicateV, SpatialPredicate, TextShapeV, TimeShapeV,
    TimeValueV, TsQueryV,
};
use crate::compile::bind::BinderV;
use crate::compile::env::{
    collection_of, index_for, index_for_expression, kind_of, ready_from, CollectionV, IndexExprV,
    IndexFamily, IndexInfoV, IndexState,
};
use crate::compile::graph::{node_wheres, pattern_log};
use crate::compile::log::{EnvV, LogV};
use crate::compile::plan::OwnedFilterV;
use crate::compile::predicates::{
    between_filter, compare_filter, filter_of, in_leaves, key_filter, key_leaves, null_filter,
    spatial_filter, text_predicate, union_of, where_filter, where_filters,
};
use crate::compile::ranges::{text_filter, time_filter};
use crate::compile::rebind::{rebound, rebound_all};
use crate::compile::select::{
    has_false, is_constant, select_filters, select_of, source_of, FROM_ALL,
};
use crate::error::{SqlErrorV, Tier};
use crate::stmt::{SelectStmtV, SourceV};
use crate::value::Kind;

verus! {

/// Whether a collection has an index of a family that can be used.
pub open spec fn has_ready(c: CollectionV, id: u64, family: IndexFamily) -> bool {
    exists|i: int|
        0 <= i < c.indexes.len() && (#[trigger] c.indexes[i]).id == id && c.indexes[i].family
            == family && c.indexes[i].state == IndexState::Ready
}

/// Whether every index that a filter names is one of the collection's, of the
/// family that the filter reads, and ready.
pub open spec fn indexed(c: CollectionV, f: OwnedFilterV) -> bool
    decreases f,
{
    match f {
        OwnedFilterV::Scalar { index, .. } => has_ready(c, index, IndexFamily::Scalar),
        OwnedFilterV::Text { index, .. } => has_ready(c, index, IndexFamily::Text),
        OwnedFilterV::Point { index, .. } => has_ready(c, index, IndexFamily::SpatialPoint),
        OwnedFilterV::Geometry { index, .. } => has_ready(c, index, IndexFamily::SpatialGeometry),
        OwnedFilterV::Graph(g) => all_indexed(c, g.node_where),
        OwnedFilterV::Any(parts) => all_indexed(c, parts),
        OwnedFilterV::All(parts) => all_indexed(c, parts),
        OwnedFilterV::Not(inner) => indexed(c, *inner),
        OwnedFilterV::Key { .. } => true,
        OwnedFilterV::Ids(_) => true,
    }
}

pub open spec fn all_indexed(c: CollectionV, parts: Seq<OwnedFilterV>) -> bool
    decreases parts,
{
    if parts.len() == 0 {
        true
    } else {
        all_indexed(c, parts.drop_last()) && indexed(c, parts.last())
    }
}

proof fn ready_is_there(
    list: Seq<IndexInfoV>,
    field: Seq<char>,
    family: IndexFamily,
    expression: Option<IndexExprV>,
    i: nat,
)
    requires
        ready_from(list, field, family, expression, i) is Some,
    ensures
        exists|k: int|
            0 <= k < list.len() && (#[trigger] list[k]).id == ready_from(
                list,
                field,
                family,
                expression,
                i,
            )->0 && list[k].family == family && list[k].state == IndexState::Ready,
    decreases list.len() - i,
{
    if !(list[i as int].field == field && list[i as int].family == family
        && list[i as int].expression == expression && list[i as int].state == IndexState::Ready) {
        ready_is_there(list, field, family, expression, i + 1);
    } else {
        assert(list[i as int].id == ready_from(list, field, family, expression, i)->0);
    }
}

/// What a lookup finds is there.
proof fn found_is_ready(
    c: CollectionV,
    field: Seq<char>,
    family: IndexFamily,
    expression: Option<IndexExprV>,
    what: Seq<char>,
)
    ensures
        index_for_expression(c, field, family, expression, what) is Ok ==> has_ready(
            c,
            index_for_expression(c, field, family, expression, what)->Ok_0,
            family,
        ),
{
    if index_for_expression(c, field, family, expression, what) is Ok {
        ready_is_there(c.indexes, field, family, expression, 0);
    }
}

proof fn plain_is_ready(c: CollectionV, field: Seq<char>, family: IndexFamily)
    ensures
        forall|what: Seq<char>| #[trigger]
            index_for(c, field, family, what) is Ok ==> has_ready(
                c,
                index_for(c, field, family, what)->Ok_0,
                family,
            ),
{
    assert forall|what: Seq<char>| #[trigger] index_for(c, field, family, what) is Ok implies has_ready(
        c,
        index_for(c, field, family, what)->Ok_0,
        family,
    ) by {
        found_is_ready(c, field, family, None, what);
    }
}

proof fn leaves_indexed(
    env: EnvV,
    c: CollectionV,
    kind: Kind,
    index: u64,
    column: Seq<char>,
    values: Seq<LiteralV>,
)
    requires
        in_leaves(env, kind, index, column, values) is Ok,
        has_ready(c, index, IndexFamily::Scalar),
    ensures
        all_indexed(c, in_leaves(env, kind, index, column, values)->Ok_0),
    decreases values.len(),
{
    if values.len() > 0 {
        leaves_indexed(env, c, kind, index, column, values.drop_last());
        let list = in_leaves(env, kind, index, column, values)->Ok_0;
        assert(list.drop_last() =~= in_leaves(env, kind, index, column, values.drop_last())->Ok_0);
        assert(indexed(c, list.last()));
    }
}

proof fn keys_indexed(env: EnvV, c: CollectionV, values: Seq<LiteralV>)
    requires
        key_leaves(env, values) is Ok,
    ensures
        all_indexed(c, key_leaves(env, values)->Ok_0),
    decreases values.len(),
{
    if values.len() > 0 {
        keys_indexed(env, c, values.drop_last());
        let list = key_leaves(env, values)->Ok_0;
        assert(list.drop_last() =~= key_leaves(env, values.drop_last())->Ok_0);
        assert(indexed(c, list.last()));
    }
}

proof fn union_indexed(c: CollectionV, leaves: Seq<OwnedFilterV>)
    requires
        all_indexed(c, leaves),
    ensures
        indexed(c, union_of(leaves)),
{
    if leaves.len() == 1 {
        assert(leaves.last() == leaves[0]);
    }
}

proof fn compare_indexed(env: EnvV, c: CollectionV, column: Seq<char>, op: CmpOp, l: LiteralV)
    ensures
        compare_filter(env, c, column, op, l) is Ok ==> indexed(
            c,
            compare_filter(env, c, column, op, l)->Ok_0,
        ),
{
    found_is_ready(c, column, IndexFamily::Scalar, None, "a scalar index"@);
    if op == CmpOp::Ne && compare_filter(env, c, column, op, l) is Ok {
        if let OwnedFilterV::Not(inner) = compare_filter(env, c, column, op, l)->Ok_0 {
            assert(indexed(c, *inner));
        }
    }
}

proof fn between_indexed(
    env: EnvV,
    c: CollectionV,
    column: Seq<char>,
    lower: LiteralV,
    upper: LiteralV,
)
    ensures
        between_filter(env, c, column, lower, upper) is Ok ==> indexed(
            c,
            between_filter(env, c, column, lower, upper)->Ok_0,
        ),
{
    found_is_ready(c, column, IndexFamily::Scalar, None, "a scalar index"@);
}

proof fn null_indexed(c: CollectionV, column: Seq<char>, missing: bool, negated: bool)
    ensures
        null_filter(c, column, missing, negated) is Ok ==> indexed(
            c,
            null_filter(c, column, missing, negated)->Ok_0,
        ),
{
    found_is_ready(c, column, IndexFamily::Scalar, None, "a scalar index"@);
    if null_filter(c, column, missing, negated) is Ok {
        if let OwnedFilterV::Not(inner) = null_filter(c, column, missing, negated)->Ok_0 {
            assert(indexed(c, *inner));
        }
    }
}

proof fn key_indexed(env: EnvV, c: CollectionV, op: CmpOp, l: LiteralV)
    ensures
        key_filter(env, op, l) is Ok ==> indexed(c, key_filter(env, op, l)->Ok_0),
{
    if key_filter(env, op, l) is Ok {
        if let OwnedFilterV::Not(inner) = key_filter(env, op, l)->Ok_0 {
            assert(indexed(c, *inner));
        }
    }
}

proof fn text_indexed(env: EnvV, c: CollectionV, column: Seq<char>, q: TsQueryV, log: LogV)
    ensures
        text_predicate(env, c, column, q, log) is Ok ==> indexed(
            c,
            text_predicate(env, c, column, q, log)->Ok_0.0,
        ),
{
    found_is_ready(c, column, IndexFamily::Text, None, "a text index"@);
    if text_predicate(env, c, column, q, log) is Ok {
        if let OwnedFilterV::Not(inner) = text_predicate(env, c, column, q, log)->Ok_0.0 {
            assert(indexed(c, *inner));
        }
    }
}

proof fn spatial_indexed(
    env: EnvV,
    c: CollectionV,
    predicate: SpatialPredicate,
    column: Seq<char>,
    g: GeoArgV,
    metres: Option<LiteralV>,
)
    ensures
        spatial_filter(env, c, predicate, column, g, metres) is Ok ==> indexed(
            c,
            spatial_filter(env, c, predicate, column, g, metres)->Ok_0,
        ),
{
    plain_is_ready(c, column, IndexFamily::SpatialPoint);
    plain_is_ready(c, column, IndexFamily::SpatialGeometry);
}

proof fn time_indexed(env: EnvV, c: CollectionV, column: Seq<char>, shape: TimeShapeV, log: LogV)
    ensures
        time_filter(env, c, column, shape, log) is Ok ==> indexed(
            c,
            time_filter(env, c, column, shape, log)->Ok_0.0,
        ),
{
    found_is_ready(c, column, IndexFamily::Scalar, None, "a scalar index"@);
}

proof fn text_fn_indexed(env: EnvV, c: CollectionV, column: Seq<char>, shape: TextShapeV, log: LogV)
    ensures
        text_filter(env, c, column, shape, log) is Ok ==> indexed(
            c,
            text_filter(env, c, column, shape, log)->Ok_0.0,
        ),
{
    plain_is_ready(c, column, IndexFamily::Scalar);
    assert forall|e: Option<IndexExprV>, what: Seq<char>| #[trigger]
        index_for_expression(c, column, IndexFamily::Scalar, e, what) is Ok implies has_ready(
        c,
        index_for_expression(c, column, IndexFamily::Scalar, e, what)->Ok_0,
        IndexFamily::Scalar,
    ) by {
        found_is_ready(c, column, IndexFamily::Scalar, e, what);
    }
}

/// One predicate becomes a filter whose indexes are there.
pub proof fn predicate_is_indexed(env: EnvV, c: CollectionV, p: PredicateV, log: LogV)
    requires
        filter_of(env, c, p, log) is Ok,
    ensures
        indexed(c, filter_of(env, c, p, log)->Ok_0.0),
{
    reveal(filter_of);
    match p {
        PredicateV::Constant(_) => {},
        PredicateV::Compare { column, op, value } => {
            compare_indexed(env, c, column, op, value);
            let shape = TimeShapeV::Clock { op, value: TimeValueV::Lit(value) };
            time_indexed(env, c, column, shape, log);
        },
        PredicateV::Between { column, lower, upper } => {
            between_indexed(env, c, column, lower, upper);
            let shape = TimeShapeV::ClockBetween {
                lower: TimeValueV::Lit(lower),
                upper: TimeValueV::Lit(upper),
            };
            time_indexed(env, c, column, shape, log);
        },
        PredicateV::IsNull { column, negated } => {
            null_indexed(c, column, false, negated);
        },
        PredicateV::IsMissing { column } => {
            null_indexed(c, column, true, false);
        },
        PredicateV::KeyCompare { op, value } => {
            key_indexed(env, c, op, value);
        },
        PredicateV::KeyBetween { .. } => {},
        PredicateV::InList { column, values } => {
            found_is_ready(c, column, IndexFamily::Scalar, None, "a scalar index"@);
            let kind = kind_of(c, column)->Ok_0;
            let index = index_for(c, column, IndexFamily::Scalar, "a scalar index"@)->Ok_0;
            leaves_indexed(env, c, kind, index, column, values);
            union_indexed(c, in_leaves(env, kind, index, column, values)->Ok_0);
        },
        PredicateV::KeyInList { values } => {
            keys_indexed(env, c, values);
            union_indexed(c, key_leaves(env, values)->Ok_0);
        },
        PredicateV::Semi { .. } => {},
        PredicateV::Text { column, query } => {
            text_indexed(env, c, column, query, log);
        },
        PredicateV::Spatial { predicate, column, argument, metres } => {
            spatial_indexed(env, c, predicate, column, argument, metres);
        },
        PredicateV::Time { column, shape } => {
            time_indexed(env, c, column, shape, log);
        },
        PredicateV::TextFn { column, shape } => {
            text_fn_indexed(env, c, column, shape, log);
        },
    }
}

/// A condition becomes a filter whose indexes are there.
pub proof fn condition_is_indexed(env: EnvV, c: CollectionV, e: ExprV, log: LogV)
    requires
        where_filter(env, c, e, log) is Ok,
    ensures
        indexed(c, where_filter(env, c, e, log)->Ok_0.0),
    decreases e,
{
    match e {
        ExprV::Leaf(p) => {
            predicate_is_indexed(env, c, p, log);
        },
        ExprV::Not(inner) => {
            condition_is_indexed(env, c, *inner, log);
        },
        ExprV::And(parts) | ExprV::Or(parts) => {
            conditions_indexed(env, c, parts, log);
        },
    }
}

proof fn conditions_indexed(env: EnvV, c: CollectionV, parts: Seq<ExprV>, log: LogV)
    requires
        where_filters(env, c, parts, log) is Ok,
    ensures
        all_indexed(c, where_filters(env, c, parts, log)->Ok_0.0),
    decreases parts,
{
    if parts.len() > 0 {
        conditions_indexed(env, c, parts.drop_last(), log);
        let (done, next) = where_filters(env, c, parts.drop_last(), log)->Ok_0;
        condition_is_indexed(env, c, parts.last(), next);
        assert(where_filters(env, c, parts, log)->Ok_0.0.drop_last() =~= done);
    }
}

proof fn nodes_indexed(env: EnvV, c: CollectionV, list: Seq<PredicateV>, log: LogV)
    requires
        node_wheres(env, c, list, log) is Ok,
    ensures
        all_indexed(c, node_wheres(env, c, list, log)->Ok_0.0),
    decreases list.len(),
{
    if list.len() > 0 {
        nodes_indexed(env, c, list.drop_last(), log);
        let (done, next) = node_wheres(env, c, list.drop_last(), log)->Ok_0;
        predicate_is_indexed(env, c, list.last(), next);
        assert(node_wheres(env, c, list, log)->Ok_0.0.drop_last() =~= done);
    }
}

proof fn source_indexed(env: EnvV, source: SourceV, log: LogV)
    requires
        source_of(env, source, log) is Ok,
    ensures
        all_indexed(source_of(env, source, log)->Ok_0.0, source_of(env, source, log)->Ok_0.1),
{
    if let SourceV::Graph(g) = source {
        let from = collection_of(env.binder.catalog, g.seed_collection)->Ok_0;
        let to = collection_of(env.binder.catalog, g.target_collection)->Ok_0;
        nodes_indexed(env, to, g.node_predicates, pattern_log(*g, to.id != from.id, log));
        let f = source_of(env, source, log)->Ok_0.1;
        assert(f.drop_last() =~= Seq::<OwnedFilterV>::empty());
        assert(all_indexed(to, f.drop_last()));
        assert(indexed(to, f.last()));
    }
}

proof fn filters_indexed(
    env: EnvV,
    c: CollectionV,
    parts: Seq<ExprV>,
    first: Seq<OwnedFilterV>,
    log: LogV,
)
    requires
        select_filters(env, c, parts, first, log) is Ok,
        all_indexed(c, first),
    ensures
        all_indexed(c, select_filters(env, c, parts, first, log)->Ok_0.0),
    decreases parts.len(),
{
    if parts.len() > 0 {
        filters_indexed(env, c, parts.drop_last(), first, log);
        if !is_constant(parts.last()) {
            let (done, next) = select_filters(env, c, parts.drop_last(), first, log)->Ok_0;
            condition_is_indexed(env, c, parts.last(), next);
            assert(select_filters(env, c, parts, first, log)->Ok_0.0.drop_last() =~= done);
        }
    }
}

/// The collection that a `SELECT` reads: the one it names, or the far end of
/// its pattern.
pub open spec fn read_by(env: EnvV, s: SelectStmtV) -> Result<CollectionV, SqlErrorV> {
    match s.source {
        SourceV::Table(name) => collection_of(env.binder.catalog, name),
        SourceV::Graph(g) => collection_of(env.binder.catalog, g.target_collection),
        SourceV::All => Err(
            SqlErrorV::Refused { keyword: "FROM ALL"@, tier: Tier::Two, reason: FROM_ALL@ },
        ),
    }
}

/// Every filter of a `SELECT` is answered from an index: each index that the
/// plan's filters name is one of the collection's that the statement reads, of
/// the family that the filter reads, and ready.
pub proof fn select_is_indexed(env: EnvV, s: SelectStmtV, log: LogV)
    requires
        select_of(env, s, log) is Ok,
    ensures
        read_by(env, s) is Ok,
        select_of(env, s, log)->Ok_0.0.collection == read_by(env, s)->Ok_0.id,
        all_indexed(read_by(env, s)->Ok_0, select_of(env, s, log)->Ok_0.0.filters),
{
    let start = if has_false(s.predicates) {
        log.noted(
            "a constant FALSE predicate: the statement returns no rows, so it compiles to LIMIT 0 -- no driver is stepped and no row is read"@,
        )
    } else {
        log
    };
    let (c, first, next) = source_of(env, s.source, start)->Ok_0;
    source_indexed(env, s.source, start);
    filters_indexed(env, c, s.predicates, first, next);
}

/// Binding a filter again names the same indexes.
pub proof fn rebound_is_indexed(b: BinderV, c: CollectionV, f: OwnedFilterV)
    requires
        indexed(c, f),
        rebound(b, f) is Ok,
    ensures
        indexed(c, rebound(b, f)->Ok_0),
    decreases f,
{
    match f {
        OwnedFilterV::Graph(g) => {
            all_rebound_indexed(b, c, g.node_where);
        },
        OwnedFilterV::Any(parts) | OwnedFilterV::All(parts) => {
            all_rebound_indexed(b, c, parts);
        },
        OwnedFilterV::Not(inner) => {
            rebound_is_indexed(b, c, *inner);
        },
        _ => {},
    }
}

proof fn all_rebound_indexed(b: BinderV, c: CollectionV, parts: Seq<OwnedFilterV>)
    requires
        all_indexed(c, parts),
        rebound_all(b, parts) is Ok,
    ensures
        all_indexed(c, rebound_all(b, parts)->Ok_0),
    decreases parts,
{
    if parts.len() > 0 {
        all_rebound_indexed(b, c, parts.drop_last());
        rebound_is_indexed(b, c, parts.last());
        let done = rebound_all(b, parts.drop_last())->Ok_0;
        assert(rebound_all(b, parts)->Ok_0.drop_last() =~= done);
    }
}

} // verus!
