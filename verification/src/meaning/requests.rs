//! What is asked of the engine is what the plan says.

use vstd::prelude::*;
use crate::compile::env::IndexFamily;
use crate::compile::plan::{
    AggregatePlanV, OwnedFilterV, OwnedGraphV, OwnedOrderV, OwnedScoreV, SelectPlanV, WritePlanV,
};
use crate::compile::request::{
    asked, asked_all, asked_order, bfs_request, fold_of, query_of, ranked, write_of_rows,
    BfsRequestV, GraphLimits, ProjectionV, QueryFilterV, QueryOrderV, ScoreExprV, WriteAction,
};
use crate::meaning::row::{
    all_say, any_says, both, either, filter_says, geometry_says, key_says, not, point_says, posting,
    scalar_says, Row,
};
use crate::meaning::scores::{first_of, order_precedes, read_as, score_value, Ranked};

verus! {

// ── filters ──────────────────────────────────────────────────────────────

/// What a filter of a request says of a row, where `reached` says which
/// traversals reach it.
pub open spec fn request_says(w: Row, reached: spec_fn(BfsRequestV) -> bool, q: QueryFilterV) -> Option<
    bool,
>
    decreases q,
{
    match q {
        QueryFilterV::Scalar { index, predicate } => scalar_says(predicate, posting(w, index)),
        QueryFilterV::Point { index, predicate } => point_says(
            w,
            predicate,
            (w.spot)((w.column)(index)),
        ),
        QueryFilterV::Geometry { index, predicate } => geometry_says(
            w,
            predicate,
            (w.shape)((w.column)(index)),
        ),
        QueryFilterV::Text { index, query, matching } => Some(
            (w.found)((w.column)(index), query, matching),
        ),
        QueryFilterV::Graph(g) => Some(reached(g)),
        QueryFilterV::Key { lower, upper } => Some(key_says(lower, upper, w.key)),
        QueryFilterV::Any(parts) => any_request_says(w, reached, parts),
        QueryFilterV::All(parts) => all_requests_say(w, reached, parts),
        QueryFilterV::Not(inner) => not(request_says(w, reached, *inner)),
        QueryFilterV::Ids(ids) => Some(ids.contains(w.id)),
    }
}

pub open spec fn any_request_says(
    w: Row,
    reached: spec_fn(BfsRequestV) -> bool,
    parts: Seq<QueryFilterV>,
) -> Option<bool>
    decreases parts,
{
    if parts.len() == 0 {
        Some(false)
    } else {
        either(
            any_request_says(w, reached, parts.drop_last()),
            request_says(w, reached, parts.last()),
        )
    }
}

pub open spec fn all_requests_say(
    w: Row,
    reached: spec_fn(BfsRequestV) -> bool,
    parts: Seq<QueryFilterV>,
) -> Option<bool>
    decreases parts,
{
    if parts.len() == 0 {
        Some(true)
    } else {
        both(
            all_requests_say(w, reached, parts.drop_last()),
            request_says(w, reached, parts.last()),
        )
    }
}

/// Whether a traversal of a request reaches what the plan's does.
pub open spec fn reaches_alike(
    w: Row,
    reached: spec_fn(BfsRequestV) -> bool,
    limits: GraphLimits,
) -> bool {
    forall|g: OwnedGraphV| #[trigger]
        (w.reached)(g) == reached(bfs_request(g, asked_all(g.node_where, limits), limits))
}

/// A filter of a request says of every row what the plan's filter says.
pub proof fn request_keeps_its_filter(
    w: Row,
    reached: spec_fn(BfsRequestV) -> bool,
    limits: GraphLimits,
    f: OwnedFilterV,
)
    requires
        reaches_alike(w, reached, limits),
    ensures
        request_says(w, reached, asked(f, limits)) == filter_says(w, f),
    decreases f,
{
    match f {
        OwnedFilterV::Graph(g) => {
            let r = bfs_request(g, asked_all(g.node_where, limits), limits);
            assert(asked(f, limits) == QueryFilterV::Graph(r));
            assert((w.reached)(g) == reached(r));
        },
        OwnedFilterV::Any(parts) => {
            request_keeps_its_filters(w, reached, limits, parts);
        },
        OwnedFilterV::All(parts) => {
            request_keeps_its_filters(w, reached, limits, parts);
        },
        OwnedFilterV::Not(inner) => {
            request_keeps_its_filter(w, reached, limits, *inner);
        },
        _ => {},
    }
}

/// The filters of a request say together what the plan's filters say together.
pub proof fn request_keeps_its_filters(
    w: Row,
    reached: spec_fn(BfsRequestV) -> bool,
    limits: GraphLimits,
    parts: Seq<OwnedFilterV>,
)
    requires
        reaches_alike(w, reached, limits),
    ensures
        any_request_says(w, reached, asked_all(parts, limits)) == any_says(w, parts),
        all_requests_say(w, reached, asked_all(parts, limits)) == all_say(w, parts),
    decreases parts,
{
    if parts.len() > 0 {
        let init = parts.drop_last();
        request_keeps_its_filters(w, reached, limits, init);
        request_keeps_its_filter(w, reached, limits, parts.last());
        let all = asked_all(parts, limits);
        assert(all.drop_last() =~= asked_all(init, limits));
    }
}

/// A traversal of a request starts at the plan's seed, which is no result of its
/// own, goes the plan's way over the plan's edges, as many steps as the plan
/// says and no further than the limits, and ends at nodes that the plan's
/// filters let through.
pub proof fn request_keeps_its_traversal(
    w: Row,
    reached: spec_fn(BfsRequestV) -> bool,
    limits: GraphLimits,
    g: OwnedGraphV,
)
    requires
        reaches_alike(w, reached, limits),
    ensures
        asked(OwnedFilterV::Graph(g), limits) is Graph,
        ({
            let r = asked(OwnedFilterV::Graph(g), limits)->Graph_0;
            &&& r.seed == g.seed && !r.include_seed
            &&& r.direction == g.direction
            &&& r.context == g.context && r.edge_type == g.edge_type
            &&& r.min_depth == g.min_depth && r.max_depth == g.max_depth
            &&& r.max_visited == limits.visited && r.max_edges == limits.edges
            &&& r.result_limit == limits.results
            &&& r.edge_where.len() == g.edge_where.len()
            &&& forall|i: int|
                0 <= i < g.edge_where.len() ==> {
                    &&& r.edge_where[i].property == (#[trigger] g.edge_where[i]).property
                    &&& r.edge_where[i].op == g.edge_where[i].op
                    &&& r.edge_where[i].value == g.edge_where[i].value
                }
            &&& all_requests_say(w, reached, r.node_where) == all_say(w, g.node_where)
        }),
{
    request_keeps_its_filters(w, reached, limits, g.node_where);
}

// ── orders ───────────────────────────────────────────────────────────────

/// The number that a ranking of a request is. The engine ranks vectors by how
/// near they are, which is how far they are, negated.
pub open spec fn request_value(w: Ranked, e: ScoreExprV) -> int
    decreases e,
{
    match e {
        ScoreExprV::Lit(n) => (w.number)(n),
        ScoreExprV::Scalar { index } => (w.cell)(read_as(w.indexes, index, IndexFamily::Scalar)),
        ScoreExprV::Bm25 { index, query, matching } => (w.words)(
            read_as(w.indexes, index, IndexFamily::Text),
            query,
            matching,
        ),
        ScoreExprV::SearchScore { index, query } => (w.searched)((w.indexes.column)(index), query),
        ScoreExprV::VectorSimilarity { index, query, metric } => (w.negative)(
            (w.apart)(read_as(w.indexes, index, IndexFamily::ExactVector), query, metric),
        ),
        ScoreExprV::Distance { index, center } => (w.metres)(
            read_as(w.indexes, index, IndexFamily::SpatialPoint),
            center,
        ),
        ScoreExprV::Add(a, b) => (w.plus)(request_value(w, *a), request_value(w, *b)),
        ScoreExprV::Sub(a, b) => (w.minus)(request_value(w, *a), request_value(w, *b)),
        ScoreExprV::Mul(a, b) => (w.times)(request_value(w, *a), request_value(w, *b)),
        ScoreExprV::Div(a, b) => (w.over)(request_value(w, *a), request_value(w, *b)),
        ScoreExprV::Neg(a) => (w.negative)(request_value(w, *a)),
    }
}

/// Whether what is negated twice is itself.
pub open spec fn negates(w: Ranked) -> bool {
    forall|x: int| (w.negative)(#[trigger] (w.negative)(x)) == x
}

/// A ranking of a request is worth what the plan's ranking is.
pub proof fn request_keeps_its_ranking(w: Ranked, s: OwnedScoreV)
    requires
        negates(w),
    ensures
        request_value(w, ranked(s)) == score_value(w, s),
    decreases s,
{
    match s {
        OwnedScoreV::Add(a, b) | OwnedScoreV::Sub(a, b) | OwnedScoreV::Mul(a, b) | OwnedScoreV::Div(
            a,
            b,
        ) => {
            request_keeps_its_ranking(w, *a);
            request_keeps_its_ranking(w, *b);
        },
        OwnedScoreV::Neg(a) => {
            request_keeps_its_ranking(w, *a);
        },
        OwnedScoreV::VectorDistance { index, query, metric, .. } => {
            let near = ScoreExprV::VectorSimilarity { index, query, metric };
            let far = (w.apart)(read_as(w.indexes, index, IndexFamily::ExactVector), query, metric);
            assert(request_value(w, near) == (w.negative)(far));
            assert(ranked(s) == ScoreExprV::Neg(Box::new(near)));
            assert((w.negative)((w.negative)(far)) == far);
        },
        _ => {},
    }
}

/// The number that an order of a request ranks a row by.
pub open spec fn request_order_value(w: Ranked, o: QueryOrderV) -> int {
    match o {
        QueryOrderV::Driver => arbitrary(),
        QueryOrderV::EntityId => w.id,
        QueryOrderV::Scalar { index, .. } => (w.cell)(
            read_as(w.indexes, index, IndexFamily::Scalar),
        ),
        QueryOrderV::Distance { index, center, .. } => (w.metres)(
            read_as(w.indexes, index, IndexFamily::SpatialPoint),
            center,
        ),
        QueryOrderV::Bm25 { index, query, matching } => (w.words)(
            read_as(w.indexes, index, IndexFamily::Text),
            query,
            matching,
        ),
        QueryOrderV::ExactVector { index, query, metric } => (w.apart)(
            read_as(w.indexes, index, IndexFamily::ExactVector),
            query,
            metric,
        ),
        QueryOrderV::ApproximateVector { index, query, metric, .. } => (w.apart)(
            read_as(w.indexes, index, IndexFamily::QuantizedVector),
            query,
            metric,
        ),
        QueryOrderV::Score { expr, .. } => request_value(w, expr),
        QueryOrderV::Edge { property, .. } => (w.edge)(property),
    }
}

/// Whether the largest comes first.
pub open spec fn request_descends(o: QueryOrderV) -> bool {
    match o {
        QueryOrderV::Scalar { descending, .. } => descending,
        QueryOrderV::Distance { descending, .. } => descending,
        QueryOrderV::Score { descending, .. } => descending,
        QueryOrderV::Edge { descending, .. } => descending,
        QueryOrderV::Bm25 { .. } => true,
        _ => false,
    }
}

/// The order of a request puts every two rows in the order that the plan's does.
pub proof fn request_keeps_its_order(a: Ranked, b: Ranked, o: OwnedOrderV)
    requires
        negates(a),
        negates(b),
    ensures
        ({
            let q = asked_order(o);
            (!(q is Driver) && first_of(
                request_order_value(a, q),
                request_order_value(b, q),
                request_descends(q),
            )) <==> order_precedes(o, a, b)
        }),
{
    if let OwnedOrderV::Score { expr, .. } = o {
        request_keeps_its_ranking(a, expr);
        request_keeps_its_ranking(b, expr);
    }
}

// ── statements ───────────────────────────────────────────────────────────

/// A query is over the plan's collection, leaves the rows that the plan's
/// filters leave, as many as the plan's limit, and reads the plan's fields.
pub proof fn query_keeps_its_plan(
    w: Row,
    reached: spec_fn(BfsRequestV) -> bool,
    limits: GraphLimits,
    p: SelectPlanV,
)
    requires
        reaches_alike(w, reached, limits),
    ensures
        ({
            let q = query_of(p, limits);
            &&& q.collection == p.collection
            &&& all_requests_say(w, reached, q.filters) == all_say(w, p.filters)
            &&& q.total_limit == p.limit
            &&& q.driver == p.driver
            &&& p.fields.len() > 0 ==> q.projection == ProjectionV::Fields(p.fields)
            &&& p.fields.len() == 0 ==> q.projection is Ids
        }),
{
    request_keeps_its_filters(w, reached, limits, p.filters);
}

/// A folded query and a write are over the rows that their plan is over.
pub proof fn other_requests_keep_their_rows(
    w: Row,
    reached: spec_fn(BfsRequestV) -> bool,
    limits: GraphLimits,
    a: AggregatePlanV,
    p: WritePlanV,
)
    requires
        reaches_alike(w, reached, limits),
    ensures
        ({
            let q = fold_of(a, limits);
            &&& q.collection == a.collection
            &&& all_requests_say(w, reached, q.filters) == all_say(w, a.filters)
            &&& q.group == a.group && q.accumulators == a.accumulators && q.having == a.having
            &&& q.order == a.order && q.total_limit == a.limit
        }),
        write_of_rows(p, limits) is Some <==> p is UpdateWhere || p is DeleteWhere,
        p is UpdateWhere ==> ({
            let q = write_of_rows(p, limits)->0;
            &&& q.collection == p->UpdateWhere_collection
            &&& all_requests_say(w, reached, q.filters) == all_say(w, p->UpdateWhere_filters)
            &&& q.action == WriteAction::Update
        }),
        p is DeleteWhere ==> ({
            let q = write_of_rows(p, limits)->0;
            &&& q.collection == p->DeleteWhere_collection
            &&& all_requests_say(w, reached, q.filters) == all_say(w, p->DeleteWhere_filters)
            &&& q.action == WriteAction::Delete { cascade: p->DeleteWhere_cascade }
        }),
{
    request_keeps_its_filters(w, reached, limits, a.filters);
    if p is UpdateWhere {
        request_keeps_its_filters(w, reached, limits, p->UpdateWhere_filters);
    }
    if p is DeleteWhere {
        request_keeps_its_filters(w, reached, limits, p->DeleteWhere_filters);
    }
}

} // verus!
