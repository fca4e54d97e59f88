//! What a plan asks of the engine.
//!
//! A plan owns its values and keeps the slots they were bound to. A request
//! borrows the values and has no slots; it is made anew for each run.

use vstd::prelude::*;
use crate::ast::{CmpOp, GraphDirection, VecOp};
use crate::compile::bind::{PointValue, PointValueV, Scalar, ScalarV, TextMatch, VectorArg, VectorArgV};
use crate::compile::plan::{
    filter_view_parts, graph_view_parts, AggregatePlan, AggregatePlanV, Bound, CandidateDriver,
    GeometryFilter, GeometryFilterV, GroupOrder, GroupPredicate, GroupPredicateV, OwnedAccumulator,
    OwnedAccumulatorV, OwnedEdgePredicate, OwnedEdgePredicateV, OwnedFilter, OwnedFilterV,
    OwnedGraphV, OwnedGroupKey, OwnedGroupKeyV, OwnedOrder, OwnedOrderV, OwnedScalarFilter,
    OwnedScalarFilterV, OwnedScore, OwnedScoreV, PointFilter, PointFilterV, SelectPlan, SelectPlanV,
    WritePlan, WritePlanV,
};
use crate::lists::{take_all, take_next};
use crate::number::{Real, RealV};
use crate::text::texts;
use crate::value::EntityId;

verus! {

/// How far a traversal may go before it is refused.
#[derive(Clone, Copy, Debug, PartialEq, Eq, Structural)]
pub struct GraphLimits {
    pub visited: usize,
    pub edges: usize,
    pub results: usize,
}

// ── filters ──────────────────────────────────────────────────────────────

/// One test of an edge that a traversal crosses.
#[derive(Debug)]
pub struct EdgeTest<'a> {
    pub property: &'a String,
    pub op: CmpOp,
    pub value: &'a Scalar,
}

pub struct EdgeTestV {
    pub property: Seq<char>,
    pub op: CmpOp,
    pub value: ScalarV,
}

impl<'a> DeepView for EdgeTest<'a> {
    type V = EdgeTestV;

    open spec fn deep_view(&self) -> EdgeTestV {
        EdgeTestV { property: self.property@, op: self.op, value: self.value.deep_view() }
    }
}

/// A breadth-first traversal.
#[derive(Debug)]
pub struct BfsRequest<'a> {
    pub seed: EntityId,
    pub direction: GraphDirection,
    pub context: u64,
    pub edge_type: Option<u64>,
    pub min_depth: usize,
    pub max_depth: usize,
    pub include_seed: bool,
    pub max_visited: usize,
    pub max_edges: usize,
    pub result_limit: usize,
    pub edge_where: Vec<EdgeTest<'a>>,
    pub node_where: Vec<QueryFilter<'a>>,
}

pub struct BfsRequestV {
    pub seed: EntityId,
    pub direction: GraphDirection,
    pub context: u64,
    pub edge_type: Option<u64>,
    pub min_depth: usize,
    pub max_depth: usize,
    pub include_seed: bool,
    pub max_visited: usize,
    pub max_edges: usize,
    pub result_limit: usize,
    pub edge_where: Seq<EdgeTestV>,
    pub node_where: Seq<QueryFilterV>,
}

/// One filter of a request.
#[allow(inconsistent_fields)]
#[derive(Debug)]
pub enum QueryFilter<'a> {
    Scalar { index: u64, predicate: &'a OwnedScalarFilter },
    Point { index: u64, predicate: &'a PointFilter },
    Geometry { index: u64, predicate: &'a GeometryFilter },
    Text { index: u64, query: &'a String, matching: TextMatch },
    Graph(BfsRequest<'a>),
    Key { lower: &'a Bound<String>, upper: &'a Bound<String> },
    Any(Vec<QueryFilter<'a>>),
    Not(Box<QueryFilter<'a>>),
    All(Vec<QueryFilter<'a>>),
    Ids(&'a Vec<EntityId>),
}

#[allow(inconsistent_fields)]
pub enum QueryFilterV {
    Scalar { index: u64, predicate: OwnedScalarFilterV },
    Point { index: u64, predicate: PointFilterV },
    Geometry { index: u64, predicate: GeometryFilterV },
    Text { index: u64, query: Seq<char>, matching: TextMatch },
    Graph(BfsRequestV),
    Key { lower: Bound<Seq<char>>, upper: Bound<Seq<char>> },
    Any(Seq<QueryFilterV>),
    Not(Box<QueryFilterV>),
    All(Seq<QueryFilterV>),
    Ids(Seq<EntityId>),
}

pub open spec fn query_view(f: QueryFilter) -> QueryFilterV
    decreases f,
{
    match f {
        QueryFilter::Scalar { index, predicate } => QueryFilterV::Scalar {
            index,
            predicate: predicate.deep_view(),
        },
        QueryFilter::Point { index, predicate } => QueryFilterV::Point {
            index,
            predicate: predicate.deep_view(),
        },
        QueryFilter::Geometry { index, predicate } => QueryFilterV::Geometry {
            index,
            predicate: predicate.deep_view(),
        },
        QueryFilter::Text { index, query, matching } => QueryFilterV::Text {
            index,
            query: query@,
            matching,
        },
        QueryFilter::Graph(g) => QueryFilterV::Graph(bfs_view(g)),
        QueryFilter::Key { lower, upper } => QueryFilterV::Key {
            lower: lower.deep_view(),
            upper: upper.deep_view(),
        },
        QueryFilter::Any(parts) => QueryFilterV::Any(
            Seq::new(
                parts@.len(),
                |i: int|
                    if 0 <= i < parts@.len() {
                        query_view(parts@[i])
                    } else {
                        arbitrary()
                    },
            ),
        ),
        QueryFilter::Not(inner) => QueryFilterV::Not(Box::new(query_view(*inner))),
        QueryFilter::All(parts) => QueryFilterV::All(
            Seq::new(
                parts@.len(),
                |i: int|
                    if 0 <= i < parts@.len() {
                        query_view(parts@[i])
                    } else {
                        arbitrary()
                    },
            ),
        ),
        QueryFilter::Ids(ids) => QueryFilterV::Ids(ids@),
    }
}

pub open spec fn bfs_view(g: BfsRequest) -> BfsRequestV
    decreases g,
{
    BfsRequestV {
        seed: g.seed,
        direction: g.direction,
        context: g.context,
        edge_type: g.edge_type,
        min_depth: g.min_depth,
        max_depth: g.max_depth,
        include_seed: g.include_seed,
        max_visited: g.max_visited,
        max_edges: g.max_edges,
        result_limit: g.result_limit,
        edge_where: g.edge_where.deep_view(),
        node_where: Seq::new(
            g.node_where@.len(),
            |i: int|
                if 0 <= i < g.node_where@.len() {
                    query_view(g.node_where@[i])
                } else {
                    arbitrary()
                },
        ),
    }
}

impl<'a> DeepView for QueryFilter<'a> {
    type V = QueryFilterV;

    open spec fn deep_view(&self) -> QueryFilterV {
        query_view(*self)
    }
}

/// The view of a list of filters is that of its members.
proof fn query_view_parts(parts: Vec<QueryFilter>)
    ensures
        query_view(QueryFilter::Any(parts)) == QueryFilterV::Any(parts.deep_view()),
        query_view(QueryFilter::All(parts)) == QueryFilterV::All(parts.deep_view()),
{
    assert(query_view(QueryFilter::Any(parts))->Any_0 =~= parts.deep_view());
    assert(query_view(QueryFilter::All(parts))->All_0 =~= parts.deep_view());
}

proof fn bfs_view_parts(g: BfsRequest)
    ensures
        bfs_view(g).node_where == g.node_where.deep_view(),
{
    assert(bfs_view(g).node_where =~= g.node_where.deep_view());
}

/// The test that an edge predicate asks for.
pub open spec fn edge_test(p: OwnedEdgePredicateV) -> EdgeTestV {
    EdgeTestV { property: p.property, op: p.op, value: p.value }
}

/// The traversal that a pattern asks for: its seed is not one of its results.
pub open spec fn bfs_request(g: OwnedGraphV, nodes: Seq<QueryFilterV>, limits: GraphLimits) -> BfsRequestV {
    BfsRequestV {
        seed: g.seed,
        direction: g.direction,
        context: g.context,
        edge_type: g.edge_type,
        min_depth: g.min_depth,
        max_depth: g.max_depth,
        include_seed: false,
        max_visited: limits.visited,
        max_edges: limits.edges,
        result_limit: limits.results,
        edge_where: g.edge_where.map_values(|p: OwnedEdgePredicateV| edge_test(p)),
        node_where: nodes,
    }
}

/// The filter that a plan's filter asks for: its values, without the slots.
pub open spec fn asked(f: OwnedFilterV, limits: GraphLimits) -> QueryFilterV
    decreases f,
{
    match f {
        OwnedFilterV::Scalar { index, predicate, .. } => QueryFilterV::Scalar { index, predicate },
        OwnedFilterV::Point { index, predicate, .. } => QueryFilterV::Point { index, predicate },
        OwnedFilterV::Geometry { index, predicate, .. } => QueryFilterV::Geometry {
            index,
            predicate,
        },
        OwnedFilterV::Text { index, query, matching, .. } => QueryFilterV::Text {
            index,
            query,
            matching,
        },
        OwnedFilterV::Graph(g) => QueryFilterV::Graph(
            bfs_request(g, asked_all(g.node_where, limits), limits),
        ),
        OwnedFilterV::Key { lower, upper, .. } => QueryFilterV::Key { lower, upper },
        OwnedFilterV::Any(parts) => QueryFilterV::Any(asked_all(parts, limits)),
        OwnedFilterV::Not(inner) => QueryFilterV::Not(Box::new(asked(*inner, limits))),
        OwnedFilterV::All(parts) => QueryFilterV::All(asked_all(parts, limits)),
        OwnedFilterV::Ids(ids) => QueryFilterV::Ids(ids),
    }
}

/// The filters that a plan's filters ask for, in their order.
pub open spec fn asked_all(parts: Seq<OwnedFilterV>, limits: GraphLimits) -> Seq<QueryFilterV>
    decreases parts,
{
    if parts.len() == 0 {
        Seq::empty()
    } else {
        asked_all(parts.drop_last(), limits).push(asked(parts.last(), limits))
    }
}

fn edge_tests<'a>(list: &'a Vec<OwnedEdgePredicate>) -> (r: Vec<EdgeTest<'a>>)
    ensures
        r.deep_view() == list.deep_view().map_values(|p: OwnedEdgePredicateV| edge_test(p)),
{
    let ghost all = list.deep_view();
    let mut out: Vec<EdgeTest<'a>> = Vec::new();
    let mut i: usize = 0;
    while i < list.len()
        invariant
            i <= list@.len(),
            all == list.deep_view(),
            out@.len() == i,
            forall|k: int| 0 <= k < i ==> (#[trigger] out@[k]).deep_view() == edge_test(all[k]),
        decreases list@.len() - i,
    {
        assert(all[i as int] == list@[i as int].deep_view());
        let p = &list[i];
        out.push(EdgeTest { property: &p.property, op: p.op, value: &p.value });
        i = i + 1;
    }
    assert(out.deep_view() =~= all.map_values(|p: OwnedEdgePredicateV| edge_test(p)));
    out
}

/// The filter that a plan's filter asks for.
pub fn ask<'a>(f: &'a OwnedFilter, limits: GraphLimits) -> (r: QueryFilter<'a>)
    ensures
        r.deep_view() == asked(f.deep_view(), limits),
    decreases f, 0nat,
{
    match f {
        OwnedFilter::Scalar { index, predicate, .. } => QueryFilter::Scalar {
            index: *index,
            predicate,
        },
        OwnedFilter::Point { index, predicate, .. } => QueryFilter::Point {
            index: *index,
            predicate,
        },
        OwnedFilter::Geometry { index, predicate, .. } => QueryFilter::Geometry {
            index: *index,
            predicate,
        },
        OwnedFilter::Text { index, query, matching, .. } => QueryFilter::Text {
            index: *index,
            query,
            matching: *matching,
        },
        OwnedFilter::Graph(g) => {
            let node_where = ask_all(&g.node_where, limits);
            let made = BfsRequest {
                seed: g.seed,
                direction: g.direction,
                context: g.context,
                edge_type: g.edge_type,
                min_depth: g.min_depth,
                max_depth: g.max_depth,
                include_seed: false,
                max_visited: limits.visited,
                max_edges: limits.edges,
                result_limit: limits.results,
                edge_where: edge_tests(&g.edge_where),
                node_where,
            };
            proof {
                graph_view_parts(*g);
                bfs_view_parts(made);
            }
            QueryFilter::Graph(made)
        },
        OwnedFilter::Key { lower, upper, .. } => QueryFilter::Key { lower, upper },
        OwnedFilter::Any(parts) => {
            let list = ask_all(parts, limits);
            proof {
                filter_view_parts(*parts);
                query_view_parts(list);
            }
            QueryFilter::Any(list)
        },
        OwnedFilter::Not(inner) => QueryFilter::Not(Box::new(ask(inner, limits))),
        OwnedFilter::All(parts) => {
            let list = ask_all(parts, limits);
            proof {
                filter_view_parts(*parts);
                query_view_parts(list);
            }
            QueryFilter::All(list)
        },
        OwnedFilter::Ids(ids) => QueryFilter::Ids(ids),
    }
}

/// The filters that a plan's filters ask for.
pub fn ask_all<'a>(parts: &'a Vec<OwnedFilter>, limits: GraphLimits) -> (r: Vec<QueryFilter<'a>>)
    ensures
        r.deep_view() == asked_all(parts.deep_view(), limits),
    decreases parts, 1nat,
{
    let ghost all = parts.deep_view();
    let mut list: Vec<QueryFilter<'a>> = Vec::new();
    let mut i: usize = 0;
    assert(all.take(0) =~= Seq::<OwnedFilterV>::empty());
    assert(list.deep_view() =~= Seq::<QueryFilterV>::empty());
    while i < parts.len()
        invariant
            i <= parts@.len(),
            all == parts.deep_view(),
            list.deep_view() == asked_all(all.take(i as int), limits),
        decreases parts@.len() - i,
    {
        proof {
            take_next(all, i as int);
            assert(all[i as int] == parts@[i as int].deep_view());
        }
        let f = ask(&parts[i], limits);
        let ghost before = list.deep_view();
        list.push(f);
        assert(list.deep_view() =~= before.push(f.deep_view()));
        i = i + 1;
    }
    proof {
        take_all(all);
    }
    list
}

// ── orders ───────────────────────────────────────────────────────────────

/// An arithmetic ranking, over the leaves that the engine has.
#[allow(inconsistent_fields)]
#[derive(Debug)]
pub enum ScoreExpr<'a> {
    Lit(&'a Real),
    Scalar { index: u64 },
    Bm25 { index: u64, query: &'a String, matching: TextMatch },
    SearchScore { index: u64, query: &'a String },
    /// The negated distance of two vectors.
    VectorSimilarity { index: u64, query: &'a VectorArg, metric: VecOp },
    Distance { index: u64, center: &'a PointValue },
    Add(Box<ScoreExpr<'a>>, Box<ScoreExpr<'a>>),
    Sub(Box<ScoreExpr<'a>>, Box<ScoreExpr<'a>>),
    Mul(Box<ScoreExpr<'a>>, Box<ScoreExpr<'a>>),
    Div(Box<ScoreExpr<'a>>, Box<ScoreExpr<'a>>),
    Neg(Box<ScoreExpr<'a>>),
}

#[allow(inconsistent_fields)]
pub enum ScoreExprV {
    Lit(RealV),
    Scalar { index: u64 },
    Bm25 { index: u64, query: Seq<char>, matching: TextMatch },
    SearchScore { index: u64, query: Seq<char> },
    VectorSimilarity { index: u64, query: VectorArgV, metric: VecOp },
    Distance { index: u64, center: PointValueV },
    Add(Box<ScoreExprV>, Box<ScoreExprV>),
    Sub(Box<ScoreExprV>, Box<ScoreExprV>),
    Mul(Box<ScoreExprV>, Box<ScoreExprV>),
    Div(Box<ScoreExprV>, Box<ScoreExprV>),
    Neg(Box<ScoreExprV>),
}

pub open spec fn expr_view(e: ScoreExpr) -> ScoreExprV
    decreases e,
{
    match e {
        ScoreExpr::Lit(n) => ScoreExprV::Lit(n.deep_view()),
        ScoreExpr::Scalar { index } => ScoreExprV::Scalar { index },
        ScoreExpr::Bm25 { index, query, matching } => ScoreExprV::Bm25 {
            index,
            query: query@,
            matching,
        },
        ScoreExpr::SearchScore { index, query } => ScoreExprV::SearchScore { index, query: query@ },
        ScoreExpr::VectorSimilarity { index, query, metric } => ScoreExprV::VectorSimilarity {
            index,
            query: query.deep_view(),
            metric,
        },
        ScoreExpr::Distance { index, center } => ScoreExprV::Distance {
            index,
            center: center.deep_view(),
        },
        ScoreExpr::Add(a, b) => ScoreExprV::Add(Box::new(expr_view(*a)), Box::new(expr_view(*b))),
        ScoreExpr::Sub(a, b) => ScoreExprV::Sub(Box::new(expr_view(*a)), Box::new(expr_view(*b))),
        ScoreExpr::Mul(a, b) => ScoreExprV::Mul(Box::new(expr_view(*a)), Box::new(expr_view(*b))),
        ScoreExpr::Div(a, b) => ScoreExprV::Div(Box::new(expr_view(*a)), Box::new(expr_view(*b))),
        ScoreExpr::Neg(a) => ScoreExprV::Neg(Box::new(expr_view(*a))),
    }
}

impl<'a> DeepView for ScoreExpr<'a> {
    type V = ScoreExprV;

    open spec fn deep_view(&self) -> ScoreExprV {
        expr_view(*self)
    }
}

/// The ranking that a plan's asks for. A statement writes the distance of two
/// vectors, and the engine has their similarity, which is the distance negated.
pub open spec fn ranked(s: OwnedScoreV) -> ScoreExprV
    decreases s,
{
    match s {
        OwnedScoreV::Lit(n) => ScoreExprV::Lit(n),
        OwnedScoreV::Scalar { index } => ScoreExprV::Scalar { index },
        OwnedScoreV::Bm25 { index, query, matching, .. } => ScoreExprV::Bm25 {
            index,
            query,
            matching,
        },
        OwnedScoreV::SearchScore { index, query } => ScoreExprV::SearchScore { index, query },
        OwnedScoreV::VectorDistance { index, query, metric, .. } => ScoreExprV::Neg(
            Box::new(ScoreExprV::VectorSimilarity { index, query, metric }),
        ),
        OwnedScoreV::Distance { index, center, .. } => ScoreExprV::Distance { index, center },
        OwnedScoreV::Add(a, b) => ScoreExprV::Add(Box::new(ranked(*a)), Box::new(ranked(*b))),
        OwnedScoreV::Sub(a, b) => ScoreExprV::Sub(Box::new(ranked(*a)), Box::new(ranked(*b))),
        OwnedScoreV::Mul(a, b) => ScoreExprV::Mul(Box::new(ranked(*a)), Box::new(ranked(*b))),
        OwnedScoreV::Div(a, b) => ScoreExprV::Div(Box::new(ranked(*a)), Box::new(ranked(*b))),
        OwnedScoreV::Neg(a) => ScoreExprV::Neg(Box::new(ranked(*a))),
    }
}

/// The ranking that a plan's asks for.
pub fn rank<'a>(s: &'a OwnedScore) -> (r: ScoreExpr<'a>)
    ensures
        r.deep_view() == ranked(s.deep_view()),
    decreases s,
{
    match s {
        OwnedScore::Lit(n) => ScoreExpr::Lit(n),
        OwnedScore::Scalar { index } => ScoreExpr::Scalar { index: *index },
        OwnedScore::Bm25 { index, query, matching, .. } => ScoreExpr::Bm25 {
            index: *index,
            query,
            matching: *matching,
        },
        OwnedScore::SearchScore { index, query } => ScoreExpr::SearchScore { index: *index, query },
        OwnedScore::VectorDistance { index, query, metric, .. } => {
            let similarity = ScoreExpr::VectorSimilarity { index: *index, query, metric: *metric };
            assert(expr_view(similarity) == (ScoreExprV::VectorSimilarity {
                index: *index,
                query: query.deep_view(),
                metric: *metric,
            }));
            ScoreExpr::Neg(Box::new(similarity))
        },
        OwnedScore::Distance { index, center, .. } => ScoreExpr::Distance { index: *index, center },
        OwnedScore::Add(a, b) => ScoreExpr::Add(Box::new(rank(a)), Box::new(rank(b))),
        OwnedScore::Sub(a, b) => ScoreExpr::Sub(Box::new(rank(a)), Box::new(rank(b))),
        OwnedScore::Mul(a, b) => ScoreExpr::Mul(Box::new(rank(a)), Box::new(rank(b))),
        OwnedScore::Div(a, b) => ScoreExpr::Div(Box::new(rank(a)), Box::new(rank(b))),
        OwnedScore::Neg(a) => ScoreExpr::Neg(Box::new(rank(a))),
    }
}

/// The order of a request.
#[allow(inconsistent_fields)]
#[derive(Debug)]
pub enum QueryOrder<'a> {
    Driver,
    EntityId,
    Scalar { index: u64, descending: bool },
    Distance { index: u64, center: &'a PointValue, descending: bool },
    Bm25 { index: u64, query: &'a String, matching: TextMatch },
    ExactVector { index: u64, query: &'a VectorArg, metric: VecOp },
    ApproximateVector { index: u64, query: &'a VectorArg, metric: VecOp, ef: usize },
    Score { expr: ScoreExpr<'a>, descending: bool },
    Edge { property: &'a String, descending: bool },
}

#[allow(inconsistent_fields)]
pub enum QueryOrderV {
    Driver,
    EntityId,
    Scalar { index: u64, descending: bool },
    Distance { index: u64, center: PointValueV, descending: bool },
    Bm25 { index: u64, query: Seq<char>, matching: TextMatch },
    ExactVector { index: u64, query: VectorArgV, metric: VecOp },
    ApproximateVector { index: u64, query: VectorArgV, metric: VecOp, ef: usize },
    Score { expr: ScoreExprV, descending: bool },
    Edge { property: Seq<char>, descending: bool },
}

impl<'a> DeepView for QueryOrder<'a> {
    type V = QueryOrderV;

    open spec fn deep_view(&self) -> QueryOrderV {
        match *self {
            QueryOrder::Driver => QueryOrderV::Driver,
            QueryOrder::EntityId => QueryOrderV::EntityId,
            QueryOrder::Scalar { index, descending } => QueryOrderV::Scalar { index, descending },
            QueryOrder::Distance { index, center, descending } => QueryOrderV::Distance {
                index,
                center: center.deep_view(),
                descending,
            },
            QueryOrder::Bm25 { index, query, matching } => QueryOrderV::Bm25 {
                index,
                query: query@,
                matching,
            },
            QueryOrder::ExactVector { index, query, metric } => QueryOrderV::ExactVector {
                index,
                query: query.deep_view(),
                metric,
            },
            QueryOrder::ApproximateVector { index, query, metric, ef } => {
                QueryOrderV::ApproximateVector { index, query: query.deep_view(), metric, ef }
            },
            QueryOrder::Score { expr, descending } => QueryOrderV::Score {
                expr: expr.deep_view(),
                descending,
            },
            QueryOrder::Edge { property, descending } => QueryOrderV::Edge {
                property: property@,
                descending,
            },
        }
    }
}

/// The order that a plan's asks for; a walk by distance goes outward.
pub open spec fn asked_order(o: OwnedOrderV) -> QueryOrderV {
    match o {
        OwnedOrderV::Driver => QueryOrderV::Driver,
        OwnedOrderV::EntityId => QueryOrderV::EntityId,
        OwnedOrderV::Scalar { index, descending } => QueryOrderV::Scalar { index, descending },
        OwnedOrderV::Distance { index, center, .. } => QueryOrderV::Distance {
            index,
            center,
            descending: false,
        },
        OwnedOrderV::Bm25 { index, query, matching, .. } => QueryOrderV::Bm25 {
            index,
            query,
            matching,
        },
        OwnedOrderV::ExactVector { index, query, metric, .. } => QueryOrderV::ExactVector {
            index,
            query,
            metric,
        },
        OwnedOrderV::ApproximateVector { index, query, metric, ef, .. } => {
            QueryOrderV::ApproximateVector { index, query, metric, ef }
        },
        OwnedOrderV::Score { expr, descending } => QueryOrderV::Score {
            expr: ranked(expr),
            descending,
        },
        OwnedOrderV::Edge { property, descending } => QueryOrderV::Edge { property, descending },
    }
}

fn ask_order<'a>(o: &'a OwnedOrder) -> (r: QueryOrder<'a>)
    ensures
        r.deep_view() == asked_order(o.deep_view()),
{
    match o {
        OwnedOrder::Driver => QueryOrder::Driver,
        OwnedOrder::EntityId => QueryOrder::EntityId,
        OwnedOrder::Scalar { index, descending } => QueryOrder::Scalar {
            index: *index,
            descending: *descending,
        },
        OwnedOrder::Distance { index, center, .. } => QueryOrder::Distance {
            index: *index,
            center,
            descending: false,
        },
        OwnedOrder::Bm25 { index, query, matching, .. } => QueryOrder::Bm25 {
            index: *index,
            query,
            matching: *matching,
        },
        OwnedOrder::ExactVector { index, query, metric, .. } => QueryOrder::ExactVector {
            index: *index,
            query,
            metric: *metric,
        },
        OwnedOrder::ApproximateVector { index, query, metric, ef, .. } => {
            QueryOrder::ApproximateVector { index: *index, query, metric: *metric, ef: *ef }
        },
        OwnedOrder::Score { expr, descending } => QueryOrder::Score {
            expr: rank(expr),
            descending: *descending,
        },
        OwnedOrder::Edge { property, descending } => QueryOrder::Edge {
            property,
            descending: *descending,
        },
    }
}

// ── requests ─────────────────────────────────────────────────────────────

/// What is read of each returned row.
#[derive(Debug)]
pub enum Projection<'a> {
    Ids,
    Fields(&'a Vec<String>),
}

pub enum ProjectionV {
    Ids,
    Fields(Seq<Seq<char>>),
}

impl<'a> DeepView for Projection<'a> {
    type V = ProjectionV;

    open spec fn deep_view(&self) -> ProjectionV {
        match *self {
            Projection::Ids => ProjectionV::Ids,
            Projection::Fields(fields) => ProjectionV::Fields(texts(fields@)),
        }
    }
}

/// A query over one collection.
#[derive(Debug)]
pub struct QueryRequest<'a> {
    pub collection: u64,
    pub filters: Vec<QueryFilter<'a>>,
    pub order: QueryOrder<'a>,
    pub projection: Projection<'a>,
    pub total_limit: Option<usize>,
    pub driver: CandidateDriver,
}

pub struct QueryRequestV {
    pub collection: u64,
    pub filters: Seq<QueryFilterV>,
    pub order: QueryOrderV,
    pub projection: ProjectionV,
    pub total_limit: Option<usize>,
    pub driver: CandidateDriver,
}

impl<'a> DeepView for QueryRequest<'a> {
    type V = QueryRequestV;

    open spec fn deep_view(&self) -> QueryRequestV {
        QueryRequestV {
            collection: self.collection,
            filters: self.filters.deep_view(),
            order: self.order.deep_view(),
            projection: self.projection.deep_view(),
            total_limit: self.total_limit,
            driver: self.driver,
        }
    }
}

/// What a `SELECT` asks for. A plan that reads no field asks for identities
/// alone.
pub open spec fn query_of(p: SelectPlanV, limits: GraphLimits) -> QueryRequestV {
    QueryRequestV {
        collection: p.collection,
        filters: asked_all(p.filters, limits),
        order: asked_order(p.order),
        projection: if p.fields.len() == 0 {
            ProjectionV::Ids
        } else {
            ProjectionV::Fields(p.fields)
        },
        total_limit: p.limit,
        driver: p.driver,
    }
}

impl SelectPlan {
    /// What this `SELECT` asks of the engine.
    pub fn query<'a>(&'a self, limits: GraphLimits) -> (r: QueryRequest<'a>)
        ensures
            r.deep_view() == query_of(self.deep_view(), limits),
    {
        assert(texts(self.fields@).len() == self.fields@.len());
        QueryRequest {
            collection: self.collection,
            filters: ask_all(&self.filters, limits),
            order: ask_order(&self.order),
            projection: if self.fields.len() == 0 {
                Projection::Ids
            } else {
                Projection::Fields(&self.fields)
            },
            total_limit: self.limit,
            driver: self.driver,
        }
    }
}

/// A folded query over one collection.
#[derive(Debug)]
pub struct AggregateRequest<'a> {
    pub collection: u64,
    pub filters: Vec<QueryFilter<'a>>,
    pub group: &'a Option<OwnedGroupKey>,
    pub accumulators: &'a Vec<OwnedAccumulator>,
    pub having: &'a Vec<GroupPredicate>,
    pub order: GroupOrder,
    pub driver: CandidateDriver,
    pub total_limit: Option<usize>,
}

pub struct AggregateRequestV {
    pub collection: u64,
    pub filters: Seq<QueryFilterV>,
    pub group: Option<OwnedGroupKeyV>,
    pub accumulators: Seq<OwnedAccumulatorV>,
    pub having: Seq<GroupPredicateV>,
    pub order: GroupOrder,
    pub driver: CandidateDriver,
    pub total_limit: Option<usize>,
}

impl<'a> DeepView for AggregateRequest<'a> {
    type V = AggregateRequestV;

    open spec fn deep_view(&self) -> AggregateRequestV {
        AggregateRequestV {
            collection: self.collection,
            filters: self.filters.deep_view(),
            group: self.group.deep_view(),
            accumulators: self.accumulators.deep_view(),
            having: self.having.deep_view(),
            order: self.order,
            driver: self.driver,
            total_limit: self.total_limit,
        }
    }
}

/// What a folded answer asks for.
pub open spec fn fold_of(p: AggregatePlanV, limits: GraphLimits) -> AggregateRequestV {
    AggregateRequestV {
        collection: p.collection,
        filters: asked_all(p.filters, limits),
        group: p.group,
        accumulators: p.accumulators,
        having: p.having,
        order: p.order,
        driver: p.driver,
        total_limit: p.limit,
    }
}

impl AggregatePlan {
    /// What this folded answer asks of the engine.
    pub fn query<'a>(&'a self, limits: GraphLimits) -> (r: AggregateRequest<'a>)
        ensures
            r.deep_view() == fold_of(self.deep_view(), limits),
    {
        AggregateRequest {
            collection: self.collection,
            filters: ask_all(&self.filters, limits),
            group: &self.group,
            accumulators: &self.accumulators,
            having: &self.having,
            order: self.order,
            driver: self.driver,
            total_limit: self.limit,
        }
    }
}

/// What is done to each row that a write finds.
#[derive(Clone, Copy, Debug, PartialEq, Eq, Structural)]
pub enum WriteAction {
    Update,
    Delete { cascade: bool },
}

/// A write to the rows of one collection that some filters leave.
#[derive(Debug)]
pub struct WriteRequest<'a> {
    pub collection: u64,
    pub filters: Vec<QueryFilter<'a>>,
    pub action: WriteAction,
    pub driver: CandidateDriver,
}

pub struct WriteRequestV {
    pub collection: u64,
    pub filters: Seq<QueryFilterV>,
    pub action: WriteAction,
    pub driver: CandidateDriver,
}

impl<'a> DeepView for WriteRequest<'a> {
    type V = WriteRequestV;

    open spec fn deep_view(&self) -> WriteRequestV {
        WriteRequestV {
            collection: self.collection,
            filters: self.filters.deep_view(),
            action: self.action,
            driver: self.driver,
        }
    }
}

/// What a write at a condition asks for; no other write asks for one.
pub open spec fn write_of_rows(p: WritePlanV, limits: GraphLimits) -> Option<WriteRequestV> {
    match p {
        WritePlanV::UpdateWhere { collection, filters, driver, .. } => Some(
            WriteRequestV {
                collection,
                filters: asked_all(filters, limits),
                action: WriteAction::Update,
                driver,
            },
        ),
        WritePlanV::DeleteWhere { collection, filters, cascade, driver } => Some(
            WriteRequestV {
                collection,
                filters: asked_all(filters, limits),
                action: WriteAction::Delete { cascade },
                driver,
            },
        ),
        _ => None,
    }
}

impl WritePlan {
    /// What this write asks of the engine, where it is one at a condition.
    pub fn query<'a>(&'a self, limits: GraphLimits) -> (r: Option<WriteRequest<'a>>)
        ensures
            r.deep_view() == write_of_rows(self.deep_view(), limits),
    {
        match self {
            WritePlan::UpdateWhere { collection, filters, driver, .. } => Some(
                WriteRequest {
                    collection: *collection,
                    filters: ask_all(filters, limits),
                    action: WriteAction::Update,
                    driver: *driver,
                },
            ),
            WritePlan::DeleteWhere { collection, filters, cascade, driver } => Some(
                WriteRequest {
                    collection: *collection,
                    filters: ask_all(filters, limits),
                    action: WriteAction::Delete { cascade: *cascade },
                    driver: *driver,
                },
            ),
            _ => None,
        }
    }
}

} // verus!
