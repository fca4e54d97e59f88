//! The compiled plan: what a statement became.

use vstd::prelude::*;
use crate::ast::{
    CmpOp, GeoArg, GeoArgV, GraphDirection, Literal, LiteralV, PointArg, PointArgV,
    SpatialPredicate, TsQuery, TsQueryV, VecOp,
};
use crate::compile::bind::{
    BoundsValue, BoundsValueV, GeomValue, GeomValueV, Number, NumberV, PointValue, PointValueV,
    Scalar, ScalarV, TextMatch, VectorArg, VectorArgV,
};
use crate::compile::row::{CompiledRow, CompiledRowV};
use crate::number::{Real, RealV};
use crate::text::texts;
use crate::value::{ColumnRule, ColumnRuleV, EntityId, Kind, Value, ValueV};

verus! {

// ── bounds ───────────────────────────────────────────────────────────────

/// One end of a range.
#[derive(Debug)]
pub enum Bound<T> {
    Included(T),
    Excluded(T),
    Unbounded,
}

impl<T: DeepView> DeepView for Bound<T> {
    type V = Bound<T::V>;

    open spec fn deep_view(&self) -> Bound<T::V> {
        match *self {
            Bound::Included(v) => Bound::Included(v.deep_view()),
            Bound::Excluded(v) => Bound::Excluded(v.deep_view()),
            Bound::Unbounded => Bound::Unbounded,
        }
    }
}

// ── slots ────────────────────────────────────────────────────────────────

/// Which half of a compiled scalar predicate a slot fills.
#[derive(Clone, Copy, Debug, PartialEq, Eq, Structural)]
pub enum ScalarAt {
    Eq,
    Lower,
    Upper,
}

/// A written value of a scalar predicate that a bind reads again.
#[derive(Debug)]
pub struct ScalarFill {
    pub at: ScalarAt,
    pub literal: Literal,
    pub kind: Kind,
    pub column: String,
}

pub struct ScalarFillV {
    pub at: ScalarAt,
    pub literal: LiteralV,
    pub kind: Kind,
    pub column: Seq<char>,
}

impl DeepView for ScalarFill {
    type V = ScalarFillV;

    open spec fn deep_view(&self) -> ScalarFillV {
        ScalarFillV {
            at: self.at,
            literal: self.literal.deep_view(),
            kind: self.kind,
            column: self.column@,
        }
    }
}

/// The slots of a predicate that has none.
pub fn no_slots() -> (r: Vec<ScalarFill>)
    ensures
        r.deep_view() == Seq::<ScalarFillV>::empty(),
{
    let r: Vec<ScalarFill> = Vec::new();
    assert(r.deep_view() =~= Seq::<ScalarFillV>::empty());
    r
}

/// Which half of a compiled key range a slot fills.
#[derive(Clone, Copy, Debug, PartialEq, Eq, Structural)]
pub enum KeyAt {
    Lower,
    Upper,
}

#[derive(Debug)]
pub struct KeyFill {
    pub at: KeyAt,
    pub literal: Literal,
}

pub struct KeyFillV {
    pub at: KeyAt,
    pub literal: LiteralV,
}

impl DeepView for KeyFill {
    type V = KeyFillV;

    open spec fn deep_view(&self) -> KeyFillV {
        KeyFillV { at: self.at, literal: self.literal.deep_view() }
    }
}

/// The slots of a point predicate: the whole of what was written.
#[derive(Debug)]
pub enum PointFill {
    Radius { center: PointArg, metres: Literal },
    Bbox(GeoArg),
}

pub enum PointFillV {
    Radius { center: PointArgV, metres: LiteralV },
    Bbox(GeoArgV),
}

impl DeepView for PointFill {
    type V = PointFillV;

    open spec fn deep_view(&self) -> PointFillV {
        match *self {
            PointFill::Radius { center, metres } => PointFillV::Radius {
                center: center.deep_view(),
                metres: metres.deep_view(),
            },
            PointFill::Bbox(g) => PointFillV::Bbox(g.deep_view()),
        }
    }
}

/// The slots of a geometry predicate.
#[derive(Debug)]
pub struct GeomFill {
    pub predicate: SpatialPredicate,
    pub argument: GeoArg,
    pub metres: Option<Literal>,
}

pub struct GeomFillV {
    pub predicate: SpatialPredicate,
    pub argument: GeoArgV,
    pub metres: Option<LiteralV>,
}

impl DeepView for GeomFill {
    type V = GeomFillV;

    open spec fn deep_view(&self) -> GeomFillV {
        GeomFillV {
            predicate: self.predicate,
            argument: self.argument.deep_view(),
            metres: self.metres.deep_view(),
        }
    }
}

/// The seed of a traversal: the collection its key is looked up in, and the
/// literal that writes the key.
#[derive(Debug)]
pub struct SeedFill {
    pub collection: u64,
    pub table: String,
    pub key: Literal,
}

pub struct SeedFillV {
    pub collection: u64,
    pub table: Seq<char>,
    pub key: LiteralV,
}

impl DeepView for SeedFill {
    type V = SeedFillV;

    open spec fn deep_view(&self) -> SeedFillV {
        SeedFillV {
            collection: self.collection,
            table: self.table@,
            key: self.key.deep_view(),
        }
    }
}

// ── filters ──────────────────────────────────────────────────────────────

#[derive(Debug)]
pub enum OwnedScalarFilter {
    Eq(Scalar),
    Range { lower: Bound<Scalar>, upper: Bound<Scalar> },
    IsNull,
    IsMissing,
}

pub enum OwnedScalarFilterV {
    Eq(ScalarV),
    Range { lower: Bound<ScalarV>, upper: Bound<ScalarV> },
    IsNull,
    IsMissing,
}

impl DeepView for OwnedScalarFilter {
    type V = OwnedScalarFilterV;

    open spec fn deep_view(&self) -> OwnedScalarFilterV {
        match *self {
            OwnedScalarFilter::Eq(v) => OwnedScalarFilterV::Eq(v.deep_view()),
            OwnedScalarFilter::Range { lower, upper } => OwnedScalarFilterV::Range {
                lower: lower.deep_view(),
                upper: upper.deep_view(),
            },
            OwnedScalarFilter::IsNull => OwnedScalarFilterV::IsNull,
            OwnedScalarFilter::IsMissing => OwnedScalarFilterV::IsMissing,
        }
    }
}

#[derive(Debug)]
pub enum PointFilter {
    Radius { center: PointValue, radius_metres: Number },
    Bbox(BoundsValue),
}

pub enum PointFilterV {
    Radius { center: PointValueV, radius_metres: NumberV },
    Bbox(BoundsValueV),
}

impl DeepView for PointFilter {
    type V = PointFilterV;

    open spec fn deep_view(&self) -> PointFilterV {
        match *self {
            PointFilter::Radius { center, radius_metres } => PointFilterV::Radius {
                center: center.deep_view(),
                radius_metres: radius_metres.deep_view(),
            },
            PointFilter::Bbox(b) => PointFilterV::Bbox(b.deep_view()),
        }
    }
}

#[derive(Debug)]
pub enum GeometryFilter {
    Intersects(GeomValue),
    Within(GeomValue),
    Contains(GeomValue),
    DWithin { geometry: GeomValue, metres: Number },
}

pub enum GeometryFilterV {
    Intersects(GeomValueV),
    Within(GeomValueV),
    Contains(GeomValueV),
    DWithin { geometry: GeomValueV, metres: NumberV },
}

impl DeepView for GeometryFilter {
    type V = GeometryFilterV;

    open spec fn deep_view(&self) -> GeometryFilterV {
        match *self {
            GeometryFilter::Intersects(g) => GeometryFilterV::Intersects(g.deep_view()),
            GeometryFilter::Within(g) => GeometryFilterV::Within(g.deep_view()),
            GeometryFilter::Contains(g) => GeometryFilterV::Contains(g.deep_view()),
            GeometryFilter::DWithin { geometry, metres } => GeometryFilterV::DWithin {
                geometry: geometry.deep_view(),
                metres: metres.deep_view(),
            },
        }
    }
}

/// A comparison against one property of an edge.
#[derive(Debug)]
pub struct OwnedEdgePredicate {
    pub property: String,
    pub op: CmpOp,
    pub value: Scalar,
    pub fill: Option<Literal>,
}

pub struct OwnedEdgePredicateV {
    pub property: Seq<char>,
    pub op: CmpOp,
    pub value: ScalarV,
    pub fill: Option<LiteralV>,
}

impl DeepView for OwnedEdgePredicate {
    type V = OwnedEdgePredicateV;

    open spec fn deep_view(&self) -> OwnedEdgePredicateV {
        OwnedEdgePredicateV {
            property: self.property@,
            op: self.op,
            value: self.value.deep_view(),
            fill: self.fill.deep_view(),
        }
    }
}

/// One bounded traversal, with its per-hop predicates.
#[derive(Debug)]
pub struct OwnedGraph {
    pub seed: EntityId,
    pub seed_fill: Option<SeedFill>,
    pub direction: GraphDirection,
    pub context: u64,
    pub edge_type: Option<u64>,
    pub min_depth: usize,
    pub max_depth: usize,
    pub edge_where: Vec<OwnedEdgePredicate>,
    pub node_where: Vec<OwnedFilter>,
}

pub struct OwnedGraphV {
    pub seed: EntityId,
    pub seed_fill: Option<SeedFillV>,
    pub direction: GraphDirection,
    pub context: u64,
    pub edge_type: Option<u64>,
    pub min_depth: usize,
    pub max_depth: usize,
    pub edge_where: Seq<OwnedEdgePredicateV>,
    pub node_where: Seq<OwnedFilterV>,
}

/// One conjunct of a compiled `WHERE`.
#[allow(inconsistent_fields)]
#[derive(Debug)]
pub enum OwnedFilter {
    Scalar { index: u64, predicate: OwnedScalarFilter, fills: Vec<ScalarFill> },
    Point { index: u64, predicate: PointFilter, fill: Option<PointFill> },
    Geometry { index: u64, predicate: GeometryFilter, fill: Option<GeomFill> },
    Text { index: u64, query: String, matching: TextMatch, fill: Option<TsQuery> },
    Graph(OwnedGraph),
    Key { lower: Bound<String>, upper: Bound<String>, fills: Vec<KeyFill> },
    /// A union.
    Any(Vec<OwnedFilter>),
    /// A complement.
    Not(Box<OwnedFilter>),
    /// An intersection inside a union or under a complement.
    All(Vec<OwnedFilter>),
    /// The ids a semi-join named, ascending and without duplicates.
    Ids(Vec<EntityId>),
}

#[allow(inconsistent_fields)]
pub enum OwnedFilterV {
    Scalar { index: u64, predicate: OwnedScalarFilterV, fills: Seq<ScalarFillV> },
    Point { index: u64, predicate: PointFilterV, fill: Option<PointFillV> },
    Geometry { index: u64, predicate: GeometryFilterV, fill: Option<GeomFillV> },
    Text { index: u64, query: Seq<char>, matching: TextMatch, fill: Option<TsQueryV> },
    Graph(OwnedGraphV),
    Key { lower: Bound<Seq<char>>, upper: Bound<Seq<char>>, fills: Seq<KeyFillV> },
    Any(Seq<OwnedFilterV>),
    Not(Box<OwnedFilterV>),
    All(Seq<OwnedFilterV>),
    Ids(Seq<EntityId>),
}

pub open spec fn filter_view(f: OwnedFilter) -> OwnedFilterV
    decreases f,
{
    match f {
        OwnedFilter::Scalar { index, predicate, fills } => OwnedFilterV::Scalar {
            index,
            predicate: predicate.deep_view(),
            fills: fills.deep_view(),
        },
        OwnedFilter::Point { index, predicate, fill } => OwnedFilterV::Point {
            index,
            predicate: predicate.deep_view(),
            fill: fill.deep_view(),
        },
        OwnedFilter::Geometry { index, predicate, fill } => OwnedFilterV::Geometry {
            index,
            predicate: predicate.deep_view(),
            fill: fill.deep_view(),
        },
        OwnedFilter::Text { index, query, matching, fill } => OwnedFilterV::Text {
            index,
            query: query@,
            matching,
            fill: fill.deep_view(),
        },
        OwnedFilter::Graph(g) => OwnedFilterV::Graph(graph_view(g)),
        OwnedFilter::Key { lower, upper, fills } => OwnedFilterV::Key {
            lower: lower.deep_view(),
            upper: upper.deep_view(),
            fills: fills.deep_view(),
        },
        OwnedFilter::Any(parts) => OwnedFilterV::Any(
            Seq::new(
                parts@.len(),
                |i: int|
                    if 0 <= i < parts@.len() {
                        filter_view(parts@[i])
                    } else {
                        arbitrary()
                    },
            ),
        ),
        OwnedFilter::Not(inner) => OwnedFilterV::Not(Box::new(filter_view(*inner))),
        OwnedFilter::All(parts) => OwnedFilterV::All(
            Seq::new(
                parts@.len(),
                |i: int|
                    if 0 <= i < parts@.len() {
                        filter_view(parts@[i])
                    } else {
                        arbitrary()
                    },
            ),
        ),
        OwnedFilter::Ids(ids) => OwnedFilterV::Ids(ids@),
    }
}

pub open spec fn graph_view(g: OwnedGraph) -> OwnedGraphV
    decreases g,
{
    OwnedGraphV {
        seed: g.seed,
        seed_fill: g.seed_fill.deep_view(),
        direction: g.direction,
        context: g.context,
        edge_type: g.edge_type,
        min_depth: g.min_depth,
        max_depth: g.max_depth,
        edge_where: g.edge_where.deep_view(),
        node_where: Seq::new(
            g.node_where@.len(),
            |i: int|
                if 0 <= i < g.node_where@.len() {
                    filter_view(g.node_where@[i])
                } else {
                    arbitrary()
                },
        ),
    }
}

impl DeepView for OwnedFilter {
    type V = OwnedFilterV;

    open spec fn deep_view(&self) -> OwnedFilterV {
        filter_view(*self)
    }
}

impl DeepView for OwnedGraph {
    type V = OwnedGraphV;

    open spec fn deep_view(&self) -> OwnedGraphV {
        graph_view(*self)
    }
}

/// The view of a list of filters is that of its members.
pub proof fn filter_view_parts(parts: Vec<OwnedFilter>)
    ensures
        filter_view(OwnedFilter::Any(parts)) == OwnedFilterV::Any(parts.deep_view()),
        filter_view(OwnedFilter::All(parts)) == OwnedFilterV::All(parts.deep_view()),
{
    assert(filter_view(OwnedFilter::Any(parts))->Any_0 =~= parts.deep_view());
    assert(filter_view(OwnedFilter::All(parts))->All_0 =~= parts.deep_view());
}

/// The view of a traversal's node predicates is that of their list.
pub proof fn graph_view_parts(g: OwnedGraph)
    ensures
        graph_view(g).node_where == g.node_where.deep_view(),
{
    assert(graph_view(g).node_where =~= g.node_where.deep_view());
}

// ── order ────────────────────────────────────────────────────────────────

/// An arithmetic ranking.
#[allow(inconsistent_fields)]
#[derive(Debug)]
pub enum OwnedScore {
    Lit(Real),
    Scalar { index: u64 },
    Bm25 { index: u64, query: String, matching: TextMatch, fill: Option<TsQuery> },
    SearchScore { index: u64, query: String },
    VectorDistance { index: u64, query: VectorArg, metric: VecOp, fill: Option<Literal> },
    Distance { index: u64, center: PointValue, fill: Option<PointArg> },
    Add(Box<OwnedScore>, Box<OwnedScore>),
    Sub(Box<OwnedScore>, Box<OwnedScore>),
    Mul(Box<OwnedScore>, Box<OwnedScore>),
    Div(Box<OwnedScore>, Box<OwnedScore>),
    Neg(Box<OwnedScore>),
}

#[allow(inconsistent_fields)]
pub enum OwnedScoreV {
    Lit(RealV),
    Scalar { index: u64 },
    Bm25 { index: u64, query: Seq<char>, matching: TextMatch, fill: Option<TsQueryV> },
    SearchScore { index: u64, query: Seq<char> },
    VectorDistance { index: u64, query: VectorArgV, metric: VecOp, fill: Option<LiteralV> },
    Distance { index: u64, center: PointValueV, fill: Option<PointArgV> },
    Add(Box<OwnedScoreV>, Box<OwnedScoreV>),
    Sub(Box<OwnedScoreV>, Box<OwnedScoreV>),
    Mul(Box<OwnedScoreV>, Box<OwnedScoreV>),
    Div(Box<OwnedScoreV>, Box<OwnedScoreV>),
    Neg(Box<OwnedScoreV>),
}

pub open spec fn score_view(s: OwnedScore) -> OwnedScoreV
    decreases s,
{
    match s {
        OwnedScore::Lit(n) => OwnedScoreV::Lit(n.deep_view()),
        OwnedScore::Scalar { index } => OwnedScoreV::Scalar { index },
        OwnedScore::Bm25 { index, query, matching, fill } => OwnedScoreV::Bm25 {
            index,
            query: query@,
            matching,
            fill: fill.deep_view(),
        },
        OwnedScore::SearchScore { index, query } => OwnedScoreV::SearchScore {
            index,
            query: query@,
        },
        OwnedScore::VectorDistance { index, query, metric, fill } => OwnedScoreV::VectorDistance {
            index,
            query: query.deep_view(),
            metric,
            fill: fill.deep_view(),
        },
        OwnedScore::Distance { index, center, fill } => OwnedScoreV::Distance {
            index,
            center: center.deep_view(),
            fill: fill.deep_view(),
        },
        OwnedScore::Add(a, b) => OwnedScoreV::Add(
            Box::new(score_view(*a)),
            Box::new(score_view(*b)),
        ),
        OwnedScore::Sub(a, b) => OwnedScoreV::Sub(
            Box::new(score_view(*a)),
            Box::new(score_view(*b)),
        ),
        OwnedScore::Mul(a, b) => OwnedScoreV::Mul(
            Box::new(score_view(*a)),
            Box::new(score_view(*b)),
        ),
        OwnedScore::Div(a, b) => OwnedScoreV::Div(
            Box::new(score_view(*a)),
            Box::new(score_view(*b)),
        ),
        OwnedScore::Neg(a) => OwnedScoreV::Neg(Box::new(score_view(*a))),
    }
}

impl DeepView for OwnedScore {
    type V = OwnedScoreV;

    open spec fn deep_view(&self) -> OwnedScoreV {
        score_view(*self)
    }
}

/// The order of a compiled `SELECT`.
#[allow(inconsistent_fields)]
#[derive(Debug)]
pub enum OwnedOrder {
    Driver,
    EntityId,
    Scalar { index: u64, descending: bool },
    Distance { index: u64, center: PointValue, fill: Option<PointArg> },
    Bm25 { index: u64, query: String, matching: TextMatch, fill: Option<TsQuery> },
    ExactVector { index: u64, query: VectorArg, metric: VecOp, fill: Option<Literal> },
    ApproximateVector {
        index: u64,
        query: VectorArg,
        metric: VecOp,
        ef: usize,
        fill: Option<Literal>,
    },
    Score { expr: OwnedScore, descending: bool },
    /// A property of the edge that a pattern bound.
    Edge { property: String, descending: bool },
}

#[allow(inconsistent_fields)]
pub enum OwnedOrderV {
    Driver,
    EntityId,
    Scalar { index: u64, descending: bool },
    Distance { index: u64, center: PointValueV, fill: Option<PointArgV> },
    Bm25 { index: u64, query: Seq<char>, matching: TextMatch, fill: Option<TsQueryV> },
    ExactVector { index: u64, query: VectorArgV, metric: VecOp, fill: Option<LiteralV> },
    ApproximateVector {
        index: u64,
        query: VectorArgV,
        metric: VecOp,
        ef: usize,
        fill: Option<LiteralV>,
    },
    Score { expr: OwnedScoreV, descending: bool },
    Edge { property: Seq<char>, descending: bool },
}

impl DeepView for OwnedOrder {
    type V = OwnedOrderV;

    open spec fn deep_view(&self) -> OwnedOrderV {
        match *self {
            OwnedOrder::Driver => OwnedOrderV::Driver,
            OwnedOrder::EntityId => OwnedOrderV::EntityId,
            OwnedOrder::Scalar { index, descending } => OwnedOrderV::Scalar { index, descending },
            OwnedOrder::Distance { index, center, fill } => OwnedOrderV::Distance {
                index,
                center: center.deep_view(),
                fill: fill.deep_view(),
            },
            OwnedOrder::Bm25 { index, query, matching, fill } => OwnedOrderV::Bm25 {
                index,
                query: query@,
                matching,
                fill: fill.deep_view(),
            },
            OwnedOrder::ExactVector { index, query, metric, fill } => OwnedOrderV::ExactVector {
                index,
                query: query.deep_view(),
                metric,
                fill: fill.deep_view(),
            },
            OwnedOrder::ApproximateVector { index, query, metric, ef, fill } => {
                OwnedOrderV::ApproximateVector {
                    index,
                    query: query.deep_view(),
                    metric,
                    ef,
                    fill: fill.deep_view(),
                }
            },
            OwnedOrder::Score { expr, descending } => OwnedOrderV::Score {
                expr: expr.deep_view(),
                descending,
            },
            OwnedOrder::Edge { property, descending } => OwnedOrderV::Edge {
                property: property@,
                descending,
            },
        }
    }
}

// ── SELECT ───────────────────────────────────────────────────────────────

/// How one output column is filled from a returned row.
#[derive(Clone, Copy, Debug, PartialEq, Eq, Structural)]
pub enum Output {
    /// The row identity, which every row carries.
    Id,
    /// The n-th projected field.
    Field(usize),
    /// The external key: one point read for each returned row.
    Key,
    /// The statement's own ranking value.
    OrderValue,
    /// A row function, by its position in the plan.
    Row(usize),
}

/// Which candidates a plan is walked from.
#[derive(Clone, Copy, Debug, PartialEq, Eq, Structural)]
pub enum CandidateDriver {
    Auto,
    Keys,
}

#[derive(Debug)]
pub struct SelectPlan {
    pub collection: u64,
    pub columns: Vec<String>,
    pub outputs: Vec<Output>,
    /// The fields that a page projects, in order.
    pub fields: Vec<String>,
    pub filters: Vec<OwnedFilter>,
    pub order: OwnedOrder,
    pub limit: Option<usize>,
    pub driver: CandidateDriver,
    /// The row expressions that `Output::Row` indexes.
    pub functions: Vec<CompiledRow>,
    /// One line for each function of the `WHERE` that became an index range.
    pub rewrites: Vec<String>,
    /// One line for each row function of the select list.
    pub row_functions: Vec<String>,
}

pub struct SelectPlanV {
    pub collection: u64,
    pub columns: Seq<Seq<char>>,
    pub outputs: Seq<Output>,
    pub fields: Seq<Seq<char>>,
    pub filters: Seq<OwnedFilterV>,
    pub order: OwnedOrderV,
    pub limit: Option<usize>,
    pub driver: CandidateDriver,
    pub functions: Seq<CompiledRowV>,
    pub rewrites: Seq<Seq<char>>,
    pub row_functions: Seq<Seq<char>>,
}

impl DeepView for SelectPlan {
    type V = SelectPlanV;

    open spec fn deep_view(&self) -> SelectPlanV {
        SelectPlanV {
            collection: self.collection,
            columns: texts(self.columns@),
            outputs: self.outputs@,
            fields: texts(self.fields@),
            filters: self.filters.deep_view(),
            order: self.order.deep_view(),
            limit: self.limit,
            driver: self.driver,
            functions: self.functions.deep_view(),
            rewrites: texts(self.rewrites@),
            row_functions: texts(self.row_functions@),
        }
    }
}

// ── aggregates ───────────────────────────────────────────────────────────

/// Where one column of a folded answer comes from.
#[derive(Clone, Copy, Debug, PartialEq, Eq, Structural)]
pub enum AggOutput {
    Key,
    /// One accumulator, by its position in the plan.
    Value(usize),
}

#[derive(Clone, Copy, Debug, PartialEq, Eq, Structural)]
pub enum AggregateFn {
    CountStar,
    Count,
    Sum,
    Min,
    Max,
    Avg,
}

#[derive(Debug)]
pub enum OwnedAggInput {
    Index(u64),
    Field(String),
}

pub enum OwnedAggInputV {
    Index(u64),
    Field(Seq<char>),
}

impl DeepView for OwnedAggInput {
    type V = OwnedAggInputV;

    open spec fn deep_view(&self) -> OwnedAggInputV {
        match *self {
            OwnedAggInput::Index(i) => OwnedAggInputV::Index(i),
            OwnedAggInput::Field(f) => OwnedAggInputV::Field(f@),
        }
    }
}

#[derive(Debug)]
pub struct OwnedAccumulator {
    pub function: AggregateFn,
    pub input: Option<OwnedAggInput>,
}

pub struct OwnedAccumulatorV {
    pub function: AggregateFn,
    pub input: Option<OwnedAggInputV>,
}

impl DeepView for OwnedAccumulator {
    type V = OwnedAccumulatorV;

    open spec fn deep_view(&self) -> OwnedAccumulatorV {
        OwnedAccumulatorV { function: self.function, input: self.input.deep_view() }
    }
}

#[derive(Debug)]
pub enum OwnedGroupKey {
    Index(u64),
    Field(String),
    IndexDiv { index: u64, divisor: i64 },
}

pub enum OwnedGroupKeyV {
    Index(u64),
    Field(Seq<char>),
    IndexDiv { index: u64, divisor: i64 },
}

impl DeepView for OwnedGroupKey {
    type V = OwnedGroupKeyV;

    open spec fn deep_view(&self) -> OwnedGroupKeyV {
        match *self {
            OwnedGroupKey::Index(i) => OwnedGroupKeyV::Index(i),
            OwnedGroupKey::Field(f) => OwnedGroupKeyV::Field(f@),
            OwnedGroupKey::IndexDiv { index, divisor } => OwnedGroupKeyV::IndexDiv {
                index,
                divisor,
            },
        }
    }
}

/// One `HAVING` comparison.
#[derive(Debug)]
pub struct GroupPredicate {
    pub accumulator: usize,
    pub op: CmpOp,
    pub value: Number,
}

pub struct GroupPredicateV {
    pub accumulator: usize,
    pub op: CmpOp,
    pub value: NumberV,
}

impl DeepView for GroupPredicate {
    type V = GroupPredicateV;

    open spec fn deep_view(&self) -> GroupPredicateV {
        GroupPredicateV {
            accumulator: self.accumulator,
            op: self.op,
            value: self.value.deep_view(),
        }
    }
}

#[derive(Clone, Copy, Debug, PartialEq, Eq, Structural)]
pub enum GroupOrder {
    Key,
    Accumulator { at: usize, descending: bool },
}

/// A compiled `GROUP BY`, `DISTINCT` or aggregate statement.
#[derive(Debug)]
pub struct AggregatePlan {
    pub collection: u64,
    pub columns: Vec<String>,
    pub outputs: Vec<AggOutput>,
    pub filters: Vec<OwnedFilter>,
    pub group: Option<OwnedGroupKey>,
    pub accumulators: Vec<OwnedAccumulator>,
    pub having: Vec<GroupPredicate>,
    pub order: GroupOrder,
    pub driver: CandidateDriver,
    pub limit: Option<usize>,
    /// `Some(date_only)` when the group key is a declared instant.
    pub key_iso: Option<bool>,
}

pub struct AggregatePlanV {
    pub collection: u64,
    pub columns: Seq<Seq<char>>,
    pub outputs: Seq<AggOutput>,
    pub filters: Seq<OwnedFilterV>,
    pub group: Option<OwnedGroupKeyV>,
    pub accumulators: Seq<OwnedAccumulatorV>,
    pub having: Seq<GroupPredicateV>,
    pub order: GroupOrder,
    pub driver: CandidateDriver,
    pub limit: Option<usize>,
    pub key_iso: Option<bool>,
}

impl DeepView for AggregatePlan {
    type V = AggregatePlanV;

    open spec fn deep_view(&self) -> AggregatePlanV {
        AggregatePlanV {
            collection: self.collection,
            columns: texts(self.columns@),
            outputs: self.outputs@,
            filters: self.filters.deep_view(),
            group: self.group.deep_view(),
            accumulators: self.accumulators.deep_view(),
            having: self.having.deep_view(),
            order: self.order,
            driver: self.driver,
            limit: self.limit,
            key_iso: self.key_iso,
        }
    }
}

// ── writes ───────────────────────────────────────────────────────────────

/// An index a statement creates.
#[allow(inconsistent_fields)]
#[derive(Debug)]
pub enum CompiledIndex {
    Scalar { field: String, unique: bool },
    LowerScalar { field: String },
    JsonScalar { field: String, member: String },
    Text { field: String },
    Point { field: String },
    Geometry { field: String },
    ExactVector { field: String },
    QuantizedVector { field: String },
    VamanaGraph { field: String },
}

pub enum CompiledIndexV {
    Scalar { field: Seq<char>, unique: bool },
    LowerScalar { field: Seq<char> },
    JsonScalar { field: Seq<char>, member: Seq<char> },
    Text { field: Seq<char> },
    Point { field: Seq<char> },
    Geometry { field: Seq<char> },
    ExactVector { field: Seq<char> },
    QuantizedVector { field: Seq<char> },
    VamanaGraph { field: Seq<char> },
}

impl DeepView for CompiledIndex {
    type V = CompiledIndexV;

    open spec fn deep_view(&self) -> CompiledIndexV {
        match *self {
            CompiledIndex::Scalar { field, unique } => CompiledIndexV::Scalar {
                field: field@,
                unique,
            },
            CompiledIndex::LowerScalar { field } => CompiledIndexV::LowerScalar { field: field@ },
            CompiledIndex::JsonScalar { field, member } => CompiledIndexV::JsonScalar {
                field: field@,
                member: member@,
            },
            CompiledIndex::Text { field } => CompiledIndexV::Text { field: field@ },
            CompiledIndex::Point { field } => CompiledIndexV::Point { field: field@ },
            CompiledIndex::Geometry { field } => CompiledIndexV::Geometry { field: field@ },
            CompiledIndex::ExactVector { field } => CompiledIndexV::ExactVector { field: field@ },
            CompiledIndex::QuantizedVector { field } => CompiledIndexV::QuantizedVector {
                field: field@,
            },
            CompiledIndex::VamanaGraph { field } => CompiledIndexV::VamanaGraph { field: field@ },
        }
    }
}

/// What one `ALTER TABLE` action became.
#[derive(Debug)]
pub enum CompiledAlter {
    /// A new layout: the fields, the declared types and rules that survive,
    /// the indexes that go with a column and those that come with one.
    Layout {
        fields: Vec<(String, Kind)>,
        declared: Vec<(String, String)>,
        rules: Vec<(String, ColumnRule)>,
        drop_indexes: Vec<(u64, String)>,
        create_indexes: Vec<(String, CompiledIndex)>,
    },
    Rename { to: String },
}

pub enum CompiledAlterV {
    Layout {
        fields: Seq<(Seq<char>, Kind)>,
        declared: Seq<(Seq<char>, Seq<char>)>,
        rules: Seq<(Seq<char>, ColumnRuleV)>,
        drop_indexes: Seq<(u64, Seq<char>)>,
        create_indexes: Seq<(Seq<char>, CompiledIndexV)>,
    },
    Rename { to: Seq<char> },
}

impl DeepView for CompiledAlter {
    type V = CompiledAlterV;

    open spec fn deep_view(&self) -> CompiledAlterV {
        match *self {
            CompiledAlter::Layout { fields, declared, rules, drop_indexes, create_indexes } => {
                CompiledAlterV::Layout {
                    fields: fields.deep_view(),
                    declared: declared.deep_view(),
                    rules: rules.deep_view(),
                    drop_indexes: drop_indexes.deep_view(),
                    create_indexes: create_indexes.deep_view(),
                }
            },
            CompiledAlter::Rename { to } => CompiledAlterV::Rename { to: to@ },
        }
    }
}

/// A value as a document stores it.
#[derive(Debug)]
pub enum Stored {
    Value(Value),
    /// An integer in a floating-point column.
    Widened(i64),
    Vector(VectorArg),
    /// A JSON document, by its text.
    Json(String),
}

pub enum StoredV {
    Value(ValueV),
    Widened(i64),
    Vector(VectorArgV),
    Json(Seq<char>),
}

impl DeepView for Stored {
    type V = StoredV;

    open spec fn deep_view(&self) -> StoredV {
        match *self {
            Stored::Value(v) => StoredV::Value(v.deep_view()),
            Stored::Widened(n) => StoredV::Widened(n),
            Stored::Vector(v) => StoredV::Vector(v.deep_view()),
            Stored::Json(t) => StoredV::Json(t@),
        }
    }
}

/// One compiled `SET column = ...`.
#[derive(Debug)]
pub enum CompiledSet {
    /// A constant, already held against the column's kind.
    Lit(Stored),
    /// An expression over the same row.
    Row { expr: CompiledRow, kind: Kind },
}

pub enum CompiledSetV {
    Lit(StoredV),
    Row { expr: CompiledRowV, kind: Kind },
}

impl DeepView for CompiledSet {
    type V = CompiledSetV;

    open spec fn deep_view(&self) -> CompiledSetV {
        match *self {
            CompiledSet::Lit(v) => CompiledSetV::Lit(v.deep_view()),
            CompiledSet::Row { expr, kind } => CompiledSetV::Row { expr: expr.deep_view(), kind },
        }
    }
}

#[allow(inconsistent_fields)]
#[derive(Debug)]
pub enum WritePlan {
    Insert { collection: u64, rows: Vec<(String, Vec<(String, Stored)>)> },
    Update { collection: u64, key: String, patch: Vec<(String, Stored)> },
    Delete { collection: u64, key: String },
    UpdateWhere {
        collection: u64,
        filters: Vec<OwnedFilter>,
        sets: Vec<(String, CompiledSet)>,
        /// The row fields that the expressions index.
        fields: Vec<String>,
        driver: CandidateDriver,
    },
    DeleteWhere {
        collection: u64,
        filters: Vec<OwnedFilter>,
        cascade: bool,
        driver: CandidateDriver,
    },
    BeginBulk,
    EndBulk,
    CreateTable {
        name: String,
        fields: Vec<(String, Kind)>,
        declared: Vec<(String, String)>,
        rules: Vec<(String, ColumnRule)>,
        indexes: Vec<(String, CompiledIndex)>,
    },
    AlterTable { collection: u64, table: String, action: CompiledAlter },
    CreateIndex { collection: u64, name: String, method: CompiledIndex },
    DropIndex { index: u64, name: String },
    DropTable { collection: u64, name: String, cascade: bool },
    Begin,
    Commit,
    Rollback,
    /// A statement that changed nothing and says so.
    Notice(String),
}

#[allow(inconsistent_fields)]
pub enum WritePlanV {
    Insert { collection: u64, rows: Seq<(Seq<char>, Seq<(Seq<char>, StoredV)>)> },
    Update { collection: u64, key: Seq<char>, patch: Seq<(Seq<char>, StoredV)> },
    Delete { collection: u64, key: Seq<char> },
    UpdateWhere {
        collection: u64,
        filters: Seq<OwnedFilterV>,
        sets: Seq<(Seq<char>, CompiledSetV)>,
        fields: Seq<Seq<char>>,
        driver: CandidateDriver,
    },
    DeleteWhere {
        collection: u64,
        filters: Seq<OwnedFilterV>,
        cascade: bool,
        driver: CandidateDriver,
    },
    BeginBulk,
    EndBulk,
    CreateTable {
        name: Seq<char>,
        fields: Seq<(Seq<char>, Kind)>,
        declared: Seq<(Seq<char>, Seq<char>)>,
        rules: Seq<(Seq<char>, ColumnRuleV)>,
        indexes: Seq<(Seq<char>, CompiledIndexV)>,
    },
    AlterTable { collection: u64, table: Seq<char>, action: CompiledAlterV },
    CreateIndex { collection: u64, name: Seq<char>, method: CompiledIndexV },
    DropIndex { index: u64, name: Seq<char> },
    DropTable { collection: u64, name: Seq<char>, cascade: bool },
    Begin,
    Commit,
    Rollback,
    Notice(Seq<char>),
}

impl DeepView for WritePlan {
    type V = WritePlanV;

    open spec fn deep_view(&self) -> WritePlanV {
        match *self {
            WritePlan::Insert { collection, rows } => WritePlanV::Insert {
                collection,
                rows: rows.deep_view(),
            },
            WritePlan::Update { collection, key, patch } => WritePlanV::Update {
                collection,
                key: key@,
                patch: patch.deep_view(),
            },
            WritePlan::Delete { collection, key } => WritePlanV::Delete { collection, key: key@ },
            WritePlan::UpdateWhere { collection, filters, sets, fields, driver } => {
                WritePlanV::UpdateWhere {
                    collection,
                    filters: filters.deep_view(),
                    sets: sets.deep_view(),
                    fields: texts(fields@),
                    driver,
                }
            },
            WritePlan::DeleteWhere { collection, filters, cascade, driver } => {
                WritePlanV::DeleteWhere {
                    collection,
                    filters: filters.deep_view(),
                    cascade,
                    driver,
                }
            },
            WritePlan::BeginBulk => WritePlanV::BeginBulk,
            WritePlan::EndBulk => WritePlanV::EndBulk,
            WritePlan::CreateTable { name, fields, declared, rules, indexes } => {
                WritePlanV::CreateTable {
                    name: name@,
                    fields: fields.deep_view(),
                    declared: declared.deep_view(),
                    rules: rules.deep_view(),
                    indexes: indexes.deep_view(),
                }
            },
            WritePlan::AlterTable { collection, table, action } => WritePlanV::AlterTable {
                collection,
                table: table@,
                action: action.deep_view(),
            },
            WritePlan::CreateIndex { collection, name, method } => WritePlanV::CreateIndex {
                collection,
                name: name@,
                method: method.deep_view(),
            },
            WritePlan::DropIndex { index, name } => WritePlanV::DropIndex { index, name: name@ },
            WritePlan::DropTable { collection, name, cascade } => WritePlanV::DropTable {
                collection,
                name: name@,
                cascade,
            },
            WritePlan::Begin => WritePlanV::Begin,
            WritePlan::Commit => WritePlanV::Commit,
            WritePlan::Rollback => WritePlanV::Rollback,
            WritePlan::Notice(text) => WritePlanV::Notice(text@),
        }
    }
}

} // verus!
