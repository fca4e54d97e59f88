//! Rebinding: the slots of a compiled statement, filled from a new parameter
//! list. Nothing is parsed, compiled or chosen again.

use vstd::prelude::*;
use crate::ast::SpatialPredicate;
use crate::compile::bind::{
    bounds_of, edge_value, geom_of, number_of, point_of, scalar_of, text_of, tsquery_of, vector_of,
    Binder, BinderV, Scalar,
};
use crate::compile::env::row_at;
use crate::compile::plan::{
    filter_view_parts, graph_view_parts, Bound, GeomFill, GeomFillV, GeometryFilter,
    GeometryFilterV, KeyAt, KeyFill, KeyFillV, OwnedEdgePredicate, OwnedEdgePredicateV, OwnedFilter,
    OwnedFilterV, OwnedGraph, OwnedGraphV, OwnedOrder, OwnedOrderV, OwnedScalarFilter,
    OwnedScalarFilterV, OwnedScore, OwnedScoreV, PointFill, PointFillV, PointFilter, PointFilterV,
    ScalarAt, ScalarFill, ScalarFillV, SeedFill, SeedFillV, SelectPlan, SelectPlanV,
};
use crate::compile::predicates::Filters;
use crate::error::{gives, SqlError, SqlErrorV};
use crate::lists::{take_all, take_next};
use crate::text::{cat5, join, joined, texts};
use crate::value::EntityId;

verus! {

// ── whether a plan can be bound again ────────────────────────────────────

/// Whether a compiled statement can be filled with new parameters, and why not
/// when it cannot.
#[derive(Debug)]
pub struct Rebind {
    pub refusals: Vec<String>,
}

impl Rebind {
    pub fn ok(&self) -> (r: bool)
        ensures
            r == (self.refusals@.len() == 0),
    {
        self.refusals.len() == 0
    }

    /// Why a rebind is refused, or nothing when it is not.
    pub fn reason(&self) -> (r: Option<String>)
        ensures
            match r {
                Some(text) => self.refusals@.len() > 0 && text@ == joined(
                    texts(self.refusals@),
                    "; "@,
                ),
                None => self.refusals@.len() == 0,
            },
    {
        if self.refusals.len() == 0 {
            None
        } else {
            Some(join(&self.refusals, "; "))
        }
    }
}

// ── bounds and scalars ───────────────────────────────────────────────────

/// A new value in a bound: whether it is exclusive is the statement's.
pub open spec fn refilled<T>(bound: Bound<T>, value: T) -> Bound<T> {
    match bound {
        Bound::Excluded(_) => Bound::Excluded(value),
        _ => Bound::Included(value),
    }
}

fn refill_scalar(bound: Bound<Scalar>, value: Scalar) -> (r: Bound<Scalar>)
    ensures
        r.deep_view() == refilled(bound.deep_view(), value.deep_view()),
{
    match bound {
        Bound::Excluded(_) => Bound::Excluded(value),
        _ => Bound::Included(value),
    }
}

fn refill_key(bound: Bound<String>, value: String) -> (r: Bound<String>)
    ensures
        r.deep_view() == refilled(bound.deep_view(), value@),
{
    match bound {
        Bound::Excluded(_) => Bound::Excluded(value),
        _ => Bound::Included(value),
    }
}

pub open spec fn no_position() -> SqlErrorV {
    SqlErrorV::Unsupported(
        "a rebind found a scalar slot whose compiled predicate has no such position"@,
    )
}

/// A scalar predicate with one slot filled.
pub open spec fn fill_scalar(b: BinderV, p: OwnedScalarFilterV, fill: ScalarFillV) -> Result<
    OwnedScalarFilterV,
    SqlErrorV,
> {
    match scalar_of(b, fill.kind, fill.literal, fill.column) {
        Err(e) => Err(e),
        Ok(value) => match (p, fill.at) {
            (OwnedScalarFilterV::Eq(_), ScalarAt::Eq) => Ok(OwnedScalarFilterV::Eq(value)),
            (OwnedScalarFilterV::Range { lower, upper }, ScalarAt::Lower) => Ok(
                OwnedScalarFilterV::Range { lower: refilled(lower, value), upper },
            ),
            (OwnedScalarFilterV::Range { lower, upper }, ScalarAt::Upper) => Ok(
                OwnedScalarFilterV::Range { lower, upper: refilled(upper, value) },
            ),
            _ => Err(no_position()),
        },
    }
}

/// A scalar predicate with its slots filled, from the left.
pub open spec fn fill_scalars(b: BinderV, p: OwnedScalarFilterV, fills: Seq<ScalarFillV>) -> Result<
    OwnedScalarFilterV,
    SqlErrorV,
>
    decreases fills.len(),
{
    if fills.len() == 0 {
        Ok(p)
    } else {
        match fill_scalars(b, p, fills.drop_last()) {
            Err(e) => Err(e),
            Ok(p) => fill_scalar(b, p, fills.last()),
        }
    }
}

proof fn fill_scalars_stop(b: BinderV, p: OwnedScalarFilterV, fills: Seq<ScalarFillV>, n: int)
    requires
        0 <= n <= fills.len(),
        fill_scalars(b, p, fills.take(n)) is Err,
    ensures
        fill_scalars(b, p, fills) == fill_scalars(b, p, fills.take(n)),
    decreases fills.len() - n,
{
    if n < fills.len() {
        take_next(fills, n);
        fill_scalars_stop(b, p, fills, n + 1);
    } else {
        take_all(fills);
    }
}

/// A key range with its slots filled, from the left.
pub open spec fn fill_keys(
    b: BinderV,
    lower: Bound<Seq<char>>,
    upper: Bound<Seq<char>>,
    fills: Seq<KeyFillV>,
) -> Result<(Bound<Seq<char>>, Bound<Seq<char>>), SqlErrorV>
    decreases fills.len(),
{
    if fills.len() == 0 {
        Ok((lower, upper))
    } else {
        match fill_keys(b, lower, upper, fills.drop_last()) {
            Err(e) => Err(e),
            Ok((lower, upper)) => match text_of(b, fills.last().literal) {
                Err(e) => Err(e),
                Ok(key) => match fills.last().at {
                    KeyAt::Lower => Ok((refilled(lower, key), upper)),
                    KeyAt::Upper => Ok((lower, refilled(upper, key))),
                },
            },
        }
    }
}

proof fn fill_keys_stop(
    b: BinderV,
    lower: Bound<Seq<char>>,
    upper: Bound<Seq<char>>,
    fills: Seq<KeyFillV>,
    n: int,
)
    requires
        0 <= n <= fills.len(),
        fill_keys(b, lower, upper, fills.take(n)) is Err,
    ensures
        fill_keys(b, lower, upper, fills) == fill_keys(b, lower, upper, fills.take(n)),
    decreases fills.len() - n,
{
    if n < fills.len() {
        take_next(fills, n);
        fill_keys_stop(b, lower, upper, fills, n + 1);
    } else {
        take_all(fills);
    }
}

fn refill_predicate(p: OwnedScalarFilter, fill: &ScalarFill, b: &Binder) -> (r: Result<
    OwnedScalarFilter,
    SqlError,
>)
    ensures
        gives(r, fill_scalar(b.deep_view(), p.deep_view(), fill.deep_view())),
{
    let value = b.scalar(fill.kind, &fill.literal, fill.column.as_str())?;
    match (p, fill.at) {
        (OwnedScalarFilter::Eq(_), ScalarAt::Eq) => Ok(OwnedScalarFilter::Eq(value)),
        (OwnedScalarFilter::Range { lower, upper }, ScalarAt::Lower) => Ok(
            OwnedScalarFilter::Range { lower: refill_scalar(lower, value), upper },
        ),
        (OwnedScalarFilter::Range { lower, upper }, ScalarAt::Upper) => Ok(
            OwnedScalarFilter::Range { lower, upper: refill_scalar(upper, value) },
        ),
        _ => Err(
            SqlError::unsupported(
                "a rebind found a scalar slot whose compiled predicate has no such position",
            ),
        ),
    }
}

fn refill_predicates(p: OwnedScalarFilter, fills: &Vec<ScalarFill>, b: &Binder) -> (r: Result<
    OwnedScalarFilter,
    SqlError,
>)
    ensures
        gives(r, fill_scalars(b.deep_view(), p.deep_view(), fills.deep_view())),
{
    let ghost all = fills.deep_view();
    let ghost begin = p.deep_view();
    let mut now = p;
    let mut i: usize = 0;
    assert(all.take(0) =~= Seq::<ScalarFillV>::empty());
    while i < fills.len()
        invariant
            i <= fills@.len(),
            all == fills.deep_view(),
            begin == p.deep_view(),
            fill_scalars(b.deep_view(), begin, all.take(i as int)) == Ok::<
                OwnedScalarFilterV,
                SqlErrorV,
            >(now.deep_view()),
        decreases fills@.len() - i,
    {
        proof {
            take_next(all, i as int);
            assert(all[i as int] == fills@[i as int].deep_view());
        }
        match refill_predicate(now, &fills[i], b) {
            Ok(next) => {
                now = next;
            },
            Err(e) => {
                proof {
                    fill_scalars_stop(b.deep_view(), begin, all, i as int + 1);
                }
                return Err(e);
            },
        }
        i = i + 1;
    }
    proof {
        take_all(all);
    }
    Ok(now)
}

/// A key range.
#[derive(Debug)]
pub struct KeyRange {
    pub lower: Bound<String>,
    pub upper: Bound<String>,
}

impl DeepView for KeyRange {
    type V = (Bound<Seq<char>>, Bound<Seq<char>>);

    open spec fn deep_view(&self) -> (Bound<Seq<char>>, Bound<Seq<char>>) {
        (self.lower.deep_view(), self.upper.deep_view())
    }
}

fn refill_keys(range: KeyRange, fills: &Vec<KeyFill>, b: &Binder) -> (r: Result<KeyRange, SqlError>)
    ensures
        gives(
            r,
            fill_keys(
                b.deep_view(),
                range.lower.deep_view(),
                range.upper.deep_view(),
                fills.deep_view(),
            ),
        ),
{
    let ghost all = fills.deep_view();
    let ghost begin = range.deep_view();
    let mut lower = range.lower;
    let mut upper = range.upper;
    let mut i: usize = 0;
    assert(all.take(0) =~= Seq::<KeyFillV>::empty());
    while i < fills.len()
        invariant
            i <= fills@.len(),
            all == fills.deep_view(),
            begin == range.deep_view(),
            fill_keys(b.deep_view(), begin.0, begin.1, all.take(i as int)) == Ok::<
                (Bound<Seq<char>>, Bound<Seq<char>>),
                SqlErrorV,
            >((lower.deep_view(), upper.deep_view())),
        decreases fills@.len() - i,
    {
        proof {
            take_next(all, i as int);
            assert(all[i as int] == fills@[i as int].deep_view());
        }
        match b.text_of(&fills[i].literal) {
            Ok(key) => match fills[i].at {
                KeyAt::Lower => {
                    lower = refill_key(lower, key);
                },
                KeyAt::Upper => {
                    upper = refill_key(upper, key);
                },
            },
            Err(e) => {
                proof {
                    fill_keys_stop(b.deep_view(), begin.0, begin.1, all, i as int + 1);
                }
                return Err(e);
            },
        }
        i = i + 1;
    }
    proof {
        take_all(all);
    }
    Ok(KeyRange { lower, upper })
}

// ── points, geometries, seeds ────────────────────────────────────────────

pub open spec fn fill_point(b: BinderV, fill: PointFillV) -> Result<PointFilterV, SqlErrorV> {
    match fill {
        PointFillV::Radius { center, metres } => match point_of(b, center) {
            Err(e) => Err(e),
            Ok(center) => match number_of(b, metres) {
                Err(e) => Err(e),
                Ok(radius_metres) => Ok(PointFilterV::Radius { center, radius_metres }),
            },
        },
        PointFillV::Bbox(argument) => match bounds_of(b, argument) {
            Err(e) => Err(e),
            Ok(bounds) => Ok(PointFilterV::Bbox(bounds)),
        },
    }
}

pub open spec fn fill_geometry(b: BinderV, fill: GeomFillV) -> Result<GeometryFilterV, SqlErrorV> {
    match geom_of(b, fill.argument) {
        Err(e) => Err(e),
        Ok(geometry) => match fill.predicate {
            SpatialPredicate::Intersects => Ok(GeometryFilterV::Intersects(geometry)),
            SpatialPredicate::Within => Ok(GeometryFilterV::Within(geometry)),
            SpatialPredicate::Contains => Ok(GeometryFilterV::Contains(geometry)),
            SpatialPredicate::DWithin => match fill.metres {
                None => Err(SqlErrorV::Syntax { message: "ST_DWithin needs a distance"@, at: 0 }),
                Some(l) => match number_of(b, l) {
                    Err(e) => Err(e),
                    Ok(metres) => Ok(GeometryFilterV::DWithin { geometry, metres }),
                },
            },
        },
    }
}

/// The seed of a traversal: one point read.
pub open spec fn seed_of(b: BinderV, fill: SeedFillV) -> Result<EntityId, SqlErrorV> {
    match text_of(b, fill.key) {
        Err(e) => Err(e),
        Ok(key) => match row_at(b.catalog, fill.collection, key) {
            None => Err(
                SqlErrorV::Engine(
                    "GRAPH_TABLE seed: `"@ + fill.table + "` has no row at key `"@ + key + "`"@,
                ),
            ),
            Some(row) => Ok(row.id),
        },
    }
}

pub open spec fn fill_edge(b: BinderV, p: OwnedEdgePredicateV) -> Result<
    OwnedEdgePredicateV,
    SqlErrorV,
> {
    match p.fill {
        None => Ok(p),
        Some(l) => match edge_value(b, l, p.property) {
            Err(e) => Err(e),
            Ok(value) => Ok(OwnedEdgePredicateV { value, ..p }),
        },
    }
}

pub open spec fn fill_edges(b: BinderV, list: Seq<OwnedEdgePredicateV>) -> Result<
    Seq<OwnedEdgePredicateV>,
    SqlErrorV,
>
    decreases list.len(),
{
    if list.len() == 0 {
        Ok(Seq::empty())
    } else {
        match fill_edges(b, list.drop_last()) {
            Err(e) => Err(e),
            Ok(done) => match fill_edge(b, list.last()) {
                Err(e) => Err(e),
                Ok(p) => Ok(done.push(p)),
            },
        }
    }
}

proof fn fill_edges_stop(b: BinderV, list: Seq<OwnedEdgePredicateV>, n: int)
    requires
        0 <= n <= list.len(),
        fill_edges(b, list.take(n)) is Err,
    ensures
        fill_edges(b, list) == fill_edges(b, list.take(n)),
    decreases list.len() - n,
{
    if n < list.len() {
        take_next(list, n);
        fill_edges_stop(b, list, n + 1);
    } else {
        take_all(list);
    }
}

fn refill_point(fill: &PointFill, b: &Binder) -> (r: Result<PointFilter, SqlError>)
    ensures
        gives(r, fill_point(b.deep_view(), fill.deep_view())),
{
    match fill {
        PointFill::Radius { center, metres } => {
            let center = b.point_of(center)?;
            let radius_metres = b.f64_of(metres)?;
            Ok(PointFilter::Radius { center, radius_metres })
        },
        PointFill::Bbox(argument) => Ok(PointFilter::Bbox(b.bounds_of(argument)?)),
    }
}

fn refill_geometry(fill: &GeomFill, b: &Binder) -> (r: Result<GeometryFilter, SqlError>)
    ensures
        gives(r, fill_geometry(b.deep_view(), fill.deep_view())),
{
    let geometry = b.geom_of(&fill.argument)?;
    match fill.predicate {
        SpatialPredicate::Intersects => Ok(GeometryFilter::Intersects(geometry)),
        SpatialPredicate::Within => Ok(GeometryFilter::Within(geometry)),
        SpatialPredicate::Contains => Ok(GeometryFilter::Contains(geometry)),
        SpatialPredicate::DWithin => match &fill.metres {
            None => Err(SqlError::syntax("ST_DWithin needs a distance", 0)),
            Some(l) => {
                let metres = b.f64_of(l)?;
                Ok(GeometryFilter::DWithin { geometry, metres })
            },
        },
    }
}

impl<'a> Binder<'a> {
    /// The seed of a traversal, read again.
    pub fn seed_of(&self, fill: &SeedFill) -> (r: Result<EntityId, SqlError>)
        ensures
            gives(r, seed_of(self.deep_view(), fill.deep_view())),
    {
        let key = self.text_of(&fill.key)?;
        match self.catalog.row(fill.collection, key.as_str()) {
            None => Err(
                SqlError::Engine(
                    cat5(
                        "GRAPH_TABLE seed: `",
                        fill.table.as_str(),
                        "` has no row at key `",
                        key.as_str(),
                        "`",
                    ),
                ),
            ),
            Some(row) => Ok(row.id),
        }
    }
}

/// A list of edge predicates.
#[derive(Debug)]
pub struct Edges {
    pub list: Vec<OwnedEdgePredicate>,
}

impl DeepView for Edges {
    type V = Seq<OwnedEdgePredicateV>;

    open spec fn deep_view(&self) -> Seq<OwnedEdgePredicateV> {
        self.list.deep_view()
    }
}

fn refill_edge(p: OwnedEdgePredicate, b: &Binder) -> (r: Result<OwnedEdgePredicate, SqlError>)
    ensures
        gives(r, fill_edge(b.deep_view(), p.deep_view())),
{
    match &p.fill {
        None => Ok(p),
        Some(l) => {
            let value = b.edge_value(l, p.property.as_str())?;
            Ok(
                OwnedEdgePredicate {
                    property: p.property.clone(),
                    op: p.op,
                    value,
                    fill: Some(l.dup()),
                },
            )
        },
    }
}

fn refill_edges(list: Vec<OwnedEdgePredicate>, b: &Binder) -> (r: Result<Edges, SqlError>)
    ensures
        gives(r, fill_edges(b.deep_view(), list.deep_view())),
{
    let ghost all = list.deep_view();
    let mut rest = list;
    let mut out: Vec<OwnedEdgePredicate> = Vec::new();
    let mut i: usize = 0;
    let n: usize = rest.len();
    assert(all.take(0) =~= Seq::<OwnedEdgePredicateV>::empty());
    assert(all.skip(0) =~= all);
    assert(out.deep_view() =~= Seq::<OwnedEdgePredicateV>::empty());
    while i < n
        invariant
            i <= n,
            n == all.len(),
            all == list.deep_view(),
            rest.deep_view() == all.skip(i as int),
            fill_edges(b.deep_view(), all.take(i as int)) == Ok::<
                Seq<OwnedEdgePredicateV>,
                SqlErrorV,
            >(out.deep_view()),
        decreases n - i,
    {
        assert(rest@.len() == rest.deep_view().len());
        proof {
            take_next(all, i as int);
            assert(rest.deep_view()[0] == all[i as int]);
            assert(rest.deep_view()[0] == rest@[0].deep_view());
        }
        let ghost before_rest = rest.deep_view();
        let p = rest.remove(0);
        assert(rest.deep_view() =~= all.skip(i as int + 1)) by {
            assert forall|k: int| 0 <= k < rest.deep_view().len() implies rest.deep_view()[k]
                == all.skip(i as int + 1)[k] by {
                assert(before_rest[k + 1] == all[i + k + 1]);
            }
        }
        match refill_edge(p, b) {
            Ok(p) => {
                let ghost before = out.deep_view();
                out.push(p);
                assert(out.deep_view() =~= before.push(p.deep_view()));
            },
            Err(e) => {
                proof {
                    fill_edges_stop(b.deep_view(), all, i as int + 1);
                }
                return Err(e);
            },
        }
        i = i + 1;
    }
    proof {
        take_all(all);
    }
    Ok(Edges { list: out })
}

// ── filters ──────────────────────────────────────────────────────────────

/// A filter with its slots filled; one with no slot is unchanged.
pub open spec fn rebound(b: BinderV, f: OwnedFilterV) -> Result<OwnedFilterV, SqlErrorV>
    decreases f,
{
    match f {
        OwnedFilterV::Scalar { index, predicate, fills } => match fill_scalars(
            b,
            predicate,
            fills,
        ) {
            Err(e) => Err(e),
            Ok(predicate) => Ok(OwnedFilterV::Scalar { index, predicate, fills }),
        },
        OwnedFilterV::Key { lower, upper, fills } => match fill_keys(b, lower, upper, fills) {
            Err(e) => Err(e),
            Ok((lower, upper)) => Ok(OwnedFilterV::Key { lower, upper, fills }),
        },
        OwnedFilterV::Text { index, query, matching, fill } => match fill {
            None => Ok(f),
            Some(source) => match tsquery_of(b, source) {
                Err(e) => Err(e),
                Ok((query, matching)) => Ok(OwnedFilterV::Text { index, query, matching, fill }),
            },
        },
        OwnedFilterV::Point { index, predicate, fill } => match fill {
            None => Ok(f),
            Some(source) => match fill_point(b, source) {
                Err(e) => Err(e),
                Ok(predicate) => Ok(OwnedFilterV::Point { index, predicate, fill }),
            },
        },
        OwnedFilterV::Geometry { index, predicate, fill } => match fill {
            None => Ok(f),
            Some(source) => match fill_geometry(b, source) {
                Err(e) => Err(e),
                Ok(predicate) => Ok(OwnedFilterV::Geometry { index, predicate, fill }),
            },
        },
        OwnedFilterV::Graph(g) => match match g.seed_fill {
            None => Ok(g.seed),
            Some(fill) => seed_of(b, fill),
        } {
            Err(e) => Err(e),
            Ok(seed) => match fill_edges(b, g.edge_where) {
                Err(e) => Err(e),
                Ok(edge_where) => match rebound_all(b, g.node_where) {
                    Err(e) => Err(e),
                    Ok(node_where) => Ok(
                        OwnedFilterV::Graph(OwnedGraphV { seed, edge_where, node_where, ..g }),
                    ),
                },
            },
        },
        OwnedFilterV::Any(parts) => match rebound_all(b, parts) {
            Err(e) => Err(e),
            Ok(parts) => Ok(OwnedFilterV::Any(parts)),
        },
        OwnedFilterV::All(parts) => match rebound_all(b, parts) {
            Err(e) => Err(e),
            Ok(parts) => Ok(OwnedFilterV::All(parts)),
        },
        OwnedFilterV::Not(inner) => match rebound(b, *inner) {
            Err(e) => Err(e),
            Ok(inner) => Ok(OwnedFilterV::Not(Box::new(inner))),
        },
        OwnedFilterV::Ids(_) => Ok(f),
    }
}

/// A list of filters with their slots filled, from the left.
pub open spec fn rebound_all(b: BinderV, parts: Seq<OwnedFilterV>) -> Result<
    Seq<OwnedFilterV>,
    SqlErrorV,
>
    decreases parts,
{
    if parts.len() == 0 {
        Ok(Seq::empty())
    } else {
        match rebound_all(b, parts.drop_last()) {
            Err(e) => Err(e),
            Ok(done) => match rebound(b, parts.last()) {
                Err(e) => Err(e),
                Ok(f) => Ok(done.push(f)),
            },
        }
    }
}

proof fn rebound_all_stop(b: BinderV, parts: Seq<OwnedFilterV>, n: int)
    requires
        0 <= n <= parts.len(),
        rebound_all(b, parts.take(n)) is Err,
    ensures
        rebound_all(b, parts) == rebound_all(b, parts.take(n)),
    decreases parts.len() - n,
{
    if n < parts.len() {
        take_next(parts, n);
        rebound_all_stop(b, parts, n + 1);
    } else {
        take_all(parts);
    }
}

impl OwnedFilter {
    /// This filter with its slots filled.
    pub fn rebind(self, b: &Binder) -> (r: Result<OwnedFilter, SqlError>)
        ensures
            gives(r, rebound(b.deep_view(), self.deep_view())),
        decreases self,
    {
        match self {
            OwnedFilter::Scalar { index, predicate, fills } => {
                let predicate = refill_predicates(predicate, &fills, b)?;
                Ok(OwnedFilter::Scalar { index, predicate, fills })
            },
            OwnedFilter::Key { lower, upper, fills } => {
                let range = refill_keys(KeyRange { lower, upper }, &fills, b)?;
                Ok(OwnedFilter::Key { lower: range.lower, upper: range.upper, fills })
            },
            OwnedFilter::Text { index, query, matching, fill } => match fill {
                None => Ok(OwnedFilter::Text { index, query, matching, fill: None }),
                Some(source) => {
                    let (query, matching) = b.tsquery(&source)?;
                    Ok(OwnedFilter::Text { index, query, matching, fill: Some(source) })
                },
            },
            OwnedFilter::Point { index, predicate, fill } => match fill {
                None => Ok(OwnedFilter::Point { index, predicate, fill: None }),
                Some(source) => {
                    let predicate = refill_point(&source, b)?;
                    Ok(OwnedFilter::Point { index, predicate, fill: Some(source) })
                },
            },
            OwnedFilter::Geometry { index, predicate, fill } => match fill {
                None => Ok(OwnedFilter::Geometry { index, predicate, fill: None }),
                Some(source) => {
                    let predicate = refill_geometry(&source, b)?;
                    Ok(OwnedFilter::Geometry { index, predicate, fill: Some(source) })
                },
            },
            OwnedFilter::Graph(g) => {
                proof {
                    graph_view_parts(g);
                }
                let seed = match &g.seed_fill {
                    None => g.seed,
                    Some(fill) => b.seed_of(fill)?,
                };
                let edges = refill_edges(g.edge_where, b)?;
                let nodes = rebind_all(g.node_where, b)?;
                let made = OwnedGraph {
                    seed,
                    seed_fill: g.seed_fill,
                    direction: g.direction,
                    context: g.context,
                    edge_type: g.edge_type,
                    min_depth: g.min_depth,
                    max_depth: g.max_depth,
                    edge_where: edges.list,
                    node_where: nodes.list,
                };
                proof {
                    graph_view_parts(made);
                }
                Ok(OwnedFilter::Graph(made))
            },
            OwnedFilter::Any(parts) => {
                proof {
                    filter_view_parts(parts);
                }
                let list = rebind_all(parts, b)?;
                proof {
                    filter_view_parts(list.list);
                }
                Ok(OwnedFilter::Any(list.list))
            },
            OwnedFilter::All(parts) => {
                proof {
                    filter_view_parts(parts);
                }
                let list = rebind_all(parts, b)?;
                proof {
                    filter_view_parts(list.list);
                }
                Ok(OwnedFilter::All(list.list))
            },
            OwnedFilter::Not(inner) => {
                let f = (*inner).rebind(b)?;
                Ok(OwnedFilter::Not(Box::new(f)))
            },
            OwnedFilter::Ids(ids) => Ok(OwnedFilter::Ids(ids)),
        }
    }
}

fn rebind_all(parts: Vec<OwnedFilter>, b: &Binder) -> (r: Result<Filters, SqlError>)
    ensures
        gives(r, rebound_all(b.deep_view(), parts.deep_view())),
    decreases parts,
{
    let ghost all = parts.deep_view();
    let n: usize = parts.len();
    let mut rest = parts;
    let mut out: Vec<OwnedFilter> = Vec::new();
    let mut i: usize = 0;
    assert(all.take(0) =~= Seq::<OwnedFilterV>::empty());
    assert(out.deep_view() =~= Seq::<OwnedFilterV>::empty());
    while i < n
        invariant
            i <= n,
            n == all.len(),
            n == parts@.len(),
            all == parts.deep_view(),
            rest@ == parts@.skip(i as int),
            rebound_all(b.deep_view(), all.take(i as int)) == Ok::<Seq<OwnedFilterV>, SqlErrorV>(
                out.deep_view(),
            ),
        decreases n - i,
    {
        proof {
            take_next(all, i as int);
            assert(rest@[0] == parts@[i as int]);
            assert(all[i as int] == parts@[i as int].deep_view());
        }
        let f = rest.remove(0);
        assert(rest@ =~= parts@.skip(i as int + 1));
        assert(decreases_to!(parts => f));
        match f.rebind(b) {
            Ok(f) => {
                let ghost before = out.deep_view();
                out.push(f);
                assert(out.deep_view() =~= before.push(f.deep_view()));
            },
            Err(e) => {
                proof {
                    rebound_all_stop(b.deep_view(), all, i as int + 1);
                }
                return Err(e);
            },
        }
        i = i + 1;
    }
    proof {
        take_all(all);
    }
    Ok(Filters { list: out })
}

// ── orders ───────────────────────────────────────────────────────────────

pub open spec fn rebound_score(b: BinderV, s: OwnedScoreV) -> Result<OwnedScoreV, SqlErrorV>
    decreases s,
{
    match s {
        OwnedScoreV::Bm25 { index, query, matching, fill } => match fill {
            None => Ok(s),
            Some(source) => match tsquery_of(b, source) {
                Err(e) => Err(e),
                Ok((query, matching)) => Ok(OwnedScoreV::Bm25 { index, query, matching, fill }),
            },
        },
        OwnedScoreV::VectorDistance { index, query, metric, fill } => match fill {
            None => Ok(s),
            Some(l) => match vector_of(b, l) {
                Err(e) => Err(e),
                Ok(query) => Ok(OwnedScoreV::VectorDistance { index, query, metric, fill }),
            },
        },
        OwnedScoreV::Distance { index, center, fill } => match fill {
            None => Ok(s),
            Some(p) => match point_of(b, p) {
                Err(e) => Err(e),
                Ok(center) => Ok(OwnedScoreV::Distance { index, center, fill }),
            },
        },
        OwnedScoreV::Add(x, y) => match rebound_score(b, *x) {
            Err(e) => Err(e),
            Ok(x) => match rebound_score(b, *y) {
                Err(e) => Err(e),
                Ok(y) => Ok(OwnedScoreV::Add(Box::new(x), Box::new(y))),
            },
        },
        OwnedScoreV::Sub(x, y) => match rebound_score(b, *x) {
            Err(e) => Err(e),
            Ok(x) => match rebound_score(b, *y) {
                Err(e) => Err(e),
                Ok(y) => Ok(OwnedScoreV::Sub(Box::new(x), Box::new(y))),
            },
        },
        OwnedScoreV::Mul(x, y) => match rebound_score(b, *x) {
            Err(e) => Err(e),
            Ok(x) => match rebound_score(b, *y) {
                Err(e) => Err(e),
                Ok(y) => Ok(OwnedScoreV::Mul(Box::new(x), Box::new(y))),
            },
        },
        OwnedScoreV::Div(x, y) => match rebound_score(b, *x) {
            Err(e) => Err(e),
            Ok(x) => match rebound_score(b, *y) {
                Err(e) => Err(e),
                Ok(y) => Ok(OwnedScoreV::Div(Box::new(x), Box::new(y))),
            },
        },
        OwnedScoreV::Neg(x) => match rebound_score(b, *x) {
            Err(e) => Err(e),
            Ok(x) => Ok(OwnedScoreV::Neg(Box::new(x))),
        },
        _ => Ok(s),
    }
}

pub open spec fn rebound_order(b: BinderV, o: OwnedOrderV) -> Result<OwnedOrderV, SqlErrorV> {
    match o {
        OwnedOrderV::Distance { index, center, fill } => match fill {
            None => Ok(o),
            Some(p) => match point_of(b, p) {
                Err(e) => Err(e),
                Ok(center) => Ok(OwnedOrderV::Distance { index, center, fill }),
            },
        },
        OwnedOrderV::Bm25 { index, query, matching, fill } => match fill {
            None => Ok(o),
            Some(source) => match tsquery_of(b, source) {
                Err(e) => Err(e),
                Ok((query, matching)) => Ok(OwnedOrderV::Bm25 { index, query, matching, fill }),
            },
        },
        OwnedOrderV::ExactVector { index, query, metric, fill } => match fill {
            None => Ok(o),
            Some(l) => match vector_of(b, l) {
                Err(e) => Err(e),
                Ok(query) => Ok(OwnedOrderV::ExactVector { index, query, metric, fill }),
            },
        },
        OwnedOrderV::ApproximateVector { index, query, metric, ef, fill } => match fill {
            None => Ok(o),
            Some(l) => match vector_of(b, l) {
                Err(e) => Err(e),
                Ok(query) => Ok(
                    OwnedOrderV::ApproximateVector { index, query, metric, ef, fill },
                ),
            },
        },
        OwnedOrderV::Score { expr, descending } => match rebound_score(b, expr) {
            Err(e) => Err(e),
            Ok(expr) => Ok(OwnedOrderV::Score { expr, descending }),
        },
        _ => Ok(o),
    }
}

impl OwnedScore {
    /// This ranking with its slots filled.
    pub fn rebind(self, b: &Binder) -> (r: Result<OwnedScore, SqlError>)
        ensures
            gives(r, rebound_score(b.deep_view(), self.deep_view())),
        decreases self,
    {
        match self {
            OwnedScore::Bm25 { index, query, matching, fill } => match fill {
                None => Ok(OwnedScore::Bm25 { index, query, matching, fill: None }),
                Some(source) => {
                    let (query, matching) = b.tsquery(&source)?;
                    Ok(OwnedScore::Bm25 { index, query, matching, fill: Some(source) })
                },
            },
            OwnedScore::VectorDistance { index, query, metric, fill } => match fill {
                None => Ok(OwnedScore::VectorDistance { index, query, metric, fill: None }),
                Some(l) => {
                    let query = b.vector_of(&l)?;
                    Ok(OwnedScore::VectorDistance { index, query, metric, fill: Some(l) })
                },
            },
            OwnedScore::Distance { index, center, fill } => match fill {
                None => Ok(OwnedScore::Distance { index, center, fill: None }),
                Some(p) => {
                    let center = b.point_of(&p)?;
                    Ok(OwnedScore::Distance { index, center, fill: Some(p) })
                },
            },
            OwnedScore::Add(x, y) => {
                let x = (*x).rebind(b)?;
                let y = (*y).rebind(b)?;
                Ok(OwnedScore::Add(Box::new(x), Box::new(y)))
            },
            OwnedScore::Sub(x, y) => {
                let x = (*x).rebind(b)?;
                let y = (*y).rebind(b)?;
                Ok(OwnedScore::Sub(Box::new(x), Box::new(y)))
            },
            OwnedScore::Mul(x, y) => {
                let x = (*x).rebind(b)?;
                let y = (*y).rebind(b)?;
                Ok(OwnedScore::Mul(Box::new(x), Box::new(y)))
            },
            OwnedScore::Div(x, y) => {
                let x = (*x).rebind(b)?;
                let y = (*y).rebind(b)?;
                Ok(OwnedScore::Div(Box::new(x), Box::new(y)))
            },
            OwnedScore::Neg(x) => {
                let x = (*x).rebind(b)?;
                Ok(OwnedScore::Neg(Box::new(x)))
            },
            other => Ok(other),
        }
    }
}

impl OwnedOrder {
    /// This order with its slots filled.
    pub fn rebind(self, b: &Binder) -> (r: Result<OwnedOrder, SqlError>)
        ensures
            gives(r, rebound_order(b.deep_view(), self.deep_view())),
    {
        match self {
            OwnedOrder::Distance { index, center, fill } => match fill {
                None => Ok(OwnedOrder::Distance { index, center, fill: None }),
                Some(p) => {
                    let center = b.point_of(&p)?;
                    Ok(OwnedOrder::Distance { index, center, fill: Some(p) })
                },
            },
            OwnedOrder::Bm25 { index, query, matching, fill } => match fill {
                None => Ok(OwnedOrder::Bm25 { index, query, matching, fill: None }),
                Some(source) => {
                    let (query, matching) = b.tsquery(&source)?;
                    Ok(OwnedOrder::Bm25 { index, query, matching, fill: Some(source) })
                },
            },
            OwnedOrder::ExactVector { index, query, metric, fill } => match fill {
                None => Ok(OwnedOrder::ExactVector { index, query, metric, fill: None }),
                Some(l) => {
                    let query = b.vector_of(&l)?;
                    Ok(OwnedOrder::ExactVector { index, query, metric, fill: Some(l) })
                },
            },
            OwnedOrder::ApproximateVector { index, query, metric, ef, fill } => match fill {
                None => Ok(
                    OwnedOrder::ApproximateVector { index, query, metric, ef, fill: None },
                ),
                Some(l) => {
                    let query = b.vector_of(&l)?;
                    Ok(OwnedOrder::ApproximateVector { index, query, metric, ef, fill: Some(l) })
                },
            },
            OwnedOrder::Score { expr, descending } => {
                let expr = expr.rebind(b)?;
                Ok(OwnedOrder::Score { expr, descending })
            },
            other => Ok(other),
        }
    }
}

/// A `SELECT` with its slots filled: the filters, then the order. Nothing else
/// of the plan changes.
pub open spec fn rebound_select(b: BinderV, p: SelectPlanV) -> Result<SelectPlanV, SqlErrorV> {
    match rebound_all(b, p.filters) {
        Err(e) => Err(e),
        Ok(filters) => match rebound_order(b, p.order) {
            Err(e) => Err(e),
            Ok(order) => Ok(SelectPlanV { filters, order, ..p }),
        },
    }
}

impl SelectPlan {
    /// This `SELECT` with its slots filled.
    pub fn rebind(self, b: &Binder) -> (r: Result<SelectPlan, SqlError>)
        ensures
            gives(r, rebound_select(b.deep_view(), self.deep_view())),
    {
        let filters = rebind_all(self.filters, b)?;
        let order = self.order.rebind(b)?;
        Ok(
            SelectPlan {
                collection: self.collection,
                columns: self.columns,
                outputs: self.outputs,
                fields: self.fields,
                filters: filters.list,
                order,
                limit: self.limit,
                driver: self.driver,
                functions: self.functions,
                rewrites: self.rewrites,
                row_functions: self.row_functions,
            },
        )
    }
}

} // verus!
