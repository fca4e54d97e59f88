//! `ORDER BY`: the order of a plan.

use vstd::prelude::*;
use crate::ast::{Literal, LiteralV, VecOp};
use crate::compile::bind::{
    is_bound, literal_is_bound, point_bound, point_is_bound, point_of, tsquery_of, vector_of,
    VectorArg, VectorArgV,
};
use crate::compile::env::{
    index_for, kind_of, ready_from, Collection, CollectionV, IndexFamily, ID_COLUMN,
};
use crate::compile::log::{logged, Env, EnvV, Log, LogV, SearchLeaf, SearchLeafV};
use crate::compile::plan::{OwnedOrder, OwnedOrderV, OwnedScore, OwnedScoreV};
use crate::compile::predicates::{tsquery_fill, tsquery_slot};
use crate::error::{gives, SqlError, SqlErrorV, Tier};
use crate::stmt::{OrderKey, OrderKeyV, ScoreNode, ScoreNodeV};
use crate::text::{cat3, cat5, decimal, decimal_usize, same};
use crate::value::Kind;

verus! {

/// The width of the approximate shortlist where none was set.
pub const DEFAULT_EF: usize = 100;

/// The slot of a vector, where its literal is one.
pub open spec fn literal_fill(l: LiteralV) -> Option<LiteralV> {
    if is_bound(l) {
        Some(l)
    } else {
        None
    }
}

fn literal_slot(literal: &Literal) -> (r: Option<Literal>)
    ensures
        r.deep_view() == literal_fill(literal.deep_view()),
{
    if literal_is_bound(literal) {
        Some(literal.dup())
    } else {
        None
    }
}

/// Exact or approximate, by the indexes the column has and by the shortlist
/// width the session set.
pub open spec fn vector_order(
    env: EnvV,
    c: CollectionV,
    column: Seq<char>,
    query: VectorArgV,
    fill: Option<LiteralV>,
    metric: VecOp,
    log: LogV,
) -> Result<(OwnedOrderV, LogV), SqlErrorV> {
    let exact = ready_from(c.indexes, column, IndexFamily::ExactVector, None, 0);
    let quantized = ready_from(c.indexes, column, IndexFamily::QuantizedVector, None, 0);
    match (exact, quantized, env.ef_search) {
        (Some(index), _, None) => Ok(
            (OwnedOrderV::ExactVector { index, query, metric, fill }, log),
        ),
        (_, Some(index), ef) => {
            let ef = match ef {
                Some(n) => n,
                None => DEFAULT_EF,
            };
            Ok(
                (
                    OwnedOrderV::ApproximateVector { index, query, metric, ef, fill },
                    log.noted(
                        "ORDER BY a vector distance on `"@ + column + "` is APPROXIMATE (ef="@
                            + decimal(ef as int)
                            + "): the quantized index answers it, and the shortlist bounds the whole result set of this prepared query"@,
                    ),
                ),
            )
        },
        (Some(index), None, Some(ef)) => Ok(
            (
                OwnedOrderV::ExactVector { index, query, metric, fill },
                log.noted(
                    "SET LOCAL ef_search = "@ + decimal(ef as int) + " was seen but `"@ + column
                        + "` has only an exact vector index; the answer is exact and the shortlist bound is unused"@,
                ),
            ),
        ),
        (None, None, _) => Err(
            SqlErrorV::Engine(
                "no vector index on `"@ + column
                    + "`: a vector order names either the exact family (page-order sidecar scan) or the quantized one (compact scan then f32 rerank)"@,
            ),
        ),
    }
}

/// An arithmetic ranking over the indexes of `c`.
pub open spec fn score_of(env: EnvV, c: CollectionV, node: ScoreNodeV, search: SearchLeafV) -> Result<
    OwnedScoreV,
    SqlErrorV,
>
    decreases node,
{
    match node {
        ScoreNodeV::Lit(n) => Ok(OwnedScoreV::Lit(n)),
        ScoreNodeV::Column(column) => match kind_of(c, column) {
            Err(e) => Err(e),
            Ok(kind) => if kind == Kind::Text {
                Err(
                    SqlErrorV::Unsupported(
                        "`"@ + column
                            + "` is TEXT: a Score leaf is numeric, and a text scalar is refused at prepare (`ScoreExpr::Scalar`, src/query/mod.rs)"@,
                    ),
                )
            } else {
                match index_for(c, column, IndexFamily::Scalar, "a scalar index"@) {
                    Err(e) => Err(e),
                    Ok(index) => Ok(OwnedScoreV::Scalar { index }),
                }
            },
        },
        ScoreNodeV::Bm25 { column, query } => match index_for(
            c,
            column,
            IndexFamily::Text,
            "a text index"@,
        ) {
            Err(e) => Err(e),
            Ok(index) => match tsquery_of(env.binder, query) {
                Err(e) => Err(e),
                Ok((text, matching)) => Ok(
                    OwnedScoreV::Bm25 { index, query: text, matching, fill: tsquery_fill(query) },
                ),
            },
        },
        ScoreNodeV::SearchScore => match search {
            SearchLeafV::One { index, query } => Ok(OwnedScoreV::SearchScore { index, query }),
            SearchLeafV::Several => Err(
                SqlErrorV::Refused {
                    keyword: "search_score"@,
                    tier: Tier::Two,
                    reason: "QL_CONTRACT §4.6: search_score() is the Score leaf of ONE search() predicate, and this statement writes more than one; there is no spelling that says which, so it is refused rather than bound to whichever compiled last."@,
                },
            ),
            SearchLeafV::Absent => Err(
                SqlErrorV::Refused {
                    keyword: "search_score"@,
                    tier: Tier::Two,
                    reason: "QL_CONTRACT §4.6: search_score() scores the search() predicate of its own statement; with no search() in the WHERE there is nothing to score, and a number with no predicate behind it would mean nothing."@,
                },
            ),
        },
        ScoreNodeV::VecDistance { column, query, op } => match index_for(
            c,
            column,
            IndexFamily::ExactVector,
            "an exact vector index"@,
        ) {
            Err(e) => Err(e),
            Ok(index) => match vector_of(env.binder, query) {
                Err(e) => Err(e),
                Ok(v) => Ok(
                    OwnedScoreV::VectorDistance {
                        index,
                        query: v,
                        metric: op,
                        fill: literal_fill(query),
                    },
                ),
            },
        },
        ScoreNodeV::Distance { column, point } => match index_for(
            c,
            column,
            IndexFamily::SpatialPoint,
            "a point index"@,
        ) {
            Err(e) => Err(e),
            Ok(index) => match point_of(env.binder, point) {
                Err(e) => Err(e),
                Ok(center) => Ok(
                    OwnedScoreV::Distance {
                        index,
                        center,
                        fill: if point_bound(point) {
                            Some(point)
                        } else {
                            None
                        },
                    },
                ),
            },
        },
        ScoreNodeV::Add(a, b) => match score_of(env, c, *a, search) {
            Err(e) => Err(e),
            Ok(x) => match score_of(env, c, *b, search) {
                Err(e) => Err(e),
                Ok(y) => Ok(OwnedScoreV::Add(Box::new(x), Box::new(y))),
            },
        },
        ScoreNodeV::Sub(a, b) => match score_of(env, c, *a, search) {
            Err(e) => Err(e),
            Ok(x) => match score_of(env, c, *b, search) {
                Err(e) => Err(e),
                Ok(y) => Ok(OwnedScoreV::Sub(Box::new(x), Box::new(y))),
            },
        },
        ScoreNodeV::Mul(a, b) => match score_of(env, c, *a, search) {
            Err(e) => Err(e),
            Ok(x) => match score_of(env, c, *b, search) {
                Err(e) => Err(e),
                Ok(y) => Ok(OwnedScoreV::Mul(Box::new(x), Box::new(y))),
            },
        },
        ScoreNodeV::Div(a, b) => match score_of(env, c, *a, search) {
            Err(e) => Err(e),
            Ok(x) => match score_of(env, c, *b, search) {
                Err(e) => Err(e),
                Ok(y) => Ok(OwnedScoreV::Div(Box::new(x), Box::new(y))),
            },
        },
        ScoreNodeV::Neg(a) => match score_of(env, c, *a, search) {
            Err(e) => Err(e),
            Ok(x) => Ok(OwnedScoreV::Neg(Box::new(x))),
        },
    }
}

/// The order that an `ORDER BY` key names.
pub open spec fn order_of(env: EnvV, c: CollectionV, key: OrderKeyV, log: LogV) -> Result<
    (OwnedOrderV, LogV),
    SqlErrorV,
> {
    match key {
        OrderKeyV::Column { column, descending } => if column == ID_COLUMN@ {
            if descending {
                Err(
                    SqlErrorV::Unsupported(
                        "ORDER BY _id DESC: QueryOrder::EntityId ascends; the primary tree is walked forwards"@,
                    ),
                )
            } else {
                Ok((OwnedOrderV::EntityId, log))
            }
        } else {
            match index_for(c, column, IndexFamily::Scalar, "a scalar index"@) {
                Err(e) => Err(e),
                Ok(index) => Ok((OwnedOrderV::Scalar { index, descending }, log)),
            }
        },
        OrderKeyV::Distance { column, point, descending } => if descending {
            Err(
                SqlErrorV::Unsupported(
                    "ORDER BY <-> DESC: QueryOrder::Distance refuses Descending at prepare -- there is no reverse KNN walk, and treating DESC as ASC would answer a different question"@,
                ),
            )
        } else {
            match index_for(c, column, IndexFamily::SpatialPoint, "a point index"@) {
                Err(e) => Err(e),
                Ok(index) => match point_of(env.binder, point) {
                    Err(e) => Err(e),
                    Ok(center) => Ok(
                        (
                            OwnedOrderV::Distance {
                                index,
                                center,
                                fill: if point_bound(point) {
                                    Some(point)
                                } else {
                                    None
                                },
                            },
                            log,
                        ),
                    ),
                },
            }
        },
        OrderKeyV::Vector { column, query, op, descending } => if descending {
            Err(
                SqlErrorV::Unsupported(
                    "ORDER BY <=> DESC: a vector order ascends by distance; the nearest is first"@,
                ),
            )
        } else {
            match vector_of(env.binder, query) {
                Err(e) => Err(e),
                Ok(v) => vector_order(env, c, column, v, literal_fill(query), op, log),
            }
        },
        OrderKeyV::Bm25 { column, query, descending } => match index_for(
            c,
            column,
            IndexFamily::Text,
            "a text index"@,
        ) {
            Err(e) => Err(e),
            Ok(index) => match tsquery_of(env.binder, query) {
                Err(e) => Err(e),
                Ok((text, matching)) => if !descending {
                    Err(
                        SqlErrorV::Unsupported(
                            "ORDER BY ts_rank_cd(...) ASC: QueryOrder::Bm25 ranks best-first and has no ascending form; write DESC"@,
                        ),
                    )
                } else {
                    Ok(
                        (
                            OwnedOrderV::Bm25 {
                                index,
                                query: text,
                                matching,
                                fill: tsquery_fill(query),
                            },
                            log,
                        ),
                    )
                },
            },
        },
        OrderKeyV::Score { expr, descending } => match score_of(env, c, expr, log.search) {
            Err(e) => Err(e),
            Ok(expr) => Ok((OwnedOrderV::Score { expr, descending }, log)),
        },
    }
}

impl<'a> Env<'a> {
    fn vector_order(
        &self,
        c: &Collection,
        column: &str,
        query: VectorArg,
        fill: Option<Literal>,
        metric: VecOp,
        log: &mut Log,
    ) -> (r: Result<OwnedOrder, SqlError>)
        ensures
            logged(
                r,
                *final(log),
                vector_order(
                    self.deep_view(),
                    c.deep_view(),
                    column@,
                    query.deep_view(),
                    fill.deep_view(),
                    metric,
                    old(log).deep_view(),
                ),
            ),
    {
        let exact = c.ready(column, IndexFamily::ExactVector);
        let quantized = c.ready(column, IndexFamily::QuantizedVector);
        match (exact, quantized, self.ef_search) {
            (Some(index), _, None) => Ok(OwnedOrder::ExactVector { index, query, metric, fill }),
            (_, Some(index), ef) => {
                let ef: usize = match ef {
                    Some(n) => n,
                    None => DEFAULT_EF,
                };
                log.note(
                    cat5(
                        "ORDER BY a vector distance on `",
                        column,
                        "` is APPROXIMATE (ef=",
                        decimal_usize(ef).as_str(),
                        "): the quantized index answers it, and the shortlist bounds the whole result set of this prepared query",
                    ),
                );
                Ok(OwnedOrder::ApproximateVector { index, query, metric, ef, fill })
            },
            (Some(index), None, Some(ef)) => {
                log.note(
                    cat5(
                        "SET LOCAL ef_search = ",
                        decimal_usize(ef).as_str(),
                        " was seen but `",
                        column,
                        "` has only an exact vector index; the answer is exact and the shortlist bound is unused",
                    ),
                );
                Ok(OwnedOrder::ExactVector { index, query, metric, fill })
            },
            (None, None, _) => Err(
                SqlError::Engine(
                    cat3(
                        "no vector index on `",
                        column,
                        "`: a vector order names either the exact family (page-order sidecar scan) or the quantized one (compact scan then f32 rerank)",
                    ),
                ),
            ),
        }
    }

    /// An arithmetic ranking over the indexes of `c`.
    pub fn score(&self, c: &Collection, node: &ScoreNode, search: &SearchLeaf) -> (r: Result<
        OwnedScore,
        SqlError,
    >)
        ensures
            gives(
                r,
                score_of(self.deep_view(), c.deep_view(), node.deep_view(), search.deep_view()),
            ),
        decreases node,
    {
        match node {
            ScoreNode::Lit(n) => Ok(OwnedScore::Lit(n.dup())),
            ScoreNode::Column(column) => {
                let kind = c.kind_of(column.as_str())?;
                if kind == Kind::Text {
                    return Err(
                        SqlError::Unsupported(
                            cat3(
                                "`",
                                column.as_str(),
                                "` is TEXT: a Score leaf is numeric, and a text scalar is refused at prepare (`ScoreExpr::Scalar`, src/query/mod.rs)",
                            ),
                        ),
                    );
                }
                let index = c.index_for(column.as_str(), IndexFamily::Scalar, "a scalar index")?;
                Ok(OwnedScore::Scalar { index })
            },
            ScoreNode::Bm25 { column, query } => {
                let index = c.index_for(column.as_str(), IndexFamily::Text, "a text index")?;
                let (text, matching) = self.binder.tsquery(query)?;
                Ok(OwnedScore::Bm25 { index, query: text, matching, fill: tsquery_slot(query) })
            },
            ScoreNode::SearchScore => match search {
                SearchLeaf::One { index, query } => Ok(
                    OwnedScore::SearchScore { index: *index, query: query.clone() },
                ),
                SearchLeaf::Several => Err(
                    SqlError::refused(
                        "search_score",
                        Tier::Two,
                        "QL_CONTRACT §4.6: search_score() is the Score leaf of ONE search() predicate, and this statement writes more than one; there is no spelling that says which, so it is refused rather than bound to whichever compiled last.",
                    ),
                ),
                SearchLeaf::Absent => Err(
                    SqlError::refused(
                        "search_score",
                        Tier::Two,
                        "QL_CONTRACT §4.6: search_score() scores the search() predicate of its own statement; with no search() in the WHERE there is nothing to score, and a number with no predicate behind it would mean nothing.",
                    ),
                ),
            },
            ScoreNode::VecDistance { column, query, op } => {
                let index = c.index_for(
                    column.as_str(),
                    IndexFamily::ExactVector,
                    "an exact vector index",
                )?;
                let v = self.binder.vector_of(query)?;
                Ok(
                    OwnedScore::VectorDistance {
                        index,
                        query: v,
                        metric: *op,
                        fill: literal_slot(query),
                    },
                )
            },
            ScoreNode::Distance { column, point } => {
                let index = c.index_for(
                    column.as_str(),
                    IndexFamily::SpatialPoint,
                    "a point index",
                )?;
                let center = self.binder.point_of(point)?;
                let fill = if point_is_bound(point) {
                    Some(point.dup())
                } else {
                    None
                };
                Ok(OwnedScore::Distance { index, center, fill })
            },
            ScoreNode::Add(a, b) => {
                let x = self.score(c, a, search)?;
                let y = self.score(c, b, search)?;
                Ok(OwnedScore::Add(Box::new(x), Box::new(y)))
            },
            ScoreNode::Sub(a, b) => {
                let x = self.score(c, a, search)?;
                let y = self.score(c, b, search)?;
                Ok(OwnedScore::Sub(Box::new(x), Box::new(y)))
            },
            ScoreNode::Mul(a, b) => {
                let x = self.score(c, a, search)?;
                let y = self.score(c, b, search)?;
                Ok(OwnedScore::Mul(Box::new(x), Box::new(y)))
            },
            ScoreNode::Div(a, b) => {
                let x = self.score(c, a, search)?;
                let y = self.score(c, b, search)?;
                Ok(OwnedScore::Div(Box::new(x), Box::new(y)))
            },
            ScoreNode::Neg(a) => {
                let x = self.score(c, a, search)?;
                Ok(OwnedScore::Neg(Box::new(x)))
            },
        }
    }

    /// The order that an `ORDER BY` key names.
    pub fn order(&self, c: &Collection, key: &OrderKey, log: &mut Log) -> (r: Result<
        OwnedOrder,
        SqlError,
    >)
        ensures
            logged(
                r,
                *final(log),
                order_of(
                    self.deep_view(),
                    c.deep_view(),
                    key.deep_view(),
                    old(log).deep_view(),
                ),
            ),
    {
        match key {
            OrderKey::Column { column, descending } => {
                if same(column.as_str(), ID_COLUMN) {
                    if *descending {
                        return Err(
                            SqlError::unsupported(
                                "ORDER BY _id DESC: QueryOrder::EntityId ascends; the primary tree is walked forwards",
                            ),
                        );
                    }
                    return Ok(OwnedOrder::EntityId);
                }
                let index = c.index_for(column.as_str(), IndexFamily::Scalar, "a scalar index")?;
                Ok(OwnedOrder::Scalar { index, descending: *descending })
            },
            OrderKey::Distance { column, point, descending } => {
                if *descending {
                    return Err(
                        SqlError::unsupported(
                            "ORDER BY <-> DESC: QueryOrder::Distance refuses Descending at prepare -- there is no reverse KNN walk, and treating DESC as ASC would answer a different question",
                        ),
                    );
                }
                let index = c.index_for(
                    column.as_str(),
                    IndexFamily::SpatialPoint,
                    "a point index",
                )?;
                let center = self.binder.point_of(point)?;
                let fill = if point_is_bound(point) {
                    Some(point.dup())
                } else {
                    None
                };
                Ok(OwnedOrder::Distance { index, center, fill })
            },
            OrderKey::Vector { column, query, op, descending } => {
                if *descending {
                    return Err(
                        SqlError::unsupported(
                            "ORDER BY <=> DESC: a vector order ascends by distance; the nearest is first",
                        ),
                    );
                }
                let v = self.binder.vector_of(query)?;
                self.vector_order(c, column.as_str(), v, literal_slot(query), *op, log)
            },
            OrderKey::Bm25 { column, query, descending } => {
                let index = c.index_for(column.as_str(), IndexFamily::Text, "a text index")?;
                let (text, matching) = self.binder.tsquery(query)?;
                if !*descending {
                    return Err(
                        SqlError::unsupported(
                            "ORDER BY ts_rank_cd(...) ASC: QueryOrder::Bm25 ranks best-first and has no ascending form; write DESC",
                        ),
                    );
                }
                Ok(OwnedOrder::Bm25 { index, query: text, matching, fill: tsquery_slot(query) })
            },
            OrderKey::Score { expr, descending } => {
                let e = self.score(c, expr, &log.search)?;
                Ok(OwnedOrder::Score { expr: e, descending: *descending })
            },
        }
    }
}

} // verus!
