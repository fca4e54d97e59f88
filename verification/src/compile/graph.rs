//! `GRAPH_TABLE`: a pattern as one bounded traversal.

use vstd::prelude::*;
use crate::ast::{Predicate, PredicateV};
use crate::compile::bind::{edge_value, literal_is_bound, text_of};
use crate::compile::env::{
    collection_of, id_from, id_named, row_at, Collection, CollectionV, MAX_GRAPH_DEPTH,
};
use crate::compile::log::{logged, Env, EnvV, Log, LogV};
use crate::compile::order::literal_fill;
use crate::compile::plan::{
    graph_view_parts, OwnedEdgePredicate, OwnedEdgePredicateV, OwnedFilter, OwnedFilterV,
    OwnedGraph, OwnedGraphV, OwnedScalarFilter, SeedFill, SeedFillV,
};
use crate::compile::predicates::{filter_of, predicate_ok, Filters};
use crate::error::{gives, SqlError, SqlErrorV, Tier};
use crate::lists::{take_all, take_next};
use crate::stmt::{EdgePredicate, EdgePredicateV, GraphTable, GraphTableV};
use crate::text::{cat3, cat5, decimal, decimal_usize, lower, owned, same_letters};

verus! {

// ── edge predicates ──────────────────────────────────────────────────────

/// The comparisons of the edge element's own `WHERE`.
pub open spec fn edge_wheres(env: EnvV, list: Seq<EdgePredicateV>) -> Result<
    Seq<OwnedEdgePredicateV>,
    SqlErrorV,
>
    decreases list.len(),
{
    if list.len() == 0 {
        Ok(Seq::empty())
    } else {
        match edge_wheres(env, list.drop_last()) {
            Err(e) => Err(e),
            Ok(done) => match edge_value(env.binder, list.last().value, list.last().property) {
                Err(e) => Err(e),
                Ok(value) => Ok(
                    done.push(
                        OwnedEdgePredicateV {
                            property: list.last().property,
                            op: list.last().op,
                            value,
                            fill: literal_fill(list.last().value),
                        },
                    ),
                ),
            },
        }
    }
}

proof fn edge_wheres_stop(env: EnvV, list: Seq<EdgePredicateV>, n: int)
    requires
        0 <= n <= list.len(),
        edge_wheres(env, list.take(n)) is Err,
    ensures
        edge_wheres(env, list) == edge_wheres(env, list.take(n)),
    decreases list.len() - n,
{
    if n < list.len() {
        take_next(list, n);
        edge_wheres_stop(env, list, n + 1);
    } else {
        take_all(list);
    }
}

/// A list of edge predicates.
#[derive(Debug)]
pub struct EdgeWheres {
    pub list: Vec<OwnedEdgePredicate>,
}

impl DeepView for EdgeWheres {
    type V = Seq<OwnedEdgePredicateV>;

    open spec fn deep_view(&self) -> Seq<OwnedEdgePredicateV> {
        self.list.deep_view()
    }
}

impl<'a> Env<'a> {
    fn edge_wheres(&self, list: &Vec<EdgePredicate>) -> (r: Result<EdgeWheres, SqlError>)
        ensures
            gives(r, edge_wheres(self.deep_view(), list.deep_view())),
    {
        let ghost all = list.deep_view();
        let mut out: Vec<OwnedEdgePredicate> = Vec::new();
        let mut i: usize = 0;
        assert(all.take(0) =~= Seq::<EdgePredicateV>::empty());
        assert(out.deep_view() =~= Seq::<OwnedEdgePredicateV>::empty());
        while i < list.len()
            invariant
                i <= list@.len(),
                all == list.deep_view(),
                edge_wheres(self.deep_view(), all.take(i as int)) == Ok::<
                    Seq<OwnedEdgePredicateV>,
                    SqlErrorV,
                >(out.deep_view()),
            decreases list@.len() - i,
        {
            proof {
                take_next(all, i as int);
                assert(all[i as int] == list@[i as int].deep_view());
            }
            let p = &list[i];
            match self.binder.edge_value(&p.value, p.property.as_str()) {
                Err(e) => {
                    proof {
                        edge_wheres_stop(self.deep_view(), all, i as int + 1);
                    }
                    return Err(e);
                },
                Ok(value) => {
                    let fill = if literal_is_bound(&p.value) {
                        Some(p.value.dup())
                    } else {
                        None
                    };
                    let made = OwnedEdgePredicate {
                        property: p.property.clone(),
                        op: p.op,
                        value,
                        fill,
                    };
                    let ghost before = out.deep_view();
                    out.push(made);
                    assert(out.deep_view() =~= before.push(made.deep_view()));
                },
            }
            i = i + 1;
        }
        proof {
            take_all(all);
        }
        Ok(EdgeWheres { list: out })
    }
}

// ── node predicates ──────────────────────────────────────────────────────

/// Why a compiled predicate cannot prune per hop: it has to be answered from
/// postings, without a row.
pub open spec fn hop_refusal(f: OwnedFilterV) -> Option<SqlErrorV> {
    match f {
        OwnedFilterV::Scalar { predicate, .. } => if predicate is Eq || predicate is Range {
            None
        } else {
            Some(
                SqlErrorV::Refused {
                    keyword: "inline element WHERE IS NULL"@,
                    tier: Tier::Three,
                    reason: "QL_CONTRACT §4.3: a per-hop node predicate is answered from index postings (GRAPH_CONTRACT 4.3, `a traversal never reads a row for a predicate on a covered field`). NULL and MISSING share one nullish index key, so only the row tells them apart; write it after COLUMNS as a post-filter on completed matches."@,
                },
            )
        },
        OwnedFilterV::Point { .. } => None,
        _ => Some(
            SqlErrorV::Refused {
                keyword: "inline element WHERE"@,
                tier: Tier::Two,
                reason: "QL_CONTRACT §4.3: a per-hop node predicate is answered from index postings, so it is a scalar equality, a scalar range or a point predicate (bbox or radius). A text, geometry or JSON predicate is refined from the row, which GRAPH_CONTRACT 4.3 forbids per hop; write it after COLUMNS as a post-filter on completed matches."@,
            },
        ),
    }
}

fn refuse_hop(f: &OwnedFilter) -> (r: Option<SqlError>)
    ensures
        r.deep_view() == hop_refusal(f.deep_view()),
{
    match f {
        OwnedFilter::Scalar { predicate, .. } => match predicate {
            OwnedScalarFilter::Eq(_) => None,
            OwnedScalarFilter::Range { .. } => None,
            _ => Some(
                SqlError::refused(
                    "inline element WHERE IS NULL",
                    Tier::Three,
                    "QL_CONTRACT §4.3: a per-hop node predicate is answered from index postings (GRAPH_CONTRACT 4.3, `a traversal never reads a row for a predicate on a covered field`). NULL and MISSING share one nullish index key, so only the row tells them apart; write it after COLUMNS as a post-filter on completed matches.",
                ),
            ),
        },
        OwnedFilter::Point { .. } => None,
        _ => Some(
            SqlError::refused(
                "inline element WHERE",
                Tier::Two,
                "QL_CONTRACT §4.3: a per-hop node predicate is answered from index postings, so it is a scalar equality, a scalar range or a point predicate (bbox or radius). A text, geometry or JSON predicate is refined from the row, which GRAPH_CONTRACT 4.3 forbids per hop; write it after COLUMNS as a post-filter on completed matches.",
            ),
        ),
    }
}

/// The far element's own `WHERE`, each part one that prunes per hop.
pub open spec fn node_wheres(env: EnvV, c: CollectionV, list: Seq<PredicateV>, log: LogV) -> Result<
    (Seq<OwnedFilterV>, LogV),
    SqlErrorV,
>
    decreases list.len(),
{
    if list.len() == 0 {
        Ok((Seq::empty(), log))
    } else {
        match node_wheres(env, c, list.drop_last(), log) {
            Err(e) => Err(e),
            Ok((done, log)) => match filter_of(env, c, list.last(), log) {
                Err(e) => Err(e),
                Ok((f, log)) => match hop_refusal(f) {
                    Some(e) => Err(e),
                    None => Ok((done.push(f), log)),
                },
            },
        }
    }
}

proof fn node_wheres_stop(env: EnvV, c: CollectionV, list: Seq<PredicateV>, log: LogV, n: int)
    requires
        0 <= n <= list.len(),
        node_wheres(env, c, list.take(n), log) is Err,
    ensures
        node_wheres(env, c, list, log) == node_wheres(env, c, list.take(n), log),
    decreases list.len() - n,
{
    if n < list.len() {
        take_next(list, n);
        node_wheres_stop(env, c, list, log, n + 1);
    } else {
        take_all(list);
    }
}

/// Every clock offset of the node predicates can be negated.
pub open spec fn graph_ok(g: GraphTableV) -> bool {
    forall|i: int| 0 <= i < g.node_predicates.len() ==> predicate_ok(#[trigger] g.node_predicates[i])
}

impl<'a> Env<'a> {
    fn node_wheres(&self, c: &Collection, list: &Vec<Predicate>, log: &mut Log) -> (r: Result<
        Filters,
        SqlError,
    >)
        requires
            forall|i: int|
                0 <= i < list.deep_view().len() ==> predicate_ok(#[trigger] list.deep_view()[i]),
        ensures
            logged(
                r,
                *final(log),
                node_wheres(
                    self.deep_view(),
                    c.deep_view(),
                    list.deep_view(),
                    old(log).deep_view(),
                ),
            ),
    {
        let ghost all = list.deep_view();
        let ghost start = log.deep_view();
        let mut out: Vec<OwnedFilter> = Vec::new();
        let mut i: usize = 0;
        assert(all.take(0) =~= Seq::<PredicateV>::empty());
        assert(out.deep_view() =~= Seq::<OwnedFilterV>::empty());
        while i < list.len()
            invariant
                i <= list@.len(),
                all == list.deep_view(),
                start == old(log).deep_view(),
                forall|i: int| 0 <= i < all.len() ==> predicate_ok(#[trigger] all[i]),
                node_wheres(self.deep_view(), c.deep_view(), all.take(i as int), start) == Ok::<
                    (Seq<OwnedFilterV>, LogV),
                    SqlErrorV,
                >((out.deep_view(), log.deep_view())),
            decreases list@.len() - i,
        {
            proof {
                take_next(all, i as int);
                assert(all[i as int] == list@[i as int].deep_view());
            }
            match self.filter(c, &list[i], log) {
                Err(e) => {
                    proof {
                        node_wheres_stop(self.deep_view(), c.deep_view(), all, start, i as int + 1);
                    }
                    return Err(e);
                },
                Ok(f) => {
                    if let Some(e) = refuse_hop(&f) {
                        proof {
                            node_wheres_stop(
                                self.deep_view(),
                                c.deep_view(),
                                all,
                                start,
                                i as int + 1,
                            );
                        }
                        return Err(e);
                    }
                    let ghost before = out.deep_view();
                    out.push(f);
                    assert(out.deep_view() =~= before.push(f.deep_view()));
                },
            }
            i = i + 1;
        }
        proof {
            take_all(all);
        }
        Ok(Filters { list: out })
    }
}

// ── the pattern ──────────────────────────────────────────────────────────

/// The context a pattern walks in; `base` is no named context.
pub open spec fn context_of(env: EnvV, name: Seq<char>) -> Result<u64, SqlErrorV> {
    if lower(name) == lower("base"@) {
        Ok(0)
    } else {
        match id_from(env.binder.catalog.contexts, name, 0) {
            Some(id) => Ok(id),
            None => Err(SqlErrorV::Engine("no graph context named `"@ + name + "`"@)),
        }
    }
}

pub open spec fn edge_type_of(env: EnvV, name: Option<Seq<char>>) -> Result<
    Option<u64>,
    SqlErrorV,
> {
    match name {
        None => Ok(None),
        Some(name) => match id_from(env.binder.catalog.edge_types, name, 0) {
            Some(id) => Ok(Some(id)),
            None => Err(SqlErrorV::Engine("no edge type named `"@ + name + "`"@)),
        },
    }
}

/// What a pattern says on the side.
pub open spec fn pattern_log(g: GraphTableV, across: bool, log: LogV) -> LogV {
    let log = if across {
        log.noted(
            "GRAPH_TABLE walks from `"@ + g.seed_collection + "` into `"@ + g.target_collection
                + "`: the traversal itself is untyped by collection, and the far element's label is checked by the collection the outer statement selects from"@,
        )
    } else {
        log
    };
    log.noted(
        "GRAPH_TABLE: a WHERE written after the pattern is a POST-FILTER on completed matches (QL_CONTRACT §4.3, Tier 1); an inline element WHERE is the PER-HOP prune (GRAPH_CONTRACT 4.3) and compiles to the traversal's own edge and node predicates"@,
    )
}

/// The traversal that a pattern is, from its seed row, into collection `to`.
pub open spec fn traversal(
    env: EnvV,
    g: GraphTableV,
    from: CollectionV,
    to: CollectionV,
    log: LogV,
) -> Result<(OwnedFilterV, LogV), SqlErrorV> {
    match text_of(env.binder, g.seed_key) {
        Err(e) => Err(e),
        Ok(key) => match row_at(env.binder.catalog, from.id, key) {
            None => Err(
                SqlErrorV::Engine(
                    "GRAPH_TABLE seed: `"@ + g.seed_collection + "` has no row at key `"@ + key
                        + "`"@,
                ),
            ),
            Some(seed) => match context_of(env, g.context) {
                Err(e) => Err(e),
                Ok(context) => match edge_type_of(env, g.hop.edge_type) {
                    Err(e) => Err(e),
                    Ok(edge_type) => if g.hop.max_depth > MAX_GRAPH_DEPTH {
                        Err(
                            SqlErrorV::Unsupported(
                                "a quantifier of "@ + decimal(g.hop.max_depth as int)
                                    + " hops: a traversal is bounded by contract and this slice's bound is "@
                                    + decimal(MAX_GRAPH_DEPTH as int),
                            ),
                        )
                    } else {
                        match edge_wheres(env, g.hop.predicates) {
                            Err(e) => Err(e),
                            Ok(edge_where) => match node_wheres(
                                env,
                                to,
                                g.node_predicates,
                                pattern_log(g, to.id != from.id, log),
                            ) {
                                Err(e) => Err(e),
                                Ok((node_where, log)) => Ok(
                                    (
                                        OwnedFilterV::Graph(
                                            OwnedGraphV {
                                                seed: seed.id,
                                                seed_fill: Some(
                                                    SeedFillV {
                                                        collection: from.id,
                                                        table: g.seed_collection,
                                                        key: g.seed_key,
                                                    },
                                                ),
                                                direction: g.hop.direction,
                                                context,
                                                edge_type,
                                                min_depth: g.hop.min_depth,
                                                max_depth: g.hop.max_depth,
                                                edge_where,
                                                node_where,
                                            },
                                        ),
                                        log,
                                    ),
                                ),
                            },
                        }
                    },
                },
            },
        },
    }
}

/// The collection a pattern's rows come from, and its traversal.
pub open spec fn graph_table(env: EnvV, g: GraphTableV, log: LogV) -> Result<
    (CollectionV, OwnedFilterV, LogV),
    SqlErrorV,
> {
    match collection_of(env.binder.catalog, g.seed_collection) {
        Err(e) => Err(e),
        Ok(from) => match collection_of(env.binder.catalog, g.target_collection) {
            Err(e) => Err(e),
            Ok(to) => match traversal(env, g, from, to, log) {
                Err(e) => Err(e),
                Ok((f, log)) => Ok((to, f, log)),
            },
        },
    }
}

impl<'a> Env<'a> {
    fn context_of(&self, name: &str) -> (r: Result<u64, SqlError>)
        ensures
            gives(r, context_of(self.deep_view(), name@)),
    {
        if same_letters(name, "base") {
            return Ok(0);
        }
        match id_named(&self.binder.catalog.contexts, name) {
            Some(id) => Ok(id),
            None => Err(SqlError::Engine(cat3("no graph context named `", name, "`"))),
        }
    }

    fn edge_type_of(&self, name: &Option<String>) -> (r: Result<Option<u64>, SqlError>)
        ensures
            gives(r, edge_type_of(self.deep_view(), name.deep_view())),
    {
        match name {
            None => Ok(None),
            Some(name) => match id_named(&self.binder.catalog.edge_types, name.as_str()) {
                Some(id) => Ok(Some(id)),
                None => Err(
                    SqlError::Engine(cat3("no edge type named `", name.as_str(), "`")),
                ),
            },
        }
    }

    fn traversal(&self, graph: &GraphTable, from: &Collection, to: &Collection, log: &mut Log) -> (r:
        Result<OwnedFilter, SqlError>)
        requires
            graph_ok(graph.deep_view()),
        ensures
            logged(
                r,
                *final(log),
                traversal(
                    self.deep_view(),
                    graph.deep_view(),
                    from.deep_view(),
                    to.deep_view(),
                    old(log).deep_view(),
                ),
            ),
    {
        let key = self.binder.text_of(&graph.seed_key)?;
        let seed = match self.binder.catalog.row(from.id, key.as_str()) {
            None => {
                return Err(
                    SqlError::Engine(
                        cat5(
                            "GRAPH_TABLE seed: `",
                            graph.seed_collection.as_str(),
                            "` has no row at key `",
                            key.as_str(),
                            "`",
                        ),
                    ),
                );
            },
            Some(row) => row.id,
        };
        let context = self.context_of(graph.context.as_str())?;
        let edge_type = self.edge_type_of(&graph.hop.edge_type)?;
        if graph.hop.max_depth > MAX_GRAPH_DEPTH {
            return Err(
                SqlError::Unsupported(
                    crate::text::cat4(
                        "a quantifier of ",
                        decimal_usize(graph.hop.max_depth).as_str(),
                        " hops: a traversal is bounded by contract and this slice's bound is ",
                        decimal_usize(MAX_GRAPH_DEPTH).as_str(),
                    ),
                ),
            );
        }
        let edges = self.edge_wheres(&graph.hop.predicates)?;
        if to.id != from.id {
            log.note(
                cat5(
                    "GRAPH_TABLE walks from `",
                    graph.seed_collection.as_str(),
                    "` into `",
                    graph.target_collection.as_str(),
                    "`: the traversal itself is untyped by collection, and the far element's label is checked by the collection the outer statement selects from",
                ),
            );
        }
        log.note(
            owned(
                "GRAPH_TABLE: a WHERE written after the pattern is a POST-FILTER on completed matches (QL_CONTRACT §4.3, Tier 1); an inline element WHERE is the PER-HOP prune (GRAPH_CONTRACT 4.3) and compiles to the traversal's own edge and node predicates",
            ),
        );
        let nodes = self.node_wheres(to, &graph.node_predicates, log)?;
        let made = OwnedGraph {
            seed,
            seed_fill: Some(
                SeedFill {
                    collection: from.id,
                    table: graph.seed_collection.clone(),
                    key: graph.seed_key.dup(),
                },
            ),
            direction: graph.hop.direction,
            context,
            edge_type,
            min_depth: graph.hop.min_depth,
            max_depth: graph.hop.max_depth,
            edge_where: edges.list,
            node_where: nodes.list,
        };
        proof {
            graph_view_parts(made);
        }
        Ok(OwnedFilter::Graph(made))
    }

    /// The collection a pattern's rows come from, and its traversal.
    pub fn graph_table(&self, graph: &GraphTable, log: &mut Log) -> (r: Result<
        (&'a Collection, OwnedFilter),
        SqlError,
    >)
        requires
            graph_ok(graph.deep_view()),
        ensures
            match graph_table(self.deep_view(), graph.deep_view(), old(log).deep_view()) {
                Ok((c, f, l)) => r is Ok && r->Ok_0.0.deep_view() == c && r->Ok_0.1.deep_view()
                    == f && final(log).deep_view() == l,
                Err(e) => r is Err && r->Err_0.deep_view() == e,
            },
    {
        let from = self.binder.catalog.collection(graph.seed_collection.as_str())?;
        let to = self.binder.catalog.collection(graph.target_collection.as_str())?;
        let filter = self.traversal(graph, from, to, log)?;
        Ok((to, filter))
    }
}

} // verus!
