//! What a graph pattern means: which nodes it reaches.

use vstd::prelude::*;
use crate::ast::{GraphDirection, PredicateV};
use crate::compile::bind::{edge_value, text_of, ScalarV};
use crate::compile::env::{
    collection_of, id_from, row_at, CollectionV, MAX_GRAPH_DEPTH,
};
use crate::compile::graph::{edge_wheres, graph_table, node_wheres, traversal};
use crate::compile::log::{EnvV, LogV};
use crate::compile::plan::{OwnedEdgePredicateV, OwnedGraphV};
use crate::error::SqlErrorV;
use crate::meaning::condition::{belongs, predicate_keeps_its_meaning, predicate_says, so};
use crate::meaning::row::{all_say, scalar_order, Row};
use crate::number::saturated_size;
use crate::parser::cursor::{is_sym, next, tok, want};
use crate::parser::graph::{arrow_head, edge_element, graph_hop, hops, quantifier};
use crate::stmt::{EdgePredicateV, GraphTableV};
use crate::text::lower;
use crate::token::{Sym, TokV, TokenV};
use crate::value::EntityId;

verus! {

/// An edge: it leads from one node to another.
pub struct Edge {
    pub source: EntityId,
    pub target: EntityId,
    pub context: u64,
    pub kind: u64,
    pub property: spec_fn(Seq<char>) -> Option<ScalarV>,
}

/// A graph, and the row of each node.
pub struct Network {
    pub edges: Set<Edge>,
    pub row: spec_fn(EntityId) -> Row,
}

/// Whether an edge is followed from `a` to `b`, where it may be followed the way
/// it leads (`forth`) or the other way (`back`).
pub open spec fn joins(e: Edge, a: EntityId, b: EntityId, forth: bool, back: bool) -> bool {
    (forth && e.source == a && e.target == b) || (back && e.target == a && e.source == b)
}

/// Whether a direction follows edges the way they lead.
pub open spec fn goes_forth(d: GraphDirection) -> bool {
    d == GraphDirection::Outgoing || d == GraphDirection::Both
}

/// Whether a direction follows edges the other way.
pub open spec fn goes_back(d: GraphDirection) -> bool {
    d == GraphDirection::Incoming || d == GraphDirection::Both
}

// ── a compiled traversal ─────────────────────────────────────────────────

pub open spec fn edge_passes(e: Edge, list: Seq<OwnedEdgePredicateV>) -> bool {
    forall|i: int|
        0 <= i < list.len() ==> match (e.property)((#[trigger] list[i]).property) {
            Some(x) => so(list[i].op, scalar_order(x, list[i].value)),
            None => false,
        }
}

/// Whether one step of a traversal leads from `a` to `b`.
#[verifier::opaque]
pub open spec fn steps(n: Network, g: OwnedGraphV, a: EntityId, b: EntityId) -> bool {
    &&& exists|e: Edge| #[trigger]
        n.edges.contains(e) && joins(e, a, b, goes_forth(g.direction), goes_back(g.direction))
            && e.context == g.context && (g.edge_type is Some ==> Some(e.kind) == g.edge_type)
            && edge_passes(e, g.edge_where)
    &&& all_say((n.row)(b), g.node_where) == Some(true)
}

pub open spec fn walks(n: Network, g: OwnedGraphV, b: EntityId, k: nat) -> bool
    decreases k,
{
    if k == 0 {
        b == g.seed
    } else {
        exists|a: EntityId| walks(n, g, a, (k - 1) as nat) && #[trigger] steps(n, g, a, b)
    }
}

/// Whether a traversal reaches a node.
pub open spec fn reaches(n: Network, g: OwnedGraphV, b: EntityId) -> bool {
    exists|k: nat| g.min_depth <= k <= g.max_depth && #[trigger] walks(n, g, b, k)
}

// ── a written pattern ────────────────────────────────────────────────────

/// Whether an edge is in the context that a pattern names.
pub open spec fn in_context(env: EnvV, name: Seq<char>, context: u64) -> bool {
    if lower(name) == lower("base"@) {
        context == 0
    } else {
        id_from(env.binder.catalog.contexts, name, 0) == Some(context)
    }
}

pub open spec fn edge_meets(env: EnvV, e: Edge, list: Seq<EdgePredicateV>) -> bool {
    forall|i: int|
        0 <= i < list.len() ==> match (e.property)((#[trigger] list[i]).property) {
            Some(x) => so(
                list[i].op,
                scalar_order(x, edge_value(env.binder, list[i].value, list[i].property)->Ok_0),
            ),
            None => false,
        }
}

/// Whether one hop of a pattern leads from `a` to `b`.
#[verifier::opaque]
pub open spec fn hop_leads(
    env: EnvV,
    c: CollectionV,
    n: Network,
    g: GraphTableV,
    a: EntityId,
    b: EntityId,
) -> bool {
    &&& exists|e: Edge| #[trigger]
        n.edges.contains(e) && joins(
            e,
            a,
            b,
            goes_forth(g.hop.direction),
            goes_back(g.hop.direction),
        ) && in_context(env, g.context, e.context) && (g.hop.edge_type matches Some(name)
            ==> id_from(env.binder.catalog.edge_types, name, 0) == Some(e.kind)) && edge_meets(
            env,
            e,
            g.hop.predicates,
        )
    &&& forall|i: int|
        0 <= i < g.node_predicates.len() ==> predicate_says(
            env,
            c,
            (n.row)(b),
            #[trigger] g.node_predicates[i],
        ) == Some(true)
}

pub open spec fn hops_lead(
    env: EnvV,
    c: CollectionV,
    n: Network,
    g: GraphTableV,
    seed: EntityId,
    b: EntityId,
    k: nat,
) -> bool
    decreases k,
{
    if k == 0 {
        b == seed
    } else {
        exists|a: EntityId|
            hops_lead(env, c, n, g, seed, a, (k - 1) as nat) && #[trigger] hop_leads(
                env,
                c,
                n,
                g,
                a,
                b,
            )
    }
}

/// Whether a pattern matches a far node: as many hops as it may take lead to it
/// from the row that its key names.
pub open spec fn matches_node(
    env: EnvV,
    from: CollectionV,
    to: CollectionV,
    n: Network,
    g: GraphTableV,
    b: EntityId,
) -> bool {
    let seed = row_at(env.binder.catalog, from.id, text_of(env.binder, g.seed_key)->Ok_0)->0.id;
    exists|k: nat|
        g.hop.min_depth <= k <= g.hop.max_depth && #[trigger] hops_lead(env, to, n, g, seed, b, k)
}

// ── the law ──────────────────────────────────────────────────────────────

proof fn edges_pass(env: EnvV, e: Edge, list: Seq<EdgePredicateV>)
    requires
        edge_wheres(env, list) is Ok,
    ensures
        edge_passes(e, edge_wheres(env, list)->Ok_0) <==> edge_meets(env, e, list),
    decreases list.len(),
{
    if list.len() > 0 {
        let front = list.drop_last();
        edges_pass(env, e, front);
        let done = edge_wheres(env, front)->Ok_0;
        let all = edge_wheres(env, list)->Ok_0;
        lengths(env, front);
        assert(all.drop_last() =~= done);
        if edge_passes(e, all) {
            assert forall|i: int| 0 <= i < done.len() implies match (e.property)(
                (#[trigger] done[i]).property,
            ) {
                Some(x) => so(done[i].op, scalar_order(x, done[i].value)),
                None => false,
            } by {
                assert(all[i] == done[i]);
            }
            assert(edge_meets(env, e, front));
            assert forall|i: int| 0 <= i < list.len() implies match (e.property)(
                (#[trigger] list[i]).property,
            ) {
                Some(x) => so(
                    list[i].op,
                    scalar_order(x, edge_value(env.binder, list[i].value, list[i].property)->Ok_0),
                ),
                None => false,
            } by {
                if i < front.len() {
                    assert(list[i] == front[i]);
                } else {
                    assert(all[i] == all.last());
                }
            }
        }
        if edge_meets(env, e, list) {
            assert forall|i: int| 0 <= i < front.len() implies match (e.property)(
                (#[trigger] front[i]).property,
            ) {
                Some(x) => so(
                    front[i].op,
                    scalar_order(
                        x,
                        edge_value(env.binder, front[i].value, front[i].property)->Ok_0,
                    ),
                ),
                None => false,
            } by {
                assert(list[i] == front[i]);
            }
            assert(edge_passes(e, done));
            assert forall|i: int| 0 <= i < all.len() implies match (e.property)(
                (#[trigger] all[i]).property,
            ) {
                Some(x) => so(all[i].op, scalar_order(x, all[i].value)),
                None => false,
            } by {
                if i < done.len() {
                    assert(all[i] == done[i]);
                } else {
                    assert(list[i] == list.last());
                }
            }
        }
    }
}

proof fn lengths(env: EnvV, list: Seq<EdgePredicateV>)
    requires
        edge_wheres(env, list) is Ok,
    ensures
        edge_wheres(env, list)->Ok_0.len() == list.len(),
    decreases list.len(),
{
    if list.len() > 0 {
        lengths(env, list.drop_last());
    }
}

/// Whether the searches of a pattern's far node are of one kind each.
pub open spec fn node_searches_fit(list: Seq<PredicateV>) -> bool {
    forall|i: int|
        0 <= i < list.len() ==> (#[trigger] list[i] matches PredicateV::Text { query, .. } ==> (
        query.fuzzy ==> !query.tsquery_syntax))
}

proof fn nodes_say(env: EnvV, c: CollectionV, w: Row, list: Seq<PredicateV>, log: LogV)
    requires
        belongs(w, c),
        node_searches_fit(list),
        node_wheres(env, c, list, log) is Ok,
    ensures
        all_say(w, node_wheres(env, c, list, log)->Ok_0.0) == Some(true) <==> forall|i: int|
            0 <= i < list.len() ==> predicate_says(env, c, w, #[trigger] list[i]) == Some(true),
    decreases list.len(),
{
    if list.len() > 0 {
        let front = list.drop_last();
        assert forall|i: int| 0 <= i < front.len() implies (
        #[trigger] front[i] matches PredicateV::Text { query, .. } ==> (query.fuzzy
            ==> !query.tsquery_syntax)) by {
            assert(front[i] == list[i]);
        }
        nodes_say(env, c, w, front, log);
        let done = node_wheres(env, c, front, log)->Ok_0;
        assert(list[list.len() - 1] == list.last());
        predicate_keeps_its_meaning(env, c, w, list.last(), done.1);
        let all = node_wheres(env, c, list, log)->Ok_0.0;
        assert(all.drop_last() =~= done.0);
        if all_say(w, all) == Some(true) {
            assert forall|i: int| 0 <= i < list.len() implies predicate_says(
                env,
                c,
                w,
                #[trigger] list[i],
            ) == Some(true) by {
                if i < front.len() {
                    assert(front[i] == list[i]);
                }
            }
        }
        if forall|i: int| 0 <= i < list.len() ==> predicate_says(env, c, w, #[trigger] list[i]) == Some(true) {
            assert forall|i: int| 0 <= i < front.len() implies predicate_says(
                env,
                c,
                w,
                #[trigger] front[i],
            ) == Some(true) by {
                assert(front[i] == list[i]);
            }
        }
    }
}

proof fn step_is_hop(
    env: EnvV,
    from: CollectionV,
    to: CollectionV,
    n: Network,
    g: GraphTableV,
    log: LogV,
    a: EntityId,
    b: EntityId,
)
    requires
        belongs((n.row)(b), to),
        node_searches_fit(g.node_predicates),
        traversal(env, g, from, to, log) is Ok,
    ensures
        steps(n, traversal(env, g, from, to, log)->Ok_0.0->Graph_0, a, b) <==> hop_leads(
            env,
            to,
            n,
            g,
            a,
            b,
        ),
{
    reveal(steps);
    reveal(hop_leads);
    let f = traversal(env, g, from, to, log)->Ok_0.0->Graph_0;
    let inner = crate::compile::graph::pattern_log(g, to.id != from.id, log);
    nodes_say(env, to, (n.row)(b), g.node_predicates, inner);
    assert forall|e: Edge| #[trigger] n.edges.contains(e) implies edge_passes(e, f.edge_where)
        == edge_meets(env, e, g.hop.predicates) by {
        edges_pass(env, e, g.hop.predicates);
    }
}

proof fn walk_is_hops(
    env: EnvV,
    to: CollectionV,
    n: Network,
    g: GraphTableV,
    f: OwnedGraphV,
    b: EntityId,
    k: nat,
)
    requires
        forall|x: EntityId, y: EntityId| #[trigger]
            steps(n, f, x, y) <==> hop_leads(env, to, n, g, x, y),
    ensures
        walks(n, f, b, k) <==> hops_lead(env, to, n, g, f.seed, b, k),
    decreases k,
{
    if k > 0 {
        assert forall|a: EntityId| #[trigger] walks(n, f, a, (k - 1) as nat) <==> hops_lead(
            env,
            to,
            n,
            g,
            f.seed,
            a,
            (k - 1) as nat,
        ) by {
            walk_is_hops(env, to, n, g, f, a, (k - 1) as nat);
        }
        if walks(n, f, b, k) {
            let a = choose|a: EntityId| walks(n, f, a, (k - 1) as nat) && #[trigger] steps(n, f, a, b);
            assert(hop_leads(env, to, n, g, a, b));
        }
        if hops_lead(env, to, n, g, f.seed, b, k) {
            let a = choose|a: EntityId|
                hops_lead(env, to, n, g, f.seed, a, (k - 1) as nat) && #[trigger] hop_leads(
                    env,
                    to,
                    n,
                    g,
                    a,
                    b,
                );
            assert(steps(n, f, a, b));
            assert(walks(n, f, a, (k - 1) as nat));
        }
    }
}

/// A pattern and the traversal that it is compiled to reach the same nodes, in
/// every graph.
pub proof fn pattern_keeps_its_meaning(
    env: EnvV,
    n: Network,
    g: GraphTableV,
    log: LogV,
    b: EntityId,
)
    requires
        graph_table(env, g, log) is Ok,
        forall|x: EntityId| belongs(#[trigger] (n.row)(x), graph_table(env, g, log)->Ok_0.0),
        node_searches_fit(g.node_predicates),
    ensures
        ({
            let (to, f, _) = graph_table(env, g, log)->Ok_0;
            let from = collection_of(env.binder.catalog, g.seed_collection)->Ok_0;
            &&& collection_of(env.binder.catalog, g.target_collection) == Ok::<CollectionV, SqlErrorV>(to)
            &&& f is Graph
            &&& reaches(n, f->Graph_0, b) <==> matches_node(env, from, to, n, g, b)
        }),
{
    let (to, f, _) = graph_table(env, g, log)->Ok_0;
    let from = collection_of(env.binder.catalog, g.seed_collection)->Ok_0;
    let x = f->Graph_0;
    assert forall|p: EntityId, q: EntityId| #[trigger] steps(n, x, p, q) <==> hop_leads(
        env,
        to,
        n,
        g,
        p,
        q,
    ) by {
        assert(belongs((n.row)(q), to));
        step_is_hop(env, from, to, n, g, log, p, q);
    }
    assert forall|k: nat| #[trigger] walks(n, x, b, k) <==> hops_lead(env, to, n, g, x.seed, b, k) by {
        walk_is_hops(env, to, n, g, x, b, k);
    }
    if matches_node(env, from, to, n, g, b) {
        let k = choose|k: nat|
            g.hop.min_depth <= k <= g.hop.max_depth && #[trigger] hops_lead(
                env,
                to,
                n,
                g,
                x.seed,
                b,
                k,
            );
        assert(walks(n, x, b, k));
    }
    if reaches(n, x, b) {
        let k = choose|k: nat| x.min_depth <= k <= x.max_depth && #[trigger] walks(n, x, b, k);
        assert(hops_lead(env, to, n, g, x.seed, b, k));
    }
}

// ── arrows ───────────────────────────────────────────────────────────────

/// Where the brackets of a hop end.
pub open spec fn shaft_end(t: Seq<TokenV>, s: int, d: nat) -> int {
    let inside = next(t, s);
    if is_sym(t, inside, Sym::LBracket) {
        edge_element(t, next(t, inside), d)->Ok_0.1
    } else {
        inside
    }
}

/// Whether an arrow is pointed at its right end.
pub open spec fn points_right(t: Seq<TokenV>, s: int) -> bool {
    is_sym(t, s, Sym::Arrow) || (is_sym(t, s, Sym::Minus) && is_sym(t, next(t, s), Sym::Gt))
}

/// A hop follows edges as its arrow is drawn: from left to right unless the
/// arrow is pointed at its left end, and from right to left where it is pointed
/// there, or at neither end.
pub proof fn arrow_keeps_its_meaning(t: Seq<TokenV>, s: int, d: nat)
    requires
        graph_hop(t, s, d) is Ok,
    ensures
        ({
            let direction = graph_hop(t, s, d)->Ok_0.0.0.direction;
            let left = is_sym(t, s, Sym::BackArrow);
            let right = points_right(t, shaft_end(t, s, d));
            &&& goes_forth(direction) <==> !left
            &&& goes_back(direction) <==> left || !right
        }),
{
    reveal(graph_hop);
    reveal(arrow_head);
    reveal(want);
}

/// A pattern and its mirror image are never read to one direction, unless the
/// arrow has no point.
pub proof fn mirrored_arrows_differ(t: Seq<TokenV>, s: int, d: nat, u: Seq<TokenV>, r: int, e: nat)
    requires
        graph_hop(t, s, d) is Ok,
        graph_hop(u, r, e) is Ok,
        is_sym(t, s, Sym::BackArrow),
        !is_sym(u, r, Sym::BackArrow),
    ensures
        graph_hop(t, s, d)->Ok_0.0.0.direction != graph_hop(u, r, e)->Ok_0.0.0.direction,
{
    arrow_keeps_its_meaning(t, s, d);
    arrow_keeps_its_meaning(u, r, e);
}

// ── quantifiers ──────────────────────────────────────────────────────────

/// The number of hops that a number token says.
pub open spec fn hop_count(x: TokV) -> int {
    saturated_size(x->Num_0.bits)
}

/// Whether a hop may be taken `k` times, as what stands behind it says: `{m}`
/// for `m` times, `{m,n}` for `m` to `n` times, `{m,}` for at least `m` times,
/// `+` for any number of times, and once where nothing says; never for no time
/// at all, and never more often than any traversal may.
pub open spec fn times(t: Seq<TokenV>, s: int, k: int) -> bool {
    let first = next(t, s);
    let behind = next(t, first);
    if is_sym(t, s, Sym::LBrace) {
        if !is_sym(t, behind, Sym::Comma) {
            k >= 1 && k == hop_count(tok(t, first))
        } else if is_sym(t, next(t, behind), Sym::RBrace) {
            k >= 1 && hop_count(tok(t, first)) <= k <= MAX_GRAPH_DEPTH
        } else {
            k >= 1 && hop_count(tok(t, first)) <= k <= hop_count(tok(t, next(t, behind)))
        }
    } else if is_sym(t, s, Sym::Plus) {
        1 <= k <= MAX_GRAPH_DEPTH
    } else {
        k == 1
    }
}

/// A quantifier admits as many hops as it says.
pub proof fn quantifier_keeps_its_meaning(t: Seq<TokenV>, s: int, k: int)
    requires
        quantifier(t, s) is Ok,
    ensures
        quantifier(t, s)->Ok_0.0.0 <= k <= quantifier(t, s)->Ok_0.0.1 <==> times(t, s, k),
{
    reveal(quantifier);
    reveal(hops);
    reveal(want);
}

} // verus!
