//! The points and rectangles that a statement writes. The engine decides
//! whether they are any, so it is asked of each before the statement is
//! compiled.

use vstd::prelude::*;
use crate::ast::{expr_view_parts, Expr, ExprV, GeoArg, GeoArgV, Predicate, PredicateV};
use crate::lists::{take_all, take_next};
use crate::stmt::{
    OrderKey, OrderKeyV, ScoreNode, ScoreNodeV, SelectStmt, SelectStmtV, Source, SourceV, Stmt,
    StmtV,
};

verus! {

/// The point or the rectangle of a predicate.
pub open spec fn predicate_places(p: PredicateV) -> Seq<GeoArgV> {
    match p {
        PredicateV::Spatial { argument, .. } => if argument is GeoJson {
            Seq::empty()
        } else {
            seq![argument]
        },
        _ => Seq::empty(),
    }
}

/// The places of a condition, from the left.
pub open spec fn places(e: ExprV) -> Seq<GeoArgV>
    decreases e,
{
    match e {
        ExprV::Leaf(p) => predicate_places(p),
        ExprV::Not(inner) => places(*inner),
        ExprV::And(parts) => all_places(parts),
        ExprV::Or(parts) => all_places(parts),
    }
}

pub open spec fn all_places(parts: Seq<ExprV>) -> Seq<GeoArgV>
    decreases parts,
{
    if parts.len() == 0 {
        Seq::empty()
    } else {
        all_places(parts.drop_last()) + places(parts.last())
    }
}

/// The places of the predicates on a pattern's far element.
pub open spec fn node_places(list: Seq<PredicateV>) -> Seq<GeoArgV>
    decreases list.len(),
{
    if list.len() == 0 {
        Seq::empty()
    } else {
        node_places(list.drop_last()) + predicate_places(list.last())
    }
}

/// The points that a ranking measures from.
pub open spec fn score_places(node: ScoreNodeV) -> Seq<GeoArgV>
    decreases node,
{
    match node {
        ScoreNodeV::Distance { point, .. } => seq![GeoArgV::Point(point)],
        ScoreNodeV::Add(x, y) => score_places(*x) + score_places(*y),
        ScoreNodeV::Sub(x, y) => score_places(*x) + score_places(*y),
        ScoreNodeV::Mul(x, y) => score_places(*x) + score_places(*y),
        ScoreNodeV::Div(x, y) => score_places(*x) + score_places(*y),
        ScoreNodeV::Neg(x) => score_places(*x),
        _ => Seq::empty(),
    }
}

pub open spec fn order_places(key: Option<OrderKeyV>) -> Seq<GeoArgV> {
    match key {
        Some(OrderKeyV::Distance { point, .. }) => seq![GeoArgV::Point(point)],
        Some(OrderKeyV::Score { expr, .. }) => score_places(expr),
        _ => Seq::empty(),
    }
}

pub open spec fn select_places(s: SelectStmtV) -> Seq<GeoArgV> {
    let nodes = match s.source {
        SourceV::Graph(g) => node_places(g.node_predicates),
        _ => Seq::empty(),
    };
    nodes + all_places(s.predicates) + order_places(s.order)
}

/// The points and rectangles of a statement, in the order they are compiled in.
pub open spec fn statement_places(s: StmtV) -> Seq<GeoArgV> {
    match s {
        StmtV::Select(s) => select_places(*s),
        StmtV::Explain(s) => select_places(*s),
        StmtV::UpdateWhere(u) => all_places(u.predicates),
        StmtV::ExplainUpdate(u) => all_places(u.predicates),
        StmtV::DeleteWhere(d) => all_places(d.predicates),
        StmtV::ExplainDelete(d) => all_places(d.predicates),
        _ => Seq::empty(),
    }
}

fn add_place(g: GeoArg, out: &mut Vec<GeoArg>)
    ensures
        final(out).deep_view() == old(out).deep_view() + seq![g.deep_view()],
{
    let ghost before = out.deep_view();
    out.push(g);
    assert(out.deep_view() =~= before + seq![g.deep_view()]);
}

fn add_predicate(p: &Predicate, out: &mut Vec<GeoArg>)
    ensures
        final(out).deep_view() == old(out).deep_view() + predicate_places(p.deep_view()),
{
    let ghost before = out.deep_view();
    assert(before + Seq::<GeoArgV>::empty() =~= before);
    match p {
        Predicate::Spatial { argument, .. } => match argument {
            GeoArg::GeoJson(_) => {},
            _ => add_place(argument.dup(), out),
        },
        _ => {},
    }
}

fn add_places(e: &Expr, out: &mut Vec<GeoArg>)
    ensures
        final(out).deep_view() == old(out).deep_view() + places(e.deep_view()),
    decreases e, 0nat,
{
    match e {
        Expr::Leaf(p) => add_predicate(p, out),
        Expr::Not(inner) => add_places(inner, out),
        Expr::And(parts) => {
            proof {
                expr_view_parts(*parts);
            }
            add_all(parts, out)
        },
        Expr::Or(parts) => {
            proof {
                expr_view_parts(*parts);
            }
            add_all(parts, out)
        },
    }
}

fn add_all(parts: &Vec<Expr>, out: &mut Vec<GeoArg>)
    ensures
        final(out).deep_view() == old(out).deep_view() + all_places(parts.deep_view()),
    decreases parts, 1nat,
{
    let ghost all = parts.deep_view();
    let ghost start = out.deep_view();
    let mut i: usize = 0;
    assert(all.take(0) =~= Seq::<ExprV>::empty());
    assert(start + all_places(all.take(0)) =~= start);
    while i < parts.len()
        invariant
            i <= parts@.len(),
            all == parts.deep_view(),
            out.deep_view() == start + all_places(all.take(i as int)),
        decreases parts@.len() - i,
    {
        let ghost done = all_places(all.take(i as int));
        proof {
            take_next(all, i as int);
            assert(all[i as int] == parts@[i as int].deep_view());
        }
        add_places(&parts[i], out);
        assert(out.deep_view() =~= start + (done + places(all[i as int])));
        i = i + 1;
    }
    proof {
        take_all(all);
    }
}

fn add_nodes(list: &Vec<Predicate>, out: &mut Vec<GeoArg>)
    ensures
        final(out).deep_view() == old(out).deep_view() + node_places(list.deep_view()),
{
    let ghost all = list.deep_view();
    let ghost start = out.deep_view();
    let mut i: usize = 0;
    assert(all.take(0) =~= Seq::<PredicateV>::empty());
    assert(start + node_places(all.take(0)) =~= start);
    while i < list.len()
        invariant
            i <= list@.len(),
            all == list.deep_view(),
            out.deep_view() == start + node_places(all.take(i as int)),
        decreases list@.len() - i,
    {
        let ghost done = node_places(all.take(i as int));
        proof {
            take_next(all, i as int);
            assert(all[i as int] == list@[i as int].deep_view());
        }
        add_predicate(&list[i], out);
        assert(out.deep_view() =~= start + (done + predicate_places(all[i as int])));
        i = i + 1;
    }
    proof {
        take_all(all);
    }
}

fn add_score(node: &ScoreNode, out: &mut Vec<GeoArg>)
    ensures
        final(out).deep_view() == old(out).deep_view() + score_places(node.deep_view()),
    decreases node,
{
    let ghost before = out.deep_view();
    assert(before + Seq::<GeoArgV>::empty() =~= before);
    match node {
        ScoreNode::Distance { point, .. } => add_place(GeoArg::Point(point.dup()), out),
        ScoreNode::Add(x, y) | ScoreNode::Sub(x, y) | ScoreNode::Mul(x, y) | ScoreNode::Div(x, y) => {
            add_score(x, out);
            add_score(y, out);
            assert(out.deep_view() =~= before + (score_places(x.deep_view()) + score_places(
                y.deep_view(),
            )));
        },
        ScoreNode::Neg(x) => add_score(x, out),
        _ => {},
    }
}

fn places_of_select(s: &SelectStmt) -> (r: Vec<GeoArg>)
    ensures
        r.deep_view() == select_places(s.deep_view()),
{
    let mut out: Vec<GeoArg> = Vec::new();
    assert(out.deep_view() =~= Seq::<GeoArgV>::empty());
    if let Source::Graph(g) = &s.source {
        add_nodes(&g.node_predicates, &mut out);
    }
    let ghost nodes = match s.deep_view().source {
        SourceV::Graph(g) => node_places(g.node_predicates),
        _ => Seq::empty(),
    };
    assert(out.deep_view() =~= nodes);
    add_all(&s.predicates, &mut out);
    let ghost before = out.deep_view();
    assert(before + Seq::<GeoArgV>::empty() =~= before);
    match &s.order {
        Some(OrderKey::Distance { point, .. }) => add_place(GeoArg::Point(point.dup()), &mut out),
        Some(OrderKey::Score { expr, .. }) => add_score(expr, &mut out),
        _ => {},
    }
    out
}

/// The points and rectangles of a statement, in the order they are compiled in.
pub fn written_places(s: &Stmt) -> (r: Vec<GeoArg>)
    ensures
        r.deep_view() == statement_places(s.deep_view()),
{
    let mut out: Vec<GeoArg> = Vec::new();
    assert(out.deep_view() =~= Seq::<GeoArgV>::empty());
    match s {
        Stmt::Select(s) => places_of_select(s),
        Stmt::Explain(s) => places_of_select(s),
        Stmt::UpdateWhere(u) | Stmt::ExplainUpdate(u) => {
            add_all(&u.predicates, &mut out);
            assert(out.deep_view() =~= all_places(u.predicates.deep_view()));
            out
        },
        Stmt::DeleteWhere(d) | Stmt::ExplainDelete(d) => {
            add_all(&d.predicates, &mut out);
            assert(out.deep_view() =~= all_places(d.predicates.deep_view()));
            out
        },
        _ => out,
    }
}

} // verus!
