//! What has to be read of the database before a statement is compiled: the
//! inner side of each semi-join that it writes, and the shape of the graph
//! where it answers from that.

use vstd::prelude::*;
use crate::ast::{expr_view_parts, Expr, ExprV, Predicate, PredicateV};
use crate::catalog::contents::{needs_graph, of_the_graph, relation_notice, relation_rows};
use crate::catalog::relations::{
    names_are_distinct, relation_by, relation_name, relation_with, RelationId,
};
use crate::catalog::snapshot::{snapshot_of, EdgeRow, SnapshotV};
use crate::compile::env::{collection_of, id_from, id_named, Catalog, CatalogV};
use crate::compile::listing::{catalog_select_of, catalog_source, catalog_source_of};
use crate::compile::log::{EnvV, LogV};
use crate::compile::semi::MAX_SEMI_JOIN_IDS;
use crate::compile::show::show_of;
use crate::compile::statement::{compiled_of, select_plan_of};
use crate::error::{gives, SqlError, SqlErrorV};
use crate::lists::{take_all, take_next};
use crate::stmt::{SelectStmt, SelectStmtV, Show, ShowV, Source, SourceV, Stmt, StmtV};
use crate::text::{cat5, lower, owned, same_letters};

verus! {

/// How many edges one semi-join may walk.
pub const MAX_SEMI_JOIN_EDGES: usize = 67_108_864;

/// How the inner side of a semi-join is read.
#[derive(Debug)]
pub enum SemiRead {
    /// One end of the base graph's edges of a type.
    Endpoints { edge_type: u64, outgoing: bool, max_edges: usize, max_ids: usize },
    /// One column of every row of a collection.
    Column { collection: u64, column: String },
}

pub enum SemiReadV {
    Endpoints { edge_type: u64, outgoing: bool, max_edges: usize, max_ids: usize },
    Column { collection: u64, column: Seq<char> },
}

impl DeepView for SemiRead {
    type V = SemiReadV;

    open spec fn deep_view(&self) -> SemiReadV {
        match *self {
            SemiRead::Endpoints { edge_type, outgoing, max_edges, max_ids } => {
                SemiReadV::Endpoints { edge_type, outgoing, max_edges, max_ids }
            },
            SemiRead::Column { collection, column } => SemiReadV::Column {
                collection,
                column: column@,
            },
        }
    }
}

/// How the inner side of a semi-join is read: an edge type by the end that the
/// column names, and anything else as a collection.
pub open spec fn semi_read_of(cat: CatalogV, table: Seq<char>, column: Seq<char>) -> Result<
    SemiReadV,
    SqlErrorV,
> {
    match id_from(cat.edge_types, table, 0) {
        Some(edge_type) => if lower(column) == lower("source"@) || lower(column) == lower(
            "destination"@,
        ) {
            Ok(
                SemiReadV::Endpoints {
                    edge_type,
                    outgoing: lower(column) == lower("source"@),
                    max_edges: MAX_SEMI_JOIN_EDGES,
                    max_ids: MAX_SEMI_JOIN_IDS,
                },
            )
        } else {
            Err(
                SqlErrorV::Unsupported(
                    "a semi-join on `"@ + table + "."@ + column
                        + "`: an edge type's columns are `source` and `destination`, which are the two ends the edge keyspace is filed by"@,
                ),
            )
        },
        None => match collection_of(cat, table) {
            Err(e) => Err(e),
            Ok(inner) => Ok(SemiReadV::Column { collection: inner.id, column }),
        },
    }
}

impl Catalog {
    /// How the inner side of a semi-join is read.
    pub fn semi_read(&self, table: &str, column: &str) -> (r: Result<SemiRead, SqlError>)
        ensures
            gives(r, semi_read_of(self.deep_view(), table@, column@)),
    {
        match id_named(&self.edge_types, table) {
            Some(edge_type) => {
                let outgoing = same_letters(column, "source");
                if outgoing || same_letters(column, "destination") {
                    Ok(
                        SemiRead::Endpoints {
                            edge_type,
                            outgoing,
                            max_edges: MAX_SEMI_JOIN_EDGES,
                            max_ids: MAX_SEMI_JOIN_IDS,
                        },
                    )
                } else {
                    Err(
                        SqlError::Unsupported(
                            cat5(
                                "a semi-join on `",
                                table,
                                ".",
                                column,
                                "`: an edge type's columns are `source` and `destination`, which are the two ends the edge keyspace is filed by",
                            ),
                        ),
                    )
                }
            },
            None => {
                let inner = self.collection(table)?;
                Ok(SemiRead::Column { collection: inner.id, column: owned(column) })
            },
        }
    }
}

// ── the semi-joins of a statement ────────────────────────────────────────

/// A semi-join, by what it names.
#[derive(Debug)]
pub struct SemiName {
    pub table: String,
    pub column: String,
}

pub struct SemiNameV {
    pub table: Seq<char>,
    pub column: Seq<char>,
}

impl DeepView for SemiName {
    type V = SemiNameV;

    open spec fn deep_view(&self) -> SemiNameV {
        SemiNameV { table: self.table@, column: self.column@ }
    }
}

pub open spec fn predicate_semis(p: PredicateV) -> Seq<SemiNameV> {
    match p {
        PredicateV::Semi { table, column } => seq![SemiNameV { table, column }],
        _ => Seq::empty(),
    }
}

/// The semi-joins of a condition, from the left.
pub open spec fn semis(e: ExprV) -> Seq<SemiNameV>
    decreases e,
{
    match e {
        ExprV::Leaf(p) => predicate_semis(p),
        ExprV::Not(inner) => semis(*inner),
        ExprV::And(parts) => all_semis(parts),
        ExprV::Or(parts) => all_semis(parts),
    }
}

pub open spec fn all_semis(parts: Seq<ExprV>) -> Seq<SemiNameV>
    decreases parts,
{
    if parts.len() == 0 {
        Seq::empty()
    } else {
        all_semis(parts.drop_last()) + semis(parts.last())
    }
}

/// The semi-joins of the predicates on a pattern's far element.
pub open spec fn node_semis(list: Seq<PredicateV>) -> Seq<SemiNameV>
    decreases list.len(),
{
    if list.len() == 0 {
        Seq::empty()
    } else {
        node_semis(list.drop_last()) + predicate_semis(list.last())
    }
}

pub open spec fn select_semis(s: SelectStmtV) -> Seq<SemiNameV> {
    let nodes = match s.source {
        SourceV::Graph(g) => node_semis(g.node_predicates),
        _ => Seq::empty(),
    };
    nodes + all_semis(s.predicates)
}

/// The semi-joins of a statement, in the order they are compiled in.
pub open spec fn statement_semis(s: StmtV) -> Seq<SemiNameV> {
    match s {
        StmtV::Select(s) => select_semis(*s),
        StmtV::Explain(s) => select_semis(*s),
        StmtV::UpdateWhere(u) => all_semis(u.predicates),
        StmtV::ExplainUpdate(u) => all_semis(u.predicates),
        StmtV::DeleteWhere(d) => all_semis(d.predicates),
        StmtV::ExplainDelete(d) => all_semis(d.predicates),
        _ => Seq::empty(),
    }
}

fn add_predicate(p: &Predicate, out: &mut Vec<SemiName>)
    ensures
        final(out).deep_view() == old(out).deep_view() + predicate_semis(p.deep_view()),
{
    let ghost before = out.deep_view();
    match p {
        Predicate::Semi { table, column } => {
            let name = SemiName { table: table.clone(), column: column.clone() };
            out.push(name);
            assert(out.deep_view() =~= before + seq![name.deep_view()]);
        },
        _ => {
            assert(out.deep_view() =~= before + Seq::<SemiNameV>::empty());
        },
    }
}

fn add_semis(e: &Expr, out: &mut Vec<SemiName>)
    ensures
        final(out).deep_view() == old(out).deep_view() + semis(e.deep_view()),
    decreases e, 0nat,
{
    match e {
        Expr::Leaf(p) => add_predicate(p, out),
        Expr::Not(inner) => add_semis(inner, out),
        Expr::And(parts) => {
            proof {
                expr_view_parts(*parts);
            }
            add_all(parts, out)
        },
        Expr::Or(parts) => {
            proof {
                expr_view_parts(*parts);
            }
            add_all(parts, out)
        },
    }
}

fn add_all(parts: &Vec<Expr>, out: &mut Vec<SemiName>)
    ensures
        final(out).deep_view() == old(out).deep_view() + all_semis(parts.deep_view()),
    decreases parts, 1nat,
{
    let ghost all = parts.deep_view();
    let ghost start = out.deep_view();
    let mut i: usize = 0;
    assert(all.take(0) =~= Seq::<ExprV>::empty());
    assert(start + all_semis(all.take(0)) =~= start);
    while i < parts.len()
        invariant
            i <= parts@.len(),
            all == parts.deep_view(),
            out.deep_view() == start + all_semis(all.take(i as int)),
        decreases parts@.len() - i,
    {
        let ghost done = all_semis(all.take(i as int));
        proof {
            take_next(all, i as int);
            assert(all[i as int] == parts@[i as int].deep_view());
        }
        add_semis(&parts[i], out);
        assert(out.deep_view() =~= start + (done + semis(all[i as int])));
        i = i + 1;
    }
    proof {
        take_all(all);
    }
}

fn add_nodes(list: &Vec<Predicate>, out: &mut Vec<SemiName>)
    ensures
        final(out).deep_view() == old(out).deep_view() + node_semis(list.deep_view()),
{
    let ghost all = list.deep_view();
    let ghost start = out.deep_view();
    let mut i: usize = 0;
    assert(all.take(0) =~= Seq::<PredicateV>::empty());
    assert(start + node_semis(all.take(0)) =~= start);
    while i < list.len()
        invariant
            i <= list@.len(),
            all == list.deep_view(),
            out.deep_view() == start + node_semis(all.take(i as int)),
        decreases list@.len() - i,
    {
        let ghost done = node_semis(all.take(i as int));
        proof {
            take_next(all, i as int);
            assert(all[i as int] == list@[i as int].deep_view());
        }
        add_predicate(&list[i], out);
        assert(out.deep_view() =~= start + (done + predicate_semis(all[i as int])));
        i = i + 1;
    }
    proof {
        take_all(all);
    }
}

fn semis_of_select(s: &SelectStmt) -> (r: Vec<SemiName>)
    ensures
        r.deep_view() == select_semis(s.deep_view()),
{
    let mut out: Vec<SemiName> = Vec::new();
    assert(out.deep_view() =~= Seq::<SemiNameV>::empty());
    if let Source::Graph(g) = &s.source {
        add_nodes(&g.node_predicates, &mut out);
    }
    let ghost nodes = match s.deep_view().source {
        SourceV::Graph(g) => node_semis(g.node_predicates),
        _ => Seq::empty(),
    };
    assert(out.deep_view() =~= nodes);
    add_all(&s.predicates, &mut out);
    out
}

/// The semi-joins of a statement, in the order they are compiled in.
pub fn semi_joins(s: &Stmt) -> (r: Vec<SemiName>)
    ensures
        r.deep_view() == statement_semis(s.deep_view()),
{
    let mut out: Vec<SemiName> = Vec::new();
    let ghost none = Seq::<SemiNameV>::empty();
    assert(out.deep_view() =~= none);
    match s {
        Stmt::Select(s) => semis_of_select(s),
        Stmt::Explain(s) => semis_of_select(s),
        Stmt::UpdateWhere(u) | Stmt::ExplainUpdate(u) => {
            add_all(&u.predicates, &mut out);
            assert(out.deep_view() =~= all_semis(u.predicates.deep_view()));
            out
        },
        Stmt::DeleteWhere(d) | Stmt::ExplainDelete(d) => {
            add_all(&d.predicates, &mut out);
            assert(out.deep_view() =~= all_semis(d.predicates.deep_view()));
            out
        },
        _ => out,
    }
}

// ── the graph ────────────────────────────────────────────────────────────

/// Whether a statement answers from the graph's names and shape. The walk that
/// finds the shape is for these statements alone.
pub open spec fn answers_from_the_graph(s: StmtV) -> bool {
    match s {
        StmtV::Select(q) => source_of_the_graph(*q),
        StmtV::Explain(q) => source_of_the_graph(*q),
        StmtV::Show(ShowV::Edges) => true,
        _ => false,
    }
}

pub open spec fn source_of_the_graph(q: SelectStmtV) -> bool {
    match catalog_source_of(q) {
        Some(id) => of_the_graph(relation_with(id)),
        None => false,
    }
}

fn source_reads_graph(q: &SelectStmt) -> (r: bool)
    ensures
        r == source_of_the_graph(q.deep_view()),
{
    match catalog_source(q) {
        Some(id) => needs_graph(&relation_by(id)),
        None => false,
    }
}

/// Whether a statement answers from the graph's names and shape.
pub fn reads_graph(s: &Stmt) -> (r: bool)
    ensures
        r == answers_from_the_graph(s.deep_view()),
{
    match s {
        Stmt::Select(q) => source_reads_graph(q),
        Stmt::Explain(q) => source_reads_graph(q),
        Stmt::Show(Show::Edges) => true,
        _ => false,
    }
}

proof fn graph_relations(id: RelationId)
    ensures
        of_the_graph(relation_with(id)) <==> id == RelationId::DbEdges || id
            == RelationId::DbContexts,
{
    if of_the_graph(relation_with(id)) {
        if relation_name(id) == relation_name(RelationId::DbEdges) {
            names_are_distinct(id, RelationId::DbEdges);
        } else {
            names_are_distinct(id, RelationId::DbContexts);
        }
    }
}

proof fn select_needs_no_graph(
    env: EnvV,
    without: SnapshotV,
    with: SnapshotV,
    q: SelectStmtV,
    explain: bool,
    log: LogV,
)
    requires
        !source_of_the_graph(q),
        without.tables == with.tables,
    ensures
        select_plan_of(env, without, q, explain, log) == select_plan_of(env, with, q, explain, log),
{
    reveal(select_plan_of);
    if let Some(id) = catalog_source_of(q) {
        graph_relations(id);
        assert(relation_rows(id, without) == relation_rows(id, with));
        assert(relation_notice(id, without) == relation_notice(id, with));
        assert(catalog_select_of(env.binder, without, id, q, explain, log) == catalog_select_of(
            env.binder,
            with,
            id,
            q,
            explain,
            log,
        ));
    }
}

/// A statement that does not answer from the graph compiles to the same whether
/// the graph was read or not.
pub proof fn graph_is_not_missed(
    env: EnvV,
    shape: Seq<EdgeRow>,
    truncated: bool,
    pid: u32,
    batch: usize,
    s: StmtV,
    log: LogV,
)
    requires
        !answers_from_the_graph(s),
    ensures
        ({
            let cat = env.binder.catalog;
            compiled_of(env, snapshot_of(cat, shape, truncated, false), pid, batch, s, log)
                == compiled_of(env, snapshot_of(cat, shape, truncated, true), pid, batch, s, log)
        }),
{
    let cat = env.binder.catalog;
    let without = snapshot_of(cat, shape, truncated, false);
    let with = snapshot_of(cat, shape, truncated, true);
    match s {
        StmtV::Select(q) => {
            select_needs_no_graph(env, without, with, *q, false, log);
        },
        StmtV::Explain(q) => {
            select_needs_no_graph(env, without, with, *q, true, log);
        },
        StmtV::Show(_) => {
            reveal(show_of);
            assert(relation_rows(RelationId::DbTables, without) == relation_rows(
                RelationId::DbTables,
                with,
            ));
            assert(relation_rows(RelationId::DbIndexes, without) == relation_rows(
                RelationId::DbIndexes,
                with,
            ));
            assert(relation_rows(RelationId::DbColumns, without) == relation_rows(
                RelationId::DbColumns,
                with,
            ));
        },
        _ => {},
    }
}

} // verus!
