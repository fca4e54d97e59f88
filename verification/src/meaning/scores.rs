//! What rows are ranked by, and that compiling an `ORDER BY` keeps it.

use vstd::prelude::*;
use crate::ast::{GeoArgV, LiteralV, PointArgV, TsQueryV, VecOp};
use crate::compile::bind::{
    point_of, text_of, tsquery_text, vector_of, PointValueV, TextMatch, VectorArgV,
};
use crate::compile::env::{
    index_for, ready_from, CollectionV, IndexExprV, IndexFamily, IndexState, ID_COLUMN,
};
use crate::compile::log::{EnvV, LogV, SearchLeafV};
use crate::compile::order::{order_of, score_of, vector_order};
use crate::compile::plan::{OwnedOrderV, OwnedScoreV};
use crate::compile::select::{edge_alias, pattern_columns, statement_order};
use crate::number::RealV;
use crate::parser::cursor::{guard_operator, is_sym, is_word, next, tok};
use crate::parser::ranking::{
    arithmetic, distance_op, expression, expression_tail, lowered, order_key, primary, right_side,
    PExprV,
};
use crate::stmt::{GraphColumnV, OrderKeyV, ScoreNodeV, SelectStmtV};
use crate::token::{Sym, TokV, TokenV};

verus! {

// ── values ───────────────────────────────────────────────────────────────

/// What one row is ranked by. The numbers are those that the engine computes
/// in, with whatever its arithmetic makes of them.
pub struct Ranked {
    /// The place of the row in its collection.
    pub id: int,
    /// The number that is written.
    pub number: spec_fn(RealV) -> int,
    /// What a column holds.
    pub cell: spec_fn(Seq<char>) -> int,
    /// How well the words of a query match a column.
    pub words: spec_fn(Seq<char>, Seq<char>, TextMatch) -> int,
    /// How well a search matches a column.
    pub searched: spec_fn(Seq<char>, Seq<char>) -> int,
    /// How far the vector of a column lies from another.
    pub apart: spec_fn(Seq<char>, VectorArgV, VecOp) -> int,
    /// How far the point of a column lies from another.
    pub metres: spec_fn(Seq<char>, PointValueV) -> int,
    /// What the edge that reached the row holds.
    pub edge: spec_fn(Seq<char>) -> int,
    pub plus: spec_fn(int, int) -> int,
    pub minus: spec_fn(int, int) -> int,
    pub times: spec_fn(int, int) -> int,
    /// The first, divided by the second.
    pub over: spec_fn(int, int) -> int,
    pub negative: spec_fn(int) -> int,
    pub indexes: Indexes,
}

/// What the indexes of a database are.
pub struct Indexes {
    /// The column of an index.
    pub column: spec_fn(u64) -> Seq<char>,
    pub family: spec_fn(u64) -> IndexFamily,
    /// What an index holds of its column.
    pub holds: spec_fn(u64) -> Option<IndexExprV>,
}

/// Whether a collection describes its indexes as they are.
pub open spec fn indexed_in(x: Indexes, c: CollectionV) -> bool {
    forall|i: int|
        0 <= i < c.indexes.len() ==> (x.column)((#[trigger] c.indexes[i]).id) == c.indexes[i].field
            && (x.family)(c.indexes[i].id) == c.indexes[i].family && (x.holds)(c.indexes[i].id)
            == c.indexes[i].expression
}

/// The column that an index of a family is over; an index of another family
/// cannot be read so.
pub open spec fn read_as(x: Indexes, index: u64, family: IndexFamily) -> Seq<char> {
    if (x.family)(index) == family && (x.holds)(index) is None {
        (x.column)(index)
    } else {
        arbitrary()
    }
}

/// How well a query of words matches a column.
pub open spec fn words_rank(env: EnvV, w: Ranked, column: Seq<char>, q: TsQueryV) -> int {
    let text = text_of(env.binder, q.source)->Ok_0;
    if q.fuzzy {
        (w.words)(column, text, TextMatch::Search)
    } else if !q.tsquery_syntax {
        (w.words)(column, text, TextMatch::Any)
    } else {
        let read = tsquery_text(text)->Ok_0;
        (w.words)(column, read.0, read.1)
    }
}

/// The score of the one search of a statement.
pub open spec fn search_rank(w: Ranked, search: SearchLeafV) -> int {
    match search {
        SearchLeafV::One { index, query } => (w.searched)((w.indexes.column)(index), query),
        _ => arbitrary(),
    }
}

pub open spec fn vector_rank(env: EnvV, w: Ranked, column: Seq<char>, q: LiteralV, op: VecOp) -> int {
    (w.apart)(column, vector_of(env.binder, q)->Ok_0, op)
}

pub open spec fn metres_rank(env: EnvV, w: Ranked, column: Seq<char>, p: PointArgV) -> int {
    (w.metres)(column, point_of(env.binder, p)->Ok_0)
}

/// The number that an expression is, as it is read.
pub open spec fn expression_value(env: EnvV, w: Ranked, e: PExprV, search: SearchLeafV) -> int
    decreases e,
{
    match e {
        PExprV::Num(n) => (w.number)(n),
        PExprV::Column(column) => (w.cell)(column),
        PExprV::Bm25 { column, query } => words_rank(env, w, column, query),
        PExprV::SearchScore => search_rank(w, search),
        PExprV::StDistance { column, point } => metres_rank(env, w, column, point),
        PExprV::Distance { column, right, op } => match *right {
            PExprV::Param(n) => vector_rank(env, w, column, LiteralV::Param(n), op),
            PExprV::Str(text) => vector_rank(env, w, column, LiteralV::Str(text), op),
            PExprV::Geo(GeoArgV::Point(point)) => metres_rank(env, w, column, point),
            _ => arbitrary(),
        },
        PExprV::Add(a, b) => (w.plus)(
            expression_value(env, w, *a, search),
            expression_value(env, w, *b, search),
        ),
        PExprV::Sub(a, b) => (w.minus)(
            expression_value(env, w, *a, search),
            expression_value(env, w, *b, search),
        ),
        PExprV::Mul(a, b) => (w.times)(
            expression_value(env, w, *a, search),
            expression_value(env, w, *b, search),
        ),
        PExprV::Div(a, b) => (w.over)(
            expression_value(env, w, *a, search),
            expression_value(env, w, *b, search),
        ),
        PExprV::Neg(a) => (w.negative)(expression_value(env, w, *a, search)),
        _ => arbitrary(),
    }
}

/// The number that a ranking of a statement is.
pub open spec fn written_value(env: EnvV, w: Ranked, node: ScoreNodeV, search: SearchLeafV) -> int
    decreases node,
{
    match node {
        ScoreNodeV::Lit(n) => (w.number)(n),
        ScoreNodeV::Column(column) => (w.cell)(column),
        ScoreNodeV::Bm25 { column, query } => words_rank(env, w, column, query),
        ScoreNodeV::SearchScore => search_rank(w, search),
        ScoreNodeV::VecDistance { column, query, op } => vector_rank(env, w, column, query, op),
        ScoreNodeV::Distance { column, point } => metres_rank(env, w, column, point),
        ScoreNodeV::Add(a, b) => (w.plus)(
            written_value(env, w, *a, search),
            written_value(env, w, *b, search),
        ),
        ScoreNodeV::Sub(a, b) => (w.minus)(
            written_value(env, w, *a, search),
            written_value(env, w, *b, search),
        ),
        ScoreNodeV::Mul(a, b) => (w.times)(
            written_value(env, w, *a, search),
            written_value(env, w, *b, search),
        ),
        ScoreNodeV::Div(a, b) => (w.over)(
            written_value(env, w, *a, search),
            written_value(env, w, *b, search),
        ),
        ScoreNodeV::Neg(a) => (w.negative)(written_value(env, w, *a, search)),
    }
}

/// The number that a compiled ranking is.
pub open spec fn score_value(w: Ranked, score: OwnedScoreV) -> int
    decreases score,
{
    match score {
        OwnedScoreV::Lit(n) => (w.number)(n),
        OwnedScoreV::Scalar { index } => (w.cell)(read_as(w.indexes, index, IndexFamily::Scalar)),
        OwnedScoreV::Bm25 { index, query, matching, .. } => (w.words)(
            read_as(w.indexes, index, IndexFamily::Text),
            query,
            matching,
        ),
        OwnedScoreV::SearchScore { index, query } => (w.searched)((w.indexes.column)(index), query),
        OwnedScoreV::VectorDistance { index, query, metric, .. } => (w.apart)(
            read_as(w.indexes, index, IndexFamily::ExactVector),
            query,
            metric,
        ),
        OwnedScoreV::Distance { index, center, .. } => (w.metres)(
            read_as(w.indexes, index, IndexFamily::SpatialPoint),
            center,
        ),
        OwnedScoreV::Add(a, b) => (w.plus)(score_value(w, *a), score_value(w, *b)),
        OwnedScoreV::Sub(a, b) => (w.minus)(score_value(w, *a), score_value(w, *b)),
        OwnedScoreV::Mul(a, b) => (w.times)(score_value(w, *a), score_value(w, *b)),
        OwnedScoreV::Div(a, b) => (w.over)(score_value(w, *a), score_value(w, *b)),
        OwnedScoreV::Neg(a) => (w.negative)(score_value(w, *a)),
    }
}

// ── orders ───────────────────────────────────────────────────────────────

/// Whether the first of two numbers comes first.
pub open spec fn first_of(a: int, b: int, descending: bool) -> bool {
    if descending {
        a > b
    } else {
        a < b
    }
}

/// The number that a key ranks a row by.
pub open spec fn key_value(env: EnvV, w: Ranked, key: OrderKeyV, search: SearchLeafV) -> int {
    match key {
        OrderKeyV::Column { column, .. } => if column == ID_COLUMN@ {
            w.id
        } else {
            (w.cell)(column)
        },
        OrderKeyV::Distance { column, point, .. } => metres_rank(env, w, column, point),
        OrderKeyV::Vector { column, query, op, .. } => vector_rank(env, w, column, query, op),
        OrderKeyV::Bm25 { column, query, .. } => words_rank(env, w, column, query),
        OrderKeyV::Score { expr, .. } => written_value(env, w, expr, search),
    }
}

/// Whether the largest comes first.
pub open spec fn key_descends(key: OrderKeyV) -> bool {
    match key {
        OrderKeyV::Column { descending, .. } => descending,
        OrderKeyV::Distance { descending, .. } => descending,
        OrderKeyV::Vector { descending, .. } => descending,
        OrderKeyV::Bm25 { descending, .. } => descending,
        OrderKeyV::Score { descending, .. } => descending,
    }
}

/// Whether a key puts the row of `a` before the row of `b`.
pub open spec fn key_precedes(
    env: EnvV,
    key: OrderKeyV,
    search: SearchLeafV,
    a: Ranked,
    b: Ranked,
) -> bool {
    first_of(key_value(env, a, key, search), key_value(env, b, key, search), key_descends(key))
}

/// The number that a compiled order ranks a row by.
pub open spec fn order_value(w: Ranked, order: OwnedOrderV) -> int {
    match order {
        OwnedOrderV::Driver => arbitrary(),
        OwnedOrderV::EntityId => w.id,
        OwnedOrderV::Scalar { index, .. } => (w.cell)(read_as(w.indexes, index, IndexFamily::Scalar)),
        OwnedOrderV::Distance { index, center, .. } => (w.metres)(
            read_as(w.indexes, index, IndexFamily::SpatialPoint),
            center,
        ),
        OwnedOrderV::Bm25 { index, query, matching, .. } => (w.words)(
            read_as(w.indexes, index, IndexFamily::Text),
            query,
            matching,
        ),
        OwnedOrderV::ExactVector { index, query, metric, .. } => (w.apart)(
            read_as(w.indexes, index, IndexFamily::ExactVector),
            query,
            metric,
        ),
        OwnedOrderV::ApproximateVector { index, query, metric, .. } => (w.apart)(
            read_as(w.indexes, index, IndexFamily::QuantizedVector),
            query,
            metric,
        ),
        OwnedOrderV::Score { expr, .. } => score_value(w, expr),
        OwnedOrderV::Edge { property, .. } => (w.edge)(property),
    }
}

/// Whether the largest comes first: the best match does, and so does the
/// nearest.
pub open spec fn order_descends(order: OwnedOrderV) -> bool {
    match order {
        OwnedOrderV::Scalar { descending, .. } => descending,
        OwnedOrderV::Score { descending, .. } => descending,
        OwnedOrderV::Edge { descending, .. } => descending,
        OwnedOrderV::Bm25 { .. } => true,
        _ => false,
    }
}

/// Whether a compiled order puts the row of `a` before the row of `b`; the
/// order of the walk puts none before another.
pub open spec fn order_precedes(order: OwnedOrderV, a: Ranked, b: Ranked) -> bool {
    !(order is Driver) && first_of(order_value(a, order), order_value(b, order), order_descends(order))
}

// ── proofs ───────────────────────────────────────────────────────────────

/// An index that is found for a column is one over that column.
pub proof fn ready_reads(x: Indexes, c: CollectionV, field: Seq<char>, family: IndexFamily, i: nat)
    requires
        indexed_in(x, c),
        ready_from(c.indexes, field, family, None, i) is Some,
    ensures
        read_as(x, ready_from(c.indexes, field, family, None, i)->0, family) == field,
    decreases c.indexes.len() - i,
{
    let info = c.indexes[i as int];
    if info.field == field && info.family == family && info.expression is None && info.state
        == IndexState::Ready {
    } else {
        ready_reads(x, c, field, family, i + 1);
    }
}

proof fn index_reads(x: Indexes, c: CollectionV, field: Seq<char>, family: IndexFamily)
    requires
        indexed_in(x, c),
    ensures
        forall|what: Seq<char>| #[trigger]
            index_for(c, field, family, what) is Ok ==> read_as(
                x,
                index_for(c, field, family, what)->Ok_0,
                family,
            ) == field,
{
    assert forall|what: Seq<char>| #[trigger] index_for(c, field, family, what) is Ok implies read_as(
        x,
        index_for(c, field, family, what)->Ok_0,
        family,
    ) == field by {
        ready_reads(x, c, field, family, 0);
    }
}

/// Compiling a ranking keeps its value, whatever its leaves are worth: a sum is
/// the sum of the values of its sides, a quotient the value of its left side
/// divided by that of its right one.
pub proof fn score_keeps_its_value(
    env: EnvV,
    c: CollectionV,
    w: Ranked,
    node: ScoreNodeV,
    search: SearchLeafV,
)
    requires
        indexed_in(w.indexes, c),
        score_of(env, c, node, search) is Ok,
    ensures
        score_value(w, score_of(env, c, node, search)->Ok_0) == written_value(env, w, node, search),
    decreases node,
{
    match node {
        ScoreNodeV::Column(column) => {
            index_reads(w.indexes, c, column, IndexFamily::Scalar);
        },
        ScoreNodeV::Bm25 { column, .. } => {
            index_reads(w.indexes, c, column, IndexFamily::Text);
        },
        ScoreNodeV::VecDistance { column, .. } => {
            index_reads(w.indexes, c, column, IndexFamily::ExactVector);
        },
        ScoreNodeV::Distance { column, .. } => {
            index_reads(w.indexes, c, column, IndexFamily::SpatialPoint);
        },
        ScoreNodeV::Add(a, b) | ScoreNodeV::Sub(a, b) | ScoreNodeV::Mul(a, b) | ScoreNodeV::Div(
            a,
            b,
        ) => {
            score_keeps_its_value(env, c, w, *a, search);
            score_keeps_its_value(env, c, w, *b, search);
        },
        ScoreNodeV::Neg(a) => {
            score_keeps_its_value(env, c, w, *a, search);
        },
        _ => {},
    }
}

proof fn vector_order_reads(
    env: EnvV,
    c: CollectionV,
    w: Ranked,
    column: Seq<char>,
    query: VectorArgV,
    fill: Option<LiteralV>,
    op: VecOp,
    log: LogV,
)
    requires
        indexed_in(w.indexes, c),
        vector_order(env, c, column, query, fill, op, log) is Ok,
    ensures
        order_value(w, vector_order(env, c, column, query, fill, op, log)->Ok_0.0) == (w.apart)(
            column,
            query,
            op,
        ),
        !order_descends(vector_order(env, c, column, query, fill, op, log)->Ok_0.0),
{
    if ready_from(c.indexes, column, IndexFamily::ExactVector, None, 0) is Some {
        ready_reads(w.indexes, c, column, IndexFamily::ExactVector, 0);
    }
    if ready_from(c.indexes, column, IndexFamily::QuantizedVector, None, 0) is Some {
        ready_reads(w.indexes, c, column, IndexFamily::QuantizedVector, 0);
    }
}

proof fn order_reads(env: EnvV, c: CollectionV, w: Ranked, key: OrderKeyV, log: LogV)
    requires
        indexed_in(w.indexes, c),
        order_of(env, c, key, log) is Ok,
    ensures
        order_value(w, order_of(env, c, key, log)->Ok_0.0) == key_value(env, w, key, log.search),
        order_descends(order_of(env, c, key, log)->Ok_0.0) == key_descends(key),
        !(order_of(env, c, key, log)->Ok_0.0 is Driver),
{
    match key {
        OrderKeyV::Column { column, .. } => {
            index_reads(w.indexes, c, column, IndexFamily::Scalar);
        },
        OrderKeyV::Distance { column, .. } => {
            index_reads(w.indexes, c, column, IndexFamily::SpatialPoint);
        },
        OrderKeyV::Vector { column, query, op, .. } => {
            vector_order_reads(
                env,
                c,
                w,
                column,
                vector_of(env.binder, query)->Ok_0,
                crate::compile::order::literal_fill(query),
                op,
                log,
            );
        },
        OrderKeyV::Bm25 { column, .. } => {
            index_reads(w.indexes, c, column, IndexFamily::Text);
        },
        OrderKeyV::Score { expr, .. } => {
            score_keeps_its_value(env, c, w, expr, log.search);
        },
    }
}

/// Compiling an `ORDER BY` keeps the order of every two rows.
pub proof fn order_keeps_its_meaning(
    env: EnvV,
    c: CollectionV,
    a: Ranked,
    b: Ranked,
    key: OrderKeyV,
    log: LogV,
)
    requires
        indexed_in(a.indexes, c),
        indexed_in(b.indexes, c),
        order_of(env, c, key, log) is Ok,
    ensures
        order_precedes(order_of(env, c, key, log)->Ok_0.0, a, b) <==> key_precedes(
            env,
            key,
            log.search,
            a,
            b,
        ),
{
    order_reads(env, c, a, key, log);
    order_reads(env, c, b, key, log);
}

/// Whether a name is that of a property of the edge, in the columns of a
/// pattern: the first column of that name that is one.
pub open spec fn names_edge(columns: Seq<(GraphColumnV, Seq<char>)>, name: Seq<char>, i: int) -> bool {
    0 <= i < columns.len() && columns[i].0 is Edge && columns[i].1 == name
}

proof fn alias_is_first(columns: Seq<(GraphColumnV, Seq<char>)>, name: Seq<char>, i: nat)
    ensures
        match edge_alias(columns, name, i) {
            None => forall|k: int| i <= k ==> !#[trigger] names_edge(columns, name, k),
            Some(p) => exists|k: int|
                i <= k && #[trigger] names_edge(columns, name, k) && columns[k].0
                    == GraphColumnV::Edge(p) && forall|j: int|
                    i <= j < k ==> !#[trigger] names_edge(columns, name, j),
        },
    decreases columns.len() - i,
{
    if i < columns.len() {
        if names_edge(columns, name, i as int) {
        } else {
            alias_is_first(columns, name, i + 1);
            if edge_alias(columns, name, i + 1) is Some {
                let p = edge_alias(columns, name, i + 1)->0;
                let k = choose|k: int|
                    i + 1 <= k && #[trigger] names_edge(columns, name, k) && columns[k].0
                        == GraphColumnV::Edge(p) && forall|j: int|
                        i + 1 <= j < k ==> !#[trigger] names_edge(columns, name, j);
                assert(names_edge(columns, name, k));
                assert forall|j: int| i <= j < k implies !#[trigger] names_edge(
                    columns,
                    name,
                    j,
                ) by {}
            } else {
                assert forall|k: int| i <= k implies !#[trigger] names_edge(columns, name, k) by {}
            }
        }
    }
}

/// A statement orders its rows as its `ORDER BY` says: by a property of the
/// reaching edge, where the key is the name of one; by nothing, where none is
/// written.
pub proof fn statement_order_keeps_its_meaning(
    env: EnvV,
    c: CollectionV,
    a: Ranked,
    b: Ranked,
    s: SelectStmtV,
    log: LogV,
)
    requires
        indexed_in(a.indexes, c),
        indexed_in(b.indexes, c),
        statement_order(env, c, s, log) is Ok,
    ensures
        ({
            let order = statement_order(env, c, s, log)->Ok_0.0;
            match s.order {
                None => order is Driver && !order_precedes(order, a, b),
                Some(key) => if key is Column && (exists|k: int| #[trigger]
                    names_edge(pattern_columns(s.source), key->Column_column, k)) {
                    exists|k: int| #[trigger]
                        names_edge(pattern_columns(s.source), key->Column_column, k) && (
                        order_precedes(order, a, b) <==> {
                            let property = pattern_columns(s.source)[k].0->Edge_0;
                            first_of((a.edge)(property), (b.edge)(property), key_descends(key))
                        })
                } else {
                    order_precedes(order, a, b) <==> key_precedes(env, key, log.search, a, b)
                },
            }
        }),
{
    if s.order is Some {
        let key = s.order->0;
        match key {
            OrderKeyV::Column { column, .. } => {
                alias_is_first(pattern_columns(s.source), column, 0);
                if edge_alias(pattern_columns(s.source), column, 0) is None {
                    assert forall|k: int| !#[trigger] names_edge(
                        pattern_columns(s.source),
                        column,
                        k,
                    ) by {}
                    order_keeps_its_meaning(env, c, a, b, key, log);
                }
            },
            _ => {
                order_keeps_its_meaning(env, c, a, b, key, log);
            },
        }
    }
}

// ── as it is read ────────────────────────────────────────────────────────

/// Reading an expression as a ranking keeps its value.
pub proof fn lowering_keeps_the_value(env: EnvV, w: Ranked, e: PExprV, search: SearchLeafV)
    requires
        lowered(e) is Ok,
    ensures
        written_value(env, w, lowered(e)->Ok_0, search) == expression_value(env, w, e, search),
    decreases e,
{
    match e {
        PExprV::Add(a, b) | PExprV::Sub(a, b) | PExprV::Mul(a, b) | PExprV::Div(a, b) => {
            lowering_keeps_the_value(env, w, *a, search);
            lowering_keeps_the_value(env, w, *b, search);
        },
        PExprV::Neg(a) => {
            lowering_keeps_the_value(env, w, *a, search);
        },
        _ => {},
    }
}

/// The two sides of a sign, under that sign.
pub open spec fn signed(w: Ranked, x: Sym, a: int, b: int) -> int {
    match x {
        Sym::Plus => (w.plus)(a, b),
        Sym::Minus => (w.minus)(a, b),
        Sym::Star => (w.times)(a, b),
        Sym::Slash => (w.over)(a, b),
        _ => arbitrary(),
    }
}

/// A sign between two expressions is the operation that it is the sign of, with
/// the left one first; where more signs of its rank follow, they take the result
/// on their left. A sum is over products.
pub proof fn signs_keep_their_meaning(
    env: EnvV,
    w: Ranked,
    search: SearchLeafV,
    t: Seq<TokenV>,
    s: int,
    d: nat,
    x: Sym,
    left: PExprV,
)
    requires
        x is Plus || x is Minus || x is Star || x is Slash,
        tok(t, s) == TokV::Sym(x),
        ({
            let level: nat = if x is Plus || x is Minus { 0 } else { 1 };
            expression_tail(t, s, d, level, left) is Ok
        }),
    ensures
        ({
            let level: nat = if x is Plus || x is Minus { 0 } else { 1 };
            let (right, end) = expression(t, next(t, s), d, level + 1)->Ok_0;
            &&& expression(t, next(t, s), d, level + 1) is Ok
            &&& exists|node: PExprV|
                {
                    &&& #[trigger] expression_value(env, w, node, search) == signed(
                        w,
                        x,
                        expression_value(env, w, left, search),
                        expression_value(env, w, right, search),
                    )
                    &&& s < end <= t.len() ==> expression_tail(t, s, d, level, left)
                        == expression_tail(t, end, d, level, node)
                    &&& !(s < end <= t.len()) ==> expression_tail(t, s, d, level, left)->Ok_0.0
                        == node
                }
        }),
{
    let level: nat = if x is Plus || x is Minus { 0 } else { 1 };
    let (right, end) = right_side(t, next(t, s), d, level)->Ok_0;
    let node = arithmetic(tok(t, s), left, right);
    assert(expression_value(env, w, node, search) == signed(
        w,
        x,
        expression_value(env, w, left, search),
        expression_value(env, w, right, search),
    ));
}

/// The sign of a distance that a query is ranked by, with the column on its left.
pub proof fn distances_keep_their_meaning(
    env: EnvV,
    w: Ranked,
    search: SearchLeafV,
    t: Seq<TokenV>,
    s: int,
    d: nat,
    x: Sym,
    left: PExprV,
)
    requires
        x is VecCosine || x is VecL2 || x is VecDot,
        tok(t, s) == TokV::Sym(x),
        expression_tail(t, s, d, 2, left) is Ok,
    ensures
        left is Column,
        right_side(t, next(t, s), d, 2) is Ok,
        ({
            let (right, end) = right_side(t, next(t, s), d, 2)->Ok_0;
            let op = match x {
                Sym::VecCosine => VecOp::Cosine,
                Sym::VecL2 => VecOp::L2,
                _ => VecOp::NegativeDot,
            };
            exists|node: PExprV|
                {
                    &&& right is Param ==> #[trigger] expression_value(env, w, node, search)
                        == vector_rank(env, w, left->Column_0, LiteralV::Param(right->Param_0), op)
                    &&& right is Str ==> expression_value(env, w, node, search) == vector_rank(
                        env,
                        w,
                        left->Column_0,
                        LiteralV::Str(right->Str_0),
                        op,
                    )
                    &&& s < end <= t.len() ==> expression_tail(t, s, d, 2, left) == expression_tail(
                        t,
                        end,
                        d,
                        2,
                        node,
                    )
                    &&& !(s < end <= t.len()) ==> expression_tail(t, s, d, 2, left)->Ok_0.0 == node
                }
        }),
{
    let (right, end) = right_side(t, next(t, s), d, 2)->Ok_0;
    let node = PExprV::Distance {
        column: left->Column_0,
        right: Box::new(right),
        op: distance_op(tok(t, s)),
    };
    let v = expression_value(env, w, node, search);
}

/// A minus before an expression turns its sign, a plus leaves it, and so do
/// parentheses.
pub proof fn prefixes_keep_their_meaning(
    env: EnvV,
    w: Ranked,
    search: SearchLeafV,
    t: Seq<TokenV>,
    s: int,
    d: nat,
)
    requires
        primary(t, s, d) is Ok,
    ensures
        ({
            let v = expression_value(env, w, primary(t, s, d)->Ok_0.0, search);
            &&& tok(t, s) == TokV::Sym(Sym::Minus) ==> v == (w.negative)(
                expression_value(env, w, expression(t, next(t, s), d, 2)->Ok_0.0, search),
            )
            &&& tok(t, s) == TokV::Sym(Sym::Plus) ==> v == expression_value(
                env,
                w,
                expression(t, next(t, s), d, 2)->Ok_0.0,
                search,
            )
            &&& tok(t, s) == TokV::Sym(Sym::LParen) ==> v == expression_value(
                env,
                w,
                expression(t, next(t, s), d, 0)->Ok_0.0,
                search,
            )
            &&& tok(t, s) is Num ==> v == (w.number)(tok(t, s)->Num_0)
        }),
{
    reveal(guard_operator);
    let e = primary(t, s, d)->Ok_0.0;
    assert(guard_operator(t, s) is Ok);
    if tok(t, s) == TokV::Sym(Sym::Minus) {
        assert(is_sym(t, s, Sym::Minus));
        assert(e == PExprV::Neg(Box::new(expression(t, next(t, s), d, 2)->Ok_0.0)));
    } else if tok(t, s) == TokV::Sym(Sym::Plus) {
        assert(!is_sym(t, s, Sym::Minus));
    } else if tok(t, s) == TokV::Sym(Sym::LParen) {
        assert(e == expression(t, next(t, s), d, 0)->Ok_0.0);
    } else if tok(t, s) is Num {
        assert(e == PExprV::Num(tok(t, s)->Num_0));
    }
}

/// A key ranks the rows by the expression that is written, the largest first
/// exactly where `DESC` stands behind it.
pub proof fn order_key_keeps_its_meaning(
    env: EnvV,
    w: Ranked,
    search: SearchLeafV,
    t: Seq<TokenV>,
    s: int,
    d: nat,
)
    requires
        order_key(t, s, d) is Ok,
    ensures
        expression(t, s, d, 0) is Ok,
        ({
            let (e, end) = expression(t, s, d, 0)->Ok_0;
            let key = order_key(t, s, d)->Ok_0.0;
            &&& key_descends(key) <==> is_word(t, end, "DESC"@)
            &&& e != PExprV::Column(ID_COLUMN@) ==> key_value(env, w, key, search)
                == expression_value(env, w, e, search)
            &&& e == PExprV::Column(ID_COLUMN@) ==> key_value(env, w, key, search) == w.id
        }),
{
    reveal(order_key);
    let (e, end) = expression(t, s, d, 0)->Ok_0;
    match e {
        PExprV::Column(_) => {},
        PExprV::Bm25 { .. } => {},
        PExprV::Distance { column, right, op } => {
            let r = *right;
        },
        _ => {
            lowering_keeps_the_value(env, w, e, search);
        },
    }
}

} // verus!
