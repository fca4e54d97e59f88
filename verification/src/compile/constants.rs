//! A constant conjunct: TRUE is no predicate at all, and FALSE is a limit of
//! zero.

use vstd::prelude::*;
use crate::ast::{
    time_shape_text, ExprV, LiteralV, PredicateV, RowExprV, TextShapeV, TimeShapeV, TimeValueV,
    TsQueryV,
};
use crate::compile::env::{collection_of, CollectionV};
use crate::compile::graph::{node_wheres, pattern_log};
use crate::compile::log::{EnvV, LogV};
use crate::compile::plan::{OwnedFilterV, SelectPlanV};
use crate::compile::predicates::{
    filter_of, text_leaf, text_predicate, where_filter, where_filters,
};
use crate::compile::project::{row_function, row_functions};
use crate::compile::ranges::{
    text_filter, time_filter, time_literal, time_range, time_value, whole_literal, CLOCK,
};
use crate::compile::select::{
    column_item, graph_items, has_false, pattern_columns, select_filters, select_item, select_items,
    select_of, source_of, star_items, statement_order, SelectListV,
};
use crate::compile::semi::semi_join;
use crate::error::SqlErrorV;
use crate::stmt::{GraphColumnV, SelectItemV, SelectStmtV, SourceV};
use crate::value::Kind;

verus! {

// ── earlier notices ──────────────────────────────────────────────────────

/// A log that some notices stand before.
pub open spec fn behind(l: LogV, base: Seq<Seq<char>>) -> LogV {
    LogV { notices: base + l.notices, ..l }
}

/// The same result, with some notices before those of its log.
pub open spec fn moved<T>(r: Result<(T, LogV), SqlErrorV>, base: Seq<Seq<char>>) -> Result<
    (T, LogV),
    SqlErrorV,
> {
    match r {
        Err(e) => Err(e),
        Ok((v, l)) => Ok((v, behind(l, base))),
    }
}

proof fn noted_behind(l: LogV, base: Seq<Seq<char>>)
    ensures
        forall|x: Seq<char>| behind(l, base).noted(x) == behind(#[trigger] l.noted(x), base),
{
    assert forall|x: Seq<char>| behind(l, base).noted(x) == behind(#[trigger] l.noted(x), base) by {
        assert(behind(l, base).noted(x).notices =~= behind(l.noted(x), base).notices);
    }
}

proof fn value_moves(env: EnvV, v: TimeValueV, column: Seq<char>, l: LogV, base: Seq<Seq<char>>)
    ensures
        time_value(env, v, column, behind(l, base)) == moved(time_value(env, v, column, l), base),
{
}

proof fn literal_moves(env: EnvV, v: LiteralV, column: Seq<char>, l: LogV, base: Seq<Seq<char>>)
    ensures
        time_literal(env, v, column, behind(l, base)) == moved(
            time_literal(env, v, column, l),
            base,
        ),
        whole_literal(env, v, column, behind(l, base)) == moved(
            whole_literal(env, v, column, l),
            base,
        ),
{
}

proof fn range_moves(
    env: EnvV,
    column: Seq<char>,
    shape: TimeShapeV,
    what: Seq<char>,
    l: LogV,
    base: Seq<Seq<char>>,
)
    ensures
        time_range(env, column, shape, what, behind(l, base)) == moved(
            time_range(env, column, shape, what, l),
            base,
        ),
{
    match shape {
        TimeShapeV::Extract { value, .. } => {
            literal_moves(env, value, what, l, base);
        },
        TimeShapeV::ExtractBetween { lower, upper, .. } => {
            literal_moves(env, lower, what, l, base);
            if let Ok((_, next)) = whole_literal(env, lower, what, l) {
                literal_moves(env, upper, what, next, base);
            }
        },
        TimeShapeV::Trunc { value, .. } | TimeShapeV::CastDate { value, .. } => {
            literal_moves(env, value, column, l, base);
        },
        TimeShapeV::TruncBetween { lower, upper, .. } => {
            literal_moves(env, lower, column, l, base);
            if let Ok((_, next)) = time_literal(env, lower, column, l) {
                literal_moves(env, upper, column, next, base);
            }
        },
        TimeShapeV::Clock { value, .. } => {
            value_moves(env, value, column, l, base);
        },
        TimeShapeV::ClockBetween { lower, upper } => {
            value_moves(env, lower, column, l, base);
            if let Ok((_, next)) = time_value(env, lower, column, l) {
                value_moves(env, upper, column, next, base);
            }
        },
    }
}

proof fn time_moves(
    env: EnvV,
    c: CollectionV,
    column: Seq<char>,
    shape: TimeShapeV,
    l: LogV,
    base: Seq<Seq<char>>,
)
    ensures
        time_filter(env, c, column, shape, behind(l, base)) == moved(
            time_filter(env, c, column, shape, l),
            base,
        ),
{
    range_moves(env, column, shape, time_shape_text(shape, column), l, base);
}

proof fn text_fn_moves(
    env: EnvV,
    c: CollectionV,
    column: Seq<char>,
    shape: TextShapeV,
    l: LogV,
    base: Seq<Seq<char>>,
)
    ensures
        text_filter(env, c, column, shape, behind(l, base)) == moved(
            text_filter(env, c, column, shape, l),
            base,
        ),
{
}

proof fn text_leaf_moves(
    env: EnvV,
    c: CollectionV,
    column: Seq<char>,
    q: TsQueryV,
    l: LogV,
    base: Seq<Seq<char>>,
)
    ensures
        text_leaf(env, c, column, q, behind(l, base)) == moved(
            text_leaf(env, c, column, q, l),
            base,
        ),
{
}

proof fn text_moves(
    env: EnvV,
    c: CollectionV,
    column: Seq<char>,
    q: TsQueryV,
    l: LogV,
    base: Seq<Seq<char>>,
)
    ensures
        text_predicate(env, c, column, q, behind(l, base)) == moved(
            text_predicate(env, c, column, q, l),
            base,
        ),
{
    text_leaf_moves(env, c, column, q, l, base);
    if let Ok(text) = crate::compile::bind::text_of(env.binder, q.source) {
        let inner = TsQueryV {
            source: LiteralV::Str(crate::compile::predicates::negated_term(text)),
            tsquery_syntax: q.tsquery_syntax,
            fuzzy: q.fuzzy,
        };
        let next = l.folded(
            q.source,
            "a `!term` tsquery, whose complement shape is decided by the value"@,
        );
        text_leaf_moves(env, c, column, inner, next, base);
    }
}

proof fn semi_moves(
    env: EnvV,
    c: CollectionV,
    table: Seq<char>,
    column: Seq<char>,
    l: LogV,
    base: Seq<Seq<char>>,
)
    ensures
        semi_join(env, c, table, column, behind(l, base)) == moved(
            semi_join(env, c, table, column, l),
            base,
        ),
{
    let next = l.refused(
        "a semi-join over `"@ + table + "."@ + column
            + "` builds its membership set while the statement compiles (QL_CONTRACT §3)"@,
    );
    noted_behind(next, base);
}

proof fn filter_moves(env: EnvV, c: CollectionV, p: PredicateV, l: LogV, base: Seq<Seq<char>>)
    ensures
        filter_of(env, c, p, behind(l, base)) == moved(filter_of(env, c, p, l), base),
{
    reveal(filter_of);
    match p {
        PredicateV::Compare { column, op, value } => {
            let shape = TimeShapeV::Clock { op, value: TimeValueV::Lit(value) };
            time_moves(env, c, column, shape, l, base);
        },
        PredicateV::Between { column, lower, upper } => {
            let shape = TimeShapeV::ClockBetween {
                lower: TimeValueV::Lit(lower),
                upper: TimeValueV::Lit(upper),
            };
            time_moves(env, c, column, shape, l, base);
        },
        PredicateV::Semi { table, column } => {
            semi_moves(env, c, table, column, l, base);
        },
        PredicateV::Text { column, query } => {
            text_moves(env, c, column, query, l, base);
        },
        PredicateV::Time { column, shape } => {
            time_moves(env, c, column, shape, l, base);
        },
        PredicateV::TextFn { column, shape } => {
            text_fn_moves(env, c, column, shape, l, base);
        },
        _ => {},
    }
}

proof fn where_moves(env: EnvV, c: CollectionV, e: ExprV, l: LogV, base: Seq<Seq<char>>)
    ensures
        where_filter(env, c, e, behind(l, base)) == moved(where_filter(env, c, e, l), base),
    decreases e,
{
    match e {
        ExprV::Leaf(p) => {
            filter_moves(env, c, p, l, base);
        },
        ExprV::Not(inner) => {
            where_moves(env, c, *inner, l, base);
        },
        ExprV::And(parts) | ExprV::Or(parts) => {
            wheres_move(env, c, parts, l, base);
        },
    }
}

proof fn wheres_move(env: EnvV, c: CollectionV, parts: Seq<ExprV>, l: LogV, base: Seq<Seq<char>>)
    ensures
        where_filters(env, c, parts, behind(l, base)) == moved(
            where_filters(env, c, parts, l),
            base,
        ),
    decreases parts,
{
    if parts.len() > 0 {
        wheres_move(env, c, parts.drop_last(), l, base);
        if let Ok((_, next)) = where_filters(env, c, parts.drop_last(), l) {
            where_moves(env, c, parts.last(), next, base);
        }
    }
}

proof fn nodes_move(env: EnvV, c: CollectionV, list: Seq<PredicateV>, l: LogV, base: Seq<Seq<char>>)
    ensures
        node_wheres(env, c, list, behind(l, base)) == moved(node_wheres(env, c, list, l), base),
    decreases list.len(),
{
    if list.len() > 0 {
        nodes_move(env, c, list.drop_last(), l, base);
        if let Ok((_, next)) = node_wheres(env, c, list.drop_last(), l) {
            filter_moves(env, c, list.last(), next, base);
        }
    }
}

proof fn source_moves(env: EnvV, source: SourceV, l: LogV, base: Seq<Seq<char>>)
    ensures
        source_of(env, source, behind(l, base)) == match source_of(env, source, l) {
            Err(e) => Err::<(CollectionV, Seq<OwnedFilterV>, LogV), SqlErrorV>(e),
            Ok((c, f, next)) => Ok((c, f, behind(next, base))),
        },
{
    if let SourceV::Graph(g) = source {
        if let (Ok(from), Ok(to)) = (
            collection_of(env.binder.catalog, g.seed_collection),
            collection_of(env.binder.catalog, g.target_collection),
        ) {
            let across = to.id != from.id;
            noted_behind(l, base);
            let first = l.noted(
                "GRAPH_TABLE walks from `"@ + g.seed_collection + "` into `"@ + g.target_collection
                    + "`: the traversal itself is untyped by collection, and the far element's label is checked by the collection the outer statement selects from"@,
            );
            noted_behind(first, base);
            assert(pattern_log(*g, across, behind(l, base)) == behind(
                pattern_log(*g, across, l),
                base,
            ));
            nodes_move(env, to, g.node_predicates, pattern_log(*g, across, l), base);
        }
    }
}

proof fn filters_move(
    env: EnvV,
    c: CollectionV,
    parts: Seq<ExprV>,
    first: Seq<OwnedFilterV>,
    l: LogV,
    base: Seq<Seq<char>>,
)
    ensures
        select_filters(env, c, parts, first, behind(l, base)) == moved(
            select_filters(env, c, parts, first, l),
            base,
        ),
    decreases parts.len(),
{
    if parts.len() > 0 {
        filters_move(env, c, parts.drop_last(), first, l, base);
        if let Ok((_, next)) = select_filters(env, c, parts.drop_last(), first, l) {
            where_moves(env, c, parts.last(), next, base);
        }
    }
}

proof fn order_moves(env: EnvV, c: CollectionV, s: SelectStmtV, l: LogV, base: Seq<Seq<char>>)
    ensures
        statement_order(env, c, s, behind(l, base)) == moved(statement_order(env, c, s, l), base),
{
    noted_behind(l, base);
}

proof fn row_moves(
    env: EnvV,
    c: CollectionV,
    e: RowExprV,
    fields: Seq<Seq<char>>,
    l: LogV,
    base: Seq<Seq<char>>,
)
    ensures
        row_function(env, c, e, fields, behind(l, base)) == match row_function(
            env,
            c,
            e,
            fields,
            l,
        ) {
            Err(e) => Err(e),
            Ok((x, f, next)) => Ok((x, f, behind(next, base))),
        },
    decreases e,
{
    match e {
        RowExprV::Extract { arg, .. } | RowExprV::Trunc { arg, .. } | RowExprV::ToChar { arg, .. }
        | RowExprV::ToTimestamp(arg) | RowExprV::ToDate(arg) | RowExprV::CastDate(arg)
        | RowExprV::CastText(arg) => {
            row_moves(env, c, *arg, fields, l, base);
        },
        RowExprV::Age { left, right } => {
            match right {
                None => {
                    row_moves(env, c, *left, fields, l.refused(CLOCK@), base);
                },
                Some(right) => {
                    row_moves(env, c, *left, fields, l, base);
                    if let Ok((_, f, next)) = row_function(env, c, *left, fields, l) {
                        row_moves(env, c, *right, f, next, base);
                    }
                },
            }
        },
        RowExprV::Str { func, args } => {
            rows_move(env, c, args, fields, l, base);
        },
        RowExprV::Add(x, y) | RowExprV::Sub(x, y) | RowExprV::Concat(x, y) => {
            row_moves(env, c, *x, fields, l, base);
            if let Ok((_, f, next)) = row_function(env, c, *x, fields, l) {
                row_moves(env, c, *y, f, next, base);
            }
        },
        _ => {},
    }
}

proof fn rows_move(
    env: EnvV,
    c: CollectionV,
    args: Seq<RowExprV>,
    fields: Seq<Seq<char>>,
    l: LogV,
    base: Seq<Seq<char>>,
)
    ensures
        row_functions(env, c, args, fields, behind(l, base)) == match row_functions(
            env,
            c,
            args,
            fields,
            l,
        ) {
            Err(e) => Err(e),
            Ok((x, f, next)) => Ok((x, f, behind(next, base))),
        },
    decreases args,
{
    if args.len() > 0 {
        rows_move(env, c, args.drop_last(), fields, l, base);
        if let Ok((_, f, next)) = row_functions(env, c, args.drop_last(), fields, l) {
            row_moves(env, c, args.last(), f, next, base);
        }
    }
}

proof fn column_moves(
    c: CollectionV,
    name: Seq<char>,
    title: Seq<char>,
    list: SelectListV,
    l: LogV,
    base: Seq<Seq<char>>,
)
    ensures
        column_item(c, name, title, list, behind(l, base)) == moved(
            column_item(c, name, title, list, l),
            base,
        ),
{
}

proof fn star_moves(
    c: CollectionV,
    fields: Seq<(Seq<char>, Kind)>,
    list: SelectListV,
    l: LogV,
    base: Seq<Seq<char>>,
)
    ensures
        star_items(c, fields, list, behind(l, base)) == moved(star_items(c, fields, list, l), base),
    decreases fields.len(),
{
    if fields.len() > 0 {
        star_moves(c, fields.drop_last(), list, l, base);
        if let Ok((done, next)) = star_items(c, fields.drop_last(), list, l) {
            column_moves(c, fields.last().0, fields.last().0, done, next, base);
        }
    }
}

proof fn item_moves(
    env: EnvV,
    c: CollectionV,
    ranked: bool,
    item: SelectItemV,
    alias: Option<Seq<char>>,
    list: SelectListV,
    l: LogV,
    base: Seq<Seq<char>>,
)
    ensures
        select_item(env, c, ranked, item, alias, list, behind(l, base)) == moved(
            select_item(env, c, ranked, item, alias, list, l),
            base,
        ),
{
    match item {
        SelectItemV::Star => {
            star_moves(c, c.fields, list, l, base);
        },
        SelectItemV::Column(name) => {
            column_moves(c, name, crate::compile::select::title_or(alias, name), list, l, base);
        },
        SelectItemV::Function(e) => {
            row_moves(env, c, *e, list.fields, l, base);
        },
        _ => {},
    }
}

proof fn items_move(
    env: EnvV,
    c: CollectionV,
    ranked: bool,
    items: Seq<(SelectItemV, Option<Seq<char>>)>,
    list: SelectListV,
    l: LogV,
    base: Seq<Seq<char>>,
)
    ensures
        select_items(env, c, ranked, items, list, behind(l, base)) == moved(
            select_items(env, c, ranked, items, list, l),
            base,
        ),
    decreases items.len(),
{
    if items.len() > 0 {
        items_move(env, c, ranked, items.drop_last(), list, l, base);
        if let Ok((done, next)) = select_items(env, c, ranked, items.drop_last(), list, l) {
            item_moves(env, c, ranked, items.last().0, items.last().1, done, next, base);
        }
    }
}

proof fn columns_move(
    env: EnvV,
    c: CollectionV,
    ranked: bool,
    items: Seq<(GraphColumnV, Seq<char>)>,
    list: SelectListV,
    l: LogV,
    base: Seq<Seq<char>>,
)
    ensures
        graph_items(env, c, ranked, items, list, behind(l, base)) == moved(
            graph_items(env, c, ranked, items, list, l),
            base,
        ),
    decreases items.len(),
{
    if items.len() > 0 {
        columns_move(env, c, ranked, items.drop_last(), list, l, base);
        if let Ok((done, next)) = graph_items(env, c, ranked, items.drop_last(), list, l) {
            if let GraphColumnV::Node(item) = items.last().0 {
                item_moves(env, c, ranked, item, Some(items.last().1), done, next, base);
            }
        }
    }
}

/// What was noticed before a `SELECT` is compiled stays before what is noticed
/// while it is, and changes nothing else.
pub proof fn earlier_notices_stay(env: EnvV, s: SelectStmtV, l: LogV, base: Seq<Seq<char>>)
    ensures
        select_of(env, s, behind(l, base)) == moved(select_of(env, s, l), base),
{
    noted_behind(l, base);
    let note = "a constant FALSE predicate: the statement returns no rows, so it compiles to LIMIT 0 -- no driver is stepped and no row is read"@;
    let start = if has_false(s.predicates) {
        l.noted(note)
    } else {
        l
    };
    let empty = SelectListV {
        columns: Seq::empty(),
        outputs: Seq::empty(),
        fields: Seq::empty(),
        functions: Seq::empty(),
    };
    source_moves(env, s.source, start, base);
    if let Ok((c, first, l1)) = source_of(env, s.source, start) {
        filters_move(env, c, s.predicates, first, l1, base);
        if let Ok((_, l2)) = select_filters(env, c, s.predicates, first, l1) {
            order_moves(env, c, s, l2, base);
            if let Ok((_, l3)) = statement_order(env, c, s, l2) {
                let ranked = s.order is Some;
                let columns = pattern_columns(s.source);
                columns_move(env, c, ranked, columns, empty, l3, base);
                items_move(env, c, ranked, s.items, empty, l3, base);
                if s.source is Graph {
                    if let Ok((_, l4)) = graph_items(env, c, ranked, columns, empty, l3) {
                        noted_behind(l4, base);
                    }
                } else {
                    if let Ok((_, l4)) = select_items(env, c, ranked, s.items, empty, l3) {
                        noted_behind(l4, base);
                    }
                }
            }
        }
    }
}

// ── the conjunct ─────────────────────────────────────────────────────────

/// A statement with one more conjunct, a constant, at some place of its
/// `WHERE`.
pub open spec fn with_constant(s: SelectStmtV, at: int, value: bool) -> SelectStmtV {
    SelectStmtV { predicates: s.predicates.insert(at, constant(value)), ..s }
}

pub open spec fn constant(value: bool) -> ExprV {
    ExprV::Leaf(PredicateV::Constant(value))
}

/// What a statement with a constant FALSE notices.
pub open spec fn false_notice() -> Seq<char> {
    "a constant FALSE predicate: the statement returns no rows, so it compiles to LIMIT 0 -- no driver is stepped and no row is read"@
}

proof fn filters_skip(
    env: EnvV,
    c: CollectionV,
    parts: Seq<ExprV>,
    at: int,
    value: bool,
    first: Seq<OwnedFilterV>,
    log: LogV,
)
    requires
        0 <= at <= parts.len(),
    ensures
        select_filters(env, c, parts.insert(at, constant(value)), first, log) == select_filters(
            env,
            c,
            parts,
            first,
            log,
        ),
    decreases parts.len(),
{
    let all = parts.insert(at, constant(value));
    if at == parts.len() {
        assert(all.drop_last() =~= parts);
        assert(all.last() == constant(value));
    } else {
        assert(all.drop_last() =~= parts.drop_last().insert(at, constant(value)));
        assert(all.last() == parts.last());
        filters_skip(env, c, parts.drop_last(), at, value, first, log);
    }
}

proof fn false_inserted(parts: Seq<ExprV>, at: int, value: bool)
    requires
        0 <= at <= parts.len(),
    ensures
        has_false(parts.insert(at, constant(value))) == (has_false(parts) || !value),
{
    let all = parts.insert(at, constant(value));
    assert(all[at] == constant(value));
    if has_false(parts) {
        let k = choose|k: int| 0 <= k < parts.len() && #[trigger] parts[k] == constant(false);
        assert(all[if k < at {
            k
        } else {
            k + 1
        }] == constant(false));
    }
    if has_false(all) {
        let k = choose|k: int| 0 <= k < all.len() && #[trigger] all[k] == constant(false);
        if k < at {
            assert(parts[k] == constant(false));
        } else if k > at {
            assert(parts[k - 1] == constant(false));
        }
    }
}

/// What a statement compiles to behind the notice of a constant FALSE, from a
/// log on.
proof fn same_but_for_the_limit(env: EnvV, s: SelectStmtV, at: int, value: bool, log: LogV)
    requires
        0 <= at <= s.predicates.len(),
        !has_false(s.predicates),
    ensures
        select_of(env, with_constant(s, at, value), log) == if value {
            select_of(env, s, log)
        } else {
            match select_of(env, s, log.noted(false_notice())) {
                Err(e) => Err(e),
                Ok((p, l)) => Ok((SelectPlanV { limit: Some(0), ..p }, l)),
            }
        },
{
    let t = with_constant(s, at, value);
    let start = if value {
        log
    } else {
        log.noted(false_notice())
    };
    false_inserted(s.predicates, at, value);
    if let Ok((c, first, next)) = source_of(env, s.source, start) {
        filters_skip(env, c, s.predicates, at, value, first, next);
    }
}

/// A constant TRUE conjunct is no predicate at all: the statement compiles to
/// what it compiles to without it.
pub proof fn constant_true_is_nothing(env: EnvV, s: SelectStmtV, at: int, log: LogV)
    requires
        0 <= at <= s.predicates.len(),
    ensures
        select_of(env, with_constant(s, at, true), log) == select_of(env, s, log),
{
    false_inserted(s.predicates, at, true);
    let start = if has_false(s.predicates) {
        log.noted(false_notice())
    } else {
        log
    };
    if let Ok((c, first, next)) = source_of(env, s.source, start) {
        filters_skip(env, c, s.predicates, at, true, first, next);
    }
}

/// A constant FALSE conjunct makes the limit zero, whatever limit was written,
/// and adds one notice that says so before the others. Everything else is as
/// without it; where the statement has a constant FALSE already, all is.
pub proof fn constant_false_is_a_limit(env: EnvV, s: SelectStmtV, at: int, log: LogV)
    requires
        0 <= at <= s.predicates.len(),
    ensures
        has_false(s.predicates) ==> select_of(env, with_constant(s, at, false), log) == select_of(
            env,
            s,
            log,
        ),
        !has_false(s.predicates) ==> match select_of(env, s, log) {
            Err(e) => select_of(env, with_constant(s, at, false), log) == Err::<
                (SelectPlanV, LogV),
                SqlErrorV,
            >(e),
            Ok((p, l)) => {
                let n = log.notices.len() as int;
                &&& n <= l.notices.len()
                &&& l.notices.take(n) == log.notices
                &&& select_of(env, with_constant(s, at, false), log) == Ok::<
                    (SelectPlanV, LogV),
                    SqlErrorV,
                >(
                    (
                        SelectPlanV { limit: Some(0), ..p },
                        LogV {
                            notices: log.notices.push(false_notice()) + l.notices.skip(n),
                            ..l
                        },
                    ),
                )
            },
        },
        select_of(env, with_constant(s, at, false), log) matches Ok((p, _)) ==> p.limit
            == Some(0usize),
{
    if has_false(s.predicates) {
        false_inserted(s.predicates, at, false);
        if let Ok((c, first, next)) = source_of(env, s.source, log.noted(false_notice())) {
            filters_skip(env, c, s.predicates, at, false, first, next);
        }
    } else {
        same_but_for_the_limit(env, s, at, false, log);
        let bare = LogV { notices: Seq::empty(), ..log };
        let noted = log.notices.push(false_notice());
        assert(behind(bare, log.notices).notices =~= log.notices);
        assert(behind(bare, noted).notices =~= noted);
        assert(behind(bare, log.notices) == log);
        assert(behind(bare, noted) == log.noted(false_notice()));
        earlier_notices_stay(env, s, bare, log.notices);
        earlier_notices_stay(env, s, bare, noted);
        if let Ok((p, l0)) = select_of(env, s, bare) {
            let l = behind(l0, log.notices);
            let n = log.notices.len() as int;
            assert(l.notices.skip(n) =~= l0.notices);
            assert(l.notices.take(n) =~= log.notices);
        }
    }
}

} // verus!
