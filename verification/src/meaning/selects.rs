//! Which rows a statement answers with, and what it reports of each.

use vstd::prelude::*;
use crate::ast::{row_expr_text, ExprV, PredicateV, RowExprV};
use crate::compile::answer::{answered_row, output_value, output_values, ReturnedRowV};
use crate::compile::env::{
    time_column, CollectionV, ID_COLUMN, KEY_COLUMN,
};
use crate::compile::graph::graph_table;
use crate::compile::log::{EnvV, LogV};
use crate::compile::modify::{delete_where_of, update_where_of};
use crate::compile::plan::{Output, OwnedFilterV, SelectPlanV, WritePlanV};
use crate::compile::predicates::where_filter;
use crate::compile::project::{placed, row_function};
use crate::compile::row::CompiledRowV;
use crate::compile::select::{
    graph_items, has_false, is_constant, is_reserved, pattern_columns, select_filters, select_item,
    select_items, select_of, source_of, star_items, SelectListV, EDGE_FIELD_PREFIX,
};
use crate::error::SqlErrorV;
use crate::meaning::condition::{
    all_conditions, all_searches_fit, belongs, condition_keeps_its_meaning, condition_says,
};
use crate::meaning::expressions::{
    begins_with, fewer_fields, fields_grow, iso_value, leaf_value, placed_is_there, row_holds,
    row_expression_keeps_its_meaning, spelled, value, worth,
};
use crate::meaning::row::{all_say, Row};
use crate::stmt::{DeleteWhereV, GraphColumnV, SelectItemV, SelectStmtV, UpdateWhereV};
use crate::value::{Kind, SqlValueV};

verus! {

// ── which rows ───────────────────────────────────────────────────────────

/// Whether every filter of a list lets a row through.
pub open spec fn let_through(w: Row, filters: Seq<OwnedFilterV>) -> bool {
    all_say(w, filters) == Some(true)
}

/// The filters of a `WHERE` let a row through exactly where the conditions are
/// true of it, as long as none of them is the constant FALSE.
pub proof fn filters_keep_their_meaning(
    env: EnvV,
    c: CollectionV,
    w: Row,
    parts: Seq<ExprV>,
    first: Seq<OwnedFilterV>,
    log: LogV,
)
    requires
        belongs(w, c),
        all_searches_fit(parts),
        !has_false(parts),
        select_filters(env, c, parts, first, log) is Ok,
    ensures
        let_through(w, select_filters(env, c, parts, first, log)->Ok_0.0) <==> let_through(w, first)
            && all_conditions(env, c, w, parts) == Some(true),
    decreases parts.len(),
{
    if parts.len() > 0 {
        let init = parts.drop_last();
        let last = parts.last();
        assert forall|i: int| 0 <= i < init.len() implies #[trigger] init[i] != ExprV::Leaf(
            PredicateV::Constant(false),
        ) by {
            assert(parts[i] == init[i]);
        }
        assert(last == parts[parts.len() - 1]);
        filters_keep_their_meaning(env, c, w, init, first, log);
        let (done, mid) = select_filters(env, c, init, first, log)->Ok_0;
        if !is_constant(last) {
            condition_keeps_its_meaning(env, c, w, last, mid);
            let f = where_filter(env, c, last, mid)->Ok_0.0;
            assert(done.push(f).drop_last() =~= done);
        } else {
            assert(condition_says(env, c, w, last) == Some(true));
        }
    }
}

proof fn false_is_never_true(env: EnvV, c: CollectionV, w: Row, parts: Seq<ExprV>)
    requires
        has_false(parts),
    ensures
        all_conditions(env, c, w, parts) == Some(false),
    decreases parts.len(),
{
    let i = choose|i: int|
        0 <= i < parts.len() && #[trigger] parts[i] == ExprV::Leaf(PredicateV::Constant(false));
    let init = parts.drop_last();
    if i < init.len() {
        assert(init[i] == ExprV::Leaf(PredicateV::Constant(false)));
        false_is_never_true(env, c, w, init);
    } else {
        assert(condition_says(env, c, w, parts.last()) == Some(false));
    }
}

/// A `SELECT` answers with rows of the collection that it names, and only with
/// those that its `WHERE` is true of and that its pattern reaches: its filters
/// let no other through, and all of those. Where the `WHERE` is never true, it
/// answers with none. It answers with no more rows than its `LIMIT`.
pub proof fn select_keeps_its_rows(env: EnvV, w: Row, s: SelectStmtV, log: LogV)
    requires
        select_of(env, s, log) is Ok,
        all_searches_fit(s.predicates),
        forall|start: LogV| #![trigger source_of(env, s.source, start)]
            source_of(env, s.source, start) is Ok ==> belongs(
                w,
                source_of(env, s.source, start)->Ok_0.0,
            ),
    ensures
        exists|start: LogV|
            {
                let plan = select_of(env, s, log)->Ok_0.0;
                let (c, first, _) = source_of(env, s.source, start)->Ok_0;
                &&& #[trigger] source_of(env, s.source, start) is Ok
                &&& plan.collection == c.id
                &&& s.source is Table ==> first.len() == 0
                &&& s.source is Graph ==> first.len() == 1 && first[0] == graph_table(
                    env,
                    *s.source->Graph_0,
                    start,
                )->Ok_0.1
                &&& all_conditions(env, c, w, s.predicates) == Some(true) ==> plan.limit == s.limit
                &&& plan.limit == s.limit || plan.limit == Some(0usize)
                &&& plan.limit != Some(0usize) ==> (let_through(w, plan.filters) <==> let_through(
                    w,
                    first,
                ) && all_conditions(env, c, w, s.predicates) == Some(true))
            },
{
    let start = if has_false(s.predicates) {
        log.noted(
            "a constant FALSE predicate: the statement returns no rows, so it compiles to LIMIT 0 -- no driver is stepped and no row is read"@,
        )
    } else {
        log
    };
    let (c, first, mid) = source_of(env, s.source, start)->Ok_0;
    assert(source_of(env, s.source, start) is Ok);
    assert(belongs(w, c));
    if has_false(s.predicates) {
        false_is_never_true(env, c, w, s.predicates);
    } else {
        filters_keep_their_meaning(env, c, w, s.predicates, first, mid);
    }
}

/// An `UPDATE` or `DELETE` at a condition writes to the rows of its table that
/// the condition is true of, and to none where the condition is never true.
pub proof fn writes_keep_their_rows(
    env: EnvV,
    c: CollectionV,
    w: Row,
    u: UpdateWhereV,
    d: DeleteWhereV,
    log: LogV,
)
    requires
        belongs(w, c),
        all_searches_fit(u.predicates),
        all_searches_fit(d.predicates),
    ensures
        update_where_of(env, u, log) is Ok && crate::compile::env::collection_of(
            env.binder.catalog,
            u.table,
        ) == Ok::<CollectionV, SqlErrorV>(c) ==> match update_where_of(env, u, log)->Ok_0.0 {
            WritePlanV::UpdateWhere { collection, filters, .. } => collection == c.id && (
            let_through(w, filters) <==> all_conditions(env, c, w, u.predicates) == Some(true)),
            WritePlanV::Notice(_) => all_conditions(env, c, w, u.predicates) == Some(false),
            _ => false,
        },
        delete_where_of(env, d, log) is Ok && d.table is Some && crate::compile::env::collection_of(
            env.binder.catalog,
            d.table->0,
        ) == Ok::<CollectionV, SqlErrorV>(c) ==> match delete_where_of(env, d, log)->Ok_0.0 {
            WritePlanV::DeleteWhere { collection, filters, cascade, .. } => collection == c.id
                && cascade == d.cascade && (let_through(w, filters) <==> all_conditions(
                env,
                c,
                w,
                d.predicates,
            ) == Some(true)),
            WritePlanV::Notice(_) => all_conditions(env, c, w, d.predicates) == Some(false),
            _ => false,
        },
{
    let none = Seq::<OwnedFilterV>::empty();
    assert(let_through(w, none));
    if update_where_of(env, u, log) is Ok && crate::compile::env::collection_of(
        env.binder.catalog,
        u.table,
    ) == Ok::<CollectionV, SqlErrorV>(c) {
        if has_false(u.predicates) {
            false_is_never_true(env, c, w, u.predicates);
        } else {
            let mid = crate::compile::modify::sets_of(env, c, u.assignments, log)->Ok_0.1;
            filters_keep_their_meaning(env, c, w, u.predicates, none, mid);
        }
    }
    if delete_where_of(env, d, log) is Ok && d.table is Some && crate::compile::env::collection_of(
        env.binder.catalog,
        d.table->0,
    ) == Ok::<CollectionV, SqlErrorV>(c) {
        if has_false(d.predicates) {
            false_is_never_true(env, c, w, d.predicates);
        } else {
            filters_keep_their_meaning(env, c, w, d.predicates, none, log);
        }
    }
}

// ── what is reported ─────────────────────────────────────────────────────

/// What a column of an answer is to report.
pub enum Asked {
    Item(SelectItemV),
    /// A property of the edge that reached the row.
    Edge(Seq<char>),
}

/// The columns that `*` stands for: the declared ones, in order.
pub open spec fn declared_columns(fields: Seq<(Seq<char>, Kind)>) -> Seq<(Seq<char>, Asked)>
    decreases fields.len(),
{
    if fields.len() == 0 {
        Seq::empty()
    } else if is_reserved(fields.last().0) {
        declared_columns(fields.drop_last())
    } else {
        declared_columns(fields.drop_last()).push(
            (fields.last().0, Asked::Item(SelectItemV::Column(fields.last().0))),
        )
    }
}

/// The columns that one item stands for, with their titles.
pub open spec fn asked_by(c: CollectionV, item: SelectItemV, alias: Option<Seq<char>>) -> Seq<
    (Seq<char>, Asked),
> {
    if item is Star {
        declared_columns(c.fields)
    } else {
        seq![
            (
                match alias {
                    Some(a) => a,
                    None => match item {
                        SelectItemV::Id => ID_COLUMN@,
                        SelectItemV::Key => KEY_COLUMN@,
                        SelectItemV::Column(name) => name,
                        SelectItemV::Function(e) => row_expr_text(*e),
                        _ => "score"@,
                    },
                },
                Asked::Item(item),
            ),
        ]
    }
}

/// The columns that a select list stands for.
pub open spec fn asked_by_list(
    c: CollectionV,
    items: Seq<(SelectItemV, Option<Seq<char>>)>,
) -> Seq<(Seq<char>, Asked)>
    decreases items.len(),
{
    if items.len() == 0 {
        Seq::empty()
    } else {
        asked_by_list(c, items.drop_last()) + asked_by(c, items.last().0, items.last().1)
    }
}

/// The columns that a pattern stands for.
pub open spec fn asked_by_pattern(c: CollectionV, items: Seq<(GraphColumnV, Seq<char>)>) -> Seq<
    (Seq<char>, Asked),
>
    decreases items.len(),
{
    if items.len() == 0 {
        Seq::empty()
    } else {
        asked_by_pattern(c, items.drop_last()) + match items.last().0 {
            GraphColumnV::Node(item) => asked_by(c, item, Some(items.last().1)),
            GraphColumnV::Edge(p) => seq![(items.last().1, Asked::Edge(p))],
        }
    }
}

/// What a column is to report of a row; nothing where it has no value.
pub open spec fn reported(
    env: EnvV,
    c: CollectionV,
    cell: spec_fn(Seq<char>) -> SqlValueV,
    row: ReturnedRowV,
    asked: Asked,
) -> Option<SqlValueV> {
    match asked {
        Asked::Edge(p) => Some(cell(EDGE_FIELD_PREFIX@ + p)),
        Asked::Item(SelectItemV::Id) => Some(SqlValueV::Id(row.id)),
        Asked::Item(SelectItemV::Key) => Some(
            match row.key {
                Some(key) => SqlValueV::Text(key),
                None => SqlValueV::Missing,
            },
        ),
        Asked::Item(SelectItemV::Column(name)) => spelled(c, RowExprV::Column(name), cell(name)),
        Asked::Item(SelectItemV::Function(e)) => worth(env, c, cell, *e),
        Asked::Item(_) => Some(row.order),
    }
}

/// What an output of a plan reports of a row.
pub open spec fn put_out(functions: Seq<CompiledRowV>, row: ReturnedRowV, output: Output) -> Option<
    SqlValueV,
> {
    match output {
        Output::Id => Some(SqlValueV::Id(row.id)),
        Output::Key => Some(
            match row.key {
                Some(key) => SqlValueV::Text(key),
                None => SqlValueV::Missing,
            },
        ),
        Output::OrderValue => Some(row.order),
        Output::Field(at) => Some(
            if at < row.fields.len() {
                row.fields[at as int]
            } else {
                SqlValueV::Missing
            },
        ),
        Output::Row(at) => value(functions[at as int], row.fields),
    }
}

/// Whether a list reports the columns that are asked for.
pub open spec fn reports_all(
    env: EnvV,
    c: CollectionV,
    cell: spec_fn(Seq<char>) -> SqlValueV,
    row: ReturnedRowV,
    list: SelectListV,
    asked: Seq<(Seq<char>, Asked)>,
) -> bool {
    &&& list.outputs.len() == asked.len()
    &&& list.columns.len() == asked.len()
    &&& list.functions.len() <= asked.len()
    &&& forall|i: int|
        0 <= i < asked.len() ==> {
            &&& list.columns[i] == (#[trigger] asked[i]).0
            &&& list.outputs[i] is Row ==> list.outputs[i]->Row_0 < list.functions.len()
            &&& put_out(list.functions, row, list.outputs[i]) == reported(
                env,
                c,
                cell,
                row,
                asked[i].1,
            )
        }
}

/// One more column that needs no more functions.
proof fn one_more(
    env: EnvV,
    c: CollectionV,
    cell: spec_fn(Seq<char>) -> SqlValueV,
    row: ReturnedRowV,
    list: SelectListV,
    more: SelectListV,
    asked: Seq<(Seq<char>, Asked)>,
    one: (Seq<char>, Asked),
    output: Output,
)
    requires
        reports_all(env, c, cell, row, list, asked),
        more.columns == list.columns.push(one.0),
        more.outputs == list.outputs.push(output),
        more.functions == list.functions || (exists|f: CompiledRowV| #[trigger]
            list.functions.push(f) == more.functions),
        output is Row ==> output->Row_0 < more.functions.len(),
        put_out(more.functions, row, output) == reported(env, c, cell, row, one.1),
    ensures
        reports_all(env, c, cell, row, more, asked.push(one)),
{
    let all = asked.push(one);
    assert forall|i: int| 0 <= i < all.len() implies {
        &&& more.columns[i] == (#[trigger] all[i]).0
        &&& more.outputs[i] is Row ==> more.outputs[i]->Row_0 < more.functions.len()
        &&& put_out(more.functions, row, more.outputs[i]) == reported(env, c, cell, row, all[i].1)
    } by {
        if i < asked.len() {
            assert(all[i] == asked[i]);
            assert(more.outputs[i] == list.outputs[i]);
            assert(more.columns[i] == list.columns[i]);
            if list.outputs[i] is Row {
                let k = list.outputs[i]->Row_0 as int;
                assert(more.functions[k] == list.functions[k]);
            }
        }
    }
}

proof fn column_shows(
    env: EnvV,
    c: CollectionV,
    cell: spec_fn(Seq<char>) -> SqlValueV,
    row: ReturnedRowV,
    name: Seq<char>,
    title: Seq<char>,
    list: SelectListV,
    log: LogV,
    asked: Seq<(Seq<char>, Asked)>,
)
    requires
        crate::compile::select::column_item(c, name, title, list, log) is Ok,
        ({
            let more = crate::compile::select::column_item(c, name, title, list, log)->Ok_0.0;
            row_holds(cell, more.fields, row.fields) && more.outputs.len() <= usize::MAX
        }),
        reports_all(env, c, cell, row, list, asked),
    ensures
        ({
            let more = crate::compile::select::column_item(c, name, title, list, log)->Ok_0.0;
            reports_all(
                env,
                c,
                cell,
                row,
                more,
                asked.push((title, Asked::Item(SelectItemV::Column(name)))),
            )
        }),
{
    let more = crate::compile::select::column_item(c, name, title, list, log)->Ok_0.0;
    let one = (title, Asked::Item(SelectItemV::Column(name)));
    let (at, fields) = placed(list.fields, name);
    placed_is_there(list.fields, name);
    assert(more.fields == fields);
    assert(row.fields[at as int] == cell(more.fields[at as int]));
    match time_column(c, name)->Ok_0 {
        None => {
            one_more(env, c, cell, row, list, more, asked, one, Output::Field(at));
        },
        Some(declared) => {
            let field = CompiledRowV::Field { at, time: true };
            let date_only = declared == "DATE"@;
            let f = CompiledRowV::Iso { arg: Box::new(field), date_only };
            leaf_value(field, row.fields);
            iso_value(field, date_only, row.fields);
            assert(more.functions == list.functions.push(f));
            let k = list.functions.len() as usize;
            assert(more.functions[k as int] == f);
            one_more(env, c, cell, row, list, more, asked, one, Output::Row(k));
        },
    }
}

proof fn column_grows(
    c: CollectionV,
    name: Seq<char>,
    title: Seq<char>,
    list: SelectListV,
    log: LogV,
)
    requires
        crate::compile::select::column_item(c, name, title, list, log) is Ok,
    ensures
        ({
            let more = crate::compile::select::column_item(c, name, title, list, log)->Ok_0.0;
            begins_with(more.fields, list.fields) && more.outputs.len() == list.outputs.len() + 1
        }),
{
}

proof fn star_grows(
    c: CollectionV,
    fields: Seq<(Seq<char>, Kind)>,
    list: SelectListV,
    log: LogV,
)
    requires
        star_items(c, fields, list, log) is Ok,
    ensures
        begins_with(star_items(c, fields, list, log)->Ok_0.0.fields, list.fields),
        star_items(c, fields, list, log)->Ok_0.0.outputs.len() >= list.outputs.len(),
    decreases fields.len(),
{
    if fields.len() > 0 {
        star_grows(c, fields.drop_last(), list, log);
        let (mid, logged) = star_items(c, fields.drop_last(), list, log)->Ok_0;
        if !is_reserved(fields.last().0) {
            column_grows(c, fields.last().0, fields.last().0, mid, logged);
        }
    }
}

proof fn star_shows(
    env: EnvV,
    c: CollectionV,
    cell: spec_fn(Seq<char>) -> SqlValueV,
    row: ReturnedRowV,
    fields: Seq<(Seq<char>, Kind)>,
    list: SelectListV,
    log: LogV,
    asked: Seq<(Seq<char>, Asked)>,
)
    requires
        star_items(c, fields, list, log) is Ok,
        ({
            let more = star_items(c, fields, list, log)->Ok_0.0;
            row_holds(cell, more.fields, row.fields) && more.outputs.len() <= usize::MAX
        }),
        reports_all(env, c, cell, row, list, asked),
    ensures
        reports_all(
            env,
            c,
            cell,
            row,
            star_items(c, fields, list, log)->Ok_0.0,
            asked + declared_columns(fields),
        ),
    decreases fields.len(),
{
    if fields.len() == 0 {
        assert(asked + declared_columns(fields) =~= asked);
    } else {
        let init = fields.drop_last();
        let (mid, logged) = star_items(c, init, list, log)->Ok_0;
        let more = star_items(c, fields, list, log)->Ok_0.0;
        let name = fields.last().0;
        if is_reserved(name) {
            star_shows(env, c, cell, row, init, list, log, asked);
        } else {
            column_grows(c, name, name, mid, logged);
            fewer_fields(cell, mid.fields, more.fields, row.fields);
            star_shows(env, c, cell, row, init, list, log, asked);
            let sofar = asked + declared_columns(init);
            column_shows(env, c, cell, row, name, name, mid, logged, sofar);
            assert(asked + declared_columns(fields) =~= sofar.push(
                (name, Asked::Item(SelectItemV::Column(name))),
            ));
        }
    }
}

proof fn item_grows(
    env: EnvV,
    c: CollectionV,
    ranked: bool,
    item: SelectItemV,
    alias: Option<Seq<char>>,
    list: SelectListV,
    log: LogV,
)
    requires
        select_item(env, c, ranked, item, alias, list, log) is Ok,
    ensures
        ({
            let more = select_item(env, c, ranked, item, alias, list, log)->Ok_0.0;
            begins_with(more.fields, list.fields) && more.outputs.len() >= list.outputs.len()
        }),
{
    match item {
        SelectItemV::Star => {
            star_grows(c, c.fields, list, log);
        },
        SelectItemV::Function(e) => {
            fields_grow(env, c, *e, list.fields, log);
        },
        _ => {},
    }
}

proof fn item_shows(
    env: EnvV,
    c: CollectionV,
    cell: spec_fn(Seq<char>) -> SqlValueV,
    row: ReturnedRowV,
    ranked: bool,
    item: SelectItemV,
    alias: Option<Seq<char>>,
    list: SelectListV,
    log: LogV,
    asked: Seq<(Seq<char>, Asked)>,
)
    requires
        select_item(env, c, ranked, item, alias, list, log) is Ok,
        ({
            let more = select_item(env, c, ranked, item, alias, list, log)->Ok_0.0;
            row_holds(cell, more.fields, row.fields) && more.outputs.len() <= usize::MAX
        }),
        reports_all(env, c, cell, row, list, asked),
    ensures
        reports_all(
            env,
            c,
            cell,
            row,
            select_item(env, c, ranked, item, alias, list, log)->Ok_0.0,
            asked + asked_by(c, item, alias),
        ),
{
    let more = select_item(env, c, ranked, item, alias, list, log)->Ok_0.0;
    if item is Star {
        star_shows(env, c, cell, row, c.fields, list, log, asked);
    } else {
        let one = asked_by(c, item, alias)[0];
        assert(asked + asked_by(c, item, alias) =~= asked.push(one));
        match item {
            SelectItemV::Id => {
                one_more(env, c, cell, row, list, more, asked, one, Output::Id);
            },
            SelectItemV::Key => {
                one_more(env, c, cell, row, list, more, asked, one, Output::Key);
            },
            SelectItemV::Column(name) => {
                column_shows(env, c, cell, row, name, one.0, list, log, asked);
            },
            SelectItemV::Function(e) => {
                row_expression_keeps_its_meaning(env, c, cell, *e, list.fields, log, row.fields);
                let f = row_function(env, c, *e, list.fields, log)->Ok_0.0;
                let k = list.functions.len() as usize;
                assert(more.functions == list.functions.push(f));
                assert(more.functions[k as int] == f);
                one_more(env, c, cell, row, list, more, asked, one, Output::Row(k));
            },
            _ => {
                one_more(env, c, cell, row, list, more, asked, one, Output::OrderValue);
            },
        }
    }
}

pub open spec fn no_columns() -> SelectListV {
    SelectListV {
        columns: Seq::empty(),
        outputs: Seq::empty(),
        fields: Seq::empty(),
        functions: Seq::empty(),
    }
}

proof fn items_show(
    env: EnvV,
    c: CollectionV,
    cell: spec_fn(Seq<char>) -> SqlValueV,
    row: ReturnedRowV,
    ranked: bool,
    items: Seq<(SelectItemV, Option<Seq<char>>)>,
    log: LogV,
)
    requires
        select_items(env, c, ranked, items, no_columns(), log) is Ok,
        ({
            let more = select_items(env, c, ranked, items, no_columns(), log)->Ok_0.0;
            row_holds(cell, more.fields, row.fields) && more.outputs.len() <= usize::MAX
        }),
    ensures
        reports_all(
            env,
            c,
            cell,
            row,
            select_items(env, c, ranked, items, no_columns(), log)->Ok_0.0,
            asked_by_list(c, items),
        ),
    decreases items.len(),
{
    if items.len() > 0 {
        let init = items.drop_last();
        let (mid, logged) = select_items(env, c, ranked, init, no_columns(), log)->Ok_0;
        let more = select_items(env, c, ranked, items, no_columns(), log)->Ok_0.0;
        let (item, alias) = items.last();
        item_grows(env, c, ranked, item, alias, mid, logged);
        fewer_fields(cell, mid.fields, more.fields, row.fields);
        items_show(env, c, cell, row, ranked, init, log);
        item_shows(env, c, cell, row, ranked, item, alias, mid, logged, asked_by_list(c, init));
    }
}

proof fn pattern_shows(
    env: EnvV,
    c: CollectionV,
    cell: spec_fn(Seq<char>) -> SqlValueV,
    row: ReturnedRowV,
    ranked: bool,
    items: Seq<(GraphColumnV, Seq<char>)>,
    log: LogV,
)
    requires
        graph_items(env, c, ranked, items, no_columns(), log) is Ok,
        ({
            let more = graph_items(env, c, ranked, items, no_columns(), log)->Ok_0.0;
            row_holds(cell, more.fields, row.fields) && more.outputs.len() <= usize::MAX
        }),
    ensures
        reports_all(
            env,
            c,
            cell,
            row,
            graph_items(env, c, ranked, items, no_columns(), log)->Ok_0.0,
            asked_by_pattern(c, items),
        ),
    decreases items.len(),
{
    if items.len() > 0 {
        let init = items.drop_last();
        let (mid, logged) = graph_items(env, c, ranked, init, no_columns(), log)->Ok_0;
        let more = graph_items(env, c, ranked, items, no_columns(), log)->Ok_0.0;
        let (item, title) = items.last();
        let asked = asked_by_pattern(c, init);
        match item {
            GraphColumnV::Node(item) => {
                item_grows(env, c, ranked, item, Some(title), mid, logged);
                fewer_fields(cell, mid.fields, more.fields, row.fields);
                pattern_shows(env, c, cell, row, ranked, init, log);
                item_shows(env, c, cell, row, ranked, item, Some(title), mid, logged, asked);
            },
            GraphColumnV::Edge(p) => {
                let name = EDGE_FIELD_PREFIX@ + p;
                let (at, fields) = placed(mid.fields, name);
                assert(more.fields == fields);
                assert(begins_with(fields, mid.fields));
                placed_is_there(mid.fields, name);
                fewer_fields(cell, mid.fields, more.fields, row.fields);
                pattern_shows(env, c, cell, row, ranked, init, log);
                assert(row.fields[at as int] == cell(more.fields[at as int]));
                let one = (title, Asked::Edge(p));
                one_more(env, c, cell, row, mid, more, asked, one, Output::Field(at));
                assert(asked_by_pattern(c, items) =~= asked.push(one));
            },
        }
    }
}

proof fn values_are_put_out(p: SelectPlanV, row: ReturnedRowV, n: nat)
    requires
        n <= p.outputs.len(),
        output_values(p, row, n) is Ok,
    ensures
        output_values(p, row, n)->Ok_0.len() == n,
        forall|i: int|
            0 <= i < n ==> put_out(p.functions, row, #[trigger] p.outputs[i]) == Some(
                output_values(p, row, n)->Ok_0[i],
            ),
    decreases n,
{
    if n > 0 {
        values_are_put_out(p, row, (n - 1) as nat);
        let done = output_values(p, row, (n - 1) as nat)->Ok_0;
        assert forall|i: int| 0 <= i < n implies put_out(p.functions, row, #[trigger] p.outputs[i])
            == Some(output_values(p, row, n)->Ok_0[i]) by {
            if i == n - 1 {
                assert(output_value(p, row, p.outputs[i]) is Ok);
            }
        }
    }
}

/// The columns that a statement asks for.
pub open spec fn asked_by_statement(c: CollectionV, s: SelectStmtV) -> Seq<(Seq<char>, Asked)> {
    if s.source is Graph {
        asked_by_pattern(c, pattern_columns(s.source))
    } else {
        asked_by_list(c, s.items)
    }
}

/// Each row of an answer reports, under the title of each column that is asked
/// for, what that column asks for of the row.
pub proof fn select_keeps_its_columns(
    env: EnvV,
    cell: spec_fn(Seq<char>) -> SqlValueV,
    row: ReturnedRowV,
    s: SelectStmtV,
    log: LogV,
)
    requires
        select_of(env, s, log) is Ok,
        row_holds(cell, select_of(env, s, log)->Ok_0.0.fields, row.fields),
        select_of(env, s, log)->Ok_0.0.outputs.len() <= usize::MAX,
        answered_row(select_of(env, s, log)->Ok_0.0, row) is Ok,
    ensures
        exists|start: LogV|
            {
                let plan = select_of(env, s, log)->Ok_0.0;
                let c = source_of(env, s.source, start)->Ok_0.0;
                let asked = asked_by_statement(c, s);
                let answer = answered_row(plan, row)->Ok_0;
                &&& #[trigger] source_of(env, s.source, start) is Ok
                &&& answer.id == row.id
                &&& answer.values.len() == asked.len()
                &&& plan.columns.len() == asked.len()
                &&& forall|i: int|
                    0 <= i < asked.len() ==> plan.columns[i] == (#[trigger] asked[i]).0 && reported(
                        env,
                        c,
                        cell,
                        row,
                        asked[i].1,
                    ) == Some(answer.values[i])
            },
{
    let start = if has_false(s.predicates) {
        log.noted(
            "a constant FALSE predicate: the statement returns no rows, so it compiles to LIMIT 0 -- no driver is stepped and no row is read"@,
        )
    } else {
        log
    };
    let plan = select_of(env, s, log)->Ok_0.0;
    let (c, first, l1) = source_of(env, s.source, start)->Ok_0;
    let l2 = select_filters(env, c, s.predicates, first, l1)->Ok_0.1;
    let l3 = crate::compile::select::statement_order(env, c, s, l2)->Ok_0.1;
    let ranked = s.order is Some;
    assert(source_of(env, s.source, start) is Ok);
    if s.source is Graph {
        pattern_shows(env, c, cell, row, ranked, pattern_columns(s.source), l3);
    } else {
        items_show(env, c, cell, row, ranked, s.items, l3);
    }
    values_are_put_out(plan, row, plan.outputs.len());
    let asked = asked_by_statement(c, s);
    let answer = answered_row(plan, row)->Ok_0;
    assert forall|i: int| 0 <= i < asked.len() implies plan.columns[i] == (#[trigger] asked[i]).0
        && reported(env, c, cell, row, asked[i].1) == Some(answer.values[i]) by {
        assert(put_out(plan.functions, row, plan.outputs[i]) == Some(answer.values[i]));
    }
}

} // verus!
