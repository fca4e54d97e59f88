//! A plan asks for no more than it uses: each field once, and every position
//! in its list.

use vstd::prelude::*;
use crate::ast::RowExprV;
use crate::compile::env::{time_column, CollectionV};
use crate::compile::log::{EnvV, LogV};
use crate::compile::plan::{CandidateDriver, Output};
use crate::compile::project::{as_text, name_from, placed, row_function, row_functions};
use crate::compile::ranges::CLOCK;
use crate::compile::row::CompiledRowV;
use crate::compile::select::{
    any_key_filter, column_item, graph_items, has_false, pattern_columns, select_filters,
    select_item, select_items, select_of, source_of, star_items, statement_order, title_or,
    SelectListV,
};
use crate::stmt::{GraphColumnV, SelectItemV, SelectStmtV};
use crate::value::Kind;

verus! {

// ── positions ────────────────────────────────────────────────────────────

/// Whether a row expression reads only the first `n` fields.
pub open spec fn reads_within(x: CompiledRowV, n: nat) -> bool
    decreases x,
{
    match x {
        CompiledRowV::Field { at, .. } => at < n,
        CompiledRowV::Lit(_) => true,
        CompiledRowV::Micros(_) => true,
        CompiledRowV::Extract { arg, .. } => reads_within(*arg, n),
        CompiledRowV::Trunc { arg, .. } => reads_within(*arg, n),
        CompiledRowV::Age { left, right } => reads_within(*left, n) && reads_within(*right, n),
        CompiledRowV::ToChar { arg, .. } => reads_within(*arg, n),
        CompiledRowV::ToTimestamp(arg) => reads_within(*arg, n),
        CompiledRowV::ToDate(arg) => reads_within(*arg, n),
        CompiledRowV::CastDate(arg) => reads_within(*arg, n),
        CompiledRowV::CastText(arg) => reads_within(*arg, n),
        CompiledRowV::Iso { arg, .. } => reads_within(*arg, n),
        CompiledRowV::Str { args, .. } => all_read_within(args, n),
        CompiledRowV::Add(a, b) => reads_within(*a, n) && reads_within(*b, n),
        CompiledRowV::Sub(a, b) => reads_within(*a, n) && reads_within(*b, n),
        CompiledRowV::Concat(a, b) => reads_within(*a, n) && reads_within(*b, n),
    }
}

pub open spec fn all_read_within(args: Seq<CompiledRowV>, n: nat) -> bool
    decreases args,
{
    if args.len() == 0 {
        true
    } else {
        all_read_within(args.drop_last(), n) && reads_within(args.last(), n)
    }
}

proof fn within_more(x: CompiledRowV, m: nat, n: nat)
    requires
        reads_within(x, m),
        m <= n,
    ensures
        reads_within(x, n),
    decreases x,
{
    match x {
        CompiledRowV::Extract { arg, .. } | CompiledRowV::Trunc { arg, .. } | CompiledRowV::ToChar {
            arg,
            ..
        } | CompiledRowV::ToTimestamp(arg) | CompiledRowV::ToDate(arg) | CompiledRowV::CastDate(arg)
        | CompiledRowV::CastText(arg) | CompiledRowV::Iso { arg, .. } => {
            within_more(*arg, m, n);
        },
        CompiledRowV::Age { left, right } => {
            within_more(*left, m, n);
            within_more(*right, m, n);
        },
        CompiledRowV::Str { args, .. } => {
            all_within_more(args, m, n);
        },
        CompiledRowV::Add(a, b) | CompiledRowV::Sub(a, b) | CompiledRowV::Concat(a, b) => {
            within_more(*a, m, n);
            within_more(*b, m, n);
        },
        _ => {},
    }
}

proof fn all_within_more(args: Seq<CompiledRowV>, m: nat, n: nat)
    requires
        all_read_within(args, m),
        m <= n,
    ensures
        all_read_within(args, n),
    decreases args,
{
    if args.len() > 0 {
        all_within_more(args.drop_last(), m, n);
        within_more(args.last(), m, n);
    }
}

// ── fields ───────────────────────────────────────────────────────────────

/// Whether no field is listed twice.
#[verifier::opaque]
pub open spec fn distinct(fields: Seq<Seq<char>>) -> bool {
    fields.no_duplicates()
}

proof fn name_found(list: Seq<Seq<char>>, name: Seq<char>, i: nat)
    ensures
        match name_from(list, name, i) {
            Some(at) => i <= at < list.len() && list[at as int] == name,
            None => forall|k: int| i <= k < list.len() ==> list[k] != name,
        },
    decreases list.len() - i,
{
    if i < list.len() && list[i as int] != name {
        name_found(list, name, i + 1);
    }
}

proof fn place_is_tight(fields: Seq<Seq<char>>, name: Seq<char>)
    ensures
        fields.len() <= placed(fields, name).1.len(),
        distinct(fields) ==> distinct(placed(fields, name).1),
        placed(fields, name).1.len() <= usize::MAX ==> placed(fields, name).0 < placed(
            fields,
            name,
        ).1.len(),
{
    reveal(distinct);
    name_found(fields, name, 0);
}

#[verifier::rlimit(50)]
proof fn row_is_tight(
    env: EnvV,
    c: CollectionV,
    e: RowExprV,
    fields: Seq<Seq<char>>,
    log: LogV,
)
    requires
        row_function(env, c, e, fields, log) is Ok,
    ensures
        ({
            let (x, f, _) = row_function(env, c, e, fields, log)->Ok_0;
            &&& fields.len() <= f.len()
            &&& distinct(fields) ==> distinct(f)
            &&& f.len() <= usize::MAX ==> reads_within(x, f.len())
        }),
    decreases e,
{
    match e {
        RowExprV::Column(name) => {
            place_is_tight(fields, name);
        },
        RowExprV::Extract { arg, .. } | RowExprV::Trunc { arg, .. } | RowExprV::ToChar { arg, .. }
        | RowExprV::ToTimestamp(arg) | RowExprV::ToDate(arg) | RowExprV::CastDate(arg)
        | RowExprV::CastText(arg) => {
            row_is_tight(env, c, *arg, fields, log);
        },
        RowExprV::Age { left, right } => {
            match right {
                None => {
                    row_is_tight(env, c, *left, fields, log.refused(CLOCK@));
                    let n = row_function(env, c, e, fields, log)->Ok_0.1.len();
                    assert(reads_within(CompiledRowV::Micros(env.clock), n));
                },
                Some(right) => {
                    row_is_tight(env, c, *left, fields, log);
                    let (x, f, next) = row_function(env, c, *left, fields, log)->Ok_0;
                    row_is_tight(env, c, *right, f, next);
                    let (y, g, _) = row_function(env, c, *right, f, next)->Ok_0;
                    left_stays_tight(x, f.len(), g.len());
                },
            }
        },
        RowExprV::Str { func, args } => {
            rows_are_tight(env, c, args, fields, log);
        },
        RowExprV::Add(x, y) | RowExprV::Sub(x, y) => {
            row_is_tight(env, c, *x, fields, log);
            let (left, f, next) = row_function(env, c, *x, fields, log)->Ok_0;
            row_is_tight(env, c, *y, f, next);
            let (right, g, _) = row_function(env, c, *y, f, next)->Ok_0;
            left_stays_tight(left, f.len(), g.len());
        },
        RowExprV::Concat(x, y) => {
            row_is_tight(env, c, *x, fields, log);
            let (left, f, next) = row_function(env, c, *x, fields, log)->Ok_0;
            row_is_tight(env, c, *y, f, next);
            let (right, g, _) = row_function(env, c, *y, f, next)->Ok_0;
            left_stays_tight(left, f.len(), g.len());
            text_is_tight(c, *x, left, g.len());
            text_is_tight(c, *y, right, g.len());
        },
        _ => {},
    }
}

proof fn left_stays_tight(x: CompiledRowV, m: nat, n: nat)
    requires
        m <= n,
        m <= usize::MAX ==> reads_within(x, m),
    ensures
        n <= usize::MAX ==> reads_within(x, n),
{
    if n <= usize::MAX {
        within_more(x, m, n);
    }
}

proof fn text_is_tight(c: CollectionV, e: RowExprV, x: CompiledRowV, n: nat)
    requires
        reads_within(x, n) || n > usize::MAX,
    ensures
        reads_within(as_text(c, e, x), n) || n > usize::MAX,
{
}

proof fn rows_are_tight(
    env: EnvV,
    c: CollectionV,
    args: Seq<RowExprV>,
    fields: Seq<Seq<char>>,
    log: LogV,
)
    requires
        row_functions(env, c, args, fields, log) is Ok,
    ensures
        ({
            let (x, f, _) = row_functions(env, c, args, fields, log)->Ok_0;
            &&& fields.len() <= f.len()
            &&& distinct(fields) ==> distinct(f)
            &&& f.len() <= usize::MAX ==> all_read_within(x, f.len())
        }),
    decreases args,
{
    if args.len() > 0 {
        rows_are_tight(env, c, args.drop_last(), fields, log);
        let (done, f, next) = row_functions(env, c, args.drop_last(), fields, log)->Ok_0;
        row_is_tight(env, c, args.last(), f, next);
        let (x, g, _) = row_function(env, c, args.last(), f, next)->Ok_0;
        let all = row_functions(env, c, args, fields, log)->Ok_0.0;
        assert(all.drop_last() =~= done);
        text_is_tight(c, args.last(), x, g.len());
        if g.len() <= usize::MAX {
            all_within_more(done, f.len(), g.len());
        }
    }
}

// ── select lists ─────────────────────────────────────────────────────────

/// Whether a list of outputs reads each field once, and only fields and
/// functions that are there.
pub open spec fn reads_once(
    fields: Seq<Seq<char>>,
    outputs: Seq<Output>,
    functions: Seq<CompiledRowV>,
) -> bool {
    &&& distinct(fields)
    &&& forall|k: int|
        0 <= k < outputs.len() ==> (#[trigger] outputs[k] matches Output::Field(at) ==> at
            < fields.len())
    &&& forall|k: int|
        0 <= k < functions.len() ==> reads_within(#[trigger] functions[k], fields.len())
}

spec fn tight(l: SelectListV) -> bool {
    l.fields.len() <= usize::MAX ==> reads_once(l.fields, l.outputs, l.functions)
}

/// One more output, over fields that have grown.
proof fn output_added(
    l: SelectListV,
    fields: Seq<Seq<char>>,
    functions: Seq<CompiledRowV>,
    title: Seq<char>,
    output: Output,
)
    requires
        tight(l),
        l.fields.len() <= fields.len(),
        distinct(l.fields) ==> distinct(fields),
        fields.len() <= usize::MAX ==> (output matches Output::Field(at) ==> at < fields.len()),
        functions == l.functions || (functions.len() == l.functions.len() + 1
            && functions.drop_last() == l.functions && (fields.len() <= usize::MAX ==> reads_within(
            functions.last(),
            fields.len(),
        ))),
    ensures
        tight((SelectListV { fields, functions, ..l }).with(title, output)),
{
    if fields.len() <= usize::MAX {
        let outputs = l.outputs.push(output);
        assert forall|k: int| 0 <= k < outputs.len() implies (#[trigger] outputs[k] matches Output::Field(
            at,
        ) ==> at < fields.len()) by {
            if k < l.outputs.len() {
                assert(outputs[k] == l.outputs[k]);
            }
        }
        assert forall|k: int| 0 <= k < functions.len() implies reads_within(
            #[trigger] functions[k],
            fields.len(),
        ) by {
            if k < l.functions.len() {
                assert(functions[k] == l.functions[k]);
                within_more(l.functions[k], l.fields.len(), fields.len());
            }
        }
    }
}

proof fn column_is_tight(
    c: CollectionV,
    name: Seq<char>,
    title: Seq<char>,
    list: SelectListV,
    log: LogV,
)
    requires
        tight(list),
        column_item(c, name, title, list, log) is Ok,
    ensures
        tight(column_item(c, name, title, list, log)->Ok_0.0),
{
    place_is_tight(list.fields, name);
    let (at, fields) = placed(list.fields, name);
    output_added(list, fields, list.functions, title, Output::Field(at));
    if let Ok(Some(declared)) = time_column(c, name) {
        let read = CompiledRowV::Field { at, time: true };
        let f = CompiledRowV::Iso { arg: Box::new(read), date_only: declared == "DATE"@ };
        if fields.len() <= usize::MAX {
            assert(reads_within(read, fields.len()));
        }
        assert(list.functions.push(f).drop_last() =~= list.functions);
        output_added(
            list,
            fields,
            list.functions.push(f),
            title,
            Output::Row(list.functions.len() as usize),
        );
    }
}

proof fn star_is_tight(c: CollectionV, fields: Seq<(Seq<char>, Kind)>, list: SelectListV, log: LogV)
    requires
        tight(list),
        star_items(c, fields, list, log) is Ok,
    ensures
        tight(star_items(c, fields, list, log)->Ok_0.0),
    decreases fields.len(),
{
    if fields.len() > 0 {
        star_is_tight(c, fields.drop_last(), list, log);
        let (done, next) = star_items(c, fields.drop_last(), list, log)->Ok_0;
        if !crate::compile::select::is_reserved(fields.last().0) {
            column_is_tight(c, fields.last().0, fields.last().0, done, next);
        }
    }
}

proof fn item_is_tight(
    env: EnvV,
    c: CollectionV,
    ranked: bool,
    item: SelectItemV,
    alias: Option<Seq<char>>,
    list: SelectListV,
    log: LogV,
)
    requires
        tight(list),
        select_item(env, c, ranked, item, alias, list, log) is Ok,
    ensures
        tight(select_item(env, c, ranked, item, alias, list, log)->Ok_0.0),
{
    match item {
        SelectItemV::Star => {
            star_is_tight(c, c.fields, list, log);
        },
        SelectItemV::Column(name) => {
            column_is_tight(c, name, title_or(alias, name), list, log);
        },
        SelectItemV::Function(e) => {
            row_is_tight(env, c, *e, list.fields, log);
            let (x, fields, _) = row_function(env, c, *e, list.fields, log)->Ok_0;
            assert(list.functions.push(x).drop_last() =~= list.functions);
            output_added(
                list,
                fields,
                list.functions.push(x),
                title_or(alias, crate::ast::row_expr_text(*e)),
                Output::Row(list.functions.len() as usize),
            );
        },
        SelectItemV::Id => {
            output_added(
                list,
                list.fields,
                list.functions,
                title_or(alias, crate::compile::env::ID_COLUMN@),
                Output::Id,
            );
        },
        SelectItemV::Key => {
            output_added(
                list,
                list.fields,
                list.functions,
                title_or(alias, crate::compile::env::KEY_COLUMN@),
                Output::Key,
            );
        },
        _ => {
            output_added(
                list,
                list.fields,
                list.functions,
                title_or(alias, "score"@),
                Output::OrderValue,
            );
        },
    }
}

proof fn items_are_tight(
    env: EnvV,
    c: CollectionV,
    ranked: bool,
    items: Seq<(SelectItemV, Option<Seq<char>>)>,
    list: SelectListV,
    log: LogV,
)
    requires
        tight(list),
        select_items(env, c, ranked, items, list, log) is Ok,
    ensures
        tight(select_items(env, c, ranked, items, list, log)->Ok_0.0),
    decreases items.len(),
{
    if items.len() > 0 {
        items_are_tight(env, c, ranked, items.drop_last(), list, log);
        let (done, next) = select_items(env, c, ranked, items.drop_last(), list, log)->Ok_0;
        item_is_tight(env, c, ranked, items.last().0, items.last().1, done, next);
    }
}

proof fn columns_are_tight(
    env: EnvV,
    c: CollectionV,
    ranked: bool,
    items: Seq<(GraphColumnV, Seq<char>)>,
    list: SelectListV,
    log: LogV,
)
    requires
        tight(list),
        graph_items(env, c, ranked, items, list, log) is Ok,
    ensures
        tight(graph_items(env, c, ranked, items, list, log)->Ok_0.0),
    decreases items.len(),
{
    if items.len() > 0 {
        columns_are_tight(env, c, ranked, items.drop_last(), list, log);
        let (done, next) = graph_items(env, c, ranked, items.drop_last(), list, log)->Ok_0;
        match items.last().0 {
            GraphColumnV::Node(item) => {
                item_is_tight(env, c, ranked, item, Some(items.last().1), done, next);
            },
            GraphColumnV::Edge(property) => {
                let name = crate::compile::select::EDGE_FIELD_PREFIX@ + property;
                place_is_tight(done.fields, name);
                let (at, fields) = placed(done.fields, name);
                output_added(done, fields, done.functions, items.last().1, Output::Field(at));
            },
        }
    }
}

/// The plan of a `SELECT` reads each field once; every field that an output or
/// a function names is one that it reads; and keys drive it only where a filter
/// is one over keys. (A list of fields is no longer than a machine can count.)
pub proof fn select_plan_is_tight(env: EnvV, s: SelectStmtV, log: LogV)
    requires
        select_of(env, s, log) is Ok,
        select_of(env, s, log)->Ok_0.0.fields.len() <= usize::MAX,
    ensures
        ({
            let p = select_of(env, s, log)->Ok_0.0;
            &&& p.fields.no_duplicates()
            &&& reads_once(p.fields, p.outputs, p.functions)
            &&& p.driver == CandidateDriver::Keys ==> any_key_filter(p.filters)
        }),
{
    let start = if has_false(s.predicates) {
        log.noted(
            "a constant FALSE predicate: the statement returns no rows, so it compiles to LIMIT 0 -- no driver is stepped and no row is read"@,
        )
    } else {
        log
    };
    let (c, first, l1) = source_of(env, s.source, start)->Ok_0;
    let (filters, l2) = select_filters(env, c, s.predicates, first, l1)->Ok_0;
    let (order, l3) = statement_order(env, c, s, l2)->Ok_0;
    let empty = SelectListV {
        columns: Seq::empty(),
        outputs: Seq::empty(),
        fields: Seq::empty(),
        functions: Seq::empty(),
    };
    reveal(distinct);
    assert(tight(empty));
    if s.source is Graph {
        columns_are_tight(env, c, s.order is Some, pattern_columns(s.source), empty, l3);
    } else {
        items_are_tight(env, c, s.order is Some, s.items, empty, l3);
    }
}

} // verus!
