//! `SELECT`: the row path.

use vstd::prelude::*;
use crate::ast::{agg_func_text, row_expr_text, Expr, ExprV, Predicate, PredicateV};
use crate::compile::env::{
    collection_of, time_column, Collection, CollectionV, ID_COLUMN, KEY_COLUMN,
};
use crate::compile::graph::{graph_ok, graph_table};
use crate::compile::log::{logged, Env, EnvV, Log, LogV};
use crate::compile::order::order_of;
use crate::compile::plan::{
    CandidateDriver, Output, OwnedFilter, OwnedFilterV, OwnedOrder, OwnedOrderV, SelectPlan,
    SelectPlanV,
};
use crate::compile::predicates::{exprs_ok, exprs_ok_each, where_filter, Filters};
use crate::compile::project::{place, placed, row_function};
use crate::compile::row::{CompiledRow, CompiledRowV};
use crate::error::{SqlError, SqlErrorV, Tier};
use crate::lists::{mapped_push, take_all, take_next};
use crate::scan::{begins, stands_at};
use crate::stmt::{
    GraphColumn, GraphColumnV, OrderKey, OrderKeyV, SelectItem, SelectItemV, SelectStmt,
    SelectStmtV, Source, SourceV,
};
use crate::text::{cat2, cat5, decimal, decimal_i64, owned, same, texts};
use crate::value::Kind;

verus! {

/// The spelling of a projected property of the reaching edge.
pub const EDGE_FIELD_PREFIX: &'static str = "@edge.";

/// Why `FROM ALL` is refused.
pub const FROM_ALL: &'static str = "QL_CONTRACT §2: FROM ALL names every collection at once, and a plan walks the candidates of one.";

// ── the select list ──────────────────────────────────────────────────────

/// A select list under construction.
#[derive(Debug)]
pub struct SelectList {
    pub columns: Vec<String>,
    pub outputs: Vec<Output>,
    pub fields: Vec<String>,
    pub functions: Vec<CompiledRow>,
}

pub struct SelectListV {
    pub columns: Seq<Seq<char>>,
    pub outputs: Seq<Output>,
    pub fields: Seq<Seq<char>>,
    pub functions: Seq<CompiledRowV>,
}

impl DeepView for SelectList {
    type V = SelectListV;

    open spec fn deep_view(&self) -> SelectListV {
        SelectListV {
            columns: texts(self.columns@),
            outputs: self.outputs@,
            fields: texts(self.fields@),
            functions: self.functions.deep_view(),
        }
    }
}

impl SelectListV {
    /// One more column that hands a value through.
    pub open spec fn with(self, title: Seq<char>, output: Output) -> SelectListV {
        SelectListV {
            columns: self.columns.push(title),
            outputs: self.outputs.push(output),
            ..self
        }
    }

    /// One more column that projects the field `name`.
    pub open spec fn with_field(self, title: Seq<char>, name: Seq<char>) -> SelectListV {
        let (at, fields) = placed(self.fields, name);
        SelectListV { fields, ..self }.with(title, Output::Field(at))
    }

    /// One more column that is a row function over `fields`.
    pub open spec fn with_function(
        self,
        title: Seq<char>,
        function: CompiledRowV,
        fields: Seq<Seq<char>>,
    ) -> SelectListV {
        SelectListV { fields, functions: self.functions.push(function), ..self }.with(
            title,
            Output::Row(self.functions.len() as usize),
        )
    }
}

impl SelectList {
    pub fn new() -> (r: SelectList)
        ensures
            r.deep_view() == (SelectListV {
                columns: Seq::empty(),
                outputs: Seq::empty(),
                fields: Seq::empty(),
                functions: Seq::empty(),
            }),
    {
        let r = SelectList {
            columns: Vec::new(),
            outputs: Vec::new(),
            fields: Vec::new(),
            functions: Vec::new(),
        };
        assert(texts(r.columns@) =~= Seq::<Seq<char>>::empty());
        assert(texts(r.fields@) =~= Seq::<Seq<char>>::empty());
        assert(r.functions.deep_view() =~= Seq::<CompiledRowV>::empty());
        r
    }

    fn push(&mut self, title: String, output: Output)
        ensures
            final(self).deep_view() == old(self).deep_view().with(title@, output),
    {
        proof {
            mapped_push(self.columns@, title, |s: String| s@);
        }
        self.columns.push(title);
        self.outputs.push(output);
    }

    fn push_field(&mut self, title: String, name: &str)
        ensures
            final(self).deep_view() == old(self).deep_view().with_field(title@, name@),
    {
        let at = place(&mut self.fields, name);
        self.push(title, Output::Field(at));
    }

    fn push_function(&mut self, title: String, function: CompiledRow)
        ensures
            final(self).deep_view() == old(self).deep_view().with_function(
                title@,
                function.deep_view(),
                texts(old(self).fields@),
            ),
    {
        let at: usize = self.functions.len();
        let ghost before = self.functions.deep_view();
        self.functions.push(function);
        assert(self.functions.deep_view() =~= before.push(function.deep_view()));
        self.push(title, Output::Row(at));
    }
}

/// Whether `r`, the list and the log are the outcome `want`.
pub open spec fn lists(
    r: Result<(), SqlError>,
    list: SelectList,
    log: Log,
    want: Result<(SelectListV, LogV), SqlErrorV>,
) -> bool {
    match want {
        Ok((l, g)) => r is Ok && list.deep_view() == l && log.deep_view() == g,
        Err(e) => r is Err && r->Err_0.deep_view() == e,
    }
}

/// A column of the collection. A declared instant is printed as ISO text,
/// whether it was named or came with `*`.
pub open spec fn column_item(
    c: CollectionV,
    name: Seq<char>,
    title: Seq<char>,
    list: SelectListV,
    log: LogV,
) -> Result<(SelectListV, LogV), SqlErrorV> {
    match time_column(c, name) {
        Err(e) => Err(e),
        Ok(None) => Ok((list.with_field(title, name), log)),
        Ok(Some(declared)) => {
            let (at, fields) = placed(list.fields, name);
            Ok(
                (
                    list.with_function(
                        title,
                        CompiledRowV::Iso {
                            arg: Box::new(CompiledRowV::Field { at, time: true }),
                            date_only: declared == "DATE"@,
                        },
                        fields,
                    ),
                    log.listed(
                        name + " -> ISO-8601 text (declared "@ + declared
                            + ", stored Int microseconds)"@,
                    ),
                ),
            )
        },
    }
}

/// Whether a field is one of the engine's own.
pub open spec fn is_reserved(name: Seq<char>) -> bool {
    stands_at(name, "__e4"@, 0)
}

/// `*`: the declared fields, in order.
pub open spec fn star_items(
    c: CollectionV,
    fields: Seq<(Seq<char>, Kind)>,
    list: SelectListV,
    log: LogV,
) -> Result<(SelectListV, LogV), SqlErrorV>
    decreases fields.len(),
{
    if fields.len() == 0 {
        Ok((list, log))
    } else {
        match star_items(c, fields.drop_last(), list, log) {
            Err(e) => Err(e),
            Ok((list, log)) => if is_reserved(fields.last().0) {
                Ok((list, log))
            } else {
                column_item(c, fields.last().0, fields.last().0, list, log)
            },
        }
    }
}

pub open spec fn title_or(alias: Option<Seq<char>>, other: Seq<char>) -> Seq<char> {
    match alias {
        Some(a) => a,
        None => other,
    }
}

/// One item of a select list; `ranked` says whether the statement has an
/// `ORDER BY`.
pub open spec fn select_item(
    env: EnvV,
    c: CollectionV,
    ranked: bool,
    item: SelectItemV,
    alias: Option<Seq<char>>,
    list: SelectListV,
    log: LogV,
) -> Result<(SelectListV, LogV), SqlErrorV> {
    match item {
        SelectItemV::Star => star_items(c, c.fields, list, log),
        SelectItemV::Id => Ok((list.with(title_or(alias, ID_COLUMN@), Output::Id), log)),
        SelectItemV::Key => Ok((list.with(title_or(alias, KEY_COLUMN@), Output::Key), log)),
        SelectItemV::Column(name) => column_item(c, name, title_or(alias, name), list, log),
        SelectItemV::Function(expr) => match row_function(env, c, *expr, list.fields, log) {
            Err(e) => Err(e),
            Ok((compiled, fields, log)) => {
                let written = row_expr_text(*expr);
                Ok(
                    (
                        list.with_function(title_or(alias, written), compiled, fields),
                        log.listed(
                            written
                                + " -> evaluated over this row's projected values, after the index-side stage (cost is proportional to the rows RETURNED)"@,
                        ),
                    ),
                )
            },
        },
        SelectItemV::OrderValue(what) => ranking_item(ranked, what, alias, list, log),
        SelectItemV::Divided { column, divisor } => ranking_item(
            ranked,
            "`"@ + column + " / "@ + decimal(divisor as int) + "`"@,
            alias,
            list,
            log,
        ),
        SelectItemV::Aggregate { function, .. } => Err(
            SqlErrorV::Unsupported(
                agg_func_text(function) + "() in a select list that is not a folded answer"@,
            ),
        ),
    }
}

/// An expression of a select list: the statement's own ranking value.
pub open spec fn ranking_item(
    ranked: bool,
    what: Seq<char>,
    alias: Option<Seq<char>>,
    list: SelectListV,
    log: LogV,
) -> Result<(SelectListV, LogV), SqlErrorV> {
    if !ranked {
        Err(
            SqlErrorV::Unsupported(
                what
                    + " in a select list: the only expression a row can report here is this statement's own ranking value, and this statement has no ORDER BY"@,
            ),
        )
    } else {
        Ok((list.with(title_or(alias, "score"@), Output::OrderValue), log))
    }
}

/// The items of a select list.
pub open spec fn select_items(
    env: EnvV,
    c: CollectionV,
    ranked: bool,
    items: Seq<(SelectItemV, Option<Seq<char>>)>,
    list: SelectListV,
    log: LogV,
) -> Result<(SelectListV, LogV), SqlErrorV>
    decreases items.len(),
{
    if items.len() == 0 {
        Ok((list, log))
    } else {
        match select_items(env, c, ranked, items.drop_last(), list, log) {
            Err(e) => Err(e),
            Ok((list, log)) => select_item(
                env,
                c,
                ranked,
                items.last().0,
                items.last().1,
                list,
                log,
            ),
        }
    }
}

/// The `COLUMNS` entries of a pattern.
pub open spec fn graph_items(
    env: EnvV,
    c: CollectionV,
    ranked: bool,
    items: Seq<(GraphColumnV, Seq<char>)>,
    list: SelectListV,
    log: LogV,
) -> Result<(SelectListV, LogV), SqlErrorV>
    decreases items.len(),
{
    if items.len() == 0 {
        Ok((list, log))
    } else {
        match graph_items(env, c, ranked, items.drop_last(), list, log) {
            Err(e) => Err(e),
            Ok((list, log)) => match items.last().0 {
                GraphColumnV::Node(item) => select_item(
                    env,
                    c,
                    ranked,
                    item,
                    Some(items.last().1),
                    list,
                    log,
                ),
                GraphColumnV::Edge(property) => Ok(
                    (list.with_field(items.last().1, EDGE_FIELD_PREFIX@ + property), log),
                ),
            },
        }
    }
}

proof fn star_items_stop(
    c: CollectionV,
    fields: Seq<(Seq<char>, Kind)>,
    list: SelectListV,
    log: LogV,
    n: int,
)
    requires
        0 <= n <= fields.len(),
        star_items(c, fields.take(n), list, log) is Err,
    ensures
        star_items(c, fields, list, log) == star_items(c, fields.take(n), list, log),
    decreases fields.len() - n,
{
    if n < fields.len() {
        take_next(fields, n);
        star_items_stop(c, fields, list, log, n + 1);
    } else {
        take_all(fields);
    }
}

proof fn select_items_stop(
    env: EnvV,
    c: CollectionV,
    ranked: bool,
    items: Seq<(SelectItemV, Option<Seq<char>>)>,
    list: SelectListV,
    log: LogV,
    n: int,
)
    requires
        0 <= n <= items.len(),
        select_items(env, c, ranked, items.take(n), list, log) is Err,
    ensures
        select_items(env, c, ranked, items, list, log) == select_items(
            env,
            c,
            ranked,
            items.take(n),
            list,
            log,
        ),
    decreases items.len() - n,
{
    if n < items.len() {
        take_next(items, n);
        select_items_stop(env, c, ranked, items, list, log, n + 1);
    } else {
        take_all(items);
    }
}

proof fn graph_items_stop(
    env: EnvV,
    c: CollectionV,
    ranked: bool,
    items: Seq<(GraphColumnV, Seq<char>)>,
    list: SelectListV,
    log: LogV,
    n: int,
)
    requires
        0 <= n <= items.len(),
        graph_items(env, c, ranked, items.take(n), list, log) is Err,
    ensures
        graph_items(env, c, ranked, items, list, log) == graph_items(
            env,
            c,
            ranked,
            items.take(n),
            list,
            log,
        ),
    decreases items.len() - n,
{
    if n < items.len() {
        take_next(items, n);
        graph_items_stop(env, c, ranked, items, list, log, n + 1);
    } else {
        take_all(items);
    }
}

/// The title of an output: its alias, where it has one.
pub fn titled(alias: &Option<String>, other: &str) -> (r: String)
    ensures
        r@ == title_or(alias.deep_view(), other@),
{
    match alias {
        Some(a) => a.clone(),
        None => owned(other),
    }
}

impl<'a> Env<'a> {
    fn column_item(
        &self,
        c: &Collection,
        name: &str,
        title: String,
        list: &mut SelectList,
        log: &mut Log,
    ) -> (r: Result<(), SqlError>)
        ensures
            lists(
                r,
                *final(list),
                *final(log),
                column_item(
                    c.deep_view(),
                    name@,
                    title@,
                    old(list).deep_view(),
                    old(log).deep_view(),
                ),
            ),
    {
        match c.time_column(name)? {
            None => {
                list.push_field(title, name);
            },
            Some(declared) => {
                let at = place(&mut list.fields, name);
                log.list(
                    crate::text::cat4(
                        name,
                        " -> ISO-8601 text (declared ",
                        declared.as_str(),
                        ", stored Int microseconds)",
                    ),
                );
                let field = CompiledRow::Field { at, time: true };
                assert(field.deep_view() == (CompiledRowV::Field { at, time: true }));
                let function = CompiledRow::Iso {
                    arg: Box::new(field),
                    date_only: same(declared.as_str(), "DATE"),
                };
                list.push_function(title, function);
            },
        }
        Ok(())
    }

    fn star_items(&self, c: &Collection, list: &mut SelectList, log: &mut Log) -> (r: Result<
        (),
        SqlError,
    >)
        ensures
            lists(
                r,
                *final(list),
                *final(log),
                star_items(
                    c.deep_view(),
                    c.deep_view().fields,
                    old(list).deep_view(),
                    old(log).deep_view(),
                ),
            ),
    {
        let ghost all = c.fields.deep_view();
        let ghost start = list.deep_view();
        let ghost start_log = log.deep_view();
        let mut i: usize = 0;
        assert(all.take(0) =~= Seq::<(Seq<char>, Kind)>::empty());
        while i < c.fields.len()
            invariant
                i <= c.fields@.len(),
                all == c.fields.deep_view(),
                start == old(list).deep_view(),
                start_log == old(log).deep_view(),
                star_items(c.deep_view(), all.take(i as int), start, start_log) == Ok::<
                    (SelectListV, LogV),
                    SqlErrorV,
                >((list.deep_view(), log.deep_view())),
            decreases c.fields@.len() - i,
        {
            proof {
                take_next(all, i as int);
            }
            let name = c.fields[i].0.as_str();
            assert(all[i as int].0 == name@);
            if !begins(name, "__e4") {
                match self.column_item(c, name, owned(name), list, log) {
                    Ok(()) => {},
                    Err(e) => {
                        proof {
                            star_items_stop(c.deep_view(), all, start, start_log, i as int + 1);
                        }
                        return Err(e);
                    },
                }
            }
            i = i + 1;
        }
        proof {
            take_all(all);
        }
        Ok(())
    }

    fn ranking_item(
        &self,
        ranked: bool,
        what: &str,
        alias: &Option<String>,
        list: &mut SelectList,
        log: &mut Log,
    ) -> (r: Result<(), SqlError>)
        ensures
            lists(
                r,
                *final(list),
                *final(log),
                ranking_item(
                    ranked,
                    what@,
                    alias.deep_view(),
                    old(list).deep_view(),
                    old(log).deep_view(),
                ),
            ),
    {
        if !ranked {
            return Err(
                SqlError::Unsupported(
                    cat2(
                        what,
                        " in a select list: the only expression a row can report here is this statement's own ranking value, and this statement has no ORDER BY",
                    ),
                ),
            );
        }
        list.push(titled(alias, "score"), Output::OrderValue);
        Ok(())
    }

    /// One item of a select list.
    pub fn select_item(
        &self,
        c: &Collection,
        ranked: bool,
        item: &SelectItem,
        alias: &Option<String>,
        list: &mut SelectList,
        log: &mut Log,
    ) -> (r: Result<(), SqlError>)
        ensures
            lists(
                r,
                *final(list),
                *final(log),
                select_item(
                    self.deep_view(),
                    c.deep_view(),
                    ranked,
                    item.deep_view(),
                    alias.deep_view(),
                    old(list).deep_view(),
                    old(log).deep_view(),
                ),
            ),
    {
        match item {
            SelectItem::Star => self.star_items(c, list, log),
            SelectItem::Id => {
                list.push(titled(alias, ID_COLUMN), Output::Id);
                Ok(())
            },
            SelectItem::Key => {
                list.push(titled(alias, KEY_COLUMN), Output::Key);
                Ok(())
            },
            SelectItem::Column(name) => {
                let title = titled(alias, name.as_str());
                self.column_item(c, name.as_str(), title, list, log)
            },
            SelectItem::Function(expr) => {
                let compiled = self.row_function(c, expr, &mut list.fields, log)?;
                let written = expr.written();
                log.list(
                    cat2(
                        written.as_str(),
                        " -> evaluated over this row's projected values, after the index-side stage (cost is proportional to the rows RETURNED)",
                    ),
                );
                let title = titled(alias, written.as_str());
                list.push_function(title, compiled);
                Ok(())
            },
            SelectItem::OrderValue(what) => self.ranking_item(
                ranked,
                what.as_str(),
                alias,
                list,
                log,
            ),
            SelectItem::Divided { column, divisor } => {
                let what = cat5(
                    "`",
                    column.as_str(),
                    " / ",
                    decimal_i64(*divisor).as_str(),
                    "`",
                );
                self.ranking_item(ranked, what.as_str(), alias, list, log)
            },
            SelectItem::Aggregate { function, .. } => Err(
                SqlError::Unsupported(
                    cat2(function.written(), "() in a select list that is not a folded answer"),
                ),
            ),
        }
    }

    fn select_items(
        &self,
        c: &Collection,
        ranked: bool,
        items: &Vec<(SelectItem, Option<String>)>,
        list: &mut SelectList,
        log: &mut Log,
    ) -> (r: Result<(), SqlError>)
        ensures
            lists(
                r,
                *final(list),
                *final(log),
                select_items(
                    self.deep_view(),
                    c.deep_view(),
                    ranked,
                    items.deep_view(),
                    old(list).deep_view(),
                    old(log).deep_view(),
                ),
            ),
    {
        let ghost all = items.deep_view();
        let ghost start = list.deep_view();
        let ghost start_log = log.deep_view();
        let mut i: usize = 0;
        assert(all.take(0) =~= Seq::<(SelectItemV, Option<Seq<char>>)>::empty());
        while i < items.len()
            invariant
                i <= items@.len(),
                all == items.deep_view(),
                start == old(list).deep_view(),
                start_log == old(log).deep_view(),
                select_items(
                    self.deep_view(),
                    c.deep_view(),
                    ranked,
                    all.take(i as int),
                    start,
                    start_log,
                ) == Ok::<(SelectListV, LogV), SqlErrorV>((list.deep_view(), log.deep_view())),
            decreases items@.len() - i,
        {
            proof {
                take_next(all, i as int);
                assert(all[i as int] == items@[i as int].deep_view());
            }
            match self.select_item(c, ranked, &items[i].0, &items[i].1, list, log) {
                Ok(()) => {},
                Err(e) => {
                    proof {
                        select_items_stop(
                            self.deep_view(),
                            c.deep_view(),
                            ranked,
                            all,
                            start,
                            start_log,
                            i as int + 1,
                        );
                    }
                    return Err(e);
                },
            }
            i = i + 1;
        }
        proof {
            take_all(all);
        }
        Ok(())
    }

    fn graph_items(
        &self,
        c: &Collection,
        ranked: bool,
        items: &Vec<(GraphColumn, String)>,
        list: &mut SelectList,
        log: &mut Log,
    ) -> (r: Result<(), SqlError>)
        ensures
            lists(
                r,
                *final(list),
                *final(log),
                graph_items(
                    self.deep_view(),
                    c.deep_view(),
                    ranked,
                    items.deep_view(),
                    old(list).deep_view(),
                    old(log).deep_view(),
                ),
            ),
    {
        let ghost all = items.deep_view();
        let ghost start = list.deep_view();
        let ghost start_log = log.deep_view();
        let mut i: usize = 0;
        assert(all.take(0) =~= Seq::<(GraphColumnV, Seq<char>)>::empty());
        while i < items.len()
            invariant
                i <= items@.len(),
                all == items.deep_view(),
                start == old(list).deep_view(),
                start_log == old(log).deep_view(),
                graph_items(
                    self.deep_view(),
                    c.deep_view(),
                    ranked,
                    all.take(i as int),
                    start,
                    start_log,
                ) == Ok::<(SelectListV, LogV), SqlErrorV>((list.deep_view(), log.deep_view())),
            decreases items@.len() - i,
        {
            proof {
                take_next(all, i as int);
                assert(all[i as int] == items@[i as int].deep_view());
            }
            let alias = items[i].1.clone();
            match &items[i].0 {
                GraphColumn::Edge(property) => {
                    let field = cat2(EDGE_FIELD_PREFIX, property.as_str());
                    list.push_field(alias, field.as_str());
                },
                GraphColumn::Node(item) => {
                    match self.select_item(c, ranked, item, &Some(alias), list, log) {
                        Ok(()) => {},
                        Err(e) => {
                            proof {
                                graph_items_stop(
                                    self.deep_view(),
                                    c.deep_view(),
                                    ranked,
                                    all,
                                    start,
                                    start_log,
                                    i as int + 1,
                                );
                            }
                            return Err(e);
                        },
                    }
                },
            }
            i = i + 1;
        }
        proof {
            take_all(all);
        }
        Ok(())
    }
}

// ── WHERE ────────────────────────────────────────────────────────────────

pub open spec fn is_constant(e: ExprV) -> bool {
    e matches ExprV::Leaf(PredicateV::Constant(_))
}

/// Whether a conjunct is the constant FALSE.
pub open spec fn has_false(parts: Seq<ExprV>) -> bool {
    exists|i: int| 0 <= i < parts.len() && #[trigger] parts[i] == ExprV::Leaf(PredicateV::Constant(false))
}

/// The filters of the conjuncts that are no constants, behind `first`.
pub open spec fn select_filters(
    env: EnvV,
    c: CollectionV,
    parts: Seq<ExprV>,
    first: Seq<OwnedFilterV>,
    log: LogV,
) -> Result<(Seq<OwnedFilterV>, LogV), SqlErrorV>
    decreases parts.len(),
{
    if parts.len() == 0 {
        Ok((first, log))
    } else {
        match select_filters(env, c, parts.drop_last(), first, log) {
            Err(e) => Err(e),
            Ok((done, log)) => if is_constant(parts.last()) {
                Ok((done, log))
            } else {
                match where_filter(env, c, parts.last(), log) {
                    Err(e) => Err(e),
                    Ok((f, log)) => Ok((done.push(f), log)),
                }
            },
        }
    }
}

proof fn select_filters_stop(
    env: EnvV,
    c: CollectionV,
    parts: Seq<ExprV>,
    first: Seq<OwnedFilterV>,
    log: LogV,
    n: int,
)
    requires
        0 <= n <= parts.len(),
        select_filters(env, c, parts.take(n), first, log) is Err,
    ensures
        select_filters(env, c, parts, first, log) == select_filters(
            env,
            c,
            parts.take(n),
            first,
            log,
        ),
    decreases parts.len() - n,
{
    if n < parts.len() {
        take_next(parts, n);
        select_filters_stop(env, c, parts, first, log, n + 1);
    } else {
        take_all(parts);
    }
}

fn constant(e: &Expr) -> (r: Option<bool>)
    ensures
        match r {
            Some(b) => e.deep_view() == ExprV::Leaf(PredicateV::Constant(b)),
            None => !is_constant(e.deep_view()),
        },
{
    match e {
        Expr::Leaf(Predicate::Constant(b)) => Some(*b),
        _ => None,
    }
}

/// Whether a conjunct is the constant FALSE.
pub fn any_false(parts: &Vec<Expr>) -> (r: bool)
    ensures
        r == has_false(parts.deep_view()),
{
    let ghost all = parts.deep_view();
    let mut i: usize = 0;
    while i < parts.len()
        invariant
            i <= parts@.len(),
            all == parts.deep_view(),
            forall|k: int|
                0 <= k < i ==> #[trigger] all[k] != ExprV::Leaf(PredicateV::Constant(false)),
        decreases parts@.len() - i,
    {
        assert(all[i as int] == parts@[i as int].deep_view());
        if let Some(b) = constant(&parts[i]) {
            if !b {
                return true;
            }
        }
        i = i + 1;
    }
    false
}

impl<'a> Env<'a> {
    /// The filters of the conjuncts that are no constants, behind `first`.
    pub fn select_filters(&self, c: &Collection, parts: &Vec<Expr>, first: Filters, log: &mut Log) -> (r:
        Result<Filters, SqlError>)
        requires
            exprs_ok(parts.deep_view()),
        ensures
            logged(
                r,
                *final(log),
                select_filters(
                    self.deep_view(),
                    c.deep_view(),
                    parts.deep_view(),
                    first.deep_view(),
                    old(log).deep_view(),
                ),
            ),
    {
        let ghost all = parts.deep_view();
        let ghost start = log.deep_view();
        let ghost begin = first.deep_view();
        let mut list: Vec<OwnedFilter> = first.list;
        let mut i: usize = 0;
        assert(all.take(0) =~= Seq::<ExprV>::empty());
        while i < parts.len()
            invariant
                i <= parts@.len(),
                all == parts.deep_view(),
                exprs_ok(all),
                start == old(log).deep_view(),
                begin == first.deep_view(),
                select_filters(
                    self.deep_view(),
                    c.deep_view(),
                    all.take(i as int),
                    begin,
                    start,
                ) == Ok::<(Seq<OwnedFilterV>, LogV), SqlErrorV>(
                    (list.deep_view(), log.deep_view()),
                ),
            decreases parts@.len() - i,
        {
            proof {
                take_next(all, i as int);
                exprs_ok_each(all, i as int);
                assert(all[i as int] == parts@[i as int].deep_view());
            }
            if constant(&parts[i]).is_none() {
                match self.where_filter(c, &parts[i], log) {
                    Err(e) => {
                        proof {
                            select_filters_stop(
                                self.deep_view(),
                                c.deep_view(),
                                all,
                                begin,
                                start,
                                i as int + 1,
                            );
                        }
                        return Err(e);
                    },
                    Ok(f) => {
                        let ghost before = list.deep_view();
                        list.push(f);
                        assert(list.deep_view() =~= before.push(f.deep_view()));
                    },
                }
            }
            i = i + 1;
        }
        proof {
            take_all(all);
        }
        Ok(Filters { list })
    }
}

// ── ORDER BY, the driver ─────────────────────────────────────────────────

/// The edge property that a `COLUMNS` entry named `alias`, from `i` on.
pub open spec fn edge_alias(columns: Seq<(GraphColumnV, Seq<char>)>, alias: Seq<char>, i: nat) -> Option<
    Seq<char>,
>
    decreases columns.len() - i,
{
    if i >= columns.len() {
        None
    } else {
        match columns[i as int].0 {
            GraphColumnV::Edge(property) => if columns[i as int].1 == alias {
                Some(property)
            } else {
                edge_alias(columns, alias, i + 1)
            },
            GraphColumnV::Node(_) => edge_alias(columns, alias, i + 1),
        }
    }
}

fn edge_named(columns: &Vec<(GraphColumn, String)>, alias: &str) -> (r: Option<String>)
    ensures
        r.deep_view() == edge_alias(columns.deep_view(), alias@, 0),
{
    let ghost all = columns.deep_view();
    let mut i: usize = 0;
    while i < columns.len()
        invariant
            i <= columns@.len(),
            all == columns.deep_view(),
            edge_alias(all, alias@, i as nat) == edge_alias(all, alias@, 0),
        decreases columns@.len() - i,
    {
        assert(all[i as int] == columns@[i as int].deep_view());
        if let GraphColumn::Edge(property) = &columns[i].0 {
            if same(columns[i].1.as_str(), alias) {
                return Some(property.clone());
            }
        }
        i = i + 1;
    }
    None
}

pub open spec fn pattern_columns(source: SourceV) -> Seq<(GraphColumnV, Seq<char>)> {
    match source {
        SourceV::Graph(g) => g.columns,
        _ => Seq::empty(),
    }
}

/// The order of a statement: an alias of an edge property is the edge's.
pub open spec fn statement_order(env: EnvV, c: CollectionV, s: SelectStmtV, log: LogV) -> Result<
    (OwnedOrderV, LogV),
    SqlErrorV,
> {
    match s.order {
        None => Ok((OwnedOrderV::Driver, log)),
        Some(key) => match key {
            OrderKeyV::Column { column, descending } => match edge_alias(
                pattern_columns(s.source),
                column,
                0,
            ) {
                Some(property) => Ok((OwnedOrderV::Edge { property, descending }, log)),
                None => order_of(env, c, key, log),
            },
            _ => order_of(env, c, key, log),
        },
    }
}

pub open spec fn any_key_filter(filters: Seq<OwnedFilterV>) -> bool {
    exists|i: int| 0 <= i < filters.len() && #[trigger] filters[i] is Key
}

pub open spec fn any_graph_filter(filters: Seq<OwnedFilterV>) -> bool {
    exists|i: int| 0 <= i < filters.len() && #[trigger] filters[i] is Graph
}

pub open spec fn any_edge_field(fields: Seq<Seq<char>>) -> bool {
    exists|i: int| 0 <= i < fields.len() && stands_at(#[trigger] fields[i], EDGE_FIELD_PREFIX@, 0)
}

/// The driver: a statement that reads the reaching edge runs on the traversal
/// that carries it, and a key filter on the walk that certifies it.
pub open spec fn driver_of(
    filters: Seq<OwnedFilterV>,
    order: OwnedOrderV,
    fields: Seq<Seq<char>>,
) -> CandidateDriver {
    if (order is Edge || any_edge_field(fields)) && any_graph_filter(filters) {
        CandidateDriver::Auto
    } else if any_key_filter(filters) {
        CandidateDriver::Keys
    } else {
        CandidateDriver::Auto
    }
}

/// Whether a list of filters holds a key filter at its top.
pub fn has_key_filter(filters: &Vec<OwnedFilter>) -> (r: bool)
    ensures
        r == any_key_filter(filters.deep_view()),
{
    let ghost all = filters.deep_view();
    let mut i: usize = 0;
    while i < filters.len()
        invariant
            i <= filters@.len(),
            all == filters.deep_view(),
            forall|k: int| 0 <= k < i ==> !(#[trigger] all[k] is Key),
        decreases filters@.len() - i,
    {
        assert(all[i as int] == filters@[i as int].deep_view());
        if let OwnedFilter::Key { .. } = &filters[i] {
            return true;
        }
        i = i + 1;
    }
    false
}

fn has_graph_filter(filters: &Vec<OwnedFilter>) -> (r: bool)
    ensures
        r == any_graph_filter(filters.deep_view()),
{
    let ghost all = filters.deep_view();
    let mut i: usize = 0;
    while i < filters.len()
        invariant
            i <= filters@.len(),
            all == filters.deep_view(),
            forall|k: int| 0 <= k < i ==> !(#[trigger] all[k] is Graph),
        decreases filters@.len() - i,
    {
        assert(all[i as int] == filters@[i as int].deep_view());
        if let OwnedFilter::Graph(_) = &filters[i] {
            return true;
        }
        i = i + 1;
    }
    false
}

fn has_edge_field(fields: &Vec<String>) -> (r: bool)
    ensures
        r == any_edge_field(texts(fields@)),
{
    let ghost all = texts(fields@);
    let mut i: usize = 0;
    while i < fields.len()
        invariant
            i <= fields@.len(),
            all == texts(fields@),
            forall|k: int| 0 <= k < i ==> !stands_at(#[trigger] all[k], EDGE_FIELD_PREFIX@, 0),
        decreases fields@.len() - i,
    {
        assert(all[i as int] == fields@[i as int]@);
        if begins(fields[i].as_str(), EDGE_FIELD_PREFIX) {
            return true;
        }
        i = i + 1;
    }
    false
}

fn choose_driver(filters: &Vec<OwnedFilter>, order: &OwnedOrder, fields: &Vec<String>) -> (r:
    CandidateDriver)
    ensures
        r == driver_of(filters.deep_view(), order.deep_view(), texts(fields@)),
{
    let by_edge = match order {
        OwnedOrder::Edge { .. } => true,
        _ => false,
    };
    if (by_edge || has_edge_field(fields)) && has_graph_filter(filters) {
        CandidateDriver::Auto
    } else if has_key_filter(filters) {
        CandidateDriver::Keys
    } else {
        CandidateDriver::Auto
    }
}

// ── the statement ────────────────────────────────────────────────────────

/// The collection a `FROM` names and the filter that comes with it.
pub open spec fn source_of(env: EnvV, source: SourceV, log: LogV) -> Result<
    (CollectionV, Seq<OwnedFilterV>, LogV),
    SqlErrorV,
> {
    match source {
        SourceV::Table(name) => match collection_of(env.binder.catalog, name) {
            Err(e) => Err(e),
            Ok(c) => Ok((c, Seq::empty(), log)),
        },
        SourceV::All => Err(
            SqlErrorV::Refused { keyword: "FROM ALL"@, tier: Tier::Two, reason: FROM_ALL@ },
        ),
        SourceV::Graph(g) => match graph_table(env, *g, log) {
            Err(e) => Err(e),
            Ok((c, f, log)) => Ok((c, seq![f], log)),
        },
    }
}

pub open spec fn key_notice() -> Seq<char> {
    "selecting `_key` costs one `get_by_id` per returned row: a page cannot project the reserved field the external key lives in, so the key is fetched after the walk. `_id` is free"@
}

/// The log once its lines have gone into a plan.
pub open spec fn emptied(log: LogV) -> LogV {
    LogV { rewrites: Seq::empty(), row_functions: Seq::empty(), ..log }
}

/// A `SELECT` as a plan.
pub open spec fn select_of(env: EnvV, s: SelectStmtV, log: LogV) -> Result<
    (SelectPlanV, LogV),
    SqlErrorV,
> {
    let start = if has_false(s.predicates) {
        log.noted(
            "a constant FALSE predicate: the statement returns no rows, so it compiles to LIMIT 0 -- no driver is stepped and no row is read"@,
        )
    } else {
        log
    };
    match source_of(env, s.source, start) {
        Err(e) => Err(e),
        Ok((c, first, log)) => match select_filters(env, c, s.predicates, first, log) {
            Err(e) => Err(e),
            Ok((filters, log)) => match statement_order(env, c, s, log) {
                Err(e) => Err(e),
                Ok((order, log)) => {
                    let empty = SelectListV {
                        columns: Seq::empty(),
                        outputs: Seq::empty(),
                        fields: Seq::empty(),
                        functions: Seq::empty(),
                    };
                    match if s.source is Graph {
                        graph_items(
                            env,
                            c,
                            s.order is Some,
                            pattern_columns(s.source),
                            empty,
                            log,
                        )
                    } else {
                        select_items(env, c, s.order is Some, s.items, empty, log)
                    } {
                        Err(e) => Err(e),
                        Ok((list, log)) => {
                            let log = if list.outputs.contains(Output::Key) {
                                log.noted(key_notice())
                            } else {
                                log
                            };
                            Ok(
                                (
                                    SelectPlanV {
                                        collection: c.id,
                                        columns: list.columns,
                                        outputs: list.outputs,
                                        fields: list.fields,
                                        filters,
                                        order,
                                        limit: if has_false(s.predicates) {
                                            Some(0)
                                        } else {
                                            s.limit
                                        },
                                        driver: driver_of(filters, order, list.fields),
                                        functions: list.functions,
                                        rewrites: log.rewrites,
                                        row_functions: log.row_functions,
                                    },
                                    emptied(log),
                                ),
                            )
                        },
                    }
                },
            },
        },
    }
}

/// Every clock offset of the statement can be negated.
pub open spec fn select_ok(s: SelectStmtV) -> bool {
    exprs_ok(s.predicates) && match s.source {
        SourceV::Graph(g) => graph_ok(*g),
        _ => true,
    }
}

/// Whether a list of outputs reads the external key.
pub fn reads_key(outputs: &Vec<Output>) -> (r: bool)
    ensures
        r == outputs@.contains(Output::Key),
{
    let mut i: usize = 0;
    while i < outputs.len()
        invariant
            i <= outputs@.len(),
            forall|k: int| 0 <= k < i ==> outputs@[k] != Output::Key,
        decreases outputs@.len() - i,
    {
        if outputs[i] == Output::Key {
            return true;
        }
        i = i + 1;
    }
    false
}

impl<'a> Env<'a> {
    fn source(&self, source: &Source, log: &mut Log) -> (r: Result<
        (&'a Collection, Filters),
        SqlError,
    >)
        requires
            source.deep_view() is Graph ==> graph_ok(*source.deep_view()->Graph_0),
        ensures
            match source_of(self.deep_view(), source.deep_view(), old(log).deep_view()) {
                Ok((c, f, l)) => r is Ok && r->Ok_0.0.deep_view() == c && r->Ok_0.1.deep_view()
                    == f && final(log).deep_view() == l,
                Err(e) => r is Err && r->Err_0.deep_view() == e,
            },
    {
        match source {
            Source::Table(name) => {
                let c = self.binder.catalog.collection(name.as_str())?;
                let none = Filters { list: Vec::new() };
                assert(none.deep_view() =~= Seq::<OwnedFilterV>::empty());
                Ok((c, none))
            },
            Source::All => Err(SqlError::refused("FROM ALL", Tier::Two, FROM_ALL)),
            Source::Graph(g) => {
                let (c, f) = self.graph_table(g, log)?;
                let mut list: Vec<OwnedFilter> = Vec::new();
                list.push(f);
                assert(list.deep_view() =~= seq![f.deep_view()]);
                Ok((c, Filters { list }))
            },
        }
    }

    fn statement_order(&self, c: &Collection, s: &SelectStmt, log: &mut Log) -> (r: Result<
        OwnedOrder,
        SqlError,
    >)
        ensures
            logged(
                r,
                *final(log),
                statement_order(
                    self.deep_view(),
                    c.deep_view(),
                    s.deep_view(),
                    old(log).deep_view(),
                ),
            ),
    {
        match &s.order {
            None => Ok(OwnedOrder::Driver),
            Some(key) => {
                if let OrderKey::Column { column, descending } = key {
                    if let Source::Graph(g) = &s.source {
                        if let Some(property) = edge_named(&g.columns, column.as_str()) {
                            return Ok(OwnedOrder::Edge { property, descending: *descending });
                        }
                    }
                }
                self.order(c, key, log)
            },
        }
    }

    /// A `SELECT` as a plan.
    pub fn select(&self, s: &SelectStmt, log: &mut Log) -> (r: Result<SelectPlan, SqlError>)
        requires
            select_ok(s.deep_view()),
        ensures
            logged(
                r,
                *final(log),
                select_of(self.deep_view(), s.deep_view(), old(log).deep_view()),
            ),
    {
        let always_false = any_false(&s.predicates);
        if always_false {
            log.note(
                owned(
                    "a constant FALSE predicate: the statement returns no rows, so it compiles to LIMIT 0 -- no driver is stepped and no row is read",
                ),
            );
        }
        let (c, first) = self.source(&s.source, log)?;
        let filters = self.select_filters(c, &s.predicates, first, log)?;
        let order = self.statement_order(c, s, log)?;
        let mut list = SelectList::new();
        let ranked = s.order.is_some();
        match &s.source {
            Source::Graph(g) => {
                self.graph_items(c, ranked, &g.columns, &mut list, log)?;
            },
            _ => {
                self.select_items(c, ranked, &s.items, &mut list, log)?;
            },
        }
        if reads_key(&list.outputs) {
            log.note(
                owned(
                    "selecting `_key` costs one `get_by_id` per returned row: a page cannot project the reserved field the external key lives in, so the key is fetched after the walk. `_id` is free",
                ),
            );
        }
        let driver = choose_driver(&filters.list, &order, &list.fields);
        let mut rewrites: Vec<String> = Vec::new();
        let mut row_functions: Vec<String> = Vec::new();
        assert(texts(rewrites@) =~= Seq::<Seq<char>>::empty());
        std::mem::swap(&mut log.rewrites, &mut rewrites);
        std::mem::swap(&mut log.row_functions, &mut row_functions);
        Ok(
            SelectPlan {
                collection: c.id,
                columns: list.columns,
                outputs: list.outputs,
                fields: list.fields,
                filters: filters.list,
                order,
                limit: if always_false {
                    Some(0)
                } else {
                    s.limit
                },
                driver,
                functions: list.functions,
                rewrites,
                row_functions,
            },
        )
    }
}

} // verus!
