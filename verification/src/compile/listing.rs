//! Statements that are answered from a list of rows: `SELECT` over a relation
//! of the catalog, `SELECT` without a source, and the `SHOW` family.
//!
//! Everything is decided while the statement is compiled: the rows are built,
//! filtered, ordered, projected, deduplicated and cut there.

use vstd::prelude::*;
use crate::ast::{row_expr_text, AggFunc};
use crate::catalog::contents::{contents_of, relation_notice, relation_rows};
use crate::catalog::relations::{
    relation_by, relation_id, relation_named, relation_with, written_name, CatalogRelation,
    CatalogRelationV, RelationId,
};
use crate::catalog::snapshot::{Snapshot, SnapshotV};
use crate::compile::bind::{Binder, BinderV};
use crate::compile::log::{logged, Log, LogV};
use crate::compile::row::{evaluated, CompiledRow, CompiledRowV};
use crate::compile::rows::{
    all_match, all_within, all_within_each, distinct_rows, drop_repeats, filter_texts, sort_rows,
    sorted_is_permutation, sorted_rows, written_all, RowFilter, RowFilterV,
};
use crate::compile::select::{title_or, titled};
use crate::compile::views::{
    catalog_column, catalog_column_of, catalog_filters, catalog_filters_of, catalog_row,
    catalog_row_function,
};
use crate::error::{gives, SqlError, SqlErrorV};
use crate::lists::{take_all, take_next};
use crate::result::{SqlResult, SqlResultV, SqlRow, SqlRowV};
use crate::stmt::{
    AggArg, AggArgV, OrderKey, OrderKeyV, SelectItem, SelectItemV, SelectStmt, SelectStmtV, Source,
    SourceV,
};
use crate::text::{
    cat2, cat3, cat4, cat5, cat7, debug_quoted, decimal, decimal_i64, decimal_usize, join, joined,
    owned, quoted, texts,
};
use crate::value::{dup_row, row_view, EntityId, SqlValue, SqlValueV};

verus! {

// ── the plan ─────────────────────────────────────────────────────────────

/// A compiled statement whose rows are already there.
#[derive(Debug)]
pub struct RowsPlan {
    pub columns: Vec<String>,
    pub rows: Vec<Vec<SqlValue>>,
    /// Where the rows are from, and how many there were before the filters.
    pub source: String,
    pub text: String,
    pub filters: Vec<String>,
    pub order: Option<String>,
    pub limit: Option<usize>,
    pub distinct: bool,
    pub explain: bool,
}

pub struct RowsPlanV {
    pub columns: Seq<Seq<char>>,
    pub rows: Seq<Seq<SqlValueV>>,
    pub source: Seq<char>,
    pub text: Seq<char>,
    pub filters: Seq<Seq<char>>,
    pub order: Option<Seq<char>>,
    pub limit: Option<usize>,
    pub distinct: bool,
    pub explain: bool,
}

impl DeepView for RowsPlan {
    type V = RowsPlanV;

    open spec fn deep_view(&self) -> RowsPlanV {
        RowsPlanV {
            columns: texts(self.columns@),
            rows: self.rows.deep_view(),
            source: self.source@,
            text: self.text@,
            filters: texts(self.filters@),
            order: self.order.deep_view(),
            limit: self.limit,
            distinct: self.distinct,
            explain: self.explain,
        }
    }
}

/// A row of a list has no identity of its own: it is reported by its place.
pub open spec fn answer_row(values: Seq<SqlValueV>, at: int) -> SqlRowV {
    SqlRowV { id: EntityId { collection: 0, sequence: at as u64 }, values }
}

pub open spec fn order_words(order: Option<Seq<char>>) -> Seq<char> {
    match order {
        Some(text) => text,
        None => "catalog order"@,
    }
}

pub open spec fn limit_words(limit: Option<usize>) -> Seq<char> {
    match limit {
        Some(n) => decimal(n as int),
        None => "none"@,
    }
}

/// Lines, each indented by two and ended.
pub open spec fn indented(lines: Seq<Seq<char>>) -> Seq<char>
    decreases lines.len(),
{
    if lines.len() == 0 {
        ""@
    } else {
        indented(lines.drop_last()) + "  "@ + lines.last() + "\n"@
    }
}

pub const LIST_WORK: &'static str =
    "work: candidates = the rows above; no index is opened, no row is read, and the list is built once at prepare from the catalog readers (QL_CONTRACT §1, row \"catalog\")\n";

/// The plan, printed.
pub open spec fn plan_text(p: RowsPlanV) -> Seq<char> {
    let head = "statement: "@ + p.text + "\ndriver: "@ + p.source + "\ncolumns: "@ + (
    if p.columns.len() == 0 {
        "(none)"@
    } else {
        joined(p.columns, ", "@)
    }) + "\n"@;
    let filters = if p.filters.len() == 0 {
        "filters: (none)\n"@
    } else {
        "filters:\n"@ + indented(p.filters)
    };
    let tail = "order: "@ + order_words(p.order) + "\ndistinct: "@ + (if p.distinct {
        "true"@
    } else {
        "false"@
    }) + "\nlimit: "@ + limit_words(p.limit) + "\n"@;
    head + filters + tail + "rows: "@ + decimal(p.rows.len() as int) + "\n"@ + LIST_WORK@
}

/// Lines, each indented by two and ended.
pub fn indent(lines: &Vec<String>) -> (r: String)
    ensures
        r@ == indented(texts(lines@)),
{
    let ghost all = texts(lines@);
    let mut out = owned("");
    let mut i: usize = 0;
    assert(all.take(0) =~= Seq::<Seq<char>>::empty());
    while i < lines.len()
        invariant
            i <= lines@.len(),
            all == texts(lines@),
            out@ == indented(all.take(i as int)),
        decreases lines@.len() - i,
    {
        proof {
            take_next(all, i as int);
            assert(all[i as int] == lines@[i as int]@);
        }
        out = cat4(out.as_str(), "  ", lines[i].as_str(), "\n");
        i = i + 1;
    }
    proof {
        take_all(all);
    }
    out
}

impl RowsPlan {
    /// The answer: the rows, each with its place for an identity.
    pub fn answer(&self) -> (r: SqlResult)
        ensures
            r.deep_view() == (SqlResultV::Rows {
                columns: self.deep_view().columns,
                rows: self.deep_view().rows.map(|i: int, row: Seq<SqlValueV>| answer_row(row, i)),
            }),
    {
        let ghost all = self.rows.deep_view();
        let mut rows: Vec<SqlRow> = Vec::new();
        let mut i: usize = 0;
        while i < self.rows.len()
            invariant
                i <= self.rows@.len(),
                all == self.rows.deep_view(),
                rows@.len() == i,
                forall|k: int|
                    0 <= k < i ==> (#[trigger] rows@[k]).deep_view() == answer_row(all[k], k),
            decreases self.rows@.len() - i,
        {
            assert(all[i as int] == self.rows@[i as int].deep_view());
            let values = dup_row(&self.rows[i]);
            assert(values.deep_view() =~= row_view(values@));
            assert(self.rows@[i as int].deep_view() =~= row_view(self.rows@[i as int]@));
            rows.push(SqlRow { id: EntityId { collection: 0, sequence: i as u64 }, values });
            i = i + 1;
        }
        assert(rows.deep_view() =~= all.map(|i: int, row: Seq<SqlValueV>| answer_row(row, i)));
        let columns = copy_texts(&self.columns);
        SqlResult::Rows { columns, rows }
    }

    /// The plan, printed.
    pub fn render(&self) -> (r: String)
        ensures
            r@ == plan_text(self.deep_view()),
    {
        let columns = if self.columns.len() == 0 {
            owned("(none)")
        } else {
            join(&self.columns, ", ")
        };
        let head = cat7(
            "statement: ",
            self.text.as_str(),
            "\ndriver: ",
            self.source.as_str(),
            "\ncolumns: ",
            columns.as_str(),
            "\n",
        );
        let filters = if self.filters.len() == 0 {
            owned("filters: (none)\n")
        } else {
            cat2("filters:\n", indent(&self.filters).as_str())
        };
        let order = match &self.order {
            Some(text) => text.clone(),
            None => owned("catalog order"),
        };
        let limit = match self.limit {
            Some(n) => decimal_usize(n),
            None => owned("none"),
        };
        let distinct = if self.distinct {
            "true"
        } else {
            "false"
        };
        let tail = cat7(
            "order: ",
            order.as_str(),
            "\ndistinct: ",
            distinct,
            "\nlimit: ",
            limit.as_str(),
            "\n",
        );
        cat7(
            head.as_str(),
            filters.as_str(),
            tail.as_str(),
            "rows: ",
            decimal_usize(self.rows.len()).as_str(),
            "\n",
            LIST_WORK,
        )
    }
}

/// A copy of a list of texts.
pub fn copy_texts(list: &Vec<String>) -> (r: Vec<String>)
    ensures
        texts(r@) == texts(list@),
{
    let mut out: Vec<String> = Vec::new();
    let mut i: usize = 0;
    while i < list.len()
        invariant
            i <= list@.len(),
            out@.len() == i,
            forall|k: int| 0 <= k < i ==> (#[trigger] out@[k])@ == list@[k]@,
        decreases list@.len() - i,
    {
        out.push(list[i].clone());
        i = i + 1;
    }
    assert(texts(out@) =~= texts(list@));
    out
}

// ── the select list ──────────────────────────────────────────────────────

/// One output of a `SELECT` over a relation.
#[derive(Debug)]
pub enum CatalogOutput {
    Column(usize),
    Row(CompiledRow),
}

pub enum CatalogOutputV {
    Column(usize),
    Row(CompiledRowV),
}

impl DeepView for CatalogOutput {
    type V = CatalogOutputV;

    open spec fn deep_view(&self) -> CatalogOutputV {
        match *self {
            CatalogOutput::Column(at) => CatalogOutputV::Column(at),
            CatalogOutput::Row(e) => CatalogOutputV::Row(e.deep_view()),
        }
    }
}

/// The outputs of a select list, with their titles.
#[derive(Debug)]
pub struct Picks {
    pub columns: Vec<String>,
    pub picks: Vec<CatalogOutput>,
}

pub struct PicksV {
    pub columns: Seq<Seq<char>>,
    pub picks: Seq<CatalogOutputV>,
}

impl DeepView for Picks {
    type V = PicksV;

    open spec fn deep_view(&self) -> PicksV {
        PicksV { columns: texts(self.columns@), picks: self.picks.deep_view() }
    }
}

impl PicksV {
    pub open spec fn with(self, title: Seq<char>, pick: CatalogOutputV) -> PicksV {
        PicksV { columns: self.columns.push(title), picks: self.picks.push(pick) }
    }
}

impl Picks {
    fn push(&mut self, title: String, pick: CatalogOutput)
        ensures
            final(self).deep_view() == old(self).deep_view().with(title@, pick.deep_view()),
    {
        let ghost before = *self;
        self.columns.push(title);
        self.picks.push(pick);
        assert(texts(self.columns@) =~= texts(before.columns@).push(title@));
        assert(self.picks.deep_view() =~= before.picks.deep_view().push(pick.deep_view()));
    }
}

/// Every column of the first `n`.
pub open spec fn star_picks(r: CatalogRelationV, list: PicksV, n: nat) -> PicksV
    decreases n,
{
    if n == 0 {
        list
    } else {
        star_picks(r, list, (n - 1) as nat).with(
            r.columns[n - 1].name,
            CatalogOutputV::Column((n - 1) as usize),
        )
    }
}

pub open spec fn agg_word(f: AggFunc) -> Seq<char> {
    match f {
        AggFunc::Count => "Count"@,
        AggFunc::Sum => "Sum"@,
        AggFunc::Min => "Min"@,
        AggFunc::Max => "Max"@,
        AggFunc::Avg => "Avg"@,
    }
}

fn word_of_agg(f: AggFunc) -> (r: &'static str)
    ensures
        r@ == agg_word(f),
{
    match f {
        AggFunc::Count => "Count",
        AggFunc::Sum => "Sum",
        AggFunc::Min => "Min",
        AggFunc::Max => "Max",
        AggFunc::Avg => "Avg",
    }
}

/// The literal form of an item that a relation has no answer for.
pub open spec fn item_debug(item: SelectItemV) -> Seq<char> {
    match item {
        SelectItemV::Id => "Id"@,
        SelectItemV::Key => "Key"@,
        SelectItemV::OrderValue(what) => "OrderValue("@ + debug_quoted(what) + ")"@,
        SelectItemV::Divided { column, divisor } => "Divided { column: "@ + debug_quoted(column)
            + ", divisor: "@ + decimal(divisor as int) + " }"@,
        SelectItemV::Aggregate { function, argument } => "Aggregate { function: "@ + agg_word(
            function,
        ) + ", argument: "@ + (match argument {
            AggArgV::Star => "Star"@,
            AggArgV::Column(c) => "Column("@ + debug_quoted(c) + ")"@,
        }) + " }"@,
        _ => ""@,
    }
}

fn debug_item(item: &SelectItem) -> (r: String)
    ensures
        r@ == item_debug(item.deep_view()),
{
    match item {
        SelectItem::Id => owned("Id"),
        SelectItem::Key => owned("Key"),
        SelectItem::OrderValue(what) => cat3("OrderValue(", quoted(what.as_str()).as_str(), ")"),
        SelectItem::Divided { column, divisor } => cat5(
            "Divided { column: ",
            quoted(column.as_str()).as_str(),
            ", divisor: ",
            decimal_i64(*divisor).as_str(),
            " }",
        ),
        SelectItem::Aggregate { function, argument } => {
            let arg = match argument {
                AggArg::Star => owned("Star"),
                AggArg::Column(c) => cat3("Column(", quoted(c.as_str()).as_str(), ")"),
            };
            cat5(
                "Aggregate { function: ",
                word_of_agg(*function),
                ", argument: ",
                arg.as_str(),
                " }",
            )
        },
        _ => owned(""),
    }
}

/// One item of a select list over a relation.
pub open spec fn pick_of(
    r: CatalogRelationV,
    item: SelectItemV,
    alias: Option<Seq<char>>,
    list: PicksV,
) -> Result<PicksV, SqlErrorV> {
    match item {
        SelectItemV::Star => Ok(star_picks(r, list, r.columns.len())),
        SelectItemV::Column(name) => match catalog_column_of(r, name) {
            Err(e) => Err(e),
            Ok(at) => Ok(list.with(title_or(alias, name), CatalogOutputV::Column(at))),
        },
        SelectItemV::Function(expr) => match catalog_row(r, *expr) {
            Err(e) => Err(e),
            Ok(x) => Ok(list.with(title_or(alias, row_expr_text(*expr)), CatalogOutputV::Row(x))),
        },
        _ => Err(
            SqlErrorV::Unsupported(
                "`"@ + written_name(r)
                    + "` answers columns of the catalog, so its select list is `*`, its own column names, or a §4.1 string function over one of them; "@
                    + item_debug(item) + " is none of those"@,
            ),
        ),
    }
}

/// The select list over a relation.
pub open spec fn picks_of(r: CatalogRelationV, items: Seq<(SelectItemV, Option<Seq<char>>)>) -> Result<
    PicksV,
    SqlErrorV,
>
    decreases items.len(),
{
    if items.len() == 0 {
        Ok(PicksV { columns: Seq::empty(), picks: Seq::empty() })
    } else {
        match picks_of(r, items.drop_last()) {
            Err(e) => Err(e),
            Ok(list) => pick_of(r, items.last().0, items.last().1, list),
        }
    }
}

proof fn picks_stop(r: CatalogRelationV, items: Seq<(SelectItemV, Option<Seq<char>>)>, n: int)
    requires
        0 <= n <= items.len(),
        picks_of(r, items.take(n)) is Err,
    ensures
        picks_of(r, items) == picks_of(r, items.take(n)),
    decreases items.len() - n,
{
    if n < items.len() {
        take_next(items, n);
        picks_stop(r, items, n + 1);
    } else {
        take_all(items);
    }
}

/// Whether every column that a list picks is one of the first `width`.
pub open spec fn picks_within(picks: Seq<CatalogOutputV>, width: nat) -> bool {
    forall|k: int|
        0 <= k < picks.len() ==> ((#[trigger] picks[k]) is Column ==> picks[k]->Column_0 < width)
}

fn pick(
    relation: &CatalogRelation,
    item: &SelectItem,
    alias: &Option<String>,
    list: &mut Picks,
) -> (r: Result<(), SqlError>)
    requires
        picks_within(old(list).deep_view().picks, relation.columns@.len()),
    ensures
        match pick_of(
            relation.deep_view(),
            item.deep_view(),
            alias.deep_view(),
            old(list).deep_view(),
        ) {
            Ok(l) => r is Ok && final(list).deep_view() == l && picks_within(
                l.picks,
                relation.columns@.len(),
            ),
            Err(e) => r is Err && r->Err_0.deep_view() == e,
        },
{
    match item {
        SelectItem::Star => {
            let ghost rel = relation.deep_view();
            let ghost start = list.deep_view();
            let mut i: usize = 0;
            while i < relation.columns.len()
                invariant
                    i <= relation.columns@.len(),
                    rel == relation.deep_view(),
                    start == old(list).deep_view(),
                    list.deep_view() == star_picks(rel, start, i as nat),
                    picks_within(list.deep_view().picks, relation.columns@.len()),
                decreases relation.columns@.len() - i,
            {
                assert(rel.columns[i as int] == relation.columns@[i as int].deep_view());
                list.push(owned(relation.columns[i].name), CatalogOutput::Column(i));
                i = i + 1;
            }
            Ok(())
        },
        SelectItem::Column(name) => {
            let at = catalog_column(relation, name.as_str())?;
            list.push(titled(alias, name.as_str()), CatalogOutput::Column(at));
            Ok(())
        },
        SelectItem::Function(expr) => {
            let x = catalog_row_function(relation, expr)?;
            list.push(titled(alias, expr.written().as_str()), CatalogOutput::Row(x));
            Ok(())
        },
        _ => Err(
            SqlError::Unsupported(
                cat5(
                    "`",
                    relation.written().as_str(),
                    "` answers columns of the catalog, so its select list is `*`, its own column names, or a §4.1 string function over one of them; ",
                    debug_item(item).as_str(),
                    " is none of those",
                ),
            ),
        ),
    }
}

fn pick_list(relation: &CatalogRelation, items: &Vec<(SelectItem, Option<String>)>) -> (r: Result<
    Picks,
    SqlError,
>)
    ensures
        gives(r, picks_of(relation.deep_view(), items.deep_view())),
        r is Ok ==> picks_within(r->Ok_0.deep_view().picks, relation.columns@.len()),
{
    let ghost all = items.deep_view();
    let ghost rel = relation.deep_view();
    let mut list = Picks { columns: Vec::new(), picks: Vec::new() };
    assert(texts(list.columns@) =~= Seq::<Seq<char>>::empty());
    assert(list.picks.deep_view() =~= Seq::<CatalogOutputV>::empty());
    assert(all.take(0) =~= Seq::<(SelectItemV, Option<Seq<char>>)>::empty());
    let mut i: usize = 0;
    while i < items.len()
        invariant
            i <= items@.len(),
            all == items.deep_view(),
            rel == relation.deep_view(),
            picks_of(rel, all.take(i as int)) == Ok::<PicksV, SqlErrorV>(list.deep_view()),
            picks_within(list.deep_view().picks, relation.columns@.len()),
        decreases items@.len() - i,
    {
        proof {
            take_next(all, i as int);
            assert(all[i as int] == items@[i as int].deep_view());
        }
        match pick(relation, &items[i].0, &items[i].1, &mut list) {
            Ok(()) => {},
            Err(e) => {
                proof {
                    picks_stop(rel, all, i as int + 1);
                }
                return Err(e);
            },
        }
        i = i + 1;
    }
    proof {
        take_all(all);
    }
    Ok(list)
}

// ── filtering and projecting ─────────────────────────────────────────────

/// The rows that satisfy every filter.
pub open spec fn kept_rows(rows: Seq<Seq<SqlValueV>>, filters: Seq<RowFilterV>) -> Seq<
    Seq<SqlValueV>,
> {
    rows.filter(|row: Seq<SqlValueV>| all_match(filters, row))
}

/// Whether every row has `width` cells.
pub open spec fn have_width(rows: Seq<Vec<SqlValue>>, width: nat) -> bool {
    forall|k: int| 0 <= k < rows.len() ==> (#[trigger] rows[k])@.len() == width
}

fn keeps(filters: &Vec<RowFilter>, row: &Vec<SqlValue>) -> (r: bool)
    requires
        all_within(filters.deep_view(), row@.len()),
    ensures
        r == all_match(filters.deep_view(), row.deep_view()),
{
    let ghost all = filters.deep_view();
    let mut i: usize = 0;
    let mut kept = true;
    assert(all.take(0) =~= Seq::<RowFilterV>::empty());
    while i < filters.len()
        invariant
            i <= filters@.len(),
            all == filters.deep_view(),
            all_within(all, row@.len()),
            kept == all_match(all.take(i as int), row.deep_view()),
        decreases filters@.len() - i,
    {
        proof {
            take_next(all, i as int);
            all_within_each(all, row@.len(), i as int);
            assert(all[i as int] == filters@[i as int].deep_view());
        }
        kept = kept && filters[i].matches(row);
        i = i + 1;
    }
    proof {
        take_all(all);
    }
    kept
}

fn keep_rows(rows: Vec<Vec<SqlValue>>, filters: &Vec<RowFilter>, width: usize) -> (r: Vec<
    Vec<SqlValue>,
>)
    requires
        all_within(filters.deep_view(), width as nat),
        have_width(rows@, width as nat),
    ensures
        r.deep_view() == kept_rows(rows.deep_view(), filters.deep_view()),
        have_width(r@, width as nat),
{
    let ghost all = rows.deep_view();
    let ghost original = rows@;
    let ghost keep = |row: Seq<SqlValueV>| all_match(filters.deep_view(), row);
    let n: usize = rows.len();
    let mut rest = rows;
    let mut out: Vec<Vec<SqlValue>> = Vec::new();
    let mut i: usize = 0;
    assert(all.take(0) =~= Seq::<Seq<SqlValueV>>::empty());
    assert(out.deep_view() =~= Seq::<Seq<SqlValueV>>::empty());
    proof {
        reveal(Seq::filter);
    }
    while i < n
        invariant
            i <= n,
            n == original.len(),
            all == rows.deep_view(),
            original == rows@,
            rest@ == original.skip(i as int),
            have_width(original, width as nat),
            have_width(out@, width as nat),
            all_within(filters.deep_view(), width as nat),
            keep == (|row: Seq<SqlValueV>| all_match(filters.deep_view(), row)),
            out.deep_view() == all.take(i as int).filter(keep),
        decreases n - i,
    {
        proof {
            take_next(all, i as int);
            assert(rest@[0] == original[i as int]);
            assert(all[i as int] == original[i as int].deep_view());
            reveal(Seq::filter);
        }
        let row = rest.remove(0);
        assert(rest@ =~= original.skip(i as int + 1));
        if keeps(filters, &row) {
            let ghost before = out.deep_view();
            let ghost view = row.deep_view();
            out.push(row);
            assert(out.deep_view() =~= before.push(view));
        }
        i = i + 1;
    }
    proof {
        take_all(all);
    }
    out
}

/// The first `n` outputs of a row.
pub open spec fn projected_row(picks: Seq<CatalogOutputV>, row: Seq<SqlValueV>, n: nat) -> Result<
    Seq<SqlValueV>,
    SqlErrorV,
>
    decreases n,
{
    if n == 0 {
        Ok(Seq::empty())
    } else {
        match projected_row(picks, row, (n - 1) as nat) {
            Err(e) => Err(e),
            Ok(done) => match picks[n - 1] {
                CatalogOutputV::Column(at) => Ok(done.push(row[at as int])),
                CatalogOutputV::Row(x) => match evaluated(x, row) {
                    Err(e) => Err(e),
                    Ok(v) => Ok(done.push(v)),
                },
            },
        }
    }
}

proof fn projected_row_stops(picks: Seq<CatalogOutputV>, row: Seq<SqlValueV>, n: nat, m: nat)
    requires
        n <= m,
        projected_row(picks, row, n) is Err,
    ensures
        projected_row(picks, row, m) == projected_row(picks, row, n),
    decreases m - n,
{
    if n < m {
        projected_row_stops(picks, row, n, (m - 1) as nat);
    }
}

/// The outputs of each row.
pub open spec fn projected_rows(picks: Seq<CatalogOutputV>, rows: Seq<Seq<SqlValueV>>) -> Result<
    Seq<Seq<SqlValueV>>,
    SqlErrorV,
>
    decreases rows.len(),
{
    if rows.len() == 0 {
        Ok(Seq::empty())
    } else {
        match projected_rows(picks, rows.drop_last()) {
            Err(e) => Err(e),
            Ok(done) => match projected_row(picks, rows.last(), picks.len()) {
                Err(e) => Err(e),
                Ok(row) => Ok(done.push(row)),
            },
        }
    }
}

proof fn projected_rows_stop(picks: Seq<CatalogOutputV>, rows: Seq<Seq<SqlValueV>>, n: int)
    requires
        0 <= n <= rows.len(),
        projected_rows(picks, rows.take(n)) is Err,
    ensures
        projected_rows(picks, rows) == projected_rows(picks, rows.take(n)),
    decreases rows.len() - n,
{
    if n < rows.len() {
        take_next(rows, n);
        projected_rows_stop(picks, rows, n + 1);
    } else {
        take_all(rows);
    }
}

fn project_row(picks: &Vec<CatalogOutput>, row: &Vec<SqlValue>) -> (r: Result<
    Vec<SqlValue>,
    SqlError,
>)
    requires
        picks_within(picks.deep_view(), row@.len()),
    ensures
        gives(r, projected_row(picks.deep_view(), row.deep_view(), picks@.len())),
{
    let ghost all = picks.deep_view();
    let ghost view = row.deep_view();
    let mut out: Vec<SqlValue> = Vec::new();
    assert(out.deep_view() =~= Seq::<SqlValueV>::empty());
    assert(row_view(row@) =~= view);
    let mut i: usize = 0;
    while i < picks.len()
        invariant
            i <= picks@.len(),
            all == picks.deep_view(),
            view == row.deep_view(),
            row_view(row@) == view,
            picks_within(all, row@.len()),
            projected_row(all, view, i as nat) == Ok::<Seq<SqlValueV>, SqlErrorV>(out.deep_view()),
        decreases picks@.len() - i,
    {
        assert(all[i as int] == picks@[i as int].deep_view());
        let ghost before = out.deep_view();
        match &picks[i] {
            CatalogOutput::Column(at) => {
                assert(all[i as int] is Column);
                let v = row[*at].dup();
                out.push(v);
                assert(out.deep_view() =~= before.push(v.deep_view()));
            },
            CatalogOutput::Row(x) => match x.eval(row) {
                Ok(v) => {
                    out.push(v);
                    assert(out.deep_view() =~= before.push(v.deep_view()));
                },
                Err(e) => {
                    proof {
                        projected_row_stops(all, view, (i + 1) as nat, picks@.len());
                    }
                    return Err(e);
                },
            },
        }
        i = i + 1;
    }
    Ok(out)
}

fn project_rows(picks: &Vec<CatalogOutput>, rows: &Vec<Vec<SqlValue>>, width: usize) -> (r: Result<
    Vec<Vec<SqlValue>>,
    SqlError,
>)
    requires
        picks_within(picks.deep_view(), width as nat),
        have_width(rows@, width as nat),
    ensures
        gives(r, projected_rows(picks.deep_view(), rows.deep_view())),
{
    let ghost all = rows.deep_view();
    let ghost list = picks.deep_view();
    let mut out: Vec<Vec<SqlValue>> = Vec::new();
    assert(out.deep_view() =~= Seq::<Seq<SqlValueV>>::empty());
    assert(all.take(0) =~= Seq::<Seq<SqlValueV>>::empty());
    let mut i: usize = 0;
    while i < rows.len()
        invariant
            i <= rows@.len(),
            all == rows.deep_view(),
            list == picks.deep_view(),
            picks_within(list, width as nat),
            have_width(rows@, width as nat),
            projected_rows(list, all.take(i as int)) == Ok::<Seq<Seq<SqlValueV>>, SqlErrorV>(
                out.deep_view(),
            ),
        decreases rows@.len() - i,
    {
        proof {
            take_next(all, i as int);
            assert(all[i as int] == rows@[i as int].deep_view());
        }
        match project_row(picks, &rows[i]) {
            Ok(row) => {
                let ghost before = out.deep_view();
                out.push(row);
                assert(out.deep_view() =~= before.push(row.deep_view()));
            },
            Err(e) => {
                proof {
                    projected_rows_stop(list, all, i as int + 1);
                }
                return Err(e);
            },
        }
        i = i + 1;
    }
    proof {
        take_all(all);
    }
    Ok(out)
}

// ── the statement's own text ─────────────────────────────────────────────

pub open spec fn item_words(item: SelectItemV, alias: Option<Seq<char>>) -> Seq<char> {
    match item {
        SelectItemV::Star => "*"@,
        SelectItemV::Column(name) => match alias {
            None => name,
            Some(alias) => name + " AS "@ + alias,
        },
        _ => "?"@,
    }
}

pub open spec fn items_words(items: Seq<(SelectItemV, Option<Seq<char>>)>) -> Seq<Seq<char>> {
    items.map_values(|i: (SelectItemV, Option<Seq<char>>)| item_words(i.0, i.1))
}

/// The statement, as the head of its plan prints it.
pub open spec fn statement_words(r: CatalogRelationV, s: SelectStmtV) -> Seq<char> {
    "SELECT "@ + (if s.distinct {
        "DISTINCT "@
    } else {
        ""@
    }) + joined(items_words(s.items), ", "@) + " FROM "@ + written_name(r) + (
    if s.predicates.len() > 0 {
        " WHERE ..."@
    } else {
        ""@
    }) + (match s.limit {
        Some(n) => " LIMIT "@ + decimal(n as int),
        None => ""@,
    })
}

pub fn statement_text(relation: &CatalogRelation, s: &SelectStmt) -> (r: String)
    ensures
        r@ == statement_words(relation.deep_view(), s.deep_view()),
{
    let ghost all = s.items.deep_view();
    let mut items: Vec<String> = Vec::new();
    let mut i: usize = 0;
    while i < s.items.len()
        invariant
            i <= s.items@.len(),
            all == s.items.deep_view(),
            items@.len() == i,
            forall|k: int|
                0 <= k < i ==> (#[trigger] items@[k])@ == item_words(all[k].0, all[k].1),
        decreases s.items@.len() - i,
    {
        assert(all[i as int] == s.items@[i as int].deep_view());
        let text = match (&s.items[i].0, &s.items[i].1) {
            (SelectItem::Star, _) => owned("*"),
            (SelectItem::Column(name), None) => name.clone(),
            (SelectItem::Column(name), Some(alias)) => cat3(
                name.as_str(),
                " AS ",
                alias.as_str(),
            ),
            _ => owned("?"),
        };
        items.push(text);
        i = i + 1;
    }
    assert(texts(items@) =~= items_words(all));
    let distinct = if s.distinct {
        "DISTINCT "
    } else {
        ""
    };
    let condition = if s.predicates.len() > 0 {
        " WHERE ..."
    } else {
        ""
    };
    let limit = match s.limit {
        Some(n) => cat2(" LIMIT ", decimal_usize(n).as_str()),
        None => owned(""),
    };
    cat7(
        "SELECT ",
        distinct,
        join(&items, ", ").as_str(),
        " FROM ",
        relation.written().as_str(),
        condition,
        limit.as_str(),
    )
}

// ── SELECT over a relation ───────────────────────────────────────────────

/// The relation of the catalog that a statement reads, if it reads one.
pub open spec fn catalog_source_of(s: SelectStmtV) -> Option<RelationId> {
    match s.source {
        SourceV::Table(name) => relation_named(name),
        _ => None,
    }
}

pub fn catalog_source(s: &SelectStmt) -> (r: Option<RelationId>)
    ensures
        r == catalog_source_of(s.deep_view()),
{
    match &s.source {
        Source::Table(name) => relation_id(name.as_str()),
        _ => None,
    }
}

pub open spec fn any_aggregate(items: Seq<(SelectItemV, Option<Seq<char>>)>) -> bool {
    exists|k: int| 0 <= k < items.len() && (#[trigger] items[k]).0 is Aggregate
}

fn holds_aggregate(items: &Vec<(SelectItem, Option<String>)>) -> (r: bool)
    ensures
        r == any_aggregate(items.deep_view()),
{
    let ghost all = items.deep_view();
    let mut i: usize = 0;
    while i < items.len()
        invariant
            i <= items@.len(),
            all == items.deep_view(),
            forall|k: int| 0 <= k < i ==> !((#[trigger] all[k]).0 is Aggregate),
        decreases items@.len() - i,
    {
        assert(all[i as int] == items@[i as int].deep_view());
        if let SelectItem::Aggregate { .. } = &items[i].0 {
            return true;
        }
        i = i + 1;
    }
    false
}

pub open spec fn direction_word(descending: bool) -> Seq<char> {
    if descending {
        " DESC"@
    } else {
        " ASC"@
    }
}

/// The rows in the order that a key asks for, with the words for it.
pub open spec fn ordered_rows(
    r: CatalogRelationV,
    key: Option<OrderKeyV>,
    rows: Seq<Seq<SqlValueV>>,
) -> Result<(Seq<Seq<SqlValueV>>, Option<Seq<char>>), SqlErrorV> {
    match key {
        None => Ok((rows, None)),
        Some(OrderKeyV::Column { column, descending }) => match catalog_column_of(r, column) {
            Err(e) => Err(e),
            Ok(at) => {
                let sorted = sorted_rows(rows, at as int);
                Ok(
                    (
                        if descending {
                            sorted.reverse()
                        } else {
                            sorted
                        },
                        Some(column + direction_word(descending)),
                    ),
                )
            },
        },
        Some(_) => Err(
            SqlErrorV::Unsupported(
                "`"@ + written_name(r)
                    + "` is ordered by one of its own columns: a distance, a vector or a ranking key names an index, and a catalog view has none"@,
            ),
        ),
    }
}

/// At most `limit` rows.
pub open spec fn limited(rows: Seq<Seq<SqlValueV>>, limit: Option<usize>) -> Seq<Seq<SqlValueV>> {
    match limit {
        Some(n) => if n < rows.len() {
            rows.take(n as int)
        } else {
            rows
        },
        None => rows,
    }
}

pub open spec fn list_source(r: CatalogRelationV, total: int) -> Seq<char> {
    "rows("@ + written_name(r) + "): "@ + decimal(total)
        + " row(s) built from the catalog at prepare"@
}

pub open spec fn noticed(log: LogV, notice: Option<Seq<char>>) -> LogV {
    match notice {
        Some(text) => log.noted(text),
        None => log,
    }
}

/// A `SELECT` over a relation: its rows are built, filtered, ordered,
/// projected, deduplicated and cut, in this order.
pub open spec fn catalog_select_of(
    b: BinderV,
    snap: SnapshotV,
    id: RelationId,
    s: SelectStmtV,
    explain: bool,
    log: LogV,
) -> Result<(RowsPlanV, LogV), SqlErrorV> {
    let r = relation_with(id);
    if s.group is Some || s.having.len() > 0 {
        Err(
            SqlErrorV::Unsupported(
                "GROUP BY / HAVING over `"@ + written_name(r)
                    + "`: the catalog views are a bounded in-memory row list with no aggregate driver, so a folded answer over them has no atomic. Read the rows and fold them in the caller"@,
            ),
        )
    } else if any_aggregate(s.items) {
        Err(
            SqlErrorV::Unsupported(
                "an aggregate over `"@ + written_name(r)
                    + "`: the catalog views are a bounded in-memory row list with no aggregate driver. Read the rows and fold them in the caller"@,
            ),
        )
    } else {
        let built = relation_rows(id, snap);
        match picks_of(r, s.items) {
            Err(e) => Err(e),
            Ok(list) => match catalog_filters_of(
                b,
                r,
                s.predicates,
                noticed(log, relation_notice(id, snap)),
            ) {
                Err(e) => Err(e),
                Ok((filters, log)) => match ordered_rows(r, s.order, kept_rows(built, filters)) {
                    Err(e) => Err(e),
                    Ok((rows, order)) => match projected_rows(list.picks, rows) {
                        Err(e) => Err(e),
                        Ok(projected) => Ok(
                            (
                                RowsPlanV {
                                    columns: list.columns,
                                    rows: limited(
                                        if s.distinct {
                                            distinct_rows(projected)
                                        } else {
                                            projected
                                        },
                                        s.limit,
                                    ),
                                    source: list_source(r, built.len() as int),
                                    text: statement_words(r, s),
                                    filters: filter_texts(filters, r.columns),
                                    order,
                                    limit: s.limit,
                                    distinct: s.distinct,
                                    explain,
                                },
                                log,
                            ),
                        ),
                    },
                },
            },
        }
    }
}

fn reverse_rows(rows: Vec<Vec<SqlValue>>, width: usize) -> (r: Vec<Vec<SqlValue>>)
    requires
        have_width(rows@, width as nat),
    ensures
        r.deep_view() == rows.deep_view().reverse(),
        have_width(r@, width as nat),
{
    let ghost original = rows@;
    let ghost all = rows.deep_view();
    let mut rest = rows;
    let mut out: Vec<Vec<SqlValue>> = Vec::new();
    while rest.len() > 0
        invariant
            rest@.len() + out@.len() == original.len(),
            rest@ == original.take(rest@.len() as int),
            forall|k: int|
                0 <= k < out@.len() ==> (#[trigger] out@[k]) == original[original.len() - 1 - k],
        decreases rest@.len(),
    {
        let ghost before = rest@;
        match rest.pop() {
            Some(row) => {
                assert(rest@ =~= original.take(rest@.len() as int));
                assert(row == original[rest@.len() as int]);
                out.push(row);
            },
            None => {},
        }
    }
    assert(out.deep_view() =~= all.reverse());
    assert(forall|k: int| 0 <= k < out@.len() ==> (#[trigger] out@[k])@.len() == width);
    out
}

fn order_list(
    relation: &CatalogRelation,
    key: &Option<OrderKey>,
    rows: Vec<Vec<SqlValue>>,
) -> (r: Result<(Vec<Vec<SqlValue>>, Option<String>), SqlError>)
    requires
        have_width(rows@, relation.columns@.len()),
    ensures
        match ordered_rows(relation.deep_view(), key.deep_view(), rows.deep_view()) {
            Ok((l, o)) => {
                &&& r is Ok
                &&& r->Ok_0.0.deep_view() == l
                &&& r->Ok_0.1.deep_view() == o
                &&& have_width(r->Ok_0.0@, relation.columns@.len())
            },
            Err(e) => r is Err && r->Err_0.deep_view() == e,
        },
{
    match key {
        None => Ok((rows, None)),
        Some(OrderKey::Column { column, descending }) => {
            let at = catalog_column(relation, column.as_str())?;
            let sorted = sort_rows(rows, at);
            let width: usize = relation.columns.len();
            proof {
                sorted_width(rows, sorted, at, width as nat);
            }
            if *descending {
                let out = reverse_rows(sorted, width);
                Ok((out, Some(cat2(column.as_str(), " DESC"))))
            } else {
                Ok((sorted, Some(cat2(column.as_str(), " ASC"))))
            }
        },
        Some(_) => Err(
            SqlError::Unsupported(
                cat3(
                    "`",
                    relation.written().as_str(),
                    "` is ordered by one of its own columns: a distance, a vector or a ranking key names an index, and a catalog view has none",
                ),
            ),
        ),
    }
}

proof fn sorted_width(rows: Vec<Vec<SqlValue>>, sorted: Vec<Vec<SqlValue>>, at: usize, width: nat)
    requires
        have_width(rows@, width),
        sorted.deep_view() == sorted_rows(rows.deep_view(), at as int),
    ensures
        have_width(sorted@, width),
{
    let a = rows.deep_view();
    let b = sorted.deep_view();
    sorted_is_permutation(a, at as int);
    broadcast use vstd::seq_lib::group_to_multiset_ensures;

    assert forall|k: int| 0 <= k < sorted@.len() implies (#[trigger] sorted@[k])@.len() == width by {
        assert(b[k] == sorted@[k].deep_view());
        assert(b.contains(b[k]));
        assert(b.to_multiset().contains(b[k]));
        assert(a.to_multiset().contains(b[k]));
        assert(a.contains(b[k]));
        let j = choose|j: int| 0 <= j < a.len() && a[j] == b[k];
        assert(a[j] == rows@[j].deep_view());
        assert(a[j].len() == rows@[j]@.len());
        assert(b[k].len() == sorted@[k]@.len());
    }
}

fn limit_rows(rows: Vec<Vec<SqlValue>>, limit: Option<usize>) -> (r: Vec<Vec<SqlValue>>)
    ensures
        r.deep_view() == limited(rows.deep_view(), limit),
{
    let ghost all = rows.deep_view();
    let mut out = rows;
    if let Some(n) = limit {
        if n < out.len() {
            out.truncate(n);
            assert(out.deep_view() =~= all.take(n as int));
        }
    }
    out
}

/// A `SELECT` over a relation of the catalog.
pub fn catalog_select(
    binder: &Binder,
    snap: &Snapshot,
    id: RelationId,
    s: &SelectStmt,
    explain: bool,
    log: &mut Log,
) -> (r: Result<RowsPlan, SqlError>)
    ensures
        logged(
            r,
            *final(log),
            catalog_select_of(
                binder.deep_view(),
                snap.deep_view(),
                id,
                s.deep_view(),
                explain,
                old(log).deep_view(),
            ),
        ),
{
    let relation = relation_by(id);
    assert(relation.columns@.len() == relation.deep_view().columns.len());
    if s.group.is_some() || s.having.len() > 0 {
        return Err(
            SqlError::Unsupported(
                cat3(
                    "GROUP BY / HAVING over `",
                    relation.written().as_str(),
                    "`: the catalog views are a bounded in-memory row list with no aggregate driver, so a folded answer over them has no atomic. Read the rows and fold them in the caller",
                ),
            ),
        );
    }
    if holds_aggregate(&s.items) {
        return Err(
            SqlError::Unsupported(
                cat3(
                    "an aggregate over `",
                    relation.written().as_str(),
                    "`: the catalog views are a bounded in-memory row list with no aggregate driver. Read the rows and fold them in the caller",
                ),
            ),
        );
    }
    let (built, notice) = contents_of(id, snap);
    if let Some(text) = notice {
        log.note(text);
    }
    let total: usize = built.len();
    let list = pick_list(&relation, &s.items)?;
    let filters = catalog_filters(binder, &relation, &s.predicates, log)?;
    let written = written_all(&filters, &relation);
    let width: usize = relation.columns.len();
    let rows = keep_rows(built, &filters, width);
    let (rows, order) = order_list(&relation, &s.order, rows)?;
    let projected = project_rows(&list.picks, &rows, width)?;
    let projected = if s.distinct {
        drop_repeats(projected)
    } else {
        projected
    };
    let projected = limit_rows(projected, s.limit);
    let source = cat5(
        "rows(",
        relation.written().as_str(),
        "): ",
        decimal_usize(total).as_str(),
        " row(s) built from the catalog at prepare",
    );
    let text = statement_text(&relation, s);
    Ok(
        RowsPlan {
            columns: list.columns,
            rows: projected,
            source,
            text,
            filters: written,
            order,
            limit: s.limit,
            distinct: s.distinct,
            explain,
        },
    )
}

} // verus!
