//! `SELECT` without a source, and the `SHOW` family.

use vstd::prelude::*;
use crate::catalog::contents::{contents_of, relation_notice, relation_rows};
use crate::catalog::relations::{
    relation_by, relation_with, CatalogRelation, CatalogRelationV, RelationId,
};
use crate::catalog::snapshot::{rule_from, rule_of, Snapshot, SnapshotV};
use crate::catalog::types::{
    declared_of, declared_text, target_of, target_text, DATABASE, PUBLIC, USER,
};
use crate::compile::bind::{Binder, BinderV};
use crate::compile::ddl::{generator_words, write_generator};
use crate::compile::env::{
    collection_named, collection_of, declared_from, declared_in, Catalog, CatalogV, Collection,
    CollectionV, IndexFamily, IndexInfo, IndexInfoV, KEY_COLUMN,
};
use crate::compile::listing::{have_width, list_source, noticed, RowsPlan, RowsPlanV};
use crate::compile::log::{logged, Log, LogV};
use crate::compile::select::{title_or, titled};
use crate::compile::views::{catalog_column, catalog_column_of, catalog_value, catalog_value_of};
use crate::error::{gives, SqlError, SqlErrorV};
use crate::guc::{client_guc, guc_value};
use crate::lists::{take_all, take_next};
use crate::stmt::{SessionItem, SessionItemV, Show, ShowV};
use crate::text::{
    ascii_lower, cat2, cat3, cat4, cat5, cat6, decimal, decimal_usize, join, joined, lower, owned,
    same, texts,
};
use crate::value::{ColumnRuleV, Kind, SqlValue, SqlValueV};

verus! {

/// What `SELECT version()` answers: drivers read the PostgreSQL version, and the
/// engine that answers stands in the brackets.
pub const VERSION: &'static str = "PostgreSQL 16.0 (sekejap 0.17.0)";

/// What `SELECT db_version()` answers.
pub const DB_VERSION: &'static str = "sekejap 0.17.0";

/// A plan of rows that nothing was applied to.
pub open spec fn plain_plan(
    columns: Seq<Seq<char>>,
    rows: Seq<Seq<SqlValueV>>,
    source: Seq<char>,
    text: Seq<char>,
    filters: Seq<Seq<char>>,
) -> RowsPlanV {
    RowsPlanV {
        columns,
        rows,
        source,
        text,
        filters,
        order: None,
        limit: None,
        distinct: false,
        explain: false,
    }
}

fn plain(
    columns: Vec<String>,
    rows: Vec<Vec<SqlValue>>,
    source: String,
    text: String,
    filters: Vec<String>,
) -> (r: RowsPlan)
    ensures
        r.deep_view() == plain_plan(
            texts(columns@),
            rows.deep_view(),
            source@,
            text@,
            texts(filters@),
        ),
{
    RowsPlan {
        columns,
        rows,
        source,
        text,
        filters,
        order: None,
        limit: None,
        distinct: false,
        explain: false,
    }
}

// ── SELECT without a source ──────────────────────────────────────────────

/// The title of an item that has no alias.
pub open spec fn session_title(item: SessionItemV) -> Seq<char> {
    match item {
        SessionItemV::Version => "version"@,
        SessionItemV::DbVersion => "db_version"@,
        SessionItemV::CurrentSchema => "current_schema"@,
        SessionItemV::CurrentDatabase => "current_database"@,
        SessionItemV::CurrentUser => "current_user"@,
        SessionItemV::BackendPid => "pg_backend_pid"@,
        SessionItemV::Setting(_) => "current_setting"@,
        SessionItemV::Lit(_) => "?column?"@,
    }
}

impl SessionItem {
    /// The title of the item where it has no alias.
    pub fn column(&self) -> (r: String)
        ensures
            r@ == session_title(self.deep_view()),
    {
        match self {
            SessionItem::Version => owned("version"),
            SessionItem::DbVersion => owned("db_version"),
            SessionItem::CurrentSchema => owned("current_schema"),
            SessionItem::CurrentDatabase => owned("current_database"),
            SessionItem::CurrentUser => owned("current_user"),
            SessionItem::BackendPid => owned("pg_backend_pid"),
            SessionItem::Setting(_) => owned("current_setting"),
            SessionItem::Lit(_) => owned("?column?"),
        }
    }
}

/// The value of an item, in the process numbered `pid`.
pub open spec fn session_value(b: BinderV, pid: u32, item: SessionItemV, log: LogV) -> Result<
    (SqlValueV, LogV),
    SqlErrorV,
> {
    match item {
        SessionItemV::Version => Ok((SqlValueV::Text(VERSION@), log)),
        SessionItemV::DbVersion => Ok((SqlValueV::Text(DB_VERSION@), log)),
        SessionItemV::CurrentSchema => Ok((SqlValueV::Text(PUBLIC@), log)),
        SessionItemV::CurrentDatabase => Ok((SqlValueV::Text(DATABASE@), log)),
        SessionItemV::CurrentUser => Ok((SqlValueV::Text(USER@), log)),
        SessionItemV::BackendPid => Ok((SqlValueV::Int(pid as i64), log)),
        SessionItemV::Setting(name) => Ok(
            (
                match guc_value(name) {
                    Some(value) => SqlValueV::Text(value),
                    None => SqlValueV::Null,
                },
                log,
            ),
        ),
        SessionItemV::Lit(literal) => catalog_value_of(b, literal, log),
    }
}

fn session_cell(binder: &Binder, pid: u32, item: &SessionItem, log: &mut Log) -> (r: Result<
    SqlValue,
    SqlError,
>)
    ensures
        logged(
            r,
            *final(log),
            session_value(binder.deep_view(), pid, item.deep_view(), old(log).deep_view()),
        ),
{
    match item {
        SessionItem::Version => Ok(SqlValue::Text(owned(VERSION))),
        SessionItem::DbVersion => Ok(SqlValue::Text(owned(DB_VERSION))),
        SessionItem::CurrentSchema => Ok(SqlValue::Text(owned(PUBLIC))),
        SessionItem::CurrentDatabase => Ok(SqlValue::Text(owned(DATABASE))),
        SessionItem::CurrentUser => Ok(SqlValue::Text(owned(USER))),
        SessionItem::BackendPid => Ok(SqlValue::Int(pid as i64)),
        SessionItem::Setting(name) => match client_guc(name.as_str()) {
            Some(value) => Ok(SqlValue::Text(owned(value))),
            None => Ok(SqlValue::Null),
        },
        SessionItem::Lit(literal) => catalog_value(binder, literal, log),
    }
}

/// The titles and the values of the items.
pub open spec fn session_items(
    b: BinderV,
    pid: u32,
    items: Seq<(SessionItemV, Option<Seq<char>>)>,
    log: LogV,
) -> Result<(Seq<Seq<char>>, Seq<SqlValueV>, LogV), SqlErrorV>
    decreases items.len(),
{
    if items.len() == 0 {
        Ok((Seq::empty(), Seq::empty(), log))
    } else {
        match session_items(b, pid, items.drop_last(), log) {
            Err(e) => Err(e),
            Ok((columns, row, log)) => {
                let (item, alias) = items.last();
                match session_value(b, pid, item, log) {
                    Err(e) => Err(e),
                    Ok((v, log)) => Ok(
                        (columns.push(title_or(alias, session_title(item))), row.push(v), log),
                    ),
                }
            },
        }
    }
}

proof fn session_items_stop(
    b: BinderV,
    pid: u32,
    items: Seq<(SessionItemV, Option<Seq<char>>)>,
    log: LogV,
    n: int,
)
    requires
        0 <= n <= items.len(),
        session_items(b, pid, items.take(n), log) is Err,
    ensures
        session_items(b, pid, items, log) == session_items(b, pid, items.take(n), log),
    decreases items.len() - n,
{
    if n < items.len() {
        take_next(items, n);
        session_items_stop(b, pid, items, log, n + 1);
    } else {
        take_all(items);
    }
}

pub const SESSION_SOURCE: &'static str =
    "rows(session): one row of constants; no catalog is read";

/// A `SELECT` without a source is one row of constants.
#[verifier::opaque]
pub open spec fn session_rows_of(
    b: BinderV,
    pid: u32,
    items: Seq<(SessionItemV, Option<Seq<char>>)>,
    log: LogV,
) -> Result<(RowsPlanV, LogV), SqlErrorV> {
    match session_items(b, pid, items, log) {
        Err(e) => Err(e),
        Ok((columns, row, log)) => Ok(
            (
                plain_plan(
                    columns,
                    seq![row],
                    SESSION_SOURCE@,
                    "SELECT "@ + joined(columns, ", "@),
                    Seq::empty(),
                ),
                log,
            ),
        ),
    }
}

/// A `SELECT` without a source, in the process numbered `pid`.
pub fn session_rows(
    binder: &Binder,
    pid: u32,
    items: &Vec<(SessionItem, Option<String>)>,
    log: &mut Log,
) -> (r: Result<RowsPlan, SqlError>)
    ensures
        logged(
            r,
            *final(log),
            session_rows_of(binder.deep_view(), pid, items.deep_view(), old(log).deep_view()),
        ),
{
    proof {
        reveal(session_rows_of);
    }
    let ghost all = items.deep_view();
    let ghost b = binder.deep_view();
    let ghost start = log.deep_view();
    let mut columns: Vec<String> = Vec::new();
    let mut row: Vec<SqlValue> = Vec::new();
    let mut i: usize = 0;
    assert(all.take(0) =~= Seq::<(SessionItemV, Option<Seq<char>>)>::empty());
    assert(texts(columns@) =~= Seq::<Seq<char>>::empty());
    assert(row.deep_view() =~= Seq::<SqlValueV>::empty());
    while i < items.len()
        invariant
            i <= items@.len(),
            all == items.deep_view(),
            b == binder.deep_view(),
            start == old(log).deep_view(),
            session_items(b, pid, all.take(i as int), start) == Ok::<
                (Seq<Seq<char>>, Seq<SqlValueV>, LogV),
                SqlErrorV,
            >((texts(columns@), row.deep_view(), log.deep_view())),
        decreases items@.len() - i,
    {
        proof {
            take_next(all, i as int);
            assert(all[i as int] == items@[i as int].deep_view());
        }
        let title = titled(&items[i].1, items[i].0.column().as_str());
        match session_cell(binder, pid, &items[i].0, log) {
            Ok(v) => {
                let ghost before = row.deep_view();
                let ghost titles = columns@;
                row.push(v);
                columns.push(title);
                assert(row.deep_view() =~= before.push(v.deep_view()));
                assert(texts(columns@) =~= texts(titles).push(title@));
            },
            Err(e) => {
                proof {
                    session_items_stop(b, pid, all, start, i as int + 1);
                    reveal(session_rows_of);
                }
                return Err(e);
            },
        }
        i = i + 1;
    }
    proof {
        take_all(all);
    }
    let text = cat2("SELECT ", join(&columns, ", ").as_str());
    let ghost view = row.deep_view();
    let rows = vec![row];
    assert(rows.deep_view() =~= seq![view]);
    let filters: Vec<String> = Vec::new();
    assert(texts(filters@) =~= Seq::<Seq<char>>::empty());
    Ok(plain(columns, rows, owned(SESSION_SOURCE), text, filters))
}

// ── SHOW over a relation ─────────────────────────────────────────────────

/// Where each of the named columns stands.
pub open spec fn places_of(r: CatalogRelationV, names: Seq<Seq<char>>) -> Result<
    Seq<usize>,
    SqlErrorV,
>
    decreases names.len(),
{
    if names.len() == 0 {
        Ok(Seq::empty())
    } else {
        match places_of(r, names.drop_last()) {
            Err(e) => Err(e),
            Ok(done) => match catalog_column_of(r, names.last()) {
                Err(e) => Err(e),
                Ok(at) => Ok(done.push(at)),
            },
        }
    }
}

proof fn places_stop(r: CatalogRelationV, names: Seq<Seq<char>>, n: int)
    requires
        0 <= n <= names.len(),
        places_of(r, names.take(n)) is Err,
    ensures
        places_of(r, names) == places_of(r, names.take(n)),
    decreases names.len() - n,
{
    if n < names.len() {
        take_next(names, n);
        places_stop(r, names, n + 1);
    } else {
        take_all(names);
    }
}

/// The columns that are printed: those named, or all of them.
pub open spec fn printed(r: CatalogRelationV, names: Seq<Seq<char>>) -> Result<
    Seq<usize>,
    SqlErrorV,
> {
    if names.len() == 0 {
        Ok(Seq::new(r.columns.len(), |i: int| i as usize))
    } else {
        places_of(r, names)
    }
}

pub open spec fn cells_at(row: Seq<SqlValueV>, places: Seq<usize>) -> Seq<SqlValueV> {
    places.map_values(|at: usize| row[at as int])
}

/// The rows whose cell at `at` is the text `value`.
pub open spec fn rows_with(rows: Seq<Seq<SqlValueV>>, at: int, value: Seq<char>) -> Seq<
    Seq<SqlValueV>,
> {
    rows.filter(|row: Seq<SqlValueV>| row[at] == SqlValueV::Text(value))
}

/// The cells of the printed columns, of each row.
pub open spec fn cells_of(rows: Seq<Seq<SqlValueV>>, places: Seq<usize>) -> Seq<Seq<SqlValueV>> {
    rows.map_values(|row: Seq<SqlValueV>| cells_at(row, places))
}

pub open spec fn titles_at(r: CatalogRelationV, places: Seq<usize>) -> Seq<Seq<char>> {
    places.map_values(|at: usize| r.columns[at as int].name)
}

/// One form of `SHOW`: the rows of a relation, of one table where `table` is
/// given, in the named columns.
pub open spec fn show_relation_of(
    snap: SnapshotV,
    id: RelationId,
    text: Seq<char>,
    table: Option<Seq<char>>,
    names: Seq<Seq<char>>,
    log: LogV,
) -> Result<(RowsPlanV, LogV), SqlErrorV> {
    let r = relation_with(id);
    let built = relation_rows(id, snap);
    let log = noticed(log, relation_notice(id, snap));
    let kept = match table {
        None => Ok::<Seq<Seq<SqlValueV>>, SqlErrorV>(built),
        Some(table) => match catalog_column_of(r, "table"@) {
            Err(e) => Err(e),
            Ok(at) => Ok(rows_with(built, at as int, table)),
        },
    };
    match kept {
        Err(e) => Err(e),
        Ok(rows) => match printed(r, names) {
            Err(e) => Err(e),
            Ok(places) => Ok(
                (
                    plain_plan(
                        titles_at(r, places),
                        cells_of(rows, places),
                        list_source(r, built.len() as int),
                        text,
                        match table {
                            None => Seq::empty(),
                            Some(table) => seq!["table = '"@ + table + "'"@],
                        },
                    ),
                    log,
                ),
            ),
        },
    }
}

fn find_places(relation: &CatalogRelation, names: &Vec<String>) -> (r: Result<Vec<usize>, SqlError>)
    ensures
        match printed(relation.deep_view(), texts(names@)) {
            Ok(l) => r is Ok && r->Ok_0@ == l && forall|k: int|
                0 <= k < l.len() ==> #[trigger] l[k] < relation.columns@.len(),
            Err(e) => r is Err && r->Err_0.deep_view() == e,
        },
{
    let ghost rel = relation.deep_view();
    let ghost all = texts(names@);
    let mut out: Vec<usize> = Vec::new();
    let mut i: usize = 0;
    if names.len() == 0 {
        while i < relation.columns.len()
            invariant
                i <= relation.columns@.len(),
                out@.len() == i,
                forall|k: int| 0 <= k < i ==> #[trigger] out@[k] == k,
            decreases relation.columns@.len() - i,
        {
            out.push(i);
            i = i + 1;
        }
        assert(out@ =~= Seq::new(rel.columns.len(), |i: int| i as usize));
        return Ok(out);
    }
    assert(all.take(0) =~= Seq::<Seq<char>>::empty());
    while i < names.len()
        invariant
            i <= names@.len(),
            names@.len() > 0,
            all == texts(names@),
            rel == relation.deep_view(),
            places_of(rel, all.take(i as int)) == Ok::<Seq<usize>, SqlErrorV>(out@),
            forall|k: int| 0 <= k < out@.len() ==> #[trigger] out@[k] < relation.columns@.len(),
        decreases names@.len() - i,
    {
        proof {
            take_next(all, i as int);
            assert(all[i as int] == names@[i as int]@);
        }
        match catalog_column(relation, names[i].as_str()) {
            Ok(at) => {
                out.push(at);
            },
            Err(e) => {
                proof {
                    places_stop(rel, all, i as int + 1);
                }
                return Err(e);
            },
        }
        i = i + 1;
    }
    proof {
        take_all(all);
    }
    Ok(out)
}

fn rows_of_table(rows: Vec<Vec<SqlValue>>, at: usize, value: &str, width: usize) -> (r: Vec<
    Vec<SqlValue>,
>)
    requires
        at < width,
        have_width(rows@, width as nat),
    ensures
        r.deep_view() == rows_with(rows.deep_view(), at as int, value@),
        have_width(r@, width as nat),
{
    let ghost all = rows.deep_view();
    let ghost original = rows@;
    let ghost keep = |row: Seq<SqlValueV>| row[at as int] == SqlValueV::Text(value@);
    let n: usize = rows.len();
    let mut rest = rows;
    let mut out: Vec<Vec<SqlValue>> = Vec::new();
    let mut i: usize = 0;
    assert(all.take(0) =~= Seq::<Seq<SqlValueV>>::empty());
    assert(out.deep_view() =~= Seq::<Seq<SqlValueV>>::empty());
    proof {
        reveal(Seq::filter);
    }
    while i < n
        invariant
            i <= n,
            n == original.len(),
            all == rows.deep_view(),
            original == rows@,
            rest@ == original.skip(i as int),
            at < width,
            have_width(original, width as nat),
            have_width(out@, width as nat),
            keep == (|row: Seq<SqlValueV>| row[at as int] == SqlValueV::Text(value@)),
            out.deep_view() == all.take(i as int).filter(keep),
        decreases n - i,
    {
        proof {
            take_next(all, i as int);
            assert(rest@[0] == original[i as int]);
            assert(all[i as int] == original[i as int].deep_view());
            reveal(Seq::filter);
        }
        let row = rest.remove(0);
        assert(rest@ =~= original.skip(i as int + 1));
        let equal = match &row[at] {
            SqlValue::Text(text) => same(text.as_str(), value),
            _ => false,
        };
        if equal {
            let ghost before = out.deep_view();
            let ghost view = row.deep_view();
            out.push(row);
            assert(out.deep_view() =~= before.push(view));
        }
        i = i + 1;
    }
    proof {
        take_all(all);
    }
    out
}

fn pick_cells(rows: &Vec<Vec<SqlValue>>, places: &Vec<usize>, width: usize) -> (r: Vec<
    Vec<SqlValue>,
>)
    requires
        have_width(rows@, width as nat),
        forall|k: int| 0 <= k < places@.len() ==> #[trigger] places@[k] < width,
    ensures
        r.deep_view() == cells_of(rows.deep_view(), places@),
{
    let ghost all = rows.deep_view();
    let mut out: Vec<Vec<SqlValue>> = Vec::new();
    let mut i: usize = 0;
    while i < rows.len()
        invariant
            i <= rows@.len(),
            all == rows.deep_view(),
            have_width(rows@, width as nat),
            forall|k: int| 0 <= k < places@.len() ==> #[trigger] places@[k] < width,
            out@.len() == i,
            forall|k: int|
                0 <= k < i ==> (#[trigger] out@[k]).deep_view() == cells_at(all[k], places@),
        decreases rows@.len() - i,
    {
        assert(all[i as int] == rows@[i as int].deep_view());
        let mut row: Vec<SqlValue> = Vec::new();
        let mut j: usize = 0;
        while j < places.len()
            invariant
                j <= places@.len(),
                i < rows@.len(),
                all[i as int] == rows@[i as int].deep_view(),
                rows@[i as int]@.len() == width,
                forall|k: int| 0 <= k < places@.len() ==> #[trigger] places@[k] < width,
                row@.len() == j,
                forall|k: int|
                    0 <= k < j ==> (#[trigger] row@[k]).deep_view()
                        == all[i as int][places@[k] as int],
            decreases places@.len() - j,
        {
            let at: usize = places[j];
            row.push(rows[i][at].dup());
            j = j + 1;
        }
        assert(row.deep_view() =~= cells_at(all[i as int], places@));
        out.push(row);
        i = i + 1;
    }
    assert(out.deep_view() =~= cells_of(all, places@));
    out
}

fn titles_of(relation: &CatalogRelation, places: &Vec<usize>) -> (r: Vec<String>)
    requires
        forall|k: int| 0 <= k < places@.len() ==> #[trigger] places@[k] < relation.columns@.len(),
    ensures
        texts(r@) == titles_at(relation.deep_view(), places@),
{
    let ghost all = relation.deep_view().columns;
    let mut out: Vec<String> = Vec::new();
    let mut i: usize = 0;
    while i < places.len()
        invariant
            i <= places@.len(),
            all == relation.columns.deep_view(),
            forall|k: int|
                0 <= k < places@.len() ==> #[trigger] places@[k] < relation.columns@.len(),
            out@.len() == i,
            forall|k: int| 0 <= k < i ==> (#[trigger] out@[k])@ == all[places@[k] as int].name,
        decreases places@.len() - i,
    {
        let at: usize = places[i];
        assert(all[at as int] == relation.columns@[at as int].deep_view());
        out.push(owned(relation.columns[at].name));
        i = i + 1;
    }
    assert(texts(out@) =~= titles_at(relation.deep_view(), places@));
    out
}

fn show_relation(
    snap: &Snapshot,
    id: RelationId,
    text: String,
    table: Option<&str>,
    names: &Vec<String>,
    log: &mut Log,
) -> (r: Result<RowsPlan, SqlError>)
    ensures
        logged(
            r,
            *final(log),
            show_relation_of(
                snap.deep_view(),
                id,
                text@,
                match table {
                    Some(t) => Some(t@),
                    None => None,
                },
                texts(names@),
                old(log).deep_view(),
            ),
        ),
{
    let relation = relation_by(id);
    assert(relation.columns@.len() == relation.deep_view().columns.len());
    let width: usize = relation.columns.len();
    let (built, notice) = contents_of(id, snap);
    if let Some(text) = notice {
        log.note(text);
    }
    let total: usize = built.len();
    let mut filters: Vec<String> = Vec::new();
    assert(texts(filters@) =~= Seq::<Seq<char>>::empty());
    let rows = match table {
        Some(value) => {
            let at = catalog_column(&relation, "table")?;
            filters.push(cat3("table = '", value, "'"));
            assert(texts(filters@) =~= seq!["table = '"@ + value@ + "'"@]);
            rows_of_table(built, at, value, width)
        },
        None => built,
    };
    let places = find_places(&relation, names)?;
    let columns = titles_of(&relation, &places);
    let cells = pick_cells(&rows, &places, width);
    let source = cat5(
        "rows(",
        relation.written().as_str(),
        "): ",
        decimal_usize(total).as_str(),
        " row(s) built from the catalog at prepare",
    );
    Ok(plain(columns, cells, source, text, filters))
}

// ── SHOW CREATE TABLE ────────────────────────────────────────────────────

pub open spec fn rule_words(rule: Option<ColumnRuleV>) -> Seq<char> {
    match rule {
        None => ""@,
        Some(rule) => (match rule.default {
            Some(value) => " DEFAULT "@ + generator_words(value),
            None => ""@,
        }) + (if rule.not_null {
            " NOT NULL"@
        } else {
            ""@
        }),
    }
}

/// The line that declares a column.
pub open spec fn column_line(c: CollectionV, field: Seq<char>, kind: Kind) -> Seq<char> {
    "  "@ + field + " "@ + (match declared_from(c.declared, field, 0) {
        Some(declared) => declared,
        None => declared_text(kind),
    }) + rule_words(rule_from(c.rules, field, 0))
}

/// The lines that declare the columns: the key first, then every field.
pub open spec fn column_lines(c: CollectionV) -> Seq<Seq<char>> {
    seq!["  "@ + KEY_COLUMN@ + " TEXT PRIMARY KEY"@] + c.fields.map_values(
        |f: (Seq<char>, Kind)| column_line(c, f.0, f.1),
    )
}

/// The `CREATE INDEX` that would build an index again.
pub open spec fn index_words(table: Seq<char>, i: IndexInfoV) -> Seq<char> {
    let target = target_text(i.expression, i.field);
    let method = match i.family {
        IndexFamily::Scalar => "btree ("@ + target + ")"@,
        IndexFamily::Text => "gin (to_tsvector('simple', "@ + target + "))"@,
        IndexFamily::SpatialPoint | IndexFamily::SpatialGeometry => "gist ("@ + target + ")"@,
        IndexFamily::ExactVector => "exact ("@ + target + ")"@,
        IndexFamily::QuantizedVector => "quantized ("@ + target + " vector_cosine_ops)"@,
        IndexFamily::VamanaGraph => "vamana ("@ + target + ")"@,
    };
    (if i.unique {
        "CREATE UNIQUE INDEX "@
    } else {
        "CREATE INDEX "@
    }) + i.name + " ON "@ + table + " USING "@ + method
}

/// The statements that would build the first `n` indexes again, each on a line
/// of its own.
pub open spec fn index_lines(table: Seq<char>, list: Seq<IndexInfoV>) -> Seq<char>
    decreases list.len(),
{
    if list.len() == 0 {
        ""@
    } else {
        index_lines(table, list.drop_last()) + "\n"@ + index_words(table, list.last()) + ";"@
    }
}

/// The statements that would build a collection again.
pub open spec fn create_words(table: Seq<char>, c: CollectionV) -> Seq<char> {
    "CREATE TABLE "@ + table + " (\n"@ + joined(column_lines(c), ",\n"@) + "\n);"@ + index_lines(
        table,
        c.indexes,
    )
}

pub open spec fn show_create_of(cat: CatalogV, table: Seq<char>) -> Result<RowsPlanV, SqlErrorV> {
    match collection_of(cat, table) {
        Err(e) => Err(e),
        Ok(c) => Ok(
            plain_plan(
                seq!["create_table"@],
                seq![seq![SqlValueV::Text(create_words(table, c))]],
                "rows(db_columns + db_indexes): one collection's descriptor, "@ + decimal(
                    c.fields.len() as int + 1,
                ) + " column(s)"@,
                "SHOW CREATE TABLE "@ + table,
                Seq::empty(),
            ),
        ),
    }
}

fn written_line(c: &Collection, field: &str, kind: &Kind) -> (r: String)
    ensures
        r@ == column_line(c.deep_view(), field@, *kind),
{
    let declared = match declared_in(&c.declared, field) {
        Some(declared) => declared.clone(),
        None => declared_of(kind),
    };
    let rule = match rule_of(&c.rules, field) {
        None => owned(""),
        Some(rule) => {
            let default = match &rule.default {
                Some(value) => cat2(" DEFAULT ", write_generator(value).as_str()),
                None => owned(""),
            };
            cat2(
                default.as_str(),
                if rule.not_null {
                    " NOT NULL"
                } else {
                    ""
                },
            )
        },
    };
    cat5("  ", field, " ", declared.as_str(), rule.as_str())
}

fn written_lines(c: &Collection) -> (r: Vec<String>)
    ensures
        texts(r@) == column_lines(c.deep_view()),
{
    let ghost view = c.deep_view();
    let ghost all = c.fields.deep_view();
    let mut out: Vec<String> = Vec::new();
    out.push(cat3("  ", KEY_COLUMN, " TEXT PRIMARY KEY"));
    let mut i: usize = 0;
    while i < c.fields.len()
        invariant
            i <= c.fields@.len(),
            view == c.deep_view(),
            all == c.fields.deep_view(),
            out@.len() == i + 1,
            out@[0]@ == "  "@ + KEY_COLUMN@ + " TEXT PRIMARY KEY"@,
            forall|k: int|
                1 <= k < i + 1 ==> (#[trigger] out@[k])@ == column_line(
                    view,
                    all[k - 1].0,
                    all[k - 1].1,
                ),
        decreases c.fields@.len() - i,
    {
        assert(all[i as int] == c.fields@[i as int].deep_view());
        out.push(written_line(c, c.fields[i].0.as_str(), &c.fields[i].1));
        i = i + 1;
    }
    assert(texts(out@) =~= column_lines(view));
    out
}

/// The `CREATE INDEX` that would build an index again.
pub fn index_statement(table: &str, index: &IndexInfo) -> (r: String)
    ensures
        r@ == index_words(table@, index.deep_view()),
{
    let target = target_of(&index.expression, index.field.as_str());
    let t = target.as_str();
    let method = match index.family {
        IndexFamily::Scalar => cat3("btree (", t, ")"),
        IndexFamily::Text => cat3("gin (to_tsvector('simple', ", t, "))"),
        IndexFamily::SpatialPoint | IndexFamily::SpatialGeometry => cat3("gist (", t, ")"),
        IndexFamily::ExactVector => cat3("exact (", t, ")"),
        IndexFamily::QuantizedVector => cat3("quantized (", t, " vector_cosine_ops)"),
        IndexFamily::VamanaGraph => cat3("vamana (", t, ")"),
    };
    cat6(
        if index.unique {
            "CREATE UNIQUE INDEX "
        } else {
            "CREATE INDEX "
        },
        index.name.as_str(),
        " ON ",
        table,
        " USING ",
        method.as_str(),
    )
}

fn written_indexes(table: &str, list: &Vec<IndexInfo>) -> (r: String)
    ensures
        r@ == index_lines(table@, list.deep_view()),
{
    let ghost all = list.deep_view();
    let mut out = owned("");
    let mut i: usize = 0;
    assert(all.take(0) =~= Seq::<IndexInfoV>::empty());
    while i < list.len()
        invariant
            i <= list@.len(),
            all == list.deep_view(),
            out@ == index_lines(table@, all.take(i as int)),
        decreases list@.len() - i,
    {
        proof {
            take_next(all, i as int);
            assert(all[i as int] == list@[i as int].deep_view());
        }
        out = cat4(out.as_str(), "\n", index_statement(table, &list[i]).as_str(), ";");
        i = i + 1;
    }
    proof {
        take_all(all);
    }
    out
}

/// One row of one text.
fn one_text(text: String) -> (r: Vec<Vec<SqlValue>>)
    ensures
        r.deep_view() == seq![seq![SqlValueV::Text(text@)]],
{
    let ghost view = text@;
    let row = vec![SqlValue::Text(text)];
    assert(row.deep_view() =~= seq![SqlValueV::Text(view)]);
    let rows = vec![row];
    assert(rows.deep_view() =~= seq![seq![SqlValueV::Text(view)]]);
    rows
}

/// One title.
fn one_title(text: String) -> (r: Vec<String>)
    ensures
        texts(r@) == seq![text@],
{
    let ghost view = text@;
    let list = vec![text];
    assert(texts(list@) =~= seq![view]);
    list
}

fn no_texts() -> (r: Vec<String>)
    ensures
        texts(r@) == Seq::<Seq<char>>::empty(),
{
    let list: Vec<String> = Vec::new();
    assert(texts(list@) =~= Seq::<Seq<char>>::empty());
    list
}

/// `SHOW CREATE TABLE`.
pub fn show_create_table(cat: &Catalog, table: &str) -> (r: Result<RowsPlan, SqlError>)
    ensures
        gives(r, show_create_of(cat.deep_view(), table@)),
{
    let c = cat.collection(table)?;
    let lines = written_lines(c);
    let ddl = cat6(
        "CREATE TABLE ",
        table,
        " (\n",
        join(&lines, ",\n").as_str(),
        "\n);",
        written_indexes(table, &c.indexes).as_str(),
    );
    assert(lines@.len() == texts(lines@).len());
    let source = cat3(
        "rows(db_columns + db_indexes): one collection's descriptor, ",
        decimal_usize(lines.len()).as_str(),
        " column(s)",
    );
    Ok(
        plain(
            one_title(owned("create_table")),
            one_text(ddl),
            source,
            cat2("SHOW CREATE TABLE ", table),
            no_texts(),
        ),
    )
}

// ── SHOW ─────────────────────────────────────────────────────────────────

pub open spec fn index_columns() -> Seq<Seq<char>> {
    seq!["name"@, "family"@, "field"@, "expression"@, "state"@]
}

pub open spec fn table_columns() -> Seq<Seq<char>> {
    seq!["name"@, "kind"@, "declared_type"@, "position"@, "not_null"@, "has_default"@]
}

/// One of the `SHOW` forms.
#[verifier::opaque]
pub open spec fn show_of(cat: CatalogV, snap: SnapshotV, s: ShowV, log: LogV) -> Result<
    (RowsPlanV, LogV),
    SqlErrorV,
> {
    match s {
        ShowV::Tables => show_relation_of(
            snap,
            RelationId::DbTables,
            "SHOW TABLES"@,
            None,
            Seq::empty(),
            log,
        ),
        ShowV::Edges => show_relation_of(
            snap,
            RelationId::DbEdges,
            "SHOW EDGES"@,
            None,
            Seq::empty(),
            log,
        ),
        ShowV::Indexes(table) => show_relation_of(
            snap,
            RelationId::DbIndexes,
            match table {
                Some(table) => "SHOW INDEXES ON "@ + table,
                None => "SHOW INDEXES"@,
            },
            table,
            index_columns(),
            log,
        ),
        ShowV::CreateTable(table) => match show_create_of(cat, table) {
            Err(e) => Err(e),
            Ok(plan) => Ok((plan, log)),
        },
        ShowV::Name(name) => if collection_named(cat, name) is Some {
            show_relation_of(
                snap,
                RelationId::DbColumns,
                "SHOW "@ + name,
                Some(name),
                table_columns(),
                log,
            )
        } else {
            match guc_value(name) {
                None => Err(
                    SqlErrorV::Unsupported(
                        "SHOW "@ + name
                            + ": there is no collection of that name and no client setting of that name. `SHOW TABLES` lists the collections"@,
                    ),
                ),
                Some(value) => Ok(
                    (
                        plain_plan(
                            seq![lower(name)],
                            seq![seq![SqlValueV::Text(value)]],
                            "rows(session): one client setting, answered from a constant"@,
                            "SHOW "@ + name,
                            Seq::empty(),
                        ),
                        log,
                    ),
                ),
            }
        },
    }
}

fn names_of_index() -> (r: Vec<String>)
    ensures
        texts(r@) == index_columns(),
{
    let list = vec![
        owned("name"),
        owned("family"),
        owned("field"),
        owned("expression"),
        owned("state"),
    ];
    assert(texts(list@) =~= index_columns());
    list
}

fn names_of_table() -> (r: Vec<String>)
    ensures
        texts(r@) == table_columns(),
{
    let list = vec![
        owned("name"),
        owned("kind"),
        owned("declared_type"),
        owned("position"),
        owned("not_null"),
        owned("has_default"),
    ];
    assert(texts(list@) =~= table_columns());
    list
}

/// One of the `SHOW` forms, over what the catalog holds.
pub fn show(cat: &Catalog, snap: &Snapshot, s: &Show, log: &mut Log) -> (r: Result<
    RowsPlan,
    SqlError,
>)
    ensures
        logged(
            r,
            *final(log),
            show_of(cat.deep_view(), snap.deep_view(), s.deep_view(), old(log).deep_view()),
        ),
{
    proof {
        reveal(show_of);
    }
    match s {
        Show::Tables => show_relation(
            snap,
            RelationId::DbTables,
            owned("SHOW TABLES"),
            None,
            &no_texts(),
            log,
        ),
        Show::Edges => show_relation(
            snap,
            RelationId::DbEdges,
            owned("SHOW EDGES"),
            None,
            &no_texts(),
            log,
        ),
        Show::Indexes(table) => match table {
            Some(table) => show_relation(
                snap,
                RelationId::DbIndexes,
                cat2("SHOW INDEXES ON ", table.as_str()),
                Some(table.as_str()),
                &names_of_index(),
                log,
            ),
            None => show_relation(
                snap,
                RelationId::DbIndexes,
                owned("SHOW INDEXES"),
                None,
                &names_of_index(),
                log,
            ),
        },
        Show::CreateTable(table) => show_create_table(cat, table.as_str()),
        Show::Name(name) => {
            if cat.find(name.as_str()).is_some() {
                return show_relation(
                    snap,
                    RelationId::DbColumns,
                    cat2("SHOW ", name.as_str()),
                    Some(name.as_str()),
                    &names_of_table(),
                    log,
                );
            }
            match client_guc(name.as_str()) {
                None => Err(
                    SqlError::Unsupported(
                        cat3(
                            "SHOW ",
                            name.as_str(),
                            ": there is no collection of that name and no client setting of that name. `SHOW TABLES` lists the collections",
                        ),
                    ),
                ),
                Some(value) => Ok(
                    plain(
                        one_title(ascii_lower(name.as_str())),
                        one_text(owned(value)),
                        owned("rows(session): one client setting, answered from a constant"),
                        cat2("SHOW ", name.as_str()),
                        no_texts(),
                    ),
                ),
            }
        },
    }
}

} // verus!
