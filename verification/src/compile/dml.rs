//! Writes: `INSERT`, `UPDATE` and `DELETE`.

use vstd::prelude::*;
use crate::ast::{Literal, LiteralV, TimeUnit};
use crate::compile::bind::{
    geojson_of, geojson_text, geom_from_json, geom_from_text, text_of, value_of, vector_of,
    BinderV, GeomKind, GeomValue, GeomValueV, VectorArg, VectorArgV,
};
use crate::compile::env::{
    collection_of, kind_of, time_column, Collection, CollectionV, KEY_COLUMN,
};
use crate::compile::log::{logged, Env, EnvV, Log, LogV};
use crate::compile::plan::{Stored, StoredV, WritePlan, WritePlanV};
use crate::compile::project::{name_at, name_from};
use crate::error::{gives, SqlError, SqlErrorV};
use crate::instant::{date_trunc, truncated_to};
use crate::lists::{take_all, take_next};
use crate::named::add_entry;
use crate::number::{is_whole, saturated, to_i64, whole};
use crate::text::{cat3, cat5, cat7, decimal, decimal_usize, owned, same, texts};
use crate::timestamp::{instant_of, parse_timestamp};
use crate::value::{json_text, Kind, SqlValue, SqlValueV, Value, ValueV};

verus! {

// ── one stored value ─────────────────────────────────────────────────────

pub open spec fn vector_length(v: VectorArgV) -> int {
    match v {
        VectorArgV::Bits(bits) => bits.len() as int,
        VectorArgV::Written(parts) => parts.len() as int,
    }
}

fn length_of(v: &VectorArg) -> (r: usize)
    ensures
        r == vector_length(v.deep_view()),
{
    match v {
        VectorArg::Bits(bits) => bits.len(),
        VectorArg::Written(parts) => {
            assert(texts(parts@).len() == parts@.len());
            parts.len()
        },
    }
}

pub open spec fn kind_mismatch(column: Seq<char>, what: Seq<char>, v: ValueV) -> SqlErrorV {
    SqlErrorV::Parameter("`"@ + column + what + json_text(v))
}

fn mismatch(column: &str, what: &str, v: &Value) -> (r: SqlError)
    ensures
        r.deep_view() == kind_mismatch(column@, what@, v.deep_view()),
{
    SqlError::Parameter(crate::text::cat4("`", column, what, v.json().as_str()))
}

/// Whether a geometry is a point.
pub open spec fn is_point(g: GeomValueV) -> bool {
    g is Point || (g matches GeomValueV::Json { kind, .. } && kind == GeomKind::Point)
}

/// A written value, held against the declared kind of its column.
pub open spec fn document_value(b: BinderV, kind: Kind, l: LiteralV, column: Seq<char>) -> Result<
    StoredV,
    SqlErrorV,
> {
    match value_of(b, l) {
        Err(e) => Err(e),
        Ok(ValueV::Null) => Ok(StoredV::Value(ValueV::Null)),
        Ok(v) => match kind {
            Kind::Vector(n) => match vector_of(b, l) {
                Err(e) => Err(e),
                Ok(vector) => if vector_length(vector) != n {
                    Err(
                        SqlErrorV::Parameter(
                            "`"@ + column + "` is VECTOR("@ + decimal(n as int)
                                + ") and the value has "@ + decimal(vector_length(vector))
                                + " dimension(s)"@,
                        ),
                    )
                } else {
                    Ok(StoredV::Vector(vector))
                },
            },
            Kind::Point | Kind::Geo => match geom_from_text(
                geojson_text(v),
                "`"@ + column + "`: GeoJSON: "@,
            ) {
                Err(e) => Err(e),
                Ok(g) => if kind == Kind::Point && !is_point(g) {
                    Err(
                        SqlErrorV::Parameter(
                            "`"@ + column
                                + "` is GEOMETRY(Point,4326) and the value is not a Point"@,
                        ),
                    )
                } else {
                    Ok(StoredV::Json(geojson_text(v)))
                },
            },
            Kind::Int => if v is Int {
                Ok(StoredV::Value(v))
            } else {
                Err(kind_mismatch(column, "` is an integer column and the value is "@, v))
            },
            Kind::Real => if v is Int || v is Real {
                Ok(StoredV::Value(v))
            } else {
                Err(kind_mismatch(column, "` is REAL and the value is "@, v))
            },
            Kind::Text => if v is Text {
                Ok(StoredV::Value(v))
            } else {
                Err(kind_mismatch(column, "` is TEXT and the value is "@, v))
            },
            Kind::Bool => if v is Bool {
                Ok(StoredV::Value(v))
            } else {
                Err(kind_mismatch(column, "` is BOOLEAN and the value is "@, v))
            },
            Kind::Json => Ok(StoredV::Value(v)),
        },
    }
}

/// The instant that a value writes, for a column declared `declared`.
pub open spec fn time_micros(v: ValueV, column: Seq<char>, declared: Seq<char>) -> Result<
    i64,
    SqlErrorV,
> {
    match v {
        ValueV::Text(text) => instant_of(text),
        ValueV::Int(n) => Ok(n),
        ValueV::Real(n) => Err(
            SqlErrorV::Parameter(
                "`"@ + column + "` is declared "@ + declared
                    + " and stores whole microseconds; "@ + n.json + " is not a whole number"@,
            ),
        ),
        other => Err(
            SqlErrorV::Parameter(
                "`"@ + column + "` is declared "@ + declared + " and "@ + json_text(other)
                    + " is neither a date/time literal nor a whole number of microseconds"@,
            ),
        ),
    }
}

/// A written value for a declared instant. A `DATE` is midnight UTC of its
/// day, and a literal with a time of day is refused, not cut.
pub open spec fn time_document_value(
    b: BinderV,
    l: LiteralV,
    column: Seq<char>,
    declared: Seq<char>,
) -> Result<StoredV, SqlErrorV> {
    match value_of(b, l) {
        Err(e) => Err(e),
        Ok(ValueV::Null) => Ok(StoredV::Value(ValueV::Null)),
        Ok(v) => match time_micros(v, column, declared) {
            Err(e) => Err(e),
            Ok(t) => if declared != "DATE"@ {
                Ok(StoredV::Value(ValueV::Int(t)))
            } else {
                match truncated_to(TimeUnit::Day, t) {
                    Err(e) => Err(e),
                    Ok(start) => if t != start {
                        Err(
                            SqlErrorV::Parameter(
                                "`"@ + column
                                    + "` is declared DATE, which is midnight UTC of its day; `"@
                                    + json_text(v)
                                    + "` carries a time of day and would be truncated silently"@,
                            ),
                        )
                    } else {
                        Ok(StoredV::Value(ValueV::Int(t)))
                    },
                }
            },
        },
    }
}

/// A written value for one column of collection `c`.
pub open spec fn column_value(b: BinderV, c: CollectionV, l: LiteralV, column: Seq<char>) -> Result<
    StoredV,
    SqlErrorV,
> {
    match kind_of(c, column) {
        Err(e) => Err(e),
        Ok(kind) => match time_column(c, column) {
            Err(e) => Err(e),
            Ok(Some(declared)) => time_document_value(b, l, column, declared),
            Ok(None) => document_value(b, kind, l, column),
        },
    }
}

fn read_micros(v: &Value, column: &str, declared: &str) -> (r: Result<i64, SqlError>)
    ensures
        gives(r, time_micros(v.deep_view(), column@, declared@)),
{
    match v {
        Value::Text(text) => parse_timestamp(text.as_str()),
        Value::Int(n) => Ok(*n),
        Value::Real(n) => Err(
            SqlError::Parameter(
                cat7(
                    "`",
                    column,
                    "` is declared ",
                    declared,
                    " and stores whole microseconds; ",
                    n.json.as_str(),
                    " is not a whole number",
                ),
            ),
        ),
        other => Err(
            SqlError::Parameter(
                cat7(
                    "`",
                    column,
                    "` is declared ",
                    declared,
                    " and ",
                    other.json().as_str(),
                    " is neither a date/time literal nor a whole number of microseconds",
                ),
            ),
        ),
    }
}

fn point_value(g: &GeomValue) -> (r: bool)
    ensures
        r == is_point(g.deep_view()),
{
    match g {
        GeomValue::Point(_) => true,
        GeomValue::Envelope(_) => false,
        GeomValue::Json { kind, .. } => *kind == GeomKind::Point,
    }
}

impl<'a> Env<'a> {
    fn document_value(&self, kind: Kind, literal: &Literal, column: &str) -> (r: Result<
        Stored,
        SqlError,
    >)
        ensures
            gives(
                r,
                document_value(self.deep_view().binder, kind, literal.deep_view(), column@),
            ),
    {
        let value = self.binder.value_of(literal)?;
        if let Value::Null = value {
            return Ok(Stored::Value(Value::Null));
        }
        match kind {
            Kind::Vector(n) => {
                let vector = self.binder.vector_of(literal)?;
                let length = length_of(&vector);
                if length != n {
                    return Err(
                        SqlError::Parameter(
                            cat7(
                                "`",
                                column,
                                "` is VECTOR(",
                                decimal_usize(n).as_str(),
                                ") and the value has ",
                                decimal_usize(length).as_str(),
                                " dimension(s)",
                            ),
                        ),
                    );
                }
                Ok(Stored::Vector(vector))
            },
            Kind::Point | Kind::Geo => {
                let text = geojson_of(&value);
                let label = cat3("`", column, "`: GeoJSON: ");
                let g = geom_from_json(text.as_str(), label.as_str())?;
                if kind == Kind::Point && !point_value(&g) {
                    return Err(
                        SqlError::Parameter(
                            cat3(
                                "`",
                                column,
                                "` is GEOMETRY(Point,4326) and the value is not a Point",
                            ),
                        ),
                    );
                }
                Ok(Stored::Json(text))
            },
            Kind::Int => match &value {
                Value::Int(_) => Ok(Stored::Value(value)),
                _ => Err(mismatch(column, "` is an integer column and the value is ", &value)),
            },
            Kind::Real => match &value {
                Value::Int(_) => Ok(Stored::Value(value)),
                Value::Real(_) => Ok(Stored::Value(value)),
                _ => Err(mismatch(column, "` is REAL and the value is ", &value)),
            },
            Kind::Text => match &value {
                Value::Text(_) => Ok(Stored::Value(value)),
                _ => Err(mismatch(column, "` is TEXT and the value is ", &value)),
            },
            Kind::Bool => match &value {
                Value::Bool(_) => Ok(Stored::Value(value)),
                _ => Err(mismatch(column, "` is BOOLEAN and the value is ", &value)),
            },
            Kind::Json => Ok(Stored::Value(value)),
        }
    }

    fn time_document_value(&self, literal: &Literal, column: &str, declared: &str) -> (r: Result<
        Stored,
        SqlError,
    >)
        ensures
            gives(
                r,
                time_document_value(
                    self.deep_view().binder,
                    literal.deep_view(),
                    column@,
                    declared@,
                ),
            ),
    {
        let value = self.binder.value_of(literal)?;
        if let Value::Null = value {
            return Ok(Stored::Value(Value::Null));
        }
        let t = read_micros(&value, column, declared)?;
        if same(declared, "DATE") {
            let start = date_trunc(TimeUnit::Day, t)?;
            if t != start {
                return Err(
                    SqlError::Parameter(
                        cat5(
                            "`",
                            column,
                            "` is declared DATE, which is midnight UTC of its day; `",
                            value.json().as_str(),
                            "` carries a time of day and would be truncated silently",
                        ),
                    ),
                );
            }
        }
        Ok(Stored::Value(Value::Int(t)))
    }

    /// A written value, held against the column it is written to.
    pub fn column_value(&self, c: &Collection, literal: &Literal, column: &str) -> (r: Result<
        Stored,
        SqlError,
    >)
        ensures
            gives(
                r,
                column_value(
                    self.deep_view().binder,
                    c.deep_view(),
                    literal.deep_view(),
                    column@,
                ),
            ),
    {
        let kind = c.kind_of(column)?;
        match c.time_column(column)? {
            Some(declared) => self.time_document_value(literal, column, declared.as_str()),
            None => self.document_value(kind, literal, column),
        }
    }
}

// ── documents ────────────────────────────────────────────────────────────

/// The place of a name in a document, from position `i` on.
pub open spec fn slot_from(doc: Seq<(Seq<char>, StoredV)>, name: Seq<char>, i: nat) -> Option<nat>
    decreases doc.len() - i,
{
    if i >= doc.len() {
        None
    } else if doc[i as int].0 == name {
        Some(i)
    } else {
        slot_from(doc, name, i + 1)
    }
}

/// A document with one member written: in place where it was there.
pub open spec fn doc_put(doc: Seq<(Seq<char>, StoredV)>, name: Seq<char>, v: StoredV) -> Seq<
    (Seq<char>, StoredV),
> {
    match slot_from(doc, name, 0) {
        Some(i) => doc.update(i as int, (name, v)),
        None => doc.push((name, v)),
    }
}

fn slot_of(doc: &Vec<(String, Stored)>, name: &str) -> (r: Option<usize>)
    ensures
        match r {
            Some(i) => slot_from(doc.deep_view(), name@, 0) == Some(i as nat) && i < doc@.len(),
            None => slot_from(doc.deep_view(), name@, 0) is None,
        },
{
    let ghost all = doc.deep_view();
    let mut i: usize = 0;
    while i < doc.len()
        invariant
            i <= doc@.len(),
            all == doc.deep_view(),
            slot_from(all, name@, i as nat) == slot_from(all, name@, 0),
        decreases doc@.len() - i,
    {
        assert(all[i as int] == doc@[i as int].deep_view());
        if same(doc[i].0.as_str(), name) {
            return Some(i);
        }
        i = i + 1;
    }
    None
}

fn put(doc: &mut Vec<(String, Stored)>, name: &str, v: Stored)
    ensures
        final(doc).deep_view() == doc_put(old(doc).deep_view(), name@, v.deep_view()),
{
    match slot_of(doc, name) {
        Some(i) => {
            let ghost before = doc.deep_view();
            let ghost entry = (name@, v.deep_view());
            doc.set(i, (owned(name), v));
            assert(doc.deep_view() =~= before.update(i as int, entry));
        },
        None => {
            add_entry(doc, owned(name), v);
        },
    }
}

/// What a written value of a document is folded into.
pub const DOCUMENT: &'static str = "a document";

/// The document of one row: the first `n` columns, the key left out.
pub open spec fn row_document(
    env: EnvV,
    c: CollectionV,
    columns: Seq<Seq<char>>,
    row: Seq<LiteralV>,
    n: nat,
    log: LogV,
) -> Result<(Seq<(Seq<char>, StoredV)>, LogV), SqlErrorV>
    decreases n,
{
    if n == 0 {
        Ok((Seq::empty(), log))
    } else {
        match row_document(env, c, columns, row, (n - 1) as nat, log) {
            Err(e) => Err(e),
            Ok((doc, log)) => if columns[n - 1] == KEY_COLUMN@ {
                Ok((doc, log))
            } else {
                match column_value(env.binder, c, row[n - 1], columns[n - 1]) {
                    Err(e) => Err(e),
                    Ok(v) => Ok(
                        (doc_put(doc, columns[n - 1], v), log.folded(row[n - 1], DOCUMENT@)),
                    ),
                }
            },
        }
    }
}

proof fn row_document_stops(
    env: EnvV,
    c: CollectionV,
    columns: Seq<Seq<char>>,
    row: Seq<LiteralV>,
    n: nat,
    m: nat,
    log: LogV,
)
    requires
        n <= m,
        row_document(env, c, columns, row, n, log) is Err,
    ensures
        row_document(env, c, columns, row, m, log) == row_document(env, c, columns, row, n, log),
    decreases m - n,
{
    if n < m {
        row_document_stops(env, c, columns, row, n, (m - 1) as nat, log);
    }
}

/// The keyed documents of the rows of an `INSERT`.
pub open spec fn insert_rows(
    env: EnvV,
    c: CollectionV,
    columns: Seq<Seq<char>>,
    key_at: int,
    rows: Seq<Seq<LiteralV>>,
    log: LogV,
) -> Result<(Seq<(Seq<char>, Seq<(Seq<char>, StoredV)>)>, LogV), SqlErrorV>
    decreases rows.len(),
{
    if rows.len() == 0 {
        Ok((Seq::empty(), log))
    } else {
        match insert_rows(env, c, columns, key_at, rows.drop_last(), log) {
            Err(e) => Err(e),
            Ok((done, log)) => match text_of(env.binder, rows.last()[key_at]) {
                Err(e) => Err(e),
                Ok(key) => match row_document(
                    env,
                    c,
                    columns,
                    rows.last(),
                    columns.len(),
                    log.folded(rows.last()[key_at], DOCUMENT@),
                ) {
                    Err(e) => Err(e),
                    Ok((doc, log)) => Ok((done.push((key, doc)), log)),
                },
            },
        }
    }
}

proof fn insert_rows_stop(
    env: EnvV,
    c: CollectionV,
    columns: Seq<Seq<char>>,
    key_at: int,
    rows: Seq<Seq<LiteralV>>,
    log: LogV,
    n: int,
)
    requires
        0 <= n <= rows.len(),
        insert_rows(env, c, columns, key_at, rows.take(n), log) is Err,
    ensures
        insert_rows(env, c, columns, key_at, rows, log) == insert_rows(
            env,
            c,
            columns,
            key_at,
            rows.take(n),
            log,
        ),
    decreases rows.len() - n,
{
    if n < rows.len() {
        take_next(rows, n);
        insert_rows_stop(env, c, columns, key_at, rows, log, n + 1);
    } else {
        take_all(rows);
    }
}

/// The column that supplies the key: `_key`, or the first, which has to be
/// text.
pub open spec fn key_column(c: CollectionV, table: Seq<char>, columns: Seq<Seq<char>>, log: LogV) -> Result<
    (nat, LogV),
    SqlErrorV,
> {
    match name_from(columns, KEY_COLUMN@, 0) {
        Some(at) => Ok((at, log)),
        None => if columns.len() == 0 {
            Err(SqlErrorV::Syntax { message: "INSERT names no columns"@, at: 0 })
        } else {
            match kind_of(c, columns[0]) {
                Err(e) => Err(e),
                Ok(kind) => if kind != Kind::Text {
                    Err(
                        SqlErrorV::Unsupported(
                            "INSERT INTO "@ + table
                                + " names no `_key` and its first column `"@ + columns[0]
                                + "` is not TEXT: `Database::put` takes a string key, so either name `_key` or put the TEXT PRIMARY KEY first"@,
                        ),
                    )
                } else {
                    Ok(
                        (
                            0,
                            log.noted(
                                "INSERT INTO "@ + table + ": the external key comes from `"@
                                    + columns[0]
                                    + "`, the first column; the value is ALSO stored as that declared field (battle50k deviation 13)"@,
                            ),
                        ),
                    )
                },
            }
        },
    }
}

/// `INSERT`.
pub open spec fn insert_of(
    env: EnvV,
    table: Seq<char>,
    columns: Seq<Seq<char>>,
    rows: Seq<Seq<LiteralV>>,
    log: LogV,
) -> Result<(WritePlanV, LogV), SqlErrorV> {
    match collection_of(env.binder.catalog, table) {
        Err(e) => Err(e),
        Ok(c) => match key_column(c, table, columns, log) {
            Err(e) => Err(e),
            Ok((key_at, log)) => match insert_rows(env, c, columns, key_at as int, rows, log) {
                Err(e) => Err(e),
                Ok((rows, log)) => Ok((WritePlanV::Insert { collection: c.id, rows }, log)),
            },
        },
    }
}

/// A document under construction.
#[derive(Debug)]
pub struct Document {
    pub members: Vec<(String, Stored)>,
}

impl DeepView for Document {
    type V = Seq<(Seq<char>, StoredV)>;

    open spec fn deep_view(&self) -> Seq<(Seq<char>, StoredV)> {
        self.members.deep_view()
    }
}

impl<'a> Env<'a> {
    fn row_document(&self, c: &Collection, columns: &Vec<String>, row: &Vec<Literal>, log: &mut Log) -> (r:
        Result<Document, SqlError>)
        requires
            row@.len() == columns@.len(),
        ensures
            logged(
                r,
                *final(log),
                row_document(
                    self.deep_view(),
                    c.deep_view(),
                    texts(columns@),
                    row.deep_view(),
                    columns@.len(),
                    old(log).deep_view(),
                ),
            ),
    {
        let ghost names = texts(columns@);
        let ghost values = row.deep_view();
        let ghost start = log.deep_view();
        let mut doc: Vec<(String, Stored)> = Vec::new();
        let mut i: usize = 0;
        assert(doc.deep_view() =~= Seq::<(Seq<char>, StoredV)>::empty());
        while i < columns.len()
            invariant
                i <= columns@.len(),
                row@.len() == columns@.len(),
                names == texts(columns@),
                values == row.deep_view(),
                start == old(log).deep_view(),
                row_document(
                    self.deep_view(),
                    c.deep_view(),
                    names,
                    values,
                    i as nat,
                    start,
                ) == Ok::<(Seq<(Seq<char>, StoredV)>, LogV), SqlErrorV>(
                    (doc.deep_view(), log.deep_view()),
                ),
            decreases columns@.len() - i,
        {
            assert(names[i as int] == columns@[i as int]@);
            assert(values[i as int] == row@[i as int].deep_view());
            let column = columns[i].as_str();
            if !same(column, KEY_COLUMN) {
                match self.column_value(c, &row[i], column) {
                    Err(e) => {
                        proof {
                            row_document_stops(
                                self.deep_view(),
                                c.deep_view(),
                                names,
                                values,
                                (i + 1) as nat,
                                columns@.len(),
                                start,
                            );
                        }
                        return Err(e);
                    },
                    Ok(v) => {
                        put(&mut doc, column, v);
                        log.folds(&row[i], DOCUMENT);
                    },
                }
            }
            i = i + 1;
        }
        Ok(Document { members: doc })
    }

    fn key_column(&self, c: &Collection, table: &str, columns: &Vec<String>, log: &mut Log) -> (r:
        Result<usize, SqlError>)
        ensures
            match key_column(c.deep_view(), table@, texts(columns@), old(log).deep_view()) {
                Ok((at, l)) => r is Ok && r->Ok_0 == at && at < columns@.len()
                    && final(log).deep_view() == l,
                Err(e) => r is Err && r->Err_0.deep_view() == e,
            },
    {
        if let Some(at) = name_at(columns, KEY_COLUMN) {
            return Ok(at);
        }
        assert(texts(columns@).len() == columns@.len());
        if columns.len() == 0 {
            return Err(SqlError::syntax("INSERT names no columns", 0));
        }
        let first = columns[0].as_str();
        assert(texts(columns@)[0] == first@);
        if c.kind_of(first)? != Kind::Text {
            return Err(
                SqlError::Unsupported(
                    cat5(
                        "INSERT INTO ",
                        table,
                        " names no `_key` and its first column `",
                        first,
                        "` is not TEXT: `Database::put` takes a string key, so either name `_key` or put the TEXT PRIMARY KEY first",
                    ),
                ),
            );
        }
        log.note(
            cat5(
                "INSERT INTO ",
                table,
                ": the external key comes from `",
                first,
                "`, the first column; the value is ALSO stored as that declared field (battle50k deviation 13)",
            ),
        );
        Ok(0)
    }

    /// `INSERT`.
    pub fn insert(
        &self,
        table: &str,
        columns: &Vec<String>,
        rows: &Vec<Vec<Literal>>,
        log: &mut Log,
    ) -> (r: Result<WritePlan, SqlError>)
        requires
            forall|i: int| 0 <= i < rows@.len() ==> (#[trigger] rows@[i])@.len() == columns@.len(),
        ensures
            logged(
                r,
                *final(log),
                insert_of(
                    self.deep_view(),
                    table@,
                    texts(columns@),
                    rows.deep_view(),
                    old(log).deep_view(),
                ),
            ),
    {
        let c = self.binder.catalog.collection(table)?;
        let key_at = self.key_column(c, table, columns, log)?;
        let ghost names = texts(columns@);
        let ghost all = rows.deep_view();
        let ghost start = log.deep_view();
        let mut out: Vec<(String, Vec<(String, Stored)>)> = Vec::new();
        let mut i: usize = 0;
        assert(all.take(0) =~= Seq::<Seq<LiteralV>>::empty());
        assert(out.deep_view() =~= Seq::<(Seq<char>, Seq<(Seq<char>, StoredV)>)>::empty());
        assert(collection_of(self.deep_view().binder.catalog, table@) == Ok::<
            CollectionV,
            SqlErrorV,
        >(c.deep_view()));
        assert(key_column(c.deep_view(), table@, names, old(log).deep_view()) == Ok::<
            (nat, LogV),
            SqlErrorV,
        >((key_at as nat, start)));
        while i < rows.len()
            invariant
                i <= rows@.len(),
                all == rows.deep_view(),
                names == texts(columns@),
                key_at < columns@.len(),
                collection_of(self.deep_view().binder.catalog, table@) == Ok::<
                    CollectionV,
                    SqlErrorV,
                >(c.deep_view()),
                key_column(c.deep_view(), table@, names, old(log).deep_view()) == Ok::<
                    (nat, LogV),
                    SqlErrorV,
                >((key_at as nat, start)),
                forall|i: int|
                    0 <= i < rows@.len() ==> (#[trigger] rows@[i])@.len() == columns@.len(),
                insert_rows(
                    self.deep_view(),
                    c.deep_view(),
                    names,
                    key_at as int,
                    all.take(i as int),
                    start,
                ) == Ok::<(Seq<(Seq<char>, Seq<(Seq<char>, StoredV)>)>, LogV), SqlErrorV>(
                    (out.deep_view(), log.deep_view()),
                ),
            decreases rows@.len() - i,
        {
            proof {
                take_next(all, i as int);
                assert(all[i as int] == rows@[i as int].deep_view());
                assert(all[i as int][key_at as int] == rows@[i as int]@[key_at as int].deep_view());
            }
            match self.binder.text_of(&rows[i][key_at]) {
                Err(e) => {
                    proof {
                        insert_rows_stop(
                            self.deep_view(),
                            c.deep_view(),
                            names,
                            key_at as int,
                            all,
                            start,
                            i as int + 1,
                        );
                    }
                    return Err(e);
                },
                Ok(key) => {
                    log.folds(&rows[i][key_at], DOCUMENT);
                    match self.row_document(c, columns, &rows[i], log) {
                        Err(e) => {
                            proof {
                                insert_rows_stop(
                                    self.deep_view(),
                                    c.deep_view(),
                                    names,
                                    key_at as int,
                                    all,
                                    start,
                                    i as int + 1,
                                );
                            }
                            return Err(e);
                        },
                        Ok(doc) => {
                            add_entry(&mut out, key, doc.members);
                        },
                    }
                },
            }
            i = i + 1;
        }
        proof {
            take_all(all);
        }
        Ok(WritePlan::Insert { collection: c.id, rows: out })
    }
}

// ── UPDATE by key ────────────────────────────────────────────────────────

pub open spec fn key_update() -> SqlErrorV {
    SqlErrorV::Unsupported(
        "UPDATE ... SET _key = ...: the external key is the row's identity; a new key is a new row (INSERT) and the old one is a DELETE"@,
    )
}

/// The patch of an `UPDATE`.
pub open spec fn patch_of(
    env: EnvV,
    c: CollectionV,
    sets: Seq<(Seq<char>, LiteralV)>,
    log: LogV,
) -> Result<(Seq<(Seq<char>, StoredV)>, LogV), SqlErrorV>
    decreases sets.len(),
{
    if sets.len() == 0 {
        Ok((Seq::empty(), log))
    } else {
        match patch_of(env, c, sets.drop_last(), log) {
            Err(e) => Err(e),
            Ok((patch, log)) => if sets.last().0 == KEY_COLUMN@ {
                Err(key_update())
            } else {
                match column_value(env.binder, c, sets.last().1, sets.last().0) {
                    Err(e) => Err(e),
                    Ok(v) => Ok(
                        (
                            doc_put(patch, sets.last().0, v),
                            log.folded(sets.last().1, DOCUMENT@),
                        ),
                    ),
                }
            },
        }
    }
}

proof fn patch_stops(
    env: EnvV,
    c: CollectionV,
    sets: Seq<(Seq<char>, LiteralV)>,
    log: LogV,
    n: int,
)
    requires
        0 <= n <= sets.len(),
        patch_of(env, c, sets.take(n), log) is Err,
    ensures
        patch_of(env, c, sets, log) == patch_of(env, c, sets.take(n), log),
    decreases sets.len() - n,
{
    if n < sets.len() {
        take_next(sets, n);
        patch_stops(env, c, sets, log, n + 1);
    } else {
        take_all(sets);
    }
}

/// `UPDATE ... WHERE _key = key`.
pub open spec fn update_of(
    env: EnvV,
    table: Seq<char>,
    sets: Seq<(Seq<char>, LiteralV)>,
    key: LiteralV,
    log: LogV,
) -> Result<(WritePlanV, LogV), SqlErrorV> {
    match collection_of(env.binder.catalog, table) {
        Err(e) => Err(e),
        Ok(c) => match patch_of(env, c, sets, log) {
            Err(e) => Err(e),
            Ok((patch, log)) => match text_of(env.binder, key) {
                Err(e) => Err(e),
                Ok(text) => Ok(
                    (
                        WritePlanV::Update { collection: c.id, key: text, patch },
                        log.folded(key, DOCUMENT@),
                    ),
                ),
            },
        },
    }
}

/// `DELETE ... WHERE _key = key`.
pub open spec fn delete_of(env: EnvV, table: Seq<char>, key: LiteralV, log: LogV) -> Result<
    (WritePlanV, LogV),
    SqlErrorV,
> {
    match collection_of(env.binder.catalog, table) {
        Err(e) => Err(e),
        Ok(c) => match text_of(env.binder, key) {
            Err(e) => Err(e),
            Ok(text) => Ok(
                (WritePlanV::Delete { collection: c.id, key: text }, log.folded(key, DOCUMENT@)),
            ),
        },
    }
}

impl<'a> Env<'a> {
    fn patch(&self, c: &Collection, sets: &Vec<(String, Literal)>, log: &mut Log) -> (r: Result<
        Document,
        SqlError,
    >)
        ensures
            logged(
                r,
                *final(log),
                patch_of(
                    self.deep_view(),
                    c.deep_view(),
                    sets.deep_view(),
                    old(log).deep_view(),
                ),
            ),
    {
        let ghost all = sets.deep_view();
        let ghost start = log.deep_view();
        let mut doc: Vec<(String, Stored)> = Vec::new();
        let mut i: usize = 0;
        assert(all.take(0) =~= Seq::<(Seq<char>, LiteralV)>::empty());
        assert(doc.deep_view() =~= Seq::<(Seq<char>, StoredV)>::empty());
        while i < sets.len()
            invariant
                i <= sets@.len(),
                all == sets.deep_view(),
                start == old(log).deep_view(),
                patch_of(self.deep_view(), c.deep_view(), all.take(i as int), start) == Ok::<
                    (Seq<(Seq<char>, StoredV)>, LogV),
                    SqlErrorV,
                >((doc.deep_view(), log.deep_view())),
            decreases sets@.len() - i,
        {
            proof {
                take_next(all, i as int);
                assert(all[i as int] == sets@[i as int].deep_view());
            }
            let column = sets[i].0.as_str();
            if same(column, KEY_COLUMN) {
                proof {
                    patch_stops(self.deep_view(), c.deep_view(), all, start, i as int + 1);
                }
                return Err(
                    SqlError::unsupported(
                        "UPDATE ... SET _key = ...: the external key is the row's identity; a new key is a new row (INSERT) and the old one is a DELETE",
                    ),
                );
            }
            match self.column_value(c, &sets[i].1, column) {
                Err(e) => {
                    proof {
                        patch_stops(self.deep_view(), c.deep_view(), all, start, i as int + 1);
                    }
                    return Err(e);
                },
                Ok(v) => {
                    put(&mut doc, column, v);
                    log.folds(&sets[i].1, DOCUMENT);
                },
            }
            i = i + 1;
        }
        proof {
            take_all(all);
        }
        Ok(Document { members: doc })
    }

    /// `UPDATE ... WHERE _key = key`.
    pub fn update(&self, table: &str, sets: &Vec<(String, Literal)>, key: &Literal, log: &mut Log) -> (r:
        Result<WritePlan, SqlError>)
        ensures
            logged(
                r,
                *final(log),
                update_of(
                    self.deep_view(),
                    table@,
                    sets.deep_view(),
                    key.deep_view(),
                    old(log).deep_view(),
                ),
            ),
    {
        let c = self.binder.catalog.collection(table)?;
        let patch = self.patch(c, sets, log)?;
        let text = self.binder.text_of(key)?;
        log.folds(key, DOCUMENT);
        Ok(WritePlan::Update { collection: c.id, key: text, patch: patch.members })
    }

    /// `DELETE ... WHERE _key = key`.
    pub fn delete(&self, table: &str, key: &Literal, log: &mut Log) -> (r: Result<
        WritePlan,
        SqlError,
    >)
        ensures
            logged(
                r,
                *final(log),
                delete_of(self.deep_view(), table@, key.deep_view(), old(log).deep_view()),
            ),
    {
        let c = self.binder.catalog.collection(table)?;
        let text = self.binder.text_of(key)?;
        log.folds(key, DOCUMENT);
        Ok(WritePlan::Delete { collection: c.id, key: text })
    }
}

// ── a row expression's value, stored ─────────────────────────────────────

/// What a row expression produced, as a column of one kind stores it.
pub open spec fn stored_value(kind: Kind, column: Seq<char>, v: SqlValueV) -> Result<
    StoredV,
    Seq<char>,
> {
    let wrong = |what: Seq<char>|
        Err::<StoredV, Seq<char>>(
            "UPDATE ... SET `"@ + column + "`: the column is "@ + what
                + " and the row expression produced a value that is not"@,
        );
    match v {
        SqlValueV::Missing | SqlValueV::Null => Ok(StoredV::Value(ValueV::Null)),
        SqlValueV::Id(_) => wrong("a declared column, and `_id` is the row identity"@),
        SqlValueV::Bool(b) => if kind == Kind::Bool || kind == Kind::Json {
            Ok(StoredV::Value(ValueV::Bool(b)))
        } else {
            wrong("not BOOLEAN"@)
        },
        SqlValueV::Int(n) => if kind == Kind::Int || kind == Kind::Json {
            Ok(StoredV::Value(ValueV::Int(n)))
        } else if kind == Kind::Real {
            Ok(StoredV::Widened(n))
        } else {
            wrong("not a number"@)
        },
        SqlValueV::Float(n) => if kind == Kind::Real || kind == Kind::Json {
            Ok(
                StoredV::Value(
                    if crate::number::finite(n.bits) {
                        ValueV::Real(n)
                    } else {
                        ValueV::Null
                    },
                ),
            )
        } else if kind == Kind::Int && is_whole(n.bits) {
            Ok(StoredV::Value(ValueV::Int(saturated(n.bits) as i64)))
        } else {
            wrong("not a number"@)
        },
        SqlValueV::Text(s) => if kind == Kind::Text || kind == Kind::Json {
            Ok(StoredV::Value(ValueV::Text(s)))
        } else {
            wrong("not TEXT"@)
        },
        SqlValueV::Json(j) => if kind == Kind::Json || kind == Kind::Geo || kind == Kind::Point {
            Ok(StoredV::Value(ValueV::Json(j)))
        } else {
            wrong("not JSONB"@)
        },
    }
}

fn wrong_kind(column: &str, what: &str) -> (r: String)
    ensures
        r@ == "UPDATE ... SET `"@ + column@ + "`: the column is "@ + what@
            + " and the row expression produced a value that is not"@,
{
    cat5(
        "UPDATE ... SET `",
        column,
        "`: the column is ",
        what,
        " and the row expression produced a value that is not",
    )
}

/// What a row expression produced, as a column of one kind stores it.
pub fn store_value(kind: Kind, column: &str, value: SqlValue) -> (r: Result<Stored, String>)
    ensures
        match stored_value(kind, column@, value.deep_view()) {
            Ok(s) => r is Ok && r->Ok_0.deep_view() == s,
            Err(e) => r is Err && r->Err_0@ == e,
        },
{
    match value {
        SqlValue::Missing => Ok(Stored::Value(Value::Null)),
        SqlValue::Null => Ok(Stored::Value(Value::Null)),
        SqlValue::Id(_) => Err(
            wrong_kind(column, "a declared column, and `_id` is the row identity"),
        ),
        SqlValue::Bool(b) => if kind == Kind::Bool || kind == Kind::Json {
            Ok(Stored::Value(Value::Bool(b)))
        } else {
            Err(wrong_kind(column, "not BOOLEAN"))
        },
        SqlValue::Int(n) => if kind == Kind::Int || kind == Kind::Json {
            Ok(Stored::Value(Value::Int(n)))
        } else if kind == Kind::Real {
            Ok(Stored::Widened(n))
        } else {
            Err(wrong_kind(column, "not a number"))
        },
        SqlValue::Float(n) => if kind == Kind::Real || kind == Kind::Json {
            if crate::number::is_finite(n.bits) {
                Ok(Stored::Value(Value::Real(n)))
            } else {
                Ok(Stored::Value(Value::Null))
            }
        } else if kind == Kind::Int && whole(n.bits) {
            Ok(Stored::Value(Value::Int(to_i64(n.bits))))
        } else {
            Err(wrong_kind(column, "not a number"))
        },
        SqlValue::Text(s) => if kind == Kind::Text || kind == Kind::Json {
            Ok(Stored::Value(Value::Text(s)))
        } else {
            Err(wrong_kind(column, "not TEXT"))
        },
        SqlValue::Json(j) => if kind == Kind::Json || kind == Kind::Geo || kind == Kind::Point {
            Ok(Stored::Value(Value::Json(j)))
        } else {
            Err(wrong_kind(column, "not JSONB"))
        },
    }
}

} // verus!
