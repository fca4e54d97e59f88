//! The rows of the catalog's relations.

use vstd::prelude::*;
use crate::catalog::relations::{
    relation_columns, relation_name, relation_nth, schema_name, CatalogRelation, CatalogRelationV,
    RelationId, OID_BOOL, OID_BYTEA, OID_DATE, OID_FLOAT8, OID_GEOMETRY, OID_INT8, OID_JSONB,
    OID_TEXT, OID_TIMESTAMPTZ, OID_VECTOR, RELATION_COUNT,
};
use crate::catalog::relations::{name_of, nth, schema_of};
use crate::catalog::snapshot::{
    snapshot, snapshot_of, EdgeName, EdgeNameV, EdgeRow, Field, FieldV, Index, IndexV, Snapshot,
    SnapshotV, Table, TableV,
};
use crate::catalog::types::{
    data_type, data_type_text, declared_of, declared_text, family_text, family_word, object_oid,
    oid_of, pg_type, pg_type_of, state_text, state_word, type_len, type_length, udt_schema,
    udt_schema_text, DATABASE, PUBLIC, USER,
};
use crate::compile::env::{Catalog, IndexFamily, IndexState, KEY_COLUMN};
use crate::error::{SqlError, SqlErrorV};
use crate::number::{int_bits, nearest_bits, Real, RealV};
use crate::strings::{count_of, stored_count};
use crate::text::{
    cat2, cat3, cat4, cat5, cat7, decimal, decimal_u64, decimal_usize, owned, same,
};
use crate::value::{kind_name, Kind, SqlValue, SqlValueV};

verus! {

pub const NS_PUBLIC: i64 = 2200;

pub const NS_PG_CATALOG: i64 = 11;

pub const NS_INFORMATION_SCHEMA: i64 = 13_000;

pub const OWNER: i64 = 10;

pub const SRID_WGS84: i64 = 4326;

/// How many descents the graph shape is derived with.
pub const EDGE_SHAPE_SEEKS: usize = 65_536;

pub const WGS84_WKT: &'static str = "GEOGCS[\"WGS 84\",DATUM[\"WGS_1984\",SPHEROID[\"WGS 84\",6378137,298.257223563,AUTHORITY[\"EPSG\",\"7030\"]],AUTHORITY[\"EPSG\",\"6326\"]],PRIMEM[\"Greenwich\",0,AUTHORITY[\"EPSG\",\"8901\"]],UNIT[\"degree\",0.0174532925199433,AUTHORITY[\"EPSG\",\"9122\"]],AUTHORITY[\"EPSG\",\"4326\"]]";

// ── cells ────────────────────────────────────────────────────────────────

pub open spec fn number(n: int) -> SqlValueV {
    SqlValueV::Int(n as i64)
}

pub open spec fn optional(t: Option<Seq<char>>) -> SqlValueV {
    match t {
        Some(t) => SqlValueV::Text(t),
        None => SqlValueV::Null,
    }
}

/// An unsigned number in a signed cell.
pub open spec fn wrapped(n: u64) -> i64 {
    if n <= i64::MAX {
        n as i64
    } else {
        (n - 0x1_0000_0000_0000_0000) as i64
    }
}

pub open spec fn counted(n: Option<u64>) -> SqlValueV {
    match n {
        Some(n) => SqlValueV::Int(wrapped(n)),
        None => SqlValueV::Null,
    }
}

fn text(t: &str) -> (r: SqlValue)
    ensures
        r.deep_view() == SqlValueV::Text(t@),
{
    SqlValue::Text(owned(t))
}

fn integer(n: i64) -> (r: SqlValue)
    ensures
        r.deep_view() == number(n as int),
{
    SqlValue::Int(n)
}

fn optional_text(t: &Option<String>) -> (r: SqlValue)
    ensures
        r.deep_view() == optional(t.deep_view()),
{
    match t {
        Some(t) => SqlValue::Text(t.clone()),
        None => SqlValue::Null,
    }
}

fn wrap(n: u64) -> (r: i64)
    ensures
        r == wrapped(n),
{
    if n <= 9223372036854775807 {
        n as i64
    } else {
        -1 - ((u64::MAX - n) as i64)
    }
}

fn count_cell(n: Option<u64>) -> (r: SqlValue)
    ensures
        r.deep_view() == counted(n),
{
    match n {
        Some(n) => SqlValue::Int(wrap(n)),
        None => SqlValue::Null,
    }
}

/// The position behind `at`, as a cell.
fn place_of(at: usize) -> (r: i64)
    ensures
        r == stored_count(at + 1),
{
    if at as u64 >= 9223372036854775807 {
        9223372036854775807
    } else {
        at as i64 + 1
    }
}

// ── columns and indexes ──────────────────────────────────────────────────

/// The declaration of a column, or the one its kind would be written with.
pub open spec fn declared_sql(f: FieldV) -> Seq<char> {
    match f.declared {
        Some(d) => d,
        None => declared_text(f.kind),
    }
}

/// The number and the name of a column's type.
pub open spec fn field_type(f: FieldV) -> (i32, Seq<char>) {
    pg_type(f.kind, f.declared)
}

impl Field {
    pub fn declared_sql(&self) -> (r: String)
        ensures
            r@ == declared_sql(self.deep_view()),
    {
        match &self.declared {
            Some(d) => d.clone(),
            None => declared_of(&self.kind),
        }
    }

    fn pg_type(&self) -> (r: (i32, &'static str))
        ensures
            (r.0, r.1@) == field_type(self.deep_view()),
    {
        match &self.declared {
            Some(d) => pg_type_of(&self.kind, Some(d.as_str())),
            None => pg_type_of(&self.kind, None),
        }
    }
}

/// Where a table has a column, from `i` on.
pub open spec fn field_from(fields: Seq<FieldV>, name: Seq<char>, i: nat) -> Option<nat>
    decreases fields.len() - i,
{
    if i >= fields.len() {
        None
    } else if fields[i as int].name == name {
        Some(i)
    } else {
        field_from(fields, name, i + 1)
    }
}

/// The number of the column an index is over, or zero.
pub open spec fn attnum_text(t: TableV, i: IndexV) -> Seq<char> {
    match field_from(t.fields, i.field, 0) {
        Some(at) => decimal(at as int + 1),
        None => "0"@,
    }
}

/// The word that a `CREATE INDEX` writes for a family: both spatial families
/// are made by `gist`, and the column's kind says which.
pub open spec fn method_text(family: IndexFamily) -> Seq<char> {
    if family == IndexFamily::SpatialGeometry {
        "gist"@
    } else {
        family_text(family)
    }
}

fn method_word(family: IndexFamily) -> (r: &'static str)
    ensures
        r@ == method_text(family),
{
    if family == IndexFamily::SpatialGeometry {
        "gist"
    } else {
        family_word(family)
    }
}

/// The definition that would make an index again.
pub open spec fn index_def_text(table: Seq<char>, i: IndexV) -> Seq<char> {
    let unique = if i.unique {
        "UNIQUE "@
    } else {
        ""@
    };
    let method = if i.family == IndexFamily::Text {
        "gin (to_tsvector('simple', "@ + i.target + "))"@
    } else {
        method_text(i.family) + " ("@ + i.target + ")"@
    };
    "CREATE "@ + unique + "INDEX "@ + i.name + " ON public."@ + table + (" USING "@ + method)
}

fn index_attnum(t: &Table, index: &Index) -> (r: String)
    ensures
        r@ == attnum_text(t.deep_view(), index.deep_view()),
{
    let ghost all = t.fields.deep_view();
    let mut i: usize = 0;
    while i < t.fields.len()
        invariant
            i <= t.fields@.len(),
            all == t.fields.deep_view(),
            field_from(all, index.field@, i as nat) == field_from(all, index.field@, 0),
        decreases t.fields@.len() - i,
    {
        assert(all[i as int] == t.fields@[i as int].deep_view());
        if same(t.fields[i].name.as_str(), index.field.as_str()) {
            return decimal_usize(i + 1);
        }
        i = i + 1;
    }
    owned("0")
}

fn index_def(table: &str, i: &Index) -> (r: String)
    ensures
        r@ == index_def_text(table@, i.deep_view()),
{
    let unique = if i.unique {
        "UNIQUE "
    } else {
        ""
    };
    let method = if i.family == IndexFamily::Text {
        cat3("gin (to_tsvector('simple', ", i.target.as_str(), "))")
    } else {
        cat4(method_word(i.family), " (", i.target.as_str(), ")")
    };
    cat7(
        "CREATE ",
        unique,
        "INDEX ",
        i.name.as_str(),
        " ON public.",
        table,
        cat2(" USING ", method.as_str()).as_str(),
    )
}

// ── rows ─────────────────────────────────────────────────────────────────

pub open spec fn db_tables_row(t: TableV) -> Seq<SqlValueV> {
    seq![
        SqlValueV::Text(t.name),
        number(wrapped(t.id) as int),
        counted(t.rows),
        number(stored_count(t.fields.len() as int) as int),
    ]
}

fn db_tables_cells(t: &Table) -> (r: Vec<SqlValue>)
    ensures
        r.deep_view() == db_tables_row(t.deep_view()),
{
    let r = vec![
        text(t.name.as_str()),
        integer(wrap(t.id)),
        count_cell(t.rows),
        integer(count_of(t.fields.len())),
    ];
    assert(r.deep_view() =~= db_tables_row(t.deep_view()));
    r
}

pub open spec fn is_tables_row(t: TableV) -> Seq<SqlValueV> {
    seq![
        SqlValueV::Text(DATABASE@),
        SqlValueV::Text(PUBLIC@),
        SqlValueV::Text(t.name),
        SqlValueV::Text("BASE TABLE"@),
        SqlValueV::Null,
        SqlValueV::Null,
        SqlValueV::Null,
        SqlValueV::Null,
        SqlValueV::Null,
        SqlValueV::Text("YES"@),
        SqlValueV::Text("NO"@),
        SqlValueV::Null,
    ]
}

fn is_tables_cells(t: &Table) -> (r: Vec<SqlValue>)
    ensures
        r.deep_view() == is_tables_row(t.deep_view()),
{
    let r = vec![
        text(DATABASE),
        text(PUBLIC),
        text(t.name.as_str()),
        text("BASE TABLE"),
        SqlValue::Null,
        SqlValue::Null,
        SqlValue::Null,
        SqlValue::Null,
        SqlValue::Null,
        text("YES"),
        text("NO"),
        SqlValue::Null,
    ];
    assert(r.deep_view() =~= is_tables_row(t.deep_view()));
    r
}

pub open spec fn is_table_constraints_row(t: TableV) -> Seq<SqlValueV> {
    seq![
        SqlValueV::Text(DATABASE@),
        SqlValueV::Text(PUBLIC@),
        SqlValueV::Text(t.name + "_pkey"@),
        SqlValueV::Text(DATABASE@),
        SqlValueV::Text(PUBLIC@),
        SqlValueV::Text(t.name),
        SqlValueV::Text("PRIMARY KEY"@),
        SqlValueV::Text("NO"@),
        SqlValueV::Text("NO"@),
        SqlValueV::Text("YES"@),
    ]
}

fn is_table_constraints_cells(t: &Table) -> (r: Vec<SqlValue>)
    ensures
        r.deep_view() == is_table_constraints_row(t.deep_view()),
{
    let r = vec![
        text(DATABASE),
        text(PUBLIC),
        text(cat2(t.name.as_str(), "_pkey").as_str()),
        text(DATABASE),
        text(PUBLIC),
        text(t.name.as_str()),
        text("PRIMARY KEY"),
        text("NO"),
        text("NO"),
        text("YES"),
    ];
    assert(r.deep_view() =~= is_table_constraints_row(t.deep_view()));
    r
}

pub open spec fn is_key_column_usage_row(t: TableV) -> Seq<SqlValueV> {
    seq![
        SqlValueV::Text(DATABASE@),
        SqlValueV::Text(PUBLIC@),
        SqlValueV::Text(t.name + "_pkey"@),
        SqlValueV::Text(DATABASE@),
        SqlValueV::Text(PUBLIC@),
        SqlValueV::Text(t.name),
        SqlValueV::Text(KEY_COLUMN@),
        number(1),
        SqlValueV::Null,
    ]
}

fn is_key_column_usage_cells(t: &Table) -> (r: Vec<SqlValue>)
    ensures
        r.deep_view() == is_key_column_usage_row(t.deep_view()),
{
    let r = vec![
        text(DATABASE),
        text(PUBLIC),
        text(cat2(t.name.as_str(), "_pkey").as_str()),
        text(DATABASE),
        text(PUBLIC),
        text(t.name.as_str()),
        text(KEY_COLUMN),
        integer(1),
        SqlValue::Null,
    ];
    assert(r.deep_view() =~= is_key_column_usage_row(t.deep_view()));
    r
}

/// Below this, every whole number is a binary64 number.
pub const EXACT_COUNTS: u64 = 0x20_0000_0000_0000;

/// The counted rows as a binary64 number; one that is not counted has none. A
/// count that binary64 may not hold is reported as the table carries it.
pub open spec fn tuples_number(t: TableV) -> RealV {
    let n: u64 = match t.rows {
        Some(n) => n,
        None => 0,
    };
    if n < EXACT_COUNTS {
        RealV {
            bits: nearest_bits(n as int) as u64,
            shown: decimal(n as int),
            json: decimal(n as int) + ".0"@,
        }
    } else {
        t.tuples
    }
}

fn tuples_of(t: &Table) -> (r: Real)
    ensures
        r.deep_view() == tuples_number(t.deep_view()),
{
    let n: u64 = match t.rows {
        Some(n) => n,
        None => 0,
    };
    if n < EXACT_COUNTS {
        let shown = decimal_u64(n);
        let json = cat2(shown.as_str(), ".0");
        Real { bits: int_bits(n as i64), shown, json }
    } else {
        t.tuples.dup()
    }
}

pub open spec fn pg_class_row(t: TableV) -> Seq<SqlValueV> {
    seq![
        number(oid_of(t.name)),
        SqlValueV::Text(t.name),
        number(NS_PUBLIC as int),
        number(0),
        number(OWNER as int),
        number(0),
        number(0),
        SqlValueV::Float(tuples_number(t)),
        number(0),
        SqlValueV::Bool(t.indexes.len() > 0),
        SqlValueV::Bool(false),
        SqlValueV::Text("p"@),
        SqlValueV::Text("r"@),
        number(stored_count(t.fields.len() as int) as int),
        number(0),
        SqlValueV::Bool(false),
        SqlValueV::Bool(false),
        SqlValueV::Bool(false),
        SqlValueV::Bool(false),
        SqlValueV::Bool(true),
        SqlValueV::Text("d"@),
        SqlValueV::Bool(false),
        number(0),
        SqlValueV::Null,
        SqlValueV::Null,
    ]
}

fn pg_class_cells(t: &Table) -> (r: Vec<SqlValue>)
    ensures
        r.deep_view() == pg_class_row(t.deep_view()),
{
    let r = vec![
        integer(object_oid(t.name.as_str())),
        text(t.name.as_str()),
        integer(NS_PUBLIC),
        integer(0),
        integer(OWNER),
        integer(0),
        integer(0),
        SqlValue::Float(tuples_of(t)),
        integer(0),
        SqlValue::Bool(t.indexes.len() > 0),
        SqlValue::Bool(false),
        text("p"),
        text("r"),
        integer(count_of(t.fields.len())),
        integer(0),
        SqlValue::Bool(false),
        SqlValue::Bool(false),
        SqlValue::Bool(false),
        SqlValue::Bool(false),
        SqlValue::Bool(true),
        text("d"),
        SqlValue::Bool(false),
        integer(0),
        SqlValue::Null,
        SqlValue::Null,
    ];
    assert(r.deep_view() =~= pg_class_row(t.deep_view()));
    r
}

pub open spec fn pg_constraint_row(t: TableV) -> Seq<SqlValueV> {
    seq![
        number(oid_of(t.name + "_pkey"@)),
        SqlValueV::Text(t.name + "_pkey"@),
        number(NS_PUBLIC as int),
        SqlValueV::Text("p"@),
        SqlValueV::Bool(false),
        SqlValueV::Bool(false),
        SqlValueV::Bool(true),
        number(oid_of(t.name)),
        number(0),
        number(0),
        SqlValueV::Text("1"@),
    ]
}

fn pg_constraint_cells(t: &Table) -> (r: Vec<SqlValue>)
    ensures
        r.deep_view() == pg_constraint_row(t.deep_view()),
{
    let r = vec![
        integer(object_oid(cat2(t.name.as_str(), "_pkey").as_str())),
        text(cat2(t.name.as_str(), "_pkey").as_str()),
        integer(NS_PUBLIC),
        text("p"),
        SqlValue::Bool(false),
        SqlValue::Bool(false),
        SqlValue::Bool(true),
        integer(object_oid(t.name.as_str())),
        integer(0),
        integer(0),
        text("1"),
    ];
    assert(r.deep_view() =~= pg_constraint_row(t.deep_view()));
    r
}

pub open spec fn pg_tables_row(t: TableV) -> Seq<SqlValueV> {
    seq![
        SqlValueV::Text(PUBLIC@),
        SqlValueV::Text(t.name),
        SqlValueV::Text(USER@),
        SqlValueV::Null,
        SqlValueV::Bool(t.indexes.len() > 0),
        SqlValueV::Bool(false),
        SqlValueV::Bool(false),
        SqlValueV::Bool(false),
    ]
}

fn pg_tables_cells(t: &Table) -> (r: Vec<SqlValue>)
    ensures
        r.deep_view() == pg_tables_row(t.deep_view()),
{
    let r = vec![
        text(PUBLIC),
        text(t.name.as_str()),
        text(USER),
        SqlValue::Null,
        SqlValue::Bool(t.indexes.len() > 0),
        SqlValue::Bool(false),
        SqlValue::Bool(false),
        SqlValue::Bool(false),
    ];
    assert(r.deep_view() =~= pg_tables_row(t.deep_view()));
    r
}

pub open spec fn db_columns_row(t: TableV, f: FieldV, at: int) -> Seq<SqlValueV> {
    seq![
        SqlValueV::Text(t.name),
        SqlValueV::Text(f.name),
        SqlValueV::Text(kind_name(f.kind)),
        SqlValueV::Text(declared_sql(f)),
        number(stored_count(at + 1) as int),
        SqlValueV::Bool(f.not_null),
        SqlValueV::Bool(f.default is Some),
    ]
}

fn db_columns_cells(t: &Table, f: &Field, at: usize) -> (r: Vec<SqlValue>)
    ensures
        r.deep_view() == db_columns_row(t.deep_view(), f.deep_view(), at as int),
{
    let r = vec![
        text(t.name.as_str()),
        text(f.name.as_str()),
        text(f.kind.named().as_str()),
        text(f.declared_sql().as_str()),
        integer(place_of(at)),
        SqlValue::Bool(f.not_null),
        SqlValue::Bool(f.default.is_some()),
    ];
    assert(r.deep_view() =~= db_columns_row(t.deep_view(), f.deep_view(), at as int));
    r
}

pub open spec fn is_columns_row(t: TableV, f: FieldV, at: int) -> Seq<SqlValueV> {
    seq![
        SqlValueV::Text(DATABASE@),
        SqlValueV::Text(PUBLIC@),
        SqlValueV::Text(t.name),
        SqlValueV::Text(f.name),
        number(stored_count(at + 1) as int),
        optional(f.default),
        SqlValueV::Text(if f.not_null { "NO"@ } else { "YES"@ }),
        SqlValueV::Text(data_type_text(field_type(f).1)),
        SqlValueV::Null,
        SqlValueV::Null,
        SqlValueV::Null,
        SqlValueV::Null,
        SqlValueV::Text(DATABASE@),
        SqlValueV::Text(udt_schema_text(field_type(f).1)),
        SqlValueV::Text(field_type(f).1),
    ]
}

fn is_columns_cells(t: &Table, f: &Field, at: usize) -> (r: Vec<SqlValue>)
    ensures
        r.deep_view() == is_columns_row(t.deep_view(), f.deep_view(), at as int),
{
    let r = vec![
        text(DATABASE),
        text(PUBLIC),
        text(t.name.as_str()),
        text(f.name.as_str()),
        integer(place_of(at)),
        optional_text(&f.default),
        text(if f.not_null { "NO" } else { "YES" }),
        text(data_type(f.pg_type().1)),
        SqlValue::Null,
        SqlValue::Null,
        SqlValue::Null,
        SqlValue::Null,
        text(DATABASE),
        text(udt_schema(f.pg_type().1)),
        text(f.pg_type().1),
    ];
    assert(r.deep_view() =~= is_columns_row(t.deep_view(), f.deep_view(), at as int));
    r
}

pub open spec fn pg_attribute_row(t: TableV, f: FieldV, at: int) -> Seq<SqlValueV> {
    seq![
        number(oid_of(t.name)),
        SqlValueV::Text(f.name),
        number(field_type(f).0 as int),
        number(-1),
        number(type_length(field_type(f).0)),
        number(stored_count(at + 1) as int),
        number(0),
        number(-1),
        SqlValueV::Bool(type_length(field_type(f).0) > 0),
        SqlValueV::Text(if type_length(field_type(f).0) > 0 { "p"@ } else { "x"@ }),
        SqlValueV::Text("i"@),
        SqlValueV::Bool(f.not_null),
        SqlValueV::Bool(f.default is Some),
        SqlValueV::Text(""@),
        SqlValueV::Text(""@),
        SqlValueV::Bool(false),
        SqlValueV::Bool(true),
        number(0),
        number(0),
    ]
}

fn pg_attribute_cells(t: &Table, f: &Field, at: usize) -> (r: Vec<SqlValue>)
    ensures
        r.deep_view() == pg_attribute_row(t.deep_view(), f.deep_view(), at as int),
{
    let r = vec![
        integer(object_oid(t.name.as_str())),
        text(f.name.as_str()),
        integer(f.pg_type().0 as i64),
        integer(-1),
        integer(type_len(f.pg_type().0) as i64),
        integer(place_of(at)),
        integer(0),
        integer(-1),
        SqlValue::Bool(type_len(f.pg_type().0) > 0),
        text(if type_len(f.pg_type().0) > 0 { "p" } else { "x" }),
        text("i"),
        SqlValue::Bool(f.not_null),
        SqlValue::Bool(f.default.is_some()),
        text(""),
        text(""),
        SqlValue::Bool(false),
        SqlValue::Bool(true),
        integer(0),
        integer(0),
    ];
    assert(r.deep_view() =~= pg_attribute_row(t.deep_view(), f.deep_view(), at as int));
    r
}

pub open spec fn geometry_columns_row(t: TableV, f: FieldV, at: int) -> Seq<SqlValueV> {
    seq![
        SqlValueV::Text(DATABASE@),
        SqlValueV::Text(PUBLIC@),
        SqlValueV::Text(t.name),
        SqlValueV::Text(f.name),
        number(2),
        number(SRID_WGS84 as int),
        SqlValueV::Text(if f.kind == Kind::Point { "POINT"@ } else { "GEOMETRY"@ }),
    ]
}

fn geometry_columns_cells(t: &Table, f: &Field, at: usize) -> (r: Vec<SqlValue>)
    ensures
        r.deep_view() == geometry_columns_row(t.deep_view(), f.deep_view(), at as int),
{
    let r = vec![
        text(DATABASE),
        text(PUBLIC),
        text(t.name.as_str()),
        text(f.name.as_str()),
        integer(2),
        integer(SRID_WGS84),
        text(if f.kind == Kind::Point { "POINT" } else { "GEOMETRY" }),
    ];
    assert(r.deep_view() =~= geometry_columns_row(t.deep_view(), f.deep_view(), at as int));
    r
}

pub open spec fn db_indexes_row(t: TableV, i: IndexV) -> Seq<SqlValueV> {
    seq![
        SqlValueV::Text(t.name),
        SqlValueV::Text(i.name),
        SqlValueV::Text(family_text(i.family)),
        SqlValueV::Text(i.field),
        optional(i.expression),
        SqlValueV::Text(state_text(i.state)),
    ]
}

fn db_indexes_cells(t: &Table, i: &Index) -> (r: Vec<SqlValue>)
    ensures
        r.deep_view() == db_indexes_row(t.deep_view(), i.deep_view()),
{
    let r = vec![
        text(t.name.as_str()),
        text(i.name.as_str()),
        text(family_word(i.family)),
        text(i.field.as_str()),
        optional_text(&i.expression),
        text(state_word(i.state).as_str()),
    ];
    assert(r.deep_view() =~= db_indexes_row(t.deep_view(), i.deep_view()));
    r
}

pub open spec fn pg_index_row(t: TableV, i: IndexV) -> Seq<SqlValueV> {
    seq![
        number(oid_of(i.name)),
        number(oid_of(t.name)),
        number(1),
        number(1),
        SqlValueV::Bool(i.unique),
        SqlValueV::Bool(false),
        SqlValueV::Bool(false),
        SqlValueV::Bool(true),
        SqlValueV::Bool(false),
        SqlValueV::Bool(i.state == IndexState::Ready),
        SqlValueV::Bool(i.state == IndexState::Ready),
        SqlValueV::Bool(i.state != IndexState::Dropping),
        SqlValueV::Text(attnum_text(t, i)),
    ]
}

fn pg_index_cells(t: &Table, i: &Index) -> (r: Vec<SqlValue>)
    ensures
        r.deep_view() == pg_index_row(t.deep_view(), i.deep_view()),
{
    let r = vec![
        integer(object_oid(i.name.as_str())),
        integer(object_oid(t.name.as_str())),
        integer(1),
        integer(1),
        SqlValue::Bool(i.unique),
        SqlValue::Bool(false),
        SqlValue::Bool(false),
        SqlValue::Bool(true),
        SqlValue::Bool(false),
        SqlValue::Bool(i.state == IndexState::Ready),
        SqlValue::Bool(i.state == IndexState::Ready),
        SqlValue::Bool(i.state != IndexState::Dropping),
        text(index_attnum(t, i).as_str()),
    ];
    assert(r.deep_view() =~= pg_index_row(t.deep_view(), i.deep_view()));
    r
}

pub open spec fn pg_indexes_row(t: TableV, i: IndexV) -> Seq<SqlValueV> {
    seq![
        SqlValueV::Text(PUBLIC@),
        SqlValueV::Text(t.name),
        SqlValueV::Text(i.name),
        SqlValueV::Null,
        SqlValueV::Text(index_def_text(t.name, i)),
    ]
}

fn pg_indexes_cells(t: &Table, i: &Index) -> (r: Vec<SqlValue>)
    ensures
        r.deep_view() == pg_indexes_row(t.deep_view(), i.deep_view()),
{
    let r = vec![
        text(PUBLIC),
        text(t.name.as_str()),
        text(i.name.as_str()),
        SqlValue::Null,
        text(index_def(t.name.as_str(), i).as_str()),
    ];
    assert(r.deep_view() =~= pg_indexes_row(t.deep_view(), i.deep_view()));
    r
}

pub open spec fn schema_row(schema: Seq<char>) -> Seq<SqlValueV> {
    seq![
        SqlValueV::Text(DATABASE@),
        SqlValueV::Text(schema),
        SqlValueV::Text(USER@),
        SqlValueV::Null,
        SqlValueV::Null,
        SqlValueV::Text("UTF8"@),
        SqlValueV::Null,
    ]
}

fn schema_cells(schema: &str) -> (r: Vec<SqlValue>)
    ensures
        r.deep_view() == schema_row(schema@),
{
    let r = vec![
        text(DATABASE),
        text(schema),
        text(USER),
        SqlValue::Null,
        SqlValue::Null,
        text("UTF8"),
        SqlValue::Null,
    ];
    assert(r.deep_view() =~= schema_row(schema@));
    r
}

pub open spec fn namespace_row(oid: i64, name: Seq<char>) -> Seq<SqlValueV> {
    seq![
        number(oid as int),
        SqlValueV::Text(name),
        number(OWNER as int),
        SqlValueV::Null,
    ]
}

fn namespace_cells(oid: i64, name: &str) -> (r: Vec<SqlValue>)
    ensures
        r.deep_view() == namespace_row(oid, name@),
{
    let r = vec![
        integer(oid),
        text(name),
        integer(OWNER),
        SqlValue::Null,
    ];
    assert(r.deep_view() =~= namespace_row(oid, name@));
    r
}

pub open spec fn type_row(oid: i32, name: Seq<char>, category: Seq<char>, namespace: i64) -> Seq<
    SqlValueV,
> {
    seq![
        number(oid as int),
        SqlValueV::Text(name),
        number(namespace as int),
        number(OWNER as int),
        number(type_length(oid)),
        SqlValueV::Bool(type_length(oid) > 0),
        SqlValueV::Text("b"@),
        SqlValueV::Text(category),
        SqlValueV::Bool(false),
        SqlValueV::Bool(true),
        SqlValueV::Text(","@),
        number(0),
        number(0),
        number(0),
        SqlValueV::Bool(false),
        number(0),
        number(-1),
        number(0),
    ]
}

fn type_cells(oid: i32, name: &str, category: &str, namespace: i64) -> (r: Vec<SqlValue>)
    ensures
        r.deep_view() == type_row(oid, name@, category@, namespace),
{
    let r = vec![
        integer(oid as i64),
        text(name),
        integer(namespace),
        integer(OWNER),
        integer(type_len(oid) as i64),
        SqlValue::Bool(type_len(oid) > 0),
        text("b"),
        text(category),
        SqlValue::Bool(false),
        SqlValue::Bool(true),
        text(","),
        integer(0),
        integer(0),
        integer(0),
        SqlValue::Bool(false),
        integer(0),
        integer(-1),
        integer(0),
    ];
    assert(r.deep_view() =~= type_row(oid, name@, category@, namespace));
    r
}

pub open spec fn spatial_ref_row() -> Seq<SqlValueV> {
    seq![
        number(SRID_WGS84 as int),
        SqlValueV::Text("EPSG"@),
        number(SRID_WGS84 as int),
        SqlValueV::Text(WGS84_WKT@),
        SqlValueV::Text("+proj=longlat +datum=WGS84 +no_defs"@),
    ]
}

fn spatial_ref_cells() -> (r: Vec<SqlValue>)
    ensures
        r.deep_view() == spatial_ref_row(),
{
    let r = vec![
        integer(SRID_WGS84),
        text("EPSG"),
        integer(SRID_WGS84),
        text(WGS84_WKT),
        text("+proj=longlat +datum=WGS84 +no_defs"),
    ];
    assert(r.deep_view() =~= spatial_ref_row());
    r
}

pub open spec fn edge_row(e: EdgeNameV) -> Seq<SqlValueV> {
    seq![
        SqlValueV::Text(e.edge_type),
        SqlValueV::Text(e.from),
        SqlValueV::Text(e.to),
        SqlValueV::Text(e.context),
    ]
}

fn edge_cells(e: &EdgeName) -> (r: Vec<SqlValue>)
    ensures
        r.deep_view() == edge_row(e.deep_view()),
{
    let r = vec![
        text(e.edge_type.as_str()),
        text(e.from.as_str()),
        text(e.to.as_str()),
        text(e.context.as_str()),
    ];
    assert(r.deep_view() =~= edge_row(e.deep_view()));
    r
}

pub open spec fn context_row(c: (Seq<char>, u64)) -> Seq<SqlValueV> {
    seq![
        SqlValueV::Text(c.0),
        number(wrapped(c.1) as int),
    ]
}

fn context_cells(c: &(String, u64)) -> (r: Vec<SqlValue>)
    ensures
        r.deep_view() == context_row(c.deep_view()),
{
    let r = vec![
        text(c.0.as_str()),
        integer(wrap(c.1)),
    ];
    assert(r.deep_view() =~= context_row(c.deep_view()));
    r
}

// ── relations over tables, columns and indexes ───────────────────────────

/// The row of a relation that has one for each table.
pub open spec fn table_row(id: RelationId, t: TableV) -> Seq<SqlValueV> {
    match id {
        RelationId::DbTables => db_tables_row(t),
        RelationId::IsTables => is_tables_row(t),
        RelationId::IsTableConstraints => is_table_constraints_row(t),
        RelationId::IsKeyColumnUsage => is_key_column_usage_row(t),
        RelationId::PgClass => pg_class_row(t),
        RelationId::PgConstraint => pg_constraint_row(t),
        _ => pg_tables_row(t),
    }
}

fn table_cells(id: RelationId, t: &Table) -> (r: Vec<SqlValue>)
    ensures
        r.deep_view() == table_row(id, t.deep_view()),
{
    match id {
        RelationId::DbTables => db_tables_cells(t),
        RelationId::IsTables => is_tables_cells(t),
        RelationId::IsTableConstraints => is_table_constraints_cells(t),
        RelationId::IsKeyColumnUsage => is_key_column_usage_cells(t),
        RelationId::PgClass => pg_class_cells(t),
        RelationId::PgConstraint => pg_constraint_cells(t),
        _ => pg_tables_cells(t),
    }
}

/// The row of a relation that has one for each column.
pub open spec fn field_row(id: RelationId, t: TableV, f: FieldV, at: int) -> Seq<SqlValueV> {
    match id {
        RelationId::DbColumns => db_columns_row(t, f, at),
        RelationId::IsColumns => is_columns_row(t, f, at),
        RelationId::PgAttribute => pg_attribute_row(t, f, at),
        _ => geometry_columns_row(t, f, at),
    }
}

fn field_cells(id: RelationId, t: &Table, f: &Field, at: usize) -> (r: Vec<SqlValue>)
    ensures
        r.deep_view() == field_row(id, t.deep_view(), f.deep_view(), at as int),
{
    match id {
        RelationId::DbColumns => db_columns_cells(t, f, at),
        RelationId::IsColumns => is_columns_cells(t, f, at),
        RelationId::PgAttribute => pg_attribute_cells(t, f, at),
        _ => geometry_columns_cells(t, f, at),
    }
}

/// The row of a relation that has one for each index.
pub open spec fn index_row(id: RelationId, t: TableV, i: IndexV) -> Seq<SqlValueV> {
    match id {
        RelationId::DbIndexes => db_indexes_row(t, i),
        RelationId::PgIndex => pg_index_row(t, i),
        _ => pg_indexes_row(t, i),
    }
}

fn index_cells(id: RelationId, t: &Table, i: &Index) -> (r: Vec<SqlValue>)
    ensures
        r.deep_view() == index_row(id, t.deep_view(), i.deep_view()),
{
    match id {
        RelationId::DbIndexes => db_indexes_cells(t, i),
        RelationId::PgIndex => pg_index_cells(t, i),
        _ => pg_indexes_cells(t, i),
    }
}

/// Whether a relation lists a column: one lists the geometries alone.
pub open spec fn lists_field(id: RelationId, f: FieldV) -> bool {
    id != RelationId::GeometryColumns || f.kind == Kind::Geo || f.kind == Kind::Point
}

/// The rows of the first `n` columns of a table.
pub open spec fn field_rows(id: RelationId, t: TableV, n: nat) -> Seq<Seq<SqlValueV>>
    decreases n,
{
    if n == 0 {
        Seq::empty()
    } else {
        let done = field_rows(id, t, (n - 1) as nat);
        let f = t.fields[n - 1];
        if lists_field(id, f) {
            done.push(field_row(id, t, f, n - 1))
        } else {
            done
        }
    }
}

/// The rows of the columns of all tables.
pub open spec fn all_field_rows(id: RelationId, tables: Seq<TableV>) -> Seq<Seq<SqlValueV>>
    decreases tables.len(),
{
    if tables.len() == 0 {
        Seq::empty()
    } else {
        all_field_rows(id, tables.drop_last()) + field_rows(
            id,
            tables.last(),
            tables.last().fields.len(),
        )
    }
}

/// The rows of the indexes of all tables.
pub open spec fn all_index_rows(id: RelationId, tables: Seq<TableV>) -> Seq<Seq<SqlValueV>>
    decreases tables.len(),
{
    if tables.len() == 0 {
        Seq::empty()
    } else {
        all_index_rows(id, tables.drop_last()) + tables.last().indexes.map_values(
            |i: IndexV| index_row(id, tables.last(), i),
        )
    }
}

/// The rows of a relation.
pub open spec fn relation_rows(id: RelationId, s: SnapshotV) -> Seq<Seq<SqlValueV>> {
    match id {
        RelationId::DbEdges => s.edges.map_values(|e: EdgeNameV| edge_row(e)),
        RelationId::DbContexts => s.contexts.map_values(|c: (Seq<char>, u64)| context_row(c)),
        RelationId::IsSchemata => seq![
            schema_row(PUBLIC@),
            schema_row("pg_catalog"@),
            schema_row("information_schema"@),
        ],
        RelationId::PgNamespace => seq![
            namespace_row(NS_PUBLIC, PUBLIC@),
            namespace_row(NS_PG_CATALOG, "pg_catalog"@),
            namespace_row(NS_INFORMATION_SCHEMA, "information_schema"@),
        ],
        RelationId::PgType => seq![
            type_row(OID_BOOL, "bool"@, "B"@, NS_PG_CATALOG),
            type_row(OID_BYTEA, "bytea"@, "U"@, NS_PG_CATALOG),
            type_row(OID_INT8, "int8"@, "N"@, NS_PG_CATALOG),
            type_row(OID_TEXT, "text"@, "S"@, NS_PG_CATALOG),
            type_row(OID_FLOAT8, "float8"@, "N"@, NS_PG_CATALOG),
            type_row(OID_DATE, "date"@, "D"@, NS_PG_CATALOG),
            type_row(OID_TIMESTAMPTZ, "timestamptz"@, "D"@, NS_PG_CATALOG),
            type_row(OID_JSONB, "jsonb"@, "U"@, NS_PG_CATALOG),
            type_row(OID_GEOMETRY, "geometry"@, "U"@, NS_PUBLIC),
            type_row(OID_VECTOR, "vector"@, "U"@, NS_PUBLIC),
        ],
        RelationId::PgDescription => Seq::empty(),
        RelationId::SpatialRefSys => seq![spatial_ref_row()],
        RelationId::DbColumns
        | RelationId::IsColumns
        | RelationId::PgAttribute
        | RelationId::GeometryColumns => all_field_rows(id, s.tables),
        RelationId::DbIndexes | RelationId::PgIndex | RelationId::PgIndexes => all_index_rows(
            id,
            s.tables,
        ),
        _ => s.tables.map_values(|t: TableV| table_row(id, t)),
    }
}

/// What a relation says beside its rows.
pub open spec fn relation_notice(id: RelationId, s: SnapshotV) -> Option<Seq<char>> {
    if id == RelationId::DbEdges && s.edges_truncated {
        Some(
            "db_edges stopped at 65536 descents of the edge keyspace: the graph shape is DERIVED from written edges (GRAPH_CONTRACT 2.5) and the rows below are the triples found up to that cap, not every triple in the graph"@,
        )
    } else {
        None
    }
}

fn push_fields(id: RelationId, t: &Table, rows: &mut Vec<Vec<SqlValue>>)
    ensures
        final(rows).deep_view() == old(rows).deep_view() + field_rows(
            id,
            t.deep_view(),
            t.deep_view().fields.len(),
        ),
{
    let ghost start = rows.deep_view();
    let ghost view = t.deep_view();
    let mut i: usize = 0;
    assert(start + field_rows(id, view, 0) =~= start);
    while i < t.fields.len()
        invariant
            i <= t.fields@.len(),
            view == t.deep_view(),
            rows.deep_view() == start + field_rows(id, view, i as nat),
        decreases t.fields@.len() - i,
    {
        let f = &t.fields[i];
        assert(view.fields[i as int] == f.deep_view());
        if id != RelationId::GeometryColumns || f.kind == Kind::Geo || f.kind == Kind::Point {
            let ghost before = rows.deep_view();
            let row = field_cells(id, t, f, i);
            rows.push(row);
            assert(rows.deep_view() =~= before.push(row.deep_view()));
            assert(before.push(row.deep_view()) =~= start + field_rows(id, view, i as nat).push(
                row.deep_view(),
            ));
        }
        i = i + 1;
    }
}

fn push_indexes(id: RelationId, t: &Table, rows: &mut Vec<Vec<SqlValue>>)
    ensures
        final(rows).deep_view() == old(rows).deep_view() + t.deep_view().indexes.map_values(
            |i: IndexV| index_row(id, t.deep_view(), i),
        ),
{
    let ghost start = rows.deep_view();
    let ghost view = t.deep_view();
    let mut i: usize = 0;
    while i < t.indexes.len()
        invariant
            i <= t.indexes@.len(),
            view == t.deep_view(),
            rows@.len() == start.len() + i,
            forall|k: int| 0 <= k < start.len() ==> (#[trigger] rows@[k]).deep_view() == start[k],
            forall|k: int|
                start.len() <= k < start.len() + i ==> (#[trigger] rows@[k]).deep_view()
                    == index_row(id, view, view.indexes[k - start.len()]),
        decreases t.indexes@.len() - i,
    {
        assert(view.indexes[i as int] == t.indexes@[i as int].deep_view());
        let row = index_cells(id, t, &t.indexes[i]);
        rows.push(row);
        i = i + 1;
    }
    assert(rows.deep_view() =~= start + view.indexes.map_values(
        |i: IndexV| index_row(id, view, i),
    ));
    assert(view.indexes.map_values(|i: IndexV| index_row(id, view, i))
        =~= t.deep_view().indexes.map_values(|i: IndexV| index_row(id, t.deep_view(), i)));
}

fn push_all_fields(id: RelationId, s: &Snapshot) -> (r: Vec<Vec<SqlValue>>)
    ensures
        r.deep_view() == all_field_rows(id, s.deep_view().tables),
{
    let mut rows: Vec<Vec<SqlValue>> = Vec::new();
    let ghost all = s.deep_view().tables;
    let mut i: usize = 0;
    assert(rows.deep_view() =~= Seq::<Seq<SqlValueV>>::empty());
    while i < s.tables.len()
        invariant
            i <= s.tables@.len(),
            all == s.tables.deep_view(),
            rows.deep_view() == all_field_rows(id, all.take(i as int)),
        decreases s.tables@.len() - i,
    {
        assert(all.take(i as int + 1).drop_last() =~= all.take(i as int));
        assert(all[i as int] == s.tables@[i as int].deep_view());
        push_fields(id, &s.tables[i], &mut rows);
        i = i + 1;
    }
    assert(all.take(i as int) =~= all);
    rows
}

fn push_all_indexes(id: RelationId, s: &Snapshot) -> (r: Vec<Vec<SqlValue>>)
    ensures
        r.deep_view() == all_index_rows(id, s.deep_view().tables),
{
    let mut rows: Vec<Vec<SqlValue>> = Vec::new();
    let ghost all = s.deep_view().tables;
    let mut i: usize = 0;
    assert(rows.deep_view() =~= Seq::<Seq<SqlValueV>>::empty());
    while i < s.tables.len()
        invariant
            i <= s.tables@.len(),
            all == s.tables.deep_view(),
            rows.deep_view() == all_index_rows(id, all.take(i as int)),
        decreases s.tables@.len() - i,
    {
        let ghost next = all.take(i as int + 1);
        assert(next.drop_last() =~= all.take(i as int));
        assert(all[i as int] == s.tables@[i as int].deep_view());
        let ghost t = s.tables@[i as int].deep_view();
        let ghost before = rows.deep_view();
        push_indexes(id, &s.tables[i], &mut rows);
        proof {
            assert(next.last() == t);
            assert(next.last().indexes.map_values(|i: IndexV| index_row(id, next.last(), i))
                =~= t.indexes.map_values(|i: IndexV| index_row(id, t, i)));
            assert(rows.deep_view() =~= before + t.indexes.map_values(
                |i: IndexV| index_row(id, t, i),
            ));
        }
        i = i + 1;
    }
    assert(all.take(i as int) =~= all);
    rows
}

fn push_all_tables(id: RelationId, s: &Snapshot) -> (r: Vec<Vec<SqlValue>>)
    ensures
        r.deep_view() == s.deep_view().tables.map_values(|t: TableV| table_row(id, t)),
{
    let mut rows: Vec<Vec<SqlValue>> = Vec::new();
    let ghost all = s.deep_view().tables;
    let mut i: usize = 0;
    while i < s.tables.len()
        invariant
            i <= s.tables@.len(),
            all == s.tables.deep_view(),
            rows@.len() == i,
            forall|k: int| 0 <= k < i ==> (#[trigger] rows@[k]).deep_view() == table_row(id, all[k]),
        decreases s.tables@.len() - i,
    {
        assert(all[i as int] == s.tables@[i as int].deep_view());
        rows.push(table_cells(id, &s.tables[i]));
        i = i + 1;
    }
    assert(rows.deep_view() =~= all.map_values(|t: TableV| table_row(id, t)));
    rows
}

fn push_edges(s: &Snapshot) -> (r: Vec<Vec<SqlValue>>)
    ensures
        r.deep_view() == s.deep_view().edges.map_values(|e: EdgeNameV| edge_row(e)),
{
    let mut rows: Vec<Vec<SqlValue>> = Vec::new();
    let ghost all = s.deep_view().edges;
    let mut i: usize = 0;
    while i < s.edges.len()
        invariant
            i <= s.edges@.len(),
            all == s.edges.deep_view(),
            rows@.len() == i,
            forall|k: int| 0 <= k < i ==> (#[trigger] rows@[k]).deep_view() == edge_row(all[k]),
        decreases s.edges@.len() - i,
    {
        assert(all[i as int] == s.edges@[i as int].deep_view());
        rows.push(edge_cells(&s.edges[i]));
        i = i + 1;
    }
    assert(rows.deep_view() =~= all.map_values(|e: EdgeNameV| edge_row(e)));
    rows
}

fn push_contexts(s: &Snapshot) -> (r: Vec<Vec<SqlValue>>)
    ensures
        r.deep_view() == s.deep_view().contexts.map_values(
            |c: (Seq<char>, u64)| context_row(c),
        ),
{
    let mut rows: Vec<Vec<SqlValue>> = Vec::new();
    let ghost all = s.deep_view().contexts;
    let mut i: usize = 0;
    while i < s.contexts.len()
        invariant
            i <= s.contexts@.len(),
            all == s.contexts.deep_view(),
            rows@.len() == i,
            forall|k: int| 0 <= k < i ==> (#[trigger] rows@[k]).deep_view() == context_row(all[k]),
        decreases s.contexts@.len() - i,
    {
        assert(all[i as int] == s.contexts@[i as int].deep_view());
        rows.push(context_cells(&s.contexts[i]));
        i = i + 1;
    }
    assert(rows.deep_view() =~= all.map_values(|c: (Seq<char>, u64)| context_row(c)));
    rows
}

fn fixed_rows(id: RelationId) -> (r: Vec<Vec<SqlValue>>)
    requires
        id == RelationId::IsSchemata || id == RelationId::PgNamespace || id == RelationId::PgType
            || id == RelationId::SpatialRefSys || id == RelationId::PgDescription,
    ensures
        forall|s: SnapshotV| r.deep_view() == #[trigger] relation_rows(id, s),
{
    let mut rows: Vec<Vec<SqlValue>> = Vec::new();
    match id {
        RelationId::IsSchemata => {
            rows.push(schema_cells(PUBLIC));
            rows.push(schema_cells("pg_catalog"));
            rows.push(schema_cells("information_schema"));
        },
        RelationId::PgNamespace => {
            rows.push(namespace_cells(NS_PUBLIC, PUBLIC));
            rows.push(namespace_cells(NS_PG_CATALOG, "pg_catalog"));
            rows.push(namespace_cells(NS_INFORMATION_SCHEMA, "information_schema"));
        },
        RelationId::PgType => {
            rows.push(type_cells(OID_BOOL, "bool", "B", NS_PG_CATALOG));
            rows.push(type_cells(OID_BYTEA, "bytea", "U", NS_PG_CATALOG));
            rows.push(type_cells(OID_INT8, "int8", "N", NS_PG_CATALOG));
            rows.push(type_cells(OID_TEXT, "text", "S", NS_PG_CATALOG));
            rows.push(type_cells(OID_FLOAT8, "float8", "N", NS_PG_CATALOG));
            rows.push(type_cells(OID_DATE, "date", "D", NS_PG_CATALOG));
            rows.push(type_cells(OID_TIMESTAMPTZ, "timestamptz", "D", NS_PG_CATALOG));
            rows.push(type_cells(OID_JSONB, "jsonb", "U", NS_PG_CATALOG));
            rows.push(type_cells(OID_GEOMETRY, "geometry", "U", NS_PUBLIC));
            rows.push(type_cells(OID_VECTOR, "vector", "U", NS_PUBLIC));
        },
        RelationId::SpatialRefSys => {
            rows.push(spatial_ref_cells());
        },
        _ => {},
    }
    assert forall|s: SnapshotV| rows.deep_view() == #[trigger] relation_rows(id, s) by {
        assert(rows.deep_view() =~= relation_rows(id, s));
    }
    rows
}

/// The rows of a relation.
pub fn rows_of(id: RelationId, s: &Snapshot) -> (r: Vec<Vec<SqlValue>>)
    ensures
        r.deep_view() == relation_rows(id, s.deep_view()),
{
    match id {
        RelationId::DbEdges => push_edges(s),
        RelationId::DbContexts => push_contexts(s),
        RelationId::IsSchemata
        | RelationId::PgNamespace
        | RelationId::PgType
        | RelationId::PgDescription
        | RelationId::SpatialRefSys => fixed_rows(id),
        RelationId::DbColumns
        | RelationId::IsColumns
        | RelationId::PgAttribute
        | RelationId::GeometryColumns => push_all_fields(id, s),
        RelationId::DbIndexes | RelationId::PgIndex | RelationId::PgIndexes => push_all_indexes(
            id,
            s,
        ),
        _ => push_all_tables(id, s),
    }
}

// ── width ────────────────────────────────────────────────────────────────

proof fn field_rows_width(id: RelationId, t: TableV, n: nat, k: int)
    requires
        id == RelationId::DbColumns || id == RelationId::IsColumns || id == RelationId::PgAttribute
            || id == RelationId::GeometryColumns,
        0 <= k < field_rows(id, t, n).len(),
    ensures
        field_rows(id, t, n)[k].len() == relation_columns(id).len(),
    decreases n,
{
    let done = field_rows(id, t, (n - 1) as nat);
    if k < done.len() {
        field_rows_width(id, t, (n - 1) as nat, k);
    }
}

proof fn all_field_rows_width(id: RelationId, tables: Seq<TableV>, k: int)
    requires
        id == RelationId::DbColumns || id == RelationId::IsColumns || id == RelationId::PgAttribute
            || id == RelationId::GeometryColumns,
        0 <= k < all_field_rows(id, tables).len(),
    ensures
        all_field_rows(id, tables)[k].len() == relation_columns(id).len(),
    decreases tables.len(),
{
    let done = all_field_rows(id, tables.drop_last());
    if k < done.len() {
        all_field_rows_width(id, tables.drop_last(), k);
    } else {
        field_rows_width(id, tables.last(), tables.last().fields.len(), k - done.len());
    }
}

proof fn all_index_rows_width(id: RelationId, tables: Seq<TableV>, k: int)
    requires
        id == RelationId::DbIndexes || id == RelationId::PgIndex || id == RelationId::PgIndexes,
        0 <= k < all_index_rows(id, tables).len(),
    ensures
        all_index_rows(id, tables)[k].len() == relation_columns(id).len(),
    decreases tables.len(),
{
    let done = all_index_rows(id, tables.drop_last());
    if k < done.len() {
        all_index_rows_width(id, tables.drop_last(), k);
    } else {
        let i = tables.last().indexes[k - done.len()];
        assert(all_index_rows(id, tables)[k] == index_row(id, tables.last(), i));
    }
}

/// Every row of a relation has one cell for each of its columns.
pub proof fn rows_have_the_width(id: RelationId, s: SnapshotV, k: int)
    requires
        0 <= k < relation_rows(id, s).len(),
    ensures
        relation_rows(id, s)[k].len() == relation_columns(id).len(),
{
    match id {
        RelationId::DbColumns
        | RelationId::IsColumns
        | RelationId::PgAttribute
        | RelationId::GeometryColumns => {
            all_field_rows_width(id, s.tables, k);
        },
        RelationId::DbIndexes | RelationId::PgIndex | RelationId::PgIndexes => {
            all_index_rows_width(id, s.tables, k);
        },
        _ => {},
    }
}

// ── build ────────────────────────────────────────────────────────────────

/// The relation with a schema and a name, from `i` on.
pub open spec fn relation_at(schema: Seq<char>, name: Seq<char>, i: nat) -> Option<RelationId>
    decreases RELATION_COUNT - i,
{
    if i >= RELATION_COUNT {
        None
    } else if schema_name(relation_nth(i as int)) == schema && relation_name(
        relation_nth(i as int),
    ) == name {
        Some(relation_nth(i as int))
    } else {
        relation_at(schema, name, i + 1)
    }
}

/// The identity of a relation, where it is one of the catalog's.
pub open spec fn identity_of(r: CatalogRelationV) -> Option<RelationId> {
    relation_at(r.schema, r.name, 0)
}

pub fn identity(r: &CatalogRelation) -> (id: Option<RelationId>)
    ensures
        id == identity_of(r.deep_view()),
{
    let mut i: usize = 0;
    while i < RELATION_COUNT
        invariant
            i <= RELATION_COUNT,
            relation_at(r.schema@, r.name@, i as nat) == identity_of(r.deep_view()),
        decreases RELATION_COUNT - i,
    {
        let id = nth(i);
        if same(schema_of(id), r.schema) && same(name_of(id), r.name) {
            return Some(id);
        }
        i = i + 1;
    }
    None
}

/// Whether a relation is built from the graph's names and shape.
pub open spec fn of_the_graph(r: CatalogRelationV) -> bool {
    r.name == "db_edges"@ || r.name == "db_contexts"@
}

/// Whether a relation is built from the graph's names and shape.
pub fn needs_graph(r: &CatalogRelation) -> (b: bool)
    ensures
        b == of_the_graph(r.deep_view()),
{
    same(r.name, "db_edges") || same(r.name, "db_contexts")
}

/// The rows of the relation with an identity, and what they do not say.
pub fn contents_of(id: RelationId, s: &Snapshot) -> (r: (Vec<Vec<SqlValue>>, Option<String>))
    ensures
        r.0.deep_view() == relation_rows(id, s.deep_view()),
        r.1.deep_view() == relation_notice(id, s.deep_view()),
        forall|k: int|
            0 <= k < r.0@.len() ==> (#[trigger] r.0@[k])@.len() == relation_columns(id).len(),
{
    let rows = rows_of(id, s);
    let notice = if id == RelationId::DbEdges && s.edges_truncated {
        Some(
            owned(
                "db_edges stopped at 65536 descents of the edge keyspace: the graph shape is DERIVED from written edges (GRAPH_CONTRACT 2.5) and the rows below are the triples found up to that cap, not every triple in the graph",
            ),
        )
    } else {
        None
    };
    proof {
        assert forall|k: int| 0 <= k < rows@.len() implies (#[trigger] rows@[k])@.len()
            == relation_columns(id).len() by {
            rows_have_the_width(id, s.deep_view(), k);
            assert(rows.deep_view()[k].len() == rows@[k]@.len());
        }
    }
    (rows, notice)
}

/// The rows of a relation, and what they do not say. The graph is read only
/// for the relations that need it: `shape` is the kinds of edges there are, and
/// `truncated` whether the walk that found them was cut short.
pub fn build(
    cat: &Catalog,
    shape: &Vec<EdgeRow>,
    truncated: bool,
    relation: &CatalogRelation,
) -> (r: Result<(Vec<Vec<SqlValue>>, Option<String>), SqlError>)
    ensures
        ({
            let graph = of_the_graph(relation.deep_view());
            let s = snapshot_of(cat.deep_view(), shape@, truncated, graph);
            match identity_of(relation.deep_view()) {
                Some(id) => {
                    &&& r is Ok
                    &&& r->Ok_0.0.deep_view() == relation_rows(id, s)
                    &&& r->Ok_0.1.deep_view() == relation_notice(id, s)
                    &&& forall|k: int|
                        0 <= k < r->Ok_0.0@.len() ==> (#[trigger] r->Ok_0.0@[k])@.len()
                            == relation_columns(id).len()
                },
                None => r is Err && r->Err_0.deep_view() == SqlErrorV::Unsupported(
                    "no builder for the catalog relation `"@ + relation.schema@ + "."@
                        + relation.name@ + "`"@,
                ),
            }
        }),
{
    let s = snapshot(cat, shape, truncated, needs_graph(relation));
    match identity(relation) {
        None => Err(
            SqlError::Unsupported(
                cat5(
                    "no builder for the catalog relation `",
                    relation.schema,
                    ".",
                    relation.name,
                    "`",
                ),
            ),
        ),
        Some(id) => Ok(contents_of(id, &s)),
    }
}

} // verus!
