//! The relations of the catalog: what each is called and what columns it has.

use vstd::prelude::*;
use crate::scan::find_from;
use crate::text::{cat3, chars_of, lower, owned, same_letters, text_between};

verus! {

// ── type numbers ─────────────────────────────────────────────────────────

pub const OID_BOOL: i32 = 16;

pub const OID_BYTEA: i32 = 17;

pub const OID_CHAR: i32 = 18;

pub const OID_NAME: i32 = 19;

pub const OID_INT8: i32 = 20;

pub const OID_INT2: i32 = 21;

pub const OID_INT4: i32 = 23;

pub const OID_TEXT: i32 = 25;

pub const OID_OID: i32 = 26;

pub const OID_FLOAT4: i32 = 700;

pub const OID_FLOAT8: i32 = 701;

pub const OID_DATE: i32 = 1082;

pub const OID_TIMESTAMPTZ: i32 = 1184;

pub const OID_JSONB: i32 = 3802;

pub const OID_GEOMETRY: i32 = 18_000;

pub const OID_VECTOR: i32 = 18_001;

// ── relations ────────────────────────────────────────────────────────────

/// One relation of the catalog.
#[derive(Clone, Copy, Debug, PartialEq, Eq, Structural)]
pub enum RelationId {
    DbTables,
    DbColumns,
    DbIndexes,
    DbEdges,
    DbContexts,
    IsSchemata,
    IsTables,
    IsColumns,
    IsTableConstraints,
    IsKeyColumnUsage,
    PgNamespace,
    PgClass,
    PgAttribute,
    PgType,
    PgIndex,
    PgIndexes,
    PgDescription,
    PgConstraint,
    PgTables,
    GeometryColumns,
    SpatialRefSys,
}

/// How many relations the catalog has.
pub const RELATION_COUNT: usize = 21;

/// The relations, in the order they are listed.
pub open spec fn relation_nth(i: int) -> RelationId {
    if i == 0 {
        RelationId::DbTables
    } else if i == 1 {
        RelationId::DbColumns
    } else if i == 2 {
        RelationId::DbIndexes
    } else if i == 3 {
        RelationId::DbEdges
    } else if i == 4 {
        RelationId::DbContexts
    } else if i == 5 {
        RelationId::IsSchemata
    } else if i == 6 {
        RelationId::IsTables
    } else if i == 7 {
        RelationId::IsColumns
    } else if i == 8 {
        RelationId::IsTableConstraints
    } else if i == 9 {
        RelationId::IsKeyColumnUsage
    } else if i == 10 {
        RelationId::PgNamespace
    } else if i == 11 {
        RelationId::PgClass
    } else if i == 12 {
        RelationId::PgAttribute
    } else if i == 13 {
        RelationId::PgType
    } else if i == 14 {
        RelationId::PgIndex
    } else if i == 15 {
        RelationId::PgIndexes
    } else if i == 16 {
        RelationId::PgDescription
    } else if i == 17 {
        RelationId::PgConstraint
    } else if i == 18 {
        RelationId::PgTables
    } else if i == 19 {
        RelationId::GeometryColumns
    } else {
        RelationId::SpatialRefSys
    }
}

pub fn nth(i: usize) -> (r: RelationId)
    ensures
        r == relation_nth(i as int),
{
    if i == 0 {
        RelationId::DbTables
    } else if i == 1 {
        RelationId::DbColumns
    } else if i == 2 {
        RelationId::DbIndexes
    } else if i == 3 {
        RelationId::DbEdges
    } else if i == 4 {
        RelationId::DbContexts
    } else if i == 5 {
        RelationId::IsSchemata
    } else if i == 6 {
        RelationId::IsTables
    } else if i == 7 {
        RelationId::IsColumns
    } else if i == 8 {
        RelationId::IsTableConstraints
    } else if i == 9 {
        RelationId::IsKeyColumnUsage
    } else if i == 10 {
        RelationId::PgNamespace
    } else if i == 11 {
        RelationId::PgClass
    } else if i == 12 {
        RelationId::PgAttribute
    } else if i == 13 {
        RelationId::PgType
    } else if i == 14 {
        RelationId::PgIndex
    } else if i == 15 {
        RelationId::PgIndexes
    } else if i == 16 {
        RelationId::PgDescription
    } else if i == 17 {
        RelationId::PgConstraint
    } else if i == 18 {
        RelationId::PgTables
    } else if i == 19 {
        RelationId::GeometryColumns
    } else {
        RelationId::SpatialRefSys
    }
}

/// The schema a relation stands in; the relations of this database have none.
pub open spec fn schema_name(id: RelationId) -> Seq<char> {
    match id {
        RelationId::DbTables => ""@,
        RelationId::DbColumns => ""@,
        RelationId::DbIndexes => ""@,
        RelationId::DbEdges => ""@,
        RelationId::DbContexts => ""@,
        RelationId::IsSchemata => "information_schema"@,
        RelationId::IsTables => "information_schema"@,
        RelationId::IsColumns => "information_schema"@,
        RelationId::IsTableConstraints => "information_schema"@,
        RelationId::IsKeyColumnUsage => "information_schema"@,
        RelationId::PgNamespace => "pg_catalog"@,
        RelationId::PgClass => "pg_catalog"@,
        RelationId::PgAttribute => "pg_catalog"@,
        RelationId::PgType => "pg_catalog"@,
        RelationId::PgIndex => "pg_catalog"@,
        RelationId::PgIndexes => "pg_catalog"@,
        RelationId::PgDescription => "pg_catalog"@,
        RelationId::PgConstraint => "pg_catalog"@,
        RelationId::PgTables => "pg_catalog"@,
        RelationId::GeometryColumns => "public"@,
        RelationId::SpatialRefSys => "public"@,
    }
}

pub fn schema_of(id: RelationId) -> (r: &'static str)
    ensures
        r@ == schema_name(id),
{
    match id {
        RelationId::DbTables => "",
        RelationId::DbColumns => "",
        RelationId::DbIndexes => "",
        RelationId::DbEdges => "",
        RelationId::DbContexts => "",
        RelationId::IsSchemata => "information_schema",
        RelationId::IsTables => "information_schema",
        RelationId::IsColumns => "information_schema",
        RelationId::IsTableConstraints => "information_schema",
        RelationId::IsKeyColumnUsage => "information_schema",
        RelationId::PgNamespace => "pg_catalog",
        RelationId::PgClass => "pg_catalog",
        RelationId::PgAttribute => "pg_catalog",
        RelationId::PgType => "pg_catalog",
        RelationId::PgIndex => "pg_catalog",
        RelationId::PgIndexes => "pg_catalog",
        RelationId::PgDescription => "pg_catalog",
        RelationId::PgConstraint => "pg_catalog",
        RelationId::PgTables => "pg_catalog",
        RelationId::GeometryColumns => "public",
        RelationId::SpatialRefSys => "public",
    }
}

/// The name of a relation.
pub open spec fn relation_name(id: RelationId) -> Seq<char> {
    match id {
        RelationId::DbTables => "db_tables"@,
        RelationId::DbColumns => "db_columns"@,
        RelationId::DbIndexes => "db_indexes"@,
        RelationId::DbEdges => "db_edges"@,
        RelationId::DbContexts => "db_contexts"@,
        RelationId::IsSchemata => "schemata"@,
        RelationId::IsTables => "tables"@,
        RelationId::IsColumns => "columns"@,
        RelationId::IsTableConstraints => "table_constraints"@,
        RelationId::IsKeyColumnUsage => "key_column_usage"@,
        RelationId::PgNamespace => "pg_namespace"@,
        RelationId::PgClass => "pg_class"@,
        RelationId::PgAttribute => "pg_attribute"@,
        RelationId::PgType => "pg_type"@,
        RelationId::PgIndex => "pg_index"@,
        RelationId::PgIndexes => "pg_indexes"@,
        RelationId::PgDescription => "pg_description"@,
        RelationId::PgConstraint => "pg_constraint"@,
        RelationId::PgTables => "pg_tables"@,
        RelationId::GeometryColumns => "geometry_columns"@,
        RelationId::SpatialRefSys => "spatial_ref_sys"@,
    }
}

pub fn name_of(id: RelationId) -> (r: &'static str)
    ensures
        r@ == relation_name(id),
{
    match id {
        RelationId::DbTables => "db_tables",
        RelationId::DbColumns => "db_columns",
        RelationId::DbIndexes => "db_indexes",
        RelationId::DbEdges => "db_edges",
        RelationId::DbContexts => "db_contexts",
        RelationId::IsSchemata => "schemata",
        RelationId::IsTables => "tables",
        RelationId::IsColumns => "columns",
        RelationId::IsTableConstraints => "table_constraints",
        RelationId::IsKeyColumnUsage => "key_column_usage",
        RelationId::PgNamespace => "pg_namespace",
        RelationId::PgClass => "pg_class",
        RelationId::PgAttribute => "pg_attribute",
        RelationId::PgType => "pg_type",
        RelationId::PgIndex => "pg_index",
        RelationId::PgIndexes => "pg_indexes",
        RelationId::PgDescription => "pg_description",
        RelationId::PgConstraint => "pg_constraint",
        RelationId::PgTables => "pg_tables",
        RelationId::GeometryColumns => "geometry_columns",
        RelationId::SpatialRefSys => "spatial_ref_sys",
    }
}

/// A column of a catalog relation.
#[derive(Clone, Copy, Debug)]
pub struct CatalogColumn {
    pub name: &'static str,
    /// The number of its type.
    pub oid: i32,
}

pub struct CatalogColumnV {
    pub name: Seq<char>,
    pub oid: i32,
}

impl DeepView for CatalogColumn {
    type V = CatalogColumnV;

    open spec fn deep_view(&self) -> CatalogColumnV {
        CatalogColumnV { name: self.name@, oid: self.oid }
    }
}

fn c(name: &'static str, oid: i32) -> (r: CatalogColumn)
    ensures
        r.deep_view() == column(name@, oid),
{
    CatalogColumn { name, oid }
}

pub open spec fn column(name: Seq<char>, oid: i32) -> CatalogColumnV {
    CatalogColumnV { name, oid }
}

/// The columns of a relation.
pub open spec fn relation_columns(id: RelationId) -> Seq<CatalogColumnV> {
    match id {
        RelationId::DbTables => seq![
            column("name"@, OID_TEXT),
            column("id"@, OID_INT8),
            column("rows"@, OID_INT8),
            column("fields"@, OID_INT8),
        ],
        RelationId::DbColumns => seq![
            column("table"@, OID_TEXT),
            column("name"@, OID_TEXT),
            column("kind"@, OID_TEXT),
            column("declared_type"@, OID_TEXT),
            column("position"@, OID_INT8),
            column("not_null"@, OID_BOOL),
            column("has_default"@, OID_BOOL),
        ],
        RelationId::DbIndexes => seq![
            column("table"@, OID_TEXT),
            column("name"@, OID_TEXT),
            column("family"@, OID_TEXT),
            column("field"@, OID_TEXT),
            column("expression"@, OID_TEXT),
            column("state"@, OID_TEXT),
        ],
        RelationId::DbEdges => seq![
            column("edge_type"@, OID_TEXT),
            column("from_table"@, OID_TEXT),
            column("to_table"@, OID_TEXT),
            column("context"@, OID_TEXT),
        ],
        RelationId::DbContexts => seq![
            column("name"@, OID_TEXT),
            column("id"@, OID_INT8),
        ],
        RelationId::IsSchemata => seq![
            column("catalog_name"@, OID_TEXT),
            column("schema_name"@, OID_TEXT),
            column("schema_owner"@, OID_TEXT),
            column("default_character_set_catalog"@, OID_TEXT),
            column("default_character_set_schema"@, OID_TEXT),
            column("default_character_set_name"@, OID_TEXT),
            column("sql_path"@, OID_TEXT),
        ],
        RelationId::IsTables => seq![
            column("table_catalog"@, OID_TEXT),
            column("table_schema"@, OID_TEXT),
            column("table_name"@, OID_TEXT),
            column("table_type"@, OID_TEXT),
            column("self_referencing_column_name"@, OID_TEXT),
            column("reference_generation"@, OID_TEXT),
            column("user_defined_type_catalog"@, OID_TEXT),
            column("user_defined_type_schema"@, OID_TEXT),
            column("user_defined_type_name"@, OID_TEXT),
            column("is_insertable_into"@, OID_TEXT),
            column("is_typed"@, OID_TEXT),
            column("commit_action"@, OID_TEXT),
        ],
        RelationId::IsColumns => seq![
            column("table_catalog"@, OID_TEXT),
            column("table_schema"@, OID_TEXT),
            column("table_name"@, OID_TEXT),
            column("column_name"@, OID_TEXT),
            column("ordinal_position"@, OID_INT8),
            column("column_default"@, OID_TEXT),
            column("is_nullable"@, OID_TEXT),
            column("data_type"@, OID_TEXT),
            column("character_maximum_length"@, OID_INT8),
            column("numeric_precision"@, OID_INT8),
            column("numeric_scale"@, OID_INT8),
            column("datetime_precision"@, OID_INT8),
            column("udt_catalog"@, OID_TEXT),
            column("udt_schema"@, OID_TEXT),
            column("udt_name"@, OID_TEXT),
        ],
        RelationId::IsTableConstraints => seq![
            column("constraint_catalog"@, OID_TEXT),
            column("constraint_schema"@, OID_TEXT),
            column("constraint_name"@, OID_TEXT),
            column("table_catalog"@, OID_TEXT),
            column("table_schema"@, OID_TEXT),
            column("table_name"@, OID_TEXT),
            column("constraint_type"@, OID_TEXT),
            column("is_deferrable"@, OID_TEXT),
            column("initially_deferred"@, OID_TEXT),
            column("enforced"@, OID_TEXT),
        ],
        RelationId::IsKeyColumnUsage => seq![
            column("constraint_catalog"@, OID_TEXT),
            column("constraint_schema"@, OID_TEXT),
            column("constraint_name"@, OID_TEXT),
            column("table_catalog"@, OID_TEXT),
            column("table_schema"@, OID_TEXT),
            column("table_name"@, OID_TEXT),
            column("column_name"@, OID_TEXT),
            column("ordinal_position"@, OID_INT8),
            column("position_in_unique_constraint"@, OID_INT8),
        ],
        RelationId::PgNamespace => seq![
            column("oid"@, OID_OID),
            column("nspname"@, OID_NAME),
            column("nspowner"@, OID_OID),
            column("nspacl"@, OID_TEXT),
        ],
        RelationId::PgClass => seq![
            column("oid"@, OID_OID),
            column("relname"@, OID_NAME),
            column("relnamespace"@, OID_OID),
            column("reltype"@, OID_OID),
            column("relowner"@, OID_OID),
            column("relam"@, OID_OID),
            column("relpages"@, OID_INT4),
            column("reltuples"@, OID_FLOAT4),
            column("reltoastrelid"@, OID_OID),
            column("relhasindex"@, OID_BOOL),
            column("relisshared"@, OID_BOOL),
            column("relpersistence"@, OID_CHAR),
            column("relkind"@, OID_CHAR),
            column("relnatts"@, OID_INT2),
            column("relchecks"@, OID_INT2),
            column("relhasrules"@, OID_BOOL),
            column("relhastriggers"@, OID_BOOL),
            column("relhassubclass"@, OID_BOOL),
            column("relrowsecurity"@, OID_BOOL),
            column("relispopulated"@, OID_BOOL),
            column("relreplident"@, OID_CHAR),
            column("relispartition"@, OID_BOOL),
            column("reltablespace"@, OID_OID),
            column("relacl"@, OID_TEXT),
            column("reloptions"@, OID_TEXT),
        ],
        RelationId::PgAttribute => seq![
            column("attrelid"@, OID_OID),
            column("attname"@, OID_NAME),
            column("atttypid"@, OID_OID),
            column("attstattarget"@, OID_INT4),
            column("attlen"@, OID_INT2),
            column("attnum"@, OID_INT2),
            column("attndims"@, OID_INT4),
            column("atttypmod"@, OID_INT4),
            column("attbyval"@, OID_BOOL),
            column("attstorage"@, OID_CHAR),
            column("attalign"@, OID_CHAR),
            column("attnotnull"@, OID_BOOL),
            column("atthasdef"@, OID_BOOL),
            column("attidentity"@, OID_CHAR),
            column("attgenerated"@, OID_CHAR),
            column("attisdropped"@, OID_BOOL),
            column("attislocal"@, OID_BOOL),
            column("attinhcount"@, OID_INT4),
            column("attcollation"@, OID_OID),
        ],
        RelationId::PgType => seq![
            column("oid"@, OID_OID),
            column("typname"@, OID_NAME),
            column("typnamespace"@, OID_OID),
            column("typowner"@, OID_OID),
            column("typlen"@, OID_INT2),
            column("typbyval"@, OID_BOOL),
            column("typtype"@, OID_CHAR),
            column("typcategory"@, OID_CHAR),
            column("typispreferred"@, OID_BOOL),
            column("typisdefined"@, OID_BOOL),
            column("typdelim"@, OID_CHAR),
            column("typrelid"@, OID_OID),
            column("typelem"@, OID_OID),
            column("typarray"@, OID_OID),
            column("typnotnull"@, OID_BOOL),
            column("typbasetype"@, OID_OID),
            column("typtypmod"@, OID_INT4),
            column("typndims"@, OID_INT4),
        ],
        RelationId::PgIndex => seq![
            column("indexrelid"@, OID_OID),
            column("indrelid"@, OID_OID),
            column("indnatts"@, OID_INT2),
            column("indnkeyatts"@, OID_INT2),
            column("indisunique"@, OID_BOOL),
            column("indisprimary"@, OID_BOOL),
            column("indisexclusion"@, OID_BOOL),
            column("indimmediate"@, OID_BOOL),
            column("indisclustered"@, OID_BOOL),
            column("indisvalid"@, OID_BOOL),
            column("indisready"@, OID_BOOL),
            column("indislive"@, OID_BOOL),
            column("indkey"@, OID_TEXT),
        ],
        RelationId::PgIndexes => seq![
            column("schemaname"@, OID_NAME),
            column("tablename"@, OID_NAME),
            column("indexname"@, OID_NAME),
            column("tablespace"@, OID_NAME),
            column("indexdef"@, OID_TEXT),
        ],
        RelationId::PgDescription => seq![
            column("objoid"@, OID_OID),
            column("classoid"@, OID_OID),
            column("objsubid"@, OID_INT4),
            column("description"@, OID_TEXT),
        ],
        RelationId::PgConstraint => seq![
            column("oid"@, OID_OID),
            column("conname"@, OID_NAME),
            column("connamespace"@, OID_OID),
            column("contype"@, OID_CHAR),
            column("condeferrable"@, OID_BOOL),
            column("condeferred"@, OID_BOOL),
            column("convalidated"@, OID_BOOL),
            column("conrelid"@, OID_OID),
            column("contypid"@, OID_OID),
            column("conindid"@, OID_OID),
            column("conkey"@, OID_TEXT),
        ],
        RelationId::PgTables => seq![
            column("schemaname"@, OID_NAME),
            column("tablename"@, OID_NAME),
            column("tableowner"@, OID_NAME),
            column("tablespace"@, OID_NAME),
            column("hasindexes"@, OID_BOOL),
            column("hasrules"@, OID_BOOL),
            column("hastriggers"@, OID_BOOL),
            column("rowsecurity"@, OID_BOOL),
        ],
        RelationId::GeometryColumns => seq![
            column("f_table_catalog"@, OID_TEXT),
            column("f_table_schema"@, OID_TEXT),
            column("f_table_name"@, OID_TEXT),
            column("f_geometry_column"@, OID_TEXT),
            column("coord_dimension"@, OID_INT8),
            column("srid"@, OID_INT8),
            column("type"@, OID_TEXT),
        ],
        RelationId::SpatialRefSys => seq![
            column("srid"@, OID_INT8),
            column("auth_name"@, OID_TEXT),
            column("auth_srid"@, OID_INT8),
            column("srtext"@, OID_TEXT),
            column("proj4text"@, OID_TEXT),
        ],
    }
}

fn db_tables_columns() -> (r: Vec<CatalogColumn>)
    ensures
        r.deep_view() == relation_columns(RelationId::DbTables),
{
    let r = vec![
        c("name", OID_TEXT),
        c("id", OID_INT8),
        c("rows", OID_INT8),
        c("fields", OID_INT8),
    ];
    assert(r.deep_view() =~= relation_columns(RelationId::DbTables));
    r
}

fn db_columns_columns() -> (r: Vec<CatalogColumn>)
    ensures
        r.deep_view() == relation_columns(RelationId::DbColumns),
{
    let r = vec![
        c("table", OID_TEXT),
        c("name", OID_TEXT),
        c("kind", OID_TEXT),
        c("declared_type", OID_TEXT),
        c("position", OID_INT8),
        c("not_null", OID_BOOL),
        c("has_default", OID_BOOL),
    ];
    assert(r.deep_view() =~= relation_columns(RelationId::DbColumns));
    r
}

fn db_indexes_columns() -> (r: Vec<CatalogColumn>)
    ensures
        r.deep_view() == relation_columns(RelationId::DbIndexes),
{
    let r = vec![
        c("table", OID_TEXT),
        c("name", OID_TEXT),
        c("family", OID_TEXT),
        c("field", OID_TEXT),
        c("expression", OID_TEXT),
        c("state", OID_TEXT),
    ];
    assert(r.deep_view() =~= relation_columns(RelationId::DbIndexes));
    r
}

fn db_edges_columns() -> (r: Vec<CatalogColumn>)
    ensures
        r.deep_view() == relation_columns(RelationId::DbEdges),
{
    let r = vec![
        c("edge_type", OID_TEXT),
        c("from_table", OID_TEXT),
        c("to_table", OID_TEXT),
        c("context", OID_TEXT),
    ];
    assert(r.deep_view() =~= relation_columns(RelationId::DbEdges));
    r
}

fn db_contexts_columns() -> (r: Vec<CatalogColumn>)
    ensures
        r.deep_view() == relation_columns(RelationId::DbContexts),
{
    let r = vec![
        c("name", OID_TEXT),
        c("id", OID_INT8),
    ];
    assert(r.deep_view() =~= relation_columns(RelationId::DbContexts));
    r
}

fn is_schemata_columns() -> (r: Vec<CatalogColumn>)
    ensures
        r.deep_view() == relation_columns(RelationId::IsSchemata),
{
    let r = vec![
        c("catalog_name", OID_TEXT),
        c("schema_name", OID_TEXT),
        c("schema_owner", OID_TEXT),
        c("default_character_set_catalog", OID_TEXT),
        c("default_character_set_schema", OID_TEXT),
        c("default_character_set_name", OID_TEXT),
        c("sql_path", OID_TEXT),
    ];
    assert(r.deep_view() =~= relation_columns(RelationId::IsSchemata));
    r
}

fn is_tables_columns() -> (r: Vec<CatalogColumn>)
    ensures
        r.deep_view() == relation_columns(RelationId::IsTables),
{
    let r = vec![
        c("table_catalog", OID_TEXT),
        c("table_schema", OID_TEXT),
        c("table_name", OID_TEXT),
        c("table_type", OID_TEXT),
        c("self_referencing_column_name", OID_TEXT),
        c("reference_generation", OID_TEXT),
        c("user_defined_type_catalog", OID_TEXT),
        c("user_defined_type_schema", OID_TEXT),
        c("user_defined_type_name", OID_TEXT),
        c("is_insertable_into", OID_TEXT),
        c("is_typed", OID_TEXT),
        c("commit_action", OID_TEXT),
    ];
    assert(r.deep_view() =~= relation_columns(RelationId::IsTables));
    r
}

fn is_columns_columns() -> (r: Vec<CatalogColumn>)
    ensures
        r.deep_view() == relation_columns(RelationId::IsColumns),
{
    let r = vec![
        c("table_catalog", OID_TEXT),
        c("table_schema", OID_TEXT),
        c("table_name", OID_TEXT),
        c("column_name", OID_TEXT),
        c("ordinal_position", OID_INT8),
        c("column_default", OID_TEXT),
        c("is_nullable", OID_TEXT),
        c("data_type", OID_TEXT),
        c("character_maximum_length", OID_INT8),
        c("numeric_precision", OID_INT8),
        c("numeric_scale", OID_INT8),
        c("datetime_precision", OID_INT8),
        c("udt_catalog", OID_TEXT),
        c("udt_schema", OID_TEXT),
        c("udt_name", OID_TEXT),
    ];
    assert(r.deep_view() =~= relation_columns(RelationId::IsColumns));
    r
}

fn is_table_constraints_columns() -> (r: Vec<CatalogColumn>)
    ensures
        r.deep_view() == relation_columns(RelationId::IsTableConstraints),
{
    let r = vec![
        c("constraint_catalog", OID_TEXT),
        c("constraint_schema", OID_TEXT),
        c("constraint_name", OID_TEXT),
        c("table_catalog", OID_TEXT),
        c("table_schema", OID_TEXT),
        c("table_name", OID_TEXT),
        c("constraint_type", OID_TEXT),
        c("is_deferrable", OID_TEXT),
        c("initially_deferred", OID_TEXT),
        c("enforced", OID_TEXT),
    ];
    assert(r.deep_view() =~= relation_columns(RelationId::IsTableConstraints));
    r
}

fn is_key_column_usage_columns() -> (r: Vec<CatalogColumn>)
    ensures
        r.deep_view() == relation_columns(RelationId::IsKeyColumnUsage),
{
    let r = vec![
        c("constraint_catalog", OID_TEXT),
        c("constraint_schema", OID_TEXT),
        c("constraint_name", OID_TEXT),
        c("table_catalog", OID_TEXT),
        c("table_schema", OID_TEXT),
        c("table_name", OID_TEXT),
        c("column_name", OID_TEXT),
        c("ordinal_position", OID_INT8),
        c("position_in_unique_constraint", OID_INT8),
    ];
    assert(r.deep_view() =~= relation_columns(RelationId::IsKeyColumnUsage));
    r
}

fn pg_namespace_columns() -> (r: Vec<CatalogColumn>)
    ensures
        r.deep_view() == relation_columns(RelationId::PgNamespace),
{
    let r = vec![
        c("oid", OID_OID),
        c("nspname", OID_NAME),
        c("nspowner", OID_OID),
        c("nspacl", OID_TEXT),
    ];
    assert(r.deep_view() =~= relation_columns(RelationId::PgNamespace));
    r
}

fn pg_class_columns() -> (r: Vec<CatalogColumn>)
    ensures
        r.deep_view() == relation_columns(RelationId::PgClass),
{
    let r = vec![
        c("oid", OID_OID),
        c("relname", OID_NAME),
        c("relnamespace", OID_OID),
        c("reltype", OID_OID),
        c("relowner", OID_OID),
        c("relam", OID_OID),
        c("relpages", OID_INT4),
        c("reltuples", OID_FLOAT4),
        c("reltoastrelid", OID_OID),
        c("relhasindex", OID_BOOL),
        c("relisshared", OID_BOOL),
        c("relpersistence", OID_CHAR),
        c("relkind", OID_CHAR),
        c("relnatts", OID_INT2),
        c("relchecks", OID_INT2),
        c("relhasrules", OID_BOOL),
        c("relhastriggers", OID_BOOL),
        c("relhassubclass", OID_BOOL),
        c("relrowsecurity", OID_BOOL),
        c("relispopulated", OID_BOOL),
        c("relreplident", OID_CHAR),
        c("relispartition", OID_BOOL),
        c("reltablespace", OID_OID),
        c("relacl", OID_TEXT),
        c("reloptions", OID_TEXT),
    ];
    assert(r.deep_view() =~= relation_columns(RelationId::PgClass));
    r
}

fn pg_attribute_columns() -> (r: Vec<CatalogColumn>)
    ensures
        r.deep_view() == relation_columns(RelationId::PgAttribute),
{
    let r = vec![
        c("attrelid", OID_OID),
        c("attname", OID_NAME),
        c("atttypid", OID_OID),
        c("attstattarget", OID_INT4),
        c("attlen", OID_INT2),
        c("attnum", OID_INT2),
        c("attndims", OID_INT4),
        c("atttypmod", OID_INT4),
        c("attbyval", OID_BOOL),
        c("attstorage", OID_CHAR),
        c("attalign", OID_CHAR),
        c("attnotnull", OID_BOOL),
        c("atthasdef", OID_BOOL),
        c("attidentity", OID_CHAR),
        c("attgenerated", OID_CHAR),
        c("attisdropped", OID_BOOL),
        c("attislocal", OID_BOOL),
        c("attinhcount", OID_INT4),
        c("attcollation", OID_OID),
    ];
    assert(r.deep_view() =~= relation_columns(RelationId::PgAttribute));
    r
}

fn pg_type_columns() -> (r: Vec<CatalogColumn>)
    ensures
        r.deep_view() == relation_columns(RelationId::PgType),
{
    let r = vec![
        c("oid", OID_OID),
        c("typname", OID_NAME),
        c("typnamespace", OID_OID),
        c("typowner", OID_OID),
        c("typlen", OID_INT2),
        c("typbyval", OID_BOOL),
        c("typtype", OID_CHAR),
        c("typcategory", OID_CHAR),
        c("typispreferred", OID_BOOL),
        c("typisdefined", OID_BOOL),
        c("typdelim", OID_CHAR),
        c("typrelid", OID_OID),
        c("typelem", OID_OID),
        c("typarray", OID_OID),
        c("typnotnull", OID_BOOL),
        c("typbasetype", OID_OID),
        c("typtypmod", OID_INT4),
        c("typndims", OID_INT4),
    ];
    assert(r.deep_view() =~= relation_columns(RelationId::PgType));
    r
}

fn pg_index_columns() -> (r: Vec<CatalogColumn>)
    ensures
        r.deep_view() == relation_columns(RelationId::PgIndex),
{
    let r = vec![
        c("indexrelid", OID_OID),
        c("indrelid", OID_OID),
        c("indnatts", OID_INT2),
        c("indnkeyatts", OID_INT2),
        c("indisunique", OID_BOOL),
        c("indisprimary", OID_BOOL),
        c("indisexclusion", OID_BOOL),
        c("indimmediate", OID_BOOL),
        c("indisclustered", OID_BOOL),
        c("indisvalid", OID_BOOL),
        c("indisready", OID_BOOL),
        c("indislive", OID_BOOL),
        c("indkey", OID_TEXT),
    ];
    assert(r.deep_view() =~= relation_columns(RelationId::PgIndex));
    r
}

fn pg_indexes_columns() -> (r: Vec<CatalogColumn>)
    ensures
        r.deep_view() == relation_columns(RelationId::PgIndexes),
{
    let r = vec![
        c("schemaname", OID_NAME),
        c("tablename", OID_NAME),
        c("indexname", OID_NAME),
        c("tablespace", OID_NAME),
        c("indexdef", OID_TEXT),
    ];
    assert(r.deep_view() =~= relation_columns(RelationId::PgIndexes));
    r
}

fn pg_description_columns() -> (r: Vec<CatalogColumn>)
    ensures
        r.deep_view() == relation_columns(RelationId::PgDescription),
{
    let r = vec![
        c("objoid", OID_OID),
        c("classoid", OID_OID),
        c("objsubid", OID_INT4),
        c("description", OID_TEXT),
    ];
    assert(r.deep_view() =~= relation_columns(RelationId::PgDescription));
    r
}

fn pg_constraint_columns() -> (r: Vec<CatalogColumn>)
    ensures
        r.deep_view() == relation_columns(RelationId::PgConstraint),
{
    let r = vec![
        c("oid", OID_OID),
        c("conname", OID_NAME),
        c("connamespace", OID_OID),
        c("contype", OID_CHAR),
        c("condeferrable", OID_BOOL),
        c("condeferred", OID_BOOL),
        c("convalidated", OID_BOOL),
        c("conrelid", OID_OID),
        c("contypid", OID_OID),
        c("conindid", OID_OID),
        c("conkey", OID_TEXT),
    ];
    assert(r.deep_view() =~= relation_columns(RelationId::PgConstraint));
    r
}

fn pg_tables_columns() -> (r: Vec<CatalogColumn>)
    ensures
        r.deep_view() == relation_columns(RelationId::PgTables),
{
    let r = vec![
        c("schemaname", OID_NAME),
        c("tablename", OID_NAME),
        c("tableowner", OID_NAME),
        c("tablespace", OID_NAME),
        c("hasindexes", OID_BOOL),
        c("hasrules", OID_BOOL),
        c("hastriggers", OID_BOOL),
        c("rowsecurity", OID_BOOL),
    ];
    assert(r.deep_view() =~= relation_columns(RelationId::PgTables));
    r
}

fn geometry_columns_columns() -> (r: Vec<CatalogColumn>)
    ensures
        r.deep_view() == relation_columns(RelationId::GeometryColumns),
{
    let r = vec![
        c("f_table_catalog", OID_TEXT),
        c("f_table_schema", OID_TEXT),
        c("f_table_name", OID_TEXT),
        c("f_geometry_column", OID_TEXT),
        c("coord_dimension", OID_INT8),
        c("srid", OID_INT8),
        c("type", OID_TEXT),
    ];
    assert(r.deep_view() =~= relation_columns(RelationId::GeometryColumns));
    r
}

fn spatial_ref_sys_columns() -> (r: Vec<CatalogColumn>)
    ensures
        r.deep_view() == relation_columns(RelationId::SpatialRefSys),
{
    let r = vec![
        c("srid", OID_INT8),
        c("auth_name", OID_TEXT),
        c("auth_srid", OID_INT8),
        c("srtext", OID_TEXT),
        c("proj4text", OID_TEXT),
    ];
    assert(r.deep_view() =~= relation_columns(RelationId::SpatialRefSys));
    r
}

fn columns_of(id: RelationId) -> (r: Vec<CatalogColumn>)
    ensures
        r.deep_view() == relation_columns(id),
{
    match id {
        RelationId::DbTables => db_tables_columns(),
        RelationId::DbColumns => db_columns_columns(),
        RelationId::DbIndexes => db_indexes_columns(),
        RelationId::DbEdges => db_edges_columns(),
        RelationId::DbContexts => db_contexts_columns(),
        RelationId::IsSchemata => is_schemata_columns(),
        RelationId::IsTables => is_tables_columns(),
        RelationId::IsColumns => is_columns_columns(),
        RelationId::IsTableConstraints => is_table_constraints_columns(),
        RelationId::IsKeyColumnUsage => is_key_column_usage_columns(),
        RelationId::PgNamespace => pg_namespace_columns(),
        RelationId::PgClass => pg_class_columns(),
        RelationId::PgAttribute => pg_attribute_columns(),
        RelationId::PgType => pg_type_columns(),
        RelationId::PgIndex => pg_index_columns(),
        RelationId::PgIndexes => pg_indexes_columns(),
        RelationId::PgDescription => pg_description_columns(),
        RelationId::PgConstraint => pg_constraint_columns(),
        RelationId::PgTables => pg_tables_columns(),
        RelationId::GeometryColumns => geometry_columns_columns(),
        RelationId::SpatialRefSys => spatial_ref_sys_columns(),
    }
}

/// A relation a statement can name.
#[derive(Debug)]
pub struct CatalogRelation {
    pub schema: &'static str,
    pub name: &'static str,
    pub columns: Vec<CatalogColumn>,
}

pub struct CatalogRelationV {
    pub schema: Seq<char>,
    pub name: Seq<char>,
    pub columns: Seq<CatalogColumnV>,
}

impl DeepView for CatalogRelation {
    type V = CatalogRelationV;

    open spec fn deep_view(&self) -> CatalogRelationV {
        CatalogRelationV {
            schema: self.schema@,
            name: self.name@,
            columns: self.columns.deep_view(),
        }
    }
}

/// The relation with an identity.
pub open spec fn relation_with(id: RelationId) -> CatalogRelationV {
    CatalogRelationV {
        schema: schema_name(id),
        name: relation_name(id),
        columns: relation_columns(id),
    }
}

/// The relation with an identity.
pub fn relation_by(id: RelationId) -> (r: CatalogRelation)
    ensures
        r.deep_view() == relation_with(id),
{
    CatalogRelation { schema: schema_of(id), name: name_of(id), columns: columns_of(id) }
}

/// A relation as a statement would write it: behind its schema, where it has
/// one.
pub open spec fn written_name(r: CatalogRelationV) -> Seq<char> {
    if r.schema.len() == 0 {
        r.name
    } else {
        r.schema + "."@ + r.name
    }
}

/// Where a column of a list is first named so, in either case, from `i` on.
pub open spec fn column_from(columns: Seq<CatalogColumnV>, name: Seq<char>, i: nat) -> Option<nat>
    decreases columns.len() - i,
{
    if i >= columns.len() {
        None
    } else if lower(columns[i as int].name) == lower(name) {
        Some(i)
    } else {
        column_from(columns, name, i + 1)
    }
}

impl CatalogRelation {
    pub fn written(&self) -> (r: String)
        ensures
            r@ == written_name(self.deep_view()),
    {
        if self.schema.unicode_len() == 0 {
            owned(self.name)
        } else {
            cat3(self.schema, ".", self.name)
        }
    }

    /// Where the column `name` stands.
    pub fn column_at(&self, name: &str) -> (r: Option<usize>)
        ensures
            match r {
                Some(at) => column_from(self.deep_view().columns, name@, 0) == Some(at as nat)
                    && at < self.columns@.len(),
                None => column_from(self.deep_view().columns, name@, 0) is None,
            },
    {
        let ghost all = self.deep_view().columns;
        let mut i: usize = 0;
        while i < self.columns.len()
            invariant
                i <= self.columns@.len(),
                all == self.columns.deep_view(),
                column_from(all, name@, i as nat) == column_from(all, name@, 0),
            decreases self.columns@.len() - i,
        {
            assert(all[i as int] == self.columns@[i as int].deep_view());
            if same_letters(self.columns[i].name, name) {
                return Some(i);
            }
            i = i + 1;
        }
        None
    }
}

// ── names ────────────────────────────────────────────────────────────────

/// A written name, split at its first dot.
pub open spec fn split_name(name: Seq<char>) -> (Option<Seq<char>>, Seq<char>) {
    match find_from(name, "."@, 0) {
        Some(at) => (Some(name.take(at as int)), name.skip(at as int + 1)),
        None => (None, name),
    }
}

/// Whether a name means a relation. Two of the standard's names are too common
/// to be taken without their schema.
pub open spec fn is_named(id: RelationId, schema: Option<Seq<char>>, bare: Seq<char>) -> bool {
    &&& lower(relation_name(id)) == lower(bare)
    &&& match schema {
        Some(schema) => lower(schema_name(id)) == lower(schema),
        None => id != RelationId::IsTables && id != RelationId::IsColumns,
    }
}

/// The first relation that a name means, from `i` on.
pub open spec fn named_from(schema: Option<Seq<char>>, bare: Seq<char>, i: nat) -> Option<
    RelationId,
>
    decreases RELATION_COUNT - i,
{
    if i >= RELATION_COUNT {
        None
    } else if is_named(relation_nth(i as int), schema, bare) {
        Some(relation_nth(i as int))
    } else {
        named_from(schema, bare, i + 1)
    }
}

/// The relation that a written name means.
pub open spec fn relation_named(name: Seq<char>) -> Option<RelationId> {
    named_from(split_name(name).0, split_name(name).1, 0)
}

fn is_meant(id: RelationId, schema: &Option<String>, bare: &str) -> (r: bool)
    ensures
        r == is_named(id, schema.deep_view(), bare@),
{
    if !same_letters(name_of(id), bare) {
        return false;
    }
    match schema {
        Some(schema) => same_letters(schema_of(id), schema.as_str()),
        None => id != RelationId::IsTables && id != RelationId::IsColumns,
    }
}

/// The relation that a written name means.
pub fn relation_id(name: &str) -> (r: Option<RelationId>)
    ensures
        r == relation_named(name@),
{
    let chars = chars_of(name);
    let dot = chars_of(".");
    proof {
        reveal_strlit(".");
    }
    let length: usize = chars.len();
    let (schema, bare) = match crate::scan::find(&chars, &dot, 0) {
        Some(at) => {
            let schema = text_between(&chars, 0, at);
            let bare = text_between(&chars, at + 1, length);
            assert(schema@ =~= name@.take(at as int));
            assert(bare@ =~= name@.skip(at as int + 1));
            (Some(schema), bare)
        },
        None => (None, owned(name)),
    };
    let mut i: usize = 0;
    while i < RELATION_COUNT
        invariant
            i <= RELATION_COUNT,
            schema.deep_view() == split_name(name@).0,
            bare@ == split_name(name@).1,
            named_from(schema.deep_view(), bare@, i as nat) == relation_named(name@),
        decreases RELATION_COUNT - i,
    {
        let id = nth(i);
        if is_meant(id, &schema, bare.as_str()) {
            return Some(id);
        }
        i = i + 1;
    }
    None
}

/// The relation that a written name means.
pub fn relation(name: &str) -> (r: Option<CatalogRelation>)
    ensures
        match relation_named(name@) {
            Some(id) => r is Some && r->0.deep_view() == relation_with(id),
            None => r is None,
        },
{
    match relation_id(name) {
        Some(id) => Some(relation_by(id)),
        None => None,
    }
}

proof fn named_from_found(schema: Option<Seq<char>>, bare: Seq<char>, i: nat)
    ensures
        match named_from(schema, bare, i) {
            Some(id) => is_named(id, schema, bare),
            None => true,
        },
    decreases RELATION_COUNT - i,
{
    if i < RELATION_COUNT && !is_named(relation_nth(i as int), schema, bare) {
        named_from_found(schema, bare, i + 1);
    }
}

proof fn named_from_finds(schema: Option<Seq<char>>, bare: Seq<char>, i: nat, k: nat)
    requires
        i <= k < RELATION_COUNT,
        is_named(relation_nth(k as int), schema, bare),
    ensures
        named_from(schema, bare, i) is Some,
    decreases k - i,
{
    if i < k {
        named_from_finds(schema, bare, i + 1, k);
    }
}

/// What a name means is called so: its name is the written one up to case, and
/// so is its schema where one was written.
pub proof fn relation_is_called_so(name: Seq<char>)
    requires
        relation_named(name) is Some,
    ensures
        is_named(relation_named(name)->0, split_name(name).0, split_name(name).1),
{
    named_from_found(split_name(name).0, split_name(name).1, 0);
}

proof fn dot_found(s: Seq<char>, at: nat, from: nat)
    requires
        from <= at < s.len(),
        s[at as int] == '.',
        forall|k: int| 0 <= k < at ==> s[k] != '.',
    ensures
        find_from(s, "."@, from) == Some(at),
    decreases at - from,
{
    reveal_strlit(".");
    let here = s.subrange(from as int, from as int + 1);
    assert(here[0] == s[from as int]);
    if from < at {
        assert("."@[0] == '.');
        assert(!crate::scan::stands_at(s, "."@, from as int));
        dot_found(s, at, from + 1);
    } else {
        assert(here =~= "."@);
    }
}

proof fn no_dot(s: Seq<char>, from: nat)
    requires
        forall|k: int| 0 <= k < s.len() ==> s[k] != '.',
    ensures
        find_from(s, "."@, from) is None,
    decreases s.len() - from,
{
    reveal_strlit(".");
    if from < s.len() {
        let here = s.subrange(from as int, from as int + 1);
        assert(here[0] == s[from as int]);
        assert("."@[0] == '.');
        assert(!crate::scan::stands_at(s, "."@, from as int));
        no_dot(s, from + 1);
    }
}

proof fn plain_names(id: RelationId)
    ensures
        forall|k: int| 0 <= k < schema_name(id).len() ==> schema_name(id)[k] != '.',
        forall|k: int| 0 <= k < relation_name(id).len() ==> relation_name(id)[k] != '.',
        schema_name(id).len() == 0 <==> (id == RelationId::DbTables || id == RelationId::DbColumns
            || id == RelationId::DbIndexes || id == RelationId::DbEdges || id
            == RelationId::DbContexts),
{
    reveal_strlit("");
    reveal_strlit("columns");
    reveal_strlit("db_columns");
    reveal_strlit("db_contexts");
    reveal_strlit("db_edges");
    reveal_strlit("db_indexes");
    reveal_strlit("db_tables");
    reveal_strlit("geometry_columns");
    reveal_strlit("information_schema");
    reveal_strlit("key_column_usage");
    reveal_strlit("pg_attribute");
    reveal_strlit("pg_catalog");
    reveal_strlit("pg_class");
    reveal_strlit("pg_constraint");
    reveal_strlit("pg_description");
    reveal_strlit("pg_index");
    reveal_strlit("pg_indexes");
    reveal_strlit("pg_namespace");
    reveal_strlit("pg_tables");
    reveal_strlit("pg_type");
    reveal_strlit("public");
    reveal_strlit("schemata");
    reveal_strlit("spatial_ref_sys");
    reveal_strlit("table_constraints");
    reveal_strlit("tables");
}

/// The length of a relation's name, and its first and its fourth character.
spec fn name_mark(id: RelationId) -> (nat, char, char) {
    match id {
        RelationId::DbTables => (9, 'd', 't'),
        RelationId::DbColumns => (10, 'd', 'c'),
        RelationId::DbIndexes => (10, 'd', 'i'),
        RelationId::DbEdges => (8, 'd', 'e'),
        RelationId::DbContexts => (11, 'd', 'c'),
        RelationId::IsSchemata => (8, 's', 'e'),
        RelationId::IsTables => (6, 't', 'l'),
        RelationId::IsColumns => (7, 'c', 'u'),
        RelationId::IsTableConstraints => (17, 't', 'l'),
        RelationId::IsKeyColumnUsage => (16, 'k', '_'),
        RelationId::PgNamespace => (12, 'p', 'n'),
        RelationId::PgClass => (8, 'p', 'c'),
        RelationId::PgAttribute => (12, 'p', 'a'),
        RelationId::PgType => (7, 'p', 't'),
        RelationId::PgIndex => (8, 'p', 'i'),
        RelationId::PgIndexes => (10, 'p', 'i'),
        RelationId::PgDescription => (14, 'p', 'd'),
        RelationId::PgConstraint => (13, 'p', 'c'),
        RelationId::PgTables => (9, 'p', 't'),
        RelationId::GeometryColumns => (16, 'g', 'm'),
        RelationId::SpatialRefSys => (15, 's', 't'),
    }
}

proof fn marked(id: RelationId)
    ensures
        lower(relation_name(id)).len() == name_mark(id).0,
        lower(relation_name(id))[0] == name_mark(id).1,
        lower(relation_name(id))[3] == name_mark(id).2,
{
    match id {
        RelationId::DbTables => {
            reveal_strlit("db_tables");
        },
        RelationId::DbColumns => {
            reveal_strlit("db_columns");
        },
        RelationId::DbIndexes => {
            reveal_strlit("db_indexes");
        },
        RelationId::DbEdges => {
            reveal_strlit("db_edges");
        },
        RelationId::DbContexts => {
            reveal_strlit("db_contexts");
        },
        RelationId::IsSchemata => {
            reveal_strlit("schemata");
        },
        RelationId::IsTables => {
            reveal_strlit("tables");
        },
        RelationId::IsColumns => {
            reveal_strlit("columns");
        },
        RelationId::IsTableConstraints => {
            reveal_strlit("table_constraints");
        },
        RelationId::IsKeyColumnUsage => {
            reveal_strlit("key_column_usage");
        },
        RelationId::PgNamespace => {
            reveal_strlit("pg_namespace");
        },
        RelationId::PgClass => {
            reveal_strlit("pg_class");
        },
        RelationId::PgAttribute => {
            reveal_strlit("pg_attribute");
        },
        RelationId::PgType => {
            reveal_strlit("pg_type");
        },
        RelationId::PgIndex => {
            reveal_strlit("pg_index");
        },
        RelationId::PgIndexes => {
            reveal_strlit("pg_indexes");
        },
        RelationId::PgDescription => {
            reveal_strlit("pg_description");
        },
        RelationId::PgConstraint => {
            reveal_strlit("pg_constraint");
        },
        RelationId::PgTables => {
            reveal_strlit("pg_tables");
        },
        RelationId::GeometryColumns => {
            reveal_strlit("geometry_columns");
        },
        RelationId::SpatialRefSys => {
            reveal_strlit("spatial_ref_sys");
        },
    }
}

/// No two relations have one name.
pub proof fn names_are_distinct(a: RelationId, b: RelationId)
    requires
        lower(relation_name(a)) == lower(relation_name(b)),
    ensures
        a == b,
{
    marked(a);
    marked(b);
    assert(name_mark(a) == name_mark(b));
}

/// Every relation is what the name means that it is written by.
pub proof fn relation_resolves(k: nat)
    requires
        k < RELATION_COUNT,
    ensures
        relation_named(written_name(relation_with(relation_nth(k as int)))) == Some(
            relation_nth(k as int),
        ),
{
    let id = relation_nth(k as int);
    let w = written_name(relation_with(id));
    let s = schema_name(id);
    let n = relation_name(id);
    plain_names(id);
    reveal_strlit(".");
    if s.len() == 0 {
        no_dot(w, 0);
        assert(split_name(w) == (None::<Seq<char>>, n));
    } else {
        assert(w.len() == s.len() + 1 + n.len());
        assert forall|j: int| 0 <= j < s.len() implies w[j] != '.' by {
            assert(w[j] == s[j]);
        }
        assert(w[s.len() as int] == '.');
        dot_found(w, s.len(), 0);
        assert(w.take(s.len() as int) =~= s);
        assert(w.skip(s.len() as int + 1) =~= n);
        assert(split_name(w) == (Some(s), n));
    }
    named_from_finds(split_name(w).0, split_name(w).1, 0, k);
    relation_is_called_so(w);
    names_are_distinct(relation_named(w)->0, id);
}

} // verus!
