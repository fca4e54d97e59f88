//! Types, numbers and words of the catalog.

use vstd::prelude::*;
use crate::catalog::relations::{
    OID_BOOL, OID_DATE, OID_FLOAT8, OID_GEOMETRY, OID_INT8, OID_JSONB, OID_TEXT, OID_TIMESTAMPTZ,
    OID_VECTOR,
};
use crate::compile::env::{IndexExpr, IndexExprV, IndexFamily, IndexState};
use crate::scan::{begins, stands_at};
use crate::text::{ascii_upper, cat3, cat5, decimal, decimal_u64, decimal_usize, owned, same, upper};
use crate::value::{DefaultValue, DefaultValueV, Kind};

verus! {

pub const PUBLIC: &'static str = "public";

pub const DATABASE: &'static str = "sekejap";

pub const USER: &'static str = "postgres";

/// The number and the name of a column's type: a declared instant is one,
/// whatever it is stored as.
pub open spec fn pg_type(kind: Kind, declared: Option<Seq<char>>) -> (i32, Seq<char>) {
    if declared is Some && stands_at(upper(declared->0), "TIMESTAMP"@, 0) {
        (OID_TIMESTAMPTZ, "timestamptz"@)
    } else if declared is Some && stands_at(upper(declared->0), "DATE"@, 0) {
        (OID_DATE, "date"@)
    } else {
        match kind {
            Kind::Text => (OID_TEXT, "text"@),
            Kind::Int => (OID_INT8, "int8"@),
            Kind::Real => (OID_FLOAT8, "float8"@),
            Kind::Bool => (OID_BOOL, "bool"@),
            Kind::Json => (OID_JSONB, "jsonb"@),
            Kind::Geo | Kind::Point => (OID_GEOMETRY, "geometry"@),
            Kind::Vector(_) => (OID_VECTOR, "vector"@),
        }
    }
}

pub fn pg_type_of(kind: &Kind, declared: Option<&str>) -> (r: (i32, &'static str))
    ensures
        match declared {
            Some(d) => (r.0, r.1@) == pg_type(*kind, Some(d@)),
            None => (r.0, r.1@) == pg_type(*kind, None),
        },
{
    if let Some(declared) = declared {
        let up = ascii_upper(declared);
        if begins(up.as_str(), "TIMESTAMP") {
            return (OID_TIMESTAMPTZ, "timestamptz");
        }
        if begins(up.as_str(), "DATE") {
            return (OID_DATE, "date");
        }
    }
    match kind {
        Kind::Text => (OID_TEXT, "text"),
        Kind::Int => (OID_INT8, "int8"),
        Kind::Real => (OID_FLOAT8, "float8"),
        Kind::Bool => (OID_BOOL, "bool"),
        Kind::Json => (OID_JSONB, "jsonb"),
        Kind::Geo => (OID_GEOMETRY, "geometry"),
        Kind::Point => (OID_GEOMETRY, "geometry"),
        Kind::Vector(_) => (OID_VECTOR, "vector"),
    }
}

/// The word a family is listed under.
pub open spec fn family_text(family: IndexFamily) -> Seq<char> {
    match family {
        IndexFamily::Scalar => "btree"@,
        IndexFamily::Text => "gin"@,
        IndexFamily::SpatialPoint => "gist"@,
        IndexFamily::SpatialGeometry => "geometry"@,
        IndexFamily::ExactVector => "exact"@,
        IndexFamily::QuantizedVector => "quantized"@,
        IndexFamily::VamanaGraph => "vamana"@,
    }
}

pub fn family_word(family: IndexFamily) -> (r: &'static str)
    ensures
        r@ == family_text(family),
{
    match family {
        IndexFamily::Scalar => "btree",
        IndexFamily::Text => "gin",
        IndexFamily::SpatialPoint => "gist",
        IndexFamily::SpatialGeometry => "geometry",
        IndexFamily::ExactVector => "exact",
        IndexFamily::QuantizedVector => "quantized",
        IndexFamily::VamanaGraph => "vamana",
    }
}

pub open spec fn state_text(state: IndexState) -> Seq<char> {
    match state {
        IndexState::Building { after } => "building (after "@ + decimal(after as int) + ")"@,
        IndexState::Ready => "ready"@,
        IndexState::Dropping => "dropping"@,
    }
}

pub fn state_word(state: IndexState) -> (r: String)
    ensures
        r@ == state_text(state),
{
    match state {
        IndexState::Building { after } => cat3(
            "building (after ",
            decimal_u64(after).as_str(),
            ")",
        ),
        IndexState::Ready => owned("ready"),
        IndexState::Dropping => owned("dropping"),
    }
}

/// The declaration a kind would be written with.
pub open spec fn declared_text(kind: Kind) -> Seq<char> {
    match kind {
        Kind::Text => "TEXT"@,
        Kind::Int => "BIGINT"@,
        Kind::Real => "DOUBLE PRECISION"@,
        Kind::Bool => "BOOLEAN"@,
        Kind::Json => "JSONB"@,
        Kind::Geo => "GEOMETRY"@,
        Kind::Point => "GEOMETRY(Point, 4326)"@,
        Kind::Vector(n) => "VECTOR("@ + decimal(n as int) + ")"@,
    }
}

pub fn declared_of(kind: &Kind) -> (r: String)
    ensures
        r@ == declared_text(*kind),
{
    match kind {
        Kind::Text => owned("TEXT"),
        Kind::Int => owned("BIGINT"),
        Kind::Real => owned("DOUBLE PRECISION"),
        Kind::Bool => owned("BOOLEAN"),
        Kind::Json => owned("JSONB"),
        Kind::Geo => owned("GEOMETRY"),
        Kind::Point => owned("GEOMETRY(Point, 4326)"),
        Kind::Vector(n) => cat3("VECTOR(", decimal_usize(*n).as_str(), ")"),
    }
}

/// The standard's name of a type.
pub open spec fn data_type_text(typname: Seq<char>) -> Seq<char> {
    if typname == "text"@ {
        "text"@
    } else if typname == "int8"@ {
        "bigint"@
    } else if typname == "float8"@ {
        "double precision"@
    } else if typname == "bool"@ {
        "boolean"@
    } else if typname == "jsonb"@ {
        "jsonb"@
    } else if typname == "timestamptz"@ {
        "timestamp with time zone"@
    } else if typname == "date"@ {
        "date"@
    } else if typname == "bytea"@ {
        "bytea"@
    } else if typname == "geometry"@ || typname == "vector"@ {
        "USER-DEFINED"@
    } else {
        "text"@
    }
}

pub fn data_type(typname: &str) -> (r: &'static str)
    ensures
        r@ == data_type_text(typname@),
{
    if same(typname, "text") {
        "text"
    } else if same(typname, "int8") {
        "bigint"
    } else if same(typname, "float8") {
        "double precision"
    } else if same(typname, "bool") {
        "boolean"
    } else if same(typname, "jsonb") {
        "jsonb"
    } else if same(typname, "timestamptz") {
        "timestamp with time zone"
    } else if same(typname, "date") {
        "date"
    } else if same(typname, "bytea") {
        "bytea"
    } else if same(typname, "geometry") || same(typname, "vector") {
        "USER-DEFINED"
    } else {
        "text"
    }
}

/// The schema of a type.
pub open spec fn udt_schema_text(typname: Seq<char>) -> Seq<char> {
    if typname == "geometry"@ || typname == "vector"@ {
        PUBLIC@
    } else {
        "pg_catalog"@
    }
}

pub fn udt_schema(typname: &str) -> (r: &'static str)
    ensures
        r@ == udt_schema_text(typname@),
{
    if same(typname, "geometry") || same(typname, "vector") {
        PUBLIC
    } else {
        "pg_catalog"
    }
}

/// The length of a type's values, or -1 where it varies.
pub open spec fn type_length(oid: i32) -> int {
    if oid == OID_BOOL {
        1
    } else if oid == OID_INT8 || oid == OID_FLOAT8 || oid == OID_TIMESTAMPTZ {
        8
    } else if oid == OID_DATE {
        4
    } else {
        -1
    }
}

pub fn type_len(oid: i32) -> (r: i32)
    ensures
        r == type_length(oid),
{
    if oid == OID_BOOL {
        1
    } else if oid == OID_INT8 || oid == OID_FLOAT8 || oid == OID_TIMESTAMPTZ {
        8
    } else if oid == OID_DATE {
        4
    } else {
        -1
    }
}

pub open spec fn default_text(value: DefaultValueV) -> Seq<char> {
    match value {
        DefaultValueV::Now => "now()"@,
        DefaultValueV::Uuid4 => "uuid4()"@,
        DefaultValueV::Uuid5 { .. } => "uuid5(namespace, name)"@,
    }
}

pub fn default_spelling(value: &DefaultValue) -> (r: String)
    ensures
        r@ == default_text(value.deep_view()),
{
    match value {
        DefaultValue::Now => owned("now()"),
        DefaultValue::Uuid4 => owned("uuid4()"),
        DefaultValue::Uuid5 { .. } => owned("uuid5(namespace, name)"),
    }
}

/// The expression of an index, as it is listed.
pub open spec fn expression_text(e: IndexExprV) -> Seq<char> {
    match e {
        IndexExprV::Lower => "lower"@,
        IndexExprV::JsonText(member) => "->>'"@ + member + "'"@,
    }
}

/// What an index stores of its field, as a definition writes it.
pub open spec fn target_text(e: Option<IndexExprV>, field: Seq<char>) -> Seq<char> {
    match e {
        None => field,
        Some(IndexExprV::Lower) => "lower("@ + field + ")"@,
        Some(IndexExprV::JsonText(member)) => "("@ + field + "->>'"@ + member + "')"@,
    }
}

impl IndexExpr {
    pub fn written(&self) -> (r: String)
        ensures
            r@ == expression_text(self.deep_view()),
    {
        match self {
            IndexExpr::Lower => owned("lower"),
            IndexExpr::JsonText(member) => cat3("->>'", member.as_str(), "'"),
        }
    }
}

pub fn target_of(e: &Option<IndexExpr>, field: &str) -> (r: String)
    ensures
        r@ == target_text(e.deep_view(), field@),
{
    match e {
        None => owned(field),
        Some(IndexExpr::Lower) => cat3("lower(", field, ")"),
        Some(IndexExpr::JsonText(member)) => cat5("(", field, "->>'", member.as_str(), "')"),
    }
}

// ── object numbers ───────────────────────────────────────────────────────

/// One step of the 64-bit FNV-1a hash.
pub open spec fn fnv_step(h: u64, b: u8) -> u64 {
    (((h ^ (b as u64)) as int * 0x0000_0100_0000_01b3) % 0x1_0000_0000_0000_0000) as u64
}

/// The FNV-1a hash of a list of bytes.
pub open spec fn fnv(bytes: Seq<u8>) -> u64
    decreases bytes.len(),
{
    if bytes.len() == 0 {
        0xcbf2_9ce4_8422_2325
    } else {
        fnv_step(fnv(bytes.drop_last()), bytes.last())
    }
}

/// The number that stands for a named object: a hash of the name's UTF-8
/// bytes, above the numbers of the built-in types.
pub open spec fn oid_of(name: Seq<char>) -> int {
    16_385 + fnv(vstd::utf8::encode_utf8(name)) as int % 2_000_000_000
}

/// An object's number is the same in every process, and none of the system's
/// own.
pub proof fn oid_range(name: Seq<char>)
    ensures
        16_385 <= oid_of(name) < 2_000_016_385,
{
}

pub fn object_oid(name: &str) -> (r: i64)
    ensures
        r == oid_of(name@),
        16_385 <= r < 2_000_016_385,
{
    let bytes = name.as_bytes();
    let mut h: u64 = 0xcbf2_9ce4_8422_2325;
    let mut i: usize = 0;
    assert(bytes@.take(0) =~= Seq::<u8>::empty());
    while i < bytes.len()
        invariant
            i <= bytes@.len(),
            h == fnv(bytes@.take(i as int)),
        decreases bytes@.len() - i,
    {
        assert(bytes@.take(i as int + 1).drop_last() =~= bytes@.take(i as int));
        h = (h ^ (bytes[i] as u64)).wrapping_mul(0x0000_0100_0000_01b3);
        i = i + 1;
    }
    assert(bytes@.take(i as int) =~= bytes@);
    16_385 + (h % 2_000_000_000) as i64
}

} // verus!
