//! Values: what a statement writes, what a column declares, what a row holds.

use vstd::prelude::*;
use crate::number::{Real, RealV};
use crate::text::{cat3, decimal, digit, decimal_i64, decimal_u64, decimal_usize, owned};

verus! {

/// The kind a column is declared with.
#[derive(Clone, Copy, Debug, PartialEq, Eq, Structural)]
pub enum Kind {
    Bool,
    Int,
    Real,
    Text,
    Json,
    Geo,
    Point,
    Vector(usize),
}

impl DeepView for Kind {
    type V = Kind;

    open spec fn deep_view(&self) -> Kind {
        *self
    }
}

/// The kind as an error names it.
pub open spec fn kind_name(kind: Kind) -> Seq<char> {
    match kind {
        Kind::Bool => "Bool"@,
        Kind::Int => "Int"@,
        Kind::Real => "Real"@,
        Kind::Text => "Text"@,
        Kind::Json => "Json"@,
        Kind::Geo => "Geo"@,
        Kind::Point => "Point"@,
        Kind::Vector(n) => "Vector("@ + decimal(n as int) + ")"@,
    }
}

impl Kind {
    pub fn named(self) -> (r: String)
        ensures
            r@ == kind_name(self),
    {
        match self {
            Kind::Bool => owned("Bool"),
            Kind::Int => owned("Int"),
            Kind::Real => owned("Real"),
            Kind::Text => owned("Text"),
            Kind::Json => owned("Json"),
            Kind::Geo => owned("Geo"),
            Kind::Point => owned("Point"),
            Kind::Vector(n) => cat3("Vector(", decimal_usize(n).as_str(), ")"),
        }
    }
}

/// What a column is filled with when a row does not write it.
#[derive(Debug)]
pub enum DefaultValue {
    Now,
    Uuid4,
    Uuid5 { namespace: String, name: String },
}

pub enum DefaultValueV {
    Now,
    Uuid4,
    Uuid5 { namespace: Seq<char>, name: Seq<char> },
}

impl DeepView for DefaultValue {
    type V = DefaultValueV;

    open spec fn deep_view(&self) -> DefaultValueV {
        match *self {
            DefaultValue::Now => DefaultValueV::Now,
            DefaultValue::Uuid4 => DefaultValueV::Uuid4,
            DefaultValue::Uuid5 { namespace, name } => DefaultValueV::Uuid5 {
                namespace: namespace@,
                name: name@,
            },
        }
    }
}

/// `DEFAULT` and `NOT NULL` of one column.
#[derive(Debug)]
pub struct ColumnRule {
    pub default: Option<DefaultValue>,
    pub not_null: bool,
}

pub struct ColumnRuleV {
    pub default: Option<DefaultValueV>,
    pub not_null: bool,
}

impl DeepView for ColumnRule {
    type V = ColumnRuleV;

    open spec fn deep_view(&self) -> ColumnRuleV {
        ColumnRuleV { default: self.default.deep_view(), not_null: self.not_null }
    }
}

impl ColumnRule {
    pub fn dup(&self) -> (r: ColumnRule)
        ensures
            r.deep_view() == self.deep_view(),
    {
        ColumnRule {
            default: match &self.default {
                None => None,
                Some(DefaultValue::Now) => Some(DefaultValue::Now),
                Some(DefaultValue::Uuid4) => Some(DefaultValue::Uuid4),
                Some(DefaultValue::Uuid5 { namespace, name }) => Some(
                    DefaultValue::Uuid5 { namespace: namespace.clone(), name: name.clone() },
                ),
            },
            not_null: self.not_null,
        }
    }
}

/// The identity of a stored row.
#[derive(Clone, Copy, Debug, PartialEq, Eq, Structural)]
pub struct EntityId {
    pub collection: u64,
    pub sequence: u64,
}

impl DeepView for EntityId {
    type V = EntityId;

    open spec fn deep_view(&self) -> EntityId {
        *self
    }
}

/// A JSON array or object: its compact text, which of the two it is, and, for
/// an array of numbers alone, the numbers as binary32 bits.
#[derive(Debug)]
pub struct JsonDoc {
    pub text: String,
    pub array: bool,
    pub numbers: Option<Vec<u32>>,
}

/// The mathematical view of a [`JsonDoc`].
pub struct JsonDocV {
    pub text: Seq<char>,
    pub array: bool,
    pub numbers: Option<Seq<u32>>,
}

impl DeepView for JsonDoc {
    type V = JsonDocV;

    open spec fn deep_view(&self) -> JsonDocV {
        JsonDocV {
            text: self.text@,
            array: self.array,
            numbers: match self.numbers {
                Some(v) => Some(v@),
                None => None,
            },
        }
    }
}

/// A copy of a list of numbers.
pub fn dup_bits(v: &Vec<u32>) -> (r: Vec<u32>)
    ensures
        r@ == v@,
{
    let mut out: Vec<u32> = Vec::new();
    let mut i: usize = 0;
    while i < v.len()
        invariant
            i <= v@.len(),
            out@ == v@.take(i as int),
        decreases v@.len() - i,
    {
        out.push(v[i]);
        i = i + 1;
        assert(v@.take(i as int) =~= v@.take(i as int - 1).push(v@[i as int - 1]));
    }
    assert(v@.take(i as int) =~= v@);
    out
}

impl JsonDoc {
    pub fn dup(&self) -> (r: JsonDoc)
        ensures
            r.deep_view() == self.deep_view(),
    {
        JsonDoc {
            text: self.text.clone(),
            array: self.array,
            numbers: match &self.numbers {
                Some(v) => Some(dup_bits(v)),
                None => None,
            },
        }
    }
}

/// A value as a statement writes it, a parameter binds it or a document stores
/// it.
#[derive(Debug)]
pub enum Value {
    Null,
    Bool(bool),
    Int(i64),
    Real(Real),
    Text(String),
    Json(JsonDoc),
}

/// The mathematical view of a [`Value`].
pub enum ValueV {
    Null,
    Bool(bool),
    Int(i64),
    Real(RealV),
    Text(Seq<char>),
    Json(JsonDocV),
}

impl DeepView for Value {
    type V = ValueV;

    open spec fn deep_view(&self) -> ValueV {
        match *self {
            Value::Null => ValueV::Null,
            Value::Bool(b) => ValueV::Bool(b),
            Value::Int(n) => ValueV::Int(n),
            Value::Real(n) => ValueV::Real(n.deep_view()),
            Value::Text(s) => ValueV::Text(s@),
            Value::Json(j) => ValueV::Json(j.deep_view()),
        }
    }
}

/// A hexadecimal digit.
pub open spec fn hex_digit(d: nat) -> char {
    if d < 10 {
        digit(d)
    } else {
        ((87 + d) as u32) as char
    }
}

/// One character inside a JSON string: a quotation mark, a backslash and the
/// control characters are escaped, and nothing else is.
pub open spec fn json_escape(c: char) -> Seq<char> {
    if c == '"' {
        "\\\""@
    } else if c == '\\' {
        "\\\\"@
    } else if c == '\u{8}' {
        "\\b"@
    } else if c == '\t' {
        "\\t"@
    } else if c == '\n' {
        "\\n"@
    } else if c == '\u{c}' {
        "\\f"@
    } else if c == '\r' {
        "\\r"@
    } else if (c as u32) < 0x20 {
        "\\u00"@ + seq![hex_digit((c as nat) / 16), hex_digit((c as nat) % 16)]
    } else {
        seq![c]
    }
}

/// The inside of a JSON string.
pub open spec fn json_escaped(s: Seq<char>) -> Seq<char>
    decreases s.len(),
{
    if s.len() == 0 {
        Seq::empty()
    } else {
        json_escaped(s.drop_last()) + json_escape(s.last())
    }
}

/// A text as a JSON string.
pub open spec fn json_quoted(s: Seq<char>) -> Seq<char> {
    "\""@ + json_escaped(s) + "\""@
}

/// Calls `Display` of `serde_json::Value` on a string value: the text in
/// quotation marks, with each character escaped that JSON wants escaped.
#[verifier::external_body]
pub(crate) fn json_string(s: &str) -> (r: String)
    ensures
        r@ == json_quoted(s@),
{
    serde_json::Value::from(s).to_string()
}

/// A value as JSON text.
pub open spec fn json_text(v: ValueV) -> Seq<char> {
    match v {
        ValueV::Null => "null"@,
        ValueV::Bool(b) => if b {
            "true"@
        } else {
            "false"@
        },
        ValueV::Int(n) => decimal(n as int),
        ValueV::Real(n) => n.json,
        ValueV::Text(s) => json_quoted(s),
        ValueV::Json(j) => j.text,
    }
}

impl Value {
    /// The value as JSON text.
    pub fn json(&self) -> (r: String)
        ensures
            r@ == json_text(self.deep_view()),
    {
        match self {
            Value::Null => owned("null"),
            Value::Bool(b) => owned(if *b {
                "true"
            } else {
                "false"
            }),
            Value::Int(n) => decimal_i64(*n),
            Value::Real(n) => n.json.clone(),
            Value::Text(s) => json_string(s.as_str()),
            Value::Json(j) => j.text.clone(),
        }
    }

    pub fn dup(&self) -> (r: Value)
        ensures
            r.deep_view() == self.deep_view(),
    {
        match self {
            Value::Null => Value::Null,
            Value::Bool(b) => Value::Bool(*b),
            Value::Int(n) => Value::Int(*n),
            Value::Real(n) => Value::Real(n.dup()),
            Value::Text(s) => Value::Text(s.clone()),
            Value::Json(j) => Value::Json(j.dup()),
        }
    }
}

/// A value of a row of an answer.
#[derive(Debug)]
pub enum SqlValue {
    /// The row does not carry the field at all, which is not `Null`.
    Missing,
    Null,
    Bool(bool),
    Int(i64),
    Float(Real),
    Text(String),
    Json(JsonDoc),
    Id(EntityId),
}

/// The mathematical view of a [`SqlValue`].
pub enum SqlValueV {
    Missing,
    Null,
    Bool(bool),
    Int(i64),
    Float(RealV),
    Text(Seq<char>),
    Json(JsonDocV),
    Id(EntityId),
}

impl DeepView for SqlValue {
    type V = SqlValueV;

    open spec fn deep_view(&self) -> SqlValueV {
        match *self {
            SqlValue::Missing => SqlValueV::Missing,
            SqlValue::Null => SqlValueV::Null,
            SqlValue::Bool(b) => SqlValueV::Bool(b),
            SqlValue::Int(n) => SqlValueV::Int(n),
            SqlValue::Float(n) => SqlValueV::Float(n.deep_view()),
            SqlValue::Text(s) => SqlValueV::Text(s@),
            SqlValue::Json(j) => SqlValueV::Json(j.deep_view()),
            SqlValue::Id(id) => SqlValueV::Id(id),
        }
    }
}

impl SqlValue {
    pub fn dup(&self) -> (r: SqlValue)
        ensures
            r.deep_view() == self.deep_view(),
    {
        match self {
            SqlValue::Missing => SqlValue::Missing,
            SqlValue::Null => SqlValue::Null,
            SqlValue::Bool(b) => SqlValue::Bool(*b),
            SqlValue::Int(n) => SqlValue::Int(*n),
            SqlValue::Float(n) => SqlValue::Float(n.dup()),
            SqlValue::Text(s) => SqlValue::Text(s.clone()),
            SqlValue::Json(j) => SqlValue::Json(j.dup()),
            SqlValue::Id(id) => SqlValue::Id(*id),
        }
    }
}

/// A written value as a row holds it.
pub open spec fn row_value(v: ValueV) -> SqlValueV {
    match v {
        ValueV::Null => SqlValueV::Null,
        ValueV::Bool(b) => SqlValueV::Bool(b),
        ValueV::Int(n) => SqlValueV::Int(n),
        ValueV::Real(n) => SqlValueV::Float(n),
        ValueV::Text(s) => SqlValueV::Text(s),
        ValueV::Json(j) => SqlValueV::Json(j),
    }
}

impl Value {
    /// The value as a row holds it.
    pub fn into_row(self) -> (r: SqlValue)
        ensures
            r.deep_view() == row_value(self.deep_view()),
    {
        match self {
            Value::Null => SqlValue::Null,
            Value::Bool(b) => SqlValue::Bool(b),
            Value::Int(n) => SqlValue::Int(n),
            Value::Real(n) => SqlValue::Float(n),
            Value::Text(s) => SqlValue::Text(s),
            Value::Json(j) => SqlValue::Json(j),
        }
    }
}

/// A list of row values, by what each holds.
pub open spec fn row_view(row: Seq<SqlValue>) -> Seq<SqlValueV> {
    row.map_values(|v: SqlValue| v.deep_view())
}

/// A copy of a row.
pub fn dup_row(row: &Vec<SqlValue>) -> (r: Vec<SqlValue>)
    ensures
        row_view(r@) == row_view(row@),
{
    let mut out: Vec<SqlValue> = Vec::new();
    let mut i: usize = 0;
    while i < row.len()
        invariant
            i <= row@.len(),
            out@.len() == i,
            forall|k: int| 0 <= k < i ==> #[trigger] out@[k].deep_view() == row@[k].deep_view(),
        decreases row@.len() - i,
    {
        out.push(row[i].dup());
        i = i + 1;
    }
    assert(row_view(out@) =~= row_view(row@));
    out
}

/// A value as a plan prints it.
pub open spec fn shown_text(v: SqlValueV) -> Seq<char> {
    match v {
        SqlValueV::Missing => "MISSING"@,
        SqlValueV::Null => "NULL"@,
        SqlValueV::Bool(b) => if b {
            "TRUE"@
        } else {
            "FALSE"@
        },
        SqlValueV::Int(n) => decimal(n as int),
        SqlValueV::Float(n) => n.shown,
        SqlValueV::Text(s) => "'"@ + s + "'"@,
        SqlValueV::Json(j) => j.text,
        SqlValueV::Id(id) => decimal(id.collection as int) + ":"@ + decimal(id.sequence as int),
    }
}

/// One value, as an `EXPLAIN` line and a `SHOW CREATE TABLE` write it.
pub fn shown(value: &SqlValue) -> (r: String)
    ensures
        r@ == shown_text(value.deep_view()),
{
    match value {
        SqlValue::Missing => owned("MISSING"),
        SqlValue::Null => owned("NULL"),
        SqlValue::Bool(b) => owned(if *b {
            "TRUE"
        } else {
            "FALSE"
        }),
        SqlValue::Int(n) => decimal_i64(*n),
        SqlValue::Float(n) => n.shown.clone(),
        SqlValue::Text(s) => cat3("'", s.as_str(), "'"),
        SqlValue::Json(j) => j.text.clone(),
        SqlValue::Id(id) => cat3(
            decimal_u64(id.collection).as_str(),
            ":",
            decimal_u64(id.sequence).as_str(),
        ),
    }
}

} // verus!
