//! What a statement is compiled against: the catalog as it stands, the rows
//! its point reads name, and the bound parameters.

use vstd::prelude::*;
use crate::error::{gives, SqlError, SqlErrorV};
use crate::instant::{is_time_type, time_type};
use crate::number::{Real, RealV};
use crate::text::{cat3, cat4, same};
use crate::value::{ColumnRule, ColumnRuleV, EntityId, Kind, Value, ValueV};

verus! {

/// The column that names the external key.
pub const KEY_COLUMN: &'static str = "_key";

/// The column that names the row identity.
pub const ID_COLUMN: &'static str = "_id";

/// How many hops one traversal may be asked for.
pub const MAX_GRAPH_DEPTH: usize = 16;

#[derive(Clone, Copy, Debug, PartialEq, Eq, Structural)]
pub enum IndexFamily {
    Scalar,
    Text,
    SpatialPoint,
    SpatialGeometry,
    ExactVector,
    QuantizedVector,
    VamanaGraph,
}

/// What an expression index stores of its field.
#[derive(Debug)]
pub enum IndexExpr {
    Lower,
    JsonText(String),
}

pub enum IndexExprV {
    Lower,
    JsonText(Seq<char>),
}

impl DeepView for IndexExpr {
    type V = IndexExprV;

    open spec fn deep_view(&self) -> IndexExprV {
        match *self {
            IndexExpr::Lower => IndexExprV::Lower,
            IndexExpr::JsonText(member) => IndexExprV::JsonText(member@),
        }
    }
}

#[derive(Clone, Copy, Debug, PartialEq, Eq, Structural)]
pub enum IndexState {
    Ready,
    /// Rows up to and with `after` are in the index.
    Building { after: u64 },
    Dropping,
}

/// One index of a collection.
#[derive(Debug)]
pub struct IndexInfo {
    pub id: u64,
    pub name: String,
    pub field: String,
    pub family: IndexFamily,
    pub expression: Option<IndexExpr>,
    pub state: IndexState,
    pub unique: bool,
}

pub struct IndexInfoV {
    pub id: u64,
    pub name: Seq<char>,
    pub field: Seq<char>,
    pub family: IndexFamily,
    pub expression: Option<IndexExprV>,
    pub state: IndexState,
    pub unique: bool,
}

impl DeepView for IndexInfo {
    type V = IndexInfoV;

    open spec fn deep_view(&self) -> IndexInfoV {
        IndexInfoV {
            id: self.id,
            name: self.name@,
            field: self.field@,
            family: self.family,
            expression: self.expression.deep_view(),
            state: self.state,
            unique: self.unique,
        }
    }
}

/// One collection: its fields, what they were declared as, their rules, its
/// indexes, whether it holds a row, and how many rows are counted, as a number
/// and as the binary64 number nearest to it.
#[derive(Debug)]
pub struct Collection {
    pub id: u64,
    pub name: String,
    pub fields: Vec<(String, Kind)>,
    pub declared: Vec<(String, String)>,
    pub rules: Vec<(String, ColumnRule)>,
    pub indexes: Vec<IndexInfo>,
    pub occupied: bool,
    pub rows: Option<u64>,
    pub tuples: Real,
}

pub struct CollectionV {
    pub id: u64,
    pub name: Seq<char>,
    pub fields: Seq<(Seq<char>, Kind)>,
    pub declared: Seq<(Seq<char>, Seq<char>)>,
    pub rules: Seq<(Seq<char>, ColumnRuleV)>,
    pub indexes: Seq<IndexInfoV>,
    pub occupied: bool,
    pub rows: Option<u64>,
    pub tuples: RealV,
}

impl DeepView for Collection {
    type V = CollectionV;

    open spec fn deep_view(&self) -> CollectionV {
        CollectionV {
            id: self.id,
            name: self.name@,
            fields: self.fields.deep_view(),
            declared: self.declared.deep_view(),
            rules: self.rules.deep_view(),
            indexes: self.indexes.deep_view(),
            occupied: self.occupied,
            rows: self.rows,
            tuples: self.tuples.deep_view(),
        }
    }
}

/// A row that a point read found.
#[derive(Debug)]
pub struct StoredRow {
    pub id: EntityId,
    pub key: String,
    pub document: Vec<(String, Value)>,
}

pub struct StoredRowV {
    pub id: EntityId,
    pub key: Seq<char>,
    pub document: Seq<(Seq<char>, ValueV)>,
}

impl DeepView for StoredRow {
    type V = StoredRowV;

    open spec fn deep_view(&self) -> StoredRowV {
        StoredRowV { id: self.id, key: self.key@, document: self.document.deep_view() }
    }
}

/// A point that the engine makes none of, and why. The numbers are those that
/// it was given.
#[derive(Debug)]
pub struct RefusedPoint {
    pub lon: Real,
    pub lat: Real,
    pub reason: String,
}

pub struct RefusedPointV {
    pub lon: RealV,
    pub lat: RealV,
    pub reason: Seq<char>,
}

impl DeepView for RefusedPoint {
    type V = RefusedPointV;

    open spec fn deep_view(&self) -> RefusedPointV {
        RefusedPointV {
            lon: self.lon.deep_view(),
            lat: self.lat.deep_view(),
            reason: self.reason@,
        }
    }
}

/// A rectangle that the engine makes none of, and why. The numbers are the bits
/// of those that it was given.
#[derive(Debug)]
pub struct RefusedBounds {
    pub west: u64,
    pub south: u64,
    pub east: u64,
    pub north: u64,
    pub reason: String,
}

pub struct RefusedBoundsV {
    pub west: u64,
    pub south: u64,
    pub east: u64,
    pub north: u64,
    pub reason: Seq<char>,
}

impl DeepView for RefusedBounds {
    type V = RefusedBoundsV;

    open spec fn deep_view(&self) -> RefusedBoundsV {
        RefusedBoundsV {
            west: self.west,
            south: self.south,
            east: self.east,
            north: self.north,
            reason: self.reason@,
        }
    }
}

/// The database, as far as one statement reads it.
#[derive(Debug)]
pub struct Catalog {
    pub collections: Vec<Collection>,
    pub contexts: Vec<(String, u64)>,
    pub edge_types: Vec<(String, u64)>,
    /// The rows at the keys that the statement's point reads name.
    pub rows: Vec<StoredRow>,
    /// Those of the statement's points that the engine refuses.
    pub refused_points: Vec<RefusedPoint>,
    /// Those of the statement's rectangles that the engine refuses.
    pub refused_bounds: Vec<RefusedBounds>,
    /// Whether the file carries the sets of edge endpoints.
    pub endpoint_sets: bool,
    /// The identity the next layout will take.
    pub next_layout: u64,
}

pub struct CatalogV {
    pub collections: Seq<CollectionV>,
    pub contexts: Seq<(Seq<char>, u64)>,
    pub edge_types: Seq<(Seq<char>, u64)>,
    pub rows: Seq<StoredRowV>,
    pub refused_points: Seq<RefusedPointV>,
    pub refused_bounds: Seq<RefusedBoundsV>,
    pub endpoint_sets: bool,
    pub next_layout: u64,
}

impl DeepView for Catalog {
    type V = CatalogV;

    open spec fn deep_view(&self) -> CatalogV {
        CatalogV {
            collections: self.collections.deep_view(),
            contexts: self.contexts.deep_view(),
            edge_types: self.edge_types.deep_view(),
            rows: self.rows.deep_view(),
            refused_points: self.refused_points.deep_view(),
            refused_bounds: self.refused_bounds.deep_view(),
            endpoint_sets: self.endpoint_sets,
            next_layout: self.next_layout,
        }
    }
}

/// A bound parameter.
#[derive(Debug)]
pub enum Param {
    Null,
    Bool(bool),
    Int(i64),
    Float(Real),
    Text(String),
    /// A vector: its numbers as binary32 bits, and its JSON text.
    Vector { bits: Vec<u32>, text: String },
    Json(Value),
}

pub enum ParamV {
    Null,
    Bool(bool),
    Int(i64),
    Float(RealV),
    Text(Seq<char>),
    Vector { bits: Seq<u32>, text: Seq<char> },
    Json(ValueV),
}

impl DeepView for Param {
    type V = ParamV;

    open spec fn deep_view(&self) -> ParamV {
        match *self {
            Param::Null => ParamV::Null,
            Param::Bool(b) => ParamV::Bool(b),
            Param::Int(n) => ParamV::Int(n),
            Param::Float(n) => ParamV::Float(n.deep_view()),
            Param::Text(s) => ParamV::Text(s@),
            Param::Vector { bits, text } => ParamV::Vector { bits: bits@, text: text@ },
            Param::Json(v) => ParamV::Json(v.deep_view()),
        }
    }
}

// ── names ────────────────────────────────────────────────────────────────

/// The first collection named `name`, from position `i` on.
pub open spec fn collection_from(list: Seq<CollectionV>, name: Seq<char>, i: nat) -> Option<
    CollectionV,
>
    decreases list.len() - i,
{
    if i >= list.len() {
        None
    } else if list[i as int].name == name {
        Some(list[i as int])
    } else {
        collection_from(list, name, i + 1)
    }
}

pub open spec fn collection_named(cat: CatalogV, name: Seq<char>) -> Option<CollectionV> {
    collection_from(cat.collections, name, 0)
}

pub open spec fn no_collection(name: Seq<char>) -> SqlErrorV {
    SqlErrorV::Engine("no collection named `"@ + name + "`"@)
}

/// The collection a statement names.
pub open spec fn collection_of(cat: CatalogV, name: Seq<char>) -> Result<CollectionV, SqlErrorV> {
    match collection_named(cat, name) {
        Some(c) => Ok(c),
        None => Err(no_collection(name)),
    }
}

impl Catalog {
    pub fn find(&self, name: &str) -> (r: Option<&Collection>)
        ensures
            match r {
                Some(c) => collection_named(self.deep_view(), name@) == Some(c.deep_view()),
                None => collection_named(self.deep_view(), name@) is None,
            },
    {
        let mut i: usize = 0;
        while i < self.collections.len()
            invariant
                i <= self.collections@.len(),
                collection_from(self.deep_view().collections, name@, i as nat) == collection_named(
                    self.deep_view(),
                    name@,
                ),
            decreases self.collections@.len() - i,
        {
            if same(self.collections[i].name.as_str(), name) {
                return Some(&self.collections[i]);
            }
            i = i + 1;
        }
        None
    }

    pub fn collection(&self, name: &str) -> (r: Result<&Collection, SqlError>)
        ensures
            match collection_of(self.deep_view(), name@) {
                Ok(c) => r is Ok && r->Ok_0.deep_view() == c,
                Err(e) => r is Err && r->Err_0.deep_view() == e,
            },
    {
        match self.find(name) {
            Some(c) => Ok(c),
            None => Err(SqlError::Engine(cat3("no collection named `", name, "`"))),
        }
    }
}

/// The identity recorded for `name`, from position `i` on.
pub open spec fn id_from(list: Seq<(Seq<char>, u64)>, name: Seq<char>, i: nat) -> Option<u64>
    decreases list.len() - i,
{
    if i >= list.len() {
        None
    } else if list[i as int].0 == name {
        Some(list[i as int].1)
    } else {
        id_from(list, name, i + 1)
    }
}

pub fn id_named(list: &Vec<(String, u64)>, name: &str) -> (r: Option<u64>)
    ensures
        r == id_from(list.deep_view(), name@, 0),
{
    let mut i: usize = 0;
    while i < list.len()
        invariant
            i <= list@.len(),
            id_from(list.deep_view(), name@, i as nat) == id_from(list.deep_view(), name@, 0),
        decreases list@.len() - i,
    {
        if same(list[i].0.as_str(), name) {
            return Some(list[i].1);
        }
        i = i + 1;
    }
    None
}

/// The row of collection `c` at `key`, from position `i` on.
pub open spec fn row_from(list: Seq<StoredRowV>, c: u64, key: Seq<char>, i: nat) -> Option<
    StoredRowV,
>
    decreases list.len() - i,
{
    if i >= list.len() {
        None
    } else if list[i as int].id.collection == c && list[i as int].key == key {
        Some(list[i as int])
    } else {
        row_from(list, c, key, i + 1)
    }
}

/// The row of collection `c` at `key`.
pub open spec fn row_at(cat: CatalogV, c: u64, key: Seq<char>) -> Option<StoredRowV> {
    row_from(cat.rows, c, key, 0)
}

impl Catalog {
    pub fn row(&self, c: u64, key: &str) -> (r: Option<&StoredRow>)
        ensures
            match r {
                Some(row) => row_at(self.deep_view(), c, key@) == Some(row.deep_view()),
                None => row_at(self.deep_view(), c, key@) is None,
            },
    {
        let mut i: usize = 0;
        while i < self.rows.len()
            invariant
                i <= self.rows@.len(),
                row_from(self.deep_view().rows, c, key@, i as nat) == row_at(
                    self.deep_view(),
                    c,
                    key@,
                ),
            decreases self.rows@.len() - i,
        {
            if self.rows[i].id.collection == c && same(self.rows[i].key.as_str(), key) {
                return Some(&self.rows[i]);
            }
            i = i + 1;
        }
        None
    }
}

/// What a document holds under `name`, from position `i` on.
pub open spec fn member_from(doc: Seq<(Seq<char>, ValueV)>, name: Seq<char>, i: nat) -> Option<
    ValueV,
>
    decreases doc.len() - i,
{
    if i >= doc.len() {
        None
    } else if doc[i as int].0 == name {
        Some(doc[i as int].1)
    } else {
        member_from(doc, name, i + 1)
    }
}

pub fn member<'a>(doc: &'a Vec<(String, Value)>, name: &str) -> (r: Option<&'a Value>)
    ensures
        match r {
            Some(v) => member_from(doc.deep_view(), name@, 0) == Some(v.deep_view()),
            None => member_from(doc.deep_view(), name@, 0) is None,
        },
{
    let mut i: usize = 0;
    while i < doc.len()
        invariant
            i <= doc@.len(),
            member_from(doc.deep_view(), name@, i as nat) == member_from(
                doc.deep_view(),
                name@,
                0,
            ),
        decreases doc@.len() - i,
    {
        if same(doc[i].0.as_str(), name) {
            return Some(&doc[i].1);
        }
        i = i + 1;
    }
    None
}

// ── columns ──────────────────────────────────────────────────────────────

/// The kind of the column `name`, from position `i` on.
pub open spec fn kind_from(fields: Seq<(Seq<char>, Kind)>, name: Seq<char>, i: nat) -> Option<Kind>
    decreases fields.len() - i,
{
    if i >= fields.len() {
        None
    } else if fields[i as int].0 == name {
        Some(fields[i as int].1)
    } else {
        kind_from(fields, name, i + 1)
    }
}

pub fn kind_in(fields: &Vec<(String, Kind)>, name: &str) -> (r: Option<Kind>)
    ensures
        r == kind_from(fields.deep_view(), name@, 0),
{
    let mut i: usize = 0;
    while i < fields.len()
        invariant
            i <= fields@.len(),
            kind_from(fields.deep_view(), name@, i as nat) == kind_from(
                fields.deep_view(),
                name@,
                0,
            ),
        decreases fields@.len() - i,
    {
        if same(fields[i].0.as_str(), name) {
            return Some(fields[i].1);
        }
        i = i + 1;
    }
    None
}

/// The kind of a column, or the error that names it.
pub open spec fn kind_of(c: CollectionV, field: Seq<char>) -> Result<Kind, SqlErrorV> {
    match kind_from(c.fields, field, 0) {
        Some(kind) => Ok(kind),
        None => Err(SqlErrorV::Engine("no column `"@ + field + "` in this collection"@)),
    }
}

/// The text recorded for `name`, from position `i` on.
pub open spec fn declared_from(
    list: Seq<(Seq<char>, Seq<char>)>,
    name: Seq<char>,
    i: nat,
) -> Option<Seq<char>>
    decreases list.len() - i,
{
    if i >= list.len() {
        None
    } else if list[i as int].0 == name {
        Some(list[i as int].1)
    } else {
        declared_from(list, name, i + 1)
    }
}

pub fn declared_in<'a>(list: &'a Vec<(String, String)>, name: &str) -> (r: Option<&'a String>)
    ensures
        match r {
            Some(s) => declared_from(list.deep_view(), name@, 0) == Some(s@),
            None => declared_from(list.deep_view(), name@, 0) is None,
        },
{
    let mut i: usize = 0;
    while i < list.len()
        invariant
            i <= list@.len(),
            declared_from(list.deep_view(), name@, i as nat) == declared_from(
                list.deep_view(),
                name@,
                0,
            ),
        decreases list@.len() - i,
    {
        if same(list[i].0.as_str(), name) {
            return Some(&list[i].1);
        }
        i = i + 1;
    }
    None
}

/// The declared type of a column that holds instants.
pub open spec fn time_column(c: CollectionV, field: Seq<char>) -> Result<
    Option<Seq<char>>,
    SqlErrorV,
> {
    match kind_of(c, field) {
        Err(e) => Err(e),
        Ok(kind) => if kind != Kind::Int {
            Ok(None)
        } else {
            match declared_from(c.declared, field, 0) {
                Some(declared) => if time_type(declared) {
                    Ok(Some(declared))
                } else {
                    Ok(None)
                },
                None => Ok(None),
            }
        },
    }
}

impl Collection {
    pub fn kind_of(&self, field: &str) -> (r: Result<Kind, SqlError>)
        ensures
            gives(r, kind_of(self.deep_view(), field@)),
    {
        match kind_in(&self.fields, field) {
            Some(kind) => Ok(kind),
            None => Err(SqlError::Engine(cat3("no column `", field, "` in this collection"))),
        }
    }

    /// The declared spelling of `field`, when it is a declared instant stored
    /// as an integer.
    pub fn time_column(&self, field: &str) -> (r: Result<Option<String>, SqlError>)
        ensures
            gives(r, time_column(self.deep_view(), field@)),
    {
        let kind = self.kind_of(field)?;
        if kind != Kind::Int {
            return Ok(None);
        }
        match declared_in(&self.declared, field) {
            Some(declared) => if is_time_type(declared.as_str()) {
                Ok(Some(declared.clone()))
            } else {
                Ok(None)
            },
            None => Ok(None),
        }
    }
}

// ── indexes ──────────────────────────────────────────────────────────────

pub fn same_expression(a: &Option<IndexExpr>, b: &Option<IndexExpr>) -> (r: bool)
    ensures
        r == (a.deep_view() == b.deep_view()),
{
    match (a, b) {
        (None, None) => true,
        (Some(IndexExpr::Lower), Some(IndexExpr::Lower)) => true,
        (Some(IndexExpr::JsonText(x)), Some(IndexExpr::JsonText(y))) => same(
            x.as_str(),
            y.as_str(),
        ),
        _ => false,
    }
}

/// Whether an index answers a predicate over `field`: the expression is part
/// of what it stores, so it has to be the predicate's own.
pub open spec fn serves(
    info: IndexInfoV,
    field: Seq<char>,
    family: IndexFamily,
    expression: Option<IndexExprV>,
) -> bool {
    info.field == field && info.family == family && info.expression == expression
}

/// The first READY index that serves, from position `i` on.
pub open spec fn ready_from(
    list: Seq<IndexInfoV>,
    field: Seq<char>,
    family: IndexFamily,
    expression: Option<IndexExprV>,
    i: nat,
) -> Option<u64>
    decreases list.len() - i,
{
    if i >= list.len() {
        None
    } else if serves(list[i as int], field, family, expression) && list[i as int].state
        == IndexState::Ready {
        Some(list[i as int].id)
    } else {
        ready_from(list, field, family, expression, i + 1)
    }
}

/// Whether an index that serves is still being built.
pub open spec fn building(
    list: Seq<IndexInfoV>,
    field: Seq<char>,
    family: IndexFamily,
    expression: Option<IndexExprV>,
) -> bool {
    exists|k: int|
        0 <= k < list.len() && serves(#[trigger] list[k], field, family, expression)
            && list[k].state is Building
}

/// The READY index over `field`, or an error that names what is missing.
pub open spec fn index_for_expression(
    c: CollectionV,
    field: Seq<char>,
    family: IndexFamily,
    expression: Option<IndexExprV>,
    what: Seq<char>,
) -> Result<u64, SqlErrorV> {
    match ready_from(c.indexes, field, family, expression, 0) {
        Some(id) => Ok(id),
        None => Err(
            SqlErrorV::Engine(
                what + " on `"@ + field + if building(c.indexes, field, family, expression) {
                    "` is still building; run it to READY before a query can use it"@
                } else {
                    "` does not exist. QL_CONTRACT §6: every Tier-1 predicate on an indexed field is answered index-side, so the predicate compiles to a filter that NAMES an index; without one there is nothing to name"@
                },
            ),
        ),
    }
}

/// The READY index over the field itself.
pub open spec fn index_for(
    c: CollectionV,
    field: Seq<char>,
    family: IndexFamily,
    what: Seq<char>,
) -> Result<u64, SqlErrorV> {
    index_for_expression(c, field, family, None, what)
}

impl Collection {
    pub fn index_for_expression(
        &self,
        field: &str,
        family: IndexFamily,
        expression: Option<IndexExpr>,
        what: &str,
    ) -> (r: Result<u64, SqlError>)
        ensures
            gives(
                r,
                index_for_expression(
                    self.deep_view(),
                    field@,
                    family,
                    expression.deep_view(),
                    what@,
                ),
            ),
    {
        let mut is_building = false;
        let mut i: usize = 0;
        let ghost list = self.deep_view().indexes;
        while i < self.indexes.len()
            invariant
                i <= self.indexes@.len(),
                list == self.indexes.deep_view(),
                list == self.deep_view().indexes,
                ready_from(list, field@, family, expression.deep_view(), i as nat) == ready_from(
                    list,
                    field@,
                    family,
                    expression.deep_view(),
                    0,
                ),
                is_building ==> building(list, field@, family, expression.deep_view()),
                forall|k: int|
                    0 <= k < i && serves(
                        #[trigger] list[k],
                        field@,
                        family,
                        expression.deep_view(),
                    ) && list[k].state is Building ==> is_building,
            decreases self.indexes@.len() - i,
        {
            let info = &self.indexes[i];
            assert(list[i as int] == info.deep_view());
            if same(info.field.as_str(), field) && info.family == family && same_expression(
                &info.expression,
                &expression,
            ) {
                if info.state == IndexState::Ready {
                    return Ok(info.id);
                }
                if let IndexState::Building { .. } = info.state {
                    is_building = true;
                }
            }
            i = i + 1;
        }
        Err(
            SqlError::Engine(
                cat4(
                    what,
                    " on `",
                    field,
                    if is_building {
                        "` is still building; run it to READY before a query can use it"
                    } else {
                        "` does not exist. QL_CONTRACT §6: every Tier-1 predicate on an indexed field is answered index-side, so the predicate compiles to a filter that NAMES an index; without one there is nothing to name"
                    },
                ),
            ),
        )
    }

    pub fn index_for(&self, field: &str, family: IndexFamily, what: &str) -> (r: Result<
        u64,
        SqlError,
    >)
        ensures
            gives(r, index_for(self.deep_view(), field@, family, what@)),
    {
        self.index_for_expression(field, family, None, what)
    }
}

impl Collection {
    /// The READY index of a family over the field itself, if there is one.
    pub fn ready(&self, field: &str, family: IndexFamily) -> (r: Option<u64>)
        ensures
            r == ready_from(self.deep_view().indexes, field@, family, None, 0),
    {
        let mut i: usize = 0;
        let ghost list = self.deep_view().indexes;
        while i < self.indexes.len()
            invariant
                i <= self.indexes@.len(),
                list == self.indexes.deep_view(),
                ready_from(list, field@, family, None, i as nat) == ready_from(
                    list,
                    field@,
                    family,
                    None,
                    0,
                ),
            decreases self.indexes@.len() - i,
        {
            let info = &self.indexes[i];
            assert(list[i as int] == info.deep_view());
            if same(info.field.as_str(), field) && info.family == family && info.expression.is_none()
                && info.state == IndexState::Ready {
                return Some(info.id);
            }
            i = i + 1;
        }
        None
    }
}

} // verus!
