//! One reading of the catalog, as the relations are built from it.

use vstd::prelude::*;
use crate::catalog::types::{
    default_spelling, default_text, expression_text, target_of, target_text,
};
use crate::compile::env::{
    declared_from, declared_in, Catalog, CatalogV, Collection, CollectionV, IndexFamily, IndexInfo,
    IndexInfoV, IndexState, KEY_COLUMN,
};
use crate::number::{Real, RealV};
use crate::text::{cat2, decimal, decimal_u64, owned, same};
use crate::value::{ColumnRule, ColumnRuleV, Kind};

verus! {

/// What the base graph is listed under.
pub const BASE_CONTEXT: &'static str = "(base graph)";

/// A column of a table.
#[derive(Debug)]
pub struct Field {
    pub name: String,
    pub kind: Kind,
    pub declared: Option<String>,
    pub not_null: bool,
    pub default: Option<String>,
}

pub struct FieldV {
    pub name: Seq<char>,
    pub kind: Kind,
    pub declared: Option<Seq<char>>,
    pub not_null: bool,
    pub default: Option<Seq<char>>,
}

impl DeepView for Field {
    type V = FieldV;

    open spec fn deep_view(&self) -> FieldV {
        FieldV {
            name: self.name@,
            kind: self.kind,
            declared: self.declared.deep_view(),
            not_null: self.not_null,
            default: self.default.deep_view(),
        }
    }
}

/// An index of a table.
#[derive(Debug)]
pub struct Index {
    pub name: String,
    pub family: IndexFamily,
    pub field: String,
    pub expression: Option<String>,
    /// What the index stores, as its definition writes it.
    pub target: String,
    pub state: IndexState,
    pub unique: bool,
}

pub struct IndexV {
    pub name: Seq<char>,
    pub family: IndexFamily,
    pub field: Seq<char>,
    pub expression: Option<Seq<char>>,
    pub target: Seq<char>,
    pub state: IndexState,
    pub unique: bool,
}

impl DeepView for Index {
    type V = IndexV;

    open spec fn deep_view(&self) -> IndexV {
        IndexV {
            name: self.name@,
            family: self.family,
            field: self.field@,
            expression: self.expression.deep_view(),
            target: self.target@,
            state: self.state,
            unique: self.unique,
        }
    }
}

#[derive(Debug)]
pub struct Table {
    pub name: String,
    pub id: u64,
    pub rows: Option<u64>,
    pub tuples: Real,
    pub fields: Vec<Field>,
    pub indexes: Vec<Index>,
}

pub struct TableV {
    pub name: Seq<char>,
    pub id: u64,
    pub rows: Option<u64>,
    pub tuples: RealV,
    pub fields: Seq<FieldV>,
    pub indexes: Seq<IndexV>,
}

impl DeepView for Table {
    type V = TableV;

    open spec fn deep_view(&self) -> TableV {
        TableV {
            name: self.name@,
            id: self.id,
            rows: self.rows,
            tuples: self.tuples.deep_view(),
            fields: self.fields.deep_view(),
            indexes: self.indexes.deep_view(),
        }
    }
}

/// One edge shape that was found, by identity.
#[derive(Clone, Copy, Debug, PartialEq, Eq, Structural)]
pub struct EdgeRow {
    pub edge_type: u64,
    pub from: u64,
    pub to: u64,
    pub context: u64,
}

impl DeepView for EdgeRow {
    type V = EdgeRow;

    open spec fn deep_view(&self) -> EdgeRow {
        *self
    }
}

/// One edge shape, by name.
#[derive(Debug)]
pub struct EdgeName {
    pub edge_type: String,
    pub from: String,
    pub to: String,
    pub context: String,
}

pub struct EdgeNameV {
    pub edge_type: Seq<char>,
    pub from: Seq<char>,
    pub to: Seq<char>,
    pub context: Seq<char>,
}

impl DeepView for EdgeName {
    type V = EdgeNameV;

    open spec fn deep_view(&self) -> EdgeNameV {
        EdgeNameV {
            edge_type: self.edge_type@,
            from: self.from@,
            to: self.to@,
            context: self.context@,
        }
    }
}

#[derive(Debug)]
pub struct Snapshot {
    pub tables: Vec<Table>,
    pub edges: Vec<EdgeName>,
    pub edges_truncated: bool,
    pub contexts: Vec<(String, u64)>,
}

pub struct SnapshotV {
    pub tables: Seq<TableV>,
    pub edges: Seq<EdgeNameV>,
    pub edges_truncated: bool,
    pub contexts: Seq<(Seq<char>, u64)>,
}

impl DeepView for Snapshot {
    type V = SnapshotV;

    open spec fn deep_view(&self) -> SnapshotV {
        SnapshotV {
            tables: self.tables.deep_view(),
            edges: self.edges.deep_view(),
            edges_truncated: self.edges_truncated,
            contexts: self.contexts.deep_view(),
        }
    }
}

// ── fields ───────────────────────────────────────────────────────────────

/// The rule recorded for a column, from `i` on.
pub open spec fn rule_from(rules: Seq<(Seq<char>, ColumnRuleV)>, name: Seq<char>, i: nat) -> Option<
    ColumnRuleV,
>
    decreases rules.len() - i,
{
    if i >= rules.len() {
        None
    } else if rules[i as int].0 == name {
        Some(rules[i as int].1)
    } else {
        rule_from(rules, name, i + 1)
    }
}

pub fn rule_of<'a>(rules: &'a Vec<(String, ColumnRule)>, name: &str) -> (r: Option<&'a ColumnRule>)
    ensures
        match r {
            Some(rule) => rule_from(rules.deep_view(), name@, 0) == Some(rule.deep_view()),
            None => rule_from(rules.deep_view(), name@, 0) is None,
        },
{
    let ghost all = rules.deep_view();
    let mut i: usize = 0;
    while i < rules.len()
        invariant
            i <= rules@.len(),
            all == rules.deep_view(),
            rule_from(all, name@, i as nat) == rule_from(all, name@, 0),
        decreases rules@.len() - i,
    {
        assert(all[i as int] == rules@[i as int].deep_view());
        if same(rules[i].0.as_str(), name) {
            return Some(&rules[i].1);
        }
        i = i + 1;
    }
    None
}

/// The external key, which is the first column of every table.
pub open spec fn key_field() -> FieldV {
    FieldV {
        name: KEY_COLUMN@,
        kind: Kind::Text,
        declared: Some("TEXT"@),
        not_null: true,
        default: None,
    }
}

/// One declared column.
pub open spec fn field_of(c: CollectionV, name: Seq<char>, kind: Kind) -> FieldV {
    let rule = rule_from(c.rules, name, 0);
    FieldV {
        name,
        kind,
        declared: declared_from(c.declared, name, 0),
        not_null: rule is Some && rule->0.not_null,
        default: if rule is Some && rule->0.default is Some {
            Some(default_text(rule->0.default->0))
        } else {
            None
        },
    }
}

/// The columns of a table: the key, then the declared ones.
pub open spec fn fields_of(c: CollectionV) -> Seq<FieldV> {
    seq![key_field()] + c.fields.map_values(|f: (Seq<char>, Kind)| field_of(c, f.0, f.1))
}

pub open spec fn index_of(i: IndexInfoV) -> IndexV {
    IndexV {
        name: i.name,
        family: i.family,
        field: i.field,
        expression: match i.expression {
            Some(e) => Some(expression_text(e)),
            None => None,
        },
        target: target_text(i.expression, i.field),
        state: i.state,
        unique: i.unique,
    }
}

pub open spec fn table_of(c: CollectionV) -> TableV {
    TableV {
        name: c.name,
        id: c.id,
        rows: c.rows,
        tuples: c.tuples,
        fields: fields_of(c),
        indexes: c.indexes.map_values(|i: IndexInfoV| index_of(i)),
    }
}

fn read_field(c: &Collection, name: &str, kind: Kind) -> (r: Field)
    ensures
        r.deep_view() == field_of(c.deep_view(), name@, kind),
{
    let declared = match declared_in(&c.declared, name) {
        Some(d) => Some(d.clone()),
        None => None,
    };
    match rule_of(&c.rules, name) {
        None => Field { name: owned(name), kind, declared, not_null: false, default: None },
        Some(rule) => {
            let default = match &rule.default {
                Some(d) => Some(default_spelling(d)),
                None => None,
            };
            Field { name: owned(name), kind, declared, not_null: rule.not_null, default }
        },
    }
}

fn read_fields(c: &Collection) -> (r: Vec<Field>)
    ensures
        r.deep_view() == fields_of(c.deep_view()),
{
    let mut out: Vec<Field> = Vec::new();
    out.push(
        Field {
            name: owned(KEY_COLUMN),
            kind: Kind::Text,
            declared: Some(owned("TEXT")),
            not_null: true,
            default: None,
        },
    );
    let ghost want = fields_of(c.deep_view());
    let mut i: usize = 0;
    while i < c.fields.len()
        invariant
            i <= c.fields@.len(),
            want == fields_of(c.deep_view()),
            want.len() == c.fields@.len() + 1,
            out@.len() == i + 1,
            forall|k: int| 0 <= k <= i ==> (#[trigger] out@[k]).deep_view() == want[k],
        decreases c.fields@.len() - i,
    {
        assert(c.deep_view().fields[i as int] == c.fields@[i as int].deep_view());
        out.push(read_field(c, c.fields[i].0.as_str(), c.fields[i].1));
        i = i + 1;
    }
    assert(out.deep_view() =~= want);
    out
}

fn read_index(i: &IndexInfo) -> (r: Index)
    ensures
        r.deep_view() == index_of(i.deep_view()),
{
    Index {
        name: i.name.clone(),
        family: i.family,
        field: i.field.clone(),
        expression: match &i.expression {
            Some(e) => Some(e.written()),
            None => None,
        },
        target: target_of(&i.expression, i.field.as_str()),
        state: i.state,
        unique: i.unique,
    }
}

fn read_table(c: &Collection) -> (r: Table)
    ensures
        r.deep_view() == table_of(c.deep_view()),
{
    let mut indexes: Vec<Index> = Vec::new();
    let ghost want = table_of(c.deep_view()).indexes;
    let mut i: usize = 0;
    while i < c.indexes.len()
        invariant
            i <= c.indexes@.len(),
            want == table_of(c.deep_view()).indexes,
            indexes@.len() == i,
            forall|k: int| 0 <= k < i ==> (#[trigger] indexes@[k]).deep_view() == want[k],
        decreases c.indexes@.len() - i,
    {
        assert(c.deep_view().indexes[i as int] == c.indexes@[i as int].deep_view());
        indexes.push(read_index(&c.indexes[i]));
        i = i + 1;
    }
    assert(indexes.deep_view() =~= want);
    Table {
        name: c.name.clone(),
        id: c.id,
        rows: c.rows,
        tuples: c.tuples.dup(),
        fields: read_fields(c),
        indexes,
    }
}

// ── the graph ────────────────────────────────────────────────────────────

/// The name recorded for an identity, from `i` on.
pub open spec fn name_of_id(list: Seq<(Seq<char>, u64)>, id: u64, i: nat) -> Option<Seq<char>>
    decreases list.len() - i,
{
    if i >= list.len() {
        None
    } else if list[i as int].1 == id {
        Some(list[i as int].0)
    } else {
        name_of_id(list, id, i + 1)
    }
}

/// The name of a collection, from `i` on.
pub open spec fn collection_with(list: Seq<CollectionV>, id: u64, i: nat) -> Option<Seq<char>>
    decreases list.len() - i,
{
    if i >= list.len() {
        None
    } else if list[i as int].id == id {
        Some(list[i as int].name)
    } else {
        collection_with(list, id, i + 1)
    }
}

/// A name, or the words that stand for an identity with none.
pub open spec fn named_or(name: Option<Seq<char>>, word: Seq<char>, id: u64) -> Seq<char> {
    match name {
        Some(name) => name,
        None => word + decimal(id as int),
    }
}

/// One edge shape, by name.
pub open spec fn edge_of(cat: CatalogV, row: EdgeRow) -> EdgeNameV {
    EdgeNameV {
        edge_type: named_or(name_of_id(cat.edge_types, row.edge_type, 0), "type "@, row.edge_type),
        from: named_or(collection_with(cat.collections, row.from, 0), "collection "@, row.from),
        to: named_or(collection_with(cat.collections, row.to, 0), "collection "@, row.to),
        context: if row.context == 0 {
            BASE_CONTEXT@
        } else {
            named_or(name_of_id(cat.contexts, row.context, 0), "context "@, row.context)
        },
    }
}

fn find_name(list: &Vec<(String, u64)>, id: u64) -> (r: Option<String>)
    ensures
        r.deep_view() == name_of_id(list.deep_view(), id, 0),
{
    let ghost all = list.deep_view();
    let mut i: usize = 0;
    while i < list.len()
        invariant
            i <= list@.len(),
            all == list.deep_view(),
            name_of_id(all, id, i as nat) == name_of_id(all, id, 0),
        decreases list@.len() - i,
    {
        assert(all[i as int] == list@[i as int].deep_view());
        if list[i].1 == id {
            return Some(list[i].0.clone());
        }
        i = i + 1;
    }
    None
}

fn find_collection(list: &Vec<Collection>, id: u64) -> (r: Option<String>)
    ensures
        r.deep_view() == collection_with(list.deep_view(), id, 0),
{
    let ghost all = list.deep_view();
    let mut i: usize = 0;
    while i < list.len()
        invariant
            i <= list@.len(),
            all == list.deep_view(),
            collection_with(all, id, i as nat) == collection_with(all, id, 0),
        decreases list@.len() - i,
    {
        assert(all[i as int] == list@[i as int].deep_view());
        if list[i].id == id {
            return Some(list[i].name.clone());
        }
        i = i + 1;
    }
    None
}

fn name_or(name: Option<String>, word: &str, id: u64) -> (r: String)
    ensures
        r@ == named_or(name.deep_view(), word@, id),
{
    match name {
        Some(name) => name,
        None => cat2(word, decimal_u64(id).as_str()),
    }
}

fn read_edge(cat: &Catalog, row: EdgeRow) -> (r: EdgeName)
    ensures
        r.deep_view() == edge_of(cat.deep_view(), row),
{
    EdgeName {
        edge_type: name_or(find_name(&cat.edge_types, row.edge_type), "type ", row.edge_type),
        from: name_or(find_collection(&cat.collections, row.from), "collection ", row.from),
        to: name_or(find_collection(&cat.collections, row.to), "collection ", row.to),
        context: if row.context == 0 {
            owned(BASE_CONTEXT)
        } else {
            name_or(find_name(&cat.contexts, row.context), "context ", row.context)
        },
    }
}

// ── the whole ────────────────────────────────────────────────────────────

/// The catalog as the relations are built from it; the graph only where it is
/// asked for.
pub open spec fn snapshot_of(cat: CatalogV, shape: Seq<EdgeRow>, truncated: bool, graph: bool) -> SnapshotV {
    SnapshotV {
        tables: cat.collections.map_values(|c: CollectionV| table_of(c)),
        edges: if graph {
            shape.map_values(|row: EdgeRow| edge_of(cat, row))
        } else {
            Seq::empty()
        },
        edges_truncated: graph && truncated,
        contexts: if graph {
            seq![(BASE_CONTEXT@, 0u64)] + cat.contexts
        } else {
            Seq::empty()
        },
    }
}

fn read_tables(cat: &Catalog) -> (r: Vec<Table>)
    ensures
        r.deep_view() == cat.deep_view().collections.map_values(|c: CollectionV| table_of(c)),
{
    let mut out: Vec<Table> = Vec::new();
    let ghost all = cat.deep_view().collections;
    let mut i: usize = 0;
    while i < cat.collections.len()
        invariant
            i <= cat.collections@.len(),
            all == cat.collections.deep_view(),
            out@.len() == i,
            forall|k: int| 0 <= k < i ==> (#[trigger] out@[k]).deep_view() == table_of(all[k]),
        decreases cat.collections@.len() - i,
    {
        assert(all[i as int] == cat.collections@[i as int].deep_view());
        out.push(read_table(&cat.collections[i]));
        i = i + 1;
    }
    assert(out.deep_view() =~= all.map_values(|c: CollectionV| table_of(c)));
    out
}

/// The catalog as the relations are built from it.
pub fn snapshot(cat: &Catalog, shape: &Vec<EdgeRow>, truncated: bool, graph: bool) -> (r: Snapshot)
    ensures
        r.deep_view() == snapshot_of(cat.deep_view(), shape@, truncated, graph),
{
    let tables = read_tables(cat);
    let mut edges: Vec<EdgeName> = Vec::new();
    let mut contexts: Vec<(String, u64)> = Vec::new();
    if graph {
        contexts.push((owned(BASE_CONTEXT), 0));
        let ghost names = cat.deep_view().contexts;
        let mut i: usize = 0;
        while i < cat.contexts.len()
            invariant
                i <= cat.contexts@.len(),
                names == cat.contexts.deep_view(),
                contexts@.len() == i + 1,
                contexts@[0].deep_view() == (BASE_CONTEXT@, 0u64),
                forall|k: int|
                    1 <= k <= i ==> (#[trigger] contexts@[k]).deep_view() == names[k - 1],
            decreases cat.contexts@.len() - i,
        {
            assert(names[i as int] == cat.contexts@[i as int].deep_view());
            contexts.push((cat.contexts[i].0.clone(), cat.contexts[i].1));
            i = i + 1;
        }
        assert(contexts.deep_view() =~= seq![(BASE_CONTEXT@, 0u64)] + names);
        let mut j: usize = 0;
        while j < shape.len()
            invariant
                j <= shape@.len(),
                edges@.len() == j,
                forall|k: int|
                    0 <= k < j ==> (#[trigger] edges@[k]).deep_view() == edge_of(
                        cat.deep_view(),
                        shape@[k],
                    ),
            decreases shape@.len() - j,
        {
            edges.push(read_edge(cat, shape[j]));
            j = j + 1;
        }
    }
    let r = Snapshot { tables, edges, edges_truncated: graph && truncated, contexts };
    proof {
        let want = snapshot_of(cat.deep_view(), shape@, truncated, graph);
        assert(r.edges.deep_view() =~= want.edges);
        assert(r.contexts.deep_view() =~= want.contexts);
        assert(r.tables.deep_view() =~= want.tables);
    }
    r
}

/// Every table begins with the external key, which is text and is never null.
pub proof fn key_comes_first(cat: CatalogV, shape: Seq<EdgeRow>, truncated: bool, graph: bool, i: int)
    requires
        0 <= i < cat.collections.len(),
    ensures
        ({
            let t = snapshot_of(cat, shape, truncated, graph).tables[i];
            &&& t.fields.len() == cat.collections[i].fields.len() + 1
            &&& t.fields[0] == key_field()
        }),
{
}

} // verus!
