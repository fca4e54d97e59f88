//! What the statements that make and change tables leave behind.

use vstd::prelude::*;
use crate::compile::altered::{entry, kinds_are_entries, rules_are_entries, types_are_entries};
use crate::compile::ddl::with_family;
use crate::compile::define::{
    alter_table, create_index, create_table, drop_table, index_method, indexes_over, with_columns,
};
use crate::compile::env::{
    collection_named, collection_of, declared_from, kind_from, kind_of, CatalogV, CollectionV, IndexFamily,
    IndexInfoV,
};
use crate::compile::log::LogV;
use crate::compile::plan::{CompiledAlterV, CompiledIndexV, WritePlanV};
use crate::catalog::snapshot::rule_from;
use crate::error::SqlErrorV;
use crate::instant::time_type;
use crate::named::{has_name, renamed, without, without_is_gone};
use crate::number::{finite, truncated};
use crate::parser::cursor::{is_word, next, tok};
use crate::parser::select::optional_limit;
use crate::stmt::{AlterActionV, ColumnDefV, IndexMethodV, WithIndexV};
use crate::token::TokenV;
use crate::value::{ColumnRuleV, Kind};

verus! {

// ── CREATE TABLE ─────────────────────────────────────────────────────────

proof fn draft_is_the_columns(columns: Seq<ColumnDefV>, log: LogV)
    requires
        with_columns(columns, log) is Ok,
    ensures
        ({
            let d = with_columns(columns, log)->Ok_0.0;
            &&& d.fields.len() == columns.len()
            &&& forall|i: int|
                0 <= i < columns.len() ==> d.fields[i] == ((#[trigger] columns[i]).name, columns[i].kind)
            &&& forall|name: Seq<char>, text: Seq<char>| #[trigger]
                d.declared.contains((name, text)) <==> exists|i: int|
                    0 <= i < columns.len() && (#[trigger] columns[i]).name == name
                        && columns[i].declared == text && time_type(text)
            &&& forall|name: Seq<char>, rule: ColumnRuleV| #[trigger]
                d.rules.contains((name, rule)) <==> exists|i: int|
                    0 <= i < columns.len() && (#[trigger] columns[i]).name == name
                        && columns[i].rule == Some(rule)
        }),
    decreases columns.len(),
{
    let d = with_columns(columns, log)->Ok_0.0;
    if columns.len() == 0 {
        assert forall|name: Seq<char>, text: Seq<char>| !#[trigger] d.declared.contains(
            (name, text),
        ) by {}
        assert forall|name: Seq<char>, rule: ColumnRuleV| !#[trigger] d.rules.contains(
            (name, rule),
        ) by {}
    } else {
        let init = columns.drop_last();
        let n = columns.len() - 1;
        let col = columns[n];
        assert(col == columns.last());
        draft_is_the_columns(init, log);
        let before = with_columns(init, log)->Ok_0.0;
        assert forall|i: int| 0 <= i < columns.len() implies d.fields[i] == (
            (#[trigger] columns[i]).name,
            columns[i].kind,
        ) by {
            if i < n {
                assert(init[i] == columns[i]);
            }
        }
        assert forall|name: Seq<char>, text: Seq<char>| #[trigger]
            d.declared.contains((name, text)) <==> exists|i: int|
                0 <= i < columns.len() && (#[trigger] columns[i]).name == name
                    && columns[i].declared == text && time_type(text) by {
            pushed_or_not(before.declared, d.declared, (col.name, col.declared), (name, text));
            if before.declared.contains((name, text)) {
                let i = choose|i: int|
                    0 <= i < init.len() && (#[trigger] init[i]).name == name && init[i].declared
                        == text && time_type(text);
                assert(columns[i] == init[i]);
            }
            if exists|i: int|
                0 <= i < columns.len() && (#[trigger] columns[i]).name == name
                    && columns[i].declared == text && time_type(text) {
                let i = choose|i: int|
                    0 <= i < columns.len() && (#[trigger] columns[i]).name == name
                        && columns[i].declared == text && time_type(text);
                if i < n {
                    assert(init[i] == columns[i]);
                }
            }
        }
        assert forall|name: Seq<char>, rule: ColumnRuleV| #[trigger]
            d.rules.contains((name, rule)) <==> exists|i: int|
                0 <= i < columns.len() && (#[trigger] columns[i]).name == name && columns[i].rule
                    == Some(rule) by {
            if col.rule is Some {
                pushed_or_not(before.rules, d.rules, (col.name, col.rule->0), (name, rule));
            }
            if before.rules.contains((name, rule)) {
                let i = choose|i: int|
                    0 <= i < init.len() && (#[trigger] init[i]).name == name && init[i].rule
                        == Some(rule);
                assert(columns[i] == init[i]);
            }
            if exists|i: int|
                0 <= i < columns.len() && (#[trigger] columns[i]).name == name && columns[i].rule
                    == Some(rule) {
                let i = choose|i: int|
                    0 <= i < columns.len() && (#[trigger] columns[i]).name == name
                        && columns[i].rule == Some(rule);
                if i < n {
                    assert(init[i] == columns[i]);
                }
            }
        }
    }
}

proof fn pushed_or_not<T>(before: Seq<T>, after: Seq<T>, one: T, x: T)
    requires
        after == before || after == before.push(one),
    ensures
        before.contains(x) ==> after.contains(x),
        after.contains(x) ==> before.contains(x) || (x == one && after == before.push(one)),
        after == before.push(one) && x == one ==> after.contains(x),
{
    if after == before.push(one) {
        if before.contains(x) {
            let i = choose|i: int| 0 <= i < before.len() && before[i] == x;
            assert(after[i] == x);
        }
        if after.contains(x) {
            let i = choose|i: int| 0 <= i < after.len() && after[i] == x;
            if i < before.len() {
                assert(before[i] == x);
            }
        }
        assert(after[before.len() as int] == one);
    }
}

/// A table that is created has the columns that are written, in their order,
/// each with its kind, with its declared type where that is one of time, and with
/// its rule.
pub proof fn created_table_has_its_columns(
    cat: CatalogV,
    table: Seq<char>,
    columns: Seq<ColumnDefV>,
    if_not_exists: bool,
    with: Seq<WithIndexV>,
    log: LogV,
)
    requires
        create_table(cat, table, columns, if_not_exists, with, log) is Ok,
    ensures
        match create_table(cat, table, columns, if_not_exists, with, log)->Ok_0.0 {
            WritePlanV::CreateTable { name, fields, declared, rules, .. } => {
                &&& name == table
                &&& fields.len() == columns.len()
                &&& forall|i: int|
                    0 <= i < columns.len() ==> fields[i] == (
                        (#[trigger] columns[i]).name,
                        columns[i].kind,
                    )
                &&& forall|n: Seq<char>, text: Seq<char>| #[trigger]
                    declared.contains((n, text)) <==> exists|i: int|
                        0 <= i < columns.len() && (#[trigger] columns[i]).name == n
                            && columns[i].declared == text && time_type(text)
                &&& forall|n: Seq<char>, rule: ColumnRuleV| #[trigger]
                    rules.contains((n, rule)) <==> exists|i: int|
                        0 <= i < columns.len() && (#[trigger] columns[i]).name == n
                            && columns[i].rule == Some(rule)
            },
            WritePlanV::Notice(_) => if_not_exists && collection_named(cat, table) is Some,
            _ => false,
        },
{
    if !(if_not_exists && collection_named(cat, table) is Some) {
        draft_is_the_columns(columns, log);
    }
}

// ── ALTER TABLE ──────────────────────────────────────────────────────────

proof fn entry_of_new<T>(list: Seq<(Seq<char>, T)>, name: Seq<char>, v: T, i: nat)
    requires
        !has_name(list, name),
        i <= list.len(),
    ensures
        entry(list.push((name, v)), name, i) == Some(v),
    decreases list.len() - i,
{
    let all = list.push((name, v));
    if i < list.len() {
        assert(list[i as int].0 != name);
        entry_of_new(list, name, v, i + 1);
    } else {
        assert(all[i as int] == (name, v));
    }
}

proof fn entry_of_none<T>(list: Seq<(Seq<char>, T)>, name: Seq<char>, i: nat)
    requires
        !has_name(list, name),
    ensures
        entry(list, name, i) is None,
    decreases list.len() - i,
{
    if i < list.len() {
        assert(list[i as int].0 != name);
        entry_of_none(list, name, i + 1);
    }
}

proof fn entry_of_renamed<T>(list: Seq<(Seq<char>, T)>, from: Seq<char>, to: Seq<char>, i: nat)
    requires
        !has_name(list, to),
        from != to,
    ensures
        entry(renamed(list, from, to), to, i) == entry(list, from, i),
        entry(renamed(list, from, to), from, i) is None,
    decreases list.len() - i,
{
    if i < list.len() {
        assert(list[i as int].0 != to);
        entry_of_renamed(list, from, to, i + 1);
    }
}

proof fn listed_over(list: Seq<IndexInfoV>, column: Seq<char>, id: u64, name: Seq<char>)
    ensures
        indexes_over(list, column).contains((id, name)) <==> exists|i: int|
            0 <= i < list.len() && (#[trigger] list[i]).field == column && list[i].id == id
                && list[i].name == name,
    decreases list.len(),
{
    if list.len() > 0 {
        let init = list.drop_last();
        let n = list.len() - 1;
        let last = list[n];
        listed_over(init, column, id, name);
        let before = indexes_over(init, column);
        let after = indexes_over(list, column);
        pushed_or_not(before, after, (last.id, last.name), (id, name));
        if before.contains((id, name)) {
            let i = choose|i: int|
                0 <= i < init.len() && (#[trigger] init[i]).field == column && init[i].id == id
                    && init[i].name == name;
            assert(list[i] == init[i]);
        }
        if exists|i: int|
            0 <= i < list.len() && (#[trigger] list[i]).field == column && list[i].id == id
                && list[i].name == name {
            let i = choose|i: int|
                0 <= i < list.len() && (#[trigger] list[i]).field == column && list[i].id == id
                    && list[i].name == name;
            if i < n {
                assert(init[i] == list[i]);
            }
        }
    }
}

/// The column that an `ALTER TABLE` is about: one that is added has its kind,
/// its declared type and its rule; one that is dropped is gone, with the indexes
/// over it and no others; one that is renamed has under its new name what it had
/// under the old one.
pub proof fn altered_column_is_as_written(
    cat: CatalogV,
    table: Seq<char>,
    action: AlterActionV,
    log: LogV,
    id: u64,
    index: Seq<char>,
)
    requires
        alter_table(cat, table, action, log) is Ok,
        alter_table(cat, table, action, log)->Ok_0.0 is AlterTable,
    ensures
        ({
            let c = collection_of(cat, table)->Ok_0;
            let plan = alter_table(cat, table, action, log)->Ok_0.0;
            let act = plan->AlterTable_action;
            &&& collection_of(cat, table) is Ok
            &&& plan->AlterTable_collection == c.id
            &&& plan->AlterTable_table == table
            &&& match action {
                AlterActionV::RenameTable { to } => act == CompiledAlterV::Rename { to },
                AlterActionV::AddColumn(col) => {
                    &&& act is Layout
                    &&& kind_from(act->fields, col.name, 0) == Some(col.kind)
                    &&& act->drop_indexes.len() == 0
                },
                AlterActionV::DropColumn { column, .. } => {
                    &&& act is Layout
                    &&& kind_from(act->fields, column, 0) is None
                    &&& declared_from(act->declared, column, 0) is None
                    &&& rule_from(act->rules, column, 0) is None
                    &&& act->drop_indexes.contains((id, index)) <==> exists|i: int|
                        0 <= i < c.indexes.len() && (#[trigger] c.indexes[i]).field == column
                            && c.indexes[i].id == id && c.indexes[i].name == index
                },
                AlterActionV::RenameColumn { from, to } => {
                    &&& act is Layout
                    &&& kind_from(act->fields, to, 0) == kind_from(c.fields, from, 0)
                    &&& kind_from(act->fields, from, 0) is None
                },
                AlterActionV::ColumnType { column, kind, declared } => {
                    &&& act is Layout
                    &&& kind_from(act->fields, column, 0) == Some(kind)
                    &&& declared_from(act->declared, column, 0) == if time_type(declared) {
                        Some(declared)
                    } else {
                        None
                    }
                },
            }
        }),
{
    let c = collection_of(cat, table)->Ok_0;
    let plan = alter_table(cat, table, action, log)->Ok_0.0;
    let act = plan->AlterTable_action;
    match action {
        AlterActionV::RenameTable { to } => {},
        AlterActionV::AddColumn(col) => {
            entry_of_new(c.fields, col.name, col.kind, 0);
            kinds_are_entries(act->fields, col.name, 0);
        },
        AlterActionV::DropColumn { column, .. } => {
            without_is_gone(c.fields, column);
            without_is_gone(c.declared, column);
            without_is_gone(c.rules, column);
            entry_of_none(act->fields, column, 0);
            entry_of_none(act->declared, column, 0);
            entry_of_none(act->rules, column, 0);
            kinds_are_entries(act->fields, column, 0);
            types_are_entries(act->declared, column, 0);
            rules_are_entries(act->rules, column, 0);
            listed_over(c.indexes, column, id, index);
        },
        AlterActionV::RenameColumn { from, to } => {
            entry_of_renamed(c.fields, from, to, 0);
            kinds_are_entries(act->fields, to, 0);
            kinds_are_entries(act->fields, from, 0);
            kinds_are_entries(c.fields, from, 0);
        },
        AlterActionV::ColumnType { column, kind, declared } => {
            without_is_gone(c.declared, column);
            entry_of_new(without(c.declared, column), column, declared, 0);
            entry_of_none(without(c.declared, column), column, 0);
            types_are_entries(act->declared, column, 0);
        },
    }
}

// ── indexes ──────────────────────────────────────────────────────────────

/// The family of an index that is to be made, and the column that it is over.
pub open spec fn made_over(index: CompiledIndexV) -> (IndexFamily, Seq<char>, bool) {
    match index {
        CompiledIndexV::Scalar { field, .. } => (IndexFamily::Scalar, field, false),
        CompiledIndexV::LowerScalar { field } => (IndexFamily::Scalar, field, true),
        CompiledIndexV::JsonScalar { field, .. } => (IndexFamily::Scalar, field, false),
        CompiledIndexV::Text { field } => (IndexFamily::Text, field, false),
        CompiledIndexV::Point { field } => (IndexFamily::SpatialPoint, field, false),
        CompiledIndexV::Geometry { field } => (IndexFamily::SpatialGeometry, field, false),
        CompiledIndexV::ExactVector { field } => (IndexFamily::ExactVector, field, false),
        CompiledIndexV::QuantizedVector { field } => (IndexFamily::QuantizedVector, field, false),
        CompiledIndexV::VamanaGraph { field } => (IndexFamily::VamanaGraph, field, false),
    }
}

/// The column that a method is written over.
pub open spec fn written_over(method: IndexMethodV) -> Seq<char> {
    match method {
        IndexMethodV::Btree(field) => field,
        IndexMethodV::LowerBtree(field) => field,
        IndexMethodV::Gin(field) => field,
        IndexMethodV::Gist(field) => field,
        IndexMethodV::Exact(field) => field,
        IndexMethodV::Quantized { column, .. } => column,
    }
}

/// An index is made over the column that is written, in the collection of the
/// table, of the family that the method names; only a method of `lower` folds
/// what it stores. A method over a column of another kind than its own is
/// refused.
pub proof fn created_index_is_of_its_method(
    cat: CatalogV,
    name: Seq<char>,
    table: Seq<char>,
    method: IndexMethodV,
    log: LogV,
)
    requires
        collection_of(cat, table) is Ok,
    ensures
        ({
            let c = collection_of(cat, table)->Ok_0;
            let kind = kind_of(c, written_over(method))->Ok_0;
            let r = create_index(cat, name, table, method, log);
            &&& r is Ok <==> kind_of(c, written_over(method)) is Ok && match method {
                IndexMethodV::Btree(_) => true,
                IndexMethodV::LowerBtree(_) | IndexMethodV::Gin(_) => kind is Text,
                IndexMethodV::Gist(_) => kind is Point || kind is Geo,
                _ => kind is Vector,
            }
            &&& r is Ok ==> r->Ok_0.0 is CreateIndex && r->Ok_0.0->CreateIndex_collection == c.id
                && r->Ok_0.0->CreateIndex_name == name && made_over(r->Ok_0.0->CreateIndex_method)
                == (
                match method {
                    IndexMethodV::Btree(_) | IndexMethodV::LowerBtree(_) => IndexFamily::Scalar,
                    IndexMethodV::Gin(_) => IndexFamily::Text,
                    IndexMethodV::Gist(_) => if kind is Point {
                        IndexFamily::SpatialPoint
                    } else {
                        IndexFamily::SpatialGeometry
                    },
                    IndexMethodV::Exact(_) => IndexFamily::ExactVector,
                    IndexMethodV::Quantized { .. } => IndexFamily::QuantizedVector,
                },
                written_over(method),
                method is LowerBtree,
            )
        }),
{
}

/// The method that a key of a `WITH` stands for.
pub open spec fn stands_for(key: Seq<char>, column: Seq<char>) -> Option<IndexMethodV> {
    if key == "hash"@ || key == "range"@ {
        Some(IndexMethodV::Btree(column))
    } else if key == "fulltext"@ || key == "bm25"@ {
        Some(IndexMethodV::Gin(column))
    } else if key == "spatial"@ {
        Some(IndexMethodV::Gist(column))
    } else if key == "vector"@ {
        Some(IndexMethodV::Exact(column))
    } else if key == "quantized"@ {
        Some(IndexMethodV::Quantized { column, alias: None })
    } else {
        None
    }
}

/// A key of a `WITH` makes the index that a `CREATE INDEX` of its method makes
/// over the same column, and where that is refused so is the key.
pub proof fn with_key_makes_the_index_of_its_method(
    c: CollectionV,
    key: Seq<char>,
    column: Seq<char>,
    kind: Kind,
    log: LogV,
)
    requires
        kind_of(c, column) == Ok::<Kind, SqlErrorV>(kind),
    ensures
        with_family(key, column, kind) is Ok ==> {
            &&& stands_for(key, column) is Some
            &&& index_method(c, stands_for(key, column)->0, log) is Ok
            &&& with_family(key, column, kind)->Ok_0.1 == index_method(
                c,
                stands_for(key, column)->0,
                log,
            )->Ok_0.0
        },
        stands_for(key, column) is Some && !(stands_for(key, column)->0 is Btree) && index_method(
            c,
            stands_for(key, column)->0,
            log,
        ) is Ok ==> with_family(key, column, kind) is Ok,
        stands_for(key, column) is Some && stands_for(key, column)->0 is Btree ==> (with_family(
            key,
            column,
            kind,
        ) is Ok <==> kind is Bool || kind is Int || kind is Real || kind is Text),
{
}

/// A table that is dropped is the one of that name.
pub proof fn dropped_table_is_the_named_one(
    cat: CatalogV,
    table: Seq<char>,
    if_exists: bool,
    cascade: bool,
)
    ensures
        drop_table(cat, table, if_exists, cascade) is Ok <==> if_exists || collection_of(
            cat,
            table,
        ) is Ok,
        drop_table(cat, table, if_exists, cascade) is Ok ==> (drop_table(
            cat,
            table,
            if_exists,
            cascade,
        )->Ok_0 is Some <==> collection_of(cat, table) is Ok),
        collection_of(cat, table) is Ok ==> drop_table(cat, table, if_exists, cascade)->Ok_0
            == Some(
            WritePlanV::DropTable {
                collection: collection_of(cat, table)->Ok_0.id,
                name: table,
                cascade,
            },
        ),
{
}

// ── LIMIT ────────────────────────────────────────────────────────────────

/// `LIMIT n` is the whole number that is written, as far as it can be counted
/// to; without one there is no limit.
pub proof fn limit_is_as_written(t: Seq<TokenV>, s: int)
    requires
        optional_limit(t, s) is Ok,
    ensures
        optional_limit(t, s)->Ok_0.0 is Some <==> is_word(t, s, "LIMIT"@),
        is_word(t, s, "LIMIT"@) ==> ({
            let n = tok(t, next(t, s));
            &&& n is Num && n->Num_1
            &&& finite(n->Num_0.bits) && 0 <= truncated(n->Num_0.bits) <= usize::MAX
                ==> optional_limit(t, s)->Ok_0.0 == Some(truncated(n->Num_0.bits) as usize)
        }),
{
    reveal(optional_limit);
}

} // verus!
