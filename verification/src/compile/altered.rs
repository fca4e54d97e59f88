//! What an `ALTER TABLE` leaves as it was.

use vstd::prelude::*;
use crate::catalog::snapshot::rule_from;
use crate::compile::define::alter_table;
use crate::compile::env::{collection_of, declared_from, kind_from, CatalogV};
use crate::compile::log::LogV;
use crate::compile::plan::{CompiledAlterV, WritePlanV};
use crate::named::{renamed, without};
use crate::stmt::AlterActionV;
use crate::value::{ColumnRuleV, Kind};

verus! {

/// What is recorded under a name, from position `i` on.
pub open spec fn entry<T>(list: Seq<(Seq<char>, T)>, name: Seq<char>, i: nat) -> Option<T>
    decreases list.len() - i,
{
    if i >= list.len() {
        None
    } else if list[i as int].0 == name {
        Some(list[i as int].1)
    } else {
        entry(list, name, i + 1)
    }
}

/// The kind of a column is what is recorded under its name.
pub proof fn kinds_are_entries(list: Seq<(Seq<char>, Kind)>, name: Seq<char>, i: nat)
    ensures
        kind_from(list, name, i) == entry(list, name, i),
    decreases list.len() - i,
{
    if i < list.len() {
        kinds_are_entries(list, name, i + 1);
    }
}

/// The declared type of a column is what is recorded under its name.
pub proof fn types_are_entries(list: Seq<(Seq<char>, Seq<char>)>, name: Seq<char>, i: nat)
    ensures
        declared_from(list, name, i) == entry(list, name, i),
    decreases list.len() - i,
{
    if i < list.len() {
        types_are_entries(list, name, i + 1);
    }
}

/// The rule of a column is what is recorded under its name.
pub proof fn rules_are_entries(list: Seq<(Seq<char>, ColumnRuleV)>, name: Seq<char>, i: nat)
    ensures
        rule_from(list, name, i) == entry(list, name, i),
    decreases list.len() - i,
{
    if i < list.len() {
        rules_are_entries(list, name, i + 1);
    }
}

/// One more entry is found where no earlier one is.
proof fn entry_push<T>(list: Seq<(Seq<char>, T)>, x: (Seq<char>, T), name: Seq<char>, i: nat)
    requires
        i <= list.len(),
    ensures
        entry(list.push(x), name, i) == if entry(list, name, i) is Some {
            entry(list, name, i)
        } else if x.0 == name {
            Some(x.1)
        } else {
            None
        },
    decreases list.len() - i,
{
    if i < list.len() {
        assert(list.push(x)[i as int] == list[i as int]);
        entry_push(list, x, name, i + 1);
    } else {
        assert(list.push(x)[i as int] == x);
        assert(entry(list.push(x), name, i + 1) is None);
    }
}

proof fn entry_without<T>(list: Seq<(Seq<char>, T)>, gone: Seq<char>, name: Seq<char>)
    requires
        gone != name,
    ensures
        entry(without(list, gone), name, 0) == entry(list, name, 0),
    decreases list.len(),
{
    if list.len() > 0 {
        entry_without(list.drop_last(), gone, name);
        assert(list.drop_last().push(list.last()) =~= list);
        entry_push(list.drop_last(), list.last(), name, 0);
        if list.last().0 != gone {
            entry_push(without(list.drop_last(), gone), list.last(), name, 0);
        }
    }
}

proof fn entry_renamed<T>(
    list: Seq<(Seq<char>, T)>,
    from: Seq<char>,
    to: Seq<char>,
    name: Seq<char>,
    i: nat,
)
    requires
        from != name,
        to != name,
    ensures
        entry(renamed(list, from, to), name, i) == entry(list, name, i),
    decreases list.len() - i,
{
    if i < list.len() {
        entry_renamed(list, from, to, name, i + 1);
    }
}

/// Whether an action is about a column.
pub open spec fn touches(action: AlterActionV, name: Seq<char>) -> bool {
    match action {
        AlterActionV::AddColumn(col) => col.name == name,
        AlterActionV::DropColumn { column, .. } => column == name,
        AlterActionV::RenameColumn { from, to } => from == name || to == name,
        AlterActionV::RenameTable { .. } => false,
        AlterActionV::ColumnType { column, .. } => column == name,
    }
}

/// An `ALTER TABLE` keeps the kind, the declared type and the rule of every
/// column that it is not about.
pub proof fn other_columns_are_kept(
    cat: CatalogV,
    table: Seq<char>,
    action: AlterActionV,
    log: LogV,
    name: Seq<char>,
)
    requires
        alter_table(cat, table, action, log) is Ok,
        !touches(action, name),
    ensures
        ({
            let c = collection_of(cat, table)->Ok_0;
            match alter_table(cat, table, action, log)->Ok_0.0 {
                WritePlanV::AlterTable {
                    action: CompiledAlterV::Layout { fields, declared, rules, .. },
                    ..
                } => {
                    &&& kind_from(fields, name, 0) == kind_from(c.fields, name, 0)
                    &&& declared_from(declared, name, 0) == declared_from(c.declared, name, 0)
                    &&& rule_from(rules, name, 0) == rule_from(c.rules, name, 0)
                },
                _ => true,
            }
        }),
{
    let c = collection_of(cat, table)->Ok_0;
    kinds_are_entries(c.fields, name, 0);
    types_are_entries(c.declared, name, 0);
    rules_are_entries(c.rules, name, 0);
    if let WritePlanV::AlterTable {
        action: CompiledAlterV::Layout { fields, declared, rules, .. },
        ..
    } = alter_table(cat, table, action, log)->Ok_0.0 {
        kinds_are_entries(fields, name, 0);
        types_are_entries(declared, name, 0);
        rules_are_entries(rules, name, 0);
    }
    match action {
        AlterActionV::AddColumn(col) => {
            entry_push(c.fields, (col.name, col.kind), name, 0);
            entry_push(c.declared, (col.name, col.declared), name, 0);
            if let Some(rule) = col.rule {
                entry_push(c.rules, (col.name, rule), name, 0);
            }
        },
        AlterActionV::DropColumn { column, .. } => {
            entry_without(c.fields, column, name);
            entry_without(c.declared, column, name);
            entry_without(c.rules, column, name);
        },
        AlterActionV::RenameColumn { from, to } => {
            entry_renamed(c.fields, from, to, name, 0);
            entry_renamed(c.declared, from, to, name, 0);
            entry_renamed(c.rules, from, to, name, 0);
        },
        AlterActionV::ColumnType { column, declared, .. } => {
            entry_without(c.declared, column, name);
            entry_push(without(c.declared, column), (column, declared), name, 0);
        },
        AlterActionV::RenameTable { .. } => {},
    }
}

} // verus!
