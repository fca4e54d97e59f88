//! The relations of one catalog agree with each other.

use vstd::prelude::*;
use crate::catalog::contents::{
    all_field_rows, all_index_rows, field_row, field_rows, index_row, number, of_the_graph,
    relation_rows,
};
use crate::catalog::relations::{relation_columns, relation_with, RelationId};
use crate::catalog::snapshot::{snapshot_of, table_of, EdgeRow, IndexV, TableV};
use crate::catalog::types::oid_of;
use crate::compile::env::{CatalogV, CollectionV};
use crate::strings::stored_count;
use crate::value::SqlValueV;

verus! {

/// The rows that a relation is built with.
pub open spec fn built(cat: CatalogV, shape: Seq<EdgeRow>, truncated: bool, id: RelationId) -> Seq<
    Seq<SqlValueV>,
> {
    relation_rows(id, snapshot_of(cat, shape, truncated, of_the_graph(relation_with(id))))
}

/// How many columns the first `n` collections have, with the key of each.
pub open spec fn columns_before(cat: CatalogV, n: nat) -> nat
    decreases n,
{
    if n == 0 {
        0
    } else {
        columns_before(cat, (n - 1) as nat) + cat.collections[n - 1].fields.len() + 1
    }
}

/// How many indexes the first `n` collections have.
pub open spec fn indexes_before(cat: CatalogV, n: nat) -> nat
    decreases n,
{
    if n == 0 {
        0
    } else {
        indexes_before(cat, (n - 1) as nat) + cat.collections[n - 1].indexes.len()
    }
}

proof fn attributes_listed(t: TableV, n: nat)
    requires
        n <= t.fields.len(),
    ensures
        field_rows(RelationId::PgAttribute, t, n).len() == n,
        forall|j: int|
            0 <= j < n ==> #[trigger] field_rows(RelationId::PgAttribute, t, n)[j] == field_row(
                RelationId::PgAttribute,
                t,
                t.fields[j],
                j,
            ),
    decreases n,
{
    if n > 0 {
        attributes_listed(t, (n - 1) as nat);
        let done = field_rows(RelationId::PgAttribute, t, (n - 1) as nat);
        let all = field_rows(RelationId::PgAttribute, t, n);
        assert forall|j: int| 0 <= j < n implies #[trigger] all[j] == field_row(
            RelationId::PgAttribute,
            t,
            t.fields[j],
            j,
        ) by {
            if j < n - 1 {
                assert(all[j] == done[j]);
            }
        }
    }
}

proof fn tables_listed(cat: CatalogV, n: nat, i: int)
    requires
        n <= cat.collections.len(),
        0 <= i < n,
    ensures
        ({
            let tables = cat.collections.take(n as int).map_values(|c: CollectionV| table_of(c));
            let t = table_of(cat.collections[i]);
            let rows = all_field_rows(RelationId::PgAttribute, tables);
            let from = columns_before(cat, i as nat) as int;
            &&& rows.len() == columns_before(cat, n)
            &&& from + t.fields.len() <= rows.len()
            &&& forall|j: int|
                0 <= j < t.fields.len() ==> #[trigger] rows[from + j] == field_row(
                    RelationId::PgAttribute,
                    t,
                    t.fields[j],
                    j,
                )
        }),
    decreases n,
{
    let f = |c: CollectionV| table_of(c);
    let tables = cat.collections.take(n as int).map_values(f);
    let front = cat.collections.take(n - 1).map_values(f);
    let last = table_of(cat.collections[n - 1]);
    assert(tables.drop_last() =~= front);
    assert(tables.last() == last);
    attributes_listed(last, last.fields.len());
    let before = all_field_rows(RelationId::PgAttribute, front);
    let mine = field_rows(RelationId::PgAttribute, last, last.fields.len());
    let rows = all_field_rows(RelationId::PgAttribute, tables);
    assert(rows == before + mine);
    columns_counted(cat, (n - 1) as nat);
    let t = table_of(cat.collections[i]);
    let from = columns_before(cat, i as nat) as int;
    if i < n - 1 {
        tables_listed(cat, (n - 1) as nat, i);
        assert forall|j: int| 0 <= j < t.fields.len() implies #[trigger] rows[from + j]
            == field_row(RelationId::PgAttribute, t, t.fields[j], j) by {
            assert(rows[from + j] == before[from + j]);
        }
    } else {
        assert forall|j: int| 0 <= j < t.fields.len() implies #[trigger] rows[from + j]
            == field_row(RelationId::PgAttribute, t, t.fields[j], j) by {
            assert(rows[from + j] == mine[j]);
        }
    }
}

proof fn columns_counted(cat: CatalogV, n: nat)
    requires
        n <= cat.collections.len(),
    ensures
        all_field_rows(
            RelationId::PgAttribute,
            cat.collections.take(n as int).map_values(|c: CollectionV| table_of(c)),
        ).len() == columns_before(cat, n),
    decreases n,
{
    let f = |c: CollectionV| table_of(c);
    let tables = cat.collections.take(n as int).map_values(f);
    if n > 0 {
        columns_counted(cat, (n - 1) as nat);
        let last = table_of(cat.collections[n - 1]);
        assert(tables.drop_last() =~= cat.collections.take(n - 1).map_values(f));
        assert(tables.last() == last);
        attributes_listed(last, last.fields.len());
    }
}

proof fn indexes_counted(cat: CatalogV, n: nat)
    requires
        n <= cat.collections.len(),
    ensures
        all_index_rows(
            RelationId::PgIndex,
            cat.collections.take(n as int).map_values(|c: CollectionV| table_of(c)),
        ).len() == indexes_before(cat, n),
    decreases n,
{
    let f = |c: CollectionV| table_of(c);
    let tables = cat.collections.take(n as int).map_values(f);
    if n > 0 {
        indexes_counted(cat, (n - 1) as nat);
        assert(tables.drop_last() =~= cat.collections.take(n - 1).map_values(f));
        assert(tables.last() == table_of(cat.collections[n - 1]));
    }
}

proof fn indexes_listed(cat: CatalogV, n: nat, i: int)
    requires
        n <= cat.collections.len(),
        0 <= i < n,
    ensures
        ({
            let tables = cat.collections.take(n as int).map_values(|c: CollectionV| table_of(c));
            let t = table_of(cat.collections[i]);
            let rows = all_index_rows(RelationId::PgIndex, tables);
            let from = indexes_before(cat, i as nat) as int;
            &&& rows.len() == indexes_before(cat, n)
            &&& from + t.indexes.len() <= rows.len()
            &&& forall|j: int|
                0 <= j < t.indexes.len() ==> #[trigger] rows[from + j] == index_row(
                    RelationId::PgIndex,
                    t,
                    t.indexes[j],
                )
        }),
    decreases n,
{
    let f = |c: CollectionV| table_of(c);
    let tables = cat.collections.take(n as int).map_values(f);
    let front = cat.collections.take(n - 1).map_values(f);
    let last = table_of(cat.collections[n - 1]);
    assert(tables.drop_last() =~= front);
    assert(tables.last() == last);
    let before = all_index_rows(RelationId::PgIndex, front);
    let mine = last.indexes.map_values(|i: IndexV| index_row(RelationId::PgIndex, last, i));
    let rows = all_index_rows(RelationId::PgIndex, tables);
    assert(rows =~= before + mine);
    indexes_counted(cat, (n - 1) as nat);
    let t = table_of(cat.collections[i]);
    let from = indexes_before(cat, i as nat) as int;
    if i < n - 1 {
        indexes_listed(cat, (n - 1) as nat, i);
        assert forall|j: int| 0 <= j < t.indexes.len() implies #[trigger] rows[from + j]
            == index_row(RelationId::PgIndex, t, t.indexes[j]) by {
            assert(rows[from + j] == before[from + j]);
        }
    } else {
        assert forall|j: int| 0 <= j < t.indexes.len() implies #[trigger] rows[from + j]
            == index_row(RelationId::PgIndex, t, t.indexes[j]) by {
            assert(rows[from + j] == mine[j]);
        }
    }
}

proof fn not_of_the_graph()
    ensures
        !of_the_graph(relation_with(RelationId::PgClass)),
        !of_the_graph(relation_with(RelationId::PgAttribute)),
        !of_the_graph(relation_with(RelationId::PgIndex)),
        !of_the_graph(relation_with(RelationId::PgConstraint)),
{
    reveal_strlit("db_edges");
    reveal_strlit("db_contexts");
    reveal_strlit("pg_class");
    reveal_strlit("pg_attribute");
    reveal_strlit("pg_index");
    reveal_strlit("pg_constraint");
    assert("db_edges"@[0] == 'd' && "db_contexts"@[0] == 'd');
    assert("pg_class"@[0] == 'p' && "pg_attribute"@[0] == 'p');
    assert("pg_index"@[0] == 'p' && "pg_constraint"@[0] == 'p');
}

/// Where the four relations hold what they agree on.
pub proof fn columns_are_called_so()
    ensures
        relation_columns(RelationId::PgClass)[0].name == "oid"@,
        relation_columns(RelationId::PgClass)[1].name == "relname"@,
        relation_columns(RelationId::PgClass)[13].name == "relnatts"@,
        relation_columns(RelationId::PgAttribute)[0].name == "attrelid"@,
        relation_columns(RelationId::PgAttribute)[5].name == "attnum"@,
        relation_columns(RelationId::PgIndex)[1].name == "indrelid"@,
        relation_columns(RelationId::PgConstraint)[7].name == "conrelid"@,
{
}

/// The relations of one catalog name a table by one number: the one that
/// `pg_class` gives it is the one that its columns, its indexes and its key
/// refer to. The columns of a table are numbered from one to as many as
/// `pg_class` says there are, in their order; a number past the last that a cell
/// can hold is that one. Together the columns, and the
/// indexes, of the tables are all that is listed.
pub proof fn relations_agree(cat: CatalogV, shape: Seq<EdgeRow>, truncated: bool, i: int)
    requires
        0 <= i < cat.collections.len(),
    ensures
        ({
            let classes = built(cat, shape, truncated, RelationId::PgClass);
            let attributes = built(cat, shape, truncated, RelationId::PgAttribute);
            let indexes = built(cat, shape, truncated, RelationId::PgIndex);
            let constraints = built(cat, shape, truncated, RelationId::PgConstraint);
            let c = cat.collections[i];
            let oid = number(oid_of(c.name));
            let first = columns_before(cat, i as nat) as int;
            let first_index = indexes_before(cat, i as nat) as int;
            &&& classes.len() == cat.collections.len()
            &&& classes[i][0] == oid
            &&& classes[i][1] == SqlValueV::Text(c.name)
            &&& classes[i][13] == number(stored_count(c.fields.len() as int + 1) as int)
            &&& attributes.len() == columns_before(cat, cat.collections.len())
            &&& first + c.fields.len() + 1 <= attributes.len()
            &&& forall|j: int|
                0 <= j <= c.fields.len() ==> (#[trigger] attributes[first + j])[0] == oid
                    && attributes[first + j][5] == number(stored_count(j + 1) as int)
            &&& indexes.len() == indexes_before(cat, cat.collections.len())
            &&& first_index + c.indexes.len() <= indexes.len()
            &&& forall|j: int|
                0 <= j < c.indexes.len() ==> (#[trigger] indexes[first_index + j])[1] == oid
            &&& constraints.len() == cat.collections.len()
            &&& constraints[i][7] == oid
        }),
{
    not_of_the_graph();
    let n = cat.collections.len();
    let s = snapshot_of(cat, shape, truncated, false);
    assert(cat.collections.take(n as int) =~= cat.collections);
    assert(s.tables =~= cat.collections.take(n as int).map_values(|c: CollectionV| table_of(c)));
    tables_listed(cat, n, i);
    indexes_listed(cat, n, i);
}

} // verus!
