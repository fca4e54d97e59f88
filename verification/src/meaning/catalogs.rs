//! Which rows of a catalog view a statement answers with.

use vstd::prelude::*;
use crate::ast::{CmpOp, ExprV, LiteralV, PredicateV};
use crate::catalog::relations::{column_from, CatalogColumnV, CatalogRelationV};
use crate::compile::bind::{value_of, BinderV};
use crate::compile::listing::{kept_rows, limited, projected_row, projected_rows, CatalogOutputV};
use crate::compile::log::LogV;
use crate::compile::rows::{
    all_match, any_match, is_member, row_matches, value_order, RowFilterV,
};
use crate::compile::views::{
    catalog_column_of, catalog_filter_of, catalog_filters_of, catalog_leaf_of, catalog_values_of,
};
use crate::meaning::condition::so;
use crate::scan::{text_order, Order};
use crate::text::lower as small;
use crate::value::{row_value, SqlValueV};

verus! {

// ── the order of values ──────────────────────────────────────────────────

/// The other way round.
pub open spec fn turned(o: Option<Order>) -> Option<Order> {
    match o {
        Some(Order::Less) => Some(Order::Greater),
        Some(Order::Greater) => Some(Order::Less),
        other => other,
    }
}

/// Whole numbers are ordered by size, FALSE stands before TRUE, texts are
/// ordered as texts; a text that writes a number or a truth value is ordered
/// as that one.
pub proof fn values_are_ordered(x: i64, y: i64, p: bool, q: bool, s: Seq<char>, u: Seq<char>)
    ensures
        value_order(SqlValueV::Int(x), SqlValueV::Int(y)) == Some(Order::Less) <==> x < y,
        value_order(SqlValueV::Int(x), SqlValueV::Int(y)) == Some(Order::Equal) <==> x == y,
        value_order(SqlValueV::Int(x), SqlValueV::Int(y)) == Some(Order::Greater) <==> x > y,
        value_order(SqlValueV::Bool(p), SqlValueV::Bool(q)) == Some(Order::Less) <==> !p && q,
        value_order(SqlValueV::Bool(p), SqlValueV::Bool(q)) == Some(Order::Equal) <==> p == q,
        value_order(SqlValueV::Bool(p), SqlValueV::Bool(q)) == Some(Order::Greater) <==> p && !q,
        value_order(SqlValueV::Text(s), SqlValueV::Text(u)) == Some(text_order(s, u)),
        value_order(SqlValueV::Null, SqlValueV::Int(x)) is None,
        value_order(SqlValueV::Missing, SqlValueV::Text(s)) is None,
        value_order(SqlValueV::Text(s), SqlValueV::Int(y)) == turned(
            value_order(SqlValueV::Int(y), SqlValueV::Text(s)),
        ),
        value_order(SqlValueV::Text(s), SqlValueV::Bool(q)) == turned(
            value_order(SqlValueV::Bool(q), SqlValueV::Text(s)),
        ),
{
}

// ── conditions ───────────────────────────────────────────────────────────

/// Whether a comparison of two values can be made and holds.
pub open spec fn surely(op: CmpOp, a: SqlValueV, b: SqlValueV) -> bool {
    value_order(a, b) is Some && so(op, value_order(a, b))
}

/// The value that is written.
pub open spec fn meant(b: BinderV, l: LiteralV) -> SqlValueV {
    row_value(value_of(b, l)->Ok_0)
}

/// Whether a condition is true of a row, by what its columns hold; a column goes
/// by its name in either case.
pub open spec fn holds_of(b: BinderV, cell: spec_fn(Seq<char>) -> SqlValueV, e: ExprV) -> bool
    decreases e,
{
    match e {
        ExprV::Leaf(PredicateV::Constant(x)) => x,
        ExprV::Leaf(PredicateV::Compare { column, op, value }) => surely(
            op,
            cell(small(column)),
            meant(b, value),
        ),
        ExprV::Leaf(PredicateV::Between { column, lower, upper }) => surely(
            CmpOp::Ge,
            cell(small(column)),
            meant(b, lower),
        ) && surely(CmpOp::Le, cell(small(column)), meant(b, upper)),
        ExprV::Leaf(PredicateV::InList { column, values }) => exists|i: int|
            0 <= i < values.len() && surely(CmpOp::Eq, cell(small(column)), meant(b, #[trigger] values[i])),
        ExprV::Leaf(PredicateV::IsNull { column, negated }) => negated != (cell(small(column)) is Null
            || cell(small(column)) is Missing),
        ExprV::Leaf(_) => false,
        ExprV::Not(inner) => !holds_of(b, cell, *inner),
        ExprV::And(parts) => all_hold(b, cell, parts),
        ExprV::Or(parts) => one_holds(b, cell, parts),
    }
}

pub open spec fn all_hold(b: BinderV, cell: spec_fn(Seq<char>) -> SqlValueV, parts: Seq<ExprV>) -> bool
    decreases parts,
{
    parts.len() == 0 || (all_hold(b, cell, parts.drop_last()) && holds_of(b, cell, parts.last()))
}

pub open spec fn one_holds(b: BinderV, cell: spec_fn(Seq<char>) -> SqlValueV, parts: Seq<ExprV>) -> bool
    decreases parts,
{
    parts.len() > 0 && (one_holds(b, cell, parts.drop_last()) || holds_of(b, cell, parts.last()))
}

/// Whether a row holds in each column of a relation what `cell` gives by the
/// column's name, in lower case.
pub open spec fn laid_out(
    r: CatalogRelationV,
    cell: spec_fn(Seq<char>) -> SqlValueV,
    row: Seq<SqlValueV>,
) -> bool {
    &&& row.len() == r.columns.len()
    &&& r.columns.len() <= usize::MAX
    &&& forall|i: int| 0 <= i < row.len() ==> row[i] == cell(
            small((#[trigger] r.columns[i]).name),
        )
}

proof fn column_is_found(columns: Seq<CatalogColumnV>, name: Seq<char>, i: nat)
    requires
        column_from(columns, name, i) is Some,
    ensures
        ({
            let k = column_from(columns, name, i)->0;
            k < columns.len() && small(columns[k as int].name) == small(name)
        }),
    decreases columns.len() - i,
{
    if small(columns[i as int].name) != small(name) {
        column_is_found(columns, name, i + 1);
    }
}

proof fn cell_is_read(
    r: CatalogRelationV,
    cell: spec_fn(Seq<char>) -> SqlValueV,
    row: Seq<SqlValueV>,
    name: Seq<char>,
)
    requires
        laid_out(r, cell, row),
        catalog_column_of(r, name) is Ok,
    ensures
        row[catalog_column_of(r, name)->Ok_0 as int] == cell(small(name)),
{
    column_is_found(r.columns, name, 0);
    let k = catalog_column_of(r, name)->Ok_0 as int;
    assert(row[k] == cell(small(r.columns[k].name)));
}

proof fn values_are_meant(b: BinderV, list: Seq<LiteralV>, log: LogV)
    requires
        catalog_values_of(b, list, log) is Ok,
    ensures
        ({
            let values = catalog_values_of(b, list, log)->Ok_0.0;
            values.len() == list.len() && forall|i: int|
                0 <= i < list.len() ==> values[i] == meant(b, #[trigger] list[i])
        }),
    decreases list.len(),
{
    if list.len() > 0 {
        values_are_meant(b, list.drop_last(), log);
        let values = catalog_values_of(b, list, log)->Ok_0.0;
        assert forall|i: int| 0 <= i < list.len() implies values[i] == meant(
            b,
            #[trigger] list[i],
        ) by {
            if i < list.len() - 1 {
                assert(list.drop_last()[i] == list[i]);
            }
        }
    }
}

proof fn leaf_is_kept(
    b: BinderV,
    r: CatalogRelationV,
    cell: spec_fn(Seq<char>) -> SqlValueV,
    row: Seq<SqlValueV>,
    p: PredicateV,
    log: LogV,
)
    requires
        laid_out(r, cell, row),
        catalog_leaf_of(b, r, p, log) is Ok,
    ensures
        row_matches(catalog_leaf_of(b, r, p, log)->Ok_0.0, row) <==> holds_of(
            b,
            cell,
            ExprV::Leaf(p),
        ),
{
    match p {
        PredicateV::Compare { column, .. } => {
            cell_is_read(r, cell, row, column);
        },
        PredicateV::Between { column, .. } => {
            cell_is_read(r, cell, row, column);
        },
        PredicateV::IsNull { column, negated } => {
            cell_is_read(r, cell, row, column);
            let at = catalog_column_of(r, column)->Ok_0;
            let f = RowFilterV::IsNull { at };
            assert(row_matches(f, row) == (row[at as int] is Null || row[at as int] is Missing));
        },
        PredicateV::InList { column, values } => {
            cell_is_read(r, cell, row, column);
            values_are_meant(b, values, log);
            let list = catalog_values_of(b, values, log)->Ok_0.0;
            if is_member(cell(small(column)), list) {
                let k = choose|k: int|
                    0 <= k < list.len() && crate::compile::rows::equals(cell(small(column)), #[trigger] list[k]);
                assert(surely(CmpOp::Eq, cell(small(column)), meant(b, values[k])));
            }
            if holds_of(b, cell, ExprV::Leaf(p)) {
                let k = choose|k: int|
                    0 <= k < values.len() && surely(
                        CmpOp::Eq,
                        cell(small(column)),
                        meant(b, #[trigger] values[k]),
                    );
                assert(crate::compile::rows::equals(cell(small(column)), list[k]));
            }
        },
        _ => {},
    }
}

/// The filter of a condition over a catalog view matches exactly the rows that
/// the condition is true of.
pub proof fn catalog_condition_keeps_its_meaning(
    b: BinderV,
    r: CatalogRelationV,
    cell: spec_fn(Seq<char>) -> SqlValueV,
    row: Seq<SqlValueV>,
    e: ExprV,
    log: LogV,
)
    requires
        laid_out(r, cell, row),
        catalog_filter_of(b, r, e, log) is Ok,
    ensures
        row_matches(catalog_filter_of(b, r, e, log)->Ok_0.0, row) <==> holds_of(b, cell, e),
    decreases e,
{
    match e {
        ExprV::Leaf(p) => {
            leaf_is_kept(b, r, cell, row, p, log);
        },
        ExprV::Not(inner) => {
            catalog_condition_keeps_its_meaning(b, r, cell, row, *inner, log);
        },
        ExprV::And(parts) => {
            catalog_conditions_keep_their_meaning(b, r, cell, row, parts, log);
        },
        ExprV::Or(parts) => {
            catalog_conditions_keep_their_meaning(b, r, cell, row, parts, log);
        },
    }
}

/// The filters of a list of conditions match together the rows that all of the
/// conditions are true of, and one of them matches where one is true.
pub proof fn catalog_conditions_keep_their_meaning(
    b: BinderV,
    r: CatalogRelationV,
    cell: spec_fn(Seq<char>) -> SqlValueV,
    row: Seq<SqlValueV>,
    parts: Seq<ExprV>,
    log: LogV,
)
    requires
        laid_out(r, cell, row),
        catalog_filters_of(b, r, parts, log) is Ok,
    ensures
        all_match(catalog_filters_of(b, r, parts, log)->Ok_0.0, row) <==> all_hold(b, cell, parts),
        any_match(catalog_filters_of(b, r, parts, log)->Ok_0.0, row) <==> one_holds(b, cell, parts),
    decreases parts,
{
    if parts.len() > 0 {
        let init = parts.drop_last();
        catalog_conditions_keep_their_meaning(b, r, cell, row, init, log);
        let (done, mid) = catalog_filters_of(b, r, init, log)->Ok_0;
        catalog_condition_keeps_its_meaning(b, r, cell, row, parts.last(), mid);
        let all = catalog_filters_of(b, r, parts, log)->Ok_0.0;
        assert(all.drop_last() =~= done);
    }
}

// ── rows ─────────────────────────────────────────────────────────────────

proof fn kept_is_a_row(
    rows: Seq<Seq<SqlValueV>>,
    test: spec_fn(Seq<SqlValueV>) -> bool,
    i: int,
)
    requires
        0 <= i < rows.filter(test).len(),
    ensures
        rows.contains(rows.filter(test)[i]),
    decreases rows.len(),
{
    reveal(Seq::filter);
    let init = rows.drop_last();
    let before = init.filter(test);
    if i < before.len() {
        kept_is_a_row(init, test, i);
        let k = choose|k: int| 0 <= k < init.len() && init[k] == before[i];
        assert(rows[k] == rows.filter(test)[i]);
    } else {
        assert(rows[rows.len() - 1] == rows.filter(test)[i]);
    }
}

/// The rows that are kept are those that match, and no others.
pub proof fn kept_rows_match(
    rows: Seq<Seq<SqlValueV>>,
    filters: Seq<RowFilterV>,
    row: Seq<SqlValueV>,
)
    ensures
        kept_rows(rows, filters).contains(row) <==> rows.contains(row) && all_match(filters, row),
{
    let test = |row: Seq<SqlValueV>| all_match(filters, row);
    broadcast use vstd::seq_lib::group_filter_ensures;
    let kept = rows.filter(test);
    if kept.contains(row) {
        let i = choose|i: int| 0 <= i < kept.len() && kept[i] == row;
        assert(test(kept[i]));
        kept_is_a_row(rows, test, i);
    }
    if rows.contains(row) && all_match(filters, row) {
        let i = choose|i: int| 0 <= i < rows.len() && rows[i] == row;
        assert(test(rows[i]));
        assert(kept.contains(rows[i]));
    }
}

/// `LIMIT n` leaves the first `n` rows.
pub proof fn limit_leaves_the_first(rows: Seq<Seq<SqlValueV>>, limit: Option<usize>)
    ensures
        limit is None ==> limited(rows, limit) == rows,
        limit is Some ==> limited(rows, limit).len() == if limit->0 < rows.len() {
            limit->0 as nat
        } else {
            rows.len()
        },
        forall|i: int|
            0 <= i < limited(rows, limit).len() ==> #[trigger] limited(rows, limit)[i] == rows[i],
{
}

/// A projected row holds in each output what that output names.
pub proof fn projection_keeps_its_columns(
    picks: Seq<CatalogOutputV>,
    row: Seq<SqlValueV>,
    n: nat,
)
    requires
        n <= picks.len(),
        projected_row(picks, row, n) is Ok,
    ensures
        projected_row(picks, row, n)->Ok_0.len() == n,
        forall|i: int|
            0 <= i < n ==> match #[trigger] picks[i] {
                CatalogOutputV::Column(at) => projected_row(picks, row, n)->Ok_0[i]
                    == row[at as int],
                CatalogOutputV::Row(x) => crate::meaning::expressions::value(x, row) == Some(
                    projected_row(picks, row, n)->Ok_0[i],
                ),
            },
    decreases n,
{
    if n > 0 {
        projection_keeps_its_columns(picks, row, (n - 1) as nat);
    }
}

/// Each row of an answer is the projection of the row in its place.
pub proof fn projections_keep_their_rows(picks: Seq<CatalogOutputV>, rows: Seq<Seq<SqlValueV>>)
    requires
        projected_rows(picks, rows) is Ok,
    ensures
        projected_rows(picks, rows)->Ok_0.len() == rows.len(),
        forall|i: int|
            0 <= i < rows.len() ==> projected_row(picks, #[trigger] rows[i], picks.len()) is Ok
                && projected_rows(picks, rows)->Ok_0[i] == projected_row(
                picks,
                rows[i],
                picks.len(),
            )->Ok_0,
    decreases rows.len(),
{
    if rows.len() > 0 {
        let init = rows.drop_last();
        projections_keep_their_rows(picks, init);
        assert forall|i: int| 0 <= i < rows.len() implies projected_row(
            picks,
            #[trigger] rows[i],
            picks.len(),
        ) is Ok && projected_rows(picks, rows)->Ok_0[i] == projected_row(
            picks,
            rows[i],
            picks.len(),
        )->Ok_0 by {
            if i < rows.len() - 1 {
                assert(init[i] == rows[i]);
            }
        }
    }
}

} // verus!
