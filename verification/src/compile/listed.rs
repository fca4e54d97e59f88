//! What the order of a statement over the catalog does to its rows.

use vstd::prelude::*;
use crate::catalog::contents::{relation_notice, relation_rows, rows_have_the_width};
use crate::catalog::relations::{relation_columns, relation_with, CatalogRelationV, RelationId};
use crate::catalog::snapshot::SnapshotV;
use crate::compile::bind::BinderV;
use crate::compile::listing::{
    catalog_select_of, kept_rows, noticed, picks_of, projected_row, projected_rows, star_picks,
    CatalogOutputV, PicksV,
};
use crate::compile::log::LogV;
use crate::compile::ordered::{one_kind, sorted_is_in_order};
use crate::compile::rows::{row_order, sorted_is_permutation, sorted_rows, value_order, RowFilterV};
use crate::compile::views::{catalog_column_of, catalog_filters_of};
use crate::error::SqlErrorV;
use crate::scan::Order;
use crate::stmt::{OrderKeyV, SelectItemV, SelectStmtV};
use crate::value::SqlValueV;

verus! {

/// Whether a statement answers every column of every row that its condition
/// leaves.
pub open spec fn answers_all(s: SelectStmtV) -> bool {
    s.items == seq![(SelectItemV::Star, None::<Seq<char>>)] && !s.distinct && s.limit is None
}

/// A statement with another order.
pub open spec fn ordered_by(s: SelectStmtV, order: Option<OrderKeyV>) -> SelectStmtV {
    SelectStmtV { order, ..s }
}

/// Whether every row has a width.
spec fn have_width(rows: Seq<Seq<SqlValueV>>, n: nat) -> bool {
    forall|k: int| 0 <= k < rows.len() ==> (#[trigger] rows[k]).len() == n
}

proof fn few_columns(id: RelationId)
    ensures
        relation_columns(id).len() <= 25,
{
}

proof fn star_picks_all(r: CatalogRelationV, n: nat)
    requires
        n <= usize::MAX,
    ensures
        ({
            let none = PicksV { columns: Seq::empty(), picks: Seq::empty() };
            let picks = star_picks(r, none, n).picks;
            &&& picks.len() == n
            &&& forall|k: int| 0 <= k < n ==> #[trigger] picks[k] == CatalogOutputV::Column(
                k as usize,
            )
        }),
    decreases n,
{
    if n > 0 {
        star_picks_all(r, (n - 1) as nat);
    }
}

proof fn row_projects(picks: Seq<CatalogOutputV>, row: Seq<SqlValueV>, n: nat)
    requires
        n <= picks.len(),
        picks.len() == row.len(),
        picks.len() <= usize::MAX,
        forall|k: int| 0 <= k < picks.len() ==> #[trigger] picks[k] == CatalogOutputV::Column(
            k as usize,
        ),
    ensures
        projected_row(picks, row, n) == Ok::<Seq<SqlValueV>, SqlErrorV>(row.take(n as int)),
    decreases n,
{
    if n > 0 {
        row_projects(picks, row, (n - 1) as nat);
        assert(picks[n - 1] == CatalogOutputV::Column((n - 1) as usize));
        assert(row.take(n as int) =~= row.take(n - 1).push(row[n - 1]));
    } else {
        assert(row.take(0) =~= Seq::empty());
    }
}

proof fn rows_project(picks: Seq<CatalogOutputV>, rows: Seq<Seq<SqlValueV>>)
    requires
        have_width(rows, picks.len()),
        picks.len() <= usize::MAX,
        forall|k: int| 0 <= k < picks.len() ==> #[trigger] picks[k] == CatalogOutputV::Column(
            k as usize,
        ),
    ensures
        projected_rows(picks, rows) == Ok::<Seq<Seq<SqlValueV>>, SqlErrorV>(rows),
    decreases rows.len(),
{
    if rows.len() > 0 {
        assert(have_width(rows.drop_last(), picks.len())) by {
            assert forall|k: int| 0 <= k < rows.drop_last().len() implies (
            #[trigger] rows.drop_last()[k]).len() == picks.len() by {
                assert(rows[k].len() == picks.len());
            }
        }
        rows_project(picks, rows.drop_last());
        assert(rows[rows.len() - 1].len() == picks.len());
        row_projects(picks, rows.last(), picks.len());
        assert(rows.last().take(picks.len() as int) =~= rows.last());
        assert(rows.drop_last().push(rows.last()) =~= rows);
    } else {
        assert(rows =~= Seq::empty());
    }
}

proof fn filtered_width(rows: Seq<Seq<SqlValueV>>, filters: Seq<RowFilterV>, n: nat)
    requires
        have_width(rows, n),
    ensures
        have_width(kept_rows(rows, filters), n),
    decreases rows.len(),
{
    reveal(Seq::filter);
    if rows.len() > 0 {
        let front = rows.drop_last();
        assert(have_width(front, n)) by {
            assert forall|k: int| 0 <= k < front.len() implies (#[trigger] front[k]).len() == n by {
                assert(rows[k].len() == n);
            }
        }
        filtered_width(front, filters, n);
        assert(rows[rows.len() - 1].len() == n);
        let done = kept_rows(front, filters);
        let all = kept_rows(rows, filters);
        assert(all == done || all == done.push(rows.last()));
    }
}

proof fn permuted_width(rows: Seq<Seq<SqlValueV>>, other: Seq<Seq<SqlValueV>>, n: nat)
    requires
        have_width(rows, n),
        other.to_multiset() == rows.to_multiset(),
    ensures
        have_width(other, n),
{
    broadcast use vstd::seq_lib::group_to_multiset_ensures;

    assert forall|k: int| 0 <= k < other.len() implies (#[trigger] other[k]).len() == n by {
        assert(other.to_multiset().count(other[k]) > 0);
        assert(rows.contains(other[k]));
    }
}

/// Without an order, a statement that answers all answers the rows that its
/// condition leaves; with one, it answers them sorted, or turned round.
proof fn answers(
    b: BinderV,
    snap: SnapshotV,
    id: RelationId,
    s: SelectStmtV,
    explain: bool,
    log: LogV,
)
    requires
        answers_all(s),
        catalog_select_of(b, snap, id, s, explain, log) is Ok,
    ensures
        ({
            let r = relation_with(id);
            let filters = catalog_filters_of(
                b,
                r,
                s.predicates,
                noticed(log, relation_notice(id, snap)),
            )->Ok_0.0;
            let kept = kept_rows(relation_rows(id, snap), filters);
            let rows = catalog_select_of(b, snap, id, s, explain, log)->Ok_0.0.rows;
            match s.order {
                None => rows == kept,
                Some(OrderKeyV::Column { column, descending }) => {
                    let at = catalog_column_of(r, column)->Ok_0;
                    &&& catalog_column_of(r, column) is Ok
                    &&& rows == if descending {
                        sorted_rows(kept, at as int).reverse()
                    } else {
                        sorted_rows(kept, at as int)
                    }
                },
                _ => false,
            }
        }),
{
    let r = relation_with(id);
    let n = relation_columns(id).len();
    let built = relation_rows(id, snap);
    few_columns(id);
    assert forall|k: int| 0 <= k < built.len() implies (#[trigger] built[k]).len() == n by {
        rows_have_the_width(id, snap, k);
    }
    let filters = catalog_filters_of(
        b,
        r,
        s.predicates,
        noticed(log, relation_notice(id, snap)),
    )->Ok_0.0;
    let kept = kept_rows(built, filters);
    filtered_width(built, filters, n);
    star_picks_all(r, n);
    let list = picks_of(r, s.items)->Ok_0;
    assert(s.items.drop_last() =~= Seq::empty());
    assert(picks_of(r, s.items.drop_last()) == Ok::<PicksV, SqlErrorV>(
        PicksV { columns: Seq::empty(), picks: Seq::empty() },
    ));
    rows_project(list.picks, kept);
    if let Some(OrderKeyV::Column { column, descending }) = s.order {
        if let Ok(at) = catalog_column_of(r, column) {
            let sorted = sorted_rows(kept, at as int);
            sorted_is_permutation(kept, at as int);
            permuted_width(kept, sorted, n);
            rows_project(list.picks, sorted);
            assert(have_width(sorted.reverse(), n)) by {
                assert forall|k: int| 0 <= k < sorted.reverse().len() implies (
                #[trigger] sorted.reverse()[k]).len() == n by {
                    assert(sorted.reverse()[k] == sorted[sorted.len() - 1 - k]);
                }
            }
            rows_project(list.picks, sorted.reverse());
        }
    }
}

/// Of three statements over a relation that differ in their order alone, the
/// ascending one answers a permutation of what the unordered one answers, no
/// row of which stands behind one with a lower value in the column; and the
/// descending one answers the same rows, turned round. The values of the column
/// are of one kind, but for those that are absent.
pub proof fn catalog_order_is_a_sort(
    b: BinderV,
    snap: SnapshotV,
    id: RelationId,
    s: SelectStmtV,
    column: Seq<char>,
    explain: bool,
    log: LogV,
)
    requires
        answers_all(s),
        ({
            let up = Some(OrderKeyV::Column { column, descending: false });
            let plain = catalog_select_of(b, snap, id, ordered_by(s, None), explain, log);
            let at = catalog_column_of(relation_with(id), column);
            &&& plain is Ok
            &&& catalog_select_of(b, snap, id, ordered_by(s, up), explain, log) is Ok
            &&& one_kind(plain->Ok_0.0.rows, at->Ok_0 as int)
        }),
    ensures
        ({
            let up = Some(OrderKeyV::Column { column, descending: false });
            let down = Some(OrderKeyV::Column { column, descending: true });
            let at = catalog_column_of(relation_with(id), column)->Ok_0 as int;
            let u = catalog_select_of(b, snap, id, ordered_by(s, None), explain, log)->Ok_0.0.rows;
            let a = catalog_select_of(b, snap, id, ordered_by(s, up), explain, log)->Ok_0.0.rows;
            let d = catalog_select_of(b, snap, id, ordered_by(s, down), explain, log);
            &&& catalog_column_of(relation_with(id), column) is Ok
            &&& a.len() == u.len()
            &&& a.to_multiset() == u.to_multiset()
            &&& forall|i: int, j: int|
                #![trigger a[i], a[j]]
                0 <= i < j < a.len() ==> value_order(a[i][at], a[j][at]) != Some(Order::Greater)
            &&& d is Ok
            &&& d->Ok_0.0.rows == a.reverse()
        }),
{
    let up = Some(OrderKeyV::Column { column, descending: false });
    let down = Some(OrderKeyV::Column { column, descending: true });
    answers(b, snap, id, ordered_by(s, None), explain, log);
    answers(b, snap, id, ordered_by(s, up), explain, log);
    descending_answers(b, snap, id, s, column, explain, log);
    answers(b, snap, id, ordered_by(s, down), explain, log);
    let at = catalog_column_of(relation_with(id), column)->Ok_0 as int;
    let u = catalog_select_of(b, snap, id, ordered_by(s, None), explain, log)->Ok_0.0.rows;
    let a = catalog_select_of(b, snap, id, ordered_by(s, up), explain, log)->Ok_0.0.rows;
    sorted_is_permutation(u, at);
    sorted_is_in_order(u, at);
    assert forall|i: int, j: int|
        #![trigger a[i], a[j]]
        0 <= i < j < a.len() implies value_order(a[i][at], a[j][at]) != Some(Order::Greater) by {
        reveal(row_order);
        assert(row_order(a[i], a[j], at) != Order::Greater);
    }
}

/// A statement that can be answered in ascending order can be answered in
/// descending order.
proof fn descending_answers(
    b: BinderV,
    snap: SnapshotV,
    id: RelationId,
    s: SelectStmtV,
    column: Seq<char>,
    explain: bool,
    log: LogV,
)
    requires
        answers_all(s),
        catalog_select_of(
            b,
            snap,
            id,
            ordered_by(s, Some(OrderKeyV::Column { column, descending: false })),
            explain,
            log,
        ) is Ok,
    ensures
        catalog_select_of(
            b,
            snap,
            id,
            ordered_by(s, Some(OrderKeyV::Column { column, descending: true })),
            explain,
            log,
        ) is Ok,
{
    let r = relation_with(id);
    let n = relation_columns(id).len();
    let built = relation_rows(id, snap);
    few_columns(id);
    assert forall|k: int| 0 <= k < built.len() implies (#[trigger] built[k]).len() == n by {
        rows_have_the_width(id, snap, k);
    }
    let filters = catalog_filters_of(
        b,
        r,
        s.predicates,
        noticed(log, relation_notice(id, snap)),
    )->Ok_0.0;
    let kept = kept_rows(built, filters);
    filtered_width(built, filters, n);
    star_picks_all(r, n);
    assert(s.items.drop_last() =~= Seq::empty());
    assert(picks_of(r, s.items.drop_last()) == Ok::<PicksV, SqlErrorV>(
        PicksV { columns: Seq::empty(), picks: Seq::empty() },
    ));
    let at = catalog_column_of(r, column)->Ok_0 as int;
    let sorted = sorted_rows(kept, at);
    sorted_is_permutation(kept, at);
    permuted_width(kept, sorted, n);
    assert(have_width(sorted.reverse(), n)) by {
        assert forall|k: int| 0 <= k < sorted.reverse().len() implies (
        #[trigger] sorted.reverse()[k]).len() == n by {
            assert(sorted.reverse()[k] == sorted[sorted.len() - 1 - k]);
        }
    }
    rows_project(picks_of(r, s.items)->Ok_0.picks, sorted.reverse());
}

} // verus!
