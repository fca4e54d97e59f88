//! Semi-joins: the outer rows that an inner query names.

use vstd::prelude::*;
use crate::compile::env::{collection_of, id_from, id_named, Collection, CollectionV};
use crate::compile::log::{logged, Env, EnvV, Log, LogV, SemiCell, SemiFound, SemiFoundV};
use crate::error::{SqlError, SqlErrorV};
use crate::idset::{id_set, sorted_set};
use crate::lists::{take_all, take_next};
use crate::text::{cat3, cat5, cat7, lower, same, same_letters};
use crate::value::EntityId;

verus! {

/// How many outer rows one semi-join may name.
pub const MAX_SEMI_JOIN_IDS: usize = 1_048_576;

/// What a cell that names no outer row is called.
pub open spec fn cell_kind(cell: SemiCell) -> Seq<char> {
    match cell {
        SemiCell::Bool => "a boolean"@,
        SemiCell::Number => "a number"@,
        SemiCell::Array => "an array"@,
        _ => "an object"@,
    }
}

/// The sequences that a page's first cells name.
pub open spec fn page_ids(
    cells: Seq<SemiCell>,
    table: Seq<char>,
    column: Seq<char>,
) -> Result<Seq<u64>, SqlErrorV>
    decreases cells.len(),
{
    if cells.len() == 0 {
        Ok(Seq::empty())
    } else {
        match page_ids(cells.drop_last(), table, column) {
            Err(e) => Err(e),
            Ok(done) => match cells.last() {
                SemiCell::Nothing => Ok(done),
                SemiCell::Key(None) => Ok(done),
                SemiCell::Key(Some(id)) => Ok(done.push(id)),
                other => Err(
                    SqlErrorV::Unsupported(
                        "a semi-join over `"@ + table + "` projects `"@ + column
                            + "`, which holds "@ + cell_kind(other)
                            + ": an outer row is named by its external key, which is text, so there is no id this column could name"@,
                    ),
                ),
            },
        }
    }
}

/// The sequences that the first pages name, no more than the bound after any
/// of them.
pub open spec fn pages_ids(
    pages: Seq<Seq<SemiCell>>,
    table: Seq<char>,
    column: Seq<char>,
) -> Result<Seq<u64>, SqlErrorV>
    decreases pages.len(),
{
    if pages.len() == 0 {
        Ok(Seq::empty())
    } else {
        match pages_ids(pages.drop_last(), table, column) {
            Err(e) => Err(e),
            Ok(done) => match page_ids(pages.last(), table, column) {
                Err(e) => Err(e),
                Ok(ids) => if done.len() + ids.len() > MAX_SEMI_JOIN_IDS {
                    Err(
                        SqlErrorV::Engine(
                            "a semi-join over `"@ + table
                                + "` named more than 1048576 outer rows: the set is held in memory and is bounded, not spilled"@,
                        ),
                    )
                } else {
                    Ok(done + ids)
                },
            },
        }
    }
}

proof fn page_stops(cells: Seq<SemiCell>, table: Seq<char>, column: Seq<char>, n: int)
    requires
        0 <= n <= cells.len(),
        page_ids(cells.take(n), table, column) is Err,
    ensures
        page_ids(cells, table, column) == page_ids(cells.take(n), table, column),
    decreases cells.len() - n,
{
    if n < cells.len() {
        take_next(cells, n);
        page_stops(cells, table, column, n + 1);
    } else {
        take_all(cells);
    }
}

proof fn pages_stop(pages: Seq<Seq<SemiCell>>, table: Seq<char>, column: Seq<char>, n: int)
    requires
        0 <= n <= pages.len(),
        pages_ids(pages.take(n), table, column) is Err,
    ensures
        pages_ids(pages, table, column) == pages_ids(pages.take(n), table, column),
    decreases pages.len() - n,
{
    if n < pages.len() {
        take_next(pages, n);
        pages_stop(pages, table, column, n + 1);
    } else {
        take_all(pages);
    }
}

fn cell_error(cell: SemiCell, table: &str, column: &str) -> (r: SqlError)
    ensures
        r.deep_view() == SqlErrorV::Unsupported(
            "a semi-join over `"@ + table@ + "` projects `"@ + column@ + "`, which holds "@
                + cell_kind(cell)
                + ": an outer row is named by its external key, which is text, so there is no id this column could name"@,
        ),
{
    let kind = match cell {
        SemiCell::Bool => "a boolean",
        SemiCell::Number => "a number",
        SemiCell::Array => "an array",
        _ => "an object",
    };
    SqlError::Unsupported(
        cat7(
            "a semi-join over `",
            table,
            "` projects `",
            column,
            "`, which holds ",
            kind,
            ": an outer row is named by its external key, which is text, so there is no id this column could name",
        ),
    )
}

fn read_page(cells: &Vec<SemiCell>, table: &str, column: &str) -> (r: Result<Vec<u64>, SqlError>)
    ensures
        match page_ids(cells@, table@, column@) {
            Ok(ids) => r is Ok && r->Ok_0@ == ids,
            Err(e) => r is Err && r->Err_0.deep_view() == e,
        },
{
    let mut out: Vec<u64> = Vec::new();
    let mut i: usize = 0;
    assert(cells@.take(0) =~= Seq::<SemiCell>::empty());
    while i < cells.len()
        invariant
            i <= cells@.len(),
            page_ids(cells@.take(i as int), table@, column@) == Ok::<Seq<u64>, SqlErrorV>(out@),
        decreases cells@.len() - i,
    {
        proof {
            take_next(cells@, i as int);
        }
        match cells[i] {
            SemiCell::Nothing => {},
            SemiCell::Key(None) => {},
            SemiCell::Key(Some(id)) => {
                out.push(id);
            },
            other => {
                proof {
                    page_stops(cells@, table@, column@, i as int + 1);
                }
                return Err(cell_error(other, table, column));
            },
        }
        i = i + 1;
    }
    proof {
        take_all(cells@);
    }
    Ok(out)
}

fn read_pages(pages: &Vec<Vec<SemiCell>>, table: &str, column: &str) -> (r: Result<
    Vec<u64>,
    SqlError,
>)
    ensures
        match pages_ids(pages.deep_view(), table@, column@) {
            Ok(ids) => r is Ok && r->Ok_0@ == ids,
            Err(e) => r is Err && r->Err_0.deep_view() == e,
        },
{
    let ghost all = pages.deep_view();
    let mut out: Vec<u64> = Vec::new();
    let mut i: usize = 0;
    assert(all.take(0) =~= Seq::<Seq<SemiCell>>::empty());
    while i < pages.len()
        invariant
            i <= pages@.len(),
            all == pages.deep_view(),
            out@.len() <= MAX_SEMI_JOIN_IDS,
            pages_ids(all.take(i as int), table@, column@) == Ok::<Seq<u64>, SqlErrorV>(out@),
        decreases pages@.len() - i,
    {
        proof {
            take_next(all, i as int);
            assert(all[i as int] =~= pages@[i as int]@);
        }
        match read_page(&pages[i], table, column) {
            Err(e) => {
                proof {
                    pages_stop(all, table@, column@, i as int + 1);
                }
                return Err(e);
            },
            Ok(mut ids) => {
                if ids.len() > MAX_SEMI_JOIN_IDS - out.len() {
                    proof {
                        pages_stop(all, table@, column@, i as int + 1);
                    }
                    return Err(
                        SqlError::Engine(
                            cat3(
                                "a semi-join over `",
                                table,
                                "` named more than 1048576 outer rows: the set is held in memory and is bounded, not spilled",
                            ),
                        ),
                    );
                }
                out.append(&mut ids);
            },
        }
        i = i + 1;
    }
    proof {
        take_all(all);
    }
    Ok(out)
}

/// What was read for one semi-join, from position `i` on.
pub open spec fn found_from(
    list: Seq<SemiFoundV>,
    table: Seq<char>,
    column: Seq<char>,
    i: nat,
) -> Option<SemiFoundV>
    decreases list.len() - i,
{
    if i >= list.len() {
        None
    } else if list[i as int].table == table && list[i as int].column == column {
        Some(list[i as int])
    } else {
        found_from(list, table, column, i + 1)
    }
}

/// Rows of one collection, by their sequences.
pub open spec fn rows_of(c: u64, sequences: Seq<u64>) -> Seq<EntityId> {
    sequences.map_values(|n: u64| EntityId { collection: c, sequence: n })
}

pub open spec fn semi_notice(table: Seq<char>, column: Seq<char>, sets: bool) -> Seq<char> {
    "semi-join over `"@ + table + "."@ + column + if sets {
        "`: endpoint set -- one posting per distinct entity in one range"@
    } else {
        "`: edge walk -- this file carries no endpoint sets, so the walk seeks past each matched entity's edges (Database::backfill_endpoint_sets builds them once)"@
    }
}

/// The outer rows that `table.column` names, ascending and without duplicates.
/// An edge type has the columns `source` and `destination`.
pub open spec fn semi_join(
    env: EnvV,
    c: CollectionV,
    table: Seq<char>,
    column: Seq<char>,
    log: LogV,
) -> Result<(Seq<EntityId>, LogV), SqlErrorV> {
    let folded = log.refused(
        "a semi-join over `"@ + table + "."@ + column
            + "` builds its membership set while the statement compiles (QL_CONTRACT §3)"@,
    );
    let unread = SqlErrorV::Engine(
        "the rows of `"@ + table + "."@ + column + "` were not read"@,
    );
    match id_from(env.binder.catalog.edge_types, table, 0) {
        Some(_) => if lower(column) != lower("source"@) && lower(column) != lower("destination"@) {
            Err(
                SqlErrorV::Unsupported(
                    "a semi-join on `"@ + table + "."@ + column
                        + "`: an edge type's columns are `source` and `destination`, which are the two ends the edge keyspace is filed by"@,
                ),
            )
        } else {
            match found_from(env.semi, table, column, 0) {
                None => Err(unread),
                Some(found) => Ok(
                    (
                        rows_of(c.id, id_set(found.endpoints)),
                        folded.noted(
                            semi_notice(table, column, env.binder.catalog.endpoint_sets),
                        ),
                    ),
                ),
            }
        },
        None => match collection_of(env.binder.catalog, table) {
            Err(e) => Err(e),
            Ok(_) => match found_from(env.semi, table, column, 0) {
                None => Err(unread),
                Some(found) => match pages_ids(found.pages, table, column) {
                    Err(e) => Err(e),
                    Ok(ids) => Ok((rows_of(c.id, id_set(ids)), folded)),
                },
            },
        },
    }
}

fn find_read<'a>(list: &'a Vec<SemiFound>, table: &str, column: &str) -> (r: Option<&'a SemiFound>)
    ensures
        match r {
            Some(found) => found_from(list.deep_view(), table@, column@, 0) == Some(
                found.deep_view(),
            ),
            None => found_from(list.deep_view(), table@, column@, 0) is None,
        },
{
    let mut i: usize = 0;
    while i < list.len()
        invariant
            i <= list@.len(),
            found_from(list.deep_view(), table@, column@, i as nat) == found_from(
                list.deep_view(),
                table@,
                column@,
                0,
            ),
        decreases list@.len() - i,
    {
        if same(list[i].table.as_str(), table) && same(list[i].column.as_str(), column) {
            return Some(&list[i]);
        }
        i = i + 1;
    }
    None
}

fn to_rows(c: u64, sequences: &Vec<u64>) -> (r: Vec<EntityId>)
    ensures
        r@ == rows_of(c, sequences@),
{
    let mut out: Vec<EntityId> = Vec::new();
    let mut i: usize = 0;
    while i < sequences.len()
        invariant
            i <= sequences@.len(),
            out@.len() == i,
            forall|k: int|
                0 <= k < i ==> out@[k] == (EntityId { collection: c, sequence: sequences@[k] }),
        decreases sequences@.len() - i,
    {
        out.push(EntityId { collection: c, sequence: sequences[i] });
        i = i + 1;
    }
    assert(out@ =~= rows_of(c, sequences@));
    out
}

/// Outer rows as a filter holds them.
#[derive(Debug)]
pub struct Rows {
    pub ids: Vec<EntityId>,
}

impl DeepView for Rows {
    type V = Seq<EntityId>;

    open spec fn deep_view(&self) -> Seq<EntityId> {
        self.ids@
    }
}

impl<'a> Env<'a> {
    /// The outer rows of a semi-join.
    pub fn semi_join(&self, c: &Collection, table: &str, column: &str, log: &mut Log) -> (r: Result<
        Rows,
        SqlError,
    >)
        ensures
            logged(
                r,
                *final(log),
                semi_join(
                    self.deep_view(),
                    c.deep_view(),
                    table@,
                    column@,
                    old(log).deep_view(),
                ),
            ),
    {
        log.folds_reason(
            cat5(
                "a semi-join over `",
                table,
                ".",
                column,
                "` builds its membership set while the statement compiles (QL_CONTRACT §3)",
            ),
        );
        let catalog = self.binder.catalog;
        if id_named(&catalog.edge_types, table).is_some() {
            if !same_letters(column, "source") && !same_letters(column, "destination") {
                return Err(
                    SqlError::Unsupported(
                        cat5(
                            "a semi-join on `",
                            table,
                            ".",
                            column,
                            "`: an edge type's columns are `source` and `destination`, which are the two ends the edge keyspace is filed by",
                        ),
                    ),
                );
            }
            return match find_read(self.semi, table, column) {
                None => Err(
                    SqlError::Engine(cat5("the rows of `", table, ".", column, "` were not read")),
                ),
                Some(found) => {
                    log.note(
                        cat5(
                            "semi-join over `",
                            table,
                            ".",
                            column,
                            if catalog.endpoint_sets {
                                "`: endpoint set -- one posting per distinct entity in one range"
                            } else {
                                "`: edge walk -- this file carries no endpoint sets, so the walk seeks past each matched entity's edges (Database::backfill_endpoint_sets builds them once)"
                            },
                        ),
                    );
                    Ok(Rows { ids: to_rows(c.id, &sorted_set(&found.endpoints)) })
                },
            };
        }
        let _inner = catalog.collection(table)?;
        match find_read(self.semi, table, column) {
            None => Err(
                SqlError::Engine(cat5("the rows of `", table, ".", column, "` were not read")),
            ),
            Some(found) => {
                let ids = read_pages(&found.pages, table, column)?;
                Ok(Rows { ids: to_rows(c.id, &sorted_set(&ids)) })
            },
        }
    }
}

} // verus!
