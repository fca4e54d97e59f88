//! `UPDATE` and `DELETE` at a condition.

use vstd::prelude::*;
use crate::compile::dml::{column_value, key_update, DOCUMENT};
use crate::compile::env::{
    collection_of, kind_of, Collection, CollectionV, KEY_COLUMN,
};
use crate::compile::log::{logged, Env, EnvV, Log, LogV};
use crate::compile::plan::{
    CandidateDriver, CompiledSet, CompiledSetV, OwnedFilter, OwnedFilterV, WritePlan, WritePlanV,
};
use crate::compile::predicates::{exprs_ok, Filters};
use crate::compile::project::row_function;
use crate::compile::select::{
    any_false, any_key_filter, has_false, has_key_filter, select_filters, FROM_ALL,
};
use crate::error::{SqlError, SqlErrorV, Tier};
use crate::lists::{take_all, take_next};
use crate::stmt::{
    DeleteWhere, DeleteWhereV, SetValue, SetValueV, UpdateWhere, UpdateWhereV,
};
use crate::text::{cat4, same, texts};

verus! {

/// The compiled assignments, and the fields that their expressions read.
pub struct SetsV {
    pub sets: Seq<(Seq<char>, CompiledSetV)>,
    pub fields: Seq<Seq<char>>,
}

/// The compiled assignments, and the fields that their expressions read.
#[derive(Debug)]
pub struct Sets {
    pub sets: Vec<(String, CompiledSet)>,
    pub fields: Vec<String>,
}

impl DeepView for Sets {
    type V = SetsV;

    open spec fn deep_view(&self) -> SetsV {
        SetsV { sets: self.sets.deep_view(), fields: texts(self.fields@) }
    }
}

/// One assignment: a constant is held against the column's kind, and an
/// expression is compiled over the same row.
pub open spec fn set_of(
    env: EnvV,
    c: CollectionV,
    column: Seq<char>,
    value: SetValueV,
    fields: Seq<Seq<char>>,
    log: LogV,
) -> Result<(CompiledSetV, Seq<Seq<char>>, LogV), SqlErrorV> {
    if column == KEY_COLUMN@ {
        Err(key_update())
    } else {
        match value {
            SetValueV::Lit(l) => match column_value(env.binder, c, l, column) {
                Err(e) => Err(e),
                Ok(v) => Ok((CompiledSetV::Lit(v), fields, log.folded(l, DOCUMENT@))),
            },
            SetValueV::Row(expr) => match kind_of(c, column) {
                Err(e) => Err(e),
                Ok(kind) => match row_function(env, c, expr, fields, log) {
                    Err(e) => Err(e),
                    Ok((expr, fields, log)) => Ok((CompiledSetV::Row { expr, kind }, fields, log)),
                },
            },
        }
    }
}

/// The assignments of an `UPDATE`, in order.
pub open spec fn sets_of(
    env: EnvV,
    c: CollectionV,
    list: Seq<(Seq<char>, SetValueV)>,
    log: LogV,
) -> Result<(SetsV, LogV), SqlErrorV>
    decreases list.len(),
{
    if list.len() == 0 {
        Ok((SetsV { sets: Seq::empty(), fields: Seq::empty() }, log))
    } else {
        match sets_of(env, c, list.drop_last(), log) {
            Err(e) => Err(e),
            Ok((done, log)) => match set_of(
                env,
                c,
                list.last().0,
                list.last().1,
                done.fields,
                log,
            ) {
                Err(e) => Err(e),
                Ok((set, fields, log)) => Ok(
                    (SetsV { sets: done.sets.push((list.last().0, set)), fields }, log),
                ),
            },
        }
    }
}

proof fn sets_stop(
    env: EnvV,
    c: CollectionV,
    list: Seq<(Seq<char>, SetValueV)>,
    log: LogV,
    n: int,
)
    requires
        0 <= n <= list.len(),
        sets_of(env, c, list.take(n), log) is Err,
    ensures
        sets_of(env, c, list, log) == sets_of(env, c, list.take(n), log),
    decreases list.len() - n,
{
    if n < list.len() {
        take_next(list, n);
        sets_stop(env, c, list, log, n + 1);
    } else {
        take_all(list);
    }
}

/// A write whose condition is FALSE writes nothing.
pub open spec fn nothing_written(statement: Seq<char>, table: Seq<char>) -> Seq<char> {
    statement + " "@ + table
        + ": a constant FALSE predicate, so no row is a candidate and nothing was written"@
}

/// The driver of a write at a condition.
pub open spec fn write_driver(filters: Seq<OwnedFilterV>) -> CandidateDriver {
    if any_key_filter(filters) {
        CandidateDriver::Keys
    } else {
        CandidateDriver::Auto
    }
}

/// `UPDATE` at a condition.
pub open spec fn update_where_of(env: EnvV, u: UpdateWhereV, log: LogV) -> Result<
    (WritePlanV, LogV),
    SqlErrorV,
> {
    match collection_of(env.binder.catalog, u.table) {
        Err(e) => Err(e),
        Ok(c) => match sets_of(env, c, u.assignments, log) {
            Err(e) => Err(e),
            Ok((sets, log)) => match select_filters(env, c, u.predicates, Seq::empty(), log) {
                Err(e) => Err(e),
                Ok((filters, log)) => Ok(
                    (
                        if has_false(u.predicates) {
                            WritePlanV::Notice(nothing_written("UPDATE"@, u.table))
                        } else {
                            WritePlanV::UpdateWhere {
                                collection: c.id,
                                filters,
                                sets: sets.sets,
                                fields: sets.fields,
                                driver: write_driver(filters),
                            }
                        },
                        log,
                    ),
                ),
            },
        },
    }
}

/// `DELETE` at a condition.
pub open spec fn delete_where_of(env: EnvV, d: DeleteWhereV, log: LogV) -> Result<
    (WritePlanV, LogV),
    SqlErrorV,
> {
    match d.table {
        None => Err(
            SqlErrorV::Refused { keyword: "FROM ALL"@, tier: Tier::Two, reason: FROM_ALL@ },
        ),
        Some(table) => match collection_of(env.binder.catalog, table) {
            Err(e) => Err(e),
            Ok(c) => match select_filters(env, c, d.predicates, Seq::empty(), log) {
                Err(e) => Err(e),
                Ok((filters, log)) => Ok(
                    (
                        if has_false(d.predicates) {
                            WritePlanV::Notice(nothing_written("DELETE FROM"@, table))
                        } else {
                            WritePlanV::DeleteWhere {
                                collection: c.id,
                                filters,
                                cascade: d.cascade,
                                driver: write_driver(filters),
                            }
                        },
                        log,
                    ),
                ),
            },
        },
    }
}

fn driver_for(filters: &Vec<OwnedFilter>) -> (r: CandidateDriver)
    ensures
        r == write_driver(filters.deep_view()),
{
    if has_key_filter(filters) {
        CandidateDriver::Keys
    } else {
        CandidateDriver::Auto
    }
}

fn no_filters() -> (r: Filters)
    ensures
        r.deep_view() == Seq::<OwnedFilterV>::empty(),
{
    let list: Vec<OwnedFilter> = Vec::new();
    assert(list.deep_view() =~= Seq::<OwnedFilterV>::empty());
    Filters { list }
}

impl<'a> Env<'a> {
    fn set(
        &self,
        c: &Collection,
        column: &str,
        value: &SetValue,
        fields: &mut Vec<String>,
        log: &mut Log,
    ) -> (r: Result<CompiledSet, SqlError>)
        ensures
            match set_of(
                self.deep_view(),
                c.deep_view(),
                column@,
                value.deep_view(),
                texts(old(fields)@),
                old(log).deep_view(),
            ) {
                Ok((s, f, l)) => r is Ok && r->Ok_0.deep_view() == s && texts(final(fields)@) == f
                    && final(log).deep_view() == l,
                Err(e) => r is Err && r->Err_0.deep_view() == e,
            },
    {
        if same(column, KEY_COLUMN) {
            return Err(
                SqlError::unsupported(
                    "UPDATE ... SET _key = ...: the external key is the row's identity; a new key is a new row (INSERT) and the old one is a DELETE",
                ),
            );
        }
        match value {
            SetValue::Lit(l) => {
                let v = self.column_value(c, l, column)?;
                log.folds(l, DOCUMENT);
                Ok(CompiledSet::Lit(v))
            },
            SetValue::Row(expr) => {
                let kind = c.kind_of(column)?;
                let expr = self.row_function(c, expr, fields, log)?;
                Ok(CompiledSet::Row { expr, kind })
            },
        }
    }

    fn sets(&self, c: &Collection, list: &Vec<(String, SetValue)>, log: &mut Log) -> (r: Result<
        Sets,
        SqlError,
    >)
        ensures
            logged(
                r,
                *final(log),
                sets_of(self.deep_view(), c.deep_view(), list.deep_view(), old(log).deep_view()),
            ),
    {
        let ghost all = list.deep_view();
        let ghost env = self.deep_view();
        let ghost start = log.deep_view();
        let mut sets: Vec<(String, CompiledSet)> = Vec::new();
        let mut fields: Vec<String> = Vec::new();
        let mut i: usize = 0;
        assert(all.take(0) =~= Seq::<(Seq<char>, SetValueV)>::empty());
        assert(sets.deep_view() =~= Seq::<(Seq<char>, CompiledSetV)>::empty());
        assert(texts(fields@) =~= Seq::<Seq<char>>::empty());
        while i < list.len()
            invariant
                i <= list@.len(),
                all == list.deep_view(),
                env == self.deep_view(),
                start == old(log).deep_view(),
                sets_of(env, c.deep_view(), all.take(i as int), start) == Ok::<
                    (SetsV, LogV),
                    SqlErrorV,
                >(
                    (
                        SetsV { sets: sets.deep_view(), fields: texts(fields@) },
                        log.deep_view(),
                    ),
                ),
            decreases list@.len() - i,
        {
            proof {
                take_next(all, i as int);
                assert(all[i as int] == list@[i as int].deep_view());
            }
            match self.set(c, list[i].0.as_str(), &list[i].1, &mut fields, log) {
                Ok(set) => {
                    let ghost before = sets.deep_view();
                    let ghost view = (list@[i as int].0@, set.deep_view());
                    sets.push((list[i].0.clone(), set));
                    assert(sets.deep_view() =~= before.push(view));
                },
                Err(e) => {
                    proof {
                        sets_stop(env, c.deep_view(), all, start, i as int + 1);
                    }
                    return Err(e);
                },
            }
            i = i + 1;
        }
        proof {
            take_all(all);
        }
        Ok(Sets { sets, fields })
    }

    /// `UPDATE` at a condition.
    pub fn update_where(&self, u: &UpdateWhere, log: &mut Log) -> (r: Result<WritePlan, SqlError>)
        requires
            exprs_ok(u.deep_view().predicates),
        ensures
            logged(
                r,
                *final(log),
                update_where_of(self.deep_view(), u.deep_view(), old(log).deep_view()),
            ),
    {
        let c = self.binder.catalog.collection(u.table.as_str())?;
        let sets = self.sets(c, &u.assignments, log)?;
        let filters = self.select_filters(c, &u.predicates, no_filters(), log)?;
        if any_false(&u.predicates) {
            return Ok(
                WritePlan::Notice(
                    cat4(
                        "UPDATE",
                        " ",
                        u.table.as_str(),
                        ": a constant FALSE predicate, so no row is a candidate and nothing was written",
                    ),
                ),
            );
        }
        let driver = driver_for(&filters.list);
        Ok(
            WritePlan::UpdateWhere {
                collection: c.id,
                filters: filters.list,
                sets: sets.sets,
                fields: sets.fields,
                driver,
            },
        )
    }

    /// `DELETE` at a condition.
    pub fn delete_where(&self, d: &DeleteWhere, log: &mut Log) -> (r: Result<WritePlan, SqlError>)
        requires
            exprs_ok(d.deep_view().predicates),
        ensures
            logged(
                r,
                *final(log),
                delete_where_of(self.deep_view(), d.deep_view(), old(log).deep_view()),
            ),
    {
        match &d.table {
            None => Err(SqlError::refused("FROM ALL", Tier::Two, FROM_ALL)),
            Some(table) => {
                let c = self.binder.catalog.collection(table.as_str())?;
                let filters = self.select_filters(c, &d.predicates, no_filters(), log)?;
                if any_false(&d.predicates) {
                    return Ok(
                        WritePlan::Notice(
                            cat4(
                                "DELETE FROM",
                                " ",
                                table.as_str(),
                                ": a constant FALSE predicate, so no row is a candidate and nothing was written",
                            ),
                        ),
                    );
                }
                let driver = driver_for(&filters.list);
                Ok(
                    WritePlan::DeleteWhere {
                        collection: c.id,
                        filters: filters.list,
                        cascade: d.cascade,
                        driver,
                    },
                )
            },
        }
    }
}

} // verus!
