//! From a statement to its plan.

use vstd::prelude::*;
use crate::ast::{Literal, LiteralV};
use crate::catalog::snapshot::{Snapshot, SnapshotV};
use crate::compile::aggregate::aggregate_of;
use crate::compile::bind::{i64_of, BinderV};
use crate::compile::define::{alter_table, create_index, create_table, drop_index, drop_table};
use crate::compile::describe::{explain_alter_of, explain_drop_of};
use crate::compile::dml::{delete_of, insert_of, update_of};
use crate::compile::listing::{
    catalog_select, catalog_select_of, catalog_source, catalog_source_of, RowsPlan, RowsPlanV,
};
use crate::compile::log::{logged, Env, EnvV, Log, LogV};
use crate::compile::modify::{delete_where_of, update_where_of};
use crate::compile::plan::{
    AggregatePlan, AggregatePlanV, SelectPlan, SelectPlanV, WritePlan, WritePlanV,
};
use crate::compile::predicates::exprs_ok;
use crate::compile::select::{select_of, select_ok};
use crate::compile::show::{session_rows, session_rows_of, show, show_of};
use crate::error::{SqlError, SqlErrorV};
use crate::parser::session::{engine_knob, is_engine_knob};
use crate::stmt::{SelectStmt, SelectStmtV, Stmt, StmtV, WithIndex, WithIndexV};
use crate::text::{cat3, cat5, decimal, decimal_i64, lower, same_letters, texts};

verus! {

/// A compiled statement.
#[derive(Debug)]
pub enum Plan {
    Select(SelectPlan),
    Explain(SelectPlan),
    Aggregate(AggregatePlan),
    ExplainAggregate(AggregatePlan),
    /// A statement that is answered from a list of rows.
    Rows(RowsPlan),
    Write(WritePlan),
    /// An `EXPLAIN` of a write, with the write.
    ExplainWrite(WritePlan),
    /// An `EXPLAIN` whose text is the plan.
    ExplainText(String),
}

pub enum PlanV {
    Select(SelectPlanV),
    Explain(SelectPlanV),
    Aggregate(AggregatePlanV),
    ExplainAggregate(AggregatePlanV),
    Rows(RowsPlanV),
    Write(WritePlanV),
    ExplainWrite(WritePlanV),
    ExplainText(Seq<char>),
}

impl DeepView for Plan {
    type V = PlanV;

    open spec fn deep_view(&self) -> PlanV {
        match *self {
            Plan::Select(p) => PlanV::Select(p.deep_view()),
            Plan::Explain(p) => PlanV::Explain(p.deep_view()),
            Plan::Aggregate(p) => PlanV::Aggregate(p.deep_view()),
            Plan::ExplainAggregate(p) => PlanV::ExplainAggregate(p.deep_view()),
            Plan::Rows(p) => PlanV::Rows(p.deep_view()),
            Plan::Write(p) => PlanV::Write(p.deep_view()),
            Plan::ExplainWrite(p) => PlanV::ExplainWrite(p.deep_view()),
            Plan::ExplainText(text) => PlanV::ExplainText(text@),
        }
    }
}

/// What becomes of the session's shortlist width.
#[derive(Clone, Copy, Debug, PartialEq, Eq, Structural)]
pub enum Shortlist {
    Keep,
    Clear,
    Become(usize),
}

/// A compiled statement, and what it does to the session.
#[derive(Debug)]
pub struct Compiled {
    pub plan: Plan,
    pub shortlist: Shortlist,
}

pub struct CompiledV {
    pub plan: PlanV,
    pub shortlist: Shortlist,
}

impl DeepView for Compiled {
    type V = CompiledV;

    open spec fn deep_view(&self) -> CompiledV {
        CompiledV { plan: self.plan.deep_view(), shortlist: self.shortlist }
    }
}

/// A plan that leaves the session as it is.
pub open spec fn kept(plan: PlanV) -> CompiledV {
    CompiledV { plan, shortlist: Shortlist::Keep }
}

fn keep(plan: Plan) -> (r: Compiled)
    ensures
        r.deep_view() == kept(plan.deep_view()),
{
    Compiled { plan, shortlist: Shortlist::Keep }
}

// ── settings ─────────────────────────────────────────────────────────────

pub open spec fn is_default(value: LiteralV) -> bool {
    match value {
        LiteralV::Str(text) => lower(text) == lower("default"@),
        _ => false,
    }
}

/// `SET LOCAL` of a setting of the engine.
#[verifier::opaque]
pub open spec fn set_local_of(b: BinderV, name: Seq<char>, value: LiteralV) -> Result<
    CompiledV,
    SqlErrorV,
> {
    if !is_engine_knob(name) {
        Ok(
            kept(
                PlanV::Write(
                    WritePlanV::Notice(
                        "SET LOCAL "@ + name
                            + ": no such knob here, and nothing was changed. The planner has no enable_indexscan / enable_bitmapscan: a query's driver is chosen from the indexes the statement's own predicates name (`src/query/drivers.rs`), and exactness is which vector index the column has, not a planner setting"@,
                    ),
                ),
            ),
        )
    } else if is_default(value) {
        Ok(
            CompiledV {
                plan: PlanV::Write(
                    WritePlanV::Notice(
                        "SET LOCAL "@ + name
                            + " = DEFAULT: the approximate shortlist bound is cleared, so a vector order takes the exact family when the column has one"@,
                    ),
                ),
                shortlist: Shortlist::Clear,
            },
        )
    } else {
        match i64_of(b, value) {
            Err(e) => Err(e),
            Ok(ef) => if ef <= 0 {
                Err(
                    SqlErrorV::Unsupported(
                        "SET LOCAL "@ + name + " = "@ + decimal(ef as int)
                            + ": an approximate shortlist has a positive width"@,
                    ),
                )
            } else {
                Ok(
                    CompiledV {
                        plan: PlanV::Write(
                            WritePlanV::Notice(
                                "SET LOCAL "@ + name + " = "@ + decimal(ef as int)
                                    + ": read as `ef`, the approximate shortlist bound of QueryOrder::ApproximateVector (QL_CONTRACT §4.5; the two knobs are not the same algorithm -- battle50k deviation 12)"@,
                            ),
                        ),
                        shortlist: Shortlist::Become(width_of(ef)),
                    },
                )
            },
        }
    }
}

/// A positive number as a width; one that is no size is the largest.
pub open spec fn width_of(ef: i64) -> usize {
    if ef as int > usize::MAX {
        usize::MAX
    } else {
        ef as usize
    }
}

fn width(ef: i64) -> (r: usize)
    requires
        ef > 0,
    ensures
        r == width_of(ef),
{
    if ef as u128 > usize::MAX as u128 {
        usize::MAX
    } else {
        ef as usize
    }
}

/// The sentence that a setting of the client is answered with.
pub open spec fn guc_notice(name: Seq<char>, value: Seq<char>) -> Seq<char> {
    "SET "@ + name + " = "@ + value
        + ": accepted and not kept; the client settings answer with constants"@
}

impl<'a> Env<'a> {
    /// `SET LOCAL`.
    pub fn set_local(&self, name: &str, value: &Literal) -> (r: Result<Compiled, SqlError>)
        ensures
            match set_local_of(self.deep_view().binder, name@, value.deep_view()) {
                Ok(c) => r is Ok && r->Ok_0.deep_view() == c,
                Err(e) => r is Err && r->Err_0.deep_view() == e,
            },
    {
        proof {
            reveal(set_local_of);
        }
        if !engine_knob(name) {
            return Ok(
                keep(
                    Plan::Write(
                        WritePlan::Notice(
                            cat3(
                                "SET LOCAL ",
                                name,
                                ": no such knob here, and nothing was changed. The planner has no enable_indexscan / enable_bitmapscan: a query's driver is chosen from the indexes the statement's own predicates name (`src/query/drivers.rs`), and exactness is which vector index the column has, not a planner setting",
                            ),
                        ),
                    ),
                ),
            );
        }
        let clears = match value {
            Literal::Str(text) => same_letters(text.as_str(), "default"),
            _ => false,
        };
        if clears {
            return Ok(
                Compiled {
                    plan: Plan::Write(
                        WritePlan::Notice(
                            cat3(
                                "SET LOCAL ",
                                name,
                                " = DEFAULT: the approximate shortlist bound is cleared, so a vector order takes the exact family when the column has one",
                            ),
                        ),
                    ),
                    shortlist: Shortlist::Clear,
                },
            );
        }
        let ef = self.binder.i64_of(value)?;
        if ef <= 0 {
            return Err(
                SqlError::unsupported(
                    cat5(
                        "SET LOCAL ",
                        name,
                        " = ",
                        decimal_i64(ef).as_str(),
                        ": an approximate shortlist has a positive width",
                    ).as_str(),
                ),
            );
        }
        Ok(
            Compiled {
                plan: Plan::Write(
                    WritePlan::Notice(
                        cat5(
                            "SET LOCAL ",
                            name,
                            " = ",
                            decimal_i64(ef).as_str(),
                            ": read as `ef`, the approximate shortlist bound of QueryOrder::ApproximateVector (QL_CONTRACT §4.5; the two knobs are not the same algorithm -- battle50k deviation 12)",
                        ),
                    ),
                ),
                shortlist: Shortlist::Become(width(ef)),
            },
        )
    }
}

// ── SELECT ───────────────────────────────────────────────────────────────

/// A `SELECT`, or an `EXPLAIN` of one: over a relation of the catalog, as an
/// aggregate, or over the rows of a collection.
#[verifier::opaque]
pub open spec fn select_plan_of(
    env: EnvV,
    snap: SnapshotV,
    s: SelectStmtV,
    explain: bool,
    log: LogV,
) -> Result<(PlanV, LogV), SqlErrorV> {
    match catalog_source_of(s) {
        Some(id) => match catalog_select_of(env.binder, snap, id, s, explain, log) {
            Err(e) => Err(e),
            Ok((p, log)) => Ok((PlanV::Rows(p), log)),
        },
        None => match aggregate_of(env, s, log) {
            Err(e) => Err(e),
            Ok((Some(p), log)) => Ok(
                (
                    if explain {
                        PlanV::ExplainAggregate(p)
                    } else {
                        PlanV::Aggregate(p)
                    },
                    log,
                ),
            ),
            Ok((None, log)) => match select_of(env, s, log) {
                Err(e) => Err(e),
                Ok((p, log)) => Ok(
                    (
                        if explain {
                            PlanV::Explain(p)
                        } else {
                            PlanV::Select(p)
                        },
                        log,
                    ),
                ),
            },
        },
    }
}

impl<'a> Env<'a> {
    fn select_plan(&self, snap: &Snapshot, s: &SelectStmt, explain: bool, log: &mut Log) -> (r: Result<
        Plan,
        SqlError,
    >)
        requires
            select_ok(s.deep_view()),
        ensures
            logged(
                r,
                *final(log),
                select_plan_of(
                    self.deep_view(),
                    snap.deep_view(),
                    s.deep_view(),
                    explain,
                    old(log).deep_view(),
                ),
            ),
    {
        proof {
            reveal(select_plan_of);
        }
        if let Some(id) = catalog_source(s) {
            let p = catalog_select(&self.binder, snap, id, s, explain, log)?;
            return Ok(Plan::Rows(p));
        }
        match self.aggregate(s, log)? {
            Some(p) => if explain {
                Ok(Plan::ExplainAggregate(p))
            } else {
                Ok(Plan::Aggregate(p))
            },
            None => {
                let p = self.select(s, log)?;
                if explain {
                    Ok(Plan::Explain(p))
                } else {
                    Ok(Plan::Select(p))
                }
            },
        }
    }
}

// ── writes ───────────────────────────────────────────────────────────────

/// Whether the values of a statement are such that it can be compiled: the
/// clock's offsets can be negated, and every row to insert has a value for
/// each column.
pub open spec fn stmt_ok(s: StmtV) -> bool {
    match s {
        StmtV::Select(q) | StmtV::Explain(q) => select_ok(*q),
        StmtV::UpdateWhere(u) | StmtV::ExplainUpdate(u) => exprs_ok(u.predicates),
        StmtV::DeleteWhere(d) | StmtV::ExplainDelete(d) => exprs_ok(d.predicates),
        StmtV::Insert { columns, rows, .. } => forall|i: int|
            0 <= i < rows.len() ==> (#[trigger] rows[i]).len() == columns.len(),
        _ => true,
    }
}

/// A write, a definition or the end of a transaction, as the plan that does
/// it.
#[verifier::opaque]
pub open spec fn write_of(env: EnvV, s: StmtV, log: LogV) -> Result<(WritePlanV, LogV), SqlErrorV> {
    let cat = env.binder.catalog;
    match s {
        StmtV::Insert { table, columns, rows } => insert_of(env, table, columns, rows, log),
        StmtV::Update { table, assignments, key } => update_of(env, table, assignments, key, log),
        StmtV::Delete { table, key } => delete_of(env, table, key, log),
        StmtV::UpdateWhere(u) | StmtV::ExplainUpdate(u) => update_where_of(env, u, log),
        StmtV::DeleteWhere(d) | StmtV::ExplainDelete(d) => delete_where_of(env, d, log),
        StmtV::BeginBulk => Ok((WritePlanV::BeginBulk, log)),
        StmtV::EndBulk => Ok((WritePlanV::EndBulk, log)),
        StmtV::CreateTable { table, columns, if_not_exists } => create_table(
            cat,
            table,
            columns,
            if_not_exists,
            Seq::empty(),
            log,
        ),
        StmtV::CreateIndex { name, table, method } => create_index(cat, name, table, method, log),
        StmtV::DropTable { table, if_exists, cascade } => match drop_table(
            cat,
            table,
            if_exists,
            cascade,
        ) {
            Err(e) => Err(e),
            Ok(Some(p)) => Ok((p, log)),
            Ok(None) => Ok(
                (
                    WritePlanV::Notice(
                        "DROP TABLE IF EXISTS "@ + table + ": no such collection"@,
                    ),
                    log,
                ),
            ),
        },
        StmtV::DropIndex { name, if_exists } => match drop_index(cat, name, if_exists) {
            Err(e) => Err(e),
            Ok(p) => Ok((p, log)),
        },
        StmtV::AlterTable { table, action } => alter_table(cat, table, action, log),
        StmtV::Begin => Ok((WritePlanV::Begin, log)),
        StmtV::Commit => Ok((WritePlanV::Commit, log)),
        StmtV::Rollback => Ok((WritePlanV::Rollback, log)),
        StmtV::SetGuc { name, value } => Ok((WritePlanV::Notice(guc_notice(name, value)), log)),
        _ => Err(SqlErrorV::Unsupported("the statement writes nothing"@)),
    }
}

/// A compiled statement that leaves the session as it is.
pub open spec fn with_plan(r: Result<(PlanV, LogV), SqlErrorV>) -> Result<
    (CompiledV, LogV),
    SqlErrorV,
> {
    match r {
        Err(e) => Err(e),
        Ok((p, log)) => Ok((kept(p), log)),
    }
}

/// One statement, against the catalog as it stands: `pid` is the number of
/// this process, and `batch` is how many entries one step of a drop removes at
/// most.
pub open spec fn compiled_of(
    env: EnvV,
    snap: SnapshotV,
    pid: u32,
    batch: usize,
    s: StmtV,
    log: LogV,
) -> Result<(CompiledV, LogV), SqlErrorV> {
    match s {
        StmtV::Select(q) => with_plan(select_plan_of(env, snap, *q, false, log)),
        StmtV::Explain(q) => with_plan(select_plan_of(env, snap, *q, true, log)),
        StmtV::SessionRows(items) => match session_rows_of(env.binder, pid, items, log) {
            Err(e) => Err(e),
            Ok((p, log)) => Ok((kept(PlanV::Rows(p)), log)),
        },
        StmtV::Show(s) => match show_of(env.binder.catalog, snap, s, log) {
            Err(e) => Err(e),
            Ok((p, log)) => Ok((kept(PlanV::Rows(p)), log)),
        },
        StmtV::ExplainDropTable { table, if_exists, cascade } => match explain_drop_of(
            env.binder.catalog,
            table,
            if_exists,
            cascade,
            batch,
        ) {
            Err(e) => Err(e),
            Ok(text) => Ok((kept(PlanV::ExplainText(text)), log)),
        },
        StmtV::ExplainAlterTable { table, action } => match explain_alter_of(
            env.binder.catalog,
            table,
            action,
            log,
        ) {
            Err(e) => Err(e),
            Ok((text, log)) => Ok((kept(PlanV::ExplainText(text)), log)),
        },
        StmtV::SetLocal { name, value } => match set_local_of(env.binder, name, value) {
            Err(e) => Err(e),
            Ok(c) => Ok((c, log)),
        },
        StmtV::ExplainUpdate(_) | StmtV::ExplainDelete(_) => match write_of(env, s, log) {
            Err(e) => Err(e),
            Ok((p, log)) => Ok((kept(PlanV::ExplainWrite(p)), log)),
        },
        _ => match write_of(env, s, log) {
            Err(e) => Err(e),
            Ok((p, log)) => Ok((kept(PlanV::Write(p)), log)),
        },
    }
}

impl<'a> Env<'a> {
    fn write(&self, s: &Stmt, log: &mut Log) -> (r: Result<WritePlan, SqlError>)
        requires
            stmt_ok(s.deep_view()),
        ensures
            logged(r, *final(log), write_of(self.deep_view(), s.deep_view(), old(log).deep_view())),
    {
        proof {
            reveal(write_of);
        }
        let cat = self.binder.catalog;
        match s {
            Stmt::Insert { table, columns, rows } => {
                assert(texts(columns@) =~= columns.deep_view());
                assert forall|i: int| 0 <= i < rows@.len() implies (#[trigger] rows@[i])@.len()
                    == columns@.len() by {
                    assert(rows.deep_view()[i].len() == rows@[i]@.len());
                }
                self.insert(table.as_str(), columns, rows, log)
            },
            Stmt::Update { table, assignments, key } => self.update(
                table.as_str(),
                assignments,
                key,
                log,
            ),
            Stmt::Delete { table, key } => self.delete(table.as_str(), key, log),
            Stmt::UpdateWhere(u) => self.update_where(u, log),
            Stmt::ExplainUpdate(u) => self.update_where(u, log),
            Stmt::DeleteWhere(d) => self.delete_where(d, log),
            Stmt::ExplainDelete(d) => self.delete_where(d, log),
            Stmt::BeginBulk => Ok(WritePlan::BeginBulk),
            Stmt::EndBulk => Ok(WritePlan::EndBulk),
            Stmt::CreateTable { table, columns, if_not_exists } => {
                let none: Vec<WithIndex> = Vec::new();
                assert(none.deep_view() =~= Seq::<WithIndexV>::empty());
                cat.create_table(table.as_str(), columns, *if_not_exists, &none, log)
            },
            Stmt::CreateIndex { name, table, method } => cat.create_index(
                name.as_str(),
                table.as_str(),
                method,
                log,
            ),
            Stmt::DropTable { table, if_exists, cascade } => match cat.drop_table(
                table.as_str(),
                *if_exists,
                *cascade,
            )? {
                Some(p) => Ok(p),
                None => Ok(
                    WritePlan::Notice(
                        cat3("DROP TABLE IF EXISTS ", table.as_str(), ": no such collection"),
                    ),
                ),
            },
            Stmt::DropIndex { name, if_exists } => cat.drop_index(name.as_str(), *if_exists),
            Stmt::AlterTable { table, action } => cat.alter_table(table.as_str(), action, log),
            Stmt::Begin => Ok(WritePlan::Begin),
            Stmt::Commit => Ok(WritePlan::Commit),
            Stmt::Rollback => Ok(WritePlan::Rollback),
            Stmt::SetGuc { name, value } => Ok(
                WritePlan::Notice(
                    cat5(
                        "SET ",
                        name.as_str(),
                        " = ",
                        value.as_str(),
                        ": accepted and not kept; the client settings answer with constants",
                    ),
                ),
            ),
            _ => Err(SqlError::unsupported("the statement writes nothing")),
        }
    }

    /// One statement, against the catalog as it stands.
    pub fn statement(
        &self,
        snap: &Snapshot,
        pid: u32,
        batch: usize,
        s: &Stmt,
        log: &mut Log,
    ) -> (r: Result<Compiled, SqlError>)
        requires
            stmt_ok(s.deep_view()),
        ensures
            logged(
                r,
                *final(log),
                compiled_of(
                    self.deep_view(),
                    snap.deep_view(),
                    pid,
                    batch,
                    s.deep_view(),
                    old(log).deep_view(),
                ),
            ),
    {
        match s {
            Stmt::Select(q) => {
                let p = self.select_plan(snap, q, false, log)?;
                Ok(keep(p))
            },
            Stmt::Explain(q) => {
                let p = self.select_plan(snap, q, true, log)?;
                Ok(keep(p))
            },
            Stmt::SessionRows(items) => {
                let p = session_rows(&self.binder, pid, items, log)?;
                Ok(keep(Plan::Rows(p)))
            },
            Stmt::Show(s) => {
                let p = show(self.binder.catalog, snap, s, log)?;
                Ok(keep(Plan::Rows(p)))
            },
            Stmt::ExplainDropTable { table, if_exists, cascade } => {
                let text = self.binder.catalog.explain_drop_table(
                    table.as_str(),
                    *if_exists,
                    *cascade,
                    batch,
                )?;
                Ok(keep(Plan::ExplainText(text)))
            },
            Stmt::ExplainAlterTable { table, action } => {
                let text = self.binder.catalog.explain_alter_table(table.as_str(), action, log)?;
                Ok(keep(Plan::ExplainText(text)))
            },
            Stmt::SetLocal { name, value } => self.set_local(name.as_str(), value),
            Stmt::ExplainUpdate(_) => {
                let p = self.write(s, log)?;
                Ok(keep(Plan::ExplainWrite(p)))
            },
            Stmt::ExplainDelete(_) => {
                let p = self.write(s, log)?;
                Ok(keep(Plan::ExplainWrite(p)))
            },
            _ => {
                let p = self.write(s, log)?;
                Ok(keep(Plan::Write(p)))
            },
        }
    }
}

} // verus!
