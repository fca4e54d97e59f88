//! Running a write: which step comes next, given what the last one answered.
//!
//! The database does the work, one [`Action`] at a time; what it answers is an
//! [`Event`]. Which action follows, and what the statement answers in the end,
//! is decided here.

use vstd::prelude::*;
use crate::compile::bind::VectorArg;
use crate::compile::dml::{store_value, stored_value};
use crate::compile::env::{member, member_from};
use crate::compile::listing::copy_texts;
use crate::compile::plan::{
    CompiledAlter, CompiledAlterV, CompiledIndex, CompiledIndexV, CompiledSet, CompiledSetV, Stored,
    StoredV, WritePlan, WritePlanV,
};
use crate::compile::row::{evaluated, CompiledRow, CompiledRowV};
use crate::error::{SqlError, SqlErrorV};
use crate::lists::{take_all, take_next};
use crate::named::add_entry;
use crate::result::{SqlResult, SqlResultV};
use crate::text::{
    cat2, cat3, cat5, cat7, decimal, decimal_u64, decimal_usize, join, joined, owned, texts,
};
use crate::value::{dup_bits, row_value, row_view, Kind, SqlValue, SqlValueV, Value, ValueV};

verus! {

// ── what can happen ──────────────────────────────────────────────────────

/// How many rows one transaction of a build takes at least.
pub const BUILD_CHUNK_ROWS: usize = 256;

/// How many rows one transaction of a graph build takes at least: a row of it
/// is many records.
pub const VAMANA_CHUNK_ROWS: usize = 32;

/// How many entries one step of a drop removes.
pub const DROP_STEP: usize = 256;

/// One step of a write, over the plan at hand.
#[allow(inconsistent_fields)]
#[derive(Clone, Copy, Debug, PartialEq, Eq, Structural)]
pub enum Action {
    /// Put the plan's row with this place.
    PutRow(usize),
    /// Ask whether the plan's key has a row.
    FindRow,
    UpdateRow,
    /// Delete the row at the plan's key; whether there was one is asked.
    DeleteRow,
    /// Run the plan's filters and write every row they leave.
    WriteWhere,
    BeginBulk,
    /// Close a bulk scope; whether it committed is asked.
    EndBulk,
    /// Ask how many bulk scopes are open.
    BulkDepth,
    Commit,
    Rollback,
    CreateCollection,
    RenameCollection,
    /// Give the collection the plan's layout.
    AlterCollection,
    /// Create the plan's index with this place.
    CreateIndex { collection: u64, at: usize },
    /// Build an index to its end.
    BuildIndex { index: u64, rows: usize },
    BeginDropIndex { index: u64 },
    /// Remove some entries; whether none is left is asked.
    DropIndexStep { index: u64, rows: usize },
    BeginDropCollection { collection: u64, cascade: bool },
    /// Remove a collection to its end; how many rows it had is asked.
    DropCollectionToEnd { collection: u64 },
    /// Clear the session's shortlist width.
    ClearShortlist,
}

/// What a step answered.
#[derive(Debug)]
pub enum Event {
    Done,
    /// The answer to a question.
    Found(bool),
    /// The number of what was created.
    Created(u64),
    Count(u64),
    /// How far a bounded write came.
    Progress { done: bool, rows_written: u64 },
    /// The error, and how it prints.
    Failed { error: SqlError, text: String },
}

pub enum EventV {
    Done,
    Found(bool),
    Created(u64),
    Count(u64),
    Progress { done: bool, rows_written: u64 },
    Failed { error: SqlErrorV, text: Seq<char> },
}

impl DeepView for Event {
    type V = EventV;

    open spec fn deep_view(&self) -> EventV {
        match *self {
            Event::Done => EventV::Done,
            Event::Found(b) => EventV::Found(b),
            Event::Created(n) => EventV::Created(n),
            Event::Count(n) => EventV::Count(n),
            Event::Progress { done, rows_written } => EventV::Progress { done, rows_written },
            Event::Failed { error, text } => EventV::Failed {
                error: error.deep_view(),
                text: text@,
            },
        }
    }
}

/// How far the making of an index has come: which step was asked for last.
#[derive(Clone, Copy, Debug, PartialEq, Eq, Structural)]
pub enum IndexStep {
    Create,
    Publish(u64),
    Build,
    Seal,
}

/// How far the drop of an index has come.
#[derive(Clone, Copy, Debug, PartialEq, Eq, Structural)]
pub enum DropStep {
    Mark,
    Remove,
    Seal,
}

/// How far the removal of a refused table has come.
#[derive(Clone, Copy, Debug, PartialEq, Eq, Structural)]
pub enum UnwindStep {
    Discard,
    Mark,
    Remove,
}

/// How far a write has come: which step was asked for last.
#[allow(inconsistent_fields)]
#[derive(Debug)]
pub enum Stage {
    Putting(usize),
    Finding,
    Updating,
    Deleting,
    Writing,
    Opening,
    Closing,
    Counting { opened: bool },
    /// What the caller had written is committed first.
    Publishing,
    Creating,
    Created { collection: u64 },
    Indexing { collection: u64, at: usize, step: IndexStep },
    Unwinding { collection: u64, at: usize, text: String, step: UnwindStep },
    Dropping { at: usize, step: DropStep },
    Altering,
    Altered,
    Renaming,
    Sealing,
    Marking { collection: u64 },
    Removing,
    Ending,
    Resetting,
}

#[allow(inconsistent_fields)]
pub enum StageV {
    Putting(usize),
    Finding,
    Updating,
    Deleting,
    Writing,
    Opening,
    Closing,
    Counting { opened: bool },
    Publishing,
    Creating,
    Created { collection: u64 },
    Indexing { collection: u64, at: usize, step: IndexStep },
    Unwinding { collection: u64, at: usize, text: Seq<char>, step: UnwindStep },
    Dropping { at: usize, step: DropStep },
    Altering,
    Altered,
    Renaming,
    Sealing,
    Marking { collection: u64 },
    Removing,
    Ending,
    Resetting,
}

impl DeepView for Stage {
    type V = StageV;

    open spec fn deep_view(&self) -> StageV {
        match *self {
            Stage::Putting(at) => StageV::Putting(at),
            Stage::Finding => StageV::Finding,
            Stage::Updating => StageV::Updating,
            Stage::Deleting => StageV::Deleting,
            Stage::Writing => StageV::Writing,
            Stage::Opening => StageV::Opening,
            Stage::Closing => StageV::Closing,
            Stage::Counting { opened } => StageV::Counting { opened },
            Stage::Publishing => StageV::Publishing,
            Stage::Creating => StageV::Creating,
            Stage::Created { collection } => StageV::Created { collection },
            Stage::Indexing { collection, at, step } => StageV::Indexing { collection, at, step },
            Stage::Unwinding { collection, at, text, step } => StageV::Unwinding {
                collection,
                at,
                text: text@,
                step,
            },
            Stage::Dropping { at, step } => StageV::Dropping { at, step },
            Stage::Altering => StageV::Altering,
            Stage::Altered => StageV::Altered,
            Stage::Renaming => StageV::Renaming,
            Stage::Sealing => StageV::Sealing,
            Stage::Marking { collection } => StageV::Marking { collection },
            Stage::Removing => StageV::Removing,
            Stage::Ending => StageV::Ending,
            Stage::Resetting => StageV::Resetting,
        }
    }
}

/// What comes next: a step and the stage it is asked for in, or the end.
#[derive(Debug)]
pub enum Step {
    Do(Action, Stage),
    Finish(Result<SqlResult, SqlError>),
}

pub enum StepV {
    Do(Action, StageV),
    Finish(Result<SqlResultV, SqlErrorV>),
}

impl DeepView for Step {
    type V = StepV;

    open spec fn deep_view(&self) -> StepV {
        match *self {
            Step::Do(action, stage) => StepV::Do(action, stage.deep_view()),
            Step::Finish(Ok(r)) => StepV::Finish(Ok(r.deep_view())),
            Step::Finish(Err(e)) => StepV::Finish(Err(e.deep_view())),
        }
    }
}

// ── what a plan lists ────────────────────────────────────────────────────

/// The indexes that a plan creates.
pub open spec fn new_indexes(p: WritePlanV) -> Seq<(Seq<char>, CompiledIndexV)> {
    match p {
        WritePlanV::CreateTable { indexes, .. } => indexes,
        WritePlanV::AlterTable { action: CompiledAlterV::Layout { create_indexes, .. }, .. } => {
            create_indexes
        },
        WritePlanV::CreateIndex { name, method, .. } => seq![(name, method)],
        _ => Seq::empty(),
    }
}

/// The indexes that a plan drops.
pub open spec fn old_indexes(p: WritePlanV) -> Seq<(u64, Seq<char>)> {
    match p {
        WritePlanV::AlterTable { action: CompiledAlterV::Layout { drop_indexes, .. }, .. } => {
            drop_indexes
        },
        WritePlanV::DropIndex { index, name } => seq![(index, name)],
        _ => Seq::empty(),
    }
}

/// How many rows one transaction of an index's build takes at least.
pub open spec fn chunk_rows(m: CompiledIndexV) -> usize {
    if m is VamanaGraph {
        VAMANA_CHUNK_ROWS
    } else {
        BUILD_CHUNK_ROWS
    }
}

/// How many rows one transaction of an index's build takes at least.
pub fn build_chunk_rows(method: &CompiledIndex) -> (r: usize)
    ensures
        r == chunk_rows(method.deep_view()),
{
    match method {
        CompiledIndex::VamanaGraph { .. } => VAMANA_CHUNK_ROWS,
        _ => BUILD_CHUNK_ROWS,
    }
}

fn new_count(p: &WritePlan) -> (r: usize)
    ensures
        r == new_indexes(p.deep_view()).len(),
{
    match p {
        WritePlan::CreateTable { indexes, .. } => indexes.len(),
        WritePlan::AlterTable { action: CompiledAlter::Layout { create_indexes, .. }, .. } => {
            create_indexes.len()
        },
        WritePlan::CreateIndex { .. } => 1,
        _ => 0,
    }
}

fn new_rows(p: &WritePlan, at: usize) -> (r: usize)
    requires
        at < new_indexes(p.deep_view()).len(),
    ensures
        r == chunk_rows(new_indexes(p.deep_view())[at as int].1),
{
    match p {
        WritePlan::CreateTable { indexes, .. } => {
            assert(indexes.deep_view()[at as int] == indexes@[at as int].deep_view());
            build_chunk_rows(&indexes[at].1)
        },
        WritePlan::AlterTable { action: CompiledAlter::Layout { create_indexes, .. }, .. } => {
            assert(create_indexes.deep_view()[at as int] == create_indexes@[at as int].deep_view());
            build_chunk_rows(&create_indexes[at].1)
        },
        WritePlan::CreateIndex { method, .. } => build_chunk_rows(method),
        _ => BUILD_CHUNK_ROWS,
    }
}

fn old_count(p: &WritePlan) -> (r: usize)
    ensures
        r == old_indexes(p.deep_view()).len(),
{
    match p {
        WritePlan::AlterTable { action: CompiledAlter::Layout { drop_indexes, .. }, .. } => {
            drop_indexes.len()
        },
        WritePlan::DropIndex { .. } => 1,
        _ => 0,
    }
}

fn old_at(p: &WritePlan, at: usize) -> (r: Option<u64>)
    ensures
        match r {
            Some(id) => at < old_indexes(p.deep_view()).len() && id == old_indexes(
                p.deep_view(),
            )[at as int].0,
            None => at >= old_indexes(p.deep_view()).len(),
        },
{
    match p {
        WritePlan::AlterTable { action: CompiledAlter::Layout { drop_indexes, .. }, .. } => {
            if at < drop_indexes.len() {
                assert(drop_indexes.deep_view()[at as int] == drop_indexes@[at as int].deep_view());
                Some(drop_indexes[at].0)
            } else {
                None
            }
        },
        WritePlan::DropIndex { index, .. } => if at == 0 {
            Some(*index)
        } else {
            None
        },
        _ => None,
    }
}

/// The names of the first `n` indexes that a plan creates.
pub open spec fn new_names(p: WritePlanV, n: int) -> Seq<Seq<char>> {
    Seq::new(n as nat, |i: int| new_indexes(p)[i].0)
}

fn names_before(p: &WritePlan, n: usize) -> (r: Vec<String>)
    requires
        p is CreateTable,
        n <= new_indexes(p.deep_view()).len(),
    ensures
        texts(r@) == new_names(p.deep_view(), n as int),
{
    let ghost view = p.deep_view();
    let mut out: Vec<String> = Vec::new();
    if let WritePlan::CreateTable { indexes, .. } = p {
        let mut i: usize = 0;
        while i < n
            invariant
                i <= n <= indexes@.len(),
                new_indexes(view) == indexes.deep_view(),
                out@.len() == i,
                forall|k: int| 0 <= k < i ==> (#[trigger] out@[k])@ == new_indexes(view)[k].0,
            decreases n - i,
        {
            assert(indexes.deep_view()[i as int] == indexes@[i as int].deep_view());
            out.push(indexes[i].0.clone());
            i = i + 1;
        }
    }
    assert(texts(out@) =~= new_names(view, n as int));
    out
}

// ── answers ──────────────────────────────────────────────────────────────

pub open spec fn affected(n: u64) -> StepV {
    StepV::Finish(Ok(SqlResultV::Affected(n)))
}

/// A sentence, behind what was noticed before.
pub open spec fn said(notices: Seq<Seq<char>>, text: Seq<char>) -> StepV {
    StepV::Finish(Ok(SqlResultV::Notice(joined(notices.push(text), "; "@))))
}

pub open spec fn fails(e: SqlErrorV) -> StepV {
    StepV::Finish(Err(e))
}

/// A step was answered with what it was not asked for.
pub open spec fn out_of_turn() -> StepV {
    fails(SqlErrorV::Engine("the database answered out of turn"@))
}

pub open spec fn begun(depth: u64) -> Seq<char> {
    "BEGIN BULK: the durability point moves to the matching END BULK; "@ + decimal(depth as int)
        + " scope(s) open"@
}

pub open spec fn kept_open(depth: u64) -> Seq<char> {
    "END BULK: an inner scope closed and committed nothing; "@ + decimal(depth as int)
        + " scope(s) still open"@
}

pub open spec fn created_with(name: Seq<char>, names: Seq<Seq<char>>) -> Seq<char> {
    "CREATE TABLE "@ + name + " WITH (...): the collection and "@ + decimal(names.len() as int)
        + " index(es) were created by one statement -- "@ + joined(names, ", "@)
}

pub const BEGIN_NOTICE: &'static str =
    "BEGIN: the writer is single and already inside a transaction; COMMIT ends it";

/// A write that its budget stopped is refused, and not cut.
pub open spec fn over_budget(statement: Seq<char>, budget: u64, written: u64) -> SqlErrorV {
    SqlErrorV::Engine(
        statement + ": the `rows_written` budget of "@ + decimal(budget as int)
            + " was reached after "@ + decimal(written as int)
            + " row(s); the statement is refused rather than truncated. The rows written so far are uncommitted -- ROLLBACK discards them, or raise the budget and run it again."@,
    )
}

pub open spec fn made_before(names: Seq<Seq<char>>) -> Seq<char> {
    if names.len() == 0 {
        "no index of the clause had been built"@
    } else {
        "the "@ + decimal(names.len() as int) + " index(es) already built ("@ + joined(
            names,
            ", "@,
        ) + ")"@
    }
}

/// The refusal of an index of a new table, where everything was removed again.
pub open spec fn unwound(
    table: Seq<char>,
    refused: Seq<char>,
    names: Seq<Seq<char>>,
    text: Seq<char>,
) -> SqlErrorV {
    SqlErrorV::Unsupported(
        "CREATE TABLE "@ + table + " WITH (...): `"@ + refused
            + "` was refused, so the statement left NOTHING behind -- the collection `"@ + table
            + "` and "@ + (made_before(names)
            + " were removed before this refusal was raised, and the catalog is the one the statement started from. The refusal: "@
            + text),
    )
}

/// The refusal of an index of a new table, where the removal failed too.
pub open spec fn not_unwound(
    table: Seq<char>,
    refused: Seq<char>,
    second: Seq<char>,
    text: Seq<char>,
) -> SqlErrorV {
    SqlErrorV::Engine(
        "CREATE TABLE "@ + table + " WITH (...): `"@ + refused
            + "` was refused, and removing what the statement had already built then failed too ("@
            + second + "). The collection `"@ + (table
            + "` carries the DROPPING mark, which every reader refuses; `DROP TABLE "@ + table
            + " CASCADE` resumes the removal from where it stopped. The first refusal: "@ + text),
    )
}

fn finish(r: SqlResult) -> (s: Step)
    ensures
        s.deep_view() == StepV::Finish(Ok(r.deep_view())),
{
    Step::Finish(Ok(r))
}

fn fail(e: SqlError) -> (s: Step)
    ensures
        s.deep_view() == fails(e.deep_view()),
{
    Step::Finish(Err(e))
}

fn affect(n: u64) -> (s: Step)
    ensures
        s.deep_view() == affected(n),
{
    finish(SqlResult::Affected(n))
}

fn say(notices: &Vec<String>, text: String) -> (s: Step)
    ensures
        s.deep_view() == said(texts(notices@), text@),
{
    let mut all: Vec<String> = Vec::new();
    let mut i: usize = 0;
    while i < notices.len()
        invariant
            i <= notices@.len(),
            all@.len() == i,
            forall|k: int| 0 <= k < i ==> (#[trigger] all@[k])@ == notices@[k]@,
        decreases notices@.len() - i,
    {
        all.push(notices[i].clone());
        i = i + 1;
    }
    let ghost last = text@;
    all.push(text);
    assert(texts(all@) =~= texts(notices@).push(last));
    finish(SqlResult::Notice(join(&all, "; ")))
}

fn confused() -> (s: Step)
    ensures
        s.deep_view() == out_of_turn(),
{
    fail(SqlError::engine("the database answered out of turn"))
}

// ── the first step ───────────────────────────────────────────────────────

/// The first step of a plan.
pub open spec fn first_step(p: WritePlanV, notices: Seq<Seq<char>>) -> StepV {
    match p {
        WritePlanV::Insert { rows, .. } => if rows.len() == 0 {
            affected(0)
        } else {
            StepV::Do(Action::PutRow(0), StageV::Putting(0))
        },
        WritePlanV::Update { .. } => StepV::Do(Action::FindRow, StageV::Finding),
        WritePlanV::Delete { .. } => StepV::Do(Action::DeleteRow, StageV::Deleting),
        WritePlanV::UpdateWhere { .. } | WritePlanV::DeleteWhere { .. } => StepV::Do(
            Action::WriteWhere,
            StageV::Writing,
        ),
        WritePlanV::BeginBulk => StepV::Do(Action::BeginBulk, StageV::Opening),
        WritePlanV::EndBulk => StepV::Do(Action::EndBulk, StageV::Closing),
        WritePlanV::CreateTable { indexes, .. } => if indexes.len() == 0 {
            StepV::Do(Action::CreateCollection, StageV::Creating)
        } else {
            StepV::Do(Action::Commit, StageV::Publishing)
        },
        WritePlanV::AlterTable { .. } | WritePlanV::CreateIndex { .. } | WritePlanV::DropIndex {
            ..
        } | WritePlanV::DropTable { .. } => StepV::Do(Action::Commit, StageV::Publishing),
        WritePlanV::Begin => said(notices, BEGIN_NOTICE@),
        WritePlanV::Commit => StepV::Do(Action::Commit, StageV::Ending),
        WritePlanV::Rollback => StepV::Do(Action::Rollback, StageV::Ending),
        WritePlanV::Notice(text) => said(notices, text),
    }
}

/// The first step of a plan; `notices` is what was noticed while the statement
/// was compiled.
pub fn start(p: &WritePlan, notices: &Vec<String>) -> (s: Step)
    ensures
        s.deep_view() == first_step(p.deep_view(), texts(notices@)),
{
    match p {
        WritePlan::Insert { rows, .. } => if rows.len() == 0 {
            affect(0)
        } else {
            Step::Do(Action::PutRow(0), Stage::Putting(0))
        },
        WritePlan::Update { .. } => Step::Do(Action::FindRow, Stage::Finding),
        WritePlan::Delete { .. } => Step::Do(Action::DeleteRow, Stage::Deleting),
        WritePlan::UpdateWhere { .. } => Step::Do(Action::WriteWhere, Stage::Writing),
        WritePlan::DeleteWhere { .. } => Step::Do(Action::WriteWhere, Stage::Writing),
        WritePlan::BeginBulk => Step::Do(Action::BeginBulk, Stage::Opening),
        WritePlan::EndBulk => Step::Do(Action::EndBulk, Stage::Closing),
        WritePlan::CreateTable { indexes, .. } => if indexes.len() == 0 {
            Step::Do(Action::CreateCollection, Stage::Creating)
        } else {
            Step::Do(Action::Commit, Stage::Publishing)
        },
        WritePlan::AlterTable { .. } => Step::Do(Action::Commit, Stage::Publishing),
        WritePlan::CreateIndex { .. } => Step::Do(Action::Commit, Stage::Publishing),
        WritePlan::DropIndex { .. } => Step::Do(Action::Commit, Stage::Publishing),
        WritePlan::DropTable { .. } => Step::Do(Action::Commit, Stage::Publishing),
        WritePlan::Begin => say(notices, owned(BEGIN_NOTICE)),
        WritePlan::Commit => Step::Do(Action::Commit, Stage::Ending),
        WritePlan::Rollback => Step::Do(Action::Rollback, Stage::Ending),
        WritePlan::Notice(text) => say(notices, text.clone()),
    }
}

// ── making and dropping indexes ──────────────────────────────────────────

/// Behind the last index that a plan creates.
pub open spec fn after_indexes(p: WritePlanV, notices: Seq<Seq<char>>) -> StepV {
    match p {
        WritePlanV::CreateTable { name, indexes, .. } => said(
            notices,
            created_with(name, new_names(p, indexes.len() as int)),
        ),
        WritePlanV::AlterTable { .. } => StepV::Do(Action::Commit, StageV::Sealing),
        _ => affected(0),
    }
}

/// The making of the `at`-th index of a plan, if it has so many.
pub open spec fn make_index(p: WritePlanV, notices: Seq<Seq<char>>, collection: u64, at: int) -> StepV {
    if at < new_indexes(p).len() {
        StepV::Do(
            Action::CreateIndex { collection, at: at as usize },
            StageV::Indexing { collection, at: at as usize, step: IndexStep::Create },
        )
    } else {
        after_indexes(p, notices)
    }
}

/// Behind the last index that a plan drops.
pub open spec fn after_drops(p: WritePlanV) -> StepV {
    match p {
        WritePlanV::AlterTable { .. } => StepV::Do(Action::AlterCollection, StageV::Altering),
        _ => affected(0),
    }
}

/// The drop of the `at`-th old index of a plan, if it has so many.
pub open spec fn drop_next(p: WritePlanV, at: int) -> StepV {
    if at < old_indexes(p).len() {
        StepV::Do(
            Action::BeginDropIndex { index: old_indexes(p)[at].0 },
            StageV::Dropping { at: at as usize, step: DropStep::Mark },
        )
    } else {
        after_drops(p)
    }
}

/// Behind the commit that a definition begins with.
pub open spec fn published(p: WritePlanV, notices: Seq<Seq<char>>) -> StepV {
    match p {
        WritePlanV::CreateTable { .. } => StepV::Do(Action::CreateCollection, StageV::Creating),
        WritePlanV::AlterTable { action: CompiledAlterV::Rename { .. }, .. } => StepV::Do(
            Action::RenameCollection,
            StageV::Renaming,
        ),
        WritePlanV::CreateIndex { collection, .. } => make_index(p, notices, collection, 0),
        WritePlanV::DropTable { collection, cascade, .. } => StepV::Do(
            Action::BeginDropCollection { collection, cascade },
            StageV::Marking { collection },
        ),
        _ => drop_next(p, 0),
    }
}

fn behind_indexes(p: &WritePlan, notices: &Vec<String>) -> (s: Step)
    ensures
        s.deep_view() == after_indexes(p.deep_view(), texts(notices@)),
{
    match p {
        WritePlan::CreateTable { name, indexes, .. } => {
            let names = names_before(p, indexes.len());
            assert(names@.len() == texts(names@).len());
            let text = cat5(
                "CREATE TABLE ",
                name.as_str(),
                " WITH (...): the collection and ",
                decimal_usize(names.len()).as_str(),
                " index(es) were created by one statement -- ",
            );
            say(notices, cat2(text.as_str(), join(&names, ", ").as_str()))
        },
        WritePlan::AlterTable { .. } => Step::Do(Action::Commit, Stage::Sealing),
        _ => affect(0),
    }
}

fn index_next(p: &WritePlan, notices: &Vec<String>, collection: u64, at: usize) -> (s: Step)
    ensures
        s.deep_view() == make_index(p.deep_view(), texts(notices@), collection, at as int),
{
    if at < new_count(p) {
        Step::Do(
            Action::CreateIndex { collection, at },
            Stage::Indexing { collection, at, step: IndexStep::Create },
        )
    } else {
        behind_indexes(p, notices)
    }
}

fn drop_step(p: &WritePlan, at: usize) -> (s: Step)
    ensures
        s.deep_view() == drop_next(p.deep_view(), at as int),
{
    match old_at(p, at) {
        Some(index) => Step::Do(
            Action::BeginDropIndex { index },
            Stage::Dropping { at, step: DropStep::Mark },
        ),
        None => match p {
            WritePlan::AlterTable { .. } => Step::Do(Action::AlterCollection, Stage::Altering),
            _ => affect(0),
        },
    }
}

fn behind_publish(p: &WritePlan, notices: &Vec<String>) -> (s: Step)
    ensures
        s.deep_view() == published(p.deep_view(), texts(notices@)),
{
    match p {
        WritePlan::CreateTable { .. } => Step::Do(Action::CreateCollection, Stage::Creating),
        WritePlan::AlterTable { action: CompiledAlter::Rename { .. }, .. } => Step::Do(
            Action::RenameCollection,
            Stage::Renaming,
        ),
        WritePlan::CreateIndex { collection, .. } => index_next(p, notices, *collection, 0),
        WritePlan::DropTable { collection, cascade, .. } => Step::Do(
            Action::BeginDropCollection { collection: *collection, cascade: *cascade },
            Stage::Marking { collection: *collection },
        ),
        _ => drop_step(p, 0),
    }
}

// ── failures ─────────────────────────────────────────────────────────────

pub open spec fn table_name(p: WritePlanV) -> Seq<char> {
    match p {
        WritePlanV::CreateTable { name, .. } => name,
        _ => ""@,
    }
}

/// A step failed. A new table whose index is refused is removed again; every
/// other failure ends the statement.
pub open spec fn failed(p: WritePlanV, stage: StageV, error: SqlErrorV, text: Seq<char>) -> StepV {
    match stage {
        StageV::Indexing { collection, at, .. } => if p is CreateTable {
            StepV::Do(
                Action::Rollback,
                StageV::Unwinding { collection, at, text, step: UnwindStep::Discard },
            )
        } else {
            fails(error)
        },
        StageV::Unwinding { collection, at, text: first, step } => if step == UnwindStep::Discard {
            StepV::Do(
                Action::BeginDropCollection { collection, cascade: true },
                StageV::Unwinding { collection, at, text: first, step: UnwindStep::Mark },
            )
        } else {
            fails(not_unwound(table_name(p), new_indexes(p)[at as int].0, text, first))
        },
        _ => fails(error),
    }
}

// ── the next step ────────────────────────────────────────────────────────

/// Behind a step that was done.
pub open spec fn done_step(p: WritePlanV, notices: Seq<Seq<char>>, stage: StageV) -> StepV {
    match stage {
        StageV::Putting(at) => match p {
            WritePlanV::Insert { rows, .. } => if at + 1 < rows.len() {
                StepV::Do(Action::PutRow((at + 1) as usize), StageV::Putting((at + 1) as usize))
            } else {
                affected(rows.len() as u64)
            },
            _ => out_of_turn(),
        },
        StageV::Updating => affected(1),
        StageV::Opening => StepV::Do(Action::BulkDepth, StageV::Counting { opened: true }),
        StageV::Publishing => published(p, notices),
        StageV::Created { collection } => if new_indexes(p).len() == 0 {
            affected(0)
        } else {
            make_index(p, notices, collection, 0)
        },
        StageV::Indexing { collection, at, step } => match step {
            IndexStep::Publish(index) => StepV::Do(
                Action::BuildIndex { index, rows: chunk_rows(new_indexes(p)[at as int].1) },
                StageV::Indexing { collection, at, step: IndexStep::Build },
            ),
            IndexStep::Build => StepV::Do(
                Action::Commit,
                StageV::Indexing { collection, at, step: IndexStep::Seal },
            ),
            IndexStep::Seal => make_index(p, notices, collection, at + 1),
            IndexStep::Create => out_of_turn(),
        },
        StageV::Unwinding { collection, at, text, step } => match step {
            UnwindStep::Discard => StepV::Do(
                Action::BeginDropCollection { collection, cascade: true },
                StageV::Unwinding { collection, at, text, step: UnwindStep::Mark },
            ),
            UnwindStep::Mark => StepV::Do(
                Action::DropCollectionToEnd { collection },
                StageV::Unwinding { collection, at, text, step: UnwindStep::Remove },
            ),
            UnwindStep::Remove => out_of_turn(),
        },
        StageV::Dropping { at, step } => match step {
            DropStep::Mark => StepV::Do(
                Action::DropIndexStep { index: old_indexes(p)[at as int].0, rows: DROP_STEP },
                StageV::Dropping { at, step: DropStep::Remove },
            ),
            DropStep::Seal => drop_next(p, at + 1),
            DropStep::Remove => out_of_turn(),
        },
        StageV::Altering => StepV::Do(Action::Commit, StageV::Altered),
        StageV::Altered => match p {
            WritePlanV::AlterTable { collection, .. } => make_index(p, notices, collection, 0),
            _ => out_of_turn(),
        },
        StageV::Renaming => StepV::Do(Action::Commit, StageV::Sealing),
        StageV::Sealing => affected(0),
        StageV::Marking { collection } => StepV::Do(
            Action::DropCollectionToEnd { collection },
            StageV::Removing,
        ),
        StageV::Ending => StepV::Do(Action::ClearShortlist, StageV::Resetting),
        StageV::Resetting => affected(0),
        _ => out_of_turn(),
    }
}

/// Behind a question that was answered.
pub open spec fn found_step(p: WritePlanV, stage: StageV, yes: bool) -> StepV {
    match stage {
        StageV::Finding => if yes {
            StepV::Do(Action::UpdateRow, StageV::Updating)
        } else {
            affected(0)
        },
        StageV::Deleting => affected(
            if yes {
                1
            } else {
                0
            },
        ),
        StageV::Closing => if yes {
            affected(0)
        } else {
            StepV::Do(Action::BulkDepth, StageV::Counting { opened: false })
        },
        StageV::Dropping { at, step: DropStep::Remove } => if yes {
            StepV::Do(Action::Commit, StageV::Dropping { at, step: DropStep::Seal })
        } else {
            StepV::Do(
                Action::DropIndexStep { index: old_indexes(p)[at as int].0, rows: DROP_STEP },
                StageV::Dropping { at, step: DropStep::Remove },
            )
        },
        _ => out_of_turn(),
    }
}

/// Behind something that was created.
pub open spec fn created_step(stage: StageV, id: u64) -> StepV {
    match stage {
        StageV::Creating => StepV::Do(Action::Commit, StageV::Created { collection: id }),
        StageV::Indexing { collection, at, step: IndexStep::Create } => StepV::Do(
            Action::Commit,
            StageV::Indexing { collection, at, step: IndexStep::Publish(id) },
        ),
        _ => out_of_turn(),
    }
}

/// Behind a count.
pub open spec fn count_step(p: WritePlanV, notices: Seq<Seq<char>>, stage: StageV, n: u64) -> StepV {
    match stage {
        StageV::Counting { opened } => said(
            notices,
            if opened {
                begun(n)
            } else {
                kept_open(n)
            },
        ),
        StageV::Removing => affected(n),
        StageV::Unwinding { at, text, step: UnwindStep::Remove, .. } => fails(
            unwound(
                table_name(p),
                new_indexes(p)[at as int].0,
                new_names(p, at as int),
                text,
            ),
        ),
        _ => out_of_turn(),
    }
}

pub open spec fn statement_word(p: WritePlanV) -> Seq<char> {
    if p is UpdateWhere {
        "UPDATE"@
    } else {
        "DELETE"@
    }
}

/// The step behind what the last one answered. `budget` is how many rows a
/// write at a condition may write.
pub open spec fn next_step(
    p: WritePlanV,
    notices: Seq<Seq<char>>,
    budget: u64,
    stage: StageV,
    event: EventV,
) -> StepV {
    match event {
        EventV::Failed { error, text } => failed(p, stage, error, text),
        EventV::Done => done_step(p, notices, stage),
        EventV::Found(yes) => found_step(p, stage, yes),
        EventV::Created(id) => created_step(stage, id),
        EventV::Count(n) => count_step(p, notices, stage, n),
        EventV::Progress { done, rows_written } => if !(stage is Writing) {
            out_of_turn()
        } else if !done {
            fails(over_budget(statement_word(p), budget, rows_written))
        } else {
            affected(rows_written)
        },
    }
}

/// Whether a stage is one that a plan can be in: its place is one of the
/// plan's.
pub open spec fn stage_fits(p: WritePlanV, stage: StageV) -> bool {
    match stage {
        StageV::Putting(at) => p matches WritePlanV::Insert { rows, .. } && at < rows.len(),
        StageV::Indexing { at, .. } => at < new_indexes(p).len(),
        StageV::Unwinding { at, .. } => p is CreateTable && at < new_indexes(p).len(),
        StageV::Dropping { at, .. } => at < old_indexes(p).len(),
        _ => true,
    }
}

/// Whether the stage of a step, if it has one, is one that a plan can be in.
pub open spec fn step_fits(p: WritePlanV, s: StepV) -> bool {
    match s {
        StepV::Do(_, stage) => stage_fits(p, stage),
        StepV::Finish(_) => true,
    }
}

fn behind_failure(p: &WritePlan, stage: Stage, error: SqlError, text: String) -> (s: Step)
    requires
        stage_fits(p.deep_view(), stage.deep_view()),
    ensures
        s.deep_view() == failed(p.deep_view(), stage.deep_view(), error.deep_view(), text@),
{
    match stage {
        Stage::Indexing { collection, at, .. } => match p {
            WritePlan::CreateTable { .. } => Step::Do(
                Action::Rollback,
                Stage::Unwinding { collection, at, text, step: UnwindStep::Discard },
            ),
            _ => fail(error),
        },
        Stage::Unwinding { collection, at, text: first, step } => {
            if step == UnwindStep::Discard {
                return Step::Do(
                    Action::BeginDropCollection { collection, cascade: true },
                    Stage::Unwinding { collection, at, text: first, step: UnwindStep::Mark },
                );
            }
            match p {
                WritePlan::CreateTable { name, indexes, .. } => {
                    assert(indexes.deep_view()[at as int] == indexes@[at as int].deep_view());
                    let tail = cat5(
                        name.as_str(),
                        "` carries the DROPPING mark, which every reader refuses; `DROP TABLE ",
                        name.as_str(),
                        " CASCADE` resumes the removal from where it stopped. The first refusal: ",
                        first.as_str(),
                    );
                    let head = cat7(
                        "CREATE TABLE ",
                        name.as_str(),
                        " WITH (...): `",
                        indexes[at].0.as_str(),
                        "` was refused, and removing what the statement had already built then failed too (",
                        text.as_str(),
                        "). The collection `",
                    );
                    fail(SqlError::engine(cat2(head.as_str(), tail.as_str()).as_str()))
                },
                _ => fail(error),
            }
        },
        _ => fail(error),
    }
}

fn behind_done(p: &WritePlan, notices: &Vec<String>, stage: Stage) -> (s: Step)
    requires
        stage_fits(p.deep_view(), stage.deep_view()),
    ensures
        s.deep_view() == done_step(p.deep_view(), texts(notices@), stage.deep_view()),
{
    match stage {
        Stage::Putting(at) => match p {
            WritePlan::Insert { rows, .. } => {
                let n: usize = rows.len();
                if at < n - 1 {
                    Step::Do(Action::PutRow(at + 1), Stage::Putting(at + 1))
                } else {
                    affect(n as u64)
                }
            },
            _ => confused(),
        },
        Stage::Updating => affect(1),
        Stage::Opening => Step::Do(Action::BulkDepth, Stage::Counting { opened: true }),
        Stage::Publishing => behind_publish(p, notices),
        Stage::Created { collection } => if new_count(p) == 0 {
            affect(0)
        } else {
            index_next(p, notices, collection, 0)
        },
        Stage::Indexing { collection, at, step } => match step {
            IndexStep::Publish(index) => Step::Do(
                Action::BuildIndex { index, rows: new_rows(p, at) },
                Stage::Indexing { collection, at, step: IndexStep::Build },
            ),
            IndexStep::Build => Step::Do(
                Action::Commit,
                Stage::Indexing { collection, at, step: IndexStep::Seal },
            ),
            IndexStep::Seal => {
                let n: usize = new_count(p);
                assert(at < n);
                index_next(p, notices, collection, at + 1)
            },
            IndexStep::Create => confused(),
        },
        Stage::Unwinding { collection, at, text, step } => match step {
            UnwindStep::Discard => Step::Do(
                Action::BeginDropCollection { collection, cascade: true },
                Stage::Unwinding { collection, at, text, step: UnwindStep::Mark },
            ),
            UnwindStep::Mark => Step::Do(
                Action::DropCollectionToEnd { collection },
                Stage::Unwinding { collection, at, text, step: UnwindStep::Remove },
            ),
            UnwindStep::Remove => confused(),
        },
        Stage::Dropping { at, step } => match step {
            DropStep::Mark => match old_at(p, at) {
                Some(index) => Step::Do(
                    Action::DropIndexStep { index, rows: DROP_STEP },
                    Stage::Dropping { at, step: DropStep::Remove },
                ),
                None => confused(),
            },
            DropStep::Seal => {
                let n: usize = old_count(p);
                assert(at < n);
                drop_step(p, at + 1)
            },
            DropStep::Remove => confused(),
        },
        Stage::Altering => Step::Do(Action::Commit, Stage::Altered),
        Stage::Altered => match p {
            WritePlan::AlterTable { collection, .. } => index_next(p, notices, *collection, 0),
            _ => confused(),
        },
        Stage::Renaming => Step::Do(Action::Commit, Stage::Sealing),
        Stage::Sealing => affect(0),
        Stage::Marking { collection } => Step::Do(
            Action::DropCollectionToEnd { collection },
            Stage::Removing,
        ),
        Stage::Ending => Step::Do(Action::ClearShortlist, Stage::Resetting),
        Stage::Resetting => affect(0),
        _ => confused(),
    }
}

fn behind_answer(p: &WritePlan, stage: Stage, yes: bool) -> (s: Step)
    requires
        stage_fits(p.deep_view(), stage.deep_view()),
    ensures
        s.deep_view() == found_step(p.deep_view(), stage.deep_view(), yes),
{
    match stage {
        Stage::Finding => if yes {
            Step::Do(Action::UpdateRow, Stage::Updating)
        } else {
            affect(0)
        },
        Stage::Deleting => affect(
            if yes {
                1
            } else {
                0
            },
        ),
        Stage::Closing => if yes {
            affect(0)
        } else {
            Step::Do(Action::BulkDepth, Stage::Counting { opened: false })
        },
        Stage::Dropping { at, step: DropStep::Remove } => if yes {
            Step::Do(Action::Commit, Stage::Dropping { at, step: DropStep::Seal })
        } else {
            match old_at(p, at) {
                Some(index) => Step::Do(
                    Action::DropIndexStep { index, rows: DROP_STEP },
                    Stage::Dropping { at, step: DropStep::Remove },
                ),
                None => confused(),
            }
        },
        _ => confused(),
    }
}

fn behind_creation(stage: Stage, id: u64) -> (s: Step)
    ensures
        s.deep_view() == created_step(stage.deep_view(), id),
{
    match stage {
        Stage::Creating => Step::Do(Action::Commit, Stage::Created { collection: id }),
        Stage::Indexing { collection, at, step: IndexStep::Create } => Step::Do(
            Action::Commit,
            Stage::Indexing { collection, at, step: IndexStep::Publish(id) },
        ),
        _ => confused(),
    }
}

fn made_text(names: &Vec<String>) -> (r: String)
    ensures
        r@ == made_before(texts(names@)),
{
    assert(names@.len() == texts(names@).len());
    if names.len() == 0 {
        owned("no index of the clause had been built")
    } else {
        cat5(
            "the ",
            decimal_usize(names.len()).as_str(),
            " index(es) already built (",
            join(names, ", ").as_str(),
            ")",
        )
    }
}

fn behind_count(p: &WritePlan, notices: &Vec<String>, stage: Stage, n: u64) -> (s: Step)
    requires
        stage_fits(p.deep_view(), stage.deep_view()),
    ensures
        s.deep_view() == count_step(p.deep_view(), texts(notices@), stage.deep_view(), n),
{
    match stage {
        Stage::Counting { opened } => {
            let depth = decimal_u64(n);
            let text = if opened {
                cat3(
                    "BEGIN BULK: the durability point moves to the matching END BULK; ",
                    depth.as_str(),
                    " scope(s) open",
                )
            } else {
                cat3(
                    "END BULK: an inner scope closed and committed nothing; ",
                    depth.as_str(),
                    " scope(s) still open",
                )
            };
            say(notices, text)
        },
        Stage::Removing => affect(n),
        Stage::Unwinding { at, text, step: UnwindStep::Remove, .. } => match p {
            WritePlan::CreateTable { name, indexes, .. } => {
                assert(indexes.deep_view()[at as int] == indexes@[at as int].deep_view());
                let names = names_before(p, at);
                let tail = cat3(
                    made_text(&names).as_str(),
                    " were removed before this refusal was raised, and the catalog is the one the statement started from. The refusal: ",
                    text.as_str(),
                );
                let head = cat7(
                    "CREATE TABLE ",
                    name.as_str(),
                    " WITH (...): `",
                    indexes[at].0.as_str(),
                    "` was refused, so the statement left NOTHING behind -- the collection `",
                    name.as_str(),
                    "` and ",
                );
                fail(SqlError::unsupported(cat2(head.as_str(), tail.as_str()).as_str()))
            },
            _ => confused(),
        },
        _ => confused(),
    }
}

/// The step behind what the last one answered.
pub fn next(p: &WritePlan, notices: &Vec<String>, budget: u64, stage: Stage, event: Event) -> (s:
    Step)
    requires
        stage_fits(p.deep_view(), stage.deep_view()),
    ensures
        s.deep_view() == next_step(
            p.deep_view(),
            texts(notices@),
            budget,
            stage.deep_view(),
            event.deep_view(),
        ),
        step_fits(p.deep_view(), s.deep_view()),
{
    match event {
        Event::Failed { error, text } => behind_failure(p, stage, error, text),
        Event::Done => behind_done(p, notices, stage),
        Event::Found(yes) => behind_answer(p, stage, yes),
        Event::Created(id) => behind_creation(stage, id),
        Event::Count(n) => behind_count(p, notices, stage, n),
        Event::Progress { done, rows_written } => {
            let writing = match stage {
                Stage::Writing => true,
                _ => false,
            };
            if !writing {
                return confused();
            }
            if !done {
                let statement = match p {
                    WritePlan::UpdateWhere { .. } => "UPDATE",
                    _ => "DELETE",
                };
                return fail(
                    SqlError::engine(
                        crate::text::cat6(
                            statement,
                            ": the `rows_written` budget of ",
                            decimal_u64(budget).as_str(),
                            " was reached after ",
                            decimal_u64(rows_written).as_str(),
                            " row(s); the statement is refused rather than truncated. The rows written so far are uncommitted -- ROLLBACK discards them, or raise the budget and run it again.",
                        ).as_str(),
                    ),
                );
            }
            affect(rows_written)
        },
    }
}

// ── what a run does ──────────────────────────────────────────────────────

/// The first step is one that the plan can be in.
pub proof fn start_fits(p: WritePlanV, notices: Seq<Seq<char>>)
    ensures
        step_fits(p, first_step(p, notices)),
{
}

/// The steps that follow a step, while the database answers `events`.
pub open spec fn trace(
    p: WritePlanV,
    notices: Seq<Seq<char>>,
    budget: u64,
    s: StepV,
    events: Seq<EventV>,
) -> StepV
    decreases events.len(),
{
    if events.len() == 0 {
        s
    } else {
        match s {
            StepV::Finish(_) => s,
            StepV::Do(_, stage) => trace(
                p,
                notices,
                budget,
                next_step(p, notices, budget, stage, events[0]),
                events.drop_first(),
            ),
        }
    }
}

/// Steps that were done, one behind the other.
pub open spec fn all_done(n: nat) -> Seq<EventV> {
    Seq::new(n, |i: int| EventV::Done)
}

/// An insert asks for its rows one by one, in order: behind `n` of them that
/// were put it asks for the next, and behind the last it reports as many rows
/// as it has.
pub proof fn insert_puts_every_row(
    collection: u64,
    rows: Seq<(Seq<char>, Seq<(Seq<char>, StoredV)>)>,
    notices: Seq<Seq<char>>,
    budget: u64,
    from: nat,
    n: nat,
)
    requires
        from + n <= rows.len() <= u64::MAX,
        rows.len() <= usize::MAX,
        from < rows.len(),
    ensures
        trace(
            (WritePlanV::Insert { collection, rows }),
            notices,
            budget,
            StepV::Do(Action::PutRow(from as usize), StageV::Putting(from as usize)),
            all_done(n),
        ) == if from + n < rows.len() {
            StepV::Do(
                Action::PutRow((from + n) as usize),
                StageV::Putting((from + n) as usize),
            )
        } else {
            affected(rows.len() as u64)
        },
    decreases n,
{
    let p = WritePlanV::Insert { collection, rows };
    let events = all_done(n);
    if n > 0 {
        assert(events[0] == EventV::Done);
        assert(events.drop_first() =~= all_done((n - 1) as nat));
        if from + 1 < rows.len() {
            insert_puts_every_row(collection, rows, notices, budget, from + 1, (n - 1) as nat);
        } else {
            let last = affected(rows.len() as u64);
            assert(events.drop_first().len() == 0);
            assert(trace(p, notices, budget, last, events.drop_first()) == last);
        }
    }
}

/// A new table whose index is refused leaves nothing behind: what is open is
/// discarded, the collection is dropped with all that is in it, and the
/// statement fails.
pub proof fn refused_table_is_removed(
    p: WritePlanV,
    notices: Seq<Seq<char>>,
    budget: u64,
    collection: u64,
    at: usize,
    step: IndexStep,
    error: SqlErrorV,
    text: Seq<char>,
    n: u64,
)
    requires
        p is CreateTable,
        at < new_indexes(p).len(),
    ensures
        ({
            let stage = StageV::Indexing { collection, at, step };
            let s1 = next_step(p, notices, budget, stage, EventV::Failed { error, text });
            let s2 = trace(p, notices, budget, s1, seq![EventV::Done]);
            let s3 = trace(p, notices, budget, s1, seq![EventV::Done, EventV::Done]);
            let s4 = trace(
                p,
                notices,
                budget,
                s1,
                seq![EventV::Done, EventV::Done, EventV::Count(n)],
            );
            &&& s1 is Do && s1->Do_0 == Action::Rollback
            &&& s2 is Do && s2->Do_0 == (Action::BeginDropCollection { collection, cascade: true })
            &&& s3 is Do && s3->Do_0 == (Action::DropCollectionToEnd { collection })
            &&& s4 == fails(
                unwound(
                    table_name(p),
                    new_indexes(p)[at as int].0,
                    new_names(p, at as int),
                    text,
                ),
            )
        }),
{
    let stage = StageV::Indexing { collection, at, step };
    let s1 = next_step(p, notices, budget, stage, EventV::Failed { error, text });
    let one = seq![EventV::Done];
    let two = seq![EventV::Done, EventV::Done];
    let three = seq![EventV::Done, EventV::Done, EventV::Count(n)];
    assert(one.drop_first() =~= Seq::<EventV>::empty());
    assert(two.drop_first() =~= one);
    assert(three.drop_first() =~= seq![EventV::Done, EventV::Count(n)]);
    assert(three.drop_first().drop_first() =~= seq![EventV::Count(n)]);
    assert(three.drop_first().drop_first().drop_first() =~= Seq::<EventV>::empty());
    reveal_with_fuel(trace, 5);
}

/// An index that a plan creates is committed, built to its end and committed
/// again before the next one is begun.
pub proof fn index_is_built_to_its_end(
    p: WritePlanV,
    notices: Seq<Seq<char>>,
    budget: u64,
    collection: u64,
    at: usize,
    index: u64,
)
    requires
        at < new_indexes(p).len() <= usize::MAX,
    ensures
        ({
            let s = make_index(p, notices, collection, at as int);
            let made = EventV::Created(index);
            let done = EventV::Done;
            let rows = chunk_rows(new_indexes(p)[at as int].1);
            let s1 = trace(p, notices, budget, s, seq![made]);
            let s2 = trace(p, notices, budget, s, seq![made, done]);
            let s3 = trace(p, notices, budget, s, seq![made, done, done]);
            let s4 = trace(p, notices, budget, s, seq![made, done, done, done]);
            &&& s is Do && s->Do_0 == (Action::CreateIndex { collection, at })
            &&& s1 is Do && s1->Do_0 == Action::Commit
            &&& s2 is Do && s2->Do_0 == (Action::BuildIndex { index, rows })
            &&& s3 is Do && s3->Do_0 == Action::Commit
            &&& s4 == make_index(p, notices, collection, at + 1)
        }),
{
    let made = EventV::Created(index);
    let done = EventV::Done;
    assert(seq![made].drop_first() =~= Seq::<EventV>::empty());
    assert(seq![made, done].drop_first() =~= seq![done]);
    assert(seq![made, done, done].drop_first() =~= seq![done, done]);
    assert(seq![made, done, done, done].drop_first() =~= seq![done, done, done]);
    assert(seq![done, done, done].drop_first() =~= seq![done, done]);
    assert(seq![done, done].drop_first() =~= seq![done]);
    assert(seq![done].drop_first() =~= Seq::<EventV>::empty());
    reveal_with_fuel(trace, 5);
}

/// The end of a transaction clears the shortlist width, which was local to it.
pub proof fn ending_clears_the_shortlist(p: WritePlanV, notices: Seq<Seq<char>>, budget: u64)
    requires
        p is Commit || p is Rollback,
    ensures
        ({
            let s = first_step(p, notices);
            let done = EventV::Done;
            let s1 = trace(p, notices, budget, s, seq![done]);
            let s2 = trace(p, notices, budget, s, seq![done, done]);
            &&& s is Do && s->Do_0 == if p is Commit {
                Action::Commit
            } else {
                Action::Rollback
            }
            &&& s1 is Do && s1->Do_0 == Action::ClearShortlist
            &&& s2 == affected(0)
        }),
{
    let done = EventV::Done;
    assert(seq![done].drop_first() =~= Seq::<EventV>::empty());
    assert(seq![done, done].drop_first() =~= seq![done]);
    reveal_with_fuel(trace, 3);
}

// ── the rows of an update ────────────────────────────────────────────────

/// A field of a row, as a row expression reads it.
pub open spec fn field_of_row(row: Seq<(Seq<char>, ValueV)>, name: Seq<char>) -> SqlValueV {
    match member_from(row, name, 0) {
        Some(v) => row_value(v),
        None => SqlValueV::Missing,
    }
}

/// A field of a row, as a row expression reads it.
pub fn field_value(row: &Vec<(String, Value)>, name: &str) -> (r: SqlValue)
    ensures
        r.deep_view() == field_of_row(row.deep_view(), name@),
{
    match member(row, name) {
        Some(v) => v.dup().into_row(),
        None => SqlValue::Missing,
    }
}

/// Why a row expression gives no value to store.
#[derive(Debug)]
pub enum RowFault {
    Eval(SqlError),
    /// The value is not of the column's kind.
    Kind(String),
}

pub enum RowFaultV {
    Eval(SqlErrorV),
    Kind(Seq<char>),
}

impl DeepView for RowFault {
    type V = RowFaultV;

    open spec fn deep_view(&self) -> RowFaultV {
        match *self {
            RowFault::Eval(e) => RowFaultV::Eval(e.deep_view()),
            RowFault::Kind(text) => RowFaultV::Kind(text@),
        }
    }
}

/// The values that a row expression reads.
pub open spec fn row_fields(fields: Seq<Seq<char>>, row: Seq<(Seq<char>, ValueV)>) -> Seq<
    SqlValueV,
> {
    fields.map_values(|name: Seq<char>| field_of_row(row, name))
}

/// What a row expression stores in a column of one row.
pub open spec fn set_in_row(
    expr: CompiledRowV,
    kind: Kind,
    column: Seq<char>,
    fields: Seq<Seq<char>>,
    row: Seq<(Seq<char>, ValueV)>,
) -> Result<StoredV, RowFaultV> {
    match evaluated(expr, row_fields(fields, row)) {
        Err(e) => Err(RowFaultV::Eval(e)),
        Ok(v) => match stored_value(kind, column, v) {
            Err(text) => Err(RowFaultV::Kind(text)),
            Ok(s) => Ok(s),
        },
    }
}

/// What a row expression stores in a column of one row.
pub fn set_row(
    expr: &CompiledRow,
    kind: Kind,
    column: &str,
    fields: &Vec<String>,
    row: &Vec<(String, Value)>,
) -> (r: Result<Stored, RowFault>)
    ensures
        match set_in_row(expr.deep_view(), kind, column@, texts(fields@), row.deep_view()) {
            Ok(s) => r is Ok && r->Ok_0.deep_view() == s,
            Err(e) => r is Err && r->Err_0.deep_view() == e,
        },
{
    let ghost names = texts(fields@);
    let mut values: Vec<SqlValue> = Vec::new();
    let mut i: usize = 0;
    while i < fields.len()
        invariant
            i <= fields@.len(),
            names == texts(fields@),
            values@.len() == i,
            forall|k: int|
                0 <= k < i ==> (#[trigger] values@[k]).deep_view() == field_of_row(
                    row.deep_view(),
                    names[k],
                ),
        decreases fields@.len() - i,
    {
        assert(names[i as int] == fields@[i as int]@);
        values.push(field_value(row, fields[i].as_str()));
        i = i + 1;
    }
    assert(row_view(values@) =~= row_fields(names, row.deep_view()));
    match expr.eval(&values) {
        Err(e) => Err(RowFault::Eval(e)),
        Ok(v) => match store_value(kind, column, v) {
            Err(text) => Err(RowFault::Kind(text)),
            Ok(s) => Ok(s),
        },
    }
}

fn dup_stored(v: &Stored) -> (r: Stored)
    ensures
        r.deep_view() == v.deep_view(),
{
    match v {
        Stored::Value(v) => Stored::Value(v.dup()),
        Stored::Widened(n) => Stored::Widened(*n),
        Stored::Vector(VectorArg::Bits(bits)) => Stored::Vector(VectorArg::Bits(dup_bits(bits))),
        Stored::Vector(VectorArg::Written(parts)) => Stored::Vector(
            VectorArg::Written(copy_texts(parts)),
        ),
        Stored::Json(text) => Stored::Json(text.clone()),
    }
}

/// What an `UPDATE` stores in one row: each column it sets, in the order they
/// were written, with a constant or with what an expression gives over the row.
pub open spec fn patched(
    sets: Seq<(Seq<char>, CompiledSetV)>,
    fields: Seq<Seq<char>>,
    row: Seq<(Seq<char>, ValueV)>,
) -> Result<Seq<(Seq<char>, StoredV)>, RowFaultV>
    decreases sets.len(),
{
    if sets.len() == 0 {
        Ok(Seq::empty())
    } else {
        match patched(sets.drop_last(), fields, row) {
            Err(e) => Err(e),
            Ok(done) => match sets.last().1 {
                CompiledSetV::Lit(v) => Ok(done.push((sets.last().0, v))),
                CompiledSetV::Row { expr, kind } => match set_in_row(
                    expr,
                    kind,
                    sets.last().0,
                    fields,
                    row,
                ) {
                    Err(e) => Err(e),
                    Ok(v) => Ok(done.push((sets.last().0, v))),
                },
            },
        }
    }
}

proof fn patched_stop(
    sets: Seq<(Seq<char>, CompiledSetV)>,
    fields: Seq<Seq<char>>,
    row: Seq<(Seq<char>, ValueV)>,
    n: int,
)
    requires
        0 <= n <= sets.len(),
        patched(sets.take(n), fields, row) is Err,
    ensures
        patched(sets, fields, row) == patched(sets.take(n), fields, row),
    decreases sets.len() - n,
{
    if n < sets.len() {
        take_next(sets, n);
        patched_stop(sets, fields, row, n + 1);
    } else {
        take_all(sets);
    }
}

/// What an `UPDATE` stores in one row.
pub fn patch_row(
    sets: &Vec<(String, CompiledSet)>,
    fields: &Vec<String>,
    row: &Vec<(String, Value)>,
) -> (r: Result<Vec<(String, Stored)>, RowFault>)
    ensures
        match patched(sets.deep_view(), texts(fields@), row.deep_view()) {
            Ok(list) => r is Ok && r->Ok_0.deep_view() == list,
            Err(e) => r is Err && r->Err_0.deep_view() == e,
        },
{
    let ghost all = sets.deep_view();
    let ghost names = texts(fields@);
    let ghost view = row.deep_view();
    let mut out: Vec<(String, Stored)> = Vec::new();
    let mut i: usize = 0;
    assert(all.take(0) =~= Seq::<(Seq<char>, CompiledSetV)>::empty());
    assert(out.deep_view() =~= Seq::<(Seq<char>, StoredV)>::empty());
    while i < sets.len()
        invariant
            i <= sets@.len(),
            all == sets.deep_view(),
            names == texts(fields@),
            view == row.deep_view(),
            patched(all.take(i as int), names, view) == Ok::<
                Seq<(Seq<char>, StoredV)>,
                RowFaultV,
            >(out.deep_view()),
        decreases sets@.len() - i,
    {
        proof {
            take_next(all, i as int);
            assert(all[i as int] == sets@[i as int].deep_view());
        }
        let column = &sets[i].0;
        let value = match &sets[i].1 {
            CompiledSet::Lit(v) => dup_stored(v),
            CompiledSet::Row { expr, kind } => match set_row(
                expr,
                *kind,
                column.as_str(),
                fields,
                row,
            ) {
                Ok(v) => v,
                Err(e) => {
                    proof {
                        patched_stop(all, names, view, i as int + 1);
                    }
                    return Err(e);
                },
            },
        };
        add_entry(&mut out, column.clone(), value);
        i = i + 1;
    }
    proof {
        take_all(all);
    }
    Ok(out)
}

} // verus!
