//! What a returned row and a finished group look like.

use vstd::prelude::*;
use crate::compile::bind::BinderV;
use crate::compile::env::CollectionV;
use crate::compile::log::{EnvV, LogV};
use crate::compile::plan::{AggOutput, AggregatePlan, AggregatePlanV, Output, SelectPlan, SelectPlanV};
use crate::compile::rebind::rebound_select;
use crate::compile::row::evaluated;
use crate::compile::select::{
    graph_items, pattern_columns, select_item, select_items, select_of, star_items, SelectListV,
};
use crate::error::{gives, SqlError, SqlErrorV};
use crate::instant::{date_text, format_date, format_timestamp, timestamp_text};
use crate::number::{Real, RealV};
use crate::result::{SqlRow, SqlRowV};
use crate::stmt::{GraphColumnV, SelectItemV, SelectStmtV};
use crate::value::{row_view, EntityId, Kind, SqlValue, SqlValueV};

verus! {

// ── rows ─────────────────────────────────────────────────────────────────

/// Whether a plan has a title for each output, and a function for each output
/// that is one.
pub open spec fn outputs_fit(outputs: Seq<Output>, titles: nat, functions: nat) -> bool {
    &&& outputs.len() == titles
    &&& forall|i: int|
        0 <= i < outputs.len() ==> ((#[trigger] outputs[i]) is Row ==> outputs[i]->Row_0
            < functions)
}

pub open spec fn plan_fits(p: SelectPlanV) -> bool {
    outputs_fit(p.outputs, p.columns.len(), p.functions.len())
}

/// One returned row, as the engine hands it out: its identity, its external
/// key where the plan reads it, the projected values and the ranking value.
#[derive(Debug)]
pub struct ReturnedRow {
    pub id: EntityId,
    pub key: Option<String>,
    pub fields: Vec<SqlValue>,
    pub order: SqlValue,
}

pub struct ReturnedRowV {
    pub id: EntityId,
    pub key: Option<Seq<char>>,
    pub fields: Seq<SqlValueV>,
    pub order: SqlValueV,
}

impl DeepView for ReturnedRow {
    type V = ReturnedRowV;

    open spec fn deep_view(&self) -> ReturnedRowV {
        ReturnedRowV {
            id: self.id,
            key: self.key.deep_view(),
            fields: self.fields.deep_view(),
            order: self.order.deep_view(),
        }
    }
}

/// The value of one output.
pub open spec fn output_value(p: SelectPlanV, row: ReturnedRowV, output: Output) -> Result<
    SqlValueV,
    SqlErrorV,
> {
    match output {
        Output::Id => Ok(SqlValueV::Id(row.id)),
        Output::Field(at) => Ok(
            if at < row.fields.len() {
                row.fields[at as int]
            } else {
                SqlValueV::Missing
            },
        ),
        Output::Key => Ok(
            match row.key {
                Some(key) => SqlValueV::Text(key),
                None => SqlValueV::Missing,
            },
        ),
        Output::OrderValue => Ok(row.order),
        Output::Row(at) => evaluated(p.functions[at as int], row.fields),
    }
}

/// The values of the first `n` outputs.
pub open spec fn output_values(p: SelectPlanV, row: ReturnedRowV, n: nat) -> Result<
    Seq<SqlValueV>,
    SqlErrorV,
>
    decreases n,
{
    if n == 0 {
        Ok(Seq::empty())
    } else {
        match output_values(p, row, (n - 1) as nat) {
            Err(e) => Err(e),
            Ok(done) => match output_value(p, row, p.outputs[n - 1]) {
                Err(e) => Err(e),
                Ok(v) => Ok(done.push(v)),
            },
        }
    }
}

proof fn output_values_stop(p: SelectPlanV, row: ReturnedRowV, n: nat, m: nat)
    requires
        n <= m,
        output_values(p, row, n) is Err,
    ensures
        output_values(p, row, m) == output_values(p, row, n),
    decreases m - n,
{
    if n < m {
        output_values_stop(p, row, n, (m - 1) as nat);
    }
}

/// A returned row, as the statement's columns.
pub open spec fn answered_row(p: SelectPlanV, row: ReturnedRowV) -> Result<SqlRowV, SqlErrorV> {
    match output_values(p, row, p.outputs.len()) {
        Err(e) => Err(e),
        Ok(values) => Ok(SqlRowV { id: row.id, values }),
    }
}

impl SelectPlan {
    /// Whether a column is the external key, which is one read for each
    /// returned row.
    pub fn reads_keys(&self) -> (r: bool)
        ensures
            r == self.deep_view().outputs.contains(Output::Key),
    {
        crate::compile::select::reads_key(&self.outputs)
    }

    /// One returned row, as the statement's columns.
    pub fn row(&self, row: &ReturnedRow) -> (r: Result<SqlRow, SqlError>)
        requires
            plan_fits(self.deep_view()),
        ensures
            gives(r, answered_row(self.deep_view(), row.deep_view())),
    {
        let ghost p = self.deep_view();
        let ghost view = row.deep_view();
        let mut values: Vec<SqlValue> = Vec::new();
        let mut i: usize = 0;
        assert(values.deep_view() =~= Seq::<SqlValueV>::empty());
        assert(row_view(row.fields@) =~= view.fields);
        while i < self.outputs.len()
            invariant
                i <= self.outputs@.len(),
                p == self.deep_view(),
                view == row.deep_view(),
                plan_fits(p),
                row_view(row.fields@) == view.fields,
                output_values(p, view, i as nat) == Ok::<Seq<SqlValueV>, SqlErrorV>(
                    values.deep_view(),
                ),
            decreases self.outputs@.len() - i,
        {
            let ghost before = values.deep_view();
            let output = self.outputs[i];
            assert(p.outputs[i as int] == output);
            let value = match output {
                Output::Id => SqlValue::Id(row.id),
                Output::Field(at) => if at < row.fields.len() {
                    row.fields[at].dup()
                } else {
                    SqlValue::Missing
                },
                Output::Key => match &row.key {
                    Some(key) => SqlValue::Text(key.clone()),
                    None => SqlValue::Missing,
                },
                Output::OrderValue => row.order.dup(),
                Output::Row(at) => {
                    assert(p.functions[at as int] == self.functions@[at as int].deep_view());
                    match self.functions[at].eval(&row.fields) {
                        Ok(v) => v,
                        Err(e) => {
                            proof {
                                output_values_stop(p, view, (i + 1) as nat, p.outputs.len());
                            }
                            return Err(e);
                        },
                    }
                },
            };
            values.push(value);
            assert(values.deep_view() =~= before.push(value.deep_view()));
            i = i + 1;
        }
        Ok(SqlRow { id: row.id, values })
    }
}

// ── groups ───────────────────────────────────────────────────────────────

/// The key of a group.
#[derive(Debug)]
pub enum GroupValue {
    Nullish,
    Bool(bool),
    I64(i64),
    F64(Real),
    Text(String),
}

pub enum GroupValueV {
    Nullish,
    Bool(bool),
    I64(i64),
    F64(RealV),
    Text(Seq<char>),
}

impl DeepView for GroupValue {
    type V = GroupValueV;

    open spec fn deep_view(&self) -> GroupValueV {
        match *self {
            GroupValue::Nullish => GroupValueV::Nullish,
            GroupValue::Bool(b) => GroupValueV::Bool(b),
            GroupValue::I64(n) => GroupValueV::I64(n),
            GroupValue::F64(n) => GroupValueV::F64(n.deep_view()),
            GroupValue::Text(s) => GroupValueV::Text(s@),
        }
    }
}

/// The value of an accumulator.
#[derive(Debug)]
pub enum AggValue {
    Count(u64),
    I64(i64),
    F64(Real),
    Text(String),
    Bool(bool),
    Null,
}

pub enum AggValueV {
    Count(u64),
    I64(i64),
    F64(RealV),
    Text(Seq<char>),
    Bool(bool),
    Null,
}

impl DeepView for AggValue {
    type V = AggValueV;

    open spec fn deep_view(&self) -> AggValueV {
        match *self {
            AggValue::Count(n) => AggValueV::Count(n),
            AggValue::I64(n) => AggValueV::I64(n),
            AggValue::F64(n) => AggValueV::F64(n.deep_view()),
            AggValue::Text(s) => AggValueV::Text(s@),
            AggValue::Bool(b) => AggValueV::Bool(b),
            AggValue::Null => AggValueV::Null,
        }
    }
}

/// A finished group.
#[derive(Debug)]
pub struct GroupRow {
    pub key: Option<GroupValue>,
    pub values: Vec<AggValue>,
}

pub struct GroupRowV {
    pub key: Option<GroupValueV>,
    pub values: Seq<AggValueV>,
}

impl DeepView for GroupRow {
    type V = GroupRowV;

    open spec fn deep_view(&self) -> GroupRowV {
        GroupRowV { key: self.key.deep_view(), values: self.values.deep_view() }
    }
}

/// A count in a signed cell; one that is too large wraps.
pub open spec fn count_cell(n: u64) -> i64 {
    if n <= i64::MAX {
        n as i64
    } else {
        (n - 0x1_0000_0000_0000_0000) as i64
    }
}

pub open spec fn agg_cell(v: AggValueV) -> SqlValueV {
    match v {
        AggValueV::Count(n) => SqlValueV::Int(count_cell(n)),
        AggValueV::I64(n) => SqlValueV::Int(n),
        AggValueV::F64(n) => SqlValueV::Float(n),
        AggValueV::Text(s) => SqlValueV::Text(s),
        AggValueV::Bool(b) => SqlValueV::Bool(b),
        AggValueV::Null => SqlValueV::Null,
    }
}

/// The value of an accumulator, as a row holds it.
pub fn agg_value(value: &AggValue) -> (r: SqlValue)
    ensures
        r.deep_view() == agg_cell(value.deep_view()),
{
    match value {
        AggValue::Count(n) => SqlValue::Int(
            if *n <= i64::MAX as u64 {
                *n as i64
            } else {
                ((*n as i128) - 0x1_0000_0000_0000_0000) as i64
            },
        ),
        AggValue::I64(n) => SqlValue::Int(*n),
        AggValue::F64(n) => SqlValue::Float(n.dup()),
        AggValue::Text(s) => SqlValue::Text(s.clone()),
        AggValue::Bool(b) => SqlValue::Bool(*b),
        AggValue::Null => SqlValue::Null,
    }
}

/// The key of a group; one that is a declared instant is printed as ISO text,
/// and `iso` says whether only its date is.
pub open spec fn group_cell(v: Option<GroupValueV>, iso: Option<bool>) -> SqlValueV {
    match v {
        None | Some(GroupValueV::Nullish) => SqlValueV::Null,
        Some(GroupValueV::Bool(b)) => SqlValueV::Bool(b),
        Some(GroupValueV::I64(n)) => match iso {
            Some(true) => SqlValueV::Text(date_text(n as int)),
            Some(false) => SqlValueV::Text(timestamp_text(n as int)),
            None => SqlValueV::Int(n),
        },
        Some(GroupValueV::F64(n)) => SqlValueV::Float(n),
        Some(GroupValueV::Text(s)) => SqlValueV::Text(s),
    }
}

/// The key of a group, as a row holds it.
pub fn group_key_value(value: &Option<GroupValue>, iso: Option<bool>) -> (r: SqlValue)
    ensures
        r.deep_view() == group_cell(value.deep_view(), iso),
{
    match value {
        None => SqlValue::Null,
        Some(GroupValue::Nullish) => SqlValue::Null,
        Some(GroupValue::Bool(b)) => SqlValue::Bool(*b),
        Some(GroupValue::I64(n)) => match iso {
            Some(true) => SqlValue::Text(format_date(*n)),
            Some(false) => SqlValue::Text(format_timestamp(*n)),
            None => SqlValue::Int(*n),
        },
        Some(GroupValue::F64(n)) => SqlValue::Float(n.dup()),
        Some(GroupValue::Text(s)) => SqlValue::Text(s.clone()),
    }
}

/// A group is no row of a collection: it reports the sequence that no row has.
pub open spec fn group_id(collection: u64) -> EntityId {
    EntityId { collection, sequence: 0 }
}

pub fn group_identity(collection: u64) -> (r: EntityId)
    ensures
        r == group_id(collection),
{
    EntityId { collection, sequence: 0 }
}

/// The value of one output of an aggregate.
pub open spec fn group_output(p: AggregatePlanV, g: GroupRowV, output: AggOutput) -> SqlValueV {
    match output {
        AggOutput::Key => group_cell(g.key, p.key_iso),
        AggOutput::Value(at) => if at < g.values.len() {
            agg_cell(g.values[at as int])
        } else {
            SqlValueV::Missing
        },
    }
}

impl AggregatePlan {
    /// One finished group, as the statement's columns.
    pub fn row(&self, group: &GroupRow) -> (r: SqlRow)
        ensures
            r.deep_view() == (SqlRowV {
                id: group_id(self.collection),
                values: self.deep_view().outputs.map_values(
                    |o: AggOutput| group_output(self.deep_view(), group.deep_view(), o),
                ),
            }),
    {
        let ghost p = self.deep_view();
        let ghost g = group.deep_view();
        let mut values: Vec<SqlValue> = Vec::new();
        let mut i: usize = 0;
        while i < self.outputs.len()
            invariant
                i <= self.outputs@.len(),
                p == self.deep_view(),
                g == group.deep_view(),
                values@.len() == i,
                forall|k: int|
                    0 <= k < i ==> (#[trigger] values@[k]).deep_view() == group_output(
                        p,
                        g,
                        p.outputs[k],
                    ),
            decreases self.outputs@.len() - i,
        {
            let output = self.outputs[i];
            let value = match output {
                AggOutput::Key => group_key_value(&group.key, self.key_iso),
                AggOutput::Value(at) => if at < group.values.len() {
                    assert(g.values[at as int] == group.values@[at as int].deep_view());
                    agg_value(&group.values[at])
                } else {
                    SqlValue::Missing
                },
            };
            values.push(value);
            i = i + 1;
        }
        assert(values.deep_view() =~= p.outputs.map_values(|o: AggOutput| group_output(p, g, o)));
        SqlRow { id: group_identity(self.collection), values }
    }
}

// ── every plan fits ──────────────────────────────────────────────────────

/// Whether a select list has a title for each output, and a function for each
/// output that is one.
pub open spec fn list_fits(l: SelectListV) -> bool {
    outputs_fit(l.outputs, l.columns.len(), l.functions.len())
}

proof fn star_fits(c: CollectionV, fields: Seq<(Seq<char>, Kind)>, list: SelectListV, log: LogV)
    requires
        list_fits(list),
        star_items(c, fields, list, log) is Ok,
    ensures
        list_fits(star_items(c, fields, list, log)->Ok_0.0),
    decreases fields.len(),
{
    if fields.len() > 0 {
        star_fits(c, fields.drop_last(), list, log);
    }
}

proof fn item_fits(
    env: EnvV,
    c: CollectionV,
    ranked: bool,
    item: SelectItemV,
    alias: Option<Seq<char>>,
    list: SelectListV,
    log: LogV,
)
    requires
        list_fits(list),
        select_item(env, c, ranked, item, alias, list, log) is Ok,
    ensures
        list_fits(select_item(env, c, ranked, item, alias, list, log)->Ok_0.0),
{
    if item is Star {
        star_fits(c, c.fields, list, log);
    }
}

proof fn items_fit(
    env: EnvV,
    c: CollectionV,
    ranked: bool,
    items: Seq<(SelectItemV, Option<Seq<char>>)>,
    list: SelectListV,
    log: LogV,
)
    requires
        list_fits(list),
        select_items(env, c, ranked, items, list, log) is Ok,
    ensures
        list_fits(select_items(env, c, ranked, items, list, log)->Ok_0.0),
    decreases items.len(),
{
    if items.len() > 0 {
        items_fit(env, c, ranked, items.drop_last(), list, log);
        let (done, log) = select_items(env, c, ranked, items.drop_last(), list, log)->Ok_0;
        item_fits(env, c, ranked, items.last().0, items.last().1, done, log);
    }
}

proof fn graph_items_fit(
    env: EnvV,
    c: CollectionV,
    ranked: bool,
    items: Seq<(GraphColumnV, Seq<char>)>,
    list: SelectListV,
    log: LogV,
)
    requires
        list_fits(list),
        graph_items(env, c, ranked, items, list, log) is Ok,
    ensures
        list_fits(graph_items(env, c, ranked, items, list, log)->Ok_0.0),
    decreases items.len(),
{
    if items.len() > 0 {
        graph_items_fit(env, c, ranked, items.drop_last(), list, log);
        let (done, log) = graph_items(env, c, ranked, items.drop_last(), list, log)->Ok_0;
        if let GraphColumnV::Node(item) = items.last().0 {
            item_fits(env, c, ranked, item, Some(items.last().1), done, log);
        }
    }
}

/// Every plan of a `SELECT` fits: it has a title for each output, and every
/// function that an output names.
pub proof fn select_plan_fits(env: EnvV, s: SelectStmtV, log: LogV)
    requires
        select_of(env, s, log) is Ok,
    ensures
        plan_fits(select_of(env, s, log)->Ok_0.0),
{
    let empty = SelectListV {
        columns: Seq::empty(),
        outputs: Seq::empty(),
        fields: Seq::empty(),
        functions: Seq::empty(),
    };
    assert(list_fits(empty));
    assert forall|c: CollectionV, l: LogV| #[trigger]
        select_items(env, c, s.order is Some, s.items, empty, l) is Ok implies list_fits(
        select_items(env, c, s.order is Some, s.items, empty, l)->Ok_0.0,
    ) by {
        items_fit(env, c, s.order is Some, s.items, empty, l);
    }
    assert forall|c: CollectionV, l: LogV| #[trigger]
        graph_items(env, c, s.order is Some, pattern_columns(s.source), empty, l) is Ok implies list_fits(
        graph_items(env, c, s.order is Some, pattern_columns(s.source), empty, l)->Ok_0.0,
    ) by {
        graph_items_fit(env, c, s.order is Some, pattern_columns(s.source), empty, l);
    }
}

/// A plan that fits still does when it is bound again.
pub proof fn rebound_plan_fits(b: BinderV, p: SelectPlanV)
    requires
        plan_fits(p),
        rebound_select(b, p) is Ok,
    ensures
        plan_fits(rebound_select(b, p)->Ok_0),
{
}

} // verus!
