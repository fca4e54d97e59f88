//! What a statement that folds rows reports of a group, and that its plan
//! reports the same.

use vstd::prelude::*;
use crate::ast::{agg_func_text, AggFunc};
use crate::compile::aggregate::{
    accumulator, alias_from, distinct_column, fold_items, folded_of, goes_by, group_expr, group_key,
    having_items, written_from, FoldListV, WrittenV,
};
use crate::compile::bind::{number_of, NumberV};
use crate::compile::env::{ready_from, CollectionV, IndexFamily};
use crate::compile::log::{EnvV, LogV};
use crate::compile::plan::{
    AggOutput, AggregateFn, AggregatePlanV, GroupOrder, GroupPredicateV, OwnedAccumulatorV,
    OwnedAggInputV, OwnedGroupKeyV,
};
use crate::compile::predicates::where_filters;
use crate::meaning::condition::so;
use crate::meaning::scores::{indexed_in, read_as, ready_reads, Indexes};
use crate::parser::cursor::{ahead, is_sym, word};
use crate::parser::select::{aggregate_call, aggregate_named};
use crate::scan::Order;
use crate::stmt::{AggArgV, GroupExprV, HavingPredicateV, SelectItemV, SelectStmtV};
use crate::token::{Sym, TokenV};

verus! {

// ── folding ──────────────────────────────────────────────────────────────

/// What rows fold to.
pub enum Folded {
    Nothing,
    Number(int),
    /// A sum, and of how many.
    Mean(int, nat),
}

/// The rows of a collection. The values of a column are numbered in their order.
pub struct Rows {
    /// What a row holds in a column.
    pub cell: spec_fn(int, Seq<char>) -> Option<int>,
    /// A value over a divisor.
    pub over: spec_fn(int, i64) -> int,
    /// How what rows fold to is ordered against a number.
    pub against: spec_fn(Folded, NumberV) -> Option<Order>,
    pub indexes: Indexes,
}

/// What the rows of a group hold in a column.
pub open spec fn held(w: Rows, rows: Seq<int>, column: Seq<char>) -> Seq<Option<int>> {
    Seq::new(rows.len(), |i: int| (w.cell)(rows[i], column))
}

/// How many values there are.
pub open spec fn how_many(values: Seq<Option<int>>) -> nat
    decreases values.len(),
{
    if values.len() == 0 {
        0
    } else {
        how_many(values.drop_last()) + if values.last() is Some {
            1nat
        } else {
            0nat
        }
    }
}

/// The sum of the values.
pub open spec fn total(values: Seq<Option<int>>) -> int
    decreases values.len(),
{
    if values.len() == 0 {
        0
    } else {
        total(values.drop_last()) + match values.last() {
            Some(x) => x,
            None => 0,
        }
    }
}

/// Whether a function of values is `r`. The largest is one of the values that
/// no other exceeds, the smallest one that exceeds no other.
pub open spec fn answers(function: AggFunc, values: Seq<Option<int>>, r: Folded) -> bool {
    if function != AggFunc::Count && (forall|i: int|
        0 <= i < values.len() ==> #[trigger] values[i] is None) {
        r == Folded::Nothing
    } else {
        match function {
            AggFunc::Count => r == Folded::Number(how_many(values) as int),
            AggFunc::Sum => r == Folded::Number(total(values)),
            AggFunc::Avg => r == Folded::Mean(total(values), how_many(values)),
            AggFunc::Min => exists|x: int| #[trigger]
                values.contains(Some(x)) && r == Folded::Number(x) && forall|y: int| #[trigger]
                    values.contains(Some(y)) ==> x <= y,
            AggFunc::Max => exists|x: int| #[trigger]
                values.contains(Some(x)) && r == Folded::Number(x) && forall|y: int| #[trigger]
                    values.contains(Some(y)) ==> y <= x,
        }
    }
}

/// Whether an aggregate of a group of rows is `r`.
pub open spec fn written_folds(
    w: Rows,
    function: AggFunc,
    argument: AggArgV,
    rows: Seq<int>,
    r: Folded,
) -> bool {
    match argument {
        AggArgV::Star => r == Folded::Number(rows.len() as int),
        AggArgV::Column(column) => answers(function, held(w, rows, column), r),
    }
}

/// An accumulator after one more value.
pub open spec fn stepped(f: AggregateFn, done: Folded, value: Option<int>) -> Folded {
    match (f, done, value) {
        (AggregateFn::CountStar, Folded::Number(n), _) => Folded::Number(n + 1),
        (AggregateFn::Count, Folded::Number(n), Some(_)) => Folded::Number(n + 1),
        (AggregateFn::Sum, Folded::Nothing, Some(x)) => Folded::Number(x),
        (AggregateFn::Sum, Folded::Number(n), Some(x)) => Folded::Number(n + x),
        (AggregateFn::Avg, Folded::Nothing, Some(x)) => Folded::Mean(x, 1),
        (AggregateFn::Avg, Folded::Mean(n, k), Some(x)) => Folded::Mean(n + x, k + 1),
        (AggregateFn::Min, Folded::Nothing, Some(x)) => Folded::Number(x),
        (AggregateFn::Min, Folded::Number(n), Some(x)) => Folded::Number(
            if x < n {
                x
            } else {
                n
            },
        ),
        (AggregateFn::Max, Folded::Nothing, Some(x)) => Folded::Number(x),
        (AggregateFn::Max, Folded::Number(n), Some(x)) => Folded::Number(
            if x > n {
                x
            } else {
                n
            },
        ),
        _ => done,
    }
}

/// What an accumulator holds after a list of values.
pub open spec fn running(f: AggregateFn, values: Seq<Option<int>>) -> Folded
    decreases values.len(),
{
    if values.len() == 0 {
        if f == AggregateFn::CountStar || f == AggregateFn::Count {
            Folded::Number(0)
        } else {
            Folded::Nothing
        }
    } else {
        stepped(f, running(f, values.drop_last()), values.last())
    }
}

/// What a compiled accumulator makes of a group of rows.
pub open spec fn accumulated(w: Rows, a: OwnedAccumulatorV, rows: Seq<int>) -> Folded {
    running(
        a.function,
        match a.input {
            None => Seq::new(rows.len(), |i: int| None::<int>),
            Some(OwnedAggInputV::Field(column)) => held(w, rows, column),
            Some(OwnedAggInputV::Index(index)) => held(
                w,
                rows,
                read_as(w.indexes, index, IndexFamily::Scalar),
            ),
        },
    )
}

proof fn held_back(values: Seq<Option<int>>)
    requires
        values.len() > 0,
    ensures
        forall|x: int| #[trigger]
            values.contains(Some(x)) <==> values.drop_last().contains(Some(x)) || values.last()
                == Some(x),
{
    assert forall|x: int| #[trigger] values.contains(Some(x)) implies values.drop_last().contains(
        Some(x),
    ) || values.last() == Some(x) by {
        let i = choose|i: int| 0 <= i < values.len() && values[i] == Some(x);
        if i < values.len() - 1 {
            assert(values.drop_last()[i] == Some(x));
        }
    }
    assert forall|x: int| values.drop_last().contains(Some(x)) || values.last() == Some(
        x,
    ) implies #[trigger] values.contains(Some(x)) by {
        if values.drop_last().contains(Some(x)) {
            let i = choose|i: int|
                0 <= i < values.drop_last().len() && values.drop_last()[i] == Some(x);
            assert(values[i] == Some(x));
        } else {
            assert(values[values.len() - 1] == Some(x));
        }
    }
}

proof fn none_held(values: Seq<Option<int>>)
    ensures
        (forall|i: int| 0 <= i < values.len() ==> #[trigger] values[i] is None) <==> (forall|x: int|
            !#[trigger] values.contains(Some(x))),
{
    if forall|x: int| !#[trigger] values.contains(Some(x)) {
        assert forall|i: int| 0 <= i < values.len() implies #[trigger] values[i] is None by {
            if values[i] is Some {
                assert(values.contains(Some(values[i]->0)));
            }
        }
    }
}

proof fn counts(values: Seq<Option<int>>)
    ensures
        running(AggregateFn::Count, values) == Folded::Number(how_many(values) as int),
        running(AggregateFn::CountStar, values) == Folded::Number(values.len() as int),
    decreases values.len(),
{
    if values.len() > 0 {
        counts(values.drop_last());
    }
}

proof fn sums(values: Seq<Option<int>>)
    ensures
        if forall|x: int| !#[trigger] values.contains(Some(x)) {
            &&& running(AggregateFn::Sum, values) == Folded::Nothing
            &&& running(AggregateFn::Avg, values) == Folded::Nothing
            &&& total(values) == 0
            &&& how_many(values) == 0
        } else {
            &&& running(AggregateFn::Sum, values) == Folded::Number(total(values))
            &&& running(AggregateFn::Avg, values) == Folded::Mean(total(values), how_many(values))
        },
    decreases values.len(),
{
    if values.len() > 0 {
        sums(values.drop_last());
        held_back(values);
        if values.last() is Some {
            assert(values.contains(Some(values.last()->0)));
        } else if forall|x: int| !#[trigger] values.contains(Some(x)) {
            assert forall|x: int| !#[trigger] values.drop_last().contains(Some(x)) by {
                assert(!values.contains(Some(x)));
            }
        } else {
            let x = choose|x: int| #[trigger] values.contains(Some(x));
            assert(values.drop_last().contains(Some(x)));
        }
    }
}

proof fn extremes(values: Seq<Option<int>>)
    ensures
        if forall|x: int| !#[trigger] values.contains(Some(x)) {
            running(AggregateFn::Min, values) == Folded::Nothing && running(
                AggregateFn::Max,
                values,
            ) == Folded::Nothing
        } else {
            &&& running(AggregateFn::Min, values) is Number
            &&& running(AggregateFn::Max, values) is Number
            &&& values.contains(Some(running(AggregateFn::Min, values)->Number_0))
            &&& values.contains(Some(running(AggregateFn::Max, values)->Number_0))
            &&& forall|y: int| #[trigger]
                values.contains(Some(y)) ==> running(AggregateFn::Min, values)->Number_0 <= y
                    <= running(AggregateFn::Max, values)->Number_0
        },
    decreases values.len(),
{
    if values.len() > 0 {
        let before = values.drop_last();
        extremes(before);
        held_back(values);
        if values.last() is Some {
            assert(values.contains(Some(values.last()->0)));
        }
        if forall|x: int| !#[trigger] values.contains(Some(x)) {
            assert forall|x: int| !#[trigger] before.contains(Some(x)) by {
                assert(!values.contains(Some(x)));
            }
        } else if forall|x: int| !#[trigger] before.contains(Some(x)) {
            let x = choose|x: int| #[trigger] values.contains(Some(x));
            assert(!before.contains(Some(x)));
            assert forall|y: int| #[trigger] values.contains(Some(y)) implies y
                == values.last()->0 by {
                assert(!before.contains(Some(y)));
            }
        } else {
            let low = running(AggregateFn::Min, before)->Number_0;
            let high = running(AggregateFn::Max, before)->Number_0;
            assert(values.contains(Some(low)) && values.contains(Some(high)));
            assert forall|y: int| #[trigger] values.contains(Some(y)) implies running(
                AggregateFn::Min,
                values,
            )->Number_0 <= y <= running(AggregateFn::Max, values)->Number_0 by {
                if before.contains(Some(y)) {
                }
            }
        }
    }
}

/// What each accumulator of the engine folds a list of values to.
pub proof fn accumulators_fold(values: Seq<Option<int>>)
    ensures
        answers(AggFunc::Count, values, running(AggregateFn::Count, values)),
        answers(AggFunc::Sum, values, running(AggregateFn::Sum, values)),
        answers(AggFunc::Avg, values, running(AggregateFn::Avg, values)),
        answers(AggFunc::Min, values, running(AggregateFn::Min, values)),
        answers(AggFunc::Max, values, running(AggregateFn::Max, values)),
{
    counts(values);
    sums(values);
    extremes(values);
    none_held(values);
}

/// Compiling an aggregate keeps what it makes of every group of rows: `max` the
/// value that no other exceeds, `min` the one that exceeds no other, and so on.
pub proof fn aggregate_keeps_its_meaning(
    c: CollectionV,
    w: Rows,
    function: AggFunc,
    argument: AggArgV,
    rows: Seq<int>,
)
    requires
        indexed_in(w.indexes, c),
        accumulator(c, function, argument) is Ok,
    ensures
        written_folds(
            w,
            function,
            argument,
            rows,
            accumulated(w, accumulator(c, function, argument)->Ok_0, rows),
        ),
{
    match argument {
        AggArgV::Star => {
            counts(Seq::new(rows.len(), |i: int| None::<int>));
        },
        AggArgV::Column(column) => {
            if ready_from(c.indexes, column, IndexFamily::Scalar, None, 0) is Some {
                ready_reads(w.indexes, c, column, IndexFamily::Scalar, 0);
            }
            accumulators_fold(held(w, rows, column));
        },
    }
}

/// Two functions of a column are two accumulators, each with a group of rows
/// that it folds to something else.
pub proof fn aggregates_differ(c: CollectionV, f: AggFunc, g: AggFunc, column: Seq<char>)
    requires
        f != g,
        accumulator(c, f, AggArgV::Column(column)) is Ok,
        accumulator(c, g, AggArgV::Column(column)) is Ok,
    ensures
        accumulator(c, f, AggArgV::Column(column))->Ok_0.function != accumulator(
            c,
            g,
            AggArgV::Column(column),
        )->Ok_0.function,
        exists|values: Seq<Option<int>>| #[trigger]
            running(accumulator(c, f, AggArgV::Column(column))->Ok_0.function, values) != running(
                accumulator(c, g, AggArgV::Column(column))->Ok_0.function,
                values,
            ),
{
    let values = seq![Some(3int), Some(4int)];
    assert(values.drop_last() =~= seq![Some(3int)]);
    assert(values.drop_last().drop_last() =~= Seq::<Option<int>>::empty());
    let a = accumulator(c, f, AggArgV::Column(column))->Ok_0.function;
    let b = accumulator(c, g, AggArgV::Column(column))->Ok_0.function;
    reveal_with_fuel(running, 3);
    assert(running(a, values) != running(b, values));
}

// ── the group key ────────────────────────────────────────────────────────

/// What a row is grouped by, as it is written.
pub open spec fn written_key(w: Rows, group: GroupExprV, row: int) -> Option<int> {
    match (group.divisor, (w.cell)(row, group.column)) {
        (None, cell) => cell,
        (Some(n), Some(x)) => Some((w.over)(x, n)),
        (Some(_), None) => None,
    }
}

/// What a plan groups a row by.
pub open spec fn compiled_key(w: Rows, key: OwnedGroupKeyV, row: int) -> Option<int> {
    match key {
        OwnedGroupKeyV::Field(column) => (w.cell)(row, column),
        OwnedGroupKeyV::Index(index) => (w.cell)(
            row,
            read_as(w.indexes, index, IndexFamily::Scalar),
        ),
        OwnedGroupKeyV::IndexDiv { index, divisor } => match (w.cell)(
            row,
            read_as(w.indexes, index, IndexFamily::Scalar),
        ) {
            Some(x) => Some((w.over)(x, divisor)),
            None => None,
        },
    }
}

/// A plan groups every row by what is written.
pub proof fn group_key_keeps_its_meaning(c: CollectionV, w: Rows, group: GroupExprV, row: int)
    requires
        indexed_in(w.indexes, c),
        group_key(c, group) is Ok,
    ensures
        compiled_key(w, group_key(c, group)->Ok_0, row) == written_key(w, group, row),
{
    if ready_from(c.indexes, group.column, IndexFamily::Scalar, None, 0) is Some {
        ready_reads(w.indexes, c, group.column, IndexFamily::Scalar, 0);
    }
}

proof fn distinct_names(items: Seq<(SelectItemV, Option<Seq<char>>)>)
    requires
        distinct_column(items) is Ok,
    ensures
        match distinct_column(items)->Ok_0 {
            None => items.len() == 0,
            Some(column) => items.len() == 1 && items[0].0 == SelectItemV::Column(column),
        },
    decreases items.len(),
{
    if items.len() > 0 {
        distinct_names(items.drop_last());
    }
}

/// `SELECT DISTINCT column` is one group for each value of that column.
pub proof fn distinct_is_a_group(s: SelectStmtV)
    requires
        s.distinct,
        group_expr(s) is Ok,
    ensures
        s.items.len() == 1,
        group_expr(s)->Ok_0 == Some(
            GroupExprV { column: s.items[0].0->Column_0, divisor: None },
        ),
        s.items[0].0 is Column,
        s.group is None,
{
    if s.group is None {
        distinct_names(s.items);
    }
}

// ── the statement ────────────────────────────────────────────────────────

/// Whether each accumulator is that of the aggregate it was written for.
pub open spec fn lined_up(c: CollectionV, list: FoldListV) -> bool {
    &&& list.accumulators.len() == list.written.len()
    &&& forall|k: int|
        0 <= k < list.written.len() ==> {
            let one = #[trigger] list.written[k];
            accumulator(c, one.function, one.argument) is Ok && list.accumulators[k] == accumulator(
                c,
                one.function,
                one.argument,
            )->Ok_0
        }
}

/// Whether an output reports an item of the select list.
pub open spec fn reports(
    list: FoldListV,
    group: Option<GroupExprV>,
    item: SelectItemV,
    output: AggOutput,
) -> bool {
    match item {
        SelectItemV::Aggregate { function, argument } => {
            &&& output is Value
            &&& output->Value_0 < list.written.len()
            &&& list.written[output->Value_0 as int].function == function
            &&& list.written[output->Value_0 as int].argument == argument
        },
        SelectItemV::Column(name) => output is Key && group is Some && group->0.column == name,
        SelectItemV::Divided { column, divisor } => output is Key && group is Some
            && group->0.column == column && group->0.divisor == Some(divisor),
        _ => false,
    }
}

/// Whether an aggregate is one that the select list or the `HAVING` writes.
pub open spec fn is_written(
    items: Seq<(SelectItemV, Option<Seq<char>>)>,
    having: Seq<HavingPredicateV>,
    one: WrittenV,
) -> bool {
    ||| exists|i: int|
        0 <= i < items.len() && (#[trigger] items[i]).0 == (SelectItemV::Aggregate {
            function: one.function,
            argument: one.argument,
        }) && items[i].1 == one.alias
    ||| one.alias is None && exists|i: int|
        0 <= i < having.len() && (#[trigger] having[i]).function == one.function
            && having[i].argument == one.argument
}

pub open spec fn no_list() -> FoldListV {
    FoldListV {
        columns: Seq::empty(),
        outputs: Seq::empty(),
        accumulators: Seq::empty(),
        written: Seq::empty(),
    }
}

proof fn items_line_up(
    c: CollectionV,
    group: Option<GroupExprV>,
    items: Seq<(SelectItemV, Option<Seq<char>>)>,
)
    requires
        items.len() <= usize::MAX,
        fold_items(c, group, items, no_list()) is Ok,
    ensures
        ({
            let list = fold_items(c, group, items, no_list())->Ok_0;
            &&& lined_up(c, list)
            &&& list.written.len() <= items.len()
            &&& list.outputs.len() == items.len()
            &&& list.columns.len() == items.len()
            &&& forall|i: int|
                0 <= i < items.len() ==> reports(list, group, (#[trigger] items[i]).0, list.outputs[i])
            &&& forall|i: int|
                0 <= i < items.len() && (#[trigger] items[i]).1 is Some ==> list.columns[i]
                    == items[i].1->0
            &&& forall|k: int|
                0 <= k < list.written.len() ==> is_written(
                    items,
                    Seq::empty(),
                    #[trigger] list.written[k],
                )
        }),
    decreases items.len(),
{
    if items.len() > 0 {
        let init = items.drop_last();
        items_line_up(c, group, init);
        let before = fold_items(c, group, init, no_list())->Ok_0;
        let list = fold_items(c, group, items, no_list())->Ok_0;
        let n = items.len() - 1;
        assert forall|i: int| 0 <= i < items.len() implies reports(
            list,
            group,
            (#[trigger] items[i]).0,
            list.outputs[i],
        ) by {
            if i < n {
                assert(init[i] == items[i]);
                assert(reports(before, group, init[i].0, before.outputs[i]));
            }
        }
        assert forall|i: int| 0 <= i < items.len() && (
        #[trigger] items[i]).1 is Some implies list.columns[i] == items[i].1->0 by {
            if i < n {
                assert(init[i] == items[i]);
            }
        }
        assert forall|k: int| 0 <= k < list.written.len() implies is_written(
            items,
            Seq::empty(),
            #[trigger] list.written[k],
        ) by {
            if k < before.written.len() {
                assert(list.written[k] == before.written[k]);
                let one = before.written[k];
                let i = choose|i: int|
                    0 <= i < init.len() && (#[trigger] init[i]).0 == (SelectItemV::Aggregate {
                        function: one.function,
                        argument: one.argument,
                    }) && init[i].1 == one.alias;
                assert(items[i] == init[i]);
            } else {
                assert(items[n] == items.last());
            }
        }
        assert forall|k: int| 0 <= k < list.written.len() implies {
            let one = #[trigger] list.written[k];
            accumulator(c, one.function, one.argument) is Ok && list.accumulators[k] == accumulator(
                c,
                one.function,
                one.argument,
            )->Ok_0
        } by {
            if k < before.written.len() {
                assert(list.written[k] == before.written[k]);
            }
        }
    }
}

proof fn written_is_found(list: Seq<WrittenV>, function: AggFunc, argument: AggArgV, i: nat)
    requires
        written_from(list, function, argument, i) is Some,
    ensures
        ({
            let k = written_from(list, function, argument, i)->0;
            k < list.len() && list[k as int].function == function && list[k as int].argument
                == argument
        }),
    decreases list.len() - i,
{
    if list[i as int].function == function && list[i as int].argument == argument {
    } else {
        written_is_found(list, function, argument, i + 1);
    }
}

/// Whether a compiled `HAVING` comparison is that of an aggregate.
pub open spec fn tests(
    env: EnvV,
    list: FoldListV,
    h: HavingPredicateV,
    p: GroupPredicateV,
) -> bool {
    &&& p.accumulator < list.written.len()
    &&& list.written[p.accumulator as int].function == h.function
    &&& list.written[p.accumulator as int].argument == h.argument
    &&& p.op == h.op
    &&& number_of(env.binder, h.value) is Ok
    &&& p.value == number_of(env.binder, h.value)->Ok_0
}

/// Whether a list is another with more accumulators.
pub open spec fn grown(list: FoldListV, more: FoldListV) -> bool {
    &&& more.columns == list.columns
    &&& more.outputs == list.outputs
    &&& list.written.len() <= more.written.len()
    &&& forall|k: int|
        0 <= k < list.written.len() ==> #[trigger] more.written[k] == list.written[k]
}

proof fn having_lines_up(
    env: EnvV,
    c: CollectionV,
    items: Seq<(SelectItemV, Option<Seq<char>>)>,
    parts: Seq<HavingPredicateV>,
    list: FoldListV,
    log: LogV,
)
    requires
        lined_up(c, list),
        list.written.len() + parts.len() <= usize::MAX,
        having_items(env, c, parts, list, log) is Ok,
        forall|k: int|
            0 <= k < list.written.len() ==> is_written(
                items,
                Seq::empty(),
                #[trigger] list.written[k],
            ),
    ensures
        ({
            let (done, more, _) = having_items(env, c, parts, list, log)->Ok_0;
            &&& lined_up(c, more)
            &&& grown(list, more)
            &&& more.written.len() <= list.written.len() + parts.len()
            &&& done.len() == parts.len()
            &&& forall|i: int|
                0 <= i < parts.len() ==> tests(env, more, #[trigger] parts[i], done[i])
            &&& forall|k: int|
                0 <= k < more.written.len() ==> is_written(items, parts, #[trigger] more.written[k])
        }),
    decreases parts.len(),
{
    if parts.len() == 0 {
        assert forall|k: int| 0 <= k < list.written.len() implies is_written(
            items,
            parts,
            #[trigger] list.written[k],
        ) by {}
    } else {
        let init = parts.drop_last();
        having_lines_up(env, c, items, init, list, log);
        let (early, mid, logged) = having_items(env, c, init, list, log)->Ok_0;
        let (done, more, _) = having_items(env, c, parts, list, log)->Ok_0;
        let h = parts.last();
        let n = parts.len() - 1;
        assert(parts[n] == h);
        if written_from(mid.written, h.function, h.argument, 0) is Some {
            written_is_found(mid.written, h.function, h.argument, 0);
        }
        assert(grown(mid, more));
        assert forall|k: int| 0 <= k < list.written.len() implies #[trigger] more.written[k]
            == list.written[k] by {
            assert(mid.written[k] == list.written[k]);
        }
        assert forall|i: int| 0 <= i < parts.len() implies tests(
            env,
            more,
            #[trigger] parts[i],
            done[i],
        ) by {
            if i < n {
                assert(init[i] == parts[i]);
                assert(tests(env, mid, init[i], early[i]));
                assert(more.written[early[i].accumulator as int]
                    == mid.written[early[i].accumulator as int]);
            }
        }
        assert forall|k: int| 0 <= k < more.written.len() implies is_written(
            items,
            parts,
            #[trigger] more.written[k],
        ) by {
            if k < mid.written.len() {
                let one = mid.written[k];
                assert(more.written[k] == one);
                assert(is_written(items, init, one));
                if exists|i: int|
                    0 <= i < init.len() && (#[trigger] init[i]).function == one.function
                        && init[i].argument == one.argument {
                    let i = choose|i: int|
                        0 <= i < init.len() && (#[trigger] init[i]).function == one.function
                            && init[i].argument == one.argument;
                    assert(parts[i] == init[i]);
                }
            }
        }
        assert forall|k: int| 0 <= k < more.written.len() implies {
            let one = #[trigger] more.written[k];
            accumulator(c, one.function, one.argument) is Ok && more.accumulators[k] == accumulator(
                c,
                one.function,
                one.argument,
            )->Ok_0
        } by {
            if k < mid.written.len() {
                assert(more.written[k] == mid.written[k]);
            }
        }
    }
}

proof fn alias_is_found(list: Seq<WrittenV>, column: Seq<char>, i: nat)
    requires
        alias_from(list, column, i) is Some,
    ensures
        ({
            let k = alias_from(list, column, i)->0;
            k < list.len() && goes_by(list[k as int], column)
        }),
    decreases list.len() - i,
{
    if goes_by(list[i as int], column) {
    } else {
        alias_is_found(list, column, i + 1);
    }
}

/// Whether an output of a plan reports an item of the select list, for every
/// group of rows.
pub open spec fn item_is_reported(
    c: CollectionV,
    w: Rows,
    plan: AggregatePlanV,
    item: SelectItemV,
    output: AggOutput,
    rows: Seq<int>,
) -> bool {
    match (item, output) {
        (SelectItemV::Aggregate { function, argument }, AggOutput::Value(at)) => at
            < plan.accumulators.len() && written_folds(
            w,
            function,
            argument,
            rows,
            accumulated(w, plan.accumulators[at as int], rows),
        ),
        (SelectItemV::Column(name), AggOutput::Key) => plan.group is Some && forall|row: int|
            #[trigger]
            compiled_key(w, plan.group->0, row) == (w.cell)(row, name) || plan.group->0 is IndexDiv,
        (SelectItemV::Divided { column, divisor }, AggOutput::Key) => plan.group is Some && forall|
            row: int,
        | #[trigger]
            compiled_key(w, plan.group->0, row) == written_key(
                w,
                GroupExprV { column, divisor: Some(divisor) },
                row,
            ),
        _ => false,
    }
}

/// Whether a group passes a `HAVING` comparison, as it is written.
pub open spec fn written_passes(env: EnvV, w: Rows, h: HavingPredicateV, rows: Seq<int>) -> bool {
    exists|r: Folded| #[trigger]
        written_folds(w, h.function, h.argument, rows, r) && so(
            h.op,
            (w.against)(r, number_of(env.binder, h.value)->Ok_0),
        )
}

/// Whether a group passes a compiled `HAVING` comparison.
pub open spec fn compiled_passes(w: Rows, plan: AggregatePlanV, p: GroupPredicateV, rows: Seq<int>) -> bool {
    p.accumulator < plan.accumulators.len() && so(
        p.op,
        (w.against)(accumulated(w, plan.accumulators[p.accumulator as int], rows), p.value),
    )
}

/// An aggregate of a group of rows is one thing.
pub proof fn folds_to_one(
    w: Rows,
    function: AggFunc,
    argument: AggArgV,
    rows: Seq<int>,
    r: Folded,
    q: Folded,
)
    requires
        written_folds(w, function, argument, rows, r),
        written_folds(w, function, argument, rows, q),
    ensures
        r == q,
{
    if argument is Column {
        let values = held(w, rows, argument->Column_0);
        none_held(values);
    }
}

/// What a folding statement reports of a group is what its select list says; a
/// group passes the compiled `HAVING` exactly where it passes the written one.
pub proof fn folded_statement_keeps_its_meaning(
    env: EnvV,
    c: CollectionV,
    w: Rows,
    s: SelectStmtV,
    log: LogV,
    rows: Seq<int>,
)
    requires
        indexed_in(w.indexes, c),
        s.items.len() + s.having.len() <= usize::MAX,
        folded_of(env, c, s, log) is Ok,
    ensures
        ({
            let plan = folded_of(env, c, s, log)->Ok_0.0;
            &&& plan.collection == c.id
            &&& plan.limit == s.limit
            &&& plan.outputs.len() == s.items.len()
            &&& plan.columns.len() == s.items.len()
            &&& forall|i: int|
                0 <= i < s.items.len() ==> item_is_reported(
                    c,
                    w,
                    plan,
                    (#[trigger] s.items[i]).0,
                    plan.outputs[i],
                    rows,
                )
            &&& forall|i: int|
                0 <= i < s.items.len() && (#[trigger] s.items[i]).1 is Some ==> plan.columns[i]
                    == s.items[i].1->0
            &&& plan.having.len() == s.having.len()
            &&& forall|i: int|
                0 <= i < s.having.len() ==> (compiled_passes(w, plan, plan.having[i], rows)
                    <==> written_passes(env, w, #[trigger] s.having[i], rows))
            &&& (plan.group is Some <==> s.group is Some || s.distinct)
            &&& s.group is Some ==> forall|row: int| #[trigger]
                compiled_key(w, plan.group->0, row) == written_key(w, s.group->0, row)
        }),
{
    let plan = folded_of(env, c, s, log)->Ok_0.0;
    let group = group_expr(s)->Ok_0;
    let list = fold_items(c, group, s.items, no_list())->Ok_0;
    let filtered = where_filters(env, c, s.predicates, log)->Ok_0.1;
    items_line_up(c, group, s.items);
    having_lines_up(env, c, s.items, s.having, list, filtered);
    let more = having_items(env, c, s.having, list, filtered)->Ok_0.1;
    if group is Some {
        assert forall|row: int| #[trigger]
            compiled_key(w, plan.group->0, row) == written_key(w, group->0, row) by {
            group_key_keeps_its_meaning(c, w, group->0, row);
        }
    }
    assert forall|i: int| 0 <= i < s.items.len() implies item_is_reported(
        c,
        w,
        plan,
        (#[trigger] s.items[i]).0,
        plan.outputs[i],
        rows,
    ) by {
        assert(reports(list, group, s.items[i].0, list.outputs[i]));
        match s.items[i].0 {
            SelectItemV::Aggregate { function, argument } => {
                let at = plan.outputs[i]->Value_0 as int;
                assert(more.written[at] == list.written[at]);
                aggregate_keeps_its_meaning(c, w, function, argument, rows);
            },
            _ => {},
        }
    }
    assert forall|i: int| 0 <= i < s.having.len() implies (compiled_passes(
        w,
        plan,
        plan.having[i],
        rows,
    ) <==> written_passes(env, w, #[trigger] s.having[i], rows)) by {
        let h = s.having[i];
        assert(tests(env, more, h, plan.having[i]));
        let at = plan.having[i].accumulator as int;
        let one = more.written[at];
        aggregate_keeps_its_meaning(c, w, h.function, h.argument, rows);
        let r = accumulated(w, plan.accumulators[at], rows);
        assert(written_folds(w, h.function, h.argument, rows, r));
        if written_passes(env, w, h, rows) {
            let q = choose|q: Folded| #[trigger]
                written_folds(w, h.function, h.argument, rows, q) && so(
                    h.op,
                    (w.against)(q, number_of(env.binder, h.value)->Ok_0),
                );
            folds_to_one(w, h.function, h.argument, rows, r, q);
        }
    }
}

/// A folded answer is ordered by the aggregate that the `ORDER BY` names, in the
/// direction that is written, or by its key.
pub proof fn folded_order_keeps_its_meaning(
    env: EnvV,
    c: CollectionV,
    w: Rows,
    s: SelectStmtV,
    log: LogV,
    rows: Seq<int>,
)
    requires
        indexed_in(w.indexes, c),
        s.items.len() + s.having.len() <= usize::MAX,
        folded_of(env, c, s, log) is Ok,
    ensures
        ({
            let plan = folded_of(env, c, s, log)->Ok_0.0;
            match plan.order {
                GroupOrder::Key => s.order is None || (s.order->0 is Column
                    && !s.order->0->Column_descending),
                GroupOrder::Accumulator { at, descending } => {
                    &&& s.order is Some && s.order->0 is Column
                    &&& descending == s.order->0->Column_descending
                    &&& at < plan.accumulators.len()
                    &&& exists|one: WrittenV|
                        {
                            &&& #[trigger] is_written(s.items, s.having, one)
                            &&& s.order->0->Column_column == match one.alias {
                                Some(alias) => alias,
                                None => agg_func_text(one.function),
                            }
                            &&& written_folds(
                                w,
                                one.function,
                                one.argument,
                                rows,
                                accumulated(w, plan.accumulators[at as int], rows),
                            )
                        }
                },
            }
        }),
{
    let plan = folded_of(env, c, s, log)->Ok_0.0;
    let group = group_expr(s)->Ok_0;
    let list = fold_items(c, group, s.items, no_list())->Ok_0;
    let filtered = where_filters(env, c, s.predicates, log)->Ok_0.1;
    items_line_up(c, group, s.items);
    having_lines_up(env, c, s.items, s.having, list, filtered);
    let more = having_items(env, c, s.having, list, filtered)->Ok_0.1;
    if plan.order is Accumulator {
        let column = s.order->0->Column_column;
        alias_is_found(more.written, column, 0);
        let at = plan.order->at as int;
        let one = more.written[at];
        aggregate_keeps_its_meaning(c, w, one.function, one.argument, rows);
        assert(is_written(s.items, s.having, one));
    }
}

// ── as it is read ────────────────────────────────────────────────────────

/// Whether a word is another one in capitals.
pub open spec fn in_capitals(word: Seq<char>, of: Seq<char>) -> bool {
    word.len() == of.len() && forall|i: int|
        0 <= i < of.len() ==> #[trigger] word[i] as int == of[i] as int - if 'a' <= of[i] <= 'z' {
            32int
        } else {
            0int
        }
}

/// A word is read as an aggregate exactly where it is the name of that
/// aggregate, in capitals.
pub proof fn aggregate_names_keep_their_meaning(w: Seq<char>, f: AggFunc)
    ensures
        aggregate_named(Some(w)) == Some(f) <==> in_capitals(w, agg_func_text(f)),
{
    reveal_strlit("count");
    reveal_strlit("sum");
    reveal_strlit("min");
    reveal_strlit("max");
    reveal_strlit("avg");
    reveal_strlit("COUNT");
    reveal_strlit("SUM");
    reveal_strlit("MIN");
    reveal_strlit("MAX");
    reveal_strlit("AVG");
    let of = agg_func_text(f);
    let upper = match f {
        AggFunc::Count => "COUNT"@,
        AggFunc::Sum => "SUM"@,
        AggFunc::Min => "MIN"@,
        AggFunc::Max => "MAX"@,
        AggFunc::Avg => "AVG"@,
    };
    assert(upper[0] != 'x' && in_capitals(upper, of));
    if in_capitals(w, of) {
        assert forall|i: int| 0 <= i < w.len() implies w[i] == upper[i] by {
            assert(w[i] as int == upper[i] as int);
        }
        assert(w =~= upper);
    }
    assert("SUM"@[0] != "MIN"@[0] && "SUM"@[0] != "MAX"@[0] && "SUM"@[0] != "AVG"@[0]);
    assert("MIN"@[1] != "MAX"@[1] && "MIN"@[0] != "AVG"@[0] && "MAX"@[0] != "AVG"@[0]);
}

/// A call is of the aggregate that its name is the name of.
pub proof fn aggregate_call_keeps_its_meaning(t: Seq<TokenV>, s: int)
    requires
        aggregate_call(t, s) is Ok,
        aggregate_call(t, s)->Ok_0.0 is Some,
    ensures
        word(t, s) is Some,
        ({
            let call = aggregate_call(t, s)->Ok_0.0->Some_0;
            in_capitals(word(t, s)->0, agg_func_text(call.0))
        }),
        is_sym(t, ahead(t, s, 1), Sym::LParen),
{
    reveal(aggregate_call);
    let call = aggregate_call(t, s)->Ok_0.0->Some_0;
    aggregate_names_keep_their_meaning(word(t, s)->0, call.0);
}

} // verus!
