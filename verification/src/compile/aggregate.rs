//! `GROUP BY`, `DISTINCT`, `HAVING` and the aggregate functions.

use vstd::prelude::*;
use crate::ast::{agg_func_text, row_expr_text, AggFunc};
use crate::compile::bind::number_of;
use crate::compile::env::{
    collection_of, kind_of, ready_from, time_column, Collection, CollectionV, IndexFamily,
};
use crate::compile::log::{logged, Env, EnvV, Log, LogV};
use crate::compile::plan::{
    AggOutput, AggregateFn, AggregatePlan, AggregatePlanV, CandidateDriver, GroupOrder,
    GroupPredicate, GroupPredicateV, OwnedAccumulator, OwnedAccumulatorV, OwnedAggInput,
    OwnedAggInputV, OwnedGroupKey, OwnedGroupKeyV,
};
use crate::compile::predicates::{exprs_ok, where_filters};
use crate::compile::select::{any_key_filter, has_key_filter, title_or, titled};
use crate::error::{gives, SqlError, SqlErrorV, Tier};
use crate::lists::{mapped_push, take_all, take_next};
use crate::stmt::{
    AggArg, AggArgV, GroupExpr, GroupExprV, HavingPredicate, HavingPredicateV, OrderKey, OrderKeyV,
    SelectItem, SelectItemV, SelectStmt, SelectStmtV, Source, SourceV,
};
use crate::text::{cat2, cat3, cat4, cat5, decimal, decimal_i64, same, texts};
use crate::value::Kind;

verus! {

// ── whether a statement folds ────────────────────────────────────────────

/// Whether a select list names an aggregate function.
pub open spec fn any_aggregate(items: Seq<(SelectItemV, Option<Seq<char>>)>) -> bool {
    exists|i: int| 0 <= i < items.len() && (#[trigger] items[i]).0 is Aggregate
}

/// Whether a statement returns groups and not rows.
pub open spec fn is_folded(s: SelectStmtV) -> bool {
    any_aggregate(s.items) || s.distinct || s.group is Some || s.having.len() > 0
}

/// Whether a select list names an aggregate function.
pub fn has_aggregate(items: &Vec<(SelectItem, Option<String>)>) -> (r: bool)
    ensures
        r == any_aggregate(items.deep_view()),
{
    let ghost all = items.deep_view();
    let mut i: usize = 0;
    while i < items.len()
        invariant
            i <= items@.len(),
            all == items.deep_view(),
            forall|k: int| 0 <= k < i ==> !((#[trigger] all[k]).0 is Aggregate),
        decreases items@.len() - i,
    {
        assert(all[i as int] == items@[i as int].deep_view());
        if let SelectItem::Aggregate { .. } = &items[i].0 {
            return true;
        }
        i = i + 1;
    }
    false
}

// ── the group key ────────────────────────────────────────────────────────

/// The one column that a `DISTINCT` names.
pub open spec fn distinct_column(items: Seq<(SelectItemV, Option<Seq<char>>)>) -> Result<
    Option<Seq<char>>,
    SqlErrorV,
>
    decreases items.len(),
{
    if items.len() == 0 {
        Ok(None)
    } else {
        match distinct_column(items.drop_last()) {
            Err(e) => Err(e),
            Ok(named) => match items.last().0 {
                SelectItemV::Column(name) => match named {
                    None => Ok(Some(name)),
                    Some(_) => Err(
                        SqlErrorV::Refused {
                            keyword: "DISTINCT <two columns>"@,
                            tier: Tier::Three,
                            reason: "QL_CONTRACT §4.7: DISTINCT is a group with no accumulators, and GROUP BY takes ONE key; a composite key has no atomic."@,
                        },
                    ),
                },
                _ => Err(
                    SqlErrorV::Unsupported(
                        "SELECT DISTINCT takes one column: it is a group with no accumulators"@,
                    ),
                ),
            },
        }
    }
}

proof fn distinct_column_stops(items: Seq<(SelectItemV, Option<Seq<char>>)>, n: int)
    requires
        0 <= n <= items.len(),
        distinct_column(items.take(n)) is Err,
    ensures
        distinct_column(items) == distinct_column(items.take(n)),
    decreases items.len() - n,
{
    if n < items.len() {
        take_next(items, n);
        distinct_column_stops(items, n + 1);
    } else {
        take_all(items);
    }
}

/// The group a statement asks for; `DISTINCT col` is `GROUP BY col` with no
/// accumulators.
pub open spec fn group_expr(s: SelectStmtV) -> Result<Option<GroupExprV>, SqlErrorV> {
    match s.group {
        Some(group) => if s.distinct {
            Err(
                SqlErrorV::Unsupported(
                    "SELECT DISTINCT with GROUP BY: DISTINCT is a group with no accumulators, so writing both names the group twice"@,
                ),
            )
        } else {
            Ok(Some(group))
        },
        None => if s.distinct {
            match distinct_column(s.items) {
                Err(e) => Err(e),
                Ok(None) => Err(SqlErrorV::Unsupported("SELECT DISTINCT names no column"@)),
                Ok(Some(column)) => Ok(Some(GroupExprV { column, divisor: None })),
            }
        } else {
            Ok(None)
        },
    }
}

/// How the group key is computed: from an index where there is one. A divided
/// key rides the postings of an integer index, or is refused.
pub open spec fn group_key(c: CollectionV, group: GroupExprV) -> Result<OwnedGroupKeyV, SqlErrorV> {
    match kind_of(c, group.column) {
        Err(e) => Err(e),
        Ok(kind) => match (
            group.divisor,
            ready_from(c.indexes, group.column, IndexFamily::Scalar, None, 0),
        ) {
            (Some(divisor), Some(index)) if kind == Kind::Int => Ok(
                OwnedGroupKeyV::IndexDiv { index, divisor },
            ),
            (Some(_), _) => Err(
                SqlErrorV::Refused {
                    keyword: "GROUP BY <expression>"@,
                    tier: Tier::Two,
                    reason: "QL_CONTRACT §4.7: `GROUP BY col / n` is accepted only when it can be computed INDEX-SIDE from the posting -- an Int scalar index on the column, whose own order the truncating division is monotone in. Without one, write `GROUP BY col` with a range filter instead; an expression folded over rows would be a scan wearing a group key's clothes."@,
                },
            ),
            (None, Some(index)) => Ok(OwnedGroupKeyV::Index(index)),
            (None, None) => Ok(OwnedGroupKeyV::Field(group.column)),
        },
    }
}

/// The key of an optional group, and whether it prints as ISO text.
pub open spec fn keyed(c: CollectionV, group: Option<GroupExprV>) -> Result<
    (Option<OwnedGroupKeyV>, Option<bool>),
    SqlErrorV,
> {
    match group {
        None => Ok((None, None)),
        Some(group) => match group_key(c, group) {
            Err(e) => Err(e),
            Ok(key) => if group.divisor is Some {
                Ok((Some(key), None))
            } else {
                match time_column(c, group.column) {
                    Err(e) => Err(e),
                    Ok(None) => Ok((Some(key), None)),
                    Ok(Some(declared)) => Ok((Some(key), Some(declared == "DATE"@))),
                }
            },
        },
    }
}

fn distinct_named(items: &Vec<(SelectItem, Option<String>)>) -> (r: Result<
    Option<String>,
    SqlError,
>)
    ensures
        gives(r, distinct_column(items.deep_view())),
{
    let ghost all = items.deep_view();
    let mut named: Option<String> = None;
    let mut i: usize = 0;
    assert(all.take(0) =~= Seq::<(SelectItemV, Option<Seq<char>>)>::empty());
    while i < items.len()
        invariant
            i <= items@.len(),
            all == items.deep_view(),
            distinct_column(all.take(i as int)) == Ok::<Option<Seq<char>>, SqlErrorV>(
                named.deep_view(),
            ),
        decreases items@.len() - i,
    {
        proof {
            take_next(all, i as int);
            assert(all[i as int] == items@[i as int].deep_view());
        }
        match &items[i].0 {
            SelectItem::Column(name) => {
                if named.is_some() {
                    proof {
                        distinct_column_stops(all, i as int + 1);
                    }
                    return Err(
                        SqlError::refused(
                            "DISTINCT <two columns>",
                            Tier::Three,
                            "QL_CONTRACT §4.7: DISTINCT is a group with no accumulators, and GROUP BY takes ONE key; a composite key has no atomic.",
                        ),
                    );
                }
                named = Some(name.clone());
            },
            _ => {
                proof {
                    distinct_column_stops(all, i as int + 1);
                }
                return Err(
                    SqlError::unsupported(
                        "SELECT DISTINCT takes one column: it is a group with no accumulators",
                    ),
                );
            },
        }
        i = i + 1;
    }
    proof {
        take_all(all);
    }
    Ok(named)
}

fn group_of(s: &SelectStmt) -> (r: Result<Option<GroupExpr>, SqlError>)
    ensures
        gives(r, group_expr(s.deep_view())),
{
    match &s.group {
        Some(group) => if s.distinct {
            Err(
                SqlError::unsupported(
                    "SELECT DISTINCT with GROUP BY: DISTINCT is a group with no accumulators, so writing both names the group twice",
                ),
            )
        } else {
            Ok(Some(GroupExpr { column: group.column.clone(), divisor: group.divisor }))
        },
        None => {
            if !s.distinct {
                return Ok(None);
            }
            match distinct_named(&s.items)? {
                None => Err(SqlError::unsupported("SELECT DISTINCT names no column")),
                Some(column) => Ok(Some(GroupExpr { column, divisor: None })),
            }
        },
    }
}

fn key_of(c: &Collection, group: &GroupExpr) -> (r: Result<OwnedGroupKey, SqlError>)
    ensures
        gives(r, group_key(c.deep_view(), group.deep_view())),
{
    let kind = c.kind_of(group.column.as_str())?;
    let index = c.ready(group.column.as_str(), IndexFamily::Scalar);
    match (group.divisor, index) {
        (Some(divisor), Some(index)) if kind == Kind::Int => Ok(
            OwnedGroupKey::IndexDiv { index, divisor },
        ),
        (Some(_), _) => Err(
            SqlError::refused(
                "GROUP BY <expression>",
                Tier::Two,
                "QL_CONTRACT §4.7: `GROUP BY col / n` is accepted only when it can be computed INDEX-SIDE from the posting -- an Int scalar index on the column, whose own order the truncating division is monotone in. Without one, write `GROUP BY col` with a range filter instead; an expression folded over rows would be a scan wearing a group key's clothes.",
            ),
        ),
        (None, Some(index)) => Ok(OwnedGroupKey::Index(index)),
        (None, None) => Ok(OwnedGroupKey::Field(group.column.clone())),
    }
}

fn keys(c: &Collection, group: &Option<GroupExpr>) -> (r: Result<
    (Option<OwnedGroupKey>, Option<bool>),
    SqlError,
>)
    ensures
        gives(r, keyed(c.deep_view(), group.deep_view())),
{
    match group {
        None => Ok((None, None)),
        Some(group) => {
            let key = key_of(c, group)?;
            if group.divisor.is_some() {
                return Ok((Some(key), None));
            }
            match c.time_column(group.column.as_str())? {
                None => Ok((Some(key), None)),
                Some(declared) => Ok((Some(key), Some(same(declared.as_str(), "DATE")))),
            }
        },
    }
}

// ── accumulators ─────────────────────────────────────────────────────────

/// One accumulator over collection `c`.
pub open spec fn accumulator(c: CollectionV, function: AggFunc, argument: AggArgV) -> Result<
    OwnedAccumulatorV,
    SqlErrorV,
> {
    match argument {
        AggArgV::Star => if function == AggFunc::Count {
            Ok(OwnedAccumulatorV { function: AggregateFn::CountStar, input: None })
        } else {
            Err(SqlErrorV::Unsupported(agg_func_text(function) + "(*) is not a function"@))
        },
        AggArgV::Column(column) => match kind_of(c, column) {
            Err(e) => Err(e),
            Ok(kind) => if (function == AggFunc::Sum || function == AggFunc::Avg) && kind
                != Kind::Int && kind != Kind::Real {
                Err(
                    SqlErrorV::Unsupported(
                        agg_func_text(function) + "("@ + column
                            + "): sum and avg take a numeric column"@,
                    ),
                )
            } else {
                Ok(
                    OwnedAccumulatorV {
                        function: match function {
                            AggFunc::Count => AggregateFn::Count,
                            AggFunc::Sum => AggregateFn::Sum,
                            AggFunc::Min => AggregateFn::Min,
                            AggFunc::Max => AggregateFn::Max,
                            AggFunc::Avg => AggregateFn::Avg,
                        },
                        input: Some(
                            match ready_from(c.indexes, column, IndexFamily::Scalar, None, 0) {
                                Some(index) => OwnedAggInputV::Index(index),
                                None => OwnedAggInputV::Field(column),
                            },
                        ),
                    },
                )
            },
        },
    }
}

fn accumulate(c: &Collection, function: AggFunc, argument: &AggArg) -> (r: Result<
    OwnedAccumulator,
    SqlError,
>)
    ensures
        gives(r, accumulator(c.deep_view(), function, argument.deep_view())),
{
    match argument {
        AggArg::Star => if function == AggFunc::Count {
            Ok(OwnedAccumulator { function: AggregateFn::CountStar, input: None })
        } else {
            Err(SqlError::Unsupported(cat2(function.written(), "(*) is not a function")))
        },
        AggArg::Column(column) => {
            let kind = c.kind_of(column.as_str())?;
            if (function == AggFunc::Sum || function == AggFunc::Avg) && kind != Kind::Int && kind
                != Kind::Real {
                return Err(
                    SqlError::Unsupported(
                        cat4(
                            function.written(),
                            "(",
                            column.as_str(),
                            "): sum and avg take a numeric column",
                        ),
                    ),
                );
            }
            let input = match c.ready(column.as_str(), IndexFamily::Scalar) {
                Some(index) => OwnedAggInput::Index(index),
                None => OwnedAggInput::Field(column.clone()),
            };
            Ok(
                OwnedAccumulator {
                    function: match function {
                        AggFunc::Count => AggregateFn::Count,
                        AggFunc::Sum => AggregateFn::Sum,
                        AggFunc::Min => AggregateFn::Min,
                        AggFunc::Max => AggregateFn::Max,
                        AggFunc::Avg => AggregateFn::Avg,
                    },
                    input: Some(input),
                },
            )
        },
    }
}

/// An accumulator as it was written, and its alias.
#[derive(Debug)]
pub struct Written {
    pub function: AggFunc,
    pub argument: AggArg,
    pub alias: Option<String>,
}

pub struct WrittenV {
    pub function: AggFunc,
    pub argument: AggArgV,
    pub alias: Option<Seq<char>>,
}

impl DeepView for Written {
    type V = WrittenV;

    open spec fn deep_view(&self) -> WrittenV {
        WrittenV {
            function: self.function,
            argument: self.argument.deep_view(),
            alias: self.alias.deep_view(),
        }
    }
}

/// A folded select list under construction.
#[derive(Debug)]
pub struct FoldList {
    pub columns: Vec<String>,
    pub outputs: Vec<AggOutput>,
    pub accumulators: Vec<OwnedAccumulator>,
    pub written: Vec<Written>,
}

pub struct FoldListV {
    pub columns: Seq<Seq<char>>,
    pub outputs: Seq<AggOutput>,
    pub accumulators: Seq<OwnedAccumulatorV>,
    pub written: Seq<WrittenV>,
}

impl DeepView for FoldList {
    type V = FoldListV;

    open spec fn deep_view(&self) -> FoldListV {
        FoldListV {
            columns: texts(self.columns@),
            outputs: self.outputs@,
            accumulators: self.accumulators.deep_view(),
            written: self.written.deep_view(),
        }
    }
}

impl FoldListV {
    pub open spec fn with(self, title: Seq<char>, output: AggOutput) -> FoldListV {
        FoldListV {
            columns: self.columns.push(title),
            outputs: self.outputs.push(output),
            ..self
        }
    }

    /// One more accumulator, as it was written.
    pub open spec fn folding(self, a: OwnedAccumulatorV, w: WrittenV) -> FoldListV {
        FoldListV {
            accumulators: self.accumulators.push(a),
            written: self.written.push(w),
            ..self
        }
    }
}

impl FoldList {
    fn new() -> (r: FoldList)
        ensures
            r.deep_view() == (FoldListV {
                columns: Seq::empty(),
                outputs: Seq::empty(),
                accumulators: Seq::empty(),
                written: Seq::empty(),
            }),
    {
        let r = FoldList {
            columns: Vec::new(),
            outputs: Vec::new(),
            accumulators: Vec::new(),
            written: Vec::new(),
        };
        assert(texts(r.columns@) =~= Seq::<Seq<char>>::empty());
        assert(r.accumulators.deep_view() =~= Seq::<OwnedAccumulatorV>::empty());
        assert(r.written.deep_view() =~= Seq::<WrittenV>::empty());
        r
    }

    fn push(&mut self, title: String, output: AggOutput)
        ensures
            final(self).deep_view() == old(self).deep_view().with(title@, output),
    {
        proof {
            mapped_push(self.columns@, title, |s: String| s@);
        }
        self.columns.push(title);
        self.outputs.push(output);
    }

    fn fold(&mut self, a: OwnedAccumulator, w: Written)
        ensures
            final(self).deep_view() == old(self).deep_view().folding(a.deep_view(), w.deep_view()),
    {
        let ghost before = self.accumulators.deep_view();
        let ghost before_written = self.written.deep_view();
        self.accumulators.push(a);
        self.written.push(w);
        assert(self.accumulators.deep_view() =~= before.push(a.deep_view()));
        assert(self.written.deep_view() =~= before_written.push(w.deep_view()));
    }
}

/// One item of a folded select list.
pub open spec fn fold_item(
    c: CollectionV,
    group: Option<GroupExprV>,
    item: SelectItemV,
    alias: Option<Seq<char>>,
    list: FoldListV,
) -> Result<FoldListV, SqlErrorV> {
    match item {
        SelectItemV::Function(expr) => Err(
            SqlErrorV::Unsupported(
                "`"@ + row_expr_text(*expr)
                    + "` in a folded answer: QL_CONTRACT §4.1 and §4.2 make a function over projected values a ROW function, and a folded answer returns groups, not rows. Group by the value the function computes (`GROUP BY col`), or select the function without folding"@,
            ),
        ),
        SelectItemV::Aggregate { function, argument } => match accumulator(c, function, argument) {
            Err(e) => Err(e),
            Ok(a) => Ok(
                list.folding(a, WrittenV { function, argument, alias }).with(
                    title_or(alias, agg_func_text(function)),
                    AggOutput::Value(list.accumulators.len() as usize),
                ),
            ),
        },
        SelectItemV::Column(name) => match group {
            None => Err(
                SqlErrorV::Unsupported(
                    "`"@ + name
                        + "` is neither an aggregate nor a GROUP BY key: a statement that folds rows can only report what is the same for every row of a group"@,
                ),
            ),
            Some(group) => if name != group.column {
                Err(
                    SqlErrorV::Unsupported(
                        "`"@ + name + "` is not the GROUP BY key `"@ + group.column
                            + "`: a statement that folds rows can only report the key it grouped by"@,
                    ),
                )
            } else {
                Ok(list.with(title_or(alias, name), AggOutput::Key))
            },
        },
        SelectItemV::Divided { column, divisor } => match group {
            None => Err(
                SqlErrorV::Unsupported(
                    "`"@ + column + " / "@ + decimal(divisor as int)
                        + "` is neither an aggregate nor a GROUP BY key"@,
                ),
            ),
            Some(group) => if group.column != column || group.divisor != Some(divisor) {
                Err(
                    SqlErrorV::Unsupported(
                        "`"@ + column + " / "@ + decimal(divisor as int)
                            + "` is not the GROUP BY key: a statement that folds rows can only report the key it grouped by"@,
                    ),
                )
            } else {
                Ok(list.with(title_or(alias, column), AggOutput::Key))
            },
        },
        SelectItemV::Star => Err(
            SqlErrorV::Unsupported(
                "SELECT * with an aggregate: a folded answer has no row to expand"@,
            ),
        ),
        SelectItemV::Id | SelectItemV::Key => Err(
            SqlErrorV::Unsupported(
                "an entity id or external key with an aggregate: a group is not a row and has neither"@,
            ),
        ),
        SelectItemV::OrderValue(what) => Err(
            SqlErrorV::Unsupported(
                what
                    + " with an aggregate: the only expressions a folded answer reports are its group key and its accumulators"@,
            ),
        ),
    }
}

/// The items of a folded select list.
pub open spec fn fold_items(
    c: CollectionV,
    group: Option<GroupExprV>,
    items: Seq<(SelectItemV, Option<Seq<char>>)>,
    list: FoldListV,
) -> Result<FoldListV, SqlErrorV>
    decreases items.len(),
{
    if items.len() == 0 {
        Ok(list)
    } else {
        match fold_items(c, group, items.drop_last(), list) {
            Err(e) => Err(e),
            Ok(list) => fold_item(c, group, items.last().0, items.last().1, list),
        }
    }
}

proof fn fold_items_stop(
    c: CollectionV,
    group: Option<GroupExprV>,
    items: Seq<(SelectItemV, Option<Seq<char>>)>,
    list: FoldListV,
    n: int,
)
    requires
        0 <= n <= items.len(),
        fold_items(c, group, items.take(n), list) is Err,
    ensures
        fold_items(c, group, items, list) == fold_items(c, group, items.take(n), list),
    decreases items.len() - n,
{
    if n < items.len() {
        take_next(items, n);
        fold_items_stop(c, group, items, list, n + 1);
    } else {
        take_all(items);
    }
}

fn same_divisor(a: Option<i64>, b: i64) -> (r: bool)
    ensures
        r == (a == Some(b)),
{
    match a {
        Some(n) => n == b,
        None => false,
    }
}

fn dup_alias(alias: &Option<String>) -> (r: Option<String>)
    ensures
        r.deep_view() == alias.deep_view(),
{
    match alias {
        Some(a) => Some(a.clone()),
        None => None,
    }
}

fn add_item(
    c: &Collection,
    group: &Option<GroupExpr>,
    item: &SelectItem,
    alias: &Option<String>,
    list: &mut FoldList,
) -> (r: Result<(), SqlError>)
    ensures
        match fold_item(
            c.deep_view(),
            group.deep_view(),
            item.deep_view(),
            alias.deep_view(),
            old(list).deep_view(),
        ) {
            Ok(l) => r is Ok && final(list).deep_view() == l,
            Err(e) => r is Err && r->Err_0.deep_view() == e,
        },
{
    match item {
        SelectItem::Function(expr) => Err(
            SqlError::Unsupported(
                cat3(
                    "`",
                    expr.written().as_str(),
                    "` in a folded answer: QL_CONTRACT §4.1 and §4.2 make a function over projected values a ROW function, and a folded answer returns groups, not rows. Group by the value the function computes (`GROUP BY col`), or select the function without folding",
                ),
            ),
        ),
        SelectItem::Aggregate { function, argument } => {
            let a = accumulate(c, *function, argument)?;
            let at: usize = list.accumulators.len();
            let w = Written {
                function: *function,
                argument: argument.dup(),
                alias: dup_alias(alias),
            };
            list.fold(a, w);
            list.push(titled(alias, function.written()), AggOutput::Value(at));
            Ok(())
        },
        SelectItem::Column(name) => match group {
            None => Err(
                SqlError::Unsupported(
                    cat3(
                        "`",
                        name.as_str(),
                        "` is neither an aggregate nor a GROUP BY key: a statement that folds rows can only report what is the same for every row of a group",
                    ),
                ),
            ),
            Some(group) => {
                if !same(name.as_str(), group.column.as_str()) {
                    return Err(
                        SqlError::Unsupported(
                            cat5(
                                "`",
                                name.as_str(),
                                "` is not the GROUP BY key `",
                                group.column.as_str(),
                                "`: a statement that folds rows can only report the key it grouped by",
                            ),
                        ),
                    );
                }
                list.push(titled(alias, name.as_str()), AggOutput::Key);
                Ok(())
            },
        },
        SelectItem::Divided { column, divisor } => match group {
            None => Err(
                SqlError::Unsupported(
                    cat5(
                        "`",
                        column.as_str(),
                        " / ",
                        decimal_i64(*divisor).as_str(),
                        "` is neither an aggregate nor a GROUP BY key",
                    ),
                ),
            ),
            Some(group) => {
                if !same(group.column.as_str(), column.as_str()) || !same_divisor(
                    group.divisor,
                    *divisor,
                ) {
                    return Err(
                        SqlError::Unsupported(
                            cat5(
                                "`",
                                column.as_str(),
                                " / ",
                                decimal_i64(*divisor).as_str(),
                                "` is not the GROUP BY key: a statement that folds rows can only report the key it grouped by",
                            ),
                        ),
                    );
                }
                list.push(titled(alias, column.as_str()), AggOutput::Key);
                Ok(())
            },
        },
        SelectItem::Star => Err(
            SqlError::unsupported(
                "SELECT * with an aggregate: a folded answer has no row to expand",
            ),
        ),
        SelectItem::Id | SelectItem::Key => Err(
            SqlError::unsupported(
                "an entity id or external key with an aggregate: a group is not a row and has neither",
            ),
        ),
        SelectItem::OrderValue(what) => Err(
            SqlError::Unsupported(
                cat2(
                    what.as_str(),
                    " with an aggregate: the only expressions a folded answer reports are its group key and its accumulators",
                ),
            ),
        ),
    }
}

fn add_items(
    c: &Collection,
    group: &Option<GroupExpr>,
    items: &Vec<(SelectItem, Option<String>)>,
    list: &mut FoldList,
) -> (r: Result<(), SqlError>)
    ensures
        match fold_items(
            c.deep_view(),
            group.deep_view(),
            items.deep_view(),
            old(list).deep_view(),
        ) {
            Ok(l) => r is Ok && final(list).deep_view() == l,
            Err(e) => r is Err && r->Err_0.deep_view() == e,
        },
{
    let ghost all = items.deep_view();
    let ghost start = list.deep_view();
    let mut i: usize = 0;
    assert(all.take(0) =~= Seq::<(SelectItemV, Option<Seq<char>>)>::empty());
    while i < items.len()
        invariant
            i <= items@.len(),
            all == items.deep_view(),
            start == old(list).deep_view(),
            fold_items(c.deep_view(), group.deep_view(), all.take(i as int), start) == Ok::<
                FoldListV,
                SqlErrorV,
            >(list.deep_view()),
        decreases items@.len() - i,
    {
        proof {
            take_next(all, i as int);
            assert(all[i as int] == items@[i as int].deep_view());
        }
        match add_item(c, group, &items[i].0, &items[i].1, list) {
            Ok(()) => {},
            Err(e) => {
                proof {
                    fold_items_stop(c.deep_view(), group.deep_view(), all, start, i as int + 1);
                }
                return Err(e);
            },
        }
        i = i + 1;
    }
    proof {
        take_all(all);
    }
    Ok(())
}

// ── HAVING ───────────────────────────────────────────────────────────────

/// The accumulator written so, from position `i` on.
pub open spec fn written_from(list: Seq<WrittenV>, function: AggFunc, argument: AggArgV, i: nat) -> Option<
    nat,
>
    decreases list.len() - i,
{
    if i >= list.len() {
        None
    } else if list[i as int].function == function && list[i as int].argument == argument {
        Some(i)
    } else {
        written_from(list, function, argument, i + 1)
    }
}

/// What a value that a `HAVING` compares with is folded into.
pub const HAVING: &'static str = "a HAVING comparison";

/// One `HAVING` comparison. An aggregate that the select list does not report
/// is folded too, and is no column.
pub open spec fn having_item(
    env: EnvV,
    c: CollectionV,
    h: HavingPredicateV,
    list: FoldListV,
    log: LogV,
) -> Result<(GroupPredicateV, FoldListV, LogV), SqlErrorV> {
    let found: Result<(usize, FoldListV), SqlErrorV> = match written_from(
        list.written,
        h.function,
        h.argument,
        0,
    ) {
        Some(at) => Ok((at as usize, list)),
        None => match accumulator(c, h.function, h.argument) {
            Err(e) => Err(e),
            Ok(a) => Ok(
                (
                    list.accumulators.len() as usize,
                    list.folding(
                        a,
                        WrittenV { function: h.function, argument: h.argument, alias: None },
                    ),
                ),
            ),
        },
    };
    match found {
        Err(e) => Err(e),
        Ok((at, list)) => match text_extreme(c, h) {
            Err(e) => Err(e),
            Ok(()) => match number_of(env.binder, h.value) {
                Err(e) => Err(e),
                Ok(value) => Ok(
                    (
                        GroupPredicateV { accumulator: at, op: h.op, value },
                        list,
                        log.folded(h.value, HAVING@),
                    ),
                ),
            },
        },
    }
}

/// A `min` or `max` of a text column has no number to compare.
pub open spec fn text_extreme(c: CollectionV, h: HavingPredicateV) -> Result<(), SqlErrorV> {
    match (h.function, h.argument) {
        (AggFunc::Min, AggArgV::Column(column)) | (AggFunc::Max, AggArgV::Column(column)) => {
            if column.len() == 0 {
                Ok(())
            } else {
                match kind_of(c, column) {
                    Err(e) => Err(e),
                    Ok(kind) => if kind == Kind::Text {
                        Err(
                            SqlErrorV::Unsupported(
                                "HAVING "@ + agg_func_text(h.function) + "("@ + column
                                    + ") compares numbers, and this accumulator's value is text"@,
                            ),
                        )
                    } else {
                        Ok(())
                    },
                }
            }
        },
        _ => Ok(()),
    }
}

/// The comparisons of a `HAVING`.
pub open spec fn having_items(
    env: EnvV,
    c: CollectionV,
    parts: Seq<HavingPredicateV>,
    list: FoldListV,
    log: LogV,
) -> Result<(Seq<GroupPredicateV>, FoldListV, LogV), SqlErrorV>
    decreases parts.len(),
{
    if parts.len() == 0 {
        Ok((Seq::empty(), list, log))
    } else {
        match having_items(env, c, parts.drop_last(), list, log) {
            Err(e) => Err(e),
            Ok((done, list, log)) => match having_item(env, c, parts.last(), list, log) {
                Err(e) => Err(e),
                Ok((p, list, log)) => Ok((done.push(p), list, log)),
            },
        }
    }
}

proof fn having_items_stop(
    env: EnvV,
    c: CollectionV,
    parts: Seq<HavingPredicateV>,
    list: FoldListV,
    log: LogV,
    n: int,
)
    requires
        0 <= n <= parts.len(),
        having_items(env, c, parts.take(n), list, log) is Err,
    ensures
        having_items(env, c, parts, list, log) == having_items(env, c, parts.take(n), list, log),
    decreases parts.len() - n,
{
    if n < parts.len() {
        take_next(parts, n);
        having_items_stop(env, c, parts, list, log, n + 1);
    } else {
        take_all(parts);
    }
}

fn same_argument(a: &AggArg, b: &AggArg) -> (r: bool)
    ensures
        r == (a.deep_view() == b.deep_view()),
{
    match (a, b) {
        (AggArg::Star, AggArg::Star) => true,
        (AggArg::Column(x), AggArg::Column(y)) => same(x.as_str(), y.as_str()),
        _ => false,
    }
}

fn written_at(list: &Vec<Written>, function: AggFunc, argument: &AggArg) -> (r: Option<usize>)
    ensures
        match r {
            Some(at) => written_from(list.deep_view(), function, argument.deep_view(), 0) == Some(
                at as nat,
            ),
            None => written_from(list.deep_view(), function, argument.deep_view(), 0) is None,
        },
{
    let ghost all = list.deep_view();
    let mut i: usize = 0;
    while i < list.len()
        invariant
            i <= list@.len(),
            all == list.deep_view(),
            written_from(all, function, argument.deep_view(), i as nat) == written_from(
                all,
                function,
                argument.deep_view(),
                0,
            ),
        decreases list@.len() - i,
    {
        assert(all[i as int] == list@[i as int].deep_view());
        if list[i].function == function && same_argument(&list[i].argument, argument) {
            return Some(i);
        }
        i = i + 1;
    }
    None
}

fn check_extreme(c: &Collection, h: &HavingPredicate) -> (r: Result<(), SqlError>)
    ensures
        match text_extreme(c.deep_view(), h.deep_view()) {
            Ok(()) => r is Ok,
            Err(e) => r is Err && r->Err_0.deep_view() == e,
        },
{
    if h.function == AggFunc::Min || h.function == AggFunc::Max {
        if let AggArg::Column(column) = &h.argument {
            if column.as_str().unicode_len() > 0 {
                let kind = c.kind_of(column.as_str())?;
                if kind == Kind::Text {
                    return Err(
                        SqlError::Unsupported(
                            cat5(
                                "HAVING ",
                                h.function.written(),
                                "(",
                                column.as_str(),
                                ") compares numbers, and this accumulator's value is text",
                            ),
                        ),
                    );
                }
            }
        }
    }
    Ok(())
}

/// A list of `HAVING` comparisons.
#[derive(Debug)]
pub struct Havings {
    pub list: Vec<GroupPredicate>,
}

impl<'a> Env<'a> {
    fn having_item(&self, c: &Collection, h: &HavingPredicate, list: &mut FoldList, log: &mut Log) -> (r:
        Result<GroupPredicate, SqlError>)
        ensures
            match having_item(
                self.deep_view(),
                c.deep_view(),
                h.deep_view(),
                old(list).deep_view(),
                old(log).deep_view(),
            ) {
                Ok((p, l, g)) => r is Ok && r->Ok_0.deep_view() == p && final(list).deep_view()
                    == l && final(log).deep_view() == g,
                Err(e) => r is Err && r->Err_0.deep_view() == e,
            },
    {
        let at: usize = match written_at(&list.written, h.function, &h.argument) {
            Some(at) => at,
            None => {
                let a = accumulate(c, h.function, &h.argument)?;
                let at: usize = list.accumulators.len();
                let w = Written { function: h.function, argument: h.argument.dup(), alias: None };
                list.fold(a, w);
                at
            },
        };
        check_extreme(c, h)?;
        let value = self.binder.f64_of(&h.value)?;
        log.folds(&h.value, HAVING);
        Ok(GroupPredicate { accumulator: at, op: h.op, value })
    }

    fn having_items(
        &self,
        c: &Collection,
        parts: &Vec<HavingPredicate>,
        list: &mut FoldList,
        log: &mut Log,
    ) -> (r: Result<Havings, SqlError>)
        ensures
            match having_items(
                self.deep_view(),
                c.deep_view(),
                parts.deep_view(),
                old(list).deep_view(),
                old(log).deep_view(),
            ) {
                Ok((p, l, g)) => r is Ok && r->Ok_0.list.deep_view() == p
                    && final(list).deep_view() == l && final(log).deep_view() == g,
                Err(e) => r is Err && r->Err_0.deep_view() == e,
            },
    {
        let ghost all = parts.deep_view();
        let ghost start = list.deep_view();
        let ghost start_log = log.deep_view();
        let mut out: Vec<GroupPredicate> = Vec::new();
        let mut i: usize = 0;
        assert(all.take(0) =~= Seq::<HavingPredicateV>::empty());
        assert(out.deep_view() =~= Seq::<GroupPredicateV>::empty());
        while i < parts.len()
            invariant
                i <= parts@.len(),
                all == parts.deep_view(),
                start == old(list).deep_view(),
                start_log == old(log).deep_view(),
                having_items(
                    self.deep_view(),
                    c.deep_view(),
                    all.take(i as int),
                    start,
                    start_log,
                ) == Ok::<(Seq<GroupPredicateV>, FoldListV, LogV), SqlErrorV>(
                    (out.deep_view(), list.deep_view(), log.deep_view()),
                ),
            decreases parts@.len() - i,
        {
            proof {
                take_next(all, i as int);
                assert(all[i as int] == parts@[i as int].deep_view());
            }
            match self.having_item(c, &parts[i], list, log) {
                Err(e) => {
                    proof {
                        having_items_stop(
                            self.deep_view(),
                            c.deep_view(),
                            all,
                            start,
                            start_log,
                            i as int + 1,
                        );
                    }
                    return Err(e);
                },
                Ok(p) => {
                    let ghost before = out.deep_view();
                    out.push(p);
                    assert(out.deep_view() =~= before.push(p.deep_view()));
                },
            }
            i = i + 1;
        }
        proof {
            take_all(all);
        }
        Ok(Havings { list: out })
    }
}

// ── ORDER BY ─────────────────────────────────────────────────────────────

/// Whether a name is the group key: its column, or the title it is reported
/// under.
pub open spec fn names_key(group: Option<GroupExprV>, list: FoldListV, column: Seq<char>) -> bool {
    ||| group is Some && group->0.column == column
    ||| exists|i: int|
        0 <= i < list.outputs.len() && i < list.columns.len() && #[trigger] list.outputs[i]
            == AggOutput::Key && list.columns[i] == column
}

/// Whether an accumulator goes by a name: its alias, or its function where it
/// has none.
pub open spec fn goes_by(w: WrittenV, column: Seq<char>) -> bool {
    match w.alias {
        Some(alias) => alias == column,
        None => agg_func_text(w.function) == column,
    }
}

pub open spec fn alias_from(list: Seq<WrittenV>, column: Seq<char>, i: nat) -> Option<nat>
    decreases list.len() - i,
{
    if i >= list.len() {
        None
    } else if goes_by(list[i as int], column) {
        Some(i)
    } else {
        alias_from(list, column, i + 1)
    }
}

/// The order of a folded answer.
pub open spec fn group_order(
    group: Option<GroupExprV>,
    list: FoldListV,
    order: Option<OrderKeyV>,
) -> Result<GroupOrder, SqlErrorV> {
    match order {
        None => Ok(GroupOrder::Key),
        Some(OrderKeyV::Column { column, descending }) => if names_key(group, list, column) {
            if descending {
                Err(
                    SqlErrorV::Unsupported(
                        "ORDER BY <group key> DESC: the groups arrive in the driving index's own ASCENDING order, and reversing them would mean holding every group to turn it round -- which is the hashed shape's sort, and it sorts by an accumulator, not by the key"@,
                    ),
                )
            } else {
                Ok(GroupOrder::Key)
            }
        } else {
            match alias_from(list.written, column, 0) {
                Some(at) => Ok(GroupOrder::Accumulator { at: at as usize, descending }),
                None => Err(
                    SqlErrorV::Unsupported(
                        "ORDER BY `"@ + column
                            + "`: a folded answer is ordered by its group key or by one of its own aggregate aliases"@,
                    ),
                ),
            }
        },
        Some(_) => Err(
            SqlErrorV::Unsupported(
                "ORDER BY on a folded answer takes the group key or an aggregate alias; a distance, a vector or a BM25 ranking ranks ROWS"@,
            ),
        ),
    }
}

fn is_key_name(group: &Option<GroupExpr>, list: &FoldList, column: &str) -> (r: bool)
    ensures
        r == names_key(group.deep_view(), list.deep_view(), column@),
{
    if let Some(group) = group {
        if same(group.column.as_str(), column) {
            return true;
        }
    }
    let ghost l = list.deep_view();
    let mut i: usize = 0;
    while i < list.outputs.len() && i < list.columns.len()
        invariant
            i <= list.outputs@.len(),
            i <= list.columns@.len(),
            l == list.deep_view(),
            forall|k: int|
                0 <= k < i ==> !(#[trigger] l.outputs[k] == AggOutput::Key && l.columns[k]
                    == column@),
        decreases list.outputs@.len() - i,
    {
        assert(l.columns[i as int] == list.columns@[i as int]@);
        assert(l.outputs[i as int] == list.outputs@[i as int]);
        if list.outputs[i] == AggOutput::Key && same(list.columns[i].as_str(), column) {
            return true;
        }
        i = i + 1;
    }
    false
}

fn alias_at(list: &Vec<Written>, column: &str) -> (r: Option<usize>)
    ensures
        match r {
            Some(at) => alias_from(list.deep_view(), column@, 0) == Some(at as nat),
            None => alias_from(list.deep_view(), column@, 0) is None,
        },
{
    let ghost all = list.deep_view();
    let mut i: usize = 0;
    while i < list.len()
        invariant
            i <= list@.len(),
            all == list.deep_view(),
            alias_from(all, column@, i as nat) == alias_from(all, column@, 0),
        decreases list@.len() - i,
    {
        assert(all[i as int] == list@[i as int].deep_view());
        let hit = match &list[i].alias {
            Some(alias) => same(alias.as_str(), column),
            None => same(list[i].function.written(), column),
        };
        if hit {
            return Some(i);
        }
        i = i + 1;
    }
    None
}

fn order_groups(group: &Option<GroupExpr>, list: &FoldList, order: &Option<OrderKey>) -> (r: Result<
    GroupOrder,
    SqlError,
>)
    ensures
        match group_order(group.deep_view(), list.deep_view(), order.deep_view()) {
            Ok(o) => r is Ok && r->Ok_0 == o,
            Err(e) => r is Err && r->Err_0.deep_view() == e,
        },
{
    match order {
        None => Ok(GroupOrder::Key),
        Some(OrderKey::Column { column, descending }) => {
            if is_key_name(group, list, column.as_str()) {
                if *descending {
                    return Err(
                        SqlError::unsupported(
                            "ORDER BY <group key> DESC: the groups arrive in the driving index's own ASCENDING order, and reversing them would mean holding every group to turn it round -- which is the hashed shape's sort, and it sorts by an accumulator, not by the key",
                        ),
                    );
                }
                return Ok(GroupOrder::Key);
            }
            match alias_at(&list.written, column.as_str()) {
                Some(at) => Ok(GroupOrder::Accumulator { at, descending: *descending }),
                None => Err(
                    SqlError::Unsupported(
                        cat3(
                            "ORDER BY `",
                            column.as_str(),
                            "`: a folded answer is ordered by its group key or by one of its own aggregate aliases",
                        ),
                    ),
                ),
            }
        },
        Some(_) => Err(
            SqlError::unsupported(
                "ORDER BY on a folded answer takes the group key or an aggregate alias; a distance, a vector or a BM25 ranking ranks ROWS",
            ),
        ),
    }
}

// ── the statement ────────────────────────────────────────────────────────

pub open spec fn reports_nothing(group: Option<GroupExprV>, list: FoldListV) -> bool {
    group is Some && !list.outputs.contains(AggOutput::Key) && list.accumulators.len() == 0
}

/// A statement that folds, over collection `c`.
pub open spec fn folded_of(env: EnvV, c: CollectionV, s: SelectStmtV, log: LogV) -> Result<
    (AggregatePlanV, LogV),
    SqlErrorV,
> {
    let empty = FoldListV {
        columns: Seq::empty(),
        outputs: Seq::empty(),
        accumulators: Seq::empty(),
        written: Seq::empty(),
    };
    match where_filters(env, c, s.predicates, log) {
        Err(e) => Err(e),
        Ok((filters, log)) => match group_expr(s) {
            Err(e) => Err(e),
            Ok(group) => match keyed(c, group) {
                Err(e) => Err(e),
                Ok((key, key_iso)) => match fold_items(c, group, s.items, empty) {
                    Err(e) => Err(e),
                    Ok(list) => if reports_nothing(group, list) {
                        Err(
                            SqlErrorV::Unsupported(
                                "GROUP BY with an empty select list reports nothing"@,
                            ),
                        )
                    } else {
                        match having_items(env, c, s.having, list, log) {
                            Err(e) => Err(e),
                            Ok((having, list, log)) => match group_order(group, list, s.order) {
                                Err(e) => Err(e),
                                Ok(order) => Ok(
                                    (
                                        AggregatePlanV {
                                            collection: c.id,
                                            columns: list.columns,
                                            outputs: list.outputs,
                                            filters,
                                            group: key,
                                            accumulators: list.accumulators,
                                            having,
                                            order,
                                            driver: if any_key_filter(filters) {
                                                CandidateDriver::Keys
                                            } else {
                                                CandidateDriver::Auto
                                            },
                                            limit: s.limit,
                                            key_iso,
                                        },
                                        log,
                                    ),
                                ),
                            },
                        }
                    },
                },
            },
        },
    }
}

/// The folded plan of a statement, or nothing where it returns rows.
pub open spec fn aggregate_of(env: EnvV, s: SelectStmtV, log: LogV) -> Result<
    (Option<AggregatePlanV>, LogV),
    SqlErrorV,
> {
    if !is_folded(s) {
        Ok((None, log))
    } else {
        match s.source {
            SourceV::Table(table) => match collection_of(env.binder.catalog, table) {
                Err(e) => Err(e),
                Ok(c) => match folded_of(env, c, s, log) {
                    Err(e) => Err(e),
                    Ok((plan, log)) => Ok((Some(plan), log)),
                },
            },
            _ => Err(
                SqlErrorV::Unsupported(
                    "an aggregate over GRAPH_TABLE: the aggregate atomic folds the candidates of ONE collection's plan; a traversal's COLUMNS are rows, and folding them is the path-accumulator item (QL_CONTRACT §4.3)"@,
                ),
            ),
        }
    }
}

fn reports_key(outputs: &Vec<AggOutput>) -> (r: bool)
    ensures
        r == outputs@.contains(AggOutput::Key),
{
    let mut i: usize = 0;
    while i < outputs.len()
        invariant
            i <= outputs@.len(),
            forall|k: int| 0 <= k < i ==> outputs@[k] != AggOutput::Key,
        decreases outputs@.len() - i,
    {
        if outputs[i] == AggOutput::Key {
            return true;
        }
        i = i + 1;
    }
    false
}

impl<'a> Env<'a> {
    fn folded(&self, c: &Collection, s: &SelectStmt, log: &mut Log) -> (r: Result<
        AggregatePlan,
        SqlError,
    >)
        requires
            exprs_ok(s.deep_view().predicates),
        ensures
            logged(
                r,
                *final(log),
                folded_of(
                    self.deep_view(),
                    c.deep_view(),
                    s.deep_view(),
                    old(log).deep_view(),
                ),
            ),
    {
        let filters = self.where_filters(c, &s.predicates, log)?;
        let group = group_of(s)?;
        let (key, key_iso) = keys(c, &group)?;
        let mut list = FoldList::new();
        add_items(c, &group, &s.items, &mut list)?;
        if group.is_some() && !reports_key(&list.outputs) && list.accumulators.len() == 0 {
            return Err(
                SqlError::unsupported("GROUP BY with an empty select list reports nothing"),
            );
        }
        let having = self.having_items(c, &s.having, &mut list, log)?;
        let order = order_groups(&group, &list, &s.order)?;
        let driver = if has_key_filter(&filters.list) {
            CandidateDriver::Keys
        } else {
            CandidateDriver::Auto
        };
        Ok(
            AggregatePlan {
                collection: c.id,
                columns: list.columns,
                outputs: list.outputs,
                filters: filters.list,
                group: key,
                accumulators: list.accumulators,
                having: having.list,
                order,
                driver,
                limit: s.limit,
                key_iso,
            },
        )
    }

    /// The folded plan of a statement that names an aggregate function, a
    /// `GROUP BY`, a `HAVING` or a `DISTINCT`; nothing for one that returns
    /// rows.
    pub fn aggregate(&self, s: &SelectStmt, log: &mut Log) -> (r: Result<
        Option<AggregatePlan>,
        SqlError,
    >)
        requires
            exprs_ok(s.deep_view().predicates),
        ensures
            logged(
                r,
                *final(log),
                aggregate_of(self.deep_view(), s.deep_view(), old(log).deep_view()),
            ),
    {
        if !has_aggregate(&s.items) && !s.distinct && s.group.is_none() && s.having.len() == 0 {
            return Ok(None);
        }
        match &s.source {
            Source::Table(table) => {
                let c = self.binder.catalog.collection(table.as_str())?;
                let plan = self.folded(c, s, log)?;
                Ok(Some(plan))
            },
            _ => Err(
                SqlError::unsupported(
                    "an aggregate over GRAPH_TABLE: the aggregate atomic folds the candidates of ONE collection's plan; a traversal's COLUMNS are rows, and folding them is the path-accumulator item (QL_CONTRACT §4.3)",
                ),
            ),
        }
    }
}

} // verus!
