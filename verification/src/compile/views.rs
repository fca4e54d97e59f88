//! `SELECT` over a relation of the catalog.

use vstd::prelude::*;
use crate::ast::{
    expr_view_parts, row_expr_text, Expr, ExprV, Literal, LiteralV, Predicate, PredicateV, RowExpr,
    RowExprV,
};
use crate::catalog::relations::{
    column_from, written_name, CatalogColumnV, CatalogRelation, CatalogRelationV,
};
use crate::compile::bind::{value_of, Binder, BinderV};
use crate::compile::log::{logged, Log, LogV};
use crate::compile::row::{compiled_view_args, CompiledRow, CompiledRowV};
use crate::compile::rows::{
    all_within, op2_of, row_filter_parts, to_op2, within, RowFilter, RowFilterV,
};
use crate::debug::{debug_predicate, predicate_debug};
use crate::error::{gives, SqlError, SqlErrorV};
use crate::lists::{take_all, take_next};
use crate::number::{saturated, to_i64};
use crate::text::{cat3, cat5, cat6, join, joined, owned, texts};
use crate::value::{row_value, SqlValue, SqlValueV};

verus! {

// ── row functions over a relation's columns ──────────────────────────────

pub open spec fn no_such_column(r: CatalogRelationV, name: Seq<char>) -> SqlErrorV {
    SqlErrorV::Engine("`"@ + written_name(r) + "` has no column `"@ + name + "`"@)
}

/// A row expression over the columns of a relation: the string functions, `||`
/// and `::text`, over columns and constants.
pub open spec fn catalog_row(r: CatalogRelationV, e: RowExprV) -> Result<CompiledRowV, SqlErrorV>
    decreases e,
{
    match e {
        RowExprV::Column(name) => match column_from(r.columns, name, 0) {
            Some(at) => Ok(CompiledRowV::Field { at: at as usize, time: false }),
            None => Err(no_such_column(r, name)),
        },
        RowExprV::Lit(LiteralV::Str(text)) => Ok(CompiledRowV::Lit(SqlValueV::Text(text))),
        RowExprV::Lit(LiteralV::Num(n, exact)) => Ok(
            CompiledRowV::Lit(
                if exact {
                    SqlValueV::Int(saturated(n.bits) as i64)
                } else {
                    SqlValueV::Float(n)
                },
            ),
        ),
        RowExprV::Lit(LiteralV::Bool(b)) => Ok(CompiledRowV::Lit(SqlValueV::Bool(b))),
        RowExprV::Lit(LiteralV::Null) => Ok(CompiledRowV::Lit(SqlValueV::Null)),
        RowExprV::Str { func, args } => match catalog_rows(r, args) {
            Err(e) => Err(e),
            Ok(list) => Ok(CompiledRowV::Str { func, args: list }),
        },
        RowExprV::Concat(a, b) => match catalog_row(r, *a) {
            Err(e) => Err(e),
            Ok(x) => match catalog_row(r, *b) {
                Err(e) => Err(e),
                Ok(y) => Ok(CompiledRowV::Concat(Box::new(x), Box::new(y))),
            },
        },
        RowExprV::CastText(a) => match catalog_row(r, *a) {
            Err(e) => Err(e),
            Ok(x) => Ok(CompiledRowV::CastText(Box::new(x))),
        },
        _ => Err(
            SqlErrorV::Unsupported(
                "`"@ + row_expr_text(e)
                    + "` over a catalog view: its columns are text, names and small integers, so the row functions over them are the §4.1 STRING set, `||` and `::text`. A §4.2 date/time function, a cast to date and arithmetic have nothing here to act on"@,
            ),
        ),
    }
}

pub open spec fn catalog_rows(r: CatalogRelationV, args: Seq<RowExprV>) -> Result<
    Seq<CompiledRowV>,
    SqlErrorV,
>
    decreases args,
{
    if args.len() == 0 {
        Ok(Seq::empty())
    } else {
        match catalog_rows(r, args.drop_last()) {
            Err(e) => Err(e),
            Ok(done) => match catalog_row(r, args.last()) {
                Err(e) => Err(e),
                Ok(x) => Ok(done.push(x)),
            },
        }
    }
}

proof fn catalog_rows_stop(r: CatalogRelationV, args: Seq<RowExprV>, n: int)
    requires
        0 <= n <= args.len(),
        catalog_rows(r, args.take(n)) is Err,
    ensures
        catalog_rows(r, args) == catalog_rows(r, args.take(n)),
    decreases args.len() - n,
{
    if n < args.len() {
        take_next(args, n);
        catalog_rows_stop(r, args, n + 1);
    } else {
        take_all(args);
    }
}

/// A row expression over the columns of a relation.
pub fn catalog_row_function(relation: &CatalogRelation, e: &RowExpr) -> (r: Result<
    CompiledRow,
    SqlError,
>)
    ensures
        gives(r, catalog_row(relation.deep_view(), e.deep_view())),
    decreases e,
{
    match e {
        RowExpr::Column(name) => match relation.column_at(name.as_str()) {
            Some(at) => Ok(CompiledRow::Field { at, time: false }),
            None => Err(
                SqlError::Engine(
                    cat5(
                        "`",
                        relation.written().as_str(),
                        "` has no column `",
                        name.as_str(),
                        "`",
                    ),
                ),
            ),
        },
        RowExpr::Lit(Literal::Str(text)) => Ok(CompiledRow::Lit(SqlValue::Text(text.clone()))),
        RowExpr::Lit(Literal::Num(n, exact)) => if *exact {
            Ok(CompiledRow::Lit(SqlValue::Int(to_i64(n.bits))))
        } else {
            Ok(CompiledRow::Lit(SqlValue::Float(n.dup())))
        },
        RowExpr::Lit(Literal::Bool(b)) => Ok(CompiledRow::Lit(SqlValue::Bool(*b))),
        RowExpr::Lit(Literal::Null) => Ok(CompiledRow::Lit(SqlValue::Null)),
        RowExpr::Str { func, args } => {
            proof {
                crate::ast::row_expr_view_args(*func, *args);
            }
            let ghost rel = relation.deep_view();
            let ghost all = args.deep_view();
            let mut out: Vec<CompiledRow> = Vec::new();
            let mut i: usize = 0;
            assert(all.take(0) =~= Seq::<RowExprV>::empty());
            assert(out.deep_view() =~= Seq::<CompiledRowV>::empty());
            while i < args.len()
                invariant
                    i <= args@.len(),
                    all == args.deep_view(),
                    rel == relation.deep_view(),
                    e matches RowExpr::Str { func: f2, args: a2 } && a2 == *args && f2 == *func,
                    e.deep_view() == (RowExprV::Str { func: *func, args: all }),
                    catalog_rows(rel, all.take(i as int)) == Ok::<Seq<CompiledRowV>, SqlErrorV>(
                        out.deep_view(),
                    ),
                decreases args@.len() - i,
            {
                proof {
                    take_next(all, i as int);
                    assert(all[i as int] == args@[i as int].deep_view());
                }
                match catalog_row_function(relation, &args[i]) {
                    Ok(x) => {
                        let ghost before = out.deep_view();
                        out.push(x);
                        assert(out.deep_view() =~= before.push(x.deep_view()));
                    },
                    Err(e) => {
                        proof {
                            catalog_rows_stop(rel, all, i as int + 1);
                        }
                        return Err(e);
                    },
                }
                i = i + 1;
            }
            proof {
                take_all(all);
                compiled_view_args(*func, out);
            }
            Ok(CompiledRow::Str { func: *func, args: out })
        },
        RowExpr::Concat(a, b) => {
            let x = catalog_row_function(relation, a)?;
            let y = catalog_row_function(relation, b)?;
            Ok(CompiledRow::Concat(Box::new(x), Box::new(y)))
        },
        RowExpr::CastText(a) => {
            let x = catalog_row_function(relation, a)?;
            Ok(CompiledRow::CastText(Box::new(x)))
        },
        _ => Err(
            SqlError::Unsupported(
                cat3(
                    "`",
                    e.written().as_str(),
                    "` over a catalog view: its columns are text, names and small integers, so the row functions over them are the §4.1 STRING set, `||` and `::text`. A §4.2 date/time function, a cast to date and arithmetic have nothing here to act on",
                ),
            ),
        ),
    }
}

// ── columns and values ───────────────────────────────────────────────────

pub open spec fn column_names(columns: Seq<CatalogColumnV>) -> Seq<Seq<char>> {
    columns.map_values(|c: CatalogColumnV| c.name)
}

fn names_of(relation: &CatalogRelation) -> (r: Vec<String>)
    ensures
        texts(r@) == column_names(relation.deep_view().columns),
{
    let ghost all = relation.deep_view().columns;
    let mut out: Vec<String> = Vec::new();
    let mut i: usize = 0;
    while i < relation.columns.len()
        invariant
            i <= relation.columns@.len(),
            all == relation.columns.deep_view(),
            out@.len() == i,
            forall|k: int| 0 <= k < i ==> (#[trigger] out@[k])@ == all[k].name,
        decreases relation.columns@.len() - i,
    {
        assert(all[i as int] == relation.columns@[i as int].deep_view());
        out.push(owned(relation.columns[i].name));
        i = i + 1;
    }
    assert(texts(out@) =~= column_names(all));
    out
}

/// Where a column stands; a name that is no column is refused with the names
/// that are.
pub open spec fn catalog_column_of(r: CatalogRelationV, name: Seq<char>) -> Result<
    usize,
    SqlErrorV,
> {
    match column_from(r.columns, name, 0) {
        Some(at) => Ok(at as usize),
        None => Err(
            SqlErrorV::Engine(
                "`"@ + written_name(r) + "` has no column `"@ + name + "`; it has "@ + joined(
                    column_names(r.columns),
                    ", "@,
                ),
            ),
        ),
    }
}

pub fn catalog_column(relation: &CatalogRelation, name: &str) -> (r: Result<usize, SqlError>)
    ensures
        match catalog_column_of(relation.deep_view(), name@) {
            Ok(at) => r == Ok::<usize, SqlError>(at) && at < relation.columns@.len(),
            Err(e) => r is Err && r->Err_0.deep_view() == e,
        },
{
    match relation.column_at(name) {
        Some(at) => Ok(at),
        None => Err(
            SqlError::Engine(
                cat6(
                    "`",
                    relation.written().as_str(),
                    "` has no column `",
                    name,
                    "`; it has ",
                    join(&names_of(relation), ", ").as_str(),
                ),
            ),
        ),
    }
}

pub const CATALOG_FILTER: &'static str =
    "a filter over a catalog view, which is applied at prepare";

/// A written value, as the rows hold values. It chooses which rows the plan
/// has, so it is folded into it.
pub open spec fn catalog_value_of(b: BinderV, l: LiteralV, log: LogV) -> Result<
    (SqlValueV, LogV),
    SqlErrorV,
> {
    match value_of(b, l) {
        Err(e) => Err(e),
        Ok(v) => Ok((row_value(v), log.folded(l, CATALOG_FILTER@))),
    }
}

pub fn catalog_value(binder: &Binder, literal: &Literal, log: &mut Log) -> (r: Result<
    SqlValue,
    SqlError,
>)
    ensures
        logged(
            r,
            *final(log),
            catalog_value_of(binder.deep_view(), literal.deep_view(), old(log).deep_view()),
        ),
{
    log.folds(literal, CATALOG_FILTER);
    let v = binder.value_of(literal)?;
    Ok(v.into_row())
}

pub open spec fn catalog_values_of(b: BinderV, list: Seq<LiteralV>, log: LogV) -> Result<
    (Seq<SqlValueV>, LogV),
    SqlErrorV,
>
    decreases list.len(),
{
    if list.len() == 0 {
        Ok((Seq::empty(), log))
    } else {
        match catalog_values_of(b, list.drop_last(), log) {
            Err(e) => Err(e),
            Ok((done, log)) => match catalog_value_of(b, list.last(), log) {
                Err(e) => Err(e),
                Ok((v, log)) => Ok((done.push(v), log)),
            },
        }
    }
}

proof fn catalog_values_stop(b: BinderV, list: Seq<LiteralV>, log: LogV, n: int)
    requires
        0 <= n <= list.len(),
        catalog_values_of(b, list.take(n), log) is Err,
    ensures
        catalog_values_of(b, list, log) == catalog_values_of(b, list.take(n), log),
    decreases list.len() - n,
{
    if n < list.len() {
        take_next(list, n);
        catalog_values_stop(b, list, log, n + 1);
    } else {
        take_all(list);
    }
}

fn catalog_values(binder: &Binder, list: &Vec<Literal>, log: &mut Log) -> (r: Result<
    Vec<SqlValue>,
    SqlError,
>)
    ensures
        logged(
            r,
            *final(log),
            catalog_values_of(binder.deep_view(), list.deep_view(), old(log).deep_view()),
        ),
{
    let ghost all = list.deep_view();
    let ghost b = binder.deep_view();
    let ghost start = log.deep_view();
    let mut out: Vec<SqlValue> = Vec::new();
    let mut i: usize = 0;
    assert(all.take(0) =~= Seq::<LiteralV>::empty());
    assert(out.deep_view() =~= Seq::<SqlValueV>::empty());
    while i < list.len()
        invariant
            i <= list@.len(),
            all == list.deep_view(),
            b == binder.deep_view(),
            start == old(log).deep_view(),
            catalog_values_of(b, all.take(i as int), start) == Ok::<
                (Seq<SqlValueV>, LogV),
                SqlErrorV,
            >((out.deep_view(), log.deep_view())),
        decreases list@.len() - i,
    {
        proof {
            take_next(all, i as int);
            assert(all[i as int] == list@[i as int].deep_view());
        }
        match catalog_value(binder, &list[i], log) {
            Ok(v) => {
                let ghost before = out.deep_view();
                out.push(v);
                assert(out.deep_view() =~= before.push(v.deep_view()));
            },
            Err(e) => {
                proof {
                    catalog_values_stop(b, all, start, i as int + 1);
                }
                return Err(e);
            },
        }
        i = i + 1;
    }
    proof {
        take_all(all);
    }
    Ok(out)
}

// ── predicates ───────────────────────────────────────────────────────────

pub open spec fn no_filter(r: CatalogRelationV, p: PredicateV) -> SqlErrorV {
    SqlErrorV::Unsupported(
        "a predicate over `"@ + written_name(r)
            + "` is a comparison, IN, BETWEEN or IS NULL on one of its own columns: the rows are a bounded list built at prepare and there is no index over them, so a text search, a geometry, a traversal or a semi-join has nothing here to answer it. Refused rather than answered by a scan with a different meaning: Leaf("@
            + predicate_debug(p) + ")"@,
    )
}

/// A predicate over the columns of a relation.
pub open spec fn catalog_leaf_of(b: BinderV, r: CatalogRelationV, p: PredicateV, log: LogV) -> Result<
    (RowFilterV, LogV),
    SqlErrorV,
> {
    match p {
        PredicateV::Constant(value) => Ok((RowFilterV::Constant(value), log)),
        PredicateV::Compare { column, op, value } => match catalog_column_of(r, column) {
            Err(e) => Err(e),
            Ok(at) => match catalog_value_of(b, value, log) {
                Err(e) => Err(e),
                Ok((value, log)) => Ok(
                    (RowFilterV::Compare { at, op: op2_of(op), value }, log),
                ),
            },
        },
        PredicateV::InList { column, values } => match catalog_column_of(r, column) {
            Err(e) => Err(e),
            Ok(at) => match catalog_values_of(b, values, log) {
                Err(e) => Err(e),
                Ok((values, log)) => Ok((RowFilterV::In { at, values }, log)),
            },
        },
        PredicateV::Between { column, lower, upper } => match catalog_column_of(r, column) {
            Err(e) => Err(e),
            Ok(at) => match catalog_value_of(b, lower, log) {
                Err(e) => Err(e),
                Ok((lower, log)) => match catalog_value_of(b, upper, log) {
                    Err(e) => Err(e),
                    Ok((upper, log)) => Ok((RowFilterV::Between { at, lower, upper }, log)),
                },
            },
        },
        PredicateV::IsNull { column, negated } => match catalog_column_of(r, column) {
            Err(e) => Err(e),
            Ok(at) => Ok(
                (
                    if negated {
                        RowFilterV::Not(Box::new(RowFilterV::IsNull { at }))
                    } else {
                        RowFilterV::IsNull { at }
                    },
                    log,
                ),
            ),
        },
        _ => Err(no_filter(r, p)),
    }
}

/// A condition over the columns of a relation.
pub open spec fn catalog_filter_of(b: BinderV, r: CatalogRelationV, e: ExprV, log: LogV) -> Result<
    (RowFilterV, LogV),
    SqlErrorV,
>
    decreases e,
{
    match e {
        ExprV::Leaf(p) => catalog_leaf_of(b, r, p, log),
        ExprV::Not(inner) => match catalog_filter_of(b, r, *inner, log) {
            Err(e) => Err(e),
            Ok((f, log)) => Ok((RowFilterV::Not(Box::new(f)), log)),
        },
        ExprV::And(parts) => match catalog_filters_of(b, r, parts, log) {
            Err(e) => Err(e),
            Ok((list, log)) => Ok((RowFilterV::All(list), log)),
        },
        ExprV::Or(parts) => match catalog_filters_of(b, r, parts, log) {
            Err(e) => Err(e),
            Ok((list, log)) => Ok((RowFilterV::Any(list), log)),
        },
    }
}

pub open spec fn catalog_filters_of(b: BinderV, r: CatalogRelationV, parts: Seq<ExprV>, log: LogV) -> Result<
    (Seq<RowFilterV>, LogV),
    SqlErrorV,
>
    decreases parts,
{
    if parts.len() == 0 {
        Ok((Seq::empty(), log))
    } else {
        match catalog_filters_of(b, r, parts.drop_last(), log) {
            Err(e) => Err(e),
            Ok((done, log)) => match catalog_filter_of(b, r, parts.last(), log) {
                Err(e) => Err(e),
                Ok((f, log)) => Ok((done.push(f), log)),
            },
        }
    }
}

proof fn catalog_filters_stop(b: BinderV, r: CatalogRelationV, parts: Seq<ExprV>, log: LogV, n: int)
    requires
        0 <= n <= parts.len(),
        catalog_filters_of(b, r, parts.take(n), log) is Err,
    ensures
        catalog_filters_of(b, r, parts, log) == catalog_filters_of(b, r, parts.take(n), log),
    decreases parts.len() - n,
{
    if n < parts.len() {
        take_next(parts, n);
        catalog_filters_stop(b, r, parts, log, n + 1);
    } else {
        take_all(parts);
    }
}

fn catalog_leaf(binder: &Binder, relation: &CatalogRelation, p: &Predicate, log: &mut Log) -> (r:
    Result<RowFilter, SqlError>)
    ensures
        logged(
            r,
            *final(log),
            catalog_leaf_of(
                binder.deep_view(),
                relation.deep_view(),
                p.deep_view(),
                old(log).deep_view(),
            ),
        ),
        r is Ok ==> within(r->Ok_0.deep_view(), relation.columns@.len()),
{
    match p {
        Predicate::Constant(value) => Ok(RowFilter::Constant(*value)),
        Predicate::Compare { column, op, value } => {
            let at = catalog_column(relation, column.as_str())?;
            let value = catalog_value(binder, value, log)?;
            Ok(RowFilter::Compare { at, op: to_op2(*op), value })
        },
        Predicate::InList { column, values } => {
            let at = catalog_column(relation, column.as_str())?;
            let values = catalog_values(binder, values, log)?;
            Ok(RowFilter::In { at, values })
        },
        Predicate::Between { column, lower, upper } => {
            let at = catalog_column(relation, column.as_str())?;
            let lower = catalog_value(binder, lower, log)?;
            let upper = catalog_value(binder, upper, log)?;
            Ok(RowFilter::Between { at, lower, upper })
        },
        Predicate::IsNull { column, negated } => {
            let at = catalog_column(relation, column.as_str())?;
            let filter = RowFilter::IsNull { at };
            let ghost inner = filter.deep_view();
            assert(within(inner, relation.columns@.len()));
            if *negated {
                let out = RowFilter::Not(Box::new(filter));
                assert(out.deep_view() == RowFilterV::Not(Box::new(inner)));
                Ok(out)
            } else {
                Ok(filter)
            }
        },
        _ => Err(
            SqlError::Unsupported(
                cat5(
                    "a predicate over `",
                    relation.written().as_str(),
                    "` is a comparison, IN, BETWEEN or IS NULL on one of its own columns: the rows are a bounded list built at prepare and there is no index over them, so a text search, a geometry, a traversal or a semi-join has nothing here to answer it. Refused rather than answered by a scan with a different meaning: Leaf(",
                    debug_predicate(p).as_str(),
                    ")",
                ),
            ),
        ),
    }
}

/// A condition over the columns of a relation.
pub fn catalog_filter(binder: &Binder, relation: &CatalogRelation, e: &Expr, log: &mut Log) -> (r:
    Result<RowFilter, SqlError>)
    ensures
        logged(
            r,
            *final(log),
            catalog_filter_of(
                binder.deep_view(),
                relation.deep_view(),
                e.deep_view(),
                old(log).deep_view(),
            ),
        ),
        r is Ok ==> within(r->Ok_0.deep_view(), relation.columns@.len()),
    decreases e, 0nat,
{
    match e {
        Expr::Leaf(p) => catalog_leaf(binder, relation, p, log),
        Expr::Not(inner) => {
            let f = catalog_filter(binder, relation, inner, log)?;
            Ok(RowFilter::Not(Box::new(f)))
        },
        Expr::And(parts) => {
            proof {
                expr_view_parts(*parts);
            }
            let list = catalog_filters(binder, relation, parts, log)?;
            proof {
                row_filter_parts(list);
            }
            Ok(RowFilter::All(list))
        },
        Expr::Or(parts) => {
            proof {
                expr_view_parts(*parts);
            }
            let list = catalog_filters(binder, relation, parts, log)?;
            proof {
                row_filter_parts(list);
            }
            Ok(RowFilter::Any(list))
        },
    }
}

/// The conditions of a list, in order.
pub fn catalog_filters(
    binder: &Binder,
    relation: &CatalogRelation,
    parts: &Vec<Expr>,
    log: &mut Log,
) -> (r: Result<Vec<RowFilter>, SqlError>)
    ensures
        logged(
            r,
            *final(log),
            catalog_filters_of(
                binder.deep_view(),
                relation.deep_view(),
                parts.deep_view(),
                old(log).deep_view(),
            ),
        ),
        r is Ok ==> all_within(r->Ok_0.deep_view(), relation.columns@.len()),
    decreases parts, 1nat,
{
    let ghost all = parts.deep_view();
    let ghost b = binder.deep_view();
    let ghost rel = relation.deep_view();
    let ghost start = log.deep_view();
    let mut out: Vec<RowFilter> = Vec::new();
    let mut i: usize = 0;
    assert(all.take(0) =~= Seq::<ExprV>::empty());
    assert(out.deep_view() =~= Seq::<RowFilterV>::empty());
    while i < parts.len()
        invariant
            i <= parts@.len(),
            all == parts.deep_view(),
            b == binder.deep_view(),
            rel == relation.deep_view(),
            start == old(log).deep_view(),
            all_within(out.deep_view(), relation.columns@.len()),
            catalog_filters_of(b, rel, all.take(i as int), start) == Ok::<
                (Seq<RowFilterV>, LogV),
                SqlErrorV,
            >((out.deep_view(), log.deep_view())),
        decreases parts@.len() - i,
    {
        proof {
            take_next(all, i as int);
            assert(all[i as int] == parts@[i as int].deep_view());
        }
        match catalog_filter(binder, relation, &parts[i], log) {
            Ok(f) => {
                let ghost before = out.deep_view();
                out.push(f);
                assert(out.deep_view() =~= before.push(f.deep_view()));
                assert(out.deep_view().drop_last() =~= before);
            },
            Err(e) => {
                proof {
                    catalog_filters_stop(b, rel, all, start, i as int + 1);
                }
                return Err(e);
            },
        }
        i = i + 1;
    }
    proof {
        take_all(all);
    }
    Ok(out)
}

} // verus!
