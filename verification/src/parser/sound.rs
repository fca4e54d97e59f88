//! Every statement that the grammar accepts can be compiled.

use vstd::prelude::*;
use crate::ast::{time_value_ok, ExprV, LiteralV, PredicateV};
use crate::compile::graph::graph_ok;
use crate::compile::predicates::{expr_ok, exprs_ok, exprs_ok_each, predicate_ok};
use crate::compile::select::select_ok;
use crate::compile::statement::stmt_ok;
use crate::parser::condition::{
    all_flattened, all_of, and_tail, any_of, boolean_and, boolean_unary, boolean_unary_inner,
    conjunction, disjunction, exists_subquery, flattened, leaf_of, or_tail, where_clause,
};
use crate::parser::cursor::{is_sym, is_word, next, MAX_DEPTH};
use crate::parser::define::{create, create_index, create_table, drop_statement};
use crate::parser::graph::{graph_table, target_element};
use crate::parser::predicate::{
    between_predicate, column_predicate, compare_predicate, constant_predicate, extract_predicate,
    function_predicate, in_predicate, in_subquery, is_predicate, json_predicate, lower_predicate,
    plain_predicate, predicate, predicate_inner, search_predicate, spatial_predicate,
    starts_predicate, text_predicate, time_operand, trunc_predicate,
};
use crate::parser::select::{optional_where, select, select_source};
use crate::parser::session::{set_local, set_named};
use crate::parser::statement::{begin, explain, parsed_statement, select_statement, statement};
use crate::parser::value::{clock_offset, clock_value};
use crate::parser::write::{
    delete, delete_from, delete_rest, insert, insert_row, insert_rows, update, update_rest,
};
use crate::stmt::SourceV;
use crate::token::{Sym, TokenV};

verus! {

// ── the clock ────────────────────────────────────────────────────────────

proof fn offset_ok(t: Seq<TokenV>, s: int, sum: int)
    requires
        -i64::MAX <= sum <= i64::MAX,
        clock_offset(t, s, sum) is Ok,
    ensures
        clock_offset(t, s, sum)->Ok_0.0 != i64::MIN,
    decreases t.len() - s,
{
    if is_sym(t, s, Sym::Minus) || is_sym(t, s, Sym::Plus) {
        let (n, s2) = crate::parser::value::interval_micros(t, next(t, s))->Ok_0;
        let total = if is_sym(t, s, Sym::Minus) {
            sum - n
        } else {
            sum + n
        };
        if s < s2 <= t.len() {
            offset_ok(t, s2, total);
        }
    }
}

proof fn clock_ok(t: Seq<TokenV>, s: int)
    requires
        clock_value(t, s) is Ok,
        clock_value(t, s)->Ok_0.0 is Some,
    ensures
        time_value_ok(clock_value(t, s)->Ok_0.0->0),
{
    reveal(clock_value);
    let (head, s1) = crate::parser::value::clock_head(t, s)->Ok_0;
    offset_ok(t, s1, 0);
}

proof fn operand_ok(t: Seq<TokenV>, s: int, d: nat)
    requires
        time_operand(t, s, d) is Ok,
    ensures
        time_value_ok(time_operand(t, s, d)->Ok_0.0),
{
    reveal(time_operand);
    if clock_value(t, s)->Ok_0.0 is Some {
        clock_ok(t, s);
    }
}

// ── predicates ───────────────────────────────────────────────────────────

proof fn between_ok(t: Seq<TokenV>, s: int, d: nat, column: Seq<char>)
    requires
        between_predicate(t, s, d, column) is Ok,
    ensures
        predicate_ok(between_predicate(t, s, d, column)->Ok_0.0),
{
    reveal(between_predicate);
    let (lower, s1) = time_operand(t, s, d)->Ok_0;
    operand_ok(t, s, d);
    let s2 = crate::parser::cursor::want_word(t, s1, "AND"@)->Ok_0;
    operand_ok(t, s2, d);
}

proof fn compare_ok(t: Seq<TokenV>, s: int, d: nat, column: Seq<char>, at: usize)
    requires
        compare_predicate(t, s, d, column, at) is Ok,
    ensures
        predicate_ok(compare_predicate(t, s, d, column, at)->Ok_0.0),
{
    reveal(compare_predicate);
    if clock_value(t, next(t, s)) is Ok && clock_value(t, next(t, s))->Ok_0.0 is Some {
        clock_ok(t, next(t, s));
    }
}

proof fn plain_ok(t: Seq<TokenV>, s: int, d: nat, column: Seq<char>, at: usize)
    requires
        plain_predicate(t, s, d, column, at) is Ok,
    ensures
        predicate_ok(plain_predicate(t, s, d, column, at)->Ok_0.0.0),
{
    reveal(plain_predicate);
    reveal(is_predicate);
    reveal(in_predicate);
    reveal(in_subquery);
    if is_word(t, s, "BETWEEN"@) {
        if between_predicate(t, next(t, s), d, column) is Ok {
            between_ok(t, next(t, s), d, column);
        }
    }
    if crate::parser::cursor::guard_word(t, s) is Ok {
        let s1 = crate::parser::cursor::guard_word(t, s)->Ok_0;
        if compare_predicate(t, s1, d, column, at) is Ok {
            compare_ok(t, s1, d, column, at);
        }
    }
}

proof fn column_ok(t: Seq<TokenV>, s: int, d: nat)
    requires
        column_predicate(t, s, d) is Ok,
    ensures
        predicate_ok(column_predicate(t, s, d)->Ok_0.0.0),
{
    reveal(column_predicate);
    reveal(json_predicate);
    let at = crate::parser::cursor::here(t, s);
    let (column, s1) = crate::parser::cursor::name(t, s)->Ok_0;
    if !is_sym(t, s1, Sym::LongArrow) {
        let (to_date, s2) = crate::parser::predicate::date_cast(t, s1, false)->Ok_0;
        let s3 = crate::parser::cursor::guard_operator(t, s2)->Ok_0;
        if !to_date {
            plain_ok(t, s3, d, column, at);
        }
    }
}

proof fn function_ok(t: Seq<TokenV>, s: int, d: nat)
    requires
        function_predicate(t, s, d) is Ok,
        function_predicate(t, s, d)->Ok_0.0 is Some,
    ensures
        predicate_ok(function_predicate(t, s, d)->Ok_0.0->0),
{
    reveal(function_predicate);
    reveal(extract_predicate);
    reveal(trunc_predicate);
    reveal(lower_predicate);
    reveal(starts_predicate);
}

/// Every predicate that is read can be compiled.
pub proof fn predicate_compiles(t: Seq<TokenV>, s: int, d: nat)
    requires
        predicate(t, s, d) is Ok,
    ensures
        predicate_ok(predicate(t, s, d)->Ok_0.0.0),
{
    let e = d + 1;
    assert(predicate_inner(t, s, e) is Ok);
    reveal(predicate_inner);
    let (function, s1) = function_predicate(t, s, e)->Ok_0;
    if function is Some {
        function_ok(t, s, e);
    } else {
        reveal(spatial_predicate);
        reveal(text_predicate);
        reveal(search_predicate);
        reveal(constant_predicate);
        let s2 = crate::parser::cursor::guard_word(t, s1)->Ok_0;
        if constant_predicate(t, s2) is Ok && constant_predicate(t, s2)->Ok_0.0 is None {
            let s3 = constant_predicate(t, s2)->Ok_0.1;
            if column_predicate(t, s3, e) is Ok {
                column_ok(t, s3, e);
            }
        }
    }
}

/// Whether every predicate of a list can be compiled.
pub open spec fn predicates_ok(list: Seq<PredicateV>) -> bool {
    forall|i: int| 0 <= i < list.len() ==> predicate_ok(#[trigger] list[i])
}

proof fn conjunction_ok(t: Seq<TokenV>, s: int, d: nat, done: Seq<PredicateV>)
    requires
        predicates_ok(done),
        conjunction(t, s, d, done) is Ok,
    ensures
        predicates_ok(conjunction(t, s, d, done)->Ok_0.0),
    decreases t.len() - s,
{
    predicate_compiles(t, s, d);
    let ((p, negated), s2) = predicate(t, s, d)->Ok_0;
    if is_word(t, s2, "AND"@) && s < next(t, s2) <= t.len() {
        conjunction_ok(t, next(t, s2), d, done.push(p));
    }
}

// ── conditions ───────────────────────────────────────────────────────────

proof fn pushed_ok(done: Seq<ExprV>, x: ExprV)
    requires
        exprs_ok(done),
        expr_ok(x),
    ensures
        exprs_ok(done.push(x)),
{
    assert(done.push(x).drop_last() =~= done);
}

proof fn joined_ok(a: Seq<ExprV>, b: Seq<ExprV>)
    requires
        exprs_ok(a),
        exprs_ok(b),
    ensures
        exprs_ok(a + b),
    decreases b.len(),
{
    if b.len() == 0 {
        assert(a + b =~= a);
    } else {
        joined_ok(a, b.drop_last());
        assert((a + b).drop_last() =~= a + b.drop_last());
        assert((a + b).last() == b.last());
    }
}

proof fn group_ok(parts: Seq<ExprV>)
    requires
        exprs_ok(parts),
    ensures
        expr_ok(any_of(parts)),
        expr_ok(all_of(parts)),
{
    if parts.len() == 1 {
        exprs_ok_each(parts, 0);
    }
}

proof fn disjunction_ok(t: Seq<TokenV>, s: int, d: nat)
    requires
        disjunction(t, s, d) is Ok,
    ensures
        expr_ok(disjunction(t, s, d)->Ok_0.0),
    decreases MAX_DEPTH + 1 - d, 4nat, 0int,
{
    and_ok(t, s, d);
    let (first, s1) = boolean_and(t, s, d)->Ok_0;
    assert(seq![first] =~= Seq::<ExprV>::empty().push(first));
    pushed_ok(Seq::empty(), first);
    or_tail_ok(t, s1, d, seq![first]);
    group_ok(or_tail(t, s1, d, seq![first])->Ok_0.0);
}

proof fn or_tail_ok(t: Seq<TokenV>, s: int, d: nat, done: Seq<ExprV>)
    requires
        exprs_ok(done),
        or_tail(t, s, d, done) is Ok,
    ensures
        exprs_ok(or_tail(t, s, d, done)->Ok_0.0),
    decreases MAX_DEPTH + 1 - d, 3nat, t.len() - s,
{
    if is_word(t, s, "OR"@) {
        and_ok(t, next(t, s), d);
        let (x, s2) = boolean_and(t, next(t, s), d)->Ok_0;
        pushed_ok(done, x);
        if s < s2 <= t.len() {
            or_tail_ok(t, s2, d, done.push(x));
        }
    }
}

proof fn and_ok(t: Seq<TokenV>, s: int, d: nat)
    requires
        boolean_and(t, s, d) is Ok,
    ensures
        expr_ok(boolean_and(t, s, d)->Ok_0.0),
    decreases MAX_DEPTH + 1 - d, 2nat, 0int,
{
    unary_ok(t, s, d);
    let (first, s1) = boolean_unary(t, s, d)->Ok_0;
    assert(seq![first] =~= Seq::<ExprV>::empty().push(first));
    pushed_ok(Seq::empty(), first);
    and_tail_ok(t, s1, d, seq![first]);
    group_ok(and_tail(t, s1, d, seq![first])->Ok_0.0);
}

proof fn and_tail_ok(t: Seq<TokenV>, s: int, d: nat, done: Seq<ExprV>)
    requires
        exprs_ok(done),
        and_tail(t, s, d, done) is Ok,
    ensures
        exprs_ok(and_tail(t, s, d, done)->Ok_0.0),
    decreases MAX_DEPTH + 1 - d, 1nat, t.len() - s,
{
    if is_word(t, s, "AND"@) {
        unary_ok(t, next(t, s), d);
        let (x, s2) = boolean_unary(t, next(t, s), d)->Ok_0;
        pushed_ok(done, x);
        if s < s2 <= t.len() {
            and_tail_ok(t, s2, d, done.push(x));
        }
    }
}

proof fn unary_ok(t: Seq<TokenV>, s: int, d: nat)
    requires
        boolean_unary(t, s, d) is Ok,
    ensures
        expr_ok(boolean_unary(t, s, d)->Ok_0.0),
    decreases MAX_DEPTH + 1 - d, 0nat, 0int,
{
    let e = d + 1;
    assert(boolean_unary_inner(t, s, e) is Ok);
    unary_inner_ok(t, s, e);
}

proof fn unary_inner_ok(t: Seq<TokenV>, s: int, d: nat)
    requires
        boolean_unary_inner(t, s, d) is Ok,
    ensures
        expr_ok(boolean_unary_inner(t, s, d)->Ok_0.0),
    decreases MAX_DEPTH + 1 - d, 5nat, 0int,
{
    if is_word(t, s, "NOT"@) {
        unary_ok(t, next(t, s), d);
    } else if is_sym(t, s, Sym::LParen) {
        disjunction_ok(t, next(t, s), d);
    } else if is_word(t, s, "EXISTS"@) {
        reveal(exists_subquery);
    } else {
        predicate_compiles(t, s, d);
        let leaf = predicate(t, s, d)->Ok_0.0;
        assert(expr_ok(ExprV::Leaf(leaf.0)));
        assert(expr_ok(leaf_of(leaf.0, leaf.1)));
    }
}

proof fn flat_ok(e: ExprV)
    requires
        expr_ok(e),
    ensures
        exprs_ok(flattened(e)),
    decreases e,
{
    match e {
        ExprV::And(parts) => {
            all_flat_ok(parts);
        },
        other => {
            assert(seq![other] =~= Seq::<ExprV>::empty().push(other));
            pushed_ok(Seq::empty(), other);
        },
    }
}

proof fn all_flat_ok(parts: Seq<ExprV>)
    requires
        exprs_ok(parts),
    ensures
        exprs_ok(all_flattened(parts)),
    decreases parts,
{
    if parts.len() > 0 {
        all_flat_ok(parts.drop_last());
        flat_ok(parts.last());
        joined_ok(all_flattened(parts.drop_last()), flattened(parts.last()));
    }
}

/// Every condition that is read can be compiled.
pub proof fn condition_compiles(t: Seq<TokenV>, s: int, d: nat)
    requires
        where_clause(t, s, d) is Ok,
    ensures
        exprs_ok(where_clause(t, s, d)->Ok_0.0),
{
    reveal(where_clause);
    disjunction_ok(t, s, d);
    flat_ok(disjunction(t, s, d)->Ok_0.0);
}

// ── statements ───────────────────────────────────────────────────────────

proof fn optional_where_ok(t: Seq<TokenV>, s: int, d: nat)
    requires
        optional_where(t, s, d) is Ok,
    ensures
        exprs_ok(optional_where(t, s, d)->Ok_0.0),
{
    reveal(optional_where);
    if is_word(t, s, "WHERE"@) {
        condition_compiles(t, next(t, s), d);
    }
}

proof fn target_ok(t: Seq<TokenV>, s: int, d: nat)
    requires
        target_element(t, s, d) is Ok,
    ensures
        predicates_ok(target_element(t, s, d)->Ok_0.0.predicates),
{
    reveal(target_element);
    let s1 = crate::parser::cursor::want(t, s, Sym::LParen)->Ok_0;
    let s2 = crate::parser::cursor::name(t, s1)->Ok_0.1;
    let s3 = crate::parser::graph::element_label(t, s2)->Ok_0.1;
    if is_word(t, s3, "WHERE"@) {
        conjunction_ok(t, next(t, s3), d, Seq::empty());
    }
}

proof fn pattern_ok(t: Seq<TokenV>, s: int, d: nat)
    requires
        graph_table(t, s, d) is Ok,
    ensures
        graph_ok(graph_table(t, s, d)->Ok_0.0),
{
    reveal(graph_table);
    let s1 = crate::parser::graph::graph_head(t, s)->Ok_0.1;
    let s2 = crate::parser::graph::seed_element(t, s1, d)->Ok_0.1;
    let s3 = crate::parser::graph::graph_hop(t, s2, d)->Ok_0.1;
    target_ok(t, s3, d);
}

proof fn source_ok(t: Seq<TokenV>, s: int, d: nat)
    requires
        select_source(t, s, d) is Ok,
    ensures
        match select_source(t, s, d)->Ok_0.0 {
            SourceV::Graph(g) => graph_ok(*g),
            _ => true,
        },
{
    reveal(select_source);
    if is_word(t, s, "GRAPH_TABLE"@) {
        pattern_ok(t, s, d);
    }
}

/// Every `SELECT` that is read can be compiled.
pub proof fn select_compiles(t: Seq<TokenV>, s: int, d: nat)
    requires
        select(t, s, d) is Ok,
    ensures
        select_ok(select(t, s, d)->Ok_0.0),
{
    reveal(select);
    let s1 = crate::parser::select::select_head(t, s)->Ok_0.1;
    let s2 = crate::parser::select::select_items(t, s1, d, Seq::empty())->Ok_0.1;
    let s3 = crate::parser::cursor::want_word(t, s2, "FROM"@)->Ok_0;
    source_ok(t, s3, d);
    let s4 = select_source(t, s3, d)->Ok_0.1;
    optional_where_ok(t, s4, d);
}

/// Whether every row has a number of values.
pub open spec fn rows_wide(rows: Seq<Seq<LiteralV>>, width: nat) -> bool {
    forall|i: int| 0 <= i < rows.len() ==> (#[trigger] rows[i]).len() == width
}

proof fn insert_rows_ok(t: Seq<TokenV>, s: int, d: nat, width: nat, done: Seq<Seq<LiteralV>>)
    requires
        rows_wide(done, width),
        insert_rows(t, s, d, width, done) is Ok,
    ensures
        rows_wide(insert_rows(t, s, d, width, done)->Ok_0.0, width),
    decreases t.len() - s,
{
    reveal(insert_row);
    let (row, s2) = insert_row(t, s, d, width, done.len() + 1)->Ok_0;
    assert(row.len() == width);
    if is_sym(t, s2, Sym::Comma) && s < next(t, s2) <= t.len() {
        insert_rows_ok(t, next(t, s2), d, width, done.push(row));
    }
}

proof fn insert_ok(t: Seq<TokenV>, s: int, d: nat)
    requires
        insert(t, s, d) is Ok,
    ensures
        stmt_ok(insert(t, s, d)->Ok_0.0),
{
    reveal(insert);
    let s1 = crate::parser::cursor::want_word(t, s, "INSERT"@)->Ok_0;
    let s2 = crate::parser::cursor::want_word(t, s1, "INTO"@)->Ok_0;
    let s3 = crate::parser::cursor::name(t, s2)->Ok_0.1;
    let s4 = crate::parser::cursor::want(t, s3, Sym::LParen)->Ok_0;
    let (columns, s5) = crate::parser::write::names(t, s4, Seq::empty())->Ok_0;
    let s6 = crate::parser::cursor::want(t, s5, Sym::RParen)->Ok_0;
    let s7 = crate::parser::cursor::want_word(t, s6, "VALUES"@)->Ok_0;
    insert_rows_ok(t, s7, d, columns.len(), Seq::empty());
}

proof fn update_rest_ok(
    t: Seq<TokenV>,
    s: int,
    d: nat,
    table: Seq<char>,
    list: Seq<(Seq<char>, crate::stmt::SetValueV)>,
)
    requires
        update_rest(t, s, d, table, list) is Ok,
    ensures
        stmt_ok(update_rest(t, s, d, table, list)->Ok_0.0),
{
    reveal(update_rest);
    condition_compiles(t, s, d);
}

proof fn update_ok(t: Seq<TokenV>, s: int, d: nat)
    requires
        update(t, s, d) is Ok,
    ensures
        stmt_ok(update(t, s, d)->Ok_0.0),
{
    reveal(update);
    let (head, s1) = crate::parser::write::update_head(t, s, d)->Ok_0;
    if !crate::parser::write::all_literals(head.1) {
        update_rest_ok(t, s1, d, head.0, head.1);
    } else {
        let (key, s2, d2) = crate::parser::write::key_equality(t, s1, d);
        if key is None {
            update_rest_ok(t, s2, d2, head.0, head.1);
        }
    }
}

proof fn delete_rest_ok(t: Seq<TokenV>, s: int, d: nat, table: Option<Seq<char>>)
    requires
        delete_rest(t, s, d, table) is Ok,
    ensures
        stmt_ok(delete_rest(t, s, d, table)->Ok_0.0),
{
    reveal(delete_rest);
    optional_where_ok(t, s, d);
}

proof fn delete_ok(t: Seq<TokenV>, s: int, d: nat)
    requires
        delete(t, s, d) is Ok,
    ensures
        stmt_ok(delete(t, s, d)->Ok_0.0),
{
    reveal(delete);
    reveal(delete_from);
    let s1 = crate::parser::cursor::want_word(t, s, "DELETE"@)->Ok_0;
    let s2 = crate::parser::cursor::want_word(t, s1, "FROM"@)->Ok_0;
    if is_word(t, s2, "ALL"@) && !is_sym(t, crate::parser::cursor::ahead(t, s2, 1), Sym::Dot) {
        delete_rest_ok(t, next(t, s2), d, None);
    } else {
        let (table, s3) = crate::parser::cursor::name(t, s2)->Ok_0;
        if !is_word(t, s3, "WHERE"@) {
            delete_rest_ok(t, s3, d, Some(table));
        } else {
            let (key, s4, d2) = crate::parser::write::key_equality(t, next(t, s3), d);
            if key is None {
                delete_rest_ok(t, s3, d2, Some(table));
            }
        }
    }
}

proof fn explain_ok(t: Seq<TokenV>, s: int, d: nat, u: Seq<(Seq<char>, Seq<char>)>)
    requires
        explain(t, s, d, u) is Ok,
    ensures
        stmt_ok(explain(t, s, d, u)->Ok_0.0),
{
    reveal(explain);
    reveal(drop_statement);
    if update(t, s, d) is Ok {
        update_ok(t, s, d);
    }
    if delete(t, s, d) is Ok {
        delete_ok(t, s, d);
    }
    if select(t, s, d) is Ok {
        select_compiles(t, s, d);
    }
}

proof fn select_statement_ok(t: Seq<TokenV>, s: int, d: nat)
    requires
        select_statement(t, s, d) is Ok,
    ensures
        stmt_ok(select_statement(t, s, d)->Ok_0.0),
{
    reveal(select_statement);
    let (items, s1) = crate::parser::session::session_select(t, s);
    if items is None {
        select_compiles(t, s1, d);
    }
}

proof fn definition_ok(t: Seq<TokenV>, s: int, d: nat, u: Seq<(Seq<char>, Seq<char>)>)
    ensures
        create(t, s, u) is Ok ==> stmt_ok(create(t, s, u)->Ok_0.0),
        drop_statement(t, s) is Ok ==> stmt_ok(drop_statement(t, s)->Ok_0.0),
        set_local(t, s, d) is Ok ==> stmt_ok(set_local(t, s, d)->Ok_0.0),
        begin(t, s) is Ok ==> stmt_ok(begin(t, s)->Ok_0.0),
{
    reveal(create);
    reveal(create_table);
    reveal(create_index);
    reveal(drop_statement);
    reveal(set_local);
    reveal(set_named);
    reveal(begin);
}

/// Every statement that the grammar accepts can be compiled.
pub proof fn statement_compiles(t: Seq<TokenV>, u: Seq<(Seq<char>, Seq<char>)>)
    requires
        parsed_statement(t, u) is Ok,
    ensures
        stmt_ok(parsed_statement(t, u)->Ok_0),
{
    assert(statement(t, 0, 0, u) is Ok);
    definition_ok(t, 0, 0, u);
    definition_ok(t, next(t, 0), 0, u);
    if select_statement(t, 0, 0) is Ok {
        select_statement_ok(t, 0, 0);
    }
    if explain(t, next(t, 0), 0, u) is Ok {
        explain_ok(t, next(t, 0), 0, u);
    }
    if insert(t, 0, 0) is Ok {
        insert_ok(t, 0, 0);
    }
    if update(t, 0, 0) is Ok {
        update_ok(t, 0, 0);
    }
    if delete(t, 0, 0) is Ok {
        delete_ok(t, 0, 0);
    }
}

} // verus!
