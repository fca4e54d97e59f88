//! What a written condition says of a row.

use vstd::prelude::*;
use crate::ast::{ExprV, LiteralV, PrefixForm, PredicateV, TextShapeV};
use crate::calendar::extracted;
use crate::compile::bind::text_of;
use crate::compile::env::{CollectionV, KEY_COLUMN};
use crate::compile::log::EnvV;
use crate::meaning::condition::{
    all_conditions, any_condition, begins_so, between_says, condition_says, in_says, instant,
    named_by, operand, predicate_says, so, whole,
};
use crate::meaning::row::{both, either, not, scalar_order, Cell, Row};
use crate::number::real_order;
use crate::parser::condition::{
    all_flattened, all_of, and_tail, any_of, boolean_and, boolean_unary, boolean_unary_inner,
    disjunction, exists_subquery, flattened, leaf_of, or_tail, where_clause,
};
use crate::parser::cursor::{ahead, is_sym, is_word, name, next, past_word, tok, want, want_word};
use crate::parser::predicate::{
    between_predicate, compare_predicate, constant_predicate, extract_predicate, in_predicate,
    in_subquery, is_predicate, plain_predicate, time_operand,
};
use crate::parser::row::extract_unit;
use crate::parser::value::{clock_value, comparison, comparison_of, literal, literal_pair, literals};
use crate::scan::{text_order, Order};
use crate::token::{Sym, TokV, TokenV};

verus! {

// ── signs ────────────────────────────────────────────────────────────────

/// Whether a sign between two values holds, by how the first is ordered against
/// the second.
pub open spec fn sign_holds(x: Sym, o: Option<Order>) -> bool {
    match x {
        Sym::Eq => o == Some(Order::Equal),
        Sym::Ne => o != Some(Order::Equal),
        Sym::Lt => o == Some(Order::Less),
        Sym::Le => o == Some(Order::Less) || o == Some(Order::Equal),
        Sym::Gt => o == Some(Order::Greater),
        Sym::Ge => o == Some(Order::Greater) || o == Some(Order::Equal),
        _ => false,
    }
}

/// Whether a sign is one of a comparison.
pub open spec fn compares_by(x: Sym) -> bool {
    x is Eq || x is Ne || x is Lt || x is Le || x is Gt || x is Ge
}

/// A sign is read as the comparison that it is the sign of.
pub proof fn signs_of_comparison(x: TokV, o: Option<Order>)
    ensures
        comparison_of(x) is Some <==> x is Sym && compares_by(x->Sym_0),
        comparison_of(x) is Some ==> (so(comparison_of(x)->0, o) <==> sign_holds(x->Sym_0, o)),
{
}

/// A comparison of two numbers is its truth value.
pub proof fn constant_keeps_its_meaning(t: Seq<TokenV>, s: int)
    requires
        constant_predicate(t, s) is Ok,
        constant_predicate(t, s)->Ok_0.0 is Some,
    ensures
        ({
            let p = constant_predicate(t, s)->Ok_0.0->Some_0;
            let right = tok(t, next(t, next(t, s)));
            &&& tok(t, s) is Num
            &&& right is Num
            &&& tok(t, next(t, s)) is Sym
            &&& p is Constant
            &&& p->Constant_0 <==> sign_holds(
                tok(t, next(t, s))->Sym_0,
                real_order(tok(t, s)->Num_0.bits, right->Num_0.bits),
            )
        }),
{
    reveal(constant_predicate);
    reveal(comparison);
}

// ── predicates on a column ───────────────────────────────────────────────

/// `column <sign> value` compares what the column holds with the value, by the
/// sign, with the column first.
pub proof fn comparison_keeps_its_meaning(
    env: EnvV,
    c: CollectionV,
    w: Row,
    t: Seq<TokenV>,
    s: int,
    d: nat,
    column: Seq<char>,
    at: usize,
)
    requires
        compare_predicate(t, s, d, column, at) is Ok,
    ensures
        tok(t, s) is Sym && compares_by(tok(t, s)->Sym_0),
        clock_value(t, next(t, s)) is Ok,
        ({
            let x = tok(t, s)->Sym_0;
            let p = compare_predicate(t, s, d, column, at)->Ok_0.0;
            let (clock, end) = clock_value(t, next(t, s))->Ok_0;
            let l = literal(t, end, d)->Ok_0.0;
            &&& clock is None && column != KEY_COLUMN@ ==> predicate_says(env, c, w, p) == match (
            w.cell)(column) {
                Cell::Held(v) => Some(
                    sign_holds(x, scalar_order(v, operand(env, c, column, l))),
                ),
                _ => None,
            }
            &&& clock is None && column == KEY_COLUMN@ ==> predicate_says(env, c, w, p) == Some(
                sign_holds(x, Some(text_order(w.key, text_of(env.binder, l)->Ok_0))),
            )
            &&& clock is Some ==> predicate_says(env, c, w, p) == match (w.cell)(column) {
                Cell::Held(v) => Some(
                    sign_holds(
                        x,
                        Some(
                            crate::scan::int_order(
                                v->I64_0 as int,
                                instant(env, clock->0, column) as int,
                            ),
                        ),
                    ),
                ),
                _ => None,
            }
        }),
{
    reveal(compare_predicate);
}

/// `column BETWEEN lower AND upper`, with the lower end first.
pub proof fn between_keeps_its_meaning(
    env: EnvV,
    c: CollectionV,
    w: Row,
    t: Seq<TokenV>,
    s: int,
    d: nat,
    column: Seq<char>,
)
    requires
        between_predicate(t, s, d, column) is Ok,
    ensures
        ({
            let p = between_predicate(t, s, d, column)->Ok_0.0;
            let (low, s1) = time_operand(t, s, d)->Ok_0;
            let high = time_operand(t, want_word(t, s1, "AND"@)->Ok_0, d)->Ok_0.0;
            &&& low is Lit && high is Lit && column != KEY_COLUMN@ ==> predicate_says(env, c, w, p)
                == between_says(env, c, w, column, low->Lit_0, high->Lit_0)
            &&& low is Lit && high is Lit && column == KEY_COLUMN@ ==> predicate_says(env, c, w, p)
                == Some(
                text_order(w.key, text_of(env.binder, low->Lit_0)->Ok_0) != Order::Less
                    && text_order(w.key, text_of(env.binder, high->Lit_0)->Ok_0) != Order::Greater,
            )
            &&& !(low is Lit && high is Lit) ==> predicate_says(env, c, w, p) == match (w.cell)(
                column,
            ) {
                Cell::Held(x) => Some(
                    instant(env, low, column) <= x->I64_0 <= instant(env, high, column),
                ),
                _ => None,
            }
        }),
{
    reveal(between_predicate);
}

/// `IS NULL` is true where the column holds nothing, `IS NOT NULL` where it
/// holds something, `IS MISSING` where the field is not there.
pub proof fn is_null_keeps_its_meaning(
    env: EnvV,
    c: CollectionV,
    w: Row,
    t: Seq<TokenV>,
    s: int,
    column: Seq<char>,
)
    requires
        is_predicate(t, s, column) is Ok,
    ensures
        ({
            let p = is_predicate(t, s, column)->Ok_0.0;
            let last = past_word(t, s, "NOT"@);
            &&& is_word(t, last, "NULL"@) ==> predicate_says(env, c, w, p) == Some(
                is_word(t, s, "NOT"@) == ((w.cell)(column) is Held),
            )
            &&& !is_word(t, last, "NULL"@) ==> is_word(t, last, "MISSING"@) && !is_word(
                t,
                s,
                "NOT"@,
            ) && predicate_says(env, c, w, p) == Some((w.cell)(column) is Missing)
        }),
{
    reveal(is_predicate);
}

/// The literals of a list are those that are written, in order.
pub open spec fn listed_literals(t: Seq<TokenV>, s: int, d: nat) -> Seq<LiteralV> {
    literals(t, s, d, Seq::empty())->Ok_0.0
}

/// `column IN (values)` is true where the column holds one of the values, and
/// `_key IN (SELECT column FROM table)` where the table names the row.
pub proof fn in_keeps_its_meaning(
    env: EnvV,
    c: CollectionV,
    w: Row,
    t: Seq<TokenV>,
    s: int,
    d: nat,
    column: Seq<char>,
)
    requires
        in_predicate(t, s, d, column) is Ok,
    ensures
        ({
            let p = in_predicate(t, s, d, column)->Ok_0.0;
            let inside = next(t, s);
            let values = listed_literals(t, inside, d);
            if is_word(t, inside, "SELECT"@) {
                let (named, s1) = name(t, next(t, inside))->Ok_0;
                let table = name(t, want_word(t, s1, "FROM"@)->Ok_0)->Ok_0.0;
                &&& column == KEY_COLUMN@
                &&& predicate_says(env, c, w, p) == Some(
                    w.id.collection == c.id && named_by(env, table, named, w.id.sequence),
                )
            } else if column == KEY_COLUMN@ {
                predicate_says(env, c, w, p) == Some(
                    exists|i: int|
                        0 <= i < values.len() && text_of(env.binder, #[trigger] values[i])->Ok_0
                            == w.key,
                )
            } else {
                predicate_says(env, c, w, p) == in_says(env, c, w, column, values)
            }
        }),
{
    reveal(in_predicate);
    reveal(in_subquery);
}

/// The words that may stand behind a column are four.
proof fn words_differ()
    ensures
        "IS"@ != "IN"@,
        "LIKE"@ != "IS"@,
        "LIKE"@ != "IN"@,
        "LIKE"@ != "NOT"@,
        "LIKE"@ != "BETWEEN"@,
        "BETWEEN"@ != "IS"@,
        "BETWEEN"@ != "IN"@,
        "BETWEEN"@ != "NOT"@,
        "NOT"@ != "IS"@,
        "NOT"@ != "IN"@,
{
    reveal_strlit("LIKE");
    reveal_strlit("BETWEEN");
    reveal_strlit("IS");
    reveal_strlit("IN");
    reveal_strlit("NOT");
    assert("IS"@[1] != "IN"@[1]);
    assert("LIKE"@.len() == 4 && "BETWEEN"@.len() == 7 && "NOT"@.len() == 3);
    assert("IS"@.len() == 2 && "IN"@.len() == 2);
}

proof fn column_leaf(t: Seq<TokenV>, s: int, d: nat, column: Seq<char>, at: usize)
    requires
        plain_predicate(t, s, d, column, at) is Ok,
    ensures
        ({
            let leaf = plain_predicate(t, s, d, column, at)->Ok_0.0;
            &&& is_word(t, s, "IN"@) ==> leaf == (
                in_predicate(t, next(t, s), d, column)->Ok_0.0,
                false,
            )
            &&& is_word(t, s, "NOT"@) && is_word(t, ahead(t, s, 1), "IN"@) ==> leaf == (
                in_predicate(t, next(t, next(t, s)), d, column)->Ok_0.0,
                true,
            )
            &&& is_word(t, s, "BETWEEN"@) ==> leaf == (
                between_predicate(t, next(t, s), d, column)->Ok_0.0,
                false,
            )
            &&& is_word(t, s, "IS"@) ==> leaf == (
                is_predicate(t, next(t, s), column)->Ok_0.0,
                false,
            )
            &&& is_word(t, s, "LIKE"@) ==> leaf == (
                (PredicateV::TextFn {
                    column,
                    shape: TextShapeV::Prefix {
                        value: literal(t, next(t, s), d)->Ok_0.0,
                        written: PrefixForm::Like,
                    },
                }),
                false,
            )
        }),
{
    reveal(plain_predicate);
    words_differ();
}

proof fn leaf_says(env: EnvV, c: CollectionV, w: Row, p: PredicateV, negated: bool)
    ensures
        condition_says(env, c, w, leaf_of(p, negated)) == if negated {
            not(predicate_says(env, c, w, p))
        } else {
            predicate_says(env, c, w, p)
        },
{
    assert(condition_says(env, c, w, ExprV::Leaf(p)) == predicate_says(env, c, w, p));
}

proof fn like_says(env: EnvV, c: CollectionV, w: Row, column: Seq<char>, value: LiteralV)
    ensures
        ({
            let shape = TextShapeV::Prefix { value, written: PrefixForm::Like };
            predicate_says(env, c, w, PredicateV::TextFn { column, shape }) == match (w.cell)(
                column,
            ) {
                Cell::Held(x) => Some(
                    x is Text && begins_so(
                        x->Text_0,
                        text_of(env.binder, value)->Ok_0,
                        PrefixForm::Like,
                    ),
                ),
                _ => None,
            }
        }),
{
}

/// What a predicate on a column says, by the word behind the column; `NOT IN`
/// says the opposite of `IN`.
pub proof fn column_predicate_keeps_its_meaning(
    env: EnvV,
    c: CollectionV,
    w: Row,
    t: Seq<TokenV>,
    s: int,
    d: nat,
    column: Seq<char>,
    at: usize,
)
    requires
        plain_predicate(t, s, d, column, at) is Ok,
    ensures
        ({
            let leaf = plain_predicate(t, s, d, column, at)->Ok_0.0;
            let says = condition_says(env, c, w, leaf_of(leaf.0, leaf.1));
            &&& is_word(t, s, "IN"@) ==> says == predicate_says(
                env,
                c,
                w,
                in_predicate(t, next(t, s), d, column)->Ok_0.0,
            )
            &&& is_word(t, s, "NOT"@) && is_word(t, ahead(t, s, 1), "IN"@) ==> says == not(
                predicate_says(env, c, w, in_predicate(t, next(t, next(t, s)), d, column)->Ok_0.0),
            )
            &&& is_word(t, s, "BETWEEN"@) ==> says == predicate_says(
                env,
                c,
                w,
                between_predicate(t, next(t, s), d, column)->Ok_0.0,
            )
            &&& is_word(t, s, "IS"@) ==> says == predicate_says(
                env,
                c,
                w,
                is_predicate(t, next(t, s), column)->Ok_0.0,
            )
            &&& is_word(t, s, "LIKE"@) ==> says == match (w.cell)(column) {
                Cell::Held(x) => Some(
                    x is Text && begins_so(
                        x->Text_0,
                        text_of(env.binder, literal(t, next(t, s), d)->Ok_0.0)->Ok_0,
                        PrefixForm::Like,
                    ),
                ),
                _ => None,
            }
        }),
{
    let leaf = plain_predicate(t, s, d, column, at)->Ok_0.0;
    column_leaf(t, s, d, column, at);
    leaf_says(env, c, w, leaf.0, leaf.1);
    like_says(env, c, w, column, literal(t, next(t, s), d)->Ok_0.0);
}

/// `EXTRACT(unit FROM column)`, compared by a sign or held between two numbers.
pub proof fn extract_keeps_its_meaning(
    env: EnvV,
    c: CollectionV,
    w: Row,
    t: Seq<TokenV>,
    s: int,
    d: nat,
)
    requires
        extract_predicate(t, s, d) is Ok,
    ensures
        ({
            let p = extract_predicate(t, s, d)->Ok_0.0;
            let (unit, s1) = extract_unit(t, want(t, s, Sym::LParen)->Ok_0)->Ok_0;
            let (column, s2) = name(t, want_word(t, s1, "FROM"@)->Ok_0)->Ok_0;
            let s3 = want(t, s2, Sym::RParen)->Ok_0;
            match (w.cell)(column) {
                Cell::Held(x) => {
                    let part = extracted(unit, x->I64_0 as int);
                    if is_word(t, s3, "BETWEEN"@) {
                        let pair = literal_pair(t, next(t, s3), d)->Ok_0.0;
                        predicate_says(env, c, w, p) == Some(
                            whole(env, pair.0) <= part <= whole(env, pair.1),
                        )
                    } else {
                        let l = literal(t, next(t, s3), d)->Ok_0.0;
                        predicate_says(env, c, w, p) == Some(
                            sign_holds(
                                tok(t, s3)->Sym_0,
                                Some(crate::scan::int_order(part, whole(env, l) as int)),
                            ),
                        )
                    }
                },
                _ => predicate_says(env, c, w, p) is None,
            }
        }),
{
    reveal(extract_predicate);
    reveal(comparison);
}

/// `EXISTS (SELECT .. FROM table WHERE column = _key)` is true of the rows whose
/// key the column of the table names.
pub proof fn exists_keeps_its_meaning(
    env: EnvV,
    c: CollectionV,
    w: Row,
    t: Seq<TokenV>,
    s: int,
)
    requires
        exists_subquery(t, s) is Ok,
    ensures
        ({
            let p = exists_subquery(t, s)->Ok_0.0;
            let s1 = want_word(t, next(t, s), "SELECT"@)->Ok_0;
            let s2 = crate::parser::condition::exists_item(t, s1)->Ok_0;
            let (table, s3) = name(t, want_word(t, s2, "FROM"@)->Ok_0)->Ok_0;
            let column = name(t, want_word(t, s3, "WHERE"@)->Ok_0)->Ok_0.0;
            predicate_says(env, c, w, p) == Some(
                w.id.collection == c.id && named_by(env, table, column, w.id.sequence),
            )
        }),
{
    reveal(exists_subquery);
}

// ── AND, OR and NOT ──────────────────────────────────────────────────────

/// What the conditions behind an `OR`, and behind each `OR` after it, say
/// together with what was said before.
pub open spec fn or_else(env: EnvV, c: CollectionV, w: Row, t: Seq<TokenV>, s: int, d: nat, said: Option<bool>) -> Option<
    bool,
>
    decreases t.len() - s,
{
    if !is_word(t, s, "OR"@) {
        said
    } else {
        let (x, s2) = boolean_and(t, next(t, s), d)->Ok_0;
        let now = either(said, condition_says(env, c, w, x));
        if s < s2 <= t.len() {
            or_else(env, c, w, t, s2, d, now)
        } else {
            now
        }
    }
}

/// What the conditions behind an `AND`, and behind each `AND` after it, say
/// together with what was said before.
pub open spec fn and_also(env: EnvV, c: CollectionV, w: Row, t: Seq<TokenV>, s: int, d: nat, said: Option<bool>) -> Option<
    bool,
>
    decreases t.len() - s,
{
    if !is_word(t, s, "AND"@) {
        said
    } else {
        let (x, s2) = boolean_unary(t, next(t, s), d)->Ok_0;
        let now = both(said, condition_says(env, c, w, x));
        if s < s2 <= t.len() {
            and_also(env, c, w, t, s2, d, now)
        } else {
            now
        }
    }
}

proof fn one_more_part(env: EnvV, c: CollectionV, w: Row, done: Seq<ExprV>, x: ExprV)
    ensures
        any_condition(env, c, w, done.push(x)) == either(
            any_condition(env, c, w, done),
            condition_says(env, c, w, x),
        ),
        all_conditions(env, c, w, done.push(x)) == both(
            all_conditions(env, c, w, done),
            condition_says(env, c, w, x),
        ),
{
    assert(done.push(x).drop_last() =~= done);
}

proof fn or_tail_says(
    env: EnvV,
    c: CollectionV,
    w: Row,
    t: Seq<TokenV>,
    s: int,
    d: nat,
    done: Seq<ExprV>,
)
    requires
        or_tail(t, s, d, done) is Ok,
        done.len() > 0,
    ensures
        any_condition(env, c, w, or_tail(t, s, d, done)->Ok_0.0) == or_else(
            env,
            c,
            w,
            t,
            s,
            d,
            any_condition(env, c, w, done),
        ),
        or_tail(t, s, d, done)->Ok_0.0.len() > 0,
    decreases t.len() - s,
{
    if is_word(t, s, "OR"@) {
        let (x, s2) = boolean_and(t, next(t, s), d)->Ok_0;
        one_more_part(env, c, w, done, x);
        if s < s2 <= t.len() {
            or_tail_says(env, c, w, t, s2, d, done.push(x));
        }
    }
}

proof fn and_tail_says(
    env: EnvV,
    c: CollectionV,
    w: Row,
    t: Seq<TokenV>,
    s: int,
    d: nat,
    done: Seq<ExprV>,
)
    requires
        and_tail(t, s, d, done) is Ok,
        done.len() > 0,
    ensures
        all_conditions(env, c, w, and_tail(t, s, d, done)->Ok_0.0) == and_also(
            env,
            c,
            w,
            t,
            s,
            d,
            all_conditions(env, c, w, done),
        ),
        and_tail(t, s, d, done)->Ok_0.0.len() > 0,
    decreases t.len() - s,
{
    if is_word(t, s, "AND"@) {
        let (x, s2) = boolean_unary(t, next(t, s), d)->Ok_0;
        one_more_part(env, c, w, done, x);
        if s < s2 <= t.len() {
            and_tail_says(env, c, w, t, s2, d, done.push(x));
        }
    }
}

proof fn one_part(env: EnvV, c: CollectionV, w: Row, x: ExprV)
    ensures
        any_condition(env, c, w, seq![x]) == condition_says(env, c, w, x),
        all_conditions(env, c, w, seq![x]) == condition_says(env, c, w, x),
{
    assert(Seq::<ExprV>::empty().push(x) =~= seq![x]);
    one_more_part(env, c, w, Seq::empty(), x);
}

proof fn grouped_says(env: EnvV, c: CollectionV, w: Row, parts: Seq<ExprV>)
    requires
        parts.len() > 0,
    ensures
        condition_says(env, c, w, any_of(parts)) == any_condition(env, c, w, parts),
        condition_says(env, c, w, all_of(parts)) == all_conditions(env, c, w, parts),
{
    if parts.len() == 1 {
        assert(parts =~= seq![parts[0]]);
        one_part(env, c, w, parts[0]);
    }
}

/// Conditions with `OR` between them say what one of them says, and those with
/// `AND` between them what all of them say; `AND` joins first.
pub proof fn and_and_or_keep_their_meaning(
    env: EnvV,
    c: CollectionV,
    w: Row,
    t: Seq<TokenV>,
    s: int,
    d: nat,
)
    ensures
        disjunction(t, s, d) is Ok ==> boolean_and(t, s, d) is Ok && ({
            let (first, end) = boolean_and(t, s, d)->Ok_0;
            condition_says(env, c, w, disjunction(t, s, d)->Ok_0.0) == or_else(
                env,
                c,
                w,
                t,
                end,
                d,
                condition_says(env, c, w, first),
            )
        }),
        boolean_and(t, s, d) is Ok ==> boolean_unary(t, s, d) is Ok && ({
            let (first, end) = boolean_unary(t, s, d)->Ok_0;
            condition_says(env, c, w, boolean_and(t, s, d)->Ok_0.0) == and_also(
                env,
                c,
                w,
                t,
                end,
                d,
                condition_says(env, c, w, first),
            )
        }),
{
    if disjunction(t, s, d) is Ok {
        let (first, end) = boolean_and(t, s, d)->Ok_0;
        one_part(env, c, w, first);
        or_tail_says(env, c, w, t, end, d, seq![first]);
        grouped_says(env, c, w, or_tail(t, end, d, seq![first])->Ok_0.0);
    }
    if boolean_and(t, s, d) is Ok {
        let (first, end) = boolean_unary(t, s, d)->Ok_0;
        one_part(env, c, w, first);
        and_tail_says(env, c, w, t, end, d, seq![first]);
        grouped_says(env, c, w, and_tail(t, end, d, seq![first])->Ok_0.0);
    }
}

/// `NOT` says the opposite, and parentheses change nothing.
pub proof fn not_keeps_its_meaning(
    env: EnvV,
    c: CollectionV,
    w: Row,
    t: Seq<TokenV>,
    s: int,
    d: nat,
)
    requires
        boolean_unary_inner(t, s, d) is Ok,
    ensures
        ({
            let says = condition_says(env, c, w, boolean_unary_inner(t, s, d)->Ok_0.0);
            &&& is_word(t, s, "NOT"@) ==> says == not(
                condition_says(env, c, w, boolean_unary(t, next(t, s), d)->Ok_0.0),
            )
            &&& is_sym(t, s, Sym::LParen) && !is_word(t, s, "NOT"@) ==> says == condition_says(
                env,
                c,
                w,
                disjunction(t, next(t, s), d)->Ok_0.0,
            )
        }),
{
    let e = boolean_unary_inner(t, s, d)->Ok_0.0;
    if is_word(t, s, "NOT"@) {
        let inner = boolean_unary(t, next(t, s), d)->Ok_0.0;
        assert(e == ExprV::Not(Box::new(inner)));
    } else if is_sym(t, s, Sym::LParen) {
        assert(e == disjunction(t, next(t, s), d)->Ok_0.0);
    }
}

proof fn joined_lists_say(env: EnvV, c: CollectionV, w: Row, a: Seq<ExprV>, b: Seq<ExprV>)
    ensures
        all_conditions(env, c, w, a + b) == both(
            all_conditions(env, c, w, a),
            all_conditions(env, c, w, b),
        ),
    decreases b.len(),
{
    if b.len() == 0 {
        assert(a + b =~= a);
    } else {
        joined_lists_say(env, c, w, a, b.drop_last());
        assert((a + b).drop_last() =~= a + b.drop_last());
    }
}

proof fn flattened_says(env: EnvV, c: CollectionV, w: Row, e: ExprV)
    ensures
        all_conditions(env, c, w, flattened(e)) == condition_says(env, c, w, e),
    decreases e,
{
    match e {
        ExprV::And(parts) => {
            all_flattened_say(env, c, w, parts);
        },
        _ => {
            one_part(env, c, w, e);
        },
    }
}

proof fn all_flattened_say(env: EnvV, c: CollectionV, w: Row, parts: Seq<ExprV>)
    ensures
        all_conditions(env, c, w, all_flattened(parts)) == all_conditions(env, c, w, parts),
    decreases parts,
{
    if parts.len() > 0 {
        all_flattened_say(env, c, w, parts.drop_last());
        flattened_says(env, c, w, parts.last());
        joined_lists_say(
            env,
            c,
            w,
            all_flattened(parts.drop_last()),
            flattened(parts.last()),
        );
    }
}

/// The list of a `WHERE` says together what its condition says.
pub proof fn where_keeps_its_meaning(
    env: EnvV,
    c: CollectionV,
    w: Row,
    t: Seq<TokenV>,
    s: int,
    d: nat,
)
    requires
        where_clause(t, s, d) is Ok,
    ensures
        disjunction(t, s, d) is Ok,
        all_conditions(env, c, w, where_clause(t, s, d)->Ok_0.0) == condition_says(
            env,
            c,
            w,
            disjunction(t, s, d)->Ok_0.0,
        ),
{
    reveal(where_clause);
    flattened_says(env, c, w, disjunction(t, s, d)->Ok_0.0);
}

} // verus!
