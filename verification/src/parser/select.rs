//! `SELECT`.

use vstd::prelude::*;
use crate::ast::{agg_func_text, AggFunc, CmpOp, Expr, ExprV};
use crate::compile::env::{ID_COLUMN, KEY_COLUMN};
use crate::error::{SqlError, SqlErrorV, Tier};
use crate::number::{int_bits, nearest_bits, saturated, saturated_size, to_i64, to_size};
use crate::parser::condition::where_clause;
use crate::parser::cursor::{
    ahead, guard_word, here, is_end, is_name, is_sym, is_word, name, next, parsed, past_word, reads,
    source_name, syntax, tok, want, want_word, word, Parser,
};
use crate::parser::graph::graph_table;
use crate::parser::predicate::{hold_numbers, numbers_hold};
use crate::parser::ranking::{expression, order_key};
use crate::parser::row::{at_row_function, row_expr, row_expression_from};
use crate::parser::value::{comparison_of, literal};
use crate::refuse::{refusal, refuse};
use crate::stmt::{
    AggArg, AggArgV, GroupExpr, GroupExprV, HavingPredicate, HavingPredicateV, OrderKey, OrderKeyV,
    SelectItem, SelectItemV, SelectStmt, SelectStmtV, Source, SourceV,
};
use crate::text::{cat2, cat3, cat5, decimal, decimal_usize, owned, same};
use crate::token::{tok_text, Sym, Tok, TokV, TokenV};

verus! {

// ── aggregates ───────────────────────────────────────────────────────────

/// The aggregate of a name.
pub open spec fn aggregate_named(w: Option<Seq<char>>) -> Option<AggFunc> {
    if w == Some("COUNT"@) {
        Some(AggFunc::Count)
    } else if w == Some("SUM"@) {
        Some(AggFunc::Sum)
    } else if w == Some("MIN"@) {
        Some(AggFunc::Min)
    } else if w == Some("MAX"@) {
        Some(AggFunc::Max)
    } else if w == Some("AVG"@) {
        Some(AggFunc::Avg)
    } else {
        None
    }
}

/// The argument of an aggregate, behind the parenthesis.
#[verifier::opaque]
pub open spec fn aggregate_argument(t: Seq<TokenV>, s: int, function: AggFunc) -> Result<
    (AggArgV, int),
    SqlErrorV,
> {
    if is_word(t, s, "DISTINCT"@) {
        Err(
            SqlErrorV::Refused {
                keyword: "COUNT DISTINCT"@,
                tier: Tier::Two,
                reason: "QL_CONTRACT §4.7: an aggregate over DISTINCT values needs a per-group distinct set, which is a second unbounded structure inside each group; the bounded atomic here is one accumulator per group."@,
            },
        )
    } else if is_sym(t, s, Sym::Star) {
        if function != AggFunc::Count {
            Err(
                SqlErrorV::Unsupported(
                    agg_func_text(function)
                        + "(*) is not a function: only count(*) counts rows without reading a column"@,
                ),
            )
        } else {
            match want(t, next(t, s), Sym::RParen) {
                Err(e) => Err(e),
                Ok(s) => Ok((AggArgV::Star, s)),
            }
        }
    } else {
        match guard_word(t, s) {
            Err(e) => Err(e),
            Ok(s) => match name(t, s) {
                Err(e) => Err(e),
                Ok((column, s)) => match want(t, s, Sym::RParen) {
                    Err(e) => Err(e),
                    Ok(s) => Ok((AggArgV::Column(column), s)),
                },
            },
        }
    }
}

/// An aggregate; nothing where none stands.
#[verifier::opaque]
pub open spec fn aggregate_call(t: Seq<TokenV>, s: int) -> Result<
    (Option<(AggFunc, AggArgV)>, int),
    SqlErrorV,
> {
    match aggregate_named(word(t, s)) {
        None => Ok((None, s)),
        Some(function) => if !is_sym(t, ahead(t, s, 1), Sym::LParen) {
            Ok((None, s))
        } else {
            match aggregate_argument(t, next(t, next(t, s)), function) {
                Err(e) => Err(e),
                Ok((argument, s)) => Ok((Some((function, argument)), s)),
            }
        },
    }
}

impl Parser {
    fn aggregate_function(&self) -> (r: Option<AggFunc>)
        requires
            self.ok(),
        ensures
            r == aggregate_named(word(self.t(), self.s())),
    {
        if self.at_word("COUNT") {
            Some(AggFunc::Count)
        } else if self.at_word("SUM") {
            Some(AggFunc::Sum)
        } else if self.at_word("MIN") {
            Some(AggFunc::Min)
        } else if self.at_word("MAX") {
            Some(AggFunc::Max)
        } else if self.at_word("AVG") {
            Some(AggFunc::Avg)
        } else {
            None
        }
    }

    fn aggregate_argument(&mut self, function: AggFunc) -> (r: Result<AggArg, SqlError>)
        requires
            old(self).ok(),
        ensures
            reads(
                r,
                *old(self),
                *final(self),
                aggregate_argument(old(self).t(), old(self).s(), function),
            ),
    {
        proof {
            reveal(aggregate_argument);
        }
        if self.at_word("DISTINCT") {
            return Err(
                SqlError::Refused {
                    keyword: owned("COUNT DISTINCT"),
                    tier: Tier::Two,
                    reason: owned(
                        "QL_CONTRACT §4.7: an aggregate over DISTINCT values needs a per-group distinct set, which is a second unbounded structure inside each group; the bounded atomic here is one accumulator per group.",
                    ),
                },
            );
        }
        if self.eat(Sym::Star) {
            if function != AggFunc::Count {
                return Err(
                    SqlError::unsupported(
                        cat2(
                            function.written(),
                            "(*) is not a function: only count(*) counts rows without reading a column",
                        ).as_str(),
                    ),
                );
            }
            self.expect(Sym::RParen)?;
            return Ok(AggArg::Star);
        }
        self.guard_word()?;
        let column = self.name()?;
        self.expect(Sym::RParen)?;
        Ok(AggArg::Column(column))
    }

    fn aggregate_call(&mut self) -> (r: Result<Option<(AggFunc, AggArg)>, SqlError>)
        requires
            old(self).ok(),
        ensures
            reads(r, *old(self), *final(self), aggregate_call(old(self).t(), old(self).s())),
            r is Ok && r->Ok_0 is None ==> final(self).at == old(self).at,
    {
        proof {
            reveal(aggregate_call);
        }
        match self.aggregate_function() {
            None => Ok(None),
            Some(function) => {
                if !self.sym_ahead(1, Sym::LParen) {
                    return Ok(None);
                }
                self.skip();
                self.skip();
                let argument = self.aggregate_argument(function)?;
                Ok(Some((function, argument)))
            },
        }
    }
}

// ── the select list ──────────────────────────────────────────────────────

/// Whether a plain name stands at a place, and no call and no distance.
pub open spec fn is_plain_name(t: Seq<TokenV>, s: int) -> bool {
    let second = ahead(t, s, 1);
    &&& is_name(t, s)
    &&& !is_sym(t, second, Sym::LParen)
    &&& !is_sym(t, second, Sym::VecCosine)
    &&& !is_sym(t, second, Sym::VecL2)
    &&& !is_sym(t, second, Sym::VecDot)
    &&& !is_sym(t, second, Sym::VecL1)
    &&& !is_sym(t, second, Sym::Cast)
    &&& !(is_sym(t, second, Sym::Dot) && is_sym(t, ahead(t, s, 3), Sym::LParen))
}

/// Whether a number is at least a whole one.
pub open spec fn at_least(bits: u64, n: int) -> bool {
    numbers_hold(CmpOp::Ge, bits, nearest_bits(n) as u64)
}

fn is_at_least(bits: u64, n: i64) -> (r: bool)
    ensures
        r == at_least(bits, n as int),
{
    hold_numbers(CmpOp::Ge, bits, int_bits(n))
}

/// A column, the identity or the key.
pub open spec fn named_item(name: Seq<char>) -> SelectItemV {
    if name == ID_COLUMN@ {
        SelectItemV::Id
    } else if name == KEY_COLUMN@ {
        SelectItemV::Key
    } else {
        SelectItemV::Column(name)
    }
}

/// A plain name, or `name / n`.
#[verifier::opaque]
pub open spec fn name_item(t: Seq<TokenV>, s: int) -> Result<(SelectItemV, int), SqlErrorV> {
    match guard_word(t, s) {
        Err(e) => Err(e),
        Ok(s) => match name(t, s) {
            Err(e) => Err(e),
            Ok((column, s)) => match tok(t, ahead(t, s, 1)) {
                TokV::Num(value, true) => if !is_sym(t, s, Sym::Slash) {
                    Ok((named_item(column), s))
                } else if at_least(value.bits, 1) {
                    Ok(
                        (
                            SelectItemV::Divided { column, divisor: saturated(value.bits) as i64 },
                            next(t, next(t, s)),
                        ),
                    )
                } else {
                    Err(
                        SqlErrorV::Unsupported(
                            column + " / "@ + value.shown
                                + ": a divided group key takes a positive whole divisor"@,
                        ),
                    )
                },
                _ => Ok((named_item(column), s)),
            },
        },
    }
}

/// One item of a select list.
#[verifier::opaque]
pub open spec fn select_item(t: Seq<TokenV>, s: int, d: nat) -> Result<
    (SelectItemV, int),
    SqlErrorV,
> {
    if is_sym(t, s, Sym::Star) {
        Ok((SelectItemV::Star, next(t, s)))
    } else {
        match aggregate_call(t, s) {
            Err(e) => Err(e),
            Ok((call, s)) => match call {
                Some((function, argument)) => Ok((SelectItemV::Aggregate { function, argument }, s)),
                None => if at_row_function(t, s) || row_expression_from(t, s, 0, 0) {
                    match row_expr(t, s, d) {
                        Err(e) => Err(e),
                        Ok((e, s)) => Ok((SelectItemV::Function(Box::new(e)), s)),
                    }
                } else if is_plain_name(t, s) {
                    name_item(t, s)
                } else {
                    let at = here(t, s);
                    match expression(t, s, d, 0) {
                        Err(e) => Err(e),
                        Ok((_, s)) => Ok(
                            (
                                SelectItemV::OrderValue("expression at byte "@ + decimal(at as int)),
                                s,
                            ),
                        ),
                    }
                },
            },
        }
    }
}

/// An alias; nothing where none stands.
#[verifier::opaque]
pub open spec fn alias(t: Seq<TokenV>, s: int) -> Result<(Option<Seq<char>>, int), SqlErrorV> {
    if is_word(t, s, "AS"@) {
        match name(t, next(t, s)) {
            Err(e) => Err(e),
            Ok((n, s)) => Ok((Some(n), s)),
        }
    } else if is_name(t, s) && !is_word(t, s, "FROM"@) {
        match guard_word(t, s) {
            Err(e) => Err(e),
            Ok(s) => match name(t, s) {
                Err(e) => Err(e),
                Ok((n, s)) => Ok((Some(n), s)),
            },
        }
    } else {
        Ok((None, s))
    }
}

/// Items between commas, each with its alias, behind those of `done`.
pub open spec fn select_items(
    t: Seq<TokenV>,
    s: int,
    d: nat,
    done: Seq<(SelectItemV, Option<Seq<char>>)>,
) -> Result<(Seq<(SelectItemV, Option<Seq<char>>)>, int), SqlErrorV>
    decreases t.len() - s,
{
    match select_item(t, s, d) {
        Err(e) => Err(e),
        Ok((item, s1)) => match alias(t, s1) {
            Err(e) => Err(e),
            Ok((a, s2)) => if is_sym(t, s2, Sym::Comma) && s < next(t, s2) <= t.len() {
                select_items(t, next(t, s2), d, done.push((item, a)))
            } else {
                Ok((done.push((item, a)), s2))
            },
        },
    }
}

fn item_named(name: String) -> (r: SelectItem)
    ensures
        r.deep_view() == named_item(name@),
{
    if same(name.as_str(), ID_COLUMN) {
        SelectItem::Id
    } else if same(name.as_str(), KEY_COLUMN) {
        SelectItem::Key
    } else {
        SelectItem::Column(name)
    }
}

impl Parser {
    fn at_plain_name(&self) -> (r: bool)
        requires
            self.ok(),
        ensures
            r == is_plain_name(self.t(), self.s()),
    {
        self.at_name() && !self.sym_ahead(1, Sym::LParen) && !self.sym_ahead(1, Sym::VecCosine)
            && !self.sym_ahead(1, Sym::VecL2) && !self.sym_ahead(1, Sym::VecDot) && !self.sym_ahead(
            1,
            Sym::VecL1,
        ) && !self.sym_ahead(1, Sym::Cast) && !(self.sym_ahead(1, Sym::Dot) && self.sym_ahead(
            3,
            Sym::LParen,
        ))
    }

    fn name_item(&mut self) -> (r: Result<SelectItem, SqlError>)
        requires
            old(self).ok(),
        ensures
            reads(r, *old(self), *final(self), name_item(old(self).t(), old(self).s())),
    {
        proof {
            reveal(name_item);
        }
        self.guard_word()?;
        let column = self.name()?;
        if self.at_sym(Sym::Slash) {
            let value = self.peek_at(1).dup();
            if let Tok::Num(value, true) = value {
                self.skip();
                self.skip();
                if is_at_least(value.bits, 1) {
                    return Ok(SelectItem::Divided { column, divisor: to_i64(value.bits) });
                }
                return Err(
                    SqlError::unsupported(
                        crate::text::cat4(
                            column.as_str(),
                            " / ",
                            value.shown.as_str(),
                            ": a divided group key takes a positive whole divisor",
                        ).as_str(),
                    ),
                );
            }
        }
        Ok(item_named(column))
    }

    fn select_item(&mut self) -> (r: Result<SelectItem, SqlError>)
        requires
            old(self).ok(),
        ensures
            parsed(r, *old(self), *final(self), select_item(old(self).t(), old(self).s(), old(self).d())),
    {
        proof {
            reveal(select_item);
        }
        if self.eat(Sym::Star) {
            return Ok(SelectItem::Star);
        }
        if let Some((function, argument)) = self.aggregate_call()? {
            return Ok(SelectItem::Aggregate { function, argument });
        }
        if self.at_row_function() || self.row_expression_ahead() {
            let e = self.row_expr()?;
            return Ok(SelectItem::Function(Box::new(e)));
        }
        if self.at_plain_name() {
            return self.name_item();
        }
        let at = self.here();
        let _ = self.expression(0)?;
        Ok(SelectItem::OrderValue(cat2("expression at byte ", decimal_usize(at).as_str())))
    }

    fn alias(&mut self) -> (r: Result<Option<String>, SqlError>)
        requires
            old(self).ok(),
        ensures
            reads(r, *old(self), *final(self), alias(old(self).t(), old(self).s())),
    {
        proof {
            reveal(alias);
        }
        if self.eat_word("AS") {
            let n = self.name()?;
            return Ok(Some(n));
        }
        if self.at_name() && !self.at_word("FROM") {
            self.guard_word()?;
            let n = self.name()?;
            return Ok(Some(n));
        }
        Ok(None)
    }

    fn select_items(&mut self) -> (r: Result<Vec<(SelectItem, Option<String>)>, SqlError>)
        requires
            old(self).ok(),
        ensures
            parsed(
                r,
                *old(self),
                *final(self),
                select_items(old(self).t(), old(self).s(), old(self).d(), Seq::empty()),
            ),
    {
        let ghost t = self.t();
        let ghost d = self.d();
        let ghost start = self.s();
        let mut out: Vec<(SelectItem, Option<String>)> = Vec::new();
        assert(out.deep_view() =~= Seq::<(SelectItemV, Option<Seq<char>>)>::empty());
        loop
            invariant
                self.ok(),
                self.tokens == old(self).tokens,
                self.refused == old(self).refused,
                self.depth == old(self).depth,
                self.at >= old(self).at,
                t == self.t(),
                t == old(self).t(),
                d == old(self).d(),
                start == old(self).s(),
                select_items(t, start, d, Seq::empty()) == select_items(
                    t,
                    self.s(),
                    d,
                    out.deep_view(),
                ),
            decreases self.tokens@.len() - self.at,
        {
            let item = self.select_item()?;
            let a = self.alias()?;
            let ghost before = out.deep_view();
            let ghost view = (item.deep_view(), a.deep_view());
            out.push((item, a));
            assert(out.deep_view() =~= before.push(view));
            if !self.eat(Sym::Comma) {
                return Ok(out);
            }
        }
    }
}

// ── GROUP BY and HAVING ──────────────────────────────────────────────────

/// The whole divisor of a group key.
#[verifier::opaque]
pub open spec fn group_divisor(t: Seq<TokenV>, s: int, column: Seq<char>) -> Result<
    (i64, int),
    SqlErrorV,
> {
    match tok(t, s) {
        TokV::Num(value, true) if at_least(value.bits, 1) => Ok(
            (saturated(value.bits) as i64, next(t, s)),
        ),
        other => Err(
            SqlErrorV::Unsupported(
                "GROUP BY "@ + column
                    + " / n takes a positive whole divisor -- only then is the expression monotone in the index's own order, which is what lets it stream; found `"@
                    + tok_text(other) + "`"@,
            ),
        ),
    }
}

/// Whether a group key may end at a place.
pub open spec fn group_ends(t: Seq<TokenV>, s: int) -> bool {
    is_end(t, s) || is_word(t, s, "HAVING"@) || is_word(t, s, "ORDER"@) || is_word(t, s, "LIMIT"@)
        || is_word(t, s, "OFFSET"@) || is_word(t, s, "UNION"@)
}

/// `column` or `column / n`.
#[verifier::opaque]
pub open spec fn group_expression(t: Seq<TokenV>, s: int) -> Result<(GroupExprV, int), SqlErrorV> {
    match guard_word(t, s) {
        Err(e) => Err(e),
        Ok(s) => match name(t, s) {
            Err(e) => Err(e),
            Ok((column, s)) => match if is_sym(t, s, Sym::Slash) { match group_divisor(t, next(t, s), column) { Err(e) => Err(e), Ok((n, s)) => Ok((Some(n), s)) } } else { Ok((None, s)) } {
                Err(e) => Err(e),
                Ok((divisor, s)) => if is_sym(t, s, Sym::Comma) {
                    Err(
                        SqlErrorV::Refused {
                            keyword: "GROUP BY <two keys>"@,
                            tier: Tier::Three,
                            reason: "QL_CONTRACT §4.7: GROUP BY takes ONE key. A composite key has no atomic: the streaming shape is the statement that ONE index's own order delivers the groups contiguously, and two columns are not one index's order."@,
                        },
                    )
                } else if !group_ends(t, s) {
                    Err(
                        SqlErrorV::Unsupported(
                            "GROUP BY "@ + column
                                + ": the only grouping expression this slice accepts is `col` or `col / n`"@,
                        ),
                    )
                } else {
                    Ok((GroupExprV { column, divisor }, s))
                },
            },
        },
    }
}

/// One predicate of a `HAVING`.
#[verifier::opaque]
pub open spec fn having_predicate(t: Seq<TokenV>, s: int, d: nat) -> Result<
    (HavingPredicateV, int),
    SqlErrorV,
> {
    let at = here(t, s);
    match aggregate_call(t, s) {
        Err(e) => Err(e),
        Ok((call, s)) => match call {
            None => Err(
                SqlErrorV::Unsupported(
                    "HAVING is a predicate on a group's ACCUMULATOR value: write `HAVING count(*) > 100`, not a row predicate (that is WHERE)"@,
                ),
            ),
            Some((function, argument)) => match comparison_of(tok(t, s)) {
                None => Err(
                    syntax(
                        "HAVING compares an accumulator, found `"@ + tok_text(tok(t, s)) + "`"@,
                        at,
                    ),
                ),
                Some(op) => match literal(t, next(t, s), d) {
                    Err(e) => Err(e),
                    Ok((value, s)) => Ok((HavingPredicateV { function, argument, op, value }, s)),
                },
            },
        },
    }
}

/// Predicates of a `HAVING` with `AND` between them, behind those of `done`.
pub open spec fn having(t: Seq<TokenV>, s: int, d: nat, done: Seq<HavingPredicateV>) -> Result<
    (Seq<HavingPredicateV>, int),
    SqlErrorV,
>
    decreases t.len() - s,
{
    match having_predicate(t, s, d) {
        Err(e) => Err(e),
        Ok((p, s2)) => if is_word(t, s2, "OR"@) {
            Err(
                SqlErrorV::Unsupported(
                    "OR inside HAVING: a HAVING predicate is applied to a finished group, and a union of group predicates has no accumulator atomic (QL_CONTRACT §4.7)"@,
                ),
            )
        } else if is_word(t, s2, "AND"@) && s < next(t, s2) <= t.len() {
            having(t, next(t, s2), d, done.push(p))
        } else {
            Ok((done.push(p), s2))
        },
    }
}

impl Parser {
    fn group_divisor(&mut self, column: &str) -> (r: Result<i64, SqlError>)
        requires
            old(self).ok(),
        ensures
            reads(r, *old(self), *final(self), group_divisor(old(self).t(), old(self).s(), column@)),
    {
        proof {
            reveal(group_divisor);
        }
        let value = self.bump();
        if let Tok::Num(n, true) = &value {
            if is_at_least(n.bits, 1) {
                return Ok(to_i64(n.bits));
            }
        }
        Err(
            SqlError::unsupported(
                cat5(
                    "GROUP BY ",
                    column,
                    " / n takes a positive whole divisor -- only then is the expression monotone in the index's own order, which is what lets it stream; found `",
                    value.written().as_str(),
                    "`",
                ).as_str(),
            ),
        )
    }

    fn group_expression(&mut self) -> (r: Result<GroupExpr, SqlError>)
        requires
            old(self).ok(),
        ensures
            reads(r, *old(self), *final(self), group_expression(old(self).t(), old(self).s())),
    {
        proof {
            reveal(group_expression);
        }
        self.guard_word()?;
        let column = self.name()?;
        let divisor = if self.eat(Sym::Slash) {
            Some(self.group_divisor(column.as_str())?)
        } else {
            None
        };
        if self.at_sym(Sym::Comma) {
            return Err(
                SqlError::Refused {
                    keyword: owned("GROUP BY <two keys>"),
                    tier: Tier::Three,
                    reason: owned(
                        "QL_CONTRACT §4.7: GROUP BY takes ONE key. A composite key has no atomic: the streaming shape is the statement that ONE index's own order delivers the groups contiguously, and two columns are not one index's order.",
                    ),
                },
            );
        }
        if !self.at_end() && !self.at_word("HAVING") && !self.at_word("ORDER") && !self.at_word(
            "LIMIT",
        ) && !self.at_word("OFFSET") && !self.at_word("UNION") {
            return Err(
                SqlError::unsupported(
                    cat3(
                        "GROUP BY ",
                        column.as_str(),
                        ": the only grouping expression this slice accepts is `col` or `col / n`",
                    ).as_str(),
                ),
            );
        }
        Ok(GroupExpr { column, divisor })
    }

    fn having_predicate(&mut self) -> (r: Result<HavingPredicate, SqlError>)
        requires
            old(self).ok(),
        ensures
            parsed(
                r,
                *old(self),
                *final(self),
                having_predicate(old(self).t(), old(self).s(), old(self).d()),
            ),
    {
        proof {
            reveal(having_predicate);
        }
        let at = self.here();
        match self.aggregate_call()? {
            None => Err(
                SqlError::unsupported(
                    "HAVING is a predicate on a group's ACCUMULATOR value: write `HAVING count(*) > 100`, not a row predicate (that is WHERE)",
                ),
            ),
            Some((function, argument)) => {
                let token = self.bump();
                match token.comparison() {
                    None => Err(
                        SqlError::syntax(
                            cat3(
                                "HAVING compares an accumulator, found `",
                                token.written().as_str(),
                                "`",
                            ).as_str(),
                            at,
                        ),
                    ),
                    Some(op) => {
                        let value = self.literal()?;
                        Ok(HavingPredicate { function, argument, op, value })
                    },
                }
            },
        }
    }

    fn having(&mut self) -> (r: Result<Vec<HavingPredicate>, SqlError>)
        requires
            old(self).ok(),
        ensures
            parsed(
                r,
                *old(self),
                *final(self),
                having(old(self).t(), old(self).s(), old(self).d(), Seq::empty()),
            ),
    {
        let ghost t = self.t();
        let ghost d = self.d();
        let ghost start = self.s();
        let mut out: Vec<HavingPredicate> = Vec::new();
        assert(out.deep_view() =~= Seq::<HavingPredicateV>::empty());
        loop
            invariant
                self.ok(),
                self.tokens == old(self).tokens,
                self.refused == old(self).refused,
                self.depth == old(self).depth,
                self.at >= old(self).at,
                t == self.t(),
                t == old(self).t(),
                d == old(self).d(),
                start == old(self).s(),
                having(t, start, d, Seq::empty()) == having(t, self.s(), d, out.deep_view()),
            decreases self.tokens@.len() - self.at,
        {
            let p = self.having_predicate()?;
            if self.at_word("OR") {
                return Err(
                    SqlError::unsupported(
                        "OR inside HAVING: a HAVING predicate is applied to a finished group, and a union of group predicates has no accumulator atomic (QL_CONTRACT §4.7)",
                    ),
                );
            }
            let ghost before = out.deep_view();
            out.push(p);
            assert(out.deep_view() =~= before.push(p.deep_view()));
            if !self.eat_word("AND") {
                return Ok(out);
            }
        }
    }
}

// ── the clauses ──────────────────────────────────────────────────────────

/// The source of a statement, with its alias dropped; nothing joins it.
#[verifier::opaque]
pub open spec fn select_source(t: Seq<TokenV>, s: int, d: nat) -> Result<(SourceV, int), SqlErrorV> {
    if is_word(t, s, "GRAPH_TABLE"@) {
        match graph_table(t, s, d) {
            Err(e) => Err(e),
            Ok((g, s)) => Ok((SourceV::Graph(Box::new(g)), s)),
        }
    } else {
        match source_name(t, s) {
            Err(e) => Err(e),
            Ok((table, s)) => if is_word(t, s, "AS"@) {
                match name(t, next(t, s)) {
                    Err(e) => Err(e),
                    Ok((_, s)) => Ok((SourceV::Table(table), s)),
                }
            } else {
                Ok((SourceV::Table(table), s))
            },
        }
    }
}

/// Whether a second source is joined at a place.
pub open spec fn is_join(t: Seq<TokenV>, s: int) -> bool {
    is_word(t, s, "JOIN"@) || is_word(t, s, "INNER"@) || is_word(t, s, "LEFT"@) || is_word(
        t,
        s,
        "RIGHT"@,
    ) || is_word(t, s, "FULL"@) || is_word(t, s, "CROSS"@) || is_word(t, s, "NATURAL"@) || is_sym(
        t,
        s,
        Sym::Comma,
    )
}

/// `WHERE condition`; an empty list where none stands.
#[verifier::opaque]
pub open spec fn optional_where(t: Seq<TokenV>, s: int, d: nat) -> Result<
    (Seq<ExprV>, int),
    SqlErrorV,
> {
    if is_word(t, s, "WHERE"@) {
        where_clause(t, next(t, s), d)
    } else {
        Ok((Seq::empty(), s))
    }
}

/// `GROUP BY key`; nothing where none stands.
#[verifier::opaque]
pub open spec fn optional_group(t: Seq<TokenV>, s: int) -> Result<
    (Option<GroupExprV>, int),
    SqlErrorV,
> {
    if is_word(t, s, "GROUP"@) {
        match want_word(t, next(t, s), "BY"@) {
            Err(e) => Err(e),
            Ok(s) => match group_expression(t, s) {
                Err(e) => Err(e),
                Ok((g, s)) => Ok((Some(g), s)),
            },
        }
    } else {
        Ok((None, s))
    }
}

/// `HAVING predicates`; an empty list where none stands.
#[verifier::opaque]
pub open spec fn optional_having(t: Seq<TokenV>, s: int, d: nat) -> Result<
    (Seq<HavingPredicateV>, int),
    SqlErrorV,
> {
    if is_word(t, s, "HAVING"@) {
        having(t, next(t, s), d, Seq::empty())
    } else {
        Ok((Seq::empty(), s))
    }
}

/// `ORDER BY key`, one key; nothing where none stands.
#[verifier::opaque]
pub open spec fn optional_order(t: Seq<TokenV>, s: int, d: nat) -> Result<
    (Option<OrderKeyV>, int),
    SqlErrorV,
> {
    if is_word(t, s, "ORDER"@) {
        match want_word(t, next(t, s), "BY"@) {
            Err(e) => Err(e),
            Ok(s) => match order_key(t, s, d) {
                Err(e) => Err(e),
                Ok((key, s)) => if is_sym(t, s, Sym::Comma) {
                    Err(
                        SqlErrorV::Refused {
                            keyword: "ORDER BY <two keys>"@,
                            tier: Tier::Three,
                            reason: "QL_CONTRACT §5 deviation 3: ORDER BY takes ONE key; an expression is one key (the Score atomic). Two keys are a refusal because there is no second-key atomic: a page ranks by one RankKey."@,
                        },
                    )
                } else {
                    Ok((Some(key), s))
                },
            },
        }
    } else {
        Ok((None, s))
    }
}

/// `LIMIT n`; nothing where none stands.
#[verifier::opaque]
pub open spec fn optional_limit(t: Seq<TokenV>, s: int) -> Result<(Option<usize>, int), SqlErrorV> {
    if is_word(t, s, "LIMIT"@) {
        let s = next(t, s);
        match tok(t, s) {
            TokV::Num(n, true) if at_least(n.bits, 0) => Ok(
                (Some(saturated_size(n.bits) as usize), next(t, s)),
            ),
            other => Err(
                syntax(
                    "LIMIT needs a whole number, found `"@ + tok_text(other) + "`"@,
                    here(t, next(t, s)),
                ),
            ),
        }
    } else {
        Ok((None, s))
    }
}

/// The word behind `SELECT`.
#[verifier::opaque]
pub open spec fn select_head(t: Seq<TokenV>, s: int) -> Result<(bool, int), SqlErrorV> {
    match want_word(t, s, "SELECT"@) {
        Err(e) => Err(e),
        Ok(s) => {
            let distinct = is_word(t, s, "DISTINCT"@);
            let s = past_word(t, s, "DISTINCT"@);
            if distinct && is_word(t, s, "ON"@) {
                Err(
                    SqlErrorV::Refused {
                        keyword: "DISTINCT ON"@,
                        tier: Tier::Three,
                        reason: "QL_CONTRACT §4.7: DISTINCT is a group with no accumulators; DISTINCT ON picks a representative ROW per group, which needs a per-group ranking the aggregate atomic does not have."@,
                    },
                )
            } else {
                Ok((distinct, s))
            }
        }
    }
}

/// A whole `SELECT`.
#[verifier::opaque]
pub open spec fn select(t: Seq<TokenV>, s: int, d: nat) -> Result<(SelectStmtV, int), SqlErrorV> {
    match select_head(t, s) {
        Err(e) => Err(e),
        Ok((distinct, s)) => match select_items(t, s, d, Seq::empty()) {
            Err(e) => Err(e),
            Ok((items, s)) => match want_word(t, s, "FROM"@) {
                Err(e) => Err(e),
                Ok(s) => match select_source(t, s, d) {
                    Err(e) => Err(e),
                    Ok((source, s)) => if is_join(t, s) {
                        Err(refusal("JOIN"@))
                    } else {
                        match optional_where(t, s, d) {
                            Err(e) => Err(e),
                            Ok((predicates, s)) => if is_word(t, s, "WINDOW"@) {
                                Err(refusal("OVER"@))
                            } else {
                                match optional_group(t, s) {
                                    Err(e) => Err(e),
                                    Ok((group, s)) => match optional_having(t, s, d) {
                                        Err(e) => Err(e),
                                        Ok((having, s)) => match optional_order(t, s, d) {
                                            Err(e) => Err(e),
                                            Ok((order, s)) => match optional_limit(t, s) {
                                                Err(e) => Err(e),
                                                Ok((limit, s)) => if is_word(t, s, "OFFSET"@) {
                                                    Err(refusal("OFFSET"@))
                                                } else if is_word(t, s, "UNION"@) {
                                                    Err(refusal("UNION"@))
                                                } else {
                                                    Ok((SelectStmtV { items, source, predicates, distinct, group, having, order, limit }, s))
                                                },
                                            },
                                        },
                                    },
                                }
                            },
                        }
                    },
                },
            },
        },
    }
}

impl Parser {
    fn select_source(&mut self) -> (r: Result<Source, SqlError>)
        requires
            old(self).ok(),
        ensures
            parsed(r, *old(self), *final(self), select_source(old(self).t(), old(self).s(), old(self).d())),
    {
        proof {
            reveal(select_source);
        }
        if self.at_word("GRAPH_TABLE") {
            let g = self.graph_table()?;
            return Ok(Source::Graph(Box::new(g)));
        }
        let table = self.source_name()?;
        if self.eat_word("AS") {
            let _ = self.name()?;
        }
        Ok(Source::Table(table))
    }

    fn at_join(&self) -> (r: bool)
        requires
            self.ok(),
        ensures
            r == is_join(self.t(), self.s()),
    {
        self.at_word("JOIN") || self.at_word("INNER") || self.at_word("LEFT") || self.at_word(
            "RIGHT",
        ) || self.at_word("FULL") || self.at_word("CROSS") || self.at_word("NATURAL")
            || self.at_sym(Sym::Comma)
    }

    /// `WHERE condition`; an empty list where none stands.
    pub fn optional_where(&mut self) -> (r: Result<Vec<Expr>, SqlError>)
        requires
            old(self).ok(),
        ensures
            parsed(r, *old(self), *final(self), optional_where(old(self).t(), old(self).s(), old(self).d())),
    {
        proof {
            reveal(optional_where);
        }
        if self.eat_word("WHERE") {
            return self.where_clause();
        }
        let none: Vec<Expr> = Vec::new();
        assert(none.deep_view() =~= Seq::<ExprV>::empty());
        Ok(none)
    }

    fn optional_group(&mut self) -> (r: Result<Option<GroupExpr>, SqlError>)
        requires
            old(self).ok(),
        ensures
            reads(r, *old(self), *final(self), optional_group(old(self).t(), old(self).s())),
    {
        proof {
            reveal(optional_group);
        }
        if self.eat_word("GROUP") {
            self.expect_word("BY")?;
            let g = self.group_expression()?;
            return Ok(Some(g));
        }
        Ok(None)
    }

    fn optional_having(&mut self) -> (r: Result<Vec<HavingPredicate>, SqlError>)
        requires
            old(self).ok(),
        ensures
            parsed(
                r,
                *old(self),
                *final(self),
                optional_having(old(self).t(), old(self).s(), old(self).d()),
            ),
    {
        proof {
            reveal(optional_having);
        }
        if self.eat_word("HAVING") {
            return self.having();
        }
        let none: Vec<HavingPredicate> = Vec::new();
        assert(none.deep_view() =~= Seq::<HavingPredicateV>::empty());
        Ok(none)
    }

    fn optional_order(&mut self) -> (r: Result<Option<OrderKey>, SqlError>)
        requires
            old(self).ok(),
        ensures
            parsed(r, *old(self), *final(self), optional_order(old(self).t(), old(self).s(), old(self).d())),
    {
        proof {
            reveal(optional_order);
        }
        if self.eat_word("ORDER") {
            self.expect_word("BY")?;
            let key = self.order_key()?;
            if self.at_sym(Sym::Comma) {
                return Err(
                    SqlError::Refused {
                        keyword: owned("ORDER BY <two keys>"),
                        tier: Tier::Three,
                        reason: owned(
                            "QL_CONTRACT §5 deviation 3: ORDER BY takes ONE key; an expression is one key (the Score atomic). Two keys are a refusal because there is no second-key atomic: a page ranks by one RankKey.",
                        ),
                    },
                );
            }
            return Ok(Some(key));
        }
        Ok(None)
    }

    fn optional_limit(&mut self) -> (r: Result<Option<usize>, SqlError>)
        requires
            old(self).ok(),
        ensures
            reads(r, *old(self), *final(self), optional_limit(old(self).t(), old(self).s())),
    {
        proof {
            reveal(optional_limit);
        }
        if self.eat_word("LIMIT") {
            let value = self.bump();
            if let Tok::Num(n, true) = &value {
                if is_at_least(n.bits, 0) {
                    return Ok(Some(to_size(n.bits)));
                }
            }
            return Err(
                SqlError::syntax(
                    cat3("LIMIT needs a whole number, found `", value.written().as_str(), "`").as_str(),
                    self.here(),
                ),
            );
        }
        Ok(None)
    }

    fn select_head(&mut self) -> (r: Result<bool, SqlError>)
        requires
            old(self).ok(),
        ensures
            reads(r, *old(self), *final(self), select_head(old(self).t(), old(self).s())),
    {
        proof {
            reveal(select_head);
        }
        self.expect_word("SELECT")?;
        let distinct = self.eat_word("DISTINCT");
        if distinct && self.at_word("ON") {
            return Err(
                SqlError::Refused {
                    keyword: owned("DISTINCT ON"),
                    tier: Tier::Three,
                    reason: owned(
                        "QL_CONTRACT §4.7: DISTINCT is a group with no accumulators; DISTINCT ON picks a representative ROW per group, which needs a per-group ranking the aggregate atomic does not have.",
                    ),
                },
            );
        }
        Ok(distinct)
    }

    /// A whole `SELECT`.
    pub fn select(&mut self) -> (r: Result<SelectStmt, SqlError>)
        requires
            old(self).ok(),
        ensures
            parsed(r, *old(self), *final(self), select(old(self).t(), old(self).s(), old(self).d())),
    {
        proof {
            reveal(select);
        }
        let distinct = self.select_head()?;
        let items = self.select_items()?;
        self.expect_word("FROM")?;
        let source = self.select_source()?;
        if self.at_join() {
            return Err(refuse("JOIN"));
        }
        let predicates = self.optional_where()?;
        if self.at_word("WINDOW") {
            return Err(refuse("OVER"));
        }
        let group = self.optional_group()?;
        let having = self.optional_having()?;
        let order = self.optional_order()?;
        let limit = self.optional_limit()?;
        if self.at_word("OFFSET") {
            return Err(refuse("OFFSET"));
        }
        if self.at_word("UNION") {
            return Err(refuse("UNION"));
        }
        Ok(SelectStmt { items, source, predicates, distinct, group, having, order, limit })
    }
}

} // verus!
