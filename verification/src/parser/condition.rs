//! Conditions: predicates under `AND`, `OR` and `NOT`.

use vstd::prelude::*;
use crate::ast::{expr_view_parts, Expr, ExprV, Predicate, PredicateV};
use crate::compile::env::KEY_COLUMN;
use crate::error::{SqlError, SqlErrorV};
use crate::parser::cursor::{
    here, is_sym, is_word, name, next, parsed, passes, reads, syntax, tok, too_deep, want_word,
    Parser, MAX_DEPTH,
};
use crate::parser::predicate::predicate;
use crate::text::{cat3, same};
use crate::token::{tok_text, Sym, Tok, TokenV};

verus! {

// ── a flat conjunction ───────────────────────────────────────────────────

/// Predicates with `AND` between them, behind those of `done`: the condition
/// of an element of a graph pattern.
pub open spec fn conjunction(t: Seq<TokenV>, s: int, d: nat, done: Seq<PredicateV>) -> Result<
    (Seq<PredicateV>, int),
    SqlErrorV,
>
    decreases t.len() - s,
{
    match predicate(t, s, d) {
        Err(e) => Err(e),
        Ok(((p, negated), s2)) => if negated {
            Err(
                SqlErrorV::Unsupported(
                    "a negated predicate inside a graph pattern element: a per-hop predicate is answered from one node's postings, and a complement is a set over the whole collection (GRAPH_CONTRACT 4.3)"@,
                ),
            )
        } else if is_word(t, s2, "OR"@) {
            Err(
                SqlErrorV::Unsupported(
                    "OR inside a graph pattern element: a per-hop predicate is answered from one node's postings, and a union is a set over the whole collection (GRAPH_CONTRACT 4.3)"@,
                ),
            )
        } else if is_word(t, s2, "AND"@) && s < next(t, s2) <= t.len() {
            conjunction(t, next(t, s2), d, done.push(p))
        } else {
            Ok((done.push(p), s2))
        },
    }
}

impl Parser {
    /// Predicates with `AND` between them.
    pub fn conjunction(&mut self) -> (r: Result<Vec<Predicate>, SqlError>)
        requires
            old(self).ok(),
        ensures
            parsed(
                r,
                *old(self),
                *final(self),
                conjunction(old(self).t(), old(self).s(), old(self).d(), Seq::empty()),
            ),
    {
        let ghost t = self.t();
        let ghost d = self.d();
        let ghost start = self.s();
        let mut out: Vec<Predicate> = Vec::new();
        assert(out.deep_view() =~= Seq::<PredicateV>::empty());
        loop
            invariant
                self.ok(),
                self.tokens == old(self).tokens,
                self.refused == old(self).refused,
                self.depth == old(self).depth,
                self.at >= old(self).at,
                t == self.t(),
                t == old(self).t(),
                d == old(self).d(),
                start == old(self).s(),
                conjunction(t, start, d, Seq::empty()) == conjunction(
                    t,
                    self.s(),
                    d,
                    out.deep_view(),
                ),
            decreases self.tokens@.len() - self.at,
        {
            let (p, negated) = self.predicate_negatable()?;
            if negated {
                return Err(
                    SqlError::unsupported(
                        "a negated predicate inside a graph pattern element: a per-hop predicate is answered from one node's postings, and a complement is a set over the whole collection (GRAPH_CONTRACT 4.3)",
                    ),
                );
            }
            if self.at_word("OR") {
                return Err(
                    SqlError::unsupported(
                        "OR inside a graph pattern element: a per-hop predicate is answered from one node's postings, and a union is a set over the whole collection (GRAPH_CONTRACT 4.3)",
                    ),
                );
            }
            let ghost before = out.deep_view();
            out.push(p);
            assert(out.deep_view() =~= before.push(p.deep_view()));
            if !self.eat_word("AND") {
                return Ok(out);
            }
        }
    }
}

// ── EXISTS ───────────────────────────────────────────────────────────────

/// The select list of an `EXISTS`, which is never read.
#[verifier::opaque]
pub open spec fn exists_item(t: Seq<TokenV>, s: int) -> Result<int, SqlErrorV> {
    if is_sym(t, s, Sym::Star) || tok(t, s) is Num {
        Ok(next(t, s))
    } else {
        match name(t, s) {
            Err(e) => Err(e),
            Ok((_, s)) => Ok(s),
        }
    }
}

/// `(SELECT 1 FROM table WHERE column = _key)`, behind `EXISTS`.
#[verifier::opaque]
pub open spec fn exists_subquery(t: Seq<TokenV>, s: int) -> Result<(PredicateV, int), SqlErrorV> {
    if !is_sym(t, s, Sym::LParen) {
        Err(
            syntax("expected `(` after EXISTS, found `"@ + tok_text(tok(t, s)) + "`"@, here(t, s)),
        )
    } else {
        match want_word(t, next(t, s), "SELECT"@) {
            Err(e) => Err(e),
            Ok(s) => match exists_item(t, s) {
                Err(e) => Err(e),
                Ok(s) => match want_word(t, s, "FROM"@) {
                    Err(e) => Err(e),
                    Ok(s) => match name(t, s) {
                        Err(e) => Err(e),
                        Ok((table, s)) => match want_word(t, s, "WHERE"@) {
                            Err(e) => Err(e),
                            Ok(s) => match name(t, s) {
                                Err(e) => Err(e),
                                Ok((column, s)) => if !is_sym(t, s, Sym::Eq) {
                                    Err(
                                        SqlErrorV::Unsupported(
                                            "an EXISTS subquery whose correlation is not a key equality: the semi-join atomic is a membership set of the outer ids one column names"@,
                                        ),
                                    )
                                } else {
                                    match name(t, next(t, s)) {
                                        Err(e) => Err(e),
                                        Ok((outer, s)) => if outer != KEY_COLUMN@ {
                                            Err(
                                                SqlErrorV::Unsupported(
                                                    "an EXISTS subquery correlated on a column other than the outer key: the semi-join atomic maps the subquery's values through the external-key mapping"@,
                                                ),
                                            )
                                        } else if !is_sym(t, s, Sym::RParen) {
                                            Err(
                                                syntax(
                                                    "expected `)` to close an EXISTS subquery, found `"@ + tok_text(tok(t, s))
                                                        + "`"@,
                                                    here(t, s),
                                                ),
                                            )
                                        } else {
                                            Ok((PredicateV::Semi { table, column }, next(t, s)))
                                        },
                                    }
                                },
                            },
                        },
                    },
                },
            },
        }
    }
}

impl Parser {
    fn exists_item(&mut self) -> (r: Result<(), SqlError>)
        requires
            old(self).ok(),
        ensures
            passes(r, *old(self), *final(self), exists_item(old(self).t(), old(self).s())),
    {
        proof {
            reveal(exists_item);
        }
        let plain = match self.peek() {
            Tok::Sym(x) => *x == Sym::Star,
            Tok::Num(_, _) => true,
            _ => false,
        };
        if plain {
            self.skip();
        } else {
            let _ = self.name()?;
        }
        Ok(())
    }

    fn exists_subquery(&mut self) -> (r: Result<Predicate, SqlError>)
        requires
            old(self).ok(),
        ensures
            reads(r, *old(self), *final(self), exists_subquery(old(self).t(), old(self).s())),
    {
        proof {
            reveal(exists_subquery);
        }
        if !self.eat(Sym::LParen) {
            return Err(
                SqlError::syntax(
                    cat3("expected `(` after EXISTS, found `", self.peek().written().as_str(), "`").as_str(),
                    self.here(),
                ),
            );
        }
        self.expect_word("SELECT")?;
        self.exists_item()?;
        self.expect_word("FROM")?;
        let table = self.name()?;
        self.expect_word("WHERE")?;
        let column = self.name()?;
        if !self.eat(Sym::Eq) {
            return Err(
                SqlError::unsupported(
                    "an EXISTS subquery whose correlation is not a key equality: the semi-join atomic is a membership set of the outer ids one column names",
                ),
            );
        }
        let outer = self.name()?;
        if !same(outer.as_str(), KEY_COLUMN) {
            return Err(
                SqlError::unsupported(
                    "an EXISTS subquery correlated on a column other than the outer key: the semi-join atomic maps the subquery's values through the external-key mapping",
                ),
            );
        }
        if !self.eat(Sym::RParen) {
            return Err(
                SqlError::syntax(
                    cat3(
                        "expected `)` to close an EXISTS subquery, found `",
                        self.peek().written().as_str(),
                        "`",
                    ).as_str(),
                    self.here(),
                ),
            );
        }
        Ok(Predicate::Semi { table, column })
    }
}

// ── the tree ─────────────────────────────────────────────────────────────

/// Several parts under `OR`; one part is itself.
pub open spec fn any_of(parts: Seq<ExprV>) -> ExprV {
    if parts.len() == 1 {
        parts[0]
    } else {
        ExprV::Or(parts)
    }
}

/// Several parts under `AND`; one part is itself.
pub open spec fn all_of(parts: Seq<ExprV>) -> ExprV {
    if parts.len() == 1 {
        parts[0]
    } else {
        ExprV::And(parts)
    }
}

/// A predicate, under a `NOT` where it is negated.
pub open spec fn leaf_of(p: PredicateV, negated: bool) -> ExprV {
    if negated {
        ExprV::Not(Box::new(ExprV::Leaf(p)))
    } else {
        ExprV::Leaf(p)
    }
}

/// Conjunctions with `OR` between them.
pub open spec fn disjunction(t: Seq<TokenV>, s: int, d: nat) -> Result<(ExprV, int), SqlErrorV>
    decreases MAX_DEPTH + 1 - d, 4nat, 0int,
{
    match boolean_and(t, s, d) {
        Err(e) => Err(e),
        Ok((first, s)) => match or_tail(t, s, d, seq![first]) {
            Err(e) => Err(e),
            Ok((parts, s)) => Ok((any_of(parts), s)),
        },
    }
}

pub open spec fn or_tail(t: Seq<TokenV>, s: int, d: nat, done: Seq<ExprV>) -> Result<
    (Seq<ExprV>, int),
    SqlErrorV,
>
    decreases MAX_DEPTH + 1 - d, 3nat, t.len() - s,
{
    if !is_word(t, s, "OR"@) {
        Ok((done, s))
    } else {
        match boolean_and(t, next(t, s), d) {
            Err(e) => Err(e),
            Ok((x, s2)) => if s < s2 <= t.len() {
                or_tail(t, s2, d, done.push(x))
            } else {
                Ok((done.push(x), s2))
            },
        }
    }
}

/// Conditions with `AND` between them.
pub open spec fn boolean_and(t: Seq<TokenV>, s: int, d: nat) -> Result<(ExprV, int), SqlErrorV>
    decreases MAX_DEPTH + 1 - d, 2nat, 0int,
{
    match boolean_unary(t, s, d) {
        Err(e) => Err(e),
        Ok((first, s)) => match and_tail(t, s, d, seq![first]) {
            Err(e) => Err(e),
            Ok((parts, s)) => Ok((all_of(parts), s)),
        },
    }
}

pub open spec fn and_tail(t: Seq<TokenV>, s: int, d: nat, done: Seq<ExprV>) -> Result<
    (Seq<ExprV>, int),
    SqlErrorV,
>
    decreases MAX_DEPTH + 1 - d, 1nat, t.len() - s,
{
    if !is_word(t, s, "AND"@) {
        Ok((done, s))
    } else {
        match boolean_unary(t, next(t, s), d) {
            Err(e) => Err(e),
            Ok((x, s2)) => if s < s2 <= t.len() {
                and_tail(t, s2, d, done.push(x))
            } else {
                Ok((done.push(x), s2))
            },
        }
    }
}

/// A `NOT`, a group in parentheses, an `EXISTS` or one predicate.
pub open spec fn boolean_unary(t: Seq<TokenV>, s: int, d: nat) -> Result<(ExprV, int), SqlErrorV>
    decreases MAX_DEPTH + 1 - d, 0nat, 0int,
{
    if d >= MAX_DEPTH {
        Err(too_deep(t, s))
    } else {
        boolean_unary_inner(t, s, d + 1)
    }
}

pub open spec fn boolean_unary_inner(t: Seq<TokenV>, s: int, d: nat) -> Result<
    (ExprV, int),
    SqlErrorV,
>
    decreases MAX_DEPTH + 1 - d, 5nat, 0int,
{
    if is_word(t, s, "NOT"@) {
        match boolean_unary(t, next(t, s), d) {
            Err(e) => Err(e),
            Ok((inner, s)) => Ok((ExprV::Not(Box::new(inner)), s)),
        }
    } else if is_sym(t, s, Sym::LParen) {
        match disjunction(t, next(t, s), d) {
            Err(e) => Err(e),
            Ok((inner, s)) => if !is_sym(t, s, Sym::RParen) {
                Err(
                    syntax(
                        "expected `)` to close a WHERE group, found `"@ + tok_text(tok(t, s)) + "`"@,
                        here(t, s),
                    ),
                )
            } else {
                Ok((inner, next(t, s)))
            },
        }
    } else if is_word(t, s, "EXISTS"@) {
        match exists_subquery(t, next(t, s)) {
            Err(e) => Err(e),
            Ok((p, s)) => Ok((ExprV::Leaf(p), s)),
        }
    } else {
        match predicate(t, s, d) {
            Err(e) => Err(e),
            Ok((leaf, s)) => Ok((leaf_of(leaf.0, leaf.1), s)),
        }
    }
}

fn any_expr(mut parts: Vec<Expr>) -> (r: Expr)
    requires
        parts@.len() > 0,
    ensures
        r.deep_view() == any_of(parts.deep_view()),
{
    if parts.len() == 1 {
        assert(parts.deep_view()[0] == parts@[0].deep_view());
        parts.remove(0)
    } else {
        proof {
            expr_view_parts(parts);
        }
        Expr::Or(parts)
    }
}

fn all_expr(mut parts: Vec<Expr>) -> (r: Expr)
    requires
        parts@.len() > 0,
    ensures
        r.deep_view() == all_of(parts.deep_view()),
{
    if parts.len() == 1 {
        assert(parts.deep_view()[0] == parts@[0].deep_view());
        parts.remove(0)
    } else {
        proof {
            expr_view_parts(parts);
        }
        Expr::And(parts)
    }
}

fn negation(e: Expr) -> (r: Expr)
    ensures
        r.deep_view() == ExprV::Not(Box::new(e.deep_view())),
{
    Expr::Not(Box::new(e))
}

impl Parser {
    /// Conjunctions with `OR` between them.
    pub fn disjunction(&mut self) -> (r: Result<Expr, SqlError>)
        requires
            old(self).ok(),
        ensures
            parsed(r, *old(self), *final(self), disjunction(old(self).t(), old(self).s(), old(self).d())),
        decreases MAX_DEPTH + 1 - old(self).depth, 4nat,
    {
        let ghost t = self.t();
        let ghost d = self.d();
        let first = self.boolean_and()?;
        let ghost view = first.deep_view();
        let ghost start = self.s();
        let mut parts = vec![first];
        assert(parts.deep_view() =~= seq![view]);
        while self.at_word("OR")
            invariant
                self.ok(),
                self.tokens == old(self).tokens,
                self.refused == old(self).refused,
                self.depth == old(self).depth,
                self.at >= old(self).at,
                t == self.t(),
                t == old(self).t(),
                d == old(self).d(),
                parts@.len() > 0,
                boolean_and(t, old(self).s(), d) == Ok::<(ExprV, int), SqlErrorV>((view, start)),
                or_tail(t, start, d, seq![view]) == or_tail(t, self.s(), d, parts.deep_view()),
            decreases self.tokens@.len() - self.at,
        {
            self.skip();
            let x = self.boolean_and()?;
            let ghost before = parts.deep_view();
            parts.push(x);
            assert(parts.deep_view() =~= before.push(x.deep_view()));
        }
        Ok(any_expr(parts))
    }

    fn boolean_and(&mut self) -> (r: Result<Expr, SqlError>)
        requires
            old(self).ok(),
        ensures
            parsed(r, *old(self), *final(self), boolean_and(old(self).t(), old(self).s(), old(self).d())),
        decreases MAX_DEPTH + 1 - old(self).depth, 2nat,
    {
        let ghost t = self.t();
        let ghost d = self.d();
        let first = self.boolean_unary()?;
        let ghost view = first.deep_view();
        let ghost start = self.s();
        let mut parts = vec![first];
        assert(parts.deep_view() =~= seq![view]);
        while self.at_word("AND")
            invariant
                self.ok(),
                self.tokens == old(self).tokens,
                self.refused == old(self).refused,
                self.depth == old(self).depth,
                self.at >= old(self).at,
                t == self.t(),
                t == old(self).t(),
                d == old(self).d(),
                parts@.len() > 0,
                boolean_unary(t, old(self).s(), d) == Ok::<(ExprV, int), SqlErrorV>((view, start)),
                and_tail(t, start, d, seq![view]) == and_tail(t, self.s(), d, parts.deep_view()),
            decreases self.tokens@.len() - self.at,
        {
            self.skip();
            let x = self.boolean_unary()?;
            let ghost before = parts.deep_view();
            parts.push(x);
            assert(parts.deep_view() =~= before.push(x.deep_view()));
        }
        Ok(all_expr(parts))
    }

    fn boolean_unary(&mut self) -> (r: Result<Expr, SqlError>)
        requires
            old(self).ok(),
        ensures
            parsed(
                r,
                *old(self),
                *final(self),
                boolean_unary(old(self).t(), old(self).s(), old(self).d()),
            ),
        decreases MAX_DEPTH + 1 - old(self).depth, 0nat,
    {
        self.deeper()?;
        let result = self.boolean_unary_inner();
        self.shallower();
        result
    }

    fn boolean_unary_inner(&mut self) -> (r: Result<Expr, SqlError>)
        requires
            old(self).ok(),
            1 <= old(self).depth <= MAX_DEPTH,
        ensures
            parsed(
                r,
                *old(self),
                *final(self),
                boolean_unary_inner(old(self).t(), old(self).s(), old(self).d()),
            ),
        decreases MAX_DEPTH + 1 - old(self).depth, 5nat,
    {
        if self.eat_word("NOT") {
            let inner = self.boolean_unary()?;
            return Ok(negation(inner));
        }
        if self.eat(Sym::LParen) {
            let inner = self.disjunction()?;
            if !self.eat(Sym::RParen) {
                return Err(
                    SqlError::syntax(
                        cat3(
                            "expected `)` to close a WHERE group, found `",
                            self.peek().written().as_str(),
                            "`",
                        ).as_str(),
                        self.here(),
                    ),
                );
            }
            return Ok(inner);
        }
        if self.eat_word("EXISTS") {
            let p = self.exists_subquery()?;
            return Ok(Expr::Leaf(p));
        }
        let (p, negated) = self.predicate_negatable()?;
        let leaf = Expr::Leaf(p);
        assert(leaf.deep_view() == ExprV::Leaf(p.deep_view()));
        if negated {
            Ok(negation(leaf))
        } else {
            Ok(leaf)
        }
    }
}

// ── WHERE ────────────────────────────────────────────────────────────────

/// The conditions that a tree joins by `AND`, in order.
pub open spec fn flattened(e: ExprV) -> Seq<ExprV>
    decreases e,
{
    match e {
        ExprV::And(parts) => all_flattened(parts),
        other => seq![other],
    }
}

pub open spec fn all_flattened(parts: Seq<ExprV>) -> Seq<ExprV>
    decreases parts,
{
    if parts.len() == 0 {
        Seq::empty()
    } else {
        all_flattened(parts.drop_last()) + flattened(parts.last())
    }
}

/// No `AND` is left at the top of a flattened condition.
pub proof fn flattened_has_no_and(e: ExprV, i: int)
    requires
        0 <= i < flattened(e).len(),
    ensures
        !(flattened(e)[i] is And),
    decreases e,
{
    if let ExprV::And(parts) = e {
        all_flattened_has_no_and(parts, i);
    }
}

proof fn all_flattened_has_no_and(parts: Seq<ExprV>, i: int)
    requires
        0 <= i < all_flattened(parts).len(),
    ensures
        !(all_flattened(parts)[i] is And),
    decreases parts,
{
    let head = all_flattened(parts.drop_last());
    if i < head.len() {
        all_flattened_has_no_and(parts.drop_last(), i);
        assert(all_flattened(parts)[i] == head[i]);
    } else {
        flattened_has_no_and(parts.last(), i - head.len());
        assert(all_flattened(parts)[i] == flattened(parts.last())[i - head.len()]);
    }
}

/// Parentheses around a conjunction change nothing: a nested `AND` flattens to
/// what its parts flatten to.
pub proof fn nesting_changes_nothing(before: Seq<ExprV>, inner: Seq<ExprV>)
    ensures
        flattened(ExprV::And(before.push(ExprV::And(inner)))) == flattened(ExprV::And(before))
            + flattened(ExprV::And(inner)),
{
    assert(before.push(ExprV::And(inner)).drop_last() =~= before);
}

/// The condition of a `WHERE`, as the list of what has to hold.
#[verifier::opaque]
pub open spec fn where_clause(t: Seq<TokenV>, s: int, d: nat) -> Result<
    (Seq<ExprV>, int),
    SqlErrorV,
> {
    match disjunction(t, s, d) {
        Err(e) => Err(e),
        Ok((e, s)) => Ok((flattened(e), s)),
    }
}

/// Adds what a condition joins by `AND`.
pub fn flatten_and(e: Expr, out: &mut Vec<Expr>)
    ensures
        final(out).deep_view() == old(out).deep_view() + flattened(e.deep_view()),
    decreases e,
{
    let ghost start = out.deep_view();
    match e {
        Expr::And(parts) => {
            proof {
                expr_view_parts(parts);
            }
            flatten_all(parts, out);
        },
        other => {
            let ghost view = other.deep_view();
            out.push(other);
            assert(out.deep_view() =~= start + seq![view]);
        },
    }
}

fn flatten_all(parts: Vec<Expr>, out: &mut Vec<Expr>)
    ensures
        final(out).deep_view() == old(out).deep_view() + all_flattened(parts.deep_view()),
    decreases parts,
{
    let ghost all = parts.deep_view();
    let ghost start = out.deep_view();
    let n: usize = parts.len();
    let mut rest = parts;
    let mut i: usize = 0;
    assert(all.take(0) =~= Seq::<ExprV>::empty());
    assert(out.deep_view() =~= start + Seq::<ExprV>::empty());
    while i < n
        invariant
            i <= n,
            n == parts@.len(),
            all == parts.deep_view(),
            rest@ == parts@.skip(i as int),
            start == old(out).deep_view(),
            out.deep_view() == start + all_flattened(all.take(i as int)),
        decreases n - i,
    {
        proof {
            crate::lists::take_next(all, i as int);
            assert(rest@[0] == parts@[i as int]);
            assert(all[i as int] == parts@[i as int].deep_view());
        }
        let part = rest.remove(0);
        assert(rest@ =~= parts@.skip(i as int + 1));
        assert(decreases_to!(parts => parts@[i as int]));
        flatten_and(part, out);
        assert(out.deep_view() =~= start + all_flattened(all.take(i as int + 1)));
        i = i + 1;
    }
    proof {
        crate::lists::take_all(all);
    }
}

impl Parser {
    /// The condition of a `WHERE`.
    pub fn where_clause(&mut self) -> (r: Result<Vec<Expr>, SqlError>)
        requires
            old(self).ok(),
        ensures
            parsed(r, *old(self), *final(self), where_clause(old(self).t(), old(self).s(), old(self).d())),
    {
        proof {
            reveal(where_clause);
        }
        let e = self.disjunction()?;
        let mut out: Vec<Expr> = Vec::new();
        assert(out.deep_view() =~= Seq::<ExprV>::empty());
        flatten_and(e, &mut out);
        assert(Seq::<ExprV>::empty() + flattened(e.deep_view()) =~= flattened(e.deep_view()));
        Ok(out)
    }
}

} // verus!
