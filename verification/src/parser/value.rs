//! Values: literals, casts, comparisons, intervals and the clock, text queries
//! and geometries.

use vstd::prelude::*;
use crate::ast::{
    CmpOp, GeoArg, GeoArgV, Literal, LiteralV, PointArg, PointArgV, ScalarSubquery, ScalarSubqueryV,
    TimeValue, TimeValueV, TsQuery, TsQueryV,
};
use crate::compile::env::KEY_COLUMN;
use crate::debug::{debug_literal, literal_debug};
use crate::error::{SqlError, SqlErrorV, Tier};
use crate::number::{int_bits, nearest_bits, negated, order_real, real_order};
use crate::parser::cursor::{
    ahead, calls, guard_word, here, is_sym, is_word, listed, name, next, parsed, passes, reads, syntax,
    tok, too_deep, want, want_word, word, Parser, MAX_DEPTH,
};
use crate::refuse::{refusal, refuse};
use crate::scan::Order;
use crate::text::{ascii_upper, cat2, cat3, cat5, lower, owned, same, same_letters, upper};
use crate::timestamp::{interval_of, parse_interval};
use crate::token::{tok_text, Sym, Tok, TokV, TokenV};

verus! {

// ── casts ────────────────────────────────────────────────────────────────

/// The types that a cast may name and that change nothing.
pub open spec fn silent_type(w: Seq<char>) -> bool {
    w == "GEOGRAPHY"@ || w == "GEOMETRY"@ || w == "VECTOR"@ || w == "TEXT"@ || w == "FLOAT8"@ || w
        == "DOUBLE"@ || w == "INT"@ || w == "INTEGER"@ || w == "BIGINT"@ || w == "REAL"@
}

/// `::type`, any number of times, read and dropped.
pub open spec fn casts(t: Seq<TokenV>, s: int) -> Result<int, SqlErrorV>
    decreases t.len() - s,
{
    if !is_sym(t, s, Sym::Cast) {
        Ok(s)
    } else {
        match word(t, next(t, s)) {
            None => Err(syntax("expected a type after `::`"@, here(t, next(t, s)))),
            Some(w) => if !silent_type(w) {
                Err(SqlErrorV::Unsupported("cast `::"@ + w + "` has no Tier-1 meaning here"@))
            } else {
                let s1 = next(t, next(t, s));
                match if w == "DOUBLE"@ { want_word(t, s1, "PRECISION"@) } else { Ok(s1) } {
                    Err(e) => Err(e),
                    Ok(s2) => if s < s2 <= t.len() {
                        casts(t, s2)
                    } else {
                        Ok(s2)
                    },
                }
            },
        }
    }
}

fn is_silent(w: &str) -> (r: bool)
    ensures
        r == silent_type(w@),
{
    same(w, "GEOGRAPHY") || same(w, "GEOMETRY") || same(w, "VECTOR") || same(w, "TEXT") || same(
        w,
        "FLOAT8",
    ) || same(w, "DOUBLE") || same(w, "INT") || same(w, "INTEGER") || same(w, "BIGINT") || same(
        w,
        "REAL",
    )
}

impl Parser {
    /// Reads and drops casts.
    pub fn optional_cast(&mut self) -> (r: Result<(), SqlError>)
        requires
            old(self).ok(),
        ensures
            passes(r, *old(self), *final(self), casts(old(self).t(), old(self).s())),
    {
        let ghost t = self.t();
        let ghost start = self.s();
        while self.at_sym(Sym::Cast)
            invariant
                self.ok(),
                self.tokens == old(self).tokens,
                self.refused == old(self).refused,
                self.depth == old(self).depth,
                self.at >= old(self).at,
                t == self.t(),
                start == old(self).s(),
                t == old(self).t(),
                casts(t, start) == casts(t, self.s()),
            decreases self.tokens@.len() - self.at,
        {
            self.skip();
            let at = self.here();
            match self.word() {
                None => {
                    return Err(SqlError::syntax("expected a type after `::`", at));
                },
                Some(w) => {
                    self.skip();
                    if !is_silent(w.as_str()) {
                        return Err(
                            SqlError::unsupported(
                                cat3(
                                    "cast `::",
                                    w.as_str(),
                                    "` has no Tier-1 meaning here",
                                ).as_str(),
                            ),
                        );
                    }
                    if same(w.as_str(), "DOUBLE") {
                        self.expect_word("PRECISION")?;
                    }
                },
            }
        }
        Ok(())
    }
}

// ── literals ─────────────────────────────────────────────────────────────

pub open spec fn not_a_number(l: LiteralV) -> SqlErrorV {
    SqlErrorV::Unsupported("unary minus applies to a number, not to "@ + literal_debug(l))
}

/// A literal with its sign changed.
pub open spec fn minus(l: LiteralV) -> Result<LiteralV, SqlErrorV> {
    match l {
        LiteralV::Num(n, exact) => Ok(LiteralV::Num(negated(n), exact)),
        _ => Err(not_a_number(l)),
    }
}

fn minus_of(l: Literal) -> (r: Result<Literal, SqlError>)
    ensures
        match minus(l.deep_view()) {
            Ok(v) => r is Ok && r->Ok_0.deep_view() == v,
            Err(e) => r is Err && r->Err_0.deep_view() == e,
        },
{
    match l {
        Literal::Num(n, exact) => Ok(Literal::Num(n.negate(), exact)),
        _ => Err(
            SqlError::unsupported(
                cat2(
                    "unary minus applies to a number, not to ",
                    debug_literal(&l).as_str(),
                ).as_str(),
            ),
        ),
    }
}

/// The head of `(SELECT column FROM table WHERE _key = key)`, up to the key.
#[verifier::opaque]
pub open spec fn subquery_head(t: Seq<TokenV>, s: int) -> Result<
    (Seq<char>, Seq<char>, int),
    SqlErrorV,
> {
    match name(t, s) {
        Err(e) => Err(e),
        Ok((column, s)) => match want_word(t, s, "FROM"@) {
            Err(e) => Err(e),
            Ok(s) => match name(t, s) {
                Err(e) => Err(e),
                Ok((table, s)) => match want_word(t, s, "WHERE"@) {
                    Err(e) => Err(e),
                    Ok(s) => match name(t, s) {
                        Err(e) => Err(e),
                        Ok((key_column, s)) => if key_column != KEY_COLUMN@ {
                            Err(
                                SqlErrorV::Unsupported(
                                    "a scalar subquery reads ONE row by key: write `WHERE "@ + KEY_COLUMN@ + " = ...`"@,
                                ),
                            )
                        } else {
                            match want(t, s, Sym::Eq) {
                                Err(e) => Err(e),
                                Ok(s) => Ok((column, table, s)),
                            }
                        },
                    },
                },
            },
        },
    }
}

/// Whether a scalar subquery begins at a place.
pub open spec fn is_subquery(t: Seq<TokenV>, s: int) -> bool {
    is_sym(t, s, Sym::LParen) && is_word(t, ahead(t, s, 1), "SELECT"@)
}

/// A literal of one token.
#[verifier::opaque]
pub open spec fn plain_literal(t: Seq<TokenV>, s: int) -> Result<(LiteralV, int), SqlErrorV> {
    match tok(t, s) {
        TokV::Num(n, exact) => Ok((LiteralV::Num(n, exact), next(t, s))),
        TokV::Str(text) => Ok((LiteralV::Str(text), next(t, s))),
        TokV::Param(n) => Ok((LiteralV::Param(n), next(t, s))),
        TokV::Word(w) => if upper(w) == "NULL"@ {
            Ok((LiteralV::Null, next(t, s)))
        } else if upper(w) == "TRUE"@ {
            Ok((LiteralV::Bool(true), next(t, s)))
        } else if upper(w) == "FALSE"@ {
            Ok((LiteralV::Bool(false), next(t, s)))
        } else {
            match listed(t, s, upper(w)) {
                Some(e) => Err(e),
                None => Err(
                    syntax("expected a literal or a parameter, found `"@ + w + "`"@, here(t, s)),
                ),
            }
        },
        other => Err(
            syntax(
                "expected a literal or a parameter, found `"@ + tok_text(other) + "`"@,
                here(t, s),
            ),
        ),
    }
}

/// A literal: a constant, a parameter, a sign before a number, or a scalar
/// subquery.
pub open spec fn literal(t: Seq<TokenV>, s: int, d: nat) -> Result<(LiteralV, int), SqlErrorV>
    decreases MAX_DEPTH + 1 - d, 1nat,
{
    if d >= MAX_DEPTH {
        Err(too_deep(t, s))
    } else {
        literal_inner(t, s, d + 1)
    }
}

pub open spec fn literal_inner(t: Seq<TokenV>, s: int, d: nat) -> Result<(LiteralV, int), SqlErrorV>
    decreases MAX_DEPTH + 1 - d, 2nat,
{
    if is_sym(t, s, Sym::Minus) {
        match literal(t, next(t, s), d) {
            Err(e) => Err(e),
            Ok((l, s)) => match minus(l) {
                Err(e) => Err(e),
                Ok(l) => Ok((l, s)),
            },
        }
    } else if is_subquery(t, s) {
        match subquery_head(t, next(t, next(t, s))) {
            Err(e) => Err(e),
            Ok((column, table, s)) => match literal(t, s, d) {
                Err(e) => Err(e),
                Ok((key, s)) => match want(t, s, Sym::RParen) {
                    Err(e) => Err(e),
                    Ok(s) => {
                        Ok((LiteralV::Subquery(Box::new(ScalarSubqueryV { column, table, key })), s))
                    }
                },
            },
        }
    } else {
        match plain_literal(t, s) {
            Err(e) => Err(e),
            Ok((l, s)) => match casts(t, s) {
                Err(e) => Err(e),
                Ok(s) => Ok((l, s)),
            },
        }
    }
}

/// Whether reading a literal ends because it nests too deep.
pub open spec fn literal_sinks(t: Seq<TokenV>, s: int, d: nat) -> bool
    decreases MAX_DEPTH + 1 - d, 1nat,
{
    d >= MAX_DEPTH || literal_inner_sinks(t, s, d + 1)
}

pub open spec fn literal_inner_sinks(t: Seq<TokenV>, s: int, d: nat) -> bool
    decreases MAX_DEPTH + 1 - d, 2nat,
{
    if is_sym(t, s, Sym::Minus) {
        literal_sinks(t, next(t, s), d)
    } else if is_subquery(t, s) {
        match subquery_head(t, next(t, next(t, s))) {
            Err(_) => false,
            Ok((_, _, s)) => literal_sinks(t, s, d),
        }
    } else {
        false
    }
}

/// How much deeper the cursor is left behind a literal that could not be read.
pub open spec fn sunk(t: Seq<TokenV>, s: int, d: nat) -> nat {
    if literal_sinks(t, s, d) {
        1
    } else {
        0
    }
}

/// A literal without its casts.
pub open spec fn literal_no_cast(t: Seq<TokenV>, s: int) -> Result<(LiteralV, int), SqlErrorV>
    decreases t.len() - s,
{
    if is_sym(t, s, Sym::Minus) && s < next(t, s) <= t.len() {
        match literal_no_cast(t, next(t, s)) {
            Err(e) => Err(e),
            Ok((l, s)) => match minus(l) {
                Err(e) => Err(e),
                Ok(l) => Ok((l, s)),
            },
        }
    } else {
        match tok(t, s) {
            TokV::Num(n, exact) => Ok((LiteralV::Num(n, exact), next(t, s))),
            TokV::Str(text) => Ok((LiteralV::Str(text), next(t, s))),
            TokV::Param(n) => Ok((LiteralV::Param(n), next(t, s))),
            other => Err(
                syntax("expected a literal, found `"@ + tok_text(other) + "`"@, here(t, s)),
            ),
        }
    }
}

impl Parser {
    fn subquery_head(&mut self) -> (r: Result<(String, String), SqlError>)
        requires
            old(self).ok(),
        ensures
            final(self).tokens == old(self).tokens,
            final(self).refused == old(self).refused,
            final(self).ok(),
            final(self).at >= old(self).at,
            final(self).depth == old(self).depth,
            match subquery_head(old(self).t(), old(self).s()) {
                Ok((column, table, s)) => r is Ok && r->Ok_0.0@ == column && r->Ok_0.1@ == table
                    && final(self).at == s,
                Err(e) => r is Err && r->Err_0.deep_view() == e,
            },
    {
        proof {
            reveal(subquery_head);
        }
        let column = self.name()?;
        self.expect_word("FROM")?;
        let table = self.name()?;
        self.expect_word("WHERE")?;
        let key_column = self.name()?;
        if !same(key_column.as_str(), KEY_COLUMN) {
            return Err(
                SqlError::unsupported(
                    cat3(
                        "a scalar subquery reads ONE row by key: write `WHERE ",
                        KEY_COLUMN,
                        " = ...`",
                    ).as_str(),
                ),
            );
        }
        self.expect(Sym::Eq)?;
        Ok((column, table))
    }

    fn plain_literal(&mut self) -> (r: Result<Literal, SqlError>)
        requires
            old(self).ok(),
        ensures
            reads(r, *old(self), *final(self), plain_literal(old(self).t(), old(self).s())),
    {
        proof {
            reveal(plain_literal);
        }
        let at = self.here();
        match self.peek() {
            Tok::Num(n, exact) => {
                let out = Literal::Num(n.dup(), *exact);
                self.skip();
                Ok(out)
            },
            Tok::Str(text) => {
                let out = Literal::Str(text.clone());
                self.skip();
                Ok(out)
            },
            Tok::Param(n) => {
                let out = Literal::Param(*n);
                self.skip();
                Ok(out)
            },
            Tok::Word(w) => {
                let upper = ascii_upper(w.as_str());
                if same(upper.as_str(), "NULL") {
                    self.skip();
                    Ok(Literal::Null)
                } else if same(upper.as_str(), "TRUE") {
                    self.skip();
                    Ok(Literal::Bool(true))
                } else if same(upper.as_str(), "FALSE") {
                    self.skip();
                    Ok(Literal::Bool(false))
                } else {
                    match self.listed(upper.as_str()) {
                        Some(e) => Err(e),
                        None => Err(
                            SqlError::syntax(
                                cat3(
                                    "expected a literal or a parameter, found `",
                                    w.as_str(),
                                    "`",
                                ).as_str(),
                                at,
                            ),
                        ),
                    }
                }
            },
            other => Err(
                SqlError::syntax(
                    cat3(
                        "expected a literal or a parameter, found `",
                        other.written().as_str(),
                        "`",
                    ).as_str(),
                    at,
                ),
            ),
        }
    }

    /// A literal.
    pub fn literal(&mut self) -> (r: Result<Literal, SqlError>)
        requires
            old(self).ok(),
        ensures
            parsed(r, *old(self), *final(self), literal(old(self).t(), old(self).s(), old(self).d())),
            old(self).depth <= MAX_DEPTH && r is Err ==> final(self).depth == old(self).depth
                + sunk(old(self).t(), old(self).s(), old(self).d()),
            r is Ok ==> !literal_sinks(old(self).t(), old(self).s(), old(self).d()),
        decreases MAX_DEPTH + 1 - old(self).depth, 1nat,
    {
        self.deeper()?;
        let result = self.literal_inner();
        self.shallower();
        result
    }

    fn literal_inner(&mut self) -> (r: Result<Literal, SqlError>)
        requires
            old(self).ok(),
            1 <= old(self).depth <= MAX_DEPTH,
        ensures
            parsed(
                r,
                *old(self),
                *final(self),
                literal_inner(old(self).t(), old(self).s(), old(self).d()),
            ),
            r is Err ==> final(self).depth == old(self).depth + if literal_inner_sinks(
                old(self).t(),
                old(self).s(),
                old(self).d(),
            ) {
                1int
            } else {
                0
            },
            r is Ok ==> !literal_inner_sinks(old(self).t(), old(self).s(), old(self).d()),
        decreases MAX_DEPTH + 1 - old(self).depth, 2nat,
    {
        if self.eat(Sym::Minus) {
            let l = self.literal()?;
            return minus_of(l);
        }
        if self.at_sym(Sym::LParen) && self.word_ahead(1, "SELECT") {
            self.skip();
            self.skip();
            let (column, table) = self.subquery_head()?;
            let key = self.literal()?;
            self.expect(Sym::RParen)?;
            return Ok(Literal::Subquery(Box::new(ScalarSubquery { column, table, key })));
        }
        let l = self.plain_literal()?;
        self.optional_cast()?;
        Ok(l)
    }

    /// A literal without its casts.
    pub fn literal_no_cast(&mut self) -> (r: Result<Literal, SqlError>)
        requires
            old(self).ok(),
        ensures
            reads(r, *old(self), *final(self), literal_no_cast(old(self).t(), old(self).s())),
        decreases old(self).tokens@.len() - old(self).at,
    {
        if self.eat(Sym::Minus) {
            let l = self.literal_no_cast()?;
            return minus_of(l);
        }
        let at = self.here();
        match self.peek() {
            Tok::Num(n, exact) => {
                let out = Literal::Num(n.dup(), *exact);
                self.skip();
                Ok(out)
            },
            Tok::Str(text) => {
                let out = Literal::Str(text.clone());
                self.skip();
                Ok(out)
            },
            Tok::Param(n) => {
                let out = Literal::Param(*n);
                self.skip();
                Ok(out)
            },
            other => Err(
                SqlError::syntax(
                    cat3("expected a literal, found `", other.written().as_str(), "`").as_str(),
                    at,
                ),
            ),
        }
    }
}

// ── comparisons ──────────────────────────────────────────────────────────

/// The comparison that a token is, if it is one.
pub open spec fn comparison_of(x: TokV) -> Option<CmpOp> {
    match x {
        TokV::Sym(Sym::Eq) => Some(CmpOp::Eq),
        TokV::Sym(Sym::Ne) => Some(CmpOp::Ne),
        TokV::Sym(Sym::Lt) => Some(CmpOp::Lt),
        TokV::Sym(Sym::Le) => Some(CmpOp::Le),
        TokV::Sym(Sym::Gt) => Some(CmpOp::Gt),
        TokV::Sym(Sym::Ge) => Some(CmpOp::Ge),
        _ => None,
    }
}

impl Tok {
    /// The comparison that the token is, if it is one.
    pub fn comparison(&self) -> (r: Option<CmpOp>)
        ensures
            r == comparison_of(self.deep_view()),
    {
        match self {
            Tok::Sym(Sym::Eq) => Some(CmpOp::Eq),
            Tok::Sym(Sym::Ne) => Some(CmpOp::Ne),
            Tok::Sym(Sym::Lt) => Some(CmpOp::Lt),
            Tok::Sym(Sym::Le) => Some(CmpOp::Le),
            Tok::Sym(Sym::Gt) => Some(CmpOp::Gt),
            Tok::Sym(Sym::Ge) => Some(CmpOp::Ge),
            _ => None,
        }
    }
}

/// The comparison behind `what`.
#[verifier::opaque]
pub open spec fn comparison(t: Seq<TokenV>, s: int, what: Seq<char>) -> Result<
    (CmpOp, int),
    SqlErrorV,
> {
    match comparison_of(tok(t, s)) {
        Some(op) => Ok((op, next(t, s))),
        None => Err(
            syntax(
                "expected a comparison after `"@ + what + "`, found `"@ + tok_text(tok(t, s))
                    + "`"@,
                here(t, s),
            ),
        ),
    }
}

impl Parser {
    /// The comparison behind `what`.
    pub fn comparison(&mut self, what: &str) -> (r: Result<CmpOp, SqlError>)
        requires
            old(self).ok(),
        ensures
            reads(r, *old(self), *final(self), comparison(old(self).t(), old(self).s(), what@)),
    {
        proof {
            reveal(comparison);
        }
        match self.peek().comparison() {
            Some(op) => {
                self.skip();
                Ok(op)
            },
            None => Err(
                SqlError::syntax(
                    cat5(
                        "expected a comparison after `",
                        what,
                        "`, found `",
                        self.peek().written().as_str(),
                        "`",
                    ).as_str(),
                    self.here(),
                ),
            ),
        }
    }
}

// ── intervals and the clock ──────────────────────────────────────────────

/// `interval '<n> <unit>'`, in microseconds.
#[verifier::opaque]
pub open spec fn interval_micros(t: Seq<TokenV>, s: int) -> Result<(i64, int), SqlErrorV> {
    match want_word(t, s, "INTERVAL"@) {
        Err(e) => Err(e),
        Ok(s) => match tok(t, s) {
            TokV::Str(text) => match interval_of(text) {
                Err(e) => Err(e),
                Ok(n) => Ok((n, next(t, s))),
            },
            other => Err(
                syntax(
                    "interval takes a quoted magnitude, found `"@ + tok_text(other) + "`"@,
                    here(t, s),
                ),
            ),
        },
    }
}

/// The intervals added to the clock and taken from it, on top of `sum`.
pub open spec fn clock_offset(t: Seq<TokenV>, s: int, sum: int) -> Result<(i64, int), SqlErrorV>
    decreases t.len() - s,
{
    if is_sym(t, s, Sym::Minus) || is_sym(t, s, Sym::Plus) {
        match interval_micros(t, next(t, s)) {
            Err(e) => Err(e),
            Ok((n, s2)) => {
                let total = if is_sym(t, s, Sym::Minus) {
                    sum - n
                } else {
                    sum + n
                };
                if !(-i64::MAX <= total <= i64::MAX) {
                    Err(
                        SqlErrorV::Unsupported(
                            "the intervals beside the clock leave the range of 64 bits of microseconds"@,
                        ),
                    )
                } else if s < s2 <= t.len() {
                    clock_offset(t, s2, total)
                } else {
                    Ok((total as i64, s2))
                }
            },
        }
    } else {
        Ok((sum as i64, s))
    }
}

/// The words of the clock; whether only the date is meant.
pub open spec fn clock_head(t: Seq<TokenV>, s: int) -> Result<(Option<bool>, int), SqlErrorV> {
    if calls(t, s, "NOW"@) {
        match want(t, next(t, s), Sym::LParen) {
            Err(e) => Err(e),
            Ok(s) => match want(t, s, Sym::RParen) {
                Err(e) => Err(e),
                Ok(s) => Ok((Some(false), s)),
            },
        }
    } else if is_word(t, s, "CURRENT_TIMESTAMP"@) {
        let s = next(t, s);
        if is_sym(t, s, Sym::LParen) {
            match want(t, next(t, s), Sym::RParen) {
                Err(e) => Err(e),
                Ok(s) => Ok((Some(false), s)),
            }
        } else {
            Ok((Some(false), s))
        }
    } else if is_word(t, s, "CURRENT_DATE"@) {
        Ok((Some(true), next(t, s)))
    } else {
        Ok((None, s))
    }
}

/// `now()`, `current_timestamp` or `current_date`, with the intervals beside
/// it; nothing where the clock does not stand.
#[verifier::opaque]
pub open spec fn clock_value(t: Seq<TokenV>, s: int) -> Result<
    (Option<TimeValueV>, int),
    SqlErrorV,
> {
    match clock_head(t, s) {
        Err(e) => Err(e),
        Ok((head, s)) => match head {
            None => Ok((None, s)),
            Some(date_only) => match clock_offset(t, s, 0) {
                Err(e) => Err(e),
                Ok((offset, s)) => Ok((Some(TimeValueV::Clock { date_only, offset }), s)),
            },
        },
    }
}

impl Parser {
    /// `interval '<n> <unit>'`, in microseconds.
    pub fn interval_micros(&mut self) -> (r: Result<i64, SqlError>)
        requires
            old(self).ok(),
        ensures
            reads(r, *old(self), *final(self), interval_micros(old(self).t(), old(self).s())),
            r is Ok ==> final(self).at > old(self).at,
    {
        proof {
            reveal(interval_micros);
        }
        self.expect_word("INTERVAL")?;
        let at = self.here();
        match self.bump() {
            Tok::Str(text) => parse_interval(text.as_str()),
            other => Err(
                SqlError::syntax(
                    cat3(
                        "interval takes a quoted magnitude, found `",
                        other.written().as_str(),
                        "`",
                    ).as_str(),
                    at,
                ),
            ),
        }
    }

    fn clock_offset(&mut self) -> (r: Result<i64, SqlError>)
        requires
            old(self).ok(),
        ensures
            reads(r, *old(self), *final(self), clock_offset(old(self).t(), old(self).s(), 0)),
            r is Ok ==> r->Ok_0 != i64::MIN,
    {
        let ghost t = self.t();
        let ghost start = self.s();
        let mut sum: i64 = 0;
        loop
            invariant
                self.ok(),
                self.tokens == old(self).tokens,
                self.refused == old(self).refused,
                self.depth == old(self).depth,
                self.at >= old(self).at,
                t == self.t(),
                start == old(self).s(),
                t == old(self).t(),
                sum != i64::MIN,
                clock_offset(t, start, 0) == clock_offset(t, self.s(), sum as int),
            decreases self.tokens@.len() - self.at,
        {
            let minus = self.eat(Sym::Minus);
            if !minus && !self.eat(Sym::Plus) {
                return Ok(sum);
            }
            let n = self.interval_micros()?;
            let total: i128 = if minus {
                (sum as i128) - (n as i128)
            } else {
                (sum as i128) + (n as i128)
            };
            if total < -(i64::MAX as i128) || total > i64::MAX as i128 {
                return Err(
                    SqlError::unsupported(
                        "the intervals beside the clock leave the range of 64 bits of microseconds",
                    ),
                );
            }
            sum = total as i64;
        }
    }

    fn clock_head(&mut self) -> (r: Result<Option<bool>, SqlError>)
        requires
            old(self).ok(),
        ensures
            reads(r, *old(self), *final(self), clock_head(old(self).t(), old(self).s())),
    {
        if self.eat_call("NOW") {
            self.expect(Sym::LParen)?;
            self.expect(Sym::RParen)?;
            return Ok(Some(false));
        }
        if self.eat_word("CURRENT_TIMESTAMP") {
            if self.eat(Sym::LParen) {
                self.expect(Sym::RParen)?;
            }
            return Ok(Some(false));
        }
        if self.eat_word("CURRENT_DATE") {
            return Ok(Some(true));
        }
        Ok(None)
    }

    /// The clock, with the intervals beside it.
    pub fn clock_value(&mut self) -> (r: Result<Option<TimeValue>, SqlError>)
        requires
            old(self).ok(),
        ensures
            reads(r, *old(self), *final(self), clock_value(old(self).t(), old(self).s())),
            r is Ok && r->Ok_0 is None ==> final(self).at == old(self).at,
            r is Ok && r->Ok_0 is Some ==> r->Ok_0->0 is Clock,
    {
        proof {
            reveal(clock_value);
        }
        match self.clock_head()? {
            None => Ok(None),
            Some(date_only) => {
                let offset = self.clock_offset()?;
                Ok(Some(TimeValue::Clock { date_only, offset }))
            },
        }
    }
}

// ── text queries ─────────────────────────────────────────────────────────

/// The text search configuration, which is `'simple'`.
#[verifier::opaque]
pub open spec fn simple_config(t: Seq<TokenV>, s: int) -> Result<int, SqlErrorV> {
    match tok(t, s) {
        TokV::Str(name) => if lower(name) == lower("simple"@) {
            Ok(next(t, s))
        } else {
            Err(
                SqlErrorV::Refused {
                    keyword: "to_tsvector('"@ + name + "', ...)"@,
                    tier: Tier::Three,
                    reason: "QL_CONTRACT §4.6: analyzer v1 is language-neutral; stemming beyond 'simple' has no atomic."@,
                },
            )
        },
        other => Err(
            syntax(
                "expected the text search configuration 'simple', found `"@ + tok_text(other)
                    + "`"@,
                here(t, next(t, s)),
            ),
        ),
    }
}

/// `to_tsvector('simple', column)`.
#[verifier::opaque]
pub open spec fn tsvector(t: Seq<TokenV>, s: int) -> Result<(Seq<char>, int), SqlErrorV> {
    match want_word(t, s, "TO_TSVECTOR"@) {
        Err(e) => Err(e),
        Ok(s) => match want(t, s, Sym::LParen) {
            Err(e) => Err(e),
            Ok(s) => match simple_config(t, s) {
                Err(e) => Err(e),
                Ok(s) => match want(t, s, Sym::Comma) {
                    Err(e) => Err(e),
                    Ok(s) => match name(t, s) {
                        Err(e) => Err(e),
                        Ok((column, s)) => if is_sym(t, s, Sym::Concat) {
                            Err(refusal("||"@))
                        } else {
                            match want(t, s, Sym::RParen) {
                                Err(e) => Err(e),
                                Ok(s) => Ok((column, s)),
                            }
                        },
                    },
                },
            },
        },
    }
}

/// `to_tsquery('simple', query)`.
pub open spec fn tsquery(t: Seq<TokenV>, s: int, d: nat) -> Result<(TsQueryV, int), SqlErrorV> {
    match want_word(t, s, "TO_TSQUERY"@) {
        Err(e) => Err(e),
        Ok(s) => match want(t, s, Sym::LParen) {
            Err(e) => Err(e),
            Ok(s) => match simple_config(t, s) {
                Err(e) => Err(e),
                Ok(s) => match want(t, s, Sym::Comma) {
                    Err(e) => Err(e),
                    Ok(s) => match literal(t, s, d) {
                        Err(e) => Err(e),
                        Ok((source, s)) => match want(t, s, Sym::RParen) {
                            Err(e) => Err(e),
                            Ok(s) => {
                                Ok((TsQueryV { source, tsquery_syntax: true, fuzzy: false }, s))
                            }
                        },
                    },
                },
            },
        },
    }
}

impl Parser {
    /// The text search configuration.
    pub fn simple_config(&mut self) -> (r: Result<(), SqlError>)
        requires
            old(self).ok(),
        ensures
            passes(r, *old(self), *final(self), simple_config(old(self).t(), old(self).s())),
    {
        proof {
            reveal(simple_config);
        }
        match self.bump() {
            Tok::Str(name) => if same_letters(name.as_str(), "simple") {
                Ok(())
            } else {
                Err(
                    SqlError::Refused {
                        keyword: cat3("to_tsvector('", name.as_str(), "', ...)"),
                        tier: Tier::Three,
                        reason: owned(
                            "QL_CONTRACT §4.6: analyzer v1 is language-neutral; stemming beyond 'simple' has no atomic.",
                        ),
                    },
                )
            },
            other => Err(
                SqlError::syntax(
                    cat3(
                        "expected the text search configuration 'simple', found `",
                        other.written().as_str(),
                        "`",
                    ).as_str(),
                    self.here(),
                ),
            ),
        }
    }

    /// `to_tsvector('simple', column)`.
    pub fn tsvector(&mut self) -> (r: Result<String, SqlError>)
        requires
            old(self).ok(),
        ensures
            reads(r, *old(self), *final(self), tsvector(old(self).t(), old(self).s())),
    {
        proof {
            reveal(tsvector);
        }
        self.expect_word("TO_TSVECTOR")?;
        self.expect(Sym::LParen)?;
        self.simple_config()?;
        self.expect(Sym::Comma)?;
        let column = self.name()?;
        if self.at_sym(Sym::Concat) {
            return Err(refuse("||"));
        }
        self.expect(Sym::RParen)?;
        Ok(column)
    }

    /// `to_tsquery('simple', query)`.
    pub fn tsquery(&mut self) -> (r: Result<TsQuery, SqlError>)
        requires
            old(self).ok(),
        ensures
            parsed(r, *old(self), *final(self), tsquery(old(self).t(), old(self).s(), old(self).d())),
    {
        self.expect_word("TO_TSQUERY")?;
        self.expect(Sym::LParen)?;
        self.simple_config()?;
        self.expect(Sym::Comma)?;
        let source = self.literal()?;
        self.expect(Sym::RParen)?;
        Ok(TsQuery { source, tsquery_syntax: true, fuzzy: false })
    }
}

// ── geometries ───────────────────────────────────────────────────────────

/// Whether a token is the number 4326.
pub open spec fn is_wgs84(x: TokV) -> bool {
    x is Num && real_order(x->Num_0.bits, nearest_bits(4326) as u64) == Some(Order::Equal)
}

/// Whether a token is the number 4326.
pub fn wgs84(x: &Tok) -> (r: bool)
    ensures
        r == is_wgs84(x.deep_view()),
{
    match x {
        Tok::Num(n, _) => match order_real(n.bits, int_bits(4326)) {
            Some(o) => o == Order::Equal,
            None => false,
        },
        _ => false,
    }
}

/// `ST_MakePoint(lon, lat)`, behind its name.
#[verifier::opaque]
pub open spec fn point_argument(t: Seq<TokenV>, s: int, d: nat) -> Result<
    (GeoArgV, int),
    SqlErrorV,
> {
    match want(t, s, Sym::LParen) {
        Err(e) => Err(e),
        Ok(s) => match literal(t, s, d) {
            Err(e) => Err(e),
            Ok((lon, s)) => match want(t, s, Sym::Comma) {
                Err(e) => Err(e),
                Ok(s) => match literal(t, s, d) {
                    Err(e) => Err(e),
                    Ok((lat, s)) => match want(t, s, Sym::RParen) {
                        Err(e) => Err(e),
                        Ok(s) => Ok((GeoArgV::Point(PointArgV { lon, lat }), s)),
                    },
                },
            },
        },
    }
}

/// `ST_MakeEnvelope(minlon, minlat, maxlon, maxlat[, 4326])`, behind its name.
#[verifier::opaque]
pub open spec fn envelope_argument(t: Seq<TokenV>, s: int, d: nat) -> Result<
    (GeoArgV, int),
    SqlErrorV,
> {
    match want(t, s, Sym::LParen) {
        Err(e) => Err(e),
        Ok(s) => match literal(t, s, d) {
            Err(e) => Err(e),
            Ok((minlon, s)) => match want(t, s, Sym::Comma) {
                Err(e) => Err(e),
                Ok(s) => match literal(t, s, d) {
                    Err(e) => Err(e),
                    Ok((minlat, s)) => match want(t, s, Sym::Comma) {
                        Err(e) => Err(e),
                        Ok(s) => match literal(t, s, d) {
                            Err(e) => Err(e),
                            Ok((maxlon, s)) => match want(t, s, Sym::Comma) {
                                Err(e) => Err(e),
                                Ok(s) => match literal(t, s, d) {
                                    Err(e) => Err(e),
                                    Ok((maxlat, s)) => if is_sym(t, s, Sym::Comma) && !is_wgs84(tok(t, next(t, s))) {
                                        Err(
                                            SqlErrorV::Unsupported(
                                                "ST_MakeEnvelope(..., "@ + tok_text(tok(t, next(t, s))) + "): storage is WGS84"@,
                                            ),
                                        )
                                    } else {
                                        let s1 = if is_sym(t, s, Sym::Comma) { next(t, next(t, s)) } else { s };
                                        match want(t, s1, Sym::RParen) {
                                            Err(e) => Err(e),
                                            Ok(s) => {
                                                Ok((GeoArgV::Envelope { minlon, minlat, maxlon, maxlat }, s))
                                            }
                                        }
                                    },
                                },
                            },
                        },
                    },
                },
            },
        },
    }
}

/// `ST_GeomFromGeoJSON(json)`, behind its name.
#[verifier::opaque]
pub open spec fn geojson_argument(t: Seq<TokenV>, s: int, d: nat) -> Result<
    (GeoArgV, int),
    SqlErrorV,
> {
    match want(t, s, Sym::LParen) {
        Err(e) => Err(e),
        Ok(s) => match literal(t, s, d) {
            Err(e) => Err(e),
            Ok((json, s)) => match want(t, s, Sym::RParen) {
                Err(e) => Err(e),
                Ok(s) => Ok((GeoArgV::GeoJson(json), s)),
            },
        },
    }
}

/// A geometry.
pub open spec fn geo_argument(t: Seq<TokenV>, s: int, d: nat) -> Result<(GeoArgV, int), SqlErrorV>
    decreases MAX_DEPTH + 1 - d, 1nat,
{
    if d >= MAX_DEPTH {
        Err(too_deep(t, s))
    } else {
        geo_argument_inner(t, s, d + 1)
    }
}

/// `ST_SetSRID(geometry, 4326)`, behind its name.
pub open spec fn srid_argument(t: Seq<TokenV>, s: int, d: nat) -> Result<(GeoArgV, int), SqlErrorV>
    decreases MAX_DEPTH + 1 - d, 2nat,
{
    match want(t, s, Sym::LParen) {
        Err(e) => Err(e),
        Ok(s) => match geo_argument(t, s, d) {
            Err(e) => Err(e),
            Ok((inner, s)) => match want(t, s, Sym::Comma) {
                Err(e) => Err(e),
                Ok(s) => if !is_wgs84(tok(t, s)) {
                    Err(
                        SqlErrorV::Unsupported(
                            "ST_SetSRID(..., "@ + tok_text(tok(t, s))
                                + "): storage is WGS84; ST_Transform is Tier 2"@,
                        ),
                    )
                } else {
                    match want(t, next(t, s), Sym::RParen) {
                        Err(e) => Err(e),
                        Ok(s) => Ok((inner, s)),
                    }
                },
            },
        },
    }
}

pub open spec fn geo_argument_inner(t: Seq<TokenV>, s: int, d: nat) -> Result<
    (GeoArgV, int),
    SqlErrorV,
>
    decreases MAX_DEPTH + 1 - d, 3nat,
{
    match guard_word(t, s) {
        Err(e) => Err(e),
        Ok(s) => match if is_word(t, s, "ST_SETSRID"@) { srid_argument(t, next(t, s), d) } else if is_word(t, s, "ST_MAKEPOINT"@) || is_word(t, s, "ST_POINT"@) { point_argument(t, next(t, s), d) } else if is_word(t, s, "ST_MAKEENVELOPE"@) { envelope_argument(t, next(t, s), d) } else if is_word(t, s, "ST_GEOMFROMGEOJSON"@) { geojson_argument(t, next(t, s), d) } else { match literal(t, s, d) { Err(e) => Err(e), Ok((l, s)) => Ok((GeoArgV::GeoJson(l), s)) } } {
            Err(e) => Err(e),
            Ok((argument, s)) => match casts(t, s) {
                Err(e) => Err(e),
                Ok(s) => Ok((argument, s)),
            },
        },
    }
}

impl Parser {
    fn point_argument(&mut self) -> (r: Result<GeoArg, SqlError>)
        requires
            old(self).ok(),
        ensures
            parsed(
                r,
                *old(self),
                *final(self),
                point_argument(old(self).t(), old(self).s(), old(self).d()),
            ),
    {
        proof {
            reveal(point_argument);
        }
        self.expect(Sym::LParen)?;
        let lon = self.literal()?;
        self.expect(Sym::Comma)?;
        let lat = self.literal()?;
        self.expect(Sym::RParen)?;
        Ok(GeoArg::Point(PointArg { lon, lat }))
    }

    fn envelope_argument(&mut self) -> (r: Result<GeoArg, SqlError>)
        requires
            old(self).ok(),
        ensures
            parsed(
                r,
                *old(self),
                *final(self),
                envelope_argument(old(self).t(), old(self).s(), old(self).d()),
            ),
    {
        proof {
            reveal(envelope_argument);
        }
        self.expect(Sym::LParen)?;
        let minlon = self.literal()?;
        self.expect(Sym::Comma)?;
        let minlat = self.literal()?;
        self.expect(Sym::Comma)?;
        let maxlon = self.literal()?;
        self.expect(Sym::Comma)?;
        let maxlat = self.literal()?;
        if self.eat(Sym::Comma) {
            let srid = self.bump();
            if !wgs84(&srid) {
                return Err(
                    SqlError::unsupported(
                        cat3(
                            "ST_MakeEnvelope(..., ",
                            srid.written().as_str(),
                            "): storage is WGS84",
                        ).as_str(),
                    ),
                );
            }
        }
        self.expect(Sym::RParen)?;
        Ok(GeoArg::Envelope { minlon, minlat, maxlon, maxlat })
    }

    fn geojson_argument(&mut self) -> (r: Result<GeoArg, SqlError>)
        requires
            old(self).ok(),
        ensures
            parsed(
                r,
                *old(self),
                *final(self),
                geojson_argument(old(self).t(), old(self).s(), old(self).d()),
            ),
    {
        proof {
            reveal(geojson_argument);
        }
        self.expect(Sym::LParen)?;
        let json = self.literal()?;
        self.expect(Sym::RParen)?;
        Ok(GeoArg::GeoJson(json))
    }

    /// A geometry.
    pub fn geo_argument(&mut self) -> (r: Result<GeoArg, SqlError>)
        requires
            old(self).ok(),
        ensures
            parsed(
                r,
                *old(self),
                *final(self),
                geo_argument(old(self).t(), old(self).s(), old(self).d()),
            ),
        decreases MAX_DEPTH + 1 - old(self).depth, 1nat,
    {
        self.deeper()?;
        let result = self.geo_argument_inner();
        self.shallower();
        result
    }

    fn srid_argument(&mut self) -> (r: Result<GeoArg, SqlError>)
        requires
            old(self).ok(),
        ensures
            parsed(
                r,
                *old(self),
                *final(self),
                srid_argument(old(self).t(), old(self).s(), old(self).d()),
            ),
        decreases MAX_DEPTH + 1 - old(self).depth, 2nat,
    {
        self.expect(Sym::LParen)?;
        let inner = self.geo_argument()?;
        self.expect(Sym::Comma)?;
        let srid = self.bump();
        if !wgs84(&srid) {
            return Err(
                SqlError::unsupported(
                    cat3(
                        "ST_SetSRID(..., ",
                        srid.written().as_str(),
                        "): storage is WGS84; ST_Transform is Tier 2",
                    ).as_str(),
                ),
            );
        }
        self.expect(Sym::RParen)?;
        Ok(inner)
    }

    fn geo_argument_inner(&mut self) -> (r: Result<GeoArg, SqlError>)
        requires
            old(self).ok(),
            1 <= old(self).depth <= MAX_DEPTH,
        ensures
            parsed(
                r,
                *old(self),
                *final(self),
                geo_argument_inner(old(self).t(), old(self).s(), old(self).d()),
            ),
        decreases MAX_DEPTH + 1 - old(self).depth, 3nat,
    {
        self.guard_word()?;
        let argument = if self.eat_word("ST_SETSRID") {
            self.srid_argument()?
        } else if self.at_word("ST_MAKEPOINT") || self.at_word("ST_POINT") {
            self.skip();
            self.point_argument()?
        } else if self.eat_word("ST_MAKEENVELOPE") {
            self.envelope_argument()?
        } else if self.eat_word("ST_GEOMFROMGEOJSON") {
            self.geojson_argument()?
        } else {
            GeoArg::GeoJson(self.literal()?)
        };
        self.optional_cast()?;
        Ok(argument)
    }
}

// ── lists ────────────────────────────────────────────────────────────────

/// Literals between commas, behind those of `done`.
pub open spec fn literals(t: Seq<TokenV>, s: int, d: nat, done: Seq<LiteralV>) -> Result<
    (Seq<LiteralV>, int),
    SqlErrorV,
>
    decreases t.len() - s,
{
    match literal(t, s, d) {
        Err(e) => Err(e),
        Ok((x, s2)) => if is_sym(t, s2, Sym::Comma) && s < next(t, s2) <= t.len() {
            literals(t, next(t, s2), d, done.push(x))
        } else {
            Ok((done.push(x), s2))
        },
    }
}

/// Two literals with `AND` between them.
#[verifier::opaque]
pub open spec fn literal_pair(t: Seq<TokenV>, s: int, d: nat) -> Result<
    ((LiteralV, LiteralV), int),
    SqlErrorV,
> {
    match literal(t, s, d) {
        Err(e) => Err(e),
        Ok((lower, s)) => match want_word(t, s, "AND"@) {
            Err(e) => Err(e),
            Ok(s) => match literal(t, s, d) {
                Err(e) => Err(e),
                Ok((upper, s)) => Ok(((lower, upper), s)),
            },
        },
    }
}

/// A quoted member name, behind `->>`.
#[verifier::opaque]
pub open spec fn json_member(t: Seq<TokenV>, s: int) -> Result<(Seq<char>, int), SqlErrorV> {
    match tok(t, s) {
        TokV::Str(text) => Ok((text, next(t, s))),
        other => Err(
            syntax("`->>` takes a quoted member, found `"@ + tok_text(other) + "`"@, here(t, s)),
        ),
    }
}

impl Parser {
    /// Literals between commas.
    pub fn literals(&mut self) -> (r: Result<Vec<Literal>, SqlError>)
        requires
            old(self).ok(),
        ensures
            parsed(
                r,
                *old(self),
                *final(self),
                literals(old(self).t(), old(self).s(), old(self).d(), Seq::empty()),
            ),
            r is Ok ==> r->Ok_0@.len() > 0,
    {
        let ghost t = self.t();
        let ghost d = self.d();
        let ghost start = self.s();
        let mut list: Vec<Literal> = Vec::new();
        assert(list.deep_view() =~= Seq::<LiteralV>::empty());
        loop
            invariant
                self.ok(),
                self.tokens == old(self).tokens,
                self.refused == old(self).refused,
                self.depth == old(self).depth,
                self.at >= old(self).at,
                t == self.t(),
                t == old(self).t(),
                d == old(self).d(),
                start == old(self).s(),
                literals(t, start, d, Seq::empty()) == literals(t, self.s(), d, list.deep_view()),
            decreases self.tokens@.len() - self.at,
        {
            let x = self.literal()?;
            let ghost before = list.deep_view();
            list.push(x);
            assert(list.deep_view() =~= before.push(x.deep_view()));
            if !self.eat(Sym::Comma) {
                return Ok(list);
            }
        }
    }

    /// Two literals with `AND` between them.
    pub fn literal_pair(&mut self) -> (r: Result<(Literal, Literal), SqlError>)
        requires
            old(self).ok(),
        ensures
            parsed(
                r,
                *old(self),
                *final(self),
                literal_pair(old(self).t(), old(self).s(), old(self).d()),
            ),
    {
        proof {
            reveal(literal_pair);
        }
        let lower = self.literal()?;
        self.expect_word("AND")?;
        let upper = self.literal()?;
        Ok((lower, upper))
    }

    /// A quoted member name, behind `->>`.
    pub fn json_member(&mut self) -> (r: Result<String, SqlError>)
        requires
            old(self).ok(),
        ensures
            reads(r, *old(self), *final(self), json_member(old(self).t(), old(self).s())),
    {
        proof {
            reveal(json_member);
        }
        let at = self.here();
        match self.bump() {
            Tok::Str(text) => Ok(text),
            other => Err(
                SqlError::syntax(
                    cat3(
                        "`->>` takes a quoted member, found `",
                        other.written().as_str(),
                        "`",
                    ).as_str(),
                    at,
                ),
            ),
        }
    }
}

} // verus!
