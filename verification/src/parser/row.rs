//! Row expressions: one row in, one value out.

use vstd::prelude::*;
use crate::ast::{row_expr_view_args, RowExpr, RowExprV, StrFunc, TimeUnit, TimeValue, TimeValueV};
use crate::error::{SqlError, SqlErrorV};
use crate::calendar::unit_truncates;
use crate::instant::unit_named;
use crate::parser::cursor::{
    ahead, guard_word, here, is_sym, is_word, listed, name, next, parsed, reads, syntax, tok,
    too_deep, want, want_word, word, Parser, MAX_DEPTH,
};
use crate::parser::value::{clock_value, interval_micros, literal_no_cast};
use crate::text::{ascii_upper, cat3, same, upper};
use crate::token::{tok_text, Sym, Tok, TokV, TokenV};

verus! {

// ── which words are calls ────────────────────────────────────────────────

/// The names of the functions over one row.
pub open spec fn row_function_name(w: Seq<char>) -> bool {
    w == "EXTRACT"@ || w == "DATE_TRUNC"@ || w == "NOW"@ || w == "CURRENT_DATE"@ || w
        == "CURRENT_TIMESTAMP"@ || w == "INTERVAL"@ || w == "AGE"@ || w == "TO_CHAR"@ || w
        == "TO_TIMESTAMP"@ || w == "TO_DATE"@ || w == "LOWER"@ || w == "UPPER"@ || w == "LENGTH"@
        || w == "CHAR_LENGTH"@ || w == "CONCAT"@ || w == "SUBSTRING"@ || w == "SUBSTR"@ || w
        == "LEFT"@ || w == "RIGHT"@ || w == "TRIM"@ || w == "BTRIM"@ || w == "SPLIT_PART"@ || w
        == "REPLACE"@ || w == "POSITION"@ || w == "STRPOS"@ || w == "STARTS_WITH"@
}

fn is_row_function(w: &str) -> (r: bool)
    ensures
        r == row_function_name(w@),
{
    same(w, "EXTRACT") || same(w, "DATE_TRUNC") || same(w, "NOW") || same(w, "CURRENT_DATE")
        || same(w, "CURRENT_TIMESTAMP") || same(w, "INTERVAL") || same(w, "AGE") || same(
        w,
        "TO_CHAR",
    ) || same(w, "TO_TIMESTAMP") || same(w, "TO_DATE") || same(w, "LOWER") || same(w, "UPPER")
        || same(w, "LENGTH") || same(w, "CHAR_LENGTH") || same(w, "CONCAT") || same(w, "SUBSTRING")
        || same(w, "SUBSTR") || same(w, "LEFT") || same(w, "RIGHT") || same(w, "TRIM") || same(
        w,
        "BTRIM",
    ) || same(w, "SPLIT_PART") || same(w, "REPLACE") || same(w, "POSITION") || same(w, "STRPOS")
        || same(w, "STARTS_WITH")
}

/// Whether the word `k` tokens ahead is a call and not a column of the same
/// name: a call has a parenthesis, but for the three forms written without.
pub open spec fn row_function_at(t: Seq<TokenV>, s: int, w: Seq<char>, k: int) -> bool {
    w == "CURRENT_DATE"@ || w == "CURRENT_TIMESTAMP"@ || w == "INTERVAL"@ || (row_function_name(w)
        && is_sym(t, ahead(t, s, k + 1), Sym::LParen))
}

/// Whether a call stands at a place.
pub open spec fn at_row_function(t: Seq<TokenV>, s: int) -> bool {
    match word(t, s) {
        None => false,
        Some(w) => w == "CURRENT_DATE"@ || w == "CURRENT_TIMESTAMP"@ || (row_function_name(w)
            && is_sym(t, ahead(t, s, 1), Sym::LParen)),
    }
}

/// Whether the item of a select list that begins at `s` holds a call, a `||`
/// or a cast, from `k` tokens ahead on and `deep` parentheses deep.
pub open spec fn row_expression_from(t: Seq<TokenV>, s: int, k: nat, deep: nat) -> bool
    decreases t.len() - s - k,
{
    if s + k >= t.len() {
        false
    } else {
        match tok(t, ahead(t, s, k as int)) {
            TokV::Eof => false,
            TokV::Sym(Sym::LParen) => row_expression_from(t, s, k + 1, deep + 1),
            TokV::Sym(Sym::RParen) => deep > 0 && row_expression_from(
                t,
                s,
                k + 1,
                (deep - 1) as nat,
            ),
            TokV::Sym(Sym::Comma) => deep > 0 && row_expression_from(t, s, k + 1, deep),
            TokV::Sym(Sym::Concat) => true,
            TokV::Sym(Sym::Cast) => true,
            TokV::Word(w) => if deep == 0 && (upper(w) == "AS"@ || upper(w) == "FROM"@) {
                false
            } else {
                row_function_at(t, s, upper(w), k as int) || row_expression_from(t, s, k + 1, deep)
            },
            _ => row_expression_from(t, s, k + 1, deep),
        }
    }
}

impl Parser {
    fn row_function_at(&self, w: &str, k: usize) -> (r: bool)
        requires
            self.ok(),
            k < usize::MAX,
        ensures
            r == row_function_at(self.t(), self.s(), w@, k as int),
    {
        if same(w, "CURRENT_DATE") || same(w, "CURRENT_TIMESTAMP") || same(w, "INTERVAL") {
            return true;
        }
        is_row_function(w) && self.sym_ahead(k + 1, Sym::LParen)
    }

    /// Whether the cursor stands on a call.
    pub fn at_row_function(&self) -> (r: bool)
        requires
            self.ok(),
        ensures
            r == at_row_function(self.t(), self.s()),
    {
        match self.word() {
            None => false,
            Some(w) => {
                let w = w.as_str();
                same(w, "CURRENT_DATE") || same(w, "CURRENT_TIMESTAMP") || (is_row_function(w)
                    && self.sym_ahead(1, Sym::LParen))
            },
        }
    }

    /// Whether the item at the cursor holds a call, a `||` or a cast.
    pub fn row_expression_ahead(&self) -> (r: bool)
        requires
            self.ok(),
        ensures
            r == row_expression_from(self.t(), self.s(), 0, 0),
    {
        let n: usize = self.tokens.len();
        let mut deep: usize = 0;
        let mut k: usize = 0;
        while k < n - self.at
            invariant
                self.ok(),
                n == self.tokens@.len(),
                k <= n - self.at,
                deep <= k,
                row_expression_from(self.t(), self.s(), 0, 0) == row_expression_from(
                    self.t(),
                    self.s(),
                    k as nat,
                    deep as nat,
                ),
            decreases n - self.at - k,
        {
            match self.peek_at(k) {
                Tok::Eof => {
                    return false;
                },
                Tok::Sym(Sym::LParen) => {
                    deep = deep + 1;
                },
                Tok::Sym(Sym::RParen) => {
                    if deep == 0 {
                        return false;
                    }
                    deep = deep - 1;
                },
                Tok::Sym(Sym::Comma) => {
                    if deep == 0 {
                        return false;
                    }
                },
                Tok::Sym(Sym::Concat) => {
                    return true;
                },
                Tok::Sym(Sym::Cast) => {
                    return true;
                },
                Tok::Word(w) => {
                    let upper = ascii_upper(w.as_str());
                    if deep == 0 && (same(upper.as_str(), "AS") || same(upper.as_str(), "FROM")) {
                        return false;
                    }
                    if self.row_function_at(upper.as_str(), k) {
                        return true;
                    }
                },
                _ => {},
            }
            k = k + 1;
        }
        false
    }
}

// ── casts ────────────────────────────────────────────────────────────────

/// An expression behind a cast to a type; nothing where the type has no
/// meaning in a row expression.
pub open spec fn cast_row(w: Seq<char>, e: RowExprV) -> Option<RowExprV> {
    if w == "DATE"@ {
        Some(RowExprV::CastDate(Box::new(e)))
    } else if w == "TEXT"@ || w == "VARCHAR"@ {
        Some(RowExprV::CastText(Box::new(e)))
    } else if w == "TIMESTAMPTZ"@ || w == "TIMESTAMP"@ || w == "INT"@ || w == "INTEGER"@ || w
        == "BIGINT"@ || w == "REAL"@ || w == "FLOAT8"@ || w == "DOUBLE"@ || w == "GEOGRAPHY"@ || w
        == "GEOMETRY"@ || w == "VECTOR"@ {
        Some(e)
    } else {
        None
    }
}

/// The casts behind an expression.
pub open spec fn row_casts(t: Seq<TokenV>, s: int, e: RowExprV) -> Result<
    (RowExprV, int),
    SqlErrorV,
>
    decreases t.len() - s,
{
    if !is_sym(t, s, Sym::Cast) {
        Ok((e, s))
    } else {
        match word(t, next(t, s)) {
            None => Err(syntax("expected a type after `::`"@, here(t, s))),
            Some(w) => match cast_row(w, e) {
                None => Err(
                    SqlErrorV::Unsupported(
                        "cast `::"@ + w + "` has no Tier-1 meaning in a row expression"@,
                    ),
                ),
                Some(e) => {
                    let s1 = next(t, next(t, s));
                    match if w == "DOUBLE"@ { want_word(t, s1, "PRECISION"@) } else { Ok(s1) } {
                        Err(e) => Err(e),
                        Ok(s2) => if s < s2 <= t.len() {
                            row_casts(t, s2, e)
                        } else {
                            Ok((e, s2))
                        },
                    }
                },
            },
        }
    }
}

fn cast_of(w: &str, e: RowExpr) -> (r: Option<RowExpr>)
    ensures
        r.deep_view() == cast_row(w@, e.deep_view()),
{
    if same(w, "DATE") {
        Some(RowExpr::CastDate(Box::new(e)))
    } else if same(w, "TEXT") || same(w, "VARCHAR") {
        Some(RowExpr::CastText(Box::new(e)))
    } else if same(w, "TIMESTAMPTZ") || same(w, "TIMESTAMP") || same(w, "INT") || same(
        w,
        "INTEGER",
    ) || same(w, "BIGINT") || same(w, "REAL") || same(w, "FLOAT8") || same(w, "DOUBLE") || same(
        w,
        "GEOGRAPHY",
    ) || same(w, "GEOMETRY") || same(w, "VECTOR") {
        Some(e)
    } else {
        None
    }
}

impl Parser {
    /// The casts behind an expression.
    pub fn row_casts(&mut self, e: RowExpr) -> (r: Result<RowExpr, SqlError>)
        requires
            old(self).ok(),
        ensures
            reads(
                r,
                *old(self),
                *final(self),
                row_casts(old(self).t(), old(self).s(), e.deep_view()),
            ),
    {
        let ghost t = self.t();
        let ghost start = self.s();
        let ghost first = e.deep_view();
        let mut out = e;
        while self.at_sym(Sym::Cast)
            invariant
                self.ok(),
                self.tokens == old(self).tokens,
                self.refused == old(self).refused,
                self.depth == old(self).depth,
                self.at >= old(self).at,
                t == self.t(),
                start == old(self).s(),
                t == old(self).t(),
                first == e.deep_view(),
                row_casts(t, start, first) == row_casts(t, self.s(), out.deep_view()),
            decreases self.tokens@.len() - self.at,
        {
            let at = self.here();
            self.skip();
            match self.word() {
                None => {
                    return Err(SqlError::syntax("expected a type after `::`", at));
                },
                Some(w) => {
                    self.skip();
                    match cast_of(w.as_str(), out) {
                        None => {
                            return Err(
                                SqlError::unsupported(
                                    cat3(
                                        "cast `::",
                                        w.as_str(),
                                        "` has no Tier-1 meaning in a row expression",
                                    ).as_str(),
                                ),
                            );
                        },
                        Some(cast) => {
                            out = cast;
                        },
                    }
                    if same(w.as_str(), "DOUBLE") {
                        self.expect_word("PRECISION")?;
                    }
                },
            }
        }
        Ok(out)
    }
}

// ── units ────────────────────────────────────────────────────────────────

/// The field of `EXTRACT`.
#[verifier::opaque]
pub open spec fn extract_unit(t: Seq<TokenV>, s: int) -> Result<(TimeUnit, int), SqlErrorV> {
    match tok(t, s) {
        TokV::Word(w) | TokV::Str(w) => match unit_named(w) {
            Some(unit) => Ok((unit, next(t, s))),
            None => Err(
                SqlErrorV::Unsupported(
                    "EXTRACT("@ + w
                        + " FROM t): QL_CONTRACT §4.2 names YEAR, MONTH, DAY, DOW, HOUR, MINUTE, SECOND and EPOCH"@,
                ),
            ),
        },
        other => Err(
            syntax("expected an EXTRACT field, found `"@ + tok_text(other) + "`"@, here(t, s)),
        ),
    }
}

pub open spec fn no_trunc_unit(text: Seq<char>) -> SqlErrorV {
    SqlErrorV::Unsupported(
        "date_trunc('"@ + text
            + "', t): QL_CONTRACT §4.2 names year, month, day, hour, minute and second"@,
    )
}

/// The quoted unit of `date_trunc`, which may be any field.
#[verifier::opaque]
pub open spec fn trunc_unit(t: Seq<TokenV>, s: int) -> Result<(TimeUnit, int), SqlErrorV> {
    match tok(t, s) {
        TokV::Str(text) => match unit_named(text) {
            Some(unit) => Ok((unit, next(t, s))),
            None => Err(no_trunc_unit(text)),
        },
        other => Err(
            syntax("date_trunc takes a quoted unit, found `"@ + tok_text(other) + "`"@, here(t, s)),
        ),
    }
}

impl Parser {
    fn named_unit(&mut self, w: String) -> (r: Result<TimeUnit, SqlError>)
        requires
            old(self).ok(),
            tok(old(self).t(), old(self).s()) == TokV::Word(w@) || tok(
                old(self).t(),
                old(self).s(),
            ) == TokV::Str(w@),
        ensures
            reads(r, *old(self), *final(self), extract_unit(old(self).t(), old(self).s())),
    {
        proof {
            reveal(extract_unit);
        }
        self.skip();
        match TimeUnit::parse(w.as_str()) {
            Some(unit) => Ok(unit),
            None => Err(
                SqlError::unsupported(
                    cat3(
                        "EXTRACT(",
                        w.as_str(),
                        " FROM t): QL_CONTRACT §4.2 names YEAR, MONTH, DAY, DOW, HOUR, MINUTE, SECOND and EPOCH",
                    ).as_str(),
                ),
            ),
        }
    }

    /// The field of `EXTRACT`.
    pub fn extract_unit(&mut self) -> (r: Result<TimeUnit, SqlError>)
        requires
            old(self).ok(),
        ensures
            reads(r, *old(self), *final(self), extract_unit(old(self).t(), old(self).s())),
    {
        proof {
            reveal(extract_unit);
        }
        let at = self.here();
        match self.peek() {
            Tok::Word(w) => {
                let w = w.clone();
                self.named_unit(w)
            },
            Tok::Str(w) => {
                let w = w.clone();
                self.named_unit(w)
            },
            other => Err(
                SqlError::syntax(
                    cat3("expected an EXTRACT field, found `", other.written().as_str(), "`").as_str(),
                    at,
                ),
            ),
        }
    }

    /// The quoted unit of `date_trunc`.
    pub fn trunc_unit(&mut self) -> (r: Result<TimeUnit, SqlError>)
        requires
            old(self).ok(),
        ensures
            reads(r, *old(self), *final(self), trunc_unit(old(self).t(), old(self).s())),
    {
        proof {
            reveal(trunc_unit);
        }
        let at = self.here();
        match self.bump() {
            Tok::Str(text) => match TimeUnit::parse(text.as_str()) {
                Some(unit) => Ok(unit),
                None => Err(
                    SqlError::unsupported(
                        cat3(
                            "date_trunc('",
                            text.as_str(),
                            "', t): QL_CONTRACT §4.2 names year, month, day, hour, minute and second",
                        ).as_str(),
                    ),
                ),
            },
            other => Err(
                SqlError::syntax(
                    cat3(
                        "date_trunc takes a quoted unit, found `",
                        other.written().as_str(),
                        "`",
                    ).as_str(),
                    at,
                ),
            ),
        }
    }
}

// ── expressions ──────────────────────────────────────────────────────────

/// A row expression.
pub open spec fn row_expr(t: Seq<TokenV>, s: int, d: nat) -> Result<(RowExprV, int), SqlErrorV>
    decreases MAX_DEPTH + 1 - d, 0nat, 0int,
{
    if d >= MAX_DEPTH {
        Err(too_deep(t, s))
    } else {
        row_expr_inner(t, s, d + 1)
    }
}

/// An atom, and the `+`, `-` and `||` behind it.
pub open spec fn row_expr_inner(t: Seq<TokenV>, s: int, d: nat) -> Result<
    (RowExprV, int),
    SqlErrorV,
>
    decreases MAX_DEPTH + 1 - d, 7nat, 0int,
{
    match row_atom(t, s, d) {
        Err(e) => Err(e),
        Ok((left, s)) => row_tail(t, s, d, left),
    }
}

/// Two expressions under the operator that a token is, if it is one.
pub open spec fn row_joined(x: TokV, left: RowExprV, right: RowExprV) -> Option<RowExprV> {
    match x {
        TokV::Sym(Sym::Plus) => Some(RowExprV::Add(Box::new(left), Box::new(right))),
        TokV::Sym(Sym::Minus) => Some(RowExprV::Sub(Box::new(left), Box::new(right))),
        TokV::Sym(Sym::Concat) => Some(RowExprV::Concat(Box::new(left), Box::new(right))),
        _ => None,
    }
}

/// The operators and atoms behind `left`; they group to the left.
pub open spec fn row_tail(t: Seq<TokenV>, s: int, d: nat, left: RowExprV) -> Result<
    (RowExprV, int),
    SqlErrorV,
>
    decreases MAX_DEPTH + 1 - d, 6nat, t.len() - s,
{
    if !is_sym(t, s, Sym::Plus) && !is_sym(t, s, Sym::Minus) && !is_sym(t, s, Sym::Concat) {
        Ok((left, s))
    } else {
        match row_atom(t, next(t, s), d) {
            Err(e) => Err(e),
            Ok((right, s2)) => if s < s2 <= t.len() {
                row_tail(t, s2, d, row_joined(tok(t, s), left, right)->0)
            } else {
                Ok((row_joined(tok(t, s), left, right)->0, s2))
            },
        }
    }
}

/// The clock, as a row expression.
pub open spec fn clock_row(date_only: bool, offset: i64) -> RowExprV {
    let clock = if date_only {
        RowExprV::CurrentDate
    } else {
        RowExprV::Now
    };
    if offset == 0 {
        clock
    } else {
        RowExprV::Add(Box::new(clock), Box::new(RowExprV::Interval(offset)))
    }
}

/// A literal, the clock, an interval, a call, a column or an expression in
/// parentheses, with its casts.
pub open spec fn row_atom(t: Seq<TokenV>, s: int, d: nat) -> Result<(RowExprV, int), SqlErrorV>
    decreases MAX_DEPTH + 1 - d, 5nat, 0int,
{
    if is_sym(t, s, Sym::LParen) {
        match row_expr(t, next(t, s), d) {
            Err(e) => Err(e),
            Ok((inner, s)) => match want(t, s, Sym::RParen) {
                Err(e) => Err(e),
                Ok(s) => row_casts(t, s, inner),
            },
        }
    } else if tok(t, s) is Num || tok(t, s) is Str || tok(t, s) is Param || is_sym(
        t,
        s,
        Sym::Minus,
    ) {
        match literal_no_cast(t, s) {
            Err(e) => Err(e),
            Ok((l, s)) => row_casts(t, s, RowExprV::Lit(l)),
        }
    } else if word(t, s) is None {
        Err(syntax("expected a value, found `"@ + tok_text(tok(t, s)) + "`"@, here(t, s)))
    } else if is_word(t, s, "INTERVAL"@) {
        match interval_micros(t, s) {
            Err(e) => Err(e),
            Ok((n, s)) => Ok((RowExprV::Interval(n), s)),
        }
    } else {
        match clock_value(t, s) {
            Err(e) => Err(e),
            Ok((clock, s)) => match clock {
                Some(TimeValueV::Clock { date_only, offset }) => row_casts(
                    t,
                    s,
                    clock_row(date_only, offset),
                ),
                _ => row_word(t, s, d),
            },
        }
    }
}

/// A call or a column, with its casts.
pub open spec fn row_word(t: Seq<TokenV>, s: int, d: nat) -> Result<(RowExprV, int), SqlErrorV>
    decreases MAX_DEPTH + 1 - d, 4nat, 0int,
{
    match row_call(t, s, d) {
        Err(e) => Err(e),
        Ok((e, s)) => row_casts(t, s, e),
    }
}

/// The string function of a name.
pub open spec fn string_named(w: Seq<char>) -> Option<StrFunc> {
    if w == "LOWER"@ {
        Some(StrFunc::Lower)
    } else if w == "UPPER"@ {
        Some(StrFunc::Upper)
    } else if w == "LENGTH"@ || w == "CHAR_LENGTH"@ {
        Some(StrFunc::Length)
    } else if w == "CONCAT"@ {
        Some(StrFunc::Concat)
    } else if w == "LEFT"@ {
        Some(StrFunc::Left)
    } else if w == "RIGHT"@ {
        Some(StrFunc::Right)
    } else if w == "SPLIT_PART"@ {
        Some(StrFunc::SplitPart)
    } else if w == "REPLACE"@ {
        Some(StrFunc::Replace)
    } else if w == "STARTS_WITH"@ {
        Some(StrFunc::StartsWith)
    } else {
        None
    }
}

/// A call or a column: a call has a parenthesis, and a column may go by the name
/// of a function.
pub open spec fn row_call(t: Seq<TokenV>, s: int, d: nat) -> Result<(RowExprV, int), SqlErrorV>
    decreases MAX_DEPTH + 1 - d, 3nat, 0int,
{
    if !is_sym(t, ahead(t, s, 1), Sym::LParen) {
        row_column(t, s)
    } else if is_word(t, s, "EXTRACT"@) {
        extract_call(t, next(t, s), d)
    } else if is_word(t, s, "DATE_TRUNC"@) {
        trunc_call(t, next(t, s), d)
    } else if is_word(t, s, "AGE"@) {
        age_call(t, next(t, s), d)
    } else if is_word(t, s, "TO_CHAR"@) {
        to_char_call(t, next(t, s), d)
    } else if is_word(t, s, "TO_TIMESTAMP"@) {
        match one_argument(t, next(t, s), d) {
            Err(e) => Err(e),
            Ok((arg, s)) => Ok((RowExprV::ToTimestamp(Box::new(arg)), s)),
        }
    } else if is_word(t, s, "TO_DATE"@) {
        to_date_call(t, next(t, s), d)
    } else if is_word(t, s, "POSITION"@) {
        position_call(t, next(t, s), d)
    } else if is_word(t, s, "STRPOS"@) {
        strpos_call(t, next(t, s), d)
    } else if is_word(t, s, "SUBSTRING"@) || is_word(t, s, "SUBSTR"@) {
        substring_call(t, next(t, s), d)
    } else if is_word(t, s, "TRIM"@) || is_word(t, s, "BTRIM"@) {
        trim_call(t, next(t, s), d)
    } else {
        match string_named(word(t, s)->0) {
            Some(func) => string_call(t, next(t, s), d, func),
            None => row_column(t, s),
        }
    }
}

/// A column; a name with a parenthesis behind it is a function that there is
/// not.
#[verifier::opaque]
pub open spec fn row_column(t: Seq<TokenV>, s: int) -> Result<(RowExprV, int), SqlErrorV> {
    if is_sym(t, ahead(t, s, 1), Sym::LParen) {
        let w = word(t, s)->0;
        Err(
            match listed(t, s, w) {
                Some(e) => e,
                None => SqlErrorV::Unsupported(
                    "function `"@ + w + "` is not in QL_CONTRACT §4.1 or §4.2"@,
                ),
            },
        )
    } else {
        match guard_word(t, s) {
            Err(e) => Err(e),
            Ok(s) => match name(t, s) {
                Err(e) => Err(e),
                Ok((column, s)) => Ok((RowExprV::Column(column), s)),
            },
        }
    }
}

/// `(argument)`.
pub open spec fn one_argument(t: Seq<TokenV>, s: int, d: nat) -> Result<(RowExprV, int), SqlErrorV>
    decreases MAX_DEPTH + 1 - d, 1nat, 0int,
{
    match want(t, s, Sym::LParen) {
        Err(e) => Err(e),
        Ok(s) => match row_expr(t, s, d) {
            Err(e) => Err(e),
            Ok((arg, s)) => match want(t, s, Sym::RParen) {
                Err(e) => Err(e),
                Ok(s) => Ok((arg, s)),
            },
        },
    }
}

/// `EXTRACT(unit FROM argument)`, behind its name.
pub open spec fn extract_call(t: Seq<TokenV>, s: int, d: nat) -> Result<(RowExprV, int), SqlErrorV>
    decreases MAX_DEPTH + 1 - d, 2nat, 0int,
{
    match want(t, s, Sym::LParen) {
        Err(e) => Err(e),
        Ok(s) => match extract_unit(t, s) {
            Err(e) => Err(e),
            Ok((unit, s)) => match want_word(t, s, "FROM"@) {
                Err(e) => Err(e),
                Ok(s) => match row_expr(t, s, d) {
                    Err(e) => Err(e),
                    Ok((arg, s)) => match want(t, s, Sym::RParen) {
                        Err(e) => Err(e),
                        Ok(s) => Ok((RowExprV::Extract { unit, arg: Box::new(arg) }, s)),
                    },
                },
            },
        },
    }
}

/// `date_trunc('unit', argument)`, behind its name.
pub open spec fn trunc_call(t: Seq<TokenV>, s: int, d: nat) -> Result<(RowExprV, int), SqlErrorV>
    decreases MAX_DEPTH + 1 - d, 2nat, 0int,
{
    match want(t, s, Sym::LParen) {
        Err(e) => Err(e),
        Ok(s) => match trunc_unit(t, s) {
            Err(e) => Err(e),
            Ok((unit, s1)) => if !unit_truncates(unit) {
                Err(no_trunc_unit(tok(t, s)->Str_0))
            } else {
                match want(t, s1, Sym::Comma) {
                    Err(e) => Err(e),
                    Ok(s) => match row_expr(t, s, d) {
                        Err(e) => Err(e),
                        Ok((arg, s)) => match want(t, s, Sym::RParen) {
                            Err(e) => Err(e),
                            Ok(s) => Ok((RowExprV::Trunc { unit, arg: Box::new(arg) }, s)),
                        },
                    },
                }
            },
        },
    }
}

/// `age(left[, right])`, behind its name.
pub open spec fn age_call(t: Seq<TokenV>, s: int, d: nat) -> Result<(RowExprV, int), SqlErrorV>
    decreases MAX_DEPTH + 1 - d, 2nat, 0int,
{
    match want(t, s, Sym::LParen) {
        Err(e) => Err(e),
        Ok(s) => match row_expr(t, s, d) {
            Err(e) => Err(e),
            Ok((left, s)) => if is_sym(t, s, Sym::Comma) {
                match row_expr(t, next(t, s), d) {
                    Err(e) => Err(e),
                    Ok((right, s)) => match want(t, s, Sym::RParen) {
                        Err(e) => Err(e),
                        Ok(s) => {
                            Ok((RowExprV::Age { left: Box::new(left), right: Some(Box::new(right)) }, s))
                        }
                    },
                }
            } else {
                match want(t, s, Sym::RParen) {
                    Err(e) => Err(e),
                    Ok(s) => Ok((RowExprV::Age { left: Box::new(left), right: None }, s)),
                }
            },
        },
    }
}

/// `to_char(argument, 'format')`, behind its name.
pub open spec fn to_char_call(t: Seq<TokenV>, s: int, d: nat) -> Result<(RowExprV, int), SqlErrorV>
    decreases MAX_DEPTH + 1 - d, 2nat, 0int,
{
    match want(t, s, Sym::LParen) {
        Err(e) => Err(e),
        Ok(s) => match row_expr(t, s, d) {
            Err(e) => Err(e),
            Ok((arg, s)) => match want(t, s, Sym::Comma) {
                Err(e) => Err(e),
                Ok(s) => match tok(t, s) {
                    TokV::Str(format) => {
                        match want(t, next(t, s), Sym::RParen) {
                            Err(e) => Err(e),
                            Ok(s) => Ok((RowExprV::ToChar { arg: Box::new(arg), format }, s)),
                        }
                    },
                    other => Err(
                        syntax(
                            "to_char takes a quoted template, found `"@ + tok_text(other) + "`"@,
                            here(t, s),
                        ),
                    ),
                },
            },
        },
    }
}

/// `to_date(argument[, 'YYYY-MM-DD'])`, behind its name.
pub open spec fn to_date_call(t: Seq<TokenV>, s: int, d: nat) -> Result<(RowExprV, int), SqlErrorV>
    decreases MAX_DEPTH + 1 - d, 2nat, 0int,
{
    match want(t, s, Sym::LParen) {
        Err(e) => Err(e),
        Ok(s) => match row_expr(t, s, d) {
            Err(e) => Err(e),
            Ok((arg, s)) => if is_sym(t, s, Sym::Comma) && tok(t, next(t, s)) != TokV::Str("YYYY-MM-DD"@) {
                Err(
                    SqlErrorV::Unsupported(
                        "to_date(t, "@ + tok_text(tok(t, next(t, s)))
                            + "): the literal grammar QL_CONTRACT §4.2 accepts is ISO-8601, so the only template is 'YYYY-MM-DD'"@,
                    ),
                )
            } else {
                let s1 = if is_sym(t, s, Sym::Comma) { next(t, next(t, s)) } else { s };
                match want(t, s1, Sym::RParen) {
                    Err(e) => Err(e),
                    Ok(s) => Ok((RowExprV::ToDate(Box::new(arg)), s)),
                }
            },
        },
    }
}

/// `position(part IN text)`, behind its name.
pub open spec fn position_call(t: Seq<TokenV>, s: int, d: nat) -> Result<
    (RowExprV, int),
    SqlErrorV,
>
    decreases MAX_DEPTH + 1 - d, 2nat, 0int,
{
    match want(t, s, Sym::LParen) {
        Err(e) => Err(e),
        Ok(s) => match row_expr(t, s, d) {
            Err(e) => Err(e),
            Ok((part, s)) => match want_word(t, s, "IN"@) {
                Err(e) => Err(e),
                Ok(s) => match row_expr(t, s, d) {
                    Err(e) => Err(e),
                    Ok((text, s)) => match want(t, s, Sym::RParen) {
                        Err(e) => Err(e),
                        Ok(s) => {
                            Ok((RowExprV::Str { func: StrFunc::Position, args: seq![text, part] }, s))
                        }
                    },
                },
            },
        },
    }
}

/// `strpos(text, part)`, behind its name.
pub open spec fn strpos_call(t: Seq<TokenV>, s: int, d: nat) -> Result<(RowExprV, int), SqlErrorV>
    decreases MAX_DEPTH + 1 - d, 2nat, 0int,
{
    match want(t, s, Sym::LParen) {
        Err(e) => Err(e),
        Ok(s) => match row_expr(t, s, d) {
            Err(e) => Err(e),
            Ok((text, s)) => match want(t, s, Sym::Comma) {
                Err(e) => Err(e),
                Ok(s) => match row_expr(t, s, d) {
                    Err(e) => Err(e),
                    Ok((part, s)) => match want(t, s, Sym::RParen) {
                        Err(e) => Err(e),
                        Ok(s) => {
                            Ok((RowExprV::Str { func: StrFunc::Position, args: seq![text, part] }, s))
                        }
                    },
                },
            },
        },
    }
}

/// `substring(text FROM start [FOR count])` or `substring(text, start[,
/// count])`, behind its name.
pub open spec fn substring_call(t: Seq<TokenV>, s: int, d: nat) -> Result<
    (RowExprV, int),
    SqlErrorV,
>
    decreases MAX_DEPTH + 1 - d, 2nat, 0int,
{
    match want(t, s, Sym::LParen) {
        Err(e) => Err(e),
        Ok(s) => match row_expr(t, s, d) {
            Err(e) => Err(e),
            Ok((text, s)) => {
                let worded = is_word(t, s, "FROM"@);
                match if worded { Ok(next(t, s)) } else { want(t, s, Sym::Comma) } {
                    Err(e) => Err(e),
                    Ok(s) => match row_expr(t, s, d) {
                        Err(e) => Err(e),
                        Ok((start, s)) => {
                            let more = if worded { is_word(t, s, "FOR"@) } else { is_sym(t, s, Sym::Comma) };
                            if more {
                                match row_expr(t, next(t, s), d) {
                                    Err(e) => Err(e),
                                    Ok((count, s)) => match want(t, s, Sym::RParen) {
                                        Err(e) => Err(e),
                                        Ok(s) => {
                                            Ok((RowExprV::Str { func: StrFunc::Substring, args: seq![text, start, count] }, s))
                                        }
                                    },
                                }
                            } else {
                                match want(t, s, Sym::RParen) {
                                    Err(e) => Err(e),
                                    Ok(s) => {
                                        Ok((RowExprV::Str { func: StrFunc::Substring, args: seq![text, start] }, s))
                                    }
                                }
                            }
                        }
                    },
                }
            }
        },
    }
}

pub open spec fn no_trim_side(side: Seq<char>) -> SqlErrorV {
    SqlErrorV::Unsupported(
        "trim("@ + side
            + " ... FROM s): QL_CONTRACT §4.1 names `trim`, which is btrim -- whitespace off both ends"@,
    )
}

/// `trim(text)`, behind its name.
pub open spec fn trim_call(t: Seq<TokenV>, s: int, d: nat) -> Result<(RowExprV, int), SqlErrorV>
    decreases MAX_DEPTH + 1 - d, 2nat, 0int,
{
    match want(t, s, Sym::LParen) {
        Err(e) => Err(e),
        Ok(s) => if is_word(t, s, "BOTH"@) {
            Err(no_trim_side("BOTH"@))
        } else if is_word(t, s, "LEADING"@) {
            Err(no_trim_side("LEADING"@))
        } else if is_word(t, s, "TRAILING"@) {
            Err(no_trim_side("TRAILING"@))
        } else {
            match row_expr(t, s, d) {
                Err(e) => Err(e),
                Ok((arg, s)) => match want(t, s, Sym::RParen) {
                    Err(e) => Err(e),
                    Ok(s) => Ok((RowExprV::Str { func: StrFunc::Trim, args: seq![arg] }, s)),
                },
            }
        },
    }
}

/// A string function with a list of arguments, behind its name.
pub open spec fn string_call(t: Seq<TokenV>, s: int, d: nat, func: StrFunc) -> Result<
    (RowExprV, int),
    SqlErrorV,
>
    decreases MAX_DEPTH + 1 - d, 2nat, 0int,
{
    match want(t, s, Sym::LParen) {
        Err(e) => Err(e),
        Ok(s) => match if is_sym(t, s, Sym::RParen) { Ok((Seq::empty(), s)) } else { row_args(t, s, d, Seq::empty()) } {
            Err(e) => Err(e),
            Ok((args, s)) => match want(t, s, Sym::RParen) {
                Err(e) => Err(e),
                Ok(s) => Ok((RowExprV::Str { func, args }, s)),
            },
        },
    }
}

/// Arguments between commas, behind those of `done`.
pub open spec fn row_args(t: Seq<TokenV>, s: int, d: nat, done: Seq<RowExprV>) -> Result<
    (Seq<RowExprV>, int),
    SqlErrorV,
>
    decreases MAX_DEPTH + 1 - d, 1nat, t.len() - s,
{
    match row_expr(t, s, d) {
        Err(e) => Err(e),
        Ok((x, s2)) => if is_sym(t, s2, Sym::Comma) && s < next(t, s2) <= t.len() {
            row_args(t, next(t, s2), d, done.push(x))
        } else {
            Ok((done.push(x), s2))
        },
    }
}

fn string_of(w: &str) -> (r: Option<StrFunc>)
    ensures
        r == string_named(w@),
{
    if same(w, "LOWER") {
        Some(StrFunc::Lower)
    } else if same(w, "UPPER") {
        Some(StrFunc::Upper)
    } else if same(w, "LENGTH") || same(w, "CHAR_LENGTH") {
        Some(StrFunc::Length)
    } else if same(w, "CONCAT") {
        Some(StrFunc::Concat)
    } else if same(w, "LEFT") {
        Some(StrFunc::Left)
    } else if same(w, "RIGHT") {
        Some(StrFunc::Right)
    } else if same(w, "SPLIT_PART") {
        Some(StrFunc::SplitPart)
    } else if same(w, "REPLACE") {
        Some(StrFunc::Replace)
    } else if same(w, "STARTS_WITH") {
        Some(StrFunc::StartsWith)
    } else {
        None
    }
}

fn string_expr(func: StrFunc, args: Vec<RowExpr>) -> (r: RowExpr)
    ensures
        r.deep_view() == (RowExprV::Str { func, args: args.deep_view() }),
{
    proof {
        row_expr_view_args(func, args);
    }
    RowExpr::Str { func, args }
}

fn joined_row(x: Sym, left: RowExpr, right: RowExpr) -> (r: RowExpr)
    requires
        x == Sym::Plus || x == Sym::Minus || x == Sym::Concat,
    ensures
        Some(r.deep_view()) == row_joined(TokV::Sym(x), left.deep_view(), right.deep_view()),
{
    if x == Sym::Plus {
        RowExpr::Add(Box::new(left), Box::new(right))
    } else if x == Sym::Minus {
        RowExpr::Sub(Box::new(left), Box::new(right))
    } else {
        RowExpr::Concat(Box::new(left), Box::new(right))
    }
}

fn row_of_clock(date_only: bool, offset: i64) -> (r: RowExpr)
    ensures
        r.deep_view() == clock_row(date_only, offset),
{
    let clock = if date_only {
        RowExpr::CurrentDate
    } else {
        RowExpr::Now
    };
    let ghost view = clock.deep_view();
    if offset == 0 {
        clock
    } else {
        let interval = RowExpr::Interval(offset);
        assert(interval.deep_view() == RowExprV::Interval(offset));
        assert(clock.deep_view() == if date_only {
            RowExprV::CurrentDate
        } else {
            RowExprV::Now
        });
        RowExpr::Add(Box::new(clock), Box::new(interval))
    }
}

impl Parser {
    /// A row expression.
    pub fn row_expr(&mut self) -> (r: Result<RowExpr, SqlError>)
        requires
            old(self).ok(),
        ensures
            parsed(r, *old(self), *final(self), row_expr(old(self).t(), old(self).s(), old(self).d())),
        decreases MAX_DEPTH + 1 - old(self).depth, 0nat,
    {
        self.deeper()?;
        let result = self.row_expr_inner();
        self.shallower();
        result
    }

    fn row_expr_inner(&mut self) -> (r: Result<RowExpr, SqlError>)
        requires
            old(self).ok(),
            1 <= old(self).depth <= MAX_DEPTH,
        ensures
            parsed(
                r,
                *old(self),
                *final(self),
                row_expr_inner(old(self).t(), old(self).s(), old(self).d()),
            ),
        decreases MAX_DEPTH + 1 - old(self).depth, 6nat,
    {
        let ghost t = self.t();
        let ghost d = self.d();
        let mut left = self.row_atom()?;
        let ghost start = self.s();
        let ghost first = left.deep_view();
        loop
            invariant
                self.ok(),
                1 <= old(self).depth <= MAX_DEPTH,
                self.tokens == old(self).tokens,
                self.refused == old(self).refused,
                self.depth == old(self).depth,
                self.at >= old(self).at,
                t == self.t(),
                t == old(self).t(),
                d == old(self).d(),
                row_atom(t, old(self).s(), d) == Ok::<(RowExprV, int), SqlErrorV>((first, start)),
                row_tail(t, start, d, first) == row_tail(t, self.s(), d, left.deep_view()),
            decreases self.tokens@.len() - self.at,
        {
            let op = if self.at_sym(Sym::Plus) {
                Sym::Plus
            } else if self.at_sym(Sym::Minus) {
                Sym::Minus
            } else if self.at_sym(Sym::Concat) {
                Sym::Concat
            } else {
                return Ok(left);
            };
            self.skip();
            let right = self.row_atom()?;
            left = joined_row(op, left, right);
        }
    }

    fn row_atom(&mut self) -> (r: Result<RowExpr, SqlError>)
        requires
            old(self).ok(),
            1 <= old(self).depth <= MAX_DEPTH,
        ensures
            parsed(r, *old(self), *final(self), row_atom(old(self).t(), old(self).s(), old(self).d())),
        decreases MAX_DEPTH + 1 - old(self).depth, 5nat,
    {
        if self.eat(Sym::LParen) {
            let inner = self.row_expr()?;
            self.expect(Sym::RParen)?;
            return self.row_casts(inner);
        }
        let is_literal = match self.peek() {
            Tok::Num(_, _) => true,
            Tok::Str(_) => true,
            Tok::Param(_) => true,
            Tok::Sym(x) => *x == Sym::Minus,
            _ => false,
        };
        if is_literal {
            let l = self.literal_no_cast()?;
            return self.row_casts(RowExpr::Lit(l));
        }
        if self.word().is_none() {
            return Err(
                SqlError::syntax(
                    cat3("expected a value, found `", self.peek().written().as_str(), "`").as_str(),
                    self.here(),
                ),
            );
        }
        if self.at_word("INTERVAL") {
            let n = self.interval_micros()?;
            return Ok(RowExpr::Interval(n));
        }
        match self.clock_value()? {
            Some(TimeValue::Clock { date_only, offset }) => self.row_casts(
                row_of_clock(date_only, offset),
            ),
            _ => self.row_word(),
        }
    }

    fn row_word(&mut self) -> (r: Result<RowExpr, SqlError>)
        requires
            old(self).ok(),
            1 <= old(self).depth <= MAX_DEPTH,
            word(old(self).t(), old(self).s()) is Some,
        ensures
            parsed(r, *old(self), *final(self), row_word(old(self).t(), old(self).s(), old(self).d())),
        decreases MAX_DEPTH + 1 - old(self).depth, 4nat,
    {
        let e = self.row_call()?;
        self.row_casts(e)
    }

    fn row_call(&mut self) -> (r: Result<RowExpr, SqlError>)
        requires
            old(self).ok(),
            1 <= old(self).depth <= MAX_DEPTH,
            word(old(self).t(), old(self).s()) is Some,
        ensures
            parsed(r, *old(self), *final(self), row_call(old(self).t(), old(self).s(), old(self).d())),
        decreases MAX_DEPTH + 1 - old(self).depth, 3nat,
    {
        if !self.sym_ahead(1, Sym::LParen) {
            return self.row_column();
        }
        if self.eat_word("EXTRACT") {
            return self.extract_call();
        }
        if self.eat_word("DATE_TRUNC") {
            return self.trunc_call();
        }
        if self.eat_word("AGE") {
            return self.age_call();
        }
        if self.eat_word("TO_CHAR") {
            return self.to_char_call();
        }
        if self.eat_word("TO_TIMESTAMP") {
            let arg = self.one_argument()?;
            return Ok(RowExpr::ToTimestamp(Box::new(arg)));
        }
        if self.eat_word("TO_DATE") {
            return self.to_date_call();
        }
        if self.eat_word("POSITION") {
            return self.position_call();
        }
        if self.eat_word("STRPOS") {
            return self.strpos_call();
        }
        if self.at_word("SUBSTRING") || self.at_word("SUBSTR") {
            self.skip();
            return self.substring_call();
        }
        if self.at_word("TRIM") || self.at_word("BTRIM") {
            self.skip();
            return self.trim_call();
        }
        match self.word() {
            Some(w) => match string_of(w.as_str()) {
                Some(func) => {
                    self.skip();
                    self.string_call(func)
                },
                None => self.row_column(),
            },
            None => self.row_column(),
        }
    }

    fn row_column(&mut self) -> (r: Result<RowExpr, SqlError>)
        requires
            old(self).ok(),
            word(old(self).t(), old(self).s()) is Some,
        ensures
            reads(r, *old(self), *final(self), row_column(old(self).t(), old(self).s())),
    {
        proof {
            reveal(row_column);
        }
        if self.sym_ahead(1, Sym::LParen) {
            return match self.word() {
                Some(w) => match self.listed(w.as_str()) {
                    Some(e) => Err(e),
                    None => Err(
                        SqlError::unsupported(
                            cat3(
                                "function `",
                                w.as_str(),
                                "` is not in QL_CONTRACT §4.1 or §4.2",
                            ).as_str(),
                        ),
                    ),
                },
                None => Err(SqlError::unsupported("")),
            };
        }
        self.guard_word()?;
        let column = self.name()?;
        Ok(RowExpr::Column(column))
    }

    fn one_argument(&mut self) -> (r: Result<RowExpr, SqlError>)
        requires
            old(self).ok(),
            1 <= old(self).depth <= MAX_DEPTH,
        ensures
            parsed(
                r,
                *old(self),
                *final(self),
                one_argument(old(self).t(), old(self).s(), old(self).d()),
            ),
        decreases MAX_DEPTH + 1 - old(self).depth, 1nat,
    {
        self.expect(Sym::LParen)?;
        let arg = self.row_expr()?;
        self.expect(Sym::RParen)?;
        Ok(arg)
    }

    fn extract_call(&mut self) -> (r: Result<RowExpr, SqlError>)
        requires
            old(self).ok(),
            1 <= old(self).depth <= MAX_DEPTH,
        ensures
            parsed(
                r,
                *old(self),
                *final(self),
                extract_call(old(self).t(), old(self).s(), old(self).d()),
            ),
        decreases MAX_DEPTH + 1 - old(self).depth, 2nat,
    {
        self.expect(Sym::LParen)?;
        let unit = self.extract_unit()?;
        self.expect_word("FROM")?;
        let arg = self.row_expr()?;
        self.expect(Sym::RParen)?;
        Ok(RowExpr::Extract { unit, arg: Box::new(arg) })
    }

    fn trunc_call(&mut self) -> (r: Result<RowExpr, SqlError>)
        requires
            old(self).ok(),
            1 <= old(self).depth <= MAX_DEPTH,
        ensures
            parsed(
                r,
                *old(self),
                *final(self),
                trunc_call(old(self).t(), old(self).s(), old(self).d()),
            ),
        decreases MAX_DEPTH + 1 - old(self).depth, 2nat,
    {
        proof {
            reveal(trunc_unit);
        }
        self.expect(Sym::LParen)?;
        let text = self.peek().dup();
        let unit = self.trunc_unit()?;
        if !unit.truncates() {
            return match text {
                Tok::Str(text) => Err(
                    SqlError::unsupported(
                        cat3(
                            "date_trunc('",
                            text.as_str(),
                            "', t): QL_CONTRACT §4.2 names year, month, day, hour, minute and second",
                        ).as_str(),
                    ),
                ),
                _ => Err(SqlError::unsupported("")),
            };
        }
        self.expect(Sym::Comma)?;
        let arg = self.row_expr()?;
        self.expect(Sym::RParen)?;
        Ok(RowExpr::Trunc { unit, arg: Box::new(arg) })
    }

    fn age_call(&mut self) -> (r: Result<RowExpr, SqlError>)
        requires
            old(self).ok(),
            1 <= old(self).depth <= MAX_DEPTH,
        ensures
            parsed(r, *old(self), *final(self), age_call(old(self).t(), old(self).s(), old(self).d())),
        decreases MAX_DEPTH + 1 - old(self).depth, 2nat,
    {
        self.expect(Sym::LParen)?;
        let left = self.row_expr()?;
        let right = if self.eat(Sym::Comma) {
            Some(Box::new(self.row_expr()?))
        } else {
            None
        };
        self.expect(Sym::RParen)?;
        Ok(RowExpr::Age { left: Box::new(left), right })
    }

    fn to_char_call(&mut self) -> (r: Result<RowExpr, SqlError>)
        requires
            old(self).ok(),
            1 <= old(self).depth <= MAX_DEPTH,
        ensures
            parsed(
                r,
                *old(self),
                *final(self),
                to_char_call(old(self).t(), old(self).s(), old(self).d()),
            ),
        decreases MAX_DEPTH + 1 - old(self).depth, 2nat,
    {
        self.expect(Sym::LParen)?;
        let arg = self.row_expr()?;
        self.expect(Sym::Comma)?;
        let at = self.here();
        match self.bump() {
            Tok::Str(format) => {
                self.expect(Sym::RParen)?;
                Ok(RowExpr::ToChar { arg: Box::new(arg), format })
            },
            other => Err(
                SqlError::syntax(
                    cat3(
                        "to_char takes a quoted template, found `",
                        other.written().as_str(),
                        "`",
                    ).as_str(),
                    at,
                ),
            ),
        }
    }

    fn to_date_call(&mut self) -> (r: Result<RowExpr, SqlError>)
        requires
            old(self).ok(),
            1 <= old(self).depth <= MAX_DEPTH,
        ensures
            parsed(
                r,
                *old(self),
                *final(self),
                to_date_call(old(self).t(), old(self).s(), old(self).d()),
            ),
        decreases MAX_DEPTH + 1 - old(self).depth, 2nat,
    {
        self.expect(Sym::LParen)?;
        let arg = self.row_expr()?;
        if self.eat(Sym::Comma) {
            let format = self.bump();
            let known = match &format {
                Tok::Str(text) => same(text.as_str(), "YYYY-MM-DD"),
                _ => false,
            };
            if !known {
                return Err(
                    SqlError::unsupported(
                        cat3(
                            "to_date(t, ",
                            format.written().as_str(),
                            "): the literal grammar QL_CONTRACT §4.2 accepts is ISO-8601, so the only template is 'YYYY-MM-DD'",
                        ).as_str(),
                    ),
                );
            }
        }
        self.expect(Sym::RParen)?;
        Ok(RowExpr::ToDate(Box::new(arg)))
    }

    fn position_call(&mut self) -> (r: Result<RowExpr, SqlError>)
        requires
            old(self).ok(),
            1 <= old(self).depth <= MAX_DEPTH,
        ensures
            parsed(
                r,
                *old(self),
                *final(self),
                position_call(old(self).t(), old(self).s(), old(self).d()),
            ),
        decreases MAX_DEPTH + 1 - old(self).depth, 2nat,
    {
        self.expect(Sym::LParen)?;
        let part = self.row_expr()?;
        self.expect_word("IN")?;
        let text = self.row_expr()?;
        self.expect(Sym::RParen)?;
        let ghost want = seq![text.deep_view(), part.deep_view()];
        let args = vec![text, part];
        assert(args.deep_view() =~= want);
        Ok(string_expr(StrFunc::Position, args))
    }

    fn strpos_call(&mut self) -> (r: Result<RowExpr, SqlError>)
        requires
            old(self).ok(),
            1 <= old(self).depth <= MAX_DEPTH,
        ensures
            parsed(
                r,
                *old(self),
                *final(self),
                strpos_call(old(self).t(), old(self).s(), old(self).d()),
            ),
        decreases MAX_DEPTH + 1 - old(self).depth, 2nat,
    {
        self.expect(Sym::LParen)?;
        let text = self.row_expr()?;
        self.expect(Sym::Comma)?;
        let part = self.row_expr()?;
        self.expect(Sym::RParen)?;
        let ghost want = seq![text.deep_view(), part.deep_view()];
        let args = vec![text, part];
        assert(args.deep_view() =~= want);
        Ok(string_expr(StrFunc::Position, args))
    }

    fn substring_call(&mut self) -> (r: Result<RowExpr, SqlError>)
        requires
            old(self).ok(),
            1 <= old(self).depth <= MAX_DEPTH,
        ensures
            parsed(
                r,
                *old(self),
                *final(self),
                substring_call(old(self).t(), old(self).s(), old(self).d()),
            ),
        decreases MAX_DEPTH + 1 - old(self).depth, 2nat,
    {
        self.expect(Sym::LParen)?;
        let text = self.row_expr()?;
        let worded = self.eat_word("FROM");
        if !worded {
            self.expect(Sym::Comma)?;
        }
        let start = self.row_expr()?;
        let more = if worded {
            self.eat_word("FOR")
        } else {
            self.eat(Sym::Comma)
        };
        let ghost two = seq![text.deep_view(), start.deep_view()];
        if more {
            let count = self.row_expr()?;
            self.expect(Sym::RParen)?;
            let ghost three = two.push(count.deep_view());
            let args = vec![text, start, count];
            assert(args.deep_view() =~= three);
            assert(three =~= seq![two[0], two[1], three[2]]);
            return Ok(string_expr(StrFunc::Substring, args));
        }
        self.expect(Sym::RParen)?;
        let args = vec![text, start];
        assert(args.deep_view() =~= two);
        Ok(string_expr(StrFunc::Substring, args))
    }

    fn trim_call(&mut self) -> (r: Result<RowExpr, SqlError>)
        requires
            old(self).ok(),
            1 <= old(self).depth <= MAX_DEPTH,
        ensures
            parsed(r, *old(self), *final(self), trim_call(old(self).t(), old(self).s(), old(self).d())),
        decreases MAX_DEPTH + 1 - old(self).depth, 2nat,
    {
        self.expect(Sym::LParen)?;
        let side = if self.at_word("BOTH") {
            "BOTH"
        } else if self.at_word("LEADING") {
            "LEADING"
        } else if self.at_word("TRAILING") {
            "TRAILING"
        } else {
            let arg = self.row_expr()?;
            self.expect(Sym::RParen)?;
            let ghost want = seq![arg.deep_view()];
            let args = vec![arg];
            assert(args.deep_view() =~= want);
            return Ok(string_expr(StrFunc::Trim, args));
        };
        Err(
            SqlError::unsupported(
                cat3(
                    "trim(",
                    side,
                    " ... FROM s): QL_CONTRACT §4.1 names `trim`, which is btrim -- whitespace off both ends",
                ).as_str(),
            ),
        )
    }

    fn string_call(&mut self, func: StrFunc) -> (r: Result<RowExpr, SqlError>)
        requires
            old(self).ok(),
            1 <= old(self).depth <= MAX_DEPTH,
        ensures
            parsed(
                r,
                *old(self),
                *final(self),
                string_call(old(self).t(), old(self).s(), old(self).d(), func),
            ),
        decreases MAX_DEPTH + 1 - old(self).depth, 2nat,
    {
        self.expect(Sym::LParen)?;
        let args = if self.at_sym(Sym::RParen) {
            let none: Vec<RowExpr> = Vec::new();
            assert(none.deep_view() =~= Seq::<RowExprV>::empty());
            none
        } else {
            self.row_args()?
        };
        self.expect(Sym::RParen)?;
        Ok(string_expr(func, args))
    }

    fn row_args(&mut self) -> (r: Result<Vec<RowExpr>, SqlError>)
        requires
            old(self).ok(),
            1 <= old(self).depth <= MAX_DEPTH,
        ensures
            parsed(
                r,
                *old(self),
                *final(self),
                row_args(old(self).t(), old(self).s(), old(self).d(), Seq::empty()),
            ),
        decreases MAX_DEPTH + 1 - old(self).depth, 1nat,
    {
        let ghost t = self.t();
        let ghost d = self.d();
        let ghost start = self.s();
        let mut args: Vec<RowExpr> = Vec::new();
        assert(args.deep_view() =~= Seq::<RowExprV>::empty());
        loop
            invariant
                self.ok(),
                1 <= old(self).depth <= MAX_DEPTH,
                self.tokens == old(self).tokens,
                self.refused == old(self).refused,
                self.depth == old(self).depth,
                self.at >= old(self).at,
                t == self.t(),
                t == old(self).t(),
                d == old(self).d(),
                start == old(self).s(),
                row_args(t, start, d, Seq::empty()) == row_args(t, self.s(), d, args.deep_view()),
            decreases self.tokens@.len() - self.at,
        {
            let x = self.row_expr()?;
            let ghost before = args.deep_view();
            args.push(x);
            assert(args.deep_view() =~= before.push(x.deep_view()));
            if !self.eat(Sym::Comma) {
                return Ok(args);
            }
        }
    }
}

} // verus!
