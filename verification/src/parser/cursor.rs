//! The cursor over a statement's tokens.
//!
//! Every rule of the grammar is a function from the tokens and a place among
//! them to what stands there and the place behind it, or to the error that the
//! statement ends with. How deep a rule is nested is a parameter of its own.

use vstd::prelude::*;
use crate::error::{SqlError, SqlErrorV};
use crate::refuse::{lookup, looked_up, refusal, refuse};
use crate::text::{ascii_lower, ascii_upper, cat3, cat5, lower, owned, same, upper};
use crate::token::{keyword_of, tok_text, Sym, Tok, TokV, Token, TokenV};

verus! {

/// How deep a statement may nest.
pub const MAX_DEPTH: usize = 32;

/// A cursor over tokens that end in the end of the statement.
#[derive(Debug)]
pub struct Parser {
    pub tokens: Vec<Token>,
    pub at: usize,
    pub depth: usize,
    /// The texts that the engine takes for no UUID, with its reasons.
    pub refused: Vec<(String, String)>,
}

impl Parser {
    /// The tokens.
    pub open spec fn t(&self) -> Seq<TokenV> {
        self.tokens.deep_view()
    }

    /// The place of the cursor.
    pub open spec fn s(&self) -> int {
        self.at as int
    }

    /// How deep the rule is nested.
    pub open spec fn d(&self) -> nat {
        self.depth as nat
    }

    /// The texts that are no UUID, with the reasons.
    pub open spec fn u(&self) -> Seq<(Seq<char>, Seq<char>)> {
        self.refused.deep_view()
    }

    /// Whether the cursor is on a token, and the last token is the end.
    pub open spec fn ok(&self) -> bool {
        &&& self.at < self.tokens@.len()
        &&& self.tokens@.last().tok is Eof
        &&& self.depth <= MAX_DEPTH + 1
    }
}

/// Whether `r` and the cursor behind it are the outcome `want`.
pub open spec fn parsed<T: DeepView>(
    r: Result<T, SqlError>,
    before: Parser,
    after: Parser,
    want: Result<(T::V, int), SqlErrorV>,
) -> bool {
    &&& after.tokens == before.tokens
    &&& after.refused == before.refused
    &&& after.ok()
    &&& after.at >= before.at
    &&& match want {
        Ok((v, s)) => r is Ok && r->Ok_0.deep_view() == v && after.at == s && after.depth
            == before.depth,
        Err(e) => r is Err && r->Err_0.deep_view() == e,
    }
}

/// Whether `r` and the cursor behind it are the outcome `want` of a rule that
/// nests nothing.
pub open spec fn reads<T: DeepView>(
    r: Result<T, SqlError>,
    before: Parser,
    after: Parser,
    want: Result<(T::V, int), SqlErrorV>,
) -> bool {
    parsed(r, before, after, want) && after.depth == before.depth
}

/// Whether `r` and the cursor behind it are the outcome `want` of a rule that
/// reads marks only.
pub open spec fn passes(
    r: Result<(), SqlError>,
    before: Parser,
    after: Parser,
    want: Result<int, SqlErrorV>,
) -> bool {
    &&& after.tokens == before.tokens
    &&& after.refused == before.refused
    &&& after.ok()
    &&& after.at >= before.at
    &&& after.depth == before.depth
    &&& match want {
        Ok(s) => r is Ok && after.at == s,
        Err(e) => r is Err && r->Err_0.deep_view() == e,
    }
}

/// Whether `r` and the cursor behind it are the outcome `want` of a statement,
/// behind which no depth is counted.
pub open spec fn concludes<T: DeepView>(
    r: Result<T, SqlError>,
    before: Parser,
    after: Parser,
    want: Result<(T::V, int), SqlErrorV>,
) -> bool {
    &&& after.tokens == before.tokens
    &&& after.refused == before.refused
    &&& after.ok()
    &&& after.at >= before.at
    &&& match want {
        Ok((v, s)) => r is Ok && r->Ok_0.deep_view() == v && after.at == s,
        Err(e) => r is Err && r->Err_0.deep_view() == e,
    }
}

// ── tokens ───────────────────────────────────────────────────────────────

/// The token at a place.
pub open spec fn tok(t: Seq<TokenV>, s: int) -> TokV {
    t[s].tok
}

/// Where the token at a place begins in the text.
pub open spec fn here(t: Seq<TokenV>, s: int) -> usize {
    t[s].at
}

/// The place behind a token; nothing is behind the last one.
pub open spec fn next(t: Seq<TokenV>, s: int) -> int {
    if s + 1 < t.len() {
        s + 1
    } else {
        s
    }
}

/// The place `k` tokens ahead; the last one, where there are fewer.
pub open spec fn ahead(t: Seq<TokenV>, s: int, k: int) -> int {
    if s + k <= t.len() - 1 {
        s + k
    } else {
        t.len() - 1
    }
}

/// The upper-cased word at a place, if there is one.
pub open spec fn word(t: Seq<TokenV>, s: int) -> Option<Seq<char>> {
    keyword_of(tok(t, s))
}

pub open spec fn is_word(t: Seq<TokenV>, s: int, w: Seq<char>) -> bool {
    word(t, s) == Some(w)
}

pub open spec fn is_sym(t: Seq<TokenV>, s: int, x: Sym) -> bool {
    tok(t, s) == TokV::Sym(x)
}

/// Whether a call of a function stands at a place.
pub open spec fn calls(t: Seq<TokenV>, s: int, w: Seq<char>) -> bool {
    is_word(t, s, w) && is_sym(t, ahead(t, s, 1), Sym::LParen)
}

/// Whether a name stands at a place.
pub open spec fn is_name(t: Seq<TokenV>, s: int) -> bool {
    tok(t, s) is Word || tok(t, s) is Quoted
}

/// Whether the statement ends at a place.
pub open spec fn is_end(t: Seq<TokenV>, s: int) -> bool {
    tok(t, s) is Eof || is_sym(t, s, Sym::Semicolon)
}

/// The place behind a word, if it stands there, and the place itself if not.
pub open spec fn past_word(t: Seq<TokenV>, s: int, w: Seq<char>) -> int {
    if is_word(t, s, w) {
        next(t, s)
    } else {
        s
    }
}

/// The place behind a mark, if it stands there, and the place itself if not.
pub open spec fn past_sym(t: Seq<TokenV>, s: int, x: Sym) -> int {
    if is_sym(t, s, x) {
        next(t, s)
    } else {
        s
    }
}

pub open spec fn syntax(message: Seq<char>, at: usize) -> SqlErrorV {
    SqlErrorV::Syntax { message, at }
}

impl Parser {
    pub fn peek(&self) -> (r: &Tok)
        requires
            self.ok(),
        ensures
            r.deep_view() == tok(self.t(), self.s()),
    {
        &self.tokens[self.at].tok
    }

    pub fn peek_at(&self, k: usize) -> (r: &Tok)
        requires
            self.ok(),
        ensures
            r.deep_view() == tok(self.t(), ahead(self.t(), self.s(), k as int)),
    {
        let last: usize = self.tokens.len() - 1;
        let index: usize = if k <= last - self.at {
            self.at + k
        } else {
            last
        };
        &self.tokens[index].tok
    }

    pub fn here(&self) -> (r: usize)
        requires
            self.ok(),
        ensures
            r == here(self.t(), self.s()),
    {
        self.tokens[self.at].at
    }

    /// Moves the cursor on, and gives the token it stood on.
    pub fn bump(&mut self) -> (r: Tok)
        requires
            old(self).ok(),
        ensures
            final(self).tokens == old(self).tokens,
            final(self).refused == old(self).refused,
            final(self).depth == old(self).depth,
            final(self).ok(),
            final(self).at >= old(self).at,
            !(r is Eof) ==> final(self).at > old(self).at,
            final(self).s() == next(old(self).t(), old(self).s()),
            r.deep_view() == tok(old(self).t(), old(self).s()),
    {
        let t = self.tokens[self.at].tok.dup();
        if self.at < self.tokens.len() - 1 {
            self.at = self.at + 1;
        }
        t
    }

    /// Moves the cursor on.
    pub fn skip(&mut self)
        requires
            old(self).ok(),
        ensures
            final(self).tokens == old(self).tokens,
            final(self).refused == old(self).refused,
            final(self).depth == old(self).depth,
            final(self).ok(),
            final(self).at >= old(self).at,
            !(tok(old(self).t(), old(self).s()) is Eof) ==> final(self).at > old(self).at,
            final(self).s() == next(old(self).t(), old(self).s()),
    {
        if self.at < self.tokens.len() - 1 {
            self.at = self.at + 1;
        } else {
            assert(self.t()[self.s()] == self.tokens@[self.s()].deep_view());
        }
    }

    /// Puts the cursor back.
    pub fn reset(&mut self, mark: usize)
        requires
            old(self).ok(),
            mark < old(self).tokens@.len(),
        ensures
            final(self).tokens == old(self).tokens,
            final(self).refused == old(self).refused,
            final(self).depth == old(self).depth,
            final(self).ok(),
            final(self).at == mark,
    {
        self.at = mark;
    }

    pub fn at_sym(&self, x: Sym) -> (r: bool)
        requires
            self.ok(),
        ensures
            r == is_sym(self.t(), self.s(), x),
    {
        match self.peek() {
            Tok::Sym(y) => *y == x,
            _ => false,
        }
    }

    pub fn sym_ahead(&self, k: usize, x: Sym) -> (r: bool)
        requires
            self.ok(),
        ensures
            r == is_sym(self.t(), ahead(self.t(), self.s(), k as int), x),
    {
        match self.peek_at(k) {
            Tok::Sym(y) => *y == x,
            _ => false,
        }
    }

    pub fn at_name(&self) -> (r: bool)
        requires
            self.ok(),
        ensures
            r == is_name(self.t(), self.s()),
    {
        match self.peek() {
            Tok::Word(_) => true,
            Tok::Quoted(_) => true,
            _ => false,
        }
    }

    pub fn at_end(&self) -> (r: bool)
        requires
            self.ok(),
        ensures
            r == is_end(self.t(), self.s()),
    {
        match self.peek() {
            Tok::Eof => true,
            Tok::Sym(x) => *x == Sym::Semicolon,
            _ => false,
        }
    }

    /// The upper-cased word at the cursor, if the cursor is on a word.
    pub fn word(&self) -> (r: Option<String>)
        requires
            self.ok(),
        ensures
            match r {
                Some(w) => word(self.t(), self.s()) == Some(w@),
                None => word(self.t(), self.s()) is None,
            },
    {
        self.peek().keyword()
    }

    pub fn at_word(&self, w: &str) -> (r: bool)
        requires
            self.ok(),
        ensures
            r == is_word(self.t(), self.s(), w@),
    {
        match self.peek().keyword() {
            Some(k) => same(k.as_str(), w),
            None => false,
        }
    }

    pub fn word_ahead(&self, k: usize, w: &str) -> (r: bool)
        requires
            self.ok(),
        ensures
            r == is_word(self.t(), ahead(self.t(), self.s(), k as int), w@),
    {
        match self.peek_at(k).keyword() {
            Some(k) => same(k.as_str(), w),
            None => false,
        }
    }

    /// Moves behind a mark, if the cursor is on it.
    pub fn eat(&mut self, x: Sym) -> (r: bool)
        requires
            old(self).ok(),
        ensures
            final(self).tokens == old(self).tokens,
            final(self).refused == old(self).refused,
            final(self).depth == old(self).depth,
            final(self).ok(),
            final(self).at >= old(self).at,
            r == is_sym(old(self).t(), old(self).s(), x),
            r ==> final(self).at > old(self).at,
            final(self).s() == past_sym(old(self).t(), old(self).s(), x),
    {
        if self.at_sym(x) {
            self.skip();
            true
        } else {
            false
        }
    }

    /// Moves behind a word, if the cursor is on it.
    pub fn eat_word(&mut self, w: &str) -> (r: bool)
        requires
            old(self).ok(),
        ensures
            final(self).tokens == old(self).tokens,
            final(self).refused == old(self).refused,
            final(self).depth == old(self).depth,
            final(self).ok(),
            final(self).at >= old(self).at,
            r == is_word(old(self).t(), old(self).s(), w@),
            r ==> final(self).at > old(self).at,
            final(self).s() == past_word(old(self).t(), old(self).s(), w@),
    {
        if self.at_word(w) {
            self.skip();
            true
        } else {
            false
        }
    }
}

// ── refusals ─────────────────────────────────────────────────────────────

/// The refusal that a word at a place carries, if it carries one. The
/// constructs of several words are tried first.
#[verifier::opaque]
pub open spec fn listed(t: Seq<TokenV>, s: int, w: Seq<char>) -> Option<SqlErrorV> {
    let second = word(t, ahead(t, s, 1));
    if w == "ANY"@ && second == Some("SHORTEST"@) {
        Some(refusal("ANY SHORTEST"@))
    } else if w == "ALL"@ && second == Some("SHORTEST"@) {
        Some(refusal("ALL SHORTEST"@))
    } else if w == "SIMILAR"@ && second == Some("TO"@) {
        Some(refusal("SIMILAR TO"@))
    } else if w == "GROUPING"@ && second == Some("SETS"@) {
        Some(refusal("GROUPING SETS"@))
    } else if w == "AT"@ && second == Some("TIME"@) && word(t, ahead(t, s, 2)) == Some("ZONE"@) {
        Some(refusal("AT TIME ZONE"@))
    } else {
        match looked_up(w) {
            Some((tier, reason)) => Some(SqlErrorV::Refused { keyword: w, tier, reason }),
            None => None,
        }
    }
}

/// The word at a place is refused, if the table lists it.
#[verifier::opaque]
pub open spec fn guard_word(t: Seq<TokenV>, s: int) -> Result<int, SqlErrorV> {
    match word(t, s) {
        Some(w) => match listed(t, s, w) {
            Some(e) => Err(e),
            None => Ok(s),
        },
        None => Ok(s),
    }
}

/// The operators that the table lists.
pub open spec fn listed_operator(x: TokV) -> Option<Seq<char>> {
    match x {
        TokV::Sym(Sym::Overlaps) => Some("&&"@),
        TokV::Sym(Sym::ContainsOp) => Some("@>"@),
        TokV::Sym(Sym::Arrow) => Some("->"@),
        TokV::Sym(Sym::LongArrow) => Some("->>"@),
        TokV::Sym(Sym::HashArrow) => Some("#>"@),
        TokV::Sym(Sym::HashLongArrow) => Some("#>>"@),
        TokV::Sym(Sym::VecL1) => Some("<+>"@),
        TokV::Sym(Sym::Tilde) => Some("~"@),
        _ => None,
    }
}

/// The operator at a place is refused, if the table lists it.
#[verifier::opaque]
pub open spec fn guard_operator(t: Seq<TokenV>, s: int) -> Result<int, SqlErrorV> {
    match listed_operator(tok(t, s)) {
        Some(text) => Err(refusal(text)),
        None => Ok(s),
    }
}

/// Whatever stands at a place is refused, if the table lists it.
#[verifier::opaque]
pub open spec fn guard_here(t: Seq<TokenV>, s: int) -> Result<int, SqlErrorV> {
    match guard_word(t, s) {
        Err(e) => Err(e),
        Ok(s) => guard_operator(t, s),
    }
}

/// A mark that has to stand at a place.
#[verifier::opaque]
pub open spec fn want(t: Seq<TokenV>, s: int, x: Sym) -> Result<int, SqlErrorV> {
    if is_sym(t, s, x) {
        Ok(next(t, s))
    } else {
        match guard_here(t, s) {
            Err(e) => Err(e),
            Ok(s) => Err(
                syntax(
                    "expected `"@ + tok_text(TokV::Sym(x)) + "`, found `"@ + tok_text(tok(t, s))
                        + "`"@,
                    here(t, s),
                ),
            ),
        }
    }
}

/// A word that has to stand at a place.
#[verifier::opaque]
pub open spec fn want_word(t: Seq<TokenV>, s: int, w: Seq<char>) -> Result<int, SqlErrorV> {
    if is_word(t, s, w) {
        Ok(next(t, s))
    } else {
        match guard_here(t, s) {
            Err(e) => Err(e),
            Ok(s) => {
                Err(syntax("expected `"@ + w + "`, found `"@ + tok_text(tok(t, s)) + "`"@, here(t, s)))
            }
        }
    }
}

impl Parser {
    /// Passes the word of a call, where one stands.
    pub fn eat_call(&mut self, w: &str) -> (r: bool)
        requires
            old(self).ok(),
        ensures
            final(self).tokens == old(self).tokens,
            final(self).refused == old(self).refused,
            final(self).depth == old(self).depth,
            final(self).ok(),
            final(self).at >= old(self).at,
            r == calls(old(self).t(), old(self).s(), w@),
            r ==> final(self).at > old(self).at,
            final(self).s() == if r {
                next(old(self).t(), old(self).s())
            } else {
                old(self).s()
            },
    {
        if self.sym_ahead(1, Sym::LParen) {
            self.eat_word(w)
        } else {
            false
        }
    }

    /// The refusal that a word at the cursor carries, if it carries one.
    pub fn listed(&self, w: &str) -> (r: Option<SqlError>)
        requires
            self.ok(),
        ensures
            r.deep_view() == listed(self.t(), self.s(), w@),
    {
        proof {
            reveal(listed);
        }
        if same(w, "ANY") && self.word_ahead(1, "SHORTEST") {
            return Some(refuse("ANY SHORTEST"));
        }
        if same(w, "ALL") && self.word_ahead(1, "SHORTEST") {
            return Some(refuse("ALL SHORTEST"));
        }
        if same(w, "SIMILAR") && self.word_ahead(1, "TO") {
            return Some(refuse("SIMILAR TO"));
        }
        if same(w, "GROUPING") && self.word_ahead(1, "SETS") {
            return Some(refuse("GROUPING SETS"));
        }
        if same(w, "AT") && self.word_ahead(1, "TIME") && self.word_ahead(2, "ZONE") {
            return Some(refuse("AT TIME ZONE"));
        }
        match lookup(w) {
            Some((tier, reason)) => Some(
                SqlError::Refused { keyword: owned(w), tier, reason: owned(reason) },
            ),
            None => None,
        }
    }

    pub fn guard_word(&self) -> (r: Result<(), SqlError>)
        requires
            self.ok(),
        ensures
            passes(r, *self, *self, guard_word(self.t(), self.s())),
    {
        proof {
            reveal(guard_word);
        }
        match self.word() {
            Some(w) => match self.listed(w.as_str()) {
                Some(e) => Err(e),
                None => Ok(()),
            },
            None => Ok(()),
        }
    }

    pub fn guard_operator(&self) -> (r: Result<(), SqlError>)
        requires
            self.ok(),
        ensures
            passes(r, *self, *self, guard_operator(self.t(), self.s())),
    {
        proof {
            reveal(guard_operator);
        }
        match self.peek() {
            Tok::Sym(Sym::Overlaps) => Err(refuse("&&")),
            Tok::Sym(Sym::ContainsOp) => Err(refuse("@>")),
            Tok::Sym(Sym::Arrow) => Err(refuse("->")),
            Tok::Sym(Sym::LongArrow) => Err(refuse("->>")),
            Tok::Sym(Sym::HashArrow) => Err(refuse("#>")),
            Tok::Sym(Sym::HashLongArrow) => Err(refuse("#>>")),
            Tok::Sym(Sym::VecL1) => Err(refuse("<+>")),
            Tok::Sym(Sym::Tilde) => Err(refuse("~")),
            _ => Ok(()),
        }
    }

    pub fn guard_here(&self) -> (r: Result<(), SqlError>)
        requires
            self.ok(),
        ensures
            passes(r, *self, *self, guard_here(self.t(), self.s())),
    {
        proof {
            reveal(guard_here);
        }
        self.guard_word()?;
        self.guard_operator()
    }

    /// Moves behind a mark that has to stand at the cursor.
    pub fn expect(&mut self, x: Sym) -> (r: Result<(), SqlError>)
        requires
            old(self).ok(),
        ensures
            passes(r, *old(self), *final(self), want(old(self).t(), old(self).s(), x)),
            r is Ok ==> final(self).at > old(self).at,
    {
        proof {
            reveal(want);
        }
        if self.eat(x) {
            return Ok(());
        }
        self.guard_here()?;
        Err(
            SqlError::syntax(
                cat5(
                    "expected `",
                    Tok::Sym(x).written().as_str(),
                    "`, found `",
                    self.peek().written().as_str(),
                    "`",
                ).as_str(),
                self.here(),
            ),
        )
    }

    /// Moves behind a word that has to stand at the cursor.
    pub fn expect_word(&mut self, w: &str) -> (r: Result<(), SqlError>)
        requires
            old(self).ok(),
        ensures
            passes(r, *old(self), *final(self), want_word(old(self).t(), old(self).s(), w@)),
            r is Ok ==> final(self).at > old(self).at,
    {
        proof {
            reveal(want_word);
        }
        if self.eat_word(w) {
            return Ok(());
        }
        self.guard_here()?;
        Err(
            SqlError::syntax(
                cat5("expected `", w, "`, found `", self.peek().written().as_str(), "`").as_str(),
                self.here(),
            ),
        )
    }
}

// ── depth ────────────────────────────────────────────────────────────────

/// The error of a statement that nests too deep.
pub open spec fn too_deep(t: Seq<TokenV>, s: int) -> SqlErrorV {
    syntax("statement nests deeper than 32"@, here(t, s))
}

impl Parser {
    /// Goes one rule deeper.
    pub fn deeper(&mut self) -> (r: Result<(), SqlError>)
        requires
            old(self).ok(),
        ensures
            final(self).tokens == old(self).tokens,
            final(self).refused == old(self).refused,
            final(self).at == old(self).at,
            final(self).ok(),
            old(self).depth <= MAX_DEPTH ==> final(self).depth == old(self).depth + 1,
            match r {
                Ok(()) => old(self).depth < MAX_DEPTH,
                Err(e) => old(self).depth >= MAX_DEPTH && e.deep_view() == too_deep(
                    old(self).t(),
                    old(self).s(),
                ),
            },
    {
        if self.depth <= MAX_DEPTH {
            self.depth = self.depth + 1;
        }
        if self.depth > MAX_DEPTH {
            return Err(SqlError::syntax("statement nests deeper than 32", self.here()));
        }
        Ok(())
    }

    /// Comes back from one rule deeper.
    pub fn shallower(&mut self)
        requires
            old(self).ok(),
        ensures
            final(self).tokens == old(self).tokens,
            final(self).refused == old(self).refused,
            final(self).at == old(self).at,
            final(self).ok(),
            final(self).depth == if old(self).depth > 0 {
                old(self).depth - 1
            } else {
                0
            },
    {
        if self.depth > 0 {
            self.depth = self.depth - 1;
        }
    }
}

// ── names ────────────────────────────────────────────────────────────────

/// One segment of a dotted name; `at` is where the name began.
#[verifier::opaque]
pub open spec fn name_part(t: Seq<TokenV>, s: int, at: usize) -> Result<
    (Seq<char>, int),
    SqlErrorV,
> {
    match tok(t, s) {
        TokV::Word(w) => match listed(t, s, upper(w)) {
            Some(e) => Err(e),
            None => Ok((w, next(t, s))),
        },
        TokV::Quoted(w) => Ok((w, next(t, s))),
        other => Err(syntax("expected a name, found `"@ + tok_text(other) + "`"@, at)),
    }
}

/// The segments of a dotted name, behind those of `done`.
pub open spec fn name_parts(t: Seq<TokenV>, s: int, at: usize, done: Seq<Seq<char>>) -> Result<
    (Seq<Seq<char>>, int),
    SqlErrorV,
>
    decreases t.len() - s,
{
    match name_part(t, s, at) {
        Err(e) => Err(e),
        Ok((part, s2)) => if is_sym(t, s2, Sym::Dot) && s < next(t, s2) <= t.len() {
            name_parts(t, next(t, s2), at, done.push(part))
        } else {
            Ok((done.push(part), s2))
        },
    }
}

/// A name. Of `table.column` the last segment is meant; a third one would name
/// a schema.
#[verifier::opaque]
pub open spec fn name(t: Seq<TokenV>, s: int) -> Result<(Seq<char>, int), SqlErrorV> {
    match name_parts(t, s, here(t, s), Seq::empty()) {
        Err(e) => Err(e),
        Ok((parts, s)) => if parts.len() > 2 {
            Err(refusal("CREATE SCHEMA"@))
        } else {
            Ok((parts.last(), s))
        },
    }
}

/// The name of a source: the qualifier of a schema of the catalog is kept.
#[verifier::opaque]
pub open spec fn source_name(t: Seq<TokenV>, s: int) -> Result<(Seq<char>, int), SqlErrorV> {
    match name_part(t, s, here(t, s)) {
        Err(e) => Err(e),
        Ok((first, s1)) => if !is_sym(t, s1, Sym::Dot) {
            Ok((first, s1))
        } else {
            match name_part(t, next(t, s1), here(t, s)) {
                Err(e) => Err(e),
                Ok((second, s2)) => if is_sym(t, s2, Sym::Dot) {
                    Err(refusal("CREATE SCHEMA"@))
                } else if lower(first) == "pg_catalog"@ || lower(first) == "information_schema"@ {
                    Ok((lower(first) + "."@ + second, s2))
                } else {
                    Ok((second, s2))
                },
            }
        },
    }
}

impl Parser {
    pub fn name_part(&mut self, at: usize) -> (r: Result<String, SqlError>)
        requires
            old(self).ok(),
        ensures
            reads(r, *old(self), *final(self), name_part(old(self).t(), old(self).s(), at)),
            r is Ok ==> final(self).at > old(self).at,
    {
        proof {
            reveal(name_part);
        }
        match self.peek() {
            Tok::Word(w) => {
                let out = w.clone();
                match self.listed(ascii_upper(w.as_str()).as_str()) {
                    Some(e) => Err(e),
                    None => {
                        self.skip();
                        Ok(out)
                    },
                }
            },
            Tok::Quoted(w) => {
                let out = w.clone();
                self.skip();
                Ok(out)
            },
            other => Err(
                SqlError::syntax(
                    cat3("expected a name, found `", other.written().as_str(), "`").as_str(),
                    at,
                ),
            ),
        }
    }

    pub fn name_parts(&mut self, at: usize) -> (r: Result<Vec<String>, SqlError>)
        requires
            old(self).ok(),
        ensures
            reads(
                r,
                *old(self),
                *final(self),
                name_parts(old(self).t(), old(self).s(), at, Seq::empty()),
            ),
            r is Ok ==> r->Ok_0@.len() > 0 && final(self).at > old(self).at,
    {
        let ghost t = self.t();
        let ghost start = self.s();
        let mut parts: Vec<String> = Vec::new();
        assert(parts.deep_view() =~= Seq::<Seq<char>>::empty());
        loop
            invariant
                self.ok(),
                self.tokens == old(self).tokens,
                self.refused == old(self).refused,
                self.depth == old(self).depth,
                self.at >= old(self).at,
                t == self.t(),
                start == old(self).s(),
                t == old(self).t(),
                name_parts(t, start, at, Seq::empty()) == name_parts(
                    t,
                    self.s(),
                    at,
                    parts.deep_view(),
                ),
            decreases self.tokens@.len() - self.at,
        {
            let part = self.name_part(at)?;
            let ghost before = parts.deep_view();
            parts.push(part);
            assert(parts.deep_view() =~= before.push(part@));
            if !self.eat(Sym::Dot) {
                return Ok(parts);
            }
        }
    }

    /// A name.
    pub fn name(&mut self) -> (r: Result<String, SqlError>)
        requires
            old(self).ok(),
        ensures
            reads(r, *old(self), *final(self), name(old(self).t(), old(self).s())),
            r is Ok ==> final(self).at > old(self).at,
    {
        proof {
            reveal(name);
        }
        let at = self.here();
        let parts = self.name_parts(at)?;
        if parts.len() > 2 {
            return Err(refuse("CREATE SCHEMA"));
        }
        Ok(parts[parts.len() - 1].clone())
    }

    /// The name of a source.
    pub fn source_name(&mut self) -> (r: Result<String, SqlError>)
        requires
            old(self).ok(),
        ensures
            reads(r, *old(self), *final(self), source_name(old(self).t(), old(self).s())),
    {
        proof {
            reveal(source_name);
        }
        let at = self.here();
        let first = self.name_part(at)?;
        if !self.eat(Sym::Dot) {
            return Ok(first);
        }
        let second = self.name_part(at)?;
        if self.eat(Sym::Dot) {
            return Err(refuse("CREATE SCHEMA"));
        }
        let qualifier = ascii_lower(first.as_str());
        if same(qualifier.as_str(), "pg_catalog") || same(
            qualifier.as_str(),
            "information_schema",
        ) {
            return Ok(cat3(qualifier.as_str(), ".", second.as_str()));
        }
        Ok(second)
    }
}

} // verus!
