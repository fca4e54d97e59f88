//! `INSERT`, `UPDATE` and `DELETE`.

use vstd::prelude::*;
use crate::ast::{Literal, LiteralV};
use crate::compile::env::KEY_COLUMN;
use crate::error::{SqlError, SqlErrorV, Tier};
use crate::parser::condition::where_clause;
use crate::parser::cursor::{
    ahead, concludes, here, is_end, is_name, is_sym, is_word, name, next, parsed, passes, reads,
    syntax, tok, want, want_word, Parser, MAX_DEPTH,
};
use crate::parser::define::drop_mode;
use crate::parser::row::row_expr;
use crate::parser::select::optional_where;
use crate::parser::value::{literal, literals, sunk};
use crate::stmt::{
    DeleteWhere, DeleteWhereV, SetValue, SetValueV, Stmt, StmtV, UpdateWhere, UpdateWhereV,
};
use crate::text::{ascii_upper, cat2, cat7, decimal, decimal_usize, lower, owned, same,
    same_letters, upper};
use crate::token::{Sym, Tok, TokV, TokenV};

verus! {

// ── INSERT ───────────────────────────────────────────────────────────────

/// Names between commas, behind those of `done`.
pub open spec fn names(t: Seq<TokenV>, s: int, done: Seq<Seq<char>>) -> Result<
    (Seq<Seq<char>>, int),
    SqlErrorV,
>
    decreases t.len() - s,
{
    match name(t, s) {
        Err(e) => Err(e),
        Ok((n, s2)) => if is_sym(t, s2, Sym::Comma) && s < next(t, s2) <= t.len() {
            names(t, next(t, s2), done.push(n))
        } else {
            Ok((done.push(n), s2))
        },
    }
}

/// The `k`-th row of values, which has `width` of them.
#[verifier::opaque]
pub open spec fn insert_row(t: Seq<TokenV>, s: int, d: nat, width: nat, k: nat) -> Result<
    (Seq<LiteralV>, int),
    SqlErrorV,
> {
    match want(t, s, Sym::LParen) {
        Err(e) => Err(e),
        Ok(s) => match literals(t, s, d, Seq::empty()) {
            Err(e) => Err(e),
            Ok((values, s)) => match want(t, s, Sym::RParen) {
                Err(e) => Err(e),
                Ok(s) => if values.len() != width {
                    Err(
                        syntax(
                            "row "@ + decimal(k as int) + " has "@ + decimal(values.len() as int)
                                + " value(s) for "@ + decimal(width as int) + " column(s)"@,
                            here(t, s),
                        ),
                    )
                } else {
                    Ok((values, s))
                },
            },
        },
    }
}

/// Rows between commas, behind those of `done`.
pub open spec fn insert_rows(t: Seq<TokenV>, s: int, d: nat, width: nat, done: Seq<Seq<LiteralV>>) -> Result<
    (Seq<Seq<LiteralV>>, int),
    SqlErrorV,
>
    decreases t.len() - s,
{
    match insert_row(t, s, d, width, done.len() + 1) {
        Err(e) => Err(e),
        Ok((row, s2)) => if is_sym(t, s2, Sym::Comma) && s < next(t, s2) <= t.len() {
            insert_rows(t, next(t, s2), d, width, done.push(row))
        } else {
            Ok((done.push(row), s2))
        },
    }
}

/// A whole `INSERT`.
#[verifier::opaque]
pub open spec fn insert(t: Seq<TokenV>, s: int, d: nat) -> Result<(StmtV, int), SqlErrorV> {
    match want_word(t, s, "INSERT"@) {
        Err(e) => Err(e),
        Ok(s) => match want_word(t, s, "INTO"@) {
            Err(e) => Err(e),
            Ok(s) => if is_word(t, s, "GRAPH"@) {
                Err(
                    SqlErrorV::Refused {
                        keyword: "INSERT INTO GRAPH"@,
                        tier: Tier::Two,
                        reason: "QL_CONTRACT §2: `INSERT INTO GRAPH g EDGE type (...) VALUES` compiles to put_edge; the spelling is still open and nothing is built in this slice."@,
                    },
                )
            } else {
                match name(t, s) {
                    Err(e) => Err(e),
                    Ok((table, s)) => match want(t, s, Sym::LParen) {
                        Err(e) => Err(e),
                        Ok(s) => match names(t, s, Seq::empty()) {
                            Err(e) => Err(e),
                            Ok((columns, s)) => match want(t, s, Sym::RParen) {
                                Err(e) => Err(e),
                                Ok(s) => match want_word(t, s, "VALUES"@) {
                                    Err(e) => Err(e),
                                    Ok(s) => match insert_rows(t, s, d, columns.len(), Seq::empty()) {
                                        Err(e) => Err(e),
                                        Ok((rows, s)) => if is_word(t, s, "ON"@) {
                                            Err(
                                                SqlErrorV::Unsupported(
                                                    "INSERT ... ON CONFLICT: `Database::put` replaces the row at a key, and a conditional write has no atomic"@,
                                                ),
                                            )
                                        } else if is_word(t, s, "RETURNING"@) {
                                            Err(
                                                SqlErrorV::Unsupported(
                                                    "INSERT ... RETURNING: a write reports the rows it affected, not their contents"@,
                                                ),
                                            )
                                        } else {
                                            Ok((StmtV::Insert { table, columns, rows }, s))
                                        },
                                    },
                                },
                            },
                        },
                    },
                }
            },
        },
    }
}

impl Parser {
    fn names(&mut self) -> (r: Result<Vec<String>, SqlError>)
        requires
            old(self).ok(),
        ensures
            reads(r, *old(self), *final(self), names(old(self).t(), old(self).s(), Seq::empty())),
    {
        let ghost t = self.t();
        let ghost start = self.s();
        let mut out: Vec<String> = Vec::new();
        assert(out.deep_view() =~= Seq::<Seq<char>>::empty());
        loop
            invariant
                self.ok(),
                self.tokens == old(self).tokens,
                self.refused == old(self).refused,
                self.depth == old(self).depth,
                self.at >= old(self).at,
                t == self.t(),
                t == old(self).t(),
                start == old(self).s(),
                names(t, start, Seq::empty()) == names(t, self.s(), out.deep_view()),
            decreases self.tokens@.len() - self.at,
        {
            let n = self.name()?;
            let ghost before = out.deep_view();
            out.push(n);
            assert(out.deep_view() =~= before.push(n@));
            if !self.eat(Sym::Comma) {
                return Ok(out);
            }
        }
    }

    fn insert_row(&mut self, width: usize, k: usize) -> (r: Result<Vec<Literal>, SqlError>)
        requires
            old(self).ok(),
        ensures
            parsed(
                r,
                *old(self),
                *final(self),
                insert_row(old(self).t(), old(self).s(), old(self).d(), width as nat, k as nat),
            ),
            r is Ok ==> final(self).at > old(self).at,
    {
        proof {
            reveal(insert_row);
        }
        self.expect(Sym::LParen)?;
        let values = self.literals()?;
        self.expect(Sym::RParen)?;
        assert(values.deep_view().len() == values@.len());
        if values.len() != width {
            return Err(
                SqlError::syntax(
                    cat7(
                        "row ",
                        decimal_usize(k).as_str(),
                        " has ",
                        decimal_usize(values.len()).as_str(),
                        " value(s) for ",
                        decimal_usize(width).as_str(),
                        " column(s)",
                    ).as_str(),
                    self.here(),
                ),
            );
        }
        Ok(values)
    }

    fn insert_rows(&mut self, width: usize) -> (r: Result<Vec<Vec<Literal>>, SqlError>)
        requires
            old(self).ok(),
        ensures
            parsed(
                r,
                *old(self),
                *final(self),
                insert_rows(
                    old(self).t(),
                    old(self).s(),
                    old(self).d(),
                    width as nat,
                    Seq::empty(),
                ),
            ),
    {
        let ghost t = self.t();
        let ghost d = self.d();
        let ghost start = self.s();
        let n: usize = self.tokens.len();
        let mut out: Vec<Vec<Literal>> = Vec::new();
        assert(out.deep_view() =~= Seq::<Seq<LiteralV>>::empty());
        loop
            invariant
                self.ok(),
                self.tokens == old(self).tokens,
                self.refused == old(self).refused,
                self.depth == old(self).depth,
                self.at >= old(self).at,
                t == self.t(),
                t == old(self).t(),
                d == old(self).d(),
                start == old(self).s(),
                n == self.tokens@.len(),
                out@.len() <= self.at,
                insert_rows(t, start, d, width as nat, Seq::empty()) == insert_rows(
                    t,
                    self.s(),
                    d,
                    width as nat,
                    out.deep_view(),
                ),
            decreases self.tokens@.len() - self.at,
        {
            let row = self.insert_row(width, out.len() + 1)?;
            let ghost before = out.deep_view();
            out.push(row);
            assert(out.deep_view() =~= before.push(row.deep_view()));
            if !self.eat(Sym::Comma) {
                return Ok(out);
            }
        }
    }

    /// A whole `INSERT`.
    pub fn insert(&mut self) -> (r: Result<Stmt, SqlError>)
        requires
            old(self).ok(),
        ensures
            parsed(r, *old(self), *final(self), insert(old(self).t(), old(self).s(), old(self).d())),
    {
        proof {
            reveal(insert);
        }
        self.expect_word("INSERT")?;
        self.expect_word("INTO")?;
        if self.at_word("GRAPH") {
            return Err(
                SqlError::Refused {
                    keyword: owned("INSERT INTO GRAPH"),
                    tier: Tier::Two,
                    reason: owned(
                        "QL_CONTRACT §2: `INSERT INTO GRAPH g EDGE type (...) VALUES` compiles to put_edge; the spelling is still open and nothing is built in this slice.",
                    ),
                },
            );
        }
        let table = self.name()?;
        self.expect(Sym::LParen)?;
        let columns = self.names()?;
        assert(columns.deep_view().len() == columns@.len());
        self.expect(Sym::RParen)?;
        self.expect_word("VALUES")?;
        let rows = self.insert_rows(columns.len())?;
        if self.at_word("ON") {
            return Err(
                SqlError::unsupported(
                    "INSERT ... ON CONFLICT: `Database::put` replaces the row at a key, and a conditional write has no atomic",
                ),
            );
        }
        if self.at_word("RETURNING") {
            return Err(
                SqlError::unsupported(
                    "INSERT ... RETURNING: a write reports the rows it affected, not their contents",
                ),
            );
        }
        Ok(Stmt::Insert { table, columns, rows })
    }
}

// ── SET ──────────────────────────────────────────────────────────────────

/// Whether a token is one value by itself.
pub open spec fn is_value(x: TokV) -> bool {
    match x {
        TokV::Num(_, _) | TokV::Str(_) | TokV::Param(_) => true,
        TokV::Word(w) => upper(w) == "TRUE"@ || upper(w) == "FALSE"@ || upper(w) == "NULL"@,
        _ => false,
    }
}

/// Whether a token ends an assignment.
pub open spec fn ends_assignment(x: TokV) -> bool {
    match x {
        TokV::Eof => true,
        TokV::Sym(y) => y == Sym::Comma || y == Sym::Semicolon,
        TokV::Word(w) => lower(w) == lower("WHERE"@),
        _ => false,
    }
}

/// Whether the value at a place is one literal and nothing more.
#[verifier::opaque]
pub open spec fn plain_literal_ahead(t: Seq<TokenV>, s: int) -> bool {
    let k = if is_sym(t, s, Sym::Minus) {
        1int
    } else {
        0
    };
    (is_sym(t, s, Sym::LParen) && is_word(t, ahead(t, s, 1), "SELECT"@)) || (is_value(
        tok(t, ahead(t, s, k)),
    ) && ends_assignment(tok(t, ahead(t, s, k + 1))))
}

/// The value of an assignment.
#[verifier::opaque]
pub open spec fn set_value(t: Seq<TokenV>, s: int, d: nat) -> Result<(SetValueV, int), SqlErrorV> {
    if plain_literal_ahead(t, s) {
        match literal(t, s, d) {
            Err(e) => Err(e),
            Ok((l, s)) => Ok((SetValueV::Lit(l), s)),
        }
    } else {
        match row_expr(t, s, d) {
            Err(e) => Err(e),
            Ok((e, s)) => Ok((SetValueV::Row(e), s)),
        }
    }
}

/// `column = value`.
#[verifier::opaque]
pub open spec fn assignment(t: Seq<TokenV>, s: int, d: nat) -> Result<
    ((Seq<char>, SetValueV), int),
    SqlErrorV,
> {
    match name(t, s) {
        Err(e) => Err(e),
        Ok((column, s)) => match want(t, s, Sym::Eq) {
            Err(e) => Err(e),
            Ok(s) => match set_value(t, s, d) {
                Err(e) => Err(e),
                Ok((value, s)) => Ok(((column, value), s)),
            },
        },
    }
}

/// Assignments between commas, behind those of `done`.
pub open spec fn assignments(t: Seq<TokenV>, s: int, d: nat, done: Seq<(Seq<char>, SetValueV)>) -> Result<
    (Seq<(Seq<char>, SetValueV)>, int),
    SqlErrorV,
>
    decreases t.len() - s,
{
    match assignment(t, s, d) {
        Err(e) => Err(e),
        Ok((a, s2)) => if is_sym(t, s2, Sym::Comma) && s < next(t, s2) <= t.len() {
            assignments(t, next(t, s2), d, done.push(a))
        } else {
            Ok((done.push(a), s2))
        },
    }
}

impl Tok {
    fn is_value(&self) -> (r: bool)
        ensures
            r == is_value(self.deep_view()),
    {
        match self {
            Tok::Num(_, _) => true,
            Tok::Str(_) => true,
            Tok::Param(_) => true,
            Tok::Word(w) => {
                let u = ascii_upper(w.as_str());
                same(u.as_str(), "TRUE") || same(u.as_str(), "FALSE") || same(u.as_str(), "NULL")
            },
            _ => false,
        }
    }

    fn ends_assignment(&self) -> (r: bool)
        ensures
            r == ends_assignment(self.deep_view()),
    {
        match self {
            Tok::Eof => true,
            Tok::Sym(x) => *x == Sym::Comma || *x == Sym::Semicolon,
            Tok::Word(w) => same_letters(w.as_str(), "WHERE"),
            _ => false,
        }
    }
}

impl Parser {
    fn plain_literal_ahead(&self) -> (r: bool)
        requires
            self.ok(),
        ensures
            r == plain_literal_ahead(self.t(), self.s()),
    {
        proof {
            reveal(plain_literal_ahead);
        }
        if self.at_sym(Sym::LParen) && self.word_ahead(1, "SELECT") {
            return true;
        }
        let k: usize = if self.at_sym(Sym::Minus) {
            1
        } else {
            0
        };
        self.peek_at(k).is_value() && self.peek_at(k + 1).ends_assignment()
    }

    fn set_value(&mut self) -> (r: Result<SetValue, SqlError>)
        requires
            old(self).ok(),
        ensures
            parsed(r, *old(self), *final(self), set_value(old(self).t(), old(self).s(), old(self).d())),
    {
        proof {
            reveal(set_value);
        }
        if self.plain_literal_ahead() {
            let l = self.literal()?;
            return Ok(SetValue::Lit(l));
        }
        let e = self.row_expr()?;
        Ok(SetValue::Row(e))
    }

    fn assignment(&mut self) -> (r: Result<(String, SetValue), SqlError>)
        requires
            old(self).ok(),
        ensures
            parsed(r, *old(self), *final(self), assignment(old(self).t(), old(self).s(), old(self).d())),
    {
        proof {
            reveal(assignment);
        }
        let column = self.name()?;
        self.expect(Sym::Eq)?;
        let value = self.set_value()?;
        Ok((column, value))
    }

    fn assignments(&mut self) -> (r: Result<Vec<(String, SetValue)>, SqlError>)
        requires
            old(self).ok(),
        ensures
            parsed(
                r,
                *old(self),
                *final(self),
                assignments(old(self).t(), old(self).s(), old(self).d(), Seq::empty()),
            ),
    {
        let ghost t = self.t();
        let ghost d = self.d();
        let ghost start = self.s();
        let mut out: Vec<(String, SetValue)> = Vec::new();
        assert(out.deep_view() =~= Seq::<(Seq<char>, SetValueV)>::empty());
        loop
            invariant
                self.ok(),
                self.tokens == old(self).tokens,
                self.refused == old(self).refused,
                self.depth == old(self).depth,
                self.at >= old(self).at,
                t == self.t(),
                t == old(self).t(),
                d == old(self).d(),
                start == old(self).s(),
                assignments(t, start, d, Seq::empty()) == assignments(
                    t,
                    self.s(),
                    d,
                    out.deep_view(),
                ),
            decreases self.tokens@.len() - self.at,
        {
            let a = self.assignment()?;
            let ghost before = out.deep_view();
            out.push(a);
            assert(out.deep_view() =~= before.push(a.deep_view()));
            if !self.eat(Sym::Comma) {
                return Ok(out);
            }
        }
    }
}

// ── the key of a write ───────────────────────────────────────────────────

/// `_key = literal` with nothing behind it: the key, the place behind it and
/// the depth. Where anything else stands the place is kept, and the depth is
/// that which reading the literal left.
#[verifier::opaque]
pub open spec fn key_equality(t: Seq<TokenV>, s: int, d: nat) -> (Option<LiteralV>, int, nat) {
    if !is_name(t, s) {
        (None, s, d)
    } else {
        match name(t, s) {
            Err(_) => (None, s, d),
            Ok((column, s1)) => if column != KEY_COLUMN@ || !is_sym(t, s1, Sym::Eq) {
                (None, s, d)
            } else {
                match literal(t, next(t, s1), d) {
                    Err(_) => (None, s, d + sunk(t, next(t, s1), d)),
                    Ok((key, s2)) => if is_end(t, s2) || is_word(t, s2, "RETURNING"@) {
                        (Some(key), s2, d)
                    } else {
                        (None, s, d)
                    },
                }
            },
        }
    }
}

pub open spec fn no_returning_error(statement: Seq<char>) -> SqlErrorV {
    SqlErrorV::Unsupported(
        statement + " ... RETURNING: a write reports the rows it affected, not their contents"@,
    )
}

/// A write has no `RETURNING`.
#[verifier::opaque]
pub open spec fn no_returning(t: Seq<TokenV>, s: int, statement: Seq<char>) -> Result<int, SqlErrorV> {
    if is_word(t, s, "RETURNING"@) {
        Err(no_returning_error(statement))
    } else {
        Ok(s)
    }
}

impl Parser {
    fn key_equality_ahead(&mut self) -> (r: Option<Literal>)
        requires
            old(self).ok(),
            old(self).depth <= MAX_DEPTH,
        ensures
            final(self).tokens == old(self).tokens,
            final(self).refused == old(self).refused,
            final(self).ok(),
            final(self).at >= old(self).at,
            (r.deep_view(), final(self).s(), final(self).d()) == key_equality(
                old(self).t(),
                old(self).s(),
                old(self).d(),
            ),
    {
        proof {
            reveal(key_equality);
        }
        let mark = self.at;
        if !self.at_name() {
            return None;
        }
        let column = match self.name() {
            Ok(column) => column,
            Err(_) => {
                self.reset(mark);
                return None;
            },
        };
        if !same(column.as_str(), KEY_COLUMN) || !self.eat(Sym::Eq) {
            self.reset(mark);
            return None;
        }
        let key = match self.literal() {
            Ok(key) => key,
            Err(_) => {
                self.reset(mark);
                return None;
            },
        };
        if self.at_end() || self.at_word("RETURNING") {
            return Some(key);
        }
        self.reset(mark);
        None
    }

    fn no_returning(&self, statement: &str) -> (r: Result<(), SqlError>)
        requires
            self.ok(),
        ensures
            passes(r, *self, *self, no_returning(self.t(), self.s(), statement@)),
    {
        proof {
            reveal(no_returning);
        }
        if self.at_word("RETURNING") {
            return Err(
                SqlError::unsupported(
                    cat2(
                        statement,
                        " ... RETURNING: a write reports the rows it affected, not their contents",
                    ).as_str(),
                ),
            );
        }
        Ok(())
    }
}

// ── UPDATE ───────────────────────────────────────────────────────────────

/// Whether every assignment is a constant.
pub open spec fn all_literals(list: Seq<(Seq<char>, SetValueV)>) -> bool {
    forall|k: int| 0 <= k < list.len() ==> (#[trigger] list[k]).1 is Lit
}

pub open spec fn literals_of(list: Seq<(Seq<char>, SetValueV)>) -> Seq<(Seq<char>, LiteralV)> {
    list.map_values(|a: (Seq<char>, SetValueV)| (a.0, a.1->Lit_0))
}

/// `UPDATE table SET assignments WHERE`.
#[verifier::opaque]
pub open spec fn update_head(t: Seq<TokenV>, s: int, d: nat) -> Result<
    ((Seq<char>, Seq<(Seq<char>, SetValueV)>), int),
    SqlErrorV,
> {
    match want_word(t, s, "UPDATE"@) {
        Err(e) => Err(e),
        Ok(s) => if is_word(t, s, "GRAPH"@) {
            Err(
                SqlErrorV::Refused {
                    keyword: "UPDATE GRAPH"@,
                    tier: Tier::Two,
                    reason: "QL_CONTRACT §2: `UPDATE GRAPH g EDGE type SET ...` is an edge posting rewrite; not built in this slice."@,
                },
            )
        } else {
            match name(t, s) {
                Err(e) => Err(e),
                Ok((table, s)) => match want_word(t, s, "SET"@) {
                    Err(e) => Err(e),
                    Ok(s) => match assignments(t, s, d, Seq::empty()) {
                        Err(e) => Err(e),
                        Ok((list, s)) => match want_word(t, s, "WHERE"@) {
                            Err(e) => Err(e),
                            Ok(s) => Ok(((table, list), s)),
                        },
                    },
                },
            }
        },
    }
}

/// The condition of an `UPDATE` that is not at one key.
#[verifier::opaque]
pub open spec fn update_rest(
    t: Seq<TokenV>,
    s: int,
    d: nat,
    table: Seq<char>,
    assignments: Seq<(Seq<char>, SetValueV)>,
) -> Result<(StmtV, int), SqlErrorV> {
    match where_clause(t, s, d) {
        Err(e) => Err(e),
        Ok((predicates, s)) => match no_returning(t, s, "UPDATE"@) {
            Err(e) => Err(e),
            Ok(s) => Ok((StmtV::UpdateWhere(UpdateWhereV { table, assignments, predicates }), s)),
        },
    }
}

/// A whole `UPDATE`. One of constants at one key is a statement of its own.
#[verifier::opaque]
pub open spec fn update(t: Seq<TokenV>, s: int, d: nat) -> Result<(StmtV, int), SqlErrorV> {
    match update_head(t, s, d) {
        Err(e) => Err(e),
        Ok((head, s)) => if !all_literals(head.1) {
            update_rest(t, s, d, head.0, head.1)
        } else {
            let (key, s, d) = key_equality(t, s, d);
            match key {
                Some(key) => match no_returning(t, s, "UPDATE"@) {
                    Err(e) => Err(e),
                    Ok(s) => {
                        Ok((StmtV::Update { table: head.0, assignments: literals_of(head.1), key }, s))
                    }
                },
                None => update_rest(t, s, d, head.0, head.1),
            }
        },
    }
}

fn only_literals(list: &Vec<(String, SetValue)>) -> (r: Option<Vec<(String, Literal)>>)
    ensures
        match r {
            Some(v) => all_literals(list.deep_view()) && v.deep_view() == literals_of(
                list.deep_view(),
            ),
            None => !all_literals(list.deep_view()),
        },
{
    let ghost all = list.deep_view();
    let mut out: Vec<(String, Literal)> = Vec::new();
    let mut i: usize = 0;
    while i < list.len()
        invariant
            i <= list@.len(),
            all == list.deep_view(),
            out@.len() == i,
            forall|k: int| 0 <= k < i ==> (#[trigger] all[k]).1 is Lit,
            forall|k: int|
                0 <= k < i ==> (#[trigger] out@[k]).deep_view() == (all[k].0, all[k].1->Lit_0),
        decreases list@.len() - i,
    {
        assert(all[i as int] == list@[i as int].deep_view());
        match &list[i].1 {
            SetValue::Lit(l) => {
                out.push((list[i].0.clone(), l.dup()));
            },
            SetValue::Row(_) => {
                assert(!(all[i as int].1 is Lit));
                return None;
            },
        }
        i = i + 1;
    }
    assert(out.deep_view() =~= literals_of(all));
    Some(out)
}

impl Parser {
    fn update_head(&mut self) -> (r: Result<(String, Vec<(String, SetValue)>), SqlError>)
        requires
            old(self).ok(),
        ensures
            parsed(r, *old(self), *final(self), update_head(old(self).t(), old(self).s(), old(self).d())),
    {
        proof {
            reveal(update_head);
        }
        self.expect_word("UPDATE")?;
        if self.at_word("GRAPH") {
            return Err(
                SqlError::Refused {
                    keyword: owned("UPDATE GRAPH"),
                    tier: Tier::Two,
                    reason: owned(
                        "QL_CONTRACT §2: `UPDATE GRAPH g EDGE type SET ...` is an edge posting rewrite; not built in this slice.",
                    ),
                },
            );
        }
        let table = self.name()?;
        self.expect_word("SET")?;
        let list = self.assignments()?;
        self.expect_word("WHERE")?;
        Ok((table, list))
    }

    fn update_rest(&mut self, table: String, assignments: Vec<(String, SetValue)>) -> (r: Result<
        Stmt,
        SqlError,
    >)
        requires
            old(self).ok(),
        ensures
            concludes(
                r,
                *old(self),
                *final(self),
                update_rest(
                    old(self).t(),
                    old(self).s(),
                    old(self).d(),
                    table@,
                    assignments.deep_view(),
                ),
            ),
    {
        proof {
            reveal(update_rest);
        }
        let predicates = self.where_clause()?;
        self.no_returning("UPDATE")?;
        Ok(Stmt::UpdateWhere(UpdateWhere { table, assignments, predicates }))
    }

    /// A whole `UPDATE`.
    pub fn update(&mut self) -> (r: Result<Stmt, SqlError>)
        requires
            old(self).ok(),
            old(self).depth <= MAX_DEPTH,
        ensures
            concludes(r, *old(self), *final(self), update(old(self).t(), old(self).s(), old(self).d())),
    {
        proof {
            reveal(update);
        }
        let (table, list) = self.update_head()?;
        match only_literals(&list) {
            None => self.update_rest(table, list),
            Some(constants) => match self.key_equality_ahead() {
                Some(key) => {
                    self.no_returning("UPDATE")?;
                    Ok(Stmt::Update { table, assignments: constants, key })
                },
                None => self.update_rest(table, list),
            },
        }
    }
}

// ── DELETE ───────────────────────────────────────────────────────────────

/// The condition and the mode of a `DELETE` that is not at one key.
#[verifier::opaque]
pub open spec fn delete_rest(t: Seq<TokenV>, s: int, d: nat, table: Option<Seq<char>>) -> Result<
    (StmtV, int),
    SqlErrorV,
> {
    match optional_where(t, s, d) {
        Err(e) => Err(e),
        Ok((predicates, s)) => {
            let (cascade, s) = drop_mode(t, s);
            match no_returning(t, s, "DELETE"@) {
                Err(e) => Err(e),
                Ok(s) => Ok((StmtV::DeleteWhere(DeleteWhereV { table, predicates, cascade }), s)),
            }
        }
    }
}

/// A `DELETE` from one table.
#[verifier::opaque]
pub open spec fn delete_from(t: Seq<TokenV>, s: int, d: nat) -> Result<(StmtV, int), SqlErrorV> {
    match name(t, s) {
        Err(e) => Err(e),
        Ok((table, s)) => if !is_word(t, s, "WHERE"@) {
            delete_rest(t, s, d, Some(table))
        } else {
            let (key, s2, d2) = key_equality(t, next(t, s), d);
            match key {
                Some(key) => match no_returning(t, s2, "DELETE"@) {
                    Err(e) => Err(e),
                    Ok(s) => Ok((StmtV::Delete { table, key }, s)),
                },
                None => delete_rest(t, s, d2, Some(table)),
            }
        },
    }
}

/// A whole `DELETE`. One at one key is a statement of its own.
#[verifier::opaque]
pub open spec fn delete(t: Seq<TokenV>, s: int, d: nat) -> Result<(StmtV, int), SqlErrorV> {
    match want_word(t, s, "DELETE"@) {
        Err(e) => Err(e),
        Ok(s) => match want_word(t, s, "FROM"@) {
            Err(e) => Err(e),
            Ok(s) => if is_word(t, s, "GRAPH"@) {
                Err(
                    SqlErrorV::Refused {
                        keyword: "DELETE FROM GRAPH"@,
                        tier: Tier::Two,
                        reason: "QL_CONTRACT §2: `DELETE FROM GRAPH g EDGE type WHERE ...` compiles to delete_edge; not built in this slice."@,
                    },
                )
            } else if is_word(t, s, "ALL"@) && !is_sym(t, ahead(t, s, 1), Sym::Dot) {
                delete_rest(t, next(t, s), d, None)
            } else {
                delete_from(t, s, d)
            },
        },
    }
}

impl Parser {
    fn delete_rest(&mut self, table: Option<String>) -> (r: Result<Stmt, SqlError>)
        requires
            old(self).ok(),
        ensures
            concludes(
                r,
                *old(self),
                *final(self),
                delete_rest(old(self).t(), old(self).s(), old(self).d(), table.deep_view()),
            ),
    {
        proof {
            reveal(delete_rest);
        }
        let predicates = self.optional_where()?;
        let cascade = self.drop_mode();
        self.no_returning("DELETE")?;
        Ok(Stmt::DeleteWhere(DeleteWhere { table, predicates, cascade }))
    }

    fn delete_from(&mut self) -> (r: Result<Stmt, SqlError>)
        requires
            old(self).ok(),
            old(self).depth <= MAX_DEPTH,
        ensures
            concludes(r, *old(self), *final(self), delete_from(old(self).t(), old(self).s(), old(self).d())),
    {
        proof {
            reveal(delete_from);
        }
        let table = self.name()?;
        if self.at_word("WHERE") {
            let mark = self.at;
            self.skip();
            if let Some(key) = self.key_equality_ahead() {
                self.no_returning("DELETE")?;
                return Ok(Stmt::Delete { table, key });
            }
            self.reset(mark);
        }
        self.delete_rest(Some(table))
    }

    /// A whole `DELETE`.
    pub fn delete(&mut self) -> (r: Result<Stmt, SqlError>)
        requires
            old(self).ok(),
            old(self).depth <= MAX_DEPTH,
        ensures
            concludes(r, *old(self), *final(self), delete(old(self).t(), old(self).s(), old(self).d())),
    {
        proof {
            reveal(delete);
        }
        self.expect_word("DELETE")?;
        self.expect_word("FROM")?;
        if self.at_word("GRAPH") {
            return Err(
                SqlError::Refused {
                    keyword: owned("DELETE FROM GRAPH"),
                    tier: Tier::Two,
                    reason: owned(
                        "QL_CONTRACT §2: `DELETE FROM GRAPH g EDGE type WHERE ...` compiles to delete_edge; not built in this slice.",
                    ),
                },
            );
        }
        if self.at_word("ALL") && !self.sym_ahead(1, Sym::Dot) {
            self.skip();
            return self.delete_rest(None);
        }
        self.delete_from()
    }
}

} // verus!
