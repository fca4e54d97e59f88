//! One whole statement.

use vstd::prelude::*;
use crate::error::{SqlError, SqlErrorV};
use crate::parser::cursor::{
    concludes, guard_here, here, is_sym, is_word, listed, next, parsed, past_sym, past_word, reads,
    syntax, tok, want_word, word, Parser, MAX_DEPTH,
};
use crate::parser::define::{alter, create, drop_statement};
use crate::parser::select::select;
use crate::parser::session::{session_select, set_local, show};
use crate::parser::write::{delete, insert, update};
use crate::stmt::{Stmt, StmtV};
use crate::text::cat3;
use crate::token::{tok_text, Sym, Tok, Token, TokenV};

verus! {

// ── EXPLAIN ──────────────────────────────────────────────────────────────

/// A write that `EXPLAIN` prints: one at a condition has a plan, one at a key
/// has none.
pub open spec fn explained(w: StmtV) -> Result<StmtV, SqlErrorV> {
    match w {
        StmtV::UpdateWhere(u) => Ok(StmtV::ExplainUpdate(u)),
        StmtV::DeleteWhere(x) => Ok(StmtV::ExplainDelete(x)),
        StmtV::DropTable { table, if_exists, cascade } => Ok(
            StmtV::ExplainDropTable { table, if_exists, cascade },
        ),
        StmtV::DropIndex { .. } => Err(
            SqlErrorV::Unsupported(
                "EXPLAIN DROP is written for DROP TABLE; DROP INDEX has one bounded phase and nothing to print"@,
            ),
        ),
        _ => Err(
            SqlErrorV::Unsupported(
                "EXPLAIN is written for the PREDICATED write: `UPDATE t SET ... WHERE <predicate>` and `DELETE FROM t WHERE <predicate>` prepare a candidate query and have a plan; a write at one key is one point-get and one put"@,
            ),
        ),
    }
}

/// What stands behind `EXPLAIN`.
#[verifier::opaque]
pub open spec fn explain(t: Seq<TokenV>, s: int, d: nat, u: Seq<(Seq<char>, Seq<char>)>) -> Result<
    (StmtV, int),
    SqlErrorV,
> {
    if is_word(t, s, "ANALYZE"@) || is_sym(t, s, Sym::LParen) {
        Err(
            SqlErrorV::Unsupported(
                "EXPLAIN takes no options here: it always runs the statement and always prints the plan, the filters, the order and the QueryWork counters"@,
            ),
        )
    } else if is_word(t, s, "DROP"@) {
        match drop_statement(t, s) {
            Err(e) => Err(e),
            Ok((w, s)) => match explained(w) {
                Err(e) => Err(e),
                Ok(w) => Ok((w, s)),
            },
        }
    } else if is_word(t, s, "ALTER"@) {
        match alter(t, s, u) {
            Err(e) => Err(e),
            Ok((pair, s)) => Ok((StmtV::ExplainAlterTable { table: pair.0, action: pair.1 }, s)),
        }
    } else if is_word(t, s, "UPDATE"@) {
        match update(t, s, d) {
            Err(e) => Err(e),
            Ok((w, s)) => match explained(w) {
                Err(e) => Err(e),
                Ok(w) => Ok((w, s)),
            },
        }
    } else if is_word(t, s, "DELETE"@) {
        match delete(t, s, d) {
            Err(e) => Err(e),
            Ok((w, s)) => match explained(w) {
                Err(e) => Err(e),
                Ok(w) => Ok((w, s)),
            },
        }
    } else {
        match select(t, s, d) {
            Err(e) => Err(e),
            Ok((q, s)) => Ok((StmtV::Explain(Box::new(q)), s)),
        }
    }
}

fn explain_write(w: Stmt) -> (r: Result<Stmt, SqlError>)
    ensures
        match explained(w.deep_view()) {
            Ok(v) => r is Ok && r->Ok_0.deep_view() == v,
            Err(e) => r is Err && r->Err_0.deep_view() == e,
        },
{
    match w {
        Stmt::UpdateWhere(u) => Ok(Stmt::ExplainUpdate(u)),
        Stmt::DeleteWhere(x) => Ok(Stmt::ExplainDelete(x)),
        Stmt::DropTable { table, if_exists, cascade } => Ok(
            Stmt::ExplainDropTable { table, if_exists, cascade },
        ),
        Stmt::DropIndex { .. } => Err(
            SqlError::unsupported(
                "EXPLAIN DROP is written for DROP TABLE; DROP INDEX has one bounded phase and nothing to print",
            ),
        ),
        _ => Err(
            SqlError::unsupported(
                "EXPLAIN is written for the PREDICATED write: `UPDATE t SET ... WHERE <predicate>` and `DELETE FROM t WHERE <predicate>` prepare a candidate query and have a plan; a write at one key is one point-get and one put",
            ),
        ),
    }
}

// ── transactions ─────────────────────────────────────────────────────────

/// `TRANSACTION`, `WORK` or nothing.
pub open spec fn past_work(t: Seq<TokenV>, s: int) -> int {
    if is_word(t, s, "TRANSACTION"@) {
        next(t, s)
    } else {
        past_word(t, s, "WORK"@)
    }
}

/// What stands behind `BEGIN`.
#[verifier::opaque]
pub open spec fn begin(t: Seq<TokenV>, s: int) -> Result<(StmtV, int), SqlErrorV> {
    if is_word(t, s, "BULK"@) {
        Ok((StmtV::BeginBulk, next(t, s)))
    } else {
        let s = past_work(t, s);
        if is_word(t, s, "READ"@) {
            match want_word(t, next(t, s), "ONLY"@) {
                Err(e) => Err(e),
                Ok(s) => Ok((StmtV::Begin, s)),
            }
        } else {
            Ok((StmtV::Begin, s))
        }
    }
}

impl Parser {
    fn skip_work(&mut self)
        requires
            old(self).ok(),
        ensures
            final(self).tokens == old(self).tokens,
            final(self).refused == old(self).refused,
            final(self).depth == old(self).depth,
            final(self).ok(),
            final(self).at >= old(self).at,
            final(self).s() == past_work(old(self).t(), old(self).s()),
    {
        if !self.eat_word("TRANSACTION") {
            let _ = self.eat_word("WORK");
        }
    }

    fn begin(&mut self) -> (r: Result<Stmt, SqlError>)
        requires
            old(self).ok(),
        ensures
            reads(r, *old(self), *final(self), begin(old(self).t(), old(self).s())),
    {
        proof {
            reveal(begin);
        }
        if self.eat_word("BULK") {
            return Ok(Stmt::BeginBulk);
        }
        self.skip_work();
        if self.eat_word("READ") {
            self.expect_word("ONLY")?;
        }
        Ok(Stmt::Begin)
    }

    fn explain(&mut self) -> (r: Result<Stmt, SqlError>)
        requires
            old(self).ok(),
            old(self).depth <= MAX_DEPTH,
        ensures
            concludes(r, *old(self), *final(self), explain(old(self).t(), old(self).s(), old(self).d(), old(self).u())),
    {
        proof {
            reveal(explain);
        }
        if self.at_word("ANALYZE") || self.at_sym(Sym::LParen) {
            return Err(
                SqlError::unsupported(
                    "EXPLAIN takes no options here: it always runs the statement and always prints the plan, the filters, the order and the QueryWork counters",
                ),
            );
        }
        if self.at_word("DROP") {
            let w = self.drop_statement()?;
            return explain_write(w);
        }
        if self.at_word("ALTER") {
            let (table, action) = self.alter()?;
            return Ok(Stmt::ExplainAlterTable { table, action });
        }
        if self.at_word("UPDATE") {
            let w = self.update()?;
            return explain_write(w);
        }
        if self.at_word("DELETE") {
            let w = self.delete()?;
            return explain_write(w);
        }
        let q = self.select()?;
        Ok(Stmt::Explain(Box::new(q)))
    }
}

// ── statements ───────────────────────────────────────────────────────────

/// A `SELECT`, with a source or without one.
#[verifier::opaque]
pub open spec fn select_statement(t: Seq<TokenV>, s: int, d: nat) -> Result<(StmtV, int), SqlErrorV> {
    let (items, s) = session_select(t, s);
    match items {
        Some(items) => Ok((StmtV::SessionRows(items), s)),
        None => match select(t, s, d) {
            Err(e) => Err(e),
            Ok((q, s)) => Ok((StmtV::Select(Box::new(q)), s)),
        },
    }
}

/// One statement, by its first word.
pub open spec fn statement(t: Seq<TokenV>, s: int, d: nat, u: Seq<(Seq<char>, Seq<char>)>) -> Result<
    (StmtV, int),
    SqlErrorV,
> {
    match word(t, s) {
        None => Err(
            syntax("expected a statement, found `"@ + tok_text(tok(t, s)) + "`"@, here(t, s)),
        ),
        Some(w) => if w == "SELECT"@ {
            select_statement(t, s, d)
        } else if w == "SHOW"@ {
            match show(t, s) {
                Err(e) => Err(e),
                Ok((shown, s)) => Ok((StmtV::Show(shown), s)),
            }
        } else if w == "EXPLAIN"@ {
            explain(t, next(t, s), d, u)
        } else if w == "INSERT"@ {
            insert(t, s, d)
        } else if w == "UPDATE"@ {
            update(t, s, d)
        } else if w == "DELETE"@ {
            delete(t, s, d)
        } else if w == "CREATE"@ {
            create(t, s, u)
        } else if w == "ALTER"@ {
            match alter(t, s, u) {
                Err(e) => Err(e),
                Ok((pair, s)) => Ok((StmtV::AlterTable { table: pair.0, action: pair.1 }, s)),
            }
        } else if w == "DROP"@ {
            drop_statement(t, s)
        } else if w == "BEGIN"@ {
            begin(t, next(t, s))
        } else if w == "START"@ {
            match want_word(t, next(t, s), "TRANSACTION"@) {
                Err(e) => Err(e),
                Ok(s) => Ok((StmtV::Begin, s)),
            }
        } else if w == "COMMIT"@ || w == "END"@ {
            if is_word(t, next(t, s), "BULK"@) {
                Ok((StmtV::EndBulk, next(t, next(t, s))))
            } else {
                Ok((StmtV::Commit, past_work(t, next(t, s))))
            }
        } else if w == "ROLLBACK"@ || w == "ABORT"@ {
            Ok((StmtV::Rollback, past_work(t, next(t, s))))
        } else if w == "SET"@ || w == "RESET"@ {
            set_local(t, s, d)
        } else {
            match listed(t, s, w) {
                Some(e) => Err(e),
                None => Err(syntax("`"@ + w + "` does not begin a statement"@, here(t, s))),
            }
        },
    }
}

/// The statement that a text's tokens write: one statement, and at most a
/// semicolon behind it. `u` are the texts that the engine takes for no UUID.
pub open spec fn parsed_statement(t: Seq<TokenV>, u: Seq<(Seq<char>, Seq<char>)>) -> Result<
    StmtV,
    SqlErrorV,
> {
    match statement(t, 0, 0, u) {
        Err(e) => Err(e),
        Ok((stmt, s)) => {
            let s = past_sym(t, s, Sym::Semicolon);
            if tok(t, s) is Eof {
                Ok(stmt)
            } else {
                match guard_here(t, s) {
                    Err(e) => Err(e),
                    Ok(s) => {
                        Err(syntax("one statement per call; the text continues after the first"@, here(t, s)))
                    }
                }
            }
        }
    }
}

impl Parser {
    fn select_statement(&mut self) -> (r: Result<Stmt, SqlError>)
        requires
            old(self).ok(),
        ensures
            parsed(r, *old(self), *final(self), select_statement(old(self).t(), old(self).s(), old(self).d())),
    {
        proof {
            reveal(select_statement);
        }
        if let Some(items) = self.session_select() {
            return Ok(Stmt::SessionRows(items));
        }
        let q = self.select()?;
        Ok(Stmt::Select(Box::new(q)))
    }

    /// One statement.
    pub fn statement(&mut self) -> (r: Result<Stmt, SqlError>)
        requires
            old(self).ok(),
            old(self).depth <= MAX_DEPTH,
        ensures
            concludes(r, *old(self), *final(self), statement(old(self).t(), old(self).s(), old(self).d(), old(self).u())),
    {
        let w = match self.word() {
            Some(w) => w,
            None => {
                return Err(
                    SqlError::syntax(
                        cat3(
                            "expected a statement, found `",
                            self.peek().written().as_str(),
                            "`",
                        ).as_str(),
                        self.here(),
                    ),
                );
            },
        };
        if self.at_word("SELECT") {
            return self.select_statement();
        }
        if self.at_word("SHOW") {
            let shown = self.show()?;
            return Ok(Stmt::Show(shown));
        }
        if self.eat_word("EXPLAIN") {
            return self.explain();
        }
        if self.at_word("INSERT") {
            return self.insert();
        }
        if self.at_word("UPDATE") {
            return self.update();
        }
        if self.at_word("DELETE") {
            return self.delete();
        }
        if self.at_word("CREATE") {
            return self.create();
        }
        if self.at_word("ALTER") {
            let (table, action) = self.alter()?;
            return Ok(Stmt::AlterTable { table, action });
        }
        if self.at_word("DROP") {
            return self.drop_statement();
        }
        if self.eat_word("BEGIN") {
            return self.begin();
        }
        if self.eat_word("START") {
            self.expect_word("TRANSACTION")?;
            return Ok(Stmt::Begin);
        }
        if self.at_word("COMMIT") || self.at_word("END") {
            self.skip();
            if self.eat_word("BULK") {
                return Ok(Stmt::EndBulk);
            }
            self.skip_work();
            return Ok(Stmt::Commit);
        }
        if self.at_word("ROLLBACK") || self.at_word("ABORT") {
            self.skip();
            self.skip_work();
            return Ok(Stmt::Rollback);
        }
        if self.at_word("SET") || self.at_word("RESET") {
            return self.set_local();
        }
        match self.listed(w.as_str()) {
            Some(e) => Err(e),
            None => Err(
                SqlError::syntax(
                    cat3("`", w.as_str(), "` does not begin a statement").as_str(),
                    self.here(),
                ),
            ),
        }
    }
}

/// The statement that a text's tokens write. The tokens end in the end of the
/// statement; `refused` are those of the texts in `namespaces` that the engine
/// takes for no UUID, with its reasons.
pub fn parse(tokens: Vec<Token>, refused: Vec<(String, String)>) -> (r: Result<Stmt, SqlError>)
    requires
        tokens@.len() > 0,
        tokens@.last().tok is Eof,
    ensures
        match parsed_statement(tokens.deep_view(), refused.deep_view()) {
            Ok(v) => r is Ok && r->Ok_0.deep_view() == v,
            Err(e) => r is Err && r->Err_0.deep_view() == e,
        },
{
    let mut parser = Parser { tokens, at: 0, depth: 0, refused };
    let stmt = parser.statement()?;
    let _ = parser.eat(Sym::Semicolon);
    let ended = match parser.peek() {
        Tok::Eof => true,
        _ => false,
    };
    if !ended {
        parser.guard_here()?;
        return Err(
            SqlError::syntax(
                "one statement per call; the text continues after the first",
                parser.here(),
            ),
        );
    }
    Ok(stmt)
}

} // verus!
