//! What a client asks of its session: `SELECT` without a source, `SHOW`, `SET`
//! and `RESET`.

use vstd::prelude::*;
use crate::ast::{Literal, LiteralV};
use crate::error::{SqlError, SqlErrorV};
use crate::guc::{guc_name, guc_title};
use crate::parser::cursor::{
    here, is_end, is_name, is_sym, is_word, name, next, parsed, past_word, reads, syntax, tok, want,
    want_word, word, Parser,
};
use crate::parser::value::literal;
use crate::stmt::{SessionItem, SessionItemV, Show, ShowV, Stmt, StmtV};
use crate::text::{
    ascii_lower, cat2, cat3, cat5, join, joined, lower, owned, same, same_letters, texts,
};
use crate::token::{tok_text, Sym, Tok, TokV, TokenV};

verus! {

// ── SELECT without a source ──────────────────────────────────────────────

/// The fact that a word asks for.
pub open spec fn session_fact(w: Option<Seq<char>>) -> Option<SessionItemV> {
    if w == Some("VERSION"@) {
        Some(SessionItemV::Version)
    } else if w == Some("DB_VERSION"@) {
        Some(SessionItemV::DbVersion)
    } else if w == Some("CURRENT_SCHEMA"@) {
        Some(SessionItemV::CurrentSchema)
    } else if w == Some("CURRENT_DATABASE"@) {
        Some(SessionItemV::CurrentDatabase)
    } else if w == Some("CURRENT_USER"@) || w == Some("SESSION_USER"@) || w == Some(
        "CURRENT_ROLE"@,
    ) || w == Some("USER"@) {
        Some(SessionItemV::CurrentUser)
    } else if w == Some("PG_BACKEND_PID"@) {
        Some(SessionItemV::BackendPid)
    } else {
        None
    }
}

/// `('name'[, missing_ok])` of `current_setting`.
#[verifier::opaque]
pub open spec fn setting_argument(t: Seq<TokenV>, s: int) -> Result<(Seq<char>, int), SqlErrorV> {
    match want(t, s, Sym::LParen) {
        Err(e) => Err(e),
        Ok(s) => match tok(t, s) {
            TokV::Str(setting) => {
                let s1 = next(t, s);
                let s2 = if is_sym(t, s1, Sym::Comma) { next(t, next(t, s1)) } else { s1 };
                match want(t, s2, Sym::RParen) {
                    Err(e) => Err(e),
                    Ok(s) => Ok((setting, s)),
                }
            },
            other => Err(
                syntax(
                    "current_setting takes the knob's name as a string, found `"@ + tok_text(other)
                        + "`"@,
                    here(t, next(t, s)),
                ),
            ),
        },
    }
}

/// One item; nothing where no such item stands.
#[verifier::opaque]
pub open spec fn session_item(t: Seq<TokenV>, s: int) -> Result<
    (Option<SessionItemV>, int),
    SqlErrorV,
> {
    match session_fact(word(t, s)) {
        Some(item) => {
            let s = next(t, s);
            if is_sym(t, s, Sym::LParen) {
                match want(t, next(t, s), Sym::RParen) {
                    Err(e) => Err(e),
                    Ok(s) => Ok((Some(item), s)),
                }
            } else {
                Ok((Some(item), s))
            }
        },
        None => if is_word(t, s, "CURRENT_SETTING"@) {
            match setting_argument(t, next(t, s)) {
                Err(e) => Err(e),
                Ok((setting, s)) => Ok((Some(SessionItemV::Setting(setting)), s)),
            }
        } else {
            match tok(t, s) {
                TokV::Num(n, exact) => Ok(
                    (Some(SessionItemV::Lit(LiteralV::Num(n, exact))), next(t, s)),
                ),
                TokV::Str(text) => Ok((Some(SessionItemV::Lit(LiteralV::Str(text))), next(t, s))),
                _ => Ok((None, s)),
            }
        },
    }
}

/// An alias; nothing where none stands.
#[verifier::opaque]
pub open spec fn session_alias(t: Seq<TokenV>, s: int) -> Result<
    (Option<Seq<char>>, int),
    SqlErrorV,
> {
    if is_word(t, s, "AS"@) {
        match name(t, next(t, s)) {
            Err(e) => Err(e),
            Ok((n, s)) => Ok((Some(n), s)),
        }
    } else if is_name(t, s) && !is_word(t, s, "FROM"@) {
        match name(t, s) {
            Err(e) => Err(e),
            Ok((n, s)) => Ok((Some(n), s)),
        }
    } else {
        Ok((None, s))
    }
}

/// Items between commas, behind those of `done`; nothing where one is no item
/// of a session.
pub open spec fn session_items(
    t: Seq<TokenV>,
    s: int,
    done: Seq<(SessionItemV, Option<Seq<char>>)>,
) -> Result<(Option<Seq<(SessionItemV, Option<Seq<char>>)>>, int), SqlErrorV>
    decreases t.len() - s,
{
    match session_item(t, s) {
        Err(e) => Err(e),
        Ok((None, s1)) => Ok((None, s1)),
        Ok((Some(item), s1)) => match session_alias(t, s1) {
            Err(e) => Err(e),
            Ok((a, s2)) => if is_sym(t, s2, Sym::Comma) && s < next(t, s2) <= t.len() {
                session_items(t, next(t, s2), done.push((item, a)))
            } else {
                Ok((Some(done.push((item, a))), s2))
            },
        },
    }
}

/// `SELECT` and its items.
#[verifier::opaque]
pub open spec fn session_list(t: Seq<TokenV>, s: int) -> Result<
    (Option<Seq<(SessionItemV, Option<Seq<char>>)>>, int),
    SqlErrorV,
> {
    match want_word(t, s, "SELECT"@) {
        Err(e) => Err(e),
        Ok(s) => session_items(t, s, Seq::empty()),
    }
}

/// A `SELECT` without a source; nothing, and the place kept, where the
/// statement is another.
#[verifier::opaque]
pub open spec fn session_select(t: Seq<TokenV>, s: int) -> (
    Option<Seq<(SessionItemV, Option<Seq<char>>)>>,
    int,
) {
    match session_list(t, s) {
        Ok((Some(items), s2)) => if is_end(t, s2) {
            (Some(items), s2)
        } else {
            (None, s)
        },
        _ => (None, s),
    }
}

impl Parser {
    fn session_fact(&self) -> (r: Option<SessionItem>)
        requires
            self.ok(),
        ensures
            r.deep_view() == session_fact(word(self.t(), self.s())),
    {
        if self.at_word("VERSION") {
            Some(SessionItem::Version)
        } else if self.at_word("DB_VERSION") {
            Some(SessionItem::DbVersion)
        } else if self.at_word("CURRENT_SCHEMA") {
            Some(SessionItem::CurrentSchema)
        } else if self.at_word("CURRENT_DATABASE") {
            Some(SessionItem::CurrentDatabase)
        } else if self.at_word("CURRENT_USER") || self.at_word("SESSION_USER") || self.at_word(
            "CURRENT_ROLE",
        ) || self.at_word("USER") {
            Some(SessionItem::CurrentUser)
        } else if self.at_word("PG_BACKEND_PID") {
            Some(SessionItem::BackendPid)
        } else {
            None
        }
    }

    fn setting_argument(&mut self) -> (r: Result<String, SqlError>)
        requires
            old(self).ok(),
        ensures
            reads(r, *old(self), *final(self), setting_argument(old(self).t(), old(self).s())),
    {
        proof {
            reveal(setting_argument);
        }
        self.expect(Sym::LParen)?;
        match self.bump() {
            Tok::Str(setting) => {
                if self.eat(Sym::Comma) {
                    self.skip();
                }
                self.expect(Sym::RParen)?;
                Ok(setting)
            },
            other => Err(
                SqlError::syntax(
                    cat3(
                        "current_setting takes the knob's name as a string, found `",
                        other.written().as_str(),
                        "`",
                    ).as_str(),
                    self.here(),
                ),
            ),
        }
    }

    fn session_item(&mut self) -> (r: Result<Option<SessionItem>, SqlError>)
        requires
            old(self).ok(),
        ensures
            reads(r, *old(self), *final(self), session_item(old(self).t(), old(self).s())),
    {
        proof {
            reveal(session_item);
        }
        if let Some(item) = self.session_fact() {
            self.skip();
            if self.eat(Sym::LParen) {
                self.expect(Sym::RParen)?;
            }
            return Ok(Some(item));
        }
        if self.eat_word("CURRENT_SETTING") {
            let setting = self.setting_argument()?;
            return Ok(Some(SessionItem::Setting(setting)));
        }
        match self.peek() {
            Tok::Num(n, exact) => {
                let out = Literal::Num(n.dup(), *exact);
                self.skip();
                Ok(Some(SessionItem::Lit(out)))
            },
            Tok::Str(text) => {
                let out = Literal::Str(text.clone());
                self.skip();
                Ok(Some(SessionItem::Lit(out)))
            },
            _ => Ok(None),
        }
    }

    fn session_alias(&mut self) -> (r: Result<Option<String>, SqlError>)
        requires
            old(self).ok(),
        ensures
            reads(r, *old(self), *final(self), session_alias(old(self).t(), old(self).s())),
    {
        proof {
            reveal(session_alias);
        }
        if self.eat_word("AS") {
            let n = self.name()?;
            return Ok(Some(n));
        }
        if self.at_name() && !self.at_word("FROM") {
            let n = self.name()?;
            return Ok(Some(n));
        }
        Ok(None)
    }

    fn session_items(&mut self) -> (r: Result<
        Option<Vec<(SessionItem, Option<String>)>>,
        SqlError,
    >)
        requires
            old(self).ok(),
        ensures
            reads(
                r,
                *old(self),
                *final(self),
                session_items(old(self).t(), old(self).s(), Seq::empty()),
            ),
    {
        let ghost t = self.t();
        let ghost start = self.s();
        let mut out: Vec<(SessionItem, Option<String>)> = Vec::new();
        assert(out.deep_view() =~= Seq::<(SessionItemV, Option<Seq<char>>)>::empty());
        loop
            invariant
                self.ok(),
                self.tokens == old(self).tokens,
                self.refused == old(self).refused,
                self.depth == old(self).depth,
                self.at >= old(self).at,
                t == self.t(),
                t == old(self).t(),
                start == old(self).s(),
                session_items(t, start, Seq::empty()) == session_items(
                    t,
                    self.s(),
                    out.deep_view(),
                ),
            decreases self.tokens@.len() - self.at,
        {
            let item = match self.session_item()? {
                Some(item) => item,
                None => {
                    return Ok(None);
                },
            };
            let a = self.session_alias()?;
            let ghost before = out.deep_view();
            let ghost view = (item.deep_view(), a.deep_view());
            out.push((item, a));
            assert(out.deep_view() =~= before.push(view));
            if !self.eat(Sym::Comma) {
                return Ok(Some(out));
            }
        }
    }

    fn session_list(&mut self) -> (r: Result<Option<Vec<(SessionItem, Option<String>)>>, SqlError>)
        requires
            old(self).ok(),
        ensures
            reads(r, *old(self), *final(self), session_list(old(self).t(), old(self).s())),
    {
        proof {
            reveal(session_list);
        }
        self.expect_word("SELECT")?;
        self.session_items()
    }

    /// A `SELECT` without a source.
    pub fn session_select(&mut self) -> (r: Option<Vec<(SessionItem, Option<String>)>>)
        requires
            old(self).ok(),
        ensures
            final(self).tokens == old(self).tokens,
            final(self).refused == old(self).refused,
            final(self).depth == old(self).depth,
            final(self).ok(),
            final(self).at >= old(self).at,
            (r.deep_view(), final(self).s()) == session_select(old(self).t(), old(self).s()),
    {
        proof {
            reveal(session_select);
        }
        let mark = self.at;
        if let Ok(Some(items)) = self.session_list() {
            if self.at_end() {
                return Some(items);
            }
        }
        self.reset(mark);
        None
    }
}

// ── SHOW ─────────────────────────────────────────────────────────────────

/// At most four names one behind the other, behind those of `done`.
pub open spec fn show_words(t: Seq<TokenV>, s: int, done: Seq<Seq<char>>) -> (Seq<Seq<char>>, int)
    decreases t.len() - s,
{
    if done.len() < 4 && s < next(t, s) <= t.len() {
        match tok(t, s) {
            TokV::Word(w) | TokV::Quoted(w) => show_words(t, next(t, s), done.push(w)),
            _ => (done, s),
        }
    } else {
        (done, s)
    }
}

/// The setting that the longest of the first `k` words names.
pub open spec fn longest_setting(words: Seq<Seq<char>>, k: nat) -> Option<Seq<char>>
    decreases k,
{
    if k == 0 {
        None
    } else {
        match guc_title(joined(words.take(k as int), "_"@)) {
            Some(title) => Some(title),
            None => longest_setting(words, (k - 1) as nat),
        }
    }
}

/// What a `SHOW` of names shows; `at` is where the names end.
pub open spec fn show_named(words: Seq<Seq<char>>, found: TokV, at: usize) -> Result<
    ShowV,
    SqlErrorV,
> {
    if words.len() == 0 {
        Err(
            syntax(
                "SHOW takes TABLES, EDGES, INDEXES [ON t], CREATE TABLE t, a collection or a setting name, found `"@
                    + tok_text(found) + "`"@,
                at,
            ),
        )
    } else {
        match longest_setting(words, words.len()) {
            Some(title) => Ok(ShowV::Name(title)),
            None => if words.len() > 1 {
                Err(
                    syntax(
                        "SHOW "@ + joined(words, " "@) + ": `"@ + joined(words, "_"@)
                            + "` is not a setting this engine has, and a collection is named by ONE word"@,
                        at,
                    ),
                )
            } else {
                Ok(ShowV::Name(words[0]))
            },
        }
    }
}

/// A whole `SHOW`.
#[verifier::opaque]
pub open spec fn show(t: Seq<TokenV>, s: int) -> Result<(ShowV, int), SqlErrorV> {
    match want_word(t, s, "SHOW"@) {
        Err(e) => Err(e),
        Ok(s) => if is_word(t, s, "TABLES"@) {
            Ok((ShowV::Tables, next(t, s)))
        } else if is_word(t, s, "EDGES"@) {
            let s = next(t, s);
            if is_word(t, s, "FROM"@) || is_word(t, s, "TO"@) {
                Err(
                    SqlErrorV::Unsupported(
                        "SHOW EDGES takes no FROM/TO here: it is sugar for `SELECT * FROM db_edges`, so the filter is written as one -- `SELECT * FROM db_edges WHERE from_table = 'x'`"@,
                    ),
                )
            } else {
                Ok((ShowV::Edges, s))
            }
        } else if is_word(t, s, "INDEXES"@) || is_word(t, s, "INDEX"@) {
            let s = next(t, s);
            if is_word(t, s, "ON"@) {
                match name(t, next(t, s)) {
                    Err(e) => Err(e),
                    Ok((table, s)) => Ok((ShowV::Indexes(Some(table)), s)),
                }
            } else {
                Ok((ShowV::Indexes(None), s))
            }
        } else if is_word(t, s, "CREATE"@) {
            match want_word(t, next(t, s), "TABLE"@) {
                Err(e) => Err(e),
                Ok(s) => match name(t, s) {
                    Err(e) => Err(e),
                    Ok((table, s)) => Ok((ShowV::CreateTable(table), s)),
                },
            }
        } else if is_word(t, s, "ALL"@) {
            Err(
                SqlErrorV::Unsupported(
                    "SHOW ALL lists a settings table; e4 has none. The client GUCs a driver sets are accepted as notices and each answers `SHOW <name>` from a constant"@,
                ),
            )
        } else {
            let (words, s) = show_words(t, s, Seq::empty());
            match show_named(words, tok(t, s), here(t, s)) {
                Err(e) => Err(e),
                Ok(shown) => Ok((shown, s)),
            }
        },
    }
}

fn setting_of(words: &Vec<String>) -> (r: Option<&'static str>)
    ensures
        match r {
            Some(title) => longest_setting(texts(words@), words@.len()) == Some(title@),
            None => longest_setting(texts(words@), words@.len()) is None,
        },
{
    let ghost all = texts(words@);
    let mut k: usize = words.len();
    while k > 0
        invariant
            k <= words@.len(),
            all == texts(words@),
            longest_setting(all, words@.len()) == longest_setting(all, k as nat),
        decreases k,
    {
        let mut head: Vec<String> = Vec::new();
        let mut i: usize = 0;
        while i < k
            invariant
                i <= k <= words@.len(),
                head@.len() == i,
                forall|j: int| 0 <= j < i ==> (#[trigger] head@[j])@ == words@[j]@,
            decreases k - i,
        {
            head.push(words[i].clone());
            i = i + 1;
        }
        assert(texts(head@) =~= all.take(k as int));
        if let Some(title) = guc_name(join(&head, "_").as_str()) {
            return Some(title);
        }
        k = k - 1;
    }
    None
}

impl Parser {
    fn show_words(&mut self) -> (r: Vec<String>)
        requires
            old(self).ok(),
        ensures
            final(self).tokens == old(self).tokens,
            final(self).refused == old(self).refused,
            final(self).depth == old(self).depth,
            final(self).ok(),
            final(self).at >= old(self).at,
            (texts(r@), final(self).s()) == show_words(old(self).t(), old(self).s(), Seq::empty()),
    {
        let ghost t = self.t();
        let ghost start = self.s();
        let mut words: Vec<String> = Vec::new();
        assert(texts(words@) =~= Seq::<Seq<char>>::empty());
        while words.len() < 4 && self.at_name()
            invariant
                self.ok(),
                self.tokens == old(self).tokens,
                self.refused == old(self).refused,
                self.depth == old(self).depth,
                self.at >= old(self).at,
                t == self.t(),
                t == old(self).t(),
                start == old(self).s(),
                texts(words@).len() == words@.len(),
                show_words(t, start, Seq::empty()) == show_words(t, self.s(), texts(words@)),
            decreases self.tokens@.len() - self.at,
        {
            let ghost before = words@;
            match self.bump() {
                Tok::Word(w) => {
                    words.push(w);
                    assert(texts(words@) =~= texts(before).push(w@));
                },
                Tok::Quoted(w) => {
                    words.push(w);
                    assert(texts(words@) =~= texts(before).push(w@));
                },
                _ => {
                    return words;
                },
            }
        }
        words
    }

    /// A whole `SHOW`.
    pub fn show(&mut self) -> (r: Result<Show, SqlError>)
        requires
            old(self).ok(),
        ensures
            reads(r, *old(self), *final(self), show(old(self).t(), old(self).s())),
    {
        proof {
            reveal(show);
        }
        self.expect_word("SHOW")?;
        if self.eat_word("TABLES") {
            return Ok(Show::Tables);
        }
        if self.eat_word("EDGES") {
            if self.at_word("FROM") || self.at_word("TO") {
                return Err(
                    SqlError::unsupported(
                        "SHOW EDGES takes no FROM/TO here: it is sugar for `SELECT * FROM db_edges`, so the filter is written as one -- `SELECT * FROM db_edges WHERE from_table = 'x'`",
                    ),
                );
            }
            return Ok(Show::Edges);
        }
        if self.at_word("INDEXES") || self.at_word("INDEX") {
            self.skip();
            if self.eat_word("ON") {
                let table = self.name()?;
                return Ok(Show::Indexes(Some(table)));
            }
            return Ok(Show::Indexes(None));
        }
        if self.eat_word("CREATE") {
            self.expect_word("TABLE")?;
            let table = self.name()?;
            return Ok(Show::CreateTable(table));
        }
        if self.at_word("ALL") {
            return Err(
                SqlError::unsupported(
                    "SHOW ALL lists a settings table; e4 has none. The client GUCs a driver sets are accepted as notices and each answers `SHOW <name>` from a constant",
                ),
            );
        }
        let mut words = self.show_words();
        assert(texts(words@).len() == words@.len());
        if words.len() == 0 {
            return Err(
                SqlError::syntax(
                    cat3(
                        "SHOW takes TABLES, EDGES, INDEXES [ON t], CREATE TABLE t, a collection or a setting name, found `",
                        self.peek().written().as_str(),
                        "`",
                    ).as_str(),
                    self.here(),
                ),
            );
        }
        if let Some(title) = setting_of(&words) {
            return Ok(Show::Name(owned(title)));
        }
        if words.len() > 1 {
            return Err(
                SqlError::syntax(
                    cat5(
                        "SHOW ",
                        join(&words, " ").as_str(),
                        ": `",
                        join(&words, "_").as_str(),
                        "` is not a setting this engine has, and a collection is named by ONE word",
                    ).as_str(),
                    self.here(),
                ),
            );
        }
        assert(texts(words@)[0] == words@[0]@);
        Ok(Show::Name(words.remove(0)))
    }
}

// ── SET and RESET ────────────────────────────────────────────────────────

/// The spellings of the tokens up to the end of the statement, behind those of
/// `done`.
pub open spec fn rest_words(t: Seq<TokenV>, s: int, done: Seq<Seq<char>>) -> (Seq<Seq<char>>, int)
    decreases t.len() - s,
{
    if is_end(t, s) || !(s < next(t, s) <= t.len()) {
        (done, s)
    } else {
        rest_words(t, next(t, s), done.push(tok_text(tok(t, s))))
    }
}

/// The rest of a statement, as a notice quotes it.
#[verifier::opaque]
pub open spec fn guc_text(t: Seq<TokenV>, s: int) -> (Seq<char>, int) {
    let (words, s) = rest_words(t, s, Seq::empty());
    (joined(words, " "@), s)
}

/// The whole name of a setting of which the parser keeps the last segment.
pub open spec fn knob_name(n: Seq<char>) -> Seq<char> {
    if lower(n) == lower("query_search_list_size"@) || lower(n) == lower("query_rescore"@) {
        "diskann."@ + n
    } else {
        n
    }
}

/// Whether a setting is one of the engine.
pub open spec fn is_engine_knob(n: Seq<char>) -> bool {
    lower(n) == "ef_search"@ || lower(n) == "hnsw.ef_search"@ || lower(n)
        == "diskann.query_search_list_size"@
}

/// The value of a setting of the engine.
#[verifier::opaque]
pub open spec fn knob_value(t: Seq<TokenV>, s: int, d: nat) -> Result<(LiteralV, int), SqlErrorV> {
    if is_word(t, s, "ON"@) || is_word(t, s, "OFF"@) || is_word(t, s, "DEFAULT"@) {
        Ok((LiteralV::Str(lower(word(t, s)->0)), next(t, s)))
    } else {
        literal(t, s, d)
    }
}

/// `name = value`, or `name` alone where it is reset. A setting of the engine is
/// set; any other is only noticed.
#[verifier::opaque]
pub open spec fn set_named(t: Seq<TokenV>, s: int, d: nat, reset: bool) -> Result<
    (StmtV, int),
    SqlErrorV,
> {
    match name(t, s) {
        Err(e) => Err(e),
        Ok((n, s)) => {
            let knob = knob_name(n);
            if reset && is_engine_knob(knob) {
                Ok((StmtV::SetLocal { name: knob, value: LiteralV::Str("default"@) }, s))
            } else if reset {
                Ok((StmtV::SetGuc { name: knob, value: "DEFAULT"@ }, s))
            } else {
                match if is_sym(t, s, Sym::Eq) { Ok(next(t, s)) } else { want_word(t, s, "TO"@) } {
                    Err(e) => Err(e),
                    Ok(s) => if is_engine_knob(knob) {
                        match knob_value(t, s, d) {
                            Err(e) => Err(e),
                            Ok((value, s)) => Ok((StmtV::SetLocal { name: knob, value }, s)),
                        }
                    } else {
                        let (value, s) = guc_text(t, s);
                        Ok((StmtV::SetGuc { name: knob, value }, s))
                    },
                }
            }
        }
    }
}

/// A whole `SET` or `RESET`.
#[verifier::opaque]
pub open spec fn set_local(t: Seq<TokenV>, s: int, d: nat) -> Result<(StmtV, int), SqlErrorV> {
    let reset = is_word(t, s, "RESET"@);
    match if reset { Ok(next(t, s)) } else { want_word(t, s, "SET"@) } {
        Err(e) => Err(e),
        Ok(s) => {
            let s = if is_word(t, s, "LOCAL"@) { next(t, s) } else { past_word(t, s, "SESSION"@) };
            if is_word(t, s, "TIME"@) {
                match want_word(t, next(t, s), "ZONE"@) {
                    Err(e) => Err(e),
                    Ok(s) => {
                        let (value, s) = guc_text(t, s);
                        Ok((StmtV::SetGuc { name: "TimeZone"@, value }, s))
                    }
                }
            } else if is_word(t, s, "CHARACTERISTICS"@) {
                let (value, s) = guc_text(t, s);
                Ok((StmtV::SetGuc { name: "session characteristics"@, value }, s))
            } else if reset && is_word(t, s, "ALL"@) {
                Ok((StmtV::SetGuc { name: "all"@, value: "DEFAULT"@ }, next(t, s)))
            } else {
                set_named(t, s, d, reset)
            }
        }
    }
}

fn whole_name(n: String) -> (r: String)
    ensures
        r@ == knob_name(n@),
{
    if same_letters(n.as_str(), "query_search_list_size") || same_letters(
        n.as_str(),
        "query_rescore",
    ) {
        cat2("diskann.", n.as_str())
    } else {
        n
    }
}

/// Whether a setting is one of the engine.
pub fn engine_knob(n: &str) -> (r: bool)
    ensures
        r == is_engine_knob(n@),
{
    let l = ascii_lower(n);
    same(l.as_str(), "ef_search") || same(l.as_str(), "hnsw.ef_search") || same(
        l.as_str(),
        "diskann.query_search_list_size",
    )
}

impl Parser {
    fn guc_text(&mut self) -> (r: String)
        requires
            old(self).ok(),
        ensures
            final(self).tokens == old(self).tokens,
            final(self).refused == old(self).refused,
            final(self).depth == old(self).depth,
            final(self).ok(),
            final(self).at >= old(self).at,
            (r@, final(self).s()) == guc_text(old(self).t(), old(self).s()),
    {
        proof {
            reveal(guc_text);
        }
        let ghost t = self.t();
        let ghost start = self.s();
        let mut words: Vec<String> = Vec::new();
        assert(texts(words@) =~= Seq::<Seq<char>>::empty());
        while !self.at_end()
            invariant
                self.ok(),
                self.tokens == old(self).tokens,
                self.refused == old(self).refused,
                self.depth == old(self).depth,
                self.at >= old(self).at,
                t == self.t(),
                t == old(self).t(),
                start == old(self).s(),
                rest_words(t, start, Seq::empty()) == rest_words(t, self.s(), texts(words@)),
            decreases self.tokens@.len() - self.at,
        {
            let ghost before = words@;
            let text = self.bump().written();
            words.push(text);
            assert(texts(words@) =~= texts(before).push(text@));
        }
        join(&words, " ")
    }

    fn knob_value(&mut self) -> (r: Result<Literal, SqlError>)
        requires
            old(self).ok(),
        ensures
            parsed(r, *old(self), *final(self), knob_value(old(self).t(), old(self).s(), old(self).d())),
    {
        proof {
            reveal(knob_value);
        }
        if let Some(w) = self.word() {
            if same(w.as_str(), "ON") || same(w.as_str(), "OFF") || same(w.as_str(), "DEFAULT") {
                self.skip();
                return Ok(Literal::Str(ascii_lower(w.as_str())));
            }
        }
        self.literal()
    }

    fn set_named(&mut self, reset: bool) -> (r: Result<Stmt, SqlError>)
        requires
            old(self).ok(),
        ensures
            parsed(
                r,
                *old(self),
                *final(self),
                set_named(old(self).t(), old(self).s(), old(self).d(), reset),
            ),
    {
        proof {
            reveal(set_named);
        }
        let n = self.name()?;
        let knob = whole_name(n);
        if reset && engine_knob(knob.as_str()) {
            return Ok(Stmt::SetLocal { name: knob, value: Literal::Str(owned("default")) });
        }
        if reset {
            return Ok(Stmt::SetGuc { name: knob, value: owned("DEFAULT") });
        }
        if !self.eat(Sym::Eq) {
            self.expect_word("TO")?;
        }
        if engine_knob(knob.as_str()) {
            let value = self.knob_value()?;
            return Ok(Stmt::SetLocal { name: knob, value });
        }
        let value = self.guc_text();
        Ok(Stmt::SetGuc { name: knob, value })
    }

    /// A whole `SET` or `RESET`.
    pub fn set_local(&mut self) -> (r: Result<Stmt, SqlError>)
        requires
            old(self).ok(),
        ensures
            parsed(r, *old(self), *final(self), set_local(old(self).t(), old(self).s(), old(self).d())),
    {
        proof {
            reveal(set_local);
        }
        let reset = self.eat_word("RESET");
        if !reset {
            self.expect_word("SET")?;
        }
        if !self.eat_word("LOCAL") {
            let _ = self.eat_word("SESSION");
        }
        if self.eat_word("TIME") {
            self.expect_word("ZONE")?;
            let value = self.guc_text();
            return Ok(Stmt::SetGuc { name: owned("TimeZone"), value });
        }
        if self.at_word("CHARACTERISTICS") {
            let value = self.guc_text();
            return Ok(Stmt::SetGuc { name: owned("session characteristics"), value });
        }
        if reset && self.at_word("ALL") {
            self.skip();
            return Ok(Stmt::SetGuc { name: owned("all"), value: owned("DEFAULT") });
        }
        self.set_named(reset)
    }
}

} // verus!
