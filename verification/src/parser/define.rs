//! `CREATE`, `ALTER` and `DROP`.

use vstd::prelude::*;
use crate::ast::CmpOp;
use crate::error::{SqlError, SqlErrorV, Tier};
use crate::number::{int_bits, nearest_bits, saturated_size, to_size};
use crate::parser::cursor::{
    ahead, here, is_sym, is_word, name, next, passes, past_word, reads, syntax, tok, want,
    want_word, word, Parser,
};
use crate::parser::predicate::{hold_numbers, numbers_hold};
use crate::parser::value::{is_wgs84, simple_config, wgs84};
use crate::refuse::{refusal, refuse};
use crate::scan::{begins, stands_at};
use crate::stmt::{
    AlterAction, AlterActionV, ColumnDef, ColumnDefV, IndexMethod, IndexMethodV, Stmt, StmtV,
};
use crate::text::{cat2, cat3, decimal, decimal_usize, owned, same};
use crate::token::{tok_text, Sym, Tok, TokV, TokenV};
use crate::value::{ColumnRule, ColumnRuleV, DefaultValue, DefaultValueV, Kind};

verus! {

// ── types ────────────────────────────────────────────────────────────────

/// A type of one word: how it is stored, and how it is declared.
pub open spec fn simple_type(w: Seq<char>) -> Option<(Kind, Seq<char>)> {
    if w == "TEXT"@ || w == "VARCHAR"@ {
        Some((Kind::Text, "TEXT"@))
    } else if w == "INT"@ || w == "INTEGER"@ || w == "INT4"@ || w == "SMALLINT"@ {
        Some((Kind::Int, "INT"@))
    } else if w == "BIGINT"@ || w == "INT8"@ {
        Some((Kind::Int, "BIGINT"@))
    } else if w == "REAL"@ || w == "FLOAT4"@ {
        Some((Kind::Real, "REAL"@))
    } else if w == "BOOLEAN"@ || w == "BOOL"@ {
        Some((Kind::Bool, "BOOLEAN"@))
    } else if w == "JSONB"@ || w == "JSON"@ {
        Some((Kind::Json, "JSONB"@))
    } else if w == "TIMESTAMPTZ"@ {
        Some((Kind::Int, "TIMESTAMPTZ"@))
    } else if w == "DATE"@ {
        Some((Kind::Int, "DATE"@))
    } else {
        None
    }
}

/// The shape that a geometry is declared with, behind the type's word; `at` is
/// where the type began.
#[verifier::opaque]
pub open spec fn geometry_shape(t: Seq<TokenV>, s: int, at: usize) -> Result<
    (Seq<char>, int),
    SqlErrorV,
> {
    if !is_sym(t, s, Sym::LParen) {
        Ok(("GEOMETRY"@, s))
    } else {
        let s = next(t, s);
        match word(t, s) {
            None => Err(syntax("expected a geometry type"@, at)),
            Some(shape) => {
                let s1 = next(t, s);
                if is_sym(t, s1, Sym::Comma) && !is_wgs84(tok(t, next(t, s1))) {
                    Err(
                        SqlErrorV::Unsupported(
                            "SRID `"@ + tok_text(tok(t, next(t, s1)))
                                + "`: storage is WGS84 and ST_Transform is Tier 2"@,
                        ),
                    )
                } else {
                    let s2 = if is_sym(t, s1, Sym::Comma) { next(t, next(t, s1)) } else { s1 };
                    match want(t, s2, Sym::RParen) {
                        Err(e) => Err(e),
                        Ok(s) => Ok((shape, s)),
                    }
                }
            },
        }
    }
}

/// How a geometry of a shape is stored and declared.
pub open spec fn geometry_type(shape: Seq<char>) -> Result<(Kind, Seq<char>), SqlErrorV> {
    if shape == "POINT"@ {
        Ok((Kind::Point, "GEOMETRY(Point,4326)"@))
    } else if shape == "POLYGON"@ || shape == "MULTIPOLYGON"@ || shape == "LINESTRING"@ || shape
        == "GEOMETRY"@ {
        Ok((Kind::Geo, "GEOMETRY("@ + shape + ",4326)"@))
    } else {
        Err(
            SqlErrorV::Unsupported("GEOMETRY("@ + shape + "): the stored kinds are Point and Geo"@),
        )
    }
}

/// `(n)` of a vector, behind the type's word.
#[verifier::opaque]
pub open spec fn vector_size(t: Seq<TokenV>, s: int, at: usize) -> Result<(usize, int), SqlErrorV> {
    match want(t, s, Sym::LParen) {
        Err(e) => Err(e),
        Ok(s) => match tok(t, s) {
            TokV::Num(n, true) if numbers_hold(CmpOp::Gt, n.bits, nearest_bits(0) as u64) => {
                match want(t, next(t, s), Sym::RParen) {
                    Err(e) => Err(e),
                    Ok(s) => Ok((saturated_size(n.bits) as usize, s)),
                }
            },
            other => Err(
                syntax("VECTOR needs a positive dimension, found `"@ + tok_text(other) + "`"@, at),
            ),
        },
    }
}

/// The declared type of a column, and how it is stored.
#[verifier::opaque]
pub open spec fn column_type(t: Seq<TokenV>, s: int) -> Result<((Kind, Seq<char>), int), SqlErrorV> {
    let at = here(t, s);
    match word(t, s) {
        None => Err(syntax("expected a column type, found `"@ + tok_text(tok(t, s)) + "`"@, at)),
        Some(w) => {
            let s = next(t, s);
            if simple_type(w) is Some {
                Ok((simple_type(w)->0, s))
            } else if w == "DOUBLE"@ {
                match want_word(t, s, "PRECISION"@) {
                    Err(e) => Err(e),
                    Ok(s) => Ok(((Kind::Real, "DOUBLE PRECISION"@), s)),
                }
            } else if w == "TIMESTAMP"@ {
                if is_word(t, s, "WITH"@) {
                    match want_word(t, next(t, s), "TIME"@) {
                        Err(e) => Err(e),
                        Ok(s) => match want_word(t, s, "ZONE"@) {
                            Err(e) => Err(e),
                            Ok(s) => Ok(((Kind::Int, "TIMESTAMPTZ"@), s)),
                        },
                    }
                } else {
                    Ok(((Kind::Int, "TIMESTAMPTZ"@), s))
                }
            } else if w == "GEOMETRY"@ || w == "GEOGRAPHY"@ {
                match geometry_shape(t, s, at) {
                    Err(e) => Err(e),
                    Ok((shape, s)) => match geometry_type(shape) {
                        Err(e) => Err(e),
                        Ok(pair) => Ok((pair, s)),
                    },
                }
            } else if w == "VECTOR"@ {
                match vector_size(t, s, at) {
                    Err(e) => Err(e),
                    Ok((n, s)) => Ok(((Kind::Vector(n), "VECTOR("@ + decimal(n as int) + ")"@), s)),
                }
            } else if w == "HALFVEC"@ || w == "SPARSEVEC"@ {
                Err(
                    SqlErrorV::Refused {
                        keyword: w,
                        tier: Tier::Three,
                        reason: "QL_CONTRACT §4.5: halfvec, sparsevec and binary quantization have no atomic."@,
                    },
                )
            } else {
                Err(
                    SqlErrorV::Unsupported(
                        "column type `"@ + w + "` has no Kind in docs/core/FORMAT_V1.md"@,
                    ),
                )
            }
        },
    }
}

fn type_of_word(w: &str) -> (r: Option<(Kind, String)>)
    ensures
        r.deep_view() == simple_type(w@),
{
    if same(w, "TEXT") || same(w, "VARCHAR") {
        Some((Kind::Text, owned("TEXT")))
    } else if same(w, "INT") || same(w, "INTEGER") || same(w, "INT4") || same(w, "SMALLINT") {
        Some((Kind::Int, owned("INT")))
    } else if same(w, "BIGINT") || same(w, "INT8") {
        Some((Kind::Int, owned("BIGINT")))
    } else if same(w, "REAL") || same(w, "FLOAT4") {
        Some((Kind::Real, owned("REAL")))
    } else if same(w, "BOOLEAN") || same(w, "BOOL") {
        Some((Kind::Bool, owned("BOOLEAN")))
    } else if same(w, "JSONB") || same(w, "JSON") {
        Some((Kind::Json, owned("JSONB")))
    } else if same(w, "TIMESTAMPTZ") {
        Some((Kind::Int, owned("TIMESTAMPTZ")))
    } else if same(w, "DATE") {
        Some((Kind::Int, owned("DATE")))
    } else {
        None
    }
}

fn type_of_shape(shape: &str) -> (r: Result<(Kind, String), SqlError>)
    ensures
        match geometry_type(shape@) {
            Ok(v) => r is Ok && r->Ok_0.deep_view() == v,
            Err(e) => r is Err && r->Err_0.deep_view() == e,
        },
{
    if same(shape, "POINT") {
        Ok((Kind::Point, owned("GEOMETRY(Point,4326)")))
    } else if same(shape, "POLYGON") || same(shape, "MULTIPOLYGON") || same(shape, "LINESTRING")
        || same(shape, "GEOMETRY") {
        Ok((Kind::Geo, cat3("GEOMETRY(", shape, ",4326)")))
    } else {
        Err(
            SqlError::unsupported(
                cat3("GEOMETRY(", shape, "): the stored kinds are Point and Geo").as_str(),
            ),
        )
    }
}

impl Parser {
    fn geometry_shape(&mut self, at: usize) -> (r: Result<String, SqlError>)
        requires
            old(self).ok(),
        ensures
            reads(r, *old(self), *final(self), geometry_shape(old(self).t(), old(self).s(), at)),
    {
        proof {
            reveal(geometry_shape);
        }
        if !self.eat(Sym::LParen) {
            return Ok(owned("GEOMETRY"));
        }
        match self.word() {
            None => Err(SqlError::syntax("expected a geometry type", at)),
            Some(shape) => {
                self.skip();
                if self.eat(Sym::Comma) {
                    let srid = self.bump();
                    if !wgs84(&srid) {
                        return Err(
                            SqlError::unsupported(
                                cat3(
                                    "SRID `",
                                    srid.written().as_str(),
                                    "`: storage is WGS84 and ST_Transform is Tier 2",
                                ).as_str(),
                            ),
                        );
                    }
                }
                self.expect(Sym::RParen)?;
                Ok(shape)
            },
        }
    }

    fn vector_size(&mut self, at: usize) -> (r: Result<usize, SqlError>)
        requires
            old(self).ok(),
        ensures
            reads(r, *old(self), *final(self), vector_size(old(self).t(), old(self).s(), at)),
    {
        proof {
            reveal(vector_size);
        }
        self.expect(Sym::LParen)?;
        let size = self.bump();
        if let Tok::Num(n, true) = &size {
            if hold_numbers(CmpOp::Gt, n.bits, int_bits(0)) {
                self.expect(Sym::RParen)?;
                return Ok(to_size(n.bits));
            }
        }
        Err(
            SqlError::syntax(
                cat3(
                    "VECTOR needs a positive dimension, found `",
                    size.written().as_str(),
                    "`",
                ).as_str(),
                at,
            ),
        )
    }

    /// The declared type of a column.
    pub fn column_type(&mut self) -> (r: Result<(Kind, String), SqlError>)
        requires
            old(self).ok(),
        ensures
            reads(r, *old(self), *final(self), column_type(old(self).t(), old(self).s())),
    {
        proof {
            reveal(column_type);
        }
        let at = self.here();
        let w = match self.word() {
            Some(w) => w,
            None => {
                return Err(
                    SqlError::syntax(
                        cat3(
                            "expected a column type, found `",
                            self.peek().written().as_str(),
                            "`",
                        ).as_str(),
                        at,
                    ),
                );
            },
        };
        self.skip();
        if let Some(pair) = type_of_word(w.as_str()) {
            return Ok(pair);
        }
        if same(w.as_str(), "DOUBLE") {
            self.expect_word("PRECISION")?;
            return Ok((Kind::Real, owned("DOUBLE PRECISION")));
        }
        if same(w.as_str(), "TIMESTAMP") {
            if self.eat_word("WITH") {
                self.expect_word("TIME")?;
                self.expect_word("ZONE")?;
            }
            return Ok((Kind::Int, owned("TIMESTAMPTZ")));
        }
        if same(w.as_str(), "GEOMETRY") || same(w.as_str(), "GEOGRAPHY") {
            let shape = self.geometry_shape(at)?;
            return type_of_shape(shape.as_str());
        }
        if same(w.as_str(), "VECTOR") {
            let n = self.vector_size(at)?;
            return Ok((Kind::Vector(n), cat3("VECTOR(", decimal_usize(n).as_str(), ")")));
        }
        if same(w.as_str(), "HALFVEC") || same(w.as_str(), "SPARSEVEC") {
            return Err(
                SqlError::Refused {
                    keyword: w,
                    tier: Tier::Three,
                    reason: owned(
                        "QL_CONTRACT §4.5: halfvec, sparsevec and binary quantization have no atomic.",
                    ),
                },
            );
        }
        Err(
            SqlError::unsupported(
                cat3("column type `", w.as_str(), "` has no Kind in docs/core/FORMAT_V1.md").as_str(),
            ),
        )
    }
}

// ── defaults ─────────────────────────────────────────────────────────────

/// `()`, or nothing.
#[verifier::opaque]
pub open spec fn no_arguments(t: Seq<TokenV>, s: int) -> Result<int, SqlErrorV> {
    if is_sym(t, s, Sym::LParen) {
        want(t, next(t, s), Sym::RParen)
    } else {
        Ok(s)
    }
}

/// A quoted argument of `uuid5`; `what` says which.
#[verifier::opaque]
pub open spec fn uuid_text(t: Seq<TokenV>, s: int, what: Seq<char>, at: usize) -> Result<
    (Seq<char>, int),
    SqlErrorV,
> {
    match tok(t, s) {
        TokV::Str(text) => Ok((text, next(t, s))),
        other => Err(
            syntax(
                "uuid5 takes a "@ + what + " written as a string, found `"@ + tok_text(other)
                    + "`"@,
                at,
            ),
        ),
    }
}

/// Why the engine takes a text for no UUID, where it does: the reason beside it
/// in the list of those it refused, from position `i` on.
pub open spec fn refused_from(u: Seq<(Seq<char>, Seq<char>)>, text: Seq<char>, i: nat) -> Option<
    Seq<char>,
>
    decreases u.len() - i,
{
    if i >= u.len() {
        None
    } else if u[i as int].0 == text {
        Some(u[i as int].1)
    } else {
        refused_from(u, text, i + 1)
    }
}

fn refused_as(list: &Vec<(String, String)>, text: &str) -> (r: Option<String>)
    ensures
        r.deep_view() == refused_from(list.deep_view(), text@, 0),
{
    let ghost all = list.deep_view();
    let mut i: usize = 0;
    while i < list.len()
        invariant
            i <= list@.len(),
            all == list.deep_view(),
            refused_from(all, text@, i as nat) == refused_from(all, text@, 0),
        decreases list@.len() - i,
    {
        assert(all[i as int] == (list@[i as int].0@, list@[i as int].1@));
        if same(list[i].0.as_str(), text) {
            return Some(list[i].1.clone());
        }
        i = i + 1;
    }
    None
}

/// `(namespace, name)` of `uuid5`. The engine reads the namespace; `u` are the
/// texts that it takes for no UUID, with its reasons.
#[verifier::opaque]
pub open spec fn uuid5_arguments(
    t: Seq<TokenV>,
    s: int,
    at: usize,
    u: Seq<(Seq<char>, Seq<char>)>,
) -> Result<(DefaultValueV, int), SqlErrorV> {
    match want(t, s, Sym::LParen) {
        Err(e) => Err(e),
        Ok(s) => match uuid_text(t, s, "namespace UUID"@, at) {
            Err(e) => Err(e),
            Ok((namespace, s)) => match want(t, s, Sym::Comma) {
                Err(e) => Err(e),
                Ok(s) => match uuid_text(t, s, "name"@, at) {
                    Err(e) => Err(e),
                    Ok((name, s)) => match want(t, s, Sym::RParen) {
                        Err(e) => Err(e),
                        Ok(s) => match refused_from(u, namespace, 0) {
                            Some(reason) => Err(
                                SqlErrorV::Unsupported("uuid5 namespace: "@ + reason),
                            ),
                            None => Ok((DefaultValueV::Uuid5 { namespace, name }, s)),
                        },
                    },
                },
            },
        },
    }
}

/// The generator of a `DEFAULT`. The set is closed.
#[verifier::opaque]
pub open spec fn default_generator(t: Seq<TokenV>, s: int, u: Seq<(Seq<char>, Seq<char>)>) -> Result<
    (DefaultValueV, int),
    SqlErrorV,
> {
    match word(t, s) {
        None => Err(
            SqlErrorV::Unsupported(
                "DEFAULT "@ + tok_text(tok(t, s))
                    + ": the generator set is closed -- now(), uuid4(), uuid5(namespace, name) -- and an arbitrary expression is the GENERATED ALWAYS row of QL_CONTRACT §2"@,
            ),
        ),
        Some(w) => if w == "NOW"@ || w == "CURRENT_TIMESTAMP"@ || w == "TRANSACTION_TIMESTAMP"@ || w
            == "STATEMENT_TIMESTAMP"@ {
            match no_arguments(t, next(t, s)) {
                Err(e) => Err(e),
                Ok(s) => Ok((DefaultValueV::Now, s)),
            }
        } else if w == "UUID4"@ || w == "GEN_RANDOM_UUID"@ || w == "UUID_GENERATE_V4"@ {
            match no_arguments(t, next(t, s)) {
                Err(e) => Err(e),
                Ok(s) => Ok((DefaultValueV::Uuid4, s)),
            }
        } else if w == "UUID5"@ || w == "UUID_GENERATE_V5"@ {
            uuid5_arguments(t, next(t, s), here(t, s), u)
        } else {
            Err(
                SqlErrorV::Unsupported(
                    "DEFAULT "@ + w
                        + ": the generator set is closed -- now(), uuid4(), uuid5(namespace, name) -- and each member is O(1) per row; an arbitrary expression is the GENERATED ALWAYS row of QL_CONTRACT §2"@,
                ),
            )
        },
    }
}

impl Parser {
    fn no_arguments(&mut self) -> (r: Result<(), SqlError>)
        requires
            old(self).ok(),
        ensures
            passes(r, *old(self), *final(self), no_arguments(old(self).t(), old(self).s())),
    {
        proof {
            reveal(no_arguments);
        }
        if self.eat(Sym::LParen) {
            self.expect(Sym::RParen)?;
        }
        Ok(())
    }

    fn uuid_text(&mut self, what: &str, at: usize) -> (r: Result<String, SqlError>)
        requires
            old(self).ok(),
        ensures
            reads(r, *old(self), *final(self), uuid_text(old(self).t(), old(self).s(), what@, at)),
    {
        proof {
            reveal(uuid_text);
        }
        match self.bump() {
            Tok::Str(text) => Ok(text),
            other => Err(
                SqlError::syntax(
                    crate::text::cat5(
                        "uuid5 takes a ",
                        what,
                        " written as a string, found `",
                        other.written().as_str(),
                        "`",
                    ).as_str(),
                    at,
                ),
            ),
        }
    }

    fn uuid5_arguments(&mut self, at: usize) -> (r: Result<DefaultValue, SqlError>)
        requires
            old(self).ok(),
        ensures
            reads(r, *old(self), *final(self), uuid5_arguments(old(self).t(), old(self).s(), at, old(self).u())),
    {
        proof {
            reveal(uuid5_arguments);
        }
        self.expect(Sym::LParen)?;
        let namespace = self.uuid_text("namespace UUID", at)?;
        self.expect(Sym::Comma)?;
        let name = self.uuid_text("name", at)?;
        self.expect(Sym::RParen)?;
        match refused_as(&self.refused, namespace.as_str()) {
            Some(reason) => Err(SqlError::Unsupported(cat2("uuid5 namespace: ", reason.as_str()))),
            None => Ok(DefaultValue::Uuid5 { namespace, name }),
        }
    }

    fn default_generator(&mut self) -> (r: Result<DefaultValue, SqlError>)
        requires
            old(self).ok(),
        ensures
            reads(r, *old(self), *final(self), default_generator(old(self).t(), old(self).s(), old(self).u())),
            r is Ok ==> final(self).at > old(self).at,
    {
        proof {
            reveal(default_generator);
        }
        let at = self.here();
        let w = match self.word() {
            Some(w) => w,
            None => {
                return Err(
                    SqlError::unsupported(
                        cat3(
                            "DEFAULT ",
                            self.peek().written().as_str(),
                            ": the generator set is closed -- now(), uuid4(), uuid5(namespace, name) -- and an arbitrary expression is the GENERATED ALWAYS row of QL_CONTRACT §2",
                        ).as_str(),
                    ),
                );
            },
        };
        self.skip();
        let w = w.as_str();
        if same(w, "NOW") || same(w, "CURRENT_TIMESTAMP") || same(w, "TRANSACTION_TIMESTAMP")
            || same(w, "STATEMENT_TIMESTAMP") {
            self.no_arguments()?;
            return Ok(DefaultValue::Now);
        }
        if same(w, "UUID4") || same(w, "GEN_RANDOM_UUID") || same(w, "UUID_GENERATE_V4") {
            self.no_arguments()?;
            return Ok(DefaultValue::Uuid4);
        }
        if same(w, "UUID5") || same(w, "UUID_GENERATE_V5") {
            return self.uuid5_arguments(at);
        }
        Err(
            SqlError::unsupported(
                cat3(
                    "DEFAULT ",
                    w,
                    ": the generator set is closed -- now(), uuid4(), uuid5(namespace, name) -- and each member is O(1) per row; an arbitrary expression is the GENERATED ALWAYS row of QL_CONTRACT §2",
                ).as_str(),
            ),
        )
    }
}

// ── columns ──────────────────────────────────────────────────────────────

/// What the clauses behind a column's type say: whether it is the key, and its
/// rule.
pub struct ClausesV {
    pub primary_key: bool,
    pub rule: ColumnRuleV,
}

/// What the clauses behind a column's type say.
#[derive(Debug)]
pub struct Clauses {
    pub primary_key: bool,
    pub rule: ColumnRule,
}

impl DeepView for Clauses {
    type V = ClausesV;

    open spec fn deep_view(&self) -> ClausesV {
        ClausesV { primary_key: self.primary_key, rule: self.rule.deep_view() }
    }
}

/// No clauses.
pub open spec fn no_clauses() -> ClausesV {
    ClausesV { primary_key: false, rule: ColumnRuleV { default: None, not_null: false } }
}

/// One clause, on top of those before it; nothing where none stands.
#[verifier::opaque]
pub open spec fn column_clause(
    t: Seq<TokenV>,
    s: int,
    c: ClausesV,
    u: Seq<(Seq<char>, Seq<char>)>,
) -> Result<(Option<ClausesV>, int), SqlErrorV> {
    if is_word(t, s, "PRIMARY"@) {
        match want_word(t, next(t, s), "KEY"@) {
            Err(e) => Err(e),
            Ok(s) => Ok((Some(ClausesV { primary_key: true, ..c }), s)),
        }
    } else if is_word(t, s, "NOT"@) && is_word(t, ahead(t, s, 1), "NULL"@) {
        let rule = ColumnRuleV { not_null: true, ..c.rule };
        Ok((Some(ClausesV { rule, ..c }), next(t, next(t, s))))
    } else if is_word(t, s, "NULL"@) {
        Ok((Some(c), next(t, s)))
    } else if is_word(t, s, "DEFAULT"@) {
        match default_generator(t, next(t, s), u) {
            Err(e) => Err(e),
            Ok((value, s)) => {
                let rule = ColumnRuleV { default: Some(value), ..c.rule };
                Ok((Some(ClausesV { rule, ..c }), s))
            }
        }
    } else if is_word(t, s, "UNIQUE"@) || is_word(t, s, "REFERENCES"@) || is_word(t, s, "CHECK"@) {
        Err(
            SqlErrorV::Unsupported(
                "column constraint `"@ + tok_text(tok(t, s))
                    + "`: the descriptor's per-field slot holds a DEFAULT generator and a NOT NULL flag, and nothing else"@,
            ),
        )
    } else if is_word(t, s, "GENERATED"@) {
        Err(
            SqlErrorV::Refused {
                keyword: "GENERATED ALWAYS"@,
                tier: Tier::Two,
                reason: "QL_CONTRACT §2: a generated column is a compiled row expression in the same descriptor slot, evaluated before the index-maintenance hook; the slot holds the closed generator set today."@,
            },
        )
    } else {
        Ok((None, s))
    }
}

/// The clauses behind a column's type, on top of those before them.
pub open spec fn column_clauses(
    t: Seq<TokenV>,
    s: int,
    c: ClausesV,
    u: Seq<(Seq<char>, Seq<char>)>,
) -> Result<(ClausesV, int), SqlErrorV>
    decreases t.len() - s,
{
    match column_clause(t, s, c, u) {
        Err(e) => Err(e),
        Ok((None, s2)) => Ok((c, s2)),
        Ok((Some(c2), s2)) => if s < s2 <= t.len() {
            column_clauses(t, s2, c2, u)
        } else {
            Ok((c2, s2))
        },
    }
}

/// A rule, where it says anything.
pub open spec fn rule_if_any(rule: ColumnRuleV) -> Option<ColumnRuleV> {
    if rule.default is Some || rule.not_null {
        Some(rule)
    } else {
        None
    }
}

/// One column: its name, its type and its clauses.
#[verifier::opaque]
pub open spec fn column_def(t: Seq<TokenV>, s: int, u: Seq<(Seq<char>, Seq<char>)>) -> Result<
    (ColumnDefV, int),
    SqlErrorV,
> {
    match name(t, s) {
        Err(e) => Err(e),
        Ok((column, s)) => match column_type(t, s) {
            Err(e) => Err(e),
            Ok((pair, s)) => match column_clauses(t, s, no_clauses(), u) {
                Err(e) => Err(e),
                Ok((c, s)) => {
                    Ok((ColumnDefV { name: column, kind: pair.0, declared: pair.1, primary_key: c.primary_key, rule: rule_if_any(c.rule) }, s))
                }
            },
        },
    }
}

/// Columns between commas, behind those of `done`.
pub open spec fn column_defs(
    t: Seq<TokenV>,
    s: int,
    done: Seq<ColumnDefV>,
    u: Seq<(Seq<char>, Seq<char>)>,
) -> Result<(Seq<ColumnDefV>, int), SqlErrorV>
    decreases t.len() - s,
{
    match column_def(t, s, u) {
        Err(e) => Err(e),
        Ok((c, s2)) => if is_sym(t, s2, Sym::Comma) && s < next(t, s2) <= t.len() {
            column_defs(t, next(t, s2), done.push(c), u)
        } else {
            Ok((done.push(c), s2))
        },
    }
}

impl Parser {
    fn column_clause(&mut self, c: &mut Clauses) -> (r: Result<bool, SqlError>)
        requires
            old(self).ok(),
        ensures
            final(self).tokens == old(self).tokens,
            final(self).refused == old(self).refused,
            final(self).ok(),
            final(self).at >= old(self).at,
            final(self).depth == old(self).depth,
            r is Ok && r->Ok_0 ==> final(self).at > old(self).at,
            match column_clause(old(self).t(), old(self).s(), old(c).deep_view(), old(self).u()) {
                Ok((Some(c2), s)) => r is Ok && r->Ok_0 && final(c).deep_view() == c2
                    && final(self).at == s,
                Ok((None, s)) => r is Ok && !r->Ok_0 && final(c).deep_view() == old(c).deep_view()
                    && final(self).at == s,
                Err(e) => r is Err && r->Err_0.deep_view() == e,
            },
    {
        proof {
            reveal(column_clause);
        }
        if self.eat_word("PRIMARY") {
            self.expect_word("KEY")?;
            c.primary_key = true;
            return Ok(true);
        }
        if self.at_word("NOT") && self.word_ahead(1, "NULL") {
            self.skip();
            self.skip();
            c.rule.not_null = true;
            return Ok(true);
        }
        if self.eat_word("NULL") {
            return Ok(true);
        }
        if self.eat_word("DEFAULT") {
            let value = self.default_generator()?;
            c.rule.default = Some(value);
            return Ok(true);
        }
        if self.at_word("UNIQUE") || self.at_word("REFERENCES") || self.at_word("CHECK") {
            return Err(
                SqlError::unsupported(
                    cat3(
                        "column constraint `",
                        self.peek().written().as_str(),
                        "`: the descriptor's per-field slot holds a DEFAULT generator and a NOT NULL flag, and nothing else",
                    ).as_str(),
                ),
            );
        }
        if self.at_word("GENERATED") {
            return Err(
                SqlError::Refused {
                    keyword: owned("GENERATED ALWAYS"),
                    tier: Tier::Two,
                    reason: owned(
                        "QL_CONTRACT §2: a generated column is a compiled row expression in the same descriptor slot, evaluated before the index-maintenance hook; the slot holds the closed generator set today.",
                    ),
                },
            );
        }
        Ok(false)
    }

    fn column_clauses(&mut self) -> (r: Result<Clauses, SqlError>)
        requires
            old(self).ok(),
        ensures
            reads(
                r,
                *old(self),
                *final(self),
                column_clauses(old(self).t(), old(self).s(), no_clauses(), old(self).u()),
            ),
    {
        let ghost t = self.t();
        let ghost start = self.s();
        let mut c = Clauses {
            primary_key: false,
            rule: ColumnRule { default: None, not_null: false },
        };
        assert(c.deep_view() == no_clauses());
        loop
            invariant
                self.ok(),
                self.tokens == old(self).tokens,
                self.refused == old(self).refused,
                self.depth == old(self).depth,
                self.at >= old(self).at,
                t == self.t(),
                t == old(self).t(),
                start == old(self).s(),
                column_clauses(t, start, no_clauses(), self.u()) == column_clauses(
                    t,
                    self.s(),
                    c.deep_view(),
                    self.u(),
                ),
            decreases self.tokens@.len() - self.at,
        {
            if !self.column_clause(&mut c)? {
                return Ok(c);
            }
        }
    }

    fn column_def(&mut self) -> (r: Result<ColumnDef, SqlError>)
        requires
            old(self).ok(),
        ensures
            reads(r, *old(self), *final(self), column_def(old(self).t(), old(self).s(), old(self).u())),
    {
        proof {
            reveal(column_def);
        }
        let name = self.name()?;
        let (kind, declared) = self.column_type()?;
        let c = self.column_clauses()?;
        let rule = if c.rule.default.is_some() || c.rule.not_null {
            Some(c.rule)
        } else {
            None
        };
        Ok(ColumnDef { name, kind, declared, primary_key: c.primary_key, rule })
    }

    fn column_defs(&mut self) -> (r: Result<Vec<ColumnDef>, SqlError>)
        requires
            old(self).ok(),
        ensures
            reads(
                r,
                *old(self),
                *final(self),
                column_defs(old(self).t(), old(self).s(), Seq::empty(), old(self).u()),
            ),
    {
        let ghost t = self.t();
        let ghost start = self.s();
        let mut out: Vec<ColumnDef> = Vec::new();
        assert(out.deep_view() =~= Seq::<ColumnDefV>::empty());
        loop
            invariant
                self.ok(),
                self.tokens == old(self).tokens,
                self.refused == old(self).refused,
                self.depth == old(self).depth,
                self.at >= old(self).at,
                t == self.t(),
                t == old(self).t(),
                start == old(self).s(),
                column_defs(t, start, Seq::empty(), self.u()) == column_defs(
                    t,
                    self.s(),
                    out.deep_view(),
                    self.u(),
                ),
            decreases self.tokens@.len() - self.at,
        {
            let c = self.column_def()?;
            let ghost before = out.deep_view();
            out.push(c);
            assert(out.deep_view() =~= before.push(c.deep_view()));
            if !self.eat(Sym::Comma) {
                return Ok(out);
            }
        }
    }
}

// ── CREATE ───────────────────────────────────────────────────────────────

/// `IF NOT EXISTS`; whether it stands.
#[verifier::opaque]
pub open spec fn if_not_exists(t: Seq<TokenV>, s: int) -> Result<(bool, int), SqlErrorV> {
    if is_word(t, s, "IF"@) {
        match want_word(t, next(t, s), "NOT"@) {
            Err(e) => Err(e),
            Ok(s) => match want_word(t, s, "EXISTS"@) {
                Err(e) => Err(e),
                Ok(s) => Ok((true, s)),
            },
        }
    } else {
        Ok((false, s))
    }
}

/// `TABLE [IF NOT EXISTS] name (columns)`.
#[verifier::opaque]
pub open spec fn create_table(t: Seq<TokenV>, s: int, u: Seq<(Seq<char>, Seq<char>)>) -> Result<
    (StmtV, int),
    SqlErrorV,
> {
    match want_word(t, s, "TABLE"@) {
        Err(e) => Err(e),
        Ok(s) => match if_not_exists(t, s) {
            Err(e) => Err(e),
            Ok((if_not_exists, s)) => match name(t, s) {
                Err(e) => Err(e),
                Ok((table, s)) => match want(t, s, Sym::LParen) {
                    Err(e) => Err(e),
                    Ok(s) => match column_defs(t, s, Seq::empty(), u) {
                        Err(e) => Err(e),
                        Ok((columns, s)) => match want(t, s, Sym::RParen) {
                            Err(e) => Err(e),
                            Ok(s) => Ok((StmtV::CreateTable { table, columns, if_not_exists }, s)),
                        },
                    },
                },
            },
        },
    }
}

/// A column, or `lower(column)`.
#[verifier::opaque]
pub open spec fn index_expression(t: Seq<TokenV>, s: int) -> Result<(IndexMethodV, int), SqlErrorV> {
    if is_word(t, s, "LOWER"@) && is_sym(t, ahead(t, s, 1), Sym::LParen) {
        match want(t, next(t, s), Sym::LParen) {
            Err(e) => Err(e),
            Ok(s) => match name(t, s) {
                Err(e) => Err(e),
                Ok((column, s)) => match want(t, s, Sym::RParen) {
                    Err(e) => Err(e),
                    Ok(s) => Ok((IndexMethodV::LowerBtree(column), s)),
                },
            },
        }
    } else {
        match name(t, s) {
            Err(e) => Err(e),
            Ok((column, s)) => Ok((IndexMethodV::Btree(column), s)),
        }
    }
}

/// `vector_cosine_ops`, or nothing.
#[verifier::opaque]
pub open spec fn vector_opclass(t: Seq<TokenV>, s: int) -> Result<int, SqlErrorV> {
    match word(t, s) {
        None => Ok(s),
        Some(w) => if w == "VECTOR_COSINE_OPS"@ {
            Ok(next(t, s))
        } else if stands_at(w, "VECTOR_"@, 0) {
            Err(
                SqlErrorV::Unsupported(
                    "operator class `"@ + w
                        + "`: the quantized family is built for cosine (`vector_cosine_ops`); the metric of a query is the operator it writes"@,
                ),
            )
        } else {
            Ok(s)
        },
    }
}

/// `to_tsvector('simple', column)` of an index.
#[verifier::opaque]
pub open spec fn gin_target(t: Seq<TokenV>, s: int) -> Result<(IndexMethodV, int), SqlErrorV> {
    match want_word(t, s, "TO_TSVECTOR"@) {
        Err(e) => Err(e),
        Ok(s) => match want(t, s, Sym::LParen) {
            Err(e) => Err(e),
            Ok(s) => match simple_config(t, s) {
                Err(e) => Err(e),
                Ok(s) => match want(t, s, Sym::Comma) {
                    Err(e) => Err(e),
                    Ok(s) => match name(t, s) {
                        Err(e) => Err(e),
                        Ok((column, s)) => match want(t, s, Sym::RParen) {
                            Err(e) => Err(e),
                            Ok(s) => Ok((IndexMethodV::Gin(column), s)),
                        },
                    },
                },
            },
        },
    }
}

/// The target of an index by a method.
#[verifier::opaque]
pub open spec fn index_target(t: Seq<TokenV>, s: int, method: Seq<char>) -> Result<
    (IndexMethodV, int),
    SqlErrorV,
> {
    if method == "BTREE"@ {
        index_expression(t, s)
    } else if method == "GIN"@ {
        gin_target(t, s)
    } else if method == "GIST"@ || method == "SPGIST"@ {
        match name(t, s) {
            Err(e) => Err(e),
            Ok((column, s)) => Ok((IndexMethodV::Gist(column), s)),
        }
    } else if method == "EXACT"@ {
        match name(t, s) {
            Err(e) => Err(e),
            Ok((column, s)) => Ok((IndexMethodV::Exact(column), s)),
        }
    } else if method == "QUANTIZED"@ {
        match name(t, s) {
            Err(e) => Err(e),
            Ok((column, s)) => match vector_opclass(t, s) {
                Err(e) => Err(e),
                Ok(s) => Ok((IndexMethodV::Quantized { column, alias: None }, s)),
            },
        }
    } else if method == "HNSW"@ || method == "DISKANN"@ || method == "IVFFLAT"@ {
        match name(t, s) {
            Err(e) => Err(e),
            Ok((column, s)) => match vector_opclass(t, s) {
                Err(e) => Err(e),
                Ok(s) => Ok((IndexMethodV::Quantized { column, alias: Some(method) }, s)),
            },
        }
    } else if method == "BRIN"@ || method == "HASH"@ {
        Err(
            SqlErrorV::Unsupported(
                "USING "@ + method
                    + ": the index families are btree, gin, gist, exact and quantized (docs/core/SOURCE_LAYOUT.md, `src/index/`)"@,
            ),
        )
    } else {
        Err(SqlErrorV::Unsupported("USING "@ + method + ": no such index family"@))
    }
}

/// `(target)` of an index that names no method.
#[verifier::opaque]
pub open spec fn bare_index(t: Seq<TokenV>, s: int, unique: bool) -> Result<
    (IndexMethodV, int),
    SqlErrorV,
> {
    match want(t, s, Sym::LParen) {
        Err(e) => Err(e),
        Ok(s) => match index_expression(t, s) {
            Err(e) => Err(e),
            Ok((method, s)) => match want(t, s, Sym::RParen) {
                Err(e) => Err(e),
                Ok(s) => if unique {
                    Err(
                        SqlErrorV::Unsupported(
                            "UNIQUE on an expression index: uniqueness over a folded value would refuse two rows that differ, which is not what the statement says"@,
                        ),
                    )
                } else {
                    Ok((method, s))
                },
            },
        },
    }
}

/// `method (target)` of an index, behind `USING`.
#[verifier::opaque]
pub open spec fn using_index(t: Seq<TokenV>, s: int, unique: bool) -> Result<
    (IndexMethodV, int),
    SqlErrorV,
> {
    match word(t, s) {
        None => Err(syntax("expected an index method"@, here(t, s))),
        Some(w) => match want(t, next(t, s), Sym::LParen) {
            Err(e) => Err(e),
            Ok(s) => match index_target(t, s, w) {
                Err(e) => Err(e),
                Ok((method, s)) => match want(t, s, Sym::RParen) {
                    Err(e) => Err(e),
                    Ok(s) => if unique && !(method is Btree) {
                        Err(
                            SqlErrorV::Unsupported(
                                "UNIQUE belongs to a btree index only: `create_scalar_index` is the one family that takes it"@,
                            ),
                        )
                    } else if is_word(t, s, "WITH"@) {
                        Err(
                            SqlErrorV::Unsupported(
                                "CREATE INDEX ... WITH (...): build parameters are the family's own and are not settable from SQL"@,
                            ),
                        )
                    } else {
                        Ok((method, s))
                    },
                },
            },
        },
    }
}

/// `[UNIQUE] INDEX name ON table [USING method] (target)`.
#[verifier::opaque]
pub open spec fn create_index(t: Seq<TokenV>, s: int) -> Result<(StmtV, int), SqlErrorV> {
    let unique = is_word(t, s, "UNIQUE"@);
    match want_word(t, past_word(t, s, "UNIQUE"@), "INDEX"@) {
        Err(e) => Err(e),
        Ok(s) => if is_word(t, s, "CONCURRENTLY"@) {
            Err(
                SqlErrorV::Unsupported(
                    "CREATE INDEX CONCURRENTLY: an E4 build is already incremental (`build_index_step`) and a writer is single"@,
                ),
            )
        } else {
            match name(t, s) {
                Err(e) => Err(e),
                Ok((index, s)) => match want_word(t, s, "ON"@) {
                    Err(e) => Err(e),
                    Ok(s) => match name(t, s) {
                        Err(e) => Err(e),
                        Ok((table, s)) => match if is_word(t, s, "USING"@) { using_index(t, next(t, s), unique) } else { bare_index(t, s, unique) } {
                            Err(e) => Err(e),
                            Ok((method, s)) => {
                                Ok((StmtV::CreateIndex { name: index, table, method }, s))
                            }
                        },
                    },
                },
            }
        },
    }
}

/// A whole `CREATE`.
#[verifier::opaque]
pub open spec fn create(t: Seq<TokenV>, s: int, u: Seq<(Seq<char>, Seq<char>)>) -> Result<
    (StmtV, int),
    SqlErrorV,
> {
    match want_word(t, s, "CREATE"@) {
        Err(e) => Err(e),
        Ok(s) => if is_word(t, s, "SCHEMA"@) {
            Err(refusal("CREATE SCHEMA"@))
        } else if is_word(t, s, "VIEW"@) || is_word(t, s, "MATERIALIZED"@) {
            Err(refusal("CREATE VIEW"@))
        } else if is_word(t, s, "TRIGGER"@) {
            Err(refusal("CREATE TRIGGER"@))
        } else if is_word(t, s, "PROPERTY"@) {
            Err(refusal("CREATE PROPERTY GRAPH"@))
        } else if is_word(t, s, "TABLE"@) {
            create_table(t, s, u)
        } else if is_word(t, s, "INDEX"@) || is_word(t, s, "UNIQUE"@) {
            create_index(t, s)
        } else {
            Err(
                syntax(
                    "expected TABLE or INDEX after CREATE, found `"@ + tok_text(tok(t, s)) + "`"@,
                    here(t, s),
                ),
            )
        },
    }
}

impl Parser {
    fn if_not_exists(&mut self) -> (r: Result<bool, SqlError>)
        requires
            old(self).ok(),
        ensures
            reads(r, *old(self), *final(self), if_not_exists(old(self).t(), old(self).s())),
    {
        proof {
            reveal(if_not_exists);
        }
        if self.eat_word("IF") {
            self.expect_word("NOT")?;
            self.expect_word("EXISTS")?;
            return Ok(true);
        }
        Ok(false)
    }

    fn create_table(&mut self) -> (r: Result<Stmt, SqlError>)
        requires
            old(self).ok(),
        ensures
            reads(r, *old(self), *final(self), create_table(old(self).t(), old(self).s(), old(self).u())),
    {
        proof {
            reveal(create_table);
        }
        self.expect_word("TABLE")?;
        let if_not_exists = self.if_not_exists()?;
        let table = self.name()?;
        self.expect(Sym::LParen)?;
        let columns = self.column_defs()?;
        self.expect(Sym::RParen)?;
        Ok(Stmt::CreateTable { table, columns, if_not_exists })
    }

    fn index_expression(&mut self) -> (r: Result<IndexMethod, SqlError>)
        requires
            old(self).ok(),
        ensures
            reads(r, *old(self), *final(self), index_expression(old(self).t(), old(self).s())),
    {
        proof {
            reveal(index_expression);
        }
        if self.at_word("LOWER") && self.sym_ahead(1, Sym::LParen) {
            self.skip();
            self.expect(Sym::LParen)?;
            let column = self.name()?;
            self.expect(Sym::RParen)?;
            return Ok(IndexMethod::LowerBtree(column));
        }
        let column = self.name()?;
        Ok(IndexMethod::Btree(column))
    }

    fn vector_opclass(&mut self) -> (r: Result<(), SqlError>)
        requires
            old(self).ok(),
        ensures
            passes(r, *old(self), *final(self), vector_opclass(old(self).t(), old(self).s())),
    {
        proof {
            reveal(vector_opclass);
        }
        match self.word() {
            None => Ok(()),
            Some(w) => {
                if same(w.as_str(), "VECTOR_COSINE_OPS") {
                    self.skip();
                    return Ok(());
                }
                if begins(w.as_str(), "VECTOR_") {
                    return Err(
                        SqlError::unsupported(
                            cat3(
                                "operator class `",
                                w.as_str(),
                                "`: the quantized family is built for cosine (`vector_cosine_ops`); the metric of a query is the operator it writes",
                            ).as_str(),
                        ),
                    );
                }
                Ok(())
            },
        }
    }

    fn gin_target(&mut self) -> (r: Result<IndexMethod, SqlError>)
        requires
            old(self).ok(),
        ensures
            reads(r, *old(self), *final(self), gin_target(old(self).t(), old(self).s())),
    {
        proof {
            reveal(gin_target);
        }
        self.expect_word("TO_TSVECTOR")?;
        self.expect(Sym::LParen)?;
        self.simple_config()?;
        self.expect(Sym::Comma)?;
        let column = self.name()?;
        self.expect(Sym::RParen)?;
        Ok(IndexMethod::Gin(column))
    }

    fn index_target(&mut self, method: String) -> (r: Result<IndexMethod, SqlError>)
        requires
            old(self).ok(),
        ensures
            reads(r, *old(self), *final(self), index_target(old(self).t(), old(self).s(), method@)),
    {
        proof {
            reveal(index_target);
        }
        let w = method.as_str();
        if same(w, "BTREE") {
            return self.index_expression();
        }
        if same(w, "GIN") {
            return self.gin_target();
        }
        if same(w, "GIST") || same(w, "SPGIST") {
            let column = self.name()?;
            return Ok(IndexMethod::Gist(column));
        }
        if same(w, "EXACT") {
            let column = self.name()?;
            return Ok(IndexMethod::Exact(column));
        }
        if same(w, "QUANTIZED") {
            let column = self.name()?;
            self.vector_opclass()?;
            return Ok(IndexMethod::Quantized { column, alias: None });
        }
        if same(w, "HNSW") || same(w, "DISKANN") || same(w, "IVFFLAT") {
            let column = self.name()?;
            self.vector_opclass()?;
            return Ok(IndexMethod::Quantized { column, alias: Some(owned(w)) });
        }
        if same(w, "BRIN") || same(w, "HASH") {
            return Err(
                SqlError::unsupported(
                    cat3(
                        "USING ",
                        w,
                        ": the index families are btree, gin, gist, exact and quantized (docs/core/SOURCE_LAYOUT.md, `src/index/`)",
                    ).as_str(),
                ),
            );
        }
        Err(SqlError::unsupported(cat3("USING ", w, ": no such index family").as_str()))
    }

    fn bare_index(&mut self, unique: bool) -> (r: Result<IndexMethod, SqlError>)
        requires
            old(self).ok(),
        ensures
            reads(r, *old(self), *final(self), bare_index(old(self).t(), old(self).s(), unique)),
    {
        proof {
            reveal(bare_index);
        }
        self.expect(Sym::LParen)?;
        let method = self.index_expression()?;
        self.expect(Sym::RParen)?;
        if unique {
            return Err(
                SqlError::unsupported(
                    "UNIQUE on an expression index: uniqueness over a folded value would refuse two rows that differ, which is not what the statement says",
                ),
            );
        }
        Ok(method)
    }

    fn using_index(&mut self, unique: bool) -> (r: Result<IndexMethod, SqlError>)
        requires
            old(self).ok(),
        ensures
            reads(r, *old(self), *final(self), using_index(old(self).t(), old(self).s(), unique)),
    {
        proof {
            reveal(using_index);
        }
        let w = match self.word() {
            Some(w) => w,
            None => {
                return Err(SqlError::syntax("expected an index method", self.here()));
            },
        };
        self.skip();
        self.expect(Sym::LParen)?;
        let method = self.index_target(w)?;
        self.expect(Sym::RParen)?;
        let btree = match &method {
            IndexMethod::Btree(_) => true,
            _ => false,
        };
        if unique && !btree {
            return Err(
                SqlError::unsupported(
                    "UNIQUE belongs to a btree index only: `create_scalar_index` is the one family that takes it",
                ),
            );
        }
        if self.at_word("WITH") {
            return Err(
                SqlError::unsupported(
                    "CREATE INDEX ... WITH (...): build parameters are the family's own and are not settable from SQL",
                ),
            );
        }
        Ok(method)
    }

    fn create_index(&mut self) -> (r: Result<Stmt, SqlError>)
        requires
            old(self).ok(),
        ensures
            reads(r, *old(self), *final(self), create_index(old(self).t(), old(self).s())),
    {
        proof {
            reveal(create_index);
        }
        let unique = self.eat_word("UNIQUE");
        self.expect_word("INDEX")?;
        if self.at_word("CONCURRENTLY") {
            return Err(
                SqlError::unsupported(
                    "CREATE INDEX CONCURRENTLY: an E4 build is already incremental (`build_index_step`) and a writer is single",
                ),
            );
        }
        let name = self.name()?;
        self.expect_word("ON")?;
        let table = self.name()?;
        let method = if self.eat_word("USING") {
            self.using_index(unique)?
        } else {
            self.bare_index(unique)?
        };
        Ok(Stmt::CreateIndex { name, table, method })
    }

    /// A whole `CREATE`.
    pub fn create(&mut self) -> (r: Result<Stmt, SqlError>)
        requires
            old(self).ok(),
        ensures
            reads(r, *old(self), *final(self), create(old(self).t(), old(self).s(), old(self).u())),
    {
        proof {
            reveal(create);
        }
        self.expect_word("CREATE")?;
        if self.at_word("SCHEMA") {
            return Err(refuse("CREATE SCHEMA"));
        }
        if self.at_word("VIEW") || self.at_word("MATERIALIZED") {
            return Err(refuse("CREATE VIEW"));
        }
        if self.at_word("TRIGGER") {
            return Err(refuse("CREATE TRIGGER"));
        }
        if self.at_word("PROPERTY") {
            return Err(refuse("CREATE PROPERTY GRAPH"));
        }
        if self.at_word("TABLE") {
            return self.create_table();
        }
        if self.at_word("INDEX") || self.at_word("UNIQUE") {
            return self.create_index();
        }
        Err(
            SqlError::syntax(
                cat3(
                    "expected TABLE or INDEX after CREATE, found `",
                    self.peek().written().as_str(),
                    "`",
                ).as_str(),
                self.here(),
            ),
        )
    }
}

// ── DROP ─────────────────────────────────────────────────────────────────

/// `IF EXISTS`; whether it stands.
#[verifier::opaque]
pub open spec fn if_exists(t: Seq<TokenV>, s: int) -> Result<(bool, int), SqlErrorV> {
    if is_word(t, s, "IF"@) {
        match want_word(t, next(t, s), "EXISTS"@) {
            Err(e) => Err(e),
            Ok(s) => Ok((true, s)),
        }
    } else {
        Ok((false, s))
    }
}

/// `CASCADE`, `RESTRICT` or nothing; whether it is the first.
pub open spec fn drop_mode(t: Seq<TokenV>, s: int) -> (bool, int) {
    if is_word(t, s, "CASCADE"@) {
        (true, next(t, s))
    } else {
        (false, past_word(t, s, "RESTRICT"@))
    }
}

/// What a `DROP` drops.
#[verifier::opaque]
pub open spec fn drop_statement(t: Seq<TokenV>, s: int) -> Result<(StmtV, int), SqlErrorV> {
    match want_word(t, s, "DROP"@) {
        Err(e) => Err(e),
        Ok(s) => if is_word(t, s, "TABLE"@) {
            match if_exists(t, next(t, s)) {
                Err(e) => Err(e),
                Ok((if_exists, s)) => match name(t, s) {
                    Err(e) => Err(e),
                    Ok((table, s)) => {
                        let (cascade, s) = drop_mode(t, s);
                        Ok((StmtV::DropTable { table, if_exists, cascade }, s))
                    }
                },
            }
        } else if is_word(t, s, "INDEX"@) {
            match if_exists(t, next(t, s)) {
                Err(e) => Err(e),
                Ok((if_exists, s)) => match name(t, s) {
                    Err(e) => Err(e),
                    Ok((index, s)) => Ok((StmtV::DropIndex { name: index, if_exists }, s)),
                },
            }
        } else {
            Err(
                SqlErrorV::Unsupported(
                    "DROP "@ + (match word(t, s) {
                        Some(w) => w,
                        None => ""@,
                    }) + ": DROP TABLE and DROP INDEX are the catalog's own"@,
                ),
            )
        },
    }
}

impl Parser {
    fn if_exists(&mut self) -> (r: Result<bool, SqlError>)
        requires
            old(self).ok(),
        ensures
            reads(r, *old(self), *final(self), if_exists(old(self).t(), old(self).s())),
    {
        proof {
            reveal(if_exists);
        }
        if self.eat_word("IF") {
            self.expect_word("EXISTS")?;
            return Ok(true);
        }
        Ok(false)
    }

    /// `CASCADE`, `RESTRICT` or nothing.
    pub fn drop_mode(&mut self) -> (r: bool)
        requires
            old(self).ok(),
        ensures
            final(self).tokens == old(self).tokens,
            final(self).refused == old(self).refused,
            final(self).depth == old(self).depth,
            final(self).ok(),
            final(self).at >= old(self).at,
            (r, final(self).s()) == drop_mode(old(self).t(), old(self).s()),
    {
        if self.eat_word("CASCADE") {
            return true;
        }
        let _ = self.eat_word("RESTRICT");
        false
    }

    /// A whole `DROP`.
    pub fn drop_statement(&mut self) -> (r: Result<Stmt, SqlError>)
        requires
            old(self).ok(),
        ensures
            reads(r, *old(self), *final(self), drop_statement(old(self).t(), old(self).s())),
    {
        proof {
            reveal(drop_statement);
        }
        self.expect_word("DROP")?;
        if self.eat_word("TABLE") {
            let if_exists = self.if_exists()?;
            let table = self.name()?;
            let cascade = self.drop_mode();
            return Ok(Stmt::DropTable { table, if_exists, cascade });
        }
        if self.eat_word("INDEX") {
            let if_exists = self.if_exists()?;
            let name = self.name()?;
            return Ok(Stmt::DropIndex { name, if_exists });
        }
        let what = match self.word() {
            Some(w) => w,
            None => owned(""),
        };
        Err(
            SqlError::unsupported(
                cat3(
                    "DROP ",
                    what.as_str(),
                    ": DROP TABLE and DROP INDEX are the catalog's own",
                ).as_str(),
            ),
        )
    }
}

// ── ALTER ────────────────────────────────────────────────────────────────

/// Whether a constraint is added at a place.
pub open spec fn is_constraint(t: Seq<TokenV>, s: int) -> bool {
    is_word(t, s, "CONSTRAINT"@) || is_word(t, s, "PRIMARY"@) || is_word(t, s, "UNIQUE"@)
        || is_word(t, s, "FOREIGN"@) || is_word(t, s, "CHECK"@) || is_word(t, s, "EXCLUDE"@)
}

/// `ADD [COLUMN] column`, behind `ADD`.
#[verifier::opaque]
pub open spec fn add_action(t: Seq<TokenV>, s: int, u: Seq<(Seq<char>, Seq<char>)>) -> Result<
    (AlterActionV, int),
    SqlErrorV,
> {
    if is_constraint(t, s) {
        Err(
            SqlErrorV::Unsupported(
                "ALTER TABLE ... ADD "@ + word(t, s)->0
                    + ": the descriptor's per-field slot holds a DEFAULT generator and a NOT NULL flag; the forms are ADD COLUMN, DROP COLUMN, RENAME COLUMN, RENAME TO and ALTER COLUMN ... TYPE (QL_CONTRACT §2)"@,
            ),
        )
    } else {
        let s = past_word(t, s, "COLUMN"@);
        if is_word(t, s, "IF"@) {
            match want_word(t, next(t, s), "NOT"@) {
                Err(e) => Err(e),
                Ok(s) => match want_word(t, s, "EXISTS"@) {
                    Err(e) => Err(e),
                    Ok(s) => Err(
                        SqlErrorV::Unsupported(
                            "ADD COLUMN IF NOT EXISTS: the rewrite is refused for a duplicate name and there is no probe that makes it conditional"@,
                        ),
                    ),
                },
            }
        } else {
            match column_def(t, s, u) {
                Err(e) => Err(e),
                Ok((column, s)) => Ok((AlterActionV::AddColumn(Box::new(column)), s)),
            }
        }
    }
}

/// `DROP [COLUMN] [IF EXISTS] column`, behind `DROP`.
#[verifier::opaque]
pub open spec fn drop_action(t: Seq<TokenV>, s: int) -> Result<(AlterActionV, int), SqlErrorV> {
    match if_exists(t, past_word(t, s, "COLUMN"@)) {
        Err(e) => Err(e),
        Ok((if_exists, s)) => match name(t, s) {
            Err(e) => Err(e),
            Ok((column, s)) => if is_word(t, s, "CASCADE"@) {
                Err(
                    SqlErrorV::Unsupported(
                        "DROP COLUMN ... CASCADE: a dependent object here is an INDEX over the column, and dropping it silently is what CASCADE would do; DROP INDEX first"@,
                    ),
                )
            } else {
                Ok((AlterActionV::DropColumn { column, if_exists }, past_word(t, s, "RESTRICT"@)))
            },
        },
    }
}

/// `RENAME TO table` or `RENAME [COLUMN] from TO to`, behind `RENAME`.
#[verifier::opaque]
pub open spec fn rename_action(t: Seq<TokenV>, s: int) -> Result<(AlterActionV, int), SqlErrorV> {
    if is_word(t, s, "TO"@) {
        match name(t, next(t, s)) {
            Err(e) => Err(e),
            Ok((to, s)) => Ok((AlterActionV::RenameTable { to }, s)),
        }
    } else {
        match name(t, past_word(t, s, "COLUMN"@)) {
            Err(e) => Err(e),
            Ok((from, s)) => match want_word(t, s, "TO"@) {
                Err(e) => Err(e),
                Ok(s) => match name(t, s) {
                    Err(e) => Err(e),
                    Ok((to, s)) => Ok((AlterActionV::RenameColumn { from, to }, s)),
                },
            },
        }
    }
}

/// `TYPE` or `SET DATA TYPE` of a column.
#[verifier::opaque]
pub open spec fn type_word(t: Seq<TokenV>, s: int, column: Seq<char>) -> Result<int, SqlErrorV> {
    if is_word(t, s, "SET"@) {
        if is_word(t, next(t, s), "DATA"@) {
            want_word(t, next(t, next(t, s)), "TYPE"@)
        } else {
            Err(
                SqlErrorV::Unsupported(
                    "ALTER COLUMN "@ + column
                        + " SET ...: the descriptor slot is written whole by ADD COLUMN and ALTER COLUMN ... TYPE; there is no per-clause SET"@,
                ),
            )
        }
    } else {
        want_word(t, s, "TYPE"@)
    }
}

/// `ALTER [COLUMN] column [SET DATA] TYPE type`, behind `ALTER`.
#[verifier::opaque]
pub open spec fn type_action(t: Seq<TokenV>, s: int) -> Result<(AlterActionV, int), SqlErrorV> {
    match name(t, past_word(t, s, "COLUMN"@)) {
        Err(e) => Err(e),
        Ok((column, s)) => match type_word(t, s, column) {
            Err(e) => Err(e),
            Ok(s) => match column_type(t, s) {
                Err(e) => Err(e),
                Ok((pair, s)) => if is_word(t, s, "USING"@) {
                    Err(
                        SqlErrorV::Unsupported(
                            "ALTER COLUMN "@ + column
                                + " TYPE ... USING <expr>: a USING clause rewrites every row through an expression, and no bounded resumable rewrite exists (QL_CONTRACT §2)"@,
                        ),
                    )
                } else {
                    Ok((AlterActionV::ColumnType { column, kind: pair.0, declared: pair.1 }, s))
                },
            },
        },
    }
}

/// One action of an `ALTER TABLE`.
#[verifier::opaque]
pub open spec fn alter_action(t: Seq<TokenV>, s: int, u: Seq<(Seq<char>, Seq<char>)>) -> Result<
    (AlterActionV, int),
    SqlErrorV,
> {
    if is_word(t, s, "ADD"@) {
        add_action(t, next(t, s), u)
    } else if is_word(t, s, "DROP"@) {
        drop_action(t, next(t, s))
    } else if is_word(t, s, "RENAME"@) {
        rename_action(t, next(t, s))
    } else if is_word(t, s, "ALTER"@) {
        type_action(t, next(t, s))
    } else {
        Err(
            SqlErrorV::Unsupported(
                "ALTER TABLE ... "@ + tok_text(tok(t, s))
                    + ": the forms are ADD COLUMN, DROP COLUMN, RENAME COLUMN, RENAME TO and ALTER COLUMN ... TYPE (QL_CONTRACT §2)"@,
            ),
        )
    }
}

/// `ALTER TABLE`, and why nothing else may stand behind it.
#[verifier::opaque]
pub open spec fn alter_head(t: Seq<TokenV>, s: int) -> Result<int, SqlErrorV> {
    match want_word(t, s, "ALTER"@) {
        Err(e) => Err(e),
        Ok(s) => match word(t, s) {
            None => Err(
                syntax("expected TABLE after ALTER, found `"@ + tok_text(tok(t, s)) + "`"@, here(t, s)),
            ),
            Some(w) => if w != "TABLE"@ {
                Err(
                    SqlErrorV::Unsupported(
                        "ALTER "@ + w
                            + ": ALTER TABLE is the catalog's own; there is no other alterable object"@,
                    ),
                )
            } else {
                let s = next(t, s);
                if is_word(t, s, "IF"@) {
                    match want_word(t, next(t, s), "EXISTS"@) {
                        Err(e) => Err(e),
                        Ok(_) => Err(
                            SqlErrorV::Unsupported(
                                "ALTER TABLE IF EXISTS: `Database::alter_collection` takes a CollectionId and there is no catalog probe that makes the rewrite conditional"@,
                            ),
                        ),
                    }
                } else if is_word(t, s, "ONLY"@) {
                    Err(
                        SqlErrorV::Unsupported(
                            "ALTER TABLE ONLY: there is no inheritance here, so ONLY names a distinction the catalog has not got"@,
                        ),
                    )
                } else {
                    Ok(s)
                }
            },
        },
    }
}

/// The table and the action of an `ALTER TABLE`.
#[verifier::opaque]
pub open spec fn alter(t: Seq<TokenV>, s: int, u: Seq<(Seq<char>, Seq<char>)>) -> Result<
    ((Seq<char>, AlterActionV), int),
    SqlErrorV,
> {
    match alter_head(t, s) {
        Err(e) => Err(e),
        Ok(s) => match name(t, s) {
            Err(e) => Err(e),
            Ok((table, s)) => match alter_action(t, s, u) {
                Err(e) => Err(e),
                Ok((action, s)) => if is_sym(t, s, Sym::Comma) {
                    Err(
                        SqlErrorV::Unsupported(
                            "two actions in one ALTER TABLE: each action is its own `alter_collection` commit, so a comma would hide a partial rewrite; write them as separate statements"@,
                        ),
                    )
                } else {
                    Ok(((table, action), s))
                },
            },
        },
    }
}

impl Parser {
    fn add_action(&mut self) -> (r: Result<AlterAction, SqlError>)
        requires
            old(self).ok(),
        ensures
            reads(r, *old(self), *final(self), add_action(old(self).t(), old(self).s(), old(self).u())),
    {
        proof {
            reveal(add_action);
        }
        if let Some(w) = self.word() {
            let k = w.as_str();
            if same(k, "CONSTRAINT") || same(k, "PRIMARY") || same(k, "UNIQUE") || same(
                k,
                "FOREIGN",
            ) || same(k, "CHECK") || same(k, "EXCLUDE") {
                return Err(
                    SqlError::unsupported(
                        cat3(
                            "ALTER TABLE ... ADD ",
                            k,
                            ": the descriptor's per-field slot holds a DEFAULT generator and a NOT NULL flag; the forms are ADD COLUMN, DROP COLUMN, RENAME COLUMN, RENAME TO and ALTER COLUMN ... TYPE (QL_CONTRACT §2)",
                        ).as_str(),
                    ),
                );
            }
        }
        let _ = self.eat_word("COLUMN");
        if self.eat_word("IF") {
            self.expect_word("NOT")?;
            self.expect_word("EXISTS")?;
            return Err(
                SqlError::unsupported(
                    "ADD COLUMN IF NOT EXISTS: the rewrite is refused for a duplicate name and there is no probe that makes it conditional",
                ),
            );
        }
        let column = self.column_def()?;
        Ok(AlterAction::AddColumn(Box::new(column)))
    }

    fn drop_action(&mut self) -> (r: Result<AlterAction, SqlError>)
        requires
            old(self).ok(),
        ensures
            reads(r, *old(self), *final(self), drop_action(old(self).t(), old(self).s())),
    {
        proof {
            reveal(drop_action);
        }
        let _ = self.eat_word("COLUMN");
        let if_exists = self.if_exists()?;
        let column = self.name()?;
        if self.at_word("CASCADE") {
            return Err(
                SqlError::unsupported(
                    "DROP COLUMN ... CASCADE: a dependent object here is an INDEX over the column, and dropping it silently is what CASCADE would do; DROP INDEX first",
                ),
            );
        }
        let _ = self.eat_word("RESTRICT");
        Ok(AlterAction::DropColumn { column, if_exists })
    }

    fn rename_action(&mut self) -> (r: Result<AlterAction, SqlError>)
        requires
            old(self).ok(),
        ensures
            reads(r, *old(self), *final(self), rename_action(old(self).t(), old(self).s())),
    {
        proof {
            reveal(rename_action);
        }
        if self.eat_word("TO") {
            let to = self.name()?;
            return Ok(AlterAction::RenameTable { to });
        }
        let _ = self.eat_word("COLUMN");
        let from = self.name()?;
        self.expect_word("TO")?;
        let to = self.name()?;
        Ok(AlterAction::RenameColumn { from, to })
    }

    fn type_word(&mut self, column: &str) -> (r: Result<(), SqlError>)
        requires
            old(self).ok(),
        ensures
            passes(r, *old(self), *final(self), type_word(old(self).t(), old(self).s(), column@)),
    {
        proof {
            reveal(type_word);
        }
        if self.eat_word("SET") {
            if !self.eat_word("DATA") {
                return Err(
                    SqlError::unsupported(
                        cat3(
                            "ALTER COLUMN ",
                            column,
                            " SET ...: the descriptor slot is written whole by ADD COLUMN and ALTER COLUMN ... TYPE; there is no per-clause SET",
                        ).as_str(),
                    ),
                );
            }
        }
        self.expect_word("TYPE")
    }

    fn type_action(&mut self) -> (r: Result<AlterAction, SqlError>)
        requires
            old(self).ok(),
        ensures
            reads(r, *old(self), *final(self), type_action(old(self).t(), old(self).s())),
    {
        proof {
            reveal(type_action);
        }
        let _ = self.eat_word("COLUMN");
        let column = self.name()?;
        self.type_word(column.as_str())?;
        let (kind, declared) = self.column_type()?;
        if self.at_word("USING") {
            return Err(
                SqlError::unsupported(
                    cat3(
                        "ALTER COLUMN ",
                        column.as_str(),
                        " TYPE ... USING <expr>: a USING clause rewrites every row through an expression, and no bounded resumable rewrite exists (QL_CONTRACT §2)",
                    ).as_str(),
                ),
            );
        }
        Ok(AlterAction::ColumnType { column, kind, declared })
    }

    fn alter_action(&mut self) -> (r: Result<AlterAction, SqlError>)
        requires
            old(self).ok(),
        ensures
            reads(r, *old(self), *final(self), alter_action(old(self).t(), old(self).s(), old(self).u())),
    {
        proof {
            reveal(alter_action);
        }
        if self.eat_word("ADD") {
            return self.add_action();
        }
        if self.eat_word("DROP") {
            return self.drop_action();
        }
        if self.eat_word("RENAME") {
            return self.rename_action();
        }
        if self.eat_word("ALTER") {
            return self.type_action();
        }
        Err(
            SqlError::unsupported(
                cat3(
                    "ALTER TABLE ... ",
                    self.peek().written().as_str(),
                    ": the forms are ADD COLUMN, DROP COLUMN, RENAME COLUMN, RENAME TO and ALTER COLUMN ... TYPE (QL_CONTRACT §2)",
                ).as_str(),
            ),
        )
    }

    fn alter_head(&mut self) -> (r: Result<(), SqlError>)
        requires
            old(self).ok(),
        ensures
            passes(r, *old(self), *final(self), alter_head(old(self).t(), old(self).s())),
    {
        proof {
            reveal(alter_head);
        }
        self.expect_word("ALTER")?;
        match self.word() {
            None => {
                return Err(
                    SqlError::syntax(
                        cat3(
                            "expected TABLE after ALTER, found `",
                            self.peek().written().as_str(),
                            "`",
                        ).as_str(),
                        self.here(),
                    ),
                );
            },
            Some(w) => if !same(w.as_str(), "TABLE") {
                return Err(
                    SqlError::unsupported(
                        cat3(
                            "ALTER ",
                            w.as_str(),
                            ": ALTER TABLE is the catalog's own; there is no other alterable object",
                        ).as_str(),
                    ),
                );
            },
        }
        self.skip();
        if self.eat_word("IF") {
            self.expect_word("EXISTS")?;
            return Err(
                SqlError::unsupported(
                    "ALTER TABLE IF EXISTS: `Database::alter_collection` takes a CollectionId and there is no catalog probe that makes the rewrite conditional",
                ),
            );
        }
        if self.at_word("ONLY") {
            return Err(
                SqlError::unsupported(
                    "ALTER TABLE ONLY: there is no inheritance here, so ONLY names a distinction the catalog has not got",
                ),
            );
        }
        Ok(())
    }

    /// The table and the action of an `ALTER TABLE`.
    pub fn alter(&mut self) -> (r: Result<(String, AlterAction), SqlError>)
        requires
            old(self).ok(),
        ensures
            reads(r, *old(self), *final(self), alter(old(self).t(), old(self).s(), old(self).u())),
    {
        proof {
            reveal(alter);
        }
        self.alter_head()?;
        let table = self.name()?;
        let action = self.alter_action()?;
        if self.at_sym(Sym::Comma) {
            return Err(
                SqlError::unsupported(
                    "two actions in one ALTER TABLE: each action is its own `alter_collection` commit, so a comma would hide a partial rewrite; write them as separate statements",
                ),
            );
        }
        Ok((table, action))
    }
}

} // verus!
