//! Predicates: one condition on a row.

use vstd::prelude::*;
use crate::ast::{
    op_text, unit_text, CmpOp, Literal, LiteralV, Predicate, PredicateV, PrefixForm,
    SpatialPredicate, TextShape, TextShapeV, TimeShape, TimeShapeV, TimeValue, TimeValueV, TsQuery,
    TsQueryV,
};
use crate::calendar::unit_truncates;
use crate::compile::env::KEY_COLUMN;
use crate::error::{SqlError, SqlErrorV, Tier};
use crate::number::{order_real, real_order};
use crate::parser::cursor::{
    ahead, calls, guard_operator, guard_word, here, is_sym, is_word, name, next, parsed, past_word, reads,
    syntax, tok, too_deep, want, want_word, word, Parser, MAX_DEPTH,
};
use crate::parser::row::{extract_unit, trunc_unit};
use crate::parser::value::{
    casts, clock_value, comparison, comparison_of, geo_argument, json_member, literal,
    literal_pair, literals, tsquery, tsvector,
};
use crate::refuse::{refusal, refuse};
use crate::scan::Order;
use crate::text::{cat2, cat3, cat4, cat5, owned, same};
use crate::token::{tok_text, Sym, Tok, TokV, TokenV};

verus! {

// ── predicates that begin with a function ────────────────────────────────

/// `EXTRACT(unit FROM column)` compared, behind its name.
#[verifier::opaque]
pub open spec fn extract_predicate(t: Seq<TokenV>, s: int, d: nat) -> Result<
    (PredicateV, int),
    SqlErrorV,
> {
    match want(t, s, Sym::LParen) {
        Err(e) => Err(e),
        Ok(s) => match extract_unit(t, s) {
            Err(e) => Err(e),
            Ok((unit, s)) => match want_word(t, s, "FROM"@) {
                Err(e) => Err(e),
                Ok(s) => match name(t, s) {
                    Err(e) => Err(e),
                    Ok((column, s)) => match want(t, s, Sym::RParen) {
                        Err(e) => Err(e),
                        Ok(s) => if is_word(t, s, "BETWEEN"@) {
                            match literal_pair(t, next(t, s), d) {
                                Err(e) => Err(e),
                                Ok((pair, s)) => {
                                    let shape = TimeShapeV::ExtractBetween { unit, lower: pair.0, upper: pair.1 };
                                    Ok((PredicateV::Time { column, shape }, s))
                                }
                            }
                        } else {
                            match comparison(t, s, "EXTRACT("@ + unit_text(unit) + " FROM "@ + column + ")"@) {
                                Err(e) => Err(e),
                                Ok((op, s)) => match literal(t, s, d) {
                                    Err(e) => Err(e),
                                    Ok((value, s)) => {
                                        Ok((PredicateV::Time { column, shape: TimeShapeV::Extract { unit, op, value } }, s))
                                    }
                                },
                            }
                        },
                    },
                },
            },
        },
    }
}

/// `date_trunc('unit', column)` compared, behind its name.
#[verifier::opaque]
pub open spec fn trunc_predicate(t: Seq<TokenV>, s: int, d: nat) -> Result<
    (PredicateV, int),
    SqlErrorV,
> {
    match want(t, s, Sym::LParen) {
        Err(e) => Err(e),
        Ok(s) => match trunc_unit(t, s) {
            Err(e) => Err(e),
            Ok((unit, s)) => if !unit_truncates(unit) {
                Err(
                    SqlErrorV::Unsupported(
                        "date_trunc('"@ + unit_text(unit) + "', t): `"@ + unit_text(unit)
                            + "` is an EXTRACT field, not a truncation unit"@,
                    ),
                )
            } else {
                match want(t, s, Sym::Comma) {
                    Err(e) => Err(e),
                    Ok(s) => match name(t, s) {
                        Err(e) => Err(e),
                        Ok((column, s)) => match want(t, s, Sym::RParen) {
                            Err(e) => Err(e),
                            Ok(s) => if is_word(t, s, "BETWEEN"@) {
                                match literal_pair(t, next(t, s), d) {
                                    Err(e) => Err(e),
                                    Ok((pair, s)) => {
                                        let shape = TimeShapeV::TruncBetween { unit, lower: pair.0, upper: pair.1 };
                                        Ok((PredicateV::Time { column, shape }, s))
                                    }
                                }
                            } else {
                                match comparison(t, s, "date_trunc('"@ + unit_text(unit) + "', "@ + column + ")"@) {
                                    Err(e) => Err(e),
                                    Ok((op, s)) => match literal(t, s, d) {
                                        Err(e) => Err(e),
                                        Ok((value, s)) => {
                                            Ok((PredicateV::Time { column, shape: TimeShapeV::Trunc { unit, op, value } }, s))
                                        }
                                    },
                                }
                            },
                        },
                    },
                }
            },
        },
    }
}

/// `lower(column)` compared, behind its name.
#[verifier::opaque]
pub open spec fn lower_predicate(t: Seq<TokenV>, s: int, d: nat) -> Result<
    (PredicateV, int),
    SqlErrorV,
> {
    match want(t, s, Sym::LParen) {
        Err(e) => Err(e),
        Ok(s) => match name(t, s) {
            Err(e) => Err(e),
            Ok((column, s)) => match want(t, s, Sym::RParen) {
                Err(e) => Err(e),
                Ok(s) => if is_word(t, s, "LIKE"@) {
                    match literal(t, next(t, s), d) {
                        Err(e) => Err(e),
                        Ok((value, s)) => {
                            let shape = TextShapeV::LowerPrefix { value, written: PrefixForm::Like };
                            Ok((PredicateV::TextFn { column, shape }, s))
                        }
                    }
                } else {
                    match comparison(t, s, "lower("@ + column + ")"@) {
                        Err(e) => Err(e),
                        Ok((op, s)) => if op != CmpOp::Eq {
                            Err(
                                SqlErrorV::Unsupported(
                                    "lower("@ + column + ") "@ + op_text(op)
                                        + " v: QL_CONTRACT §4.1 rewrites lower(col) = v to an index EQUALITY and lower(col) LIKE 'v%' to a prefix range; an ordering comparison over a folded value is neither"@,
                                ),
                            )
                        } else {
                            match literal(t, s, d) {
                                Err(e) => Err(e),
                                Ok((value, s)) => {
                                    Ok((PredicateV::TextFn { column, shape: TextShapeV::LowerEq { value } }, s))
                                }
                            }
                        },
                    }
                },
            },
        },
    }
}

/// `starts_with(column, text)`, with or without `lower`, behind its name.
#[verifier::opaque]
pub open spec fn starts_predicate(t: Seq<TokenV>, s: int, d: nat) -> Result<
    (PredicateV, int),
    SqlErrorV,
> {
    match want(t, s, Sym::LParen) {
        Err(e) => Err(e),
        Ok(s) => {
            let lowered = calls(t, s, "LOWER"@);
            match if lowered { want(t, next(t, s), Sym::LParen) } else { Ok(s) } {
                Err(e) => Err(e),
                Ok(s) => match name(t, s) {
                    Err(e) => Err(e),
                    Ok((column, s)) => match if lowered { want(t, s, Sym::RParen) } else { Ok(s) } {
                        Err(e) => Err(e),
                        Ok(s) => match want(t, s, Sym::Comma) {
                            Err(e) => Err(e),
                            Ok(s) => match literal(t, s, d) {
                                Err(e) => Err(e),
                                Ok((value, s)) => match want(t, s, Sym::RParen) {
                                    Err(e) => Err(e),
                                    Ok(s) => {
                                        let written = PrefixForm::StartsWith;
                                        if lowered {
                                            Ok((PredicateV::TextFn { column, shape: TextShapeV::LowerPrefix { value, written } }, s))
                                        } else {
                                            Ok((PredicateV::TextFn { column, shape: TextShapeV::Prefix { value, written } }, s))
                                        }
                                    }
                                },
                            },
                        },
                    },
                },
            }
        }
    }
}

/// A predicate whose head is a call; nothing where no such call stands, and a
/// column may go by the name of a function.
#[verifier::opaque]
pub open spec fn function_predicate(t: Seq<TokenV>, s: int, d: nat) -> Result<
    (Option<PredicateV>, int),
    SqlErrorV,
> {
    if calls(t, s, "EXTRACT"@) {
        match extract_predicate(t, next(t, s), d) {
            Err(e) => Err(e),
            Ok((p, s)) => Ok((Some(p), s)),
        }
    } else if calls(t, s, "DATE_TRUNC"@) {
        match trunc_predicate(t, next(t, s), d) {
            Err(e) => Err(e),
            Ok((p, s)) => Ok((Some(p), s)),
        }
    } else if calls(t, s, "LOWER"@) {
        match lower_predicate(t, next(t, s), d) {
            Err(e) => Err(e),
            Ok((p, s)) => Ok((Some(p), s)),
        }
    } else if calls(t, s, "STARTS_WITH"@) {
        match starts_predicate(t, next(t, s), d) {
            Err(e) => Err(e),
            Ok((p, s)) => Ok((Some(p), s)),
        }
    } else {
        Ok((None, s))
    }
}

impl Parser {
    fn extract_predicate(&mut self) -> (r: Result<Predicate, SqlError>)
        requires
            old(self).ok(),
        ensures
            parsed(
                r,
                *old(self),
                *final(self),
                extract_predicate(old(self).t(), old(self).s(), old(self).d()),
            ),
    {
        proof {
            reveal(extract_predicate);
        }
        self.expect(Sym::LParen)?;
        let unit = self.extract_unit()?;
        self.expect_word("FROM")?;
        let column = self.name()?;
        self.expect(Sym::RParen)?;
        if self.eat_word("BETWEEN") {
            let (lower, upper) = self.literal_pair()?;
            return Ok(
                Predicate::Time { column, shape: TimeShape::ExtractBetween { unit, lower, upper } },
            );
        }
        let what = cat5("EXTRACT(", unit.written(), " FROM ", column.as_str(), ")");
        let op = self.comparison(what.as_str())?;
        let value = self.literal()?;
        Ok(Predicate::Time { column, shape: TimeShape::Extract { unit, op, value } })
    }

    fn trunc_predicate(&mut self) -> (r: Result<Predicate, SqlError>)
        requires
            old(self).ok(),
        ensures
            parsed(
                r,
                *old(self),
                *final(self),
                trunc_predicate(old(self).t(), old(self).s(), old(self).d()),
            ),
    {
        proof {
            reveal(trunc_predicate);
        }
        self.expect(Sym::LParen)?;
        let unit = self.trunc_unit()?;
        if !unit.truncates() {
            return Err(
                SqlError::unsupported(
                    cat5(
                        "date_trunc('",
                        unit.written(),
                        "', t): `",
                        unit.written(),
                        "` is an EXTRACT field, not a truncation unit",
                    ).as_str(),
                ),
            );
        }
        self.expect(Sym::Comma)?;
        let column = self.name()?;
        self.expect(Sym::RParen)?;
        if self.eat_word("BETWEEN") {
            let (lower, upper) = self.literal_pair()?;
            return Ok(
                Predicate::Time { column, shape: TimeShape::TruncBetween { unit, lower, upper } },
            );
        }
        let what = cat5("date_trunc('", unit.written(), "', ", column.as_str(), ")");
        let op = self.comparison(what.as_str())?;
        let value = self.literal()?;
        Ok(Predicate::Time { column, shape: TimeShape::Trunc { unit, op, value } })
    }

    fn lower_predicate(&mut self) -> (r: Result<Predicate, SqlError>)
        requires
            old(self).ok(),
        ensures
            parsed(
                r,
                *old(self),
                *final(self),
                lower_predicate(old(self).t(), old(self).s(), old(self).d()),
            ),
    {
        proof {
            reveal(lower_predicate);
        }
        self.expect(Sym::LParen)?;
        let column = self.name()?;
        self.expect(Sym::RParen)?;
        if self.eat_word("LIKE") {
            let value = self.literal()?;
            return Ok(
                Predicate::TextFn {
                    column,
                    shape: TextShape::LowerPrefix { value, written: PrefixForm::Like },
                },
            );
        }
        let op = self.comparison(cat3("lower(", column.as_str(), ")").as_str())?;
        if op != CmpOp::Eq {
            return Err(
                SqlError::unsupported(
                    cat5(
                        "lower(",
                        column.as_str(),
                        ") ",
                        op.written(),
                        " v: QL_CONTRACT §4.1 rewrites lower(col) = v to an index EQUALITY and lower(col) LIKE 'v%' to a prefix range; an ordering comparison over a folded value is neither",
                    ).as_str(),
                ),
            );
        }
        let value = self.literal()?;
        Ok(Predicate::TextFn { column, shape: TextShape::LowerEq { value } })
    }

    fn starts_predicate(&mut self) -> (r: Result<Predicate, SqlError>)
        requires
            old(self).ok(),
        ensures
            parsed(
                r,
                *old(self),
                *final(self),
                starts_predicate(old(self).t(), old(self).s(), old(self).d()),
            ),
    {
        proof {
            reveal(starts_predicate);
        }
        self.expect(Sym::LParen)?;
        let lowered = self.eat_call("LOWER");
        if lowered {
            self.expect(Sym::LParen)?;
        }
        let column = self.name()?;
        if lowered {
            self.expect(Sym::RParen)?;
        }
        self.expect(Sym::Comma)?;
        let value = self.literal()?;
        self.expect(Sym::RParen)?;
        let written = PrefixForm::StartsWith;
        if lowered {
            Ok(Predicate::TextFn { column, shape: TextShape::LowerPrefix { value, written } })
        } else {
            Ok(Predicate::TextFn { column, shape: TextShape::Prefix { value, written } })
        }
    }

    /// A predicate whose head is a call.
    pub fn function_predicate(&mut self) -> (r: Result<Option<Predicate>, SqlError>)
        requires
            old(self).ok(),
        ensures
            parsed(
                r,
                *old(self),
                *final(self),
                function_predicate(old(self).t(), old(self).s(), old(self).d()),
            ),
    {
        proof {
            reveal(function_predicate);
        }
        if self.eat_call("EXTRACT") {
            let p = self.extract_predicate()?;
            return Ok(Some(p));
        }
        if self.eat_call("DATE_TRUNC") {
            let p = self.trunc_predicate()?;
            return Ok(Some(p));
        }
        if self.eat_call("LOWER") {
            let p = self.lower_predicate()?;
            return Ok(Some(p));
        }
        if self.eat_call("STARTS_WITH") {
            let p = self.starts_predicate()?;
            return Ok(Some(p));
        }
        Ok(None)
    }
}

// ── constants ────────────────────────────────────────────────────────────

/// Whether two numbers compare so; a NaN is unequal to everything and has no
/// order.
pub open spec fn numbers_hold(op: CmpOp, a: u64, b: u64) -> bool {
    let o = real_order(a, b);
    match op {
        CmpOp::Eq => o == Some(Order::Equal),
        CmpOp::Ne => o != Some(Order::Equal),
        CmpOp::Lt => o == Some(Order::Less),
        CmpOp::Le => o == Some(Order::Less) || o == Some(Order::Equal),
        CmpOp::Gt => o == Some(Order::Greater),
        CmpOp::Ge => o == Some(Order::Greater) || o == Some(Order::Equal),
    }
}

/// Whether two numbers compare so.
pub fn hold_numbers(op: CmpOp, a: u64, b: u64) -> (r: bool)
    ensures
        r == numbers_hold(op, a, b),
{
    match order_real(a, b) {
        None => op == CmpOp::Ne,
        Some(o) => match op {
            CmpOp::Eq => o == Order::Equal,
            CmpOp::Ne => o != Order::Equal,
            CmpOp::Lt => o == Order::Less,
            CmpOp::Le => o != Order::Greater,
            CmpOp::Gt => o == Order::Greater,
            CmpOp::Ge => o != Order::Less,
        },
    }
}

/// A comparison of two numbers, folded to its truth value; nothing where none
/// stands.
#[verifier::opaque]
pub open spec fn constant_predicate(t: Seq<TokenV>, s: int) -> Result<
    (Option<PredicateV>, int),
    SqlErrorV,
> {
    match tok(t, s) {
        TokV::Num(left, _) => if comparison_of(tok(t, ahead(t, s, 1))) is None {
            Ok((None, s))
        } else {
            match comparison(t, next(t, s), "a constant"@) {
                Err(e) => Err(e),
                Ok((op, s)) => match tok(t, s) {
                    TokV::Num(right, _) => Ok(
                        (
                            Some(PredicateV::Constant(numbers_hold(op, left.bits, right.bits))),
                            next(t, s),
                        ),
                    ),
                    _ => Err(
                        SqlErrorV::Unsupported(
                            "a predicate with no column compares two NUMBERS: that is the `WHERE 1<>1` a driver writes to read a result's columns without a row"@,
                        ),
                    ),
                },
            }
        },
        _ => Ok((None, s)),
    }
}

impl Parser {
    fn constant_predicate(&mut self) -> (r: Result<Option<Predicate>, SqlError>)
        requires
            old(self).ok(),
        ensures
            reads(r, *old(self), *final(self), constant_predicate(old(self).t(), old(self).s())),
    {
        proof {
            reveal(constant_predicate);
        }
        let left = match self.peek() {
            Tok::Num(n, _) => n.bits,
            _ => {
                return Ok(None);
            },
        };
        if self.peek_at(1).comparison().is_none() {
            return Ok(None);
        }
        self.skip();
        let op = self.comparison("a constant")?;
        match self.bump() {
            Tok::Num(right, _) => Ok(Some(Predicate::Constant(hold_numbers(op, left, right.bits)))),
            _ => Err(
                SqlError::unsupported(
                    "a predicate with no column compares two NUMBERS: that is the `WHERE 1<>1` a driver writes to read a result's columns without a row",
                ),
            ),
        }
    }
}

// ── text and geometry ────────────────────────────────────────────────────

/// `to_tsvector('simple', column) @@ to_tsquery('simple', query)`.
#[verifier::opaque]
pub open spec fn text_predicate(t: Seq<TokenV>, s: int, d: nat) -> Result<
    (PredicateV, int),
    SqlErrorV,
> {
    match tsvector(t, s) {
        Err(e) => Err(e),
        Ok((column, s)) => if !is_sym(t, s, Sym::Matches) {
            Err(
                syntax(
                    "expected `@@` after to_tsvector, found `"@ + tok_text(tok(t, s)) + "`"@,
                    here(t, s),
                ),
            )
        } else {
            match tsquery(t, next(t, s), d) {
                Err(e) => Err(e),
                Ok((query, s)) => Ok((PredicateV::Text { column, query }, s)),
            }
        },
    }
}

/// `search(column, query)`.
#[verifier::opaque]
pub open spec fn search_predicate(t: Seq<TokenV>, s: int, d: nat) -> Result<
    (PredicateV, int),
    SqlErrorV,
> {
    match want_word(t, s, "SEARCH"@) {
        Err(e) => Err(e),
        Ok(s) => match want(t, s, Sym::LParen) {
            Err(e) => Err(e),
            Ok(s) => match name(t, s) {
                Err(e) => Err(e),
                Ok((column, s)) => match want(t, s, Sym::Comma) {
                    Err(e) => Err(e),
                    Ok(s) => match literal(t, s, d) {
                        Err(e) => Err(e),
                        Ok((source, s)) => match want(t, s, Sym::RParen) {
                            Err(e) => Err(e),
                            Ok(s) => {
                                let query = TsQueryV { source, tsquery_syntax: false, fuzzy: true };
                                Ok((PredicateV::Text { column, query }, s))
                            }
                        },
                    },
                },
            },
        },
    }
}

/// The predicate of a name; `None` where only the row function has it.
pub open spec fn spatial_named(w: Seq<char>) -> Option<SpatialPredicate> {
    if w == "ST_DWITHIN"@ {
        Some(SpatialPredicate::DWithin)
    } else if w == "ST_INTERSECTS"@ {
        Some(SpatialPredicate::Intersects)
    } else if w == "ST_WITHIN"@ {
        Some(SpatialPredicate::Within)
    } else if w == "ST_CONTAINS"@ {
        Some(SpatialPredicate::Contains)
    } else {
        None
    }
}

/// Whether a word begins a spatial predicate.
pub open spec fn is_spatial(t: Seq<TokenV>, s: int) -> bool {
    is_word(t, s, "ST_DWITHIN"@) || is_word(t, s, "ST_INTERSECTS"@) || is_word(t, s, "ST_WITHIN"@)
        || is_word(t, s, "ST_CONTAINS"@) || is_word(t, s, "ST_COVERS"@) || is_word(
        t,
        s,
        "ST_CROSSES"@,
    )
}

/// The radius of `ST_DWithin`, and its optional `use_spheroid`, which is true.
#[verifier::opaque]
pub open spec fn radius(t: Seq<TokenV>, s: int, d: nat) -> Result<(LiteralV, int), SqlErrorV> {
    match want(t, s, Sym::Comma) {
        Err(e) => Err(e),
        Ok(s) => match literal(t, s, d) {
            Err(e) => Err(e),
            Ok((metres, s)) => if !is_sym(t, s, Sym::Comma) {
                Ok((metres, s))
            } else if is_word(t, next(t, s), "TRUE"@) {
                Ok((metres, next(t, next(t, s))))
            } else if is_word(t, next(t, s), "FALSE"@) {
                Err(
                    SqlErrorV::Unsupported(
                        "ST_DWithin(..., false): use_spheroid = false is a planar distance; PointFilter::Radius and GeometryFilter::DWithin are spheroidal (docs/core/SPATIAL_FUNCTIONS.md) and there is no planar-distance atomic"@,
                    ),
                )
            } else {
                Err(syntax("ST_DWithin's fourth argument is use_spheroid"@, here(t, next(t, s))))
            },
        },
    }
}

/// A spatial predicate, from its name on.
#[verifier::opaque]
pub open spec fn spatial_predicate(t: Seq<TokenV>, s: int, d: nat) -> Result<
    (PredicateV, int),
    SqlErrorV,
> {
    match spatial_named(word(t, s)->0) {
        None => Err(
            SqlErrorV::Refused {
                keyword: word(t, s)->0,
                tier: Tier::Two,
                reason: "QL_CONTRACT §4.4: ST_Covers and ST_Crosses are Tier 1 as ROW functions; as index-side predicates the filter atomics are Intersects, Within, Contains and DWithin."@,
            },
        ),
        Some(predicate) => match want(t, next(t, s), Sym::LParen) {
            Err(e) => Err(e),
            Ok(s) => match name(t, s) {
                Err(e) => Err(e),
                Ok((column, s)) => match casts(t, s) {
                    Err(e) => Err(e),
                    Ok(s) => match want(t, s, Sym::Comma) {
                        Err(e) => Err(e),
                        Ok(s) => match geo_argument(t, s, d) {
                            Err(e) => Err(e),
                            Ok((argument, s)) => match if predicate == SpatialPredicate::DWithin { match radius(t, s, d) { Err(e) => Err(e), Ok((m, s)) => Ok((Some(m), s)) } } else { Ok((None, s)) } {
                                Err(e) => Err(e),
                                Ok((metres, s)) => match want(t, s, Sym::RParen) {
                                    Err(e) => Err(e),
                                    Ok(s) => {
                                        Ok((PredicateV::Spatial { predicate, column, argument, metres }, s))
                                    }
                                },
                            },
                        },
                    },
                },
            },
        },
    }
}

fn spatial_of(w: &str) -> (r: Option<SpatialPredicate>)
    ensures
        r == spatial_named(w@),
{
    if same(w, "ST_DWITHIN") {
        Some(SpatialPredicate::DWithin)
    } else if same(w, "ST_INTERSECTS") {
        Some(SpatialPredicate::Intersects)
    } else if same(w, "ST_WITHIN") {
        Some(SpatialPredicate::Within)
    } else if same(w, "ST_CONTAINS") {
        Some(SpatialPredicate::Contains)
    } else {
        None
    }
}

impl Parser {
    fn text_predicate(&mut self) -> (r: Result<Predicate, SqlError>)
        requires
            old(self).ok(),
        ensures
            parsed(
                r,
                *old(self),
                *final(self),
                text_predicate(old(self).t(), old(self).s(), old(self).d()),
            ),
    {
        proof {
            reveal(text_predicate);
        }
        let column = self.tsvector()?;
        if !self.eat(Sym::Matches) {
            return Err(
                SqlError::syntax(
                    cat3(
                        "expected `@@` after to_tsvector, found `",
                        self.peek().written().as_str(),
                        "`",
                    ).as_str(),
                    self.here(),
                ),
            );
        }
        let query = self.tsquery()?;
        Ok(Predicate::Text { column, query })
    }

    fn search_predicate(&mut self) -> (r: Result<Predicate, SqlError>)
        requires
            old(self).ok(),
        ensures
            parsed(
                r,
                *old(self),
                *final(self),
                search_predicate(old(self).t(), old(self).s(), old(self).d()),
            ),
    {
        proof {
            reveal(search_predicate);
        }
        self.expect_word("SEARCH")?;
        self.expect(Sym::LParen)?;
        let column = self.name()?;
        self.expect(Sym::Comma)?;
        let source = self.literal()?;
        self.expect(Sym::RParen)?;
        Ok(
            Predicate::Text {
                column,
                query: TsQuery { source, tsquery_syntax: false, fuzzy: true },
            },
        )
    }

    fn radius(&mut self) -> (r: Result<Literal, SqlError>)
        requires
            old(self).ok(),
        ensures
            parsed(r, *old(self), *final(self), radius(old(self).t(), old(self).s(), old(self).d())),
    {
        proof {
            reveal(radius);
        }
        self.expect(Sym::Comma)?;
        let metres = self.literal()?;
        if self.eat(Sym::Comma) {
            if self.eat_word("TRUE") {
                return Ok(metres);
            }
            if self.at_word("FALSE") {
                return Err(
                    SqlError::unsupported(
                        "ST_DWithin(..., false): use_spheroid = false is a planar distance; PointFilter::Radius and GeometryFilter::DWithin are spheroidal (docs/core/SPATIAL_FUNCTIONS.md) and there is no planar-distance atomic",
                    ),
                );
            }
            return Err(
                SqlError::syntax("ST_DWithin's fourth argument is use_spheroid", self.here()),
            );
        }
        Ok(metres)
    }

    fn spatial_predicate(&mut self) -> (r: Result<Predicate, SqlError>)
        requires
            old(self).ok(),
            word(old(self).t(), old(self).s()) is Some,
        ensures
            parsed(
                r,
                *old(self),
                *final(self),
                spatial_predicate(old(self).t(), old(self).s(), old(self).d()),
            ),
    {
        proof {
            reveal(spatial_predicate);
        }
        let w = match self.word() {
            Some(w) => w,
            None => owned(""),
        };
        self.skip();
        let predicate = match spatial_of(w.as_str()) {
            Some(predicate) => predicate,
            None => {
                return Err(
                    SqlError::Refused {
                        keyword: w,
                        tier: Tier::Two,
                        reason: owned(
                            "QL_CONTRACT §4.4: ST_Covers and ST_Crosses are Tier 1 as ROW functions; as index-side predicates the filter atomics are Intersects, Within, Contains and DWithin.",
                        ),
                    },
                );
            },
        };
        self.expect(Sym::LParen)?;
        let column = self.name()?;
        self.optional_cast()?;
        self.expect(Sym::Comma)?;
        let argument = self.geo_argument()?;
        let metres = if predicate == SpatialPredicate::DWithin {
            Some(self.radius()?)
        } else {
            None
        };
        self.expect(Sym::RParen)?;
        Ok(Predicate::Spatial { predicate, column, argument, metres })
    }
}

// ── predicates that begin with a column ──────────────────────────────────

/// The types that a cast on the left of a predicate may name and that change
/// nothing.
pub open spec fn left_type(w: Seq<char>) -> bool {
    w == "GEOGRAPHY"@ || w == "GEOMETRY"@ || w == "VECTOR"@ || w == "TEXT"@ || w == "FLOAT8"@ || w
        == "INT"@ || w == "INTEGER"@ || w == "BIGINT"@ || w == "REAL"@ || w == "TIMESTAMPTZ"@ || w
        == "TIMESTAMP"@
}

fn is_left_type(w: &str) -> (r: bool)
    ensures
        r == left_type(w@),
{
    same(w, "GEOGRAPHY") || same(w, "GEOMETRY") || same(w, "VECTOR") || same(w, "TEXT") || same(
        w,
        "FLOAT8",
    ) || same(w, "INT") || same(w, "INTEGER") || same(w, "BIGINT") || same(w, "REAL") || same(
        w,
        "TIMESTAMPTZ",
    ) || same(w, "TIMESTAMP")
}

/// The casts on the left of a predicate; whether the last one was to a date.
pub open spec fn date_cast(t: Seq<TokenV>, s: int, to_date: bool) -> Result<(bool, int), SqlErrorV>
    decreases t.len() - s,
{
    if !is_sym(t, s, Sym::Cast) {
        Ok((to_date, s))
    } else {
        match word(t, next(t, s)) {
            None => Err(syntax("expected a type after `::`"@, here(t, s))),
            Some(w) => if w != "DATE"@ && w != "DOUBLE"@ && !left_type(w) {
                Err(SqlErrorV::Unsupported("cast `::"@ + w + "` has no Tier-1 meaning here"@))
            } else {
                let s1 = next(t, next(t, s));
                match if w == "DOUBLE"@ { want_word(t, s1, "PRECISION"@) } else { Ok(s1) } {
                    Err(e) => Err(e),
                    Ok(s2) => if s < s2 <= t.len() {
                        date_cast(t, s2, w == "DATE"@)
                    } else {
                        Ok((w == "DATE"@, s2))
                    },
                }
            },
        }
    }
}

/// `column->>'member' = value`, behind the arrow.
#[verifier::opaque]
pub open spec fn json_predicate(t: Seq<TokenV>, s: int, d: nat, column: Seq<char>) -> Result<
    (PredicateV, int),
    SqlErrorV,
> {
    match json_member(t, s) {
        Err(e) => Err(e),
        Ok((member, s)) => {
            let what = column + "->>'"@ + member + "'"@;
            if comparison_of(tok(t, s)) is None {
                Err(refusal("->>"@))
            } else {
                match comparison(t, s, what) {
                    Err(e) => Err(e),
                    Ok((op, s)) => if op != CmpOp::Eq {
                        Err(
                            SqlErrorV::Unsupported(
                                what + " "@ + op_text(op)
                                    + " v: the expression index over a JSON member stores the member's TEXT, and QL_CONTRACT §4.1 rewrites the EQUALITY over such an expression to an index equality. An ordering comparison over an extracted value is not that, and there is no atomic that answers it index-side"@,
                            ),
                        )
                    } else {
                        match literal(t, s, d) {
                            Err(e) => Err(e),
                            Ok((value, s)) => {
                                Ok((PredicateV::TextFn { column, shape: TextShapeV::JsonEq { member, value } }, s))
                            }
                        }
                    },
                }
            }
        }
    }
}

/// A side of `BETWEEN`: the clock, or a literal.
#[verifier::opaque]
pub open spec fn time_operand(t: Seq<TokenV>, s: int, d: nat) -> Result<
    (TimeValueV, int),
    SqlErrorV,
> {
    match clock_value(t, s) {
        Err(e) => Err(e),
        Ok((clock, s)) => match clock {
            Some(value) => Ok((value, s)),
            None => match literal(t, s, d) {
                Err(e) => Err(e),
                Ok((value, s)) => Ok((TimeValueV::Lit(value), s)),
            },
        },
    }
}

/// `column BETWEEN lower AND upper`, behind `BETWEEN`.
#[verifier::opaque]
pub open spec fn between_predicate(t: Seq<TokenV>, s: int, d: nat, column: Seq<char>) -> Result<
    (PredicateV, int),
    SqlErrorV,
> {
    match time_operand(t, s, d) {
        Err(e) => Err(e),
        Ok((lower, s)) => match want_word(t, s, "AND"@) {
            Err(e) => Err(e),
            Ok(s) => match time_operand(t, s, d) {
                Err(e) => Err(e),
                Ok((upper, s)) => match (lower, upper) {
                    (TimeValueV::Lit(lower), TimeValueV::Lit(upper)) => Ok(
                        (
                            if column == KEY_COLUMN@ {
                                PredicateV::KeyBetween { lower, upper }
                            } else {
                                PredicateV::Between { column, lower, upper }
                            },
                            s,
                        ),
                    ),
                    _ => Ok((PredicateV::Time { column, shape: TimeShapeV::ClockBetween { lower, upper } }, s)),
                },
            },
        },
    }
}

/// `column IS [NOT] NULL` or `column IS MISSING`, behind `IS`.
#[verifier::opaque]
pub open spec fn is_predicate(t: Seq<TokenV>, s: int, column: Seq<char>) -> Result<
    (PredicateV, int),
    SqlErrorV,
> {
    let inverted = is_word(t, s, "NOT"@);
    let s = past_word(t, s, "NOT"@);
    if is_word(t, s, "NULL"@) {
        Ok((PredicateV::IsNull { column, negated: inverted }, next(t, s)))
    } else if is_word(t, s, "MISSING"@) {
        if inverted {
            Err(
                SqlErrorV::Unsupported(
                    "IS NOT MISSING: a row whose field is present and NULL sits on the same nullish index key as a missing one, so the complement of MISSING cannot be proved from postings"@,
                ),
            )
        } else {
            Ok((PredicateV::IsMissing { column }, next(t, s)))
        }
    } else {
        Err(syntax("expected NULL or MISSING after IS"@, here(t, s)))
    }
}

/// `(SELECT column FROM table)`, behind `SELECT`.
#[verifier::opaque]
pub open spec fn in_subquery(t: Seq<TokenV>, s: int) -> Result<(PredicateV, int), SqlErrorV> {
    match name(t, s) {
        Err(e) => Err(e),
        Ok((column, s)) => match want_word(t, s, "FROM"@) {
            Err(e) => Err(e),
            Ok(s) => match name(t, s) {
                Err(e) => Err(e),
                Ok((table, s)) => if !is_sym(t, s, Sym::RParen) {
                    Err(
                        syntax(
                            "expected `)` to close IN (SELECT ...), found `"@ + tok_text(tok(t, s)) + "`"@,
                            here(t, s),
                        ),
                    )
                } else {
                    Ok((PredicateV::Semi { table, column }, next(t, s)))
                },
            },
        },
    }
}

/// `column IN (values)` or `_key IN (SELECT column FROM table)`, behind `IN`.
#[verifier::opaque]
pub open spec fn in_predicate(t: Seq<TokenV>, s: int, d: nat, column: Seq<char>) -> Result<
    (PredicateV, int),
    SqlErrorV,
> {
    if !is_sym(t, s, Sym::LParen) {
        Err(
            syntax("expected `(` after IN, found `"@ + tok_text(tok(t, s)) + "`"@, here(t, s)),
        )
    } else if is_word(t, next(t, s), "SELECT"@) {
        if column != KEY_COLUMN@ {
            Err(
                SqlErrorV::Unsupported(
                    "IN (SELECT ...) on a column other than the key: the semi-join atomic maps the subquery's values through the external-key mapping, which only the key column names"@,
                ),
            )
        } else {
            in_subquery(t, next(t, next(t, s)))
        }
    } else {
        match literals(t, next(t, s), d, Seq::empty()) {
            Err(e) => Err(e),
            Ok((values, s)) => if !is_sym(t, s, Sym::RParen) {
                Err(
                    syntax("expected `)` to close IN, found `"@ + tok_text(tok(t, s)) + "`"@, here(t, s)),
                )
            } else if column == KEY_COLUMN@ {
                Ok((PredicateV::KeyInList { values }, next(t, s)))
            } else {
                Ok((PredicateV::InList { column, values }, next(t, s)))
            },
        }
    }
}

/// `column <op> value`, from the operator on; `at` is where the predicate
/// began.
#[verifier::opaque]
pub open spec fn compare_predicate(
    t: Seq<TokenV>,
    s: int,
    d: nat,
    column: Seq<char>,
    at: usize,
) -> Result<(PredicateV, int), SqlErrorV> {
    match comparison_of(tok(t, s)) {
        None => if is_sym(t, s, Sym::VecCosine) || is_sym(t, s, Sym::VecL2) || is_sym(
            t,
            s,
            Sym::VecDot,
        ) {
            Err(
                SqlErrorV::Refused {
                    keyword: tok_text(tok(t, s)),
                    tier: Tier::Two,
                    reason: "QL_CONTRACT §4.5: a distance as a FILTER (`emb <=> $v < 0.3`) is an ef-bounded approximate membership set. As an ORDER BY the same operator is Tier 1."@,
                },
            )
        } else {
            Err(
                syntax(
                    "expected a comparison after `"@ + column + "`, found `"@ + tok_text(tok(t, s))
                        + "`"@,
                    at,
                ),
            )
        },
        Some(op) => match clock_value(t, next(t, s)) {
            Err(e) => Err(e),
            Ok((clock, s)) => match clock {
                Some(value) => Ok(
                    (PredicateV::Time { column, shape: TimeShapeV::Clock { op, value } }, s),
                ),
                None => match literal(t, s, d) {
                    Err(e) => Err(e),
                    Ok((value, s)) => Ok(
                        (
                            if column == KEY_COLUMN@ {
                                PredicateV::KeyCompare { op, value }
                            } else {
                                PredicateV::Compare { column, op, value }
                            },
                            s,
                        ),
                    ),
                },
            },
        },
    }
}

/// A predicate on a column, behind its name and its casts, and whether it is
/// negated.
#[verifier::opaque]
pub open spec fn plain_predicate(
    t: Seq<TokenV>,
    s: int,
    d: nat,
    column: Seq<char>,
    at: usize,
) -> Result<((PredicateV, bool), int), SqlErrorV> {
    if is_word(t, s, "LIKE"@) {
        match literal(t, next(t, s), d) {
            Err(e) => Err(e),
            Ok((value, s)) => {
                let shape = TextShapeV::Prefix { value, written: PrefixForm::Like };
                Ok(((PredicateV::TextFn { column, shape }, false), s))
            }
        }
    } else if is_word(t, s, "BETWEEN"@) {
        match between_predicate(t, next(t, s), d, column) {
            Err(e) => Err(e),
            Ok((p, s)) => Ok(((p, false), s)),
        }
    } else if is_word(t, s, "IS"@) {
        match is_predicate(t, next(t, s), column) {
            Err(e) => Err(e),
            Ok((p, s)) => Ok(((p, false), s)),
        }
    } else if is_word(t, s, "IN"@) {
        match in_predicate(t, next(t, s), d, column) {
            Err(e) => Err(e),
            Ok((p, s)) => Ok(((p, false), s)),
        }
    } else if is_word(t, s, "NOT"@) && is_word(t, ahead(t, s, 1), "IN"@) {
        match in_predicate(t, next(t, next(t, s)), d, column) {
            Err(e) => Err(e),
            Ok((p, s)) => Ok(((p, true), s)),
        }
    } else {
        match guard_word(t, s) {
            Err(e) => Err(e),
            Ok(s) => match compare_predicate(t, s, d, column, at) {
                Err(e) => Err(e),
                Ok((p, s)) => Ok(((p, false), s)),
            },
        }
    }
}

/// A predicate that begins with a column, and whether it is negated.
#[verifier::opaque]
pub open spec fn column_predicate(t: Seq<TokenV>, s: int, d: nat) -> Result<
    ((PredicateV, bool), int),
    SqlErrorV,
> {
    let at = here(t, s);
    match name(t, s) {
        Err(e) => Err(e),
        Ok((column, s)) => if is_sym(t, s, Sym::LongArrow) {
            match json_predicate(t, next(t, s), d, column) {
                Err(e) => Err(e),
                Ok((p, s)) => Ok(((p, false), s)),
            }
        } else {
            match date_cast(t, s, false) {
                Err(e) => Err(e),
                Ok((to_date, s)) => match guard_operator(t, s) {
                    Err(e) => Err(e),
                    Ok(s) => if to_date {
                        match comparison(t, s, column + "::date"@) {
                            Err(e) => Err(e),
                            Ok((op, s)) => match literal(t, s, d) {
                                Err(e) => Err(e),
                                Ok((value, s)) => {
                                    Ok(((PredicateV::Time { column, shape: TimeShapeV::CastDate { op, value } }, false), s))
                                }
                            },
                        }
                    } else {
                        plain_predicate(t, s, d, column, at)
                    },
                },
            }
        },
    }
}

impl Parser {
    fn date_cast(&mut self) -> (r: Result<bool, SqlError>)
        requires
            old(self).ok(),
        ensures
            reads(r, *old(self), *final(self), date_cast(old(self).t(), old(self).s(), false)),
    {
        let ghost t = self.t();
        let ghost start = self.s();
        let mut to_date = false;
        while self.at_sym(Sym::Cast)
            invariant
                self.ok(),
                self.tokens == old(self).tokens,
                self.refused == old(self).refused,
                self.depth == old(self).depth,
                self.at >= old(self).at,
                t == self.t(),
                start == old(self).s(),
                t == old(self).t(),
                date_cast(t, start, false) == date_cast(t, self.s(), to_date),
            decreases self.tokens@.len() - self.at,
        {
            let at = self.here();
            self.skip();
            match self.word() {
                None => {
                    return Err(SqlError::syntax("expected a type after `::`", at));
                },
                Some(w) => {
                    self.skip();
                    let w = w.as_str();
                    let double = same(w, "DOUBLE");
                    to_date = same(w, "DATE");
                    if !to_date && !double && !is_left_type(w) {
                        return Err(
                            SqlError::unsupported(
                                cat3("cast `::", w, "` has no Tier-1 meaning here").as_str(),
                            ),
                        );
                    }
                    if double {
                        self.expect_word("PRECISION")?;
                    }
                },
            }
        }
        Ok(to_date)
    }

    fn json_predicate(&mut self, column: String) -> (r: Result<Predicate, SqlError>)
        requires
            old(self).ok(),
        ensures
            parsed(
                r,
                *old(self),
                *final(self),
                json_predicate(old(self).t(), old(self).s(), old(self).d(), column@),
            ),
    {
        proof {
            reveal(json_predicate);
        }
        let member = self.json_member()?;
        let what = cat4(column.as_str(), "->>'", member.as_str(), "'");
        if self.peek().comparison().is_none() {
            return Err(refuse("->>"));
        }
        let op = self.comparison(what.as_str())?;
        if op != CmpOp::Eq {
            return Err(
                SqlError::unsupported(
                    cat4(
                        what.as_str(),
                        " ",
                        op.written(),
                        " v: the expression index over a JSON member stores the member's TEXT, and QL_CONTRACT §4.1 rewrites the EQUALITY over such an expression to an index equality. An ordering comparison over an extracted value is not that, and there is no atomic that answers it index-side",
                    ).as_str(),
                ),
            );
        }
        let value = self.literal()?;
        Ok(Predicate::TextFn { column, shape: TextShape::JsonEq { member, value } })
    }

    fn time_operand(&mut self) -> (r: Result<TimeValue, SqlError>)
        requires
            old(self).ok(),
        ensures
            parsed(
                r,
                *old(self),
                *final(self),
                time_operand(old(self).t(), old(self).s(), old(self).d()),
            ),
    {
        proof {
            reveal(time_operand);
        }
        match self.clock_value()? {
            Some(value) => Ok(value),
            None => {
                let value = self.literal()?;
                Ok(TimeValue::Lit(value))
            },
        }
    }

    fn between_predicate(&mut self, column: String) -> (r: Result<Predicate, SqlError>)
        requires
            old(self).ok(),
        ensures
            parsed(
                r,
                *old(self),
                *final(self),
                between_predicate(old(self).t(), old(self).s(), old(self).d(), column@),
            ),
    {
        proof {
            reveal(between_predicate);
        }
        let lower = self.time_operand()?;
        self.expect_word("AND")?;
        let upper = self.time_operand()?;
        match (lower, upper) {
            (TimeValue::Lit(lower), TimeValue::Lit(upper)) => if same(column.as_str(), KEY_COLUMN) {
                Ok(Predicate::KeyBetween { lower, upper })
            } else {
                Ok(Predicate::Between { column, lower, upper })
            },
            (lower, upper) => Ok(
                Predicate::Time { column, shape: TimeShape::ClockBetween { lower, upper } },
            ),
        }
    }

    fn is_predicate(&mut self, column: String) -> (r: Result<Predicate, SqlError>)
        requires
            old(self).ok(),
        ensures
            reads(r, *old(self), *final(self), is_predicate(old(self).t(), old(self).s(), column@)),
    {
        proof {
            reveal(is_predicate);
        }
        let inverted = self.eat_word("NOT");
        if self.eat_word("NULL") {
            return Ok(Predicate::IsNull { column, negated: inverted });
        }
        if self.eat_word("MISSING") {
            if inverted {
                return Err(
                    SqlError::unsupported(
                        "IS NOT MISSING: a row whose field is present and NULL sits on the same nullish index key as a missing one, so the complement of MISSING cannot be proved from postings",
                    ),
                );
            }
            return Ok(Predicate::IsMissing { column });
        }
        Err(SqlError::syntax("expected NULL or MISSING after IS", self.here()))
    }

    fn in_subquery(&mut self) -> (r: Result<Predicate, SqlError>)
        requires
            old(self).ok(),
        ensures
            reads(r, *old(self), *final(self), in_subquery(old(self).t(), old(self).s())),
    {
        proof {
            reveal(in_subquery);
        }
        let column = self.name()?;
        self.expect_word("FROM")?;
        let table = self.name()?;
        if !self.eat(Sym::RParen) {
            return Err(
                SqlError::syntax(
                    cat3(
                        "expected `)` to close IN (SELECT ...), found `",
                        self.peek().written().as_str(),
                        "`",
                    ).as_str(),
                    self.here(),
                ),
            );
        }
        Ok(Predicate::Semi { table, column })
    }

    fn in_predicate(&mut self, column: String) -> (r: Result<Predicate, SqlError>)
        requires
            old(self).ok(),
        ensures
            parsed(
                r,
                *old(self),
                *final(self),
                in_predicate(old(self).t(), old(self).s(), old(self).d(), column@),
            ),
    {
        proof {
            reveal(in_predicate);
        }
        if !self.eat(Sym::LParen) {
            return Err(
                SqlError::syntax(
                    cat3("expected `(` after IN, found `", self.peek().written().as_str(), "`").as_str(),
                    self.here(),
                ),
            );
        }
        let key = same(column.as_str(), KEY_COLUMN);
        if self.at_word("SELECT") {
            if !key {
                return Err(
                    SqlError::unsupported(
                        "IN (SELECT ...) on a column other than the key: the semi-join atomic maps the subquery's values through the external-key mapping, which only the key column names",
                    ),
                );
            }
            self.skip();
            return self.in_subquery();
        }
        let values = self.literals()?;
        if !self.eat(Sym::RParen) {
            return Err(
                SqlError::syntax(
                    cat3("expected `)` to close IN, found `", self.peek().written().as_str(), "`").as_str(),
                    self.here(),
                ),
            );
        }
        if key {
            Ok(Predicate::KeyInList { values })
        } else {
            Ok(Predicate::InList { column, values })
        }
    }

    fn compare_predicate(&mut self, column: String, at: usize) -> (r: Result<Predicate, SqlError>)
        requires
            old(self).ok(),
        ensures
            parsed(
                r,
                *old(self),
                *final(self),
                compare_predicate(old(self).t(), old(self).s(), old(self).d(), column@, at),
            ),
    {
        proof {
            reveal(compare_predicate);
        }
        let op = match self.peek().comparison() {
            Some(op) => op,
            None => {
                if self.at_sym(Sym::VecCosine) || self.at_sym(Sym::VecL2) || self.at_sym(
                    Sym::VecDot,
                ) {
                    return Err(
                        SqlError::Refused {
                            keyword: self.peek().written(),
                            tier: Tier::Two,
                            reason: owned(
                                "QL_CONTRACT §4.5: a distance as a FILTER (`emb <=> $v < 0.3`) is an ef-bounded approximate membership set. As an ORDER BY the same operator is Tier 1.",
                            ),
                        },
                    );
                }
                return Err(
                    SqlError::syntax(
                        cat5(
                            "expected a comparison after `",
                            column.as_str(),
                            "`, found `",
                            self.peek().written().as_str(),
                            "`",
                        ).as_str(),
                        at,
                    ),
                );
            },
        };
        self.skip();
        match self.clock_value()? {
            Some(value) => Ok(Predicate::Time { column, shape: TimeShape::Clock { op, value } }),
            None => {
                let value = self.literal()?;
                if same(column.as_str(), KEY_COLUMN) {
                    Ok(Predicate::KeyCompare { op, value })
                } else {
                    Ok(Predicate::Compare { column, op, value })
                }
            },
        }
    }

    fn plain_predicate(&mut self, column: String, at: usize) -> (r: Result<
        (Predicate, bool),
        SqlError,
    >)
        requires
            old(self).ok(),
        ensures
            parsed(
                r,
                *old(self),
                *final(self),
                plain_predicate(old(self).t(), old(self).s(), old(self).d(), column@, at),
            ),
    {
        proof {
            reveal(plain_predicate);
        }
        if self.eat_word("LIKE") {
            let value = self.literal()?;
            let shape = TextShape::Prefix { value, written: PrefixForm::Like };
            return Ok((Predicate::TextFn { column, shape }, false));
        }
        if self.eat_word("BETWEEN") {
            let p = self.between_predicate(column)?;
            return Ok((p, false));
        }
        if self.eat_word("IS") {
            let p = self.is_predicate(column)?;
            return Ok((p, false));
        }
        if self.eat_word("IN") {
            let p = self.in_predicate(column)?;
            return Ok((p, false));
        }
        if self.at_word("NOT") && self.word_ahead(1, "IN") {
            self.skip();
            self.skip();
            let p = self.in_predicate(column)?;
            return Ok((p, true));
        }
        self.guard_word()?;
        let p = self.compare_predicate(column, at)?;
        Ok((p, false))
    }

    fn column_predicate(&mut self) -> (r: Result<(Predicate, bool), SqlError>)
        requires
            old(self).ok(),
        ensures
            parsed(
                r,
                *old(self),
                *final(self),
                column_predicate(old(self).t(), old(self).s(), old(self).d()),
            ),
    {
        proof {
            reveal(column_predicate);
        }
        let at = self.here();
        let column = self.name()?;
        if self.eat(Sym::LongArrow) {
            let p = self.json_predicate(column)?;
            return Ok((p, false));
        }
        let to_date = self.date_cast()?;
        self.guard_operator()?;
        if to_date {
            let op = self.comparison(cat2(column.as_str(), "::date").as_str())?;
            let value = self.literal()?;
            return Ok((Predicate::Time { column, shape: TimeShape::CastDate { op, value } }, false));
        }
        self.plain_predicate(column, at)
    }
}

// ── one predicate ────────────────────────────────────────────────────────

/// One predicate, and whether it is negated.
pub open spec fn predicate(t: Seq<TokenV>, s: int, d: nat) -> Result<
    ((PredicateV, bool), int),
    SqlErrorV,
> {
    if d >= MAX_DEPTH {
        Err(too_deep(t, s))
    } else {
        predicate_inner(t, s, d + 1)
    }
}

#[verifier::opaque]
pub open spec fn predicate_inner(t: Seq<TokenV>, s: int, d: nat) -> Result<
    ((PredicateV, bool), int),
    SqlErrorV,
> {
    match function_predicate(t, s, d) {
        Err(e) => Err(e),
        Ok((function, s)) => match function {
            Some(p) => Ok(((p, false), s)),
            None => match guard_word(t, s) {
                Err(e) => Err(e),
                Ok(s) => if is_spatial(t, s) {
                    match spatial_predicate(t, s, d) {
                        Err(e) => Err(e),
                        Ok((p, s)) => Ok(((p, false), s)),
                    }
                } else if is_word(t, s, "TO_TSVECTOR"@) {
                    match text_predicate(t, s, d) {
                        Err(e) => Err(e),
                        Ok((p, s)) => Ok(((p, false), s)),
                    }
                } else if is_word(t, s, "SEARCH"@) && is_sym(t, ahead(t, s, 1), Sym::LParen) {
                    match search_predicate(t, s, d) {
                        Err(e) => Err(e),
                        Ok((p, s)) => Ok(((p, false), s)),
                    }
                } else {
                    match constant_predicate(t, s) {
                        Err(e) => Err(e),
                        Ok((constant, s)) => match constant {
                            Some(p) => Ok(((p, false), s)),
                            None => column_predicate(t, s, d),
                        },
                    }
                },
            },
        },
    }
}

impl Parser {
    /// One predicate, and whether it is negated.
    pub fn predicate_negatable(&mut self) -> (r: Result<(Predicate, bool), SqlError>)
        requires
            old(self).ok(),
        ensures
            parsed(r, *old(self), *final(self), predicate(old(self).t(), old(self).s(), old(self).d())),
    {
        self.deeper()?;
        let result = self.predicate_inner();
        self.shallower();
        result
    }

    fn predicate_inner(&mut self) -> (r: Result<(Predicate, bool), SqlError>)
        requires
            old(self).ok(),
        ensures
            parsed(
                r,
                *old(self),
                *final(self),
                predicate_inner(old(self).t(), old(self).s(), old(self).d()),
            ),
    {
        proof {
            reveal(predicate_inner);
        }
        if let Some(p) = self.function_predicate()? {
            return Ok((p, false));
        }
        self.guard_word()?;
        if self.at_word("ST_DWITHIN") || self.at_word("ST_INTERSECTS") || self.at_word("ST_WITHIN")
            || self.at_word("ST_CONTAINS") || self.at_word("ST_COVERS") || self.at_word(
            "ST_CROSSES",
        ) {
            let p = self.spatial_predicate()?;
            return Ok((p, false));
        }
        if self.at_word("TO_TSVECTOR") {
            let p = self.text_predicate()?;
            return Ok((p, false));
        }
        if self.at_word("SEARCH") && self.sym_ahead(1, Sym::LParen) {
            let p = self.search_predicate()?;
            return Ok((p, false));
        }
        if let Some(p) = self.constant_predicate()? {
            return Ok((p, false));
        }
        self.column_predicate()
    }
}

} // verus!
