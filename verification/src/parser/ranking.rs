//! Ranking expressions and the key of an `ORDER BY`.

use vstd::prelude::*;
use crate::ast::{
    GeoArg, GeoArgV, Literal, LiteralV, PointArg, PointArgV, TsQuery, TsQueryV, VecOp,
};
use crate::debug::{
    debug_geo_arg, debug_point_arg, debug_real, debug_ts_query, debug_vec_op, geo_arg_debug,
    point_arg_debug, real_debug, ts_query_debug, vec_op_debug,
};
use crate::error::{SqlError, SqlErrorV};
use crate::number::{Real, RealV};
use crate::parser::cursor::{
    ahead, guard_operator, guard_word, here, is_sym, is_word, listed, name, next, parsed, past_word,
    reads, syntax, tok, too_deep, want, word, Parser, MAX_DEPTH,
};
use crate::parser::value::{casts, geo_argument, literal, tsquery, tsvector};
use crate::stmt::{OrderKey, OrderKeyV, ScoreNode, ScoreNodeV};
use crate::text::{
    cat2, cat3, cat5, cat7, debug_quoted, decimal, decimal_usize, owned, quoted,
};
use crate::token::{tok_text, Sym, Tok, TokV, TokenV};

verus! {

/// What an expression position holds, before it is made a key or a ranking.
#[derive(Debug)]
pub enum PExpr {
    Num(Real),
    Str(String),
    Param(usize),
    Column(String),
    Geo(GeoArg),
    Bm25 { column: String, query: TsQuery },
    SearchScore,
    StDistance { column: String, point: PointArg },
    Distance { column: String, right: Box<PExpr>, op: VecOp },
    Add(Box<PExpr>, Box<PExpr>),
    Sub(Box<PExpr>, Box<PExpr>),
    Mul(Box<PExpr>, Box<PExpr>),
    Div(Box<PExpr>, Box<PExpr>),
    Neg(Box<PExpr>),
}

pub enum PExprV {
    Num(RealV),
    Str(Seq<char>),
    Param(usize),
    Column(Seq<char>),
    Geo(GeoArgV),
    Bm25 { column: Seq<char>, query: TsQueryV },
    SearchScore,
    StDistance { column: Seq<char>, point: PointArgV },
    Distance { column: Seq<char>, right: Box<PExprV>, op: VecOp },
    Add(Box<PExprV>, Box<PExprV>),
    Sub(Box<PExprV>, Box<PExprV>),
    Mul(Box<PExprV>, Box<PExprV>),
    Div(Box<PExprV>, Box<PExprV>),
    Neg(Box<PExprV>),
}

pub open spec fn pexpr_view(e: PExpr) -> PExprV
    decreases e,
{
    match e {
        PExpr::Num(n) => PExprV::Num(n.deep_view()),
        PExpr::Str(s) => PExprV::Str(s@),
        PExpr::Param(n) => PExprV::Param(n),
        PExpr::Column(c) => PExprV::Column(c@),
        PExpr::Geo(g) => PExprV::Geo(g.deep_view()),
        PExpr::Bm25 { column, query } => PExprV::Bm25 {
            column: column@,
            query: query.deep_view(),
        },
        PExpr::SearchScore => PExprV::SearchScore,
        PExpr::StDistance { column, point } => PExprV::StDistance {
            column: column@,
            point: point.deep_view(),
        },
        PExpr::Distance { column, right, op } => PExprV::Distance {
            column: column@,
            right: Box::new(pexpr_view(*right)),
            op,
        },
        PExpr::Add(a, b) => PExprV::Add(Box::new(pexpr_view(*a)), Box::new(pexpr_view(*b))),
        PExpr::Sub(a, b) => PExprV::Sub(Box::new(pexpr_view(*a)), Box::new(pexpr_view(*b))),
        PExpr::Mul(a, b) => PExprV::Mul(Box::new(pexpr_view(*a)), Box::new(pexpr_view(*b))),
        PExpr::Div(a, b) => PExprV::Div(Box::new(pexpr_view(*a)), Box::new(pexpr_view(*b))),
        PExpr::Neg(a) => PExprV::Neg(Box::new(pexpr_view(*a))),
    }
}

impl DeepView for PExpr {
    type V = PExprV;

    open spec fn deep_view(&self) -> PExprV {
        pexpr_view(*self)
    }
}

/// The literal form of a ranking expression.
pub open spec fn pexpr_debug(x: PExprV) -> Seq<char>
    decreases x,
{
    match x {
        PExprV::Num(a) => "Num("@ + real_debug(a) + ")"@,
        PExprV::Str(a) => "Str("@ + debug_quoted(a) + ")"@,
        PExprV::Param(a) => "Param("@ + decimal(a as int) + ")"@,
        PExprV::Column(a) => "Column("@ + debug_quoted(a) + ")"@,
        PExprV::Geo(a) => "Geo("@ + geo_arg_debug(a) + ")"@,
        PExprV::Bm25 { column, query } => "Bm25 { column: "@ + debug_quoted(column) + ", query: "@ + ts_query_debug(query) + " }"@,
        PExprV::SearchScore => "SearchScore"@,
        PExprV::StDistance { column, point } => "StDistance { column: "@ + debug_quoted(column) + ", point: "@ + point_arg_debug(point) + " }"@,
        PExprV::Distance { column, right, op } => "Distance { column: "@ + debug_quoted(column) + ", right: "@ + pexpr_debug(*right) + ", op: "@ + vec_op_debug(op) + " }"@,
        PExprV::Add(a, b) => "Add("@ + pexpr_debug(*a) + ", "@ + pexpr_debug(*b) + ")"@,
        PExprV::Sub(a, b) => "Sub("@ + pexpr_debug(*a) + ", "@ + pexpr_debug(*b) + ")"@,
        PExprV::Mul(a, b) => "Mul("@ + pexpr_debug(*a) + ", "@ + pexpr_debug(*b) + ")"@,
        PExprV::Div(a, b) => "Div("@ + pexpr_debug(*a) + ", "@ + pexpr_debug(*b) + ")"@,
        PExprV::Neg(a) => "Neg("@ + pexpr_debug(*a) + ")"@,
    }
}

fn debug_pexpr(x: &PExpr) -> (r: String)
    ensures
        r@ == pexpr_debug(x.deep_view()),
    decreases x,
{
    match x {
        PExpr::Num(a) => cat3("Num(", debug_real(a).as_str(), ")"),
        PExpr::Str(a) => cat3("Str(", quoted(a.as_str()).as_str(), ")"),
        PExpr::Param(a) => cat3("Param(", decimal_usize(*a).as_str(), ")"),
        PExpr::Column(a) => cat3("Column(", quoted(a.as_str()).as_str(), ")"),
        PExpr::Geo(a) => cat3("Geo(", debug_geo_arg(a).as_str(), ")"),
        PExpr::Bm25 { column, query } => cat5("Bm25 { column: ", quoted(column.as_str()).as_str(), ", query: ", debug_ts_query(query).as_str(), " }"),
        PExpr::SearchScore => owned("SearchScore"),
        PExpr::StDistance { column, point } => cat5("StDistance { column: ", quoted(column.as_str()).as_str(), ", point: ", debug_point_arg(point).as_str(), " }"),
        PExpr::Distance { column, right, op } => cat7("Distance { column: ", quoted(column.as_str()).as_str(), ", right: ", debug_pexpr(right).as_str(), ", op: ", debug_vec_op(*op), " }"),
        PExpr::Add(a, b) => cat5("Add(", debug_pexpr(a).as_str(), ", ", debug_pexpr(b).as_str(), ")"),
        PExpr::Sub(a, b) => cat5("Sub(", debug_pexpr(a).as_str(), ", ", debug_pexpr(b).as_str(), ")"),
        PExpr::Mul(a, b) => cat5("Mul(", debug_pexpr(a).as_str(), ", ", debug_pexpr(b).as_str(), ")"),
        PExpr::Div(a, b) => cat5("Div(", debug_pexpr(a).as_str(), ", ", debug_pexpr(b).as_str(), ")"),
        PExpr::Neg(a) => cat3("Neg(", debug_pexpr(a).as_str(), ")"),
    }
}

// ── calls ────────────────────────────────────────────────────────────────

/// `ts_rank_cd(tsvector, tsquery)`, behind its name.
#[verifier::opaque]
pub open spec fn rank_call(t: Seq<TokenV>, s: int, d: nat) -> Result<(PExprV, int), SqlErrorV> {
    match want(t, s, Sym::LParen) {
        Err(e) => Err(e),
        Ok(s) => match tsvector(t, s) {
            Err(e) => Err(e),
            Ok((column, s)) => match want(t, s, Sym::Comma) {
                Err(e) => Err(e),
                Ok(s) => match tsquery(t, s, d) {
                    Err(e) => Err(e),
                    Ok((query, s)) => if is_sym(t, s, Sym::Comma) {
                        Err(
                            SqlErrorV::Unsupported(
                                "ts_rank_cd's normalisation argument: the ranking here is BM25 (QL_CONTRACT §5 deviation 5) and has no ts_rank normalisation knob"@,
                            ),
                        )
                    } else {
                        match want(t, s, Sym::RParen) {
                            Err(e) => Err(e),
                            Ok(s) => Ok((PExprV::Bm25 { column, query }, s)),
                        }
                    },
                },
            },
        },
    }
}

/// `search_score()`, behind its name.
#[verifier::opaque]
pub open spec fn score_call(t: Seq<TokenV>, s: int) -> Result<(PExprV, int), SqlErrorV> {
    match want(t, s, Sym::LParen) {
        Err(e) => Err(e),
        Ok(s) => match want(t, s, Sym::RParen) {
            Err(e) => Err(e),
            Ok(s) => Ok((PExprV::SearchScore, s)),
        },
    }
}

/// `bm25(column, query)`, behind its name.
#[verifier::opaque]
pub open spec fn bm25_call(t: Seq<TokenV>, s: int, d: nat) -> Result<(PExprV, int), SqlErrorV> {
    match want(t, s, Sym::LParen) {
        Err(e) => Err(e),
        Ok(s) => match name(t, s) {
            Err(e) => Err(e),
            Ok((column, s)) => match want(t, s, Sym::Comma) {
                Err(e) => Err(e),
                Ok(s) => match literal(t, s, d) {
                    Err(e) => Err(e),
                    Ok((source, s)) => match want(t, s, Sym::RParen) {
                        Err(e) => Err(e),
                        Ok(s) => {
                            Ok((PExprV::Bm25 { column, query: TsQueryV { source, tsquery_syntax: false, fuzzy: false } }, s))
                        }
                    },
                },
            },
        },
    }
}

/// `ST_Distance(column, point)`, behind its name.
#[verifier::opaque]
pub open spec fn distance_call(t: Seq<TokenV>, s: int, d: nat) -> Result<(PExprV, int), SqlErrorV> {
    match want(t, s, Sym::LParen) {
        Err(e) => Err(e),
        Ok(s) => match name(t, s) {
            Err(e) => Err(e),
            Ok((column, s)) => match casts(t, s) {
                Err(e) => Err(e),
                Ok(s) => match want(t, s, Sym::Comma) {
                    Err(e) => Err(e),
                    Ok(s) => match geo_argument(t, s, d) {
                        Err(e) => Err(e),
                        Ok((argument, s)) => match argument {
                            GeoArgV::Point(point) => {
                                match want(t, s, Sym::RParen) {
                                    Err(e) => Err(e),
                                    Ok(s) => Ok((PExprV::StDistance { column, point }, s)),
                                }
                            },
                            _ => Err(
                                SqlErrorV::Unsupported(
                                    "ST_Distance in a ranking takes a point: `ScoreExpr::Distance` is geodesic metres from one centre"@,
                                ),
                            ),
                        },
                    },
                },
            },
        },
    }
}

/// The number one.
pub open spec fn real_one() -> RealV {
    RealV { bits: 0x3FF0_0000_0000_0000, shown: "1"@, json: "1.0"@ }
}

/// The number zero.
pub open spec fn real_zero() -> RealV {
    RealV { bits: 0, shown: "0"@, json: "0.0"@ }
}

/// Whether a word begins a geometry that stands by itself.
pub open spec fn is_geometry(t: Seq<TokenV>, s: int) -> bool {
    is_word(t, s, "ST_SETSRID"@) || is_word(t, s, "ST_MAKEPOINT"@) || is_word(t, s, "ST_POINT"@)
        || is_word(t, s, "ST_MAKEENVELOPE"@) || is_word(t, s, "ST_GEOMFROMGEOJSON"@)
}

/// Whether a word begins a point.
pub open spec fn is_point(t: Seq<TokenV>, s: int) -> bool {
    is_word(t, s, "ST_SETSRID"@) || is_word(t, s, "ST_MAKEPOINT"@) || is_word(t, s, "ST_POINT"@)
}

/// A column; a name with a parenthesis behind it is a function that there is
/// not.
#[verifier::opaque]
pub open spec fn ranking_column(t: Seq<TokenV>, s: int) -> Result<(PExprV, int), SqlErrorV> {
    if is_sym(t, ahead(t, s, 1), Sym::LParen) {
        let w = match word(t, s) {
            Some(w) => w,
            None => ""@,
        };
        Err(
            match listed(t, s, w) {
                Some(e) => e,
                None => SqlErrorV::Unsupported("function `"@ + w + "` is not in QL_CONTRACT §4"@),
            },
        )
    } else {
        match name(t, s) {
            Err(e) => Err(e),
            Ok((column, s)) => match casts(t, s) {
                Err(e) => Err(e),
                Ok(s) => Ok((PExprV::Column(column), s)),
            },
        }
    }
}

/// A primary that begins with a name.
#[verifier::opaque]
pub open spec fn word_primary(t: Seq<TokenV>, s: int, d: nat) -> Result<(PExprV, int), SqlErrorV> {
    match guard_word(t, s) {
        Err(e) => Err(e),
        Ok(s) => if is_word(t, s, "TS_RANK_CD"@) || is_word(t, s, "TS_RANK"@) {
            rank_call(t, next(t, s), d)
        } else if is_word(t, s, "SEARCH_SCORE"@) {
            score_call(t, next(t, s))
        } else if is_word(t, s, "BM25"@) {
            bm25_call(t, next(t, s), d)
        } else if is_word(t, s, "ST_DISTANCE"@) {
            distance_call(t, next(t, s), d)
        } else if is_geometry(t, s) {
            match geo_argument(t, s, d) {
                Err(e) => Err(e),
                Ok((g, s)) => Ok((PExprV::Geo(g), s)),
            }
        } else if is_word(t, s, "TRUE"@) {
            Ok((PExprV::Num(real_one()), next(t, s)))
        } else if is_word(t, s, "FALSE"@) {
            Ok((PExprV::Num(real_zero()), next(t, s)))
        } else {
            ranking_column(t, s)
        },
    }
}

impl Parser {
    fn rank_call(&mut self) -> (r: Result<PExpr, SqlError>)
        requires
            old(self).ok(),
        ensures
            parsed(r, *old(self), *final(self), rank_call(old(self).t(), old(self).s(), old(self).d())),
    {
        proof {
            reveal(rank_call);
        }
        self.expect(Sym::LParen)?;
        let column = self.tsvector()?;
        self.expect(Sym::Comma)?;
        let query = self.tsquery()?;
        if self.at_sym(Sym::Comma) {
            return Err(
                SqlError::unsupported(
                    "ts_rank_cd's normalisation argument: the ranking here is BM25 (QL_CONTRACT §5 deviation 5) and has no ts_rank normalisation knob",
                ),
            );
        }
        self.expect(Sym::RParen)?;
        Ok(PExpr::Bm25 { column, query })
    }

    fn score_call(&mut self) -> (r: Result<PExpr, SqlError>)
        requires
            old(self).ok(),
        ensures
            reads(r, *old(self), *final(self), score_call(old(self).t(), old(self).s())),
    {
        proof {
            reveal(score_call);
        }
        self.expect(Sym::LParen)?;
        self.expect(Sym::RParen)?;
        Ok(PExpr::SearchScore)
    }

    fn bm25_call(&mut self) -> (r: Result<PExpr, SqlError>)
        requires
            old(self).ok(),
        ensures
            parsed(r, *old(self), *final(self), bm25_call(old(self).t(), old(self).s(), old(self).d())),
    {
        proof {
            reveal(bm25_call);
        }
        self.expect(Sym::LParen)?;
        let column = self.name()?;
        self.expect(Sym::Comma)?;
        let source = self.literal()?;
        self.expect(Sym::RParen)?;
        Ok(
            PExpr::Bm25 {
                column,
                query: TsQuery { source, tsquery_syntax: false, fuzzy: false },
            },
        )
    }

    fn distance_call(&mut self) -> (r: Result<PExpr, SqlError>)
        requires
            old(self).ok(),
        ensures
            parsed(
                r,
                *old(self),
                *final(self),
                distance_call(old(self).t(), old(self).s(), old(self).d()),
            ),
    {
        proof {
            reveal(distance_call);
        }
        self.expect(Sym::LParen)?;
        let column = self.name()?;
        self.optional_cast()?;
        self.expect(Sym::Comma)?;
        match self.geo_argument()? {
            GeoArg::Point(point) => {
                self.expect(Sym::RParen)?;
                Ok(PExpr::StDistance { column, point })
            },
            _ => Err(
                SqlError::unsupported(
                    "ST_Distance in a ranking takes a point: `ScoreExpr::Distance` is geodesic metres from one centre",
                ),
            ),
        }
    }

    fn at_point(&self) -> (r: bool)
        requires
            self.ok(),
        ensures
            r == is_point(self.t(), self.s()),
    {
        self.at_word("ST_SETSRID") || self.at_word("ST_MAKEPOINT") || self.at_word("ST_POINT")
    }

    fn ranking_column(&mut self) -> (r: Result<PExpr, SqlError>)
        requires
            old(self).ok(),
        ensures
            reads(r, *old(self), *final(self), ranking_column(old(self).t(), old(self).s())),
    {
        proof {
            reveal(ranking_column);
        }
        if self.sym_ahead(1, Sym::LParen) {
            let w = match self.word() {
                Some(w) => w,
                None => owned(""),
            };
            return match self.listed(w.as_str()) {
                Some(e) => Err(e),
                None => Err(
                    SqlError::unsupported(
                        cat3("function `", w.as_str(), "` is not in QL_CONTRACT §4").as_str(),
                    ),
                ),
            };
        }
        let column = self.name()?;
        self.optional_cast()?;
        Ok(PExpr::Column(column))
    }

    fn word_primary(&mut self) -> (r: Result<PExpr, SqlError>)
        requires
            old(self).ok(),
        ensures
            parsed(
                r,
                *old(self),
                *final(self),
                word_primary(old(self).t(), old(self).s(), old(self).d()),
            ),
    {
        proof {
            reveal(word_primary);
        }
        self.guard_word()?;
        if self.at_word("TS_RANK_CD") || self.at_word("TS_RANK") {
            self.skip();
            return self.rank_call();
        }
        if self.eat_word("SEARCH_SCORE") {
            return self.score_call();
        }
        if self.eat_word("BM25") {
            return self.bm25_call();
        }
        if self.eat_word("ST_DISTANCE") {
            return self.distance_call();
        }
        if self.at_point() || self.at_word("ST_MAKEENVELOPE") || self.at_word(
            "ST_GEOMFROMGEOJSON",
        ) {
            let g = self.geo_argument()?;
            return Ok(PExpr::Geo(g));
        }
        if self.eat_word("TRUE") {
            return Ok(
                PExpr::Num(
                    Real { bits: 0x3FF0_0000_0000_0000, shown: owned("1"), json: owned("1.0") },
                ),
            );
        }
        if self.eat_word("FALSE") {
            return Ok(PExpr::Num(Real { bits: 0, shown: owned("0"), json: owned("0.0") }));
        }
        self.ranking_column()
    }
}

// ── expressions ──────────────────────────────────────────────────────────

/// The operator of a level that a token is: `+` and `-` on the first, `*` and
/// `/` on the second, the distances on the third.
pub open spec fn is_operator(x: TokV, level: nat) -> bool {
    match x {
        TokV::Sym(Sym::Plus) | TokV::Sym(Sym::Minus) => level == 0,
        TokV::Sym(Sym::Star) | TokV::Sym(Sym::Slash) => level == 1,
        TokV::Sym(Sym::VecCosine) | TokV::Sym(Sym::VecL2) | TokV::Sym(Sym::VecDot) => level == 2,
        _ => false,
    }
}

/// Two expressions under an operator of arithmetic.
pub open spec fn arithmetic(x: TokV, left: PExprV, right: PExprV) -> PExprV {
    match x {
        TokV::Sym(Sym::Plus) => PExprV::Add(Box::new(left), Box::new(right)),
        TokV::Sym(Sym::Minus) => PExprV::Sub(Box::new(left), Box::new(right)),
        TokV::Sym(Sym::Star) => PExprV::Mul(Box::new(left), Box::new(right)),
        _ => PExprV::Div(Box::new(left), Box::new(right)),
    }
}

/// The distance that a token is.
pub open spec fn distance_op(x: TokV) -> VecOp {
    match x {
        TokV::Sym(Sym::VecCosine) => VecOp::Cosine,
        TokV::Sym(Sym::VecL2) => VecOp::L2,
        _ => VecOp::NegativeDot,
    }
}

/// An expression of a level.
pub open spec fn expression(t: Seq<TokenV>, s: int, d: nat, level: nat) -> Result<
    (PExprV, int),
    SqlErrorV,
>
    decreases MAX_DEPTH + 1 - d, 0nat, 0int,
{
    if d >= MAX_DEPTH {
        Err(too_deep(t, s))
    } else {
        expression_inner(t, s, d + 1, level)
    }
}

pub open spec fn expression_inner(t: Seq<TokenV>, s: int, d: nat, level: nat) -> Result<
    (PExprV, int),
    SqlErrorV,
>
    decreases MAX_DEPTH + 1 - d, 4nat, 0int,
{
    if level >= 3 {
        primary(t, s, d)
    } else {
        match expression(t, s, d, level + 1) {
            Err(e) => Err(e),
            Ok((left, s)) => expression_tail(t, s, d, level, left),
        }
    }
}

/// The right side of an operator.
pub open spec fn right_side(t: Seq<TokenV>, s: int, d: nat, level: nat) -> Result<
    (PExprV, int),
    SqlErrorV,
>
    decreases MAX_DEPTH + 1 - d, 1nat, 0int,
{
    if level == 2 && is_point(t, s) {
        match geo_argument(t, s, d) {
            Err(e) => Err(e),
            Ok((g, s)) => Ok((PExprV::Geo(g), s)),
        }
    } else {
        expression(t, s, d, level + 1)
    }
}

/// The operators of a level behind `left`; they group to the left.
pub open spec fn expression_tail(t: Seq<TokenV>, s: int, d: nat, level: nat, left: PExprV) -> Result<
    (PExprV, int),
    SqlErrorV,
>
    decreases MAX_DEPTH + 1 - d, 3nat, t.len() - s,
{
    match guard_operator(t, s) {
        Err(e) => Err(e),
        Ok(_) => if !is_operator(tok(t, s), level) {
            Ok((left, s))
        } else if level == 2 && !(left is Column) {
            Err(
                SqlErrorV::Unsupported(
                    "a distance operator takes an indexed column on its left: the index is what the walk reads"@,
                ),
            )
        } else {
            match right_side(t, next(t, s), d, level) {
                Err(e) => Err(e),
                Ok((right, s2)) => {
                    let node = if level == 2 {
                        PExprV::Distance {
                            column: left->Column_0,
                            right: Box::new(right),
                            op: distance_op(tok(t, s)),
                        }
                    } else {
                        arithmetic(tok(t, s), left, right)
                    };
                    if s < s2 <= t.len() {
                        expression_tail(t, s2, d, level, node)
                    } else {
                        Ok((node, s2))
                    }
                },
            }
        },
    }
}

/// A sign, a group in parentheses, a constant, a call or a column.
pub open spec fn primary(t: Seq<TokenV>, s: int, d: nat) -> Result<(PExprV, int), SqlErrorV>
    decreases MAX_DEPTH + 1 - d, 2nat, 0int,
{
    match guard_operator(t, s) {
        Err(e) => Err(e),
        Ok(s) => if is_sym(t, s, Sym::Minus) {
            match expression(t, next(t, s), d, 2) {
                Err(e) => Err(e),
                Ok((e, s)) => Ok((PExprV::Neg(Box::new(e)), s)),
            }
        } else if is_sym(t, s, Sym::Plus) {
            expression(t, next(t, s), d, 2)
        } else if is_sym(t, s, Sym::LParen) {
            match expression(t, next(t, s), d, 0) {
                Err(e) => Err(e),
                Ok((inner, s)) => match want(t, s, Sym::RParen) {
                    Err(e) => Err(e),
                    Ok(s) => match casts(t, s) {
                        Err(e) => Err(e),
                        Ok(s) => Ok((inner, s)),
                    },
                },
            }
        } else {
            match tok(t, s) {
                TokV::Num(n, _) => Ok((PExprV::Num(n), next(t, s))),
                TokV::Str(text) => {
                    match casts(t, next(t, s)) {
                        Err(e) => Err(e),
                        Ok(s) => Ok((PExprV::Str(text), s)),
                    }
                },
                TokV::Param(n) => {
                    match casts(t, next(t, s)) {
                        Err(e) => Err(e),
                        Ok(s) => Ok((PExprV::Param(n), s)),
                    }
                },
                TokV::Word(_) | TokV::Quoted(_) => word_primary(t, s, d),
                other => Err(
                    syntax("expected a value, found `"@ + tok_text(other) + "`"@, here(t, s)),
                ),
            }
        },
    }
}

fn joined_expr(x: Sym, left: PExpr, right: PExpr) -> (r: PExpr)
    ensures
        r.deep_view() == arithmetic(TokV::Sym(x), left.deep_view(), right.deep_view()),
{
    match x {
        Sym::Plus => PExpr::Add(Box::new(left), Box::new(right)),
        Sym::Minus => PExpr::Sub(Box::new(left), Box::new(right)),
        Sym::Star => PExpr::Mul(Box::new(left), Box::new(right)),
        _ => PExpr::Div(Box::new(left), Box::new(right)),
    }
}

fn distance_of(x: Sym) -> (r: VecOp)
    ensures
        r == distance_op(TokV::Sym(x)),
{
    match x {
        Sym::VecCosine => VecOp::Cosine,
        Sym::VecL2 => VecOp::L2,
        _ => VecOp::NegativeDot,
    }
}

impl Parser {
    fn operator(&self, level: usize) -> (r: Option<Sym>)
        requires
            self.ok(),
        ensures
            match r {
                Some(x) => is_sym(self.t(), self.s(), x) && is_operator(
                    tok(self.t(), self.s()),
                    level as nat,
                ),
                None => !is_operator(tok(self.t(), self.s()), level as nat),
            },
    {
        match self.peek() {
            Tok::Sym(x) => {
                let fits = match *x {
                    Sym::Plus | Sym::Minus => level == 0,
                    Sym::Star | Sym::Slash => level == 1,
                    Sym::VecCosine | Sym::VecL2 | Sym::VecDot => level == 2,
                    _ => false,
                };
                if fits {
                    Some(*x)
                } else {
                    None
                }
            },
            _ => None,
        }
    }

    /// An expression of a level.
    pub fn expression(&mut self, level: usize) -> (r: Result<PExpr, SqlError>)
        requires
            old(self).ok(),
            level <= 3,
        ensures
            parsed(
                r,
                *old(self),
                *final(self),
                expression(old(self).t(), old(self).s(), old(self).d(), level as nat),
            ),
        decreases MAX_DEPTH + 1 - old(self).depth, 0nat,
    {
        self.deeper()?;
        let result = self.expression_inner(level);
        self.shallower();
        result
    }

    fn right_side(&mut self, level: usize) -> (r: Result<PExpr, SqlError>)
        requires
            old(self).ok(),
            1 <= old(self).depth <= MAX_DEPTH,
            level < 3,
        ensures
            parsed(
                r,
                *old(self),
                *final(self),
                right_side(old(self).t(), old(self).s(), old(self).d(), level as nat),
            ),
        decreases MAX_DEPTH + 1 - old(self).depth, 1nat,
    {
        if level == 2 && self.at_point() {
            let g = self.geo_argument()?;
            return Ok(PExpr::Geo(g));
        }
        self.expression(level + 1)
    }

    fn expression_inner(&mut self, level: usize) -> (r: Result<PExpr, SqlError>)
        requires
            old(self).ok(),
            1 <= old(self).depth <= MAX_DEPTH,
            level <= 3,
        ensures
            parsed(
                r,
                *old(self),
                *final(self),
                expression_inner(old(self).t(), old(self).s(), old(self).d(), level as nat),
            ),
        decreases MAX_DEPTH + 1 - old(self).depth, 3nat,
    {
        if level >= 3 {
            return self.primary();
        }
        let ghost t = self.t();
        let ghost d = self.d();
        let mut left = self.expression(level + 1)?;
        let ghost start = self.s();
        let ghost first = left.deep_view();
        loop
            invariant
                self.ok(),
                level < 3,
                1 <= old(self).depth <= MAX_DEPTH,
                self.tokens == old(self).tokens,
                self.refused == old(self).refused,
                self.depth == old(self).depth,
                self.at >= old(self).at,
                t == self.t(),
                t == old(self).t(),
                d == old(self).d(),
                expression(t, old(self).s(), d, (level + 1) as nat) == Ok::<
                    (PExprV, int),
                    SqlErrorV,
                >((first, start)),
                expression_tail(t, start, d, level as nat, first) == expression_tail(
                    t,
                    self.s(),
                    d,
                    level as nat,
                    left.deep_view(),
                ),
            decreases self.tokens@.len() - self.at,
        {
            self.guard_operator()?;
            let op = match self.operator(level) {
                Some(op) => op,
                None => {
                    return Ok(left);
                },
            };
            if level == 2 {
                let column = match left {
                    PExpr::Column(column) => column,
                    _ => {
                        return Err(
                            SqlError::unsupported(
                                "a distance operator takes an indexed column on its left: the index is what the walk reads",
                            ),
                        );
                    },
                };
                self.skip();
                let right = self.right_side(level)?;
                left = PExpr::Distance { column, right: Box::new(right), op: distance_of(op) };
            } else {
                self.skip();
                let right = self.right_side(level)?;
                left = joined_expr(op, left, right);
            }
        }
    }

    fn primary(&mut self) -> (r: Result<PExpr, SqlError>)
        requires
            old(self).ok(),
            1 <= old(self).depth <= MAX_DEPTH,
        ensures
            parsed(r, *old(self), *final(self), primary(old(self).t(), old(self).s(), old(self).d())),
        decreases MAX_DEPTH + 1 - old(self).depth, 2nat,
    {
        self.guard_operator()?;
        if self.eat(Sym::Minus) {
            let e = self.expression(2)?;
            return Ok(PExpr::Neg(Box::new(e)));
        }
        if self.eat(Sym::Plus) {
            return self.expression(2);
        }
        if self.eat(Sym::LParen) {
            let inner = self.expression(0)?;
            self.expect(Sym::RParen)?;
            self.optional_cast()?;
            return Ok(inner);
        }
        let at = self.here();
        match self.peek() {
            Tok::Num(n, _) => {
                let out = PExpr::Num(n.dup());
                self.skip();
                Ok(out)
            },
            Tok::Str(text) => {
                let out = PExpr::Str(text.clone());
                self.skip();
                self.optional_cast()?;
                Ok(out)
            },
            Tok::Param(n) => {
                let out = PExpr::Param(*n);
                self.skip();
                self.optional_cast()?;
                Ok(out)
            },
            Tok::Word(_) | Tok::Quoted(_) => self.word_primary(),
            other => Err(
                SqlError::syntax(
                    cat3("expected a value, found `", other.written().as_str(), "`").as_str(),
                    at,
                ),
            ),
        }
    }
}

// ── rankings ─────────────────────────────────────────────────────────────

/// A distance, as a leaf of a ranking.
pub open spec fn lowered_distance(column: Seq<char>, right: PExprV, op: VecOp) -> Result<
    ScoreNodeV,
    SqlErrorV,
> {
    match right {
        PExprV::Param(n) => Ok(ScoreNodeV::VecDistance { column, query: LiteralV::Param(n), op }),
        PExprV::Str(text) => Ok(
            ScoreNodeV::VecDistance { column, query: LiteralV::Str(text), op },
        ),
        _ => Err(
            SqlErrorV::Unsupported(
                "inside an arithmetic ranking a distance operator takes a vector literal or a parameter"@,
            ),
        ),
    }
}

/// An expression, as a ranking over index leaves and numbers.
pub open spec fn lowered(e: PExprV) -> Result<ScoreNodeV, SqlErrorV>
    decreases e,
{
    match e {
        PExprV::Num(n) => Ok(ScoreNodeV::Lit(n)),
        PExprV::Column(column) => Ok(ScoreNodeV::Column(column)),
        PExprV::Bm25 { column, query } => Ok(ScoreNodeV::Bm25 { column, query }),
        PExprV::SearchScore => Ok(ScoreNodeV::SearchScore),
        PExprV::StDistance { column, point } => Ok(ScoreNodeV::Distance { column, point }),
        PExprV::Distance { column, right, op } => lowered_distance(column, *right, op),
        PExprV::Add(a, b) => {
            match lowered(*a) {
                Err(e) => Err(e),
                Ok(a) => match lowered(*b) {
                    Err(e) => Err(e),
                    Ok(b) => Ok(ScoreNodeV::Add(Box::new(a), Box::new(b))),
                },
            }
        },
        PExprV::Sub(a, b) => {
            match lowered(*a) {
                Err(e) => Err(e),
                Ok(a) => match lowered(*b) {
                    Err(e) => Err(e),
                    Ok(b) => Ok(ScoreNodeV::Sub(Box::new(a), Box::new(b))),
                },
            }
        },
        PExprV::Mul(a, b) => {
            match lowered(*a) {
                Err(e) => Err(e),
                Ok(a) => match lowered(*b) {
                    Err(e) => Err(e),
                    Ok(b) => Ok(ScoreNodeV::Mul(Box::new(a), Box::new(b))),
                },
            }
        },
        PExprV::Div(a, b) => {
            match lowered(*a) {
                Err(e) => Err(e),
                Ok(a) => match lowered(*b) {
                    Err(e) => Err(e),
                    Ok(b) => Ok(ScoreNodeV::Div(Box::new(a), Box::new(b))),
                },
            }
        },
        PExprV::Neg(a) => {
            match lowered(*a) {
                Err(e) => Err(e),
                Ok(a) => Ok(ScoreNodeV::Neg(Box::new(a))),
            }
        },
        PExprV::Str(_) | PExprV::Param(_) => Err(
            SqlErrorV::Unsupported(
                "a ranking expression is arithmetic over index leaves and numbers: a string or a bare parameter is not a leaf"@,
            ),
        ),
        PExprV::Geo(_) => Err(
            SqlErrorV::Unsupported(
                "a geometry is not a ranking leaf: ST_Distance(col, point) is"@,
            ),
        ),
    }
}

fn lower_distance(column: String, right: PExpr, op: VecOp) -> (r: Result<ScoreNode, SqlError>)
    ensures
        match lowered_distance(column@, right.deep_view(), op) {
            Ok(v) => r is Ok && r->Ok_0.deep_view() == v,
            Err(x) => r is Err && r->Err_0.deep_view() == x,
        },
{
    match right {
        PExpr::Param(n) => Ok(ScoreNode::VecDistance { column, query: Literal::Param(n), op }),
        PExpr::Str(text) => Ok(ScoreNode::VecDistance { column, query: Literal::Str(text), op }),
        _ => Err(
            SqlError::unsupported(
                "inside an arithmetic ranking a distance operator takes a vector literal or a parameter",
            ),
        ),
    }
}

/// An expression, as a ranking.
pub fn lower(e: PExpr) -> (r: Result<ScoreNode, SqlError>)
    ensures
        match lowered(e.deep_view()) {
            Ok(v) => r is Ok && r->Ok_0.deep_view() == v,
            Err(x) => r is Err && r->Err_0.deep_view() == x,
        },
    decreases e,
{
    match e {
        PExpr::Num(n) => Ok(ScoreNode::Lit(n)),
        PExpr::Column(column) => Ok(ScoreNode::Column(column)),
        PExpr::Bm25 { column, query } => Ok(ScoreNode::Bm25 { column, query }),
        PExpr::SearchScore => Ok(ScoreNode::SearchScore),
        PExpr::StDistance { column, point } => Ok(ScoreNode::Distance { column, point }),
        PExpr::Distance { column, right, op } => lower_distance(column, *right, op),
        PExpr::Add(a, b) => {
            let a = lower(*a)?;
            let b = lower(*b)?;
            Ok(ScoreNode::Add(Box::new(a), Box::new(b)))
        },
        PExpr::Sub(a, b) => {
            let a = lower(*a)?;
            let b = lower(*b)?;
            Ok(ScoreNode::Sub(Box::new(a), Box::new(b)))
        },
        PExpr::Mul(a, b) => {
            let a = lower(*a)?;
            let b = lower(*b)?;
            Ok(ScoreNode::Mul(Box::new(a), Box::new(b)))
        },
        PExpr::Div(a, b) => {
            let a = lower(*a)?;
            let b = lower(*b)?;
            Ok(ScoreNode::Div(Box::new(a), Box::new(b)))
        },
        PExpr::Neg(a) => {
            let a = lower(*a)?;
            Ok(ScoreNode::Neg(Box::new(a)))
        },
        PExpr::Str(_) | PExpr::Param(_) => Err(
            SqlError::unsupported(
                "a ranking expression is arithmetic over index leaves and numbers: a string or a bare parameter is not a leaf",
            ),
        ),
        PExpr::Geo(_) => Err(
            SqlError::unsupported("a geometry is not a ranking leaf: ST_Distance(col, point) is"),
        ),
    }
}

/// The key of a distance between a column and what stands on its right.
pub open spec fn distance_key(column: Seq<char>, right: PExprV, op: VecOp, descending: bool) -> Result<
    OrderKeyV,
    SqlErrorV,
> {
    match right {
        PExprV::Geo(GeoArgV::Point(point)) => if op != VecOp::L2 {
            Err(
                SqlErrorV::Unsupported(
                    "the PostGIS KNN operator is `<->`; `<=>` and `<#>` are pgvector's and take a vector"@,
                ),
            )
        } else {
            Ok(OrderKeyV::Distance { column, point, descending })
        },
        PExprV::Geo(_) => Err(
            SqlErrorV::Unsupported(
                "ORDER BY <-> takes a point: the nearest walk starts at one centre"@,
            ),
        ),
        PExprV::Param(n) => Ok(
            OrderKeyV::Vector { column, query: LiteralV::Param(n), op, descending },
        ),
        PExprV::Str(text) => Ok(
            OrderKeyV::Vector { column, query: LiteralV::Str(text), op, descending },
        ),
        other => Err(
            SqlErrorV::Unsupported(
                "the right side of a distance operator is a vector literal, a parameter or a point; found "@
                    + pexpr_debug(other),
            ),
        ),
    }
}

/// The key that an expression is.
pub open spec fn key_of(e: PExprV, descending: bool) -> Result<OrderKeyV, SqlErrorV> {
    match e {
        PExprV::Column(column) => Ok(OrderKeyV::Column { column, descending }),
        PExprV::Bm25 { column, query } => Ok(OrderKeyV::Bm25 { column, query, descending }),
        PExprV::Distance { column, right, op } => distance_key(column, *right, op, descending),
        other => {
            match lowered(other) {
                Err(e) => Err(e),
                Ok(expr) => Ok(OrderKeyV::Score { expr, descending }),
            }
        },
    }
}

/// The key of an `ORDER BY`, with its direction.
#[verifier::opaque]
pub open spec fn order_key(t: Seq<TokenV>, s: int, d: nat) -> Result<(OrderKeyV, int), SqlErrorV> {
    match expression(t, s, d, 0) {
        Err(e) => Err(e),
        Ok((e, s)) => {
            let descending = is_word(t, s, "DESC"@);
            let s = if descending { next(t, s) } else { past_word(t, s, "ASC"@) };
            if is_word(t, s, "NULLS"@) {
                Err(
                    SqlErrorV::Unsupported(
                        "NULLS FIRST / NULLS LAST: `compare_rank` fixes where a nullish key sorts, and it is not a per-query choice"@,
                    ),
                )
            } else {
                match key_of(e, descending) {
                    Err(e) => Err(e),
                    Ok(key) => Ok((key, s)),
                }
            }
        }
    }
}

fn key_of_distance(column: String, right: PExpr, op: VecOp, descending: bool) -> (r: Result<
    OrderKey,
    SqlError,
>)
    ensures
        match distance_key(column@, right.deep_view(), op, descending) {
            Ok(v) => r is Ok && r->Ok_0.deep_view() == v,
            Err(x) => r is Err && r->Err_0.deep_view() == x,
        },
{
    match right {
        PExpr::Geo(GeoArg::Point(point)) => if op != VecOp::L2 {
            Err(
                SqlError::unsupported(
                    "the PostGIS KNN operator is `<->`; `<=>` and `<#>` are pgvector's and take a vector",
                ),
            )
        } else {
            Ok(OrderKey::Distance { column, point, descending })
        },
        PExpr::Geo(_) => Err(
            SqlError::unsupported(
                "ORDER BY <-> takes a point: the nearest walk starts at one centre",
            ),
        ),
        PExpr::Param(n) => Ok(
            OrderKey::Vector { column, query: Literal::Param(n), op, descending },
        ),
        PExpr::Str(text) => Ok(
            OrderKey::Vector { column, query: Literal::Str(text), op, descending },
        ),
        other => Err(
            SqlError::unsupported(
                cat2(
                    "the right side of a distance operator is a vector literal, a parameter or a point; found ",
                    debug_pexpr(&other).as_str(),
                ).as_str(),
            ),
        ),
    }
}

fn make_key(e: PExpr, descending: bool) -> (r: Result<OrderKey, SqlError>)
    ensures
        match key_of(e.deep_view(), descending) {
            Ok(v) => r is Ok && r->Ok_0.deep_view() == v,
            Err(x) => r is Err && r->Err_0.deep_view() == x,
        },
{
    match e {
        PExpr::Column(column) => Ok(OrderKey::Column { column, descending }),
        PExpr::Bm25 { column, query } => Ok(OrderKey::Bm25 { column, query, descending }),
        PExpr::Distance { column, right, op } => key_of_distance(column, *right, op, descending),
        other => {
            let expr = lower(other)?;
            Ok(OrderKey::Score { expr, descending })
        },
    }
}

impl Parser {
    /// The key of an `ORDER BY`.
    pub fn order_key(&mut self) -> (r: Result<OrderKey, SqlError>)
        requires
            old(self).ok(),
        ensures
            parsed(r, *old(self), *final(self), order_key(old(self).t(), old(self).s(), old(self).d())),
    {
        proof {
            reveal(order_key);
        }
        let e = self.expression(0)?;
        let descending = self.eat_word("DESC");
        if !descending {
            let _ = self.eat_word("ASC");
        }
        if self.at_word("NULLS") {
            return Err(
                SqlError::unsupported(
                    "NULLS FIRST / NULLS LAST: `compare_rank` fixes where a nullish key sorts, and it is not a per-query choice",
                ),
            );
        }
        make_key(e, descending)
    }
}

} // verus!
