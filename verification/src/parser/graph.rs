//! `GRAPH_TABLE` patterns.

use vstd::prelude::*;
use crate::ast::{GraphDirection, Literal, LiteralV, Predicate, PredicateV};
use crate::compile::env::{ID_COLUMN, KEY_COLUMN, MAX_GRAPH_DEPTH};
use crate::error::{SqlError, SqlErrorV, Tier};
use crate::number::{saturated_size, to_size};
use crate::parser::condition::conjunction;
use crate::parser::cursor::{
    guard_here, here, is_sym, is_word, name, name_parts, next, parsed, reads, syntax, tok, want,
    want_word, Parser,
};
use crate::parser::value::{comparison_of, literal};
use crate::refuse::{refusal, refuse};
use crate::stmt::{
    EdgePredicate, EdgePredicateV, GraphColumn, GraphColumnV, GraphHop, GraphHopV, GraphTable,
    GraphTableV, SelectItem, SelectItemV,
};
use crate::text::{cat2, cat3, cat4, cat5, cat6, cat7, decimal, decimal_usize, lower, owned, same,
    same_letters};
use crate::token::{tok_text, Sym, Tok, TokV, TokenV};

verus! {

// ── names and labels ─────────────────────────────────────────────────────

/// `variable.name` or `name`, as both halves.
#[verifier::opaque]
pub open spec fn qualified_name(t: Seq<TokenV>, s: int) -> Result<
    ((Option<Seq<char>>, Seq<char>), int),
    SqlErrorV,
> {
    let at = here(t, s);
    match name_parts(t, s, at, Seq::empty()) {
        Err(e) => Err(e),
        Ok((parts, s)) => if parts.len() > 2 {
            Err(
                syntax(
                    "a GRAPH_TABLE element name is `<variable>.<name>` or `<name>`, found "@ + decimal(
                        parts.len() as int,
                    ) + " parts"@,
                    at,
                ),
            )
        } else if parts.len() == 2 {
            Ok(((Some(parts[0]), parts[1]), s))
        } else {
            Ok(((None, parts[0]), s))
        },
    }
}

pub open spec fn no_alternation() -> SqlErrorV {
    SqlErrorV::Refused {
        keyword: "label alternation"@,
        tier: Tier::Two,
        reason: "QL_CONTRACT §4.3: label alternation `a|b` is a multi-type hop (two ranges per hop); not built in this slice."@,
    }
}

/// A label, behind its colon or `IS`.
#[verifier::opaque]
pub open spec fn label(t: Seq<TokenV>, s: int) -> Result<(Seq<char>, int), SqlErrorV> {
    match name(t, s) {
        Err(e) => Err(e),
        Ok((label, s)) => if is_sym(t, s, Sym::Pipe) {
            Err(no_alternation())
        } else {
            Ok((label, s))
        },
    }
}

/// `:label` or `IS label`.
#[verifier::opaque]
pub open spec fn element_label(t: Seq<TokenV>, s: int) -> Result<(Seq<char>, int), SqlErrorV> {
    if is_sym(t, s, Sym::Colon) || is_word(t, s, "IS"@) {
        label(t, next(t, s))
    } else {
        Err(
            SqlErrorV::Unsupported(
                "an element pattern names its collection (`(a:place)` or `(a IS place)`): a traversal walks one collection's rows"@,
            ),
        )
    }
}

impl Parser {
    fn qualified_name(&mut self) -> (r: Result<(Option<String>, String), SqlError>)
        requires
            old(self).ok(),
        ensures
            reads(r, *old(self), *final(self), qualified_name(old(self).t(), old(self).s())),
            r is Ok ==> final(self).at > old(self).at,
    {
        proof {
            reveal(qualified_name);
        }
        let at = self.here();
        let mut parts = self.name_parts(at)?;
        let n: usize = parts.len();
        assert(parts.deep_view().len() == n);
        if n > 2 {
            return Err(
                SqlError::syntax(
                    cat3(
                        "a GRAPH_TABLE element name is `<variable>.<name>` or `<name>`, found ",
                        decimal_usize(n).as_str(),
                        " parts",
                    ).as_str(),
                    at,
                ),
            );
        }
        let ghost all = parts.deep_view();
        assert(forall|k: int| 0 <= k < n ==> #[trigger] all[k] == parts@[k]@);
        let first = parts.remove(0);
        if n == 2 {
            let second = parts.remove(0);
            return Ok((Some(first), second));
        }
        Ok((None, first))
    }

    fn label(&mut self) -> (r: Result<String, SqlError>)
        requires
            old(self).ok(),
        ensures
            reads(r, *old(self), *final(self), label(old(self).t(), old(self).s())),
    {
        proof {
            reveal(label);
        }
        let label = self.name()?;
        if self.at_sym(Sym::Pipe) {
            return Err(
                SqlError::Refused {
                    keyword: owned("label alternation"),
                    tier: Tier::Two,
                    reason: owned(
                        "QL_CONTRACT §4.3: label alternation `a|b` is a multi-type hop (two ranges per hop); not built in this slice.",
                    ),
                },
            );
        }
        Ok(label)
    }

    fn element_label(&mut self) -> (r: Result<String, SqlError>)
        requires
            old(self).ok(),
        ensures
            reads(r, *old(self), *final(self), element_label(old(self).t(), old(self).s())),
    {
        proof {
            reveal(element_label);
        }
        if self.at_sym(Sym::Colon) || self.at_word("IS") {
            self.skip();
            return self.label();
        }
        Err(
            SqlError::unsupported(
                "an element pattern names its collection (`(a:place)` or `(a IS place)`): a traversal walks one collection's rows",
            ),
        )
    }
}

// ── the hop ──────────────────────────────────────────────────────────────

/// The element that a predicate of an edge names has to be that edge.
pub open spec fn edge_qualifier(
    qualifier: Option<Seq<char>>,
    property: Seq<char>,
    bound: Option<Seq<char>>,
) -> Option<SqlErrorV> {
    match qualifier {
        None => None,
        Some(q) => match bound {
            None => Some(
                SqlErrorV::Unsupported(
                    "`"@ + q + "."@ + property
                        + "` in an edge element's inline WHERE: this edge element bound no variable, so the predicate belongs to `"@
                        + q + "`'s own element WHERE"@,
                ),
            ),
            Some(b) => if lower(q) != lower(b) {
                Some(
                    SqlErrorV::Unsupported(
                        "an edge element's inline WHERE names its own element (`"@ + b
                            + "`), not `"@ + q
                            + "`: a predicate on another element is that element's own inline WHERE"@,
                    ),
                )
            } else {
                None
            },
        },
    }
}

/// One predicate of an edge.
#[verifier::opaque]
pub open spec fn edge_predicate(t: Seq<TokenV>, s: int, d: nat, bound: Option<Seq<char>>) -> Result<
    (EdgePredicateV, int),
    SqlErrorV,
> {
    match qualified_name(t, s) {
        Err(e) => Err(e),
        Ok((named, s)) => match edge_qualifier(named.0, named.1, bound) {
            Some(e) => Err(e),
            None => match comparison_of(tok(t, s)) {
                None => Err(
                    syntax(
                        "an edge property predicate compares with =, <>, <, <=, > or >=, found `"@
                            + tok_text(tok(t, s)) + "`"@,
                        here(t, s),
                    ),
                ),
                Some(op) => match literal(t, next(t, s), d) {
                    Err(e) => Err(e),
                    Ok((value, s)) => Ok((EdgePredicateV { property: named.1, op, value }, s)),
                },
            },
        },
    }
}

/// Predicates of an edge with `AND` between them, behind those of `done`.
pub open spec fn edge_predicates(
    t: Seq<TokenV>,
    s: int,
    d: nat,
    bound: Option<Seq<char>>,
    done: Seq<EdgePredicateV>,
) -> Result<(Seq<EdgePredicateV>, int), SqlErrorV>
    decreases t.len() - s,
{
    match edge_predicate(t, s, d, bound) {
        Err(e) => Err(e),
        Ok((p, s2)) => if is_word(t, s2, "OR"@) {
            Err(
                SqlErrorV::Unsupported(
                    "OR inside an edge element's WHERE: an edge predicate is decoded from the edge's own inline bag per hop, and a union is a set over a keyspace (GRAPH_CONTRACT 4.3)"@,
                ),
            )
        } else if is_word(t, s2, "AND"@) && s < next(t, s2) <= t.len() {
            edge_predicates(t, next(t, s2), d, bound, done.push(p))
        } else {
            Ok((done.push(p), s2))
        },
    }
}

/// What stands between the brackets of an edge: its variable, its type and its
/// predicates.
pub struct EdgeElementV {
    pub variable: Option<Seq<char>>,
    pub edge_type: Option<Seq<char>>,
    pub predicates: Seq<EdgePredicateV>,
}

/// The brackets of an edge.
#[derive(Debug)]
pub struct EdgeElement {
    pub variable: Option<String>,
    pub edge_type: Option<String>,
    pub predicates: Vec<EdgePredicate>,
}

impl DeepView for EdgeElement {
    type V = EdgeElementV;

    open spec fn deep_view(&self) -> EdgeElementV {
        EdgeElementV {
            variable: self.variable.deep_view(),
            edge_type: self.edge_type.deep_view(),
            predicates: self.predicates.deep_view(),
        }
    }
}

/// A name that may stand or not.
#[verifier::opaque]
pub open spec fn optional_name(t: Seq<TokenV>, s: int, stands: bool) -> Result<
    (Option<Seq<char>>, int),
    SqlErrorV,
> {
    if stands {
        match name(t, s) {
            Err(e) => Err(e),
            Ok((n, s)) => Ok((Some(n), s)),
        }
    } else {
        Ok((None, s))
    }
}

/// The brackets of an edge, behind the opening one.
#[verifier::opaque]
pub open spec fn edge_element(t: Seq<TokenV>, s: int, d: nat) -> Result<
    (EdgeElementV, int),
    SqlErrorV,
> {
    match optional_name(t, s, !is_sym(t, s, Sym::Colon)) {
        Err(e) => Err(e),
        Ok((variable, s)) => match if is_sym(t, s, Sym::Colon) || is_word(t, s, "IS"@) { match label(t, next(t, s)) { Err(e) => Err(e), Ok((l, s)) => Ok((Some(l), s)) } } else { Ok((None, s)) } {
            Err(e) => Err(e),
            Ok((edge_type, s)) => match if is_word(t, s, "WHERE"@) { edge_predicates(t, next(t, s), d, variable, Seq::empty()) } else { Ok((Seq::empty(), s)) } {
                Err(e) => Err(e),
                Ok((predicates, s)) => match want(t, s, Sym::RBracket) {
                    Err(e) => Err(e),
                    Ok(s) => Ok((EdgeElementV { variable, edge_type, predicates }, s)),
                },
            },
        },
    }
}

/// The head of the arrow, which decides the direction.
#[verifier::opaque]
pub open spec fn arrow_head(t: Seq<TokenV>, s: int, incoming: bool) -> Result<
    (GraphDirection, int),
    SqlErrorV,
> {
    if incoming {
        match if is_sym(t, s, Sym::Minus) { Ok(next(t, s)) } else { want(t, s, Sym::Arrow) } {
            Err(e) => Err(e),
            Ok(s) => Ok((GraphDirection::Incoming, s)),
        }
    } else if is_sym(t, s, Sym::Arrow) {
        Ok((GraphDirection::Outgoing, next(t, s)))
    } else {
        match want(t, s, Sym::Minus) {
            Err(e) => Err(e),
            Ok(s) => if is_sym(t, s, Sym::Gt) {
                Ok((GraphDirection::Outgoing, next(t, s)))
            } else {
                Ok((GraphDirection::Both, s))
            },
        }
    }
}

/// A whole number of hops.
#[verifier::opaque]
pub open spec fn hops(t: Seq<TokenV>, s: int) -> Result<(usize, int), SqlErrorV> {
    match tok(t, s) {
        TokV::Num(n, true) => Ok((saturated_size(n.bits) as usize, next(t, s))),
        other => Err(
            syntax("expected a depth, found `"@ + tok_text(other) + "`"@, here(t, next(t, s))),
        ),
    }
}

/// How many hops a pattern takes: `{n}`, `{n,m}`, `{n,}`, `+` or `?`; one,
/// where nothing says.
#[verifier::opaque]
pub open spec fn quantifier(t: Seq<TokenV>, s: int) -> Result<((usize, usize), int), SqlErrorV> {
    if is_sym(t, s, Sym::LBrace) {
        match hops(t, next(t, s)) {
            Err(e) => Err(e),
            Ok((min, s)) => match if !is_sym(t, s, Sym::Comma) { Ok((min, s)) } else if is_sym(t, next(t, s), Sym::RBrace) { Ok((MAX_GRAPH_DEPTH, next(t, s))) } else { hops(t, next(t, s)) } {
                Err(e) => Err(e),
                Ok((max, s)) => match want(t, s, Sym::RBrace) {
                    Err(e) => Err(e),
                    Ok(s) => Ok(((if min < 1 { 1usize } else { min }, max), s)),
                },
            },
        }
    } else if is_sym(t, s, Sym::Plus) {
        Ok(((1, MAX_GRAPH_DEPTH), next(t, s)))
    } else if is_sym(t, s, Sym::Question) {
        Ok(((1, 1), next(t, s)))
    } else {
        Ok(((1, 1), s))
    }
}

/// One hop, and the variable that its edge is bound to.
#[verifier::opaque]
pub open spec fn graph_hop(t: Seq<TokenV>, s: int, d: nat) -> Result<
    ((GraphHopV, Option<Seq<char>>), int),
    SqlErrorV,
> {
    let incoming = is_sym(t, s, Sym::BackArrow);
    match if incoming { Ok(next(t, s)) } else { want(t, s, Sym::Minus) } {
        Err(e) => Err(e),
        Ok(s) => match if is_sym(t, s, Sym::LBracket) { edge_element(t, next(t, s), d) } else { Ok((EdgeElementV { variable: None, edge_type: None, predicates: Seq::empty() }, s)) } {
            Err(e) => Err(e),
            Ok((element, s)) => match arrow_head(t, s, incoming) {
                Err(e) => Err(e),
                Ok((direction, s)) => match quantifier(t, s) {
                    Err(e) => Err(e),
                    Ok((depths, s)) => {
                        let hop = GraphHopV {
                            edge_type: element.edge_type,
                            direction,
                            min_depth: depths.0,
                            max_depth: depths.1,
                            predicates: element.predicates,
                        };
                        Ok(((hop, element.variable), s))
                    }
                },
            },
        },
    }
}

fn check_qualifier(qualifier: &Option<String>, property: &str, bound: &Option<String>) -> (r: Option<
    SqlError,
>)
    ensures
        r.deep_view() == edge_qualifier(qualifier.deep_view(), property@, bound.deep_view()),
{
    match qualifier {
        None => None,
        Some(q) => match bound {
            None => Some(
                SqlError::unsupported(
                    cat7(
                        "`",
                        q.as_str(),
                        ".",
                        property,
                        "` in an edge element's inline WHERE: this edge element bound no variable, so the predicate belongs to `",
                        q.as_str(),
                        "`'s own element WHERE",
                    ).as_str(),
                ),
            ),
            Some(b) => if !same_letters(q.as_str(), b.as_str()) {
                Some(
                    SqlError::unsupported(
                        cat5(
                            "an edge element's inline WHERE names its own element (`",
                            b.as_str(),
                            "`), not `",
                            q.as_str(),
                            "`: a predicate on another element is that element's own inline WHERE",
                        ).as_str(),
                    ),
                )
            } else {
                None
            },
        },
    }
}

impl Parser {
    fn edge_predicate(&mut self, bound: &Option<String>) -> (r: Result<EdgePredicate, SqlError>)
        requires
            old(self).ok(),
        ensures
            parsed(
                r,
                *old(self),
                *final(self),
                edge_predicate(old(self).t(), old(self).s(), old(self).d(), bound.deep_view()),
            ),
    {
        proof {
            reveal(edge_predicate);
        }
        let (qualifier, property) = self.qualified_name()?;
        if let Some(e) = check_qualifier(&qualifier, property.as_str(), bound) {
            return Err(e);
        }
        let op = match self.peek().comparison() {
            Some(op) => op,
            None => {
                return Err(
                    SqlError::syntax(
                        cat3(
                            "an edge property predicate compares with =, <>, <, <=, > or >=, found `",
                            self.peek().written().as_str(),
                            "`",
                        ).as_str(),
                        self.here(),
                    ),
                );
            },
        };
        self.skip();
        let value = self.literal()?;
        Ok(EdgePredicate { property, op, value })
    }

    fn edge_predicates(&mut self, bound: &Option<String>) -> (r: Result<
        Vec<EdgePredicate>,
        SqlError,
    >)
        requires
            old(self).ok(),
        ensures
            parsed(
                r,
                *old(self),
                *final(self),
                edge_predicates(
                    old(self).t(),
                    old(self).s(),
                    old(self).d(),
                    bound.deep_view(),
                    Seq::empty(),
                ),
            ),
    {
        let ghost t = self.t();
        let ghost d = self.d();
        let ghost start = self.s();
        let ghost b = bound.deep_view();
        let mut out: Vec<EdgePredicate> = Vec::new();
        assert(out.deep_view() =~= Seq::<EdgePredicateV>::empty());
        loop
            invariant
                self.ok(),
                self.tokens == old(self).tokens,
                self.refused == old(self).refused,
                self.depth == old(self).depth,
                self.at >= old(self).at,
                t == self.t(),
                t == old(self).t(),
                d == old(self).d(),
                b == bound.deep_view(),
                start == old(self).s(),
                edge_predicates(t, start, d, b, Seq::empty()) == edge_predicates(
                    t,
                    self.s(),
                    d,
                    b,
                    out.deep_view(),
                ),
            decreases self.tokens@.len() - self.at,
        {
            let p = self.edge_predicate(bound)?;
            if self.at_word("OR") {
                return Err(
                    SqlError::unsupported(
                        "OR inside an edge element's WHERE: an edge predicate is decoded from the edge's own inline bag per hop, and a union is a set over a keyspace (GRAPH_CONTRACT 4.3)",
                    ),
                );
            }
            let ghost before = out.deep_view();
            out.push(p);
            assert(out.deep_view() =~= before.push(p.deep_view()));
            if !self.eat_word("AND") {
                return Ok(out);
            }
        }
    }

    fn optional_name(&mut self, stands: bool) -> (r: Result<Option<String>, SqlError>)
        requires
            old(self).ok(),
        ensures
            reads(r, *old(self), *final(self), optional_name(old(self).t(), old(self).s(), stands)),
    {
        proof {
            reveal(optional_name);
        }
        if stands {
            let n = self.name()?;
            return Ok(Some(n));
        }
        Ok(None)
    }

    fn edge_element(&mut self) -> (r: Result<EdgeElement, SqlError>)
        requires
            old(self).ok(),
        ensures
            parsed(r, *old(self), *final(self), edge_element(old(self).t(), old(self).s(), old(self).d())),
    {
        proof {
            reveal(edge_element);
        }
        let stands = !self.at_sym(Sym::Colon);
        let variable = self.optional_name(stands)?;
        let edge_type = if self.at_sym(Sym::Colon) || self.at_word("IS") {
            self.skip();
            Some(self.label()?)
        } else {
            None
        };
        let predicates = if self.eat_word("WHERE") {
            self.edge_predicates(&variable)?
        } else {
            let none: Vec<EdgePredicate> = Vec::new();
            assert(none.deep_view() =~= Seq::<EdgePredicateV>::empty());
            none
        };
        self.expect(Sym::RBracket)?;
        Ok(EdgeElement { variable, edge_type, predicates })
    }

    fn arrow_head(&mut self, incoming: bool) -> (r: Result<GraphDirection, SqlError>)
        requires
            old(self).ok(),
        ensures
            reads(r, *old(self), *final(self), arrow_head(old(self).t(), old(self).s(), incoming)),
    {
        proof {
            reveal(arrow_head);
        }
        if incoming {
            if !self.eat(Sym::Minus) {
                self.expect(Sym::Arrow)?;
            }
            return Ok(GraphDirection::Incoming);
        }
        if self.eat(Sym::Arrow) {
            return Ok(GraphDirection::Outgoing);
        }
        self.expect(Sym::Minus)?;
        if self.eat(Sym::Gt) {
            Ok(GraphDirection::Outgoing)
        } else {
            Ok(GraphDirection::Both)
        }
    }

    fn hops(&mut self) -> (r: Result<usize, SqlError>)
        requires
            old(self).ok(),
        ensures
            reads(r, *old(self), *final(self), hops(old(self).t(), old(self).s())),
    {
        proof {
            reveal(hops);
        }
        match self.bump() {
            Tok::Num(n, true) => Ok(to_size(n.bits)),
            other => Err(
                SqlError::syntax(
                    cat3("expected a depth, found `", other.written().as_str(), "`").as_str(),
                    self.here(),
                ),
            ),
        }
    }

    fn quantifier(&mut self) -> (r: Result<(usize, usize), SqlError>)
        requires
            old(self).ok(),
        ensures
            reads(r, *old(self), *final(self), quantifier(old(self).t(), old(self).s())),
    {
        proof {
            reveal(quantifier);
        }
        if self.eat(Sym::LBrace) {
            let min = self.hops()?;
            let max = if self.eat(Sym::Comma) {
                if self.at_sym(Sym::RBrace) {
                    MAX_GRAPH_DEPTH
                } else {
                    self.hops()?
                }
            } else {
                min
            };
            self.expect(Sym::RBrace)?;
            return Ok(
                (
                    if min < 1 {
                        1
                    } else {
                        min
                    },
                    max,
                ),
            );
        }
        if self.eat(Sym::Plus) {
            return Ok((1, MAX_GRAPH_DEPTH));
        }
        if self.eat(Sym::Question) {
            return Ok((1, 1));
        }
        Ok((1, 1))
    }

    fn graph_hop(&mut self) -> (r: Result<(GraphHop, Option<String>), SqlError>)
        requires
            old(self).ok(),
        ensures
            parsed(r, *old(self), *final(self), graph_hop(old(self).t(), old(self).s(), old(self).d())),
    {
        proof {
            reveal(graph_hop);
        }
        let incoming = self.eat(Sym::BackArrow);
        if !incoming {
            self.expect(Sym::Minus)?;
        }
        let element = if self.eat(Sym::LBracket) {
            self.edge_element()?
        } else {
            let none: Vec<EdgePredicate> = Vec::new();
            assert(none.deep_view() =~= Seq::<EdgePredicateV>::empty());
            EdgeElement { variable: None, edge_type: None, predicates: none }
        };
        let direction = self.arrow_head(incoming)?;
        let (min_depth, max_depth) = self.quantifier()?;
        Ok(
            (
                GraphHop {
                    edge_type: element.edge_type,
                    direction,
                    min_depth,
                    max_depth,
                    predicates: element.predicates,
                },
                element.variable,
            ),
        )
    }
}

// ── COLUMNS ──────────────────────────────────────────────────────────────

/// Whether a name is that of a bound element, in either case.
pub open spec fn names_element(qualifier: Option<Seq<char>>, bound: Option<Seq<char>>) -> bool {
    qualifier is Some && bound is Some && lower(qualifier->0) == lower(bound->0)
}

/// Why an element cannot be read, if it cannot: a match holds the far node and
/// the edge, and nothing of the starting node.
pub open spec fn column_qualifier(
    qualifier: Option<Seq<char>>,
    field: Seq<char>,
    seed: Seq<char>,
    target: Seq<char>,
    edge: Option<Seq<char>>,
    at: usize,
) -> Option<SqlErrorV> {
    if qualifier is None || names_element(qualifier, edge) {
        None
    } else {
        let q = qualifier->0;
        if lower(q) == lower(seed) {
            Some(
                SqlErrorV::Unsupported(
                    "COLUMNS ("@ + q + "."@ + field + "): `"@ + q
                        + "` is the starting node, and a match row carries only the far node `"@ + (
                    target
                        + "` and the edge it was reached by. The starting row is the one named by its key, so read it with its own SELECT; returning its fields per match is not in this slice"@),
                ),
            )
        } else if lower(q) != lower(target) {
            Some(
                syntax(
                    "COLUMNS ("@ + q + "."@ + field + "): `"@ + q
                        + "` is not a variable of this pattern; it binds `"@ + (seed + "`, `"@
                        + target + "`"@ + (match edge {
                        Some(e) => " and the edge `"@ + e + "`"@,
                        None => ""@,
                    })),
                    at,
                ),
            )
        } else {
            None
        }
    }
}

/// The item that a field of an element is.
pub open spec fn column_item(field: Seq<char>, edge: bool) -> GraphColumnV {
    if edge {
        GraphColumnV::Edge(field)
    } else if field == ID_COLUMN@ {
        GraphColumnV::Node(SelectItemV::Id)
    } else if field == KEY_COLUMN@ {
        GraphColumnV::Node(SelectItemV::Key)
    } else {
        GraphColumnV::Node(SelectItemV::Column(field))
    }
}

/// One entry of `COLUMNS`.
#[verifier::opaque]
pub open spec fn graph_column(
    t: Seq<TokenV>,
    s: int,
    seed: Seq<char>,
    target: Seq<char>,
    edge: Option<Seq<char>>,
) -> Result<((GraphColumnV, Seq<char>), int), SqlErrorV> {
    let at = here(t, s);
    match qualified_name(t, s) {
        Err(e) => Err(e),
        Ok((named, s)) => match column_qualifier(named.0, named.1, seed, target, edge, at) {
            Some(e) => Err(e),
            None => {
                let item = column_item(named.1, names_element(named.0, edge));
                if is_word(t, s, "AS"@) {
                    match name(t, next(t, s)) {
                        Err(e) => Err(e),
                        Ok((alias, s)) => Ok(((item, alias), s)),
                    }
                } else {
                    Ok(((item, named.1), s))
                }
            },
        },
    }
}

/// Entries of `COLUMNS` between commas, behind those of `done`.
pub open spec fn graph_columns(
    t: Seq<TokenV>,
    s: int,
    seed: Seq<char>,
    target: Seq<char>,
    edge: Option<Seq<char>>,
    done: Seq<(GraphColumnV, Seq<char>)>,
) -> Result<(Seq<(GraphColumnV, Seq<char>)>, int), SqlErrorV>
    decreases t.len() - s,
{
    match graph_column(t, s, seed, target, edge) {
        Err(e) => Err(e),
        Ok((c, s2)) => if is_sym(t, s2, Sym::Comma) && s < next(t, s2) <= t.len() {
            graph_columns(t, next(t, s2), seed, target, edge, done.push(c))
        } else {
            Ok((done.push(c), s2))
        },
    }
}

fn check_column(
    qualifier: &Option<String>,
    field: &str,
    seed: &str,
    target: &str,
    edge: &Option<String>,
    at: usize,
) -> (r: Option<SqlError>)
    ensures
        r.deep_view() == column_qualifier(
            qualifier.deep_view(),
            field@,
            seed@,
            target@,
            edge.deep_view(),
            at,
        ),
{
    match qualifier {
        None => None,
        Some(q) => {
            let own = match edge {
                Some(e) => same_letters(q.as_str(), e.as_str()),
                None => false,
            };
            if own {
                None
            } else if same_letters(q.as_str(), seed) {
                let tail = cat2(
                    target,
                    "` and the edge it was reached by. The starting row is the one named by its key, so read it with its own SELECT; returning its fields per match is not in this slice",
                );
                let head = cat7(
                    "COLUMNS (",
                    q.as_str(),
                    ".",
                    field,
                    "): `",
                    q.as_str(),
                    "` is the starting node, and a match row carries only the far node `",
                );
                Some(SqlError::unsupported(cat2(head.as_str(), tail.as_str()).as_str()))
            } else if !same_letters(q.as_str(), target) {
                let known = match edge {
                    Some(e) => cat3(" and the edge `", e.as_str(), "`"),
                    None => owned(""),
                };
                let tail = cat5(seed, "`, `", target, "`", known.as_str());
                let head = cat7(
                    "COLUMNS (",
                    q.as_str(),
                    ".",
                    field,
                    "): `",
                    q.as_str(),
                    "` is not a variable of this pattern; it binds `",
                );
                Some(SqlError::syntax(cat2(head.as_str(), tail.as_str()).as_str(), at))
            } else {
                None
            }
        },
    }
}

fn item_of(field: &str, edge: bool) -> (r: GraphColumn)
    ensures
        r.deep_view() == column_item(field@, edge),
{
    if edge {
        GraphColumn::Edge(owned(field))
    } else if same(field, ID_COLUMN) {
        GraphColumn::Node(SelectItem::Id)
    } else if same(field, KEY_COLUMN) {
        GraphColumn::Node(SelectItem::Key)
    } else {
        GraphColumn::Node(SelectItem::Column(owned(field)))
    }
}

impl Parser {
    fn graph_column(&mut self, seed: &str, target: &str, edge: &Option<String>) -> (r: Result<
        (GraphColumn, String),
        SqlError,
    >)
        requires
            old(self).ok(),
        ensures
            reads(
                r,
                *old(self),
                *final(self),
                graph_column(old(self).t(), old(self).s(), seed@, target@, edge.deep_view()),
            ),
    {
        proof {
            reveal(graph_column);
        }
        let at = self.here();
        let (qualifier, field) = self.qualified_name()?;
        if let Some(e) = check_column(&qualifier, field.as_str(), seed, target, edge, at) {
            return Err(e);
        }
        let own = match (&qualifier, edge) {
            (Some(q), Some(e)) => same_letters(q.as_str(), e.as_str()),
            _ => false,
        };
        let item = item_of(field.as_str(), own);
        if self.eat_word("AS") {
            let alias = self.name()?;
            return Ok((item, alias));
        }
        Ok((item, field))
    }

    fn graph_columns(&mut self, seed: &str, target: &str, edge: &Option<String>) -> (r: Result<
        Vec<(GraphColumn, String)>,
        SqlError,
    >)
        requires
            old(self).ok(),
        ensures
            reads(
                r,
                *old(self),
                *final(self),
                graph_columns(
                    old(self).t(),
                    old(self).s(),
                    seed@,
                    target@,
                    edge.deep_view(),
                    Seq::empty(),
                ),
            ),
    {
        let ghost t = self.t();
        let ghost start = self.s();
        let ghost b = edge.deep_view();
        let mut out: Vec<(GraphColumn, String)> = Vec::new();
        assert(out.deep_view() =~= Seq::<(GraphColumnV, Seq<char>)>::empty());
        loop
            invariant
                self.ok(),
                self.tokens == old(self).tokens,
                self.refused == old(self).refused,
                self.depth == old(self).depth,
                self.at >= old(self).at,
                t == self.t(),
                t == old(self).t(),
                b == edge.deep_view(),
                start == old(self).s(),
                graph_columns(t, start, seed@, target@, b, Seq::empty()) == graph_columns(
                    t,
                    self.s(),
                    seed@,
                    target@,
                    b,
                    out.deep_view(),
                ),
            decreases self.tokens@.len() - self.at,
        {
            let c = self.graph_column(seed, target, edge)?;
            let ghost before = out.deep_view();
            out.push(c);
            assert(out.deep_view() =~= before.push(c.deep_view()));
            if !self.eat(Sym::Comma) {
                return Ok(out);
            }
        }
    }
}

// ── the pattern ──────────────────────────────────────────────────────────

/// The starting node: its variable, its collection and its key.
pub struct SeedV {
    pub variable: Seq<char>,
    pub collection: Seq<char>,
    pub key: LiteralV,
}

/// The starting node.
#[derive(Debug)]
pub struct Seed {
    pub variable: String,
    pub collection: String,
    pub key: Literal,
}

impl DeepView for Seed {
    type V = SeedV;

    open spec fn deep_view(&self) -> SeedV {
        SeedV {
            variable: self.variable@,
            collection: self.collection@,
            key: self.key.deep_view(),
        }
    }
}

pub open spec fn no_start(variable: Seq<char>, collection: Seq<char>) -> SqlErrorV {
    let element = variable + ":"@ + collection;
    SqlErrorV::Unsupported(
        "GRAPH_TABLE ("@ + element
            + ") has no starting key. A pattern starts at ONE row named by its key -- `("@ + element
            + " WHERE "@ + (variable
            + "._key = '...')` -- and walks out from it; starting at every row of `"@ + collection
            + "` would read the whole table, which sekejap does not do silently (QL_CONTRACT §6)"@),
    )
}

pub open spec fn inline_where(reason: Seq<char>) -> SqlErrorV {
    SqlErrorV::Refused { keyword: "inline element WHERE"@, tier: Tier::Two, reason }
}

/// `(variable:collection WHERE variable._key = key)`.
#[verifier::opaque]
pub open spec fn seed_element(t: Seq<TokenV>, s: int, d: nat) -> Result<(SeedV, int), SqlErrorV> {
    match want(t, s, Sym::LParen) {
        Err(e) => Err(e),
        Ok(s) => match name(t, s) {
            Err(e) => Err(e),
            Ok((variable, s)) => match element_label(t, s) {
                Err(e) => Err(e),
                Ok((collection, s)) => if !is_word(t, s, "WHERE"@) {
                    Err(no_start(variable, collection))
                } else {
                    match name(t, next(t, s)) {
                        Err(e) => Err(e),
                        Ok((field, s)) => if field != KEY_COLUMN@ {
                            Err(
                                inline_where(
                                    "QL_CONTRACT §4.3 and §5 deviation 2: an inline element WHERE prunes per hop (GRAPH_CONTRACT 4.3). Only a key equality seeds a traversal in this slice; any other inline predicate is the per-hop prune, which is Tier 2."@,
                                ),
                            )
                        } else {
                            match want(t, s, Sym::Eq) {
                                Err(e) => Err(e),
                                Ok(s) => match literal(t, s, d) {
                                    Err(e) => Err(e),
                                    Ok((key, s)) => if is_word(t, s, "AND"@) {
                                        Err(
                                            inline_where(
                                                "QL_CONTRACT §4.3 and §5 deviation 2: an inline element WHERE prunes per hop (GRAPH_CONTRACT 4.3). Only a key equality seeds in this slice."@,
                                            ),
                                        )
                                    } else {
                                        match want(t, s, Sym::RParen) {
                                            Err(e) => Err(e),
                                            Ok(s) => Ok((SeedV { variable, collection, key }, s)),
                                        }
                                    },
                                },
                            }
                        },
                    }
                },
            },
        },
    }
}

/// The far node: its variable, its collection and its predicates.
pub struct TargetV {
    pub variable: Seq<char>,
    pub collection: Seq<char>,
    pub predicates: Seq<PredicateV>,
}

/// The far node.
#[derive(Debug)]
pub struct Target {
    pub variable: String,
    pub collection: String,
    pub predicates: Vec<Predicate>,
}

impl DeepView for Target {
    type V = TargetV;

    open spec fn deep_view(&self) -> TargetV {
        TargetV {
            variable: self.variable@,
            collection: self.collection@,
            predicates: self.predicates.deep_view(),
        }
    }
}

/// `(variable:collection [WHERE predicates])`.
#[verifier::opaque]
pub open spec fn target_element(t: Seq<TokenV>, s: int, d: nat) -> Result<(TargetV, int), SqlErrorV> {
    match want(t, s, Sym::LParen) {
        Err(e) => Err(e),
        Ok(s) => match name(t, s) {
            Err(e) => Err(e),
            Ok((variable, s)) => match element_label(t, s) {
                Err(e) => Err(e),
                Ok((collection, s)) => match if is_word(t, s, "WHERE"@) { conjunction(t, next(t, s), d, Seq::empty()) } else { Ok((Seq::empty(), s)) } {
                    Err(e) => Err(e),
                    Ok((predicates, s)) => match want(t, s, Sym::RParen) {
                        Err(e) => Err(e),
                        Ok(s) => Ok((TargetV { variable, collection, predicates }, s)),
                    },
                },
            },
        },
    }
}

/// `GRAPH_TABLE (context MATCH`, with no path mode behind it.
#[verifier::opaque]
pub open spec fn graph_head(t: Seq<TokenV>, s: int) -> Result<(Seq<char>, int), SqlErrorV> {
    match want_word(t, s, "GRAPH_TABLE"@) {
        Err(e) => Err(e),
        Ok(s) => match want(t, s, Sym::LParen) {
            Err(e) => Err(e),
            Ok(s) => match name(t, s) {
                Err(e) => Err(e),
                Ok((context, s)) => match want_word(t, s, "MATCH"@) {
                    Err(e) => Err(e),
                    Ok(s) => match guard_here(t, s) {
                        Err(e) => Err(e),
                        Ok(s) => if is_word(t, s, "ANY"@) || is_word(t, s, "ALL"@) || is_word(t, s, "SHORTEST"@) {
                            Err(refusal("ANY SHORTEST"@))
                        } else {
                            Ok((context, s))
                        },
                    },
                },
            },
        },
    }
}

/// A whole pattern.
#[verifier::opaque]
pub open spec fn graph_table(t: Seq<TokenV>, s: int, d: nat) -> Result<(GraphTableV, int), SqlErrorV> {
    match graph_head(t, s) {
        Err(e) => Err(e),
        Ok((context, s)) => match seed_element(t, s, d) {
            Err(e) => Err(e),
            Ok((seed, s)) => match graph_hop(t, s, d) {
                Err(e) => Err(e),
                Ok((hop, s)) => match target_element(t, s, d) {
                    Err(e) => Err(e),
                    Ok((target, s)) => match want_word(t, s, "COLUMNS"@) {
                        Err(e) => Err(e),
                        Ok(s) => match want(t, s, Sym::LParen) {
                            Err(e) => Err(e),
                            Ok(s) => match graph_columns(t, s, seed.variable, target.variable, hop.1, Seq::empty()) {
                                Err(e) => Err(e),
                                Ok((columns, s)) => match want(t, s, Sym::RParen) {
                                    Err(e) => Err(e),
                                    Ok(s) => match want(t, s, Sym::RParen) {
                                        Err(e) => Err(e),
                                        Ok(s) => {
                                            Ok((GraphTableV { context, seed_collection: seed.collection, seed_key: seed.key, hop: hop.0, target_collection: target.collection, node_predicates: target.predicates, columns }, s))
                                        }
                                    },
                                },
                            },
                        },
                    },
                },
            },
        },
    }
}

impl Parser {
    fn seed_element(&mut self) -> (r: Result<Seed, SqlError>)
        requires
            old(self).ok(),
        ensures
            parsed(r, *old(self), *final(self), seed_element(old(self).t(), old(self).s(), old(self).d())),
    {
        proof {
            reveal(seed_element);
        }
        self.expect(Sym::LParen)?;
        let variable = self.name()?;
        let collection = self.element_label()?;
        if !self.eat_word("WHERE") {
            let element = cat3(variable.as_str(), ":", collection.as_str());
            let tail = cat4(
                variable.as_str(),
                "._key = '...')` -- and walks out from it; starting at every row of `",
                collection.as_str(),
                "` would read the whole table, which sekejap does not do silently (QL_CONTRACT §6)",
            );
            return Err(
                SqlError::unsupported(
                    cat6(
                        "GRAPH_TABLE (",
                        element.as_str(),
                        ") has no starting key. A pattern starts at ONE row named by its key -- `(",
                        element.as_str(),
                        " WHERE ",
                        tail.as_str(),
                    ).as_str(),
                ),
            );
        }
        let field = self.name()?;
        if !same(field.as_str(), KEY_COLUMN) {
            return Err(
                SqlError::Refused {
                    keyword: owned("inline element WHERE"),
                    tier: Tier::Two,
                    reason: owned(
                        "QL_CONTRACT §4.3 and §5 deviation 2: an inline element WHERE prunes per hop (GRAPH_CONTRACT 4.3). Only a key equality seeds a traversal in this slice; any other inline predicate is the per-hop prune, which is Tier 2.",
                    ),
                },
            );
        }
        self.expect(Sym::Eq)?;
        let key = self.literal()?;
        if self.at_word("AND") {
            return Err(
                SqlError::Refused {
                    keyword: owned("inline element WHERE"),
                    tier: Tier::Two,
                    reason: owned(
                        "QL_CONTRACT §4.3 and §5 deviation 2: an inline element WHERE prunes per hop (GRAPH_CONTRACT 4.3). Only a key equality seeds in this slice.",
                    ),
                },
            );
        }
        self.expect(Sym::RParen)?;
        Ok(Seed { variable, collection, key })
    }

    fn target_element(&mut self) -> (r: Result<Target, SqlError>)
        requires
            old(self).ok(),
        ensures
            parsed(
                r,
                *old(self),
                *final(self),
                target_element(old(self).t(), old(self).s(), old(self).d()),
            ),
    {
        proof {
            reveal(target_element);
        }
        self.expect(Sym::LParen)?;
        let variable = self.name()?;
        let collection = self.element_label()?;
        let predicates = if self.eat_word("WHERE") {
            self.conjunction()?
        } else {
            let none: Vec<Predicate> = Vec::new();
            assert(none.deep_view() =~= Seq::<PredicateV>::empty());
            none
        };
        self.expect(Sym::RParen)?;
        Ok(Target { variable, collection, predicates })
    }

    fn graph_head(&mut self) -> (r: Result<String, SqlError>)
        requires
            old(self).ok(),
        ensures
            reads(r, *old(self), *final(self), graph_head(old(self).t(), old(self).s())),
    {
        proof {
            reveal(graph_head);
        }
        self.expect_word("GRAPH_TABLE")?;
        self.expect(Sym::LParen)?;
        let context = self.name()?;
        self.expect_word("MATCH")?;
        self.guard_here()?;
        if self.at_word("ANY") || self.at_word("ALL") || self.at_word("SHORTEST") {
            return Err(refuse("ANY SHORTEST"));
        }
        Ok(context)
    }

    /// A whole pattern.
    pub fn graph_table(&mut self) -> (r: Result<GraphTable, SqlError>)
        requires
            old(self).ok(),
        ensures
            parsed(r, *old(self), *final(self), graph_table(old(self).t(), old(self).s(), old(self).d())),
    {
        proof {
            reveal(graph_table);
        }
        let context = self.graph_head()?;
        let seed = self.seed_element()?;
        let (hop, edge) = self.graph_hop()?;
        let target = self.target_element()?;
        self.expect_word("COLUMNS")?;
        self.expect(Sym::LParen)?;
        let columns = self.graph_columns(seed.variable.as_str(), target.variable.as_str(), &edge)?;
        self.expect(Sym::RParen)?;
        self.expect(Sym::RParen)?;
        Ok(
            GraphTable {
                context,
                seed_collection: seed.collection,
                seed_key: seed.key,
                hop,
                target_collection: target.collection,
                node_predicates: target.predicates,
                columns,
            },
        )
    }
}

} // verus!
