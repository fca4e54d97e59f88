//! The tokens of a statement.

use vstd::prelude::*;
use crate::number::{Real, RealV};
use crate::text::{ascii_upper, cat2, cat3, decimal, decimal_usize, owned, upper};

verus! {

/// A mark or an operator.
#[derive(Clone, Copy, Debug, PartialEq, Eq, Structural)]
pub enum Sym {
    LParen,
    RParen,
    LBracket,
    RBracket,
    LBrace,
    RBrace,
    Comma,
    Dot,
    Semicolon,
    Colon,
    Cast,
    Star,
    Plus,
    Minus,
    Slash,
    Eq,
    Ne,
    Lt,
    Le,
    Gt,
    Ge,
    Concat,
    Pipe,
    Question,
    Matches,
    Overlaps,
    ContainsOp,
    Arrow,
    LongArrow,
    HashArrow,
    HashLongArrow,
    BackArrow,
    VecCosine,
    VecL2,
    VecDot,
    VecL1,
    Tilde,
}

/// One token.
#[derive(Debug)]
pub enum Tok {
    Word(String),
    /// A name in double quotes, which is never a keyword.
    Quoted(String),
    Str(String),
    /// A number, and whether it was written without a fraction or an exponent.
    Num(Real, bool),
    /// `$n`.
    Param(usize),
    Sym(Sym),
    Eof,
}

pub enum TokV {
    Word(Seq<char>),
    Quoted(Seq<char>),
    Str(Seq<char>),
    Num(RealV, bool),
    Param(usize),
    Sym(Sym),
    Eof,
}

impl DeepView for Tok {
    type V = TokV;

    open spec fn deep_view(&self) -> TokV {
        match *self {
            Tok::Word(w) => TokV::Word(w@),
            Tok::Quoted(w) => TokV::Quoted(w@),
            Tok::Str(s) => TokV::Str(s@),
            Tok::Num(n, exact) => TokV::Num(n.deep_view(), exact),
            Tok::Param(n) => TokV::Param(n),
            Tok::Sym(x) => TokV::Sym(x),
            Tok::Eof => TokV::Eof,
        }
    }
}

/// A token and where it begins.
#[derive(Debug)]
pub struct Token {
    pub tok: Tok,
    pub at: usize,
}

pub struct TokenV {
    pub tok: TokV,
    pub at: usize,
}

impl DeepView for Token {
    type V = TokenV;

    open spec fn deep_view(&self) -> TokenV {
        TokenV { tok: self.tok.deep_view(), at: self.at }
    }
}

/// A mark as it is spelled.
pub open spec fn sym_text(x: Sym) -> Seq<char> {
    match x {
        Sym::LParen => "("@,
        Sym::RParen => ")"@,
        Sym::LBracket => "["@,
        Sym::RBracket => "]"@,
        Sym::LBrace => "{"@,
        Sym::RBrace => "}"@,
        Sym::Comma => ","@,
        Sym::Dot => "."@,
        Sym::Semicolon => ";"@,
        Sym::Colon => ":"@,
        Sym::Cast => "::"@,
        Sym::Star => "*"@,
        Sym::Plus => "+"@,
        Sym::Minus => "-"@,
        Sym::Slash => "/"@,
        Sym::Eq => "="@,
        Sym::Ne => "<>"@,
        Sym::Lt => "<"@,
        Sym::Le => "<="@,
        Sym::Gt => ">"@,
        Sym::Ge => ">="@,
        Sym::Concat => "||"@,
        Sym::Pipe => "|"@,
        Sym::Question => "?"@,
        Sym::Matches => "@@"@,
        Sym::Overlaps => "&&"@,
        Sym::ContainsOp => "@>"@,
        Sym::Arrow => "->"@,
        Sym::LongArrow => "->>"@,
        Sym::HashArrow => "#>"@,
        Sym::HashLongArrow => "#>>"@,
        Sym::BackArrow => "<-"@,
        Sym::VecCosine => "<=>"@,
        Sym::VecL2 => "<->"@,
        Sym::VecDot => "<#>"@,
        Sym::VecL1 => "<+>"@,
        Sym::Tilde => "~"@,
    }
}

fn written_sym(x: Sym) -> (r: &'static str)
    ensures
        r@ == sym_text(x),
{
    match x {
        Sym::LParen => "(",
        Sym::RParen => ")",
        Sym::LBracket => "[",
        Sym::RBracket => "]",
        Sym::LBrace => "{",
        Sym::RBrace => "}",
        Sym::Comma => ",",
        Sym::Dot => ".",
        Sym::Semicolon => ";",
        Sym::Colon => ":",
        Sym::Cast => "::",
        Sym::Star => "*",
        Sym::Plus => "+",
        Sym::Minus => "-",
        Sym::Slash => "/",
        Sym::Eq => "=",
        Sym::Ne => "<>",
        Sym::Lt => "<",
        Sym::Le => "<=",
        Sym::Gt => ">",
        Sym::Ge => ">=",
        Sym::Concat => "||",
        Sym::Pipe => "|",
        Sym::Question => "?",
        Sym::Matches => "@@",
        Sym::Overlaps => "&&",
        Sym::ContainsOp => "@>",
        Sym::Arrow => "->",
        Sym::LongArrow => "->>",
        Sym::HashArrow => "#>",
        Sym::HashLongArrow => "#>>",
        Sym::BackArrow => "<-",
        Sym::VecCosine => "<=>",
        Sym::VecL2 => "<->",
        Sym::VecDot => "<#>",
        Sym::VecL1 => "<+>",
        Sym::Tilde => "~",
    }
}

/// A token as a statement would spell it.
pub open spec fn tok_text(t: TokV) -> Seq<char> {
    match t {
        TokV::Word(w) => w,
        TokV::Quoted(w) => "\""@ + w + "\""@,
        TokV::Str(s) => "'"@ + s + "'"@,
        TokV::Num(n, _) => n.shown,
        TokV::Param(n) => "$"@ + decimal(n as int),
        TokV::Sym(x) => sym_text(x),
        TokV::Eof => "end of statement"@,
    }
}

/// The upper-cased word that a token is, if it is a bare word.
pub open spec fn keyword_of(t: TokV) -> Option<Seq<char>> {
    match t {
        TokV::Word(w) => Some(upper(w)),
        _ => None,
    }
}

impl Tok {
    /// The token as a statement would spell it.
    pub fn written(&self) -> (r: String)
        ensures
            r@ == tok_text(self.deep_view()),
    {
        match self {
            Tok::Word(w) => owned(w.as_str()),
            Tok::Quoted(w) => cat3("\"", w.as_str(), "\""),
            Tok::Str(s) => cat3("'", s.as_str(), "'"),
            Tok::Num(n, _) => owned(n.shown.as_str()),
            Tok::Param(n) => cat2("$", decimal_usize(*n).as_str()),
            Tok::Sym(x) => owned(written_sym(*x)),
            Tok::Eof => owned("end of statement"),
        }
    }

    /// The upper-cased word, if the token is a bare word.
    pub fn keyword(&self) -> (r: Option<String>)
        ensures
            match r {
                Some(w) => keyword_of(self.deep_view()) == Some(w@),
                None => keyword_of(self.deep_view()) is None,
            },
    {
        match self {
            Tok::Word(w) => Some(ascii_upper(w.as_str())),
            _ => None,
        }
    }

    /// A copy.
    pub fn dup(&self) -> (r: Tok)
        ensures
            r.deep_view() == self.deep_view(),
    {
        match self {
            Tok::Word(w) => Tok::Word(w.clone()),
            Tok::Quoted(w) => Tok::Quoted(w.clone()),
            Tok::Str(s) => Tok::Str(s.clone()),
            Tok::Num(n, exact) => Tok::Num(n.dup(), *exact),
            Tok::Param(n) => Tok::Param(*n),
            Tok::Sym(x) => Tok::Sym(*x),
            Tok::Eof => Tok::Eof,
        }
    }
}

} // verus!
