//! What a statement is refused with.

use vstd::prelude::*;
use crate::text::owned;

verus! {

/// How far a refused construct is from the language: the second tier is
/// planned, the third is not.
#[derive(Clone, Copy, Debug, PartialEq, Eq, Structural)]
pub enum Tier {
    Two,
    Three,
}

/// An error, with the text a client is shown.
#[derive(Debug)]
pub enum SqlError {
    /// A construct the language names and does not have.
    Refused { keyword: String, tier: Tier, reason: String },
    /// The statement does not parse; `at` is the position in its text.
    Syntax { message: String, at: usize },
    /// A shape that no operation of the database answers.
    Unsupported(String),
    /// The statement names something the database does not hold.
    Engine(String),
    /// A bound or written value of the wrong kind.
    Parameter(String),
}

/// The mathematical view of a [`SqlError`].
pub enum SqlErrorV {
    Refused { keyword: Seq<char>, tier: Tier, reason: Seq<char> },
    Syntax { message: Seq<char>, at: usize },
    Unsupported(Seq<char>),
    Engine(Seq<char>),
    Parameter(Seq<char>),
}

impl DeepView for SqlError {
    type V = SqlErrorV;

    open spec fn deep_view(&self) -> SqlErrorV {
        match *self {
            SqlError::Refused { keyword, tier, reason } => SqlErrorV::Refused {
                keyword: keyword@,
                tier,
                reason: reason@,
            },
            SqlError::Syntax { message, at } => SqlErrorV::Syntax { message: message@, at },
            SqlError::Unsupported(text) => SqlErrorV::Unsupported(text@),
            SqlError::Engine(text) => SqlErrorV::Engine(text@),
            SqlError::Parameter(text) => SqlErrorV::Parameter(text@),
        }
    }
}

/// What a function of the library returns.
pub type SqlResult2<T> = Result<T, SqlError>;

/// Whether `r` is the outcome `want`, compared by what both hold.
pub open spec fn gives<T: DeepView>(r: Result<T, SqlError>, want: Result<T::V, SqlErrorV>) -> bool {
    match want {
        Ok(v) => r is Ok && r->Ok_0.deep_view() == v,
        Err(e) => r is Err && r->Err_0.deep_view() == e,
    }
}

impl SqlError {
    pub fn syntax(message: &str, at: usize) -> (r: SqlError)
        ensures
            r.deep_view() == (SqlErrorV::Syntax { message: message@, at }),
    {
        SqlError::Syntax { message: owned(message), at }
    }

    pub fn unsupported(message: &str) -> (r: SqlError)
        ensures
            r.deep_view() == SqlErrorV::Unsupported(message@),
    {
        SqlError::Unsupported(owned(message))
    }

    pub fn engine(message: &str) -> (r: SqlError)
        ensures
            r.deep_view() == SqlErrorV::Engine(message@),
    {
        SqlError::Engine(owned(message))
    }

    pub fn parameter(message: &str) -> (r: SqlError)
        ensures
            r.deep_view() == SqlErrorV::Parameter(message@),
    {
        SqlError::Parameter(owned(message))
    }

    pub fn refused(keyword: &str, tier: Tier, reason: &str) -> (r: SqlError)
        ensures
            r.deep_view() == (SqlErrorV::Refused { keyword: keyword@, tier, reason: reason@ }),
    {
        SqlError::Refused { keyword: owned(keyword), tier, reason: owned(reason) }
    }
}

} // verus!
