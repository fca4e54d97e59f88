//! What compiling a statement says on the side: notices for the caller, lines
//! for EXPLAIN, and why the plan cannot be bound again.

use vstd::prelude::*;
use crate::ast::{literal_text, Literal, LiteralV};
use crate::compile::bind::{is_bound, literal_is_bound, Binder, BinderV};
use crate::error::{SqlError, SqlErrorV};
use crate::lists::mapped_push;
use crate::text::{cat3, owned, texts};

verus! {

/// The `search()` predicates of a statement, as far as `search_score()` is
/// concerned.
#[derive(Debug)]
pub enum SearchLeaf {
    Absent,
    One { index: u64, query: String },
    Several,
}

pub enum SearchLeafV {
    Absent,
    One { index: u64, query: Seq<char> },
    Several,
}

impl DeepView for SearchLeaf {
    type V = SearchLeafV;

    open spec fn deep_view(&self) -> SearchLeafV {
        match *self {
            SearchLeaf::Absent => SearchLeafV::Absent,
            SearchLeaf::One { index, query } => SearchLeafV::One { index, query: query@ },
            SearchLeaf::Several => SearchLeafV::Several,
        }
    }
}

/// The record of one compilation.
#[derive(Debug)]
pub struct Log {
    pub notices: Vec<String>,
    /// One line for each function of the `WHERE` that became an index range.
    pub rewrites: Vec<String>,
    /// One line for each row function of the select list.
    pub row_functions: Vec<String>,
    /// Why the plan cannot be bound to new parameters; empty when it can.
    pub refusals: Vec<String>,
    pub search: SearchLeaf,
}

pub struct LogV {
    pub notices: Seq<Seq<char>>,
    pub rewrites: Seq<Seq<char>>,
    pub row_functions: Seq<Seq<char>>,
    pub refusals: Seq<Seq<char>>,
    pub search: SearchLeafV,
}

impl DeepView for Log {
    type V = LogV;

    open spec fn deep_view(&self) -> LogV {
        LogV {
            notices: texts(self.notices@),
            rewrites: texts(self.rewrites@),
            row_functions: texts(self.row_functions@),
            refusals: texts(self.refusals@),
            search: self.search.deep_view(),
        }
    }
}

impl LogV {
    pub open spec fn noted(self, text: Seq<char>) -> LogV {
        LogV { notices: self.notices.push(text), ..self }
    }

    pub open spec fn rewrote(self, text: Seq<char>) -> LogV {
        LogV { rewrites: self.rewrites.push(text), ..self }
    }

    pub open spec fn listed(self, text: Seq<char>) -> LogV {
        LogV { row_functions: self.row_functions.push(text), ..self }
    }

    pub open spec fn refused(self, text: Seq<char>) -> LogV {
        LogV { refusals: self.refusals.push(text), ..self }
    }

    /// A written value was folded into the plan: a value that can change from
    /// one bind to the next makes the plan one that cannot be bound again.
    pub open spec fn folded(self, l: LiteralV, what: Seq<char>) -> LogV {
        if is_bound(l) {
            self.refused(literal_text(l) + " is folded into "@ + what)
        } else {
            self
        }
    }

    pub open spec fn searched(self, index: u64, query: Seq<char>) -> LogV {
        LogV {
            search: match self.search {
                SearchLeafV::Absent => SearchLeafV::One { index, query },
                _ => SearchLeafV::Several,
            },
            ..self
        }
    }
}

impl Log {
    pub fn new() -> (r: Log)
        ensures
            r.deep_view() == (LogV {
                notices: Seq::empty(),
                rewrites: Seq::empty(),
                row_functions: Seq::empty(),
                refusals: Seq::empty(),
                search: SearchLeafV::Absent,
            }),
    {
        let r = Log {
            notices: Vec::new(),
            rewrites: Vec::new(),
            row_functions: Vec::new(),
            refusals: Vec::new(),
            search: SearchLeaf::Absent,
        };
        assert(texts(r.notices@) =~= Seq::<Seq<char>>::empty());
        r
    }

    pub fn note(&mut self, text: String)
        ensures
            final(self).deep_view() == old(self).deep_view().noted(text@),
    {
        proof {
            mapped_push(self.notices@, text, |s: String| s@);
        }
        self.notices.push(text);
    }

    pub fn rewrite(&mut self, text: String)
        ensures
            final(self).deep_view() == old(self).deep_view().rewrote(text@),
    {
        proof {
            mapped_push(self.rewrites@, text, |s: String| s@);
        }
        self.rewrites.push(text);
    }

    pub fn list(&mut self, text: String)
        ensures
            final(self).deep_view() == old(self).deep_view().listed(text@),
    {
        proof {
            mapped_push(self.row_functions@, text, |s: String| s@);
        }
        self.row_functions.push(text);
    }

    /// Records why the plan cannot be bound again.
    pub fn folds_reason(&mut self, text: String)
        ensures
            final(self).deep_view() == old(self).deep_view().refused(text@),
    {
        proof {
            mapped_push(self.refusals@, text, |s: String| s@);
        }
        self.refusals.push(text);
    }

    /// Records that a written value was folded into the plan.
    pub fn folds(&mut self, literal: &Literal, what: &str)
        ensures
            final(self).deep_view() == old(self).deep_view().folded(literal.deep_view(), what@),
    {
        if literal_is_bound(literal) {
            self.folds_reason(cat3(literal.written().as_str(), " is folded into ", what));
        }
    }

    pub fn searched(&mut self, index: u64, query: &str)
        ensures
            final(self).deep_view() == old(self).deep_view().searched(index, query@),
    {
        let next = match &self.search {
            SearchLeaf::Absent => SearchLeaf::One { index, query: owned(query) },
            _ => SearchLeaf::Several,
        };
        self.search = next;
    }
}

/// Whether `r` and the log behind it are the outcome `want`.
pub open spec fn logged<T: DeepView>(
    r: Result<T, SqlError>,
    log: Log,
    want: Result<(T::V, LogV), SqlErrorV>,
) -> bool {
    match want {
        Ok((v, l)) => r is Ok && r->Ok_0.deep_view() == v && log.deep_view() == l,
        Err(e) => r is Err && r->Err_0.deep_view() == e,
    }
}

// ── what a semi-join read ────────────────────────────────────────────────

/// One projected cell of a semi-join's inner rows.
#[derive(Clone, Copy, Debug, PartialEq, Eq, Structural)]
pub enum SemiCell {
    /// `NULL` or absent: it names no outer row.
    Nothing,
    /// Text: the sequence of the outer row at that key, where there is one.
    Key(Option<u64>),
    Bool,
    Number,
    Array,
    Object,
}

/// The rows one semi-join names: the sequences of an edge type's endpoints, or
/// the pages of a collection's projected column.
#[derive(Debug)]
pub struct SemiFound {
    pub table: String,
    pub column: String,
    pub endpoints: Vec<u64>,
    pub pages: Vec<Vec<SemiCell>>,
}

pub struct SemiFoundV {
    pub table: Seq<char>,
    pub column: Seq<char>,
    pub endpoints: Seq<u64>,
    pub pages: Seq<Seq<SemiCell>>,
}

impl DeepView for SemiCell {
    type V = SemiCell;

    open spec fn deep_view(&self) -> SemiCell {
        *self
    }
}

impl DeepView for SemiFound {
    type V = SemiFoundV;

    open spec fn deep_view(&self) -> SemiFoundV {
        SemiFoundV {
            table: self.table@,
            column: self.column@,
            endpoints: self.endpoints@,
            pages: self.pages.deep_view(),
        }
    }
}

/// What a statement is compiled with: the values it can read, one instant for
/// the whole statement, the session's shortlist width, and what its semi-joins
/// read.
pub struct Env<'a> {
    pub binder: Binder<'a>,
    pub clock: i64,
    pub ef_search: Option<usize>,
    pub semi: &'a Vec<SemiFound>,
}

pub struct EnvV {
    pub binder: BinderV,
    pub clock: i64,
    pub ef_search: Option<usize>,
    pub semi: Seq<SemiFoundV>,
}

impl<'a> DeepView for Env<'a> {
    type V = EnvV;

    open spec fn deep_view(&self) -> EnvV {
        EnvV {
            binder: self.binder.deep_view(),
            clock: self.clock,
            ef_search: self.ef_search,
            semi: self.semi.deep_view(),
        }
    }
}

} // verus!
