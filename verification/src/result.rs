//! What a statement answers.

use vstd::prelude::*;
use crate::text::texts;
use crate::value::{EntityId, SqlValue, SqlValueV};

verus! {

/// One row of an answer.
#[derive(Debug)]
pub struct SqlRow {
    pub id: EntityId,
    pub values: Vec<SqlValue>,
}

pub struct SqlRowV {
    pub id: EntityId,
    pub values: Seq<SqlValueV>,
}

impl DeepView for SqlRow {
    type V = SqlRowV;

    open spec fn deep_view(&self) -> SqlRowV {
        SqlRowV { id: self.id, values: self.values.deep_view() }
    }
}

/// What a statement answers: rows, how many rows it wrote, or a sentence.
#[derive(Debug)]
pub enum SqlResult {
    Rows { columns: Vec<String>, rows: Vec<SqlRow> },
    Affected(u64),
    Notice(String),
}

pub enum SqlResultV {
    Rows { columns: Seq<Seq<char>>, rows: Seq<SqlRowV> },
    Affected(u64),
    Notice(Seq<char>),
}

impl DeepView for SqlResult {
    type V = SqlResultV;

    open spec fn deep_view(&self) -> SqlResultV {
        match *self {
            SqlResult::Rows { columns, rows } => SqlResultV::Rows {
                columns: texts(columns@),
                rows: rows.deep_view(),
            },
            SqlResult::Affected(n) => SqlResultV::Affected(n),
            SqlResult::Notice(text) => SqlResultV::Notice(text@),
        }
    }
}

} // verus!
