//! From the tokens of a text to a plan.

use vstd::prelude::*;
use crate::catalog::snapshot::{Snapshot, SnapshotV};
use crate::compile::log::{logged, Env, EnvV, Log, LogV};
use crate::compile::statement::{compiled_of, Compiled, CompiledV};
use crate::error::{SqlError, SqlErrorV};
use crate::parser::sound::statement_compiles;
use crate::parser::statement::{parse, parsed_statement};
use crate::token::{Token, TokenV};

verus! {

/// The plan of the one statement that tokens write.
pub open spec fn prepared_of(
    env: EnvV,
    snap: SnapshotV,
    pid: u32,
    batch: usize,
    t: Seq<TokenV>,
    u: Seq<(Seq<char>, Seq<char>)>,
    log: LogV,
) -> Result<(CompiledV, LogV), SqlErrorV> {
    match parsed_statement(t, u) {
        Err(e) => Err(e),
        Ok(s) => compiled_of(env, snap, pid, batch, s, log),
    }
}

impl<'a> Env<'a> {
    /// The plan of the one statement that tokens write. The tokens end in the
    /// end of the statement.
    pub fn prepare(
        &self,
        snap: &Snapshot,
        pid: u32,
        batch: usize,
        tokens: Vec<Token>,
        refused: Vec<(String, String)>,
        log: &mut Log,
    ) -> (r: Result<Compiled, SqlError>)
        requires
            tokens@.len() > 0,
            tokens@.last().tok is Eof,
        ensures
            logged(
                r,
                *final(log),
                prepared_of(
                    self.deep_view(),
                    snap.deep_view(),
                    pid,
                    batch,
                    tokens.deep_view(),
                    refused.deep_view(),
                    old(log).deep_view(),
                ),
            ),
    {
        let s = parse(tokens, refused)?;
        proof {
            statement_compiles(tokens.deep_view(), refused.deep_view());
        }
        self.statement(snap, pid, batch, &s, log)
    }
}

} // verus!
