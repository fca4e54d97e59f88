//! The definition that `SHOW CREATE TABLE` writes for an index, read back.

use vstd::prelude::*;
use crate::compile::env::{IndexExprV, IndexFamily, IndexInfoV};
use crate::error::SqlErrorV;
use crate::parser::cursor::{
    is_sym, is_word, listed, name, name_part, name_parts, tok, want, want_word,
};
use crate::parser::define::{
    create, create_index, gin_target, index_expression, index_target, using_index, vector_opclass,
};
use crate::parser::types::spelt;
use crate::parser::value::simple_config;
use crate::refuse::looked_up;
use crate::stmt::{IndexMethodV, StmtV};
use crate::text::{lower, upper};
use crate::token::{Sym, TokV, TokenV};

verus! {

/// Whether a word is a name wherever it stands.
pub open spec fn is_free(w: Seq<char>) -> bool {
    &&& looked_up(upper(w)) is None
    &&& upper(w) != "ANY"@
    &&& upper(w) != "ALL"@
    &&& upper(w) != "SIMILAR"@
    &&& upper(w) != "GROUPING"@
    &&& upper(w) != "AT"@
}

/// The method of an index and its target, as tokens.
pub open spec fn method_tokens(i: IndexInfoV) -> Seq<TokV> {
    let field = TokV::Word(i.field);
    let open = TokV::Sym(Sym::LParen);
    let close = TokV::Sym(Sym::RParen);
    match i.family {
        IndexFamily::Scalar => if i.expression == Some(IndexExprV::Lower) {
            seq![TokV::Word("btree"@), open, TokV::Word("lower"@), open, field, close, close]
        } else {
            seq![TokV::Word("btree"@), open, field, close]
        },
        IndexFamily::Text => seq![
            TokV::Word("gin"@),
            open,
            TokV::Word("to_tsvector"@),
            open,
            TokV::Str("simple"@),
            TokV::Sym(Sym::Comma),
            field,
            close,
            close,
        ],
        IndexFamily::SpatialPoint | IndexFamily::SpatialGeometry => seq![
            TokV::Word("gist"@),
            open,
            field,
            close,
        ],
        IndexFamily::ExactVector => seq![TokV::Word("exact"@), open, field, close],
        IndexFamily::QuantizedVector => seq![
            TokV::Word("quantized"@),
            open,
            field,
            TokV::Word("vector_cosine_ops"@),
            close,
        ],
        IndexFamily::VamanaGraph => seq![TokV::Word("vamana"@), open, field, close],
    }
}

/// The definition of an index, as tokens.
pub open spec fn index_tokens(table: Seq<char>, i: IndexInfoV) -> Seq<TokV> {
    seq![
        TokV::Word("CREATE"@),
        TokV::Word("INDEX"@),
        TokV::Word(i.name),
        TokV::Word("ON"@),
        TokV::Word(table),
        TokV::Word("USING"@),
    ] + method_tokens(i)
}

/// What a statement asks for that would make an index again.
pub open spec fn method_meant(i: IndexInfoV) -> IndexMethodV {
    match i.family {
        IndexFamily::Scalar => if i.expression == Some(IndexExprV::Lower) {
            IndexMethodV::LowerBtree(i.field)
        } else {
            IndexMethodV::Btree(i.field)
        },
        IndexFamily::Text => IndexMethodV::Gin(i.field),
        IndexFamily::SpatialPoint | IndexFamily::SpatialGeometry => IndexMethodV::Gist(i.field),
        IndexFamily::ExactVector => IndexMethodV::Exact(i.field),
        _ => IndexMethodV::Quantized { column: i.field, alias: None },
    }
}

/// Whether a statement can ask for an index: its family has a method, and what
/// it is over is a column, or a column in lower case.
pub open spec fn has_statement(i: IndexInfoV) -> bool {
    &&& i.family != IndexFamily::VamanaGraph
    &&& i.expression is None || (i.expression == Some(IndexExprV::Lower) && i.family
        == IndexFamily::Scalar)
    &&& !i.unique
}

proof fn free_word_is_a_name(t: Seq<TokenV>, s: int, w: Seq<char>)
    requires
        is_free(w),
        0 <= s < t.len() - 1,
        tok(t, s) == TokV::Word(w),
        !is_sym(t, s + 1, Sym::Dot),
    ensures
        name(t, s) == Ok::<(Seq<char>, int), SqlErrorV>((w, s + 1)),
{
    reveal(listed);
    reveal(name_part);
    reveal(name);
    assert(name_parts(t, s, t[s].at, Seq::empty()) == Ok::<(Seq<Seq<char>>, int), SqlErrorV>(
        (Seq::empty().push(w), s + 1),
    ));
}

proof fn method_words()
    ensures
        upper("btree"@) == "BTREE"@,
        upper("lower"@) == "LOWER"@,
        upper("gin"@) == "GIN"@,
        upper("to_tsvector"@) == "TO_TSVECTOR"@,
        upper("gist"@) == "GIST"@,
        upper("exact"@) == "EXACT"@,
        upper("quantized"@) == "QUANTIZED"@,
        upper("vector_cosine_ops"@) == "VECTOR_COSINE_OPS"@,
{
    reveal_strlit("btree");
    reveal_strlit("BTREE");
    reveal_strlit("lower");
    reveal_strlit("LOWER");
    reveal_strlit("gin");
    reveal_strlit("GIN");
    reveal_strlit("to_tsvector");
    reveal_strlit("TO_TSVECTOR");
    reveal_strlit("gist");
    reveal_strlit("GIST");
    reveal_strlit("exact");
    reveal_strlit("EXACT");
    reveal_strlit("quantized");
    reveal_strlit("QUANTIZED");
    reveal_strlit("vector_cosine_ops");
    reveal_strlit("VECTOR_COSINE_OPS");
    assert(upper("btree"@) =~= "BTREE"@);
    assert(upper("lower"@) =~= "LOWER"@);
    assert(upper("gin"@) =~= "GIN"@);
    assert(upper("to_tsvector"@) =~= "TO_TSVECTOR"@);
    assert(upper("gist"@) =~= "GIST"@);
    assert(upper("exact"@) =~= "EXACT"@);
    assert(upper("quantized"@) =~= "QUANTIZED"@);
    assert(upper("vector_cosine_ops"@) =~= "VECTOR_COSINE_OPS"@);
}

proof fn methods_differ()
    ensures
        "GIN"@ != "BTREE"@,
        "GIST"@ != "BTREE"@,
        "GIST"@ != "GIN"@,
        "EXACT"@ != "BTREE"@,
        "EXACT"@ != "GIN"@,
        "EXACT"@ != "GIST"@,
        "EXACT"@ != "SPGIST"@,
        "QUANTIZED"@ != "BTREE"@,
        "QUANTIZED"@ != "GIN"@,
        "QUANTIZED"@ != "GIST"@,
        "QUANTIZED"@ != "SPGIST"@,
        "QUANTIZED"@ != "EXACT"@,
{
    reveal_strlit("BTREE");
    reveal_strlit("GIN");
    reveal_strlit("GIST");
    reveal_strlit("SPGIST");
    reveal_strlit("EXACT");
    reveal_strlit("QUANTIZED");
    assert("BTREE"@[0] == 'B' && "EXACT"@[0] == 'E');
    assert("GIN"@.len() == 3 && "GIST"@.len() == 4 && "BTREE"@.len() == 5);
    assert("EXACT"@.len() == 5 && "SPGIST"@.len() == 6 && "QUANTIZED"@.len() == 9);
}

proof fn method_reads_back(t: Seq<TokenV>, s: int, i: IndexInfoV)
    requires
        has_statement(i),
        is_free(i.field),
        spelt(t, s, method_tokens(i)),
        !is_word(t, s + method_tokens(i).len(), "WITH"@),
    ensures
        using_index(t, s, false) == Ok::<(IndexMethodV, int), SqlErrorV>(
            (method_meant(i), s + method_tokens(i).len()),
        ),
{
    reveal(using_index);
    reveal(index_target);
    reveal(index_expression);
    reveal(gin_target);
    reveal(vector_opclass);
    reveal(simple_config);
    reveal(want);
    reveal(want_word);
    method_words();
    methods_differ();
    let list = method_tokens(i);
    assert(tok(t, s + 0) == list[0]);
    assert(tok(t, s + 1) == list[1]);
    assert(tok(t, s + 2) == list[2]);
    assert(tok(t, s + 3) == list[3]);
    match i.family {
        IndexFamily::Scalar => {
            if i.expression == Some(IndexExprV::Lower) {
                assert(tok(t, s + 4) == list[4]);
                assert(tok(t, s + 5) == list[5]);
                assert(tok(t, s + 6) == list[6]);
                free_word_is_a_name(t, s + 4, i.field);
            } else {
                free_word_is_a_name(t, s + 2, i.field);
            }
        },
        IndexFamily::Text => {
            assert(tok(t, s + 4) == list[4]);
            assert(tok(t, s + 5) == list[5]);
            assert(tok(t, s + 6) == list[6]);
            assert(tok(t, s + 7) == list[7]);
            assert(tok(t, s + 8) == list[8]);
            free_word_is_a_name(t, s + 6, i.field);
        },
        IndexFamily::QuantizedVector => {
            assert(tok(t, s + 4) == list[4]);
            free_word_is_a_name(t, s + 2, i.field);
        },
        _ => {
            free_word_is_a_name(t, s + 2, i.field);
        },
    }
}

/// The definition that `SHOW CREATE TABLE` writes for an index that is not
/// unique, written as a statement, is read as the statement that makes an index
/// of that name, by that method, over that column of that table.
pub proof fn written_index_reads_back(
    t: Seq<TokenV>,
    s: int,
    table: Seq<char>,
    i: IndexInfoV,
    u: Seq<(Seq<char>, Seq<char>)>,
)
    requires
        has_statement(i),
        is_free(i.name),
        upper(i.name) != "CONCURRENTLY"@,
        is_free(table),
        is_free(i.field),
        spelt(t, s, index_tokens(table, i)),
        !is_word(t, s + index_tokens(table, i).len(), "WITH"@),
    ensures
        create(t, s, u) == Ok::<(StmtV, int), SqlErrorV>(
            (
                StmtV::CreateIndex { name: i.name, table, method: method_meant(i) },
                s + index_tokens(table, i).len(),
            ),
        ),
{
    reveal(create);
    reveal(create_index);
    reveal(want_word);
    reveal_strlit("CREATE");
    reveal_strlit("INDEX");
    reveal_strlit("ON");
    reveal_strlit("USING");
    reveal_strlit("SCHEMA");
    reveal_strlit("VIEW");
    reveal_strlit("MATERIALIZED");
    reveal_strlit("TRIGGER");
    reveal_strlit("PROPERTY");
    reveal_strlit("TABLE");
    reveal_strlit("UNIQUE");
    assert(upper("CREATE"@) =~= "CREATE"@);
    assert(upper("INDEX"@) =~= "INDEX"@);
    assert(upper("ON"@) =~= "ON"@);
    assert(upper("USING"@) =~= "USING"@);
    assert("INDEX"@[0] == 'I' && "TABLE"@[0] == 'T');
    assert("INDEX"@.len() == 5);
    let list = index_tokens(table, i);
    let rest = method_tokens(i);
    assert(tok(t, s + 0) == list[0]);
    assert(tok(t, s + 1) == list[1]);
    assert(tok(t, s + 2) == list[2]);
    assert(tok(t, s + 3) == list[3]);
    assert(tok(t, s + 4) == list[4]);
    assert(tok(t, s + 5) == list[5]);
    assert forall|k: int| 0 <= k < rest.len() implies tok(t, s + 6 + k) == #[trigger] rest[k] by {
        assert(tok(t, s + (6 + k)) == list[6 + k]);
    }
    free_word_is_a_name(t, s + 2, i.name);
    free_word_is_a_name(t, s + 4, table);
    method_reads_back(t, s + 6, i);
}

} // verus!
