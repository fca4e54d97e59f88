//! A type that the catalog reports can be written back.

use vstd::prelude::*;
use crate::ast::CmpOp;
use crate::error::SqlErrorV;
use crate::number::{nearest_bits, saturated_size, RealV};
use crate::parser::cursor::{tok, want, want_word};
use crate::parser::define::{
    column_type, default_generator, geometry_shape, geometry_type, no_arguments, refused_from, simple_type,
    uuid5_arguments, uuid_text, vector_size,
};
use crate::parser::predicate::numbers_hold;
use crate::parser::value::is_wgs84;
use crate::text::upper;
use crate::token::{Sym, TokV, TokenV};
use crate::value::{DefaultValueV, Kind};

verus! {

/// Whether a list of tokens stands at a place, with something behind it.
pub open spec fn spelt(t: Seq<TokenV>, s: int, list: Seq<TokV>) -> bool {
    &&& 0 <= s
    &&& s + list.len() < t.len()
    &&& forall|k: int| 0 <= k < list.len() ==> tok(t, s + k) == #[trigger] list[k]
}

/// The tokens of the spelling that `declared_of` gives a kind; `n` is the
/// number in it, where it has one.
pub open spec fn type_tokens(kind: Kind, n: RealV) -> Seq<TokV> {
    match kind {
        Kind::Text => seq![TokV::Word("TEXT"@)],
        Kind::Int => seq![TokV::Word("BIGINT"@)],
        Kind::Real => seq![TokV::Word("DOUBLE"@), TokV::Word("PRECISION"@)],
        Kind::Bool => seq![TokV::Word("BOOLEAN"@)],
        Kind::Json => seq![TokV::Word("JSONB"@)],
        Kind::Geo => seq![TokV::Word("GEOMETRY"@)],
        Kind::Point => seq![
            TokV::Word("GEOMETRY"@),
            TokV::Sym(Sym::LParen),
            TokV::Word("Point"@),
            TokV::Sym(Sym::Comma),
            TokV::Num(n, true),
            TokV::Sym(Sym::RParen),
        ],
        Kind::Vector(_) => seq![
            TokV::Word("VECTOR"@),
            TokV::Sym(Sym::LParen),
            TokV::Num(n, true),
            TokV::Sym(Sym::RParen),
        ],
    }
}

/// Whether `n` is the number in the spelling of a kind.
pub open spec fn type_number(kind: Kind, n: RealV) -> bool {
    match kind {
        Kind::Point => is_wgs84(TokV::Num(n, true)),
        Kind::Vector(size) => numbers_hold(CmpOp::Gt, n.bits, nearest_bits(0) as u64)
            && saturated_size(n.bits) == size,
        _ => true,
    }
}

proof fn words_are_capitals()
    ensures
        upper("TEXT"@) == "TEXT"@,
        upper("BIGINT"@) == "BIGINT"@,
        upper("DOUBLE"@) == "DOUBLE"@,
        upper("PRECISION"@) == "PRECISION"@,
        upper("BOOLEAN"@) == "BOOLEAN"@,
        upper("JSONB"@) == "JSONB"@,
        upper("GEOMETRY"@) == "GEOMETRY"@,
        upper("VECTOR"@) == "VECTOR"@,
        upper("Point"@) == "POINT"@,
{
    reveal_strlit("TEXT");
    reveal_strlit("BIGINT");
    reveal_strlit("DOUBLE");
    reveal_strlit("PRECISION");
    reveal_strlit("BOOLEAN");
    reveal_strlit("JSONB");
    reveal_strlit("GEOMETRY");
    reveal_strlit("VECTOR");
    reveal_strlit("Point");
    reveal_strlit("POINT");
    assert(upper("TEXT"@) =~= "TEXT"@);
    assert(upper("BIGINT"@) =~= "BIGINT"@);
    assert(upper("DOUBLE"@) =~= "DOUBLE"@);
    assert(upper("PRECISION"@) =~= "PRECISION"@);
    assert(upper("BOOLEAN"@) =~= "BOOLEAN"@);
    assert(upper("JSONB"@) =~= "JSONB"@);
    assert(upper("GEOMETRY"@) =~= "GEOMETRY"@);
    assert(upper("VECTOR"@) =~= "VECTOR"@);
    assert(upper("Point"@) =~= "POINT"@);
}

/// No long word is a simple type.
proof fn long_words()
    ensures
        simple_type("DOUBLE"@) is None,
        simple_type("GEOMETRY"@) is None,
        simple_type("VECTOR"@) is None,
        "GEOMETRY"@ != "DOUBLE"@,
        "GEOMETRY"@ != "TIMESTAMP"@,
        "VECTOR"@ != "DOUBLE"@,
        "VECTOR"@ != "TIMESTAMP"@,
        "VECTOR"@ != "GEOMETRY"@,
        "VECTOR"@ != "GEOGRAPHY"@,
{
    reveal_strlit("DOUBLE");
    reveal_strlit("GEOMETRY");
    reveal_strlit("VECTOR");
    reveal_strlit("TIMESTAMP");
    reveal_strlit("GEOGRAPHY");
    reveal_strlit("TEXT");
    reveal_strlit("VARCHAR");
    reveal_strlit("INT");
    reveal_strlit("INTEGER");
    reveal_strlit("INT4");
    reveal_strlit("SMALLINT");
    reveal_strlit("BIGINT");
    reveal_strlit("INT8");
    reveal_strlit("REAL");
    reveal_strlit("FLOAT4");
    reveal_strlit("BOOLEAN");
    reveal_strlit("BOOL");
    reveal_strlit("JSONB");
    reveal_strlit("JSON");
    reveal_strlit("TIMESTAMPTZ");
    reveal_strlit("DATE");
    assert("DOUBLE"@[0] == 'D' && "DOUBLE"@[1] == 'O');
    assert("DATE"@[1] == 'A');
    assert("GEOMETRY"@[0] == 'G');
    assert("GEOMETRY"@[3] == 'M');
    assert("VECTOR"@[0] == 'V' && "VECTOR"@[1] == 'E');
}

/// No two of the short words are one.
proof fn short_words()
    ensures
        simple_type("TEXT"@) is Some,
        (simple_type("TEXT"@)->0).0 == Kind::Text,
        simple_type("BIGINT"@) is Some,
        (simple_type("BIGINT"@)->0).0 == Kind::Int,
        simple_type("BOOLEAN"@) is Some,
        (simple_type("BOOLEAN"@)->0).0 == Kind::Bool,
        simple_type("JSONB"@) is Some,
        (simple_type("JSONB"@)->0).0 == Kind::Json,
{
    reveal_strlit("TEXT");
    reveal_strlit("VARCHAR");
    reveal_strlit("INT");
    reveal_strlit("INTEGER");
    reveal_strlit("INT4");
    reveal_strlit("SMALLINT");
    reveal_strlit("BIGINT");
    reveal_strlit("INT8");
    reveal_strlit("REAL");
    reveal_strlit("FLOAT4");
    reveal_strlit("BOOLEAN");
    reveal_strlit("BOOL");
    reveal_strlit("JSONB");
    assert("BOOLEAN"@[0] == 'B' && "BOOLEAN"@[1] == 'O' && "BIGINT"@[1] == 'I');
    assert("JSONB"@[0] == 'J');
    assert("TEXT"@[0] == 'T' && "VARCHAR"@[0] == 'V');
    assert("INT"@[0] == 'I' && "INTEGER"@[0] == 'I' && "INT4"@[0] == 'I' && "INT8"@[0] == 'I');
    assert("SMALLINT"@[0] == 'S' && "REAL"@[0] == 'R' && "FLOAT4"@[0] == 'F');
}

/// The type that the catalog reports for a kind, written in a statement, is
/// read as that kind.
pub proof fn reported_type_reads_back(t: Seq<TokenV>, s: int, kind: Kind, n: RealV)
    requires
        spelt(t, s, type_tokens(kind, n)),
        type_number(kind, n),
        tok(t, s + type_tokens(kind, n).len()) != TokV::Sym(Sym::LParen),
    ensures
        column_type(t, s) is Ok,
        (column_type(t, s)->Ok_0.0).0 == kind,
        column_type(t, s)->Ok_0.1 == s + type_tokens(kind, n).len(),
{
    reveal(column_type);
    reveal(want_word);
    reveal(want);
    reveal(geometry_shape);
    reveal(vector_size);
    words_are_capitals();
    long_words();
    short_words();
    let list = type_tokens(kind, n);
    assert(tok(t, s + 0) == list[0]);
    match kind {
        Kind::Real => {
            assert(tok(t, s + 1) == list[1]);
        },
        Kind::Point => {
            assert(tok(t, s + 1) == list[1]);
            assert(tok(t, s + 2) == list[2]);
            assert(tok(t, s + 3) == list[3]);
            assert(tok(t, s + 4) == list[4]);
            assert(tok(t, s + 5) == list[5]);
        },
        Kind::Vector(_) => {
            assert(tok(t, s + 1) == list[1]);
            assert(tok(t, s + 2) == list[2]);
            assert(tok(t, s + 3) == list[3]);
        },
        Kind::Geo => {
            reveal_strlit("GEOMETRY");
            reveal_strlit("POINT");
            assert("GEOMETRY"@.len() != "POINT"@.len());
            assert(geometry_type("GEOMETRY"@)->Ok_0.0 == Kind::Geo);
        },
        _ => {},
    }
}

/// The tokens of a default's generator, as `SHOW CREATE TABLE` writes it.
pub open spec fn generator_tokens(value: DefaultValueV) -> Seq<TokV> {
    match value {
        DefaultValueV::Now => seq![
            TokV::Word("now"@),
            TokV::Sym(Sym::LParen),
            TokV::Sym(Sym::RParen),
        ],
        DefaultValueV::Uuid4 => seq![
            TokV::Word("uuid4"@),
            TokV::Sym(Sym::LParen),
            TokV::Sym(Sym::RParen),
        ],
        DefaultValueV::Uuid5 { namespace, name } => seq![
            TokV::Word("uuid5"@),
            TokV::Sym(Sym::LParen),
            TokV::Str(namespace),
            TokV::Sym(Sym::Comma),
            TokV::Str(name),
            TokV::Sym(Sym::RParen),
        ],
    }
}

proof fn generator_words_are_read()
    ensures
        upper("now"@) == "NOW"@,
        upper("uuid4"@) == "UUID4"@,
        upper("uuid5"@) == "UUID5"@,
{
    reveal_strlit("now");
    reveal_strlit("NOW");
    reveal_strlit("uuid4");
    reveal_strlit("UUID4");
    reveal_strlit("uuid5");
    reveal_strlit("UUID5");
    assert(upper("now"@) =~= "NOW"@);
    assert(upper("uuid4"@) =~= "UUID4"@);
    assert(upper("uuid5"@) =~= "UUID5"@);
}

proof fn generators_differ()
    ensures
        "UUID4"@ != "NOW"@,
        "UUID4"@ != "CURRENT_TIMESTAMP"@,
        "UUID4"@ != "TRANSACTION_TIMESTAMP"@,
        "UUID4"@ != "STATEMENT_TIMESTAMP"@,
        "UUID5"@ != "NOW"@,
        "UUID5"@ != "CURRENT_TIMESTAMP"@,
        "UUID5"@ != "TRANSACTION_TIMESTAMP"@,
        "UUID5"@ != "STATEMENT_TIMESTAMP"@,
        "UUID5"@ != "UUID4"@,
        "UUID5"@ != "GEN_RANDOM_UUID"@,
        "UUID5"@ != "UUID_GENERATE_V4"@,
{
    reveal_strlit("NOW");
    reveal_strlit("CURRENT_TIMESTAMP");
    reveal_strlit("TRANSACTION_TIMESTAMP");
    reveal_strlit("STATEMENT_TIMESTAMP");
    reveal_strlit("UUID4");
    reveal_strlit("UUID5");
    reveal_strlit("GEN_RANDOM_UUID");
    reveal_strlit("UUID_GENERATE_V4");
    assert("UUID4"@[4] == '4' && "UUID5"@[4] == '5');
    assert("UUID4"@.len() == 5 && "UUID5"@.len() == 5 && "NOW"@.len() == 3);
}

/// The default that `SHOW CREATE TABLE` writes for a column, written in a
/// statement, is read as that default, where the engine takes its namespace for
/// a UUID.
pub proof fn written_default_reads_back(
    t: Seq<TokenV>,
    s: int,
    value: DefaultValueV,
    u: Seq<(Seq<char>, Seq<char>)>,
)
    requires
        spelt(t, s, generator_tokens(value)),
        value matches DefaultValueV::Uuid5 { namespace, .. } ==> refused_from(u, namespace, 0) is None,
    ensures
        default_generator(t, s, u) == Ok::<(DefaultValueV, int), SqlErrorV>(
            (value, s + generator_tokens(value).len()),
        ),
{
    reveal(default_generator);
    reveal(no_arguments);
    reveal(uuid5_arguments);
    reveal(uuid_text);
    reveal(want);
    generator_words_are_read();
    generators_differ();
    let list = generator_tokens(value);
    assert(tok(t, s + 0) == list[0]);
    assert(tok(t, s + 1) == list[1]);
    assert(tok(t, s + 2) == list[2]);
    if value is Uuid5 {
        assert(tok(t, s + 3) == list[3]);
        assert(tok(t, s + 4) == list[4]);
        assert(tok(t, s + 5) == list[5]);
    }
}

} // verus!
