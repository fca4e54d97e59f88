//! What a statement is about, and what it leaves of the session.

use vstd::prelude::*;
use crate::ast::{LiteralV, VecOp};
use crate::compile::answer::{
    answered_row, group_output, output_value, output_values, AggValueV, GroupRowV, ReturnedRowV,
};
use crate::compile::bind::{value_of, BinderV, VectorArgV};
use crate::compile::env::{
    collection_from, collection_of, id_from, ready_from, row_at, row_from, CatalogV, CollectionV,
    IndexFamily, StoredRowV,
};
use crate::compile::log::{EnvV, LogV};
use crate::compile::order::vector_order;
use crate::compile::plan::{AggOutput, AggregatePlanV, SelectPlanV};
use crate::compile::statement::{set_local_of, write_of, Shortlist};
use crate::catalog::types::pg_type;
use crate::compile::show::session_title;
use crate::meaning::groups::in_capitals;
use crate::meaning::selects::put_out;
use crate::parser::session::{is_engine_knob, session_fact};
use crate::stmt::StmtV;
use crate::text::{lower, upper};
use crate::value::{Kind, SqlValueV};

verus! {

// ── names ────────────────────────────────────────────────────────────────

proof fn collection_is_first(list: Seq<CollectionV>, name: Seq<char>, i: nat)
    ensures
        match collection_from(list, name, i) {
            Some(c) => exists|k: int|
                i <= k < list.len() && #[trigger] list[k] == c && c.name == name && forall|j: int|
                    i <= j < k ==> (#[trigger] list[j]).name != name,
            None => forall|k: int| i <= k < list.len() ==> (#[trigger] list[k]).name != name,
        },
    decreases list.len() - i,
{
    if i < list.len() {
        if list[i as int].name == name {
            assert(list[i as int] == list[i as int]);
        } else {
            collection_is_first(list, name, i + 1);
            if let Some(c) = collection_from(list, name, i + 1) {
                let k = choose|k: int|
                    i + 1 <= k < list.len() && #[trigger] list[k] == c && c.name == name && forall|
                        j: int,
                    |
                        i + 1 <= j < k ==> (#[trigger] list[j]).name != name;
                assert(list[k] == c);
            }
        }
    }
}

/// The collection that a statement names is one of the catalog, of that name.
pub proof fn collection_is_the_named_one(cat: CatalogV, name: Seq<char>)
    ensures
        match collection_of(cat, name) {
            Ok(c) => c.name == name && exists|k: int|
                0 <= k < cat.collections.len() && #[trigger] cat.collections[k] == c && forall|
                    j: int,
                |
                    0 <= j < k ==> (#[trigger] cat.collections[j]).name != name,
            Err(_) => forall|k: int|
                0 <= k < cat.collections.len() ==> (#[trigger] cat.collections[k]).name != name,
        },
{
    collection_is_first(cat.collections, name, 0);
}

/// The number of a name in a list is that of the first entry of that name.
pub proof fn id_is_the_named_one(list: Seq<(Seq<char>, u64)>, name: Seq<char>, i: nat)
    ensures
        match id_from(list, name, i) {
            Some(id) => exists|k: int|
                i <= k < list.len() && #[trigger] list[k] == (name, id) && forall|j: int|
                    i <= j < k ==> (#[trigger] list[j]).0 != name,
            None => forall|k: int| i <= k < list.len() ==> (#[trigger] list[k]).0 != name,
        },
    decreases list.len() - i,
{
    if i < list.len() {
        if list[i as int].0 == name {
            assert(list[i as int] == (name, list[i as int].1));
        } else {
            id_is_the_named_one(list, name, i + 1);
            if let Some(id) = id_from(list, name, i + 1) {
                let k = choose|k: int|
                    i + 1 <= k < list.len() && #[trigger] list[k] == (name, id) && forall|j: int|
                        i + 1 <= j < k ==> (#[trigger] list[j]).0 != name;
                assert(list[k] == (name, id));
            }
        }
    }
}

proof fn row_is_there(list: Seq<StoredRowV>, c: u64, key: Seq<char>, i: nat)
    ensures
        match row_from(list, c, key, i) {
            Some(row) => row.id.collection == c && row.key == key && list.contains(row),
            None => forall|k: int|
                i <= k < list.len() ==> (#[trigger] list[k]).id.collection != c || list[k].key != key,
        },
    decreases list.len() - i,
{
    if i < list.len() {
        if list[i as int].id.collection == c && list[i as int].key == key {
            assert(list.contains(list[i as int]));
        } else {
            row_is_there(list, c, key, i + 1);
        }
    }
}

/// The row at a key is a row of that collection with that key.
pub proof fn row_is_the_keyed_one(cat: CatalogV, c: u64, key: Seq<char>)
    ensures
        match row_at(cat, c, key) {
            Some(row) => row.id.collection == c && row.key == key && cat.rows.contains(row),
            None => forall|k: int|
                0 <= k < cat.rows.len() ==> (#[trigger] cat.rows[k]).id.collection != c
                    || cat.rows[k].key != key,
        },
{
    row_is_there(cat.rows, c, key, 0);
}

// ── what a statement does ────────────────────────────────────────────────

/// A statement is compiled to a plan of its own kind: an insert inserts, a delete
/// deletes, and a commit keeps what a rollback would not.
pub proof fn statement_keeps_its_kind(env: EnvV, s: StmtV, log: LogV)
    requires
        write_of(env, s, log) is Ok,
    ensures
        ({
            let p = write_of(env, s, log)->Ok_0.0;
            match s {
                StmtV::Insert { .. } => p is Insert,
                StmtV::Update { .. } => p is Update,
                StmtV::Delete { .. } => p is Delete,
                StmtV::UpdateWhere(_) => p is UpdateWhere || p is Notice,
                StmtV::DeleteWhere(_) => p is DeleteWhere || p is Notice,
                StmtV::BeginBulk => p is BeginBulk,
                StmtV::EndBulk => p is EndBulk,
                StmtV::CreateTable { .. } => p is CreateTable || p is Notice,
                StmtV::CreateIndex { .. } => p is CreateIndex,
                StmtV::DropTable { .. } => p is DropTable || p is Notice,
                StmtV::DropIndex { .. } => p is DropIndex || p is Notice,
                StmtV::AlterTable { .. } => p is AlterTable || p is Notice,
                StmtV::Begin => p is Begin,
                StmtV::Commit => p is Commit,
                StmtV::Rollback => p is Rollback,
                _ => true,
            }
        }),
{
    reveal(write_of);
}

/// A width that is set for the approximate shortlist is the number that is
/// written, which is positive; `DEFAULT` clears it, and a setting that is none of
/// the engine's leaves it.
pub proof fn shortlist_is_as_set(b: BinderV, name: Seq<char>, value: LiteralV)
    ensures
        ({
            let r = set_local_of(b, name, value);
            let default = value is Str && lower(value->Str_0) == lower("default"@);
            let v = value_of(b, value);
            &&& !is_engine_knob(name) ==> r is Ok && r->Ok_0.shortlist is Keep
            &&& is_engine_knob(name) && default ==> r is Ok && r->Ok_0.shortlist is Clear
            &&& is_engine_knob(name) && !default ==> {
                &&& r is Ok <==> v is Ok && v->Ok_0 is Int && v->Ok_0->Int_0 > 0
                &&& r is Ok && v->Ok_0->Int_0 <= usize::MAX ==> r->Ok_0.shortlist
                    == Shortlist::Become(v->Ok_0->Int_0 as usize)
            }
        }),
{
    reveal(set_local_of);
}

/// A word asks for the fact that is titled so; the user goes by four names.
pub proof fn session_facts_are_called_so(w: Seq<char>)
    requires
        session_fact(Some(w)) is Some,
    ensures
        session_fact(Some(w))->0 is CurrentUser <==> w == "CURRENT_USER"@ || w == "SESSION_USER"@ || w
            == "CURRENT_ROLE"@ || w == "USER"@,
        !(session_fact(Some(w))->0 is CurrentUser) ==> in_capitals(
            w,
            session_title(session_fact(Some(w))->0),
        ),
{
    reveal_strlit("VERSION");
    reveal_strlit("DB_VERSION");
    reveal_strlit("CURRENT_SCHEMA");
    reveal_strlit("CURRENT_DATABASE");
    reveal_strlit("CURRENT_USER");
    reveal_strlit("SESSION_USER");
    reveal_strlit("CURRENT_ROLE");
    reveal_strlit("USER");
    reveal_strlit("PG_BACKEND_PID");
    reveal_strlit("version");
    reveal_strlit("db_version");
    reveal_strlit("current_schema");
    reveal_strlit("current_database");
    reveal_strlit("pg_backend_pid");
    assert("VERSION"@.len() == 7 && "DB_VERSION"@.len() == 10 && "CURRENT_SCHEMA"@.len() == 14);
    assert("CURRENT_DATABASE"@.len() == 16 && "PG_BACKEND_PID"@.len() == 14);
    assert("CURRENT_USER"@.len() == 12 && "SESSION_USER"@.len() == 12);
    assert("CURRENT_ROLE"@.len() == 12 && "USER"@.len() == 4);
}

/// Columns of two kinds are reported as of two types, but for the geometric
/// kinds, which are one type; an instant is reported as of its declared type.
pub proof fn reported_types_differ(a: Kind, b: Kind)
    ensures
        pg_type(a, None).0 == pg_type(b, None).0 ==> a == b || ((a is Geo || a is Point) && (b is Geo
            || b is Point)) || (a is Vector && b is Vector),
        pg_type(a, Some("TIMESTAMPTZ"@)).0 != pg_type(b, None).0,
        pg_type(a, Some("DATE"@)).0 != pg_type(b, None).0,
        pg_type(a, Some("DATE"@)).0 != pg_type(a, Some("TIMESTAMPTZ"@)).0,
{
    reveal_strlit("TIMESTAMPTZ");
    reveal_strlit("TIMESTAMP");
    reveal_strlit("DATE");
    assert(upper("TIMESTAMPTZ"@).subrange(0, 9) =~= "TIMESTAMP"@);
    assert(upper("DATE"@) =~= "DATE"@);
    assert("DATE"@.subrange(0, 4) =~= "DATE"@);
    assert("DATE"@.len() == 4 && "TIMESTAMP"@.len() == 9 && "TIMESTAMPTZ"@.len() == 11);
}

/// A vector order is exact where the column has an exact index and no shortlist
/// was asked for, and where it has no other; else it is approximate, with the
/// width that was set, or a hundred.
pub proof fn vector_order_is_exact_unless_asked(
    env: EnvV,
    c: CollectionV,
    column: Seq<char>,
    query: VectorArgV,
    fill: Option<LiteralV>,
    op: VecOp,
    log: LogV,
)
    ensures
        ({
            let exact = ready_from(c.indexes, column, IndexFamily::ExactVector, None, 0) is Some;
            let quantized = ready_from(c.indexes, column, IndexFamily::QuantizedVector, None, 0) is Some;
            let r = vector_order(env, c, column, query, fill, op, log);
            &&& r is Ok <==> exact || quantized
            &&& exact && (env.ef_search is None || !quantized) ==> r->Ok_0.0 is ExactVector
            &&& quantized && (env.ef_search is Some || !exact) ==> r->Ok_0.0 is ApproximateVector
                && match env.ef_search {
                Some(n) => r->Ok_0.0->ef == n,
                None => r->Ok_0.0->ef == 100,
            }
        }),
{
}

// ── answers ──────────────────────────────────────────────────────────────

proof fn fault_is_one_of_an_output(p: SelectPlanV, row: ReturnedRowV, n: nat)
    requires
        n <= p.outputs.len(),
        output_values(p, row, n) is Err,
    ensures
        exists|i: int| 0 <= i < n && put_out(p.functions, row, #[trigger] p.outputs[i]) is None,
    decreases n,
{
    if n > 0 {
        if output_values(p, row, (n - 1) as nat) is Err {
            fault_is_one_of_an_output(p, row, (n - 1) as nat);
        } else {
            assert(output_value(p, row, p.outputs[n - 1]) is Err);
            assert(put_out(p.functions, row, p.outputs[n - 1]) is None);
        }
    }
}

/// A row is answered wherever each of its outputs has a value.
pub proof fn row_with_values_is_answered(p: SelectPlanV, row: ReturnedRowV)
    requires
        forall|i: int|
            0 <= i < p.outputs.len() ==> put_out(p.functions, row, #[trigger] p.outputs[i]) is Some,
    ensures
        answered_row(p, row) is Ok,
{
    if answered_row(p, row) is Err {
        fault_is_one_of_an_output(p, row, p.outputs.len());
    }
}

/// What an answer reports of an accumulator is its value.
pub proof fn accumulator_is_reported(p: AggregatePlanV, g: GroupRowV, at: usize)
    requires
        at < g.values.len(),
    ensures
        ({
            let shown = group_output(p, g, AggOutput::Value(at));
            match g.values[at as int] {
                AggValueV::Count(n) => n <= i64::MAX ==> shown == SqlValueV::Int(n as i64),
                AggValueV::I64(n) => shown == SqlValueV::Int(n),
                AggValueV::F64(n) => shown == SqlValueV::Float(n),
                AggValueV::Text(s) => shown == SqlValueV::Text(s),
                AggValueV::Bool(b) => shown == SqlValueV::Bool(b),
                AggValueV::Null => shown == SqlValueV::Null,
            }
        }),
{
}

} // verus!
