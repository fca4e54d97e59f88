//! The relations of `pg_catalog` that are not there, and why.

use vstd::prelude::*;
use crate::text::owned;

verus! {

/// The relations that are not provided, each with its reason. They are refused
/// by name: an empty answer would say that there is nothing to list.
pub open spec fn absent_relations() -> Seq<(Seq<char>, Seq<char>)> {
    seq![
        (
            "pg_proc"@,
            "e4 has no function catalog: the §4.1/§4.2 functions are compiled by `lang`, not registered rows."@,
        ),
        (
            "pg_settings"@,
            "e4 has no GUC table; the client GUCs a driver sets are accepted as notices and nothing else is settable."@,
        ),
        (
            "pg_roles"@,
            "e4 has no authentication and no role catalog: the process that opened the file is the only user."@,
        ),
        (
            "pg_database"@,
            "e4 is one database per file; there is no cluster to list."@,
        ),
        (
            "pg_enum"@,
            "e4 has no enum types: a `Kind` is one of eight and none of them is user-defined."@,
        ),
        (
            "pg_operator"@,
            "operators are compiled by `lang` against the index families; there is no operator catalog."@,
        ),
        (
            "pg_am"@,
            "index families are `IndexFamily`, a closed set in the collection catalog, not access-method rows."@,
        ),
        (
            "pg_trigger"@,
            "triggers are Tier 3: no atomic."@,
        ),
        (
            "pg_rewrite"@,
            "user views and rules are Tier 3: no atomic."@,
        ),
        (
            "pg_stat_activity"@,
            "there is no connection table: a connection is a process here."@,
        ),
    ]
}

fn put(list: &mut Vec<(String, String)>, name: &str, reason: &str)
    ensures
        final(list).deep_view() == old(list).deep_view().push((name@, reason@)),
{
    let ghost before = list.deep_view();
    let pair = (owned(name), owned(reason));
    list.push(pair);
    assert(list.deep_view() =~= before.push((name@, reason@)));
}

/// The relations that are not provided, each with its reason.
pub fn not_provided() -> (r: Vec<(String, String)>)
    ensures
        r.deep_view() == absent_relations(),
{
    let mut out: Vec<(String, String)> = Vec::new();
    assert(out.deep_view() =~= Seq::<(Seq<char>, Seq<char>)>::empty());
    put(
        &mut out,
        "pg_proc",
        "e4 has no function catalog: the §4.1/§4.2 functions are compiled by `lang`, not registered rows.",
    );
    put(
        &mut out,
        "pg_settings",
        "e4 has no GUC table; the client GUCs a driver sets are accepted as notices and nothing else is settable.",
    );
    put(
        &mut out,
        "pg_roles",
        "e4 has no authentication and no role catalog: the process that opened the file is the only user.",
    );
    put(
        &mut out,
        "pg_database",
        "e4 is one database per file; there is no cluster to list.",
    );
    put(
        &mut out,
        "pg_enum",
        "e4 has no enum types: a `Kind` is one of eight and none of them is user-defined.",
    );
    put(
        &mut out,
        "pg_operator",
        "operators are compiled by `lang` against the index families; there is no operator catalog.",
    );
    put(
        &mut out,
        "pg_am",
        "index families are `IndexFamily`, a closed set in the collection catalog, not access-method rows.",
    );
    put(
        &mut out,
        "pg_trigger",
        "triggers are Tier 3: no atomic.",
    );
    put(
        &mut out,
        "pg_rewrite",
        "user views and rules are Tier 3: no atomic.",
    );
    put(
        &mut out,
        "pg_stat_activity",
        "there is no connection table: a connection is a process here.",
    );
    assert(out.deep_view() =~= absent_relations());
    out
}

} // verus!
