//! `EXPLAIN` of a definition, which does not run it.

use vstd::prelude::*;
use crate::compile::ddl::{rule_text, written_rule};
use crate::compile::define::{alter_table, drop_table};
use crate::compile::env::{collection_named, Catalog, CatalogV, IndexInfo, IndexInfoV};
use crate::compile::log::{logged, Log, LogV};
use crate::compile::plan::{CompiledAlter, CompiledAlterV, WritePlan, WritePlanV};
use crate::error::{gives, SqlError, SqlErrorV};
use crate::explain::{notice_lines, write_notices};
use crate::stmt::{action_text, AlterAction, AlterActionV};
use crate::text::{
    cat2, cat3, cat4, cat5, cat6, cat7, decimal, decimal_u64, decimal_usize, join, joined, owned,
    texts,
};
use crate::value::{kind_name, ColumnRule, ColumnRuleV, Kind};

verus! {

// ── DROP TABLE ───────────────────────────────────────────────────────────

pub open spec fn index_names_of(list: Seq<IndexInfoV>) -> Seq<Seq<char>> {
    list.map_values(|i: IndexInfoV| i.name)
}

/// What the first phase of a drop removes.
pub open spec fn indexes_detail(list: Seq<IndexInfoV>) -> Seq<char> {
    decimal(list.len() as int) + " index(es): "@ + (if list.len() == 0 {
        "none"@
    } else {
        joined(index_names_of(list), ", "@)
    })
}

pub const DROP_NOTE: &'static str =
    "note:  this EXPLAIN does not run its statement. Every other EXPLAIN here runs, because a plan printed without running says nothing about the counters; running a DROP would be the drop.\n";

/// The phases of a drop, one on a line.
pub open spec fn drop_phases(list: Seq<IndexInfoV>, cascade: bool) -> Seq<char> {
    "phases:\n  indexes -- "@ + indexes_detail(list)
        + "\n  sidecars -- prefix 0x60 | collection -- vector cells\n  rows -- prefix 0x40 | collection -- primary rows"@
        + (if cascade {
        ", each row's incident edges first through cascade_graph_delete (at most 256 per row)"@
    } else {
        ""@
    })
        + "\n  mappings -- prefix 0x20 | collection -- the external-key mapping\n  descriptor -- name, catalog replicas, sequence replicas, layout replicas -- after a range probe proves every keyspace above is empty\n"@
}

/// The plan of a `DROP TABLE`; a step removes at most `batch` entries.
pub open spec fn drop_words(table: Seq<char>, list: Seq<IndexInfoV>, cascade: bool, batch: usize) -> Seq<
    char,
> {
    let head = "statement: DROP TABLE "@ + table + (if cascade {
        " CASCADE\n"@
    } else {
        " RESTRICT (the default)\n"@
    }) + DROP_NOTE@;
    let mark = "mark:  begin_drop_collection publishes DROPPING in the catalog descriptor and commits it before one entry is removed (Law 3); "@
        + (if cascade {
        "CASCADE does not refuse -- RESTRICT"@
    } else {
        "RESTRICT"@
    }) + " refuses while any graph edge in any context references a row of `"@ + table
        + "`, naming those contexts\n"@;
    head + mark + drop_phases(list, cascade)
        + "bound: drop_collection_step(id, budget) removes at most `budget` entries per step, budget in 1..="@
        + decimal(batch as int)
        + "; the committed cursor is the phase byte in the descriptor plus the surviving keys, so a crash resumes without a scan\n"@
}

/// `EXPLAIN DROP TABLE`.
#[verifier::opaque]
pub open spec fn explain_drop_of(
    cat: CatalogV,
    table: Seq<char>,
    if_exists: bool,
    cascade: bool,
    batch: usize,
) -> Result<Seq<char>, SqlErrorV> {
    match drop_table(cat, table, if_exists, cascade) {
        Err(e) => Err(e),
        Ok(None) => Ok(
            "drop: nothing -- IF EXISTS and no collection named `"@ + table + "`\n"@,
        ),
        Ok(Some(_)) => Ok(
            drop_words(table, collection_named(cat, table)->0.indexes, cascade, batch),
        ),
    }
}

fn names_of(list: &Vec<IndexInfo>) -> (r: Vec<String>)
    ensures
        texts(r@) == index_names_of(list.deep_view()),
{
    let ghost all = list.deep_view();
    let mut out: Vec<String> = Vec::new();
    let mut i: usize = 0;
    while i < list.len()
        invariant
            i <= list@.len(),
            all == list.deep_view(),
            out@.len() == i,
            forall|k: int| 0 <= k < i ==> (#[trigger] out@[k])@ == all[k].name,
        decreases list@.len() - i,
    {
        assert(all[i as int] == list@[i as int].deep_view());
        out.push(list[i].name.clone());
        i = i + 1;
    }
    assert(texts(out@) =~= index_names_of(all));
    out
}

fn write_drop(table: &str, list: &Vec<IndexInfo>, cascade: bool, batch: usize) -> (r: String)
    ensures
        r@ == drop_words(table@, list.deep_view(), cascade, batch),
{
    let names = if list.len() == 0 {
        owned("none")
    } else {
        join(&names_of(list), ", ")
    };
    let detail = cat3(decimal_usize(list.len()).as_str(), " index(es): ", names.as_str());
    let phases = cat5(
        "phases:\n  indexes -- ",
        detail.as_str(),
        "\n  sidecars -- prefix 0x60 | collection -- vector cells\n  rows -- prefix 0x40 | collection -- primary rows",
        if cascade {
            ", each row's incident edges first through cascade_graph_delete (at most 256 per row)"
        } else {
            ""
        },
        "\n  mappings -- prefix 0x20 | collection -- the external-key mapping\n  descriptor -- name, catalog replicas, sequence replicas, layout replicas -- after a range probe proves every keyspace above is empty\n",
    );
    let head = cat4(
        "statement: DROP TABLE ",
        table,
        if cascade {
            " CASCADE\n"
        } else {
            " RESTRICT (the default)\n"
        },
        DROP_NOTE,
    );
    let mark = cat5(
        "mark:  begin_drop_collection publishes DROPPING in the catalog descriptor and commits it before one entry is removed (Law 3); ",
        if cascade {
            "CASCADE does not refuse -- RESTRICT"
        } else {
            "RESTRICT"
        },
        " refuses while any graph edge in any context references a row of `",
        table,
        "`, naming those contexts\n",
    );
    cat6(
        head.as_str(),
        mark.as_str(),
        phases.as_str(),
        "bound: drop_collection_step(id, budget) removes at most `budget` entries per step, budget in 1..=",
        decimal_usize(batch).as_str(),
        "; the committed cursor is the phase byte in the descriptor plus the surviving keys, so a crash resumes without a scan\n",
    )
}

impl Catalog {
    /// `EXPLAIN DROP TABLE`; a step of the drop removes at most `batch`
    /// entries.
    pub fn explain_drop_table(&self, table: &str, if_exists: bool, cascade: bool, batch: usize) -> (r:
        Result<String, SqlError>)
        ensures
            gives(r, explain_drop_of(self.deep_view(), table@, if_exists, cascade, batch)),
    {
        proof {
            reveal(explain_drop_of);
        }
        match self.drop_table(table, if_exists, cascade)? {
            None => Ok(
                cat3("drop: nothing -- IF EXISTS and no collection named `", table, "`\n"),
            ),
            Some(_) => match self.find(table) {
                Some(c) => Ok(write_drop(table, &c.indexes, cascade, batch)),
                None => Ok(owned("")),
            },
        }
    }
}

// ── ALTER TABLE ──────────────────────────────────────────────────────────

pub const ALTER_NOTE: &'static str =
    "note:  this EXPLAIN does not run its statement. A catalog rewrite performed in order to describe itself is the rewrite.\n";

pub open spec fn field_words(fields: Seq<(Seq<char>, Kind)>) -> Seq<Seq<char>> {
    fields.map_values(|f: (Seq<char>, Kind)| f.0 + " "@ + kind_name(f.1))
}

pub open spec fn declared_words(declared: Seq<(Seq<char>, Seq<char>)>) -> Seq<Seq<char>> {
    declared.map_values(|d: (Seq<char>, Seq<char>)| d.0 + " "@ + d.1)
}

pub open spec fn rules_words(rules: Seq<(Seq<char>, ColumnRuleV)>) -> Seq<Seq<char>> {
    rules.map_values(|r: (Seq<char>, ColumnRuleV)| r.0 + " "@ + rule_text(r.1))
}

pub open spec fn dropped_words(list: Seq<(u64, Seq<char>)>) -> Seq<Seq<char>> {
    list.map_values(|i: (u64, Seq<char>)| i.1)
}

/// What a new layout carries.
pub open spec fn layout_words(
    next: u64,
    fields: Seq<(Seq<char>, Kind)>,
    declared: Seq<(Seq<char>, Seq<char>)>,
    rules: Seq<(Seq<char>, ColumnRuleV)>,
    dropped: Seq<(u64, Seq<char>)>,
) -> Seq<char> {
    let head = "rewrite: alter_collection -- one new immutable Layout and a repointed catalog in one commit, O(fields); no row is rewritten\nlayout: new layout id "@
        + decimal(next as int) + "\nfields: "@ + joined(field_words(fields), ", "@) + "\n"@;
    let carries = "carries: "@ + decimal(declared.len() as int) + " declared type(s) ["@ + joined(
        declared_words(declared),
        ", "@,
    ) + "]; "@ + decimal(rules.len() as int) + (" column rule(s) ["@ + joined(
        rules_words(rules),
        ", "@,
    ) + "]\n"@);
    let indexes = if dropped.len() == 0 {
        "indexes: none dropped\n"@
    } else {
        "indexes: dropped with the column: "@ + joined(dropped_words(dropped), ", "@) + "\n"@
    };
    head + carries + indexes
}

/// What an `ALTER TABLE` would do; `next` is the number of the next layout.
pub open spec fn rewrite_words(plan: WritePlanV, next: u64) -> Seq<char> {
    match plan {
        WritePlanV::AlterTable { collection, action, .. } => match action {
            CompiledAlterV::Rename { to } => "rewrite: rename_collection -- one name record and the name inside the catalog descriptor, in one commit\ncarries: collection id "@
                + decimal(collection as int)
                + " is unchanged, so every edge, index, layout, sequence and external-key mapping is untouched; the new name is `"@
                + to + "`\nlayout: unchanged -- a rename writes no layout\n"@,
            CompiledAlterV::Layout { fields, declared, rules, drop_indexes, .. } => layout_words(
                next,
                fields,
                declared,
                rules,
                drop_indexes,
            ),
        },
        _ => ""@,
    }
}

pub open spec fn alter_head_words(table: Seq<char>, action: AlterActionV) -> Seq<char> {
    "statement: ALTER TABLE "@ + table + " "@ + action_text(action) + "\n"@ + ALTER_NOTE@
}

/// `EXPLAIN ALTER TABLE`. What was noticed goes into the text.
#[verifier::opaque]
pub open spec fn explain_alter_of(
    cat: CatalogV,
    table: Seq<char>,
    action: AlterActionV,
    log: LogV,
) -> Result<(Seq<char>, LogV), SqlErrorV> {
    match alter_table(cat, table, action, log) {
        Err(e) => Err(e),
        Ok((plan, log)) => match plan {
            WritePlanV::Notice(text) => Ok(
                (alter_head_words(table, action) + "nothing: "@ + text + "\n"@, log),
            ),
            _ => Ok(
                (
                    alter_head_words(table, action) + rewrite_words(plan, cat.next_layout)
                        + notice_lines(log.notices),
                    LogV { notices: Seq::empty(), ..log },
                ),
            ),
        },
    }
}

fn write_fields(fields: &Vec<(String, Kind)>) -> (r: String)
    ensures
        r@ == joined(field_words(fields.deep_view()), ", "@),
{
    let ghost all = fields.deep_view();
    let mut out: Vec<String> = Vec::new();
    let mut i: usize = 0;
    while i < fields.len()
        invariant
            i <= fields@.len(),
            all == fields.deep_view(),
            out@.len() == i,
            forall|k: int|
                0 <= k < i ==> (#[trigger] out@[k])@ == all[k].0 + " "@ + kind_name(all[k].1),
        decreases fields@.len() - i,
    {
        assert(all[i as int] == fields@[i as int].deep_view());
        out.push(cat3(fields[i].0.as_str(), " ", fields[i].1.named().as_str()));
        i = i + 1;
    }
    assert(texts(out@) =~= field_words(all));
    join(&out, ", ")
}

fn write_declared(declared: &Vec<(String, String)>) -> (r: String)
    ensures
        r@ == joined(declared_words(declared.deep_view()), ", "@),
{
    let ghost all = declared.deep_view();
    let mut out: Vec<String> = Vec::new();
    let mut i: usize = 0;
    while i < declared.len()
        invariant
            i <= declared@.len(),
            all == declared.deep_view(),
            out@.len() == i,
            forall|k: int| 0 <= k < i ==> (#[trigger] out@[k])@ == all[k].0 + " "@ + all[k].1,
        decreases declared@.len() - i,
    {
        assert(all[i as int] == declared@[i as int].deep_view());
        out.push(cat3(declared[i].0.as_str(), " ", declared[i].1.as_str()));
        i = i + 1;
    }
    assert(texts(out@) =~= declared_words(all));
    join(&out, ", ")
}

fn write_rules(rules: &Vec<(String, ColumnRule)>) -> (r: String)
    ensures
        r@ == joined(rules_words(rules.deep_view()), ", "@),
{
    let ghost all = rules.deep_view();
    let mut out: Vec<String> = Vec::new();
    let mut i: usize = 0;
    while i < rules.len()
        invariant
            i <= rules@.len(),
            all == rules.deep_view(),
            out@.len() == i,
            forall|k: int|
                0 <= k < i ==> (#[trigger] out@[k])@ == all[k].0 + " "@ + rule_text(all[k].1),
        decreases rules@.len() - i,
    {
        assert(all[i as int] == rules@[i as int].deep_view());
        out.push(cat3(rules[i].0.as_str(), " ", written_rule(&rules[i].1).as_str()));
        i = i + 1;
    }
    assert(texts(out@) =~= rules_words(all));
    join(&out, ", ")
}

fn write_dropped(list: &Vec<(u64, String)>) -> (r: String)
    ensures
        r@ == joined(dropped_words(list.deep_view()), ", "@),
{
    let ghost all = list.deep_view();
    let mut out: Vec<String> = Vec::new();
    let mut i: usize = 0;
    while i < list.len()
        invariant
            i <= list@.len(),
            all == list.deep_view(),
            out@.len() == i,
            forall|k: int| 0 <= k < i ==> (#[trigger] out@[k])@ == all[k].1,
        decreases list@.len() - i,
    {
        assert(all[i as int] == list@[i as int].deep_view());
        out.push(list[i].1.clone());
        i = i + 1;
    }
    assert(texts(out@) =~= dropped_words(all));
    join(&out, ", ")
}

fn write_rewrite(plan: &WritePlan, next: u64) -> (r: String)
    ensures
        r@ == rewrite_words(plan.deep_view(), next),
{
    match plan {
        WritePlan::AlterTable { collection, action, .. } => match action {
            CompiledAlter::Rename { to } => cat5(
                "rewrite: rename_collection -- one name record and the name inside the catalog descriptor, in one commit\ncarries: collection id ",
                decimal_u64(*collection).as_str(),
                " is unchanged, so every edge, index, layout, sequence and external-key mapping is untouched; the new name is `",
                to.as_str(),
                "`\nlayout: unchanged -- a rename writes no layout\n",
            ),
            CompiledAlter::Layout { fields, declared, rules, drop_indexes, .. } => {
                let head = cat5(
                    "rewrite: alter_collection -- one new immutable Layout and a repointed catalog in one commit, O(fields); no row is rewritten\nlayout: new layout id ",
                    decimal_u64(next).as_str(),
                    "\nfields: ",
                    write_fields(fields).as_str(),
                    "\n",
                );
                let rule_part = cat3(" column rule(s) [", write_rules(rules).as_str(), "]\n");
                let carries = cat7(
                    "carries: ",
                    decimal_usize(declared.len()).as_str(),
                    " declared type(s) [",
                    write_declared(declared).as_str(),
                    "]; ",
                    decimal_usize(rules.len()).as_str(),
                    rule_part.as_str(),
                );
                let indexes = if drop_indexes.len() == 0 {
                    owned("indexes: none dropped\n")
                } else {
                    cat3(
                        "indexes: dropped with the column: ",
                        write_dropped(drop_indexes).as_str(),
                        "\n",
                    )
                };
                cat3(head.as_str(), carries.as_str(), indexes.as_str())
            },
        },
        _ => owned(""),
    }
}

impl Catalog {
    /// `EXPLAIN ALTER TABLE`.
    pub fn explain_alter_table(&self, table: &str, action: &AlterAction, log: &mut Log) -> (r: Result<
        String,
        SqlError,
    >)
        ensures
            logged(
                r,
                *final(log),
                explain_alter_of(
                    self.deep_view(),
                    table@,
                    action.deep_view(),
                    old(log).deep_view(),
                ),
            ),
    {
        proof {
            reveal(explain_alter_of);
        }
        let plan = self.alter_table(table, action, log)?;
        let head = cat5(
            "statement: ALTER TABLE ",
            table,
            " ",
            action.written().as_str(),
            "\n",
        );
        let head = cat2(head.as_str(), ALTER_NOTE);
        match &plan {
            WritePlan::Notice(text) => {
                return Ok(cat4(head.as_str(), "nothing: ", text.as_str(), "\n"));
            },
            _ => {},
        }
        let rewrite = write_rewrite(&plan, self.next_layout);
        let notices = write_notices(&log.notices);
        log.notices = Vec::new();
        assert(texts(log.notices@) =~= Seq::<Seq<char>>::empty());
        Ok(cat3(head.as_str(), rewrite.as_str(), notices.as_str()))
    }
}

} // verus!
