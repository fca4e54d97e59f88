//! Definitions: `CREATE`, `ALTER` and `DROP`.

use vstd::prelude::*;
use crate::compile::ddl::{note_rule, rule_noted, with_indexes};
use crate::compile::env::{
    collection_named, collection_of, kind_from, kind_in, kind_of, no_collection, Catalog, CatalogV,
    Collection, CollectionV, IndexInfo, IndexInfoV,
};
use crate::compile::log::{logged, Log, LogV};
use crate::compile::plan::{
    CompiledAlter, CompiledAlterV, CompiledIndex, CompiledIndexV, WritePlan, WritePlanV,
};
use crate::error::{gives, SqlError, SqlErrorV, Tier};
use crate::instant::{is_time_type, time_type};
use crate::lists::{take_all, take_next};
use crate::named::{
    add_entry, copy_list, has_name, holds_name, leave_out, rename_in, renamed, without,
};
use crate::scan::{begins, stands_at};
use crate::stmt::{
    AlterAction, AlterActionV, ColumnDef, ColumnDefV, IndexMethod, IndexMethodV, WithIndex,
    WithIndexV,
};
use crate::text::{
    ascii_lower, cat3, cat4, cat5, cat7, join, joined, lower, owned, same, texts,
};
use crate::value::{kind_name, ColumnRule, ColumnRuleV, Kind};

verus! {

// ── CREATE TABLE ─────────────────────────────────────────────────────────

/// A table under construction.
#[derive(Debug)]
pub struct Draft {
    pub fields: Vec<(String, Kind)>,
    pub declared: Vec<(String, String)>,
    pub rules: Vec<(String, ColumnRule)>,
    /// Whether one, and whether more than one, column is the primary key.
    pub keyed: bool,
    pub overkeyed: bool,
}

pub struct DraftV {
    pub fields: Seq<(Seq<char>, Kind)>,
    pub declared: Seq<(Seq<char>, Seq<char>)>,
    pub rules: Seq<(Seq<char>, ColumnRuleV)>,
    pub keyed: bool,
    pub overkeyed: bool,
}

impl DeepView for Draft {
    type V = DraftV;

    open spec fn deep_view(&self) -> DraftV {
        DraftV {
            fields: self.fields.deep_view(),
            declared: self.declared.deep_view(),
            rules: self.rules.deep_view(),
            keyed: self.keyed,
            overkeyed: self.overkeyed,
        }
    }
}

pub open spec fn reserved_column(name: Seq<char>) -> SqlErrorV {
    SqlErrorV::Unsupported(
        "column `"@ + name
            + "`: names beginning with `_` are reserved (`_id`, `_key`, `_collection`)"@,
    )
}

fn reserved_error(name: &str) -> (r: SqlError)
    ensures
        r.deep_view() == reserved_column(name@),
{
    SqlError::Unsupported(
        cat3(
            "column `",
            name,
            "`: names beginning with `_` are reserved (`_id`, `_key`, `_collection`)",
        ),
    )
}

/// One column of a `CREATE TABLE`.
pub open spec fn with_column(col: ColumnDefV, d: DraftV, log: LogV) -> Result<
    (DraftV, LogV),
    SqlErrorV,
> {
    if stands_at(col.name, "_"@, 0) {
        Err(reserved_column(col.name))
    } else if col.primary_key && col.kind != Kind::Text {
        Err(
            SqlErrorV::Unsupported(
                "PRIMARY KEY on `"@ + col.name
                    + "`: an external key is a string, so the primary-key column is TEXT"@,
            ),
        )
    } else {
        let log = if col.declared == "TIMESTAMPTZ"@ || col.declared == "DATE"@ {
            log.noted(
                "`"@ + col.name + "` is declared "@ + col.declared
                    + " and stored as Kind::Int: UTC microseconds, no time-zone storage (QL_CONTRACT §5 deviation 8)"@,
            )
        } else {
            log
        };
        let log = match col.rule {
            Some(rule) => rule_noted(col.name, col.declared, rule, log),
            None => log,
        };
        Ok(
            (
                DraftV {
                    fields: d.fields.push((col.name, col.kind)),
                    declared: if time_type(col.declared) {
                        d.declared.push((col.name, col.declared))
                    } else {
                        d.declared
                    },
                    rules: match col.rule {
                        Some(rule) => d.rules.push((col.name, rule)),
                        None => d.rules,
                    },
                    keyed: d.keyed || col.primary_key,
                    overkeyed: d.overkeyed || (d.keyed && col.primary_key),
                },
                log,
            ),
        )
    }
}

/// The columns of a `CREATE TABLE`.
pub open spec fn with_columns(columns: Seq<ColumnDefV>, log: LogV) -> Result<
    (DraftV, LogV),
    SqlErrorV,
>
    decreases columns.len(),
{
    if columns.len() == 0 {
        Ok(
            (
                DraftV {
                    fields: Seq::empty(),
                    declared: Seq::empty(),
                    rules: Seq::empty(),
                    keyed: false,
                    overkeyed: false,
                },
                log,
            ),
        )
    } else {
        match with_columns(columns.drop_last(), log) {
            Err(e) => Err(e),
            Ok((d, log)) => with_column(columns.last(), d, log),
        }
    }
}

proof fn with_columns_stop(columns: Seq<ColumnDefV>, log: LogV, n: int)
    requires
        0 <= n <= columns.len(),
        with_columns(columns.take(n), log) is Err,
    ensures
        with_columns(columns, log) == with_columns(columns.take(n), log),
    decreases columns.len() - n,
{
    if n < columns.len() {
        take_next(columns, n);
        with_columns_stop(columns, log, n + 1);
    } else {
        take_all(columns);
    }
}

/// The log of a table with a primary key.
pub open spec fn key_noted(table: Seq<char>, d: DraftV, log: LogV) -> LogV {
    if d.keyed {
        log.noted(
            "PRIMARY KEY on `"@ + table
                + "`: the column is stored as a declared field AND supplies the external key `Database::put` maps, so the key is held twice (battle50k deviation 13)"@,
        )
    } else {
        log
    }
}

/// `CREATE TABLE`.
pub open spec fn create_table(
    cat: CatalogV,
    table: Seq<char>,
    columns: Seq<ColumnDefV>,
    if_not_exists: bool,
    with: Seq<WithIndexV>,
    log: LogV,
) -> Result<(WritePlanV, LogV), SqlErrorV> {
    if if_not_exists && collection_named(cat, table) is Some {
        Ok(
            (
                WritePlanV::Notice(
                    "CREATE TABLE IF NOT EXISTS "@ + table
                        + ": the collection is already in the catalog, so nothing was created"@
                        + if with.len() == 0 {
                        ""@
                    } else {
                        " -- and no index of the WITH clause was created either; `SHOW INDEXES ON "@
                            + table + "` says what the collection already has"@
                    },
                ),
                log,
            ),
        )
    } else {
        match with_columns(columns, log) {
            Err(e) => Err(e),
            Ok((d, log)) => if d.overkeyed {
                Err(
                    SqlErrorV::Unsupported(
                        "two PRIMARY KEY columns: a row has one external key"@,
                    ),
                )
            } else {
                match with_indexes(cat, table, d.fields, with, key_noted(table, d, log)) {
                    Err(e) => Err(e),
                    Ok((indexes, log)) => Ok(
                        (
                            WritePlanV::CreateTable {
                                name: table,
                                fields: d.fields,
                                declared: d.declared,
                                rules: d.rules,
                                indexes,
                            },
                            log,
                        ),
                    ),
                }
            },
        }
    }
}

fn add_column(col: &ColumnDef, d: &mut Draft, log: &mut Log) -> (r: Result<(), SqlError>)
    ensures
        match with_column(col.deep_view(), old(d).deep_view(), old(log).deep_view()) {
            Ok((x, l)) => r is Ok && final(d).deep_view() == x && final(log).deep_view() == l,
            Err(e) => r is Err && r->Err_0.deep_view() == e,
        },
{
    if begins(col.name.as_str(), "_") {
        return Err(reserved_error(col.name.as_str()));
    }
    if col.primary_key && col.kind != Kind::Text {
        return Err(
            SqlError::Unsupported(
                cat3(
                    "PRIMARY KEY on `",
                    col.name.as_str(),
                    "`: an external key is a string, so the primary-key column is TEXT",
                ),
            ),
        );
    }
    if same(col.declared.as_str(), "TIMESTAMPTZ") || same(col.declared.as_str(), "DATE") {
        log.note(
            cat5(
                "`",
                col.name.as_str(),
                "` is declared ",
                col.declared.as_str(),
                " and stored as Kind::Int: UTC microseconds, no time-zone storage (QL_CONTRACT §5 deviation 8)",
            ),
        );
    }
    if is_time_type(col.declared.as_str()) {
        add_entry(&mut d.declared, col.name.clone(), col.declared.clone());
    }
    if let Some(rule) = &col.rule {
        note_rule(col.name.as_str(), col.declared.as_str(), rule, log);
        add_entry(&mut d.rules, col.name.clone(), rule.dup());
    }
    add_entry(&mut d.fields, col.name.clone(), col.kind);
    if col.primary_key {
        if d.keyed {
            d.overkeyed = true;
        }
        d.keyed = true;
    }
    Ok(())
}

fn draft(columns: &Vec<ColumnDef>, log: &mut Log) -> (r: Result<Draft, SqlError>)
    ensures
        logged(r, *final(log), with_columns(columns.deep_view(), old(log).deep_view())),
{
    let ghost all = columns.deep_view();
    let ghost start = log.deep_view();
    let mut d = Draft {
        fields: Vec::new(),
        declared: Vec::new(),
        rules: Vec::new(),
        keyed: false,
        overkeyed: false,
    };
    let mut i: usize = 0;
    assert(all.take(0) =~= Seq::<ColumnDefV>::empty());
    assert(d.fields.deep_view() =~= Seq::<(Seq<char>, Kind)>::empty());
    assert(d.declared.deep_view() =~= Seq::<(Seq<char>, Seq<char>)>::empty());
    assert(d.rules.deep_view() =~= Seq::<(Seq<char>, ColumnRuleV)>::empty());
    while i < columns.len()
        invariant
            i <= columns@.len(),
            all == columns.deep_view(),
            start == old(log).deep_view(),
            with_columns(all.take(i as int), start) == Ok::<(DraftV, LogV), SqlErrorV>(
                (d.deep_view(), log.deep_view()),
            ),
        decreases columns@.len() - i,
    {
        proof {
            take_next(all, i as int);
            assert(all[i as int] == columns@[i as int].deep_view());
        }
        match add_column(&columns[i], &mut d, log) {
            Ok(()) => {},
            Err(e) => {
                proof {
                    with_columns_stop(all, start, i as int + 1);
                }
                return Err(e);
            },
        }
        i = i + 1;
    }
    proof {
        take_all(all);
    }
    Ok(d)
}

impl Catalog {
    /// `CREATE TABLE`. Everything that can be refused is refused here, before
    /// anything is written.
    pub fn create_table(
        &self,
        table: &str,
        columns: &Vec<ColumnDef>,
        if_not_exists: bool,
        with: &Vec<WithIndex>,
        log: &mut Log,
    ) -> (r: Result<WritePlan, SqlError>)
        ensures
            logged(
                r,
                *final(log),
                create_table(
                    self.deep_view(),
                    table@,
                    columns.deep_view(),
                    if_not_exists,
                    with.deep_view(),
                    old(log).deep_view(),
                ),
            ),
    {
        if if_not_exists && self.find(table).is_some() {
            let tail = if with.len() == 0 {
                owned("")
            } else {
                cat3(
                    " -- and no index of the WITH clause was created either; `SHOW INDEXES ON ",
                    table,
                    "` says what the collection already has",
                )
            };
            return Ok(
                WritePlan::Notice(
                    cat4(
                        "CREATE TABLE IF NOT EXISTS ",
                        table,
                        ": the collection is already in the catalog, so nothing was created",
                        tail.as_str(),
                    ),
                ),
            );
        }
        let d = draft(columns, log)?;
        if d.overkeyed {
            return Err(
                SqlError::unsupported("two PRIMARY KEY columns: a row has one external key"),
            );
        }
        if d.keyed {
            log.note(
                cat3(
                    "PRIMARY KEY on `",
                    table,
                    "`: the column is stored as a declared field AND supplies the external key `Database::put` maps, so the key is held twice (battle50k deviation 13)",
                ),
            );
        }
        let indexes = self.with_indexes(table, &d.fields, with, log)?;
        Ok(
            WritePlan::CreateTable {
                name: owned(table),
                fields: d.fields,
                declared: d.declared,
                rules: d.rules,
                indexes: indexes.list,
            },
        )
    }
}

// ── DROP ─────────────────────────────────────────────────────────────────

/// `DROP TABLE`; nothing for `IF EXISTS` on a name that is not there.
pub open spec fn drop_table(cat: CatalogV, table: Seq<char>, if_exists: bool, cascade: bool) -> Result<
    Option<WritePlanV>,
    SqlErrorV,
> {
    match collection_named(cat, table) {
        Some(c) => Ok(Some(WritePlanV::DropTable { collection: c.id, name: table, cascade })),
        None => if if_exists {
            Ok(None)
        } else {
            Err(no_collection(table))
        },
    }
}

/// The lower of two identities, where there are two.
pub open spec fn lower_id(a: Option<u64>, b: Option<u64>) -> Option<u64> {
    match (a, b) {
        (Some(x), Some(y)) => Some(
            if x <= y {
                x
            } else {
                y
            },
        ),
        (Some(x), None) => Some(x),
        (None, b) => b,
    }
}

/// The lowest identity of an index named `name`, from position `i` on.
pub open spec fn named_from(list: Seq<IndexInfoV>, name: Seq<char>, i: nat) -> Option<u64>
    decreases list.len() - i,
{
    if i >= list.len() {
        None
    } else {
        lower_id(
            if list[i as int].name == name {
                Some(list[i as int].id)
            } else {
                None
            },
            named_from(list, name, i + 1),
        )
    }
}

/// The lowest identity of an index named `name` in any collection, from the
/// `i`-th collection on.
pub open spec fn index_from(list: Seq<CollectionV>, name: Seq<char>, i: nat) -> Option<u64>
    decreases list.len() - i,
{
    if i >= list.len() {
        None
    } else {
        lower_id(named_from(list[i as int].indexes, name, 0), index_from(list, name, i + 1))
    }
}

/// Whether some collection holds the index `id` under `name`.
pub open spec fn holds_id(cat: CatalogV, id: u64, name: Seq<char>) -> bool {
    exists|i: int, j: int|
        0 <= i < cat.collections.len() && 0 <= j < cat.collections[i].indexes.len() && (
        #[trigger] cat.collections[i].indexes[j]).id == id && cat.collections[i].indexes[j].name
            == name
}

proof fn named_is_there(list: Seq<IndexInfoV>, name: Seq<char>, i: nat)
    ensures
        named_from(list, name, i) matches Some(id) ==> exists|j: int|
            i <= j < list.len() && (#[trigger] list[j]).id == id && list[j].name == name,
        forall|j: int|
            i <= j < list.len() && (#[trigger] list[j]).name == name ==> named_from(
                list,
                name,
                i,
            ) is Some && named_from(list, name, i)->0 <= list[j].id,
    decreases list.len() - i,
{
    if i < list.len() {
        named_is_there(list, name, i + 1);
        if list[i as int].name == name {
            assert(list[i as int].id == list[i as int].id);
        }
    }
}

proof fn index_is_there(list: Seq<CollectionV>, name: Seq<char>, i: nat)
    ensures
        index_from(list, name, i) matches Some(id) ==> exists|k: int, j: int|
            i <= k < list.len() && 0 <= j < list[k].indexes.len() && (
            #[trigger] list[k].indexes[j]).id == id && list[k].indexes[j].name == name,
        forall|k: int, j: int|
            i <= k < list.len() && 0 <= j < list[k].indexes.len() && (
            #[trigger] list[k].indexes[j]).name == name ==> index_from(list, name, i) is Some
                && index_from(list, name, i)->0 <= list[k].indexes[j].id,
    decreases list.len() - i,
{
    if i < list.len() {
        index_is_there(list, name, i + 1);
        named_is_there(list[i as int].indexes, name, 0);
    }
}

/// A name resolves over the whole catalog: what is found is an index of that
/// name, the one with the lowest identity, and nothing is found only where no
/// collection has one.
pub proof fn index_names_resolve(cat: CatalogV, name: Seq<char>)
    ensures
        match index_from(cat.collections, name, 0) {
            Some(id) => holds_id(cat, id, name) && forall|other: u64| #[trigger]
                holds_id(cat, other, name) ==> id <= other,
            None => forall|id: u64| !#[trigger] holds_id(cat, id, name),
        },
{
    index_is_there(cat.collections, name, 0);
}

/// `DROP INDEX`.
pub open spec fn drop_index(cat: CatalogV, name: Seq<char>, if_exists: bool) -> Result<
    WritePlanV,
    SqlErrorV,
> {
    match index_from(cat.collections, name, 0) {
        Some(index) => Ok(WritePlanV::DropIndex { index, name }),
        None => if if_exists {
            Ok(
                WritePlanV::Notice("DROP INDEX IF EXISTS "@ + name + ": no such index"@),
            )
        } else {
            Err(SqlErrorV::Engine("no index named `"@ + name + "`"@))
        },
    }
}

fn lower_of(a: Option<u64>, b: Option<u64>) -> (r: Option<u64>)
    ensures
        r == lower_id(a, b),
{
    match (a, b) {
        (Some(x), Some(y)) => Some(
            if x <= y {
                x
            } else {
                y
            },
        ),
        (Some(x), None) => Some(x),
        (None, b) => b,
    }
}

fn named_index(list: &Vec<IndexInfo>, name: &str) -> (r: Option<u64>)
    ensures
        r == named_from(list.deep_view(), name@, 0),
{
    let ghost all = list.deep_view();
    let mut found: Option<u64> = None;
    let mut i: usize = list.len();
    while i > 0
        invariant
            i <= list@.len(),
            all == list.deep_view(),
            found == named_from(all, name@, i as nat),
        decreases i,
    {
        i = i - 1;
        assert(all[i as int] == list@[i as int].deep_view());
        let here = if same(list[i].name.as_str(), name) {
            Some(list[i].id)
        } else {
            None
        };
        found = lower_of(here, found);
    }
    found
}

impl Catalog {
    /// The identity of the index named `name`, in whatever collection it is.
    pub fn index_named(&self, name: &str) -> (r: Option<u64>)
        ensures
            r == index_from(self.deep_view().collections, name@, 0),
            match r {
                Some(id) => holds_id(self.deep_view(), id, name@),
                None => forall|id: u64| !#[trigger] holds_id(self.deep_view(), id, name@),
            },
    {
        let ghost all = self.collections.deep_view();
        let mut found: Option<u64> = None;
        let mut i: usize = self.collections.len();
        while i > 0
            invariant
                i <= self.collections@.len(),
                all == self.collections.deep_view(),
                found == index_from(all, name@, i as nat),
            decreases i,
        {
            i = i - 1;
            assert(all[i as int] == self.collections@[i as int].deep_view());
            found = lower_of(named_index(&self.collections[i].indexes, name), found);
        }
        proof {
            index_names_resolve(self.deep_view(), name@);
        }
        found
    }

    pub fn drop_table(&self, table: &str, if_exists: bool, cascade: bool) -> (r: Result<
        Option<WritePlan>,
        SqlError,
    >)
        ensures
            gives(r, drop_table(self.deep_view(), table@, if_exists, cascade)),
    {
        match self.find(table) {
            Some(c) => Ok(
                Some(WritePlan::DropTable { collection: c.id, name: owned(table), cascade }),
            ),
            None => if if_exists {
                Ok(None)
            } else {
                Err(SqlError::Engine(cat3("no collection named `", table, "`")))
            },
        }
    }

    pub fn drop_index(&self, name: &str, if_exists: bool) -> (r: Result<WritePlan, SqlError>)
        ensures
            gives(r, drop_index(self.deep_view(), name@, if_exists)),
    {
        match self.index_named(name) {
            Some(index) => Ok(WritePlan::DropIndex { index, name: owned(name) }),
            None => if if_exists {
                Ok(
                    WritePlan::Notice(cat3("DROP INDEX IF EXISTS ", name, ": no such index")),
                )
            } else {
                Err(SqlError::Engine(cat3("no index named `", name, "`")))
            },
        }
    }
}

// ── ALTER TABLE ──────────────────────────────────────────────────────────

/// The indexes over one column: their identities and names.
pub open spec fn indexes_over(list: Seq<IndexInfoV>, column: Seq<char>) -> Seq<(u64, Seq<char>)>
    decreases list.len(),
{
    if list.len() == 0 {
        Seq::empty()
    } else if list.last().field == column {
        indexes_over(list.drop_last(), column).push((list.last().id, list.last().name))
    } else {
        indexes_over(list.drop_last(), column)
    }
}

pub open spec fn index_names(list: Seq<(u64, Seq<char>)>) -> Seq<Seq<char>> {
    list.map_values(|entry: (u64, Seq<char>)| entry.1)
}

fn over(list: &Vec<IndexInfo>, column: &str) -> (r: Vec<(u64, String)>)
    ensures
        r.deep_view() == indexes_over(list.deep_view(), column@),
{
    let ghost all = list.deep_view();
    let mut out: Vec<(u64, String)> = Vec::new();
    let mut i: usize = 0;
    assert(all.take(0) =~= Seq::<IndexInfoV>::empty());
    assert(out.deep_view() =~= Seq::<(u64, Seq<char>)>::empty());
    while i < list.len()
        invariant
            i <= list@.len(),
            all == list.deep_view(),
            out.deep_view() == indexes_over(all.take(i as int), column@),
        decreases list@.len() - i,
    {
        proof {
            take_next(all, i as int);
            assert(all[i as int] == list@[i as int].deep_view());
        }
        if same(list[i].field.as_str(), column) {
            let ghost before = out.deep_view();
            let entry = (list[i].id, list[i].name.clone());
            out.push(entry);
            assert(out.deep_view() =~= before.push(entry.deep_view()));
        }
        i = i + 1;
    }
    proof {
        take_all(all);
    }
    out
}

fn names_of(list: &Vec<(u64, String)>) -> (r: Vec<String>)
    ensures
        texts(r@) == index_names(list.deep_view()),
{
    let mut out: Vec<String> = Vec::new();
    let mut i: usize = 0;
    while i < list.len()
        invariant
            i <= list@.len(),
            out@.len() == i,
            forall|k: int| 0 <= k < i ==> (#[trigger] out@[k])@ == list.deep_view()[k].1,
        decreases list@.len() - i,
    {
        out.push(list[i].1.clone());
        i = i + 1;
    }
    assert(texts(out@) =~= index_names(list.deep_view()));
    out
}

pub open spec fn no_column(table: Seq<char>, column: Seq<char>) -> SqlErrorV {
    SqlErrorV::Engine("no column `"@ + column + "` in `"@ + table + "`"@)
}

/// A descriptor rewrite of collection `c`.
pub open spec fn layout(
    c: CollectionV,
    table: Seq<char>,
    fields: Seq<(Seq<char>, Kind)>,
    declared: Seq<(Seq<char>, Seq<char>)>,
    rules: Seq<(Seq<char>, ColumnRuleV)>,
    drop_indexes: Seq<(u64, Seq<char>)>,
) -> WritePlanV {
    WritePlanV::AlterTable {
        collection: c.id,
        table,
        action: CompiledAlterV::Layout {
            fields,
            declared,
            rules,
            drop_indexes,
            create_indexes: Seq::empty(),
        },
    }
}

/// `ADD COLUMN`.
pub open spec fn add_column_of(c: CollectionV, table: Seq<char>, col: ColumnDefV, log: LogV) -> Result<
    (WritePlanV, LogV),
    SqlErrorV,
> {
    if stands_at(col.name, "_"@, 0) {
        Err(reserved_column(col.name))
    } else if has_name(c.fields, col.name) {
        Err(
            SqlErrorV::Engine(
                "ADD COLUMN "@ + col.name + ": `"@ + table + "` already has that column"@,
            ),
        )
    } else if col.primary_key {
        Err(
            SqlErrorV::Unsupported(
                "ADD COLUMN ... PRIMARY KEY: the external key is chosen when a row is put and is not a column the catalog can promote afterwards"@,
            ),
        )
    } else if col.rule is Some && col.rule->0.not_null && col.rule->0.default is None && c.occupied {
        Err(
            SqlErrorV::Refused {
                keyword: "ADD COLUMN ... NOT NULL"@,
                tier: Tier::Three,
                reason: "QL_CONTRACT §2: every existing row would read MISSING for the new column, so the constraint is false the moment it is recorded. Add the column with a DEFAULT, or add it nullable and fill it."@,
            },
        )
    } else {
        let log = match col.rule {
            Some(rule) => rule_noted(col.name, col.declared, rule, log),
            None => log,
        };
        Ok(
            (
                layout(
                    c,
                    table,
                    c.fields.push((col.name, col.kind)),
                    if time_type(col.declared) {
                        c.declared.push((col.name, col.declared))
                    } else {
                        c.declared
                    },
                    match col.rule {
                        Some(rule) => c.rules.push((col.name, rule)),
                        None => c.rules,
                    },
                    Seq::empty(),
                ),
                log.noted(
                    "ADD COLUMN "@ + col.name
                        + ": every row written before this commit reads MISSING for it, which is distinct from NULL (QL_CONTRACT §2)"@,
                ),
            ),
        )
    }
}

/// `DROP COLUMN`.
pub open spec fn drop_column_of(
    c: CollectionV,
    table: Seq<char>,
    column: Seq<char>,
    if_exists: bool,
    log: LogV,
) -> Result<(WritePlanV, LogV), SqlErrorV> {
    let over = indexes_over(c.indexes, column);
    if !has_name(c.fields, column) {
        if if_exists {
            Ok(
                (
                    WritePlanV::Notice(
                        "ALTER TABLE "@ + table + " DROP COLUMN IF EXISTS "@ + column
                            + ": no such column"@,
                    ),
                    log,
                ),
            )
        } else {
            Err(no_column(table, column))
        }
    } else {
        let log = if over.len() > 0 {
            log.noted(
                "DROP COLUMN "@ + column + ": its index(es) "@ + joined(index_names(over), ", "@)
                    + " are dropped with it, each by the ordinary bounded drop, committed before the layout is repointed"@,
            )
        } else {
            log
        };
        Ok(
            (
                layout(
                    c,
                    table,
                    without(c.fields, column),
                    without(c.declared, column),
                    without(c.rules, column),
                    over,
                ),
                log.noted(
                    "DROP COLUMN "@ + column
                        + ": no row is rewritten -- a row decodes under the immutable layout it was written with, and the new layout is what projection and predicates see"@,
                ),
            ),
        )
    }
}

/// `RENAME COLUMN`.
pub open spec fn rename_column_of(
    c: CollectionV,
    table: Seq<char>,
    from: Seq<char>,
    to: Seq<char>,
    log: LogV,
) -> Result<(WritePlanV, LogV), SqlErrorV> {
    let over = indexes_over(c.indexes, from);
    if !has_name(c.fields, from) {
        Err(no_column(table, from))
    } else if has_name(c.fields, to) {
        Err(
            SqlErrorV::Engine(
                "RENAME COLUMN "@ + from + " TO "@ + to + ": `"@ + table
                    + ("` already has a column `"@ + to + "`"@),
            ),
        )
    } else if c.occupied {
        Err(
            SqlErrorV::Refused {
                keyword: "RENAME COLUMN"@,
                tier: Tier::Three,
                reason: "QL_CONTRACT §2: a dense row decodes under the IMMUTABLE layout it was written with, and that layout carries the old name, so every existing row would read MISSING under the new one. Renaming a populated column needs every row rewritten and there is no bounded resumable rewrite atomic. On an empty collection it is the ordinary descriptor rewrite."@,
            },
        )
    } else if over.len() > 0 {
        let index = over[0].1;
        Err(
            SqlErrorV::Unsupported(
                "RENAME COLUMN "@ + from + ": the index `"@ + index + "` names `"@ + from
                    + ("` in its own descriptor, and there is no atomic that rewrites an index descriptor's field; DROP INDEX "@
                    + index + " first and create it again on `"@ + to + "`"@),
            ),
        )
    } else {
        Ok(
            (
                layout(
                    c,
                    table,
                    renamed(c.fields, from, to),
                    renamed(c.declared, from, to),
                    renamed(c.rules, from, to),
                    Seq::empty(),
                ),
                log.noted(
                    "RENAME COLUMN "@ + from + " TO "@ + to
                        + ": the DECLARED type and the COLUMN RULE follow the column; rows written before this commit still carry the OLD name in their own layout and read back under the new one"@,
                ),
            ),
        )
    }
}

/// `ALTER COLUMN ... TYPE`, within one kind.
pub open spec fn column_type_of(
    c: CollectionV,
    table: Seq<char>,
    column: Seq<char>,
    kind: Kind,
    spelling: Seq<char>,
    log: LogV,
) -> Result<(WritePlanV, LogV), SqlErrorV> {
    match kind_from(c.fields, column, 0) {
        None => Err(no_column(table, column)),
        Some(was) => if was != kind {
            Err(
                SqlErrorV::Refused {
                    keyword: "ALTER COLUMN "@ + column + " TYPE "@ + spelling + " ("@ + kind_name(
                        was,
                    ) + (" -> "@ + kind_name(kind) + ")"@),
                    tier: Tier::Three,
                    reason: "QL_CONTRACT §2: a Kind change rewrites every row and re-encodes every scalar index key -- work proportional to the collection, and no bounded resumable rewrite atomic exists. Within one Kind (INT <-> BIGINT, REAL <-> DOUBLE PRECISION) it is Tier 1 and changes the declared spelling only."@,
                },
            )
        } else {
            Ok(
                (
                    layout(
                        c,
                        table,
                        c.fields,
                        if time_type(spelling) {
                            without(c.declared, column).push((column, spelling))
                        } else {
                            without(c.declared, column)
                        },
                        c.rules,
                        Seq::empty(),
                    ),
                    log.noted(
                        "ALTER COLUMN "@ + column + " TYPE "@ + spelling + ": `"@ + kind_name(was)
                            + "` is unchanged, so no row byte and no index key moves; what changes is the DECLARED spelling in the descriptor"@,
                    ),
                ),
            )
        },
    }
}

/// `ALTER TABLE`, against the catalog as it stands.
pub open spec fn alter_table(cat: CatalogV, table: Seq<char>, action: AlterActionV, log: LogV) -> Result<
    (WritePlanV, LogV),
    SqlErrorV,
> {
    match collection_of(cat, table) {
        Err(e) => Err(e),
        Ok(c) => match action {
            AlterActionV::RenameTable { to } => if collection_named(cat, to) is Some {
                Err(
                    SqlErrorV::Engine(
                        "ALTER TABLE "@ + table + " RENAME TO "@ + to
                            + ": a collection named `"@ + to + "` already exists"@,
                    ),
                )
            } else {
                Ok(
                    (
                        WritePlanV::AlterTable {
                            collection: c.id,
                            table,
                            action: CompiledAlterV::Rename { to },
                        },
                        log,
                    ),
                )
            },
            AlterActionV::AddColumn(col) => add_column_of(c, table, *col, log),
            AlterActionV::DropColumn { column, if_exists } => drop_column_of(
                c,
                table,
                column,
                if_exists,
                log,
            ),
            AlterActionV::RenameColumn { from, to } => rename_column_of(c, table, from, to, log),
            AlterActionV::ColumnType { column, kind, declared } => column_type_of(
                c,
                table,
                column,
                kind,
                declared,
                log,
            ),
        },
    }
}

fn relayout(
    c: &Collection,
    table: &str,
    fields: Vec<(String, Kind)>,
    declared: Vec<(String, String)>,
    rules: Vec<(String, ColumnRule)>,
    drop_indexes: Vec<(u64, String)>,
) -> (r: WritePlan)
    ensures
        r.deep_view() == layout(
            c.deep_view(),
            table@,
            fields.deep_view(),
            declared.deep_view(),
            rules.deep_view(),
            drop_indexes.deep_view(),
        ),
{
    let create_indexes: Vec<(String, CompiledIndex)> = Vec::new();
    assert(create_indexes.deep_view() =~= Seq::<(Seq<char>, CompiledIndexV)>::empty());
    WritePlan::AlterTable {
        collection: c.id,
        table: owned(table),
        action: CompiledAlter::Layout { fields, declared, rules, drop_indexes, create_indexes },
    }
}

fn none_dropped() -> (r: Vec<(u64, String)>)
    ensures
        r.deep_view() == Seq::<(u64, Seq<char>)>::empty(),
{
    let r: Vec<(u64, String)> = Vec::new();
    assert(r.deep_view() =~= Seq::<(u64, Seq<char>)>::empty());
    r
}

fn no_column_error(table: &str, column: &str) -> (r: SqlError)
    ensures
        r.deep_view() == no_column(table@, column@),
{
    SqlError::Engine(cat5("no column `", column, "` in `", table, "`"))
}

impl Collection {
    fn add_column(&self, table: &str, col: &ColumnDef, log: &mut Log) -> (r: Result<
        WritePlan,
        SqlError,
    >)
        ensures
            logged(
                r,
                *final(log),
                add_column_of(self.deep_view(), table@, col.deep_view(), old(log).deep_view()),
            ),
    {
        let name = col.name.as_str();
        if begins(name, "_") {
            return Err(reserved_error(name));
        }
        if holds_name(&self.fields, name) {
            return Err(
                SqlError::Engine(
                    cat5("ADD COLUMN ", name, ": `", table, "` already has that column"),
                ),
            );
        }
        if col.primary_key {
            return Err(
                SqlError::unsupported(
                    "ADD COLUMN ... PRIMARY KEY: the external key is chosen when a row is put and is not a column the catalog can promote afterwards",
                ),
            );
        }
        let mut declared = copy_list(&self.declared);
        let mut rules = copy_list(&self.rules);
        let mut fields = copy_list(&self.fields);
        if let Some(rule) = &col.rule {
            if rule.not_null && rule.default.is_none() && self.occupied {
                return Err(
                    SqlError::refused(
                        "ADD COLUMN ... NOT NULL",
                        Tier::Three,
                        "QL_CONTRACT §2: every existing row would read MISSING for the new column, so the constraint is false the moment it is recorded. Add the column with a DEFAULT, or add it nullable and fill it.",
                    ),
                );
            }
            note_rule(name, col.declared.as_str(), rule, log);
            add_entry(&mut rules, owned(name), rule.dup());
        }
        if is_time_type(col.declared.as_str()) {
            add_entry(&mut declared, owned(name), col.declared.clone());
        }
        add_entry(&mut fields, owned(name), col.kind);
        log.note(
            cat3(
                "ADD COLUMN ",
                name,
                ": every row written before this commit reads MISSING for it, which is distinct from NULL (QL_CONTRACT §2)",
            ),
        );
        Ok(relayout(self, table, fields, declared, rules, none_dropped()))
    }

    fn drop_column(&self, table: &str, column: &str, if_exists: bool, log: &mut Log) -> (r: Result<
        WritePlan,
        SqlError,
    >)
        ensures
            logged(
                r,
                *final(log),
                drop_column_of(
                    self.deep_view(),
                    table@,
                    column@,
                    if_exists,
                    old(log).deep_view(),
                ),
            ),
    {
        if !holds_name(&self.fields, column) {
            if if_exists {
                return Ok(
                    WritePlan::Notice(
                        cat5(
                            "ALTER TABLE ",
                            table,
                            " DROP COLUMN IF EXISTS ",
                            column,
                            ": no such column",
                        ),
                    ),
                );
            }
            return Err(no_column_error(table, column));
        }
        let gone = over(&self.indexes, column);
        if gone.len() > 0 {
            log.note(
                cat5(
                    "DROP COLUMN ",
                    column,
                    ": its index(es) ",
                    join(&names_of(&gone), ", ").as_str(),
                    " are dropped with it, each by the ordinary bounded drop, committed before the layout is repointed",
                ),
            );
        }
        log.note(
            cat3(
                "DROP COLUMN ",
                column,
                ": no row is rewritten -- a row decodes under the immutable layout it was written with, and the new layout is what projection and predicates see",
            ),
        );
        Ok(
            relayout(
                self,
                table,
                leave_out(&self.fields, column),
                leave_out(&self.declared, column),
                leave_out(&self.rules, column),
                gone,
            ),
        )
    }

    fn rename_column(&self, table: &str, from: &str, to: &str, log: &mut Log) -> (r: Result<
        WritePlan,
        SqlError,
    >)
        ensures
            logged(
                r,
                *final(log),
                rename_column_of(self.deep_view(), table@, from@, to@, old(log).deep_view()),
            ),
    {
        if !holds_name(&self.fields, from) {
            return Err(no_column_error(table, from));
        }
        if holds_name(&self.fields, to) {
            return Err(
                SqlError::Engine(
                    cat7(
                        "RENAME COLUMN ",
                        from,
                        " TO ",
                        to,
                        ": `",
                        table,
                        cat3("` already has a column `", to, "`").as_str(),
                    ),
                ),
            );
        }
        if self.occupied {
            return Err(
                SqlError::refused(
                    "RENAME COLUMN",
                    Tier::Three,
                    "QL_CONTRACT §2: a dense row decodes under the IMMUTABLE layout it was written with, and that layout carries the old name, so every existing row would read MISSING under the new one. Renaming a populated column needs every row rewritten and there is no bounded resumable rewrite atomic. On an empty collection it is the ordinary descriptor rewrite.",
                ),
            );
        }
        let held = over(&self.indexes, from);
        if held.len() > 0 {
            let index = held[0].1.as_str();
            assert(held.deep_view()[0].1 == index@);
            let tail = cat5(
                "` in its own descriptor, and there is no atomic that rewrites an index descriptor's field; DROP INDEX ",
                index,
                " first and create it again on `",
                to,
                "`",
            );
            return Err(
                SqlError::Unsupported(
                    cat7(
                        "RENAME COLUMN ",
                        from,
                        ": the index `",
                        index,
                        "` names `",
                        from,
                        tail.as_str(),
                    ),
                ),
            );
        }
        log.note(
            cat5(
                "RENAME COLUMN ",
                from,
                " TO ",
                to,
                ": the DECLARED type and the COLUMN RULE follow the column; rows written before this commit still carry the OLD name in their own layout and read back under the new one",
            ),
        );
        Ok(
            relayout(
                self,
                table,
                rename_in(&self.fields, from, to),
                rename_in(&self.declared, from, to),
                rename_in(&self.rules, from, to),
                none_dropped(),
            ),
        )
    }

    fn column_type(&self, table: &str, column: &str, kind: Kind, spelling: &str, log: &mut Log) -> (r:
        Result<WritePlan, SqlError>)
        ensures
            logged(
                r,
                *final(log),
                column_type_of(
                    self.deep_view(),
                    table@,
                    column@,
                    kind,
                    spelling@,
                    old(log).deep_view(),
                ),
            ),
    {
        let was = match kind_in(&self.fields, column) {
            Some(was) => was,
            None => return Err(no_column_error(table, column)),
        };
        if was != kind {
            let tail = cat3(" -> ", kind.named().as_str(), ")");
            return Err(
                SqlError::Refused {
                    keyword: cat7(
                        "ALTER COLUMN ",
                        column,
                        " TYPE ",
                        spelling,
                        " (",
                        was.named().as_str(),
                        tail.as_str(),
                    ),
                    tier: Tier::Three,
                    reason: owned(
                        "QL_CONTRACT §2: a Kind change rewrites every row and re-encodes every scalar index key -- work proportional to the collection, and no bounded resumable rewrite atomic exists. Within one Kind (INT <-> BIGINT, REAL <-> DOUBLE PRECISION) it is Tier 1 and changes the declared spelling only.",
                    ),
                },
            );
        }
        let mut declared = leave_out(&self.declared, column);
        if is_time_type(spelling) {
            add_entry(&mut declared, owned(column), owned(spelling));
        }
        log.note(
            cat7(
                "ALTER COLUMN ",
                column,
                " TYPE ",
                spelling,
                ": `",
                was.named().as_str(),
                "` is unchanged, so no row byte and no index key moves; what changes is the DECLARED spelling in the descriptor",
            ),
        );
        Ok(
            relayout(
                self,
                table,
                copy_list(&self.fields),
                declared,
                copy_list(&self.rules),
                none_dropped(),
            ),
        )
    }
}

impl Catalog {
    /// `ALTER TABLE`, against the catalog as it stands.
    pub fn alter_table(&self, table: &str, action: &AlterAction, log: &mut Log) -> (r: Result<
        WritePlan,
        SqlError,
    >)
        ensures
            logged(
                r,
                *final(log),
                alter_table(self.deep_view(), table@, action.deep_view(), old(log).deep_view()),
            ),
    {
        let c = self.collection(table)?;
        match action {
            AlterAction::RenameTable { to } => {
                if self.find(to.as_str()).is_some() {
                    return Err(
                        SqlError::Engine(
                            cat7(
                                "ALTER TABLE ",
                                table,
                                " RENAME TO ",
                                to.as_str(),
                                ": a collection named `",
                                to.as_str(),
                                "` already exists",
                            ),
                        ),
                    );
                }
                Ok(
                    WritePlan::AlterTable {
                        collection: c.id,
                        table: owned(table),
                        action: CompiledAlter::Rename { to: to.clone() },
                    },
                )
            },
            AlterAction::AddColumn(col) => c.add_column(table, col, log),
            AlterAction::DropColumn { column, if_exists } => c.drop_column(
                table,
                column.as_str(),
                *if_exists,
                log,
            ),
            AlterAction::RenameColumn { from, to } => c.rename_column(
                table,
                from.as_str(),
                to.as_str(),
                log,
            ),
            AlterAction::ColumnType { column, kind, declared } => c.column_type(
                table,
                column.as_str(),
                *kind,
                declared.as_str(),
                log,
            ),
        }
    }
}

// ── CREATE INDEX ─────────────────────────────────────────────────────────

/// The index that a method makes over collection `c`.
pub open spec fn index_method(c: CollectionV, method: IndexMethodV, log: LogV) -> Result<
    (CompiledIndexV, LogV),
    SqlErrorV,
> {
    match method {
        IndexMethodV::Btree(field) => match kind_of(c, field) {
            Err(e) => Err(e),
            Ok(_) => Ok((CompiledIndexV::Scalar { field, unique: false }, log)),
        },
        IndexMethodV::LowerBtree(field) => match kind_of(c, field) {
            Err(e) => Err(e),
            Ok(kind) => if kind != Kind::Text {
                Err(
                    SqlErrorV::Unsupported(
                        "lower("@ + field
                            + "): the expression QL_CONTRACT §4.1 names folds a TEXT column"@,
                    ),
                )
            } else {
                Ok(
                    (
                        CompiledIndexV::LowerScalar { field },
                        log.noted(
                            "an expression index over lower("@ + field
                                + ") stores the FOLDED value: `"@ + field
                                + " = 'X'` still needs the plain index over `"@ + field
                                + ("`, and `lower("@ + field + ") = 'x'` needs this one"@),
                        ),
                    ),
                )
            },
        },
        IndexMethodV::Gin(field) => match kind_of(c, field) {
            Err(e) => Err(e),
            Ok(kind) => if kind != Kind::Text {
                Err(
                    SqlErrorV::Unsupported(
                        "gin(to_tsvector('simple', "@ + field
                            + ")): a text index spans one declared TEXT field (battle50k deviation 1)"@,
                    ),
                )
            } else {
                Ok((CompiledIndexV::Text { field }, log))
            },
        },
        IndexMethodV::Gist(field) => match kind_of(c, field) {
            Err(e) => Err(e),
            Ok(Kind::Point) => Ok((CompiledIndexV::Point { field }, log)),
            Ok(Kind::Geo) => Ok((CompiledIndexV::Geometry { field }, log)),
            Ok(other) => Err(
                SqlErrorV::Unsupported(
                    "gist("@ + field + "): `"@ + field + "` is "@ + kind_name(other)
                        + "; the spatial families index a Point or a Geo column"@,
                ),
            ),
        },
        IndexMethodV::Exact(field) => match kind_of(c, field) {
            Err(e) => Err(e),
            Ok(kind) => if !(kind is Vector) {
                Err(
                    SqlErrorV::Unsupported(
                        "exact("@ + field + "): the exact family indexes a VECTOR column"@,
                    ),
                )
            } else {
                Ok((CompiledIndexV::ExactVector { field }, log))
            },
        },
        IndexMethodV::Quantized { column, alias } => match kind_of(c, column) {
            Err(e) => Err(e),
            Ok(kind) => if !(kind is Vector) {
                Err(
                    SqlErrorV::Unsupported(
                        "quantized("@ + column
                            + "): the quantized family indexes a VECTOR column"@,
                    ),
                )
            } else {
                Ok(
                    (
                        CompiledIndexV::QuantizedVector { field: column },
                        match alias {
                            None => log,
                            Some(alias) => log.noted(
                                "USING "@ + lower(alias)
                                    + " is an alias of `quantized` and builds no new family (QL_CONTRACT §5 deviation 6): a symmetric int8 companion index with an f32 rerank, not a graph"@,
                            ),
                        },
                    ),
                )
            },
        },
    }
}

/// `CREATE INDEX`.
pub open spec fn create_index(
    cat: CatalogV,
    name: Seq<char>,
    table: Seq<char>,
    method: IndexMethodV,
    log: LogV,
) -> Result<(WritePlanV, LogV), SqlErrorV> {
    match collection_of(cat, table) {
        Err(e) => Err(e),
        Ok(c) => match index_method(c, method, log) {
            Err(e) => Err(e),
            Ok((method, log)) => Ok(
                (WritePlanV::CreateIndex { collection: c.id, name, method }, log),
            ),
        },
    }
}

impl Collection {
    fn index_method(&self, method: &IndexMethod, log: &mut Log) -> (r: Result<
        CompiledIndex,
        SqlError,
    >)
        ensures
            logged(
                r,
                *final(log),
                index_method(self.deep_view(), method.deep_view(), old(log).deep_view()),
            ),
    {
        match method {
            IndexMethod::Btree(field) => {
                let _kind = self.kind_of(field.as_str())?;
                Ok(CompiledIndex::Scalar { field: field.clone(), unique: false })
            },
            IndexMethod::LowerBtree(field) => {
                let f = field.as_str();
                if self.kind_of(f)? != Kind::Text {
                    return Err(
                        SqlError::Unsupported(
                            cat3(
                                "lower(",
                                f,
                                "): the expression QL_CONTRACT §4.1 names folds a TEXT column",
                            ),
                        ),
                    );
                }
                let tail = cat3("`, and `lower(", f, ") = 'x'` needs this one");
                log.note(
                    cat7(
                        "an expression index over lower(",
                        f,
                        ") stores the FOLDED value: `",
                        f,
                        " = 'X'` still needs the plain index over `",
                        f,
                        tail.as_str(),
                    ),
                );
                Ok(CompiledIndex::LowerScalar { field: field.clone() })
            },
            IndexMethod::Gin(field) => {
                if self.kind_of(field.as_str())? != Kind::Text {
                    return Err(
                        SqlError::Unsupported(
                            cat3(
                                "gin(to_tsvector('simple', ",
                                field.as_str(),
                                ")): a text index spans one declared TEXT field (battle50k deviation 1)",
                            ),
                        ),
                    );
                }
                Ok(CompiledIndex::Text { field: field.clone() })
            },
            IndexMethod::Gist(field) => match self.kind_of(field.as_str())? {
                Kind::Point => Ok(CompiledIndex::Point { field: field.clone() }),
                Kind::Geo => Ok(CompiledIndex::Geometry { field: field.clone() }),
                other => Err(
                    SqlError::Unsupported(
                        cat7(
                            "gist(",
                            field.as_str(),
                            "): `",
                            field.as_str(),
                            "` is ",
                            other.named().as_str(),
                            "; the spatial families index a Point or a Geo column",
                        ),
                    ),
                ),
            },
            IndexMethod::Exact(field) => match self.kind_of(field.as_str())? {
                Kind::Vector(_) => Ok(CompiledIndex::ExactVector { field: field.clone() }),
                _ => Err(
                    SqlError::Unsupported(
                        cat3(
                            "exact(",
                            field.as_str(),
                            "): the exact family indexes a VECTOR column",
                        ),
                    ),
                ),
            },
            IndexMethod::Quantized { column, alias } => match self.kind_of(column.as_str())? {
                Kind::Vector(_) => {
                    if let Some(alias) = alias {
                        log.note(
                            cat3(
                                "USING ",
                                ascii_lower(alias.as_str()).as_str(),
                                " is an alias of `quantized` and builds no new family (QL_CONTRACT §5 deviation 6): a symmetric int8 companion index with an f32 rerank, not a graph",
                            ),
                        );
                    }
                    Ok(CompiledIndex::QuantizedVector { field: column.clone() })
                },
                _ => Err(
                    SqlError::Unsupported(
                        cat3(
                            "quantized(",
                            column.as_str(),
                            "): the quantized family indexes a VECTOR column",
                        ),
                    ),
                ),
            },
        }
    }
}

impl Catalog {
    /// `CREATE INDEX`.
    pub fn create_index(&self, name: &str, table: &str, method: &IndexMethod, log: &mut Log) -> (r:
        Result<WritePlan, SqlError>)
        ensures
            logged(
                r,
                *final(log),
                create_index(
                    self.deep_view(),
                    name@,
                    table@,
                    method.deep_view(),
                    old(log).deep_view(),
                ),
            ),
    {
        let c = self.collection(table)?;
        let method = c.index_method(method, log)?;
        Ok(WritePlan::CreateIndex { collection: c.id, name: owned(name), method })
    }
}

} // verus!
