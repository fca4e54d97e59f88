//! Column rules and the index clause of a definition.

use vstd::prelude::*;
use crate::compile::env::{kind_from, kind_in, Catalog, CatalogV, IndexInfo};
use crate::compile::log::{logged, Log, LogV};
use crate::compile::plan::{CompiledIndex, CompiledIndexV};
use crate::error::{gives, SqlError, SqlErrorV};
use crate::instant::{is_time_type, time_type};
use crate::lists::{take_all, take_next};
use crate::named::{add_entry, has_name, holds_name};
use crate::stmt::{WithIndex, WithIndexV};
use crate::text::{cat2, cat3, cat4, cat5, cat6, cat7, owned, same};
use crate::value::{
    kind_name, ColumnRule, ColumnRuleV, DefaultValue, DefaultValueV, Kind,
};

verus! {

// ── rules ────────────────────────────────────────────────────────────────

/// The generator of a default, as a column is declared with it.
pub open spec fn generator_words(value: DefaultValueV) -> Seq<char> {
    match value {
        DefaultValueV::Now => "now()"@,
        DefaultValueV::Uuid4 => "uuid4()"@,
        DefaultValueV::Uuid5 { namespace, name } => "uuid5('"@ + namespace + "', '"@ + name + "')"@,
    }
}

pub fn write_generator(value: &DefaultValue) -> (r: String)
    ensures
        r@ == generator_words(value.deep_view()),
{
    match value {
        DefaultValue::Now => owned("now()"),
        DefaultValue::Uuid4 => owned("uuid4()"),
        DefaultValue::Uuid5 { namespace, name } => cat5(
            "uuid5('",
            namespace.as_str(),
            "', '",
            name.as_str(),
            "')",
        ),
    }
}

/// A column rule as a `CREATE TABLE` would have written it.
pub open spec fn rule_text(rule: ColumnRuleV) -> Seq<char> {
    match (rule.default, rule.not_null) {
        (None, false) => ""@,
        (None, true) => "NOT NULL"@,
        (Some(value), false) => "DEFAULT "@ + generator_words(value),
        (Some(value), true) => "DEFAULT "@ + generator_words(value) + " NOT NULL"@,
    }
}

pub fn written_rule(rule: &ColumnRule) -> (r: String)
    ensures
        r@ == rule_text(rule.deep_view()),
{
    let default = match &rule.default {
        None => {
            return owned(
                if rule.not_null {
                    "NOT NULL"
                } else {
                    ""
                },
            );
        },
        Some(value) => cat2("DEFAULT ", write_generator(value).as_str()),
    };
    if rule.not_null {
        cat2(default.as_str(), " NOT NULL")
    } else {
        default
    }
}

/// What a rule costs and what it does not say.
pub open spec fn rule_noted(column: Seq<char>, declared: Seq<char>, rule: ColumnRuleV, log: LogV) -> LogV {
    let log = match rule.default {
        None => log,
        Some(DefaultValueV::Now) => {
            let log = if !time_type(declared) {
                log.noted(
                    "DEFAULT now() on `"@ + column + "`, declared "@ + declared
                        + ": the stored value is UTC microseconds and prints back as the integer it is, because only a declared TIMESTAMPTZ/DATE prints as ISO-8601 (QL_CONTRACT §4.2)"@,
                )
            } else {
                log
            };
            log.noted(
                "DEFAULT now() on `"@ + column
                    + "`: ONE clock read per row, taken when the row is assembled -- not at prepare time, so two rows of one INSERT can differ"@,
            )
        },
        Some(DefaultValueV::Uuid4) => log.noted(
            "DEFAULT uuid4() on `"@ + column
                + "`: sixteen bytes from the operating system per row, RFC 4122 version 4 -- a value the database chose, so an INSERT that wants its own writes it"@,
        ),
        Some(DefaultValueV::Uuid5 { .. }) => log.noted(
            "DEFAULT uuid5(...) on `"@ + column
                + "`: RFC 4122 version 5 over a FIXED namespace and name, so every row that takes the default takes the SAME uuid -- it is deterministic, not unique"@,
        ),
    };
    if rule.not_null {
        log.noted(
            "NOT NULL on `"@ + column
                + "`: checked when the row is assembled; e4 distinguishes MISSING from NULL and refuses both, naming the column"@,
        )
    } else {
        log
    }
}

pub fn note_rule(column: &str, declared: &str, rule: &ColumnRule, log: &mut Log)
    ensures
        final(log).deep_view() == rule_noted(
            column@,
            declared@,
            rule.deep_view(),
            old(log).deep_view(),
        ),
{
    match &rule.default {
        None => {},
        Some(DefaultValue::Now) => {
            if !is_time_type(declared) {
                log.note(
                    cat5(
                        "DEFAULT now() on `",
                        column,
                        "`, declared ",
                        declared,
                        ": the stored value is UTC microseconds and prints back as the integer it is, because only a declared TIMESTAMPTZ/DATE prints as ISO-8601 (QL_CONTRACT §4.2)",
                    ),
                );
            }
            log.note(
                cat3(
                    "DEFAULT now() on `",
                    column,
                    "`: ONE clock read per row, taken when the row is assembled -- not at prepare time, so two rows of one INSERT can differ",
                ),
            );
        },
        Some(DefaultValue::Uuid4) => {
            log.note(
                cat3(
                    "DEFAULT uuid4() on `",
                    column,
                    "`: sixteen bytes from the operating system per row, RFC 4122 version 4 -- a value the database chose, so an INSERT that wants its own writes it",
                ),
            );
        },
        Some(DefaultValue::Uuid5 { .. }) => {
            log.note(
                cat3(
                    "DEFAULT uuid5(...) on `",
                    column,
                    "`: RFC 4122 version 5 over a FIXED namespace and name, so every row that takes the default takes the SAME uuid -- it is deterministic, not unique",
                ),
            );
        },
    }
    if rule.not_null {
        log.note(
            cat3(
                "NOT NULL on `",
                column,
                "`: checked when the row is assembled; e4 distinguishes MISSING from NULL and refuses both, naming the column",
            ),
        );
    }
}

// ── index families ───────────────────────────────────────────────────────

pub open spec fn family_refusal(
    key: Seq<char>,
    column: Seq<char>,
    kind: Kind,
    family: Seq<char>,
    wants: Seq<char>,
) -> SqlErrorV {
    SqlErrorV::Unsupported(
        "WITH ("@ + key + ": ["@ + column + "]): `"@ + key + ("` is a `"@ + family
            + "` index and a `"@ + family + "` indexes "@ + wants + "; `"@) + (column
            + "` is declared "@ + kind_name(kind)
            + ". The keys are hash, range, fulltext, bm25, spatial, vector, quantized (QL_CONTRACT §2)"@),
    )
}

fn refuse_family(key: &str, column: &str, kind: Kind, family: &str, wants: &str) -> (r: SqlError)
    ensures
        r.deep_view() == family_refusal(key@, column@, kind, family@, wants@),
{
    let middle = cat7("` is a `", family, "` index and a `", family, "` indexes ", wants, "; `");
    let tail = cat4(
        column,
        "` is declared ",
        kind.named().as_str(),
        ". The keys are hash, range, fulltext, bm25, spatial, vector, quantized (QL_CONTRACT §2)",
    );
    let head = cat6("WITH (", key, ": [", column, "]): `", key);
    SqlError::Unsupported(cat3(head.as_str(), middle.as_str(), tail.as_str()))
}

/// The family that a `WITH` key became, the index it stands for, and why.
pub open spec fn with_family(key: Seq<char>, column: Seq<char>, kind: Kind) -> Result<
    (Seq<char>, CompiledIndexV, Seq<char>),
    SqlErrorV,
> {
    let scalar = kind == Kind::Bool || kind == Kind::Int || kind == Kind::Real || kind
        == Kind::Text;
    if key == "hash"@ || key == "range"@ {
        if !scalar {
            Err(
                family_refusal(
                    key,
                    column,
                    kind,
                    "btree"@,
                    "a BOOLEAN, INT, REAL or TEXT column"@,
                ),
            )
        } else {
            Ok(
                (
                    "btree"@,
                    CompiledIndexV::Scalar { field: column, unique: false },
                    if key == "hash"@ {
                        "`hash` became a `btree` over `"@ + column
                            + "` -- there is no separate hash family here, and a `btree` answers equality"@
                    } else {
                        "`range` became a `btree` over `"@ + column
                            + "` -- one scalar family answers equality and range alike"@
                    },
                ),
            )
        }
    } else if key == "fulltext"@ || key == "bm25"@ {
        if kind != Kind::Text {
            Err(family_refusal(key, column, kind, "gin"@, "a declared TEXT column"@))
        } else {
            Ok(
                (
                    "gin"@,
                    CompiledIndexV::Text { field: column },
                    if key == "fulltext"@ {
                        "`fulltext` became a `gin` over `to_tsvector('simple', "@ + column
                            + ")` -- analyzer v1, one text index per declared TEXT field"@
                    } else {
                        "`bm25` became a `gin` over `to_tsvector('simple', "@ + column
                            + ")` -- BM25 is how that one text index SCORES, not a family of its own"@
                    },
                ),
            )
        }
    } else if key == "spatial"@ {
        match kind {
            Kind::Point => Ok(
                (
                    "gist"@,
                    CompiledIndexV::Point { field: column },
                    "`spatial` became a `gist` over `"@ + column
                        + "` -- the POINT family, Hilbert postings and the ring walk a nearest order takes"@,
                ),
            ),
            Kind::Geo => Ok(
                (
                    "gist"@,
                    CompiledIndexV::Geometry { field: column },
                    "`spatial` became a `gist` over `"@ + column
                        + "` -- the GEOMETRY family, cell covers at three levels"@,
                ),
            ),
            _ => Err(
                family_refusal(
                    key,
                    column,
                    kind,
                    "gist"@,
                    "a GEOMETRY(Point) or GEOMETRY(Polygon) column"@,
                ),
            ),
        }
    } else if key == "vector"@ {
        if !(kind is Vector) {
            Err(family_refusal(key, column, kind, "exact"@, "a VECTOR(n) column"@))
        } else {
            Ok(
                (
                    "exact"@,
                    CompiledIndexV::ExactVector { field: column },
                    "`vector` became an `exact` vector index over `"@ + column
                        + "` -- every vector is scored, so the answer is the true nearest set"@,
                ),
            )
        }
    } else if key == "quantized"@ {
        if !(kind is Vector) {
            Err(family_refusal(key, column, kind, "quantized"@, "a VECTOR(n) column"@))
        } else {
            Ok(
                (
                    "quantized"@,
                    CompiledIndexV::QuantizedVector { field: column },
                    "`quantized` became a `quantized` vector index over `"@ + column
                        + "` -- a symmetric int8 companion with an f32 rerank, so the answer is APPROXIMATE and says so"@,
                ),
            )
        }
    } else {
        Err(
            SqlErrorV::Unsupported(
                "WITH ("@ + key + ": ["@ + column + "]): `"@ + key
                    + "` is not an index key. The keys are hash, range, fulltext, bm25, spatial, vector, quantized (QL_CONTRACT §2)"@,
            ),
        )
    }
}

/// A `WITH` key, resolved.
#[derive(Debug)]
pub struct Family {
    pub family: &'static str,
    pub method: CompiledIndex,
    pub why: String,
}

impl DeepView for Family {
    type V = (Seq<char>, CompiledIndexV, Seq<char>);

    open spec fn deep_view(&self) -> (Seq<char>, CompiledIndexV, Seq<char>) {
        (self.family@, self.method.deep_view(), self.why@)
    }
}

fn is_vector(kind: Kind) -> (r: bool)
    ensures
        r == (kind is Vector),
{
    match kind {
        Kind::Vector(_) => true,
        _ => false,
    }
}

/// The family that a `WITH` key becomes over a column of one kind.
pub fn family_of(key: &str, column: &str, kind: Kind) -> (r: Result<Family, SqlError>)
    ensures
        gives(r, with_family(key@, column@, kind)),
{
    if same(key, "hash") || same(key, "range") {
        if kind != Kind::Bool && kind != Kind::Int && kind != Kind::Real && kind != Kind::Text {
            return Err(
                refuse_family(key, column, kind, "btree", "a BOOLEAN, INT, REAL or TEXT column"),
            );
        }
        let why = if same(key, "hash") {
            cat3(
                "`hash` became a `btree` over `",
                column,
                "` -- there is no separate hash family here, and a `btree` answers equality",
            )
        } else {
            cat3(
                "`range` became a `btree` over `",
                column,
                "` -- one scalar family answers equality and range alike",
            )
        };
        return Ok(
            Family {
                family: "btree",
                method: CompiledIndex::Scalar { field: owned(column), unique: false },
                why,
            },
        );
    }
    if same(key, "fulltext") || same(key, "bm25") {
        if kind != Kind::Text {
            return Err(refuse_family(key, column, kind, "gin", "a declared TEXT column"));
        }
        let why = if same(key, "fulltext") {
            cat3(
                "`fulltext` became a `gin` over `to_tsvector('simple', ",
                column,
                ")` -- analyzer v1, one text index per declared TEXT field",
            )
        } else {
            cat3(
                "`bm25` became a `gin` over `to_tsvector('simple', ",
                column,
                ")` -- BM25 is how that one text index SCORES, not a family of its own",
            )
        };
        return Ok(
            Family { family: "gin", method: CompiledIndex::Text { field: owned(column) }, why },
        );
    }
    if same(key, "spatial") {
        return match kind {
            Kind::Point => Ok(
                Family {
                    family: "gist",
                    method: CompiledIndex::Point { field: owned(column) },
                    why: cat3(
                        "`spatial` became a `gist` over `",
                        column,
                        "` -- the POINT family, Hilbert postings and the ring walk a nearest order takes",
                    ),
                },
            ),
            Kind::Geo => Ok(
                Family {
                    family: "gist",
                    method: CompiledIndex::Geometry { field: owned(column) },
                    why: cat3(
                        "`spatial` became a `gist` over `",
                        column,
                        "` -- the GEOMETRY family, cell covers at three levels",
                    ),
                },
            ),
            _ => Err(
                refuse_family(
                    key,
                    column,
                    kind,
                    "gist",
                    "a GEOMETRY(Point) or GEOMETRY(Polygon) column",
                ),
            ),
        };
    }
    if same(key, "vector") {
        if !is_vector(kind) {
            return Err(refuse_family(key, column, kind, "exact", "a VECTOR(n) column"));
        }
        return Ok(
            Family {
                family: "exact",
                method: CompiledIndex::ExactVector { field: owned(column) },
                why: cat3(
                    "`vector` became an `exact` vector index over `",
                    column,
                    "` -- every vector is scored, so the answer is the true nearest set",
                ),
            },
        );
    }
    if same(key, "quantized") {
        if !is_vector(kind) {
            return Err(refuse_family(key, column, kind, "quantized", "a VECTOR(n) column"));
        }
        return Ok(
            Family {
                family: "quantized",
                method: CompiledIndex::QuantizedVector { field: owned(column) },
                why: cat3(
                    "`quantized` became a `quantized` vector index over `",
                    column,
                    "` -- a symmetric int8 companion with an f32 rerank, so the answer is APPROXIMATE and says so",
                ),
            },
        );
    }
    Err(
        SqlError::Unsupported(
            cat7(
                "WITH (",
                key,
                ": [",
                column,
                "]): `",
                key,
                "` is not an index key. The keys are hash, range, fulltext, bm25, spatial, vector, quantized (QL_CONTRACT §2)",
            ),
        ),
    )
}

// ── the WITH clause ──────────────────────────────────────────────────────

/// Whether some collection holds an index named `name`.
pub open spec fn index_held(cat: CatalogV, name: Seq<char>) -> bool {
    exists|i: int, j: int|
        0 <= i < cat.collections.len() && 0 <= j < cat.collections[i].indexes.len()
            && #[trigger] cat.collections[i].indexes[j].name == name
}

/// The name of the index that a pair of the clause makes.
pub open spec fn with_name(table: Seq<char>, column: Seq<char>, family: Seq<char>) -> Seq<char> {
    table + "_"@ + column + "_"@ + family
}

/// One pair of a `WITH` clause, behind the indexes already made.
pub open spec fn with_index(
    cat: CatalogV,
    table: Seq<char>,
    fields: Seq<(Seq<char>, Kind)>,
    pair: WithIndexV,
    made: Seq<(Seq<char>, CompiledIndexV)>,
    log: LogV,
) -> Result<(Seq<(Seq<char>, CompiledIndexV)>, LogV), SqlErrorV> {
    let head = "WITH ("@ + pair.key + ": ["@ + pair.column;
    match kind_from(fields, pair.column, 0) {
        None => Err(
            SqlErrorV::Unsupported(
                head + "]): `"@ + pair.column + "` is not a column of `"@ + table
                    + "`; the sugar indexes the columns the same statement declares, and nothing else"@,
            ),
        ),
        Some(kind) => match with_family(pair.key, pair.column, kind) {
            Err(e) => Err(e),
            Ok((family, method, why)) => {
                let name = with_name(table, pair.column, family);
                if has_name(made, name) {
                    Err(
                        SqlErrorV::Unsupported(
                            head + "]): the generated index name `"@ + name
                                + "` is already generated by an earlier pair of this same WITH clause -- `"@
                                + family + "` over `"@ + (pair.column
                                + "` is one index, and `hash` and `range` are both `btree`"@),
                        ),
                    )
                } else if index_held(cat, name) {
                    Err(
                        SqlErrorV::Unsupported(
                            head + "]): the generated index name `"@ + name
                                + "` is already an index in this database. The sugar generates `<table>_<column>_<family>` and will not take a name that is held; drop it, or write this index by hand with a name of your own"@,
                        ),
                    )
                } else {
                    Ok(
                        (
                            made.push((name, method)),
                            log.noted(
                                head + "]) on `"@ + table + "`: "@ + why + (", created as `"@ + name
                                    + "`"@),
                            ),
                        ),
                    )
                }
            },
        },
    }
}

/// The indexes of a `WITH` clause.
pub open spec fn with_indexes(
    cat: CatalogV,
    table: Seq<char>,
    fields: Seq<(Seq<char>, Kind)>,
    with: Seq<WithIndexV>,
    log: LogV,
) -> Result<(Seq<(Seq<char>, CompiledIndexV)>, LogV), SqlErrorV>
    decreases with.len(),
{
    if with.len() == 0 {
        Ok((Seq::empty(), log))
    } else {
        match with_indexes(cat, table, fields, with.drop_last(), log) {
            Err(e) => Err(e),
            Ok((made, log)) => with_index(cat, table, fields, with.last(), made, log),
        }
    }
}

proof fn with_indexes_stop(
    cat: CatalogV,
    table: Seq<char>,
    fields: Seq<(Seq<char>, Kind)>,
    with: Seq<WithIndexV>,
    log: LogV,
    n: int,
)
    requires
        0 <= n <= with.len(),
        with_indexes(cat, table, fields, with.take(n), log) is Err,
    ensures
        with_indexes(cat, table, fields, with, log) == with_indexes(
            cat,
            table,
            fields,
            with.take(n),
            log,
        ),
    decreases with.len() - n,
{
    if n < with.len() {
        take_next(with, n);
        with_indexes_stop(cat, table, fields, with, log, n + 1);
    } else {
        take_all(with);
    }
}

/// The generated names of one clause are distinct, and none was held before.
pub proof fn with_names_distinct(
    cat: CatalogV,
    table: Seq<char>,
    fields: Seq<(Seq<char>, Kind)>,
    with: Seq<WithIndexV>,
    log: LogV,
)
    requires
        with_indexes(cat, table, fields, with, log) is Ok,
    ensures
        ({
            let made = with_indexes(cat, table, fields, with, log)->Ok_0.0;
            &&& made.len() == with.len()
            &&& forall|i: int, j: int| 0 <= i < j < made.len() ==> made[i].0 != made[j].0
            &&& forall|i: int| 0 <= i < made.len() ==> !index_held(cat, (#[trigger] made[i]).0)
        }),
    decreases with.len(),
{
    if with.len() > 0 {
        with_names_distinct(cat, table, fields, with.drop_last(), log);
        let (made, l) = with_indexes(cat, table, fields, with.drop_last(), log)->Ok_0;
        let after = with_index(cat, table, fields, with.last(), made, l)->Ok_0.0;
        assert(after.drop_last() =~= made);
        assert forall|i: int, j: int| 0 <= i < j < after.len() implies after[i].0 != after[j].0 by {
            if j == after.len() - 1 {
                assert(made[i].0 == after[i].0);
            }
        }
    }
}

fn held_in(list: &Vec<IndexInfo>, name: &str) -> (r: bool)
    ensures
        r == (exists|j: int| 0 <= j < list@.len() && #[trigger] list.deep_view()[j].name == name@),
{
    let ghost all = list.deep_view();
    let mut i: usize = 0;
    while i < list.len()
        invariant
            i <= list@.len(),
            all == list.deep_view(),
            forall|k: int| 0 <= k < i ==> #[trigger] all[k].name != name@,
        decreases list@.len() - i,
    {
        assert(all[i as int] == list@[i as int].deep_view());
        if same(list[i].name.as_str(), name) {
            assert(list.deep_view()[i as int].name == name@);
            return true;
        }
        i = i + 1;
    }
    false
}

impl Catalog {
    /// Whether some collection holds an index named `name`.
    pub fn holds_index(&self, name: &str) -> (r: bool)
        ensures
            r == index_held(self.deep_view(), name@),
    {
        let ghost cat = self.deep_view();
        let mut i: usize = 0;
        while i < self.collections.len()
            invariant
                i <= self.collections@.len(),
                cat == self.deep_view(),
                forall|k: int, j: int|
                    0 <= k < i && 0 <= j < cat.collections[k].indexes.len() ==> #[trigger] cat
                        .collections[k].indexes[j].name != name@,
            decreases self.collections@.len() - i,
        {
            assert(cat.collections[i as int] == self.collections@[i as int].deep_view());
            if held_in(&self.collections[i].indexes, name) {
                assert(index_held(cat, name@)) by {
                    let j = choose|j: int|
                        0 <= j < self.collections@[i as int].indexes@.len()
                            && #[trigger] self.collections@[i as int].indexes.deep_view()[j].name
                            == name@;
                    assert(cat.collections[i as int].indexes[j].name == name@);
                }
                return true;
            }
            assert forall|j: int| 0 <= j < cat.collections[i as int].indexes.len() implies #[trigger] cat
                .collections[i as int].indexes[j].name != name@ by {
                assert(self.collections@[i as int].indexes.deep_view()[j].name != name@);
            }
            i = i + 1;
        }
        false
    }
}

/// Named indexes.
#[derive(Debug)]
pub struct NamedIndexes {
    pub list: Vec<(String, CompiledIndex)>,
}

impl DeepView for NamedIndexes {
    type V = Seq<(Seq<char>, CompiledIndexV)>;

    open spec fn deep_view(&self) -> Seq<(Seq<char>, CompiledIndexV)> {
        self.list.deep_view()
    }
}

impl Catalog {
    fn add_with(
        &self,
        table: &str,
        fields: &Vec<(String, Kind)>,
        pair: &WithIndex,
        made: &mut Vec<(String, CompiledIndex)>,
        log: &mut Log,
    ) -> (r: Result<(), SqlError>)
        ensures
            match with_index(
                self.deep_view(),
                table@,
                fields.deep_view(),
                pair.deep_view(),
                old(made).deep_view(),
                old(log).deep_view(),
            ) {
                Ok((m, l)) => r is Ok && final(made).deep_view() == m && final(log).deep_view()
                    == l,
                Err(e) => r is Err && r->Err_0.deep_view() == e,
            },
    {
        let head = cat4("WITH (", pair.key.as_str(), ": [", pair.column.as_str());
        let kind = match kind_in(fields, pair.column.as_str()) {
            Some(kind) => kind,
            None => {
                return Err(
                    SqlError::Unsupported(
                        cat6(
                            head.as_str(),
                            "]): `",
                            pair.column.as_str(),
                            "` is not a column of `",
                            table,
                            "`; the sugar indexes the columns the same statement declares, and nothing else",
                        ),
                    ),
                );
            },
        };
        let found = family_of(pair.key.as_str(), pair.column.as_str(), kind)?;
        let name = cat5(table, "_", pair.column.as_str(), "_", found.family);
        if holds_name(made, name.as_str()) {
            let tail = cat2(
                pair.column.as_str(),
                "` is one index, and `hash` and `range` are both `btree`",
            );
            return Err(
                SqlError::Unsupported(
                    cat7(
                        head.as_str(),
                        "]): the generated index name `",
                        name.as_str(),
                        "` is already generated by an earlier pair of this same WITH clause -- `",
                        found.family,
                        "` over `",
                        tail.as_str(),
                    ),
                ),
            );
        }
        if self.holds_index(name.as_str()) {
            return Err(
                SqlError::Unsupported(
                    cat4(
                        head.as_str(),
                        "]): the generated index name `",
                        name.as_str(),
                        "` is already an index in this database. The sugar generates `<table>_<column>_<family>` and will not take a name that is held; drop it, or write this index by hand with a name of your own",
                    ),
                ),
            );
        }
        let tail = cat3(", created as `", name.as_str(), "`");
        log.note(
            cat6(
                head.as_str(),
                "]) on `",
                table,
                "`: ",
                found.why.as_str(),
                tail.as_str(),
            ),
        );
        add_entry(made, name, found.method);
        Ok(())
    }

    pub fn with_indexes(
        &self,
        table: &str,
        fields: &Vec<(String, Kind)>,
        with: &Vec<WithIndex>,
        log: &mut Log,
    ) -> (r: Result<NamedIndexes, SqlError>)
        ensures
            logged(
                r,
                *final(log),
                with_indexes(
                    self.deep_view(),
                    table@,
                    fields.deep_view(),
                    with.deep_view(),
                    old(log).deep_view(),
                ),
            ),
    {
        let ghost all = with.deep_view();
        let ghost start = log.deep_view();
        let mut made: Vec<(String, CompiledIndex)> = Vec::new();
        let mut i: usize = 0;
        assert(all.take(0) =~= Seq::<WithIndexV>::empty());
        assert(made.deep_view() =~= Seq::<(Seq<char>, CompiledIndexV)>::empty());
        while i < with.len()
            invariant
                i <= with@.len(),
                all == with.deep_view(),
                start == old(log).deep_view(),
                with_indexes(
                    self.deep_view(),
                    table@,
                    fields.deep_view(),
                    all.take(i as int),
                    start,
                ) == Ok::<(Seq<(Seq<char>, CompiledIndexV)>, LogV), SqlErrorV>(
                    (made.deep_view(), log.deep_view()),
                ),
            decreases with@.len() - i,
        {
            proof {
                take_next(all, i as int);
                assert(all[i as int] == with@[i as int].deep_view());
            }
            match self.add_with(table, fields, &with[i], &mut made, log) {
                Ok(()) => {},
                Err(e) => {
                    proof {
                        with_indexes_stop(
                            self.deep_view(),
                            table@,
                            fields.deep_view(),
                            all,
                            start,
                            i as int + 1,
                        );
                    }
                    return Err(e);
                },
            }
            i = i + 1;
        }
        proof {
            take_all(all);
        }
        Ok(NamedIndexes { list: made })
    }
}

} // verus!
