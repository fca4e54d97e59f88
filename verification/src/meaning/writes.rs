//! What is written is what is stored.

use vstd::prelude::*;
use crate::ast::LiteralV;
use crate::calendar::{day_at, within_day, year_of};
use crate::compile::answer::{group_cell, GroupValueV};
use crate::compile::bind::{value_of, vector_of, BinderV, VectorArgV};
use crate::compile::dml::{
    column_value, delete_of, doc_put, insert_of, insert_rows, key_column, patch_of, row_document,
    slot_from, stored_value, update_of,
};
use crate::compile::env::{
    collection_of, kind_of, member_from, time_column, CollectionV, ParamV, KEY_COLUMN,
};
use crate::compile::log::{EnvV, LogV};
use crate::compile::modify::sets_of;
use crate::compile::plan::{CompiledSetV, StoredV, WritePlanV};
use crate::compile::project::name_from;
use crate::compile::row::{evaluated, CompiledRowV};
use crate::compile::run::{
    field_of_row, first_step, next_step, patched, row_fields, trace, Action, EventV, StageV, StepV,
};
use crate::error::SqlErrorV;
use crate::instant::{date_text, timestamp_text};
use crate::iso::{date_reads_back, timestamp_reads_back};
use crate::meaning::expressions::{
    begins_with, fewer_fields, fields_grow, row_expression_keeps_its_meaning, row_holds, value, worth,
};
use crate::number::{finite, is_whole, saturated, truncated};
use crate::result::SqlResultV;
use crate::stmt::SetValueV;
use crate::timestamp::instant_of;
use crate::value::{row_value, Kind, SqlValueV, ValueV};

verus! {

// ── literals ─────────────────────────────────────────────────────────────

/// A constant stands for itself, and a parameter for what is bound at its
/// number.
pub proof fn literal_keeps_its_meaning(b: BinderV, l: LiteralV)
    ensures
        match l {
            LiteralV::Null => value_of(b, l) == Ok::<ValueV, SqlErrorV>(ValueV::Null),
            LiteralV::Bool(x) => value_of(b, l) == Ok::<ValueV, SqlErrorV>(ValueV::Bool(x)),
            LiteralV::Str(s) => value_of(b, l) == Ok::<ValueV, SqlErrorV>(ValueV::Text(s)),
            LiteralV::Param(n) => {
                &&& value_of(b, l) is Ok <==> 1 <= n <= b.params.len()
                &&& 1 <= n <= b.params.len() ==> match b.params[n - 1] {
                    ParamV::Null => value_of(b, l)->Ok_0 == ValueV::Null,
                    ParamV::Bool(x) => value_of(b, l)->Ok_0 == ValueV::Bool(x),
                    ParamV::Int(x) => value_of(b, l)->Ok_0 == ValueV::Int(x),
                    ParamV::Float(x) => finite(x.bits) ==> value_of(b, l)->Ok_0 == ValueV::Real(x),
                    ParamV::Text(x) => value_of(b, l)->Ok_0 == ValueV::Text(x),
                    ParamV::Vector { bits, .. } => value_of(b, l)->Ok_0 is Json && value_of(
                        b,
                        l,
                    )->Ok_0->Json_0.numbers == Some(bits),
                    ParamV::Json(x) => value_of(b, l)->Ok_0 == x,
                }
            },
            LiteralV::Num(n, exact) => match value_of(b, l) {
                Ok(ValueV::Int(k)) => exact && is_whole(n.bits) && k == truncated(n.bits) as i64,
                Ok(ValueV::Real(x)) => x == n,
                Ok(ValueV::Null) => !finite(n.bits),
                _ => false,
            },
            LiteralV::Subquery(_) => true,
        },
{
}

// ── instants ─────────────────────────────────────────────────────────────

/// Whether an instant is of a year that is written with four digits.
pub open spec fn in_calendar(t: i64) -> bool {
    0 <= year_of(day_at(t as int)) <= 9_999
}

/// A literal of an instant, in a column that holds instants, is stored as that
/// instant; a `DATE` holds only midnights.
pub proof fn instant_is_stored(
    b: BinderV,
    c: CollectionV,
    column: Seq<char>,
    l: LiteralV,
    text: Seq<char>,
    t: i64,
)
    requires
        time_column(c, column) is Ok,
        time_column(c, column)->Ok_0 is Some,
        value_of(b, l) == Ok::<ValueV, SqlErrorV>(ValueV::Text(text)),
        instant_of(text) == Ok::<i64, SqlErrorV>(t),
    ensures
        ({
            let date = time_column(c, column)->Ok_0 == Some("DATE"@);
            &&& column_value(b, c, l, column) is Ok <==> !date || within_day(t as int) == 0
            &&& !date || within_day(t as int) == 0 ==> column_value(b, c, l, column) == Ok::<
                StoredV,
                SqlErrorV,
            >(StoredV::Value(ValueV::Int(t)))
        }),
{
    let day = day_at(t as int) * 86_400_000_000;
    assert(day <= t < day + 86_400_000_000 && t == day + within_day(t as int));
}

/// An instant that is inserted as text is stored as itself, and what is stored
/// is printed as a text of the same instant.
pub proof fn instant_reads_back(
    b: BinderV,
    c: CollectionV,
    column: Seq<char>,
    t: i64,
    values: Seq<SqlValueV>,
    at: usize,
    time: bool,
)
    requires
        in_calendar(t),
        time_column(c, column) is Ok,
        time_column(c, column)->Ok_0 is Some,
        time_column(c, column)->Ok_0 != Some("DATE"@),
        at < values.len(),
        values[at as int] == SqlValueV::Int(t),
    ensures
        column_value(b, c, LiteralV::Str(timestamp_text(t as int)), column) == Ok::<
            StoredV,
            SqlErrorV,
        >(StoredV::Value(ValueV::Int(t))),
        ({
            let field = CompiledRowV::Field { at, time };
            let shown = evaluated(
                (CompiledRowV::Iso { arg: Box::new(field), date_only: false }),
                values,
            );
            &&& shown is Ok && shown->Ok_0 is Text
            &&& instant_of(shown->Ok_0->Text_0) == Ok::<i64, SqlErrorV>(t)
        }),
        ({
            let shown = group_cell(Some(GroupValueV::I64(t)), Some(false));
            shown is Text && instant_of(shown->Text_0) == Ok::<i64, SqlErrorV>(t)
        }),
{
    timestamp_reads_back(t);
    instant_is_stored(
        b,
        c,
        column,
        LiteralV::Str(timestamp_text(t as int)),
        timestamp_text(t as int),
        t,
    );
    let field = CompiledRowV::Field { at, time };
    assert(evaluated(field, values) == Ok::<SqlValueV, SqlErrorV>(SqlValueV::Int(t)));
    let iso = CompiledRowV::Iso { arg: Box::new(field), date_only: false };
    assert(evaluated(iso, values) == crate::compile::row::applied(iso, SqlValueV::Int(t)));
}

/// A date that is inserted as text is stored as its midnight, and what is stored
/// is printed as a text of the same date.
pub proof fn date_is_read_back(
    b: BinderV,
    c: CollectionV,
    column: Seq<char>,
    t: i64,
    values: Seq<SqlValueV>,
    at: usize,
    time: bool,
)
    requires
        in_calendar(t),
        within_day(t as int) == 0,
        time_column(c, column) is Ok,
        time_column(c, column)->Ok_0 is Some,
        at < values.len(),
        values[at as int] == SqlValueV::Int(t),
    ensures
        column_value(b, c, LiteralV::Str(date_text(t as int)), column) == Ok::<StoredV, SqlErrorV>(
            StoredV::Value(ValueV::Int(t)),
        ),
        ({
            let field = CompiledRowV::Field { at, time };
            let shown = evaluated(
                (CompiledRowV::Iso { arg: Box::new(field), date_only: true }),
                values,
            );
            &&& shown is Ok && shown->Ok_0 is Text
            &&& instant_of(shown->Ok_0->Text_0) == Ok::<i64, SqlErrorV>(t)
        }),
        ({
            let shown = group_cell(Some(GroupValueV::I64(t)), Some(true));
            shown is Text && instant_of(shown->Text_0) == Ok::<i64, SqlErrorV>(t)
        }),
{
    date_reads_back(t);
    assert(day_at(t as int) * 86_400_000_000 == t);
    instant_is_stored(
        b,
        c,
        column,
        LiteralV::Str(date_text(t as int)),
        date_text(t as int),
        t,
    );
    let field = CompiledRowV::Field { at, time };
    assert(evaluated(field, values) == Ok::<SqlValueV, SqlErrorV>(SqlValueV::Int(t)));
    let iso = CompiledRowV::Iso { arg: Box::new(field), date_only: true };
    assert(evaluated(iso, values) == crate::compile::row::applied(iso, SqlValueV::Int(t)));
}

/// Texts of two instants are stored as two values.
pub proof fn instants_are_stored_apart(
    b: BinderV,
    c: CollectionV,
    column: Seq<char>,
    s: Seq<char>,
    u: Seq<char>,
)
    requires
        time_column(c, column) is Ok,
        time_column(c, column)->Ok_0 is Some,
        column_value(b, c, LiteralV::Str(s), column) is Ok,
        column_value(b, c, LiteralV::Str(u), column) is Ok,
    ensures
        instant_of(s) is Ok,
        instant_of(u) is Ok,
        column_value(b, c, LiteralV::Str(s), column) == column_value(b, c, LiteralV::Str(u), column)
            <==> instant_of(s)->Ok_0 == instant_of(u)->Ok_0,
{
    if instant_of(s) is Ok && instant_of(u) is Ok {
        instant_is_stored(b, c, column, LiteralV::Str(s), s, instant_of(s)->Ok_0);
        instant_is_stored(b, c, column, LiteralV::Str(u), u, instant_of(u)->Ok_0);
    }
}

/// A whole number in a column that holds instants is stored as that many
/// microseconds.
pub proof fn microseconds_are_stored(
    b: BinderV,
    c: CollectionV,
    column: Seq<char>,
    l: LiteralV,
    n: i64,
)
    requires
        time_column(c, column) is Ok,
        time_column(c, column)->Ok_0 is Some,
        value_of(b, l) == Ok::<ValueV, SqlErrorV>(ValueV::Int(n)),
    ensures
        column_value(b, c, l, column) is Ok <==> time_column(c, column)->Ok_0 != Some("DATE"@)
            || within_day(n as int) == 0,
        column_value(b, c, l, column) is Ok ==> column_value(b, c, l, column)->Ok_0
            == StoredV::Value(ValueV::Int(n)),
{
    let day = day_at(n as int) * 86_400_000_000;
    assert(day <= n < day + 86_400_000_000 && n == day + within_day(n as int));
}

// ── other values ─────────────────────────────────────────────────────────

/// Whether a value is of a kind.
pub open spec fn fits_kind(v: ValueV, kind: Kind) -> bool {
    match kind {
        Kind::Int => v is Int,
        Kind::Real => v is Int || v is Real,
        Kind::Text => v is Text,
        Kind::Bool => v is Bool,
        Kind::Json => true,
        _ => false,
    }
}

/// A plain value is stored as it is, in a column of its kind, and in no other;
/// `NULL` is stored in every column.
pub proof fn value_is_stored(
    b: BinderV,
    c: CollectionV,
    column: Seq<char>,
    l: LiteralV,
)
    requires
        kind_of(c, column) is Ok,
        value_of(b, l) is Ok,
    ensures
        value_of(b, l)->Ok_0 is Null ==> column_value(b, c, l, column) == Ok::<StoredV, SqlErrorV>(
            StoredV::Value(ValueV::Null),
        ),
        ({
            let v = value_of(b, l)->Ok_0;
            let kind = kind_of(c, column)->Ok_0;
            !(v is Null) && time_column(c, column)->Ok_0 is None && !(kind is Vector) && !(
            kind is Point) && !(kind is Geo) ==> {
                &&& column_value(b, c, l, column) is Ok <==> fits_kind(v, kind)
                &&& column_value(b, c, l, column) is Ok ==> column_value(b, c, l, column)->Ok_0
                    == StoredV::Value(v)
            }
        }),
{
}

/// How many numbers a vector has.
pub open spec fn dimensions(v: VectorArgV) -> nat {
    match v {
        VectorArgV::Bits(bits) => bits.len(),
        VectorArgV::Written(parts) => parts.len(),
    }
}

/// A vector is stored as it is, in a column of as many dimensions.
pub proof fn vector_is_stored(
    b: BinderV,
    c: CollectionV,
    column: Seq<char>,
    l: LiteralV,
)
    requires
        kind_of(c, column) is Ok,
        kind_of(c, column)->Ok_0 is Vector,
        value_of(b, l) is Ok,
        !(value_of(b, l)->Ok_0 is Null),
    ensures
        column_value(b, c, l, column) is Ok <==> vector_of(b, l) is Ok && dimensions(
            vector_of(b, l)->Ok_0,
        ) == kind_of(c, column)->Ok_0->Vector_0,
        column_value(b, c, l, column) is Ok ==> column_value(b, c, l, column)->Ok_0
            == StoredV::Vector(vector_of(b, l)->Ok_0),
{
}

/// Whether a value of a row is the value that is stored.
pub open spec fn is_stored(v: SqlValueV, s: StoredV) -> bool {
    match v {
        SqlValueV::Missing | SqlValueV::Null => s == StoredV::Value(ValueV::Null),
        SqlValueV::Bool(b) => s == StoredV::Value(ValueV::Bool(b)),
        SqlValueV::Int(n) => s == StoredV::Value(ValueV::Int(n)) || s == StoredV::Widened(n),
        SqlValueV::Float(n) => if !finite(n.bits) {
            s == StoredV::Value(ValueV::Null)
        } else {
            s == StoredV::Value(ValueV::Real(n)) || (is_whole(n.bits) && s == StoredV::Value(
                ValueV::Int(saturated(n.bits) as i64),
            ))
        },
        SqlValueV::Text(text) => s == StoredV::Value(ValueV::Text(text)),
        SqlValueV::Json(j) => s == StoredV::Value(ValueV::Json(j)),
        SqlValueV::Id(_) => false,
    }
}

/// What a row expression produced is stored as it is, in a column that can hold
/// it: a number in a column of numbers, a text in one of texts, and so on. A
/// column of whole numbers takes a number without a fraction, and one of numbers
/// any whole number.
pub proof fn produced_value_is_stored(kind: Kind, column: Seq<char>, v: SqlValueV)
    ensures
        stored_value(kind, column, v) is Ok ==> is_stored(v, stored_value(kind, column, v)->Ok_0),
        stored_value(kind, column, v) is Ok <==> match v {
            SqlValueV::Missing | SqlValueV::Null => true,
            SqlValueV::Id(_) => false,
            SqlValueV::Bool(_) => kind is Bool || kind is Json,
            SqlValueV::Int(_) => kind is Int || kind is Real || kind is Json,
            SqlValueV::Float(n) => kind is Real || kind is Json || (kind is Int && is_whole(n.bits)),
            SqlValueV::Text(_) => kind is Text || kind is Json,
            SqlValueV::Json(_) => kind is Json || kind is Geo || kind is Point,
        },
        kind is Real && v is Int ==> stored_value(kind, column, v)->Ok_0 is Widened,
        kind is Int && v is Float && is_whole(v->Float_0.bits) ==> stored_value(
            kind,
            column,
            v,
        )->Ok_0 == StoredV::Value(ValueV::Int(saturated(v->Float_0.bits) as i64)),
{
}

// ── documents ────────────────────────────────────────────────────────────

/// Whether a document holds a value under a name.
pub open spec fn holds(doc: Seq<(Seq<char>, StoredV)>, name: Seq<char>, v: StoredV) -> bool {
    exists|i: int| 0 <= i < doc.len() && #[trigger] doc[i] == (name, v)
}

/// Whether no two members of a document have one name.
pub open spec fn one_each(doc: Seq<(Seq<char>, StoredV)>) -> bool {
    forall|i: int, j: int|
        0 <= i < j < doc.len() ==> (#[trigger] doc[i]).0 != (#[trigger] doc[j]).0
}

pub open spec fn has_name(doc: Seq<(Seq<char>, StoredV)>, name: Seq<char>) -> bool {
    exists|i: int| 0 <= i < doc.len() && (#[trigger] doc[i]).0 == name
}

proof fn slot_is_first(doc: Seq<(Seq<char>, StoredV)>, name: Seq<char>, i: nat)
    ensures
        match slot_from(doc, name, i) {
            Some(k) => i <= k < doc.len() && doc[k as int].0 == name,
            None => forall|k: int| i <= k < doc.len() ==> (#[trigger] doc[k]).0 != name,
        },
    decreases doc.len() - i,
{
    if i < doc.len() && doc[i as int].0 != name {
        slot_is_first(doc, name, i + 1);
    }
}

proof fn put_holds(doc: Seq<(Seq<char>, StoredV)>, name: Seq<char>, v: StoredV)
    requires
        one_each(doc),
    ensures
        one_each(doc_put(doc, name, v)),
        holds(doc_put(doc, name, v), name, v),
        forall|other: Seq<char>, x: StoredV|
            other != name ==> (#[trigger] holds(doc_put(doc, name, v), other, x) <==> holds(
                doc,
                other,
                x,
            )),
        forall|other: Seq<char>| #[trigger]
            has_name(doc_put(doc, name, v), other) <==> other == name || has_name(doc, other),
{
    slot_is_first(doc, name, 0);
    let after = doc_put(doc, name, v);
    match slot_from(doc, name, 0) {
        Some(k) => {
            let k = k as int;
            assert(after[k] == (name, v));
            assert forall|i: int| 0 <= i < doc.len() && i != k implies #[trigger] after[i]
                == doc[i] by {}
            assert forall|other: Seq<char>, x: StoredV| other != name implies (#[trigger] holds(
                after,
                other,
                x,
            ) <==> holds(doc, other, x)) by {
                if holds(doc, other, x) {
                    let i = choose|i: int| 0 <= i < doc.len() && #[trigger] doc[i] == (other, x);
                    assert(after[i] == (other, x));
                }
                if holds(after, other, x) {
                    let i = choose|i: int| 0 <= i < after.len() && #[trigger] after[i] == (other, x);
                    assert(doc[i] == (other, x));
                }
            }
            assert forall|other: Seq<char>| #[trigger] has_name(after, other) <==> other == name
                || has_name(doc, other) by {
                if has_name(after, other) {
                    let i = choose|i: int| 0 <= i < after.len() && (#[trigger] after[i]).0 == other;
                    if i != k {
                        assert(doc[i].0 == other);
                    }
                }
                if has_name(doc, other) {
                    let i = choose|i: int| 0 <= i < doc.len() && (#[trigger] doc[i]).0 == other;
                    assert(after[i].0 == other);
                }
                assert(after[k].0 == name);
            }
        },
        None => {
            let k = doc.len() as int;
            assert(after[k] == (name, v));
            assert forall|i: int| 0 <= i < doc.len() implies #[trigger] after[i] == doc[i] by {}
            assert forall|other: Seq<char>, x: StoredV| other != name implies (#[trigger] holds(
                after,
                other,
                x,
            ) <==> holds(doc, other, x)) by {
                if holds(doc, other, x) {
                    let i = choose|i: int| 0 <= i < doc.len() && #[trigger] doc[i] == (other, x);
                    assert(after[i] == (other, x));
                }
                if holds(after, other, x) {
                    let i = choose|i: int| 0 <= i < after.len() && #[trigger] after[i] == (other, x);
                    assert(doc[i] == (other, x));
                }
            }
            assert forall|other: Seq<char>| #[trigger] has_name(after, other) <==> other == name
                || has_name(doc, other) by {
                if has_name(after, other) {
                    let i = choose|i: int| 0 <= i < after.len() && (#[trigger] after[i]).0 == other;
                    if i != k {
                        assert(doc[i].0 == other);
                    }
                }
                if has_name(doc, other) {
                    let i = choose|i: int| 0 <= i < doc.len() && (#[trigger] doc[i]).0 == other;
                    assert(after[i].0 == other);
                }
                assert(after[k].0 == name);
            }
        },
    }
}

/// Whether a document is that of names with values, the last of a name written
/// over the others.
pub open spec fn is_document(
    b: BinderV,
    c: CollectionV,
    doc: Seq<(Seq<char>, StoredV)>,
    columns: Seq<Seq<char>>,
    row: Seq<LiteralV>,
    n: nat,
) -> bool {
    &&& one_each(doc)
    &&& forall|name: Seq<char>| #[trigger]
        has_name(doc, name) <==> name != KEY_COLUMN@ && exists|j: int|
            0 <= j < n && #[trigger] columns[j] == name
    &&& forall|j: int|
        0 <= j < n && columns[j] != KEY_COLUMN@ && (forall|k: int|
            j < k < n ==> #[trigger] columns[k] != columns[j]) ==> {
            &&& column_value(b, c, row[j], #[trigger] columns[j]) is Ok
            &&& holds(doc, columns[j], column_value(b, c, row[j], columns[j])->Ok_0)
        }
}

/// The document of a row holds, under each column that is named, the value that
/// is written for it, and nothing else; the key is no member of it.
pub proof fn document_keeps_its_meaning(
    env: EnvV,
    c: CollectionV,
    columns: Seq<Seq<char>>,
    row: Seq<LiteralV>,
    n: nat,
    log: LogV,
)
    requires
        n <= columns.len(),
        row_document(env, c, columns, row, n, log) is Ok,
    ensures
        is_document(
            env.binder,
            c,
            row_document(env, c, columns, row, n, log)->Ok_0.0,
            columns,
            row,
            n,
        ),
    decreases n,
{
    let doc = row_document(env, c, columns, row, n, log)->Ok_0.0;
    if n == 0 {
        assert forall|name: Seq<char>| !#[trigger] has_name(doc, name) by {}
    } else {
        let m = (n - 1) as nat;
        document_keeps_its_meaning(env, c, columns, row, m, log);
        let before = row_document(env, c, columns, row, m, log)->Ok_0.0;
        let name = columns[m as int];
        if name != KEY_COLUMN@ {
            let v = column_value(env.binder, c, row[m as int], name)->Ok_0;
            put_holds(before, name, v);
        }
        assert forall|other: Seq<char>| #[trigger] has_name(doc, other) <==> other != KEY_COLUMN@
            && exists|j: int| 0 <= j < n && #[trigger] columns[j] == other by {
            assert(has_name(before, other) <==> other != KEY_COLUMN@ && exists|j: int|
                0 <= j < m && #[trigger] columns[j] == other);
            assert(columns[m as int] == name);
        }
        assert forall|j: int|
            0 <= j < n && columns[j] != KEY_COLUMN@ && (forall|k: int|
                j < k < n ==> #[trigger] columns[k] != columns[j]) implies {
            &&& column_value(env.binder, c, row[j], #[trigger] columns[j]) is Ok
            &&& holds(doc, columns[j], column_value(env.binder, c, row[j], columns[j])->Ok_0)
        } by {
            if j < m {
                assert(columns[m as int] != columns[j]);
            }
        }
    }
}

/// Each row of an insert is put under the text of its key, with the document of
/// its other columns, in the order in which they are written.
pub proof fn insert_rows_keep_their_meaning(
    env: EnvV,
    c: CollectionV,
    columns: Seq<Seq<char>>,
    key_at: int,
    rows: Seq<Seq<LiteralV>>,
    log: LogV,
)
    requires
        insert_rows(env, c, columns, key_at, rows, log) is Ok,
    ensures
        ({
            let done = insert_rows(env, c, columns, key_at, rows, log)->Ok_0.0;
            &&& done.len() == rows.len()
            &&& forall|i: int|
                0 <= i < rows.len() ==> {
                    &&& value_of(env.binder, (#[trigger] rows[i])[key_at]) == Ok::<
                        ValueV,
                        SqlErrorV,
                    >(ValueV::Text(done[i].0))
                    &&& is_document(env.binder, c, done[i].1, columns, rows[i], columns.len())
                }
        }),
    decreases rows.len(),
{
    if rows.len() > 0 {
        let init = rows.drop_last();
        insert_rows_keep_their_meaning(env, c, columns, key_at, init, log);
        let (before, mid) = insert_rows(env, c, columns, key_at, init, log)->Ok_0;
        let done = insert_rows(env, c, columns, key_at, rows, log)->Ok_0.0;
        let n = rows.len() - 1;
        let logged = mid.folded(rows.last()[key_at], crate::compile::dml::DOCUMENT@);
        document_keeps_its_meaning(env, c, columns, rows.last(), columns.len(), logged);
        assert forall|i: int| 0 <= i < rows.len() implies {
            &&& value_of(env.binder, (#[trigger] rows[i])[key_at]) == Ok::<ValueV, SqlErrorV>(
                ValueV::Text(done[i].0),
            )
            &&& is_document(env.binder, c, done[i].1, columns, rows[i], columns.len())
        } by {
            if i < n {
                assert(init[i] == rows[i]);
                assert(done[i] == before[i]);
            }
        }
    }
}

proof fn name_is_first(list: Seq<Seq<char>>, name: Seq<char>, i: nat)
    ensures
        match name_from(list, name, i) {
            Some(k) => i <= k < list.len() && list[k as int] == name && forall|j: int|
                i <= j < k ==> #[trigger] list[j] != name,
            None => forall|k: int| i <= k < list.len() ==> #[trigger] list[k] != name,
        },
    decreases list.len() - i,
{
    if i < list.len() && list[i as int] != name {
        name_is_first(list, name, i + 1);
    }
}

/// An insert writes to the collection of its table. The key of a row is what is
/// written for `_key`, or else for the first column.
pub proof fn insert_keeps_its_meaning(
    env: EnvV,
    table: Seq<char>,
    columns: Seq<Seq<char>>,
    rows: Seq<Seq<LiteralV>>,
    log: LogV,
)
    requires
        insert_of(env, table, columns, rows, log) is Ok,
    ensures
        collection_of(env.binder.catalog, table) is Ok,
        insert_of(env, table, columns, rows, log)->Ok_0.0 is Insert,
        ({
            let c = collection_of(env.binder.catalog, table)->Ok_0;
            let plan = insert_of(env, table, columns, rows, log)->Ok_0.0;
            &&& plan->Insert_collection == c.id
            &&& plan->Insert_rows.len() == rows.len()
            &&& exists|at: int|
                0 <= at < columns.len() && (columns.contains(KEY_COLUMN@) ==> #[trigger] columns[at]
                    == KEY_COLUMN@) && (!columns.contains(KEY_COLUMN@) ==> at == 0) && forall|i: int|
                    0 <= i < rows.len() ==> {
                        &&& value_of(env.binder, (#[trigger] rows[i])[at]) == Ok::<
                            ValueV,
                            SqlErrorV,
                        >(ValueV::Text(plan->Insert_rows[i].0))
                        &&& is_document(
                            env.binder,
                            c,
                            plan->Insert_rows[i].1,
                            columns,
                            rows[i],
                            columns.len(),
                        )
                    }
        }),
{
    let c = collection_of(env.binder.catalog, table)->Ok_0;
    let (at, mid) = key_column(c, table, columns, log)->Ok_0;
    name_is_first(columns, KEY_COLUMN@, 0);
    insert_rows_keep_their_meaning(env, c, columns, at as int, rows, mid);
    assert(columns[at as int] == columns[at as int]);
}

// ── updates and deletes ──────────────────────────────────────────────────

/// Whether a document holds values under names, the last of a name written over
/// the others.
pub open spec fn holds_last(
    doc: Seq<(Seq<char>, StoredV)>,
    names: Seq<Seq<char>>,
    values: Seq<StoredV>,
) -> bool {
    &&& one_each(doc)
    &&& forall|name: Seq<char>| #[trigger] has_name(doc, name) <==> names.contains(name)
    &&& forall|j: int|
        0 <= j < names.len() && (forall|k: int| j < k < names.len() ==> names[k] != names[j])
            ==> holds(doc, #[trigger] names[j], values[j])
}

proof fn one_more_is_held(
    doc: Seq<(Seq<char>, StoredV)>,
    names: Seq<Seq<char>>,
    values: Seq<StoredV>,
    name: Seq<char>,
    v: StoredV,
)
    requires
        holds_last(doc, names, values),
        names.len() == values.len(),
    ensures
        holds_last(doc_put(doc, name, v), names.push(name), values.push(v)),
{
    put_holds(doc, name, v);
    let after = doc_put(doc, name, v);
    let all = names.push(name);
    let n = names.len() as int;
    assert forall|other: Seq<char>| #[trigger] has_name(after, other) <==> all.contains(other) by {
        if names.contains(other) {
            let i = choose|i: int| 0 <= i < names.len() && names[i] == other;
            assert(all[i] == other);
        }
        if all.contains(other) {
            let i = choose|i: int| 0 <= i < all.len() && all[i] == other;
            if i < n {
                assert(names[i] == other);
            }
        }
        assert(all[n] == name);
    }
    assert forall|j: int|
        0 <= j < all.len() && (forall|k: int| j < k < all.len() ==> all[k] != all[j]) implies holds(
        after,
        #[trigger] all[j],
        values.push(v)[j],
    ) by {
        if j < n {
            assert(all[n] != all[j]);
            assert(names[j] == all[j]);
            assert forall|k: int| j < k < names.len() implies names[k] != names[j] by {
                assert(all[k] == names[k]);
            }
            assert(holds(doc, names[j], values[j]));
        }
    }
}

/// The columns that are set, in order.
pub open spec fn set_columns(sets: Seq<(Seq<char>, LiteralV)>) -> Seq<Seq<char>> {
    Seq::new(sets.len(), |i: int| sets[i].0)
}

/// A patch holds, under each column that is set, the value that it is set to,
/// and nothing else; the key cannot be set.
pub proof fn patch_keeps_its_meaning(
    env: EnvV,
    c: CollectionV,
    sets: Seq<(Seq<char>, LiteralV)>,
    log: LogV,
) -> (values: Seq<StoredV>)
    requires
        patch_of(env, c, sets, log) is Ok,
    ensures
        values.len() == sets.len(),
        forall|i: int|
            0 <= i < sets.len() ==> (#[trigger] sets[i]).0 != KEY_COLUMN@ && column_value(
                env.binder,
                c,
                sets[i].1,
                sets[i].0,
            ) == Ok::<StoredV, SqlErrorV>(values[i]),
        holds_last(patch_of(env, c, sets, log)->Ok_0.0, set_columns(sets), values),
    decreases sets.len(),
{
    let patch = patch_of(env, c, sets, log)->Ok_0.0;
    if sets.len() == 0 {
        assert forall|name: Seq<char>| !#[trigger] has_name(patch, name) by {}
        Seq::empty()
    } else {
        let init = sets.drop_last();
        let values = patch_keeps_its_meaning(env, c, init, log);
        let before = patch_of(env, c, init, log)->Ok_0.0;
        let n = sets.len() - 1;
        let (name, l) = sets[n];
        assert(sets.last() == (name, l));
        let v = column_value(env.binder, c, l, name)->Ok_0;
        one_more_is_held(before, set_columns(init), values, name, v);
        assert(set_columns(sets) =~= set_columns(init).push(name));
        assert forall|i: int| 0 <= i < sets.len() implies (#[trigger] sets[i]).0 != KEY_COLUMN@
            && column_value(env.binder, c, sets[i].1, sets[i].0) == Ok::<StoredV, SqlErrorV>(
            values.push(v)[i],
        ) by {
            if i < n {
                assert(init[i] == sets[i]);
            }
        }
        values.push(v)
    }
}

/// Each assignment of an `UPDATE` at a condition sets the column that is
/// written, to the value that is stored for the constant, or to what the
/// expression is worth over the row that is updated.
pub proof fn assignments_keep_their_meaning(
    env: EnvV,
    c: CollectionV,
    list: Seq<(Seq<char>, SetValueV)>,
    log: LogV,
    cell: spec_fn(Seq<char>) -> SqlValueV,
    values: Seq<SqlValueV>,
)
    requires
        sets_of(env, c, list, log) is Ok,
        row_holds(cell, sets_of(env, c, list, log)->Ok_0.0.fields, values),
    ensures
        ({
            let sets = sets_of(env, c, list, log)->Ok_0.0.sets;
            &&& sets.len() == list.len()
            &&& forall|i: int|
                0 <= i < list.len() ==> {
                    &&& (#[trigger] list[i]).0 != KEY_COLUMN@
                    &&& sets[i].0 == list[i].0
                    &&& match list[i].1 {
                        SetValueV::Lit(l) => column_value(env.binder, c, l, list[i].0) is Ok
                            && sets[i].1 == CompiledSetV::Lit(
                            column_value(env.binder, c, l, list[i].0)->Ok_0,
                        ),
                        SetValueV::Row(e) => {
                            &&& sets[i].1 is Row
                            &&& kind_of(c, list[i].0) == Ok::<Kind, SqlErrorV>(sets[i].1->kind)
                            &&& value(sets[i].1->expr, values) == worth(env, c, cell, e)
                        },
                    }
                }
        }),
    decreases list.len(),
{
    if list.len() > 0 {
        let init = list.drop_last();
        let (done, mid) = sets_of(env, c, init, log)->Ok_0;
        let all = sets_of(env, c, list, log)->Ok_0.0;
        let n = list.len() - 1;
        let (column, v) = list[n];
        assert(list.last() == (column, v));
        match v {
            SetValueV::Lit(l) => {
                assert(begins_with(all.fields, done.fields));
            },
            SetValueV::Row(e) => {
                fields_grow(env, c, e, done.fields, mid);
                row_expression_keeps_its_meaning(env, c, cell, e, done.fields, mid, values);
            },
        }
        fewer_fields(cell, done.fields, all.fields, values);
        assignments_keep_their_meaning(env, c, init, log, cell, values);
        assert forall|i: int| 0 <= i < n implies all.sets[i] == done.sets[i] && #[trigger] list[i]
            == init[i] by {}
    }
}

/// An update at a key patches the row of that key in the collection of its
/// table, and a delete removes it.
pub proof fn writes_at_a_key_keep_their_meaning(
    env: EnvV,
    table: Seq<char>,
    sets: Seq<(Seq<char>, LiteralV)>,
    key: LiteralV,
    log: LogV,
)
    ensures
        ({
            let u = update_of(env, table, sets, key, log);
            u is Ok ==> {
                &&& u->Ok_0.0 is Update
                &&& collection_of(env.binder.catalog, table) is Ok
                &&& u->Ok_0.0->Update_collection == collection_of(env.binder.catalog, table)->Ok_0.id
                &&& value_of(env.binder, key) == Ok::<ValueV, SqlErrorV>(
                    ValueV::Text(u->Ok_0.0->Update_key),
                )
                &&& u->Ok_0.0->Update_patch == patch_of(
                    env,
                    collection_of(env.binder.catalog, table)->Ok_0,
                    sets,
                    log,
                )->Ok_0.0
            }
        }),
        ({
            let d = delete_of(env, table, key, log);
            d is Ok ==> {
                &&& d->Ok_0.0 is Delete
                &&& collection_of(env.binder.catalog, table) is Ok
                &&& d->Ok_0.0->Delete_collection == collection_of(env.binder.catalog, table)->Ok_0.id
                &&& value_of(env.binder, key) == Ok::<ValueV, SqlErrorV>(
                    ValueV::Text(d->Ok_0.0->Delete_key),
                )
            }
        }),
{
}

// ── what a write does ────────────────────────────────────────────────────

/// An `UPDATE` stores in each column that it sets the constant, or what the
/// expression gives over the row as it was, in the order in which they are
/// written.
pub proof fn row_is_patched(
    sets: Seq<(Seq<char>, CompiledSetV)>,
    fields: Seq<Seq<char>>,
    row: Seq<(Seq<char>, ValueV)>,
)
    requires
        patched(sets, fields, row) is Ok,
    ensures
        ({
            let list = patched(sets, fields, row)->Ok_0;
            &&& list.len() == sets.len()
            &&& forall|i: int|
                0 <= i < sets.len() ==> {
                    &&& list[i].0 == (#[trigger] sets[i]).0
                    &&& match sets[i].1 {
                        CompiledSetV::Lit(v) => list[i].1 == v,
                        CompiledSetV::Row { expr, kind } => {
                            let v = value(expr, row_fields(fields, row));
                            &&& v is Some
                            &&& stored_value(kind, sets[i].0, v->0) is Ok
                            &&& is_stored(v->0, list[i].1)
                        },
                    }
                }
        }),
    decreases sets.len(),
{
    if sets.len() > 0 {
        let init = sets.drop_last();
        row_is_patched(init, fields, row);
        let done = patched(init, fields, row)->Ok_0;
        let list = patched(sets, fields, row)->Ok_0;
        let n = sets.len() - 1;
        assert(sets.last() == sets[n]);
        if let CompiledSetV::Row { expr, kind } = sets[n].1 {
            let v = value(expr, row_fields(fields, row));
            produced_value_is_stored(kind, sets[n].0, v->0);
        }
        assert forall|i: int| 0 <= i < n implies #[trigger] sets[i] == init[i] && list[i]
            == done[i] by {}
    }
}

/// What a row holds under a name, for an expression over it: the first member of
/// that name, and nothing where there is none.
pub proof fn row_field_is_its_member(row: Seq<(Seq<char>, ValueV)>, name: Seq<char>, k: int)
    requires
        0 <= k < row.len(),
        row[k].0 == name,
        forall|j: int| 0 <= j < k ==> (#[trigger] row[j]).0 != name,
    ensures
        field_of_row(row, name) == row_value(row[k].1),
{
    member_is_found(row, name, k, 0);
}

proof fn member_is_found(row: Seq<(Seq<char>, ValueV)>, name: Seq<char>, k: int, i: nat)
    requires
        i <= k < row.len(),
        row[k].0 == name,
        forall|j: int| 0 <= j < k ==> (#[trigger] row[j]).0 != name,
    ensures
        member_from(row, name, i) == Some(row[k].1),
    decreases k - i,
{
    if i < k {
        assert(row[i as int].0 != name);
        member_is_found(row, name, k, i + 1);
    }
}

/// An update at a key looks for the row, writes it where it is there, and says
/// that one row was written, or none; a delete says whether there was one.
pub proof fn writes_at_a_key_count_their_row(
    collection: u64,
    key: Seq<char>,
    patch: Seq<(Seq<char>, StoredV)>,
    notices: Seq<Seq<char>>,
    budget: u64,
    there: bool,
)
    ensures
        ({
            let u = WritePlanV::Update { collection, key, patch };
            let first = first_step(u, notices);
            trace(
                u,
                notices,
                budget,
                first,
                if there {
                    seq![EventV::Found(true), EventV::Done]
                } else {
                    seq![EventV::Found(false)]
                },
            ) == StepV::Finish(
                Ok(
                    SqlResultV::Affected(
                        if there {
                            1
                        } else {
                            0
                        },
                    ),
                ),
            )
        }),
        first_step((WritePlanV::Update { collection, key, patch }), notices) == StepV::Do(
            Action::FindRow,
            StageV::Finding,
        ),
        next_step(
            (WritePlanV::Update { collection, key, patch }),
            notices,
            budget,
            StageV::Finding,
            EventV::Found(true),
        ) == StepV::Do(Action::UpdateRow, StageV::Updating),
        ({
            let d = WritePlanV::Delete { collection, key };
            &&& first_step(d, notices) == StepV::Do(Action::DeleteRow, StageV::Deleting)
            &&& trace(d, notices, budget, first_step(d, notices), seq![EventV::Found(there)])
                == StepV::Finish(
                Ok(
                    SqlResultV::Affected(
                        if there {
                            1
                        } else {
                            0
                        },
                    ),
                ),
            )
        }),
{
    reveal_with_fuel(trace, 4);
    let yes = seq![EventV::Found(true), EventV::Done];
    assert(yes.drop_first() =~= seq![EventV::Done]);
    assert(yes.drop_first().drop_first() =~= Seq::<EventV>::empty());
    assert(seq![EventV::Found(there)].drop_first() =~= Seq::<EventV>::empty());
    assert(seq![EventV::Found(false)].drop_first() =~= Seq::<EventV>::empty());
}

/// A write at a condition says as many rows as were written, and fails where not
/// all could be.
pub proof fn writes_at_a_condition_count_their_rows(
    p: WritePlanV,
    notices: Seq<Seq<char>>,
    budget: u64,
    done: bool,
    n: u64,
)
    requires
        p is UpdateWhere || p is DeleteWhere,
    ensures
        first_step(p, notices) == StepV::Do(Action::WriteWhere, StageV::Writing),
        ({
            let end = next_step(
                p,
                notices,
                budget,
                StageV::Writing,
                EventV::Progress { done, rows_written: n },
            );
            &&& end is Finish
            &&& done ==> end->Finish_0 == Ok::<SqlResultV, SqlErrorV>(SqlResultV::Affected(n))
            &&& !done ==> end->Finish_0 is Err
        }),
{
}

} // verus!
