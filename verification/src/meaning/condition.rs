//! What a condition says of a row, and that the filter it is compiled to says
//! the same.

use vstd::prelude::*;
use crate::ast::{
    CmpOp, ExprV, GeoArgV, LiteralV, PredicateV, PrefixForm, SpatialPredicate, TextShapeV,
    TimeShapeV, TimeUnit, TimeValueV, TsQueryV,
};
use crate::calendar::{extracted, unit_start};
use crate::compile::bind::{
    bounds_of, geom_of, number_of, point_of, scalar_of, text_of, tsquery_text, value_of, ScalarV,
    TextMatch,
};
use crate::compile::env::{
    id_from, index_for, index_for_expression, kind_of, ready_from, time_column, CollectionV,
    IndexExprV, IndexFamily,
};
use crate::compile::log::{EnvV, LogV, SemiCell, SemiFoundV};
use crate::compile::plan::{OwnedFilterV, OwnedScalarFilterV};
use crate::compile::predicates::{
    between_filter, compare_filter, filter_of, in_leaves, is_negated, is_time_literal, key_filter,
    key_leaves, negated_term, null_filter, spatial_filter, text_predicate, union_of, where_filter, where_filters,
};
use crate::compile::ranges::{
    prefix_bounds, text_filter, text_range, time_filter, time_literal, time_range, time_value, whole_literal,
};
use crate::compile::semi::{found_from, page_ids, pages_ids, rows_of, semi_join};
use crate::compile::windows::{
    compare_range_exact, compares, empty_range_is_empty, extract_between_exact, extract_range_exact,
    in_range, trunc_between_exact, trunc_range_exact,
};
use crate::idset::{id_set, id_set_holds};
use crate::meaning::row::{
    all_say, any_says, both, either, filed, filter_says, key_says, not, posting, reach,
    scalar_order, scalar_says, Cell, Row,
};
use crate::scan::{
    find_from, stands_at, strip_front, text_order, text_order_antisymmetric, text_order_exact, trimmed, Order,
};
use crate::strings::prefix_range;
use crate::text::lowercase;
use crate::value::{EntityId, Kind};

verus! {

// ── what a condition says ────────────────────────────────────────────────

/// Whether an order is one that an operator asks for.
pub open spec fn so(op: CmpOp, o: Option<Order>) -> bool {
    match op {
        CmpOp::Eq => o == Some(Order::Equal),
        CmpOp::Ne => o != Some(Order::Equal),
        CmpOp::Lt => o == Some(Order::Less),
        CmpOp::Le => o == Some(Order::Less) || o == Some(Order::Equal),
        CmpOp::Gt => o == Some(Order::Greater),
        CmpOp::Ge => o == Some(Order::Greater) || o == Some(Order::Equal),
    }
}

/// A comparison of what a cell holds with a value; of an absent cell it says
/// nothing.
pub open spec fn cell_so(cell: Cell, op: CmpOp, v: ScalarV) -> Option<bool> {
    match cell {
        Cell::Held(x) => Some(so(op, scalar_order(x, v))),
        _ => None,
    }
}

/// The value that a column is compared with: an instant, where the column holds
/// instants and the value is written as text.
pub open spec fn operand(env: EnvV, c: CollectionV, column: Seq<char>, l: LiteralV) -> ScalarV {
    if time_column(c, column)->Ok_0 is Some && value_of(env.binder, l)->Ok_0 is Text {
        ScalarV::I64(instant(env, TimeValueV::Lit(l), column))
    } else {
        scalar_of(env.binder, kind_of(c, column)->Ok_0, l, column)->Ok_0
    }
}

/// The instant that a value is.
pub open spec fn instant(env: EnvV, v: TimeValueV, column: Seq<char>) -> i64 {
    time_value(env, v, column, no_log())->Ok_0.0
}

pub open spec fn whole(env: EnvV, l: LiteralV) -> i64 {
    whole_literal(env, l, Seq::empty(), no_log())->Ok_0.0
}

pub open spec fn no_log() -> LogV {
    arbitrary()
}

/// A condition on an instant.
pub open spec fn time_says(env: EnvV, column: Seq<char>, shape: TimeShapeV, t: int) -> bool {
    let at = |l: LiteralV| instant(env, TimeValueV::Lit(l), column) as int;
    match shape {
        TimeShapeV::Extract { unit, op, value } => compares(
            op,
            extracted(unit, t),
            whole(env, value) as int,
        ),
        TimeShapeV::ExtractBetween { unit, lower, upper } => whole(env, lower) <= extracted(unit, t)
            <= whole(env, upper),
        TimeShapeV::Trunc { unit, op, value } => compares(op, unit_start(unit, t), at(value)),
        TimeShapeV::TruncBetween { unit, lower, upper } => at(lower) <= unit_start(unit, t)
            <= at(upper),
        TimeShapeV::CastDate { op, value } => compares(
            op,
            unit_start(TimeUnit::Day, t),
            at(value),
        ),
        TimeShapeV::Clock { op, value } => compares(op, t, instant(env, value, column) as int),
        TimeShapeV::ClockBetween { lower, upper } => instant(env, lower, column) <= t <= instant(
            env,
            upper,
            column,
        ),
    }
}

/// Whether a text begins with what is asked for: `LIKE` asks for the pattern
/// before its `%`.
pub open spec fn begins_so(s: Seq<char>, asked: Seq<char>, form: PrefixForm) -> bool {
    match form {
        PrefixForm::StartsWith => stands_at(s, asked, 0),
        PrefixForm::Like => asked.len() > 0 && asked.last() == '%' && stands_at(
            s,
            asked.drop_last(),
            0,
        ),
    }
}

/// A condition on a text.
pub open spec fn text_says(env: EnvV, w: Row, column: Seq<char>, shape: TextShapeV) -> Option<bool> {
    let asked = |l: LiteralV| text_of(env.binder, l)->Ok_0;
    match shape {
        TextShapeV::JsonEq { member, value } => match (w.member)(column, member) {
            Cell::Held(x) => Some(x == ScalarV::Text(asked(value))),
            _ => None,
        },
        TextShapeV::LowerEq { value } => match (w.cell)(column) {
            Cell::Held(x) => Some(
                x is Text && lowercase(x->Text_0) == lowercase(asked(value)),
            ),
            _ => None,
        },
        TextShapeV::LowerPrefix { value, written } => match (w.cell)(column) {
            Cell::Held(x) => Some(
                x is Text && begins_so(lowercase(x->Text_0), lowercase(asked(value)), written),
            ),
            _ => None,
        },
        TextShapeV::Prefix { value, written } => match (w.cell)(column) {
            Cell::Held(x) => Some(x is Text && begins_so(x->Text_0, asked(value), written)),
            _ => None,
        },
    }
}

/// Whether a tsquery without a `!` finds its words.
pub open spec fn words_say(w: Row, column: Seq<char>, text: Seq<char>) -> bool {
    let read = tsquery_text(text)->Ok_0;
    (w.found)(column, read.0, read.1)
}

/// A search for words. A tsquery that is one term behind a `!` asks for the
/// others.
pub open spec fn search_says(env: EnvV, w: Row, column: Seq<char>, q: TsQueryV) -> bool {
    let text = text_of(env.binder, q.source)->Ok_0;
    let t = trimmed(text);
    if q.fuzzy {
        (w.found)(column, text, TextMatch::Search)
    } else if !q.tsquery_syntax {
        (w.found)(column, text, TextMatch::Any)
    } else if t.len() > 0 && t[0] == '!' && no_operator(t.drop_first()) {
        !words_say(w, column, trimmed(t.drop_first()))
    } else {
        words_say(w, column, text)
    }
}

/// Whether no operator of a tsquery stands in a text.
pub open spec fn no_operator(s: Seq<char>) -> bool {
    &&& !s.contains('!')
    &&& !s.contains('|')
    &&& !s.contains('&')
    &&& forall|i: int| 0 <= i ==> !(#[trigger] stands_at(s, "<->"@, i))
}

/// A relation between places.
pub open spec fn place_says(
    env: EnvV,
    c: CollectionV,
    w: Row,
    predicate: SpatialPredicate,
    column: Seq<char>,
    argument: GeoArgV,
    metres: Option<LiteralV>,
) -> Option<bool> {
    let far = number_of(env.binder, metres->0)->Ok_0;
    if kind_of(c, column)->Ok_0 == Kind::Point {
        match (w.spot)(column) {
            None => None,
            Some(p) => Some(
                if predicate == SpatialPredicate::DWithin {
                    (w.near)(p, (w.at)(point_of(env.binder, argument->Point_0)->Ok_0), far)
                } else {
                    (w.frame)(bounds_of(env.binder, argument)->Ok_0).contains(p)
                },
            ),
        }
    } else {
        let a = (w.area)(geom_of(env.binder, argument)->Ok_0);
        match (w.shape)(column) {
            None => None,
            Some(x) => Some(
                match predicate {
                    SpatialPredicate::DWithin => reach(w, x, a, far),
                    SpatialPredicate::Intersects => exists|p: int|
                        x.contains(p) && #[trigger] a.contains(p),
                    SpatialPredicate::Within => forall|p: int|
                        x.contains(p) ==> #[trigger] a.contains(p),
                    SpatialPredicate::Contains => forall|p: int|
                        a.contains(p) ==> #[trigger] x.contains(p),
                },
            ),
        }
    }
}

/// Whether what was read of a semi-join names a row.
pub open spec fn names(found: SemiFoundV, edges: bool, sequence: u64) -> bool {
    if edges {
        found.endpoints.contains(sequence)
    } else {
        exists|i: int, j: int|
            0 <= i < found.pages.len() && 0 <= j < found.pages[i].len() && (
            #[trigger] found.pages[i][j]) == SemiCell::Key(Some(sequence))
    }
}

/// Whether `k` is the first that was read of a semi-join.
pub open spec fn first_read(list: Seq<SemiFoundV>, table: Seq<char>, column: Seq<char>, k: int) -> bool {
    &&& 0 <= k < list.len()
    &&& list[k].table == table && list[k].column == column
    &&& forall|i: int| 0 <= i < k ==> (#[trigger] list[i]).table != table || list[i].column != column
}

/// Whether a semi-join names a row of the collection.
pub open spec fn named_by(env: EnvV, table: Seq<char>, column: Seq<char>, sequence: u64) -> bool {
    exists|k: int| #[trigger]
        first_read(env.semi, table, column, k) && names(
            env.semi[k],
            id_from(env.binder.catalog.edge_types, table, 0) is Some,
            sequence,
        )
}

/// Whether a column lies between two values.
pub open spec fn between_says(
    env: EnvV,
    c: CollectionV,
    w: Row,
    column: Seq<char>,
    lower: LiteralV,
    upper: LiteralV,
) -> Option<bool> {
    let times = time_column(c, column)->Ok_0 is Some && value_of(env.binder, lower)->Ok_0 is Text;
    let end = |l: LiteralV|
        if times {
            ScalarV::I64(instant(env, TimeValueV::Lit(l), column))
        } else {
            scalar_of(env.binder, kind_of(c, column)->Ok_0, l, column)->Ok_0
        };
    both(
        cell_so((w.cell)(column), CmpOp::Ge, end(lower)),
        cell_so((w.cell)(column), CmpOp::Le, end(upper)),
    )
}

/// What one predicate says of a row.
pub open spec fn predicate_says(env: EnvV, c: CollectionV, w: Row, p: PredicateV) -> Option<bool> {
    match p {
        PredicateV::Constant(b) => Some(b),
        PredicateV::Compare { column, op, value } => cell_so(
            (w.cell)(column),
            op,
            operand(env, c, column, value),
        ),
        PredicateV::Between { column, lower, upper } => between_says(env, c, w, column, lower, upper),
        PredicateV::IsNull { column, negated } => Some(negated == ((w.cell)(column) is Held)),
        PredicateV::IsMissing { column } => Some((w.cell)(column) is Missing),
        PredicateV::KeyCompare { op, value } => Some(
            so(op, Some(text_order(w.key, text_of(env.binder, value)->Ok_0))),
        ),
        PredicateV::KeyBetween { lower, upper } => Some(
            so(CmpOp::Ge, Some(text_order(w.key, text_of(env.binder, lower)->Ok_0))) && so(
                CmpOp::Le,
                Some(text_order(w.key, text_of(env.binder, upper)->Ok_0)),
            ),
        ),
        PredicateV::InList { column, values } => in_says(env, c, w, column, values),
        PredicateV::KeyInList { values } => Some(
            exists|i: int|
                0 <= i < values.len() && text_of(env.binder, #[trigger] values[i])->Ok_0 == w.key,
        ),
        PredicateV::Semi { table, column } => Some(
            w.id.collection == c.id && named_by(env, table, column, w.id.sequence),
        ),
        PredicateV::Text { column, query } => Some(search_says(env, w, column, query)),
        PredicateV::Spatial { predicate, column, argument, metres } => place_says(
            env,
            c,
            w,
            predicate,
            column,
            argument,
            metres,
        ),
        PredicateV::Time { column, shape } => match (w.cell)(column) {
            Cell::Held(x) => Some(time_says(env, column, shape, x->I64_0 as int)),
            _ => None,
        },
        PredicateV::TextFn { column, shape } => text_says(env, w, column, shape),
    }
}

/// Whether a column holds one of some values.
pub open spec fn in_says(
    env: EnvV,
    c: CollectionV,
    w: Row,
    column: Seq<char>,
    values: Seq<LiteralV>,
) -> Option<bool>
    decreases values.len(),
{
    if values.len() == 0 {
        Some(false)
    } else {
        either(
            in_says(env, c, w, column, values.drop_last()),
            cell_so(
                (w.cell)(column),
                CmpOp::Eq,
                scalar_of(env.binder, kind_of(c, column)->Ok_0, values.last(), column)->Ok_0,
            ),
        )
    }
}

/// What a condition says of a row.
pub open spec fn condition_says(env: EnvV, c: CollectionV, w: Row, e: ExprV) -> Option<bool>
    decreases e,
{
    match e {
        ExprV::Leaf(p) => predicate_says(env, c, w, p),
        ExprV::Not(inner) => not(condition_says(env, c, w, *inner)),
        ExprV::And(parts) => all_conditions(env, c, w, parts),
        ExprV::Or(parts) => any_condition(env, c, w, parts),
    }
}

pub open spec fn all_conditions(env: EnvV, c: CollectionV, w: Row, parts: Seq<ExprV>) -> Option<bool>
    decreases parts,
{
    if parts.len() == 0 {
        Some(true)
    } else {
        both(
            all_conditions(env, c, w, parts.drop_last()),
            condition_says(env, c, w, parts.last()),
        )
    }
}

pub open spec fn any_condition(env: EnvV, c: CollectionV, w: Row, parts: Seq<ExprV>) -> Option<bool>
    decreases parts,
{
    if parts.len() == 0 {
        Some(false)
    } else {
        either(
            any_condition(env, c, w, parts.drop_last()),
            condition_says(env, c, w, parts.last()),
        )
    }
}

/// Whether a value is one that a column of a kind holds.
pub open spec fn of_kind(x: ScalarV, kind: Kind) -> bool {
    match kind {
        Kind::Int => x is I64,
        Kind::Text => x is Text,
        Kind::Real => x is F64,
        Kind::Bool => x is Bool,
        _ => true,
    }
}

/// Whether a row is one of a collection: it is filed in its indexes, and holds
/// in each column what the column is declared to hold.
pub open spec fn belongs(w: Row, c: CollectionV) -> bool {
    &&& filed(w, c)
    &&& forall|column: Seq<char>|
        kind_of(c, column) is Ok && (#[trigger] (w.cell)(column)) is Held ==> of_kind(
            (w.cell)(column)->Held_0,
            kind_of(c, column)->Ok_0,
        )
}

// ── proofs ───────────────────────────────────────────────────────────────

proof fn ready_column(
    w: Row,
    c: CollectionV,
    field: Seq<char>,
    family: IndexFamily,
    expression: Option<IndexExprV>,
    i: nat,
)
    requires
        filed(w, c),
        ready_from(c.indexes, field, family, expression, i) is Some,
    ensures
        (w.column)(ready_from(c.indexes, field, family, expression, i)->0) == field,
        (w.over)(ready_from(c.indexes, field, family, expression, i)->0) == expression,
    decreases c.indexes.len() - i,
{
    let x = c.indexes[i as int];
    if x.field == field && x.family == family && x.expression == expression && x.state
        == crate::compile::env::IndexState::Ready {
    } else {
        ready_column(w, c, field, family, expression, i + 1);
    }
}

/// An index that is found for a column is one over that column.
proof fn index_column(w: Row, c: CollectionV, field: Seq<char>, family: IndexFamily)
    requires
        filed(w, c),
    ensures
        forall|what: Seq<char>| #[trigger]
            index_for(c, field, family, what) is Ok ==> {
                let id = index_for(c, field, family, what)->Ok_0;
                (w.column)(id) == field && (w.over)(id) is None
            },
        forall|e: Option<IndexExprV>, what: Seq<char>| #[trigger]
            index_for_expression(c, field, family, e, what) is Ok ==> {
                let id = index_for_expression(c, field, family, e, what)->Ok_0;
                (w.column)(id) == field && (w.over)(id) == e
            },
{
    assert forall|e: Option<IndexExprV>, what: Seq<char>| #[trigger]
        index_for_expression(c, field, family, e, what) is Ok implies {
        let id = index_for_expression(c, field, family, e, what)->Ok_0;
        (w.column)(id) == field && (w.over)(id) == e
    } by {
        ready_column(w, c, field, family, e, 0);
    }
    assert forall|what: Seq<char>| #[trigger] index_for(c, field, family, what) is Ok implies {
        let id = index_for(c, field, family, what)->Ok_0;
        (w.column)(id) == field && (w.over)(id) is None
    } by {
        ready_column(w, c, field, family, None, 0);
    }
}

proof fn compare_says(env: EnvV, c: CollectionV, w: Row, column: Seq<char>, op: CmpOp, l: LiteralV)
    requires
        belongs(w, c),
        compare_filter(env, c, column, op, l) is Ok,
    ensures
        filter_says(w, compare_filter(env, c, column, op, l)->Ok_0) == cell_so(
            (w.cell)(column),
            op,
            scalar_of(env.binder, kind_of(c, column)->Ok_0, l, column)->Ok_0,
        ),
{
    index_column(w, c, column, IndexFamily::Scalar);
    let f = compare_filter(env, c, column, op, l)->Ok_0;
    if let OwnedFilterV::Not(inner) = f {
        scalar_leaf(w, *inner);
    }
}

proof fn scalar_leaf(w: Row, f: OwnedFilterV)
    requires
        f is Scalar,
    ensures
        filter_says(w, f) == scalar_says(f->Scalar_predicate, posting(w, f->Scalar_index)),
{
}

proof fn key_leaf(w: Row, f: OwnedFilterV)
    requires
        f is Key,
    ensures
        filter_says(w, f) == Some(key_says(f->Key_lower, f->Key_upper, w.key)),
{
}


proof fn leaves_say(
    env: EnvV,
    c: CollectionV,
    w: Row,
    index: u64,
    column: Seq<char>,
    values: Seq<LiteralV>,
)
    requires
        (w.column)(index) == column,
        (w.over)(index) is None,
        in_leaves(env, kind_of(c, column)->Ok_0, index, column, values) is Ok,
    ensures
        any_says(w, in_leaves(env, kind_of(c, column)->Ok_0, index, column, values)->Ok_0)
            == in_says(env, c, w, column, values),
        in_leaves(env, kind_of(c, column)->Ok_0, index, column, values)->Ok_0.len()
            == values.len(),
    decreases values.len(),
{
    let kind = kind_of(c, column)->Ok_0;
    if values.len() > 0 {
        leaves_say(env, c, w, index, column, values.drop_last());
        let list = in_leaves(env, kind, index, column, values)->Ok_0;
        assert(list.drop_last() =~= in_leaves(env, kind, index, column, values.drop_last())->Ok_0);
        scalar_leaf(w, list.last());
    }
}

proof fn union_says(w: Row, leaves: Seq<OwnedFilterV>)
    ensures
        filter_says(w, union_of(leaves)) == any_says(w, leaves),
{
    if leaves.len() == 1 {
        assert(leaves.drop_last().len() == 0);
        assert(any_says(w, leaves.drop_last()) == Some(false));
    }
}

proof fn keys_say(env: EnvV, w: Row, values: Seq<LiteralV>)
    requires
        key_leaves(env, values) is Ok,
    ensures
        any_says(w, key_leaves(env, values)->Ok_0) == Some(
            exists|i: int|
                0 <= i < values.len() && text_of(env.binder, #[trigger] values[i])->Ok_0 == w.key,
        ),
    decreases values.len(),
{
    let says = exists|i: int|
        0 <= i < values.len() && text_of(env.binder, #[trigger] values[i])->Ok_0 == w.key;
    if values.len() > 0 {
        let front = values.drop_last();
        keys_say(env, w, front);
        let list = key_leaves(env, values)->Ok_0;
        let v = text_of(env.binder, values.last())->Ok_0;
        assert(list.drop_last() =~= key_leaves(env, front)->Ok_0);
        key_leaf(w, list.last());
        text_order_exact(w.key, v);
        let before = exists|i: int|
            0 <= i < front.len() && text_of(env.binder, #[trigger] front[i])->Ok_0 == w.key;
        if before {
            let i = choose|i: int|
                0 <= i < front.len() && text_of(env.binder, #[trigger] front[i])->Ok_0 == w.key;
            assert(values[i] == front[i]);
        }
        if says {
            let i = choose|i: int|
                0 <= i < values.len() && text_of(env.binder, #[trigger] values[i])->Ok_0 == w.key;
            if i < front.len() {
                assert(front[i] == values[i]);
            }
        }
    }
}

proof fn page_names(cells: Seq<SemiCell>, table: Seq<char>, column: Seq<char>, n: u64)
    requires
        page_ids(cells, table, column) is Ok,
    ensures
        page_ids(cells, table, column)->Ok_0.contains(n) <==> cells.contains(SemiCell::Key(Some(n))),
    decreases cells.len(),
{
    if cells.len() > 0 {
        let front = cells.drop_last();
        page_names(front, table, column, n);
        let done = page_ids(front, table, column)->Ok_0;
        assert(front.push(cells.last()) =~= cells);
        if front.contains(SemiCell::Key(Some(n))) {
            let k = choose|k: int| 0 <= k < front.len() && front[k] == SemiCell::Key(Some(n));
            assert(cells[k] == front[k]);
        }
        if cells.contains(SemiCell::Key(Some(n))) {
            let k = choose|k: int| 0 <= k < cells.len() && cells[k] == SemiCell::Key(Some(n));
            if k < front.len() {
                assert(front[k] == cells[k]);
            }
        }
        if let SemiCell::Key(Some(id)) = cells.last() {
            let all = done.push(id);
            if done.contains(n) {
                let k = choose|k: int| 0 <= k < done.len() && done[k] == n;
                assert(all[k] == n);
            }
            if id == n {
                assert(all[done.len() as int] == n);
                assert(cells[cells.len() - 1] == SemiCell::Key(Some(n)));
            }
            if all.contains(n) {
                let k = choose|k: int| 0 <= k < all.len() && all[k] == n;
                if k < done.len() {
                    assert(done[k] == n);
                }
            }
        }
    }
}

proof fn pages_name(pages: Seq<Seq<SemiCell>>, table: Seq<char>, column: Seq<char>, n: u64)
    requires
        pages_ids(pages, table, column) is Ok,
    ensures
        pages_ids(pages, table, column)->Ok_0.contains(n) <==> exists|i: int|
            0 <= i < pages.len() && (#[trigger] pages[i]).contains(SemiCell::Key(Some(n))),
    decreases pages.len(),
{
    if pages.len() > 0 {
        let front = pages.drop_last();
        pages_name(front, table, column, n);
        page_names(pages.last(), table, column, n);
        let done = pages_ids(front, table, column)->Ok_0;
        let ids = page_ids(pages.last(), table, column)->Ok_0;
        let all = done + ids;
        if all.contains(n) {
            let k = choose|k: int| 0 <= k < all.len() && all[k] == n;
            if k < done.len() {
                assert(done[k] == n);
                let i = choose|i: int|
                    0 <= i < front.len() && (#[trigger] front[i]).contains(
                        SemiCell::Key(Some(n)),
                    );
                assert(pages[i] == front[i]);
            } else {
                assert(ids[k - done.len()] == n);
                assert(pages[pages.len() - 1].contains(SemiCell::Key(Some(n))));
            }
        }
        if exists|i: int| 0 <= i < pages.len() && (#[trigger] pages[i]).contains(SemiCell::Key(Some(n))) {
            let i = choose|i: int|
                0 <= i < pages.len() && (#[trigger] pages[i]).contains(SemiCell::Key(Some(n)));
            if i < front.len() {
                assert(front[i] == pages[i]);
                let k = choose|k: int| 0 <= k < done.len() && done[k] == n;
                assert(all[k] == n);
            } else {
                let k = choose|k: int| 0 <= k < ids.len() && ids[k] == n;
                assert(all[done.len() + k] == n);
            }
        }
    }
}

proof fn found_is_first(list: Seq<SemiFoundV>, table: Seq<char>, column: Seq<char>, i: nat) -> (k: int)
    requires
        found_from(list, table, column, i) is Some,
        forall|j: int| 0 <= j < i ==> (#[trigger] list[j]).table != table || list[j].column != column,
    ensures
        first_read(list, table, column, k),
        found_from(list, table, column, i) == Some(list[k]),
    decreases list.len() - i,
{
    if list[i as int].table == table && list[i as int].column == column {
        i as int
    } else {
        found_is_first(list, table, column, i + 1)
    }
}

proof fn rows_hold(c: u64, ids: Seq<u64>, id: EntityId)
    ensures
        rows_of(c, ids).contains(id) <==> id.collection == c && ids.contains(id.sequence),
{
    let rows = rows_of(c, ids);
    if rows.contains(id) {
        let k = choose|k: int| 0 <= k < rows.len() && rows[k] == id;
        assert(ids[k] == id.sequence);
    }
    if id.collection == c && ids.contains(id.sequence) {
        let k = choose|k: int| 0 <= k < ids.len() && ids[k] == id.sequence;
        assert(rows[k] == id);
    }
}

proof fn semi_says(env: EnvV, c: CollectionV, w: Row, table: Seq<char>, column: Seq<char>, log: LogV)
    requires
        semi_join(env, c, table, column, log) is Ok,
    ensures
        Some(semi_join(env, c, table, column, log)->Ok_0.0.contains(w.id)) == predicate_says(
            env,
            c,
            w,
            PredicateV::Semi { table, column },
        ),
{
    let k = found_is_first(env.semi, table, column, 0);
    let found = env.semi[k];
    let n = w.id.sequence;
    let edges = id_from(env.binder.catalog.edge_types, table, 0) is Some;
    if edges {
        id_set_holds(found.endpoints);
        rows_hold(c.id, id_set(found.endpoints), w.id);
    } else {
        let ids = pages_ids(found.pages, table, column)->Ok_0;
        id_set_holds(ids);
        pages_name(found.pages, table, column, n);
        rows_hold(c.id, id_set(ids), w.id);
        if names(found, edges, n) {
            let (i, j) = choose|i: int, j: int|
                0 <= i < found.pages.len() && 0 <= j < found.pages[i].len() && (
                #[trigger] found.pages[i][j]) == SemiCell::Key(Some(n));
            assert(found.pages[i].contains(SemiCell::Key(Some(n))));
        }
        if ids.contains(n) {
            let i = choose|i: int|
                0 <= i < found.pages.len() && (#[trigger] found.pages[i]).contains(
                    SemiCell::Key(Some(n)),
                );
            let j = choose|j: int|
                0 <= j < found.pages[i].len() && found.pages[i][j] == SemiCell::Key(Some(n));
            assert(found.pages[i][j] == SemiCell::Key(Some(n)));
        }
    }
    assert(found_from(env.semi, table, column, 0) == Some(found));
    assert(semi_join(env, c, table, column, log)->Ok_0.0.contains(w.id) <==> w.id.collection == c.id
        && names(found, edges, n));
    assert forall|m: int| #[trigger] first_read(env.semi, table, column, m) implies m == k by {
        if m < k {
            assert(env.semi[m].table != table || env.semi[m].column != column);
        }
        if k < m {
            assert(env.semi[k].table != table || env.semi[k].column != column);
        }
    }
    assert(named_by(env, table, column, n) <==> names(found, edges, n));
}

proof fn instant_of_any(env: EnvV, v: TimeValueV, column: Seq<char>, log: LogV)
    ensures
        time_value(env, v, column, log) is Ok ==> time_value(env, v, column, log)->Ok_0.0
            == instant(env, v, column),
        v matches TimeValueV::Lit(l) ==> time_literal(env, l, column, log) == time_value(
            env,
            v,
            column,
            log,
        ),
{
}

proof fn whole_of_any(env: EnvV, l: LiteralV, what: Seq<char>, log: LogV)
    ensures
        whole_literal(env, l, what, log) is Ok ==> whole_literal(env, l, what, log)->Ok_0.0 == whole(
            env,
            l,
        ),
{
}

proof fn range_says(f: OwnedScalarFilterV, t: i64)
    requires
        f is Range,
    ensures
        scalar_says(f, Cell::Held(ScalarV::I64(t))) == Some(in_range(f, t)),
{
}

proof fn range_exact(
    env: EnvV,
    column: Seq<char>,
    shape: TimeShapeV,
    what: Seq<char>,
    log: LogV,
    t: i64,
)
    requires
        time_range(env, column, shape, what, log) is Ok,
    ensures
        time_range(env, column, shape, what, log)->Ok_0.0 is Range,
        in_range(time_range(env, column, shape, what, log)->Ok_0.0, t) == time_says(
            env,
            column,
            shape,
            t as int,
        ),
{
    match shape {
        TimeShapeV::Extract { unit, op, value } => {
            whole_of_any(env, value, what, log);
            extract_range_exact(unit, op, whole(env, value), what, t);
        },
        TimeShapeV::ExtractBetween { unit, lower, upper } => {
            whole_of_any(env, lower, what, log);
            let after = whole_literal(env, lower, what, log)->Ok_0.1;
            whole_of_any(env, upper, what, after);
            let low = whole(env, lower);
            let high = whole(env, upper);
            if high < low {
                empty_range_is_empty(t);
            } else {
                extract_between_exact(unit, low, high, what, t);
            }
        },
        TimeShapeV::Trunc { unit, op, value } => {
            instant_of_any(env, TimeValueV::Lit(value), column, log);
            trunc_range_exact(unit, op, instant(env, TimeValueV::Lit(value), column), what, t);
        },
        TimeShapeV::TruncBetween { unit, lower, upper } => {
            instant_of_any(env, TimeValueV::Lit(lower), column, log);
            let after = time_literal(env, lower, column, log)->Ok_0.1;
            instant_of_any(env, TimeValueV::Lit(upper), column, after);
            trunc_between_exact(
                unit,
                instant(env, TimeValueV::Lit(lower), column),
                instant(env, TimeValueV::Lit(upper), column),
                t,
            );
        },
        TimeShapeV::CastDate { op, value } => {
            instant_of_any(env, TimeValueV::Lit(value), column, log);
            trunc_range_exact(
                TimeUnit::Day,
                op,
                instant(env, TimeValueV::Lit(value), column),
                what,
                t,
            );
        },
        TimeShapeV::Clock { op, value } => {
            instant_of_any(env, value, column, log);
            compare_range_exact(op, instant(env, value, column), what, t);
        },
        TimeShapeV::ClockBetween { lower, upper } => {
            instant_of_any(env, lower, column, log);
            let after = time_value(env, lower, column, log)->Ok_0.1;
            instant_of_any(env, upper, column, after);
            empty_range_is_empty(t);
        },
    }
}

proof fn time_filter_says(
    env: EnvV,
    c: CollectionV,
    w: Row,
    column: Seq<char>,
    shape: TimeShapeV,
    log: LogV,
)
    requires
        belongs(w, c),
        time_filter(env, c, column, shape, log) is Ok,
    ensures
        (w.cell)(column) is Held ==> (w.cell)(column)->Held_0 is I64,
        filter_says(w, time_filter(env, c, column, shape, log)->Ok_0.0) == match (w.cell)(column) {
            Cell::Held(x) => Some(time_says(env, column, shape, x->I64_0 as int)),
            _ => None,
        },
{
    index_column(w, c, column, IndexFamily::Scalar);
    let f = time_filter(env, c, column, shape, log)->Ok_0.0;
    let what = crate::ast::time_shape_text(shape, column);
    let range = time_range(env, column, shape, what, log)->Ok_0.0;
    scalar_leaf(w, f);
    assert(kind_of(c, column) == Ok::<Kind, crate::error::SqlErrorV>(Kind::Int));
    assert(posting(w, f->Scalar_index) == (w.cell)(column));
    range_exact(env, column, shape, what, log, 0);
    if let Cell::Held(x) = (w.cell)(column) {
        assert(of_kind(x, Kind::Int));
        range_exact(env, column, shape, what, log, x->I64_0);
        range_says(range, x->I64_0);
    }
}

proof fn prefix_says(prefix: Seq<char>, what: Seq<char>, s: Seq<char>)
    requires
        prefix_bounds(prefix, what) is Ok,
    ensures
        scalar_says(prefix_bounds(prefix, what)->Ok_0, Cell::Held(ScalarV::Text(s))) == Some(
            stands_at(s, prefix, 0),
        ),
        scalar_says(prefix_bounds(prefix, what)->Ok_0, Cell::Null) is None,
        scalar_says(prefix_bounds(prefix, what)->Ok_0, Cell::Missing) is None,
{
    prefix_range(prefix, s);
    text_order_antisymmetric(prefix, s);
}

proof fn text_filter_says(
    env: EnvV,
    c: CollectionV,
    w: Row,
    column: Seq<char>,
    shape: TextShapeV,
    log: LogV,
)
    requires
        belongs(w, c),
        text_filter(env, c, column, shape, log) is Ok,
    ensures
        filter_says(w, text_filter(env, c, column, shape, log)->Ok_0.0) == text_says(
            env,
            w,
            column,
            shape,
        ),
{
    index_column(w, c, column, IndexFamily::Scalar);
    let f = text_filter(env, c, column, shape, log)->Ok_0.0;
    let what = crate::ast::text_shape_text(shape, column);
    let range = text_range(env, shape, what)->Ok_0;
    scalar_leaf(w, f);
    assert(f->Scalar_predicate == range);
    match shape {
        TextShapeV::JsonEq { member, value } => {
            if let Cell::Held(x) = (w.member)(column, member) {
                if let ScalarV::Text(s) = x {
                    text_order_exact(s, text_of(env.binder, value)->Ok_0);
                }
            }
        },
        TextShapeV::LowerEq { value } => {
            if let Cell::Held(x) = (w.cell)(column) {
                assert(of_kind(x, Kind::Text));
                text_order_exact(
                    lowercase(x->Text_0),
                    lowercase(text_of(env.binder, value)->Ok_0),
                );
            }
        },
        TextShapeV::LowerPrefix { value, written } => {
            let asked = lowercase(text_of(env.binder, value)->Ok_0);
            if let Cell::Held(x) = (w.cell)(column) {
                assert(of_kind(x, Kind::Text));
                if written == PrefixForm::Like {
                    prefix_says(asked.drop_last(), what, lowercase(x->Text_0));
                } else {
                    prefix_says(asked, what, lowercase(x->Text_0));
                }
            } else if written == PrefixForm::Like {
                prefix_says(asked.drop_last(), what, asked);
            } else {
                prefix_says(asked, what, asked);
            }
        },
        TextShapeV::Prefix { value, written } => {
            let asked = text_of(env.binder, value)->Ok_0;
            if let Cell::Held(x) = (w.cell)(column) {
                assert(of_kind(x, Kind::Text));
                if written == PrefixForm::Like {
                    prefix_says(asked.drop_last(), what, x->Text_0);
                } else {
                    prefix_says(asked, what, x->Text_0);
                }
            } else if written == PrefixForm::Like {
                prefix_says(asked.drop_last(), what, asked);
            } else {
                prefix_says(asked, what, asked);
            }
        },
    }
}

proof fn one_mark(t: Seq<char>)
    requires
        t.len() > 0,
        t[0] == '!',
        !t.drop_first().contains('!'),
    ensures
        strip_front(t, '!') == t.drop_first(),
{
    let rest = t.drop_first();
    if rest.len() > 0 {
        assert(rest.contains(rest[0]));
    }
    assert(strip_front(rest, '!') == rest);
}

proof fn search_filter_says(
    env: EnvV,
    c: CollectionV,
    w: Row,
    column: Seq<char>,
    q: TsQueryV,
    log: LogV,
)
    requires
        belongs(w, c),
        text_predicate(env, c, column, q, log) is Ok,
        q.fuzzy ==> !q.tsquery_syntax,
    ensures
        filter_says(w, text_predicate(env, c, column, q, log)->Ok_0.0) == Some(
            search_says(env, w, column, q),
        ),
{
    index_column(w, c, column, IndexFamily::Text);
    let f = text_predicate(env, c, column, q, log)->Ok_0.0;
    let text = text_of(env.binder, q.source)->Ok_0;
    let t = trimmed(text);
    if q.tsquery_syntax && t.len() > 0 && t[0] == '!' {
        negation_is_bare(t);
    }
    if q.tsquery_syntax && is_negated(text) {
        one_mark(t);
        assert(negated_term(text) == trimmed(t.drop_first()));
        let inner = *(f->Not_0);
        assert(inner is Text);
        assert(filter_says(w, inner) == Some(words_say(w, column, negated_term(text))));
    }
}

proof fn arrow_is_found(s: Seq<char>, from: nat)
    requires
        from <= s.len(),
    ensures
        find_from(s, "<->"@, from) is None <==> forall|i: int|
            from <= i ==> !(#[trigger] stands_at(s, "<->"@, i)),
    decreases s.len() - from,
{
    reveal_strlit("<->");
    if stands_at(s, "<->"@, from as int) {
    } else if from < s.len() {
        arrow_is_found(s, from + 1);
        assert forall|i: int| from <= i && find_from(s, "<->"@, from) is None implies !(
        #[trigger] stands_at(s, "<->"@, i)) by {
            if i == from {
            } else {
                assert(from + 1 <= i);
            }
        }
    }
}

/// A `!` before a text without operators is the only one of the whole.
proof fn negation_is_bare(t: Seq<char>)
    requires
        t.len() > 0,
        t[0] == '!',
    ensures
        (!t.drop_first().contains('!') && !t.contains('|') && !t.contains('&') && find_from(
            t,
            "<->"@,
            0,
        ) is None) <==> no_operator(t.drop_first()),
{
    reveal_strlit("<->");
    let rest = t.drop_first();
    arrow_is_found(t, 0);
    assert forall|x: char| x != '!' implies t.contains(x) == rest.contains(x) by {
        if t.contains(x) {
            let k = choose|k: int| 0 <= k < t.len() && t[k] == x;
            assert(rest[k - 1] == x);
        }
        if rest.contains(x) {
            let k = choose|k: int| 0 <= k < rest.len() && rest[k] == x;
            assert(t[k + 1] == x);
        }
    }
    assert forall|i: int| 0 <= i implies stands_at(rest, "<->"@, i) == #[trigger] stands_at(
        t,
        "<->"@,
        i + 1,
    ) by {
        if i + 3 <= rest.len() {
            assert(rest.subrange(i, i + 3) =~= t.subrange(i + 1, i + 4));
        }
    }
    if forall|i: int| 0 <= i ==> !(#[trigger] stands_at(rest, "<->"@, i)) {
        assert forall|i: int| 0 <= i implies !(#[trigger] stands_at(t, "<->"@, i)) by {
            if i > 0 {
                assert(stands_at(rest, "<->"@, i - 1) == stands_at(t, "<->"@, i - 1 + 1));
            } else if t.len() >= 3 {
                assert(t.subrange(0, 3)[0] == '!');
                assert("<->"@[0] == '<');
            }
        }
    }
    if forall|i: int| 0 <= i ==> !(#[trigger] stands_at(t, "<->"@, i)) {
        assert forall|i: int| 0 <= i implies !(#[trigger] stands_at(rest, "<->"@, i)) by {
            assert(stands_at(rest, "<->"@, i) == stands_at(t, "<->"@, i + 1));
        }
    }
}

proof fn spatial_filter_says(
    env: EnvV,
    c: CollectionV,
    w: Row,
    predicate: SpatialPredicate,
    column: Seq<char>,
    argument: GeoArgV,
    metres: Option<LiteralV>,
)
    requires
        belongs(w, c),
        spatial_filter(env, c, predicate, column, argument, metres) is Ok,
    ensures
        filter_says(w, spatial_filter(env, c, predicate, column, argument, metres)->Ok_0)
            == place_says(env, c, w, predicate, column, argument, metres),
{
    index_column(w, c, column, IndexFamily::SpatialPoint);
    index_column(w, c, column, IndexFamily::SpatialGeometry);
    if kind_of(c, column)->Ok_0 != Kind::Point {
        let a = (w.area)(geom_of(env.binder, argument)->Ok_0);
        if let Some(x) = (w.shape)(column) {
            if !x.disjoint(a) {
                let p = choose|p: int| x.contains(p) && a.contains(p);
                assert(x.contains(p) && a.contains(p));
            }
        }
    }
}

proof fn compare_arm(
    env: EnvV,
    c: CollectionV,
    w: Row,
    column: Seq<char>,
    op: CmpOp,
    value: LiteralV,
    log: LogV,
)
    requires
        belongs(w, c),
        filter_of(env, c, PredicateV::Compare { column, op, value }, log) is Ok,
    ensures
        filter_says(w, filter_of(env, c, PredicateV::Compare { column, op, value }, log)->Ok_0.0)
            == cell_so((w.cell)(column), op, operand(env, c, column, value)),
{
    reveal(filter_of);
    if is_time_literal(env, c, column, value)->Ok_0 {
        let shape = TimeShapeV::Clock { op, value: TimeValueV::Lit(value) };
        time_filter_says(env, c, w, column, shape, log);
    } else {
        compare_says(env, c, w, column, op, value);
    }
}

proof fn between_arm(
    env: EnvV,
    c: CollectionV,
    w: Row,
    column: Seq<char>,
    lower: LiteralV,
    upper: LiteralV,
    log: LogV,
)
    requires
        belongs(w, c),
        filter_of(env, c, PredicateV::Between { column, lower, upper }, log) is Ok,
    ensures
        filter_says(w, filter_of(env, c, PredicateV::Between { column, lower, upper }, log)->Ok_0.0)
            == between_says(env, c, w, column, lower, upper),
{
    reveal(filter_of);
    if is_time_literal(env, c, column, lower)->Ok_0 {
        let shape = TimeShapeV::ClockBetween {
            lower: TimeValueV::Lit(lower),
            upper: TimeValueV::Lit(upper),
        };
        time_filter_says(env, c, w, column, shape, log);
    } else {
        index_column(w, c, column, IndexFamily::Scalar);
        let f = between_filter(env, c, column, lower, upper)->Ok_0;
        scalar_leaf(w, f);
    }
}

proof fn null_arm(c: CollectionV, w: Row, column: Seq<char>, missing: bool, negated: bool)
    requires
        belongs(w, c),
        null_filter(c, column, missing, negated) is Ok,
        !(missing && negated),
    ensures
        filter_says(w, null_filter(c, column, missing, negated)->Ok_0) == Some(
            if missing {
                (w.cell)(column) is Missing
            } else {
                negated == ((w.cell)(column) is Held)
            },
        ),
{
    index_column(w, c, column, IndexFamily::Scalar);
    let f = null_filter(c, column, missing, negated)->Ok_0;
    if let OwnedFilterV::Not(inner) = f {
        scalar_leaf(w, *inner);
    }
}

proof fn key_arm(env: EnvV, w: Row, op: CmpOp, value: LiteralV)
    requires
        key_filter(env, op, value) is Ok,
    ensures
        filter_says(w, key_filter(env, op, value)->Ok_0) == Some(
            so(op, Some(text_order(w.key, text_of(env.binder, value)->Ok_0))),
        ),
{
    let f = key_filter(env, op, value)->Ok_0;
    if let OwnedFilterV::Not(inner) = f {
        key_leaf(w, *inner);
    }
}

proof fn list_arm(env: EnvV, c: CollectionV, w: Row, column: Seq<char>, values: Seq<LiteralV>, log: LogV)
    requires
        belongs(w, c),
        filter_of(env, c, PredicateV::InList { column, values }, log) is Ok,
    ensures
        filter_says(w, filter_of(env, c, PredicateV::InList { column, values }, log)->Ok_0.0)
            == in_says(env, c, w, column, values),
{
    reveal(filter_of);
    index_column(w, c, column, IndexFamily::Scalar);
    let kind = kind_of(c, column)->Ok_0;
    let index = index_for(c, column, IndexFamily::Scalar, "a scalar index"@)->Ok_0;
    leaves_say(env, c, w, index, column, values);
    union_says(w, in_leaves(env, kind, index, column, values)->Ok_0);
}

proof fn side_arm(env: EnvV, c: CollectionV, w: Row, p: PredicateV, log: LogV)
    requires
        filter_of(env, c, p, log) is Ok,
        p is KeyInList || p is Semi || p is KeyBetween,
    ensures
        filter_says(w, filter_of(env, c, p, log)->Ok_0.0) == predicate_says(env, c, w, p),
{
    reveal(filter_of);
    match p {
        PredicateV::KeyInList { values } => {
            keys_say(env, w, values);
            union_says(w, key_leaves(env, values)->Ok_0);
        },
        PredicateV::Semi { table, column } => {
            semi_says(env, c, w, table, column, log);
        },
        _ => {},
    }
}

/// One predicate and the filter that it is compiled to say the same of every
/// row of the collection.
pub proof fn predicate_keeps_its_meaning(
    env: EnvV,
    c: CollectionV,
    w: Row,
    p: PredicateV,
    log: LogV,
)
    requires
        belongs(w, c),
        filter_of(env, c, p, log) is Ok,
        p matches PredicateV::Text { query, .. } ==> (query.fuzzy ==> !query.tsquery_syntax),
    ensures
        filter_says(w, filter_of(env, c, p, log)->Ok_0.0) == predicate_says(env, c, w, p),
{
    match p {
        PredicateV::Compare { column, op, value } => {
            compare_arm(env, c, w, column, op, value, log);
        },
        PredicateV::Between { column, lower, upper } => {
            between_arm(env, c, w, column, lower, upper, log);
        },
        PredicateV::InList { column, values } => {
            list_arm(env, c, w, column, values, log);
        },
        PredicateV::KeyInList { .. } | PredicateV::Semi { .. } | PredicateV::KeyBetween { .. } => {
            side_arm(env, c, w, p, log);
        },
        _ => {
            other_arm(env, c, w, p, log);
        },
    }
}

proof fn other_arm(env: EnvV, c: CollectionV, w: Row, p: PredicateV, log: LogV)
    requires
        belongs(w, c),
        filter_of(env, c, p, log) is Ok,
        p matches PredicateV::Text { query, .. } ==> (query.fuzzy ==> !query.tsquery_syntax),
        !(p is Compare || p is Between || p is InList || p is KeyInList || p is Semi
            || p is KeyBetween),
    ensures
        filter_says(w, filter_of(env, c, p, log)->Ok_0.0) == predicate_says(env, c, w, p),
{
    reveal(filter_of);
    match p {
        PredicateV::IsNull { column, negated } => {
            null_arm(c, w, column, false, negated);
        },
        PredicateV::IsMissing { column } => {
            null_arm(c, w, column, true, false);
        },
        PredicateV::KeyCompare { op, value } => {
            key_arm(env, w, op, value);
        },
        PredicateV::Text { column, query } => {
            search_filter_says(env, c, w, column, query, log);
        },
        PredicateV::Spatial { predicate, column, argument, metres } => {
            spatial_filter_says(env, c, w, predicate, column, argument, metres);
        },
        PredicateV::Time { column, shape } => {
            time_filter_says(env, c, w, column, shape, log);
        },
        PredicateV::TextFn { column, shape } => {
            text_filter_says(env, c, w, column, shape, log);
        },
        _ => {},
    }
}

/// Whether the searches of a condition are of one kind each, as the grammar
/// writes them.
pub open spec fn searches_fit(e: ExprV) -> bool
    decreases e,
{
    match e {
        ExprV::Leaf(p) => p matches PredicateV::Text { query, .. } ==> (query.fuzzy
            ==> !query.tsquery_syntax),
        ExprV::Not(inner) => searches_fit(*inner),
        ExprV::And(parts) => all_searches_fit(parts),
        ExprV::Or(parts) => all_searches_fit(parts),
    }
}

pub open spec fn all_searches_fit(parts: Seq<ExprV>) -> bool
    decreases parts,
{
    parts.len() == 0 || (all_searches_fit(parts.drop_last()) && searches_fit(parts.last()))
}

/// A condition and the filter that it is compiled to say the same of every row
/// of the collection: what the condition asks for is let through, and nothing
/// else.
pub proof fn condition_keeps_its_meaning(
    env: EnvV,
    c: CollectionV,
    w: Row,
    e: ExprV,
    log: LogV,
)
    requires
        belongs(w, c),
        searches_fit(e),
        where_filter(env, c, e, log) is Ok,
    ensures
        filter_says(w, where_filter(env, c, e, log)->Ok_0.0) == condition_says(env, c, w, e),
    decreases e,
{
    match e {
        ExprV::Leaf(p) => {
            predicate_keeps_its_meaning(env, c, w, p, log);
        },
        ExprV::Not(inner) => {
            condition_keeps_its_meaning(env, c, w, *inner, log);
        },
        ExprV::And(parts) => {
            conditions_keep_their_meaning(env, c, w, parts, log);
        },
        ExprV::Or(parts) => {
            conditions_keep_their_meaning(env, c, w, parts, log);
        },
    }
}

/// The filters of a list of conditions say together what the conditions say
/// together.
pub proof fn conditions_keep_their_meaning(
    env: EnvV,
    c: CollectionV,
    w: Row,
    parts: Seq<ExprV>,
    log: LogV,
)
    requires
        belongs(w, c),
        all_searches_fit(parts),
        where_filters(env, c, parts, log) is Ok,
    ensures
        all_say(w, where_filters(env, c, parts, log)->Ok_0.0) == all_conditions(env, c, w, parts),
        any_says(w, where_filters(env, c, parts, log)->Ok_0.0) == any_condition(env, c, w, parts),
    decreases parts,
{
    if parts.len() > 0 {
        let front = parts.drop_last();
        conditions_keep_their_meaning(env, c, w, front, log);
        let done = where_filters(env, c, front, log)->Ok_0;
        condition_keeps_its_meaning(env, c, w, parts.last(), done.1);
        let list = where_filters(env, c, parts, log)->Ok_0.0;
        assert(list.drop_last() =~= done.0);
    }
}

} // verus!
