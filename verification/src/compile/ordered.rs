//! What sorting and dropping repeats give.

use vstd::prelude::*;
use crate::compile::rows::{
    distinct_rows, has_key, place_from, row_key, row_order, sorted_is_permutation,
    sorted_rows,
};
use crate::number::{is_nan, rank, RealV};
use crate::scan::{
    int_order, text_order, text_order_antisymmetric, text_order_exact, text_order_from,
    text_order_reflexive, Order,
};
use crate::text::{decimal, decimal_nat};
use crate::value::{shown_text, SqlValueV};

verus! {

proof fn text_order_chain(a: Seq<char>, b: Seq<char>, c: Seq<char>, i: nat)
    requires
        text_order_from(a, b, i) != Order::Greater,
        text_order_from(b, c, i) != Order::Greater,
    ensures
        text_order_from(a, c, i) != Order::Greater,
    decreases a.len() - i,
{
    if i < a.len() && i < b.len() && i < c.len() && a[i as int] == b[i as int] && b[i as int]
        == c[i as int] {
        text_order_chain(a, b, c, i + 1);
    }
}

/// The order of texts is transitive.
pub proof fn text_order_transitive(a: Seq<char>, b: Seq<char>, c: Seq<char>)
    requires
        text_order(a, b) != Order::Greater,
        text_order(b, c) != Order::Greater,
    ensures
        text_order(a, c) != Order::Greater,
{
    text_order_chain(a, b, c, 0);
}

/// The kind of a value; an absent one has none.
pub open spec fn kind_number(v: SqlValueV) -> int {
    match v {
        SqlValueV::Missing | SqlValueV::Null => 0,
        SqlValueV::Bool(_) => 1,
        SqlValueV::Int(_) => 2,
        SqlValueV::Float(_) => 3,
        SqlValueV::Text(_) => 4,
        SqlValueV::Json(_) => 5,
        SqlValueV::Id(_) => 6,
    }
}

/// The bits of the number that is beyond every other.
pub const INFINITY: u64 = 0x7FF0_0000_0000_0000;

/// Whether the text of a floating-point number is that of its bits: `NaN` for
/// what is no number, `inf` for what is beyond every number, and for any other
/// a text that begins with a digit or a sign.
pub open spec fn displayed(n: RealV) -> bool {
    if is_nan(n.bits) {
        n.shown == "NaN"@
    } else if n.bits == INFINITY {
        n.shown == "inf"@
    } else {
        n.shown.len() > 0 && n.shown[0] < 'M'
    }
}

/// Whether a value is well formed: a floating-point number is shown as it is.
pub open spec fn well_shown(v: SqlValueV) -> bool {
    match v {
        SqlValueV::Float(n) => displayed(n),
        _ => true,
    }
}

/// Whether two values are of one kind, as far as they are not absent.
pub open spec fn same_kind(a: SqlValueV, b: SqlValueV) -> bool {
    &&& well_shown(a)
    &&& well_shown(b)
    &&& kind_number(a) == 0 || kind_number(b) == 0 || kind_number(a) == kind_number(b)
}

/// Whether the values of a column are of one kind, but for those that are
/// absent.
#[verifier::opaque]
pub open spec fn one_kind(rows: Seq<Seq<SqlValueV>>, at: int) -> bool {
    forall|i: int, j: int|
        #![trigger rows[i], rows[j]]
        0 <= i < rows.len() && 0 <= j < rows.len() ==> same_kind(rows[i][at], rows[j][at])
}

proof fn front_kind(rows: Seq<Seq<SqlValueV>>, at: int)
    requires
        one_kind(rows, at),
        rows.len() > 0,
    ensures
        one_kind(rows.drop_last(), at),
{
    reveal(one_kind);
    let front = rows.drop_last();
    assert forall|i: int, j: int|
        #![trigger front[i], front[j]]
        0 <= i < front.len() && 0 <= j < front.len() implies same_kind(front[i][at], front[j][at]) by {
        assert(front[i] == rows[i] && front[j] == rows[j]);
    }
}

proof fn one_kind_each(rows: Seq<Seq<SqlValueV>>, at: int, i: int, j: int)
    requires
        one_kind(rows, at),
        0 <= i < rows.len(),
        0 <= j < rows.len(),
    ensures
        same_kind(rows[i][at], rows[j][at]),
{
    reveal(one_kind);
}

proof fn first_decides(a: Seq<char>, b: Seq<char>)
    requires
        a.len() > 0,
        b.len() > 0,
        a[0] != b[0],
    ensures
        text_order(a, b) == int_order(a[0] as int, b[0] as int),
{
}

proof fn decimal_begins(n: nat)
    ensures
        decimal_nat(n).len() > 0,
        decimal_nat(n)[0] < 'M',
    decreases n,
{
    if n >= 10 {
        decimal_begins(n / 10);
    }
}

/// Whether a value is shown before an absent one.
spec fn early(v: SqlValueV) -> bool {
    match v {
        SqlValueV::Int(_) | SqlValueV::Text(_) | SqlValueV::Id(_) => true,
        SqlValueV::Float(n) => !is_nan(n.bits) && n.bits != INFINITY,
        _ => false,
    }
}

proof fn infinity_is_last(bits: u64)
    requires
        !is_nan(bits),
        bits != INFINITY,
    ensures
        rank(bits) < rank(INFINITY),
        !is_nan(INFINITY),
{
}

proof fn early_begins(v: SqlValueV)
    requires
        well_shown(v),
        early(v),
    ensures
        shown_text(v).len() > 0,
        shown_text(v)[0] < 'M',
{
    match v {
        SqlValueV::Int(n) => {
            reveal_strlit("-");
            if n < 0 {
                assert(decimal(n as int)[0] == '-');
            } else {
                decimal_begins(n as nat);
            }
        },
        SqlValueV::Text(s) => {
            reveal_strlit("'");
            assert(shown_text(v)[0] == '\'');
        },
        SqlValueV::Id(id) => {
            decimal_begins(id.collection as nat);
            assert(shown_text(v)[0] == decimal_nat(id.collection as nat)[0]);
        },
        _ => {},
    }
}

proof fn late_begins(v: SqlValueV)
    requires
        well_shown(v),
        !early(v),
        kind_number(v) == 0 || v is Float,
    ensures
        shown_text(v).len() > 0,
        shown_text(v)[0] >= 'M',
{
    reveal_strlit("MISSING");
    reveal_strlit("NULL");
    reveal_strlit("NaN");
    reveal_strlit("inf");
}

/// A value that is shown early stands before one that is not.
proof fn early_before_late(a: Seq<SqlValueV>, b: Seq<SqlValueV>, at: int)
    requires
        same_kind(a[at], b[at]),
        early(a[at]),
        !early(b[at]),
    ensures
        row_order(a, b, at) == Order::Less,
        row_order(b, a, at) == Order::Greater,
{
    reveal(row_order);
    early_begins(a[at]);
    late_begins(b[at]);
    if let (SqlValueV::Float(x), SqlValueV::Float(_)) = (a[at], b[at]) {
        infinity_is_last(x.bits);
    }
    first_decides(shown_text(a[at]), shown_text(b[at]));
    first_decides(shown_text(b[at]), shown_text(a[at]));
}

/// Values that are not shown early are ordered as they are shown.
proof fn shown_decides(a: Seq<SqlValueV>, b: Seq<SqlValueV>, at: int)
    requires
        same_kind(a[at], b[at]),
        !early(a[at]),
        !early(b[at]),
    ensures
        row_order(a, b, at) == text_order(shown_text(a[at]), shown_text(b[at])),
{
    reveal(row_order);
    if let (SqlValueV::Bool(x), SqlValueV::Bool(y)) = (a[at], b[at]) {
        if x != y {
            reveal_strlit("TRUE");
            reveal_strlit("FALSE");
            first_decides(shown_text(a[at]), shown_text(b[at]));
        }
    }
}

proof fn row_order_flips(a: Seq<SqlValueV>, b: Seq<SqlValueV>, at: int)
    requires
        same_kind(a[at], b[at]),
    ensures
        row_order(b, a, at) == row_order(a, b, at).flipped(),
{
    reveal(row_order);
    text_order_antisymmetric(shown_text(a[at]), shown_text(b[at]));
    if let (SqlValueV::Text(x), SqlValueV::Text(y)) = (a[at], b[at]) {
        text_order_antisymmetric(x, y);
    }
}

/// No row stands before or behind one that holds the same value.
proof fn row_order_self(a: Seq<SqlValueV>, b: Seq<SqlValueV>, at: int)
    requires
        a[at] == b[at],
        well_shown(a[at]),
    ensures
        row_order(a, b, at) == Order::Equal,
{
    reveal(row_order);
    text_order_reflexive(shown_text(a[at]));
    if let SqlValueV::Text(x) = a[at] {
        text_order_reflexive(x);
    }
}

/// The order of values of one kind that are shown early is transitive.
proof fn early_chain(a: Seq<SqlValueV>, b: Seq<SqlValueV>, c: Seq<SqlValueV>, at: int)
    requires
        same_kind(a[at], b[at]),
        same_kind(b[at], c[at]),
        early(a[at]),
        early(b[at]),
        early(c[at]),
        row_order(a, b, at) != Order::Greater,
        row_order(b, c, at) != Order::Greater,
    ensures
        row_order(a, c, at) != Order::Greater,
{
    reveal(row_order);
    if text_order(shown_text(a[at]), shown_text(b[at])) != Order::Greater && text_order(
        shown_text(b[at]),
        shown_text(c[at]),
    ) != Order::Greater {
        text_order_transitive(shown_text(a[at]), shown_text(b[at]), shown_text(c[at]));
    }
    if let (SqlValueV::Text(x), SqlValueV::Text(y), SqlValueV::Text(z)) = (a[at], b[at], c[at]) {
        text_order_exact(x, y);
        text_order_exact(y, z);
        text_order_exact(x, z);
        text_order_transitive(x, y, z);
        text_order_antisymmetric(x, y);
        text_order_antisymmetric(y, z);
        if x != y && y != z && x == z {
            text_order_exact(y, x);
        }
    }
}

proof fn row_order_chain(a: Seq<SqlValueV>, b: Seq<SqlValueV>, c: Seq<SqlValueV>, at: int)
    requires
        same_kind(a[at], b[at]),
        same_kind(b[at], c[at]),
        same_kind(a[at], c[at]),
        row_order(a, b, at) != Order::Greater,
        row_order(b, c, at) != Order::Greater,
    ensures
        row_order(a, c, at) != Order::Greater,
{
    if early(a[at]) {
        if early(c[at]) {
            if early(b[at]) {
                early_chain(a, b, c, at);
            } else {
                early_before_late(c, b, at);
            }
        } else {
            early_before_late(a, c, at);
        }
    } else if early(b[at]) {
        early_before_late(b, a, at);
    } else if early(c[at]) {
        early_before_late(c, b, at);
    } else {
        shown_decides(a, b, at);
        shown_decides(b, c, at);
        shown_decides(a, c, at);
        text_order_transitive(shown_text(a[at]), shown_text(b[at]), shown_text(c[at]));
    }
}

/// Whether no row stands behind one that it should stand before.
pub open spec fn in_order(rows: Seq<Seq<SqlValueV>>, at: int) -> bool {
    forall|i: int, j: int|
        #![trigger rows[i], rows[j]]
        0 <= i < j < rows.len() ==> row_order(rows[i], rows[j], at) != Order::Greater
}

/// The place of a row: what stands before it may, and what stands behind it
/// must.
proof fn place_splits(sorted: Seq<Seq<SqlValueV>>, row: Seq<SqlValueV>, at: int, i: nat)
    requires
        i <= sorted.len(),
    ensures
        ({
            let p = place_from(sorted, row, at, i);
            &&& p <= i
            &&& p > 0 ==> row_order(row, sorted[p - 1], at) != Order::Less
            &&& forall|k: int| p <= k < i ==> row_order(row, #[trigger] sorted[k], at) == Order::Less
        }),
    decreases i,
{
    if i > 0 && row_order(row, sorted[i - 1], at) == Order::Less {
        place_splits(sorted, row, at, (i - 1) as nat);
    }
}

proof fn sorted_kind(rows: Seq<Seq<SqlValueV>>, at: int)
    requires
        one_kind(rows, at),
    ensures
        one_kind(sorted_rows(rows, at), at),
{
    reveal(one_kind);
    sorted_is_permutation(rows, at);
    let s = sorted_rows(rows, at);
    assert forall|i: int, j: int|
        #![trigger s[i], s[j]]
        0 <= i < s.len() && 0 <= j < s.len() implies same_kind(s[i][at], s[j][at]) by {
        broadcast use vstd::seq_lib::group_to_multiset_ensures;

        assert(rows.to_multiset().contains(s[i]));
        assert(rows.to_multiset().contains(s[j]));
        assert(rows.contains(s[i]));
        assert(rows.contains(s[j]));
    }
}

/// A row put in its place leaves the rows in order.
proof fn inserted_in_order(done: Seq<Seq<SqlValueV>>, row: Seq<SqlValueV>, at: int)
    requires
        in_order(done, at),
        one_kind(done.insert(place_from(done, row, at, done.len()) as int, row), at),
    ensures
        in_order(done.insert(place_from(done, row, at, done.len()) as int, row), at),
{
    let p = place_from(done, row, at, done.len()) as int;
    place_splits(done, row, at, done.len());
    let s = done.insert(p, row);
    assert forall|i: int, j: int|
        #![trigger s[i], s[j]]
        0 <= i < j < s.len() implies row_order(s[i], s[j], at) != Order::Greater by {
        assert(s[p] == row);
        if i < p {
            assert(s[i] == done[i]);
            if j < p {
                assert(s[j] == done[j]);
            } else if j == p {
                assert(s[p - 1] == done[p - 1]);
                one_kind_each(s, at, p - 1, p);
                one_kind_each(s, at, p, p - 1);
                one_kind_each(s, at, i, p - 1);
                one_kind_each(s, at, i, p);
                row_order_flips(row, done[p - 1], at);
                if i < p - 1 {
                    row_order_chain(done[i], done[p - 1], row, at);
                }
            } else {
                assert(s[j] == done[j - 1]);
            }
        } else if i == p {
            assert(s[j] == done[j - 1]);
        } else {
            assert(s[i] == done[i - 1]);
            assert(s[j] == done[j - 1]);
        }
    }
}

/// Sorting by a column whose values are of one kind puts the rows in order;
/// absent values may be among them.
pub proof fn sorted_is_in_order(rows: Seq<Seq<SqlValueV>>, at: int)
    requires
        one_kind(rows, at),
    ensures
        in_order(sorted_rows(rows, at), at),
    decreases rows.len(),
{
    if rows.len() > 0 {
        front_kind(rows, at);
        sorted_is_in_order(rows.drop_last(), at);
        sorted_kind(rows, at);
        inserted_in_order(sorted_rows(rows.drop_last(), at), rows.last(), at);
    }
}

/// Whether the column of a row holds a value.
pub open spec fn held(at: int, v: SqlValueV) -> spec_fn(Seq<SqlValueV>) -> bool {
    |row: Seq<SqlValueV>| row[at] == v
}

/// The rows whose column holds a value.
pub open spec fn holding(rows: Seq<Seq<SqlValueV>>, at: int, v: SqlValueV) -> Seq<Seq<SqlValueV>> {
    rows.filter(held(at, v))
}

proof fn none_holding(rows: Seq<Seq<SqlValueV>>, at: int, v: SqlValueV)
    requires
        forall|i: int| 0 <= i < rows.len() ==> (#[trigger] rows[i])[at] != v,
    ensures
        holding(rows, at, v) == Seq::<Seq<SqlValueV>>::empty(),
    decreases rows.len(),
{
    reveal(Seq::filter);
    if rows.len() > 0 {
        none_holding(rows.drop_last(), at, v);
        assert(rows.last()[at] != v);
    }
}

/// A row put in its place stands behind every row that holds its value.
proof fn inserted_last(done: Seq<Seq<SqlValueV>>, row: Seq<SqlValueV>, at: int, v: SqlValueV)
    requires
        one_kind(done.insert(place_from(done, row, at, done.len()) as int, row), at),
    ensures
        holding(done.insert(place_from(done, row, at, done.len()) as int, row), at, v) == holding(
            done.push(row),
            at,
            v,
        ),
{
    let p = place_from(done, row, at, done.len()) as int;
    place_splits(done, row, at, done.len());
    let s = done.insert(p, row);
    let low = done.take(p);
    let high = done.skip(p);
    let pred = held(at, v);
    assert(s =~= low + seq![row] + high);
    assert(done.push(row) =~= low + high + seq![row]);
    Seq::filter_distributes_over_add(low, high, pred);
    Seq::filter_distributes_over_add(low, seq![row], pred);
    Seq::filter_distributes_over_add(low + seq![row], high, pred);
    Seq::filter_distributes_over_add(low + high, seq![row], pred);
    if row[at] == v {
        assert forall|i: int| 0 <= i < high.len() implies (#[trigger] high[i])[at] != v by {
            assert(high[i] == done[p + i]);
            assert(s[p + i + 1] == done[p + i]);
            assert(s[p] == row);
            one_kind_each(s, at, p, p + i + 1);
            if high[i][at] == v {
                row_order_self(row, done[p + i], at);
            }
        }
        none_holding(high, at, v);
        assert(high.filter(pred) =~= Seq::<Seq<SqlValueV>>::empty());
    } else {
        assert forall|i: int| 0 <= i < seq![row].len() implies (#[trigger] seq![row][i])[at] != v by {}
        none_holding(seq![row], at, v);
        assert(seq![row].filter(pred) =~= Seq::<Seq<SqlValueV>>::empty());
    }
    assert(s.filter(pred) =~= done.push(row).filter(pred));
}

/// Sorting is stable: rows that hold the same value keep their order.
pub proof fn sorted_is_stable(rows: Seq<Seq<SqlValueV>>, at: int, v: SqlValueV)
    requires
        one_kind(rows, at),
    ensures
        holding(sorted_rows(rows, at), at, v) == holding(rows, at, v),
    decreases rows.len(),
{
    if rows.len() > 0 {
        let front = rows.drop_last();
        let row = rows.last();
        let done = sorted_rows(front, at);
        let pred = held(at, v);
        front_kind(rows, at);
        sorted_is_stable(front, at, v);
        sorted_kind(rows, at);
        inserted_last(done, row, at, v);
        Seq::filter_distributes_over_add(done, seq![row], pred);
        Seq::filter_distributes_over_add(front, seq![row], pred);
        assert(done.push(row) =~= done + seq![row]);
        assert(rows =~= front + seq![row]);
    }
}

/// Dropping repeats keeps one row of each printed form, and no two of one.
pub proof fn distinct_keeps_one_of_each(rows: Seq<Seq<SqlValueV>>)
    ensures
        forall|key: Seq<char>| has_key(distinct_rows(rows), key) == has_key(rows, key),
        forall|i: int, j: int|
            #![trigger distinct_rows(rows)[i], distinct_rows(rows)[j]]
            0 <= i < j < distinct_rows(rows).len() ==> row_key(distinct_rows(rows)[i]) != row_key(
                distinct_rows(rows)[j],
            ),
    decreases rows.len(),
{
    if rows.len() > 0 {
        let front = rows.drop_last();
        let last = rows.last();
        distinct_keeps_one_of_each(front);
        let done = distinct_rows(front);
        let all = distinct_rows(rows);
        assert forall|key: Seq<char>| has_key(all, key) == has_key(rows, key) by {
            assert(has_key(done, key) == has_key(front, key));
            if has_key(front, key) {
                let k = choose|k: int| 0 <= k < front.len() && row_key(#[trigger] front[k]) == key;
                assert(rows[k] == front[k]);
                let m = choose|m: int| 0 <= m < done.len() && row_key(#[trigger] done[m]) == key;
                assert(all[m] == done[m]);
            }
            if key == row_key(last) {
                assert(rows[rows.len() - 1] == last);
                if !has_key(front, key) {
                    assert(all[all.len() - 1] == last);
                }
            }
            if has_key(all, key) {
                let k = choose|k: int| 0 <= k < all.len() && row_key(#[trigger] all[k]) == key;
                if k < done.len() {
                    assert(done[k] == all[k]);
                } else {
                    assert(all[k] == last);
                }
            }
            if has_key(rows, key) {
                let k = choose|k: int| 0 <= k < rows.len() && row_key(#[trigger] rows[k]) == key;
                if k < front.len() {
                    assert(front[k] == rows[k]);
                }
            }
        }
        assert forall|i: int, j: int|
            #![trigger all[i], all[j]]
            0 <= i < j < all.len() implies row_key(all[i]) != row_key(all[j]) by {
            assert(all[i] == done[i]);
            if j < done.len() {
                assert(all[j] == done[j]);
            } else {
                assert(all[j] == last);
                if row_key(done[i]) == row_key(last) {
                    assert(has_key(done, row_key(last)));
                }
            }
        }
    }
}

} // verus!
