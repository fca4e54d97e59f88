//! Rows held in memory: the driver of a statement over the catalog.
//!
//! A `SELECT` over a catalog relation is an ordinary `SELECT` whose clauses are
//! applied to a bounded list that was built when the statement was compiled.

use vstd::prelude::*;
use crate::ast::CmpOp;
use crate::catalog::relations::{CatalogColumnV, CatalogRelation};
use crate::lists::{take_all, take_next};
use crate::number::{int_bits, nearest_bits, order_real, real_order};
use crate::scan::{
    i64_text, int_order, order_i64, order_text, order_u64, parse_i64, text_order, Order,
};
use crate::text::{ascii_lower, cat2, cat3, cat5, join, joined, lower, owned, same, texts};
use crate::value::{shown, shown_text, EntityId, SqlValue, SqlValueV};

verus! {

// ── comparison ───────────────────────────────────────────────────────────

/// The six comparisons, over values that are already there.
#[derive(Clone, Copy, Debug, PartialEq, Eq, Structural)]
pub enum Cmp2 {
    Eq,
    Ne,
    Lt,
    Le,
    Gt,
    Ge,
}

pub open spec fn op2_text(op: Cmp2) -> Seq<char> {
    match op {
        Cmp2::Eq => "="@,
        Cmp2::Ne => "<>"@,
        Cmp2::Lt => "<"@,
        Cmp2::Le => "<="@,
        Cmp2::Gt => ">"@,
        Cmp2::Ge => ">="@,
    }
}

impl Cmp2 {
    pub fn written(self) -> (r: &'static str)
        ensures
            r@ == op2_text(self),
    {
        match self {
            Cmp2::Eq => "=",
            Cmp2::Ne => "<>",
            Cmp2::Lt => "<",
            Cmp2::Le => "<=",
            Cmp2::Gt => ">",
            Cmp2::Ge => ">=",
        }
    }
}

pub open spec fn op2_of(op: CmpOp) -> Cmp2 {
    match op {
        CmpOp::Eq => Cmp2::Eq,
        CmpOp::Ne => Cmp2::Ne,
        CmpOp::Lt => Cmp2::Lt,
        CmpOp::Le => Cmp2::Le,
        CmpOp::Gt => Cmp2::Gt,
        CmpOp::Ge => Cmp2::Ge,
    }
}

pub fn to_op2(op: CmpOp) -> (r: Cmp2)
    ensures
        r == op2_of(op),
{
    match op {
        CmpOp::Eq => Cmp2::Eq,
        CmpOp::Ne => Cmp2::Ne,
        CmpOp::Lt => Cmp2::Lt,
        CmpOp::Le => Cmp2::Le,
        CmpOp::Gt => Cmp2::Gt,
        CmpOp::Ge => Cmp2::Ge,
    }
}

/// Whether an order of two values satisfies a comparison.
pub open spec fn holds(op: Cmp2, o: Order) -> bool {
    match op {
        Cmp2::Eq => o == Order::Equal,
        Cmp2::Ne => o != Order::Equal,
        Cmp2::Lt => o == Order::Less,
        Cmp2::Le => o != Order::Greater,
        Cmp2::Gt => o == Order::Greater,
        Cmp2::Ge => o != Order::Less,
    }
}

fn is_held(op: Cmp2, o: Order) -> (r: bool)
    ensures
        r == holds(op, o),
{
    match op {
        Cmp2::Eq => o == Order::Equal,
        Cmp2::Ne => o != Order::Equal,
        Cmp2::Lt => o == Order::Less,
        Cmp2::Le => o != Order::Greater,
        Cmp2::Gt => o == Order::Greater,
        Cmp2::Ge => o != Order::Less,
    }
}

/// The truth value that a text writes.
pub open spec fn bool_text(text: Seq<char>) -> Option<bool> {
    let t = lower(text);
    if t == "t"@ || t == "true"@ || t == "yes"@ || t == "on"@ || t == "1"@ {
        Some(true)
    } else if t == "f"@ || t == "false"@ || t == "no"@ || t == "off"@ || t == "0"@ {
        Some(false)
    } else {
        None
    }
}

pub fn parse_bool(text: &str) -> (r: Option<bool>)
    ensures
        r == bool_text(text@),
{
    let l = ascii_lower(text);
    let t = l.as_str();
    if same(t, "t") || same(t, "true") || same(t, "yes") || same(t, "on") || same(t, "1") {
        Some(true)
    } else if same(t, "f") || same(t, "false") || same(t, "no") || same(t, "off") || same(t, "0") {
        Some(false)
    } else {
        None
    }
}

/// The order of two truth values: FALSE stands before TRUE.
pub open spec fn bool_order(a: bool, b: bool) -> Order {
    if a == b {
        Order::Equal
    } else if b {
        Order::Less
    } else {
        Order::Greater
    }
}

fn order_bool(a: bool, b: bool) -> (r: Order)
    ensures
        r == bool_order(a, b),
{
    if a == b {
        Order::Equal
    } else if b {
        Order::Less
    } else {
        Order::Greater
    }
}

/// The order of two row identities.
pub open spec fn id_order(a: EntityId, b: EntityId) -> Order {
    if a.collection == b.collection {
        int_order(a.sequence as int, b.sequence as int)
    } else {
        int_order(a.collection as int, b.collection as int)
    }
}

fn order_id(a: EntityId, b: EntityId) -> (r: Order)
    ensures
        r == id_order(a, b),
{
    if a.collection == b.collection {
        order_u64(a.sequence, b.sequence)
    } else {
        order_u64(a.collection, b.collection)
    }
}

/// The order of two values; nothing when they cannot be compared, or one is
/// absent. A text is compared with a number or a truth value only where it
/// writes one.
pub open spec fn value_order(a: SqlValueV, b: SqlValueV) -> Option<Order> {
    match (a, b) {
        (SqlValueV::Bool(x), SqlValueV::Bool(y)) => Some(bool_order(x, y)),
        (SqlValueV::Text(x), SqlValueV::Text(y)) => Some(text_order(x, y)),
        (SqlValueV::Id(x), SqlValueV::Id(y)) => Some(id_order(x, y)),
        (SqlValueV::Int(x), SqlValueV::Int(y)) => Some(int_order(x as int, y as int)),
        (SqlValueV::Int(x), SqlValueV::Float(y)) => real_order(
            nearest_bits(x as int) as u64,
            y.bits,
        ),
        (SqlValueV::Float(x), SqlValueV::Int(y)) => real_order(
            x.bits,
            nearest_bits(y as int) as u64,
        ),
        (SqlValueV::Float(x), SqlValueV::Float(y)) => real_order(x.bits, y.bits),
        (SqlValueV::Int(x), SqlValueV::Text(y)) => match i64_text(y) {
            Some(n) => Some(int_order(x as int, n as int)),
            None => None,
        },
        (SqlValueV::Text(x), SqlValueV::Int(y)) => match i64_text(x) {
            Some(n) => Some(int_order(n as int, y as int)),
            None => None,
        },
        (SqlValueV::Bool(x), SqlValueV::Text(y)) => match bool_text(y) {
            Some(b) => Some(bool_order(x, b)),
            None => None,
        },
        (SqlValueV::Text(x), SqlValueV::Bool(y)) => match bool_text(x) {
            Some(b) => Some(bool_order(b, y)),
            None => None,
        },
        _ => None,
    }
}

/// The order of two values, where they have one.
pub fn compare(left: &SqlValue, right: &SqlValue) -> (r: Option<Order>)
    ensures
        r == value_order(left.deep_view(), right.deep_view()),
{
    match (left, right) {
        (SqlValue::Bool(x), SqlValue::Bool(y)) => Some(order_bool(*x, *y)),
        (SqlValue::Text(x), SqlValue::Text(y)) => Some(order_text(x.as_str(), y.as_str())),
        (SqlValue::Id(x), SqlValue::Id(y)) => Some(order_id(*x, *y)),
        (SqlValue::Int(x), SqlValue::Int(y)) => Some(order_i64(*x, *y)),
        (SqlValue::Int(x), SqlValue::Float(y)) => order_real(int_bits(*x), y.bits),
        (SqlValue::Float(x), SqlValue::Int(y)) => order_real(x.bits, int_bits(*y)),
        (SqlValue::Float(x), SqlValue::Float(y)) => order_real(x.bits, y.bits),
        (SqlValue::Int(x), SqlValue::Text(y)) => match parse_i64(y.as_str()) {
            Some(n) => Some(order_i64(*x, n)),
            None => None,
        },
        (SqlValue::Text(x), SqlValue::Int(y)) => match parse_i64(x.as_str()) {
            Some(n) => Some(order_i64(n, *y)),
            None => None,
        },
        (SqlValue::Bool(x), SqlValue::Text(y)) => match parse_bool(y.as_str()) {
            Some(b) => Some(order_bool(*x, b)),
            None => None,
        },
        (SqlValue::Text(x), SqlValue::Bool(y)) => match parse_bool(x.as_str()) {
            Some(b) => Some(order_bool(b, *y)),
            None => None,
        },
        _ => None,
    }
}

// ── filters ──────────────────────────────────────────────────────────────

/// One compiled predicate over the columns of a relation.
#[allow(inconsistent_fields)]
#[derive(Debug)]
pub enum RowFilter {
    Compare { at: usize, op: Cmp2, value: SqlValue },
    In { at: usize, values: Vec<SqlValue> },
    Between { at: usize, lower: SqlValue, upper: SqlValue },
    IsNull { at: usize },
    /// A predicate with no column.
    Constant(bool),
    Not(Box<RowFilter>),
    All(Vec<RowFilter>),
    Any(Vec<RowFilter>),
}

#[allow(inconsistent_fields)]
pub enum RowFilterV {
    Compare { at: usize, op: Cmp2, value: SqlValueV },
    In { at: usize, values: Seq<SqlValueV> },
    Between { at: usize, lower: SqlValueV, upper: SqlValueV },
    IsNull { at: usize },
    Constant(bool),
    Not(Box<RowFilterV>),
    All(Seq<RowFilterV>),
    Any(Seq<RowFilterV>),
}

pub open spec fn row_filter_view(f: RowFilter) -> RowFilterV
    decreases f,
{
    match f {
        RowFilter::Compare { at, op, value } => RowFilterV::Compare {
            at,
            op,
            value: value.deep_view(),
        },
        RowFilter::In { at, values } => RowFilterV::In { at, values: values.deep_view() },
        RowFilter::Between { at, lower, upper } => RowFilterV::Between {
            at,
            lower: lower.deep_view(),
            upper: upper.deep_view(),
        },
        RowFilter::IsNull { at } => RowFilterV::IsNull { at },
        RowFilter::Constant(b) => RowFilterV::Constant(b),
        RowFilter::Not(inner) => RowFilterV::Not(Box::new(row_filter_view(*inner))),
        RowFilter::All(parts) => RowFilterV::All(
            Seq::new(
                parts@.len(),
                |i: int|
                    if 0 <= i < parts@.len() {
                        row_filter_view(parts@[i])
                    } else {
                        arbitrary()
                    },
            ),
        ),
        RowFilter::Any(parts) => RowFilterV::Any(
            Seq::new(
                parts@.len(),
                |i: int|
                    if 0 <= i < parts@.len() {
                        row_filter_view(parts@[i])
                    } else {
                        arbitrary()
                    },
            ),
        ),
    }
}

impl DeepView for RowFilter {
    type V = RowFilterV;

    open spec fn deep_view(&self) -> RowFilterV {
        row_filter_view(*self)
    }
}

/// The view of a list of filters is that of its members.
pub proof fn row_filter_parts(parts: Vec<RowFilter>)
    ensures
        row_filter_view(RowFilter::All(parts)) == RowFilterV::All(parts.deep_view()),
        row_filter_view(RowFilter::Any(parts)) == RowFilterV::Any(parts.deep_view()),
{
    assert(row_filter_view(RowFilter::All(parts))->All_0 =~= parts.deep_view());
    assert(row_filter_view(RowFilter::Any(parts))->Any_0 =~= parts.deep_view());
}

/// Whether every column of a filter is one of the first `width`.
pub open spec fn within(f: RowFilterV, width: nat) -> bool
    decreases f,
{
    match f {
        RowFilterV::Compare { at, .. } => at < width,
        RowFilterV::In { at, .. } => at < width,
        RowFilterV::Between { at, .. } => at < width,
        RowFilterV::IsNull { at } => at < width,
        RowFilterV::Constant(_) => true,
        RowFilterV::Not(inner) => within(*inner, width),
        RowFilterV::All(parts) => all_within(parts, width),
        RowFilterV::Any(parts) => all_within(parts, width),
    }
}

pub open spec fn all_within(parts: Seq<RowFilterV>, width: nat) -> bool
    decreases parts,
{
    if parts.len() == 0 {
        true
    } else {
        all_within(parts.drop_last(), width) && within(parts.last(), width)
    }
}

pub proof fn all_within_each(parts: Seq<RowFilterV>, width: nat, i: int)
    requires
        all_within(parts, width),
        0 <= i < parts.len(),
    ensures
        within(parts[i], width),
    decreases parts.len(),
{
    if i < parts.len() - 1 {
        all_within_each(parts.drop_last(), width, i);
    }
}

/// Whether two values are equal in the order of values.
pub open spec fn equals(a: SqlValueV, b: SqlValueV) -> bool {
    value_order(a, b) == Some(Order::Equal)
}

/// Whether a value is equal to one of a list.
pub open spec fn is_member(cell: SqlValueV, values: Seq<SqlValueV>) -> bool {
    exists|k: int| 0 <= k < values.len() && equals(cell, #[trigger] values[k])
}

/// Whether a row satisfies a filter. A comparison that cannot be made is
/// false.
pub open spec fn row_matches(f: RowFilterV, row: Seq<SqlValueV>) -> bool
    decreases f,
{
    match f {
        RowFilterV::Constant(b) => b,
        RowFilterV::Compare { at, op, value } => match value_order(row[at as int], value) {
            Some(o) => holds(op, o),
            None => false,
        },
        RowFilterV::In { at, values } => is_member(row[at as int], values),
        RowFilterV::Between { at, lower, upper } => {
            let low = value_order(row[at as int], lower);
            let high = value_order(row[at as int], upper);
            low is Some && low->0 != Order::Less && high is Some && high->0 != Order::Greater
        },
        RowFilterV::IsNull { at } => row[at as int] is Null || row[at as int] is Missing,
        RowFilterV::Not(inner) => !row_matches(*inner, row),
        RowFilterV::All(parts) => all_match(parts, row),
        RowFilterV::Any(parts) => any_match(parts, row),
    }
}

pub open spec fn all_match(parts: Seq<RowFilterV>, row: Seq<SqlValueV>) -> bool
    decreases parts,
{
    if parts.len() == 0 {
        true
    } else {
        all_match(parts.drop_last(), row) && row_matches(parts.last(), row)
    }
}

pub open spec fn any_match(parts: Seq<RowFilterV>, row: Seq<SqlValueV>) -> bool
    decreases parts,
{
    if parts.len() == 0 {
        false
    } else {
        any_match(parts.drop_last(), row) || row_matches(parts.last(), row)
    }
}

proof fn all_match_fails(parts: Seq<RowFilterV>, row: Seq<SqlValueV>, n: int)
    requires
        0 <= n <= parts.len(),
        !all_match(parts.take(n), row),
    ensures
        !all_match(parts, row),
    decreases parts.len() - n,
{
    if n < parts.len() {
        take_next(parts, n);
        all_match_fails(parts, row, n + 1);
    } else {
        take_all(parts);
    }
}

proof fn any_match_holds(parts: Seq<RowFilterV>, row: Seq<SqlValueV>, n: int)
    requires
        0 <= n <= parts.len(),
        any_match(parts.take(n), row),
    ensures
        any_match(parts, row),
    decreases parts.len() - n,
{
    if n < parts.len() {
        take_next(parts, n);
        any_match_holds(parts, row, n + 1);
    } else {
        take_all(parts);
    }
}

fn is_equal(a: &SqlValue, b: &SqlValue) -> (r: bool)
    ensures
        r == equals(a.deep_view(), b.deep_view()),
{
    match compare(a, b) {
        Some(o) => o == Order::Equal,
        None => false,
    }
}

impl RowFilter {
    /// Whether a row satisfies this filter.
    pub fn matches(&self, row: &Vec<SqlValue>) -> (r: bool)
        requires
            within(self.deep_view(), row@.len()),
        ensures
            r == row_matches(self.deep_view(), row.deep_view()),
        decreases self,
    {
        match self {
            RowFilter::Constant(b) => *b,
            RowFilter::Compare { at, op, value } => match compare(&row[*at], value) {
                Some(o) => is_held(*op, o),
                None => false,
            },
            RowFilter::In { at, values } => {
                let mut i: usize = 0;
                let ghost all = values.deep_view();
                let ghost cell = row.deep_view()[*at as int];
                while i < values.len()
                    invariant
                        i <= values@.len(),
                        *at < row@.len(),
                        all == values.deep_view(),
                        cell == row@[*at as int].deep_view(),
                        forall|k: int| 0 <= k < i ==> !equals(cell, #[trigger] all[k]),
                        self.deep_view() == (RowFilterV::In { at: *at, values: all }),
                        cell == row.deep_view()[*at as int],
                    decreases values@.len() - i,
                {
                    assert(all[i as int] == values@[i as int].deep_view());
                    if is_equal(&row[*at], &values[i]) {
                        assert(equals(cell, all[i as int]));
                        assert(is_member(cell, all));
                        return true;
                    }
                    i = i + 1;
                }
                false
            },
            RowFilter::Between { at, lower, upper } => {
                let above = match compare(&row[*at], lower) {
                    Some(o) => o != Order::Less,
                    None => false,
                };
                let below = match compare(&row[*at], upper) {
                    Some(o) => o != Order::Greater,
                    None => false,
                };
                above && below
            },
            RowFilter::IsNull { at } => match &row[*at] {
                SqlValue::Null => true,
                SqlValue::Missing => true,
                _ => false,
            },
            RowFilter::Not(inner) => !inner.matches(row),
            RowFilter::All(parts) => {
                let ghost all = parts.deep_view();
                proof {
                    row_filter_parts(*parts);
                    assert(all.take(0) =~= Seq::<RowFilterV>::empty());
                }
                let mut i: usize = 0;
                while i < parts.len()
                    invariant
                        i <= parts@.len(),
                        all == parts.deep_view(),
                        self matches RowFilter::All(p) && p == *parts,
                        self.deep_view() == RowFilterV::All(all),
                        all_within(all, row@.len()),
                        all_match(all.take(i as int), row.deep_view()),
                    decreases parts@.len() - i,
                {
                    proof {
                        take_next(all, i as int);
                        all_within_each(all, row@.len(), i as int);
                        assert(all[i as int] == parts@[i as int].deep_view());
                    }
                    if !parts[i].matches(row) {
                        proof {
                            all_match_fails(all, row.deep_view(), i as int + 1);
                        }
                        return false;
                    }
                    i = i + 1;
                }
                proof {
                    take_all(all);
                }
                true
            },
            RowFilter::Any(parts) => {
                let ghost all = parts.deep_view();
                proof {
                    row_filter_parts(*parts);
                    assert(all.take(0) =~= Seq::<RowFilterV>::empty());
                }
                let mut i: usize = 0;
                while i < parts.len()
                    invariant
                        i <= parts@.len(),
                        all == parts.deep_view(),
                        self matches RowFilter::Any(p) && p == *parts,
                        self.deep_view() == RowFilterV::Any(all),
                        all_within(all, row@.len()),
                        !any_match(all.take(i as int), row.deep_view()),
                    decreases parts@.len() - i,
                {
                    proof {
                        take_next(all, i as int);
                        all_within_each(all, row@.len(), i as int);
                        assert(all[i as int] == parts@[i as int].deep_view());
                    }
                    if parts[i].matches(row) {
                        proof {
                            any_match_holds(all, row.deep_view(), i as int + 1);
                        }
                        return true;
                    }
                    i = i + 1;
                }
                proof {
                    take_all(all);
                }
                false
            },
        }
    }
}

// ── filters as text ──────────────────────────────────────────────────────

pub open spec fn shown_all(values: Seq<SqlValueV>) -> Seq<Seq<char>> {
    values.map_values(|v: SqlValueV| shown_text(v))
}

fn show_all(values: &Vec<SqlValue>) -> (r: Vec<String>)
    ensures
        texts(r@) == shown_all(values.deep_view()),
{
    let ghost all = values.deep_view();
    let mut out: Vec<String> = Vec::new();
    let mut i: usize = 0;
    while i < values.len()
        invariant
            i <= values@.len(),
            all == values.deep_view(),
            out@.len() == i,
            forall|k: int| 0 <= k < i ==> (#[trigger] out@[k])@ == shown_text(all[k]),
        decreases values@.len() - i,
    {
        assert(all[i as int] == values@[i as int].deep_view());
        out.push(shown(&values[i]));
        i = i + 1;
    }
    assert(texts(out@) =~= shown_all(all));
    out
}

/// The predicate as a statement would have written it.
pub open spec fn filter_text(f: RowFilterV, columns: Seq<CatalogColumnV>) -> Seq<char>
    decreases f,
{
    match f {
        RowFilterV::Constant(b) => if b {
            "true"@
        } else {
            "false"@
        },
        RowFilterV::Compare { at, op, value } => columns[at as int].name + " "@ + op2_text(op)
            + " "@ + shown_text(value),
        RowFilterV::In { at, values } => columns[at as int].name + " IN ("@ + joined(
            shown_all(values),
            ", "@,
        ) + ")"@,
        RowFilterV::Between { at, lower, upper } => columns[at as int].name + " BETWEEN "@
            + shown_text(lower) + " AND "@ + shown_text(upper),
        RowFilterV::IsNull { at } => columns[at as int].name + " IS NULL"@,
        RowFilterV::Not(inner) => "NOT ("@ + filter_text(*inner, columns) + ")"@,
        RowFilterV::All(parts) => joined(filter_texts(parts, columns), " AND "@),
        RowFilterV::Any(parts) => "("@ + joined(filter_texts(parts, columns), " OR "@) + ")"@,
    }
}

pub open spec fn filter_texts(parts: Seq<RowFilterV>, columns: Seq<CatalogColumnV>) -> Seq<
    Seq<char>,
>
    decreases parts,
{
    if parts.len() == 0 {
        Seq::empty()
    } else {
        filter_texts(parts.drop_last(), columns).push(filter_text(parts.last(), columns))
    }
}

impl RowFilter {
    /// The predicate as a statement would have written it.
    pub fn written(&self, relation: &CatalogRelation) -> (r: String)
        requires
            within(self.deep_view(), relation.columns@.len()),
        ensures
            r@ == filter_text(self.deep_view(), relation.deep_view().columns),
        decreases self, 0nat,
    {
        let ghost columns = relation.deep_view().columns;
        assert(columns.len() == relation.columns@.len());
        match self {
            RowFilter::Constant(b) => owned(
                if *b {
                    "true"
                } else {
                    "false"
                },
            ),
            RowFilter::Compare { at, op, value } => cat5(
                relation.columns[*at].name,
                " ",
                op.written(),
                " ",
                shown(value).as_str(),
            ),
            RowFilter::In { at, values } => {
                let list = show_all(values);
                crate::text::cat4(
                    relation.columns[*at].name,
                    " IN (",
                    join(&list, ", ").as_str(),
                    ")",
                )
            },
            RowFilter::Between { at, lower, upper } => cat5(
                relation.columns[*at].name,
                " BETWEEN ",
                shown(lower).as_str(),
                " AND ",
                shown(upper).as_str(),
            ),
            RowFilter::IsNull { at } => cat2(relation.columns[*at].name, " IS NULL"),
            RowFilter::Not(inner) => cat3("NOT (", inner.written(relation).as_str(), ")"),
            RowFilter::All(parts) => {
                proof {
                    row_filter_parts(*parts);
                }
                join(&written_all(parts, relation), " AND ")
            },
            RowFilter::Any(parts) => {
                proof {
                    row_filter_parts(*parts);
                }
                cat3("(", join(&written_all(parts, relation), " OR ").as_str(), ")")
            },
        }
    }
}

/// The predicates of a list as a statement would have written them.
pub fn written_all(parts: &Vec<RowFilter>, relation: &CatalogRelation) -> (r: Vec<String>)
    requires
        all_within(parts.deep_view(), relation.columns@.len()),
    ensures
        texts(r@) == filter_texts(parts.deep_view(), relation.deep_view().columns),
    decreases parts, 1nat,
{
    let ghost all = parts.deep_view();
    let ghost columns = relation.deep_view().columns;
    let mut out: Vec<String> = Vec::new();
    let mut i: usize = 0;
    assert(all.take(0) =~= Seq::<RowFilterV>::empty());
    assert(texts(out@) =~= Seq::<Seq<char>>::empty());
    while i < parts.len()
        invariant
            i <= parts@.len(),
            all == parts.deep_view(),
            columns == relation.deep_view().columns,
            all_within(all, relation.columns@.len()),
            texts(out@) == filter_texts(all.take(i as int), columns),
        decreases parts@.len() - i,
    {
        proof {
            take_next(all, i as int);
            all_within_each(all, relation.columns@.len(), i as int);
            assert(all[i as int] == parts@[i as int].deep_view());
        }
        let ghost before = out@;
        let text = parts[i].written(relation);
        out.push(text);
        assert(texts(out@) =~= texts(before).push(text@));
        i = i + 1;
    }
    proof {
        take_all(all);
    }
    out
}

// ── sorting ──────────────────────────────────────────────────────────────

/// The order of two rows by one column: by value, and by the printed text
/// where the values are equal or cannot be compared.
#[verifier::opaque]
pub open spec fn row_order(a: Seq<SqlValueV>, b: Seq<SqlValueV>, at: int) -> Order {
    match value_order(a[at], b[at]) {
        Some(Order::Less) => Order::Less,
        Some(Order::Greater) => Order::Greater,
        _ => text_order(shown_text(a[at]), shown_text(b[at])),
    }
}

fn order_rows(a: &Vec<SqlValue>, b: &Vec<SqlValue>, at: usize) -> (r: Order)
    requires
        at < a@.len(),
        at < b@.len(),
    ensures
        r == row_order(a.deep_view(), b.deep_view(), at as int),
{
    reveal(row_order);
    match compare(&a[at], &b[at]) {
        Some(Order::Less) => Order::Less,
        Some(Order::Greater) => Order::Greater,
        _ => order_text(shown(&a[at]).as_str(), shown(&b[at]).as_str()),
    }
}

/// Where a row goes among sorted ones, at `i` or before: behind every row that
/// it does not stand before.
pub open spec fn place_from(sorted: Seq<Seq<SqlValueV>>, row: Seq<SqlValueV>, at: int, i: nat) -> nat
    decreases i,
{
    if i == 0 || row_order(row, sorted[i - 1], at) != Order::Less {
        i
    } else {
        place_from(sorted, row, at, (i - 1) as nat)
    }
}

/// The rows, sorted by one column; rows that are equal keep their order.
pub open spec fn sorted_rows(rows: Seq<Seq<SqlValueV>>, at: int) -> Seq<Seq<SqlValueV>>
    decreases rows.len(),
{
    if rows.len() == 0 {
        Seq::empty()
    } else {
        let done = sorted_rows(rows.drop_last(), at);
        done.insert(place_from(done, rows.last(), at, done.len()) as int, rows.last())
    }
}

proof fn place_bound(sorted: Seq<Seq<SqlValueV>>, row: Seq<SqlValueV>, at: int, i: nat)
    ensures
        place_from(sorted, row, at, i) <= i,
    decreases i,
{
    if i > 0 {
        place_bound(sorted, row, at, (i - 1) as nat);
    }
}

/// Sorting loses no row and makes none up.
pub proof fn sorted_is_permutation(rows: Seq<Seq<SqlValueV>>, at: int)
    ensures
        sorted_rows(rows, at).len() == rows.len(),
        sorted_rows(rows, at).to_multiset() == rows.to_multiset(),
    decreases rows.len(),
{
    broadcast use vstd::seq_lib::group_to_multiset_ensures;

    if rows.len() > 0 {
        sorted_is_permutation(rows.drop_last(), at);
        let done = sorted_rows(rows.drop_last(), at);
        let place = place_from(done, rows.last(), at, done.len()) as int;
        place_bound(done, rows.last(), at, done.len());
        assert(rows.drop_last().push(rows.last()) =~= rows);
        vstd::seq_lib::to_multiset_insert(done, place, rows.last());
    } else {
        assert(rows =~= Seq::empty());
    }
}

fn insert_row(sorted: &mut Vec<Vec<SqlValue>>, row: Vec<SqlValue>, at: usize)
    requires
        at < row@.len(),
        forall|k: int| 0 <= k < old(sorted)@.len() ==> at < (#[trigger] old(sorted)@[k])@.len(),
    ensures
        final(sorted).deep_view() == old(sorted).deep_view().insert(
            place_from(
                old(sorted).deep_view(),
                row.deep_view(),
                at as int,
                old(sorted).deep_view().len(),
            ) as int,
            row.deep_view(),
        ),
        forall|k: int| 0 <= k < final(sorted)@.len() ==> at < (#[trigger] final(sorted)@[k])@.len(),
{
    let ghost before = sorted.deep_view();
    let ghost old_rows = sorted@;
    let mut i: usize = sorted.len();
    while i > 0 && order_rows(&row, &sorted[i - 1], at) == Order::Less
        invariant
            i <= sorted@.len(),
            sorted@ == old_rows,
            before == sorted.deep_view(),
            at < row@.len(),
            forall|k: int| 0 <= k < sorted@.len() ==> at < (#[trigger] sorted@[k])@.len(),
            place_from(before, row.deep_view(), at as int, i as nat) == place_from(
                before,
                row.deep_view(),
                at as int,
                before.len(),
            ),
        decreases i,
    {
        assert(before[i - 1] == sorted@[i - 1].deep_view());
        i = i - 1;
    }
    if i > 0 {
        assert(before[i - 1] == sorted@[i - 1].deep_view());
    }
    let ghost view = row.deep_view();
    sorted.insert(i, row);
    assert(sorted.deep_view() =~= before.insert(i as int, view));
    assert forall|k: int| 0 <= k < sorted@.len() implies at < (#[trigger] sorted@[k])@.len() by {
        if k < i {
            assert(sorted@[k] == old_rows[k]);
        } else if k > i {
            assert(sorted@[k] == old_rows[k - 1]);
        }
    }
}

/// Sorts rows by one column.
pub fn sort_rows(rows: Vec<Vec<SqlValue>>, at: usize) -> (r: Vec<Vec<SqlValue>>)
    requires
        forall|k: int| 0 <= k < rows@.len() ==> at < (#[trigger] rows@[k])@.len(),
    ensures
        r.deep_view() == sorted_rows(rows.deep_view(), at as int),
        forall|k: int| 0 <= k < r@.len() ==> at < (#[trigger] r@[k])@.len(),
{
    let ghost all = rows.deep_view();
    let ghost original = rows@;
    let n: usize = rows.len();
    let mut rest = rows;
    let mut out: Vec<Vec<SqlValue>> = Vec::new();
    let mut i: usize = 0;
    assert(all.take(0) =~= Seq::<Seq<SqlValueV>>::empty());
    assert(out.deep_view() =~= Seq::<Seq<SqlValueV>>::empty());
    while i < n
        invariant
            i <= n,
            n == original.len(),
            all == rows.deep_view(),
            original == rows@,
            rest@ == original.skip(i as int),
            forall|k: int| 0 <= k < original.len() ==> at < (#[trigger] original[k])@.len(),
            forall|k: int| 0 <= k < out@.len() ==> at < (#[trigger] out@[k])@.len(),
            out.deep_view() == sorted_rows(all.take(i as int), at as int),
        decreases n - i,
    {
        proof {
            take_next(all, i as int);
            assert(rest@[0] == original[i as int]);
            assert(all[i as int] == original[i as int].deep_view());
        }
        let row = rest.remove(0);
        assert(rest@ =~= original.skip(i as int + 1));
        insert_row(&mut out, row, at);
        i = i + 1;
    }
    proof {
        take_all(all);
    }
    out
}

// ── distinct rows ────────────────────────────────────────────────────────

/// What two rows are held equal by: their printed values.
pub open spec fn row_key(row: Seq<SqlValueV>) -> Seq<char> {
    joined(shown_all(row), "\u{1}"@)
}

pub open spec fn has_key(rows: Seq<Seq<SqlValueV>>, key: Seq<char>) -> bool {
    exists|k: int| 0 <= k < rows.len() && row_key(#[trigger] rows[k]) == key
}

/// The rows, without those that print as an earlier one does.
pub open spec fn distinct_rows(rows: Seq<Seq<SqlValueV>>) -> Seq<Seq<SqlValueV>>
    decreases rows.len(),
{
    if rows.len() == 0 {
        Seq::empty()
    } else if has_key(rows.drop_last(), row_key(rows.last())) {
        distinct_rows(rows.drop_last())
    } else {
        distinct_rows(rows.drop_last()).push(rows.last())
    }
}

fn key_of(row: &Vec<SqlValue>) -> (r: String)
    ensures
        r@ == row_key(row.deep_view()),
{
    join(&show_all(row), "\u{1}")
}

fn holds_key(keys: &Vec<String>, key: &str) -> (r: bool)
    ensures
        r == (exists|k: int| 0 <= k < keys@.len() && (#[trigger] keys@[k])@ == key@),
{
    let mut i: usize = 0;
    while i < keys.len()
        invariant
            i <= keys@.len(),
            forall|k: int| 0 <= k < i ==> (#[trigger] keys@[k])@ != key@,
        decreases keys@.len() - i,
    {
        if same(keys[i].as_str(), key) {
            return true;
        }
        i = i + 1;
    }
    false
}

/// Drops the rows that print as an earlier one does.
pub fn drop_repeats(rows: Vec<Vec<SqlValue>>) -> (r: Vec<Vec<SqlValue>>)
    ensures
        r.deep_view() == distinct_rows(rows.deep_view()),
{
    let ghost all = rows.deep_view();
    let ghost original = rows@;
    let n: usize = rows.len();
    let mut rest = rows;
    let mut out: Vec<Vec<SqlValue>> = Vec::new();
    let mut seen: Vec<String> = Vec::new();
    let mut i: usize = 0;
    assert(all.take(0) =~= Seq::<Seq<SqlValueV>>::empty());
    assert(out.deep_view() =~= Seq::<Seq<SqlValueV>>::empty());
    while i < n
        invariant
            i <= n,
            n == original.len(),
            all == rows.deep_view(),
            original == rows@,
            rest@ == original.skip(i as int),
            out.deep_view() == distinct_rows(all.take(i as int)),
            forall|key: Seq<char>|
                #[trigger] has_key(all.take(i as int), key) <==> exists|k: int|
                    0 <= k < seen@.len() && (#[trigger] seen@[k])@ == key,
        decreases n - i,
    {
        let ghost done = all.take(i as int);
        proof {
            take_next(all, i as int);
            assert(rest@[0] == original[i as int]);
            assert(all[i as int] == original[i as int].deep_view());
        }
        let row = rest.remove(0);
        assert(rest@ =~= original.skip(i as int + 1));
        let key = key_of(&row);
        let ghost view = row.deep_view();
        let ghost before_seen = seen@;
        if !holds_key(&seen, key.as_str()) {
            let ghost before = out.deep_view();
            out.push(row);
            assert(out.deep_view() =~= before.push(view));
            seen.push(key);
        }
        proof {
            let next = all.take(i as int + 1);
            assert(next == done.push(view));
            assert forall|k2: Seq<char>| #[trigger] has_key(next, k2) <==> exists|k: int|
                0 <= k < seen@.len() && (#[trigger] seen@[k])@ == k2 by {
                if has_key(next, k2) {
                    let k = choose|k: int| 0 <= k < next.len() && row_key(#[trigger] next[k]) == k2;
                    if k < done.len() {
                        assert(done[k] == next[k]);
                        assert(has_key(done, k2));
                        let j = choose|j: int|
                            0 <= j < before_seen.len() && (#[trigger] before_seen[j])@ == k2;
                        assert(seen@[j]@ == k2);
                    } else {
                        assert(k2 == row_key(view));
                        if exists|j: int|
                            0 <= j < before_seen.len() && (#[trigger] before_seen[j])@ == k2 {
                            let j = choose|j: int|
                                0 <= j < before_seen.len() && (#[trigger] before_seen[j])@ == k2;
                            assert(seen@[j]@ == k2);
                        } else {
                            assert(seen@[seen@.len() - 1]@ == k2);
                        }
                    }
                }
                if exists|k: int| 0 <= k < seen@.len() && (#[trigger] seen@[k])@ == k2 {
                    let j = choose|j: int| 0 <= j < seen@.len() && (#[trigger] seen@[j])@ == k2;
                    if j < before_seen.len() {
                        assert(before_seen[j]@ == k2);
                        assert(has_key(done, k2));
                        let k = choose|k: int|
                            0 <= k < done.len() && row_key(#[trigger] done[k]) == k2;
                        assert(next[k] == done[k]);
                    } else {
                        assert(next[done.len() as int] == view);
                    }
                }
            }
        }
        i = i + 1;
    }
    proof {
        take_all(all);
    }
    out
}

} // verus!
