//! One row as the engine sees it, and which filters let it through.

use vstd::prelude::*;
use crate::compile::bind::{
    number_bits, BoundsValueV, GeomValueV, NumberV, PointValueV, ScalarV, TextMatch,
};
use crate::compile::env::{CollectionV, IndexExprV};
use crate::compile::plan::{
    Bound, GeometryFilterV, OwnedFilterV, OwnedGraphV, OwnedScalarFilterV, PointFilterV,
};
use crate::number::real_order;
use crate::scan::{int_order, text_order, Order};
use crate::text::lowercase;
use crate::value::EntityId;

verus! {

/// What a row holds in a column.
pub enum Cell {
    Missing,
    Null,
    Held(ScalarV),
}

/// A row, what it holds, and how the engine reads places and words. A place is
/// a number; a geometry is the set of the places that it covers.
pub struct Row {
    pub id: EntityId,
    pub key: Seq<char>,
    pub cell: spec_fn(Seq<char>) -> Cell,
    /// The text of one member of a JSON column.
    pub member: spec_fn(Seq<char>, Seq<char>) -> Cell,
    /// Where a point column lies.
    pub spot: spec_fn(Seq<char>) -> Option<int>,
    /// What a geometry column covers.
    pub shape: spec_fn(Seq<char>) -> Option<Set<int>>,
    /// Where a point lies.
    pub at: spec_fn(PointValueV) -> int,
    /// What a geometry covers.
    pub area: spec_fn(GeomValueV) -> Set<int>,
    /// What a rectangle covers.
    pub frame: spec_fn(BoundsValueV) -> Set<int>,
    /// Whether two places are at most so many metres apart.
    pub near: spec_fn(int, int, NumberV) -> bool,
    /// Whether the words of a query are found in a column.
    pub found: spec_fn(Seq<char>, Seq<char>, TextMatch) -> bool,
    /// Whether a traversal reaches the row.
    pub reached: spec_fn(OwnedGraphV) -> bool,
    /// The column of an index.
    pub column: spec_fn(u64) -> Seq<char>,
    /// What an index holds of its column.
    pub over: spec_fn(u64) -> Option<IndexExprV>,
}

/// Whether the indexes that a row is filed in are those of its collection.
pub open spec fn filed(w: Row, c: CollectionV) -> bool {
    forall|i: int|
        0 <= i < c.indexes.len() ==> (w.column)((#[trigger] c.indexes[i]).id) == c.indexes[i].field
            && (w.over)(c.indexes[i].id) == c.indexes[i].expression
}

// ── values ───────────────────────────────────────────────────────────────

/// How two values of one kind are ordered.
pub open spec fn scalar_order(a: ScalarV, b: ScalarV) -> Option<Order> {
    match (a, b) {
        (ScalarV::I64(x), ScalarV::I64(y)) => Some(int_order(x as int, y as int)),
        (ScalarV::Text(x), ScalarV::Text(y)) => Some(text_order(x, y)),
        (ScalarV::Bool(x), ScalarV::Bool(y)) => Some(
            if x == y {
                Order::Equal
            } else if y {
                Order::Less
            } else {
                Order::Greater
            },
        ),
        (ScalarV::F64(x), ScalarV::F64(y)) => real_order(
            number_bits(x) as u64,
            number_bits(y) as u64,
        ),
        _ => None,
    }
}

/// A value is no less than a lower bound.
pub open spec fn clears(lower: Bound<ScalarV>, x: ScalarV) -> bool {
    match lower {
        Bound::Unbounded => true,
        Bound::Included(v) => scalar_order(x, v) == Some(Order::Equal) || scalar_order(x, v)
            == Some(Order::Greater),
        Bound::Excluded(v) => scalar_order(x, v) == Some(Order::Greater),
    }
}

/// A value is no more than an upper bound.
pub open spec fn stays_under(upper: Bound<ScalarV>, x: ScalarV) -> bool {
    match upper {
        Bound::Unbounded => true,
        Bound::Included(v) => scalar_order(x, v) == Some(Order::Equal) || scalar_order(x, v)
            == Some(Order::Less),
        Bound::Excluded(v) => scalar_order(x, v) == Some(Order::Less),
    }
}

/// What an index holds for a row.
pub open spec fn posting(w: Row, index: u64) -> Cell {
    let column = (w.column)(index);
    match (w.over)(index) {
        None => (w.cell)(column),
        Some(IndexExprV::Lower) => folded((w.cell)(column)),
        Some(IndexExprV::JsonText(member)) => (w.member)(column, member),
    }
}

/// A text in lower case.
pub open spec fn folded(cell: Cell) -> Cell {
    match cell {
        Cell::Held(ScalarV::Text(s)) => Cell::Held(ScalarV::Text(lowercase(s))),
        other => other,
    }
}

// ── three truth values ───────────────────────────────────────────────────

/// The opposite; what is unknown stays so.
pub open spec fn not(a: Option<bool>) -> Option<bool> {
    match a {
        Some(x) => Some(!x),
        None => None,
    }
}

pub open spec fn both(a: Option<bool>, b: Option<bool>) -> Option<bool> {
    if a == Some(false) || b == Some(false) {
        Some(false)
    } else if a is None || b is None {
        None
    } else {
        Some(true)
    }
}

pub open spec fn either(a: Option<bool>, b: Option<bool>) -> Option<bool> {
    if a == Some(true) || b == Some(true) {
        Some(true)
    } else if a is None || b is None {
        None
    } else {
        Some(false)
    }
}

// ── filters ──────────────────────────────────────────────────────────────

/// What a filter over an index says of what the index holds.
pub open spec fn scalar_says(f: OwnedScalarFilterV, cell: Cell) -> Option<bool> {
    match (f, cell) {
        (OwnedScalarFilterV::IsNull, _) => Some(!(cell is Held)),
        (OwnedScalarFilterV::IsMissing, _) => Some(cell is Missing),
        (OwnedScalarFilterV::Eq(v), Cell::Held(x)) => Some(
            scalar_order(x, v) == Some(Order::Equal),
        ),
        (OwnedScalarFilterV::Range { lower, upper }, Cell::Held(x)) => Some(
            clears(lower, x) && stays_under(upper, x),
        ),
        _ => None,
    }
}

pub open spec fn key_says(lower: Bound<Seq<char>>, upper: Bound<Seq<char>>, key: Seq<char>) -> bool {
    (match lower {
        Bound::Unbounded => true,
        Bound::Included(v) => text_order(key, v) != Order::Less,
        Bound::Excluded(v) => text_order(key, v) == Order::Greater,
    }) && (match upper {
        Bound::Unbounded => true,
        Bound::Included(v) => text_order(key, v) != Order::Greater,
        Bound::Excluded(v) => text_order(key, v) == Order::Less,
    })
}

pub open spec fn point_says(w: Row, f: PointFilterV, spot: Option<int>) -> Option<bool> {
    match spot {
        None => None,
        Some(p) => Some(
            match f {
                PointFilterV::Radius { center, radius_metres } => (w.near)(
                    p,
                    (w.at)(center),
                    radius_metres,
                ),
                PointFilterV::Bbox(b) => (w.frame)(b).contains(p),
            },
        ),
    }
}

/// Whether two geometries have places that are near each other.
pub open spec fn reach(w: Row, x: Set<int>, a: Set<int>, metres: NumberV) -> bool {
    exists|p: int, q: int| #![trigger (w.near)(p, q, metres)] x.contains(p) && a.contains(q) && (w.near)(p, q, metres)
}

pub open spec fn geometry_says(w: Row, f: GeometryFilterV, shape: Option<Set<int>>) -> Option<bool> {
    match shape {
        None => None,
        Some(x) => Some(
            match f {
                GeometryFilterV::Intersects(a) => !x.disjoint((w.area)(a)),
                GeometryFilterV::Within(a) => x.subset_of((w.area)(a)),
                GeometryFilterV::Contains(a) => (w.area)(a).subset_of(x),
                GeometryFilterV::DWithin { geometry, metres } => reach(
                    w,
                    x,
                    (w.area)(geometry),
                    metres,
                ),
            },
        ),
    }
}

/// What a filter says of a row: it is let through where that is true.
pub open spec fn filter_says(w: Row, f: OwnedFilterV) -> Option<bool>
    decreases f,
{
    match f {
        OwnedFilterV::Scalar { index, predicate, .. } => scalar_says(predicate, posting(w, index)),
        OwnedFilterV::Point { index, predicate, .. } => point_says(
            w,
            predicate,
            (w.spot)((w.column)(index)),
        ),
        OwnedFilterV::Geometry { index, predicate, .. } => geometry_says(
            w,
            predicate,
            (w.shape)((w.column)(index)),
        ),
        OwnedFilterV::Text { index, query, matching, .. } => Some(
            (w.found)((w.column)(index), query, matching),
        ),
        OwnedFilterV::Graph(g) => Some((w.reached)(g)),
        OwnedFilterV::Key { lower, upper, .. } => Some(key_says(lower, upper, w.key)),
        OwnedFilterV::Any(parts) => any_says(w, parts),
        OwnedFilterV::All(parts) => all_say(w, parts),
        OwnedFilterV::Not(inner) => not(filter_says(w, *inner)),
        OwnedFilterV::Ids(ids) => Some(ids.contains(w.id)),
    }
}

pub open spec fn any_says(w: Row, parts: Seq<OwnedFilterV>) -> Option<bool>
    decreases parts,
{
    if parts.len() == 0 {
        Some(false)
    } else {
        either(any_says(w, parts.drop_last()), filter_says(w, parts.last()))
    }
}

pub open spec fn all_say(w: Row, parts: Seq<OwnedFilterV>) -> Option<bool>
    decreases parts,
{
    if parts.len() == 0 {
        Some(true)
    } else {
        both(all_say(w, parts.drop_last()), filter_says(w, parts.last()))
    }
}

} // verus!
