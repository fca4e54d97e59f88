//! The shape of a geometry's coordinates: positions of two numbers, under as
//! many arrays as the kind of geometry has.

use vstd::prelude::*;
use crate::json::{json_view, json_view_items, Json, JsonV};
use crate::scan::holds_char;
use crate::text::{cat3, cat4, debug_quoted, decimal, decimal_usize, owned, quoted};

verus! {

/// Whether a number is written with a fraction or an exponent.
pub open spec fn is_fractional(n: Seq<char>) -> bool {
    n.contains('.') || n.contains('e') || n.contains('E')
}

/// A value that was not expected, in words.
pub open spec fn described(v: JsonV) -> Seq<char> {
    match v {
        JsonV::Null => "null"@,
        JsonV::Bool(b) => if b {
            "boolean `true`"@
        } else {
            "boolean `false`"@
        },
        JsonV::Number(n) => if is_fractional(n) {
            "floating point `"@ + n + "`"@
        } else {
            "integer `"@ + n + "`"@
        },
        JsonV::Text(s) => "string "@ + debug_quoted(s),
        JsonV::Array(_) => "sequence"@,
        JsonV::Object => "map"@,
    }
}

/// A value where another was expected.
pub open spec fn misplaced(v: JsonV, wanted: Seq<char>) -> Seq<char> {
    "invalid type: "@ + described(v) + ", expected "@ + wanted
}

/// A list of the wrong length.
pub open spec fn wrong_length(n: int, wanted: Seq<char>) -> Seq<char> {
    "invalid length "@ + decimal(n) + ", expected "@ + wanted
}

/// What is wrong with the items of a position, where something is: it is two
/// numbers. The first thing that is wrong is told.
pub open spec fn pair_fault(items: Seq<JsonV>) -> Option<Seq<char>> {
    if items.len() == 0 {
        Some(wrong_length(0, "an array of length 2"@))
    } else if !(items[0] is Number) {
        Some(misplaced(items[0], "f64"@))
    } else if items.len() == 1 {
        Some(wrong_length(1, "an array of length 2"@))
    } else if !(items[1] is Number) {
        Some(misplaced(items[1], "f64"@))
    } else if items.len() > 2 {
        Some(wrong_length(items.len() as int, "fewer elements in array"@))
    } else {
        None
    }
}

/// What is wrong with positions under `depth` arrays, where something is.
pub open spec fn position_fault(v: JsonV, depth: nat) -> Option<Seq<char>>
    decreases depth, 0nat,
{
    match v {
        JsonV::Array(items) => if depth == 0 {
            pair_fault(items)
        } else {
            item_fault(items, (depth - 1) as nat, 0)
        },
        _ => Some(
            misplaced(
                v,
                if depth == 0 {
                    "an array of length 2"@
                } else {
                    "a sequence"@
                },
            ),
        ),
    }
}

/// What is wrong with the first item from `i` on that something is wrong with.
pub open spec fn item_fault(items: Seq<JsonV>, depth: nat, i: nat) -> Option<Seq<char>>
    decreases depth, 1nat, items.len() - i,
{
    if i >= items.len() {
        None
    } else {
        match position_fault(items[i as int], depth) {
            Some(fault) => Some(fault),
            None => item_fault(items, depth, i + 1),
        }
    }
}

fn describe(v: &Json) -> (r: String)
    ensures
        r@ == described(v.deep_view()),
{
    match v {
        Json::Null => owned("null"),
        Json::Bool(b) => owned(
            if *b {
                "boolean `true`"
            } else {
                "boolean `false`"
            },
        ),
        Json::Number(n) => {
            let s = n.as_str();
            if holds_char(s, '.') || holds_char(s, 'e') || holds_char(s, 'E') {
                cat3("floating point `", s, "`")
            } else {
                cat3("integer `", s, "`")
            }
        },
        Json::Text(s) => crate::text::cat2("string ", quoted(s.as_str()).as_str()),
        Json::Array(_) => owned("sequence"),
        Json::Object => owned("map"),
    }
}

fn misplace(v: &Json, wanted: &str) -> (r: String)
    ensures
        r@ == misplaced(v.deep_view(), wanted@),
{
    cat4("invalid type: ", describe(v).as_str(), ", expected ", wanted)
}

fn mislength(n: usize, wanted: &str) -> (r: String)
    ensures
        r@ == wrong_length(n as int, wanted@),
{
    cat4("invalid length ", decimal_usize(n).as_str(), ", expected ", wanted)
}

fn is_number(v: &Json) -> (r: bool)
    ensures
        r == v.deep_view() is Number,
{
    match v {
        Json::Number(_) => true,
        _ => false,
    }
}

fn fault_in_pair(items: &Vec<Json>) -> (r: Option<String>)
    ensures
        r.deep_view() == pair_fault(items.deep_view()),
{
    let n = items.len();
    if n == 0 {
        return Some(mislength(0, "an array of length 2"));
    }
    assert(items.deep_view()[0] == items@[0].deep_view());
    if !is_number(&items[0]) {
        return Some(misplace(&items[0], "f64"));
    }
    if n == 1 {
        return Some(mislength(1, "an array of length 2"));
    }
    assert(items.deep_view()[1] == items@[1].deep_view());
    if !is_number(&items[1]) {
        return Some(misplace(&items[1], "f64"));
    }
    if n > 2 {
        return Some(mislength(n, "fewer elements in array"));
    }
    None
}

/// What is wrong with positions under `depth` arrays, where something is.
pub fn fault_in(v: &Json, depth: usize) -> (r: Option<String>)
    ensures
        r.deep_view() == position_fault(v.deep_view(), depth as nat),
    decreases depth,
{
    match v {
        Json::Array(items) => {
            proof {
                json_view_items(*items);
            }
            if depth == 0 {
                return fault_in_pair(items);
            }
            let ghost all = items.deep_view();
            let mut i: usize = 0;
            while i < items.len()
                invariant
                    i <= items@.len(),
                    all == items.deep_view(),
                    depth > 0,
                    json_view(*v) == JsonV::Array(all),
                    item_fault(all, (depth - 1) as nat, i as nat) == item_fault(
                        all,
                        (depth - 1) as nat,
                        0,
                    ),
                decreases items@.len() - i,
            {
                assert(all[i as int] == items@[i as int].deep_view());
                let fault = fault_in(&items[i], depth - 1);
                if fault.is_some() {
                    return fault;
                }
                i = i + 1;
            }
            None
        },
        _ => Some(
            misplace(
                v,
                if depth == 0 {
                    "an array of length 2"
                } else {
                    "a sequence"
                },
            ),
        ),
    }
}

} // verus!
