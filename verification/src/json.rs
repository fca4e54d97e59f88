//! JSON text, read one level at a time.

use vstd::prelude::*;
use serde_json::Value;
use crate::lists::{take_all, take_next};
use crate::text::{same, texts};

verus! {

// ── one level ────────────────────────────────────────────────────────────

/// What stands at the top of a JSON text. What stands inside is JSON text
/// again.
#[derive(Debug)]
pub enum JsonNode {
    Null,
    Bool(bool),
    /// A number, as its `Display` writes it.
    Number(String),
    Text(String),
    Array(Vec<String>),
    Object(Vec<(String, String)>),
}

pub enum JsonNodeV {
    Null,
    Bool(bool),
    Number(Seq<char>),
    Text(Seq<char>),
    Array(Seq<Seq<char>>),
    Object(Seq<(Seq<char>, Seq<char>)>),
}

impl DeepView for JsonNode {
    type V = JsonNodeV;

    open spec fn deep_view(&self) -> JsonNodeV {
        match *self {
            JsonNode::Null => JsonNodeV::Null,
            JsonNode::Bool(b) => JsonNodeV::Bool(b),
            JsonNode::Number(text) => JsonNodeV::Number(text@),
            JsonNode::Text(text) => JsonNodeV::Text(text@),
            JsonNode::Array(items) => JsonNodeV::Array(texts(items@)),
            JsonNode::Object(members) => JsonNodeV::Object(members.deep_view()),
        }
    }
}

/// What `serde_json::from_str` reads at the top of a text, with the parts of an
/// array or an object as the JSON text that `Display` writes for them; or the
/// text of its error.
pub uninterp spec fn json_node(text: Seq<char>) -> Result<JsonNodeV, Seq<char>>;

/// Calls `serde_json::from_str`, and turns each kind of `serde_json::Value`
/// into the node of that kind. What comes back depends on the text alone.
#[verifier::external_body]
pub(crate) fn read_node(text: &str) -> (r: Result<JsonNode, String>)
    ensures
        match r {
            Ok(node) => json_node(text@) == Ok::<JsonNodeV, Seq<char>>(node.deep_view()),
            Err(e) => json_node(text@) == Err::<JsonNodeV, Seq<char>>(e@),
        },
{
    match serde_json::from_str(text) {
        Ok(Value::Null) => Ok(JsonNode::Null),
        Ok(Value::Bool(b)) => Ok(JsonNode::Bool(b)),
        Ok(Value::Number(n)) => Ok(JsonNode::Number(n.to_string())),
        Ok(Value::String(s)) => Ok(JsonNode::Text(s)),
        Ok(Value::Array(a)) => Ok(
            JsonNode::Array(a.iter().map(|v| v.to_string()).collect()),
        ),
        Ok(Value::Object(m)) => Ok(
            JsonNode::Object(m.into_iter().map(|(k, v)| (k, v.to_string())).collect()),
        ),
        Err(e) => Err(e.to_string()),
    }
}

/// The JSON text of a member of an object, from position `i` on.
pub open spec fn member_text(members: Seq<(Seq<char>, Seq<char>)>, name: Seq<char>, i: nat) -> Option<
    Seq<char>,
>
    decreases members.len() - i,
{
    if i >= members.len() {
        None
    } else if members[i as int].0 == name {
        Some(members[i as int].1)
    } else {
        member_text(members, name, i + 1)
    }
}

impl JsonNodeV {
    /// The JSON text of a member; only an object has members.
    pub open spec fn member(self, name: Seq<char>) -> Option<Seq<char>> {
        match self {
            JsonNodeV::Object(members) => member_text(members, name, 0),
            _ => None,
        }
    }
}

impl JsonNode {
    /// The JSON text of a member; only an object has members.
    pub fn member(&self, name: &str) -> (r: Option<String>)
        ensures
            r.deep_view() == self.deep_view().member(name@),
    {
        match self {
            JsonNode::Object(members) => {
                let ghost all = members.deep_view();
                let mut i: usize = 0;
                while i < members.len()
                    invariant
                        i <= members@.len(),
                        all == members.deep_view(),
                        self.deep_view() == JsonNodeV::Object(all),
                        member_text(all, name@, i as nat) == member_text(all, name@, 0),
                    decreases members@.len() - i,
                {
                    assert(all[i as int] == members@[i as int].deep_view());
                    if same(members[i].0.as_str(), name) {
                        return Some(members[i].1.clone());
                    }
                    i = i + 1;
                }
                None
            },
            _ => None,
        }
    }
}

// ── several levels ───────────────────────────────────────────────────────

/// A JSON value as nested arrays: what an object holds is not read.
#[derive(Debug)]
pub enum Json {
    Null,
    Bool(bool),
    /// A number, as its `Display` writes it.
    Number(String),
    Text(String),
    Array(Vec<Json>),
    Object,
}

pub enum JsonV {
    Null,
    Bool(bool),
    Number(Seq<char>),
    Text(Seq<char>),
    Array(Seq<JsonV>),
    Object,
}

pub open spec fn json_view(v: Json) -> JsonV
    decreases v,
{
    match v {
        Json::Null => JsonV::Null,
        Json::Bool(b) => JsonV::Bool(b),
        Json::Number(text) => JsonV::Number(text@),
        Json::Text(text) => JsonV::Text(text@),
        Json::Array(items) => JsonV::Array(
            Seq::new(
                items@.len(),
                |i: int|
                    if 0 <= i < items@.len() {
                        json_view(items@[i])
                    } else {
                        arbitrary()
                    },
            ),
        ),
        Json::Object => JsonV::Object,
    }
}

impl DeepView for Json {
    type V = JsonV;

    open spec fn deep_view(&self) -> JsonV {
        json_view(*self)
    }
}

/// The view of an array is that of its items.
pub proof fn json_view_items(items: Vec<Json>)
    ensures
        json_view(Json::Array(items)) == JsonV::Array(items.deep_view()),
{
    assert(json_view(Json::Array(items))->Array_0 =~= items.deep_view());
}

/// The value that a text writes, with the arrays in it read `depth` levels
/// deep; one that lies deeper is read as empty.
pub open spec fn json_tree(text: Seq<char>, depth: nat) -> Result<JsonV, Seq<char>>
    decreases depth, 0nat,
{
    match json_node(text) {
        Err(e) => Err(e),
        Ok(JsonNodeV::Null) => Ok(JsonV::Null),
        Ok(JsonNodeV::Bool(b)) => Ok(JsonV::Bool(b)),
        Ok(JsonNodeV::Number(n)) => Ok(JsonV::Number(n)),
        Ok(JsonNodeV::Text(s)) => Ok(JsonV::Text(s)),
        Ok(JsonNodeV::Object(_)) => Ok(JsonV::Object),
        Ok(JsonNodeV::Array(items)) => if depth == 0 {
            Ok(JsonV::Array(Seq::empty()))
        } else {
            match json_trees(items, (depth - 1) as nat) {
                Err(e) => Err(e),
                Ok(list) => Ok(JsonV::Array(list)),
            }
        },
    }
}

pub open spec fn json_trees(items: Seq<Seq<char>>, depth: nat) -> Result<Seq<JsonV>, Seq<char>>
    decreases depth, 1nat, items.len(),
{
    if items.len() == 0 {
        Ok(Seq::empty())
    } else {
        match json_trees(items.drop_last(), depth) {
            Err(e) => Err(e),
            Ok(done) => match json_tree(items.last(), depth) {
                Err(e) => Err(e),
                Ok(v) => Ok(done.push(v)),
            },
        }
    }
}

proof fn json_trees_stop(items: Seq<Seq<char>>, depth: nat, n: int)
    requires
        0 <= n <= items.len(),
        json_trees(items.take(n), depth) is Err,
    ensures
        json_trees(items, depth) == json_trees(items.take(n), depth),
    decreases items.len() - n,
{
    if n < items.len() {
        take_next(items, n);
        json_trees_stop(items, depth, n + 1);
    } else {
        take_all(items);
    }
}

/// A tree, or the text of an error.
pub open spec fn reads_to<T: DeepView>(r: Result<T, String>, want: Result<T::V, Seq<char>>) -> bool {
    match want {
        Ok(v) => r is Ok && r->Ok_0.deep_view() == v,
        Err(e) => r is Err && r->Err_0@ == e,
    }
}

/// Reads the value that a text writes, with the arrays in it `depth` levels
/// deep.
pub fn read_tree(text: &str, depth: usize) -> (r: Result<Json, String>)
    ensures
        reads_to(r, json_tree(text@, depth as nat)),
    decreases depth, 0nat,
{
    match read_node(text)? {
        JsonNode::Null => Ok(Json::Null),
        JsonNode::Bool(b) => Ok(Json::Bool(b)),
        JsonNode::Number(n) => Ok(Json::Number(n)),
        JsonNode::Text(s) => Ok(Json::Text(s)),
        JsonNode::Object(_) => Ok(Json::Object),
        JsonNode::Array(items) => {
            let mut list: Vec<Json> = Vec::new();
            assert(list.deep_view() =~= Seq::<JsonV>::empty());
            if depth > 0 {
                list = read_trees(&items, depth - 1)?;
            }
            proof {
                json_view_items(list);
            }
            Ok(Json::Array(list))
        },
    }
}

fn read_trees(items: &Vec<String>, depth: usize) -> (r: Result<Vec<Json>, String>)
    ensures
        reads_to(r, json_trees(texts(items@), depth as nat)),
    decreases depth, 1nat,
{
    let ghost all = texts(items@);
    let mut list: Vec<Json> = Vec::new();
    let mut i: usize = 0;
    assert(all.take(0) =~= Seq::<Seq<char>>::empty());
    assert(list.deep_view() =~= Seq::<JsonV>::empty());
    while i < items.len()
        invariant
            i <= items@.len(),
            all == texts(items@),
            json_trees(all.take(i as int), depth as nat) == Ok::<Seq<JsonV>, Seq<char>>(
                list.deep_view(),
            ),
        decreases items@.len() - i,
    {
        proof {
            take_next(all, i as int);
            assert(all[i as int] == items@[i as int]@);
        }
        match read_tree(items[i].as_str(), depth) {
            Err(e) => {
                proof {
                    json_trees_stop(all, depth as nat, i as int + 1);
                }
                return Err(e);
            },
            Ok(v) => {
                let ghost before = list.deep_view();
                list.push(v);
                assert(list.deep_view() =~= before.push(v.deep_view()));
            },
        }
        i = i + 1;
    }
    proof {
        take_all(all);
    }
    Ok(list)
}

} // verus!
