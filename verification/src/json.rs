//! Reading JSON with `serde_json`. A parsed value is kept as `serde_json`
//! made it; the FX logic reads it by indexing with keys and by looking at the
//! shape of what it reached: null, a string, an object (its keys), or
//! something else (its compact text).

use vstd::prelude::*;

verus! {

#[verifier::external_type_specification]
#[verifier::external_body]
pub struct ExValue(serde_json::Value);

/// The shape of one JSON value.
#[derive(Debug)]
pub enum JsonNode {
    Null,
    Str(String),
    /// The keys, in `serde_json`'s map order, and the object's compact text.
    Object(Vec<String>, String),
    /// A boolean, number or array, by its compact text.
    Other(String),
}

/// The model of a `JsonNode`.
pub enum NodeV {
    Null,
    Str(Seq<char>),
    Object(Seq<Seq<char>>, Seq<char>),
    Other(Seq<char>),
}

pub open spec fn keys_view(ks: Seq<String>) -> Seq<Seq<char>> {
    ks.map_values(|k: String| k@)
}

impl View for JsonNode {
    type V = NodeV;

    open spec fn view(&self) -> NodeV {
        match self {
            JsonNode::Null => NodeV::Null,
            JsonNode::Str(s) => NodeV::Str(s@),
            JsonNode::Object(ks, t) => NodeV::Object(keys_view(ks@), t@),
            JsonNode::Other(t) => NodeV::Other(t@),
        }
    }
}

/// Lexicographic order of character sequences by code point, the order of `String`'s `Ord`.
pub open spec fn chars_lt(a: Seq<char>, b: Seq<char>) -> bool
    decreases a.len(),
{
    if a.len() == 0 {
        b.len() > 0
    } else if b.len() == 0 {
        false
    } else if a[0] != b[0] {
        (a[0] as u32) < (b[0] as u32)
    } else {
        chars_lt(a.drop_first(), b.drop_first())
    }
}

/// Strictly ascending keys: each comes once, in `String` order.
pub open spec fn keys_ascending(ks: Seq<Seq<char>>) -> bool {
    forall|i: int, j: int| 0 <= i < j < ks.len() ==> chars_lt(#[trigger] ks[i], #[trigger] ks[j])
}

/// What `serde_json` reads of `text` at `path`: the shape of the value reached
/// from `serde_json::from_str::<Value>(text)` by indexing with each key of
/// `path` in turn, or the parse error by its display text.
pub uninterp spec fn json_at(text: Seq<char>, path: Seq<Seq<char>>) -> Result<NodeV, Seq<char>>;

/// The node at `path` of the parsed `text`; null where the text does not parse.
pub open spec fn node_at(text: Seq<char>, path: Seq<Seq<char>>) -> NodeV {
    match json_at(text, path) {
        Ok(n) => n,
        Err(_) => NodeV::Null,
    }
}

/// A value that `serde_json` parsed, with where it stands: the text that was
/// parsed and the keys by which it was reached.
pub struct JsonValue {
    value: serde_json::Value,
    source: Ghost<Seq<char>>,
    path: Ghost<Seq<Seq<char>>>,
}

impl View for JsonValue {
    type V = (Seq<char>, Seq<Seq<char>>);

    closed spec fn view(&self) -> (Seq<char>, Seq<Seq<char>>) {
        (self.source@, self.path@)
    }
}

/// `serde_json::from_str::<Value>`: the parsed value, or the error's display text.
#[verifier::external_body]
pub(crate) fn parse(text: &str) -> (r: Result<JsonValue, String>)
    ensures
        match r {
            Ok(v) => v@ == (text@, Seq::<Seq<char>>::empty()) && json_at(text@, Seq::empty()) is Ok,
            Err(e) => json_at(text@, Seq::empty()) == Err::<NodeV, Seq<char>>(e@),
        },
{
    match serde_json::from_str::<serde_json::Value>(text) {
        Ok(value) => Ok(JsonValue { value, source: Ghost(text@), path: Ghost(Seq::empty()) }),
        Err(e) => Err(e.to_string()),
    }
}

/// `value[key]` (`serde_json`'s `Index<&str>`), cloned: the member named `key`
/// where the value is an object that has one, null where it is not.
#[verifier::external_body]
pub(crate) fn at(v: &JsonValue, key: &str) -> (r: JsonValue)
    requires
        json_at(v@.0, v@.1) is Ok,
    ensures
        r@ == (v@.0, v@.1.push(key@)),
        json_at(r@.0, r@.1) is Ok,
        !(json_at(v@.0, v@.1)->Ok_0 matches NodeV::Object(ks, _) && ks.contains(key@))
            ==> json_at(r@.0, r@.1)->Ok_0 == NodeV::Null,
{
    JsonValue { value: v.value[key].clone(), source: Ghost(v.source@), path: Ghost(v.path@.push(key@)) }
}

/// The shape of a parsed value. An object gives its keys in map order; the
/// map is a `BTreeMap` (no `preserve_order`), so they ascend, each once.
/// Compact text is the value's `Display`.
#[verifier::external_body]
pub(crate) fn node(v: &JsonValue) -> (r: JsonNode)
    requires
        json_at(v@.0, v@.1) is Ok,
    ensures
        r@ == json_at(v@.0, v@.1)->Ok_0,
        r@ matches NodeV::Object(ks, _) ==> keys_ascending(ks),
{
    match &v.value {
        serde_json::Value::Null => JsonNode::Null,
        serde_json::Value::String(s) => JsonNode::Str(s.clone()),
        serde_json::Value::Object(m) => JsonNode::Object(m.keys().cloned().collect(), v.value.to_string()),
        other => JsonNode::Other(other.to_string()),
    }
}

} // verus!
