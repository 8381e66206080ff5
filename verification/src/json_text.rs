//! JSON text: reading a tree out of a text and writing a tree as a text.
//!
//! Both directions are `serde_json`'s work. What this module believes of it
//! without proof is stated on the private functions below, each of which
//! holds one call or one conversion.

use crate::json::{
    lemma_array_view, lemma_keys_distinct_item, lemma_keys_distinct_member, lemma_object_view, Json,
    JsonValue,
};
use vstd::prelude::*;

verus! {

/// `serde_json::Value`, of which nothing is known here but the tree that
/// `value_tree` names.
#[verifier::external_type_specification]
#[verifier::external_body]
pub struct ExValue(serde_json::Value);

/// `serde_json::Error`, of which nothing is known here. Its words are had
/// from its `Display`.
#[verifier::external_type_specification]
#[verifier::external_body]
pub struct ExError(serde_json::Error);

/// The tree that `serde_json::from_str` reads out of `text` as a
/// `serde_json::Value`, and `None` where it reports an error.
pub uninterp spec fn parsed_json(text: Seq<char>) -> Option<JsonValue>;

/// The tree that a `serde_json::Value` holds.
pub uninterp spec fn value_tree(value: serde_json::Value) -> JsonValue;

/// The text that `serde_json::to_string_pretty` writes for a
/// `serde_json::Value` that holds `tree`, and `None` where it reports an
/// error.
pub uninterp spec fn pretty_json(tree: JsonValue) -> Option<Seq<char>>;

/// Calls `serde_json::from_str` for a `serde_json::Value`. The contract only
/// names what comes back: the value's tree is `parsed_json` of the text, and
/// an error stands for `None`.
#[verifier::external_body]
fn parse_value(text: &str) -> (r: Result<serde_json::Value, serde_json::Error>)
    ensures
        match r {
            Ok(value) => parsed_json(text@) == Some(value_tree(value)),
            Err(_) => parsed_json(text@) is None,
        },
{
    serde_json::from_str::<serde_json::Value>(text)
}

/// One level of a `serde_json::Value`: its kind and what it holds, with the
/// values below it left as they are.
enum Layer {
    Null,
    Bool(bool),
    Number(serde_json::Number),
    Str(String),
    Array(Vec<serde_json::Value>),
    Object(Vec<(String, serde_json::Value)>),
}

impl Layer {
    /// The tree that a value with this top level holds.
    spec fn tree(self) -> JsonValue {
        match self {
            Layer::Null => JsonValue::Null,
            Layer::Bool(b) => JsonValue::Bool(b),
            Layer::Number(n) => JsonValue::Number(n),
            Layer::Str(s) => JsonValue::Str(s@),
            Layer::Array(items) => JsonValue::Array(
                items@.map_values(|item: serde_json::Value| value_tree(item)),
            ),
            Layer::Object(members) => JsonValue::Object(
                members@.map_values(
                    |member: (String, serde_json::Value)| (member.0@, value_tree(member.1)),
                ),
            ),
        }
    }

    /// No key occurs twice at this level.
    spec fn keys_distinct(self) -> bool {
        self matches Layer::Object(members) ==> forall|i: int, j: int|
            0 <= i < j < members@.len() ==> (#[trigger] members@[i]).0@ != (
            #[trigger] members@[j]).0@
    }
}

/// Takes the top level off a `serde_json::Value`, one arm for each variant,
/// the members of an object in the order in which the value walks them.
/// `value_tree` names the tree that a value holds; this is what it is at the
/// value's top.
#[verifier::external_body]
fn open_value(value: serde_json::Value) -> (r: Layer)
    ensures
        r.tree() == value_tree(value),
{
    match value {
        serde_json::Value::Null => Layer::Null,
        serde_json::Value::Bool(b) => Layer::Bool(b),
        serde_json::Value::Number(n) => Layer::Number(n),
        serde_json::Value::String(s) => Layer::Str(s),
        serde_json::Value::Array(items) => Layer::Array(items),
        serde_json::Value::Object(members) => Layer::Object(members.into_iter().collect()),
    }
}

/// The library's tree of a `serde_json::Value`.
fn tree_of_value(value: serde_json::Value) -> (r: Json)
    ensures
        r@ == value_tree(value),
    decreases value_tree(value),
{
    let ghost whole = value_tree(value);
    match open_value(value) {
        Layer::Null => Json::Null,
        Layer::Bool(b) => Json::Bool(b),
        Layer::Number(n) => Json::Number(n),
        Layer::Str(s) => Json::Str(s),
        Layer::Array(items) => {
            let ghost below = items@;
            let ghost all = whole->Array_0;
            let mut trees: Vec<Json> = Vec::new();
            for item in it: items
                invariant
                    it.seq() == below,
                    whole == value_tree(value),
                    whole == JsonValue::Array(all),
                    all.len() == below.len(),
                    forall|k: int| 0 <= k < all.len() ==> all[k] == value_tree(below[k]),
                    trees@.len() == it.index(),
                    forall|k: int| 0 <= k < trees@.len() ==> trees@[k]@ == all[k],
            {
                proof {
                    let at = it.index() as int;
                    assert(decreases_to!(whole => whole->Array_0));
                    assert(decreases_to!(whole->Array_0 => whole->Array_0[at]));
                }
                trees.push(tree_of_value(item));
            }
            proof {
                lemma_array_view(trees);
                assert(Json::Array(trees)@->Array_0 =~= all);
            }
            Json::Array(trees)
        },
        Layer::Object(members) => {
            let ghost below = members@;
            let ghost all = whole->Object_0;
            let mut trees: Vec<(String, Json)> = Vec::new();
            for member in it: members
                invariant
                    it.seq() == below,
                    whole == value_tree(value),
                    whole == JsonValue::Object(all),
                    all.len() == below.len(),
                    forall|k: int|
                        0 <= k < all.len() ==> all[k] == (below[k].0@, value_tree(below[k].1)),
                    trees@.len() == it.index(),
                    forall|k: int|
                        0 <= k < trees@.len() ==> (trees@[k].0@, trees@[k].1@) == all[k],
            {
                let (key, value) = member;
                proof {
                    let at = it.index() as int;
                    assert(decreases_to!(whole => whole->Object_0));
                    assert(decreases_to!(whole->Object_0 => whole->Object_0[at]));
                    assert(decreases_to!(whole->Object_0[at] => whole->Object_0[at].1));
                }
                trees.push((key, tree_of_value(value)));
            }
            proof {
                lemma_object_view(trees);
                assert(Json::Object(trees)@->Object_0 =~= all);
            }
            Json::Object(trees)
        },
    }
}

/// Reads a JSON text.
pub fn parse(text: &str) -> (r: Option<Json>)
    ensures
        match r {
            Some(tree) => parsed_json(text@) == Some(tree@),
            None => parsed_json(text@) is None,
        },
{
    match parse_value(text) {
        Ok(value) => Some(tree_of_value(value)),
        Err(_) => None,
    }
}

/// Makes the `serde_json::Value` with the given top level, one arm for each
/// variant, an object by collecting its members in order. With
/// `preserve_order` a `serde_json::Map` keeps its members in the order in
/// which they were put in, so where no key occurs twice the value holds the
/// members as they were given.
#[verifier::external_body]
fn close_value(layer: Layer) -> (r: serde_json::Value)
    requires
        layer.keys_distinct(),
    ensures
        value_tree(r) == layer.tree(),
{
    match layer {
        Layer::Null => serde_json::Value::Null,
        Layer::Bool(b) => serde_json::Value::Bool(b),
        Layer::Number(n) => serde_json::Value::Number(n),
        Layer::Str(s) => serde_json::Value::String(s),
        Layer::Array(items) => serde_json::Value::Array(items),
        Layer::Object(members) => serde_json::Value::Object(members.into_iter().collect()),
    }
}

/// The `serde_json::Value` that holds a tree.
fn value_of_tree(tree: Json) -> (r: serde_json::Value)
    requires
        tree@.keys_distinct(),
    ensures
        value_tree(r) == tree@,
    decreases tree,
{
    let ghost whole = tree@;
    match tree {
        Json::Null => close_value(Layer::Null),
        Json::Bool(b) => close_value(Layer::Bool(b)),
        Json::Number(n) => close_value(Layer::Number(n)),
        Json::Str(s) => close_value(Layer::Str(s)),
        Json::Array(items) => {
            let ghost below = items@;
            let ghost all = whole->Array_0;
            proof {
                lemma_array_view(items);
            }
            let mut values: Vec<serde_json::Value> = Vec::new();
            for item in it: items
                invariant
                    it.seq() == below,
                    tree == Json::Array(items),
                    whole == JsonValue::Array(all),
                    whole.keys_distinct(),
                    all.len() == below.len(),
                    forall|k: int| 0 <= k < all.len() ==> all[k] == below[k]@,
                    values@.len() == it.index(),
                    forall|k: int| 0 <= k < values@.len() ==> value_tree(values@[k]) == all[k],
            {
                proof {
                    let at = it.index() as int;
                    lemma_keys_distinct_item(all, at);
                    assert(decreases_to!(tree => tree->Array_0));
                    assert(decreases_to!(tree->Array_0 => tree->Array_0@));
                    assert(decreases_to!(tree->Array_0@ => tree->Array_0@[at]));
                }
                values.push(value_of_tree(item));
            }
            let r = close_value(Layer::Array(values));
            proof {
                assert(value_tree(r)->Array_0 =~= all);
            }
            r
        },
        Json::Object(members) => {
            let ghost below = members@;
            let ghost all = whole->Object_0;
            proof {
                lemma_object_view(members);
            }
            let mut values: Vec<(String, serde_json::Value)> = Vec::new();
            for member in it: members
                invariant
                    it.seq() == below,
                    tree == Json::Object(members),
                    whole == JsonValue::Object(all),
                    whole.keys_distinct(),
                    all.len() == below.len(),
                    forall|k: int| 0 <= k < all.len() ==> all[k] == (below[k].0@, below[k].1@),
                    values@.len() == it.index(),
                    forall|k: int|
                        0 <= k < values@.len() ==> (values@[k].0@, value_tree(values@[k].1))
                            == all[k],
            {
                let (key, value) = member;
                proof {
                    let at = it.index() as int;
                    lemma_keys_distinct_member(all, at);
                    assert(decreases_to!(tree => tree->Object_0));
                    assert(decreases_to!(tree->Object_0 => tree->Object_0@));
                    assert(decreases_to!(tree->Object_0@ => tree->Object_0@[at]));
                    assert(decreases_to!(tree->Object_0@[at] => tree->Object_0@[at].1));
                }
                values.push((key, value_of_tree(value)));
            }
            proof {
                assert forall|i: int, j: int| 0 <= i < j < values@.len() implies (
                #[trigger] values@[i]).0@ != (#[trigger] values@[j]).0@ by {
                    lemma_keys_distinct_member(all, i);
                    assert(values@[j].0@ == all[j].0);
                }
            }
            let r = close_value(Layer::Object(values));
            proof {
                assert(value_tree(r)->Object_0 =~= all);
            }
            r
        },
    }
}

/// Calls `serde_json::to_string_pretty` on a `serde_json::Value`. The
/// contract only names what comes back: the text is `pretty_json` of the
/// value's tree, and an error stands for `None`.
#[verifier::external_body]
fn pretty_value(value: &serde_json::Value) -> (r: Result<String, serde_json::Error>)
    ensures
        match r {
            Ok(text) => pretty_json(value_tree(*value)) == Some(text@),
            Err(_) => pretty_json(value_tree(*value)) is None,
        },
{
    serde_json::to_string_pretty(value)
}

/// Writes a tree as pretty-printed JSON text, or hands back what
/// `serde_json` says of its failure.
pub(crate) fn render(tree: Json) -> (r: Result<String, String>)
    requires
        tree@.keys_distinct(),
    ensures
        match r {
            Ok(text) => pretty_json(tree@) == Some(text@),
            Err(_) => pretty_json(tree@) is None,
        },
{
    let value = value_of_tree(tree);
    match pretty_value(&value) {
        Ok(text) => Ok(text),
        Err(e) => Err(e.to_string()),
    }
}

} // verus!
