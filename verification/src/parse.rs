//! From text to a document.
//!
//! The text is read by `serde_json`. What it hands back is looked at through
//! its own accessors, one kind of value at a time, and copied into a document
//! of this library; the copying is proved to keep the whole tree.

use vstd::prelude::*;
use vstd::string::*;
use crate::json::{JsonTree, JsonValue, items_view, lemma_view_parts, members_view, parsed_view};

verus! {

/// A document as `serde_json` holds it. Nothing of its inside is visible here.
#[verifier::external_type_specification]
#[verifier::external_body]
pub struct ExValue(serde_json::Value);

/// The document that `serde_json` reads from `text`, or `None` where it reports an error.
pub uninterp spec fn parsed_document(text: Seq<char>) -> Option<JsonTree>;

/// What a document of `serde_json` holds: a number as the text that
/// `serde_json` prints for it, an object as its members in the order in which
/// `serde_json` walks them.
pub uninterp spec fn value_tree(value: serde_json::Value) -> JsonTree;

/// The trees of the values `values`, in order.
pub open spec fn value_trees(values: Seq<serde_json::Value>) -> Seq<JsonTree> {
    Seq::new(values.len(), |i: int| value_tree(values[i]))
}

/// The trees of the members `members`, in order, each under its name.
pub open spec fn member_trees(members: Seq<(&String, &serde_json::Value)>) -> Seq<
    (Seq<char>, JsonTree),
> {
    Seq::new(members.len(), |i: int| (members[i].0@, value_tree(*members[i].1)))
}

/// Reads `text` as one JSON document.
///
/// Trusted: calls `serde_json::from_str` for a `serde_json::Value`. The
/// contract only gives its outcome a name: the same text always yields the
/// same document, or always fails.
#[verifier::external_body]
fn value_from_str(text: &str) -> (parsed: Option<serde_json::Value>)
    ensures
        match parsed {
            Some(value) => parsed_document(text@) == Some(value_tree(value)),
            None => parsed_document(text@) is None,
        },
{
    serde_json::from_str::<serde_json::Value>(text).ok()
}

/// Trusted: calls `serde_json::Value::is_null`, which is true of `Value::Null` alone.
#[verifier::external_body]
fn value_is_null(value: &serde_json::Value) -> (null: bool)
    ensures
        null == (value_tree(*value) is Null),
{
    value.is_null()
}

/// Trusted: calls `serde_json::Value::as_bool`, which gives the truth value
/// of a `Value::Bool` and `None` for every other value.
#[verifier::external_body]
fn value_as_bool(value: &serde_json::Value) -> (flag: Option<bool>)
    ensures
        match flag {
            Some(b) => value_tree(*value) == JsonTree::Bool(b),
            None => !(value_tree(*value) is Bool),
        },
{
    value.as_bool()
}

/// Trusted: calls `serde_json::Value::as_number`, which gives the number of a
/// `Value::Number` and `None` for every other value, and prints the number
/// with its `to_string`.
#[verifier::external_body]
fn value_number_text(value: &serde_json::Value) -> (text: Option<String>)
    ensures
        match text {
            Some(t) => value_tree(*value) == JsonTree::Number(t@),
            None => !(value_tree(*value) is Number),
        },
{
    value.as_number().map(|number| number.to_string())
}

/// Trusted: calls `serde_json::Value::as_str`, which gives the text of a
/// `Value::String` and `None` for every other value.
#[verifier::external_body]
fn value_as_str(value: &serde_json::Value) -> (text: Option<&str>)
    ensures
        match text {
            Some(t) => value_tree(*value) == JsonTree::Text(t@),
            None => !(value_tree(*value) is Text),
        },
{
    value.as_str()
}

/// Trusted: calls `serde_json::Value::as_array`, which gives the items of a
/// `Value::Array` and `None` for every other value.
#[verifier::external_body]
fn value_as_array(value: &serde_json::Value) -> (items: Option<&Vec<serde_json::Value>>)
    ensures
        match items {
            Some(list) => value_tree(*value) == JsonTree::Array(value_trees(list@)),
            None => !(value_tree(*value) is Array),
        },
{
    value.as_array()
}

/// Trusted: calls `serde_json::Value::as_object`, which gives the map of a
/// `Value::Object` and `None` for every other value, and hands out the
/// members of the map in the order of its `iter`.
#[verifier::external_body]
fn value_members(value: &serde_json::Value) -> (members: Option<
    Vec<(&String, &serde_json::Value)>,
>)
    ensures
        match members {
            Some(list) => value_tree(*value) == JsonTree::Object(member_trees(list@)),
            None => !(value_tree(*value) is Object),
        },
{
    value.as_object().map(|map| map.iter().collect())
}

/// Copies a document of `serde_json` into a document of this library.
fn document_of(value: &serde_json::Value) -> (doc: JsonValue)
    ensures
        doc@ == value_tree(*value),
    decreases value_tree(*value),
{
    if value_is_null(value) {
        return JsonValue::Null;
    }
    if let Some(flag) = value_as_bool(value) {
        return JsonValue::Bool(flag);
    }
    if let Some(text) = value_number_text(value) {
        return JsonValue::Number(text);
    }
    if let Some(text) = value_as_str(value) {
        return JsonValue::Text(text.to_owned());
    }
    if let Some(list) = value_as_array(value) {
        let ghost trees = value_trees(list@);
        let mut items: Vec<JsonValue> = Vec::new();
        let mut i: usize = 0;
        while i < list.len()
            invariant
                i <= list.len(),
                trees == value_trees(list@),
                value_tree(*value) == JsonTree::Array(trees),
                items@.len() == i,
                forall|j: int| 0 <= j < i ==> (#[trigger] items@[j])@ == trees[j],
            decreases list.len() - i,
        {
            proof {
                assert(trees[i as int] == value_tree(list@[i as int]));
                let tree = value_tree(*value);
                assert(decreases_to!(tree => tree->Array_0));
                assert(decreases_to!(tree->Array_0 => tree->Array_0[i as int]));
            }
            let item = document_of(&list[i]);
            items.push(item);
            i = i + 1;
        }
        let doc = JsonValue::Array(items);
        proof {
            lemma_view_parts(doc);
            assert(items_view(items@) =~= trees);
        }
        return doc;
    }
    match value_members(value) {
        Some(list) => {
            let ghost trees = member_trees(list@);
            let mut members: Vec<(String, JsonValue)> = Vec::new();
            let mut i: usize = 0;
            while i < list.len()
                invariant
                    i <= list.len(),
                    trees == member_trees(list@),
                    value_tree(*value) == JsonTree::Object(trees),
                    members@.len() == i,
                    forall|j: int|
                        0 <= j < i ==> (#[trigger] members@[j]).0@ == trees[j].0 && members@[j].1@
                            == trees[j].1,
                decreases list.len() - i,
            {
                proof {
                    assert(trees[i as int] == (
                        list@[i as int].0@,
                        value_tree(*list@[i as int].1),
                    ));
                    let tree = value_tree(*value);
                    assert(decreases_to!(tree => tree->Object_0));
                    assert(decreases_to!(tree->Object_0 => tree->Object_0[i as int]));
                    assert(decreases_to!(tree->Object_0[i as int] => tree->Object_0[i as int].1));
                }
                let name = list[i].0.clone();
                let member = document_of(list[i].1);
                members.push((name, member));
                i = i + 1;
            }
            let doc = JsonValue::Object(members);
            proof {
                lemma_view_parts(doc);
                assert(members_view(members@) =~= trees);
            }
            doc
        },
        None => {
            proof {
                let tree = value_tree(*value);
                assert(tree is Null || tree is Bool || tree is Number || tree is Text || tree
                    is Array || tree is Object);
            }
            JsonValue::Null
        },
    }
}

/// Reads `text` as one JSON document; `None` where the text is not JSON.
///
/// What is JSON, and what document a text holds, is what `serde_json` says:
/// the contract gives that outcome a name and promises that the document
/// handed back has exactly that model.
pub fn parse_json(text: &str) -> (doc: Option<JsonValue>)
    ensures
        parsed_view(doc) == parsed_document(text@),
{
    match value_from_str(text) {
        Some(value) => Some(document_of(&value)),
        None => None,
    }
}

} // verus!
