//! Reading a JSON text into a tree. The text is parsed by `serde_json`; what
//! it hands back is walked here, node by node, into a `JsonValue`.

use vstd::prelude::*;
use crate::json::{JsonTree, JsonValue, Member};

verus! {

#[verifier::external_type_specification]
#[verifier::external_body]
pub struct ExValue(serde_json::Value);

#[verifier::external_type_specification]
#[verifier::external_body]
#[verifier::reject_recursive_types(K)]
#[verifier::reject_recursive_types(V)]
pub struct ExMap<K, V>(serde_json::Map<K, V>);

/// The tree that a value of `serde_json` holds. A number that `as_i64`
/// gives is an `Int`; any other number is a `Number` with the text that the
/// value prints as.
pub uninterp spec fn parsed_tree(v: serde_json::Value) -> JsonTree;

/// The members that an object of `serde_json` holds, in the order in which
/// it hands them out.
pub uninterp spec fn parsed_members(m: serde_json::Map<String, serde_json::Value>) -> Seq<Member>;

/// The tree that a text parses to, or `None` where `serde_json` does not
/// accept the text.
pub uninterp spec fn json_document(text: Seq<char>) -> Option<JsonTree>;

/// `serde_json::from_str` at the type `serde_json::Value`. The result is a
/// function of the text alone: the value whose tree `json_document` names,
/// or `None` for a text that is refused.
#[verifier::external_body]
fn parse_value(text: &str) -> (res: Option<serde_json::Value>)
    ensures
        match res {
            Some(v) => json_document(text@) == Some(parsed_tree(v)),
            None => json_document(text@) is None,
        },
{
    serde_json::from_str::<serde_json::Value>(text).ok()
}

/// `serde_json::Value::is_null`: whether the value is `null`.
#[verifier::external_body]
fn value_is_null(v: &serde_json::Value) -> (yes: bool)
    ensures
        yes == (parsed_tree(*v) is Null),
{
    v.is_null()
}

/// `serde_json::Value::as_bool`: the boolean, if the value is one.
#[verifier::external_body]
fn value_as_bool(v: &serde_json::Value) -> (res: Option<bool>)
    ensures
        match res {
            Some(b) => parsed_tree(*v) == JsonTree::Bool(b),
            None => !(parsed_tree(*v) is Bool),
        },
{
    v.as_bool()
}

/// `serde_json::Value::as_i64`: the integer, if the value is a number that
/// is an integer of 64 bits.
#[verifier::external_body]
fn value_as_i64(v: &serde_json::Value) -> (res: Option<i64>)
    ensures
        match res {
            Some(i) => parsed_tree(*v) == JsonTree::Int(i as int),
            None => !(parsed_tree(*v) is Int),
        },
{
    v.as_i64()
}

/// `serde_json::Value::is_number`: whether the value is a number of any
/// kind.
#[verifier::external_body]
fn value_is_number(v: &serde_json::Value) -> (yes: bool)
    ensures
        yes == (parsed_tree(*v) is Int || parsed_tree(*v) is Number),
{
    v.is_number()
}

/// `to_string` of a `serde_json::Value`, by its `Display`: the text that the
/// value prints as. It is asked of numbers only.
#[verifier::external_body]
fn value_text(v: &serde_json::Value) -> (text: String)
    requires
        parsed_tree(*v) is Number,
    ensures
        parsed_tree(*v) == JsonTree::Number(text@),
{
    v.to_string()
}

/// `serde_json::Value::as_str`: the string, if the value is one.
#[verifier::external_body]
fn value_as_str(v: &serde_json::Value) -> (res: Option<&str>)
    ensures
        match res {
            Some(s) => parsed_tree(*v) == JsonTree::Str(s@),
            None => !(parsed_tree(*v) is Str),
        },
{
    v.as_str()
}

/// `serde_json::Value::as_array`: the items, if the value is an array.
#[verifier::external_body]
fn value_as_array(v: &serde_json::Value) -> (res: Option<&Vec<serde_json::Value>>)
    ensures
        match res {
            Some(items) => parsed_tree(*v) matches JsonTree::Array(trees) && trees.len()
                == items@.len() && forall|i: int|
                0 <= i < trees.len() ==> #[trigger] trees[i] == parsed_tree(items@[i]),
            None => !(parsed_tree(*v) is Array),
        },
{
    v.as_array()
}

/// `serde_json::Value::as_object`: the map, if the value is an object.
#[verifier::external_body]
fn value_as_object(v: &serde_json::Value) -> (res: Option<
    &serde_json::Map<String, serde_json::Value>,
>)
    ensures
        match res {
            Some(m) => parsed_tree(*v) == JsonTree::Object(parsed_members(*m)),
            None => !(parsed_tree(*v) is Object),
        },
{
    v.as_object()
}

/// `serde_json::Map::iter`, collected: the members of the map, each key with
/// its value, in the order in which the map hands them out.
#[verifier::external_body]
fn map_entries(m: &serde_json::Map<String, serde_json::Value>) -> (res: Vec<
    (&String, &serde_json::Value),
>)
    ensures
        res@.len() == parsed_members(*m).len(),
        forall|i: int|
            0 <= i < res@.len() ==> #[trigger] parsed_members(*m)[i] == (
                res@[i].0@,
                parsed_tree(*res@[i].1),
            ),
{
    m.iter().collect()
}

/// Walks a value of `serde_json` into a `JsonValue` with the same tree.
fn lift(v: &serde_json::Value) -> (out: JsonValue)
    ensures
        out@ == parsed_tree(*v),
    decreases parsed_tree(*v),
{
    if value_is_null(v) {
        return JsonValue::Null;
    }
    if let Some(b) = value_as_bool(v) {
        return JsonValue::Bool(b);
    }
    if let Some(i) = value_as_i64(v) {
        return JsonValue::Int(i);
    }
    if value_is_number(v) {
        return JsonValue::Number(value_text(v));
    }
    if let Some(s) = value_as_str(v) {
        return JsonValue::Str(s.to_owned());
    }
    if let Some(items) = value_as_array(v) {
        let ghost trees = parsed_tree(*v)->Array_0;
        let mut out: Vec<JsonValue> = Vec::new();
        let mut i: usize = 0;
        while i < items.len()
            invariant
                parsed_tree(*v) == JsonTree::Array(trees),
                trees.len() == items@.len(),
                forall|k: int|
                    0 <= k < trees.len() ==> #[trigger] trees[k] == parsed_tree(items@[k]),
                i <= items@.len(),
                out@.len() == i,
                forall|k: int| 0 <= k < i ==> out@[k]@ == trees[k],
            decreases items@.len() - i,
        {
            proof {
                vstd::seq::axiom_seq_index_decreases(trees, i as int);
            }
            assert(decreases_to!(parsed_tree(*v)->Array_0 => trees[i as int]));
            out.push(lift(&items[i]));
            i = i + 1;
        }
        let res = JsonValue::Array(out);
        assert(res@->Array_0 =~= trees);
        return res;
    }
    match value_as_object(v) {
        Some(m) => {
            let ghost members = parsed_members(*m);
            let entries = map_entries(m);
            let mut out: Vec<(String, JsonValue)> = Vec::new();
            let mut i: usize = 0;
            while i < entries.len()
                invariant
                    parsed_tree(*v) == JsonTree::Object(members),
                    members.len() == entries@.len(),
                    forall|k: int|
                        0 <= k < entries@.len() ==> #[trigger] members[k] == (
                            entries@[k].0@,
                            parsed_tree(*entries@[k].1),
                        ),
                    i <= entries@.len(),
                    out@.len() == i,
                    forall|k: int|
                        0 <= k < i ==> out@[k].0@ == members[k].0 && out@[k].1@ == members[k].1,
                decreases entries@.len() - i,
            {
                proof {
                    vstd::seq::axiom_seq_index_decreases(members, i as int);
                }
                assert(decreases_to!(parsed_tree(*v)->Object_0 => members[i as int].1));
                let key: &String = entries[i].0;
                let sub: &serde_json::Value = entries[i].1;
                out.push((key.clone(), lift(sub)));
                i = i + 1;
            }
            let res = JsonValue::Object(out);
            assert(res@->Object_0 =~= members);
            res
        },
        None => JsonValue::Null,
    }
}

/// Parses a JSON text.
///
/// The result is `None` exactly where the text is not accepted as JSON, and
/// else holds the tree that the text parses to.
pub fn parse_json(text: &str) -> (res: Option<JsonValue>)
    ensures
        match res {
            Some(v) => json_document(text@) == Some(v@),
            None => json_document(text@) is None,
        },
{
    match parse_value(text) {
        Some(v) => Some(lift(&v)),
        None => None,
    }
}

} // verus!
