//! JSON trees: the form in which payloads leave and enter the crate.

use vstd::prelude::*;
use crate::text::str_equal;

verus! {

/// A JSON value held by the program.
#[derive(Debug, PartialEq)]
pub enum JsonValue {
    Null,
    Bool(bool),
    /// A number that is an integer of 64 bits.
    Int(i64),
    /// Any other number, as its text.
    Number(String),
    Str(String),
    Array(Vec<JsonValue>),
    /// The members of an object, in the order in which they were written.
    Object(Vec<(String, JsonValue)>),
}

/// A member of an object: its key and its value.
pub type Member = (Seq<char>, JsonTree);

/// The mathematical tree that a `JsonValue` stands for.
pub enum JsonTree {
    Null,
    Bool(bool),
    Int(int),
    Number(Seq<char>),
    Str(Seq<char>),
    Array(Seq<JsonTree>),
    Object(Seq<Member>),
}

/// The tree that `v` stands for.
pub open spec fn tree_of(v: JsonValue) -> JsonTree
    decreases v,
{
    match v {
        JsonValue::Null => JsonTree::Null,
        JsonValue::Bool(b) => JsonTree::Bool(b),
        JsonValue::Int(i) => JsonTree::Int(i as int),
        JsonValue::Number(s) => JsonTree::Number(s@),
        JsonValue::Str(s) => JsonTree::Str(s@),
        JsonValue::Array(items) => JsonTree::Array(
            Seq::new(
                items@.len(),
                |i: int|
                    if 0 <= i < items@.len() {
                        tree_of(items@[i])
                    } else {
                        JsonTree::Null
                    },
            ),
        ),
        JsonValue::Object(members) => JsonTree::Object(
            Seq::new(
                members@.len(),
                |i: int|
                    if 0 <= i < members@.len() {
                        (members@[i].0@, tree_of(members@[i].1))
                    } else {
                        (Seq::empty(), JsonTree::Null)
                    },
            ),
        ),
    }
}

impl View for JsonValue {
    type V = JsonTree;

    open spec fn view(&self) -> JsonTree {
        tree_of(*self)
    }
}

/// The value of the first member of `members` whose key is `key`.
#[verifier::opaque]
pub open spec fn lookup(members: Seq<Member>, key: Seq<char>) -> Option<JsonTree>
    decreases members.len(),
{
    if members.len() == 0 {
        None
    } else if members[0].0 == key {
        Some(members[0].1)
    } else {
        lookup(members.subrange(1, members.len() as int), key)
    }
}

impl JsonTree {
    /// The member `key` of an object; `None` for anything else.
    pub open spec fn field(self, key: Seq<char>) -> Option<JsonTree> {
        match self {
            JsonTree::Object(members) => lookup(members, key),
            _ => None,
        }
    }
}

/// A copy of `v`.
fn copy_of(v: &JsonValue) -> (out: JsonValue)
    ensures
        out@ == v@,
    decreases v,
{
    match v {
        JsonValue::Null => JsonValue::Null,
        JsonValue::Bool(b) => JsonValue::Bool(*b),
        JsonValue::Int(i) => JsonValue::Int(*i),
        JsonValue::Number(s) => JsonValue::Number(s.clone()),
        JsonValue::Str(s) => JsonValue::Str(s.clone()),
        JsonValue::Array(items) => {
            let mut copies: Vec<JsonValue> = Vec::new();
            let mut i: usize = 0;
            while i < items.len()
                invariant
                    *v == JsonValue::Array(*items),
                    i <= items@.len(),
                    copies@.len() == i,
                    forall|k: int| 0 <= k < i ==> copies@[k]@ == items@[k]@,
                decreases items@.len() - i,
            {
                assert(decreases_to!(v => v->Array_0[i as int]));
                copies.push(copy_of(&items[i]));
                i = i + 1;
            }
            let out = JsonValue::Array(copies);
            assert(out@->Array_0 =~= v@->Array_0);
            out
        },
        JsonValue::Object(members) => {
            let mut copies: Vec<(String, JsonValue)> = Vec::new();
            let mut i: usize = 0;
            while i < members.len()
                invariant
                    *v == JsonValue::Object(*members),
                    i <= members@.len(),
                    copies@.len() == i,
                    forall|k: int|
                        0 <= k < i ==> copies@[k].0@ == members@[k].0@ && copies@[k].1@
                            == members@[k].1@,
                decreases members@.len() - i,
            {
                assert(decreases_to!(v => v->Object_0[i as int].1));
                copies.push((members[i].0.clone(), copy_of(&members[i].1)));
                i = i + 1;
            }
            let out = JsonValue::Object(copies);
            assert(out@->Object_0 =~= v@->Object_0);
            out
        },
    }
}

impl Clone for JsonValue {
    fn clone(&self) -> (out: Self)
        ensures
            out@ == self@,
    {
        copy_of(self)
    }
}

impl JsonValue {
    pub fn is_object(&self) -> (yes: bool)
        ensures
            yes == (self@ is Object),
    {
        match self {
            JsonValue::Object(_) => true,
            _ => false,
        }
    }

    /// The member `key` of an object, if `self` is one that has it. Where
    /// several members have the key, the first is taken.
    pub fn get(&self, key: &str) -> (res: Option<&JsonValue>)
        ensures
            match res {
                Some(v) => self@.field(key@) == Some(v@),
                None => self@.field(key@) is None,
            },
    {
        match self {
            JsonValue::Object(members) => {
                let ghost all = self@->Object_0;
                reveal(lookup);
                assert(all.subrange(0, all.len() as int) =~= all);
                let mut i: usize = 0;
                while i < members.len()
                    invariant
                        self@ == JsonTree::Object(all),
                        all.len() == members@.len(),
                        forall|k: int|
                            0 <= k < all.len() ==> all[k] == (members@[k].0@, members@[k].1@),
                        i <= members@.len(),
                        lookup(all, key@) == lookup(all.subrange(i as int, all.len() as int), key@),
                    decreases members@.len() - i,
                {
                    reveal(lookup);
                    let ghost rest = all.subrange(i as int, all.len() as int);
                    assert(rest[0] == all[i as int]);
                    assert(rest.subrange(1, rest.len() as int) =~= all.subrange(
                        i + 1,
                        all.len() as int,
                    ));
                    if str_equal(members[i].0.as_str(), key) {
                        return Some(&members[i].1);
                    }
                    i = i + 1;
                }
                None
            },
            _ => None,
        }
    }
}

} // verus!
