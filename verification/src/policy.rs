//! Defaults for mandatory fields. The schema of a record says which of its
//! fields are mandatory, and the server does not always agree. A caller who
//! knows that a field may be left out names the field and the value to read
//! in its place; the tree of a reply is filled in with these values before
//! it is read, and is read by the schema then.

use vstd::prelude::*;
use crate::json::{lookup, JsonTree, JsonValue, Member};
use crate::payload::{members_view, object, required_admits, required_agrees, Payload};
use crate::text::str_equal;

verus! {

/// The value to read for a field that the server has left out.
#[derive(Clone, Debug, PartialEq)]
pub struct FieldDefault {
    /// The keys that lead to the field from the record that is read: the
    /// key of each record on the way, and then the key of the field. Lists
    /// on the way are passed through: what is said of a record is said of
    /// every record of a list.
    pub path: Vec<String>,
    /// The value that stands in for the field.
    pub value: JsonValue,
}

/// The defaults that a reply is filled in with. With none, a reply is read
/// as the schema says.
#[derive(Clone, Debug, PartialEq)]
pub struct DecodePolicy {
    pub defaults: Vec<FieldDefault>,
}

/// The keys of a path.
pub open spec fn path_view(path: Seq<String>) -> Seq<Seq<char>> {
    Seq::new(path.len(), |i: int| path[i]@)
}

/// The value of the member that a path ends at: the default where the
/// member is null, and else what is there.
pub open spec fn filled_leaf(t: JsonTree, d: JsonTree) -> JsonTree {
    if t is Null {
        d
    } else {
        t
    }
}

/// `t` with the default `d` at the end of `path`, wherever the path leads
/// to a member that is missing or null.
pub open spec fn filled(t: JsonTree, path: Seq<Seq<char>>, d: JsonTree) -> JsonTree
    decreases t,
{
    if path.len() == 0 {
        t
    } else {
        match t {
            JsonTree::Array(items) => JsonTree::Array(
                Seq::new(
                    items.len(),
                    |i: int|
                        if 0 <= i < items.len() {
                            filled(items[i], path, d)
                        } else {
                            JsonTree::Null
                        },
                ),
            ),
            JsonTree::Object(members) => JsonTree::Object(filled_members(members, path, d)),
            _ => t,
        }
    }
}

/// The members of an object with the default `d` at the end of `path`. The
/// first member under the first key of the path is the one that the path
/// goes through; where there is none and the path ends here, the default is
/// one member more.
pub open spec fn filled_members(members: Seq<Member>, path: Seq<Seq<char>>, d: JsonTree) -> Seq<
    Member,
>
    recommends
        path.len() > 0,
    decreases members,
{
    if path.len() == 0 {
        members
    } else if members.len() == 0 {
        if path.len() == 1 {
            seq![(path[0], d)]
        } else {
            Seq::empty()
        }
    } else if members[0].0 == path[0] {
        let value = if path.len() == 1 {
            filled_leaf(members[0].1, d)
        } else {
            filled(members[0].1, path.subrange(1, path.len() as int), d)
        };
        seq![(path[0], value)] + members.subrange(1, members.len() as int)
    } else {
        seq![members[0]] + filled_members(members.subrange(1, members.len() as int), path, d)
    }
}

/// The part of a path from the key `from` on.
pub open spec fn path_from(path: Seq<String>, from: int) -> Seq<Seq<char>> {
    path_view(path).subrange(from, path.len() as int)
}

/// Fills in a tree along the part of `path` from `from` on.
fn fill_from(v: &JsonValue, path: &Vec<String>, from: usize, d: &JsonValue) -> (out: JsonValue)
    requires
        from <= path@.len(),
    ensures
        out@ == filled(v@, path_from(path@, from as int), d@),
    decreases v,
{
    if from >= path.len() {
        return v.clone();
    }
    match v {
        JsonValue::Array(items) => {
            let ghost trees = v@->Array_0;
            let mut out: Vec<JsonValue> = Vec::new();
            let mut i: usize = 0;
            while i < items.len()
                invariant
                    *v == JsonValue::Array(*items),
                    from < path@.len(),
                    v@ == JsonTree::Array(trees),
                    trees.len() == items@.len(),
                    forall|k: int| 0 <= k < trees.len() ==> trees[k] == items@[k]@,
                    i <= items@.len(),
                    out@.len() == i,
                    forall|k: int|
                        0 <= k < i ==> out@[k]@ == filled(
                            trees[k],
                            path_from(path@, from as int),
                            d@,
                        ),
                decreases items@.len() - i,
            {
                assert(decreases_to!(v => v->Array_0[i as int]));
                out.push(fill_from(&items[i], path, from, d));
                i = i + 1;
            }
            let res = JsonValue::Array(out);
            assert(res@->Array_0 =~= filled(v@, path_from(path@, from as int), d@)->Array_0);
            res
        },
        JsonValue::Object(members) => {
            assert(v@->Object_0 =~= members_view(members@));
            object(fill_members(members, path, from, d))
        },
        _ => v.clone(),
    }
}

/// Fills in the members of an object along the part of `path` from `from`
/// on.
fn fill_members(
    members: &Vec<(String, JsonValue)>,
    path: &Vec<String>,
    from: usize,
    d: &JsonValue,
) -> (out: Vec<(String, JsonValue)>)
    requires
        from < path@.len(),
    ensures
        members_view(out@) == filled_members(
            members_view(members@),
            path_from(path@, from as int),
            d@,
        ),
    decreases members,
{
    let ghost all = members_view(members@);
    let ghost keys = path_from(path@, from as int);
    let key: &String = &path[from];
    let length = path.len();
    let next = from + 1;
    let ends_here = next == length;
    let mut out: Vec<(String, JsonValue)> = Vec::new();
    let mut found = false;
    let mut i: usize = 0;
    assert(all.subrange(0, all.len() as int) =~= all);
    assert(members_view(out@) =~= Seq::empty());
    assert(Seq::<Member>::empty() + filled_members(all, keys, d@) =~= filled_members(
        all,
        keys,
        d@,
    ));
    while i < members.len()
        invariant
            from < path@.len(),
            next == from + 1,
            all == members_view(members@),
            keys == path_from(path@, from as int),
            key@ == keys[0],
            ends_here == (keys.len() == 1),
            i <= members@.len(),
            filled_members(all, keys, d@) == members_view(out@) + if found {
                all.subrange(i as int, all.len() as int)
            } else {
                filled_members(all.subrange(i as int, all.len() as int), keys, d@)
            },
        decreases members@.len() - i,
    {
        let ghost before = members_view(out@);
        let ghost rest = all.subrange(i as int, all.len() as int);
        let ghost tail = all.subrange(i + 1, all.len() as int);
        assert(rest[0] == all[i as int]);
        assert(rest.subrange(1, rest.len() as int) =~= tail);
        assert(rest =~= seq![rest[0]] + tail);
        if !found && str_equal(members[i].0.as_str(), key.as_str()) {
            let value = if ends_here {
                match &members[i].1 {
                    JsonValue::Null => d.clone(),
                    other => other.clone(),
                }
            } else {
                assert(decreases_to!(members => members[i as int].1));
                assert(path_from(path@, from + 1) =~= keys.subrange(1, keys.len() as int));
                fill_from(&members[i].1, path, next, d)
            };
            out.push((key.clone(), value));
            found = true;
            assert(members_view(out@) =~= before.push((keys[0], value@)));
            assert(before + (seq![(keys[0], value@)] + tail) =~= members_view(out@) + tail);
        } else {
            out.push((members[i].0.clone(), members[i].1.clone()));
            assert(members_view(out@) =~= before.push(all[i as int]));
            if found {
                assert(before + rest =~= members_view(out@) + tail);
            } else {
                assert(before + (seq![rest[0]] + filled_members(tail, keys, d@)) =~= members_view(
                    out@,
                ) + filled_members(tail, keys, d@));
            }
        }
        i = i + 1;
    }
    let ghost before = members_view(out@);
    assert(all.subrange(i as int, all.len() as int) =~= Seq::empty());
    if !found && ends_here {
        out.push((key.clone(), d.clone()));
        assert(members_view(out@) =~= before + seq![(keys[0], d@)]);
    } else {
        assert(before + Seq::<Member>::empty() =~= before);
    }
    out
}

impl FieldDefault {
    /// `t` with this default filled in.
    pub open spec fn applied(self, t: JsonTree) -> JsonTree {
        filled(t, path_view(self.path@), self.value@)
    }

    /// Fills the default in: wherever the path leads to a member that is
    /// missing or null, the default stands in its place. Nothing else is
    /// changed.
    pub fn apply(&self, v: &JsonValue) -> (out: JsonValue)
        ensures
            out@ == self.applied(v@),
    {
        assert(path_from(self.path@, 0) =~= path_view(self.path@));
        fill_from(v, &self.path, 0, &self.value)
    }
}

impl DecodePolicy {
    /// The policy without defaults: a reply is read as the schema says.
    pub fn strict() -> (out: Self)
        ensures
            out.defaults@.len() == 0,
    {
        DecodePolicy { defaults: Vec::new() }
    }

    /// `t` with the first `n` defaults filled in, one after the other.
    pub open spec fn applied_upto(self, t: JsonTree, n: int) -> JsonTree
        decreases n,
    {
        if n <= 0 {
            t
        } else {
            self.defaults@[n - 1].applied(self.applied_upto(t, n - 1))
        }
    }

    /// `t` with every default filled in, one after the other.
    pub open spec fn applied(self, t: JsonTree) -> JsonTree {
        self.applied_upto(t, self.defaults@.len() as int)
    }

    /// Fills every default in, one after the other.
    pub fn apply(&self, v: &JsonValue) -> (out: JsonValue)
        ensures
            out@ == self.applied(v@),
    {
        let mut out = v.clone();
        let mut i: usize = 0;
        while i < self.defaults.len()
            invariant
                i <= self.defaults@.len(),
                out@ == self.applied_upto(v@, i as int),
            decreases self.defaults@.len() - i,
        {
            out = self.defaults[i].apply(&out);
            i = i + 1;
        }
        out
    }

    /// Without defaults a tree stays as it is.
    pub proof fn lemma_strict_changes_nothing(self, t: JsonTree)
        requires
            self.defaults@.len() == 0,
        ensures
            self.applied(t) == t,
    {
    }
}

/// Among the members, a key whose member is missing or null leads to the
/// default after filling in.
proof fn lemma_default_among(members: Seq<Member>, key: Seq<char>, d: JsonTree)
    requires
        lookup(members, key) is None || lookup(members, key) == Some(JsonTree::Null),
    ensures
        lookup(filled_members(members, seq![key], d), key) == Some(d),
    decreases members.len(),
{
    reveal_with_fuel(lookup, 2);
    let path = seq![key];
    let after = filled_members(members, path, d);
    if members.len() == 0 {
        assert(after.subrange(1, after.len() as int) =~= Seq::empty());
    } else {
        let rest = members.subrange(1, members.len() as int);
        if members[0].0 == key {
            assert(after[0] == (key, d));
        } else {
            lemma_default_among(rest, key, d);
            assert(after[0] == members[0]);
            assert(after.subrange(1, after.len() as int) =~= filled_members(rest, path, d));
        }
    }
}

/// Among the members, filling in a default for a key whose member is there
/// and not null changes nothing.
proof fn lemma_stays_among(members: Seq<Member>, key: Seq<char>, d: JsonTree)
    requires
        lookup(members, key) matches Some(value) && !(value is Null),
    ensures
        filled_members(members, seq![key], d) == members,
    decreases members.len(),
{
    reveal_with_fuel(lookup, 2);
    let path = seq![key];
    if members.len() > 0 {
        let rest = members.subrange(1, members.len() as int);
        if members[0].0 == key {
            assert(seq![(key, members[0].1)] + rest =~= members);
        } else {
            lemma_stays_among(rest, key, d);
            assert(seq![members[0]] + rest =~= members);
        }
    }
}

/// A member that is missing or null is read as the default: after filling
/// in, the key leads to the default.
pub proof fn lemma_default_stands_in(members: Seq<Member>, key: Seq<char>, d: JsonTree)
    requires
        lookup(members, key) is None || lookup(members, key) == Some(JsonTree::Null),
    ensures
        filled(JsonTree::Object(members), seq![key], d).field(key) == Some(d),
{
    lemma_default_among(members, key, d);
    assert(filled(JsonTree::Object(members), seq![key], d) == JsonTree::Object(
        filled_members(members, seq![key], d),
    ));
}

/// A member that is there and not null stays: filling in a default for it
/// changes nothing.
pub proof fn lemma_what_is_there_stays(members: Seq<Member>, key: Seq<char>, d: JsonTree)
    requires
        lookup(members, key) matches Some(value) && !(value is Null),
    ensures
        filled(JsonTree::Object(members), seq![key], d) == JsonTree::Object(members),
{
    lemma_stays_among(members, key, d);
    assert(filled(JsonTree::Object(members), seq![key], d) == JsonTree::Object(
        filled_members(members, seq![key], d),
    ));
}

/// A mandatory field that the server has left out can be read once a
/// default that its type admits is filled in, and reads as the default.
pub proof fn lemma_default_is_read<T: Payload>(
    members: Seq<Member>,
    key: Seq<char>,
    d: JsonTree,
    x: T,
)
    requires
        lookup(members, key) is None || lookup(members, key) == Some(JsonTree::Null),
        T::admits(d),
    ensures
        required_admits::<T>(filled(JsonTree::Object(members), seq![key], d), key),
        required_agrees(x, filled(JsonTree::Object(members), seq![key], d), key) == x.agrees(d),
{
    lemma_default_stands_in(members, key, d);
}

/// Filling in along a path leaves every key but the first of the path as it
/// was.
pub proof fn lemma_other_keys_stay(
    members: Seq<Member>,
    path: Seq<Seq<char>>,
    d: JsonTree,
    other: Seq<char>,
)
    requires
        path.len() > 0,
        other != path[0],
    ensures
        lookup(filled_members(members, path, d), other) == lookup(members, other),
    decreases members.len(),
{
    reveal_with_fuel(lookup, 2);
    if members.len() == 0 {
        let after = filled_members(members, path, d);
        if path.len() == 1 {
            assert(after.subrange(1, after.len() as int) =~= Seq::empty());
        }
    } else {
        let rest = members.subrange(1, members.len() as int);
        let after = filled_members(members, path, d);
        if members[0].0 == path[0] {
            assert(after.subrange(1, after.len() as int) =~= rest);
        } else {
            lemma_other_keys_stay(rest, path, d, other);
            assert(after.subrange(1, after.len() as int) =~= filled_members(rest, path, d));
        }
    }
}

} // verus!
