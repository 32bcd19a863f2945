//! The one policy by which every record is written to and read from a JSON
//! tree: a mandatory field is always written and must be there to read; an
//! optional field is written only when it is present, and may be missing or
//! null when read.

use vstd::prelude::*;
use crate::json::{lookup, JsonTree, JsonValue, Member};

verus! {

/// A value with a JSON encoding.
pub trait Payload: Sized {
    /// The tree that `self` is written as.
    spec fn tree(&self) -> JsonTree;

    /// `t` can be read as a value of this type.
    spec fn admits(t: JsonTree) -> bool;

    /// `self` is what `t` reads as.
    spec fn agrees(&self, t: JsonTree) -> bool;

    /// Writes `self` as a tree.
    fn to_json(&self) -> (out: JsonValue)
        ensures
            out@ == self.tree(),
    ;

    /// Reads a tree. The result is `None` exactly where the tree cannot be
    /// read as a value of this type.
    fn from_json(v: &JsonValue) -> (res: Option<Self>)
        ensures
            res is Some <==> Self::admits(v@),
            res matches Some(r) ==> r.agrees(v@),
    ;

    /// What was written can be read, and reads as what was written; and
    /// nothing is written as null.
    proof fn lemma_round_trip(&self)
        ensures
            Self::admits(self.tree()),
            self.agrees(self.tree()),
            !(self.tree() is Null),
    ;

    /// A tree reads as one value: two values that the same tree reads as
    /// are written alike.
    proof fn lemma_reads_one(&self, other: &Self, t: JsonTree)
        requires
            self.agrees(t),
            other.agrees(t),
        ensures
            self.tree() == other.tree(),
    ;
}

impl Payload for bool {
    open spec fn tree(&self) -> JsonTree {
        JsonTree::Bool(*self)
    }

    open spec fn admits(t: JsonTree) -> bool {
        t is Bool
    }

    open spec fn agrees(&self, t: JsonTree) -> bool {
        t == JsonTree::Bool(*self)
    }

    fn to_json(&self) -> (out: JsonValue) {
        JsonValue::Bool(*self)
    }

    fn from_json(v: &JsonValue) -> (res: Option<Self>) {
        match v {
            JsonValue::Bool(b) => Some(*b),
            _ => None,
        }
    }

    proof fn lemma_round_trip(&self) {
    }

    proof fn lemma_reads_one(&self, other: &Self, t: JsonTree) {
    }
}

impl Payload for i32 {
    open spec fn tree(&self) -> JsonTree {
        JsonTree::Int(*self as int)
    }

    open spec fn admits(t: JsonTree) -> bool {
        t matches JsonTree::Int(i) && i32::MIN <= i <= i32::MAX
    }

    open spec fn agrees(&self, t: JsonTree) -> bool {
        t == JsonTree::Int(*self as int)
    }

    fn to_json(&self) -> (out: JsonValue) {
        JsonValue::Int(*self as i64)
    }

    fn from_json(v: &JsonValue) -> (res: Option<Self>) {
        match v {
            JsonValue::Int(i) => {
                if -2147483648 <= *i && *i <= 2147483647 {
                    Some(*i as i32)
                } else {
                    None
                }
            },
            _ => None,
        }
    }

    proof fn lemma_round_trip(&self) {
    }

    proof fn lemma_reads_one(&self, other: &Self, t: JsonTree) {
    }
}

impl Payload for String {
    open spec fn tree(&self) -> JsonTree {
        JsonTree::Str(self@)
    }

    open spec fn admits(t: JsonTree) -> bool {
        t is Str
    }

    open spec fn agrees(&self, t: JsonTree) -> bool {
        t == JsonTree::Str(self@)
    }

    fn to_json(&self) -> (out: JsonValue) {
        JsonValue::Str(self.clone())
    }

    fn from_json(v: &JsonValue) -> (res: Option<Self>) {
        match v {
            JsonValue::Str(s) => Some(s.clone()),
            _ => None,
        }
    }

    proof fn lemma_round_trip(&self) {
    }

    proof fn lemma_reads_one(&self, other: &Self, t: JsonTree) {
    }
}

impl<T: Payload> Payload for Vec<T> {
    open spec fn tree(&self) -> JsonTree {
        JsonTree::Array(Seq::new(self@.len(), |i: int| self@[i].tree()))
    }

    open spec fn admits(t: JsonTree) -> bool {
        t matches JsonTree::Array(items) && forall|i: int|
            0 <= i < items.len() ==> T::admits(#[trigger] items[i])
    }

    open spec fn agrees(&self, t: JsonTree) -> bool {
        t matches JsonTree::Array(items) && items.len() == self@.len() && forall|i: int|
            0 <= i < items.len() ==> (#[trigger] self@[i]).agrees(items[i])
    }

    fn to_json(&self) -> (out: JsonValue) {
        let mut items: Vec<JsonValue> = Vec::new();
        let mut i: usize = 0;
        while i < self.len()
            invariant
                i <= self@.len(),
                items@.len() == i,
                forall|k: int| 0 <= k < i ==> items@[k]@ == self@[k].tree(),
            decreases self@.len() - i,
        {
            items.push(self[i].to_json());
            i = i + 1;
        }
        let out = JsonValue::Array(items);
        assert(out@->Array_0 =~= self.tree()->Array_0);
        out
    }

    fn from_json(v: &JsonValue) -> (res: Option<Self>) {
        match v {
            JsonValue::Array(items) => {
                let mut out: Vec<T> = Vec::new();
                let mut i: usize = 0;
                while i < items.len()
                    invariant
                        v@ matches JsonTree::Array(ts) && ts.len() == items@.len()
                            && forall|k: int| 0 <= k < ts.len() ==> ts[k] == items@[k]@,
                        i <= items@.len(),
                        out@.len() == i,
                        forall|k: int| 0 <= k < i ==> T::admits(#[trigger] items@[k]@),
                        forall|k: int| 0 <= k < i ==> (#[trigger] out@[k]).agrees(items@[k]@),
                    decreases items@.len() - i,
                {
                    match T::from_json(&items[i]) {
                        Some(x) => {
                            out.push(x);
                        },
                        None => {
                            assert(!T::admits(v@->Array_0[i as int]));
                            return None;
                        },
                    }
                    i = i + 1;
                }
                Some(out)
            },
            _ => None,
        }
    }

    proof fn lemma_round_trip(&self) {
        assert forall|i: int| 0 <= i < self@.len() implies T::admits(
            #[trigger] self.tree()->Array_0[i],
        ) && self@[i].agrees(self.tree()->Array_0[i]) by {
            self@[i].lemma_round_trip();
        }
    }

    proof fn lemma_reads_one(&self, other: &Self, t: JsonTree) {
        assert forall|i: int| 0 <= i < self@.len() implies self@[i].tree() == other@[i].tree() by {
            self@[i].lemma_reads_one(&other@[i], t->Array_0[i]);
        }
        assert(self.tree()->Array_0 =~= other.tree()->Array_0);
    }
}

/// The members of an object as the tree holds them.
pub open spec fn members_view(members: Seq<(String, JsonValue)>) -> Seq<Member> {
    Seq::new(members.len(), |i: int| (members[i].0@, members[i].1@))
}

/// `members` with the mandatory member `key` after them.
#[verifier::opaque]
pub open spec fn with_field(
    members: Seq<Member>,
    key: Seq<char>,
    t: JsonTree,
) -> Seq<Member> {
    members.push((key, t))
}

/// `members` with the optional member `key` after them, if it is present.
#[verifier::opaque]
pub open spec fn with_optional(
    members: Seq<Member>,
    key: Seq<char>,
    t: Option<JsonTree>,
) -> Seq<Member> {
    match t {
        Some(sub) => members.push((key, sub)),
        None => members,
    }
}

/// What is written for an optional field: its tree if it is present.
pub open spec fn written<T: Payload>(x: Option<T>) -> Option<JsonTree> {
    match x {
        Some(v) => Some(v.tree()),
        None => None,
    }
}

/// The member `key` of `t`, where it is there and not null.
pub open spec fn present(t: JsonTree, key: Seq<char>) -> Option<JsonTree> {
    match t.field(key) {
        Some(JsonTree::Null) => None,
        Some(sub) => Some(sub),
        None => None,
    }
}

/// `t` has a member `key` that reads as a `T`.
pub open spec fn required_admits<T: Payload>(t: JsonTree, key: Seq<char>) -> bool {
    t.field(key) matches Some(sub) && T::admits(sub)
}

/// The member `key` of `t` reads as `x`.
pub open spec fn required_agrees<T: Payload>(x: T, t: JsonTree, key: Seq<char>) -> bool {
    t.field(key) matches Some(sub) && x.agrees(sub)
}

/// The member `key` of `t` is missing, null, or reads as a `T`.
pub open spec fn optional_admits<T: Payload>(t: JsonTree, key: Seq<char>) -> bool {
    match present(t, key) {
        Some(sub) => T::admits(sub),
        None => true,
    }
}

/// `x` is absent where the member `key` of `t` is missing or null, and else
/// is what that member reads as.
pub open spec fn optional_agrees<T: Payload>(x: Option<T>, t: JsonTree, key: Seq<char>) -> bool {
    match present(t, key) {
        Some(sub) => x matches Some(v) && v.agrees(sub),
        None => x is None,
    }
}

/// Reads the mandatory member `key` of `v`.
pub fn required<T: Payload>(v: &JsonValue, key: &str) -> (res: Option<T>)
    ensures
        res is Some <==> required_admits::<T>(v@, key@),
        res matches Some(x) ==> required_agrees(x, v@, key@),
{
    match v.get(key) {
        Some(sub) => T::from_json(sub),
        None => None,
    }
}

/// Reads the optional member `key` of `v`. The outer `None` says that the
/// member is there and cannot be read.
pub fn optional<T: Payload>(v: &JsonValue, key: &str) -> (res: Option<Option<T>>)
    ensures
        res is Some <==> optional_admits::<T>(v@, key@),
        res matches Some(x) ==> optional_agrees(x, v@, key@),
{
    match v.get(key) {
        Some(JsonValue::Null) => Some(None),
        Some(sub) => match T::from_json(sub) {
            Some(x) => Some(Some(x)),
            None => None,
        },
        None => Some(None),
    }
}

/// Writes the mandatory member `key`.
pub fn put<T: Payload>(members: &mut Vec<(String, JsonValue)>, key: &str, x: &T)
    ensures
        members_view(final(members)@) == with_field(members_view(old(members)@), key@, x.tree()),
{
    reveal(with_field);
    members.push((key.to_owned(), x.to_json()));
    assert(members_view(members@) =~= with_field(members_view(old(members)@), key@, x.tree()));
}

/// Writes the optional member `key` if it is present, and nothing if not.
pub fn put_optional<T: Payload>(members: &mut Vec<(String, JsonValue)>, key: &str, x: &Option<T>)
    ensures
        members_view(final(members)@) == with_optional(
            members_view(old(members)@),
            key@,
            written(*x),
        ),
{
    reveal(with_optional);
    match x {
        Some(v) => {
            members.push((key.to_owned(), v.to_json()));
            assert(members_view(members@) =~= with_optional(
                members_view(old(members)@),
                key@,
                written(*x),
            ));
        },
        None => {},
    }
}

/// The object with the members `members`.
pub fn object(members: Vec<(String, JsonValue)>) -> (out: JsonValue)
    ensures
        out@ == JsonTree::Object(members_view(members@)),
{
    let out = JsonValue::Object(members);
    assert(out@->Object_0 =~= members_view(members@));
    out
}

/// An optional field that is absent is not written: the members are as they
/// were, with no null and no empty value in its place.
pub proof fn lemma_absent_is_not_written(members: Seq<Member>, key: Seq<char>)
    ensures
        with_optional(members, key, None) == members,
{
    reveal(with_optional);
}

/// A field that is written is one member more, after those that were
/// written before it; a present optional field is written like a mandatory
/// one.
pub proof fn lemma_present_is_written(
    members: Seq<Member>,
    key: Seq<char>,
    t: JsonTree,
)
    ensures
        with_field(members, key, t) == members.push((key, t)),
        with_optional(members, key, Some(t)) == members.push((key, t)),
{
    reveal(with_field);
    reveal(with_optional);
}

/// A member that is missing is read as an absent optional field, whatever
/// else the tree holds, and as no other value.
pub proof fn lemma_missing_optional_is_absent<T: Payload>(
    t: JsonTree,
    key: Seq<char>,
    x: Option<T>,
)
    requires
        t.field(key) is None,
    ensures
        optional_admits::<T>(t, key),
        optional_agrees(x, t, key) <==> x is None,
{
}

/// A member that is null is read as an absent optional field too.
pub proof fn lemma_null_optional_is_absent<T: Payload>(t: JsonTree, key: Seq<char>, x: Option<T>)
    requires
        t.field(key) == Some(JsonTree::Null),
    ensures
        optional_admits::<T>(t, key),
        optional_agrees(x, t, key) <==> x is None,
{
}

/// A mandatory field whose member is missing cannot be read.
pub proof fn lemma_missing_mandatory_is_refused<T: Payload>(t: JsonTree, key: Seq<char>)
    requires
        t.field(key) is None,
    ensures
        !required_admits::<T>(t, key),
{
}

/// What a tree reads as does not depend on members that no field asks for:
/// a member more under a key that differs from `key` leaves the reading of
/// `key` as it was.
pub proof fn lemma_other_members_are_passed_over<T: Payload>(
    members: Seq<Member>,
    extra: Seq<char>,
    t: JsonTree,
    key: Seq<char>,
    x: Option<T>,
    y: T,
)
    requires
        extra != key,
    ensures
        ({
            let before = JsonTree::Object(members);
            let after = JsonTree::Object(members.push((extra, t)));
            &&& required_admits::<T>(after, key) == required_admits::<T>(before, key)
            &&& required_agrees(y, after, key) == required_agrees(y, before, key)
            &&& optional_admits::<T>(after, key) == optional_admits::<T>(before, key)
            &&& optional_agrees(x, after, key) == optional_agrees(x, before, key)
        }),
{
    lemma_lookup_push(members, extra, t, key);
}

/// A mandatory member reads as one value.
pub proof fn lemma_required_reads_one<T: Payload>(x: T, y: T, t: JsonTree, key: Seq<char>)
    requires
        required_agrees(x, t, key),
        required_agrees(y, t, key),
    ensures
        x.tree() == y.tree(),
{
    x.lemma_reads_one(&y, t.field(key)->0);
}

/// An optional member reads as one value, or as absent.
pub proof fn lemma_optional_reads_one<T: Payload>(
    x: Option<T>,
    y: Option<T>,
    t: JsonTree,
    key: Seq<char>,
)
    requires
        optional_agrees(x, t, key),
        optional_agrees(y, t, key),
    ensures
        written(x) == written(y),
{
    if let Some(sub) = present(t, key) {
        x->0.lemma_reads_one(&y->0, sub);
    }
}

/// An optional field that was written reads as itself.
pub proof fn lemma_optional_round_trip<T: Payload>(x: Option<T>)
    ensures
        x matches Some(v) ==> T::admits(v.tree()) && v.agrees(v.tree()) && !(v.tree() is Null),
{
    if let Some(v) = x {
        v.lemma_round_trip();
    }
}

/// Nothing is found among no members.
pub broadcast proof fn lemma_lookup_empty(key: Seq<char>)
    ensures
        #[trigger] lookup(Seq::empty(), key) is None,
{
    reveal(lookup);
}

/// What a lookup finds after one more member: what it found before, and
/// else the new member if the key is its key.
proof fn lemma_lookup_push(
    members: Seq<Member>,
    key: Seq<char>,
    t: JsonTree,
    other: Seq<char>,
)
    ensures
        lookup(members.push((key, t)), other) == match lookup(members, other) {
            Some(found) => Some(found),
            None => if other == key {
                Some(t)
            } else {
                None
            },
        },
    decreases members.len(),
{
    reveal_with_fuel(lookup, 2);
    let longer = members.push((key, t));
    if members.len() == 0 {
        assert(longer.subrange(1, longer.len() as int) =~= Seq::empty());
    } else {
        let rest = members.subrange(1, members.len() as int);
        assert(longer.subrange(1, longer.len() as int) =~= rest.push((key, t)));
        lemma_lookup_push(rest, key, t, other);
    }
}

/// Writing a mandatory member leaves every other key as it was.
pub broadcast proof fn lemma_with_field_other(
    members: Seq<Member>,
    key: Seq<char>,
    t: JsonTree,
    other: Seq<char>,
)
    requires
        other != key,
    ensures
        #[trigger] lookup(with_field(members, key, t), other) == lookup(members, other),
{
    reveal(with_field);
    lemma_lookup_push(members, key, t, other);
}

/// A mandatory member that is written under a new key is found there.
pub broadcast proof fn lemma_with_field_same(
    members: Seq<Member>,
    key: Seq<char>,
    t: JsonTree,
)
    requires
        lookup(members, key) is None,
    ensures
        #[trigger] lookup(with_field(members, key, t), key) == Some(t),
{
    reveal(with_field);
    lemma_lookup_push(members, key, t, key);
}

/// Writing an optional member, or leaving it out, leaves every other key as
/// it was.
pub broadcast proof fn lemma_with_optional_other(
    members: Seq<Member>,
    key: Seq<char>,
    t: Option<JsonTree>,
    other: Seq<char>,
)
    requires
        other != key,
    ensures
        #[trigger] lookup(with_optional(members, key, t), other) == lookup(members, other),
{
    reveal(with_optional);
    if let Some(sub) = t {
        lemma_lookup_push(members, key, sub, other);
    }
}

/// An optional member under a new key is found there if it is present, and
/// the key stays unused if it is absent.
pub broadcast proof fn lemma_with_optional_same(
    members: Seq<Member>,
    key: Seq<char>,
    t: Option<JsonTree>,
)
    requires
        lookup(members, key) is None,
    ensures
        #[trigger] lookup(with_optional(members, key, t), key) == t,
{
    reveal(with_optional);
    if let Some(sub) = t {
        lemma_lookup_push(members, key, sub, key);
    }
}

/// The lemmas by which a lookup in a written object is settled.
pub broadcast group group_written_members {
    lemma_lookup_empty,
    lemma_with_field_other,
    lemma_with_field_same,
    lemma_with_optional_other,
    lemma_with_optional_same,
}

} // verus!
