//! From a request record to a query string: the members of the record's
//! tree become pairs of text, and the pairs are joined and escaped by
//! `serde_html_form`.

use vstd::prelude::*;
use crate::error::ApiError;
use crate::json::{JsonTree, JsonValue, Member};
use crate::payload::Payload;
use crate::text::{decimal, decimal_text};

verus! {

/// A pair of a query string, key and value.
pub type Pair = (Seq<char>, Seq<char>);

/// The text that stands for a scalar in a query string; `None` for null,
/// arrays and objects.
pub open spec fn scalar_text(t: JsonTree) -> Option<Seq<char>> {
    match t {
        JsonTree::Bool(b) => Some(
            if b {
                "true"@
            } else {
                "false"@
            },
        ),
        JsonTree::Int(i) => Some(decimal_text(i)),
        JsonTree::Number(s) => Some(s),
        JsonTree::Str(s) => Some(s),
        _ => None,
    }
}

/// The pairs of the items of an array under one key: one pair for each
/// scalar, none for a null, and `None` altogether where an item is an array
/// or an object.
pub open spec fn item_pairs(key: Seq<char>, items: Seq<JsonTree>) -> Option<Seq<Pair>>
    decreases items.len(),
{
    if items.len() == 0 {
        Some(Seq::empty())
    } else {
        match item_pairs(key, items.drop_last()) {
            Some(before) => match items.last() {
                JsonTree::Null => Some(before),
                JsonTree::Array(_) => None,
                JsonTree::Object(_) => None,
                scalar => Some(before.push((key, scalar_text(scalar)->0))),
            },
            None => None,
        }
    }
}

/// The pairs of one member: one for a scalar, one for each item of an array,
/// none for a null, and `None` for an object.
pub open spec fn member_pairs(key: Seq<char>, t: JsonTree) -> Option<Seq<Pair>> {
    match t {
        JsonTree::Null => Some(Seq::empty()),
        JsonTree::Array(items) => item_pairs(key, items),
        JsonTree::Object(_) => None,
        scalar => Some(seq![(key, scalar_text(scalar)->0)]),
    }
}

/// The pairs of the members of an object, in the order of the members.
pub open spec fn members_pairs(members: Seq<Member>) -> Option<Seq<Pair>>
    decreases members.len(),
{
    if members.len() == 0 {
        Some(Seq::empty())
    } else {
        match (
            members_pairs(members.drop_last()),
            member_pairs(members.last().0, members.last().1),
        ) {
            (Some(before), Some(here)) => Some(before + here),
            _ => None,
        }
    }
}

/// The pairs of a tree: those of its members, where it is an object whose
/// members are scalars, nulls and arrays of these.
pub open spec fn query_pairs(t: JsonTree) -> Option<Seq<Pair>> {
    match t {
        JsonTree::Object(members) => members_pairs(members),
        _ => None,
    }
}

/// The pairs as the mathematical sequence that the contracts speak of.
pub open spec fn pairs_view(pairs: Seq<(String, String)>) -> Seq<Pair> {
    Seq::new(pairs.len(), |i: int| (pairs[i].0@, pairs[i].1@))
}

/// The text of a scalar.
fn scalar_to_text(v: &JsonValue) -> (res: Option<String>)
    ensures
        match res {
            Some(s) => scalar_text(v@) == Some(s@),
            None => scalar_text(v@) is None,
        },
{
    match v {
        JsonValue::Bool(b) => Some(
            if *b {
                "true".to_owned()
            } else {
                "false".to_owned()
            },
        ),
        JsonValue::Int(i) => Some(decimal(*i)),
        JsonValue::Number(s) => Some(s.clone()),
        JsonValue::Str(s) => Some(s.clone()),
        _ => None,
    }
}

/// Appends the pairs of one member. `false` says that the member has no
/// place in a query string; `pairs` is then left as it was.
fn push_member(pairs: &mut Vec<(String, String)>, key: &String, v: &JsonValue) -> (ok: bool)
    ensures
        match member_pairs(key@, v@) {
            Some(here) => ok && pairs_view(final(pairs)@) == pairs_view(old(pairs)@) + here,
            None => !ok && final(pairs)@ == old(pairs)@,
        },
{
    match v {
        JsonValue::Null => {
            assert(pairs_view(pairs@) + Seq::<Pair>::empty() =~= pairs_view(pairs@));
            true
        },
        JsonValue::Object(_) => false,
        JsonValue::Array(items) => {
            let ghost trees = v@->Array_0;
            let mut here: Vec<(String, String)> = Vec::new();
            let mut i: usize = 0;
            assert(trees.subrange(0, 0) =~= Seq::empty());
            assert(pairs_view(here@) =~= Seq::empty());
            while i < items.len()
                invariant
                    v@ == JsonTree::Array(trees),
                    trees.len() == items@.len(),
                    forall|k: int| 0 <= k < trees.len() ==> trees[k] == items@[k]@,
                    i <= items@.len(),
                    item_pairs(key@, trees.subrange(0, i as int)) == Some(pairs_view(here@)),
                decreases items@.len() - i,
            {
                let ghost upto = trees.subrange(0, i + 1);
                assert(upto.drop_last() =~= trees.subrange(0, i as int));
                assert(upto.last() == items@[i as int]@);
                match &items[i] {
                    JsonValue::Null => {},
                    JsonValue::Array(_) => {
                        proof {
                            lemma_item_pairs_refused(key@, trees, i + 1);
                        }
                        return false;
                    },
                    JsonValue::Object(_) => {
                        proof {
                            lemma_item_pairs_refused(key@, trees, i + 1);
                        }
                        return false;
                    },
                    scalar => {
                        let ghost before = pairs_view(here@);
                        match scalar_to_text(scalar) {
                            Some(text) => {
                                here.push((key.clone(), text));
                                assert(pairs_view(here@) =~= before.push(
                                    (key@, scalar_text(scalar@)->0),
                                ));
                            },
                            None => {},
                        }
                    },
                }
                i = i + 1;
            }
            assert(trees.subrange(0, i as int) =~= trees);
            let ghost before = pairs_view(pairs@);
            let ghost added = pairs_view(here@);
            pairs.append(&mut here);
            assert(pairs_view(pairs@) =~= before + added);
            true
        },
        scalar => {
            let ghost before = pairs_view(pairs@);
            match scalar_to_text(scalar) {
                Some(text) => {
                    pairs.push((key.clone(), text));
                    assert(pairs_view(pairs@) =~= before + seq![(key@, scalar_text(v@)->0)]);
                    true
                },
                None => false,
            }
        },
    }
}

/// Once the items up to `n` are refused, so are all.
proof fn lemma_item_pairs_refused(key: Seq<char>, items: Seq<JsonTree>, n: int)
    requires
        0 <= n <= items.len(),
        item_pairs(key, items.subrange(0, n)) is None,
    ensures
        item_pairs(key, items) is None,
    decreases items.len() - n,
{
    if n < items.len() {
        let upto = items.subrange(0, n + 1);
        assert(upto.drop_last() =~= items.subrange(0, n));
        lemma_item_pairs_refused(key, items, n + 1);
    } else {
        assert(items.subrange(0, n) =~= items);
    }
}

/// Once the members up to `n` are refused, so are all.
proof fn lemma_members_pairs_refused(members: Seq<Member>, n: int)
    requires
        0 <= n <= members.len(),
        members_pairs(members.subrange(0, n)) is None,
    ensures
        members_pairs(members) is None,
    decreases members.len() - n,
{
    if n < members.len() {
        let upto = members.subrange(0, n + 1);
        assert(upto.drop_last() =~= members.subrange(0, n));
        lemma_members_pairs_refused(members, n + 1);
    } else {
        assert(members.subrange(0, n) =~= members);
    }
}

/// Every pair of an array stands under the key of the array.
pub proof fn lemma_item_pairs_keys(key: Seq<char>, items: Seq<JsonTree>, i: int)
    requires
        item_pairs(key, items) is Some,
        0 <= i < item_pairs(key, items)->0.len(),
    ensures
        item_pairs(key, items)->0[i].0 == key,
    decreases items.len(),
{
    if items.len() > 0 {
        let before = item_pairs(key, items.drop_last())->0;
        if i < before.len() {
            lemma_item_pairs_keys(key, items.drop_last(), i);
        }
    }
}

/// Every key of a query string is the key of a member that was written,
/// and of one that is not null: what is not written leaves no key behind.
pub proof fn lemma_pairs_come_from_members(members: Seq<Member>, i: int)
    requires
        members_pairs(members) is Some,
        0 <= i < members_pairs(members)->0.len(),
    ensures
        exists|j: int|
            0 <= j < members.len() && (#[trigger] members[j]).0 == members_pairs(members)->0[i].0
                && !(members[j].1 is Null),
    decreases members.len(),
{
    if members.len() > 0 {
        let before = members_pairs(members.drop_last())->0;
        let here = member_pairs(members.last().0, members.last().1)->0;
        if i < before.len() {
            lemma_pairs_come_from_members(members.drop_last(), i);
            let j = choose|j: int|
                0 <= j < members.drop_last().len() && (#[trigger] members.drop_last()[j]).0
                    == before[i].0 && !(members.drop_last()[j].1 is Null);
            assert(members[j] == members.drop_last()[j]);
        } else {
            let last = members.len() - 1;
            match members.last().1 {
                JsonTree::Array(items) => {
                    lemma_item_pairs_keys(members.last().0, items, i - before.len());
                },
                _ => {},
            }
            assert(members[last].0 == (before + here)[i].0);
        }
    }
}

/// Every member that is a scalar has its pair in the query string: no
/// mandatory field is lost on the way.
pub proof fn lemma_scalar_members_have_pairs(members: Seq<Member>, j: int)
    requires
        members_pairs(members) is Some,
        0 <= j < members.len(),
        scalar_text(members[j].1) is Some,
    ensures
        members_pairs(members)->0.contains((members[j].0, scalar_text(members[j].1)->0)),
    decreases members.len(),
{
    let before = members_pairs(members.drop_last())->0;
    let here = member_pairs(members.last().0, members.last().1)->0;
    let pair = (members[j].0, scalar_text(members[j].1)->0);
    if j < members.len() - 1 {
        lemma_scalar_members_have_pairs(members.drop_last(), j);
        let k = choose|k: int| 0 <= k < before.len() && before[k] == pair;
        assert((before + here)[k] == pair);
    } else {
        assert(here[0] == pair);
        assert((before + here)[before.len() as int] == pair);
    }
}

/// The pairs of a tree, or the error `Serialize` where it has none.
pub fn flatten(v: &JsonValue) -> (res: Result<Vec<(String, String)>, ApiError>)
    ensures
        match res {
            Ok(pairs) => query_pairs(v@) == Some(pairs_view(pairs@)),
            Err(e) => e == ApiError::Serialize && query_pairs(v@) is None,
        },
{
    match v {
        JsonValue::Object(members) => {
            let ghost trees = v@->Object_0;
            let mut pairs: Vec<(String, String)> = Vec::new();
            let mut i: usize = 0;
            assert(trees.subrange(0, 0) =~= Seq::empty());
            assert(pairs_view(pairs@) =~= Seq::empty());
            while i < members.len()
                invariant
                    v@ == JsonTree::Object(trees),
                    trees.len() == members@.len(),
                    forall|k: int|
                        0 <= k < trees.len() ==> trees[k] == (members@[k].0@, members@[k].1@),
                    i <= members@.len(),
                    members_pairs(trees.subrange(0, i as int)) == Some(pairs_view(pairs@)),
                decreases members@.len() - i,
            {
                let ghost upto = trees.subrange(0, i + 1);
                assert(upto.drop_last() =~= trees.subrange(0, i as int));
                assert(upto.last() == trees[i as int]);
                if !push_member(&mut pairs, &members[i].0, &members[i].1) {
                    proof {
                        lemma_members_pairs_refused(trees, i + 1);
                    }
                    return Err(ApiError::Serialize);
                }
                i = i + 1;
            }
            assert(trees.subrange(0, i as int) =~= trees);
            Ok(pairs)
        },
        _ => Err(ApiError::Serialize),
    }
}

/// The query string that `serde_html_form` writes for a list of pairs, or
/// `None` where it refuses the list.
pub uninterp spec fn form_urlencoded(pairs: Seq<Pair>) -> Option<Seq<char>>;

/// `serde_html_form::to_string` on a list of pairs of strings. Each pair is
/// written as key, `=` and value, the pairs are joined by `&`, and keys and
/// values are escaped as `application/x-www-form-urlencoded` asks. The
/// result is a function of the pairs alone, which `form_urlencoded` names;
/// an error of the encoder comes back as `None`.
#[verifier::external_body]
fn urlencode(pairs: &Vec<(String, String)>) -> (res: Option<String>)
    ensures
        match res {
            Some(s) => form_urlencoded(pairs_view(pairs@)) == Some(s@),
            None => form_urlencoded(pairs_view(pairs@)) is None,
        },
{
    serde_html_form::to_string(pairs).ok()
}

/// The query string of a tree: that of its pairs, where it has pairs and
/// the encoder takes them.
pub open spec fn query_text(t: JsonTree) -> Option<Seq<char>> {
    match query_pairs(t) {
        Some(pairs) => form_urlencoded(pairs),
        None => None,
    }
}

/// The query string of a request record.
///
/// The record's members are written as pairs, in the order of its fields: a
/// scalar as one pair, an array as one pair for each item, an absent
/// optional field as nothing. A record that holds another record has no
/// query string, and gives `Serialize`.
pub fn to_query<T: Payload>(form: &T) -> (res: Result<String, ApiError>)
    ensures
        match query_text(form.tree()) {
            Some(text) => res matches Ok(s) && s@ == text,
            None => res == Err::<String, ApiError>(ApiError::Serialize),
        },
{
    let tree = form.to_json();
    match flatten(&tree) {
        Ok(pairs) => match urlencode(&pairs) {
            Some(s) => Ok(s),
            None => Err(ApiError::Serialize),
        },
        Err(e) => Err(e),
    }
}

} // verus!
