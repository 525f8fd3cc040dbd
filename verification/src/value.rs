//! The value tree that fields and forms export.
//!
//! Values are JSON values of `serde_json`. [`ValueTree`] is what such a value
//! stands for, as far as forms make them: null, a truth value, a string, or
//! an object of named members in the order in which they were put in.

use vstd::prelude::*;

verus! {

/// The mathematical value that an exported value stands for.
pub enum ValueTree {
    Null,
    Bool(bool),
    String(Seq<char>),
    /// Named members, in the order in which they were added.
    Object(Seq<(Seq<char>, ValueTree)>),
}

/// The first index from `start` up to `end` at which `p` holds, or `end` where
/// it holds at none.
pub open spec fn first_from(p: spec_fn(int) -> bool, start: int, end: int) -> int
    decreases end - start,
{
    if start >= end {
        end
    } else if p(start) {
        start
    } else {
        first_from(p, start + 1, end)
    }
}

/// `first_from` finds the first index at which the predicate holds.
pub proof fn lemma_first_from(p: spec_fn(int) -> bool, start: int, end: int, found: int)
    requires
        start <= found <= end,
        forall|k: int| start <= k < found ==> !#[trigger] p(k),
        found < end ==> p(found),
    ensures
        first_from(p, start, end) == found,
    decreases found - start,
{
    if start < found {
        lemma_first_from(p, start + 1, end, found);
    }
}

/// What `first_from` returns lies between its bounds, the predicate holds
/// there unless it is the end, and it holds nowhere before.
pub proof fn lemma_first_from_is_first(p: spec_fn(int) -> bool, start: int, end: int)
    requires
        start <= end,
    ensures
        start <= first_from(p, start, end) <= end,
        first_from(p, start, end) < end ==> p(first_from(p, start, end)),
        forall|k: int| start <= k < first_from(p, start, end) ==> !#[trigger] p(k),
    decreases end - start,
{
    if start < end && !p(start) {
        lemma_first_from_is_first(p, start + 1, end);
    }
}

/// The positions of the members with the key `key`.
pub open spec fn has_key(members: Seq<(Seq<char>, ValueTree)>, key: Seq<char>) -> spec_fn(
    int,
) -> bool {
    |i: int| members[i].0 == key
}

/// The position of the first member of `members` with the key `key`, or the
/// number of members where none has it.
pub open spec fn key_index(members: Seq<(Seq<char>, ValueTree)>, key: Seq<char>) -> int {
    first_from(has_key(members, key), 0, members.len() as int)
}

/// `members` with `value` under `key`: in the place of the member that had
/// the key, or at the end where none had it.
pub open spec fn insert_member(
    members: Seq<(Seq<char>, ValueTree)>,
    key: Seq<char>,
    value: ValueTree,
) -> Seq<(Seq<char>, ValueTree)> {
    let i = key_index(members, key);
    if i < members.len() {
        members.update(i, (key, value))
    } else {
        members.push((key, value))
    }
}

/// Trusted: `serde_json::Value`, a JSON value, carried as an opaque value.
#[verifier::external_type_specification]
#[verifier::external_body]
pub struct ExJsonValue(serde_json::Value);

/// Trusted: `serde_json::Map`, the members of a JSON object, carried as an
/// opaque value.
#[verifier::external_type_specification]
#[verifier::external_body]
#[verifier::reject_recursive_types(K)]
#[verifier::reject_recursive_types(V)]
pub struct ExJsonMap<K, V>(serde_json::Map<K, V>);

/// What a JSON value holds.
pub uninterp spec fn tree_of(value: serde_json::Value) -> ValueTree;

/// The members that a map holds, each with its key, in the order of the map.
pub uninterp spec fn members_of(map: serde_json::Map<String, serde_json::Value>) -> Seq<
    (Seq<char>, ValueTree),
>;

/// Trusted: the variant `serde_json::Value::Null` holds null.
#[verifier::external_body]
pub(crate) fn null_value() -> (v: serde_json::Value)
    ensures
        tree_of(v) == ValueTree::Null,
{
    serde_json::Value::Null
}

/// Trusted: the variant `serde_json::Value::Bool` holds the truth value that
/// it is made of.
#[verifier::external_body]
pub(crate) fn bool_value(b: bool) -> (v: serde_json::Value)
    ensures
        tree_of(v) == ValueTree::Bool(b),
{
    serde_json::Value::Bool(b)
}

/// Trusted: the variant `serde_json::Value::String` holds the string that it
/// is made of.
#[verifier::external_body]
pub(crate) fn string_value(s: String) -> (v: serde_json::Value)
    ensures
        tree_of(v) == ValueTree::String(s@),
{
    serde_json::Value::String(s)
}

/// Trusted: the variant `serde_json::Value::Object` holds the members of the
/// map that it is made of.
#[verifier::external_body]
pub(crate) fn object_value(map: serde_json::Map<String, serde_json::Value>) -> (v:
    serde_json::Value)
    ensures
        tree_of(v) == ValueTree::Object(members_of(map)),
{
    serde_json::Value::Object(map)
}

/// Trusted: `serde_json::Map::new` makes a map without members.
#[verifier::external_body]
pub(crate) fn new_map() -> (map: serde_json::Map<String, serde_json::Value>)
    ensures
        members_of(map) == Seq::<(Seq<char>, ValueTree)>::empty(),
{
    serde_json::Map::new()
}

/// Trusted: states of `serde_json::Map::insert`, in a build that keeps the
/// order of insertion (`preserve_order`), that the value takes the place of
/// the member that had the key, and comes last where none had it.
#[verifier::external_body]
pub(crate) fn map_insert(
    map: &mut serde_json::Map<String, serde_json::Value>,
    key: String,
    value: serde_json::Value,
)
    ensures
        members_of(*final(map)) == insert_member(members_of(*old(map)), key@, tree_of(value)),
{
    map.insert(key, value);
}

} // verus!
