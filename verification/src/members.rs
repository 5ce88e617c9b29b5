//! Lists of named values: the members of a JSON object, in order.

use vstd::prelude::*;

verus! {

/// Whether some member has the key `key`.
pub open spec fn has_key<V>(members: Seq<(Seq<char>, V)>, key: Seq<char>) -> bool {
    exists|i: int| 0 <= i < members.len() && (#[trigger] members[i]).0 == key
}

/// The value of the first member with the key `key`, if there is one.
pub open spec fn value_of<V>(members: Seq<(Seq<char>, V)>, key: Seq<char>) -> Option<V>
    decreases members.len(),
{
    if members.len() == 0 {
        None
    } else if members[0].0 == key {
        Some(members[0].1)
    } else {
        value_of(members.drop_first(), key)
    }
}

/// Whether no key occurs twice.
pub open spec fn keys_distinct<V>(members: Seq<(Seq<char>, V)>) -> bool {
    forall|i: int, j: int|
        0 <= i < j < members.len() ==> (#[trigger] members[i]).0 != (#[trigger] members[j]).0
}

/// A member with the key `key` exists exactly if `value_of` finds a value.
pub proof fn lemma_value_of_has_key<V>(members: Seq<(Seq<char>, V)>, key: Seq<char>)
    ensures
        has_key(members, key) <==> value_of(members, key) is Some,
    decreases members.len(),
{
    if members.len() == 0 {
    } else if members[0].0 == key {
        assert(members[0].0 == key);
    } else {
        let rest = members.drop_first();
        lemma_value_of_has_key(rest, key);
        if has_key(members, key) {
            let i = choose|i: int| 0 <= i < members.len() && (#[trigger] members[i]).0 == key;
            assert(rest[i - 1] == members[i]);
        }
        if has_key(rest, key) {
            let i = choose|i: int| 0 <= i < rest.len() && (#[trigger] rest[i]).0 == key;
            assert(members[i + 1] == rest[i]);
        }
    }
}

/// The member at `i` gives the value of its key, where no member before it
/// has that key.
pub proof fn lemma_value_of_at<V>(members: Seq<(Seq<char>, V)>, key: Seq<char>, i: int)
    requires
        0 <= i < members.len(),
        members[i].0 == key,
        forall|j: int| 0 <= j < i ==> (#[trigger] members[j]).0 != key,
    ensures
        value_of(members, key) == Some(members[i].1),
    decreases i,
{
    if i > 0 {
        let rest = members.drop_first();
        assert(members[0].0 != key);
        assert forall|j: int| 0 <= j < i - 1 implies (#[trigger] rest[j]).0 != key by {
            assert(rest[j] == members[j + 1]);
        }
        lemma_value_of_at(rest, key, i - 1);
    }
}

/// The place of the first entry with the key `key`.
pub fn position<T>(entries: &Vec<(String, T)>, key: &str) -> (r: Option<usize>)
    ensures
        match r {
            Some(i) => i < entries.len() && entries[i as int].0@ == key@ && forall|j: int|
                0 <= j < i ==> (#[trigger] entries[j]).0@ != key@,
            None => forall|j: int| 0 <= j < entries.len() ==> (#[trigger] entries[j]).0@ != key@,
        },
{
    let wanted = String::from_str(key);
    let mut i: usize = 0;
    while i < entries.len()
        invariant
            i <= entries.len(),
            wanted@ == key@,
            forall|j: int| 0 <= j < i ==> (#[trigger] entries[j]).0@ != key@,
        decreases entries.len() - i,
    {
        if entries[i].0 == wanted {
            return Some(i);
        }
        i += 1;
    }
    None
}

} // verus!
