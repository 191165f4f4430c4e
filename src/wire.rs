//! The decoded key-value tree of one event, and lookups in it.

use vstd::prelude::*;

verus! {

/// A node of a self-describing key-value message.
#[derive(Debug, PartialEq)]
pub enum WireValue {
    Null,
    Bool(bool),
    Int(i64),
    Str(String),
    Array(Vec<WireValue>),
    Object(Vec<(String, WireValue)>),
}

/// The value of the first field of `fields` whose key is `key`.
pub open spec fn lookup(fields: Seq<(String, WireValue)>, key: Seq<char>) -> Option<WireValue>
    decreases fields.len(),
{
    if fields.len() == 0 {
        None
    } else if fields[0].0@ == key {
        Some(fields[0].1)
    } else {
        lookup(fields.drop_first(), key)
    }
}

pub proof fn lemma_lookup_first_match(fields: Seq<(String, WireValue)>, key: Seq<char>, i: int)
    requires
        0 <= i < fields.len(),
        fields[i].0@ == key,
        forall|j: int| 0 <= j < i ==> fields[j].0@ != key,
    ensures
        lookup(fields, key) == Some(fields[i].1),
    decreases i,
{
    if i > 0 {
        lemma_lookup_first_match(fields.drop_first(), key, i - 1);
    }
}

pub proof fn lemma_lookup_absent(fields: Seq<(String, WireValue)>, key: Seq<char>)
    requires
        forall|j: int| 0 <= j < fields.len() ==> fields[j].0@ != key,
    ensures
        lookup(fields, key) is None,
    decreases fields.len(),
{
    if fields.len() > 0 {
        lemma_lookup_absent(fields.drop_first(), key);
    }
}

/// In fields with pairwise distinct keys, each key looks up to its own value.
pub proof fn lemma_lookup_distinct(fields: Seq<(String, WireValue)>)
    requires
        forall|i: int, j: int| 0 <= i < j < fields.len() ==> fields[i].0@ != fields[j].0@,
    ensures
        forall|i: int| 0 <= i < fields.len() ==> lookup(fields, #[trigger] fields[i].0@) == Some(fields[i].1),
{
    assert forall|i: int| 0 <= i < fields.len() implies lookup(fields, #[trigger] fields[i].0@) == Some(fields[i].1) by {
        lemma_lookup_first_match(fields, fields[i].0@, i);
    }
}

proof fn lemma_lookup_remove(fields: Seq<(String, WireValue)>, i: int, other: Seq<char>)
    requires
        0 <= i < fields.len(),
        fields[i].0@ != other,
    ensures
        lookup(fields.remove(i), other) == lookup(fields, other),
    decreases i,
{
    if i == 0 {
        assert(fields.remove(0) =~= fields.drop_first());
    } else {
        assert(fields.remove(i).drop_first() =~= fields.drop_first().remove(i - 1));
        lemma_lookup_remove(fields.drop_first(), i - 1, other);
    }
}

/// Removes the first field named `key` and returns its value; the value
/// that every other key looks up to is unchanged.
pub fn take_field(fields: &mut Vec<(String, WireValue)>, key: &String) -> (r: Option<WireValue>)
    ensures
        r == lookup(old(fields)@, key@),
        forall|k: Seq<char>| k != key@ ==> lookup(final(fields)@, k) == lookup(old(fields)@, k),
{
    let mut i: usize = 0;
    while i < fields.len()
        invariant
            fields@ == old(fields)@,
            i <= fields@.len(),
            forall|j: int| 0 <= j < i ==> fields@[j].0@ != key@,
        decreases fields@.len() - i,
    {
        if fields[i].0 == *key {
            proof {
                lemma_lookup_first_match(fields@, key@, i as int);
                assert forall|k: Seq<char>| k != key@ implies lookup(fields@.remove(i as int), k)
                    == lookup(fields@, k) by {
                    lemma_lookup_remove(fields@, i as int, k);
                }
            }
            let (_, v) = fields.remove(i);
            return Some(v);
        }
        i = i + 1;
    }
    proof {
        lemma_lookup_absent(fields@, key@);
    }
    None
}

} // verus!
