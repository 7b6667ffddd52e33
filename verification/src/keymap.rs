//! Ordered string-keyed maps, kept as vectors of pairs: keys are looked up by
//! first occurrence, and insertion updates the first matching entry in place,
//! so construction keeps keys unique and preserves insertion order.

use vstd::prelude::*;

verus! {

/// The value stored under `key`: the first entry whose key matches, if any.
pub open spec fn lookup_pair<V>(entries: Seq<(String, V)>, key: Seq<char>) -> Option<V>
    decreases entries.len(),
{
    if entries.len() == 0 {
        None
    } else if entries[0].0@ == key {
        Some(entries[0].1)
    } else {
        lookup_pair(entries.drop_first(), key)
    }
}

/// Whether some entry carries `key`.
pub open spec fn has_key<V>(entries: Seq<(String, V)>, key: Seq<char>) -> bool {
    lookup_pair(entries, key) is Some
}

/// The entries after setting `key` to `value`: the first entry with a
/// matching key is updated in place, or the pair is appended at the end.
pub open spec fn insert_pair<V>(entries: Seq<(String, V)>, key: String, value: V) -> Seq<(String, V)>
    decreases entries.len(),
{
    if entries.len() == 0 {
        seq![(key, value)]
    } else if entries[0].0@ == key@ {
        seq![(entries[0].0, value)] + entries.drop_first()
    } else {
        seq![entries[0]] + insert_pair(entries.drop_first(), key, value)
    }
}

/// Finds the first entry whose key equals `key`.
pub fn keymap_get<'a, V>(entries: &'a Vec<(String, V)>, key: &String) -> (r: Option<&'a V>)
    ensures
        match r {
            Some(v) => lookup_pair(entries@, key@) == Some(*v),
            None => lookup_pair(entries@, key@) is None,
        },
{
    proof {
        assert(entries@.skip(0) =~= entries@);
    }
    let mut i: usize = 0;
    while i < entries.len()
        invariant
            0 <= i <= entries.len(),
            lookup_pair(entries@, key@) == lookup_pair(entries@.skip(i as int), key@),
        decreases entries.len() - i,
    {
        if entries[i].0.eq(key) {
            return Some(&entries[i].1);
        }
        proof {
            assert(entries@.skip(i as int).drop_first() =~= entries@.skip(i + 1));
        }
        i = i + 1;
    }
    None
}

/// Sets `key` to `value`, updating the first matching entry in place or
/// appending a new entry at the end.
pub fn keymap_insert<V>(entries: &mut Vec<(String, V)>, key: String, value: V)
    ensures
        final(entries)@ == insert_pair(old(entries)@, key, value),
{
    let mut i: usize = 0;
    loop
        invariant
            0 <= i <= entries.len(),
            forall|j: int| 0 <= j < i ==> entries@[j].0@ != key@,
            entries@ == old(entries)@,
        decreases entries.len() - i,
    {
        if i == entries.len() {
            entries.push((key, value));
            proof {
                lemma_insert_appends(old(entries)@, key, value);
            }
            return;
        }
        if entries[i].0.eq(&key) {
            let (k, _) = entries.remove(i);
            entries.insert(i, (k, value));
            proof {
                lemma_insert_updates(old(entries)@, key, value, i as int);
                assert(entries@ =~= old(entries)@.update(
                    i as int,
                    (old(entries)@[i as int].0, value),
                ));
            }
            return;
        }
        i = i + 1;
    }
}

/// When no entry carries the key, insertion appends the pair at the end.
proof fn lemma_insert_appends<V>(entries: Seq<(String, V)>, key: String, value: V)
    requires
        forall|j: int| 0 <= j < entries.len() ==> entries[j].0@ != key@,
    ensures
        insert_pair(entries, key, value) =~= entries.push((key, value)),
    decreases entries.len(),
{
    if entries.len() > 0 {
        lemma_insert_appends(entries.drop_first(), key, value);
        assert(insert_pair(entries, key, value) =~= entries.push((key, value)));
    }
}

/// When the first matching entry sits at `i`, insertion updates it in place.
proof fn lemma_insert_updates<V>(entries: Seq<(String, V)>, key: String, value: V, i: int)
    requires
        0 <= i < entries.len(),
        entries[i].0@ == key@,
        forall|j: int| 0 <= j < i ==> entries[j].0@ != key@,
    ensures
        insert_pair(entries, key, value) =~= entries.update(i, (entries[i].0, value)),
    decreases entries.len(),
{
    if i > 0 {
        lemma_insert_updates(entries.drop_first(), key, value, i - 1);
        assert(insert_pair(entries, key, value) =~= entries.update(i, (entries[i].0, value)));
    } else {
        assert(insert_pair(entries, key, value) =~= entries.update(0, (entries[0].0, value)));
    }
}

/// Looking up a key right after inserting it finds the inserted value.
pub proof fn lemma_lookup_after_insert<V>(entries: Seq<(String, V)>, key: String, value: V)
    ensures
        lookup_pair(insert_pair(entries, key, value), key@) == Some(value),
    decreases entries.len(),
{
    if entries.len() > 0 && entries[0].0@ != key@ {
        lemma_lookup_after_insert(entries.drop_first(), key, value);
        assert((seq![entries[0]] + insert_pair(entries.drop_first(), key, value)).drop_first()
            =~= insert_pair(entries.drop_first(), key, value));
    }
}

/// Inserting one key leaves every other key's lookup unchanged.
pub proof fn lemma_lookup_other_after_insert<V>(
    entries: Seq<(String, V)>,
    key: String,
    value: V,
    other: Seq<char>,
)
    requires
        other != key@,
    ensures
        lookup_pair(insert_pair(entries, key, value), other) == lookup_pair(entries, other),
    decreases entries.len(),
{
    if entries.len() == 0 {
        assert(seq![(key, value)].drop_first() =~= Seq::<(String, V)>::empty());
        assert(seq![(key, value)][0] == (key, value));
        assert(lookup_pair(Seq::<(String, V)>::empty(), other) is None);
        assert(lookup_pair(insert_pair(entries, key, value), other) is None);
    } else if entries[0].0@ == key@ {
        assert((seq![(entries[0].0, value)] + entries.drop_first()).drop_first()
            =~= entries.drop_first());
    } else {
        lemma_lookup_other_after_insert(entries.drop_first(), key, value, other);
        assert((seq![entries[0]] + insert_pair(entries.drop_first(), key, value)).drop_first()
            =~= insert_pair(entries.drop_first(), key, value));
    }
}

} // verus!
