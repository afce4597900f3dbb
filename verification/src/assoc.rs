use vstd::prelude::*;

verus! {

/// The value of the first entry with the given key, if any.
pub open spec fn assoc_lookup<V>(entries: Seq<(Seq<char>, V)>, key: Seq<char>) -> Option<V>
    decreases entries.len(),
{
    if entries.len() == 0 {
        None
    } else if entries[0].0 == key {
        Some(entries[0].1)
    } else {
        assoc_lookup(entries.drop_first(), key)
    }
}

/// Entries whose keys differ from `key` do not change the lookup.
pub proof fn lemma_assoc_lookup_skip<V>(entries: Seq<(Seq<char>, V)>, key: Seq<char>, i: int)
    requires
        0 <= i <= entries.len(),
        forall|j: int| 0 <= j < i ==> entries[j].0 != key,
    ensures
        assoc_lookup(entries, key) == assoc_lookup(entries.skip(i), key),
    decreases i,
{
    if i > 0 {
        lemma_assoc_lookup_skip(entries, key, i - 1);
        assert(entries.skip(i - 1).drop_first() =~= entries.skip(i));
    } else {
        assert(entries.skip(0) =~= entries);
    }
}

/// The lookup finds the entry at `i` when no earlier entry has the key.
pub proof fn lemma_assoc_lookup_found<V>(entries: Seq<(Seq<char>, V)>, key: Seq<char>, i: int)
    requires
        0 <= i < entries.len(),
        entries[i].0 == key,
        forall|j: int| 0 <= j < i ==> entries[j].0 != key,
    ensures
        assoc_lookup(entries, key) == Some(entries[i].1),
{
    lemma_assoc_lookup_skip(entries, key, i);
}

/// The lookup fails when no entry has the key.
pub proof fn lemma_assoc_lookup_absent<V>(entries: Seq<(Seq<char>, V)>, key: Seq<char>)
    requires
        forall|j: int| 0 <= j < entries.len() ==> entries[j].0 != key,
    ensures
        assoc_lookup(entries, key) is None,
{
    lemma_assoc_lookup_skip(entries, key, entries.len() as int);
}

/// Replacing the first entry that has a key by a new entry with that key
/// changes the lookup of that key only.
pub proof fn lemma_assoc_lookup_update<V>(entries: Seq<(Seq<char>, V)>, i: int, e: (Seq<char>, V), key: Seq<char>)
    requires
        0 <= i < entries.len(),
        entries[i].0 == e.0,
        forall|j: int| 0 <= j < i ==> entries[j].0 != e.0,
    ensures
        assoc_lookup(entries.update(i, e), key) == (if key == e.0 {
            Some(e.1)
        } else {
            assoc_lookup(entries, key)
        }),
    decreases i,
{
    let u = entries.update(i, e);
    if key == e.0 {
        lemma_assoc_lookup_found(u, key, i);
    } else if i == 0 {
        assert(u.drop_first() =~= entries.drop_first());
    } else {
        if entries[0].0 != key {
            lemma_assoc_lookup_update(entries.drop_first(), i - 1, e, key);
            assert(u.drop_first() =~= entries.drop_first().update(i - 1, e));
        }
    }
}

/// Appending an entry only adds the lookup of a key that was absent.
pub proof fn lemma_assoc_lookup_push<V>(entries: Seq<(Seq<char>, V)>, e: (Seq<char>, V), key: Seq<char>)
    ensures
        assoc_lookup(entries.push(e), key) == (if assoc_lookup(entries, key) is Some {
            assoc_lookup(entries, key)
        } else if e.0 == key {
            Some(e.1)
        } else {
            None
        }),
    decreases entries.len(),
{
    if entries.len() > 0 {
        lemma_assoc_lookup_push(entries.drop_first(), e, key);
        assert(entries.push(e).drop_first() =~= entries.drop_first().push(e));
    } else {
        assert(entries.push(e)[0] == e);
        assert(entries.push(e).drop_first().len() == 0);
        assert(assoc_lookup(entries.push(e).drop_first(), key) is None);
    }
}

/// A key is found exactly when some entry has it.
pub proof fn lemma_assoc_lookup_some<V>(entries: Seq<(Seq<char>, V)>, key: Seq<char>)
    ensures
        assoc_lookup(entries, key) is Some <==> exists|j: int| 0 <= j < entries.len() && entries[j].0 == key,
    decreases entries.len(),
{
    if entries.len() > 0 {
        lemma_assoc_lookup_some(entries.drop_first(), key);
        if entries[0].0 != key {
            assert forall|j: int| 0 <= j < entries.len() && entries[j].0 == key implies
                0 <= j - 1 < entries.drop_first().len() && entries.drop_first()[j - 1].0 == key by {}
            assert forall|j: int| 0 <= j < entries.drop_first().len() && entries.drop_first()[j].0 == key implies
                0 <= j + 1 < entries.len() && entries[j + 1].0 == key by {}
        }
    }
}

} // verus!
