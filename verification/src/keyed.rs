//! Entries under string keys, held in a sequence in the order they were put.
//!
//! This is the mapping every structure of this crate is built on. A key is
//! looked up from the back, so where a key occurs twice the later entry is the
//! one that counts.

use vstd::prelude::*;

verus! {

/// A sequence of entries, each a key and what is stored under it.
pub type Entries<T> = Seq<(Seq<char>, T)>;

/// Where the last entry under `key` stands, if there is one.
pub open spec fn position<T>(entries: Entries<T>, key: Seq<char>) -> Option<int>
    decreases entries.len(),
{
    if entries.len() == 0 {
        None
    } else if entries.last().0 == key {
        Some(entries.len() - 1)
    } else {
        position(entries.drop_last(), key)
    }
}

/// What is stored under `key`, if anything.
pub open spec fn lookup<T>(entries: Entries<T>, key: Seq<char>) -> Option<T> {
    match position(entries, key) {
        Some(i) => Some(entries[i].1),
        None => None,
    }
}

/// The entries after `value` is put under `key`: it takes the place of what
/// was under that key, or goes to the end when the key is new.
pub open spec fn upsert<T>(entries: Entries<T>, key: Seq<char>, value: T) -> Entries<T> {
    match position(entries, key) {
        Some(i) => entries.update(i, (key, value)),
        None => entries.push((key, value)),
    }
}

/// No key occurs twice.
pub open spec fn distinct_keys<T>(entries: Entries<T>) -> bool {
    forall|i: int, j: int| 0 <= i < j < entries.len() ==> entries[i].0 != entries[j].0
}

/// The entries that result from putting each entry of `entries` in turn,
/// starting from nothing: a key that occurs again replaces what was under it.
pub open spec fn collected<T>(entries: Entries<T>) -> Entries<T>
    decreases entries.len(),
{
    if entries.len() == 0 {
        Seq::empty()
    } else {
        upsert(collected(entries.drop_last()), entries.last().0, entries.last().1)
    }
}

/// How many items the entries hold in all, where each entry holds a sequence
/// of items.
pub open spec fn total<T>(entries: Entries<Seq<T>>) -> nat
    decreases entries.len(),
{
    if entries.len() == 0 {
        0
    } else {
        total(entries.drop_last()) + entries.last().1.len()
    }
}

/// `position` finds the last entry under the key, and finds none only when no
/// entry has the key.
pub proof fn lemma_position<T>(entries: Entries<T>, key: Seq<char>)
    ensures
        match position(entries, key) {
            Some(i) => {
                &&& 0 <= i < entries.len()
                &&& entries[i].0 == key
                &&& forall|j: int| i < j < entries.len() ==> entries[j].0 != key
            },
            None => forall|j: int| 0 <= j < entries.len() ==> entries[j].0 != key,
        },
    decreases entries.len(),
{
    if entries.len() > 0 && entries.last().0 != key {
        let front = entries.drop_last();
        lemma_position(front, key);
        assert(forall|j: int| 0 <= j < front.len() ==> front[j] == entries[j]);
        match position(front, key) {
            Some(i) => {
                assert forall|j: int| i < j < entries.len() implies entries[j].0 != key by {
                    if j < front.len() {
                        assert(front[j].0 != key);
                    }
                }
            },
            None => {
                assert forall|j: int| 0 <= j < entries.len() implies entries[j].0 != key by {
                    if j < front.len() {
                        assert(front[j].0 != key);
                    }
                }
            },
        }
    }
}

/// Where two sequences have the same keys at the same places, a key stands
/// at the same position in both.
pub proof fn lemma_position_same_keys<A, B>(a: Entries<A>, b: Entries<B>, key: Seq<char>)
    requires
        a.len() == b.len(),
        forall|i: int| 0 <= i < a.len() ==> a[i].0 == b[i].0,
    ensures
        position(a, key) == position(b, key),
    decreases a.len(),
{
    if a.len() > 0 {
        assert(a.last().0 == b.last().0);
        let a_front = a.drop_last();
        let b_front = b.drop_last();
        assert forall|i: int| 0 <= i < a_front.len() implies a_front[i].0 == b_front[i].0 by {
            assert(a_front[i] == a[i]);
            assert(b_front[i] == b[i]);
        }
        lemma_position_same_keys(a_front, b_front, key);
    }
}

/// Putting an entry keeps the keys distinct.
pub proof fn lemma_upsert_distinct<T>(entries: Entries<T>, key: Seq<char>, value: T)
    requires
        distinct_keys(entries),
    ensures
        distinct_keys(upsert(entries, key, value)),
{
    lemma_position(entries, key);
}

/// After a put, the key holds the new value and every other key holds what
/// it held.
pub proof fn lemma_lookup_upsert<T>(entries: Entries<T>, key: Seq<char>, value: T, other: Seq<char>)
    ensures
        lookup(upsert(entries, key, value), other) == if other == key {
            Some(value)
        } else {
            lookup(entries, other)
        },
{
    let after = upsert(entries, key, value);
    lemma_position(entries, key);
    lemma_position(entries, other);
    lemma_position(after, other);
    match position(entries, key) {
        Some(i) => {
            assert(forall|j: int| 0 <= j < entries.len() ==> after[j].0 == entries[j].0);
            match (position(after, other), position(entries, other)) {
                (Some(p), Some(q)) => {
                    assert(after[q].0 == other);
                    assert(entries[p].0 == other);
                    assert(p == q);
                },
                (Some(p), None) => {
                    assert(entries[p].0 == other);
                },
                (None, Some(q)) => {
                    assert(after[q].0 == other);
                },
                (None, None) => {},
            }
        },
        None => {
            assert(after.drop_last() =~= entries);
        },
    }
}

/// What `collected` builds has no key twice.
pub proof fn lemma_collected_distinct<T>(entries: Entries<T>)
    ensures
        distinct_keys(collected(entries)),
    decreases entries.len(),
{
    if entries.len() > 0 {
        lemma_collected_distinct(entries.drop_last());
        lemma_upsert_distinct(collected(entries.drop_last()), entries.last().0, entries.last().1);
    }
}

/// Where no key occurs twice, `collected` changes nothing.
pub proof fn lemma_collected_of_distinct<T>(entries: Entries<T>)
    requires
        distinct_keys(entries),
    ensures
        collected(entries) == entries,
    decreases entries.len(),
{
    if entries.len() > 0 {
        let front = entries.drop_last();
        assert(forall|j: int| 0 <= j < front.len() ==> front[j] == entries[j]);
        lemma_collected_of_distinct(front);
        lemma_position(front, entries.last().0);
        assert(front.push(entries.last()) =~= entries);
    }
}

/// `collected` keeps, under each key, what the last entry with that key held.
pub proof fn lemma_lookup_collected<T>(entries: Entries<T>, key: Seq<char>)
    ensures
        lookup(collected(entries), key) == lookup(entries, key),
    decreases entries.len(),
{
    if entries.len() > 0 {
        let front = entries.drop_last();
        lemma_lookup_collected(front, key);
        lemma_lookup_upsert(collected(front), entries.last().0, entries.last().1, key);
        lemma_position(front, key);
    }
}

/// The position of the last entry of `entries` under `key`.
pub(crate) fn find<V: DeepView>(entries: &Vec<(String, V)>, key: &String) -> (found: Option<usize>)
    ensures
        match found {
            Some(i) => position(entries.deep_view(), key@) == Some(i as int),
            None => position(entries.deep_view(), key@) is None,
        },
{
    let ghost all = entries.deep_view();
    let mut i: usize = entries.len();
    assert(all.take(i as int) =~= all);
    while i > 0
        invariant
            i <= entries.len(),
            all == entries.deep_view(),
            position(all, key@) == position(all.take(i as int), key@),
        decreases i,
    {
        i = i - 1;
        assert(all.take(i + 1).last() == all[i as int]);
        assert(all.take(i + 1).drop_last() =~= all.take(i as int));
        if entries[i].0 == *key {
            return Some(i);
        }
    }
    None
}

/// Puts `value` under `key`, in place of what was there or at the end.
pub(crate) fn put<V: DeepView>(entries: &mut Vec<(String, V)>, key: String, value: V)
    ensures
        final(entries).deep_view() == upsert(old(entries).deep_view(), key@, value.deep_view()),
{
    let found = find(entries, &key);
    proof {
        lemma_position(entries.deep_view(), key@);
    }
    match found {
        Some(i) => {
            entries.set(i, (key, value));
        },
        None => {
            entries.push((key, value));
        },
    }
    assert(entries.deep_view() =~= upsert(old(entries).deep_view(), key@, value.deep_view()));
}

} // verus!
