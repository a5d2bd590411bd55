//! Named values, kept in the order in which their names first came.
//!
//! This is the library's map from text to values: a list of pairs in which a
//! name is set, not added a second time. A list that is built with [`put`]
//! from an empty one holds no name twice.

use vstd::prelude::*;
use vstd::string::*;
use crate::text::str_eq;

verus! {

/// The models of named values, in order.
pub open spec fn entries_view<T: View>(entries: Seq<(String, T)>) -> Seq<(Seq<char>, T::V)> {
    Seq::new(entries.len(), |i: int| (entries[i].0@, entries[i].1@))
}

/// No two of the entries bear the same name.
pub open spec fn distinct_names<V>(entries: Seq<(Seq<char>, V)>) -> bool {
    forall|i: int, j: int|
        0 <= i < j < entries.len() ==> (#[trigger] entries[i]).0 != (#[trigger] entries[j]).0
}

/// Some entry is named `key`.
pub open spec fn has_key<V>(entries: Seq<(Seq<char>, V)>, key: Seq<char>) -> bool {
    exists|i: int| 0 <= i < entries.len() && (#[trigger] entries[i]).0 == key
}

/// The place of the first entry named `key`, if there is one.
pub open spec fn position_of<V>(entries: Seq<(Seq<char>, V)>, key: Seq<char>) -> Option<int>
    decreases entries.len(),
{
    if entries.len() == 0 {
        None
    } else if entries[0].0 == key {
        Some(0)
    } else {
        match position_of(entries.subrange(1, entries.len() as int), key) {
            Some(i) => Some(i + 1),
            None => None,
        }
    }
}

/// The value of the first entry named `key`, if there is one.
pub open spec fn value_of<V>(entries: Seq<(Seq<char>, V)>, key: Seq<char>) -> Option<V> {
    match position_of(entries, key) {
        Some(i) => Some(entries[i].1),
        None => None,
    }
}

/// The value of the last entry named `key`, if there is one.
pub open spec fn last_value_of<V>(entries: Seq<(Seq<char>, V)>, key: Seq<char>) -> Option<V>
    decreases entries.len(),
{
    if entries.len() == 0 {
        None
    } else if entries.last().0 == key {
        Some(entries.last().1)
    } else {
        last_value_of(entries.drop_last(), key)
    }
}

/// `entries` with `key` set to `value`: the first entry of that name gets the
/// value, in its place; where there is none, the entry is added at the end.
pub open spec fn put_spec<V>(entries: Seq<(Seq<char>, V)>, key: Seq<char>, value: V) -> Seq<
    (Seq<char>, V),
> {
    match position_of(entries, key) {
        Some(i) => entries.update(i, (key, value)),
        None => entries.push((key, value)),
    }
}

/// The place that `position_of` gives is the place of the first entry of that
/// name; it gives none only where no entry bears the name.
pub proof fn lemma_position_of<V>(entries: Seq<(Seq<char>, V)>, key: Seq<char>)
    ensures
        match position_of(entries, key) {
            Some(i) => 0 <= i < entries.len() && entries[i].0 == key && forall|j: int|
                0 <= j < i ==> (#[trigger] entries[j]).0 != key,
            None => forall|j: int| 0 <= j < entries.len() ==> (#[trigger] entries[j]).0 != key,
        },
    decreases entries.len(),
{
    if entries.len() > 0 && entries[0].0 != key {
        let rest = entries.subrange(1, entries.len() as int);
        lemma_position_of(rest, key);
        match position_of(rest, key) {
            Some(i) => {
                assert(rest[i] == entries[i + 1]);
                assert forall|j: int| 0 <= j < i + 1 implies (#[trigger] entries[j]).0 != key by {
                    if j > 0 {
                        assert(rest[j - 1] == entries[j]);
                    }
                }
            },
            None => {
                assert forall|j: int| 0 <= j < entries.len() implies (#[trigger] entries[j]).0
                    != key by {
                    if j > 0 {
                        assert(rest[j - 1] == entries[j]);
                    }
                }
            },
        }
    }
}

/// The first entry of a name stands at the place `i` where an entry of that
/// name stands at `i` and none before it.
pub proof fn lemma_position_is<V>(entries: Seq<(Seq<char>, V)>, key: Seq<char>, i: int)
    requires
        0 <= i < entries.len(),
        entries[i].0 == key,
        forall|j: int| 0 <= j < i ==> (#[trigger] entries[j]).0 != key,
    ensures
        position_of(entries, key) == Some(i),
{
    lemma_position_of(entries, key);
}

/// No entry of a name: no place for it.
pub proof fn lemma_position_none<V>(entries: Seq<(Seq<char>, V)>, key: Seq<char>)
    requires
        forall|j: int| 0 <= j < entries.len() ==> (#[trigger] entries[j]).0 != key,
    ensures
        position_of(entries, key) is None,
{
    lemma_position_of(entries, key);
}

/// A name has a value exactly if some entry bears it.
pub proof fn lemma_value_of_has_key<V>(entries: Seq<(Seq<char>, V)>, key: Seq<char>)
    ensures
        value_of(entries, key) is Some <==> has_key(entries, key),
{
    lemma_position_of(entries, key);
}

/// After `key` is set to `value`, `key` has that value and every other name
/// the value that it had.
pub proof fn lemma_put_value<V>(
    entries: Seq<(Seq<char>, V)>,
    key: Seq<char>,
    value: V,
    asked: Seq<char>,
)
    ensures
        value_of(put_spec(entries, key, value), asked) == (if asked == key {
            Some(value)
        } else {
            value_of(entries, asked)
        }),
{
    let after = put_spec(entries, key, value);
    lemma_position_of(entries, key);
    lemma_position_of(entries, asked);
    match position_of(entries, key) {
        Some(i) => {
            match position_of(entries, asked) {
                Some(k) => {
                    assert forall|j: int| 0 <= j < k implies (#[trigger] after[j]).0 != asked by {
                        assert(entries[j].0 != asked);
                    }
                    lemma_position_is(after, asked, k);
                },
                None => {
                    assert forall|j: int| 0 <= j < after.len() implies (#[trigger] after[j]).0
                        != asked by {
                        assert(entries[j].0 != asked);
                    }
                    lemma_position_none(after, asked);
                },
            }
        },
        None => {
            match position_of(entries, asked) {
                Some(k) => {
                    assert forall|j: int| 0 <= j < k implies (#[trigger] after[j]).0 != asked by {
                        assert(entries[j].0 != asked);
                    }
                    lemma_position_is(after, asked, k);
                },
                None => {
                    if asked == key {
                        assert forall|j: int| 0 <= j < entries.len() implies (
                        #[trigger] after[j]).0 != asked by {
                            assert(entries[j].0 != asked);
                        }
                        lemma_position_is(after, asked, entries.len() as int);
                    } else {
                        assert forall|j: int| 0 <= j < after.len() implies (#[trigger] after[j]).0
                            != asked by {
                            if j < entries.len() {
                                assert(entries[j].0 != asked);
                            }
                        }
                        lemma_position_none(after, asked);
                    }
                },
            }
        },
    }
}

/// Setting a name in entries that hold no name twice leaves them so.
pub proof fn lemma_put_distinct<V>(entries: Seq<(Seq<char>, V)>, key: Seq<char>, value: V)
    requires
        distinct_names(entries),
    ensures
        distinct_names(put_spec(entries, key, value)),
{
    let after = put_spec(entries, key, value);
    lemma_position_of(entries, key);
    assert forall|i: int, j: int| 0 <= i < j < after.len() implies (#[trigger] after[i]).0 != (
    #[trigger] after[j]).0 by {
        match position_of(entries, key) {
            Some(p) => {
                assert(after[i].0 == entries[i].0);
                assert(after[j].0 == entries[j].0);
            },
            None => {
                assert(after[i] == entries[i]);
                if j < entries.len() {
                    assert(after[j] == entries[j]);
                }
            },
        }
    }
}

/// Setting a name keeps every earlier entry in its place, under its name.
pub proof fn lemma_put_keeps_order<V>(entries: Seq<(Seq<char>, V)>, key: Seq<char>, value: V)
    ensures
        put_spec(entries, key, value).len() >= entries.len(),
        forall|i: int|
            0 <= i < entries.len() ==> (#[trigger] put_spec(entries, key, value)[i]).0
                == entries[i].0,
{
    lemma_position_of(entries, key);
}

/// Setting a name that no entry bears adds the entry at the end.
pub proof fn lemma_put_new<V>(entries: Seq<(Seq<char>, V)>, key: Seq<char>, value: V)
    requires
        !has_key(entries, key),
    ensures
        put_spec(entries, key, value) == entries.push((key, value)),
{
    lemma_position_of(entries, key);
}

/// The model of a value that may have been found.
pub open spec fn found_view<T: View>(found: Option<&T>) -> Option<T::V> {
    match found {
        Some(value) => Some(value@),
        None => None,
    }
}

/// The place of the first entry named `key`.
pub fn position<T: View>(entries: &Vec<(String, T)>, key: &str) -> (found: Option<usize>)
    ensures
        match found {
            Some(i) => position_of(entries_view(entries@), key@) == Some(i as int),
            None => position_of(entries_view(entries@), key@) is None,
        },
{
    let ghost all = entries_view(entries@);
    let mut i: usize = 0;
    while i < entries.len()
        invariant
            i <= entries.len(),
            all == entries_view(entries@),
            forall|j: int| 0 <= j < i ==> (#[trigger] all[j]).0 != key@,
        decreases entries.len() - i,
    {
        assert(all[i as int].0 == entries@[i as int].0@);
        if str_eq(entries[i].0.as_str(), key) {
            proof {
                lemma_position_is(all, key@, i as int);
            }
            return Some(i);
        }
        i = i + 1;
    }
    proof {
        lemma_position_none(all, key@);
    }
    None
}

/// The value of the first entry named `key`.
pub fn entry<'a, T: View>(entries: &'a Vec<(String, T)>, key: &str) -> (found: Option<&'a T>)
    ensures
        found_view(found) == value_of(entries_view(entries@), key@),
{
    proof {
        lemma_position_of(entries_view(entries@), key@);
    }
    match position(entries, key) {
        Some(i) => Some(&entries[i].1),
        None => None,
    }
}

/// Sets `key` to `value` in `entries`.
pub fn put<T: View>(entries: &mut Vec<(String, T)>, key: String, value: T)
    ensures
        entries_view(final(entries)@) == put_spec(entries_view(old(entries)@), key@, value@),
{
    let ghost before = entries_view(entries@);
    proof {
        lemma_position_of(before, key@);
    }
    match position(entries, key.as_str()) {
        Some(i) => {
            entries.set(i, (key, value));
            assert(entries_view(entries@) =~= before.update(i as int, (key@, value@)));
        },
        None => {
            entries.push((key, value));
            assert(entries_view(entries@) =~= before.push((key@, value@)));
        },
    }
}

} // verus!
