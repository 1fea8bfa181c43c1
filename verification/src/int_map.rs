//! Maps that are keyed by integers.
//!
//! An `IntMap` is a `HashMap` whose hasher, of the `nohash_hasher` crate, uses
//! the key itself as the hash. The functions here are the operations on such
//! maps that the rest of the library uses. What they do is stated over the view
//! of the map, which is the mathematical map from its keys to its values.

use nohash_hasher::{IntMap, NoHashHasher};
use std::collections::hash_map::Keys;
use vstd::prelude::*;
use vstd::std_specs::iter::IteratorSpec;

verus! {

/// The type `core::hash::BuildHasherDefault`, which makes the hashers of an
/// `IntMap`.
#[verifier::external_type_specification]
#[verifier::external_body]
#[verifier::reject_recursive_types(H)]
pub struct ExBuildHasherDefault<H>(core::hash::BuildHasherDefault<H>);

/// The type `nohash_hasher::NoHashHasher`, the hasher of an `IntMap`.
#[verifier::external_type_specification]
#[verifier::external_body]
#[verifier::reject_recursive_types(T)]
pub struct ExNoHashHasher<T>(NoHashHasher<T>);

/// Create an empty map.
///
/// This calls `Default::default` of `nohash_hasher::IntMap`, which is believed
/// to give a map without any entries.
#[verifier::external_body]
pub(crate) fn int_map_new<V>() -> (map: IntMap<u32, V>)
    ensures
        (map@ == Map::<u32, V>::empty()),
{
    IntMap::default()
}

/// Get the number of entries in the map.
///
/// This calls `len` of `nohash_hasher::IntMap`, which is believed to give the
/// number of keys.
#[verifier::external_body]
pub(crate) fn int_map_len<V>(map: &IntMap<u32, V>) -> (len: usize)
    ensures
        len == map@.len(),
{
    map.len()
}

/// Check if the map has an entry for the given key.
///
/// This calls `contains_key` of `nohash_hasher::IntMap`, which is believed to
/// tell whether the key is in the map.
#[verifier::external_body]
pub(crate) fn int_map_contains_key<V>(map: &IntMap<u32, V>, key: u32) -> (found: bool)
    ensures
        found == map@.contains_key(key),
{
    map.contains_key(&key)
}

/// Get a reference to the value at the given key, if there is one.
///
/// This calls `get` of `nohash_hasher::IntMap`, which is believed to give the
/// value of the key in the map, or nothing if the key is not in the map.
#[verifier::external_body]
pub(crate) fn int_map_get<V>(map: &IntMap<u32, V>, key: u32) -> (entry: Option<&V>)
    ensures
        match entry {
            Some(value) => map@.contains_key(key) && *value == map@[key],
            None => !map@.contains_key(key),
        },
{
    map.get(&key)
}

/// Get a mutable reference to the value at the given key, if there is one.
///
/// This calls `get_mut` of `nohash_hasher::IntMap`, which is believed to give
/// the value of the key in the map, or nothing if the key is not in the map. The
/// map changes only in that value, and only as the reference is written to.
#[verifier::external_body]
pub(crate) fn int_map_get_mut<V>(map: &mut IntMap<u32, V>, key: u32) -> (entry: Option<&mut V>)
    ensures
        match entry {
            Some(value) => {
                &&& old(map)@.contains_key(key)
                &&& *value == old(map)@[key]
                &&& final(map)@ == old(map)@.insert(key, *final(value))
            },
            None => !old(map)@.contains_key(key) && final(map)@ == old(map)@,
        },
{
    map.get_mut(&key)
}

/// Set the value at the given key.
///
/// This calls `insert` of `nohash_hasher::IntMap`, which is believed to set the
/// value of the key, to leave the other entries alone, and to give back the value
/// that the key had before, if it had any.
#[verifier::external_body]
pub(crate) fn int_map_insert<V>(map: &mut IntMap<u32, V>, key: u32, value: V) -> (previous: Option<
    V,
>)
    ensures
        final(map)@ == old(map)@.insert(key, value),
        match previous {
            Some(previous) => old(map)@.contains_key(key) && previous == old(map)@[key],
            None => !old(map)@.contains_key(key),
        },
{
    map.insert(key, value)
}

/// Remove the entry of the given key, if there is one.
///
/// This calls `remove` of `nohash_hasher::IntMap`, which is believed to remove
/// the key, to leave the other entries alone, and to give back the value that the
/// key had, if it had any.
#[verifier::external_body]
pub(crate) fn int_map_remove<V>(map: &mut IntMap<u32, V>, key: u32) -> (previous: Option<V>)
    ensures
        final(map)@ == old(map)@.remove(key),
        match previous {
            Some(previous) => old(map)@.contains_key(key) && previous == old(map)@[key],
            None => !old(map)@.contains_key(key),
        },
{
    map.remove(&key)
}

/// Walk over the keys of the map.
///
/// This calls `keys` of `nohash_hasher::IntMap`, which is believed to give an
/// iterator that visits every key of the map exactly once, and then ends. The
/// order in which it does so is left open. The last two clauses are what a loop
/// over the iterator needs to know: that it ends, and that what it visits is what
/// it was made with.
#[verifier::external_body]
fn int_map_iter_keys<'a, V>(map: &'a IntMap<u32, V>) -> (keys: Keys<'a, u32, V>)
    ensures
        IteratorSpec::remaining(&keys).unref().to_set() == map@.dom(),
        IteratorSpec::remaining(&keys).unref().no_duplicates(),
        IteratorSpec::decrease(&keys) is Some,
        IteratorSpec::initial_value_relation(&keys, &keys),
{
    map.keys()
}

/// Get the keys of the map, in no particular order.
pub(crate) fn int_map_keys<V>(map: &IntMap<u32, V>) -> (keys: Vec<u32>)
    ensures
        keys@.no_duplicates(),
        keys@.to_set() == map@.dom(),
{
    let mut keys: Vec<u32> = Vec::new();
    for key in it: int_map_iter_keys(map)
        invariant
            it.seq().unref().to_set() == map@.dom(),
            it.seq().unref().no_duplicates(),
            keys@ == it.seq().unref().take(it.index()),
            it.index() == it.seq().len() ==> keys@.to_set() == map@.dom(),
    {
        keys.push(*key);
        assert(it.index() + 1 == it.seq().len() ==> keys@ =~= it.seq().unref());
    }
    keys
}

/// The keys in a list of entries.
pub open spec fn entry_keys<V>(entries: Seq<(u32, V)>) -> Seq<u32> {
    entries.map_values(|entry: (u32, V)| entry.0)
}

/// Whether the list holds entries of the map, none of them twice.
pub open spec fn are_entries<V>(map: Map<u32, V>, entries: Seq<(u32, V)>) -> bool {
    &&& entry_keys(entries).no_duplicates()
    &&& forall|i: int|
        0 <= i < entries.len() ==> map.contains_key((#[trigger] entries[i]).0)
            && map[entries[i].0] == entries[i].1
}

/// Take up to `count` entries out of the map, in no particular order.
pub(crate) fn int_map_take<V>(map: &mut IntMap<u32, V>, count: usize) -> (taken: Vec<(u32, V)>)
    requires
        old(map)@.dom().finite(),
    ensures
        are_entries(old(map)@, taken@),
        taken@.len() == if count <= old(map)@.len() {
            count as nat
        } else {
            old(map)@.len()
        },
        final(map)@ == old(map)@.remove_keys(entry_keys(taken@).to_set()),
{
    let keys: Vec<u32> = int_map_keys(map);
    proof {
        keys@.unique_seq_to_set();
    }
    let mut taken: Vec<(u32, V)> = Vec::new();
    let mut i: usize = 0;
    assert(map@ =~= old(map)@.remove_keys(entry_keys(taken@).to_set()));
    while i < keys.len() && i < count
        invariant
            0 <= i <= keys@.len(),
            i <= count,
            keys@.no_duplicates(),
            keys@.to_set() == old(map)@.dom(),
            taken@.len() == i,
            entry_keys(taken@) == keys@.take(i as int),
            forall|j: int|
                0 <= j < i ==> old(map)@.contains_key((#[trigger] taken@[j]).0)
                    && old(map)@[taken@[j].0] == taken@[j].1,
            map@ == old(map)@.remove_keys(entry_keys(taken@).to_set()),
        decreases keys@.len() - i,
    {
        let key: u32 = keys[i];
        let ghost earlier = taken@;
        assert(keys@.to_set().contains(key));
        assert(!entry_keys(earlier).contains(key));
        if let Some(value) = int_map_remove(map, key) {
            taken.push((key, value));
        }
        proof {
            let (before, after) = (entry_keys(earlier), entry_keys(taken@));
            assert(after =~= before.push(key));
            assert(after =~= keys@.take(i + 1));
            before.lemma_push_to_set_commute(key);
            assert(map@ =~= old(map)@.remove_keys(after.to_set()));
        }
        i = i + 1;
    }
    taken
}

/// If as many entries have been taken out of a map as it had, then it is empty,
/// and all of its keys are among those of the entries.
pub proof fn lemma_all_taken<V>(map: Map<u32, V>, taken: Seq<(u32, V)>)
    requires
        map.dom().finite(),
        are_entries(map, taken),
        taken.len() == map.len(),
    ensures
        entry_keys(taken).to_set() == map.dom(),
        map.remove_keys(entry_keys(taken).to_set()) == Map::<u32, V>::empty(),
{
    let keys = entry_keys(taken);
    keys.unique_seq_to_set();
    assert forall|key: u32| keys.to_set().contains(key) implies map.dom().contains(key) by {
        let i = choose|i: int| 0 <= i < keys.len() && keys[i] == key;
        assert(map.contains_key(taken[i].0));
    }
    vstd::set_lib::lemma_subset_equality(keys.to_set(), map.dom());
    assert(map.remove_keys(keys.to_set()) =~= Map::<u32, V>::empty());
}

} // verus!
