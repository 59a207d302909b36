//! A hash map whose contents travel as a sequence of key-value pairs.

use core::hash::Hash;
use vstd::prelude::*;
use vstd::std_specs::hash::obeys_key_model;

use crate::pairs::{
    lemma_listing_rebuilds_map, lemma_pairs_to_map_keys, lemma_pairs_to_map_last_wins, lists_map,
    pair_keys, pairs_to_map,
};

pub use crate::table::CustomHashMap;

verus! {

impl<K: Eq + Hash, V> CustomHashMap<K, V> {
    /// Builds a map from a sequence of key-value pairs, inserting them in
    /// order: where a key occurs more than once, its last value stays.
    /// This is how a map is read back from its written-out form.
    pub fn from_pairs(pairs: Vec<(K, V)>) -> (map: Self)
        ensures
            obeys_key_model::<K>() ==> map@ == pairs_to_map(pairs@),
            obeys_key_model::<K>() ==> map@.dom() == pair_keys(pairs@),
            obeys_key_model::<K>() ==> map@.len() == pair_keys(pairs@).len(),
            obeys_key_model::<K>() ==> forall|i: int|
                #![trigger pairs@[i]]
                0 <= i < pairs@.len() && (forall|j: int| i < j < pairs@.len() ==> pairs@[j].0
                    != pairs@[i].0) ==> map@[pairs@[i].0] == pairs@[i].1,
    {
        let ghost all = pairs@;
        let mut map = Self::new();
        for pair in it: pairs.into_iter()
            invariant
                it.seq() == all,
                obeys_key_model::<K>() ==> map@ == pairs_to_map(all.take(it.index() as int)),
        {
            let ghost i = it.index();
            proof {
                assert(all.take(i + 1).drop_last() =~= all.take(i as int));
            }
            let (key, value) = pair;
            map.insert(key, value);
        }
        proof {
            assert(all.take(all.len() as int) =~= all);
            lemma_pairs_to_map_keys(all);
            assert forall|i: int|
                #![trigger all[i]]
                0 <= i < all.len() && (forall|j: int| i < j < all.len() ==> all[j].0 != all[i].0)
                    implies pairs_to_map(all)[all[i].0] == all[i].1 by {
                lemma_pairs_to_map_last_wins(all, all[i].0);
            }
        }
        map
    }
}

/// The entries of a standard-library hash map, each once, in the map's
/// own order: `Vec::from_iter` over the map, which it consumes.
///
/// Trusted: where the key type's `Hash` and `Eq` are those of Verus's hash
/// table model, the result lists every entry of the map exactly once. The
/// order, which depends on the map's randomly seeded hasher, is not stated.
#[verifier::external_body]
fn std_map_into_pairs<K, V>(map: std::collections::HashMap<K, V>) -> (pairs: Vec<(K, V)>)
    ensures
        obeys_key_model::<K>() ==> lists_map(pairs@, map@),
{
    Vec::from_iter(map)
}

/// Moves the entries of a standard-library hash map into a `hashbrown`
/// one, the table that the zkVM guest can use.
pub fn convert_hashmap_from_std_to_brown<K: Eq + Hash, V>(
    public_map: std::collections::HashMap<K, V>,
) -> (openings_map: CustomHashMap<K, V>)
    ensures
        obeys_key_model::<K>() ==> openings_map@ == public_map@,
        obeys_key_model::<K>() ==> openings_map@.len() == public_map@.len(),
        obeys_key_model::<K>() ==> forall|k: K| #[trigger]
            public_map@.contains_key(k) ==> openings_map@.contains_key(k) && openings_map@[k]
                == public_map@[k],
        obeys_key_model::<K>() ==> forall|k: K| #[trigger]
            openings_map@.contains_key(k) ==> public_map@.contains_key(k),
{
    let ghost entries = public_map@;
    let pairs = std_map_into_pairs(public_map);
    let ghost listed = pairs@;
    let openings_map = CustomHashMap::from_pairs(pairs);
    proof {
        if obeys_key_model::<K>() {
            lemma_listing_rebuilds_map(listed, entries);
        }
    }
    openings_map
}

/// What a read gives back of a write: after `insert(key, value)`, `get`
/// finds `value` under `key`, finds under every other key what it found
/// before, and `insert` returned what `get` found under `key` before.
pub proof fn lemma_get_after_insert<K, V>(contents: Map<K, V>, key: K, value: V, other: K)
    ensures
        contents.insert(key, value).contains_key(key),
        contents.insert(key, value)[key] == value,
        other != key ==> (contents.insert(key, value).contains_key(other) <==> contents.contains_key(other)),
        other != key && contents.contains_key(other) ==> contents.insert(key, value)[other] == contents[other],
        contents.get(key) == (if contents.contains_key(key) { Some(contents[key]) } else { None::<V> }),
{
}

/// Inserting the same pair twice has the effect of inserting it once, and
/// the second `insert` gives back the value the first one put there.
pub proof fn lemma_insert_twice<K, V>(contents: Map<K, V>, key: K, value: V)
    ensures
        contents.insert(key, value).insert(key, value) == contents.insert(key, value),
        contents.insert(key, value).get(key) == Some(value),
{
    assert(contents.insert(key, value).insert(key, value) =~= contents.insert(key, value));
}

/// Inserting a fresh key adds exactly one entry; inserting a key already
/// there leaves the number of entries as it was.
pub proof fn lemma_insert_len<K, V>(contents: Map<K, V>, key: K, value: V)
    requires
        contents.dom().finite(),
    ensures
        contents.insert(key, value).dom().finite(),
        contents.insert(key, value).len() == contents.len() + (if contents.contains_key(key) {
            0int
        } else {
            1int
        }),
{
    if contents.contains_key(key) {
        assert(contents.insert(key, value).dom() =~= contents.dom());
    }
}

/// Converting a standard-library map and then inserting a pair gives the
/// map that converting the standard-library map with the pair inserted
/// gives; and an empty map converts to an empty map. `converted` is the
/// contents of a converted map, which the conversion makes equal to those
/// of `public`.
pub proof fn lemma_convert_commutes_with_insert<K, V>(
    public: Map<K, V>,
    converted: Map<K, V>,
    key: K,
    value: V,
)
    requires
        converted == public,
    ensures
        converted.insert(key, value) == public.insert(key, value),
        public.len() == 0 && public.dom().finite() ==> converted =~= Map::<K, V>::empty(),
{
    if public.len() == 0 && public.dom().finite() {
        assert forall|k: K| !converted.contains_key(k) by {
            if converted.contains_key(k) {
                vstd::set_lib::lemma_set_empty_equivalency_len(public.dom());
            }
        }
    }
}

} // verus!
