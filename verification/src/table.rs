//! The `hashbrown` table behind `CustomHashMap`, and the trusted
//! operations on it. The fields are private to this module, so the
//! contents that the contracts speak of change only through these
//! operations.

use core::hash::Hash;
use vstd::prelude::*;
use vstd::std_specs::hash::obeys_key_model;

use crate::pairs::{lists_map, unref_pairs};

verus! {

/// The hash table of the `hashbrown` crate, with its default hasher and
/// allocator. Verus sees nothing inside it: what it holds is the
/// `contents` of the `CustomHashMap` around it.
#[verifier::external_body]
#[verifier::reject_recursive_types(K)]
#[verifier::reject_recursive_types(V)]
struct RawTable<K, V> {
    inner: hashbrown::HashMap<K, V>,
}

/// A `hashbrown` hash map that is written out as a sequence of key-value
/// pairs and read back from one.
///
/// `contents` is the map of key-value pairs the table holds. The methods
/// marked `external_body` below are the only places that say how the table
/// and `contents` move together; they are trusted, not proved.
#[verifier::reject_recursive_types(K)]
#[verifier::reject_recursive_types(V)]
pub struct CustomHashMap<K, V> {
    table: RawTable<K, V>,
    contents: Ghost<Map<K, V>>,
}

impl<K, V> CustomHashMap<K, V> {
    /// A table holds finitely many entries.
    #[verifier::type_invariant]
    closed spec fn contents_finite(self) -> bool {
        self.contents@.dom().finite()
    }
}

impl<K, V> View for CustomHashMap<K, V> {
    type V = Map<K, V>;

    closed spec fn view(&self) -> Map<K, V> {
        self.contents@
    }
}

impl<K: Eq + Hash, V> CustomHashMap<K, V> {
    /// An empty map: `hashbrown::HashMap::new`.
    ///
    /// Trusted: that the new table holds no entry.
    #[verifier::external_body]
    pub fn new() -> (empty: CustomHashMap<K, V>)
        ensures
            empty@ =~= Map::empty(),
    {
        CustomHashMap { table: RawTable { inner: hashbrown::HashMap::new() }, contents: Ghost(Map::empty()) }
    }

    /// Inserts a key-value pair: `hashbrown::HashMap::insert`. Returns the
    /// value the key had before, if it had one.
    ///
    /// Trusted: where the key type's `Hash` and `Eq` are those of Verus's
    /// hash table model, the map afterwards is the map before with `key`
    /// bound to `value`, and the result is the value `key` had before, as
    /// `hashbrown` documents. Of other key types nothing is stated.
    #[verifier::external_body]
    pub fn insert(&mut self, key: K, value: V) -> (previous: Option<V>)
        ensures
            final(self)@.dom().finite(),
            obeys_key_model::<K>() ==> final(self)@ == old(self)@.insert(key, value),
            obeys_key_model::<K>() ==> previous == old(self)@.get(key),
    {
        self.table.inner.insert(key, value)
    }

    /// Looks up the value of a key: `hashbrown::HashMap::get`.
    ///
    /// Trusted: where the key type's `Hash` and `Eq` are those of Verus's
    /// hash table model, the result is the value bound to `key`, or `None`
    /// if there is none. Of other key types nothing is stated.
    #[verifier::external_body]
    pub fn get(&self, key: &K) -> (value: Option<&V>)
        ensures
            obeys_key_model::<K>() ==> match value {
                Some(v) => self@.contains_key(*key) && *v == self@[*key],
                None => !self@.contains_key(*key),
            },
    {
        self.table.inner.get(key)
    }

    /// The number of entries: `hashbrown::HashMap::len`.
    ///
    /// Trusted: where the key type's `Hash` and `Eq` are those of Verus's
    /// hash table model, the result is the number of keys of the map. Of
    /// other key types nothing is stated.
    #[verifier::external_body]
    fn table_len(&self) -> (count: usize)
        ensures
            obeys_key_model::<K>() ==> count == self@.len(),
    {
        self.table.inner.len()
    }

    /// The number of entries of the map, which holds finitely many.
    pub fn len(&self) -> (count: usize)
        ensures
            self@.dom().finite(),
            obeys_key_model::<K>() ==> count == self@.len(),
    {
        proof {
            use_type_invariant(self);
        }
        self.table_len()
    }

    /// The entries of the map, each once, in the table's own order:
    /// `hashbrown::HashMap::iter`.
    ///
    /// Trusted: where the key type's `Hash` and `Eq` are those of Verus's
    /// hash table model, the result lists every entry of the map exactly
    /// once. The order, which depends on the hasher, is not stated.
    #[verifier::external_body]
    pub fn entries(&self) -> (pairs: Vec<(&K, &V)>)
        ensures
            obeys_key_model::<K>() ==> lists_map(unref_pairs(pairs@), self@),
    {
        self.table.inner.iter().collect()
    }
}

impl<K: Clone, V: Clone> Clone for CustomHashMap<K, V> {
    /// A copy of the map: `hashbrown::HashMap::clone`, which clones every
    /// key and every value.
    ///
    /// Trusted: where the key type's `Hash`, `Eq` and `Clone` are those of
    /// Verus's hash table model, the copy has the same keys, and under each
    /// key a value that `V::clone` can return for the value there.
    #[verifier::external_body]
    fn clone(&self) -> (copy: Self)
        ensures
            obeys_key_model::<K>() ==> copy@.dom() == self@.dom(),
            obeys_key_model::<K>() ==> forall|k: K|
                #[trigger] copy@.contains_key(k) ==> cloned::<V>(self@[k], copy@[k]),
    {
        CustomHashMap { table: RawTable { inner: self.table.inner.clone() }, contents: Ghost(self.contents@) }
    }
}

} // verus!
