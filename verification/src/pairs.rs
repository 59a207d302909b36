//! Sequences of key-value pairs: the form in which a map is written out and
//! read back, and the map that a sequence of pairs builds.

use vstd::prelude::*;

verus! {

/// The map that inserting the pairs of `s` one after another into an empty
/// map yields: a key that occurs more than once ends up with the value of
/// its last occurrence.
pub open spec fn pairs_to_map<K, V>(s: Seq<(K, V)>) -> Map<K, V>
    decreases s.len(),
{
    if s.len() == 0 {
        Map::empty()
    } else {
        pairs_to_map(s.drop_last()).insert(s.last().0, s.last().1)
    }
}

/// The keys that occur in `s`.
pub open spec fn pair_keys<K, V>(s: Seq<(K, V)>) -> Set<K> {
    s.map_values(|p: (K, V)| p.0).to_set()
}

/// No key occurs twice in `s`.
pub open spec fn keys_distinct<K, V>(s: Seq<(K, V)>) -> bool {
    forall|i: int, j: int| 0 <= i < j < s.len() ==> #[trigger] s[i].0 != #[trigger] s[j].0
}

/// `s` lists the entries of `m`, each exactly once, in some order.
pub open spec fn lists_map<K, V>(s: Seq<(K, V)>, m: Map<K, V>) -> bool {
    &&& keys_distinct(s)
    &&& forall|i: int|
        0 <= i < s.len() ==> #[trigger] m.contains_key(s[i].0) && m[s[i].0] == s[i].1
    &&& forall|k: K| #[trigger] m.contains_key(k) ==> exists|i: int| 0 <= i < s.len() && s[i].0 == k
}

/// The pairs of a sequence of borrowed pairs.
pub open spec fn unref_pairs<K, V>(s: Seq<(&K, &V)>) -> Seq<(K, V)> {
    s.map_values(|p: (&K, &V)| (*p.0, *p.1))
}

/// Reading back a listing of a map gives the map: whatever order the
/// entries of `m` were written out in, inserting them one after another
/// into an empty map rebuilds `m`.
pub proof fn lemma_listing_rebuilds_map<K, V>(s: Seq<(K, V)>, m: Map<K, V>)
    requires
        lists_map(s, m),
    ensures
        pairs_to_map(s) == m,
    decreases s.len(),
{
    if s.len() == 0 {
        assert forall|k: K| !m.contains_key(k) by {
            if m.contains_key(k) {
                let i = choose|i: int| 0 <= i < s.len() && s[i].0 == k;
            }
        }
        assert(m =~= Map::empty());
    } else {
        let last = s.last();
        let rest = s.drop_last();
        let smaller = m.remove(last.0);
        assert(m.contains_key(s[s.len() - 1].0));
        assert forall|i: int| 0 <= i < rest.len() implies #[trigger] smaller.contains_key(rest[i].0)
            && smaller[rest[i].0] == rest[i].1 by {
            assert(s[i].0 != s[s.len() - 1].0);
            assert(m.contains_key(s[i].0));
        }
        assert forall|k: K| #[trigger] smaller.contains_key(k) implies exists|i: int|
            0 <= i < rest.len() && rest[i].0 == k by {
            assert(m.contains_key(k));
            let i = choose|i: int| 0 <= i < s.len() && s[i].0 == k;
            assert(i != s.len() - 1);
            assert(rest[i].0 == k);
        }
        assert forall|i: int, j: int| 0 <= i < j < rest.len() implies #[trigger] rest[i].0
            != #[trigger] rest[j].0 by {
            assert(s[i].0 != s[j].0);
        }
        lemma_listing_rebuilds_map(rest, smaller);
        assert(pairs_to_map(s) =~= m);
    }
}

/// A map built from pairs holds exactly the keys that occur in the pairs,
/// and each of them with the value of its last occurrence.
pub proof fn lemma_pairs_to_map_last_wins<K, V>(s: Seq<(K, V)>, k: K)
    ensures
        pairs_to_map(s).contains_key(k) <==> exists|i: int| 0 <= i < s.len() && s[i].0 == k,
        forall|i: int|
            0 <= i < s.len() && s[i].0 == k && (forall|j: int| i < j < s.len() ==> s[j].0 != k)
                ==> pairs_to_map(s)[k] == s[i].1,
    decreases s.len(),
{
    if s.len() > 0 {
        let rest = s.drop_last();
        lemma_pairs_to_map_last_wins(rest, k);
        if s.last().0 != k {
            assert forall|i: int| 0 <= i < s.len() && s[i].0 == k implies 0 <= i < rest.len()
                && rest[i].0 == k by {}
            assert((exists|i: int| 0 <= i < s.len() && s[i].0 == k) ==> exists|i: int|
                0 <= i < rest.len() && rest[i].0 == k);
            assert((exists|i: int| 0 <= i < rest.len() && rest[i].0 == k) ==> exists|i: int|
                0 <= i < s.len() && s[i].0 == k);
            assert forall|i: int|
                0 <= i < s.len() && s[i].0 == k && (forall|j: int| i < j < s.len() ==> s[j].0 != k)
                implies pairs_to_map(s)[k] == s[i].1 by {
                assert(rest[i] == s[i]);
                assert forall|j: int| i < j < rest.len() implies rest[j].0 != k by {
                    assert(rest[j] == s[j]);
                }
            }
        } else {
            assert(s[s.len() - 1].0 == k);
        }
    }
}

/// A map built from pairs holds exactly the keys that occur in the pairs,
/// finitely many, so it has as many entries as there are distinct keys.
pub proof fn lemma_pairs_to_map_keys<K, V>(s: Seq<(K, V)>)
    ensures
        pairs_to_map(s).dom() == pair_keys(s),
        pair_keys(s).finite(),
        pairs_to_map(s).len() == pair_keys(s).len(),
    decreases s.len(),
{
    if s.len() > 0 {
        lemma_pairs_to_map_keys(s.drop_last());
    }
    let keys = s.map_values(|p: (K, V)| p.0);
    assert forall|k: K| pairs_to_map(s).dom().contains(k) <==> pair_keys(s).contains(k) by {
        lemma_pairs_to_map_last_wins(s, k);
        if pairs_to_map(s).dom().contains(k) {
            let i = choose|i: int| 0 <= i < s.len() && s[i].0 == k;
            assert(keys[i] == k);
            assert(keys.contains(k));
        }
        if pair_keys(s).contains(k) {
            assert(keys.contains(k));
            let j = choose|j: int| 0 <= j < keys.len() && keys[j] == k;
            assert(s[j].0 == k);
        }
    }
    assert(pairs_to_map(s).dom() =~= pair_keys(s));
}

} // verus!
