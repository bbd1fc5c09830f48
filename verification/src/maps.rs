//! Building an ordered map from a list of key-value entries, the way a
//! map literal would: later entries overwrite earlier ones with the same
//! key.

use vstd::prelude::*;

verus! {

broadcast use vstd::std_specs::btree::group_btree_axioms;

/// The map described by inserting each entry of `s` in order.
pub open spec fn spec_map_of<K, V>(s: Seq<(K, V)>) -> Map<K, V>
    decreases s.len(),
{
    if s.len() == 0 {
        Map::empty()
    } else {
        spec_map_of(s.drop_last()).insert(s.last().0, s.last().1)
    }
}

/// Collects the entries into an ordered map; later entries overwrite
/// earlier ones with the same key. The contract holds whenever the key
/// type's comparison obeys its specification, as every integer or string
/// key does.
pub fn btreemap<K: Ord, V>(entries: Vec<(K, V)>) -> (m: std::collections::BTreeMap<K, V>)
    ensures
        vstd::laws_cmp::obeys_cmp::<K>() ==> m@ == spec_map_of(entries@),
{
    let ghost all: Seq<(K, V)> = entries@;
    let mut m: std::collections::BTreeMap<K, V> = std::collections::BTreeMap::new();
    let mut remaining = entries;
    let n = remaining.len();
    let mut i: usize = 0;
    while i < n
        invariant
            i <= n,
            n == all.len(),
            remaining@ == all.skip(i as int),
            vstd::laws_cmp::obeys_cmp::<K>() ==> m@ == spec_map_of(all.take(i as int)),
        decreases n - i,
    {
        let (key, value) = remaining.remove(0);
        proof {
            assert(remaining@ =~= all.skip(i + 1));
            assert((key, value) == all[i as int]);
            assert(all.take(i + 1).drop_last() =~= all.take(i as int));
            assert(all.take(i + 1).last() == all[i as int]);
        }
        m.insert(key, value);
        i = i + 1;
    }
    proof {
        assert(all.take(n as int) =~= all);
    }
    m
}

} // verus!
