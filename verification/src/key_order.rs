//! The order in which a map keyed by integers hands out its entries.

use vstd::prelude::*;

use vstd::std_specs::cmp::OrdSpec;

verus! {

broadcast use {vstd::std_specs::btree::group_btree_axioms, vstd::laws_cmp::group_laws_cmp};

/// Entries whose `u32` keys come in increasing order, as a `BTreeMap` hands
/// them out, have strictly increasing keys.
pub(crate) proof fn lemma_increasing_keys<V>(entries: Seq<(&u32, &V)>)
    requires
        vstd::std_specs::btree::increasing_seq(entries.map_values(|kv: (&u32, &V)| *kv.0)),
    ensures
        forall|i: int, j: int| 0 <= i < j < entries.len() ==> *entries[i].0 < *entries[j].0,
{
    let keys = entries.map_values(|kv: (&u32, &V)| *kv.0);
    assert forall|i: int, j: int| 0 <= i < j < entries.len() implies *entries[i].0
        < *entries[j].0 by {
        assert(keys[i].cmp_spec(&keys[j]) is Less);
    }
}

/// `u32` keys obey the order that the specifications of `BTreeMap` rest on.
pub(crate) proof fn lemma_u32_keys_ordered()
    ensures
        vstd::std_specs::btree::key_obeys_cmp_spec::<u32>(),
        vstd::laws_cmp::obeys_cmp::<u32>(),
{
}

} // verus!
