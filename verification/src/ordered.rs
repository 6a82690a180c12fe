//! Ids kept in a `BTreeMap` are walked in increasing order, so the position of an id in a
//! walk is its rank: the number of ids below it.

use vstd::prelude::*;

verus! {

/// The position of `id` in a list of `ids` in increasing order: the number of ids below it.
pub open spec fn rank(ids: Set<u64>, id: u64) -> nat {
    ids.filter(|k: u64| k < id).len()
}

/// The ids of `s` are strictly increasing.
pub open spec fn increasing(s: Seq<u64>) -> bool {
    forall|i: int, j: int| 0 <= i < j < s.len() ==> #[trigger] s[i] < #[trigger] s[j]
}

/// In a strictly increasing sequence of the ids of a set, each id's position is its rank.
pub(crate) proof fn lemma_walk(ks: Seq<u64>, ids: Set<u64>)
    requires
        increasing(ks),
        ks.to_set() == ids,
    ensures
        ks.len() == ids.len(),
        forall|q: int| 0 <= q < ks.len() ==> #[trigger] rank(ids, ks[q]) == q,
{
    ks.unique_seq_to_set();
    assert forall|q: int| 0 <= q < ks.len() implies #[trigger] rank(ids, ks[q]) == q by {
        let below = ids.filter(|k: u64| k < ks[q]);
        let pre = ks.take(q);
        assert forall|k: u64| below.contains(k) <==> pre.to_set().contains(k) by {
            if below.contains(k) {
                assert(ks.to_set().contains(k));
                let i = choose|i: int| 0 <= i < ks.len() && ks[i] == k;
                if i >= q {
                    if i > q {
                        assert(ks[q] < ks[i]);
                    }
                }
                assert(pre[i] == k);
            }
            if pre.to_set().contains(k) {
                let i = choose|i: int| 0 <= i < pre.len() && pre[i] == k;
                assert(ks[i] == k);
                assert(ks.to_set().contains(ks[i]));
            }
        }
        assert(below =~= pre.to_set());
        pre.unique_seq_to_set();
    }
}

/// A map keyed by `u64` is ordered: walking its keys gives them in increasing order.
pub(crate) proof fn lemma_u64_keys()
    ensures
        vstd::laws_cmp::obeys_cmp::<u64>(),
        vstd::laws_cmp::obeys_cmp::<&u64>(),
        vstd::std_specs::btree::key_obeys_cmp_spec::<u64>(),
{
    broadcast use vstd::laws_cmp::group_laws_cmp, vstd::std_specs::btree::group_btree_axioms;

    assert(vstd::laws_cmp::obeys_cmp::<u64>());
    assert(vstd::laws_cmp::obeys_cmp::<&u64>());
}

/// Keys given in increasing order, read through references, are increasing.
pub(crate) proof fn lemma_increasing_keys(ks: Seq<&u64>)
    requires
        vstd::std_specs::btree::increasing_seq(ks),
    ensures
        increasing(ks.unref()),
{
    lemma_u64_keys();
    vstd::std_specs::btree::axiom_increasing_seq_meaning::<&u64>(ks);
    assert forall|i: int, j: int| 0 <= i < j < ks.unref().len() implies #[trigger] ks.unref()[i]
        < #[trigger] ks.unref()[j] by {
        assert(vstd::std_specs::cmp::OrdSpec::cmp_spec(&ks[i], &ks[j]) is Less);
    }
}

/// The ranks of a finite set of ids are their positions in increasing order: each is below the
/// number of ids, and a smaller id has a smaller rank.
pub proof fn law_rank(ids: Set<u64>, a: u64, b: u64)
    requires
        ids.finite(),
        ids.contains(a),
        ids.contains(b),
    ensures
        rank(ids, a) < ids.len(),
        a < b ==> rank(ids, a) < rank(ids, b),
{
    let fa = ids.filter(|k: u64| k < a);
    let fb = ids.filter(|k: u64| k < b);
    assert(fa.insert(a).subset_of(ids));
    vstd::set_lib::lemma_len_subset(fa.insert(a), ids);
    if a < b {
        assert(fa.insert(a).subset_of(fb));
        vstd::set_lib::lemma_len_subset(fa.insert(a), fb);
    }
}

} // verus!
