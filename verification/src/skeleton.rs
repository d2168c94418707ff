//! The order a model's node hierarchy is posed in: every parent before any of its children, so
//! that one pass over the nodes can build each node's global transform from its parent's.

use vstd::prelude::*;

verus! {

/// How many entries of `s` are set.
pub open spec fn trues(s: Seq<bool>) -> nat
    decreases s.len(),
{
    if s.len() == 0 {
        0
    } else {
        trues(s.drop_last()) + if s.last() {
            1nat
        } else {
            0nat
        }
    }
}

proof fn lemma_trues_bound(s: Seq<bool>)
    ensures
        trues(s) <= s.len(),
    decreases s.len(),
{
    if s.len() > 0 {
        lemma_trues_bound(s.drop_last());
    }
}

proof fn lemma_trues_set(s: Seq<bool>, i: int)
    requires
        0 <= i < s.len(),
        !s[i],
    ensures
        trues(s.update(i, true)) == trues(s) + 1,
    decreases s.len(),
{
    let t = s.update(i, true);
    if i == s.len() - 1 {
        assert(t.drop_last() =~= s.drop_last());
    } else {
        assert(t.drop_last() =~= s.drop_last().update(i, true));
        lemma_trues_set(s.drop_last(), i);
    }
}

/// `order` poses the nodes whose parents are `parents` parents-first: it names nodes, each
/// once, and a node's parent comes before it.
pub open spec fn is_parents_first(parents: Seq<Option<usize>>, order: Seq<usize>) -> bool {
    &&& forall|k: int| 0 <= k < order.len() ==> #[trigger] order[k] < parents.len()
    &&& forall|a: int, b: int| 0 <= a < b < order.len() ==> #[trigger] order[a] != #[trigger] order[b]
    &&& forall|k: int|
        0 <= k < order.len() ==> (parents[#[trigger] order[k] as int] matches Some(p) ==> exists|j: int|
            0 <= j < k && order[j] == p)
}

/// Nothing that could be posed is left out: a node is missing only when its parent is not a
/// node or is itself missing -- which a hierarchy without cycles never does, since every root
/// is posed.
pub open spec fn is_complete(parents: Seq<Option<usize>>, order: Seq<usize>) -> bool {
    forall|i: int|
        0 <= i < parents.len() && !order.contains(i as usize) ==> (#[trigger] parents[i] matches Some(p) && (
        p >= parents.len() || !order.contains(p)))
}

/// A parents-first posing order for nodes whose parents are `parents` (`None` for a root),
/// leaving out only nodes whose parent chain does not reach a root.
pub fn parents_first(parents: &Vec<Option<usize>>) -> (order: Vec<usize>)
    ensures
        is_parents_first(parents@, order@),
        is_complete(parents@, order@),
{
    let n = parents.len();
    let mut placed: Vec<bool> = Vec::new();
    let mut k: usize = 0;
    while k < n
        invariant
            k <= n,
            placed@.len() == k,
            forall|j: int| 0 <= j < k ==> !placed@[j],
        decreases n - k,
    {
        placed.push(false);
        k += 1;
    }
    proof {
        assert(trues(placed@) == 0) by {
            lemma_no_trues(placed@);
        }
    }
    let mut order: Vec<usize> = Vec::new();
    loop
        invariant
            n == parents.len(),
            placed@.len() == n,
            order@.len() == trues(placed@),
            is_parents_first(parents@, order@),
            forall|i: int| 0 <= i < n ==> (placed@[i] <==> order@.contains(i as usize)),
        decreases n - order@.len(),
    {
        proof {
            lemma_trues_bound(placed@);
        }
        let before = order.len();
        let mut i: usize = 0;
        while i < n
            invariant
                n == parents.len(),
                placed@.len() == n,
                i <= n,
                before <= order@.len(),
                order@.len() == trues(placed@),
                is_parents_first(parents@, order@),
                forall|j: int| 0 <= j < n ==> (placed@[j] <==> order@.contains(j as usize)),
                order@.len() == before ==> forall|j: int|
                    0 <= j < i && !placed@[j] ==> (parents@[j] matches Some(p) && (p >= n
                        || !placed@[p as int])),
            decreases n - i,
        {
            let ready = match parents[i] {
                None => true,
                Some(p) => p < n && placed[p],
            };
            if !placed[i] && ready {
                proof {
                    lemma_trues_set(placed@, i as int);
                    if let Some(p) = parents@[i as int] {
                        let j = choose|j: int| 0 <= j < order@.len() && order@[j] == p;
                        assert(order@.push(i)[j] == p);
                    }
                }
                let ghost old_order = order@;
                placed.set(i, true);
                order.push(i);
                proof {
                    assert forall|k: int| 0 <= k < order@.len() implies (parents@[
                    #[trigger] order@[k] as int] matches Some(p) ==> exists|j: int|
                        0 <= j < k && order@[j] == p) by {
                        if k < old_order.len() {
                            assert(order@[k] == old_order[k]);
                            if let Some(p) = parents@[order@[k] as int] {
                                let j = choose|j: int| 0 <= j < k && old_order[j] == p;
                                assert(order@[j] == p);
                            }
                        }
                    }
                    assert forall|a: int, b: int| 0 <= a < b < order@.len() implies #[trigger] order@[a]
                        != #[trigger] order@[b] by {
                        if b == order@.len() - 1 {
                            assert(old_order.contains(order@[a]));
                        }
                    }
                    assert forall|j: int| 0 <= j < n implies (placed@[j] <==> order@.contains(
                        j as usize,
                    )) by {
                        if j == i {
                            assert(order@[order@.len() - 1] == i);
                        } else if order@.contains(j as usize) {
                            let m = choose|m: int| 0 <= m < order@.len() && order@[m] == j as usize;
                            assert(old_order[m] == j as usize);
                        } else {
                            assert forall|m: int| 0 <= m < old_order.len() implies old_order[m]
                                != j as usize by {
                                assert(order@[m] == old_order[m]);
                            }
                        }
                    }
                }
            }
            i += 1;
        }
        proof {
            lemma_trues_bound(placed@);
        }
        if order.len() == before {
            proof {
                assert forall|j: int|
                    0 <= j < parents@.len() && !order@.contains(j as usize) implies (
                #[trigger] parents@[j] matches Some(p) && (p >= parents@.len() || !order@.contains(p))) by {
                    assert(!placed@[j]);
                    if let Some(p) = parents@[j] {
                        if p < n {
                            assert(!placed@[p as int]);
                        }
                    }
                }
            }
            return order;
        }
    }
}

proof fn lemma_no_trues(s: Seq<bool>)
    requires
        forall|j: int| 0 <= j < s.len() ==> !s[j],
    ensures
        trues(s) == 0,
    decreases s.len(),
{
    if s.len() > 0 {
        lemma_no_trues(s.drop_last());
    }
}

} // verus!
