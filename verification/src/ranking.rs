//! Stable ranking of items by a lexicographic key, greatest key first.

use vstd::prelude::*;

verus! {

/// A ranking key, compared lexicographically.
pub type Key = (int, int, int);

/// `a` is strictly greater than `b` in lexicographic order.
pub open spec fn key_gt(a: Key, b: Key) -> bool {
    ||| a.0 > b.0
    ||| a.0 == b.0 && a.1 > b.1
    ||| a.0 == b.0 && a.1 == b.1 && a.2 > b.2
}

/// The mathematical value of an executable key.
pub open spec fn key_of(k: (i128, i64, i64)) -> Key {
    (k.0 as int, k.1 as int, k.2 as int)
}

/// In a stable ranking of `keys`, greatest first, item `i` comes before
/// item `j`: its key is greater, or the keys are equal and `i` came first.
pub open spec fn ranks_before(keys: Seq<Key>, i: int, j: int) -> bool {
    ||| key_gt(keys[i], keys[j])
    ||| keys[i] == keys[j] && i < j
}

/// `order` lists the indices of `keys` in stable ranking order: each index
/// once, every item before the items it ranks before.
pub open spec fn is_ranking(keys: Seq<Key>, order: Seq<int>) -> bool {
    is_prefix_ranking(keys, order, keys.len() as int)
}

/// `order` lists the first `n` indices of `keys` in stable ranking order.
pub open spec fn is_prefix_ranking(keys: Seq<Key>, order: Seq<int>, n: int) -> bool {
    &&& order.len() == n
    &&& forall|k: int| 0 <= k < order.len() ==> 0 <= #[trigger] order[k] < n
    &&& forall|i: int| 0 <= i < n ==> #[trigger] order.contains(i)
    &&& forall|k: int, l: int|
        0 <= k < l < order.len() ==> ranks_before(keys, #[trigger] order[k], #[trigger] order[l])
}

/// Inserting the next index at the first position whose item it ranks
/// before extends a ranking of a prefix by one.
proof fn lemma_insert_ranked(keys: Seq<Key>, order: Seq<int>, i: int, p: int)
    requires
        0 <= i < keys.len(),
        is_prefix_ranking(keys, order, i),
        0 <= p <= order.len(),
        forall|q: int| 0 <= q < p ==> !key_gt(keys[i], keys[#[trigger] order[q]]),
        p < order.len() ==> key_gt(keys[i], keys[order[p]]),
    ensures
        is_prefix_ranking(keys, order.insert(p, i), i + 1),
{
    let next = order.insert(p, i);
    assert forall|q: int| p <= q < order.len() implies key_gt(keys[i], keys[#[trigger] order[q]]) by {
        if q > p {
            assert(ranks_before(keys, order[p], order[q]));
        }
    }
    assert forall|k: int| 0 <= k < next.len() implies 0 <= #[trigger] next[k] < i + 1 by {
        if k < p {
            assert(next[k] == order[k]);
        } else if k > p {
            assert(next[k] == order[k - 1]);
        }
    }
    assert forall|j: int| 0 <= j < i + 1 implies #[trigger] next.contains(j) by {
        if j == i {
            assert(next[p] == j);
        } else {
            assert(order.contains(j));
            let q = choose|q: int| 0 <= q < order.len() && order[q] == j;
            if q < p {
                assert(next[q] == j);
            } else {
                assert(next[q + 1] == j);
            }
        }
    }
    assert forall|k: int, l: int| 0 <= k < l < next.len() implies ranks_before(
        keys,
        #[trigger] next[k],
        #[trigger] next[l],
    ) by {
        if l < p {
            assert(next[k] == order[k] && next[l] == order[l]);
        } else if l == p {
            assert(next[k] == order[k]);
            assert(!key_gt(keys[i], keys[order[k]]));
        } else if k < p {
            assert(next[k] == order[k] && next[l] == order[l - 1]);
        } else if k == p {
            assert(next[l] == order[l - 1]);
        } else {
            assert(next[k] == order[k - 1] && next[l] == order[l - 1]);
        }
    }
}

/// The first position, from `from` on, whose item index `i` ranks before.
proof fn insert_position(keys: Seq<Key>, order: Seq<int>, i: int, from: int) -> (p: int)
    requires
        0 <= i < keys.len(),
        forall|k: int| 0 <= k < order.len() ==> 0 <= #[trigger] order[k] < keys.len(),
        0 <= from <= order.len(),
        forall|q: int| 0 <= q < from ==> !key_gt(keys[i], keys[#[trigger] order[q]]),
    ensures
        from <= p <= order.len(),
        forall|q: int| 0 <= q < p ==> !key_gt(keys[i], keys[#[trigger] order[q]]),
        p < order.len() ==> key_gt(keys[i], keys[order[p]]),
    decreases order.len() - from,
{
    if from == order.len() || key_gt(keys[i], keys[order[from]]) {
        from
    } else {
        insert_position(keys, order, i, from + 1)
    }
}

/// Every prefix of a list of keys has a stable ranking.
proof fn lemma_prefix_ranking_exists(keys: Seq<Key>, n: int) -> (order: Seq<int>)
    requires
        0 <= n <= keys.len(),
    ensures
        is_prefix_ranking(keys, order, n),
    decreases n,
{
    if n == 0 {
        Seq::empty()
    } else {
        let earlier = lemma_prefix_ranking_exists(keys, n - 1);
        let p = insert_position(keys, earlier, n - 1, 0);
        lemma_insert_ranked(keys, earlier, n - 1, p);
        earlier.insert(p, n - 1)
    }
}

/// Every list of keys has a stable ranking.
pub proof fn lemma_ranking_exists(keys: Seq<Key>)
    ensures
        exists|order: Seq<int>| is_ranking(keys, order),
{
    let order = lemma_prefix_ranking_exists(keys, keys.len() as int);
    assert(is_ranking(keys, order));
}

/// Compares two executable keys.
pub fn key_outranks(a: (i128, i64, i64), b: (i128, i64, i64)) -> (r: bool)
    ensures
        r == key_gt(key_of(a), key_of(b)),
{
    if a.0 != b.0 {
        a.0 > b.0
    } else if a.1 != b.1 {
        a.1 > b.1
    } else {
        a.2 > b.2
    }
}

/// The indices of `keys` in stable ranking order, greatest key first.
pub fn ranking_order(keys: &Vec<(i128, i64, i64)>) -> (order: Vec<usize>)
    ensures
        is_ranking(keys@.map_values(|k: (i128, i64, i64)| key_of(k)), order@.map_values(|i: usize| i as int)),
{
    let ghost ks = keys@.map_values(|k: (i128, i64, i64)| key_of(k));
    let n = keys.len();
    let mut order: Vec<usize> = Vec::new();
    proof {
        assert(order@.map_values(|i: usize| i as int) =~= Seq::<int>::empty());
    }
    for i in 0..n
        invariant
            n == keys.len(),
            ks == keys@.map_values(|k: (i128, i64, i64)| key_of(k)),
            is_prefix_ranking(ks, order@.map_values(|i: usize| i as int), i as int),
    {
        let ghost o = order@.map_values(|i: usize| i as int);
        proof {
            assert forall|k: int| 0 <= k < order.len() implies #[trigger] order@[k] < i by {
                assert(o[k] == order@[k] as int);
            }
        }
        let mut p: usize = 0;
        while p < order.len() && !key_outranks(keys[i], keys[order[p]])
            invariant
                n == keys.len(),
                i < n,
                ks == keys@.map_values(|k: (i128, i64, i64)| key_of(k)),
                o == order@.map_values(|i: usize| i as int),
                is_prefix_ranking(ks, o, i as int),
                p <= order.len(),
                forall|k: int| 0 <= k < order.len() ==> #[trigger] order@[k] < i,
                forall|q: int| 0 <= q < p ==> !key_gt(ks[i as int], ks[#[trigger] o[q]]),
            decreases order.len() - p,
        {
            p = p + 1;
        }
        proof {
            lemma_insert_ranked(ks, o, i as int, p as int);
        }
        order.insert(p, i);
        proof {
            assert(order@.map_values(|i: usize| i as int) =~= o.insert(p as int, i as int));
        }
    }
    order
}

/// A stable ranking is determined by the keys: two rankings of the same
/// keys are the same sequence.
pub proof fn lemma_ranking_unique(keys: Seq<Key>, a: Seq<int>, b: Seq<int>)
    requires
        is_ranking(keys, a),
        is_ranking(keys, b),
    ensures
        a == b,
{
    assert forall|k: int| 0 <= k < a.len() implies a[k] == b[k] by {
        lemma_ranking_agree_upto(keys, a, b, k);
    }
    assert(a =~= b);
}

proof fn lemma_ranking_agree_upto(keys: Seq<Key>, a: Seq<int>, b: Seq<int>, k: int)
    requires
        is_ranking(keys, a),
        is_ranking(keys, b),
        0 <= k < a.len(),
    ensures
        forall|j: int| 0 <= j <= k ==> a[j] == b[j],
    decreases k,
{
    if k > 0 {
        lemma_ranking_agree_upto(keys, a, b, k - 1);
    }
    if a[k] != b[k] {
        let x = a[k];
        let y = b[k];
        assert(b.contains(x));
        let l = choose|l: int| 0 <= l < b.len() && b[l] == x;
        assert(a.contains(y));
        let m = choose|m: int| 0 <= m < a.len() && a[m] == y;
        if l < k {
            assert(b[l] == a[l]);
            assert(ranks_before(keys, a[l], a[k]));
        }
        if m < k {
            assert(a[m] == b[m]);
            assert(ranks_before(keys, b[m], b[k]));
        }
        assert(ranks_before(keys, y, x));
        assert(ranks_before(keys, x, y));
        assert(false);
    }
}

} // verus!
