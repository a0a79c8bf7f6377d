use vstd::prelude::*;

verus! {

/// Position `a` goes before position `b` when its key is smaller, or the keys
/// are equal and it came first.
pub open spec fn goes_before(keys: Seq<u128>, a: int, b: int) -> bool {
    keys[a] < keys[b] || (keys[a] == keys[b] && a < b)
}

/// Position `v` occurs somewhere in `order`.
pub open spec fn lists_position(order: Seq<usize>, v: int) -> bool {
    exists|i: int| 0 <= i < order.len() && #[trigger] order[i] == v
}

/// `order` lists every position of `keys` once, sorted by key, equal keys in
/// their input order: the result of a stable sort by key.
pub open spec fn is_stable_order(keys: Seq<u128>, order: Seq<usize>) -> bool {
    &&& order.len() == keys.len()
    &&& forall|i: int| 0 <= i < order.len() ==> #[trigger] order[i] < keys.len()
    &&& forall|v: int| 0 <= v < keys.len() ==> #[trigger] lists_position(order, v)
    &&& forall|i: int, j: int|
        0 <= i < j < order.len() ==> goes_before(keys, #[trigger] order[i] as int, #[trigger] order[j] as int)
}

/// The stable ascending order of the positions of `keys`.
pub open spec fn stable_order_of(keys: Seq<u128>) -> Seq<usize> {
    choose|order: Seq<usize>| is_stable_order(keys, order)
}

/// There is only one stable order for given keys.
pub proof fn lemma_stable_order_unique(keys: Seq<u128>, o1: Seq<usize>, o2: Seq<usize>)
    requires
        is_stable_order(keys, o1),
        is_stable_order(keys, o2),
    ensures
        o1 == o2,
{
    if o1 != o2 {
        assert(!(o1 =~= o2));
        let i = choose|i: int| 0 <= i < o1.len() && o1[i] != o2[i];
        let first = choose|f: int| 0 <= f < o1.len() && o1[f] != o2[f] && forall|g: int| 0 <= g < f ==> o1[g] == o2[g];
        assert(exists|f: int| 0 <= f < o1.len() && o1[f] != o2[f] && forall|g: int| 0 <= g < f ==> o1[g] == o2[g]) by {
            lemma_first_difference(o1, o2, i);
        }
        let a = o1[first];
        let b = o2[first];
        assert(lists_position(o2, a as int));
        assert(lists_position(o1, b as int));
        let ja = choose|j: int| 0 <= j < o2.len() && o2[j] == a as int;
        let jb = choose|j: int| 0 <= j < o1.len() && o1[j] == b as int;
        assert(o2[ja] == a);
        assert(o1[jb] == b);
        if ja < first {
            assert(o1[ja] == o2[ja]);
            assert(goes_before(keys, o1[ja] as int, o1[first] as int));
        }
        if jb < first {
            assert(o1[jb] == o2[jb]);
            assert(goes_before(keys, o2[jb] as int, o2[first] as int));
        }
        assert(ja > first);
        assert(jb > first);
        assert(goes_before(keys, o2[first] as int, o2[ja] as int));
        assert(goes_before(keys, o1[first] as int, o1[jb] as int));
    }
}

proof fn lemma_first_difference(o1: Seq<usize>, o2: Seq<usize>, i: int)
    requires
        0 <= i < o1.len(),
        o1.len() == o2.len(),
        o1[i] != o2[i],
    ensures
        exists|f: int| 0 <= f < o1.len() && o1[f] != o2[f] && forall|g: int| 0 <= g < f ==> o1[g] == o2[g],
    decreases i,
{
    if exists|g: int| 0 <= g < i && o1[g] != o2[g] {
        let g = choose|g: int| 0 <= g < i && o1[g] != o2[g];
        lemma_first_difference(o1, o2, g);
    } else {
        assert(forall|g: int| 0 <= g < i ==> o1[g] == o2[g]);
    }
}

/// The positions of `keys` in stable ascending order of key.
pub fn stable_order(keys: &Vec<u128>) -> (order: Vec<usize>)
    ensures
        is_stable_order(keys@, order@),
        order@ == stable_order_of(keys@),
{
    let n = keys.len();
    let mut order: Vec<usize> = Vec::new();
    let mut j: usize = 0;
    while j < n
        invariant
            n == keys@.len(),
            j <= n,
            order@.len() == j,
            forall|i: int| 0 <= i < order@.len() ==> #[trigger] order@[i] < j,
            forall|v: int| 0 <= v < j ==> #[trigger] lists_position(order@, v),
            forall|a: int, b: int|
                0 <= a < b < order@.len() ==> goes_before(keys@, #[trigger] order@[a] as int, #[trigger] order@[b] as int),
        decreases n - j,
    {
        let kj = keys[j];
        let mut k: usize = 0;
        while k < order.len() && keys[order[k]] <= kj
            invariant
                n == keys@.len(),
                j < n,
                k <= order@.len(),
                forall|i: int| 0 <= i < order@.len() ==> #[trigger] order@[i] < j,
                forall|t: int| 0 <= t < k ==> keys@[#[trigger] order@[t] as int] <= kj,
                kj == keys@[j as int],
            decreases order@.len() - k,
        {
            k = k + 1;
        }
        proof {
            if k < order@.len() {
                assert(keys@[order@[k as int] as int] > kj);
                assert forall|t: int| k <= t < order@.len() implies kj < keys@[#[trigger] order@[t] as int] by {
                    if t > k {
                        assert(goes_before(keys@, order@[k as int] as int, order@[t] as int));
                    }
                }
            }
        }
        let ghost old_order = order@;
        order.insert(k, j);
        proof {
            assert(order@ == old_order.insert(k as int, j));
            assert forall|a: int, b: int|
                0 <= a < b < order@.len() implies goes_before(keys@, #[trigger] order@[a] as int, #[trigger] order@[b] as int) by {
                if b < k {
                    assert(order@[a] == old_order[a] && order@[b] == old_order[b]);
                } else if b == k {
                    assert(order@[a] == old_order[a]);
                    assert(keys@[old_order[a] as int] <= kj);
                } else if a < k {
                    assert(order@[a] == old_order[a] && order@[b] == old_order[b - 1]);
                    assert(goes_before(keys@, old_order[a] as int, old_order[b - 1] as int));
                } else if a == k {
                    assert(order@[b] == old_order[b - 1]);
                    assert(kj < keys@[old_order[b - 1] as int]);
                } else {
                    assert(order@[a] == old_order[a - 1] && order@[b] == old_order[b - 1]);
                }
            }
            assert forall|v: int| 0 <= v < j + 1 implies #[trigger] lists_position(order@, v) by {
                if v == j {
                    assert(order@[k as int] == j);
                } else {
                    assert(lists_position(old_order, v));
                    let i = choose|i: int| 0 <= i < old_order.len() && old_order[i] == v;
                    if i < k {
                        assert(order@[i] == v);
                    } else {
                        assert(order@[i + 1] == v);
                    }
                }
            }
        }
        j = j + 1;
    }
    proof {
        lemma_stable_order_unique(keys@, order@, stable_order_of(keys@));
    }
    order
}

} // verus!
