use vstd::prelude::*;
use vstd::string::*;

verus! {

/// `a` comes before `b` in lexicographic order of characters (a proper
/// prefix comes first). For UTF-8 text this is also the byte order that
/// `String`'s `Ord` uses.
pub open spec fn text_lt(a: Seq<char>, b: Seq<char>) -> bool
    decreases a.len(),
{
    if a.len() == 0 {
        b.len() > 0
    } else if b.len() == 0 {
        false
    } else if a[0] != b[0] {
        (a[0] as u32) < (b[0] as u32)
    } else {
        text_lt(a.drop_first(), b.drop_first())
    }
}

/// Lexicographic order is transitive.
pub proof fn lemma_text_lt_transitive(a: Seq<char>, b: Seq<char>, c: Seq<char>)
    requires
        text_lt(a, b),
        text_lt(b, c),
    ensures
        text_lt(a, c),
    decreases a.len(),
{
    if a.len() > 0 && b.len() > 0 && c.len() > 0 && a[0] == b[0] && b[0] == c[0] {
        lemma_text_lt_transitive(a.drop_first(), b.drop_first(), c.drop_first());
    }
}

/// No text comes before itself.
pub proof fn lemma_text_lt_irreflexive(a: Seq<char>)
    ensures
        !text_lt(a, a),
    decreases a.len(),
{
    if a.len() > 0 {
        lemma_text_lt_irreflexive(a.drop_first());
    }
}

/// Of two texts, exactly one comes first, unless they are equal.
pub proof fn lemma_text_lt_total(a: Seq<char>, b: Seq<char>)
    ensures
        a == b || text_lt(a, b) || text_lt(b, a),
        !(text_lt(a, b) && text_lt(b, a)),
        !text_lt(a, a),
    decreases a.len(),
{
    lemma_text_lt_irreflexive(a);
    if a.len() > 0 && b.len() > 0 {
        lemma_text_lt_total(a.drop_first(), b.drop_first());
        if a[0] != b[0] {
            vstd::utf8::char_u32_cast(a[0], a[0] as u32);
            vstd::utf8::char_u32_cast(b[0], b[0] as u32);
        }
        if a[0] == b[0] && a.drop_first() == b.drop_first() {
            assert forall|i: int| 0 <= i < a.len() implies a[i] == b[i] by {
                if i > 0 {
                    assert(a[i] == a.drop_first()[i - 1]);
                    assert(b[i] == b.drop_first()[i - 1]);
                }
            }
            assert(a =~= b);
        }
    } else if a.len() == 0 && b.len() == 0 {
        assert(a =~= b);
    }
}

/// Whether `a` comes before `b`.
pub fn text_less(a: &str, b: &str) -> (r: bool)
    ensures
        r == text_lt(a@, b@),
{
    let n = a.unicode_len();
    let m = b.unicode_len();
    let mut i: usize = 0;
    assert(a@.skip(0) =~= a@);
    assert(b@.skip(0) =~= b@);
    while i < n && i < m && a.get_char(i) == b.get_char(i)
        invariant
            n == a@.len(),
            m == b@.len(),
            i <= n,
            i <= m,
            text_lt(a@, b@) == text_lt(a@.skip(i as int), b@.skip(i as int)),
        decreases n - i,
    {
        proof {
            let x = a@.skip(i as int);
            let y = b@.skip(i as int);
            assert(x[0] == a@[i as int]);
            assert(y[0] == b@[i as int]);
            assert(x.drop_first() =~= a@.skip(i + 1));
            assert(y.drop_first() =~= b@.skip(i + 1));
        }
        i = i + 1;
    }
    proof {
        let x = a@.skip(i as int);
        let y = b@.skip(i as int);
        if i < n && i < m {
            assert(x[0] == a@[i as int]);
            assert(y[0] == b@[i as int]);
        }
    }
    if i < n && i < m {
        (a.get_char(i) as u32) < (b.get_char(i) as u32)
    } else {
        i == n && i < m
    }
}

/// The sort key of a language server task: tasks with a location first, then by label.
pub open spec fn key_lt(a: (bool, Seq<char>), b: (bool, Seq<char>)) -> bool {
    (!a.0 && b.0) || (a.0 == b.0 && text_lt(a.1, b.1))
}

/// Position `x` goes before position `y`: by key, equal keys in input order.
pub open spec fn labelled_before(keys: Seq<(bool, Seq<char>)>, x: int, y: int) -> bool {
    key_lt(keys[x], keys[y]) || (keys[x] == keys[y] && x < y)
}

/// `order` is the stable sort of the positions of `keys`.
pub open spec fn is_labelled_order(keys: Seq<(bool, Seq<char>)>, order: Seq<usize>) -> bool {
    &&& order.len() == keys.len()
    &&& forall|i: int| 0 <= i < order.len() ==> #[trigger] order[i] < keys.len()
    &&& forall|v: int| 0 <= v < keys.len() ==> #[trigger] crate::ordering::lists_position(order, v)
    &&& forall|i: int, j: int|
        0 <= i < j < order.len() ==> labelled_before(keys, #[trigger] order[i] as int, #[trigger] order[j] as int)
}

proof fn lemma_key_total(a: (bool, Seq<char>), b: (bool, Seq<char>))
    ensures
        a == b || key_lt(a, b) || key_lt(b, a),
        !(key_lt(a, b) && key_lt(b, a)),
        !key_lt(a, a),
{
    lemma_text_lt_total(a.1, b.1);
    lemma_text_lt_total(a.1, a.1);
}

/// No key comes before itself.
pub proof fn lemma_key_irreflexive(a: (bool, Seq<char>))
    ensures
        !key_lt(a, a),
{
    lemma_text_lt_irreflexive(a.1);
}

proof fn lemma_key_transitive(a: (bool, Seq<char>), b: (bool, Seq<char>), c: (bool, Seq<char>))
    requires
        key_lt(a, b) || a == b,
        key_lt(b, c) || b == c,
    ensures
        key_lt(a, c) || a == c,
{
    if a.0 == b.0 && b.0 == c.0 && text_lt(a.1, b.1) && text_lt(b.1, c.1) {
        lemma_text_lt_transitive(a.1, b.1, c.1);
    }
}

/// The positions of `keys`, sorted stably by key.
pub fn labelled_order(flags: &Vec<bool>, labels: &Vec<String>) -> (order: Vec<usize>)
    requires
        flags@.len() == labels@.len(),
    ensures
        is_labelled_order(
            Seq::new(flags@.len(), |i: int| (flags@[i], labels@[i]@)),
            order@,
        ),
        order@ == labelled_order_of(Seq::new(flags@.len(), |i: int| (flags@[i], labels@[i]@))),
{
    let ghost keys = Seq::new(flags@.len(), |i: int| (flags@[i], labels@[i]@));
    let n = flags.len();
    let mut order: Vec<usize> = Vec::new();
    let mut j: usize = 0;
    while j < n
        invariant
            n == flags@.len(),
            n == labels@.len(),
            keys == Seq::new(flags@.len(), |i: int| (flags@[i], labels@[i]@)),
            j <= n,
            order@.len() == j,
            forall|i: int| 0 <= i < order@.len() ==> #[trigger] order@[i] < j,
            forall|v: int| 0 <= v < j ==> #[trigger] crate::ordering::lists_position(order@, v),
            forall|a: int, b: int|
                0 <= a < b < order@.len() ==> labelled_before(keys, #[trigger] order@[a] as int, #[trigger] order@[b] as int),
        decreases n - j,
    {
        let mut k: usize = 0;
        while k < order.len() && !(
            (!flags[j] && flags[order[k]]) || (flags[j] == flags[order[k]] && text_less(labels[j].as_str(), labels[order[k]].as_str())))
            invariant
                n == flags@.len(),
                n == labels@.len(),
                keys == Seq::new(flags@.len(), |i: int| (flags@[i], labels@[i]@)),
                j < n,
                k <= order@.len(),
                forall|i: int| 0 <= i < order@.len() ==> #[trigger] order@[i] < j,
                forall|t: int| 0 <= t < k ==> !key_lt(keys[j as int], keys[#[trigger] order@[t] as int]),
            decreases order@.len() - k,
        {
            k = k + 1;
        }
        proof {
            if k < order@.len() {
                assert(key_lt(keys[j as int], keys[order@[k as int] as int]));
                assert forall|t: int| k <= t < order@.len() implies key_lt(keys[j as int], keys[#[trigger] order@[t] as int]) by {
                    if t > k {
                        assert(labelled_before(keys, order@[k as int] as int, order@[t] as int));
                        lemma_key_transitive(keys[j as int], keys[order@[k as int] as int], keys[order@[t] as int]);
                        lemma_key_total(keys[j as int], keys[order@[t] as int]);
                        if keys[j as int] == keys[order@[t] as int] {
                            lemma_key_total(keys[order@[k as int] as int], keys[order@[t] as int]);
                        }
                    }
                }
            }
        }
        let ghost old_order = order@;
        order.insert(k, j);
        proof {
            assert(order@ == old_order.insert(k as int, j));
            assert forall|a: int, b: int|
                0 <= a < b < order@.len() implies labelled_before(keys, #[trigger] order@[a] as int, #[trigger] order@[b] as int) by {
                if b < k {
                    assert(order@[a] == old_order[a] && order@[b] == old_order[b]);
                } else if b == k {
                    assert(order@[a] == old_order[a]);
                    lemma_key_total(keys[old_order[a] as int], keys[j as int]);
                } else if a < k {
                    assert(order@[a] == old_order[a] && order@[b] == old_order[b - 1]);
                } else if a == k {
                    assert(order@[b] == old_order[b - 1]);
                } else {
                    assert(order@[a] == old_order[a - 1] && order@[b] == old_order[b - 1]);
                }
            }
            assert forall|v: int| 0 <= v < j + 1 implies #[trigger] crate::ordering::lists_position(order@, v) by {
                if v == j {
                    assert(order@[k as int] == j);
                } else {
                    assert(crate::ordering::lists_position(old_order, v));
                    let i = choose|i: int| 0 <= i < old_order.len() && old_order[i] == v;
                    if i < k {
                        assert(order@[i] == v);
                    } else {
                        assert(order@[i + 1] == v);
                    }
                }
            }
        }
        j = j + 1;
    }
    proof {
        assert(is_labelled_order(keys, order@));
        lemma_labelled_order_unique(keys, order@, labelled_order_of(keys));
    }
    order
}


/// The stable order by key of the positions of `keys`.
pub open spec fn labelled_order_of(keys: Seq<(bool, Seq<char>)>) -> Seq<usize> {
    choose|order: Seq<usize>| is_labelled_order(keys, order)
}

proof fn lemma_labelled_asymmetric(keys: Seq<(bool, Seq<char>)>, x: int, y: int)
    requires
        0 <= x < keys.len(),
        0 <= y < keys.len(),
        labelled_before(keys, x, y),
    ensures
        !labelled_before(keys, y, x),
{
    lemma_key_total(keys[x], keys[y]);
}

/// There is only one stable order by key.
pub proof fn lemma_labelled_order_unique(keys: Seq<(bool, Seq<char>)>, o1: Seq<usize>, o2: Seq<usize>)
    requires
        is_labelled_order(keys, o1),
        is_labelled_order(keys, o2),
    ensures
        o1 == o2,
{
    if o1 != o2 {
        assert(!(o1 =~= o2));
        let i = choose|i: int| 0 <= i < o1.len() && o1[i] != o2[i];
        assert(exists|f: int| 0 <= f < o1.len() && o1[f] != o2[f] && forall|g: int| 0 <= g < f ==> o1[g] == o2[g]) by {
            lemma_first_difference(o1, o2, i);
        }
        let first = choose|f: int| 0 <= f < o1.len() && o1[f] != o2[f] && forall|g: int| 0 <= g < f ==> o1[g] == o2[g];
        let a = o1[first];
        let b = o2[first];
        assert(crate::ordering::lists_position(o2, a as int));
        assert(crate::ordering::lists_position(o1, b as int));
        let ja = choose|j: int| 0 <= j < o2.len() && o2[j] == a as int;
        let jb = choose|j: int| 0 <= j < o1.len() && o1[j] == b as int;
        if ja < first {
            assert(o1[ja] == o2[ja]);
            assert(labelled_before(keys, o1[ja] as int, o1[first] as int));
            lemma_labelled_asymmetric(keys, o1[ja] as int, o1[first] as int);
        }
        if jb < first {
            assert(o1[jb] == o2[jb]);
            assert(labelled_before(keys, o2[jb] as int, o2[first] as int));
            lemma_labelled_asymmetric(keys, o2[jb] as int, o2[first] as int);
        }
        assert(labelled_before(keys, o2[first] as int, o2[ja] as int));
        assert(labelled_before(keys, o1[first] as int, o1[jb] as int));
        lemma_labelled_asymmetric(keys, b as int, a as int);
    }
}

proof fn lemma_first_difference(o1: Seq<usize>, o2: Seq<usize>, i: int)
    requires
        0 <= i < o1.len(),
        o1.len() == o2.len(),
        o1[i] != o2[i],
    ensures
        exists|f: int| 0 <= f < o1.len() && o1[f] != o2[f] && forall|g: int| 0 <= g < f ==> o1[g] == o2[g],
    decreases i,
{
    if exists|g: int| 0 <= g < i && o1[g] != o2[g] {
        let g = choose|g: int| 0 <= g < i && o1[g] != o2[g];
        lemma_first_difference(o1, o2, g);
    }
}

} // verus!
