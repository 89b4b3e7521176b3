//! Stable sorting by integer keys, described by the order in which positions
//! come out.
use vstd::prelude::*;
use vstd::set_lib::{lemma_int_range, lemma_len_subset, lemma_subset_equality, set_int_range};

verus! {

/// The keys as mathematical integers.
pub open spec fn int_keys(keys: Seq<i128>) -> Seq<int> {
    Seq::new(keys.len(), |i: int| keys[i] as int)
}

/// `order` lists the positions of `keys` sorted by key, equal keys in their
/// original order: what a stable sort by key does.
pub open spec fn is_stable_order(order: Seq<usize>, keys: Seq<int>) -> bool {
    &&& order.len() == keys.len()
    &&& forall|i: int| 0 <= i < order.len() ==> #[trigger] order[i] < keys.len()
    &&& forall|i: int, j: int|
        0 <= i < j < order.len() ==> #[trigger] before(keys, order[i] as int, order[j] as int)
}

/// Position `a` comes before position `b` in a stable sort by `keys`.
pub open spec fn before(keys: Seq<int>, a: int, b: int) -> bool {
    keys[a] < keys[b] || (keys[a] == keys[b] && a < b)
}

/// `s` reordered by `order`.
pub open spec fn reorder<T>(s: Seq<T>, order: Seq<usize>) -> Seq<T> {
    Seq::new(order.len(), |i: int| s[order[i] as int])
}

/// Positions sorted stably by key.
pub fn stable_order(keys: &Vec<i128>) -> (order: Vec<usize>)
    ensures
        is_stable_order(order@, int_keys(keys@)),
{
    let mut order: Vec<usize> = Vec::new();
    let mut i: usize = 0;
    while i < keys.len()
        invariant
            0 <= i <= keys@.len(),
            order@.len() == i,
            forall|k: int| 0 <= k < order@.len() ==> #[trigger] order@[k] < i,
            forall|a: int, b: int|
                0 <= a < b < order@.len() ==> #[trigger] before(int_keys(keys@), order@[a] as int, order@[b] as int),
        decreases keys@.len() - i,
    {
        let mut p: usize = 0;
        while p < order.len() && keys[order[p]] <= keys[i]
            invariant
                0 <= p <= order@.len(),
                i < keys@.len(),
                forall|k: int| 0 <= k < order@.len() ==> #[trigger] order@[k] < i,
                forall|q: int| 0 <= q < p ==> keys@[#[trigger] order@[q] as int] <= keys@[i as int],
            decreases order@.len() - p,
        {
            p = p + 1;
        }
        let ghost old_order = order@;
        order.insert(p, i);
        proof {
            assert forall|a: int, b: int|
                0 <= a < b < order@.len() implies #[trigger] before(int_keys(keys@), order@[a] as int, order@[b] as int) by {
                if b < p {
                    assert(order@[a] == old_order[a] && order@[b] == old_order[b]);
                } else if b == p {
                    assert(keys@[old_order[a] as int] <= keys@[i as int]);
                } else if a < p {
                    assert(order@[a] == old_order[a] && order@[b] == old_order[b - 1]);
                } else if a == p {
                    assert(p < old_order.len());
                    assert(keys@[old_order[p as int] as int] > keys@[i as int]);
                    if b - 1 > p {
                        assert(before(int_keys(keys@), old_order[p as int] as int, old_order[b - 1] as int));
                    }
                } else {
                    assert(order@[a] == old_order[a - 1] && order@[b] == old_order[b - 1]);
                }
            }
        }
        i = i + 1;
    }
    order
}

/// `v` reordered by `order`.
pub fn apply_order<T: Copy>(v: &Vec<T>, order: &Vec<usize>) -> (res: Vec<T>)
    requires
        forall|i: int| 0 <= i < order@.len() ==> #[trigger] order@[i] < v@.len(),
    ensures
        res@ == reorder(v@, order@),
{
    let mut res: Vec<T> = Vec::new();
    let mut i: usize = 0;
    while i < order.len()
        invariant
            0 <= i <= order@.len(),
            forall|k: int| 0 <= k < order@.len() ==> #[trigger] order@[k] < v@.len(),
            res@ == reorder(v@, order@.take(i as int)),
        decreases order@.len() - i,
    {
        res.push(v[order[i]]);
        i = i + 1;
        assert(res@ =~= reorder(v@, order@.take(i as int)));
    }
    assert(order@.take(i as int) =~= order@);
    res
}


/// The positions a stable order lists are all different.
pub proof fn lemma_stable_order_distinct(order: Seq<usize>, keys: Seq<int>)
    requires
        is_stable_order(order, keys),
    ensures
        forall|i: int, j: int| 0 <= i < j < order.len() ==> order[i] != order[j],
{
    assert forall|i: int, j: int| 0 <= i < j < order.len() implies order[i] != order[j] by {
        assert(before(keys, order[i] as int, order[j] as int));
    }
}

/// `v` reordered by `order`, moving the items.
pub fn apply_order_move<T>(v: Vec<T>, order: &Vec<usize>) -> (res: Vec<T>)
    requires
        forall|i: int| 0 <= i < order@.len() ==> #[trigger] order@[i] < v@.len(),
        forall|i: int, j: int| 0 <= i < j < order@.len() ==> order@[i] != order@[j],
    ensures
        res@ == reorder(v@, order@),
{
    let ghost orig = v@;
    let mut slots: Vec<Option<T>> = Vec::new();
    let mut v = v;
    let mut k: usize = 0;
    let n = v.len();
    while v.len() > 0
        invariant
            v@.len() + slots@.len() == n,
            n == orig.len(),
            forall|j: int| 0 <= j < v@.len() ==> v@[j] == orig[j],
            forall|j: int| 0 <= j < slots@.len() ==> #[trigger] slots@[j] == Some(orig[n - 1 - j]),
        decreases v@.len(),
    {
        let item = v.pop().unwrap();
        slots.push(Some(item));
    }
    // slots holds the items backwards; position p of v is at n - 1 - p
    let mut res: Vec<T> = Vec::new();
    let mut i: usize = 0;
    while i < order.len()
        invariant
            0 <= i <= order@.len(),
            slots@.len() == n,
            n == orig.len(),
            forall|q: int| 0 <= q < order@.len() ==> #[trigger] order@[q] < n,
            forall|a: int, b: int| 0 <= a < b < order@.len() ==> order@[a] != order@[b],
            forall|q: int| i <= q < order@.len() ==> #[trigger] slots@[n - 1 - order@[q]] == Some(orig[order@[q] as int]),
            res@ == reorder(orig, order@.take(i as int)),
        decreases order@.len() - i,
    {
        assert(order@[i as int] < n);
        let pos = n - 1 - order[i];
        let ghost before_slots = slots@;
        let taken = slots[pos].take();
        proof {
            assert forall|q: int| i + 1 <= q < order@.len() implies #[trigger] slots@[n - 1 - order@[q]] == Some(orig[order@[q] as int]) by {
                assert(order@[q] != order@[i as int]);
                assert(before_slots[n - 1 - order@[q]] == Some(orig[order@[q] as int]));
            }
        }
        res.push(taken.unwrap());
        i = i + 1;
        assert(res@ =~= reorder(orig, order@.take(i as int)));
    }
    assert(order@.take(i as int) =~= order@);
    res
}

/// A stable order lists every position of the keys.
pub proof fn lemma_stable_order_covers(order: Seq<usize>, keys: Seq<int>, k: int)
    requires
        is_stable_order(order, keys),
        0 <= k < keys.len(),
    ensures
        exists|i: int| 0 <= i < order.len() && order[i] == k,
{
    lemma_stable_order_distinct(order, keys);
    let s = order.map_values(|x: usize| x as int);
    assert(s.no_duplicates()) by {
        assert forall|i: int, j: int| 0 <= i < s.len() && 0 <= j < s.len() && i != j implies s[i] != s[j] by {
            if i < j {
                assert(order[i] != order[j]);
            } else {
                assert(order[j] != order[i]);
            }
        }
    }
    s.unique_seq_to_set();
    let range = set_int_range(0, keys.len() as int);
    lemma_int_range(0, keys.len() as int);
    assert(s.to_set().subset_of(range)) by {
        assert forall|x: int| s.to_set().contains(x) implies range.contains(x) by {
            let i = choose|i: int| 0 <= i < s.len() && s[i] == x;
            assert(order[i] < keys.len());
        }
    }
    lemma_len_subset(s.to_set(), range);
    lemma_subset_equality(s.to_set(), range);
    assert(range.contains(k));
    assert(s.to_set().contains(k));
    let i = choose|i: int| 0 <= i < s.len() && s[i] == k;
    assert(order[i] == k);
}

/// Listing the positions in a stable order sorts them by key.
pub proof fn law_stable_order_sorts(order: Seq<usize>, keys: Seq<int>)
    requires
        is_stable_order(order, keys),
    ensures
        forall|i: int, j: int| 0 <= i < j < order.len() ==> keys[order[i] as int] <= keys[order[j] as int],
{
    assert forall|i: int, j: int| 0 <= i < j < order.len() implies keys[order[i] as int] <= keys[order[j] as int] by {
        assert(before(keys, order[i] as int, order[j] as int));
    }
}

/// Position `a` comes before position `b` when sorting by `k2` and, among
/// equal `k2`, by `k1`, positions equal in both keeping their order.
pub open spec fn before_lex(k2: Seq<int>, k1: Seq<int>, a: int, b: int) -> bool {
    k2[a] < k2[b] || (k2[a] == k2[b] && before(k1, a, b))
}

/// `order` lists the positions sorted by `k2` and, among equal `k2`, by
/// `k1`, positions equal in both in their original order.
pub open spec fn is_lex_order(order: Seq<usize>, k2: Seq<int>, k1: Seq<int>) -> bool {
    &&& order.len() == k2.len()
    &&& forall|i: int| 0 <= i < order.len() ==> #[trigger] order[i] < k2.len()
    &&& forall|i: int, j: int|
        0 <= i < j < order.len() ==> #[trigger] before_lex(k2, k1, order[i] as int, order[j] as int)
}

/// Two stable sorts in a row, first by `k1`, then by `k2`: the result is `s`
/// sorted by `k2` and, among equal `k2`, by `k1`, with items equal in both
/// keys in their original order.
pub proof fn law_two_stable_sorts<T>(s: Seq<T>, k1: Seq<int>, k2: Seq<int>, o1: Seq<usize>, o2: Seq<usize>)
    requires
        k1.len() == s.len(),
        k2.len() == s.len(),
        is_stable_order(o1, k1),
        is_stable_order(o2, reorder(k2, o1)),
    ensures
        reorder(reorder(s, o1), o2) == reorder(s, reorder(o1, o2)),
        is_lex_order(reorder(o1, o2), k2, k1),
{
    let o = reorder(o1, o2);
    assert(reorder(reorder(s, o1), o2) =~= reorder(s, o));
    assert forall|i: int| 0 <= i < o.len() implies #[trigger] o[i] < k2.len() by {
        assert(o2[i] < o1.len());
    }
    assert forall|i: int, j: int| 0 <= i < j < o.len() implies #[trigger] before_lex(
        k2,
        k1,
        o[i] as int,
        o[j] as int,
    ) by {
        let a = o2[i] as int;
        let b = o2[j] as int;
        assert(before(reorder(k2, o1), a, b));
        if a < b {
            assert(before(k1, o1[a] as int, o1[b] as int));
        }
    }
}

} // verus!
