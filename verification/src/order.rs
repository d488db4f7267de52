//! Stable ordering of sequences by a key: the order std's stable
//! `sort_by_key` produces, computed as a permutation of indices.

use vstd::prelude::*;
use crate::text::{lex_le};

verus! {

/// A key with a total preorder, usable for stable sorting.
pub trait SortKey: Sized {
    /// `self` may come before `other`.
    spec fn key_le(self, other: Self) -> bool;

    proof fn lemma_total(a: Self, b: Self)
        ensures
            a.key_le(b) || b.key_le(a),
    ;

    proof fn lemma_trans(a: Self, b: Self, c: Self)
        requires
            a.key_le(b),
            b.key_le(c),
        ensures
            a.key_le(c),
    ;

    fn le(&self, other: &Self) -> (r: bool)
        ensures
            r == self.key_le(*other),
    ;
}

impl SortKey for u64 {
    open spec fn key_le(self, other: Self) -> bool {
        self <= other
    }

    proof fn lemma_total(a: Self, b: Self) {
    }

    proof fn lemma_trans(a: Self, b: Self, c: Self) {
    }

    fn le(&self, other: &Self) -> (r: bool) {
        *self <= *other
    }
}

impl SortKey for String {
    open spec fn key_le(self, other: Self) -> bool {
        lex_le(self@, other@)
    }

    proof fn lemma_total(a: Self, b: Self) {
        crate::text::lemma_lex_total(a@, b@);
    }

    proof fn lemma_trans(a: Self, b: Self, c: Self) {
        crate::text::lemma_lex_trans(a@, b@, c@);
    }

    fn le(&self, other: &Self) -> (r: bool) {
        crate::text::lex_le_str(self.as_str(), other.as_str())
    }
}

/// `p` lists each index below `n` exactly once.
pub open spec fn is_index_permutation(p: Seq<usize>, n: nat) -> bool {
    &&& p.len() == n
    &&& forall|i: int| 0 <= i < p.len() ==> #[trigger] p[i] < n
    &&& forall|i: int, j: int| 0 <= i < p.len() && 0 <= j < p.len() && i != j ==> p[i] != p[j]
    &&& forall|k: int| 0 <= k < n ==> #[trigger] p.contains(k as usize)
}

/// Reading `keys` in the order `p` gives non-decreasing keys.
pub open spec fn ordered_by<K: SortKey>(keys: Seq<K>, p: Seq<usize>) -> bool {
    forall|i: int, j: int|
        0 <= i < j < p.len() ==> #[trigger] keys[p[i] as int].key_le(#[trigger] keys[p[j] as int])
}

/// Indices whose keys are equivalent keep their original relative order.
pub open spec fn keeps_ties<K: SortKey>(keys: Seq<K>, p: Seq<usize>) -> bool {
    forall|i: int, j: int|
        0 <= i < j < p.len() && #[trigger] keys[p[j] as int].key_le(#[trigger] keys[p[i] as int])
            ==> p[i] < p[j]
}

/// `p` is the stable sorting permutation of `keys`.
pub open spec fn stable_sort_of<K: SortKey>(keys: Seq<K>, p: Seq<usize>) -> bool {
    &&& is_index_permutation(p, keys.len())
    &&& ordered_by(keys, p)
    &&& keeps_ties(keys, p)
}

/// The permutation of indices that sorts `keys` stably: the positions the
/// elements take under std's `sort_by_key`.
pub fn stable_order<K: SortKey>(keys: &Vec<K>) -> (p: Vec<usize>)
    ensures
        stable_sort_of(keys@, p@),
{
    let n = keys.len();
    let mut p: Vec<usize> = Vec::new();
    let mut i: usize = 0;
    while i < n
        invariant
            n == keys@.len(),
            i <= n,
            is_index_permutation(p@, i as nat),
            ordered_by(keys@, p@),
            keeps_ties(keys@, p@),
        decreases n - i,
    {
        // First position whose key is strictly above keys[i].
        let mut pos: usize = 0;
        while pos < p.len() && keys[p[pos]].le(&keys[i])
            invariant
                n == keys@.len(),
                i < n,
                pos <= p@.len(),
                is_index_permutation(p@, i as nat),
                forall|j: int| 0 <= j < pos ==> #[trigger] keys@[p@[j] as int].key_le(keys@[i as int]),
            decreases p@.len() - pos,
        {
            pos = pos + 1;
        }
        let ghost old_p = p@;
        proof {
            lemma_insert_sorted(keys@, old_p, pos as int, i as int);
        }
        p.insert(pos, i);
        assert(p@ == old_p.insert(pos as int, i));
        i = i + 1;
    }
    p
}

/// Inserting index `i` just before the first entry that sorts strictly
/// after it keeps a stable sort of the first `i` indices stable.
proof fn lemma_insert_sorted<K: SortKey>(keys: Seq<K>, old_p: Seq<usize>, pos: int, i: int)
    requires
        0 <= i < keys.len() <= usize::MAX,
        is_index_permutation(old_p, i as nat),
        ordered_by(keys, old_p),
        keeps_ties(keys, old_p),
        0 <= pos <= old_p.len(),
        forall|j: int| 0 <= j < pos ==> #[trigger] keys[old_p[j] as int].key_le(keys[i]),
        pos < old_p.len() ==> !keys[old_p[pos] as int].key_le(keys[i]),
    ensures
        is_index_permutation(old_p.insert(pos, i as usize), (i + 1) as nat),
        ordered_by(keys, old_p.insert(pos, i as usize)),
        keeps_ties(keys, old_p.insert(pos, i as usize)),
{
    // Everything from `pos` on sorts strictly after keys[i].
    assert forall|j: int| pos <= j < old_p.len() implies !#[trigger] keys[old_p[j] as int].key_le(
        keys[i],
    ) by {
        if keys[old_p[j] as int].key_le(keys[i]) {
            if pos < j {
                assert(keys[old_p[pos] as int].key_le(keys[old_p[j] as int]));
                K::lemma_trans(keys[old_p[pos] as int], keys[old_p[j] as int], keys[i]);
            }
        }
    }
    let q = old_p.insert(pos, i as usize);
    assert forall|k: int| 0 <= k < i + 1 implies #[trigger] q.contains(k as usize) by {
        if k == i {
            assert(q[pos] == i);
        } else {
            assert(old_p.contains(k as usize));
            let a = choose|a: int| 0 <= a < old_p.len() && old_p[a] == k as usize;
            if a < pos {
                assert(q[a] == old_p[a]);
            } else {
                assert(q[a + 1] == old_p[a]);
            }
        }
    }
    assert forall|a: int| 0 <= a < q.len() implies #[trigger] q[a] < i + 1 by {
        if a < pos {
            assert(q[a] == old_p[a]);
        } else if a > pos {
            assert(q[a] == old_p[a - 1]);
        }
    }
    assert forall|a: int, b: int| 0 <= a < q.len() && 0 <= b < q.len() && a != b implies q[a] != q[b] by {
        if a != pos && b != pos {
            let a0 = if a < pos { a } else { a - 1 };
            let b0 = if b < pos { b } else { b - 1 };
            assert(q[a] == old_p[a0]);
            assert(q[b] == old_p[b0]);
        } else if a == pos {
            let b0 = if b < pos { b } else { b - 1 };
            assert(q[b] == old_p[b0]);
            assert(old_p[b0] < i);
        } else {
            let a0 = if a < pos { a } else { a - 1 };
            assert(q[a] == old_p[a0]);
            assert(old_p[a0] < i);
        }
    }
    assert forall|a: int, b: int| 0 <= a < b < q.len() implies #[trigger] keys[q[a] as int].key_le(
        #[trigger] keys[q[b] as int],
    ) by {
        if a < pos && b < pos {
            assert(q[a] == old_p[a] && q[b] == old_p[b]);
        } else if a < pos && b == pos {
            assert(q[a] == old_p[a]);
        } else if a < pos && b > pos {
            assert(q[a] == old_p[a] && q[b] == old_p[b - 1]);
        } else if a == pos {
            assert(q[b] == old_p[b - 1]);
            K::lemma_total(keys[i], keys[old_p[b - 1] as int]);
        } else {
            assert(q[a] == old_p[a - 1] && q[b] == old_p[b - 1]);
        }
    }
    assert forall|a: int, b: int|
        0 <= a < b < q.len() && #[trigger] keys[q[b] as int].key_le(#[trigger] keys[q[a] as int])
            implies q[a] < q[b] by {
        if a < pos && b < pos {
            assert(q[a] == old_p[a] && q[b] == old_p[b]);
        } else if a < pos && b == pos {
            assert(q[a] == old_p[a]);
            assert(old_p[a] < i);
        } else if a < pos && b > pos {
            assert(q[a] == old_p[a] && q[b] == old_p[b - 1]);
        } else if a == pos {
            assert(q[b] == old_p[b - 1]);
        } else {
            assert(q[a] == old_p[a - 1] && q[b] == old_p[b - 1]);
        }
    }
}

/// The first position of `p` whose key does not come before `keys[i]`, at
/// or after `from`.
proof fn insert_position<K: SortKey>(keys: Seq<K>, p: Seq<usize>, i: int, from: int) -> (pos: int)
    requires
        0 <= from <= p.len(),
        forall|j: int| 0 <= j < from ==> #[trigger] keys[p[j] as int].key_le(keys[i]),
    ensures
        from <= pos <= p.len(),
        forall|j: int| 0 <= j < pos ==> #[trigger] keys[p[j] as int].key_le(keys[i]),
        pos < p.len() ==> !keys[p[pos] as int].key_le(keys[i]),
    decreases p.len() - from,
{
    if from < p.len() && keys[p[from] as int].key_le(keys[i]) {
        insert_position(keys, p, i, from + 1)
    } else {
        from
    }
}

/// A stable sort of the first `i` indices.
proof fn prefix_sort<K: SortKey>(keys: Seq<K>, i: int) -> (p: Seq<usize>)
    requires
        0 <= i <= keys.len() <= usize::MAX,
    ensures
        is_index_permutation(p, i as nat),
        ordered_by(keys, p),
        keeps_ties(keys, p),
    decreases i,
{
    if i == 0 {
        Seq::empty()
    } else {
        let p0 = prefix_sort(keys, i - 1);
        let pos = insert_position(keys, p0, i - 1, 0);
        lemma_insert_sorted(keys, p0, pos, i - 1);
        p0.insert(pos, (i - 1) as usize)
    }
}

/// Every sequence of keys that fits in memory has a stable sort, so
/// [`sorted_order`] is one.
pub proof fn lemma_sorted_order_sorts<K: SortKey>(keys: Seq<K>)
    requires
        keys.len() <= usize::MAX,
    ensures
        stable_sort_of(keys, sorted_order(keys)),
{
    let p = prefix_sort(keys, keys.len() as int);
    assert(stable_sort_of(keys, p));
}

/// The stable sorting permutation of `keys`.
pub open spec fn sorted_order<K: SortKey>(keys: Seq<K>) -> Seq<usize> {
    choose|p: Seq<usize>| stable_sort_of(keys, p)
}

/// A stable sort is unique: two permutations that both sort `keys` stably
/// are the same.
pub proof fn lemma_stable_sort_unique<K: SortKey>(keys: Seq<K>, p: Seq<usize>, q: Seq<usize>)
    requires
        stable_sort_of(keys, p),
        stable_sort_of(keys, q),
    ensures
        p == q,
{
    if exists|i: int| 0 <= i < p.len() && p[i] != q[i] {
        let i0 = choose|i: int| 0 <= i < p.len() && p[i] != q[i];
        let i = first_difference(p, q, i0);
        let a = p[i];
        let b = q[i];
        assert(p.contains((b as int) as usize));
        let jp = choose|j: int| 0 <= j < p.len() && p[j] == b;
        assert(q.contains((a as int) as usize));
        let jq = choose|j: int| 0 <= j < q.len() && q[j] == a;
        if jp < i {
            assert(q[jp] == p[jp]);
        }
        if jq < i {
            assert(p[jq] == q[jq]);
        }
        assert(jp > i);
        assert(jq > i);
        assert(keys[p[i] as int].key_le(keys[p[jp] as int]));
        assert(keys[q[i] as int].key_le(keys[q[jq] as int]));
        assert(a < b);
        assert(b < a);
    }
    assert(p =~= q);
}

/// The smallest index at which `p` and `q` differ, given one at `i`.
proof fn first_difference(p: Seq<usize>, q: Seq<usize>, i: int) -> (k: int)
    requires
        0 <= i < p.len(),
        p.len() == q.len(),
        p[i] != q[i],
    ensures
        0 <= k <= i,
        p[k] != q[k],
        forall|j: int| 0 <= j < k ==> p[j] == q[j],
    decreases i,
{
    if exists|j: int| 0 <= j < i && p[j] != q[j] {
        let j = choose|j: int| 0 <= j < i && p[j] != q[j];
        first_difference(p, q, j)
    } else {
        i
    }
}

/// `s` read in the order `p`.
pub open spec fn permute<A>(s: Seq<A>, p: Seq<usize>) -> Seq<A> {
    Seq::new(p.len(), |i: int| s[p[i] as int])
}

/// `s` sorted stably by `keys` (one key per element).
pub open spec fn sorted_by<A, K: SortKey>(s: Seq<A>, keys: Seq<K>) -> Seq<A> {
    permute(s, sorted_order(keys))
}

/// The permutation `stable_order` computes is the sorted order.
pub proof fn lemma_sorted_order_is<K: SortKey>(keys: Seq<K>, p: Seq<usize>)
    requires
        stable_sort_of(keys, p),
    ensures
        sorted_order(keys) == p,
{
    lemma_stable_sort_unique(keys, sorted_order(keys), p);
}

/// One step of filtering a prefix: the next element is kept exactly when
/// it satisfies the predicate.
pub proof fn lemma_filter_step<A>(s: Seq<A>, pred: spec_fn(A) -> bool, i: int)
    requires
        0 <= i < s.len(),
    ensures
        s.take(i + 1).filter(pred) == (if pred(s[i]) {
            s.take(i).filter(pred).push(s[i])
        } else {
            s.take(i).filter(pred)
        }),
{
    reveal_with_fuel(Seq::filter, 1);
    assert(s.take(i + 1).drop_last() =~= s.take(i));
    assert(s.take(i + 1).last() == s[i]);
}

/// Filtering the whole sequence is filtering its full prefix.
pub proof fn lemma_take_all<A>(s: Seq<A>)
    ensures
        s.take(s.len() as int) == s,
{
    assert(s.take(s.len() as int) =~= s);
}

} // verus!
